//! Abstract layout composition containers.

use vstd::prelude::*;
use crate::element::child_match;
use crate::element::handle_matches_element;
use crate::element::Container;
use crate::element::Elem;
use crate::element::Element;
use crate::element::Handle;
use crate::element::Widget;

verus! {

/// A void element that expands into empty space inside a box.
pub struct Fill {
    pub elem: Elem,
}

impl Fill {
    pub fn new() -> (r: Fill)
        ensures
            r.elem.wf(),
            r.elem.abs().attrs == Map::<Seq<char>, Seq<char>>::empty(),
            !r.elem.abs().mapped,
    {
        Fill { elem: Elem::new() }
    }
}

impl Element for Fill {
    open spec fn spec_elem(&self) -> Elem {
        self.elem
    }

    open spec fn classname_spec() -> Seq<char> {
        "fill"@
    }

    fn target_classname() -> (r: &'static str) {
        "fill"
    }

    fn elem(&self) -> (r: &Elem) {
        &self.elem
    }

    fn from_elem(e: Elem) -> (r: Fill) {
        Fill { elem: e }
    }

    fn dup(&self) -> (r: Fill) {
        Fill { elem: self.elem.clone() }
    }
}

impl Widget for Fill {
    fn map(&mut self) -> (r: Result<Fill, Fill>) {
        self.elem.set_mapped(true);
        Ok(self.dup())
    }

    fn unmap(&mut self) {
        self.elem.set_mapped(false);
    }

    fn show(&mut self) -> (r: Result<(), String>) {
        self.elem.set_attrib("VISIBLE", "YES");
        self.elem.set_mapped(true);
        Ok(())
    }

    fn conceal(&mut self) -> (r: Fill) {
        self.elem.set_attrib("VISIBLE", "NO");
        self.dup()
    }
}

fn clone_handles(hs: &Vec<Handle>) -> (r: Vec<Handle>)
    ensures
        r@.len() == hs@.len(),
        forall|i: int| 0 <= i < hs@.len() ==> {
            &&& (#[trigger] r@[i]).class == hs@[i].class
            &&& r@[i].elem.abs() == hs@[i].elem.abs()
            &&& r@[i].elem.wf() == hs@[i].elem.wf()
        },
{
    let mut v: Vec<Handle> = Vec::new();
    let n = hs.len();
    let mut i: usize = 0;
    while i < n
        invariant
            i <= n,
            n == hs@.len(),
            v@.len() == i,
            forall|j: int| 0 <= j < i ==> {
                &&& (#[trigger] v@[j]).class == hs@[j].class
                &&& v@[j].elem.abs() == hs@[j].elem.abs()
                &&& v@[j].elem.wf() == hs@[j].elem.wf()
            },
        decreases n - i,
    {
        v.push(hs[i].clone());
        i = i + 1;
    }
    v
}

/// A container that arranges its children left to right.
pub struct HBox {
    pub elem: Elem,
    pub children: Vec<Handle>,
}

impl HBox {
    /// A horizontal box holding the given children, in order.
    pub fn new(elems: Vec<Handle>) -> (r: HBox)
        ensures
            r.elem.wf(),
            r.elem.abs().attrs == Map::<Seq<char>, Seq<char>>::empty(),
            !r.elem.abs().mapped,
            r.children@ == elems@,
    {
        HBox { elem: Elem::new(), children: elems }
    }
}

impl Element for HBox {
    open spec fn spec_elem(&self) -> Elem {
        self.elem
    }

    open spec fn classname_spec() -> Seq<char> {
        "hbox"@
    }

    fn target_classname() -> (r: &'static str) {
        "hbox"
    }

    fn elem(&self) -> (r: &Elem) {
        &self.elem
    }

    fn from_elem(e: Elem) -> (r: HBox) {
        HBox { elem: e, children: Vec::new() }
    }

    fn dup(&self) -> (r: HBox) {
        HBox { elem: self.elem.clone(), children: clone_handles(&self.children) }
    }
}


impl Container for HBox {
    open spec fn spec_children(&self) -> Seq<Handle> {
        self.children@
    }

    fn append<E: Element>(&mut self, new_child: E) -> (r: Result<Handle, E>) {
        let h = crate::element::into_handle(&new_child);
        self.children.push(h);
        Ok(crate::element::into_handle(&*self))
    }

    fn child(&self, pos: usize) -> (r: Option<Handle>) {
        if pos < self.children.len() {
            Some(self.children[pos].clone())
        } else {
            None
        }
    }

    fn child_count(&self) -> (r: usize) {
        self.children.len()
    }

    fn child_pos<E: Element>(&self, child: &E) -> (r: Option<usize>) {
        let n = self.children.len();
        let mut i: usize = 0;
        while i < n
            invariant
                n == self.children@.len(),
                i <= n,
                forall|q: int|
                    0 <= q < i ==> !child_match(
                        #[trigger] self.children@[q],
                        E::classname_spec(),
                        child.spec_elem(),
                    ),
            decreases n - i,
        {
            if handle_matches_element(&self.children[i], child) {
                return Some(i);
            }
            i = i + 1;
        }
        None
    }

    fn insert<E1: Element, E2: Element>(&mut self, ref_child: &E1, new_child: E2) -> (r: Result<
        Handle,
        E2,
    >) {
        let pos = self.child_pos(ref_child);
        match pos {
            Some(p) => {
                let h = crate::element::into_handle(&new_child);
                let ghost h0 = h;
                self.children.insert(p, h);
                proof {
                    old(self).children@.insert_ensures(p as int, h0);
                }
                Ok(crate::element::into_handle(&*self))
            },
            None => Err(new_child),
        }
    }
}

impl Widget for HBox {
    fn map(&mut self) -> (r: Result<HBox, HBox>) {
        self.elem.set_mapped(true);
        Ok(self.dup())
    }

    fn unmap(&mut self) {
        self.elem.set_mapped(false);
    }

    fn show(&mut self) -> (r: Result<(), String>) {
        self.elem.set_attrib("VISIBLE", "YES");
        self.elem.set_mapped(true);
        Ok(())
    }

    fn conceal(&mut self) -> (r: HBox) {
        self.elem.set_attrib("VISIBLE", "NO");
        self.dup()
    }
}

/// A container that arranges its children top to bottom.
pub struct VBox {
    pub elem: Elem,
    pub children: Vec<Handle>,
}

impl VBox {
    /// A vertical box holding the given children, in order.
    pub fn new(elems: Vec<Handle>) -> (r: VBox)
        ensures
            r.elem.wf(),
            r.elem.abs().attrs == Map::<Seq<char>, Seq<char>>::empty(),
            !r.elem.abs().mapped,
            r.children@ == elems@,
    {
        VBox { elem: Elem::new(), children: elems }
    }
}

impl Element for VBox {
    open spec fn spec_elem(&self) -> Elem {
        self.elem
    }

    open spec fn classname_spec() -> Seq<char> {
        "vbox"@
    }

    fn target_classname() -> (r: &'static str) {
        "vbox"
    }

    fn elem(&self) -> (r: &Elem) {
        &self.elem
    }

    fn from_elem(e: Elem) -> (r: VBox) {
        VBox { elem: e, children: Vec::new() }
    }

    fn dup(&self) -> (r: VBox) {
        VBox { elem: self.elem.clone(), children: clone_handles(&self.children) }
    }
}


impl Container for VBox {
    open spec fn spec_children(&self) -> Seq<Handle> {
        self.children@
    }

    fn append<E: Element>(&mut self, new_child: E) -> (r: Result<Handle, E>) {
        let h = crate::element::into_handle(&new_child);
        self.children.push(h);
        Ok(crate::element::into_handle(&*self))
    }

    fn child(&self, pos: usize) -> (r: Option<Handle>) {
        if pos < self.children.len() {
            Some(self.children[pos].clone())
        } else {
            None
        }
    }

    fn child_count(&self) -> (r: usize) {
        self.children.len()
    }

    fn child_pos<E: Element>(&self, child: &E) -> (r: Option<usize>) {
        let n = self.children.len();
        let mut i: usize = 0;
        while i < n
            invariant
                n == self.children@.len(),
                i <= n,
                forall|q: int|
                    0 <= q < i ==> !child_match(
                        #[trigger] self.children@[q],
                        E::classname_spec(),
                        child.spec_elem(),
                    ),
            decreases n - i,
        {
            if handle_matches_element(&self.children[i], child) {
                return Some(i);
            }
            i = i + 1;
        }
        None
    }

    fn insert<E1: Element, E2: Element>(&mut self, ref_child: &E1, new_child: E2) -> (r: Result<
        Handle,
        E2,
    >) {
        let pos = self.child_pos(ref_child);
        match pos {
            Some(p) => {
                let h = crate::element::into_handle(&new_child);
                let ghost h0 = h;
                self.children.insert(p, h);
                proof {
                    old(self).children@.insert_ensures(p as int, h0);
                }
                Ok(crate::element::into_handle(&*self))
            },
            None => Err(new_child),
        }
    }
}

impl Widget for VBox {
    fn map(&mut self) -> (r: Result<VBox, VBox>) {
        self.elem.set_mapped(true);
        Ok(self.dup())
    }

    fn unmap(&mut self) {
        self.elem.set_mapped(false);
    }

    fn show(&mut self) -> (r: Result<(), String>) {
        self.elem.set_attrib("VISIBLE", "YES");
        self.elem.set_mapped(true);
        Ok(())
    }

    fn conceal(&mut self) -> (r: VBox) {
        self.elem.set_attrib("VISIBLE", "NO");
        self.dup()
    }
}

/// A container that makes its descendant toggles mutually exclusive.
pub struct Radio {
    pub elem: Elem,
    pub children: Vec<Handle>,
}

impl Radio {
    /// A radio wrapping the given child, usually a box of toggles.
    pub fn new<E: Element>(child: &E) -> (r: Radio)
        ensures
            r.elem.wf(),
            r.elem.abs().attrs == Map::<Seq<char>, Seq<char>>::empty(),
            !r.elem.abs().mapped,
            r.children@.len() == 1,
            r.children@[0].class@ == E::classname_spec(),
            r.children@[0].elem.abs() == child.spec_elem().abs(),
    {
        let h = crate::element::into_handle(child);
        let mut v: Vec<Handle> = Vec::new();
        v.push(h);
        Radio { elem: Elem::new(), children: v }
    }

    /// A radio with no wrapped content.
    pub fn new_empty() -> (r: Radio)
        ensures
            r.elem.wf(),
            r.elem.abs().attrs == Map::<Seq<char>, Seq<char>>::empty(),
            !r.elem.abs().mapped,
            r.children@.len() == 0,
    {
        Radio { elem: Elem::new(), children: Vec::new() }
    }
}

impl Element for Radio {
    open spec fn spec_elem(&self) -> Elem {
        self.elem
    }

    open spec fn classname_spec() -> Seq<char> {
        "radio"@
    }

    fn target_classname() -> (r: &'static str) {
        "radio"
    }

    fn elem(&self) -> (r: &Elem) {
        &self.elem
    }

    fn from_elem(e: Elem) -> (r: Radio) {
        Radio { elem: e, children: Vec::new() }
    }

    fn dup(&self) -> (r: Radio) {
        Radio { elem: self.elem.clone(), children: clone_handles(&self.children) }
    }
}


impl Container for Radio {
    open spec fn spec_children(&self) -> Seq<Handle> {
        self.children@
    }

    fn append<E: Element>(&mut self, new_child: E) -> (r: Result<Handle, E>) {
        let h = crate::element::into_handle(&new_child);
        self.children.push(h);
        Ok(crate::element::into_handle(&*self))
    }

    fn child(&self, pos: usize) -> (r: Option<Handle>) {
        if pos < self.children.len() {
            Some(self.children[pos].clone())
        } else {
            None
        }
    }

    fn child_count(&self) -> (r: usize) {
        self.children.len()
    }

    fn child_pos<E: Element>(&self, child: &E) -> (r: Option<usize>) {
        let n = self.children.len();
        let mut i: usize = 0;
        while i < n
            invariant
                n == self.children@.len(),
                i <= n,
                forall|q: int|
                    0 <= q < i ==> !child_match(
                        #[trigger] self.children@[q],
                        E::classname_spec(),
                        child.spec_elem(),
                    ),
            decreases n - i,
        {
            if handle_matches_element(&self.children[i], child) {
                return Some(i);
            }
            i = i + 1;
        }
        None
    }

    fn insert<E1: Element, E2: Element>(&mut self, ref_child: &E1, new_child: E2) -> (r: Result<
        Handle,
        E2,
    >) {
        let pos = self.child_pos(ref_child);
        match pos {
            Some(p) => {
                let h = crate::element::into_handle(&new_child);
                let ghost h0 = h;
                self.children.insert(p, h);
                proof {
                    old(self).children@.insert_ensures(p as int, h0);
                }
                Ok(crate::element::into_handle(&*self))
            },
            None => Err(new_child),
        }
    }
}

impl Widget for Radio {
    fn map(&mut self) -> (r: Result<Radio, Radio>) {
        self.elem.set_mapped(true);
        Ok(self.dup())
    }

    fn unmap(&mut self) {
        self.elem.set_mapped(false);
    }

    fn show(&mut self) -> (r: Result<(), String>) {
        self.elem.set_attrib("VISIBLE", "YES");
        self.elem.set_mapped(true);
        Ok(())
    }

    fn conceal(&mut self) -> (r: Radio) {
        self.elem.set_attrib("VISIBLE", "NO");
        self.dup()
    }
}

} // verus!
