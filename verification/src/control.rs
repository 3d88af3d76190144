//! User interface controls.

use vstd::prelude::*;
use crate::codec::dec_digits;
use crate::codec::format_u32;
use crate::element::Elem;
use crate::element::Element;
use crate::element::child_match;
use crate::element::handle_matches_element;
use crate::element::Container;
use crate::element::Handle;
use crate::element::Widget;

verus! {

/// A push button.
pub struct Button {
    pub elem: Elem,
}

impl Button {
    /// A button with no text.
    pub fn new() -> (r: Button)
        ensures
            r.elem.wf(),
            r.elem.abs().attrs == Map::<Seq<char>, Seq<char>>::empty(),
            !r.elem.abs().mapped,
    {
        Button { elem: Elem::new() }
    }

    /// A button with the given title.
    pub fn with_title(title: &str) -> (r: Button)
        ensures
            r.elem.wf(),
            r.elem.abs().attrs == Map::<Seq<char>, Seq<char>>::empty().insert("TITLE"@, title@),
            !r.elem.abs().mapped,
    {
        let mut e = Elem::new();
        e.set_attrib("TITLE", title);
        Button { elem: e }
    }
}

impl Element for Button {
    open spec fn spec_elem(&self) -> Elem {
        self.elem
    }

    open spec fn classname_spec() -> Seq<char> {
        "button"@
    }

    fn target_classname() -> (r: &'static str) {
        "button"
    }

    fn elem(&self) -> (r: &Elem) {
        &self.elem
    }

    fn from_elem(e: Elem) -> (r: Button) {
        Button { elem: e }
    }

    fn dup(&self) -> (r: Button) {
        Button { elem: self.elem.clone() }
    }
}

impl Widget for Button {
    fn map(&mut self) -> (r: Result<Button, Button>) {
        self.elem.set_mapped(true);
        Ok(self.dup())
    }

    fn unmap(&mut self) {
        self.elem.set_mapped(false);
    }

    fn show(&mut self) -> (r: Result<(), String>) {
        self.elem.set_attrib("VISIBLE", "YES");
        self.elem.set_mapped(true);
        Ok(())
    }

    fn conceal(&mut self) -> (r: Button) {
        self.elem.set_attrib("VISIBLE", "NO");
        self.dup()
    }
}

/// A static text or separator line.
pub struct Label {
    pub elem: Elem,
}

impl Label {
    /// A label with no predefined text, image or separator.
    pub fn new() -> (r: Label)
        ensures
            r.elem.wf(),
            r.elem.abs().attrs == Map::<Seq<char>, Seq<char>>::empty(),
            !r.elem.abs().mapped,
    {
        Label { elem: Elem::new() }
    }

    /// A separator line in the given orientation.
    pub fn new_separator(orient: crate::Orientation) -> (r: Label)
        ensures
            r.elem.wf(),
            r.elem.abs().attrs == Map::<Seq<char>, Seq<char>>::empty().insert(
                "SEPARATOR"@,
                if orient is Vertical { "VERTICAL"@ } else { "HORIZONTAL"@ },
            ),
            !r.elem.abs().mapped,
    {
        let mut e = Elem::new();
        e.set_attrib("SEPARATOR", orient.as_cstr());
        Label { elem: e }
    }

    /// A label showing the given text.
    pub fn with_title(label: &str) -> (r: Label)
        ensures
            r.elem.wf(),
            r.elem.abs().attrs == Map::<Seq<char>, Seq<char>>::empty().insert("TITLE"@, label@),
            !r.elem.abs().mapped,
    {
        let mut e = Elem::new();
        e.set_attrib("TITLE", label);
        Label { elem: e }
    }
}

impl Element for Label {
    open spec fn spec_elem(&self) -> Elem {
        self.elem
    }

    open spec fn classname_spec() -> Seq<char> {
        "label"@
    }

    fn target_classname() -> (r: &'static str) {
        "label"
    }

    fn elem(&self) -> (r: &Elem) {
        &self.elem
    }

    fn from_elem(e: Elem) -> (r: Label) {
        Label { elem: e }
    }

    fn dup(&self) -> (r: Label) {
        Label { elem: self.elem.clone() }
    }
}

impl Widget for Label {
    fn map(&mut self) -> (r: Result<Label, Label>) {
        self.elem.set_mapped(true);
        Ok(self.dup())
    }

    fn unmap(&mut self) {
        self.elem.set_mapped(false);
    }

    fn show(&mut self) -> (r: Result<(), String>) {
        self.elem.set_attrib("VISIBLE", "YES");
        self.elem.set_mapped(true);
        Ok(())
    }

    fn conceal(&mut self) -> (r: Label) {
        self.elem.set_attrib("VISIBLE", "NO");
        self.dup()
    }
}

/// An editable text field.
pub struct Text {
    pub elem: Elem,
}

impl Text {
    /// An editable text field.
    pub fn new() -> (r: Text)
        ensures
            r.elem.wf(),
            r.elem.abs().attrs == Map::<Seq<char>, Seq<char>>::empty(),
            !r.elem.abs().mapped,
    {
        Text { elem: Elem::new() }
    }

    /// A spin control: a text field that increments and decrements a number.
    pub fn new_spin() -> (r: Text)
        ensures
            r.elem.wf(),
            r.elem.abs().attrs == Map::<Seq<char>, Seq<char>>::empty().insert("SPIN"@, "YES"@),
            !r.elem.abs().mapped,
    {
        let mut e = Elem::new();
        e.set_attrib("SPIN", "YES");
        Text { elem: e }
    }
}

impl Element for Text {
    open spec fn spec_elem(&self) -> Elem {
        self.elem
    }

    open spec fn classname_spec() -> Seq<char> {
        "text"@
    }

    fn target_classname() -> (r: &'static str) {
        "text"
    }

    fn elem(&self) -> (r: &Elem) {
        &self.elem
    }

    fn from_elem(e: Elem) -> (r: Text) {
        Text { elem: e }
    }

    fn dup(&self) -> (r: Text) {
        Text { elem: self.elem.clone() }
    }
}

impl Widget for Text {
    fn map(&mut self) -> (r: Result<Text, Text>) {
        self.elem.set_mapped(true);
        Ok(self.dup())
    }

    fn unmap(&mut self) {
        self.elem.set_mapped(false);
    }

    fn show(&mut self) -> (r: Result<(), String>) {
        self.elem.set_attrib("VISIBLE", "YES");
        self.elem.set_mapped(true);
        Ok(())
    }

    fn conceal(&mut self) -> (r: Text) {
        self.elem.set_attrib("VISIBLE", "NO");
        self.dup()
    }
}

/// A two-state button.
pub struct Toggle {
    pub elem: Elem,
}

impl Toggle {
    /// A toggle with no text.
    pub fn new() -> (r: Toggle)
        ensures
            r.elem.wf(),
            r.elem.abs().attrs == Map::<Seq<char>, Seq<char>>::empty(),
            !r.elem.abs().mapped,
    {
        Toggle { elem: Elem::new() }
    }

    /// A toggle with the given text.
    pub fn with_title(title: &str) -> (r: Toggle)
        ensures
            r.elem.wf(),
            r.elem.abs().attrs == Map::<Seq<char>, Seq<char>>::empty().insert("TITLE"@, title@),
            !r.elem.abs().mapped,
    {
        let mut e = Elem::new();
        e.set_attrib("TITLE", title);
        Toggle { elem: e }
    }
}

impl Element for Toggle {
    open spec fn spec_elem(&self) -> Elem {
        self.elem
    }

    open spec fn classname_spec() -> Seq<char> {
        "toggle"@
    }

    fn target_classname() -> (r: &'static str) {
        "toggle"
    }

    fn elem(&self) -> (r: &Elem) {
        &self.elem
    }

    fn from_elem(e: Elem) -> (r: Toggle) {
        Toggle { elem: e }
    }

    fn dup(&self) -> (r: Toggle) {
        Toggle { elem: self.elem.clone() }
    }
}

impl Widget for Toggle {
    fn map(&mut self) -> (r: Result<Toggle, Toggle>) {
        self.elem.set_mapped(true);
        Ok(self.dup())
    }

    fn unmap(&mut self) {
        self.elem.set_mapped(false);
    }

    fn show(&mut self) -> (r: Result<(), String>) {
        self.elem.set_attrib("VISIBLE", "YES");
        self.elem.set_mapped(true);
        Ok(())
    }

    fn conceal(&mut self) -> (r: Toggle) {
        self.elem.set_attrib("VISIBLE", "NO");
        self.dup()
    }
}

/// A progress indicator.
pub struct ProgressBar {
    pub elem: Elem,
}

impl ProgressBar {
    /// A progress bar control.
    pub fn new() -> (r: ProgressBar)
        ensures
            r.elem.wf(),
            r.elem.abs().attrs == Map::<Seq<char>, Seq<char>>::empty(),
            !r.elem.abs().mapped,
    {
        ProgressBar { elem: Elem::new() }
    }
}

impl Element for ProgressBar {
    open spec fn spec_elem(&self) -> Elem {
        self.elem
    }

    open spec fn classname_spec() -> Seq<char> {
        "progressbar"@
    }

    fn target_classname() -> (r: &'static str) {
        "progressbar"
    }

    fn elem(&self) -> (r: &Elem) {
        &self.elem
    }

    fn from_elem(e: Elem) -> (r: ProgressBar) {
        ProgressBar { elem: e }
    }

    fn dup(&self) -> (r: ProgressBar) {
        ProgressBar { elem: self.elem.clone() }
    }
}

impl Widget for ProgressBar {
    fn map(&mut self) -> (r: Result<ProgressBar, ProgressBar>) {
        self.elem.set_mapped(true);
        Ok(self.dup())
    }

    fn unmap(&mut self) {
        self.elem.set_mapped(false);
    }

    fn show(&mut self) -> (r: Result<(), String>) {
        self.elem.set_attrib("VISIBLE", "YES");
        self.elem.set_mapped(true);
        Ok(())
    }

    fn conceal(&mut self) -> (r: ProgressBar) {
        self.elem.set_attrib("VISIBLE", "NO");
        self.dup()
    }
}

/// A decorated container holding one child.
pub struct Frame {
    pub elem: Elem,
    pub children: Vec<crate::element::Handle>,
}

impl Frame {
    /// A frame around the given child element.
    pub fn new<E: Element>(child: &E) -> (r: Frame)
        ensures
            r.elem.wf(),
            r.elem.abs().attrs == Map::<Seq<char>, Seq<char>>::empty(),
            !r.elem.abs().mapped,
            r.children@.len() == 1,
            r.children@[0].class@ == E::classname_spec(),
            r.children@[0].elem.abs() == child.spec_elem().abs(),
    {
        let h = crate::element::into_handle(child);
        let mut v: Vec<crate::element::Handle> = Vec::new();
        v.push(h);
        Frame { elem: Elem::new(), children: v }
    }

    /// A frame with no child.
    pub fn new_empty() -> (r: Frame)
        ensures
            r.elem.wf(),
            r.elem.abs().attrs == Map::<Seq<char>, Seq<char>>::empty(),
            !r.elem.abs().mapped,
            r.children@.len() == 0,
    {
        Frame { elem: Elem::new(), children: Vec::new() }
    }
}

impl Element for Frame {
    open spec fn spec_elem(&self) -> Elem {
        self.elem
    }

    open spec fn classname_spec() -> Seq<char> {
        "frame"@
    }

    fn target_classname() -> (r: &'static str) {
        "frame"
    }

    fn elem(&self) -> (r: &Elem) {
        &self.elem
    }

    fn from_elem(e: Elem) -> (r: Frame) {
        Frame { elem: e, children: Vec::new() }
    }

    fn dup(&self) -> (r: Frame) {
        let mut v: Vec<crate::element::Handle> = Vec::new();
        let n = self.children.len();
        let mut i: usize = 0;
        while i < n
            invariant
                i <= n,
                n == self.children@.len(),
            decreases n - i,
        {
            v.push(self.children[i].clone());
            i = i + 1;
        }
        Frame { elem: self.elem.clone(), children: v }
    }
}


impl Container for Frame {
    open spec fn spec_children(&self) -> Seq<Handle> {
        self.children@
    }

    fn append<E: Element>(&mut self, new_child: E) -> (r: Result<Handle, E>) {
        let h = crate::element::into_handle(&new_child);
        self.children.push(h);
        Ok(crate::element::into_handle(&*self))
    }

    fn child(&self, pos: usize) -> (r: Option<Handle>) {
        if pos < self.children.len() {
            Some(self.children[pos].clone())
        } else {
            None
        }
    }

    fn child_count(&self) -> (r: usize) {
        self.children.len()
    }

    fn child_pos<E: Element>(&self, child: &E) -> (r: Option<usize>) {
        let n = self.children.len();
        let mut i: usize = 0;
        while i < n
            invariant
                n == self.children@.len(),
                i <= n,
                forall|q: int|
                    0 <= q < i ==> !child_match(
                        #[trigger] self.children@[q],
                        E::classname_spec(),
                        child.spec_elem(),
                    ),
            decreases n - i,
        {
            if handle_matches_element(&self.children[i], child) {
                return Some(i);
            }
            i = i + 1;
        }
        None
    }

    fn insert<E1: Element, E2: Element>(&mut self, ref_child: &E1, new_child: E2) -> (r: Result<
        Handle,
        E2,
    >) {
        let pos = self.child_pos(ref_child);
        match pos {
            Some(p) => {
                let h = crate::element::into_handle(&new_child);
                let ghost h0 = h;
                self.children.insert(p, h);
                proof {
                    old(self).children@.insert_ensures(p as int, h0);
                }
                Ok(crate::element::into_handle(&*self))
            },
            None => Err(new_child),
        }
    }
}

impl Widget for Frame {
    fn map(&mut self) -> (r: Result<Frame, Frame>) {
        self.elem.set_mapped(true);
        Ok(self.dup())
    }

    fn unmap(&mut self) {
        self.elem.set_mapped(false);
    }

    fn show(&mut self) -> (r: Result<(), String>) {
        self.elem.set_attrib("VISIBLE", "YES");
        self.elem.set_mapped(true);
        Ok(())
    }

    fn conceal(&mut self) -> (r: Frame) {
        self.elem.set_attrib("VISIBLE", "NO");
        self.dup()
    }
}

/// Whether a list item was selected or deselected.
pub enum ListItemState {
    Deselected,
    Selected,
}

/// The attributes after writing the first `n` items: item `i`, numbering
/// from 1, sits under the numeral of `i`.
pub open spec fn items_written(
    m: Map<Seq<char>, Seq<char>>,
    items: Seq<Seq<char>>,
    n: int,
) -> Map<Seq<char>, Seq<char>>
    decreases n,
{
    if n <= 0 {
        m
    } else {
        items_written(m, items, n - 1).insert(dec_digits(n as nat), items[n - 1])
    }
}

/// The attributes left when every numbered item attribute is dropped, as
/// a wholesale item removal leaves them.
pub open spec fn strip_items(m: Map<Seq<char>, Seq<char>>) -> Map<Seq<char>, Seq<char>> {
    m.restrict(Set::new(|k: Seq<char>| !crate::codec::numeral_key(k)))
}

/// Each written item can be read back from its numbered attribute.
pub proof fn lemma_items_written_at(
    m: Map<Seq<char>, Seq<char>>,
    items: Seq<Seq<char>>,
    n: int,
    i: int,
)
    requires
        0 <= i < n <= items.len(),
    ensures
        items_written(m, items, n).dom().contains(dec_digits((i + 1) as nat)),
        items_written(m, items, n)[dec_digits((i + 1) as nat)] == items[i],
    decreases n,
{
    if i == n - 1 {
    } else {
        lemma_items_written_at(m, items, n - 1, i);
        if dec_digits(n as nat) == dec_digits((i + 1) as nat) {
            crate::codec::lemma_dec_digits_injective(n as nat, (i + 1) as nat);
        }
    }
}

/// A list of items, shown flat, as a dropdown, or with an edit box.
///
/// The items live in the element's numbered attributes and nowhere else:
/// item `i`, numbering from 1, is the value stored under the numeral of
/// `i`, exactly as the toolkit keeps them.
pub struct List {
    pub elem: Elem,
}

impl List {
    /// A list with no items.
    pub fn new() -> (r: List)
        ensures
            r.elem.wf(),
            r.elem.abs().attrs == Map::<Seq<char>, Seq<char>>::empty(),
            !r.elem.abs().mapped,
    {
        List { elem: Elem::new() }
    }

    /// A list shown as a dropdown.
    pub fn new_dropdown() -> (r: List)
        ensures
            r.elem.wf(),
            r.elem.abs().attrs == Map::<Seq<char>, Seq<char>>::empty().insert("DROPDOWN"@, "YES"@),
            !r.elem.abs().mapped,
    {
        let mut l = List::new();
        l.elem.set_attrib("DROPDOWN", "YES");
        l
    }

    /// A list with an edit box for text input.
    pub fn new_editbox() -> (r: List)
        ensures
            r.elem.wf(),
            r.elem.abs().attrs == Map::<Seq<char>, Seq<char>>::empty().insert("EDITBOX"@, "YES"@),
            !r.elem.abs().mapped,
    {
        let mut l = List::new();
        l.elem.set_attrib("EDITBOX", "YES");
        l
    }

    /// Replaces the whole list of items: the old numbered attributes are
    /// dropped, then item `i` (numbering from 1) is written under the
    /// numeral of `i`.
    pub fn set_items(&mut self, items: &Vec<String>) -> (r: List)
        requires
            old(self).elem.wf(),
            items@.len() <= u32::MAX,
        ensures
            final(self).elem.wf(),
            final(self).elem.abs().attrs == items_written(
                strip_items(old(self).elem.abs().attrs),
                items@.map_values(|s: String| s@),
                items@.len() as int,
            ),
            final(self).elem.abs().mapped == old(self).elem.abs().mapped,
            r.elem.abs() == final(self).elem.abs(),
    {
        self.clear();
        let ghost cleared = self.elem.abs().attrs;
        let ghost ws = items@.map_values(|s: String| s@);
        let n = items.len();
        let mut i: usize = 0;
        while i < n
            invariant
                i <= n,
                n == items@.len(),
                n <= u32::MAX,
                ws == items@.map_values(|s: String| s@),
                self.elem.wf(),
                self.elem.abs().attrs == items_written(cleared, ws, i as int),
                self.elem.abs().mapped == old(self).elem.abs().mapped,
            decreases n - i,
        {
            let name = format_u32((i + 1) as u32);
            self.elem.set_attrib(name.as_str(), items[i].as_str());
            proof {
                assert(ws[i as int] == items@[i as int]@);
            }
            i = i + 1;
        }
        self.dup()
    }

    /// The item at the given number, which starts at 1: the value stored
    /// under the attribute named by the numeral of the number.
    pub fn item(&self, id: u32) -> (r: Option<String>)
        requires
            id >= 1,
            self.elem.wf(),
        ensures
            match r {
                Some(v) => self.elem.abs().attrs.dom().contains(dec_digits(id as nat)) && v@
                    == self.elem.abs().attrs[dec_digits(id as nat)],
                None => !self.elem.abs().attrs.dom().contains(dec_digits(id as nat)),
            },
    {
        let name = format_u32(id);
        self.elem.attrib(name.as_str())
    }

    /// Removes every item: every numbered attribute is dropped, the way
    /// the toolkit's wholesale removal clears the item storage.
    pub fn clear(&mut self) -> (r: List)
        requires
            old(self).elem.wf(),
        ensures
            final(self).elem.wf(),
            final(self).elem.abs().attrs == strip_items(old(self).elem.abs().attrs),
            final(self).elem.abs().mapped == old(self).elem.abs().mapped,
            r.elem.abs() == final(self).elem.abs(),
    {
        self.elem.attrs.unset_numeric();
        self.dup()
    }
}

impl Element for List {
    open spec fn spec_elem(&self) -> Elem {
        self.elem
    }

    open spec fn classname_spec() -> Seq<char> {
        "list"@
    }

    fn target_classname() -> (r: &'static str) {
        "list"
    }

    fn elem(&self) -> (r: &Elem) {
        &self.elem
    }

    fn from_elem(e: Elem) -> (r: List) {
        List { elem: e }
    }

    fn dup(&self) -> (r: List) {
        List { elem: self.elem.clone() }
    }
}

impl Widget for List {
    fn map(&mut self) -> (r: Result<List, List>) {
        self.elem.set_mapped(true);
        Ok(self.dup())
    }

    fn unmap(&mut self) {
        self.elem.set_mapped(false);
    }

    fn show(&mut self) -> (r: Result<(), String>) {
        self.elem.set_attrib("VISIBLE", "YES");
        self.elem.set_mapped(true);
        Ok(())
    }

    fn conceal(&mut self) -> (r: List) {
        self.elem.set_attrib("VISIBLE", "NO");
        self.dup()
    }
}

} // verus!
