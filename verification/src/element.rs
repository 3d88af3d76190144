//! Common state and operations shared by every toolkit element.
//!
//! Each native element carries a string-keyed attribute bag and a mapped
//! flag (whether its native counterpart has been created).  `Elem` is the
//! binding's record of that state; the `Element` trait exposes it uniformly
//! on every wrapper type, and `Handle` is the type-erased wrapper that can
//! stand for any element and be cast back by class name.

use vstd::prelude::*;
use crate::attr::AttrBag;
use crate::codec::format_rgb;
use crate::codec::format_u32;
use crate::codec::parse_rgb;
use crate::codec::parse_u32;
use crate::codec::spec_decode_bool;
use crate::codec::spec_parse_rgb;
use crate::codec::decode_bool;
use crate::codec::encode_bool;
use crate::codec::dec_digits;
use crate::codec::dec_val;
use crate::codec::all_digits;
use crate::strutil::str_eq;

verus! {

/// The abstract state of one element: its attributes and whether its
/// native counterpart exists.
pub ghost struct ElemAbs {
    pub attrs: Map<Seq<char>, Seq<char>>,
    pub mapped: bool,
}

/// The binding's record of one element's state.
pub struct Elem {
    pub attrs: AttrBag,
    pub mapped: bool,
}

impl Elem {
    pub open spec fn wf(&self) -> bool {
        self.attrs.wf()
    }

    pub open spec fn abs(&self) -> ElemAbs {
        ElemAbs { attrs: self.attrs@, mapped: self.mapped }
    }

    /// A fresh element: no attributes, not mapped.
    pub fn new() -> (r: Elem)
        ensures
            r.wf(),
            r.abs().attrs == Map::<Seq<char>, Seq<char>>::empty(),
            !r.abs().mapped,
    {
        Elem { attrs: AttrBag::new(), mapped: false }
    }

    /// Stores a string attribute.
    pub fn set_attrib(&mut self, name: &str, value: &str)
        requires
            old(self).wf(),
        ensures
            final(self).wf(),
            final(self).abs().attrs == old(self).abs().attrs.insert(name@, value@),
            final(self).abs().mapped == old(self).abs().mapped,
    {
        self.attrs.set(name, value);
    }

    /// Reads a string attribute.
    pub fn attrib(&self, name: &str) -> (r: Option<String>)
        requires
            self.wf(),
        ensures
            match r {
                Some(v) => self.abs().attrs.dom().contains(name@) && v@ == self.abs().attrs[name@],
                None => !self.abs().attrs.dom().contains(name@),
            },
    {
        self.attrs.get(name)
    }

    /// Whether an attribute of this name is stored.
    pub fn does_attrib_exist(&self, name: &str) -> (r: bool)
        ensures
            r == self.abs().attrs.dom().contains(name@),
    {
        self.attrs.contains(name)
    }

    /// Drops an attribute, so the toolkit default applies again.
    pub fn clear_attrib(&mut self, name: &str)
        requires
            old(self).wf(),
        ensures
            final(self).wf(),
            final(self).abs().attrs == old(self).abs().attrs.remove(name@),
            final(self).abs().mapped == old(self).abs().mapped,
    {
        self.attrs.unset(name);
    }

    /// Drops an attribute so inherited defaults apply again down the tree.
    pub fn reset_attrib(&mut self, name: &str)
        requires
            old(self).wf(),
        ensures
            final(self).wf(),
            final(self).abs().attrs == old(self).abs().attrs.remove(name@),
            final(self).abs().mapped == old(self).abs().mapped,
    {
        self.attrs.unset(name);
    }

    /// Stores a boolean attribute under the `YES` / `NO` convention.
    pub fn set_attrib_bool(&mut self, name: &str, value: bool)
        requires
            old(self).wf(),
        ensures
            final(self).wf(),
            final(self).abs().attrs == old(self).abs().attrs.insert(name@, crate::codec::bool_text(value)),
            final(self).abs().mapped == old(self).abs().mapped,
    {
        let v = encode_bool(value);
        self.attrs.set(name, v);
    }

    /// Reads an attribute as a boolean per the `YES` / `NO` convention.
    pub fn attrib_bool(&self, name: &str) -> (r: Option<bool>)
        requires
            self.wf(),
        ensures
            r == (if self.abs().attrs.dom().contains(name@) {
                spec_decode_bool(self.abs().attrs[name@])
            } else {
                Option::<bool>::None
            }),
    {
        match self.attrs.get(name) {
            Some(v) => decode_bool(v.as_str()),
            None => None,
        }
    }

    /// Stores a numeric attribute as its decimal numeral.
    pub fn set_attrib_u32(&mut self, name: &str, value: u32)
        requires
            old(self).wf(),
        ensures
            final(self).wf(),
            final(self).abs().attrs == old(self).abs().attrs.insert(name@, dec_digits(value as nat)),
            final(self).abs().mapped == old(self).abs().mapped,
    {
        let v = format_u32(value);
        self.attrs.set(name, v.as_str());
    }

    /// Reads an attribute as a decimal number.
    pub fn attrib_u32(&self, name: &str) -> (r: Option<u32>)
        requires
            self.wf(),
        ensures
            match r {
                Some(v) => {
                    &&& self.abs().attrs.dom().contains(name@)
                    &&& all_digits(self.abs().attrs[name@])
                    &&& self.abs().attrs[name@].len() > 0
                    &&& v as nat == dec_val(self.abs().attrs[name@])
                },
                None => !self.abs().attrs.dom().contains(name@)
                    || self.abs().attrs[name@].len() == 0
                    || !all_digits(self.abs().attrs[name@])
                    || dec_val(self.abs().attrs[name@]) > u32::MAX,
            },
    {
        match self.attrs.get(name) {
            Some(v) => parse_u32(v.as_str()),
            None => None,
        }
    }

    /// Stores a color attribute as an `R G B` triple.
    pub fn set_attrib_rgb(&mut self, name: &str, rgb: (u8, u8, u8))
        requires
            old(self).wf(),
        ensures
            final(self).wf(),
            final(self).abs().attrs == old(self).abs().attrs.insert(
                name@,
                crate::codec::rgb_text(rgb.0, rgb.1, rgb.2),
            ),
            final(self).abs().mapped == old(self).abs().mapped,
    {
        let v = format_rgb(rgb);
        self.attrs.set(name, v.as_str());
    }

    /// Reads a color attribute written as an `R G B` triple.
    pub fn attrib_rgb(&self, name: &str) -> (r: Option<(u8, u8, u8)>)
        requires
            self.wf(),
        ensures
            r == (if self.abs().attrs.dom().contains(name@) {
                spec_parse_rgb(self.abs().attrs[name@])
            } else {
                Option::<(u8, u8, u8)>::None
            }),
    {
        match self.attrs.get(name) {
            Some(v) => parse_rgb(v.as_str()),
            None => None,
        }
    }

    /// Records that the native counterpart has been created.
    pub fn set_mapped(&mut self, mapped: bool)
        requires
            old(self).wf(),
        ensures
            final(self).wf(),
            final(self).abs().attrs == old(self).abs().attrs,
            final(self).abs().mapped == mapped,
    {
        self.mapped = mapped;
    }
}

impl Clone for Elem {
    fn clone(&self) -> (res: Elem)
        ensures
            res.abs() == self.abs(),
            res.wf() == self.wf(),
    {
        Elem { attrs: self.attrs.clone(), mapped: self.mapped }
    }
}

/// Every wrapper around a toolkit element.
///
/// A type implementing this trait owns an [`Elem`] with the element's state
/// and names the toolkit class it stands for, which is what class-based
/// downcasting from a [`Handle`] checks.
pub trait Element: Sized {
    /// The element state this wrapper holds.
    spec fn spec_elem(&self) -> Elem;

    /// The toolkit class name this wrapper targets.
    spec fn classname_spec() -> Seq<char>;

    fn target_classname() -> (r: &'static str)
        ensures
            r@ == Self::classname_spec(),
    ;

    fn elem(&self) -> (r: &Elem)
        ensures
            *r == self.spec_elem(),
    ;

    /// Rewraps bare element state in this wrapper type.  State particular to
    /// the wrapper (anything beyond the element core) starts out fresh.
    fn from_elem(e: Elem) -> (r: Self)
        ensures
            r.spec_elem() == e,
    ;

    /// Another wrapper holding the same element state.
    fn dup(&self) -> (r: Self)
        ensures
            r.spec_elem().abs() == self.spec_elem().abs(),
            r.spec_elem().wf() == self.spec_elem().wf(),
    ;
}

/// A type-erased wrapper that can stand for any element.
///
/// It keeps the class name of the element it was made from, so that
/// [`Handle::try_downcast`] can recover the concrete wrapper type.
pub struct Handle {
    pub class: String,
    pub elem: Elem,
}

impl Handle {
    /// Converts this handle back into a concrete wrapper if the classes are
    /// compatible.  The attribute state carries over; state particular to the
    /// target wrapper type starts out fresh.
    pub fn try_downcast<E: Element>(self) -> (r: Result<E, Handle>)
        ensures
            match r {
                Ok(e) => {
                    &&& self.class@ == E::classname_spec()
                        || E::classname_spec() == "__iuprusthandle"@
                    &&& e.spec_elem() == self.elem
                },
                Err(h) => {
                    &&& h == self
                    &&& self.class@ != E::classname_spec()
                    &&& E::classname_spec() != "__iuprusthandle"@
                },
            },
    {
        let target = E::target_classname();
        if str_eq(self.class.as_str(), target) || str_eq(target, "__iuprusthandle") {
            Ok(E::from_elem(self.elem))
        } else {
            Err(self)
        }
    }
}

impl Element for Handle {
    open spec fn spec_elem(&self) -> Elem {
        self.elem
    }

    open spec fn classname_spec() -> Seq<char> {
        "__iuprusthandle"@
    }

    fn target_classname() -> (r: &'static str) {
        "__iuprusthandle"
    }

    fn elem(&self) -> (r: &Elem) {
        &self.elem
    }

    fn from_elem(e: Elem) -> (r: Handle) {
        Handle { class: String::from_str("__iuprusthandle"), elem: e }
    }

    fn dup(&self) -> (r: Handle) {
        Handle { class: self.class.clone(), elem: self.elem.clone() }
    }
}

impl Clone for Handle {
    fn clone(&self) -> (res: Handle)
        ensures
            res.class == self.class,
            res.elem.abs() == self.elem.abs(),
            res.elem.wf() == self.elem.wf(),
    {
        Handle { class: self.class.clone(), elem: self.elem.clone() }
    }
}

/// Erases a wrapper into a [`Handle`] carrying its class name.
pub fn into_handle<E: Element>(e: &E) -> (r: Handle)
    ensures
        r.class@ == E::classname_spec(),
        r.elem.abs() == e.spec_elem().abs(),
        r.elem.wf() == e.spec_elem().wf(),
{
    Handle { class: String::from_str(E::target_classname()), elem: e.elem().clone() }
}

/// A graphical element: one that can be created natively, shown and hidden.
pub trait Widget: Element {
    /// Asks for the native counterpart to be created.
    fn map(&mut self) -> (r: Result<Self, Self>)
        requires
            old(self).spec_elem().wf(),
        ensures
            final(self).spec_elem().wf(),
            final(self).spec_elem().abs().attrs == old(self).spec_elem().abs().attrs,
            final(self).spec_elem().abs().mapped,
            r matches Ok(w) && w.spec_elem().abs() == final(self).spec_elem().abs(),
    ;

    /// Discards the native counterpart.
    fn unmap(&mut self)
        requires
            old(self).spec_elem().wf(),
        ensures
            final(self).spec_elem().wf(),
            final(self).spec_elem().abs().attrs == old(self).spec_elem().abs().attrs,
            !final(self).spec_elem().abs().mapped,
    ;

    /// Shows the element: maps it if needed and sets `VISIBLE` to `YES`.
    fn show(&mut self) -> (r: Result<(), String>)
        requires
            old(self).spec_elem().wf(),
        ensures
            final(self).spec_elem().wf(),
            final(self).spec_elem().abs().attrs == old(self).spec_elem().abs().attrs.insert(
                "VISIBLE"@,
                "YES"@,
            ),
            final(self).spec_elem().abs().mapped,
            r matches Ok(u) && u == (),
    ;

    /// Hides the element, as setting `VISIBLE` to `NO` would.
    fn conceal(&mut self) -> (r: Self)
        requires
            old(self).spec_elem().wf(),
        ensures
            final(self).spec_elem().wf(),
            final(self).spec_elem().abs().attrs == old(self).spec_elem().abs().attrs.insert(
                "VISIBLE"@,
                "NO"@,
            ),
            final(self).spec_elem().abs().mapped == old(self).spec_elem().abs().mapped,
            r.spec_elem().abs() == final(self).spec_elem().abs(),
    ;
}

/// The toolkit's global attribute environment, a string-keyed store of its
/// own beside the per-element bags.
pub struct Globals {
    pub attrs: AttrBag,
}

impl Globals {
    pub fn new() -> (r: Globals)
        ensures
            r.attrs.wf(),
            r.attrs@ == Map::<Seq<char>, Seq<char>>::empty(),
    {
        Globals { attrs: AttrBag::new() }
    }

    /// Sets an attribute in the global environment.
    pub fn set_global(&mut self, name: &str, value: &str)
        requires
            old(self).attrs.wf(),
        ensures
            final(self).attrs.wf(),
            final(self).attrs@ == old(self).attrs@.insert(name@, value@),
    {
        self.attrs.set(name, value);
    }

    /// Reads an attribute from the global environment.
    pub fn global(&self, name: &str) -> (r: Option<String>)
        requires
            self.attrs.wf(),
        ensures
            match r {
                Some(v) => self.attrs@.dom().contains(name@) && v@ == self.attrs@[name@],
                None => !self.attrs@.dom().contains(name@),
            },
    {
        self.attrs.get(name)
    }

    /// Clears a global attribute.
    pub fn clear_attrib(&mut self, name: &str)
        requires
            old(self).attrs.wf(),
        ensures
            final(self).attrs.wf(),
            final(self).attrs@ == old(self).attrs@.remove(name@),
    {
        self.attrs.unset(name);
    }
}

/// One handle-name association.
pub struct NameEntry {
    pub name: String,
    pub handle: Handle,
}

/// The toolkit's handle-name table: elements registered under names, to be
/// found again by name, as elements built from dialog-specification text
/// are.  Viewed as a map from name to the registered class and state.
pub struct NameRegistry {
    pub entries: Vec<NameEntry>,
}

impl NameRegistry {
    /// Names are pairwise distinct.
    pub open spec fn wf(&self) -> bool {
        forall|i: int, j: int|
            0 <= i < j < self.entries@.len()
                ==> (#[trigger] self.entries@[i]).name@ != (#[trigger] self.entries@[j]).name@
    }

    pub open spec fn has_key(&self, k: Seq<char>) -> bool {
        exists|i: int| 0 <= i < self.entries@.len() && (#[trigger] self.entries@[i]).name@ == k
    }

    pub open spec fn key_idx(&self, k: Seq<char>) -> int {
        choose|i: int| 0 <= i < self.entries@.len() && (#[trigger] self.entries@[i]).name@ == k
    }

    /// In a well-formed table the entry holding a name is the map's value
    /// for it.
    pub proof fn lemma_lookup_is(&self, i: int)
        requires
            self.wf(),
            0 <= i < self.entries@.len(),
        ensures
            self@.dom().contains(self.entries@[i].name@),
            self@[self.entries@[i].name@] == (
                self.entries@[i].handle.class@,
                self.entries@[i].handle.elem.abs(),
            ),
    {
        let k = self.entries@[i].name@;
        assert(self.has_key(k));
        let j = self.key_idx(k);
        assert(0 <= j < self.entries@.len() && self.entries@[j].name@ == k);
        if i < j {
            assert(self.entries@[i].name@ != self.entries@[j].name@);
        } else if j < i {
            assert(self.entries@[j].name@ != self.entries@[i].name@);
        }
        assert(j == i);
    }

    /// An empty table.
    pub fn new() -> (r: NameRegistry)
        ensures
            r.wf(),
            r@ == Map::<Seq<char>, (Seq<char>, ElemAbs)>::empty(),
    {
        let r = NameRegistry { entries: Vec::new() };
        proof {
            assert(r@ =~= Map::<Seq<char>, (Seq<char>, ElemAbs)>::empty());
        }
        r
    }

    fn find_idx(&self, name: &str) -> (r: Option<usize>)
        ensures
            match r {
                Some(i) => i < self.entries@.len() && self.entries@[i as int].name@ == name@,
                None => !self.has_key(name@),
            },
    {
        let n = self.entries.len();
        let mut i: usize = 0;
        while i < n
            invariant
                n == self.entries@.len(),
                i <= n,
                forall|j: int| 0 <= j < i ==> (#[trigger] self.entries@[j]).name@ != name@,
            decreases n - i,
        {
            if str_eq(self.entries[i].name.as_str(), name) {
                return Some(i);
            }
            i = i + 1;
        }
        None
    }

    /// Registers an element under a name, reporting the element the name
    /// stood for before, if any.
    pub fn add_handle_name(&mut self, name: &str, elem: &Handle) -> (r: Option<Handle>)
        requires
            old(self).wf(),
        ensures
            final(self).wf(),
            final(self)@ == old(self)@.insert(name@, (elem.class@, elem.elem.abs())),
            match r {
                Some(prev) => {
                    &&& old(self)@.dom().contains(name@)
                    &&& prev.class@ == old(self)@[name@].0
                    &&& prev.elem.abs() == old(self)@[name@].1
                },
                None => !old(self)@.dom().contains(name@),
            },
    {
        let entry = NameEntry { name: String::from_str(name), handle: elem.clone() };
        let found = self.find_idx(name);
        match found {
            Some(i) => {
                proof {
                    old(self).lemma_lookup_is(i as int);
                }
                let prev = self.entries[i].handle.clone();
                self.entries.set(i, entry);
                proof {
                    let s0 = *old(self);
                    let s1 = *self;
                    assert(s1.entries@.len() == s0.entries@.len());
                    assert(forall|l: int| 0 <= l < s1.entries@.len() && l != i
                        ==> #[trigger] s1.entries@[l] == s0.entries@[l]);
                    assert(s1.entries@[i as int].name@ == s0.entries@[i as int].name@);
                    assert(forall|l: int| 0 <= l < s1.entries@.len()
                        ==> (#[trigger] s1.entries@[l]).name@ == s0.entries@[l].name@);
                    assert(s1.wf());
                    assert forall|k: Seq<char>| s1.has_key(k) == s0.has_key(k) by {
                        if s1.has_key(k) {
                            let l = s1.key_idx(k);
                            assert(s0.entries@[l].name@ == k);
                            assert(s0.has_key(k));
                        }
                        if s0.has_key(k) {
                            let l = s0.key_idx(k);
                            assert(s1.entries@[l].name@ == k);
                            assert(s1.has_key(k));
                        }
                    }
                    assert(s0.has_key(name@));
                    assert forall|k: Seq<char>| s1.has_key(k) implies
                        s1@[k] == s0@.insert(name@, (elem.class@, elem.elem.abs()))[k] by {
                        if k == name@ {
                            s1.lemma_lookup_is(i as int);
                        } else {
                            let l = s0.key_idx(k);
                            assert(0 <= l < s0.entries@.len() && s0.entries@[l].name@ == k);
                            assert(l != i);
                            s0.lemma_lookup_is(l);
                            s1.lemma_lookup_is(l);
                        }
                    }
                    assert(s1@ =~= s0@.insert(name@, (elem.class@, elem.elem.abs())));
                }
                Some(prev)
            },
            None => {
                self.entries.push(entry);
                proof {
                    let s0 = *old(self);
                    let s1 = *self;
                    let n = s0.entries@.len() as int;
                    assert(s1.entries@[n].name@ == name@);
                    assert(forall|l: int| 0 <= l < n ==> #[trigger] s1.entries@[l] == s0.entries@[l]);
                    assert(s1.wf()) by {
                        assert(forall|l: int| 0 <= l < n ==> (#[trigger] s1.entries@[l]).name@ != name@);
                    }
                    assert forall|k: Seq<char>| s1.has_key(k) == (s0.has_key(k) || k == name@) by {
                        if s1.has_key(k) {
                            let l = s1.key_idx(k);
                            if l < n {
                                assert(s0.entries@[l].name@ == k);
                                assert(s0.has_key(k));
                            }
                        }
                        if s0.has_key(k) {
                            let l = s0.key_idx(k);
                            assert(s1.entries@[l].name@ == k);
                            assert(s1.has_key(k));
                        }
                        if k == name@ {
                            assert(s1.entries@[n].name@ == k);
                            assert(s1.has_key(k));
                        }
                    }
                    assert forall|k: Seq<char>| s1.has_key(k) implies
                        s1@[k] == s0@.insert(name@, (elem.class@, elem.elem.abs()))[k] by {
                        if k == name@ {
                            s1.lemma_lookup_is(n);
                        } else {
                            let l = s0.key_idx(k);
                            assert(0 <= l < n && s0.entries@[l].name@ == k);
                            s0.lemma_lookup_is(l);
                            s1.lemma_lookup_is(l);
                        }
                    }
                    assert(s1@ =~= s0@.insert(name@, (elem.class@, elem.elem.abs())));
                }
                None
            },
        }
    }

    /// The element registered under a name, if any.
    pub fn from_named(&self, name: &str) -> (r: Option<Handle>)
        requires
            self.wf(),
        ensures
            match r {
                Some(h) => {
                    &&& self@.dom().contains(name@)
                    &&& h.class@ == self@[name@].0
                    &&& h.elem.abs() == self@[name@].1
                },
                None => !self@.dom().contains(name@),
            },
    {
        match self.find_idx(name) {
            Some(i) => {
                proof {
                    self.lemma_lookup_is(i as int);
                }
                Some(self.entries[i].handle.clone())
            },
            None => None,
        }
    }

    /// Removes the association for a name, reporting the element it stood
    /// for, if any.  The element itself is not destroyed.
    pub fn clear_handle_name(&mut self, name: &str) -> (r: Option<Handle>)
        requires
            old(self).wf(),
        ensures
            final(self).wf(),
            final(self)@ == old(self)@.remove(name@),
            match r {
                Some(prev) => {
                    &&& old(self)@.dom().contains(name@)
                    &&& prev.class@ == old(self)@[name@].0
                    &&& prev.elem.abs() == old(self)@[name@].1
                },
                None => !old(self)@.dom().contains(name@),
            },
    {
        let found = self.find_idx(name);
        match found {
            Some(i) => {
                proof {
                    old(self).lemma_lookup_is(i as int);
                }
                let prev = self.entries[i].handle.clone();
                self.entries.remove(i);
                proof {
                    let s0 = *old(self);
                    let s1 = *self;
                    let n = s0.entries@.len() as int;
                    assert(s1.entries@ == s0.entries@.remove(i as int));
                    assert(forall|l: int| 0 <= l < i ==> #[trigger] s1.entries@[l] == s0.entries@[l]);
                    assert(forall|l: int| i <= l < n - 1 ==> #[trigger] s1.entries@[l] == s0.entries@[l + 1]);
                    assert(s1.wf()) by {
                        assert forall|a: int, b: int| 0 <= a < b < s1.entries@.len() implies
                            (#[trigger] s1.entries@[a]).name@ != (#[trigger] s1.entries@[b]).name@ by {
                            let a0: int = if a < i { a } else { a + 1 };
                            let b0: int = if b < i { b } else { b + 1 };
                            assert(s1.entries@[a] == s0.entries@[a0]);
                            assert(s1.entries@[b] == s0.entries@[b0]);
                            assert(s0.entries@[a0].name@ != s0.entries@[b0].name@);
                        }
                    }
                    assert forall|k: Seq<char>| s1.has_key(k) == (s0.has_key(k) && k != name@) by {
                        if s1.has_key(k) {
                            let l = s1.key_idx(k);
                            let l0: int = if l < i { l } else { l + 1 };
                            assert(s1.entries@[l] == s0.entries@[l0]);
                            assert(s0.has_key(k));
                            if k == name@ {
                                s0.lemma_lookup_is(l0);
                                s0.lemma_lookup_is(i as int);
                                assert(l0 == i);
                                assert(false);
                            }
                        }
                        if s0.has_key(k) && k != name@ {
                            let l0 = s0.key_idx(k);
                            assert(0 <= l0 < n && s0.entries@[l0].name@ == k);
                            assert(l0 != i);
                            let l: int = if l0 < i { l0 } else { l0 - 1 };
                            assert(s1.entries@[l] == s0.entries@[l0]);
                            assert(s1.has_key(k));
                        }
                    }
                    assert forall|k: Seq<char>| s1.has_key(k) implies
                        s1@[k] == s0@.remove(name@)[k] by {
                        let l = s1.key_idx(k);
                        assert(0 <= l < s1.entries@.len() && s1.entries@[l].name@ == k);
                        let l0: int = if l < i { l } else { l + 1 };
                        assert(s1.entries@[l] == s0.entries@[l0]);
                        s0.lemma_lookup_is(l0);
                        s1.lemma_lookup_is(l);
                    }
                    assert(s1@ =~= s0@.remove(name@));
                }
                Some(prev)
            },
            None => {
                proof {
                    assert(self@ =~= old(self)@.remove(name@));
                }
                None
            },
        }
    }
}

impl View for NameRegistry {
    type V = Map<Seq<char>, (Seq<char>, ElemAbs)>;

    open spec fn view(&self) -> Map<Seq<char>, (Seq<char>, ElemAbs)> {
        Map::new(
            |k: Seq<char>| self.has_key(k),
            |k: Seq<char>|
                (
                    self.entries@[self.key_idx(k)].handle.class@,
                    self.entries@[self.key_idx(k)].handle.elem.abs(),
                ),
        )
    }
}

/// Whether two elements hold the very same recorded state, entry for entry.
pub open spec fn same_entries(a: Elem, b: Elem) -> bool {
    &&& a.attrs.entries@.len() == b.attrs.entries@.len()
    &&& forall|i: int|
        0 <= i < a.attrs.entries@.len() ==> (#[trigger] a.attrs.entries@[i]).name@
            == b.attrs.entries@[i].name@ && a.attrs.entries@[i].value@
            == b.attrs.entries@[i].value@
    &&& a.mapped == b.mapped
}

/// Whether a stored child handle stands for an element of the given class
/// with exactly the given recorded state.
pub open spec fn child_match(h: Handle, class: Seq<char>, e: Elem) -> bool {
    h.class@ == class && same_entries(h.elem, e)
}

/// Whether position `p` holds the first child matching the class and state.
pub open spec fn first_match(children: Seq<Handle>, class: Seq<char>, e: Elem, p: int) -> bool {
    &&& 0 <= p < children.len()
    &&& child_match(children[p], class, e)
    &&& forall|q: int| 0 <= q < p ==> !child_match(#[trigger] children[q], class, e)
}

fn elem_same_entries(a: &Elem, b: &Elem) -> (r: bool)
    ensures
        r == same_entries(*a, *b),
{
    if a.mapped != b.mapped {
        return false;
    }
    let n = a.attrs.entries.len();
    if n != b.attrs.entries.len() {
        return false;
    }
    let mut i: usize = 0;
    while i < n
        invariant
            n == a.attrs.entries@.len(),
            n == b.attrs.entries@.len(),
            i <= n,
            forall|j: int|
                0 <= j < i ==> (#[trigger] a.attrs.entries@[j]).name@
                    == b.attrs.entries@[j].name@ && a.attrs.entries@[j].value@
                    == b.attrs.entries@[j].value@,
        decreases n - i,
    {
        if !str_eq(a.attrs.entries[i].name.as_str(), b.attrs.entries[i].name.as_str()) {
            return false;
        }
        if !str_eq(a.attrs.entries[i].value.as_str(), b.attrs.entries[i].value.as_str()) {
            return false;
        }
        i = i + 1;
    }
    true
}

/// Whether a stored child handle stands for the given element.
pub fn handle_matches_element<E: Element>(h: &Handle, e: &E) -> (r: bool)
    ensures
        r == child_match(*h, E::classname_spec(), e.spec_elem()),
{
    if !str_eq(h.class.as_str(), E::target_classname()) {
        return false;
    }
    elem_same_entries(&h.elem, e.elem())
}

/// An element that stores child elements.
pub trait Container: Element {
    /// The children held, in the order they were assigned.
    spec fn spec_children(&self) -> Seq<Handle>;

    /// Inserts an element at the end of the container, after the last
    /// child on it.  Hands back a handle on the actual parent.
    fn append<E: Element>(&mut self, new_child: E) -> (r: Result<Handle, E>)
        ensures
            final(self).spec_elem() == old(self).spec_elem(),
            final(self).spec_children().len() == old(self).spec_children().len() + 1,
            final(self).spec_children().last().class@ == E::classname_spec(),
            final(self).spec_children().last().elem.abs() == new_child.spec_elem().abs(),
            forall|i: int|
                0 <= i < old(self).spec_children().len() ==> final(self).spec_children()[i]
                    == old(self).spec_children()[i],
            r matches Ok(h) && h.class@ == Self::classname_spec() && h.elem.abs()
                == final(self).spec_elem().abs(),
    ;

    /// The child at the given position, counting from 0 in assignment order.
    fn child(&self, pos: usize) -> (r: Option<Handle>)
        ensures
            match r {
                Some(h) => {
                    &&& pos < self.spec_children().len()
                    &&& h.class == self.spec_children()[pos as int].class
                    &&& h.elem.abs() == self.spec_children()[pos as int].elem.abs()
                },
                None => pos >= self.spec_children().len(),
            },
    ;

    /// How many children the container holds.
    fn child_count(&self) -> (r: usize)
        ensures
            r == self.spec_children().len(),
    ;

    /// The position of the first child whose class and recorded state
    /// match the given element, counting from 0 in assignment order.
    fn child_pos<E: Element>(&self, child: &E) -> (r: Option<usize>)
        ensures
            match r {
                Some(p) => first_match(
                    self.spec_children(),
                    E::classname_spec(),
                    child.spec_elem(),
                    p as int,
                ),
                None => forall|q: int|
                    0 <= q < self.spec_children().len() ==> !child_match(
                        #[trigger] self.spec_children()[q],
                        E::classname_spec(),
                        child.spec_elem(),
                    ),
            },
    ;

    /// Inserts an element before the first child matching the reference
    /// child; hands the new child back when no child matches.
    fn insert<E1: Element, E2: Element>(&mut self, ref_child: &E1, new_child: E2) -> (r: Result<
        Handle,
        E2,
    >)
        ensures
            final(self).spec_elem() == old(self).spec_elem(),
            match r {
                Ok(h) => {
                    &&& h.class@ == Self::classname_spec()
                    &&& h.elem.abs() == final(self).spec_elem().abs()
                    &&& exists|p: int|
                        {
                            &&& #[trigger] first_match(
                                old(self).spec_children(),
                                E1::classname_spec(),
                                ref_child.spec_elem(),
                                p,
                            )
                            &&& final(self).spec_children().len() == old(
                                self,
                            ).spec_children().len() + 1
                            &&& forall|q: int|
                                0 <= q < p ==> #[trigger] final(self).spec_children()[q] == old(
                                    self,
                                ).spec_children()[q]
                            &&& final(self).spec_children()[p].class@ == E2::classname_spec()
                            &&& final(self).spec_children()[p].elem.abs()
                                == new_child.spec_elem().abs()
                            &&& forall|q: int|
                                p < q < final(self).spec_children().len()
                                    ==> #[trigger] final(self).spec_children()[q] == old(
                                    self,
                                ).spec_children()[q - 1]
                        }
                },
                Err(e2) => {
                    &&& e2 == new_child
                    &&& *final(self) == *old(self)
                    &&& forall|q: int|
                        0 <= q < old(self).spec_children().len() ==> !child_match(
                            #[trigger] old(self).spec_children()[q],
                            E1::classname_spec(),
                            ref_child.spec_elem(),
                        )
                },
            },
    ;
}

} // verus!
