//! The string-keyed attribute store.
//!
//! The toolkit attaches a bag of named string attributes to every element;
//! all configuration and most state flows through it.  `AttrBag` is the
//! binding's model of one such bag: an association list with unique names,
//! viewed as a `Map` from name to value.

use vstd::prelude::*;
use crate::codec::is_numeral;
use crate::codec::numeral_key;
use crate::strutil::str_eq;

verus! {

/// One named attribute.
pub struct AttrEntry {
    pub name: String,
    pub value: String,
}

impl Clone for AttrEntry {
    fn clone(&self) -> (res: AttrEntry)
        ensures
            res == *self,
    {
        AttrEntry { name: self.name.clone(), value: self.value.clone() }
    }
}

/// A bag of named attributes with unique names.
pub struct AttrBag {
    pub entries: Vec<AttrEntry>,
}

impl AttrBag {
    /// Names are pairwise distinct.
    pub open spec fn wf(&self) -> bool {
        forall|i: int, j: int|
            0 <= i < j < self.entries@.len()
                ==> (#[trigger] self.entries@[i]).name@ != (#[trigger] self.entries@[j]).name@
    }

    pub open spec fn has_key(&self, k: Seq<char>) -> bool {
        exists|i: int| 0 <= i < self.entries@.len() && (#[trigger] self.entries@[i]).name@ == k
    }

    pub open spec fn key_idx(&self, k: Seq<char>) -> int {
        choose|i: int| 0 <= i < self.entries@.len() && (#[trigger] self.entries@[i]).name@ == k
    }

    /// In a well-formed bag the entry holding a name is the map's value for it.
    pub proof fn lemma_lookup_is(&self, i: int)
        requires
            self.wf(),
            0 <= i < self.entries@.len(),
        ensures
            self@.dom().contains(self.entries@[i].name@),
            self@[self.entries@[i].name@] == self.entries@[i].value@,
    {
        let k = self.entries@[i].name@;
        assert(self.has_key(k));
        let j = self.key_idx(k);
        assert(0 <= j < self.entries@.len() && self.entries@[j].name@ == k);
        if i < j {
            assert(self.entries@[i].name@ != self.entries@[j].name@);
        } else if j < i {
            assert(self.entries@[j].name@ != self.entries@[i].name@);
        }
        assert(j == i);
    }

    /// An empty bag.
    pub fn new() -> (r: AttrBag)
        ensures
            r.wf(),
            r@ == Map::<Seq<char>, Seq<char>>::empty(),
    {
        let r = AttrBag { entries: Vec::new() };
        proof {
            assert(r@ =~= Map::<Seq<char>, Seq<char>>::empty());
        }
        r
    }

    fn find_idx(&self, name: &str) -> (r: Option<usize>)
        ensures
            match r {
                Some(i) => i < self.entries@.len() && self.entries@[i as int].name@ == name@,
                None => !self.has_key(name@),
            },
    {
        let n = self.entries.len();
        let mut i: usize = 0;
        while i < n
            invariant
                n == self.entries@.len(),
                i <= n,
                forall|j: int| 0 <= j < i ==> (#[trigger] self.entries@[j]).name@ != name@,
            decreases n - i,
        {
            if str_eq(self.entries[i].name.as_str(), name) {
                return Some(i);
            }
            i = i + 1;
        }
        None
    }

    /// Whether the bag holds an attribute of this name.
    pub fn contains(&self, name: &str) -> (r: bool)
        ensures
            r == self@.dom().contains(name@),
    {
        match self.find_idx(name) {
            Some(_i) => true,
            None => false,
        }
    }

    /// The value stored under a name, if any.
    pub fn get(&self, name: &str) -> (r: Option<String>)
        requires
            self.wf(),
        ensures
            match r {
                Some(v) => self@.dom().contains(name@) && v@ == self@[name@],
                None => !self@.dom().contains(name@),
            },
    {
        match self.find_idx(name) {
            Some(i) => {
                proof {
                    self.lemma_lookup_is(i as int);
                }
                Some(self.entries[i].value.clone())
            },
            None => None,
        }
    }

    /// Stores a value under a name, replacing any previous value.
    pub fn set(&mut self, name: &str, value: &str)
        requires
            old(self).wf(),
        ensures
            final(self).wf(),
            final(self)@ == old(self)@.insert(name@, value@),
    {
        let entry = AttrEntry { name: String::from_str(name), value: String::from_str(value) };
        let found = self.find_idx(name);
        match found {
            Some(i) => {
                self.entries.set(i, entry);
                proof {
                    let s0 = *old(self);
                    let s1 = *self;
                    assert(s1.entries@.len() == s0.entries@.len());
                    assert(forall|l: int| 0 <= l < s1.entries@.len() && l != i
                        ==> #[trigger] s1.entries@[l] == s0.entries@[l]);
                    assert(s1.entries@[i as int].name@ == s0.entries@[i as int].name@);
                    assert(forall|l: int| 0 <= l < s1.entries@.len()
                        ==> (#[trigger] s1.entries@[l]).name@ == s0.entries@[l].name@);
                    assert(s1.wf());
                    assert forall|k: Seq<char>| s1.has_key(k) == s0.has_key(k) by {
                        if s1.has_key(k) {
                            let l = s1.key_idx(k);
                            assert(s0.entries@[l].name@ == k);
                            assert(s0.has_key(k));
                        }
                        if s0.has_key(k) {
                            let l = s0.key_idx(k);
                            assert(s1.entries@[l].name@ == k);
                            assert(s1.has_key(k));
                        }
                    }
                    assert(s0.has_key(name@));
                    assert forall|k: Seq<char>| s1.has_key(k) implies
                        s1@[k] == s0@.insert(name@, value@)[k] by {
                        if k == name@ {
                            s1.lemma_lookup_is(i as int);
                        } else {
                            let l = s0.key_idx(k);
                            assert(0 <= l < s0.entries@.len() && s0.entries@[l].name@ == k);
                            assert(l != i);
                            s0.lemma_lookup_is(l);
                            s1.lemma_lookup_is(l);
                        }
                    }
                    assert(s1@ =~= s0@.insert(name@, value@));
                }
            },
            None => {
                self.entries.push(entry);
                proof {
                    let s0 = *old(self);
                    let s1 = *self;
                    let n = s0.entries@.len() as int;
                    assert(s1.entries@ == s0.entries@.push(entry));
                    assert(s1.entries@.len() == n + 1);
                    assert(forall|l: int| 0 <= l < n ==> #[trigger] s1.entries@[l] == s0.entries@[l]);
                    assert(s1.entries@[n].name@ == name@);
                    assert(s1.wf()) by {
                        assert(forall|l: int| 0 <= l < n ==> (#[trigger] s1.entries@[l]).name@ != name@);
                    }
                    assert forall|k: Seq<char>| s1.has_key(k) == (s0.has_key(k) || k == name@) by {
                        if s1.has_key(k) {
                            let l = s1.key_idx(k);
                            if l < n {
                                assert(s0.entries@[l].name@ == k);
                                assert(s0.has_key(k));
                            }
                        }
                        if s0.has_key(k) {
                            let l = s0.key_idx(k);
                            assert(s1.entries@[l].name@ == k);
                            assert(s1.has_key(k));
                        }
                        if k == name@ {
                            assert(s1.entries@[n].name@ == k);
                            assert(s1.has_key(k));
                        }
                    }
                    assert forall|k: Seq<char>| s1.has_key(k) implies
                        s1@[k] == s0@.insert(name@, value@)[k] by {
                        if k == name@ {
                            s1.lemma_lookup_is(n);
                        } else {
                            let l = s0.key_idx(k);
                            assert(0 <= l < n && s0.entries@[l].name@ == k);
                            s0.lemma_lookup_is(l);
                            s1.lemma_lookup_is(l);
                        }
                    }
                    assert(s1@ =~= s0@.insert(name@, value@));
                }
            },
        }
    }

    /// Drops the attribute of this name, if present.
    pub fn unset(&mut self, name: &str)
        requires
            old(self).wf(),
        ensures
            final(self).wf(),
            final(self)@ == old(self)@.remove(name@),
            old(self)@.dom().contains(name@) ==> final(self).entries@.len()
                < old(self).entries@.len(),
            !old(self)@.dom().contains(name@) ==> final(self).entries@ == old(self).entries@,
    {
        let found = self.find_idx(name);
        match found {
            Some(i) => {
                self.entries.remove(i);
                proof {
                    let s0 = *old(self);
                    let s1 = *self;
                    let n = s0.entries@.len() as int;
                    assert(s1.entries@ == s0.entries@.remove(i as int));
                    assert(s1.entries@.len() == n - 1);
                    assert(forall|l: int| 0 <= l < i ==> #[trigger] s1.entries@[l] == s0.entries@[l]);
                    assert(forall|l: int| i <= l < n - 1 ==> #[trigger] s1.entries@[l] == s0.entries@[l + 1]);
                    assert(s1.wf()) by {
                        assert forall|a: int, b: int| 0 <= a < b < s1.entries@.len() implies
                            (#[trigger] s1.entries@[a]).name@ != (#[trigger] s1.entries@[b]).name@ by {
                            let a0: int = if a < i { a } else { a + 1 };
                            let b0: int = if b < i { b } else { b + 1 };
                            assert(s1.entries@[a] == s0.entries@[a0]);
                            assert(s1.entries@[b] == s0.entries@[b0]);
                            assert(s0.entries@[a0].name@ != s0.entries@[b0].name@);
                        }
                    }
                    assert forall|k: Seq<char>| s1.has_key(k) == (s0.has_key(k) && k != name@) by {
                        if s1.has_key(k) {
                            let l = s1.key_idx(k);
                            let l0: int = if l < i { l } else { l + 1 };
                            assert(s1.entries@[l] == s0.entries@[l0]);
                            assert(s0.has_key(k));
                            if k == name@ {
                                s0.lemma_lookup_is(l0);
                                s0.lemma_lookup_is(i as int);
                                assert(l0 == i);
                                assert(false);
                            }
                        }
                        if s0.has_key(k) && k != name@ {
                            let l0 = s0.key_idx(k);
                            assert(0 <= l0 < n && s0.entries@[l0].name@ == k);
                            assert(l0 != i);
                            let l: int = if l0 < i { l0 } else { l0 - 1 };
                            assert(s1.entries@[l] == s0.entries@[l0]);
                            assert(s1.has_key(k));
                        }
                    }
                    assert forall|k: Seq<char>| s1.has_key(k) implies
                        s1@[k] == s0@.remove(name@)[k] by {
                        let l = s1.key_idx(k);
                        assert(0 <= l < s1.entries@.len() && s1.entries@[l].name@ == k);
                        let l0: int = if l < i { l } else { l + 1 };
                        assert(s1.entries@[l] == s0.entries@[l0]);
                        s0.lemma_lookup_is(l0);
                        s1.lemma_lookup_is(l);
                    }
                    assert(s1@ =~= s0@.remove(name@));
                }
            },
            None => {
                proof {
                    assert(self@ =~= old(self)@.remove(name@));
                }
            },
        }
    }

    fn find_numeric(&self) -> (r: Option<String>)
        ensures
            match r {
                Some(nm) => self@.dom().contains(nm@) && numeral_key(nm@),
                None => forall|k: Seq<char>|
                    self@.dom().contains(k) ==> !numeral_key(k),
            },
    {
        let n = self.entries.len();
        let mut i: usize = 0;
        while i < n
            invariant
                n == self.entries@.len(),
                i <= n,
                forall|j: int| 0 <= j < i ==> !numeral_key((#[trigger] self.entries@[j]).name@),
            decreases n - i,
        {
            if is_numeral(self.entries[i].name.as_str()) {
                let nm = self.entries[i].name.clone();
                proof {
                    assert(self.has_key(nm@));
                }
                return Some(nm);
            }
            i = i + 1;
        }
        proof {
            assert forall|k: Seq<char>| self@.dom().contains(k) implies !numeral_key(k) by {
                let j = self.key_idx(k);
                assert(0 <= j < self.entries@.len() && self.entries@[j].name@ == k);
            }
        }
        None
    }

    /// Drops every attribute whose name is a nonempty run of digits, the
    /// way a wholesale item removal clears the numbered item attributes.
    pub fn unset_numeric(&mut self)
        requires
            old(self).wf(),
        ensures
            final(self).wf(),
            final(self)@ == old(self)@.restrict(Set::new(|k: Seq<char>| !numeral_key(k))),
    {
        let ghost m0 = old(self)@;
        loop
            invariant
                self.wf(),
                forall|k: Seq<char>|
                    #[trigger] self@.dom().contains(k) ==> m0.dom().contains(k) && self@[k]
                        == m0[k],
                forall|k: Seq<char>|
                    m0.dom().contains(k) && !numeral_key(k) ==> #[trigger] self@.dom().contains(k),
            ensures
                self.wf(),
                forall|k: Seq<char>|
                    #[trigger] self@.dom().contains(k) ==> m0.dom().contains(k) && self@[k]
                        == m0[k],
                forall|k: Seq<char>|
                    m0.dom().contains(k) && !numeral_key(k) ==> #[trigger] self@.dom().contains(k),
                forall|k: Seq<char>| #[trigger] self@.dom().contains(k) ==> !numeral_key(k),
            decreases self.entries@.len(),
        {
            let found = self.find_numeric();
            match found {
                None => {
                    break;
                },
                Some(nm) => {
                    self.unset(nm.as_str());
                },
            }
        }
        proof {
            assert(self@ =~= m0.restrict(Set::new(|k: Seq<char>| !numeral_key(k))));
        }
    }

    /// The number of attributes stored.
    pub fn len(&self) -> (r: usize)
        ensures
            r == self.entries@.len(),
    {
        self.entries.len()
    }
}

impl View for AttrBag {
    type V = Map<Seq<char>, Seq<char>>;

    open spec fn view(&self) -> Map<Seq<char>, Seq<char>> {
        Map::new(|k: Seq<char>| self.has_key(k), |k: Seq<char>| self.entries@[self.key_idx(k)].value@)
    }
}

impl Clone for AttrBag {
    fn clone(&self) -> (res: AttrBag)
        ensures
            res.entries@ == self.entries@,
            res@ == self@,
            res.wf() == self.wf(),
    {
        let n = self.entries.len();
        let mut v: Vec<AttrEntry> = Vec::new();
        let mut i: usize = 0;
        while i < n
            invariant
                n == self.entries@.len(),
                i <= n,
                v@.len() == i,
                forall|j: int| 0 <= j < i ==> #[trigger] v@[j] == self.entries@[j],
            decreases n - i,
        {
            v.push(self.entries[i].clone());
            i = i + 1;
        }
        proof {
            assert(v@ =~= self.entries@);
        }
        let res = AttrBag { entries: v };
        proof {
            assert(res@ =~= self@);
        }
        res
    }
}

} // verus!
