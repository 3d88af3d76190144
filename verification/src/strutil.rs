//! Small verified string utilities shared by the attribute codecs.

use vstd::prelude::*;

verus! {

/// Character-by-character equality test for string slices.
pub fn str_eq(a: &str, b: &str) -> (r: bool)
    ensures
        r == (a@ == b@),
{
    let alen = a.unicode_len();
    let blen = b.unicode_len();
    if alen != blen {
        return false;
    }
    let mut i: usize = 0;
    while i < alen
        invariant
            alen == a@.len(),
            blen == b@.len(),
            alen == blen,
            i <= alen,
            forall|j: int| 0 <= j < i ==> a@[j] == b@[j],
        decreases alen - i,
    {
        if a.get_char(i) != b.get_char(i) {
            return false;
        }
        i = i + 1;
    }
    proof {
        assert(a@ =~= b@);
    }
    true
}

/// How a string falls apart at a separator: the pieces between occurrences
/// of `sep`, in order.  A string of `n` separators yields `n + 1` pieces.
pub open spec fn split_spec(s: Seq<char>, sep: char) -> Seq<Seq<char>>
    decreases s.len(),
{
    if s.len() == 0 {
        seq![Seq::<char>::empty()]
    } else {
        let rest = split_spec(s.drop_first(), sep);
        if s[0] == sep {
            seq![Seq::<char>::empty()] + rest
        } else {
            seq![seq![s[0]] + rest[0]] + rest.drop_first()
        }
    }
}

pub proof fn lemma_split_nonempty(s: Seq<char>, sep: char)
    ensures
        split_spec(s, sep).len() >= 1,
    decreases s.len(),
{
    if s.len() > 0 {
        lemma_split_nonempty(s.drop_first(), sep);
    }
}

/// Appending a separator adds one empty piece at the end.
pub proof fn lemma_split_append_sep(s: Seq<char>, sep: char)
    ensures
        split_spec(s + seq![sep], sep) == split_spec(s, sep) + seq![Seq::<char>::empty()],
    decreases s.len(),
{
    let t = s + seq![sep];
    if s.len() == 0 {
        assert(t.len() == 1);
        assert(t[0] == sep);
        assert(t.drop_first() =~= Seq::<char>::empty());
        assert(split_spec(Seq::<char>::empty(), sep) == seq![Seq::<char>::empty()]);
        assert(split_spec(t, sep) == seq![Seq::<char>::empty()] + split_spec(t.drop_first(), sep));
        assert(split_spec(t, sep) =~= split_spec(s, sep) + seq![Seq::<char>::empty()]);
    } else {
        lemma_split_append_sep(s.drop_first(), sep);
        lemma_split_nonempty(s.drop_first(), sep);
        assert(t.len() == s.len() + 1);
        assert(t[0] == s[0]);
        assert(t.drop_first() =~= s.drop_first() + seq![sep]);
        let rest = split_spec(s.drop_first(), sep);
        let trest = split_spec(t.drop_first(), sep);
        assert(trest == rest + seq![Seq::<char>::empty()]);
        if s[0] == sep {
            assert(split_spec(t, sep) == seq![Seq::<char>::empty()] + trest);
            assert(split_spec(s, sep) == seq![Seq::<char>::empty()] + rest);
            assert(split_spec(t, sep) =~= split_spec(s, sep) + seq![Seq::<char>::empty()]);
        } else {
            assert(split_spec(t, sep) == seq![seq![t[0]] + trest[0]] + trest.drop_first());
            assert(split_spec(s, sep) == seq![seq![s[0]] + rest[0]] + rest.drop_first());
            assert(trest[0] == rest[0]);
            assert(trest.drop_first() =~= rest.drop_first() + seq![Seq::<char>::empty()]);
            assert(split_spec(t, sep) =~= split_spec(s, sep) + seq![Seq::<char>::empty()]);
        }
    }
}

/// Appending an ordinary character extends the last piece.
pub proof fn lemma_split_append_char(s: Seq<char>, sep: char, c: char)
    requires
        c != sep,
    ensures
        split_spec(s + seq![c], sep) == split_spec(s, sep).update(
            split_spec(s, sep).len() - 1,
            split_spec(s, sep).last() + seq![c],
        ),
    decreases s.len(),
{
    lemma_split_nonempty(s, sep);
    let t = s + seq![c];
    let w = split_spec(s, sep);
    let goal = w.update(w.len() - 1, w.last() + seq![c]);
    if s.len() == 0 {
        assert(t.len() == 1);
        assert(t[0] == c);
        assert(t.drop_first() =~= Seq::<char>::empty());
        assert(split_spec(Seq::<char>::empty(), sep) == seq![Seq::<char>::empty()]);
        assert(split_spec(t, sep) == seq![seq![t[0]] + split_spec(t.drop_first(), sep)[0]]
            + split_spec(t.drop_first(), sep).drop_first());
        assert(w == seq![Seq::<char>::empty()]);
        assert(split_spec(t, sep)[0] =~= seq![c]);
        assert(goal[0] =~= seq![c]);
        assert(split_spec(t, sep) =~= goal);
    } else {
        lemma_split_append_char(s.drop_first(), sep, c);
        lemma_split_nonempty(s.drop_first(), sep);
        assert(t.len() == s.len() + 1);
        assert(t[0] == s[0]);
        assert(t.drop_first() =~= s.drop_first() + seq![c]);
        let rest = split_spec(s.drop_first(), sep);
        let trest = split_spec(t.drop_first(), sep);
        assert(trest == rest.update(rest.len() - 1, rest.last() + seq![c]));
        if s[0] == sep {
            assert(split_spec(t, sep) == seq![Seq::<char>::empty()] + trest);
            assert(w == seq![Seq::<char>::empty()] + rest);
            assert(w.last() == rest.last());
            assert(split_spec(t, sep) =~= goal);
        } else {
            assert(split_spec(t, sep) == seq![seq![t[0]] + trest[0]] + trest.drop_first());
            assert(w == seq![seq![s[0]] + rest[0]] + rest.drop_first());
            if rest.len() == 1 {
                assert(trest[0] == rest[0] + seq![c]);
                assert(w.len() == 1);
                assert(w.last() == seq![s[0]] + rest[0]);
                assert(split_spec(t, sep)[0] =~= w.last() + seq![c]);
                assert(split_spec(t, sep) =~= goal);
            } else {
                assert(trest[0] == rest[0]);
                assert(trest.drop_first() =~= rest.drop_first().update(
                    rest.drop_first().len() - 1,
                    rest.drop_first().last() + seq![c],
                ));
                assert(w.last() == rest.last());
                assert(split_spec(t, sep) =~= goal);
            }
        }
    }
}

pub open spec fn has_no_char(s: Seq<char>, sep: char) -> bool {
    forall|i: int| 0 <= i < s.len() ==> #[trigger] s[i] != sep
}

/// A string without the separator is a single piece.
pub proof fn lemma_split_whole(s: Seq<char>, sep: char)
    requires
        has_no_char(s, sep),
    ensures
        split_spec(s, sep) == seq![s],
    decreases s.len(),
{
    if s.len() == 0 {
        assert(split_spec(s, sep) == seq![Seq::<char>::empty()]);
        assert(s =~= Seq::<char>::empty());
        assert(split_spec(s, sep) =~~= seq![s]);
    } else {
        assert(s[0] != sep);
        lemma_split_whole(s.drop_first(), sep);
        let rest = split_spec(s.drop_first(), sep);
        assert(rest == seq![s.drop_first()]);
        assert(split_spec(s, sep) == seq![seq![s[0]] + rest[0]] + rest.drop_first());
        assert(rest.drop_first() =~= Seq::<Seq<char>>::empty());
        assert(seq![s[0]] + s.drop_first() =~= s);
        assert(split_spec(s, sep) =~= seq![s]);
    }
}

/// Splitting distributes over a separator between two strings.
pub proof fn lemma_split_concat(a: Seq<char>, b: Seq<char>, sep: char)
    ensures
        split_spec(a + seq![sep] + b, sep) == split_spec(a, sep) + split_spec(b, sep),
    decreases a.len(),
{
    let t = a + seq![sep] + b;
    if a.len() == 0 {
        assert(t.len() >= 1);
        assert(t[0] == sep);
        assert(t.drop_first() =~= b);
        assert(split_spec(t, sep) == seq![Seq::<char>::empty()] + split_spec(t.drop_first(), sep));
        assert(split_spec(a, sep) == seq![Seq::<char>::empty()]);
        assert(split_spec(t, sep) =~= split_spec(a, sep) + split_spec(b, sep));
    } else {
        lemma_split_concat(a.drop_first(), b, sep);
        lemma_split_nonempty(a.drop_first(), sep);
        lemma_split_nonempty(b, sep);
        assert(t.len() == a.len() + 1 + b.len());
        assert(t[0] == a[0]);
        assert(t.drop_first() =~= a.drop_first() + seq![sep] + b);
        let rest = split_spec(a.drop_first(), sep);
        let trest = split_spec(t.drop_first(), sep);
        assert(trest == rest + split_spec(b, sep));
        if a[0] == sep {
            assert(split_spec(t, sep) == seq![Seq::<char>::empty()] + trest);
            assert(split_spec(a, sep) == seq![Seq::<char>::empty()] + rest);
            assert(split_spec(t, sep) =~= split_spec(a, sep) + split_spec(b, sep));
        } else {
            assert(split_spec(t, sep) == seq![seq![t[0]] + trest[0]] + trest.drop_first());
            assert(split_spec(a, sep) == seq![seq![a[0]] + rest[0]] + rest.drop_first());
            assert(trest[0] == rest[0]);
            assert(trest.drop_first() =~= rest.drop_first() + split_spec(b, sep));
            assert(split_spec(t, sep) =~= split_spec(a, sep) + split_spec(b, sep));
        }
    }
}

/// Joining the pieces with the separator restores the string.
pub open spec fn join_spec(parts: Seq<Seq<char>>, sep: char) -> Seq<char>
    decreases parts.len(),
{
    if parts.len() == 0 {
        Seq::<char>::empty()
    } else if parts.len() == 1 {
        parts[0]
    } else {
        parts[0] + seq![sep] + join_spec(parts.drop_first(), sep)
    }
}

pub proof fn lemma_join_split(s: Seq<char>, sep: char)
    ensures
        join_spec(split_spec(s, sep), sep) == s,
    decreases s.len(),
{
    if s.len() == 0 {
        assert(join_spec(split_spec(s, sep), sep) =~= s);
    } else {
        lemma_join_split(s.drop_first(), sep);
        let rest = split_spec(s.drop_first(), sep);
        lemma_split_nonempty(s.drop_first(), sep);
        if s[0] == sep {
            let w = split_spec(s, sep);
            assert(w == seq![Seq::<char>::empty()] + rest);
            assert(w.len() == 1 + rest.len());
            assert(w.drop_first() =~= rest);
            assert(join_spec(w, sep) == w[0] + seq![sep] + join_spec(w.drop_first(), sep));
            assert(w[0] == Seq::<char>::empty());
            assert(join_spec(w, sep) =~= s);
        } else {
            let w = split_spec(s, sep);
            if rest.len() == 1 {
                assert(w =~= seq![seq![s[0]] + rest[0]]);
                assert(join_spec(w, sep) =~= s);
            } else {
                reveal_with_fuel(join_spec, 3);
                assert(w[0] == seq![s[0]] + rest[0]);
                assert(w.len() == 1 + rest.drop_first().len());
                assert(w.len() >= 2);
                assert(w.drop_first() =~= rest.drop_first());
                assert(join_spec(w, sep) == w[0] + seq![sep] + join_spec(w.drop_first(), sep));
                assert(join_spec(w, sep) == w[0] + seq![sep] + join_spec(rest.drop_first(), sep));
                assert(join_spec(rest, sep) == rest[0] + seq![sep] + join_spec(rest.drop_first(), sep));
                let tail = rest[0] + seq![sep] + join_spec(rest.drop_first(), sep);
                assert(tail == s.drop_first());
                assert(join_spec(w, sep) =~= seq![s[0]] + tail);
                assert(seq![s[0]] + s.drop_first() =~= s);
                assert(join_spec(w, sep) == s);
            }
        }
    }
}

/// Splits a string at every occurrence of `sep`.
pub fn split_str(s: &str, sep: char) -> (r: Vec<String>)
    ensures
        r@.len() == split_spec(s@, sep).len(),
        forall|i: int| 0 <= i < r@.len() ==> #[trigger] r@[i]@ == split_spec(s@, sep)[i],
{
    let len = s.unicode_len();
    let mut out: Vec<String> = Vec::new();
    let mut start: usize = 0;
    let mut i: usize = 0;
    proof {
        assert(s@.subrange(0, 0) =~= Seq::<char>::empty());
    }
    while i < len
        invariant
            len == s@.len(),
            start <= i <= len,
            out@.len() + 1 == split_spec(s@.subrange(0, i as int), sep).len(),
            forall|j: int| 0 <= j < out@.len()
                ==> #[trigger] out@[j]@ == split_spec(s@.subrange(0, i as int), sep)[j],
            split_spec(s@.subrange(0, i as int), sep).last() == s@.subrange(start as int, i as int),
        decreases len - i,
    {
        let ghost pre = s@.subrange(0, i as int);
        let c = s.get_char(i);
        proof {
            assert(s@.subrange(0, i as int + 1) =~= pre + seq![s@[i as int]]);
        }
        if c == sep {
            proof {
                lemma_split_append_sep(pre, sep);
                lemma_split_nonempty(pre, sep);
            }
            let piece = s.substring_char(start, i);
            out.push(String::from_str(piece));
            start = i + 1;
            proof {
                assert(s@.subrange(start as int, i as int + 1) =~= Seq::<char>::empty());
            }
        } else {
            proof {
                lemma_split_append_char(pre, sep, c);
                lemma_split_nonempty(pre, sep);
                assert(s@.subrange(start as int, i as int) + seq![s@[i as int]]
                    =~= s@.subrange(start as int, i as int + 1));
            }
        }
        i = i + 1;
    }
    proof {
        assert(s@.subrange(0, len as int) =~= s@);
        lemma_split_nonempty(s@, sep);
    }
    let piece = s.substring_char(start, len);
    out.push(String::from_str(piece));
    out
}

/// How a string falls apart when a single trailing separator is not counted:
/// the behaviour of splitting with a terminator convention.
pub open spec fn split_terminator_spec(s: Seq<char>, sep: char) -> Seq<Seq<char>> {
    if s.len() == 0 {
        Seq::<Seq<char>>::empty()
    } else if s.last() == sep {
        split_spec(s.drop_last(), sep)
    } else {
        split_spec(s, sep)
    }
}

/// Splits a string at `sep`, ignoring one trailing separator.
pub fn split_terminator_str(s: &str, sep: char) -> (r: Vec<String>)
    ensures
        r@.len() == split_terminator_spec(s@, sep).len(),
        forall|i: int| 0 <= i < r@.len() ==> #[trigger] r@[i]@ == split_terminator_spec(s@, sep)[i],
{
    let len = s.unicode_len();
    if len == 0 {
        let out: Vec<String> = Vec::new();
        return out;
    }
    if s.get_char(len - 1) == sep {
        let head = s.substring_char(0, len - 1);
        proof {
            assert(head@ == s@.drop_last());
        }
        split_str(head, sep)
    } else {
        split_str(s, sep)
    }
}

} // verus!
