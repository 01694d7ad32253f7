//! Character-level text helpers: first occurrence of a character, splitting on
//! a separator, and string equality. The query-string grammar is built on
//! these.

use vstd::prelude::*;

verus! {

/// Index of the first occurrence of `c` in `s`, if any.
pub open spec fn find_first(s: Seq<char>, c: char) -> Option<int>
    decreases s.len(),
{
    if s.len() == 0 {
        None
    } else if s[0] == c {
        Some(0)
    } else {
        match find_first(s.drop_first(), c) {
            None => None,
            Some(i) => Some(i + 1),
        }
    }
}

/// What `find_first` returns: a valid index of `c` with no earlier occurrence,
/// or `None` when `c` does not occur.
pub proof fn lemma_find_first_props(s: Seq<char>, c: char)
    ensures
        match find_first(s, c) {
            Some(i) => 0 <= i < s.len() && s[i] == c && forall|j: int|
                0 <= j < i ==> s[j] != c,
            None => forall|j: int| 0 <= j < s.len() ==> s[j] != c,
        },
    decreases s.len(),
{
    if s.len() == 0 {
    } else if s[0] == c {
    } else {
        lemma_find_first_props(s.drop_first(), c);
        assert(forall|j: int| 1 <= j < s.len() ==> s[j] == s.drop_first()[j - 1]);
    }
}

/// An index of `c` with no earlier occurrence is what `find_first` returns.
pub proof fn lemma_find_first_determined(s: Seq<char>, c: char, i: int)
    requires
        0 <= i < s.len(),
        s[i] == c,
        forall|j: int| 0 <= j < i ==> s[j] != c,
    ensures
        find_first(s, c) == Some(i),
    decreases s.len(),
{
    if i == 0 {
    } else {
        assert(s[0] != c);
        let d = s.drop_first();
        assert(d[i - 1] == s[i]);
        assert(forall|j: int| 0 <= j < i - 1 ==> d[j] == s[j + 1]);
        lemma_find_first_determined(d, c, i - 1);
    }
}

/// When `c` never occurs, `find_first` says so.
pub proof fn lemma_find_first_absent(s: Seq<char>, c: char)
    requires
        forall|j: int| 0 <= j < s.len() ==> s[j] != c,
    ensures
        find_first(s, c) is None,
{
    lemma_find_first_props(s, c);
    match find_first(s, c) {
        Some(i) => {
            assert(s[i] == c);
        },
        None => {},
    }
}

/// The pieces of `s` between occurrences of `sep`; always at least one piece.
pub open spec fn split_on(s: Seq<char>, sep: char) -> Seq<Seq<char>>
    decreases s.len(),
{
    if s.len() == 0 {
        seq![Seq::<char>::empty()]
    } else if s[0] == sep {
        seq![Seq::<char>::empty()] + split_on(s.drop_first(), sep)
    } else {
        let rest = split_on(s.drop_first(), sep);
        seq![seq![s[0]] + rest[0]] + rest.skip(1)
    }
}

/// Splitting yields at least one piece.
pub proof fn lemma_split_on_nonempty(s: Seq<char>, sep: char)
    ensures
        split_on(s, sep).len() >= 1,
    decreases s.len(),
{
    if s.len() > 0 {
        lemma_split_on_nonempty(s.drop_first(), sep);
    }
}

/// Splitting decomposes at the first separator: no separator means one piece,
/// the whole of `s`; otherwise the piece before it, then the split of what
/// follows it.
pub proof fn lemma_split_on_find(s: Seq<char>, sep: char)
    ensures
        match find_first(s, sep) {
            None => split_on(s, sep) == seq![s],
            Some(i) => 0 <= i < s.len() && split_on(s, sep) == seq![s.take(i)]
                + split_on(s.skip(i + 1), sep),
        },
    decreases s.len(),
{
    lemma_find_first_props(s, sep);
    if s.len() == 0 {
        assert(s =~= Seq::<char>::empty());
        assert(split_on(s, sep) =~= seq![s]);
    } else if s[0] == sep {
        assert(find_first(s, sep) == Some(0int));
        assert(s.take(0) =~= Seq::<char>::empty());
        assert(s.skip(1) =~= s.drop_first());
        assert(split_on(s, sep) =~= seq![s.take(0)] + split_on(s.skip(1), sep));
    } else {
        let d = s.drop_first();
        let rest = split_on(d, sep);
        lemma_split_on_nonempty(d, sep);
        lemma_split_on_find(d, sep);
        match find_first(d, sep) {
            None => {
                assert(find_first(s, sep) is None);
                assert(rest == seq![d]);
                assert(rest[0] == d);
                assert(seq![s[0]] + d =~= s);
                assert(rest.skip(1) =~= Seq::<Seq<char>>::empty());
                assert(split_on(s, sep) =~= seq![s]);
            },
            Some(i) => {
                assert(find_first(s, sep) == Some(i + 1));
                assert(rest == seq![d.take(i)] + split_on(d.skip(i + 1), sep));
                assert(rest[0] == d.take(i));
                assert(seq![s[0]] + d.take(i) =~= s.take(i + 1));
                assert(rest.skip(1) =~= split_on(d.skip(i + 1), sep));
                assert(d.skip(i + 1) =~= s.skip(i + 2));
                assert(split_on(s, sep) =~= seq![s.take(i + 1)] + split_on(
                    s.skip(i + 2),
                    sep,
                ));
            },
        }
    }
}

/// First occurrence of `c` in `s`, scanning left to right.
pub fn find_char(s: &str, c: char) -> (r: Option<usize>)
    ensures
        r matches Some(i) ==> find_first(s@, c) == Some(i as int),
        r is None ==> find_first(s@, c) is None,
{
    let len = s.unicode_len();
    let mut i: usize = 0;
    while i < len
        invariant
            0 <= i <= len,
            len == s@.len(),
            forall|j: int| 0 <= j < i ==> s@[j] != c,
        decreases len - i,
    {
        if s.get_char(i) == c {
            proof {
                lemma_find_first_determined(s@, c, i as int);
            }
            return Some(i);
        }
        i = i + 1;
    }
    proof {
        lemma_find_first_absent(s@, c);
    }
    None
}

/// The views of a sequence of string slices.
pub open spec fn views_of(parts: Seq<&str>) -> Seq<Seq<char>> {
    parts.map_values(|p: &str| p@)
}

/// Split `s` into the pieces between occurrences of `sep`.
pub fn split_str<'a>(s: &'a str, sep: char) -> (parts: Vec<&'a str>)
    ensures
        views_of(parts@) == split_on(s@, sep),
    decreases s@.len(),
{
    proof {
        lemma_split_on_find(s@, sep);
    }
    match find_char(s, sep) {
        None => {
            let mut parts: Vec<&'a str> = Vec::new();
            parts.push(s);
            proof {
                assert(views_of(parts@) =~= seq![s@]);
            }
            parts
        },
        Some(i) => {
            let len = s.unicode_len();
            proof {
                lemma_find_first_props(s@, sep);
            }
            let head = s.substring_char(0, i);
            let tail = s.substring_char(i + 1, len);
            proof {
                assert(head@ == s@.take(i as int));
                assert(tail@ == s@.skip(i as int + 1));
            }
            let mut parts: Vec<&'a str> = Vec::new();
            parts.push(head);
            let mut rest = split_str(tail, sep);
            let ghost rest_view = rest@;
            parts.append(&mut rest);
            proof {
                assert(parts@ =~= seq![head] + rest_view);
                assert(views_of(parts@) =~= seq![s@.take(i as int)] + views_of(
                    rest_view,
                ));
            }
            parts
        },
    }
}

/// Character-for-character string equality.
pub fn str_eq(a: &str, b: &str) -> (r: bool)
    ensures
        r == (a@ == b@),
{
    let la = a.unicode_len();
    let lb = b.unicode_len();
    if la != lb {
        return false;
    }
    let mut i: usize = 0;
    while i < la
        invariant
            0 <= i <= la,
            la == a@.len(),
            lb == b@.len(),
            la == lb,
            forall|j: int| 0 <= j < i ==> a@[j] == b@[j],
        decreases la - i,
    {
        if a.get_char(i) != b.get_char(i) {
            return false;
        }
        i = i + 1;
    }
    proof {
        assert(a@ =~= b@);
    }
    true
}

} // verus!
