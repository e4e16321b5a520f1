//! Splitting text on a separator character, with an exact specification.
//!
//! The flat-file credential store and the basic-auth credential format are
//! both separator-delimited, so their grammars are stated over `split_on`
//! and parsed by `split_string`, which is proved to compute it.

use vstd::prelude::*;
use vstd::string::{StrSliceExecFns, StringExecFns};

verus! {

/// The position of the first occurrence of `sep` in `s`, if any.
pub open spec fn first_sep(s: Seq<char>, sep: char) -> Option<int>
    decreases s.len(),
{
    if s.len() == 0 {
        None
    } else if s[0] == sep {
        Some(0)
    } else {
        match first_sep(s.drop_first(), sep) {
            Some(i) => Some(i + 1),
            None => None,
        }
    }
}

pub proof fn lemma_first_sep_bounds(s: Seq<char>, sep: char)
    ensures
        first_sep(s, sep) is Some ==> 0 <= first_sep(s, sep)->0 < s.len(),
    decreases s.len(),
{
    if s.len() > 0 && s[0] != sep {
        lemma_first_sep_bounds(s.drop_first(), sep);
    }
}

pub proof fn lemma_first_sep_none(s: Seq<char>, sep: char)
    requires
        forall|j: int| 0 <= j < s.len() ==> s[j] != sep,
    ensures
        first_sep(s, sep) is None,
    decreases s.len(),
{
    if s.len() > 0 {
        lemma_first_sep_none(s.drop_first(), sep);
    }
}

pub proof fn lemma_first_sep_at(s: Seq<char>, sep: char, i: int)
    requires
        0 <= i < s.len(),
        s[i] == sep,
        forall|j: int| 0 <= j < i ==> s[j] != sep,
    ensures
        first_sep(s, sep) == Some(i),
    decreases s.len(),
{
    if i > 0 {
        lemma_first_sep_at(s.drop_first(), sep, i - 1);
    }
}

/// `s` split on every occurrence of `sep`: the pieces between separators,
/// in order, the empty piece included. A text without separators is one
/// piece; a separator at the edge contributes an empty piece beside it.
pub open spec fn split_on(s: Seq<char>, sep: char) -> Seq<Seq<char>>
    decreases s.len(),
    via split_on_decreases
{
    match first_sep(s, sep) {
        None => seq![s],
        Some(i) => seq![s.take(i)] + split_on(s.skip(i + 1), sep),
    }
}

#[via_fn]
proof fn split_on_decreases(s: Seq<char>, sep: char) {
    lemma_first_sep_bounds(s, sep);
}

/// The views of a vector of strings.
pub open spec fn strings_view(v: Seq<String>) -> Seq<Seq<char>> {
    v.map_values(|p: String| p@)
}

/// Split a string on a separator character.
pub fn split_string(s: &str, sep: char) -> (r: Vec<String>)
    ensures
        strings_view(r@) == split_on(s@, sep),
{
    let n = s.unicode_len();
    let mut out: Vec<String> = Vec::new();
    let mut start: usize = 0;
    let mut i: usize = 0;
    proof {
        assert(s@.skip(0) =~= s@);
        assert(strings_view(out@) =~= Seq::<Seq<char>>::empty());
    }
    while i < n
        invariant
            start <= i <= n,
            n == s@.len(),
            split_on(s@, sep) =~~= strings_view(out@) + split_on(s@.skip(start as int), sep),
            forall|j: int| start <= j < i ==> s@[j] != sep,
        decreases n - i,
    {
        let c = s.get_char(i);
        if c == sep {
            let piece = s.substring_char(start, i).to_owned();
            proof {
                let tail = s@.skip(start as int);
                assert(tail[i - start] == sep);
                assert forall|j: int| 0 <= j < i - start implies tail[j] != sep by {
                    assert(tail[j] == s@[start + j]);
                }
                lemma_first_sep_at(tail, sep, i - start);
                assert(split_on(tail, sep) == seq![tail.take(i - start)] + split_on(
                    tail.skip(i - start + 1),
                    sep,
                ));
                assert(tail.take(i - start) =~= piece@);
                assert(tail.skip(i - start + 1) =~= s@.skip(i + 1));
            }
            out.push(piece);
            proof {
                assert(split_on(s@, sep) =~~= strings_view(out@) + split_on(s@.skip(i + 1), sep));
            }
            start = i + 1;
        }
        i += 1;
    }
    let last = s.substring_char(start, n).to_owned();
    proof {
        let tail = s@.skip(start as int);
        assert forall|j: int| 0 <= j < tail.len() implies tail[j] != sep by {
            assert(tail[j] == s@[start + j]);
        }
        lemma_first_sep_none(tail, sep);
        assert(split_on(tail, sep) == seq![tail]);
        assert(tail =~= last@);
    }
    out.push(last);
    proof {
        assert(strings_view(out@) =~~= split_on(s@, sep));
    }
    out
}

} // verus!
