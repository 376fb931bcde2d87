//! Splitting a source line into tokens on single space characters:
//! consecutive spaces yield empty tokens, and the empty line yields one
//! empty token.

use vstd::prelude::*;
use vstd::string::StrSliceExecFns;

verus! {

/// The index of the first space in `s`, or `s.len()` if there is none.
pub open spec fn first_space(s: Seq<char>) -> nat
    decreases s.len(),
{
    if s.len() == 0 {
        0
    } else if s[0] == ' ' {
        0
    } else {
        1 + first_space(s.drop_first())
    }
}

/// The tokens of `s`, split on every single space. Never empty: a line
/// without spaces is one token.
pub open spec fn spec_split(s: Seq<char>) -> Seq<Seq<char>>
    decreases s.len(),
{
    let f = first_space(s);
    if f >= s.len() {
        seq![s]
    } else {
        seq![s.subrange(0, f as int)] + spec_split(s.subrange(f as int + 1, s.len() as int))
    }
}

/// `first_space` is the least index holding a space, and is `s.len()` when
/// no index does.
pub proof fn lemma_first_space_at(s: Seq<char>, i: int)
    requires
        0 <= i <= s.len(),
        forall|j: int| 0 <= j < i ==> s[j] != ' ',
        i < s.len() ==> s[i] == ' ',
    ensures
        first_space(s) == i,
    decreases s.len(),
{
    if s.len() == 0 {
    } else if s[0] == ' ' {
        assert(i == 0);
    } else {
        assert(i > 0);
        let t = s.drop_first();
        assert(forall|j: int| 0 <= j < i - 1 ==> t[j] != ' ');
        assert(i - 1 < t.len() ==> t[i - 1] == ' ');
        lemma_first_space_at(t, i - 1);
    }
}

/// A split has at least one token.
pub proof fn lemma_split_len(s: Seq<char>)
    ensures
        spec_split(s).len() >= 1,
{
}

/// Whether two strings hold the same characters.
pub fn str_eq(a: &str, b: &str) -> (r: bool)
    ensures
        r == (a@ == b@),
{
    let x: String = a.to_owned();
    let y: String = b.to_owned();
    x == y
}

/// The index of the first space in `s`, or its length if there is none.
fn find_first_space(s: &str) -> (i: usize)
    ensures
        i == first_space(s@),
        i <= s@.len(),
{
    let len = s.unicode_len();
    let mut i: usize = 0;
    loop
        invariant_except_break
            i <= len,
            len == s@.len(),
            forall|j: int| 0 <= j < i ==> s@[j] != ' ',
        ensures
            i == first_space(s@),
            i <= s@.len(),
        decreases len - i,
    {
        if i >= len {
            proof {
                lemma_first_space_at(s@, i as int);
            }
            break;
        }
        if s.get_char(i) == ' ' {
            proof {
                lemma_first_space_at(s@, i as int);
            }
            break;
        }
        i += 1;
    }
    i
}

/// Splits `s` into its tokens on single spaces.
pub fn split_spaces(s: &str) -> (r: Vec<String>)
    ensures
        r.deep_view() == spec_split(s@),
    decreases s@.len(),
{
    let len = s.unicode_len();
    let f = find_first_space(s);
    if f >= len {
        let mut v: Vec<String> = Vec::new();
        v.push(s.to_owned());
        proof {
            assert(v.deep_view() =~= seq![s@]);
        }
        v
    } else {
        let tok = s.substring_char(0, f).to_owned();
        let rest = s.substring_char(f + 1, len);
        let mut v = split_spaces(rest);
        v.insert(0, tok);
        proof {
            assert(v.deep_view() =~= seq![s@.subrange(0, f as int)] + spec_split(
                s@.subrange(f as int + 1, s@.len() as int),
            ));
        }
        v
    }
}

} // verus!
