//! The helpers of the lesson on lifetimes: both hand back a part of what they
//! were given.

use vstd::prelude::*;
use vstd::string::StringSliceAdditionalSpecFns;

verus! {

/// The characters of `s` before its first space, and all of them where it has
/// none.
pub open spec fn first_word_of(s: Seq<char>) -> Seq<char>
    decreases s.len(),
{
    if s.len() == 0 || s[0] == ' ' {
        Seq::empty()
    } else {
        seq![s[0]] + first_word_of(s.drop_first())
    }
}

/// `first_word_of(s)` is the stretch of `s` up to its first space.
pub proof fn lemma_first_word_is_prefix(s: Seq<char>, k: int)
    requires
        0 <= k <= s.len(),
        forall|i: int| 0 <= i < k ==> #[trigger] s[i] != ' ',
        k < s.len() ==> s[k] == ' ',
    ensures
        first_word_of(s) == s.subrange(0, k),
    decreases k,
{
    if k == 0 {
        assert(s.subrange(0, 0) =~= Seq::<char>::empty());
    } else {
        let t = s.drop_first();
        assert forall|i: int| 0 <= i < k - 1 implies #[trigger] t[i] != ' ' by {
            assert(t[i] == s[i + 1]);
        }
        lemma_first_word_is_prefix(t, k - 1);
        assert(s.subrange(0, k) =~= seq![s[0]] + t.subrange(0, k - 1));
    }
}

/// The longer of `x` and `y`, measured in bytes; `y` where neither is longer.
pub fn longest<'a>(x: &'a str, y: &'a str) -> (r: &'a str)
    ensures
        r@ == if x.spec_bytes().len() > y.spec_bytes().len() {
            x@
        } else {
            y@
        },
{
    if x.as_bytes().len() > y.as_bytes().len() {
        x
    } else {
        y
    }
}

/// The first word of `s`: what stands before its first space.
pub fn first_word(s: &str) -> (word: &str)
    ensures
        word@ == first_word_of(s@),
{
    broadcast use vstd::string::group_string_axioms;

    let n: usize = s.unicode_len();
    let mut end: usize = 0;
    let mut found: bool = false;
    for c in it: s.chars()
        invariant
            n == s@.len(),
            it.seq() == s@,
            end <= it.index(),
            !found ==> end == it.index(),
            found ==> end < n && s@[end as int] == ' ',
            forall|i: int| 0 <= i < end ==> #[trigger] s@[i] != ' ',
    {
        if !found {
            if c == ' ' {
                found = true;
            } else {
                end = end + 1;
            }
        }
    }
    proof {
        lemma_first_word_is_prefix(s@, end as int);
    }
    s.substring_char(0, end)
}

} // verus!
