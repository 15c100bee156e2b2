//! Characters and character sequences: whitespace, trimming, comparison.

use vstd::prelude::*;
use vstd::string::StringSliceAdditionalSpecFns;

verus! {

/// Whether `c` has the Unicode property `White_Space`.
pub open spec fn is_space(c: char) -> bool {
    let n = c as u32;
    ||| 0x09 <= n <= 0x0D
    ||| n == 0x20
    ||| n == 0x85
    ||| n == 0xA0
    ||| n == 0x1680
    ||| 0x2000 <= n <= 0x200A
    ||| n == 0x2028
    ||| n == 0x2029
    ||| n == 0x202F
    ||| n == 0x205F
    ||| n == 0x3000
}

/// Tells whether `c` is a whitespace character.
pub fn is_whitespace(c: char) -> (r: bool)
    ensures
        r == is_space(c),
{
    let n: u32 = c as u32;
    (0x09 <= n && n <= 0x0D) || n == 0x20 || n == 0x85 || n == 0xA0 || n == 0x1680 || (0x2000 <= n
        && n <= 0x200A) || n == 0x2028 || n == 0x2029 || n == 0x202F || n == 0x205F || n == 0x3000
}

/// `s` without the whitespace characters at its front.
pub open spec fn trim_start(s: Seq<char>) -> Seq<char>
    decreases s.len(),
{
    if s.len() > 0 && is_space(s[0]) {
        trim_start(s.drop_first())
    } else {
        s
    }
}

/// `s` without the whitespace characters at its end.
pub open spec fn trim_end(s: Seq<char>) -> Seq<char>
    decreases s.len(),
{
    if s.len() > 0 && is_space(s.last()) {
        trim_end(s.drop_last())
    } else {
        s
    }
}

/// `s` without the whitespace characters at either end.
pub open spec fn trim(s: Seq<char>) -> Seq<char> {
    trim_end(trim_start(s))
}

/// Every character of `s` is whitespace.
pub open spec fn all_space(s: Seq<char>) -> bool {
    forall|i: int| 0 <= i < s.len() ==> is_space(#[trigger] s[i])
}

/// Cutting a run of whitespace off the front leaves what `trim_start` leaves.
proof fn lemma_trim_start_skips(s: Seq<char>, a: int)
    requires
        0 <= a <= s.len(),
        all_space(s.subrange(0, a)),
    ensures
        trim_start(s) == trim_start(s.subrange(a, s.len() as int)),
    decreases a,
{
    if a == 0 {
        assert(s.subrange(0, s.len() as int) =~= s);
    } else {
        assert(s.subrange(0, a)[0] == s[0]);
        let t = s.drop_first();
        assert forall|i: int| 0 <= i < a - 1 implies is_space(#[trigger] t.subrange(0, a - 1)[i]) by {
            assert(t.subrange(0, a - 1)[i] == s.subrange(0, a)[i + 1]);
        }
        lemma_trim_start_skips(t, a - 1);
        assert(t.subrange(a - 1, t.len() as int) =~= s.subrange(a, s.len() as int));
    }
}

/// Cutting a run of whitespace off the end leaves what `trim_end` leaves.
proof fn lemma_trim_end_skips(s: Seq<char>, b: int)
    requires
        0 <= b <= s.len(),
        all_space(s.subrange(b, s.len() as int)),
    ensures
        trim_end(s) == trim_end(s.subrange(0, b)),
    decreases s.len() - b,
{
    if b == s.len() {
        assert(s.subrange(0, b) =~= s);
    } else {
        assert(s.subrange(b, s.len() as int)[s.len() - b - 1] == s.last());
        let t = s.drop_last();
        assert forall|i: int| 0 <= i < t.len() - b implies is_space(
            #[trigger] t.subrange(b, t.len() as int)[i],
        ) by {
            assert(t.subrange(b, t.len() as int)[i] == s.subrange(b, s.len() as int)[i]);
        }
        lemma_trim_end_skips(t, b);
        assert(t.subrange(0, b) =~= s.subrange(0, b));
    }
}

/// `trim(s)` is the stretch of `s` from its first to its last character that
/// is not whitespace, and empty where `s` has no such character.
pub proof fn lemma_trim_is_subrange(s: Seq<char>, a: int, b: int)
    requires
        0 <= a <= b <= s.len(),
        forall|i: int| 0 <= i < a ==> is_space(#[trigger] s[i]),
        forall|i: int| b <= i < s.len() ==> is_space(#[trigger] s[i]),
        a < b ==> !is_space(s[a]) && !is_space(s[b - 1]),
    ensures
        trim(s) == s.subrange(a, b),
{
    let n = s.len() as int;
    let u = s.subrange(a, n);
    lemma_trim_start_skips(s, a);
    if a == b {
        lemma_trim_start_skips(u, n - a);
        assert(u.subrange(n - a, n - a) =~= Seq::<char>::empty());
        assert(s.subrange(a, b) =~= Seq::<char>::empty());
    } else {
        assert(u[0] == s[a]);
        assert(trim_start(s) == u);
        lemma_trim_end_skips(u, b - a);
        let v = u.subrange(0, b - a);
        assert(v =~= s.subrange(a, b));
        assert(v.last() == s[b - 1]);
    }
}

/// A text made of whitespace alone trims to nothing.
pub proof fn lemma_trim_of_blank(s: Seq<char>)
    requires
        all_space(s),
    ensures
        trim(s) == Seq::<char>::empty(),
{
    lemma_trim_is_subrange(s, 0, 0);
    assert(s.subrange(0, 0) =~= Seq::<char>::empty());
}

/// Whitespace put behind a text does not change what trimming leaves of it.
proof fn lemma_trim_ignores_tail(core: Seq<char>, after: Seq<char>)
    requires
        all_space(after),
    ensures
        trim(core + after) == trim(core),
    decreases core.len(),
{
    let s = core + after;
    if core.len() == 0 {
        assert(s =~= after);
        lemma_trim_of_blank(after);
    } else if is_space(core[0]) {
        assert(s[0] == core[0]);
        assert(s.drop_first() =~= core.drop_first() + after);
        lemma_trim_ignores_tail(core.drop_first(), after);
    } else {
        assert(s[0] == core[0]);
        assert(s.subrange(core.len() as int, s.len() as int) =~= after);
        lemma_trim_end_skips(s, core.len() as int);
        assert(s.subrange(0, core.len() as int) =~= core);
    }
}

/// Whitespace put around a text does not change what trimming leaves of it.
pub proof fn law_trim_ignores_padding(before: Seq<char>, core: Seq<char>, after: Seq<char>)
    requires
        all_space(before),
        all_space(after),
    ensures
        trim(before + core + after) == trim(core),
{
    let s = before + core + after;
    assert(s.subrange(0, before.len() as int) =~= before);
    lemma_trim_start_skips(s, before.len() as int);
    assert(s.subrange(before.len() as int, s.len() as int) =~= core + after);
    lemma_trim_ignores_tail(core, after);
}

/// Trimming a second time changes nothing.
pub proof fn law_trim_idempotent(s: Seq<char>)
    ensures
        trim(trim(s)) == trim(s),
{
    lemma_trim_start_shape(s);
    let t = trim_start(s);
    lemma_trim_end_shape(t);
    let u = trim_end(t);
    if u.len() == 0 {
        lemma_trim_is_subrange(u, 0, 0);
        assert(u.subrange(0, 0) =~= u);
    } else {
        assert(u[0] == t[0]);
        lemma_trim_is_subrange(u, 0, u.len() as int);
        assert(u.subrange(0, u.len() as int) =~= u);
    }
}

/// What `trim_start` leaves is the end of the text and does not begin with
/// whitespace.
proof fn lemma_trim_start_shape(s: Seq<char>)
    ensures
        trim_start(s).len() <= s.len(),
        trim_start(s) == s.subrange(s.len() - trim_start(s).len(), s.len() as int),
        trim_start(s).len() > 0 ==> !is_space(trim_start(s)[0]),
    decreases s.len(),
{
    if s.len() > 0 && is_space(s[0]) {
        let t = s.drop_first();
        lemma_trim_start_shape(t);
        assert(t.subrange(t.len() - trim_start(t).len(), t.len() as int) =~= s.subrange(
            s.len() - trim_start(t).len(),
            s.len() as int,
        ));
    } else {
        assert(s.subrange(0, s.len() as int) =~= s);
    }
}

/// What `trim_end` leaves is the start of the text and does not end with
/// whitespace.
proof fn lemma_trim_end_shape(s: Seq<char>)
    ensures
        trim_end(s).len() <= s.len(),
        trim_end(s) == s.subrange(0, trim_end(s).len() as int),
        trim_end(s).len() > 0 ==> !is_space(trim_end(s).last()),
    decreases s.len(),
{
    if s.len() > 0 && is_space(s.last()) {
        let t = s.drop_last();
        lemma_trim_end_shape(t);
        assert(t.subrange(0, trim_end(t).len() as int) =~= s.subrange(
            0,
            trim_end(t).len() as int,
        ));
    } else {
        assert(s.subrange(0, s.len() as int) =~= s);
    }
}

/// A text that neither begins nor ends with whitespace is left as it is.
pub proof fn law_trim_keeps_tight_text(s: Seq<char>)
    requires
        s.len() > 0 ==> !is_space(s[0]) && !is_space(s.last()),
    ensures
        trim(s) == s,
{
    lemma_trim_is_subrange(s, 0, s.len() as int);
    assert(s.subrange(0, s.len() as int) =~= s);
}

/// The part of `line` between its leading and its trailing whitespace.
pub fn trimmed(line: &str) -> (r: &str)
    ensures
        r@ == trim(line@),
{
    broadcast use vstd::string::group_string_axioms;

    let n: usize = line.unicode_len();
    let mut start: usize = 0;
    let mut end: usize = 0;
    let mut at: usize = 0;
    for c in it: line.chars()
        invariant
            n == line@.len(),
            it.seq() == line@,
            at == it.index(),
            start <= end <= at,
            forall|i: int| 0 <= i < start ==> is_space(#[trigger] line@[i]),
            forall|i: int| end <= i < at ==> is_space(#[trigger] line@[i]),
            start < end ==> !is_space(line@[start as int]) && !is_space(line@[end - 1]),
            start == end ==> start == at,
    {
        if !is_whitespace(c) {
            if start == end {
                start = at;
            }
            end = at + 1;
        } else if start == end {
            start = at + 1;
            end = at + 1;
        }
        at = at + 1;
    }
    proof {
        lemma_trim_is_subrange(line@, start as int, end as int);
    }
    line.substring_char(start, end)
}

/// Tells whether `a` and `b` hold the same characters.
pub fn same_text(a: &str, b: &str) -> (r: bool)
    ensures
        r == (a@ == b@),
{
    let x: &[u8] = a.as_bytes();
    let y: &[u8] = b.as_bytes();
    proof {
        vstd::utf8::encode_utf8_decode_utf8(a@);
        vstd::utf8::encode_utf8_decode_utf8(b@);
    }
    if x.len() != y.len() {
        return false;
    }
    let mut i: usize = 0;
    while i < x.len()
        invariant
            i <= x.len(),
            x.len() == y.len(),
            x@ == a.spec_bytes(),
            y@ == b.spec_bytes(),
            vstd::utf8::decode_utf8(a.spec_bytes()) == a@,
            vstd::utf8::decode_utf8(b.spec_bytes()) == b@,
            forall|k: int| 0 <= k < i ==> x@[k] == y@[k],
        decreases x.len() - i,
    {
        if x[i] != y[i] {
            return false;
        }
        i = i + 1;
    }
    assert(x@ =~= y@);
    true
}

} // verus!
