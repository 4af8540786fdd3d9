use vstd::prelude::*;
use vstd::utf8::char_is_scalar;
use vstd::utf8::encode_scalar;
use vstd::utf8::encode_utf8;
use crate::session::KhaiiiApi;

verus! {

/// Number of bytes in the UTF-8 encoding of one character.
pub open spec fn char_len(c: char) -> int {
    encode_scalar(c as u32).len() as int
}

/// Number of bytes in the UTF-8 encoding of a character sequence; this is
/// exactly the byte length of the text it came from.
pub open spec fn byte_length(s: Seq<char>) -> int {
    encode_utf8(s).len() as int
}

/// The alignment index of a text: one entry per byte of its UTF-8 encoding,
/// giving the ordinal of the codepoint that the byte belongs to.
pub open spec fn align_of(s: Seq<char>) -> Seq<int>
    decreases s.len(),
{
    if s.len() == 0 {
        Seq::empty()
    } else {
        align_of(s.drop_last()) + Seq::new(char_len(s.last()) as nat, |i: int| s.len() - 1)
    }
}

/// `a` holds the alignment index of the text `s` as `i32` entries.
pub open spec fn is_alignment(a: Seq<i32>, s: Seq<char>) -> bool {
    &&& a.len() == byte_length(s)
    &&& forall|b: int| 0 <= b < a.len() ==> (#[trigger] a[b]) as int == align_of(s)[b]
}

/// What the result constructors need of an alignment table on its own:
/// entries are non-negative, below `i32::MAX`, and non-decreasing.
pub open spec fn align_wf(a: Seq<i32>) -> bool {
    &&& forall|b: int| 0 <= b < a.len() ==> 0 <= #[trigger] a[b] < 0x7fff_ffff
    &&& forall|i: int, j: int|
        #![trigger a[i], a[j]]
        0 <= i <= j < a.len() ==> a[i] <= a[j]
}

/// True when byte offset `b` falls on a codepoint boundary of `s`: the first
/// byte of some codepoint, or the byte length of the whole text.
pub open spec fn is_codepoint_start(s: Seq<char>, b: int) -> bool {
    exists|k: int| 0 <= k <= s.len() && b == #[trigger] byte_length(s.take(k))
}

proof fn lemma_char_len_bounds(c: char)
    ensures
        1 <= char_len(c) <= 4,
{
    char_is_scalar(c);
}

proof fn lemma_encode_utf8_snoc(s: Seq<char>, c: char)
    ensures
        encode_utf8(s.push(c)) == encode_utf8(s) + encode_scalar(c as u32),
    decreases s.len(),
{
    if s.len() == 0 {
        reveal_with_fuel(encode_utf8, 2);
        assert(s =~= Seq::<char>::empty());
        assert(s.push(c).drop_first() =~= Seq::<char>::empty());
        assert(s.push(c)[0] == c);
        assert(encode_utf8(s.push(c)) =~= encode_utf8(s) + encode_scalar(c as u32));
    } else {
        lemma_encode_utf8_snoc(s.drop_first(), c);
        assert(s.push(c).drop_first() =~= s.drop_first().push(c));
        assert(s.push(c)[0] == s[0]);
        assert(encode_utf8(s.push(c)) =~= encode_utf8(s) + encode_scalar(c as u32));
    }
}

/// UTF-8 encoding distributes over concatenation.
pub proof fn lemma_encode_concat(a: Seq<char>, b: Seq<char>)
    ensures
        encode_utf8(a + b) == encode_utf8(a) + encode_utf8(b),
    decreases a.len(),
{
    if a.len() == 0 {
        reveal_with_fuel(encode_utf8, 2);
        assert(a + b =~= b);
        assert(a =~= Seq::<char>::empty());
        assert(encode_utf8(a + b) =~= encode_utf8(a) + encode_utf8(b));
    } else {
        lemma_encode_concat(a.drop_first(), b);
        assert((a + b).drop_first() =~= a.drop_first() + b);
        assert((a + b)[0] == a[0]);
        assert(encode_utf8(a + b) =~= encode_utf8(a) + encode_utf8(b));
    }
}

proof fn lemma_byte_length_snoc(s: Seq<char>, c: char)
    ensures
        byte_length(s.push(c)) == byte_length(s) + char_len(c),
{
    lemma_encode_utf8_snoc(s, c);
}

proof fn lemma_byte_length_take_succ(s: Seq<char>, k: int)
    requires
        0 <= k < s.len(),
    ensures
        byte_length(s.take(k + 1)) == byte_length(s.take(k)) + char_len(s[k]),
{
    assert(s.take(k + 1) =~= s.take(k).push(s[k]));
    lemma_byte_length_snoc(s.take(k), s[k]);
}

proof fn lemma_byte_length_take_mono(s: Seq<char>, k1: int, k2: int)
    requires
        0 <= k1 <= k2 <= s.len(),
    ensures
        byte_length(s.take(k1)) <= byte_length(s.take(k2)),
        k1 < k2 ==> byte_length(s.take(k1)) < byte_length(s.take(k2)),
    decreases k2 - k1,
{
    if k1 < k2 {
        lemma_byte_length_take_succ(s, k2 - 1);
        lemma_char_len_bounds(s[k2 - 1]);
        lemma_byte_length_take_mono(s, k1, k2 - 1);
    }
}

/// The alignment index has one entry per byte of the text's UTF-8 encoding.
pub proof fn lemma_alignment_length(s: Seq<char>)
    ensures
        align_of(s).len() == byte_length(s),
    decreases s.len(),
{
    if s.len() > 0 {
        lemma_alignment_length(s.drop_last());
        assert(s =~= s.drop_last().push(s.last()));
        lemma_byte_length_snoc(s.drop_last(), s.last());
    }
}

/// The alignment index is non-decreasing, its entries name codepoints of the
/// text, and its final entry is the ordinal of the last codepoint.
pub proof fn lemma_alignment_monotone(s: Seq<char>)
    ensures
        forall|i: int, j: int|
            #![trigger align_of(s)[i], align_of(s)[j]]
            0 <= i <= j < align_of(s).len() ==> align_of(s)[i] <= align_of(s)[j],
        forall|b: int| 0 <= b < align_of(s).len() ==> 0 <= #[trigger] align_of(s)[b] < s.len(),
        s.len() > 0 ==> align_of(s).len() > 0 && align_of(s).last() == s.len() - 1,
    decreases s.len(),
{
    if s.len() > 0 {
        let t = s.drop_last();
        lemma_alignment_monotone(t);
        lemma_char_len_bounds(s.last());
        let rep = Seq::new(char_len(s.last()) as nat, |i: int| s.len() - 1);
        assert(align_of(s) == align_of(t) + rep);
        assert forall|b: int| 0 <= b < align_of(s).len() implies 0 <= #[trigger] align_of(s)[b]
            < s.len() by {
            if b < align_of(t).len() {
                assert(align_of(s)[b] == align_of(t)[b]);
            } else {
                assert(align_of(s)[b] == s.len() - 1);
            }
        }
        assert forall|i: int, j: int|
            #![trigger align_of(s)[i], align_of(s)[j]]
            0 <= i <= j < align_of(s).len() implies align_of(s)[i] <= align_of(s)[j] by {
            if j < align_of(t).len() {
                assert(align_of(s)[i] == align_of(t)[i]);
                assert(align_of(s)[j] == align_of(t)[j]);
            } else if i < align_of(t).len() {
                assert(align_of(s)[i] == align_of(t)[i]);
                assert(align_of(t)[i] < t.len());
                assert(align_of(s)[j] == s.len() - 1);
            } else {
                assert(align_of(s)[i] == s.len() - 1);
                assert(align_of(s)[j] == s.len() - 1);
            }
        }
        assert(align_of(s).last() == s.len() - 1);
    }
}

/// Every byte inside the `k`-th codepoint's encoding is aligned to `k`.
pub proof fn lemma_alignment_value(s: Seq<char>, k: int)
    requires
        0 <= k < s.len(),
    ensures
        forall|b: int|
            byte_length(s.take(k)) <= b < byte_length(s.take(k + 1)) ==> #[trigger] align_of(
                s,
            )[b] == k,
    decreases s.len(),
{
    let t = s.drop_last();
    lemma_alignment_length(t);
    lemma_char_len_bounds(s.last());
    if k == s.len() - 1 {
        assert(s.take(k) =~= t);
        assert(s.take(k + 1) =~= s);
        lemma_alignment_length(s);
        lemma_byte_length_snoc(t, s.last());
    } else {
        lemma_alignment_value(t, k);
        assert(t.take(k) =~= s.take(k));
        assert(t.take(k + 1) =~= s.take(k + 1));
        lemma_byte_length_take_mono(t, k + 1, t.len() as int);
        assert(t.take(t.len() as int) =~= t);
    }
}

/// A codepoint boundary strictly inside the text is the first byte of the
/// codepoint that the alignment index names there.
pub proof fn lemma_codepoint_start_align(s: Seq<char>, b: int)
    requires
        is_codepoint_start(s, b),
        0 <= b < byte_length(s),
    ensures
        0 <= align_of(s)[b] < s.len(),
        b == byte_length(s.take(align_of(s)[b])),
{
    lemma_alignment_monotone(s);
    lemma_alignment_length(s);
    let k = choose|k: int| 0 <= k <= s.len() && b == byte_length(s.take(k));
    assert(s.take(s.len() as int) =~= s);
    if k == s.len() {
        assert(false);
    }
    lemma_byte_length_take_succ(s, k);
    lemma_char_len_bounds(s[k]);
    lemma_alignment_value(s, k);
}

/// A codepoint boundary that closes a non-empty span is one past the last
/// byte of the codepoint that the alignment index names just before it.
pub proof fn lemma_codepoint_end_align(s: Seq<char>, e: int)
    requires
        is_codepoint_start(s, e),
        0 < e <= byte_length(s),
    ensures
        0 <= align_of(s)[e - 1] < s.len(),
        e == byte_length(s.take(align_of(s)[e - 1] + 1)),
{
    lemma_alignment_monotone(s);
    lemma_alignment_length(s);
    let k = choose|k: int| 0 <= k <= s.len() && e == byte_length(s.take(k));
    if k == 0 {
        assert(s.take(0) =~= Seq::<char>::empty());
        assert(false);
    }
    lemma_byte_length_take_succ(s, k - 1);
    lemma_char_len_bounds(s[k - 1]);
    lemma_alignment_value(s, k - 1);
}

/// An alignment table of a text no longer than `i32::MAX` codepoints is
/// well-formed on its own.
pub proof fn lemma_alignment_wf(a: Seq<i32>, s: Seq<char>)
    requires
        is_alignment(a, s),
        s.len() <= 0x7fff_ffff,
    ensures
        align_wf(a),
{
    lemma_alignment_monotone(s);
    lemma_alignment_length(s);
}

/// Number of bytes in the UTF-8 encoding of `c`.
fn char_utf8_len(c: char) -> (n: usize)
    ensures
        n as int == char_len(c),
{
    proof {
        char_is_scalar(c);
    }
    let u = c as u32;
    if u < 0x80 {
        1
    } else if u < 0x800 {
        2
    } else if u < 0x10000 {
        3
    } else {
        4
    }
}

impl KhaiiiApi {
    /// Builds the alignment index of `input`: one `i32` entry per byte of
    /// the UTF-8 encoding, giving the ordinal of the codepoint the byte
    /// belongs to. Empty input yields an empty index. The bound on the
    /// codepoint count only keeps the ordinals inside `i32`.
    pub fn get_align(&self, input: &str) -> (r: Vec<i32>)
        requires
            input@.len() <= 0x7fff_ffff,
        ensures
            is_alignment(r@, input@),
            r@.len() == byte_length(input@),
            forall|i: int, j: int|
                #![trigger r@[i], r@[j]]
                0 <= i <= j < r@.len() ==> r@[i] <= r@[j],
            input@.len() > 0 ==> r@.len() > 0 && r@[r@.len() - 1] as int == input@.len() - 1,
            input@.len() == 0 ==> r@.len() == 0,
    {
        let s_len = input.unicode_len();
        let mut v: Vec<i32> = Vec::new();
        let mut k: usize = 0;
        while k < s_len
            invariant
                k <= s_len,
                s_len == input@.len(),
                input@.len() <= 0x7fff_ffff,
                v@.len() == byte_length(input@.take(k as int)),
                forall|b: int|
                    0 <= b < v@.len() ==> (#[trigger] v@[b]) as int == align_of(
                        input@.take(k as int),
                    )[b],
            decreases s_len - k,
        {
            let c = input.get_char(k);
            let m = char_utf8_len(c);
            let ghost prefix = v@;
            let mut j: usize = 0;
            while j < m
                invariant
                    j <= m,
                    k < s_len <= 0x7fff_ffff,
                    v@ =~= prefix + Seq::new(j as nat, |i: int| k as i32),
                decreases m - j,
            {
                v.push(k as i32);
                j += 1;
            }
            proof {
                let s = input@;
                let ghost ka = k as int;
                lemma_alignment_length(s.take(ka));
                lemma_byte_length_take_succ(s, ka);
                assert(s.take(ka + 1).drop_last() =~= s.take(ka));
                assert(s.take(ka + 1).last() == s[ka]);
                assert(align_of(s.take(ka + 1)) == align_of(s.take(ka)) + Seq::new(
                    char_len(s[ka]) as nat,
                    |i: int| ka,
                ));
                assert(forall|b: int|
                    0 <= b < v@.len() ==> (#[trigger] v@[b]) as int == align_of(
                        s.take(ka + 1),
                    )[b]);
            }
            k += 1;
        }
        proof {
            assert(input@.take(s_len as int) =~= input@);
            lemma_alignment_monotone(input@);
            lemma_alignment_length(input@);
        }
        v
    }
}

} // verus!
