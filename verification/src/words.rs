use vstd::prelude::*;
use vstd::string::StrSliceExecFns;
use vstd::utf8::encode_utf8;
use crate::align::align_of;
use crate::align::align_wf;
use crate::align::byte_length;
use crate::align::is_alignment;
use crate::align::is_codepoint_start;
use crate::align::lemma_alignment_length;
use crate::align::lemma_alignment_monotone;
use crate::align::lemma_alignment_wf;
use crate::align::lemma_codepoint_end_align;
use crate::align::lemma_codepoint_start_align;
use crate::align::lemma_encode_concat;
use crate::session::KhaiiiApi;

verus! {

/// One morphological unit as walked out of the engine's result list: byte
/// offsets into the input and the engine's own strings, already decoded
/// where that was possible.
#[derive(Debug)]
pub struct RawMorph {
    /// The engine's normalized form, `None` when not decodable text.
    pub lex: Option<String>,
    /// The engine's category label, `None` when not decodable text.
    pub tag: Option<String>,
    /// First byte of the span in the input.
    pub begin: i32,
    /// Byte count of the span.
    pub length: i32,
}

/// One word as walked out of the engine's result list: a byte span into the
/// input and the nested morph list, in engine order.
#[derive(Debug)]
pub struct RawWord {
    /// First byte of the span in the input.
    pub begin: i32,
    /// Byte count of the span.
    pub length: i32,
    /// The word's morphs, in the order the engine produced them.
    pub morphs: Vec<RawMorph>,
}

/// One lexical unit of the input, aligned to codepoint boundaries. Fully
/// owned value data: nothing refers back into native memory.
#[derive(Debug, PartialEq, Eq)]
pub struct KhaiiiWord {
    /// The input text covered by the word.
    pub lex: String,
    /// Codepoint ordinal of the first covered codepoint.
    pub begin: i32,
    /// Codepoint count of the covered span.
    pub length: i32,
    /// The word's morphs, in engine order.
    pub morphs: Vec<KhaiiiMorph>,
}

/// A morphological unit inside a word, aligned to codepoint boundaries.
#[derive(Debug, PartialEq, Eq)]
pub struct KhaiiiMorph {
    /// The engine's normalized form of the morph.
    pub lex: String,
    /// The engine's category label.
    pub tag: String,
    /// Codepoint ordinal of the first covered codepoint.
    pub begin: i32,
    /// Codepoint count of the covered span.
    pub length: i32,
}

/// `t` is the decoded text of `o`, with an empty text standing in for an
/// undecodable one.
pub open spec fn decoded_or_empty(o: Option<String>, t: Seq<char>) -> bool {
    match o {
        Some(x) => t == x@,
        None => t == Seq::<char>::empty(),
    }
}

/// A byte span `[begin, begin + length)` that can be looked up in an
/// alignment table of `n_bytes` entries.
pub open spec fn raw_span_in(begin: int, length: int, n_bytes: int) -> bool {
    0 <= begin && 1 <= length && begin + length <= n_bytes
}

/// The walked morph can be constructed against a table of `n_bytes` entries.
pub open spec fn raw_morph_ok(m: RawMorph, n_bytes: int) -> bool {
    raw_span_in(m.begin as int, m.length as int, n_bytes)
}

/// What the engine promises of a walked word over input `s`: the span lies
/// inside the input and starts and ends on codepoint boundaries, and every
/// morph span lies inside the input. A span off a codepoint boundary breaks
/// the engine's contract; the right response there is to abort rather than
/// to return corrupt text, so such inputs are excluded here and the driver
/// checks for them before calling in.
pub open spec fn raw_word_ok(w: RawWord, s: Seq<char>) -> bool {
    &&& raw_span_in(w.begin as int, w.length as int, byte_length(s))
    &&& is_codepoint_start(s, w.begin as int)
    &&& is_codepoint_start(s, w.begin as int + w.length as int)
    &&& forall|i: int|
        0 <= i < w.morphs@.len() ==> raw_morph_ok(#[trigger] w.morphs@[i], byte_length(s))
}

/// The morph that construction owes for walked morph `m` over the alignment
/// table `a`: codepoint offsets looked up at the first and last byte of the
/// span, and the engine's strings with an empty string for an undecodable
/// one.
pub open spec fn morph_from_align(m: RawMorph, a: Seq<i32>, r: KhaiiiMorph) -> bool {
    &&& r.begin == a[m.begin as int]
    &&& r.begin as int + r.length as int == a[m.begin as int + m.length as int - 1] as int + 1
    &&& 1 <= r.length
    &&& decoded_or_empty(m.lex, r.lex@)
    &&& decoded_or_empty(m.tag, r.tag@)
}

/// The morph that construction owes, phrased over the input text itself.
pub open spec fn morph_built(m: RawMorph, s: Seq<char>, r: KhaiiiMorph) -> bool {
    &&& r.begin as int == align_of(s)[m.begin as int]
    &&& r.begin as int + r.length as int == align_of(s)[m.begin as int + m.length as int - 1] + 1
    &&& 1 <= r.length
    &&& decoded_or_empty(m.lex, r.lex@)
    &&& decoded_or_empty(m.tag, r.tag@)
}

/// The word that construction owes for walked word `w` over input `s`: the
/// codepoint span aligned from the byte span, the word text sliced from the
/// input by that codepoint span, and every morph constructed in order. The
/// codepoint span covers exactly the bytes of the walked span: its first
/// codepoint starts at byte `w.begin` and its last one ends at byte
/// `w.begin + w.length`.
pub open spec fn word_built(w: RawWord, s: Seq<char>, r: KhaiiiWord) -> bool {
    &&& r.begin as int == align_of(s)[w.begin as int]
    &&& r.begin as int + r.length as int == align_of(s)[w.begin as int + w.length as int - 1] + 1
    &&& 1 <= r.length
    &&& 0 <= r.begin
    &&& r.begin as int + r.length as int <= s.len()
    &&& byte_length(s.take(r.begin as int)) == w.begin as int
    &&& byte_length(s.take(r.begin as int + r.length as int)) == w.begin as int + w.length as int
    &&& r.lex@ == s.subrange(r.begin as int, r.begin as int + r.length as int)
    &&& r.morphs@.len() == w.morphs@.len()
    &&& forall|i: int|
        0 <= i < w.morphs@.len() ==> morph_built(w.morphs@[i], s, #[trigger] r.morphs@[i])
}

/// Round-trip law: the text of a constructed word is exactly the input's
/// byte span `[w.begin, w.begin + w.length)`, re-encoded — the engine's
/// byte slice and the word's codepoint slice are the same text.
pub proof fn lemma_word_round_trip(w: RawWord, s: Seq<char>, r: KhaiiiWord)
    requires
        raw_word_ok(w, s),
        word_built(w, s, r),
    ensures
        encode_utf8(r.lex@) == encode_utf8(s).subrange(
            w.begin as int,
            w.begin as int + w.length as int,
        ),
{
    let k1 = r.begin as int;
    let k2 = r.begin as int + r.length as int;
    assert(s.take(k2) =~= s.take(k1) + s.subrange(k1, k2));
    lemma_encode_concat(s.take(k1), s.subrange(k1, k2));
    assert(s =~= s.take(k2) + s.skip(k2));
    lemma_encode_concat(s.take(k2), s.skip(k2));
    assert(encode_utf8(s).subrange(w.begin as int, w.begin as int + w.length as int)
        =~= encode_utf8(s.subrange(k1, k2)));
}

impl KhaiiiMorph {
    /// An empty placeholder morph.
    pub fn new() -> (r: KhaiiiMorph)
        ensures
            r.lex@ == Seq::<char>::empty(),
            r.tag@ == Seq::<char>::empty(),
            r.begin == -1,
            r.length == -1,
    {
        KhaiiiMorph { lex: String::new(), tag: String::new(), begin: -1, length: -1 }
    }

    /// Constructs one owned morph from a walked engine morph: the byte span
    /// is looked up in the alignment table at its first and last byte, and
    /// an undecodable engine string becomes the empty string.
    pub fn from(value: &RawMorph, align: &Vec<i32>) -> (r: KhaiiiMorph)
        requires
            align_wf(align@),
            raw_morph_ok(*value, align@.len() as int),
        ensures
            morph_from_align(*value, align@, r),
    {
        let lex = match &value.lex {
            Some(l) => l.clone(),
            None => String::new(),
        };
        let tag = match &value.tag {
            Some(t) => t.clone(),
            None => String::new(),
        };
        let b: usize = value.begin as usize;
        let e: usize = b + (value.length as usize);
        let begin = align[b];
        let end = align[e - 1] + 1;
        KhaiiiMorph { lex, tag, begin, length: end - begin }
    }
}

impl Default for KhaiiiMorph {
    /// The empty placeholder morph.
    fn default() -> (r: KhaiiiMorph)
        ensures
            r.lex@ == Seq::<char>::empty(),
            r.tag@ == Seq::<char>::empty(),
            r.begin == -1,
            r.length == -1,
    {
        KhaiiiMorph::new()
    }
}

impl KhaiiiWord {
    /// An empty placeholder word.
    pub fn new() -> (r: KhaiiiWord)
        ensures
            r.lex@ == Seq::<char>::empty(),
            r.begin == -1,
            r.length == -1,
            r.morphs@.len() == 0,
    {
        KhaiiiWord { lex: String::new(), begin: -1, length: -1, morphs: Vec::new() }
    }

    /// Constructs the morphs of one word, in engine order.
    pub fn make_morphs(value: &Vec<RawMorph>, align: &Vec<i32>) -> (r: Vec<KhaiiiMorph>)
        requires
            align_wf(align@),
            forall|i: int|
                0 <= i < value@.len() ==> raw_morph_ok(#[trigger] value@[i], align@.len() as int),
        ensures
            r@.len() == value@.len(),
            forall|i: int|
                0 <= i < value@.len() ==> morph_from_align(value@[i], align@, #[trigger] r@[i]),
    {
        let mut morphs: Vec<KhaiiiMorph> = Vec::new();
        let n = value.len();
        let mut idx: usize = 0;
        while idx < n
            invariant
                idx <= n,
                n == value@.len(),
                align_wf(align@),
                forall|i: int|
                    0 <= i < value@.len() ==> raw_morph_ok(
                        #[trigger] value@[i],
                        align@.len() as int,
                    ),
                morphs@.len() == idx,
                forall|i: int|
                    0 <= i < idx as int ==> morph_from_align(
                        value@[i],
                        align@,
                        #[trigger] morphs@[i],
                    ),
            decreases n - idx,
        {
            let morph = KhaiiiMorph::from(&value[idx], align);
            morphs.push(morph);
            idx += 1;
        }
        morphs
    }

    /// Constructs one owned word from a walked engine word. The byte span is
    /// aligned to a codepoint span, the word text is the slice of the input
    /// covered by that codepoint span, and the nested morphs are constructed
    /// in engine order.
    pub fn from(value: &RawWord, input: &str, align: &Vec<i32>) -> (r: KhaiiiWord)
        requires
            input@.len() <= 0x7fff_ffff,
            is_alignment(align@, input@),
            raw_word_ok(*value, input@),
        ensures
            word_built(*value, input@, r),
    {
        proof {
            lemma_alignment_length(input@);
            lemma_alignment_monotone(input@);
            lemma_alignment_wf(align@, input@);
            lemma_codepoint_start_align(input@, value.begin as int);
            lemma_codepoint_end_align(input@, value.begin as int + value.length as int);
        }
        let b: usize = value.begin as usize;
        let e: usize = b + (value.length as usize);
        let cp_begin = align[b];
        let cp_end = align[e - 1] + 1;
        let lex_slice = input.substring_char(cp_begin as usize, cp_end as usize);
        let lex = lex_slice.to_owned();
        let morphs = KhaiiiWord::make_morphs(&value.morphs, align);
        let r = KhaiiiWord { lex, begin: cp_begin, length: cp_end - cp_begin, morphs };
        proof {
            assert forall|i: int| 0 <= i < value.morphs@.len() implies morph_built(
                value.morphs@[i],
                input@,
                #[trigger] r.morphs@[i],
            ) by {
                let m = value.morphs@[i];
                assert(morph_from_align(m, align@, r.morphs@[i]));
                assert(align@[m.begin as int] as int == align_of(input@)[m.begin as int]);
                assert(align@[m.begin as int + m.length as int - 1] as int == align_of(
                    input@,
                )[m.begin as int + m.length as int - 1]);
            }
        }
        r
    }
}

impl Default for KhaiiiWord {
    /// The empty placeholder word.
    fn default() -> (r: KhaiiiWord)
        ensures
            r.lex@ == Seq::<char>::empty(),
            r.begin == -1,
            r.length == -1,
            r.morphs@.len() == 0,
    {
        KhaiiiWord::new()
    }
}

impl KhaiiiApi {
    /// Builds the owned result words from the walked engine output: the
    /// alignment index is built fresh over the input, and every walked word
    /// is constructed against it, preserving engine order.
    pub fn make_words(&self, input: String, results: &Vec<RawWord>) -> (r: Vec<KhaiiiWord>)
        requires
            input@.len() <= 0x7fff_ffff,
            forall|i: int| 0 <= i < results@.len() ==> raw_word_ok(#[trigger] results@[i], input@),
        ensures
            r@.len() == results@.len(),
            forall|i: int|
                0 <= i < results@.len() ==> word_built(results@[i], input@, #[trigger] r@[i]),
    {
        let align = self.get_align(input.as_str());
        let mut words: Vec<KhaiiiWord> = Vec::new();
        let n = results.len();
        let mut idx: usize = 0;
        while idx < n
            invariant
                idx <= n,
                n == results@.len(),
                input@.len() <= 0x7fff_ffff,
                is_alignment(align@, input@),
                forall|i: int|
                    0 <= i < results@.len() ==> raw_word_ok(#[trigger] results@[i], input@),
                words@.len() == idx,
                forall|i: int|
                    0 <= i < idx as int ==> word_built(results@[i], input@, #[trigger] words@[i]),
            decreases n - idx,
        {
            let word = KhaiiiWord::from(&results[idx], input.as_str(), &align);
            words.push(word);
            idx += 1;
        }
        words
    }
}

} // verus!
