//! Safe, high-level result marshaling for a native Korean text-analysis
//! engine.
//!
//! The engine reports lexical units as byte spans into the UTF-8 encoding of
//! the input. This crate owns the logic around that boundary: it builds the
//! byte-to-codepoint alignment table, reconstructs owned `KhaiiiWord` and
//! `KhaiiiMorph` values with codepoint offsets from the walked engine output,
//! and drives the open/analyze/close session as an explicit state machine.
//! The native calls themselves (C strings, raw pointer lists, the engine's
//! global logger) are performed by an unverified driver that feeds plain
//! values into the functions of this crate and carries their answers back.

use vstd::prelude::*;

verus! {

mod align;
mod errors;
mod session;
mod words;

pub use align::align_of;
pub use align::byte_length;
pub use align::char_len;
pub use align::is_alignment;
pub use align::is_codepoint_start;
pub use align::align_wf;
pub use align::lemma_alignment_length;
pub use align::lemma_alignment_monotone;
pub use align::lemma_alignment_value;
pub use align::lemma_alignment_wf;
pub use align::lemma_codepoint_start_align;
pub use align::lemma_codepoint_end_align;
pub use align::lemma_encode_concat;
pub use errors::Error;
pub use session::KhaiiiApi;
pub use session::continues_to_error;
pub use session::continues_to_local_query;
pub use session::continues_to_open;
pub use session::open_transition;
pub use session::OpenFlow;
pub use session::OpenStage;
pub use session::OpenStep;
pub use session::EngineAction;
pub use session::EngineEvent;
pub use session::AnalyzePlan;
pub use words::KhaiiiMorph;
pub use words::KhaiiiWord;
pub use words::RawMorph;
pub use words::RawWord;
pub use words::decoded_or_empty;
pub use words::morph_built;
pub use words::morph_from_align;
pub use words::raw_morph_ok;
pub use words::raw_span_in;
pub use words::raw_word_ok;
pub use words::word_built;
pub use words::lemma_word_round_trip;

/// True when the native engine was bundled into the build itself. This
/// library always links the engine as an external installation, so the
/// answer is always `false`.
pub fn vendored() -> (r: bool)
    ensures
        !r,
{
    false
}

} // verus!
