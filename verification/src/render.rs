//! Rendering one event record to its structured-markup text.
//!
//! The native subsystem serializes a record into a caller-supplied buffer of
//! UTF-16 code units and reports how much it wrote, or that the buffer was
//! too small, or that it failed outright. This module allocates that buffer,
//! interprets the report, and decodes the text lossily, so a malformed
//! payload can never abort the pipeline.

use vstd::prelude::*;
use vstd::slice::slice_subrange;

verus! {

/// Code units in the fixed rendering buffer: sized generously for typical
/// records, allocated fresh per rendering call.
pub const RENDER_BUFFER_UNITS: usize = 65000;

/// What the native rendering call reported for one event record.
#[derive(Clone, Copy, Debug)]
pub enum NativeRender {
    /// The record's structured form was written: this many code units.
    Wrote(usize),
    /// The buffer was too small; the record needs this many code units.
    Insufficient(usize),
    /// The call failed for a reason unrelated to sizing: its error code.
    Failed(u32),
}

/// The outcome of rendering one event record.
#[derive(Debug)]
pub enum RenderResult {
    /// The record's complete structured text.
    Complete(String),
    /// The record exceeded the buffer: a best-effort text decoded from the
    /// buffer's full capacity, explicitly flagged as truncated.
    Truncated(String),
    /// The native call failed with this code; the record yields no text.
    RenderFailed(u32),
}

/// The characters that a sequence of UTF-16 code units decodes to when every
/// malformed part is replaced rather than rejected.
pub uninterp spec fn utf16_lossy(units: Seq<u16>) -> Seq<char>;

/// Relies on `String::from_utf16_lossy`: a total, lossy decoding of UTF-16
/// whose result depends on the code units alone.
#[verifier::external_body]
fn decode_utf16_lossy(units: &[u16]) -> (r: String)
    ensures
        r@ == utf16_lossy(units@),
{
    String::from_utf16_lossy(units)
}

/// A zeroed rendering buffer. One is allocated for each rendering call, so
/// concurrent notifications never share mutable state.
pub fn fresh_buffer() -> (buf: Vec<u16>)
    ensures
        buf@.len() == RENDER_BUFFER_UNITS,
        forall|i: int| 0 <= i < buf@.len() ==> buf@[i] == 0u16,
{
    let mut buf: Vec<u16> = Vec::new();
    let mut i: usize = 0;
    while i < RENDER_BUFFER_UNITS
        invariant
            i <= RENDER_BUFFER_UNITS,
            buf@.len() == i,
            forall|j: int| 0 <= j < buf@.len() ==> buf@[j] == 0u16,
        decreases RENDER_BUFFER_UNITS - i,
    {
        buf.push(0u16);
        i = i + 1;
    }
    buf
}

/// Turns what the native rendering call reported into the rendering outcome:
/// the written extent decoded in full, the whole capacity decoded best-effort
/// and flagged as truncated, or the native failure passed through.
pub fn interpret_render(outcome: NativeRender, buffer: &[u16]) -> (r: RenderResult)
    requires
        outcome matches NativeRender::Wrote(n) ==> n <= buffer@.len(),
    ensures
        (outcome matches NativeRender::Wrote(n) ==> r matches RenderResult::Complete(s)
            && s@ == utf16_lossy(buffer@.take(n as int))),
        (outcome matches NativeRender::Insufficient(req) ==> r matches RenderResult::Truncated(s)
            && s@ == utf16_lossy(buffer@)),
        (outcome matches NativeRender::Failed(code) ==> r == RenderResult::RenderFailed(code)),
{
    match outcome {
        NativeRender::Wrote(n) => {
            let written = slice_subrange(buffer, 0, n);
            RenderResult::Complete(decode_utf16_lossy(written))
        },
        NativeRender::Insufficient(_) => RenderResult::Truncated(decode_utf16_lossy(buffer)),
        NativeRender::Failed(code) => RenderResult::RenderFailed(code),
    }
}

} // verus!
