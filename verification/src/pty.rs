//! Ingestion of a worker's combined stdout/stderr stream.
//!
//! A reader task (outside this crate) pulls lines off the pseudo-terminal
//! and hands each one here; the line is stripped of terminal escape
//! sequences and fanned into both of the worker's buffers: the parse
//! buffer drained by marker matching every cycle, and the display buffer
//! kept for presentation.

use vstd::prelude::*;

verus! {

/// The text of `s` with ANSI escape sequences removed: a function of the
/// input characters alone.
pub uninterp spec fn ansi_stripped(s: Seq<char>) -> Seq<char>;

/// Relies on strip_ansi_escapes::strip_str: returns its argument with ANSI
/// escape sequences stripped, determined by the argument alone.
#[verifier::external_body]
fn strip_ansi(line: &str) -> (r: String)
    ensures
        r@ == ansi_stripped(line@),
{
    strip_ansi_escapes::strip_str(line)
}

/// Appends one captured line, stripped of escape sequences and newline-
/// terminated, to both the parse buffer and the display buffer.
pub fn ingest_output_line(output_parse: &mut String, output_pub: &mut String, line: &str)
    ensures
        final(output_parse)@ == old(output_parse)@ + ansi_stripped(line@) + "\n"@,
        final(output_pub)@ == old(output_pub)@ + ansi_stripped(line@) + "\n"@,
{
    let stripped = strip_ansi(line);
    output_parse.append(stripped.as_str());
    output_parse.append("\n");
    output_pub.append(stripped.as_str());
    output_pub.append("\n");
}

} // verus!
