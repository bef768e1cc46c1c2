//! The presenter: decides what the output loop renders for a matching line.
//!
//! A record whose line matched becomes a `RenderedLine`: an optional label,
//! an optional line number, and the line's text, split at the match span
//! when highlighting is on. Glyph and color emission stay with the terminal
//! collaborator in the application; this module only fixes the pieces and
//! their order.

use crate::config::Flags;
use crate::line_grep::found_span;
use crate::line_grep::LineGrep;
use vstd::prelude::*;
use vstd::string::StringSliceAdditionalSpecFns;
use vstd::utf8::encode_utf8;
use vstd::utf8::is_char_boundary;

verus! {

/// The text part of a rendered line.
#[derive(Debug, PartialEq, Eq)]
pub enum RenderedBody {
    /// The whole line, unstyled (highlighting off).
    Whole(String),
    /// The line split at the match span: `matched` is emphasized, the other
    /// two parts are unstyled.
    Split { before: String, matched: String, after: String },
}

/// What the output loop renders for one matching line, in order: the label
/// (with a separator) when present, the line number (with a separator) when
/// present, then the body, then a line break.
#[derive(Debug, PartialEq, Eq)]
pub struct RenderedLine {
    pub label: Option<String>,
    pub line_no: Option<u32>,
    pub body: RenderedBody,
}

/// Whether `(start, end)` is a well-formed match span of `text`: byte
/// offsets in order, within the text's UTF-8 encoding, and both on character
/// boundaries. Every span the matcher reports is one.
pub open spec fn span_in(text: Seq<char>, start: usize, end: usize) -> bool {
    start <= end <= encode_utf8(text).len() && is_char_boundary(encode_utf8(text), start as int)
        && is_char_boundary(encode_utf8(text), end as int)
}

proof fn lemma_boundary_in_prefix(bytes: Seq<u8>, s: int, e: int)
    requires
        vstd::utf8::valid_utf8(bytes),
        0 <= s <= e <= bytes.len(),
        is_char_boundary(bytes, s),
        is_char_boundary(bytes, e),
    ensures
        is_char_boundary(bytes.subrange(0, e), s),
{
    let head = bytes.subrange(0, e);
    vstd::utf8::valid_utf8_split(bytes, e);
    if s == e {
        vstd::utf8::is_char_boundary_start_end_of_seq(head);
    } else {
        vstd::utf8::is_char_boundary_iff_not_is_continuation_byte(bytes, s);
        assert(head[s] == bytes[s]);
        vstd::utf8::is_char_boundary_iff_not_is_continuation_byte(head, s);
    }
}

/// What `line` must be for a record `(label, index, text)` whose match span
/// is `[start, end)`: the label is kept only when non-empty, the line number
/// only when enabled, and the body is the whole text when highlighting is
/// off, or the text split at the span when it is on.
pub open spec fn rendered_for(
    flags: Flags,
    label: Seq<char>,
    index: u32,
    text: Seq<char>,
    start: usize,
    end: usize,
    line: RenderedLine,
) -> bool {
    &&& match line.label {
        Option::None => label.len() == 0,
        Option::Some(l) => label.len() > 0 && l@ == label,
    }
    &&& line.line_no == if flags.print_line_nums {
        Option::<u32>::Some(index)
    } else {
        Option::<u32>::None
    }
    &&& match line.body {
        RenderedBody::Whole(w) => !flags.use_color && w@ == text,
        RenderedBody::Split { before, matched, after } => {
            &&& flags.use_color
            &&& encode_utf8(before@) == encode_utf8(text).subrange(0, start as int)
            &&& encode_utf8(matched@) == encode_utf8(text).subrange(start as int, end as int)
            &&& encode_utf8(after@) == encode_utf8(text).subrange(
                end as int,
                encode_utf8(text).len() as int,
            )
            &&& before@ + matched@ + after@ == text
        },
    }
}

/// Renders one record and its match span. No span means no output. A
/// well-formed span yields the label (kept only when non-empty), the line
/// number (kept only when enabled), and the body: the whole text when
/// highlighting is off, or the text split at the span when it is on. A span
/// that does not fit the text yields no output either; the matcher never
/// reports such a span.
pub fn render(
    flags: &Flags,
    label: &String,
    index: u32,
    text: &String,
    span: Option<(usize, usize)>,
) -> (r: Option<RenderedLine>)
    ensures
        match span {
            None => r is None,
            Some((s, e)) => {
                if span_in(text@, s, e) {
                    r matches Some(line) && rendered_for(*flags, label@, index, text@, s, e, line)
                } else {
                    r is None
                }
            },
        },
{
    let (s, e) = match span {
        None => {
            return None;
        },
        Some(p) => p,
    };
    let st = text.as_str();
    let byte_len = st.as_bytes().len();
    proof {
        vstd::utf8::encode_utf8_valid_utf8(text@);
        assert(byte_len == encode_utf8(text@).len());
    }
    if !(s <= e && e <= byte_len && st.is_char_boundary(s) && st.is_char_boundary(e)) {
        return None;
    }
    let label_part: Option<String> = if label.as_str().is_empty() {
        None
    } else {
        Some(label.clone())
    };
    let line_no: Option<u32> = if flags.print_line_nums {
        Some(index)
    } else {
        None
    };
    let body: RenderedBody = if flags.use_color {
        let (head, after) = st.split_at(e);
        proof {
            lemma_boundary_in_prefix(st.spec_bytes(), s as int, e as int);
        }
        let (before, matched) = head.split_at(s);
        proof {
            let bytes = encode_utf8(text@);
            assert(encode_utf8(before@) =~= bytes.subrange(0, s as int));
            assert(encode_utf8(matched@) =~= bytes.subrange(s as int, e as int));
            assert(encode_utf8(after@) =~= bytes.subrange(e as int, bytes.len() as int));
            vstd::utf8::encode_utf8_decode_utf8(text@);
            vstd::utf8::encode_utf8_decode_utf8(before@);
            vstd::utf8::encode_utf8_decode_utf8(matched@);
            vstd::utf8::encode_utf8_decode_utf8(after@);
            vstd::utf8::decode_utf8_split(bytes, e as int);
            vstd::utf8::valid_utf8_split(bytes, e as int);
            vstd::utf8::decode_utf8_split(bytes.subrange(0, e as int), s as int);
            assert(bytes.subrange(0, e as int).subrange(0, s as int) =~= bytes.subrange(
                0,
                s as int,
            ));
            assert(bytes.subrange(0, e as int).subrange(s as int, e as int) =~= bytes.subrange(
                s as int,
                e as int,
            ));
            assert(bytes.subrange(0, e as int).len() == e as int);
            assert(before@ + matched@ + after@ == text@);
        }
        RenderedBody::Split {
            before: before.to_owned(),
            matched: matched.to_owned(),
            after: after.to_owned(),
        }
    } else {
        RenderedBody::Whole(text.clone())
    };
    Some(RenderedLine { label: label_part, line_no, body })
}

/// The per-line step of the pipeline: feed one record's text to the matcher
/// and decide what, if anything, is rendered for it. A line the pattern does
/// not match produces no output; a matching line is rendered as `render`
/// says, from the span the matcher reported.
pub fn process_line(
    grep: &mut LineGrep,
    flags: &Flags,
    label: &String,
    index: u32,
    text: &String,
) -> (r: Option<RenderedLine>)
    ensures
        *final(grep) == *old(grep),
        r is Some <==> found_span(old(grep).pattern_spec(), old(grep).ignore_case_spec(), text@)
            is Some,
        match found_span(old(grep).pattern_spec(), old(grep).ignore_case_spec(), text@) {
            None => r is None,
            Some((s, e)) => span_in(text@, s, e) && (r matches Some(line) && rendered_for(
                *flags,
                label@,
                index,
                text@,
                s,
                e,
                line,
            )),
        },
{
    let span = grep.feed(text);
    render(flags, label, index, text, span)
}

} // verus!
