//! Input slicing: turns the raw input text and an optional list of
//! character-offset mask spans into the ordered list of segments the rest of
//! the pipeline works on.

use vstd::prelude::*;

verus! {

use vstd::string::StrSliceExecFns;

use crate::errors::ErrorKind;

/// A mask span is valid for an input of `len` characters when it selects a
/// non-empty range lying inside the input: `start < end <= len`.
pub open spec fn span_ok(span: (usize, usize), len: nat) -> bool {
    span.0 < span.1 && span.1 <= len
}

/// Every span of `masks` is valid for an input of `len` characters.
pub open spec fn all_spans_ok(masks: Seq<(usize, usize)>, len: nat) -> bool {
    forall|i: int| 0 <= i < masks.len() ==> span_ok(#[trigger] masks[i], len)
}

/// The segment one mask span selects: the characters of `text` from
/// `span.0` (inclusive) to `span.1` (exclusive), counted in code points,
/// not bytes.
pub open spec fn segment_of(text: Seq<char>, span: (usize, usize)) -> Seq<char> {
    text.subrange(span.0 as int, span.1 as int)
}

/// Slices the input text along the client-supplied mask spans.
///
/// With no masks (absent or empty) the whole text is the one segment.
/// Otherwise each span selects one segment, in the order the spans were
/// given; spans may overlap or be out of order, each is honoured as
/// supplied, none are merged. A span that is empty, inverted, or reaches
/// past the character length of the text rejects the request with
/// `InvalidSpan` before any backend call; nothing is clamped.
#[verifier::loop_isolation(false)]
pub fn slice_input(text: &str, masks: &Option<Vec<(usize, usize)>>) -> (r: Result<
    Vec<String>,
    ErrorKind,
>)
    ensures
        match r {
            Ok(segments) => match masks {
                Option::None => segments@.len() == 1 && segments@[0]@ == text@,
                Option::Some(ms) => if ms@.len() == 0 {
                    segments@.len() == 1 && segments@[0]@ == text@
                } else {
                    &&& all_spans_ok(ms@, text@.len())
                    &&& segments@.len() == ms@.len()
                    &&& forall|i: int|
                        0 <= i < ms@.len() ==> segments@[i]@ == segment_of(
                            text@,
                            #[trigger] ms@[i],
                        )
                },
            },
            Err(e) => {
                &&& e == ErrorKind::InvalidSpan
                &&& masks matches Option::Some(ms) && !all_spans_ok(ms@, text@.len())
            },
        },
{
    match masks {
        Option::None => Ok(vec![text.to_owned()]),
        Option::Some(ms) => {
            if ms.len() == 0 {
                return Ok(vec![text.to_owned()]);
            }
            let len = text.unicode_len();
            let mut segments: Vec<String> = Vec::new();
            let mut i: usize = 0;
            while i < ms.len()
                invariant
                    i <= ms@.len(),
                    len == text@.len(),
                    segments@.len() == i,
                    forall|j: int| 0 <= j < i ==> span_ok(#[trigger] ms@[j], text@.len()),
                    forall|j: int|
                        0 <= j < i ==> segments@[j]@ == segment_of(text@, #[trigger] ms@[j]),
                decreases ms@.len() - i,
            {
                let (start, end) = ms[i];
                if start >= end || end > len {
                    assert(!span_ok(ms@[i as int], text@.len()));
                    return Err(ErrorKind::InvalidSpan);
                }
                let seg = text.substring_char(start, end);
                segments.push(seg.to_owned());
                i = i + 1;
            }
            Ok(segments)
        },
    }
}

} // verus!
