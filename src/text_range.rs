use vstd::prelude::*;

verus! {

/// A half-open range `[start, end)` of byte offsets into the source text.
#[derive(Clone, Copy, Debug, PartialEq, Eq, Structural)]
pub struct TextRange {
    pub start: u32,
    pub end: u32,
}

impl TextRange {
    /// The start never lies past the end.
    pub open spec fn wf(self) -> bool {
        self.start <= self.end
    }

    pub open spec fn spec_len(self) -> int {
        self.end - self.start
    }

    pub fn new(start: u32, end: u32) -> (r: TextRange)
        requires
            start <= end,
        ensures
            r.start == start,
            r.end == end,
            r.wf(),
    {
        TextRange { start, end }
    }

    pub fn len(&self) -> (r: u32)
        requires
            self.wf(),
        ensures
            r == self.spec_len(),
    {
        self.end - self.start
    }
}

/// The number of delimiter characters on each side of a string literal:
/// three for a triple-quoted one, else one.
pub open spec fn quote_width(is_triple_quote: bool) -> int {
    if is_triple_quote {
        3
    } else {
        1
    }
}

/// The span of a string literal's contents, given the span of the whole
/// literal: its prefix (such as `r`, `b` or `f`) and opening delimiter are cut
/// from the start, its closing delimiter from the end.
pub fn remove_str_quotes(str_range: TextRange, prefix_size: u32, is_triple_quote: bool) -> (r:
    TextRange)
    requires
        str_range.wf(),
        str_range.spec_len() >= prefix_size + 2 * quote_width(is_triple_quote),
    ensures
        r.wf(),
        r.start == str_range.start + prefix_size + quote_width(is_triple_quote),
        r.end == str_range.end - quote_width(is_triple_quote),
        r.spec_len() == str_range.spec_len() - prefix_size - 2 * quote_width(is_triple_quote),
{
    let quote_size: u32 = if is_triple_quote {
        3
    } else {
        1
    };
    TextRange { start: str_range.start + quote_size + prefix_size, end: str_range.end - quote_size }
}

} // verus!
