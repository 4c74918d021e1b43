//! The byte range that a chunk of an upload covers, as its `Content-Range`
//! header gives it.

use vstd::prelude::*;

verus! {

/// What a `Content-Range` header says.
#[derive(Clone, Copy, Debug, PartialEq, Eq, Structural)]
pub enum HeaderRange {
    /// `bytes first-last/length`
    Bytes { first_byte: u64, last_byte: u64, complete_length: u64 },
    /// `bytes first-last/*`
    UnboundBytes { first_byte: u64, last_byte: u64 },
    /// `bytes */length`
    Unsatisfied { complete_length: u64 },
}

/// The range of a chunk: its first and last byte, and the length of the
/// whole upload where the sender declares it.
#[derive(Clone, Copy, Debug, PartialEq, Eq, Structural)]
pub enum ContentRange {
    Bytes { first_byte: u64, last_byte: u64, complete_length: u64 },
    Unbound { first_byte: u64, last_byte: u64 },
}

/// What `http_content_range::ContentRange::parse` makes of a header, or
/// `None` where it refuses the header.
pub uninterp spec fn parsed_content_range(header: Seq<char>) -> Option<HeaderRange>;

/// Calls `http_content_range::ContentRange::parse` and hands on what it
/// returns, variant by variant. The contract only names the result.
#[verifier::external_body]
fn parse_header(header: &str) -> (parsed: Option<HeaderRange>)
    ensures
        parsed == parsed_content_range(header@),
{
    match http_content_range::ContentRange::parse(header)? {
        http_content_range::ContentRange::Bytes(range) => Some(
            HeaderRange::Bytes {
                first_byte: range.first_byte,
                last_byte: range.last_byte,
                complete_length: range.complete_length,
            },
        ),
        http_content_range::ContentRange::UnboundBytes(range) => Some(
            HeaderRange::UnboundBytes { first_byte: range.first_byte, last_byte: range.last_byte },
        ),
        http_content_range::ContentRange::Unsatisfied(range) => Some(
            HeaderRange::Unsatisfied { complete_length: range.complete_length },
        ),
    }
}

/// The range of a chunk that a parsed header stands for: a header that was
/// refused, or that reports an unsatisfied range, stands for none.
pub open spec fn accepted_range(parsed: Option<HeaderRange>) -> Option<ContentRange> {
    match parsed {
        Some(HeaderRange::Bytes { first_byte, last_byte, complete_length }) => Some(
            ContentRange::Bytes { first_byte, last_byte, complete_length },
        ),
        Some(HeaderRange::UnboundBytes { first_byte, last_byte }) => Some(
            ContentRange::Unbound { first_byte, last_byte },
        ),
        Some(HeaderRange::Unsatisfied { .. }) => None,
        None => None,
    }
}

/// The number of bytes from `first_byte` to `last_byte`, both counted,
/// where that is a number a `u64` holds.
pub open spec fn range_length(first_byte: u64, last_byte: u64) -> Option<u64> {
    if first_byte <= last_byte && last_byte - first_byte + 1 <= u64::MAX {
        Some((last_byte - first_byte + 1) as u64)
    } else {
        None
    }
}

impl ContentRange {
    /// The first byte of the chunk.
    pub open spec fn spec_first_byte(self) -> u64 {
        match self {
            ContentRange::Bytes { first_byte, .. } => first_byte,
            ContentRange::Unbound { first_byte, .. } => first_byte,
        }
    }

    /// The last byte of the chunk.
    pub open spec fn spec_last_byte(self) -> u64 {
        match self {
            ContentRange::Bytes { last_byte, .. } => last_byte,
            ContentRange::Unbound { last_byte, .. } => last_byte,
        }
    }

    /// The length of the whole upload, where the range declares one.
    pub open spec fn spec_complete_length(self) -> Option<u64> {
        match self {
            ContentRange::Bytes { complete_length, .. } => Some(complete_length),
            ContentRange::Unbound { .. } => None,
        }
    }

    /// The number of bytes of the chunk, where the range is well formed.
    pub open spec fn spec_length(self) -> Option<u64> {
        range_length(self.spec_first_byte(), self.spec_last_byte())
    }

    /// The range that a parsed header stands for.
    pub fn from_parsed(parsed: Option<HeaderRange>) -> (range: Option<ContentRange>)
        ensures
            range == accepted_range(parsed),
    {
        match parsed {
            Some(HeaderRange::Bytes { first_byte, last_byte, complete_length }) => Some(
                ContentRange::Bytes { first_byte, last_byte, complete_length },
            ),
            Some(HeaderRange::UnboundBytes { first_byte, last_byte }) => Some(
                ContentRange::Unbound { first_byte, last_byte },
            ),
            Some(HeaderRange::Unsatisfied { .. }) => None,
            None => None,
        }
    }

    /// The range that the text of a `Content-Range` header stands for.
    pub fn parse(header: &str) -> (range: Option<ContentRange>)
        ensures
            range == accepted_range(parsed_content_range(header@)),
    {
        ContentRange::from_parsed(parse_header(header))
    }

    /// The range of a request, whose `Content-Range` header may be missing.
    pub fn from_header(header: Option<&str>) -> (range: Option<ContentRange>)
        ensures
            range == match header {
                Some(text) => accepted_range(parsed_content_range(text@)),
                None => None,
            },
    {
        match header {
            Some(text) => ContentRange::parse(text),
            None => None,
        }
    }

    /// The first byte of the chunk.
    #[verifier::when_used_as_spec(spec_first_byte)]
    pub fn first_byte(self) -> (first: u64)
        ensures
            first == self.spec_first_byte(),
    {
        match self {
            ContentRange::Bytes { first_byte, .. } => first_byte,
            ContentRange::Unbound { first_byte, .. } => first_byte,
        }
    }

    /// The last byte of the chunk.
    #[verifier::when_used_as_spec(spec_last_byte)]
    pub fn last_byte(self) -> (last: u64)
        ensures
            last == self.spec_last_byte(),
    {
        match self {
            ContentRange::Bytes { last_byte, .. } => last_byte,
            ContentRange::Unbound { last_byte, .. } => last_byte,
        }
    }

    /// The length of the whole upload, where the range declares one.
    #[verifier::when_used_as_spec(spec_complete_length)]
    pub fn complete_length(self) -> (length: Option<u64>)
        ensures
            length == self.spec_complete_length(),
    {
        match self {
            ContentRange::Bytes { complete_length, .. } => Some(complete_length),
            ContentRange::Unbound { .. } => None,
        }
    }

    /// The number of bytes of the chunk: `last - first + 1`, or `None`
    /// where the last byte lies before the first or the number does not fit.
    #[verifier::when_used_as_spec(spec_length)]
    pub fn length(self) -> (length: Option<u64>)
        ensures
            length == self.spec_length(),
    {
        let first: u64 = self.first_byte();
        let last: u64 = self.last_byte();
        if first > last {
            None
        } else {
            (last - first).checked_add(1)
        }
    }
}

} // verus!
