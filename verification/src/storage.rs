//! The storage backend: where the bytes of an upload live, under which
//! name, and what the flows ask of it.

use vstd::prelude::*;
use vstd::string::StringExecFns;
use crate::error::Error;

verus! {

/// Where uploads are kept and under which address they are served.
#[derive(Debug, PartialEq, Eq)]
pub enum UploadStorage {
    /// Two directories of one file system: the private one holds every
    /// upload, the public one those that are published.
    FileSystem { private_path: String, public_path: String, base_url: String },
}

/// The sixteen hexadecimal digits.
pub open spec fn hex_digit(value: u64) -> char {
    if value == 0 {
        '0'
    } else if value == 1 {
        '1'
    } else if value == 2 {
        '2'
    } else if value == 3 {
        '3'
    } else if value == 4 {
        '4'
    } else if value == 5 {
        '5'
    } else if value == 6 {
        '6'
    } else if value == 7 {
        '7'
    } else if value == 8 {
        '8'
    } else if value == 9 {
        '9'
    } else if value == 10 {
        'a'
    } else if value == 11 {
        'b'
    } else if value == 12 {
        'c'
    } else if value == 13 {
        'd'
    } else if value == 14 {
        'e'
    } else {
        'f'
    }
}

/// The four bits of `bits` that make its hexadecimal digit at `position`,
/// counted from the left among sixteen digits.
pub open spec fn nibble(bits: u64, position: int) -> u64 {
    (bits >> ((60 - 4 * position) as u64)) & 0xf
}

/// `bits` written with sixteen lower-case hexadecimal digits, padded with
/// zeros on the left.
pub open spec fn hex16(bits: u64) -> Seq<char> {
    Seq::new(16, |position: int| hex_digit(nibble(bits, position)))
}

/// The 64 bits that hold `id` in two's complement, read as an unsigned number.
pub open spec fn id_bits(id: i64) -> u64 {
    if id >= 0 {
        id as u64
    } else {
        (id + 0x1_0000_0000_0000_0000) as u64
    }
}

/// The name of the file that holds upload `id`: the sixteen hexadecimal
/// digits of the id, then a dot and the extension where there is one.
pub open spec fn file_name(id: i64, extension: Option<Seq<char>>) -> Seq<char> {
    match extension {
        Some(extension) => hex16(id_bits(id)) + seq!['.'] + extension,
        None => hex16(id_bits(id)),
    }
}

/// The address under which the file of upload `id` is served.
pub open spec fn file_url(id: i64, extension: Option<Seq<char>>, storage: UploadStorage) -> Seq<
    char,
> {
    match storage {
        UploadStorage::FileSystem { base_url, .. } => base_url@ + file_name(id, extension),
    }
}

/// The view of an optional string slice.
pub open spec fn option_str_view(text: Option<&str>) -> Option<Seq<char>> {
    match text {
        Some(text) => Some(text@),
        None => None,
    }
}

/// The view of an optional string.
pub open spec fn option_string_view(text: Option<String>) -> Option<Seq<char>> {
    match text {
        Some(text) => Some(text@),
        None => None,
    }
}

fn hex_digit_str(value: u64) -> (digit: &'static str)
    requires
        value < 16,
    ensures
        digit@ == seq![hex_digit(value)],
{
    proof {
        reveal_strlit("0");
        reveal_strlit("1");
        reveal_strlit("2");
        reveal_strlit("3");
        reveal_strlit("4");
        reveal_strlit("5");
        reveal_strlit("6");
        reveal_strlit("7");
        reveal_strlit("8");
        reveal_strlit("9");
        reveal_strlit("a");
        reveal_strlit("b");
        reveal_strlit("c");
        reveal_strlit("d");
        reveal_strlit("e");
        reveal_strlit("f");
    }
    let digit = if value == 0 {
        "0"
    } else if value == 1 {
        "1"
    } else if value == 2 {
        "2"
    } else if value == 3 {
        "3"
    } else if value == 4 {
        "4"
    } else if value == 5 {
        "5"
    } else if value == 6 {
        "6"
    } else if value == 7 {
        "7"
    } else if value == 8 {
        "8"
    } else if value == 9 {
        "9"
    } else if value == 10 {
        "a"
    } else if value == 11 {
        "b"
    } else if value == 12 {
        "c"
    } else if value == 13 {
        "d"
    } else if value == 14 {
        "e"
    } else {
        "f"
    };
    assert(digit@ =~= seq![hex_digit(value)]);
    digit
}

fn id_to_bits(id: i64) -> (bits: u64)
    ensures
        bits == id_bits(id),
{
    if id >= 0 {
        id as u64
    } else {
        // -(id + 1) is in 0 ..= i64::MAX, and id's bits are its complement.
        let below: u64 = (-(id + 1)) as u64;
        u64::MAX - below
    }
}

/// Appends the sixteen hexadecimal digits of `bits` to `text`.
fn push_hex16(text: &mut String, bits: u64)
    ensures
        final(text)@ == old(text)@ + hex16(bits),
{
    let mut position: u64 = 0;
    while position < 16
        invariant
            position <= 16,
            text@.len() == old(text)@.len() + position,
            text@.subrange(0, old(text)@.len() as int) == old(text)@,
            forall|k: int|
                0 <= k < position ==> text@[old(text)@.len() + k] == hex_digit(nibble(bits, k)),
        decreases 16 - position,
    {
        let shift: u64 = 60 - 4 * position;
        let value: u64 = (bits >> shift) & 0xf;
        assert(value < 16) by (bit_vector)
            requires
                value == (bits >> shift) & 0xf,
        ;
        let digit = hex_digit_str(value);
        let ghost before = text@;
        text.append(digit);
        assert(text@.subrange(0, old(text)@.len() as int) =~= before.subrange(
            0,
            old(text)@.len() as int,
        ));
        position = position + 1;
    }
    assert(text@ =~= old(text)@ + hex16(bits));
}

/// The name of the file that holds upload `id`.
pub fn get_file_name(id: i64, extension: Option<&str>) -> (name: String)
    ensures
        name@ == file_name(id, option_str_view(extension)),
{
    let mut name = String::new();
    push_hex16(&mut name, id_to_bits(id));
    assert(name@ =~= hex16(id_bits(id)));
    match extension {
        Some(extension) => {
            proof {
                reveal_strlit(".");
            }
            name.append(".");
            name.append(extension);
            assert(name@ =~= hex16(id_bits(id)) + seq!['.'] + extension@);
        },
        None => {},
    }
    name
}

/// The address under which the file of upload `id` is served.
pub fn get_file_url(id: i64, extension: Option<&str>, storage: &UploadStorage) -> (url: String)
    ensures
        url@ == file_url(id, option_str_view(extension), *storage),
{
    match storage {
        UploadStorage::FileSystem { private_path: _, public_path: _, base_url } => {
            let mut url = base_url.clone();
            let name = get_file_name(id, extension);
            url.append(name.as_str());
            url
        },
    }
}

/// What came of an attempt to remove a file.
#[derive(Debug, PartialEq, Eq)]
pub enum RemoveOutcome {
    /// The file was there and is gone.
    Removed,
    /// There was no such file.
    NotFound,
    /// The file system refused, with this message.
    Failed(String),
}

/// Whether a removal counts as done: a file that was not there is as good
/// as one that was removed, so that removing twice is no error.
pub fn try_remove_file(outcome: RemoveOutcome) -> (result: Result<(), Error>)
    ensures
        match outcome {
            RemoveOutcome::Removed => result == Ok::<(), Error>(()),
            RemoveOutcome::NotFound => result == Ok::<(), Error>(()),
            RemoveOutcome::Failed(message) => result == Err::<(), Error>(Error::IO(message)),
        },
{
    match outcome {
        RemoveOutcome::Removed => Ok(()),
        RemoveOutcome::NotFound => Ok(()),
        RemoveOutcome::Failed(message) => Err(Error::IO(message)),
    }
}

/// What a flow asks of the storage backend for one upload.
#[derive(Debug, PartialEq, Eq)]
pub enum StorageRequest {
    /// Create the private file and extend it to `size` bytes.
    Allocate { id: i64, extension: Option<String>, size: u64 },
    /// Copy the `length` bytes of a chunk into the private file, from
    /// offset `start_pos` on.
    Write { id: i64, extension: Option<String>, start_pos: u64, length: u64 },
    /// Copy the private file to where it is served. The private file stays.
    Publish { id: i64, extension: Option<String> },
    /// Remove the public file, then the private one. A file that is not
    /// there counts as removed.
    Unpublish { id: i64, extension: Option<String> },
}

/// A request to the storage backend as contracts speak of it.
pub enum StorageRequestView {
    Allocate { id: i64, extension: Option<Seq<char>>, size: u64 },
    Write { id: i64, extension: Option<Seq<char>>, start_pos: u64, length: u64 },
    Publish { id: i64, extension: Option<Seq<char>> },
    Unpublish { id: i64, extension: Option<Seq<char>> },
}

impl View for StorageRequest {
    type V = StorageRequestView;

    open spec fn view(&self) -> StorageRequestView {
        match *self {
            StorageRequest::Allocate { id, extension, size } => StorageRequestView::Allocate {
                id,
                extension: option_string_view(extension),
                size,
            },
            StorageRequest::Write {
                id,
                extension,
                start_pos,
                length,
            } => StorageRequestView::Write {
                id,
                extension: option_string_view(extension),
                start_pos,
                length,
            },
            StorageRequest::Publish { id, extension } => StorageRequestView::Publish {
                id,
                extension: option_string_view(extension),
            },
            StorageRequest::Unpublish { id, extension } => StorageRequestView::Unpublish {
                id,
                extension: option_string_view(extension),
            },
        }
    }
}

impl StorageRequest {
    /// The upload that the request is about.
    pub fn id(&self) -> (id: i64)
        ensures
            id == match self@ {
                StorageRequestView::Allocate { id, .. } => id,
                StorageRequestView::Write { id, .. } => id,
                StorageRequestView::Publish { id, .. } => id,
                StorageRequestView::Unpublish { id, .. } => id,
            },
    {
        match self {
            StorageRequest::Allocate { id, .. } => *id,
            StorageRequest::Write { id, .. } => *id,
            StorageRequest::Publish { id, .. } => *id,
            StorageRequest::Unpublish { id, .. } => *id,
        }
    }

    /// The name of the file that the request is about.
    pub fn file_name(&self) -> (name: String)
        ensures
            name@ == match self@ {
                StorageRequestView::Allocate { id, extension, .. } => file_name(id, extension),
                StorageRequestView::Write { id, extension, .. } => file_name(id, extension),
                StorageRequestView::Publish { id, extension } => file_name(id, extension),
                StorageRequestView::Unpublish { id, extension } => file_name(id, extension),
            },
    {
        match self {
            StorageRequest::Allocate { id, extension, .. } => get_file_name(
                *id,
                option_as_str(extension),
            ),
            StorageRequest::Write { id, extension, .. } => get_file_name(
                *id,
                option_as_str(extension),
            ),
            StorageRequest::Publish { id, extension } => get_file_name(
                *id,
                option_as_str(extension),
            ),
            StorageRequest::Unpublish { id, extension } => get_file_name(
                *id,
                option_as_str(extension),
            ),
        }
    }
}

/// A copy of an optional string.
pub fn clone_option_string(text: &Option<String>) -> (copy: Option<String>)
    ensures
        copy == *text,
{
    match text {
        Some(text) => Some(text.clone()),
        None => None,
    }
}

/// An optional string as an optional slice.
pub fn option_as_str(text: &Option<String>) -> (slice: Option<&str>)
    ensures
        option_str_view(slice) == option_string_view(*text),
{
    match text {
        Some(text) => Some(text.as_str()),
        None => None,
    }
}

} // verus!
