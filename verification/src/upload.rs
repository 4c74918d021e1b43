//! The flows of the chunk upload protocol: create, write chunk, finalize
//! and hide.
//!
//! A flow is a state machine. It asks for one action at a time, an
//! operation of the ledger or of the storage backend, and takes its result as
//! the next event. Whoever runs the flow performs the actions; the flow holds
//! every decision: who may act, in which order ledger and storage are
//! touched, and what is reported when one of them fails.

use vstd::prelude::*;
use vstd::string::{StrSliceExecFns, StringExecFns};
use crate::content_range::ContentRange;
use crate::error::{Error, ValidationErrors};
use crate::ledger::{
    add_upload, get_upload, ledger_full_message, missing_row_message, try_set_upload_status,
    try_set_upload_status_check_exists, Ledger, LedgerState, NewUpload, Upload, UploadFull,
};
use crate::status::UploadStatus;
use crate::storage::{
    option_as_str, option_str_view, option_string_view, StorageRequest, StorageRequestView,
    UploadStorage,
};
use crate::text::{is_made_of, made_of, CharClass};
use crate::user::User;

verus! {

/// The limits and the storage of uploads. `max_upload_time` is the age, in
/// the ledger's unit of time, beyond which an unfinished upload is reclaimed.
#[derive(Debug, PartialEq, Eq)]
pub struct UploadConfig {
    pub max_file_size: u64,
    pub storage: UploadStorage,
    pub max_upload_time: u64,
}

/// A request to create an upload.
#[derive(Clone, Copy, Debug, PartialEq, Eq)]
pub struct UploadAddRequest<'r> {
    pub size: u64,
    pub extension: Option<&'r str>,
    pub post_id: i64,
}

/// The answer to a request that created an upload.
#[derive(Clone, Copy, Debug, PartialEq, Eq, Structural)]
pub struct UploadAddResponseOk {
    pub id: i64,
}

/// The answer to a request that wrote a chunk, finalized or hid an upload.
#[derive(Clone, Copy, Debug, PartialEq, Eq, Structural)]
pub struct UploadByChunkResponseOk {}

/// The longest extension that an upload may have, in characters.
pub const MAX_EXTENSION_LENGTH: usize = 32;

/// Whether an extension is made of one or more ASCII letters, ASCII digits
/// and underscores.
pub open spec fn is_extension_text(extension: Seq<char>) -> bool {
    made_of(extension, CharClass::Word)
}

/// What is wrong with a request to create an upload of `size` bytes with
/// `extension`, where uploads may have up to `max_file_size` bytes.
pub open spec fn request_errors(size: u64, extension: Option<Seq<char>>, max_file_size: u64)
    -> ValidationErrors {
    ValidationErrors {
        size_is_zero: size == 0,
        size_too_large: size > max_file_size || size > i64::MAX,
        extension_too_long: extension matches Some(text) && text.len() > MAX_EXTENSION_LENGTH,
        extension_invalid_chars: extension matches Some(text) && !is_extension_text(text),
        title_is_blank: false,
        title_too_long: false,
        min_age_out_of_range: false,
    }
}

/// Whether `extension` is made of one or more ASCII letters, ASCII digits
/// and underscores.
pub fn is_valid_extension(extension: &str) -> (valid: bool)
    ensures
        valid == is_extension_text(extension@),
{
    is_made_of(extension, CharClass::Word)
}

impl<'r> UploadAddRequest<'r> {
    /// What is wrong with the request: the size must be above zero, at most
    /// `config.max_file_size` and at most what the ledger can store; the
    /// extension, where there is one, must have at most 32 characters, all of
    /// them letters, digits or underscores, and at least one.
    pub fn validate(&self, config: &UploadConfig) -> (errors: ValidationErrors)
        ensures
            errors == request_errors(
                self.size,
                option_str_view(self.extension),
                config.max_file_size,
            ),
    {
        let (too_long, invalid_chars) = match self.extension {
            Some(text) => (text.unicode_len() > MAX_EXTENSION_LENGTH, !is_valid_extension(text)),
            None => (false, false),
        };
        ValidationErrors {
            size_is_zero: self.size == 0,
            size_too_large: self.size > config.max_file_size || self.size > i64::MAX as u64,
            extension_too_long: too_long,
            extension_invalid_chars: invalid_chars,
            title_is_blank: false,
            title_too_long: false,
            min_age_out_of_range: false,
        }
    }
}

/// What a flow over an upload that exists is for.
#[derive(Clone, Copy, Debug, PartialEq, Eq, Structural)]
pub enum FlowKind {
    /// Write the chunk that covers this range.
    Write(ContentRange),
    /// Publish the upload.
    Finalize,
    /// Take the upload out of public view.
    Hide,
}

impl FlowKind {
    /// The status in which an upload must be for the flow to start.
    pub open spec fn spec_required_status(self) -> UploadStatus {
        match self {
            FlowKind::Write(_) => UploadStatus::Allocated,
            FlowKind::Finalize => UploadStatus::Allocated,
            FlowKind::Hide => UploadStatus::Published,
        }
    }

    /// The status that the upload has while the flow works on its file.
    pub open spec fn spec_claim_status(self) -> UploadStatus {
        match self {
            FlowKind::Write(_) => UploadStatus::Writing,
            FlowKind::Finalize => UploadStatus::Publishing,
            FlowKind::Hide => UploadStatus::Hiding,
        }
    }

    /// The status in which the flow leaves the upload when all went well.
    pub open spec fn spec_final_status(self) -> UploadStatus {
        match self {
            FlowKind::Write(_) => UploadStatus::Allocated,
            FlowKind::Finalize => UploadStatus::Published,
            FlowKind::Hide => UploadStatus::Hidden,
        }
    }

    /// The status in which an upload must be for the flow to start.
    #[verifier::when_used_as_spec(spec_required_status)]
    pub fn required_status(self) -> (status: UploadStatus)
        ensures
            status == self.spec_required_status(),
    {
        match self {
            FlowKind::Write(_) => UploadStatus::Allocated,
            FlowKind::Finalize => UploadStatus::Allocated,
            FlowKind::Hide => UploadStatus::Published,
        }
    }

    /// The status that the upload has while the flow works on its file.
    #[verifier::when_used_as_spec(spec_claim_status)]
    pub fn claim_status(self) -> (status: UploadStatus)
        ensures
            status == self.spec_claim_status(),
    {
        match self {
            FlowKind::Write(_) => UploadStatus::Writing,
            FlowKind::Finalize => UploadStatus::Publishing,
            FlowKind::Hide => UploadStatus::Hiding,
        }
    }

    /// The status in which the flow leaves the upload when all went well.
    #[verifier::when_used_as_spec(spec_final_status)]
    pub fn final_status(self) -> (status: UploadStatus)
        ensures
            status == self.spec_final_status(),
    {
        match self {
            FlowKind::Write(_) => UploadStatus::Allocated,
            FlowKind::Finalize => UploadStatus::Published,
            FlowKind::Hide => UploadStatus::Hidden,
        }
    }
}

/// What a flow answers when it ends well.
#[derive(Clone, Copy, Debug, PartialEq, Eq, Structural)]
pub enum FlowOutput {
    Added(UploadAddResponseOk),
    Chunk(UploadByChunkResponseOk),
}

/// What a flow asks its runner to do next.
#[derive(Debug, PartialEq, Eq)]
pub enum FlowAction {
    /// Create the record of an upload, for the user who makes the request.
    AddUpload { extension: Option<String>, size: i64, post_id: i64 },
    /// Read the record of an upload.
    GetUpload { id: i64 },
    /// Try to move an upload to a status.
    SetStatus { id: i64, status: UploadStatus },
    /// Try to move an upload to a status, and read its record as it was
    /// before.
    SetStatusCheckExists { id: i64, status: UploadStatus },
    /// Have the storage backend work on the file of an upload.
    Storage(StorageRequest),
    /// Answer the request: the flow is over.
    Finish(Result<FlowOutput, Error>),
}

/// The result of the action that a flow asked for.
#[derive(Debug, PartialEq, Eq)]
pub enum FlowEvent {
    Added(Result<Upload, Error>),
    Found(Result<UploadFull, Error>),
    StatusSet(Result<Option<()>, Error>),
    StatusChecked(Result<Option<UploadFull>, Error>),
    Stored(Result<(), Error>),
}

/// Where a flow stands.
#[derive(Debug, PartialEq, Eq)]
pub enum UploadFlow {
    /// A create flow waits for the record of the new upload.
    Adding { size: u64 },
    /// A create flow waits for the storage to allocate the file.
    Allocating { id: i64 },
    /// The flow waits for the record of its upload.
    Loading { kind: FlowKind, id: i64, username: String },
    /// The flow waits for the ledger to claim the upload for it.
    Claiming { kind: FlowKind, id: i64 },
    /// The flow waits for the storage to work on the file.
    Working { kind: FlowKind, id: i64 },
    /// The flow waits for the last move of the upload. `outcome` is what
    /// it answers if the move is made.
    Settling { outcome: Result<FlowOutput, Error> },
    /// The flow is over.
    Finished,
}

/// Whether a chunk with `range` may be written to an upload of `size`
/// bytes: a range that declares the length of the whole must declare `size`.
pub open spec fn range_matches_size(range: ContentRange, size: i64) -> bool {
    match range.complete_length() {
        Some(total) => total == size,
        None => true,
    }
}

/// What a flow that cannot go on answers to an event that answers none of
/// its requests.
pub open spec fn out_of_turn() -> (UploadFlow, FlowAction) {
    (UploadFlow::Finished, FlowAction::Finish(Err(Error::Unknown)))
}

/// A flow that ends with `error`.
pub open spec fn failed(error: Error) -> (UploadFlow, FlowAction) {
    (UploadFlow::Finished, FlowAction::Finish(Err(error)))
}

/// The step that a flow in `flow` takes on `event`: where it stands next
/// and what it asks for.
pub open spec fn flow_step(flow: UploadFlow, event: FlowEvent) -> (UploadFlow, FlowAction) {
    match flow {
        UploadFlow::Adding { size } => match event {
            FlowEvent::Added(Ok(upload)) => (
                UploadFlow::Allocating { id: upload.id },
                FlowAction::Storage(
                    StorageRequest::Allocate { id: upload.id, extension: upload.extension, size },
                ),
            ),
            FlowEvent::Added(Err(error)) => failed(error),
            _ => out_of_turn(),
        },
        UploadFlow::Allocating { id } => match event {
            FlowEvent::Stored(Ok(_)) => (
                UploadFlow::Settling {
                    outcome: Ok(FlowOutput::Added(UploadAddResponseOk { id })),
                },
                FlowAction::SetStatus { id, status: UploadStatus::Allocated },
            ),
            FlowEvent::Stored(Err(error)) => failed(error),
            _ => out_of_turn(),
        },
        UploadFlow::Loading { kind, id, username } => match event {
            FlowEvent::Found(Ok(upload)) => if upload.post_author_username@ != username@ {
                failed(Error::AccessDenied)
            } else if upload.file_status != kind.required_status() {
                failed(Error::InvalidUploadState)
            } else {
                (
                    UploadFlow::Claiming { kind, id },
                    FlowAction::SetStatusCheckExists { id, status: kind.claim_status() },
                )
            },
            FlowEvent::Found(Err(error)) => failed(error),
            _ => out_of_turn(),
        },
        UploadFlow::Claiming { kind, id } => match event {
            FlowEvent::StatusChecked(Ok(Some(before))) => match kind {
                FlowKind::Write(range) => if range_matches_size(range, before.size)
                    && range.length() is Some {
                    (
                        UploadFlow::Working { kind, id },
                        FlowAction::Storage(
                            StorageRequest::Write {
                                id,
                                extension: before.extension,
                                start_pos: range.first_byte(),
                                length: range.length()->0,
                            },
                        ),
                    )
                } else {
                    (
                        UploadFlow::Settling { outcome: Err(Error::InvalidContentRange) },
                        FlowAction::SetStatus { id, status: UploadStatus::Allocated },
                    )
                },
                FlowKind::Finalize => (
                    UploadFlow::Working { kind, id },
                    FlowAction::Storage(
                        StorageRequest::Publish { id, extension: before.extension },
                    ),
                ),
                FlowKind::Hide => (
                    UploadFlow::Working { kind, id },
                    FlowAction::Storage(
                        StorageRequest::Unpublish { id, extension: before.extension },
                    ),
                ),
            },
            FlowEvent::StatusChecked(Ok(None)) => failed(Error::InvalidUploadState),
            FlowEvent::StatusChecked(Err(error)) => failed(error),
            _ => out_of_turn(),
        },
        UploadFlow::Working { kind, id } => match event {
            FlowEvent::Stored(Ok(_)) => (
                UploadFlow::Settling { outcome: Ok(FlowOutput::Chunk(UploadByChunkResponseOk {  })) },
                FlowAction::SetStatus { id, status: kind.final_status() },
            ),
            FlowEvent::Stored(Err(error)) => match kind {
                FlowKind::Write(_) => (
                    UploadFlow::Settling { outcome: Err(error) },
                    FlowAction::SetStatus { id, status: UploadStatus::Allocated },
                ),
                _ => failed(error),
            },
            _ => out_of_turn(),
        },
        UploadFlow::Settling { outcome } => match event {
            FlowEvent::StatusSet(Ok(Some(_))) => (UploadFlow::Finished, FlowAction::Finish(outcome)),
            FlowEvent::StatusSet(Ok(None)) => failed(Error::InvalidUploadState),
            FlowEvent::StatusSet(Err(error)) => failed(error),
            _ => out_of_turn(),
        },
        UploadFlow::Finished => out_of_turn(),
    }
}

impl UploadFlow {
    /// The number of actions that the flow may still ask for before it
    /// answers.
    pub open spec fn steps_left(self) -> nat {
        match self {
            UploadFlow::Adding { .. } => 3,
            UploadFlow::Allocating { .. } => 2,
            UploadFlow::Loading { .. } => 4,
            UploadFlow::Claiming { .. } => 3,
            UploadFlow::Working { .. } => 2,
            UploadFlow::Settling { .. } => 1,
            UploadFlow::Finished => 0,
        }
    }

    /// Takes the result of the action that the flow asked for last, and
    /// returns where the flow stands next and what it asks for.
    pub fn step(self, event: FlowEvent) -> (next: (UploadFlow, FlowAction))
        ensures
            next == flow_step(self, event),
    {
        match self {
            UploadFlow::Adding { size } => match event {
                FlowEvent::Added(Ok(upload)) => (
                    UploadFlow::Allocating { id: upload.id },
                    FlowAction::Storage(
                        StorageRequest::Allocate {
                            id: upload.id,
                            extension: upload.extension,
                            size,
                        },
                    ),
                ),
                FlowEvent::Added(Err(error)) => (
                    UploadFlow::Finished,
                    FlowAction::Finish(Err(error)),
                ),
                _ => (UploadFlow::Finished, FlowAction::Finish(Err(Error::Unknown))),
            },
            UploadFlow::Allocating { id } => match event {
                FlowEvent::Stored(Ok(_)) => (
                    UploadFlow::Settling {
                        outcome: Ok(FlowOutput::Added(UploadAddResponseOk { id })),
                    },
                    FlowAction::SetStatus { id, status: UploadStatus::Allocated },
                ),
                FlowEvent::Stored(Err(error)) => (
                    UploadFlow::Finished,
                    FlowAction::Finish(Err(error)),
                ),
                _ => (UploadFlow::Finished, FlowAction::Finish(Err(Error::Unknown))),
            },
            UploadFlow::Loading { kind, id, username } => match event {
                FlowEvent::Found(Ok(upload)) => {
                    if upload.post_author_username != username {
                        (UploadFlow::Finished, FlowAction::Finish(Err(Error::AccessDenied)))
                    } else if upload.file_status != kind.required_status() {
                        (UploadFlow::Finished, FlowAction::Finish(Err(Error::InvalidUploadState)))
                    } else {
                        (
                            UploadFlow::Claiming { kind, id },
                            FlowAction::SetStatusCheckExists { id, status: kind.claim_status() },
                        )
                    }
                },
                FlowEvent::Found(Err(error)) => (
                    UploadFlow::Finished,
                    FlowAction::Finish(Err(error)),
                ),
                _ => (UploadFlow::Finished, FlowAction::Finish(Err(Error::Unknown))),
            },
            UploadFlow::Claiming { kind, id } => match event {
                FlowEvent::StatusChecked(Ok(Some(before))) => match kind {
                    FlowKind::Write(range) => {
                        let matches = match range.complete_length() {
                            Some(total) => before.size >= 0 && total == before.size as u64,
                            None => true,
                        };
                        match range.length() {
                            Some(length) if matches => (
                                UploadFlow::Working { kind, id },
                                FlowAction::Storage(
                                    StorageRequest::Write {
                                        id,
                                        extension: before.extension,
                                        start_pos: range.first_byte(),
                                        length,
                                    },
                                ),
                            ),
                            _ => (
                                UploadFlow::Settling { outcome: Err(Error::InvalidContentRange) },
                                FlowAction::SetStatus { id, status: UploadStatus::Allocated },
                            ),
                        }
                    },
                    FlowKind::Finalize => (
                        UploadFlow::Working { kind, id },
                        FlowAction::Storage(
                            StorageRequest::Publish { id, extension: before.extension },
                        ),
                    ),
                    FlowKind::Hide => (
                        UploadFlow::Working { kind, id },
                        FlowAction::Storage(
                            StorageRequest::Unpublish { id, extension: before.extension },
                        ),
                    ),
                },
                FlowEvent::StatusChecked(Ok(None)) => (
                    UploadFlow::Finished,
                    FlowAction::Finish(Err(Error::InvalidUploadState)),
                ),
                FlowEvent::StatusChecked(Err(error)) => (
                    UploadFlow::Finished,
                    FlowAction::Finish(Err(error)),
                ),
                _ => (UploadFlow::Finished, FlowAction::Finish(Err(Error::Unknown))),
            },
            UploadFlow::Working { kind, id } => match event {
                FlowEvent::Stored(Ok(_)) => (
                    UploadFlow::Settling {
                        outcome: Ok(FlowOutput::Chunk(UploadByChunkResponseOk {  })),
                    },
                    FlowAction::SetStatus { id, status: kind.final_status() },
                ),
                FlowEvent::Stored(Err(error)) => match kind {
                    FlowKind::Write(_) => (
                        UploadFlow::Settling { outcome: Err(error) },
                        FlowAction::SetStatus { id, status: UploadStatus::Allocated },
                    ),
                    _ => (UploadFlow::Finished, FlowAction::Finish(Err(error))),
                },
                _ => (UploadFlow::Finished, FlowAction::Finish(Err(Error::Unknown))),
            },
            UploadFlow::Settling { outcome } => match event {
                FlowEvent::StatusSet(Ok(Some(_))) => (
                    UploadFlow::Finished,
                    FlowAction::Finish(outcome),
                ),
                FlowEvent::StatusSet(Ok(None)) => (
                    UploadFlow::Finished,
                    FlowAction::Finish(Err(Error::InvalidUploadState)),
                ),
                FlowEvent::StatusSet(Err(error)) => (
                    UploadFlow::Finished,
                    FlowAction::Finish(Err(error)),
                ),
                _ => (UploadFlow::Finished, FlowAction::Finish(Err(Error::Unknown))),
            },
            UploadFlow::Finished => (UploadFlow::Finished, FlowAction::Finish(Err(Error::Unknown))),
        }
    }
}

impl UploadFlow {
    /// Starts the flow that creates an upload.
    ///
    /// A request that is not valid is answered at once with what is wrong
    /// with it. Otherwise the flow asks for the record to be created.
    pub fn create_upload(request: &UploadAddRequest<'_>, config: &UploadConfig) -> (start: (
        UploadFlow,
        FlowAction,
    ))
        ensures
            ({
                let errors = request_errors(
                    request.size,
                    option_str_view(request.extension),
                    config.max_file_size,
                );
                if !errors.is_empty() {
                    start == failed(Error::ValidationErrors(errors))
                } else {
                    &&& start.0 == (UploadFlow::Adding { size: request.size })
                    &&& start.1 matches FlowAction::AddUpload { extension, size, post_id }
                    &&& option_string_view(extension) == option_str_view(request.extension)
                    &&& size == request.size
                    &&& post_id == request.post_id
                }
            }),
    {
        let errors = request.validate(config);
        if !errors.is_empty() {
            return (UploadFlow::Finished, FlowAction::Finish(Err(Error::ValidationErrors(errors))));
        }
        let extension: Option<String> = match request.extension {
            Some(text) => Some(String::from_str(text)),
            None => None,
        };
        (
            UploadFlow::Adding { size: request.size },
            FlowAction::AddUpload { extension, size: request.size as i64, post_id: request.post_id },
        )
    }

    /// Starts a flow of `kind` over upload `id`, on behalf of `username`.
    /// The flow asks for the record of the upload.
    pub fn over_upload(kind: FlowKind, id: i64, username: &str) -> (start: (UploadFlow, FlowAction))
        ensures
            start.0 matches UploadFlow::Loading { kind: k, id: i, username: u },
            start.0->Loading_kind == kind,
            start.0->Loading_id == id,
            start.0->Loading_username@ == username@,
            start.1 == (FlowAction::GetUpload { id }),
    {
        (
            UploadFlow::Loading { kind, id, username: String::from_str(username) },
            FlowAction::GetUpload { id },
        )
    }

    /// Starts the flow that writes the chunk covering `range` to upload
    /// `id`. The range is looked at once the upload is claimed for the
    /// chunk: who may write, and whether the upload can be written to, is
    /// settled first.
    pub fn write_chunk(id: i64, username: &str, range: ContentRange) -> (start: (
        UploadFlow,
        FlowAction,
    ))
        ensures
            start.0 matches UploadFlow::Loading { kind: k, id: i, username: u },
            start.0->Loading_kind == FlowKind::Write(range),
            start.0->Loading_id == id,
            start.0->Loading_username@ == username@,
            start.1 == (FlowAction::GetUpload { id }),
    {
        UploadFlow::over_upload(FlowKind::Write(range), id, username)
    }

    /// Starts the flow that publishes upload `id`.
    pub fn finalize_upload(id: i64, username: &str) -> (start: (UploadFlow, FlowAction))
        ensures
            start.0 matches UploadFlow::Loading { kind: k, id: i, username: u },
            start.0->Loading_kind == FlowKind::Finalize,
            start.0->Loading_id == id,
            start.0->Loading_username@ == username@,
            start.1 == (FlowAction::GetUpload { id }),
    {
        UploadFlow::over_upload(FlowKind::Finalize, id, username)
    }

    /// Starts the flow that takes upload `id` out of public view.
    pub fn hide_upload(id: i64, username: &str) -> (start: (UploadFlow, FlowAction))
        ensures
            start.0 matches UploadFlow::Loading { kind: k, id: i, username: u },
            start.0->Loading_kind == FlowKind::Hide,
            start.0->Loading_id == id,
            start.0->Loading_username@ == username@,
            start.1 == (FlowAction::GetUpload { id }),
    {
        UploadFlow::over_upload(FlowKind::Hide, id, username)
    }
}

/// Whether `event` is an answer that a ledger in `before` may give to
/// `action` made on behalf of `user` at the moment `now`, leaving the ledger
/// in `after`.
pub open spec fn ledger_answers(
    before: LedgerState,
    after: LedgerState,
    user: User,
    now: i64,
    action: FlowAction,
    event: FlowEvent,
) -> bool {
    match action {
        FlowAction::AddUpload { extension, size, post_id } => {
            &&& event matches FlowEvent::Added(result)
            &&& match result {
                Ok(created) => {
                    &&& before.has_post(post_id)
                    &&& before.post_author(post_id) == user.username@
                    &&& before.uploads.len() < i64::MAX
                    &&& after == before.with_new_upload(
                        option_string_view(extension),
                        size,
                        post_id,
                        now,
                    )
                    &&& created.id == before.uploads.len() + 1
                    &&& created@ == after.upload(created.id).summary()
                },
                Err(error) => {
                    &&& after == before
                    &&& if !before.has_post(post_id) {
                        error == Error::DoesNotExist
                    } else if before.post_author(post_id) != user.username@ {
                        error == Error::AccessDenied
                    } else {
                        &&& before.uploads.len() == i64::MAX
                        &&& error matches Error::Sqlx(message)
                        &&& message@ == ledger_full_message()
                    }
                },
            }
        },
        FlowAction::GetUpload { id } => {
            &&& after == before
            &&& event matches FlowEvent::Found(result)
            &&& match result {
                Ok(upload) => before.has_upload(id) && upload@ == before.upload(id),
                Err(error) => !before.has_upload(id) && error == Error::DoesNotExist,
            }
        },
        FlowAction::SetStatus { id, status } => {
            &&& after == before.after_move(id, status)
            &&& event matches FlowEvent::StatusSet(result)
            &&& match result {
                Ok(Some(_)) => before.can_move(id, status),
                Ok(None) => before.has_upload(id) && !before.can_move(id, status),
                Err(error) => {
                    &&& !before.has_upload(id)
                    &&& error matches Error::Sqlx(message)
                    &&& message@ == missing_row_message()
                },
            }
        },
        FlowAction::SetStatusCheckExists { id, status } => {
            &&& after == before.after_move(id, status)
            &&& event matches FlowEvent::StatusChecked(result)
            &&& match result {
                Ok(Some(record)) => before.can_move(id, status) && record@ == before.upload(id),
                Ok(None) => before.has_upload(id) && !before.can_move(id, status),
                Err(error) => !before.has_upload(id) && error == Error::DoesNotExist,
            }
        },
        _ => false,
    }
}

/// Whether `action` is one that the ledger performs.
pub open spec fn is_ledger_action(action: FlowAction) -> bool {
    action is AddUpload || action is GetUpload || action is SetStatus
        || action is SetStatusCheckExists
}

/// Performs `action` on `ledger` if it is one of the ledger's, and lets the
/// flow take its step on the answer. Any other action is handed back as it
/// is.
pub fn answer_from_ledger(
    flow: UploadFlow,
    action: FlowAction,
    user: &User,
    ledger: &mut Ledger,
    now: i64,
) -> (next: (UploadFlow, FlowAction))
    requires
        old(ledger).wf(),
    ensures
        final(ledger).wf(),
        !is_ledger_action(action) ==> next == (flow, action) && final(ledger)@ == old(ledger)@,
        is_ledger_action(action) ==> exists|event: FlowEvent|
            ledger_answers(old(ledger)@, final(ledger)@, *user, now, action, event) && next
                == flow_step(flow, event),
{
    match action {
        FlowAction::AddUpload { extension, size, post_id } => {
            let new_upload = NewUpload { extension: option_as_str(&extension), size, post_id };
            let event = FlowEvent::Added(add_upload(new_upload, user.clone(), ledger, now));
            assert(ledger_answers(old(ledger)@, ledger@, *user, now, action, event));
            flow.step(event)
        },
        FlowAction::GetUpload { id } => {
            let event = FlowEvent::Found(get_upload(id, ledger));
            assert(ledger_answers(old(ledger)@, ledger@, *user, now, action, event));
            flow.step(event)
        },
        FlowAction::SetStatus { id, status } => {
            let event = FlowEvent::StatusSet(try_set_upload_status(id, status, ledger));
            assert(ledger_answers(old(ledger)@, ledger@, *user, now, action, event));
            flow.step(event)
        },
        FlowAction::SetStatusCheckExists { id, status } => {
            let event = FlowEvent::StatusChecked(
                try_set_upload_status_check_exists(id, status, ledger),
            );
            assert(ledger_answers(old(ledger)@, ledger@, *user, now, action, event));
            flow.step(event)
        },
        other => (flow, other),
    }
}

/// Hands `action` to `storage` if it is a request to the storage backend,
/// and lets the flow take its step on the answer. Any other action is handed
/// back as it is.
pub fn answer_from_storage<S>(flow: UploadFlow, action: FlowAction, storage: &S) -> (next: (
    UploadFlow,
    FlowAction,
)) where S: Fn(&StorageRequest) -> Result<(), Error>
    requires
        forall|request: &StorageRequest| storage.requires((request,)),
    ensures
        !(action is Storage) ==> next == (flow, action),
        action matches FlowAction::Storage(request) ==> exists|stored: Result<(), Error>|
            storage.ensures((&request,), stored) && next == flow_step(
                flow,
                FlowEvent::Stored(stored),
            ),
{
    match action {
        FlowAction::Storage(request) => {
            let stored = storage(&request);
            flow.step(FlowEvent::Stored(stored))
        },
        other => (flow, other),
    }
}

/// What the flow of `kind` over upload `id` comes to when `username` asks
/// for it on a ledger in `before`, up to the point where the storage is
/// asked to work: the error with which it is refused, or `None` where the
/// storage is asked.
pub open spec fn refusal(before: LedgerState, kind: FlowKind, id: i64, username: Seq<char>)
    -> Option<Error> {
    if !before.has_upload(id) {
        Some(Error::DoesNotExist)
    } else if before.upload(id).owner_username != username {
        Some(Error::AccessDenied)
    } else if before.upload(id).status != kind.required_status() {
        Some(Error::InvalidUploadState)
    } else if kind matches FlowKind::Write(range) && (!range_matches_size(
        range,
        before.upload(id).size,
    ) || range.length() is None) {
        Some(Error::InvalidContentRange)
    } else {
        None
    }
}

/// What the flow of `kind` asks of the storage for the upload `record`.
pub open spec fn storage_request(kind: FlowKind, record: crate::ledger::UploadRecord)
    -> StorageRequestView {
    match kind {
        FlowKind::Write(range) => StorageRequestView::Write {
            id: record.id,
            extension: record.extension,
            start_pos: range.first_byte(),
            length: range.length()->0,
        },
        FlowKind::Finalize => StorageRequestView::Publish {
            id: record.id,
            extension: record.extension,
        },
        FlowKind::Hide => StorageRequestView::Unpublish {
            id: record.id,
            extension: record.extension,
        },
    }
}

/// The ledger after the flow of `kind` over upload `id`, which was not
/// refused and got `stored` from the storage.
///
/// A chunk leaves the upload in `Allocated` whether or not it was written.
/// Finalize and hide leave it in their last status when the storage did its
/// work, and in the status that claims the upload when it did not.
pub open spec fn after_flow(
    before: LedgerState,
    kind: FlowKind,
    id: i64,
    stored: Result<(), Error>,
) -> LedgerState {
    match kind {
        FlowKind::Write(_) => before,
        _ => match stored {
            Ok(_) => before.with_status(id, kind.final_status()),
            Err(_) => before.with_status(id, kind.claim_status()),
        },
    }
}

/// Whether `result` and the ledger `after` are what the flow of `kind` over
/// upload `id` comes to when `user` asks for it on a ledger in `before` and
/// the storage behaves as `storage`.
pub open spec fn flow_outcome<S: Fn(&StorageRequest) -> Result<(), Error>>(
    before: LedgerState,
    after: LedgerState,
    kind: FlowKind,
    id: i64,
    user: User,
    storage: S,
    result: Result<UploadByChunkResponseOk, Error>,
) -> bool {
    match refusal(before, kind, id, user.username@) {
        Some(error) => result == Err::<UploadByChunkResponseOk, Error>(error) && after == before,
        None => exists|request: StorageRequest, stored: Result<(), Error>|
            {
                &&& request@ == storage_request(kind, before.upload(id))
                &&& storage.ensures((&request,), stored)
                &&& after == after_flow(before, kind, id, stored)
                &&& result == match stored {
                    Ok(_) => Ok::<UploadByChunkResponseOk, Error>(UploadByChunkResponseOk {  }),
                    Err(error) => Err::<UploadByChunkResponseOk, Error>(error),
                }
            },
    }
}

/// Setting the status of an upload twice leaves it in the second status,
/// and setting the status that it has changes nothing.
pub proof fn lemma_status_set_twice(
    state: LedgerState,
    id: i64,
    first: UploadStatus,
    second: UploadStatus,
)
    requires
        state.has_upload(id),
    ensures
        state.with_status(id, first).with_status(id, second) == state.with_status(id, second),
        state.with_status(id, state.upload(id).status) == state,
        state.with_status(id, first).has_upload(id),
        state.with_status(id, first).upload(id) == state.upload(id).with_status(first),
{
    assert(state.with_status(id, first).with_status(id, second).uploads =~= state.with_status(
        id,
        second,
    ).uploads);
    assert(state.with_status(id, state.upload(id).status).uploads =~= state.uploads);
}

/// Runs the flow of `kind` over upload `id` against `ledger`, with
/// `storage` doing the work on the file.
fn run_over_upload<S>(kind: FlowKind, id: i64, ledger: &mut Ledger, user: &User, storage: S) -> (result:
    Result<UploadByChunkResponseOk, Error>) where S: Fn(&StorageRequest) -> Result<(), Error>
    requires
        old(ledger).wf(),
        forall|request: &StorageRequest| storage.requires((request,)),
    ensures
        final(ledger).wf(),
        flow_outcome(old(ledger)@, final(ledger)@, kind, id, *user, storage, result),
{
    let ghost before = ledger@;
    let (flow, action) = match kind {
        FlowKind::Write(range) => UploadFlow::write_chunk(id, user.username.as_str(), range),
        _ => UploadFlow::over_upload(kind, id, user.username.as_str()),
    };
    let (flow, action) = answer_from_ledger(flow, action, user, ledger, 0);
    let (flow, action) = answer_from_ledger(flow, action, user, ledger, 0);
    let ghost claimed = ledger@;
    let ghost working = (flow, action);
    proof {
        if refusal(before, kind, id, user.username@) is None {
            assert(claimed == before.with_status(id, kind.claim_status()));
            assert(working.0 == (UploadFlow::Working { kind, id }));
            assert(working.1 is Storage);
            assert(working.1->Storage_0@ == storage_request(kind, before.upload(id)));
        } else {
            let error = refusal(before, kind, id, user.username@)->0;
            assert({
                ||| claimed == before && working.1 == FlowAction::Finish(Err(error))
                ||| {
                    &&& claimed == before.with_status(id, UploadStatus::Writing)
                    &&& before.has_upload(id)
                    &&& before.upload(id).status == UploadStatus::Allocated
                    &&& error == Error::InvalidContentRange
                    &&& working.0 == (UploadFlow::Settling { outcome: Err(error) })
                    &&& working.1 == (FlowAction::SetStatus { id, status: UploadStatus::Allocated })
                }
            });
        }
    }
    let (flow, action) = answer_from_storage(flow, action, &storage);
    let ghost settling = (flow, action);
    let (flow, action) = answer_from_ledger(flow, action, user, ledger, 0);
    proof {
        if refusal(before, kind, id, user.username@) is None {
            let request = working.1->Storage_0;
            let stored = choose|stored: Result<(), Error>|
                storage.ensures((&request,), stored) && settling == flow_step(
                    working.0,
                    FlowEvent::Stored(stored),
                );
            lemma_status_set_twice(before, id, kind.claim_status(), kind.final_status());
            lemma_status_set_twice(before, id, kind.claim_status(), before.upload(id).status);
            assert(ledger@ == after_flow(before, kind, id, stored));
        } else if before.has_upload(id) {
            lemma_status_set_twice(before, id, UploadStatus::Writing, before.upload(id).status);
        }
    }
    match action {
        FlowAction::Finish(Ok(FlowOutput::Chunk(response))) => Ok(response),
        FlowAction::Finish(Err(error)) => Err(error),
        _ => Err(Error::Unknown),
    }
}

/// Writes the chunk that covers `content_range` to upload `id`, for `user`.
///
/// The request is refused with `DoesNotExist` where there is no such
/// upload, `AccessDenied` where `user` does not own it, `InvalidUploadState`
/// where it is not in `Allocated`, and `InvalidContentRange` where the range
/// declares a total length other than the size of the upload, or has no
/// length: its last byte lies before its first, or it counts more bytes than
/// a `u64` holds. Otherwise `storage` is asked to write the chunk, and its
/// answer is the answer to the request. In every case the ledger ends as it
/// began: the upload is never left in `Writing`.
pub fn upload_upload_by_chunk_put<S>(
    id: i64,
    ledger: &mut Ledger,
    user: &User,
    storage: S,
    content_range: ContentRange,
) -> (result: Result<UploadByChunkResponseOk, Error>) where
    S: Fn(&StorageRequest) -> Result<(), Error>,

    requires
        old(ledger).wf(),
        forall|request: &StorageRequest| storage.requires((request,)),
    ensures
        final(ledger).wf(),
        final(ledger)@ == old(ledger)@,
        flow_outcome(
            old(ledger)@,
            final(ledger)@,
            FlowKind::Write(content_range),
            id,
            *user,
            storage,
            result,
        ),
{
    run_over_upload(FlowKind::Write(content_range), id, ledger, user, storage)
}

/// Publishes upload `id`, for `user`.
///
/// The request is refused with `DoesNotExist` where there is no such
/// upload, `AccessDenied` where `user` does not own it, and
/// `InvalidUploadState` where it is not in `Allocated`. Otherwise the upload
/// moves to `Publishing` and `storage` is asked to publish the file. When
/// that is done the upload moves to `Published`; when it fails the error is
/// returned and the upload stays in `Publishing`.
pub fn upload_finalize_post<S>(id: i64, ledger: &mut Ledger, user: &User, storage: S) -> (result:
    Result<UploadByChunkResponseOk, Error>) where S: Fn(&StorageRequest) -> Result<(), Error>
    requires
        old(ledger).wf(),
        forall|request: &StorageRequest| storage.requires((request,)),
    ensures
        final(ledger).wf(),
        flow_outcome(old(ledger)@, final(ledger)@, FlowKind::Finalize, id, *user, storage, result),
{
    run_over_upload(FlowKind::Finalize, id, ledger, user, storage)
}

/// Takes upload `id` out of public view, for `user`.
///
/// The request is refused with `DoesNotExist` where there is no such
/// upload, `AccessDenied` where `user` does not own it, and
/// `InvalidUploadState` where it is not in `Published`. Otherwise the upload
/// moves to `Hiding` and `storage` is asked to remove its files. When that is
/// done the upload moves to `Hidden`; when it fails the error is returned and
/// the upload stays in `Hiding`, where the sweeper finds it.
pub fn upload_hide_post<S>(id: i64, ledger: &mut Ledger, user: &User, storage: S) -> (result:
    Result<UploadByChunkResponseOk, Error>) where S: Fn(&StorageRequest) -> Result<(), Error>
    requires
        old(ledger).wf(),
        forall|request: &StorageRequest| storage.requires((request,)),
    ensures
        final(ledger).wf(),
        flow_outcome(old(ledger)@, final(ledger)@, FlowKind::Hide, id, *user, storage, result),
{
    run_over_upload(FlowKind::Hide, id, ledger, user, storage)
}

/// Creates an upload for `user`, at the moment `now`.
///
/// A request that is not valid is refused with what is wrong with it. The
/// request is refused with `DoesNotExist` where there is no post
/// `request.post_id`, with `AccessDenied` where `user` is not its author, and
/// with a persistence error where the ledger is full. Otherwise the ledger
/// gets a record in `Initialized` and `storage` is asked to allocate the
/// file. When that is done the upload moves to `Allocated` and its id is
/// returned; when it fails the error is returned and the upload stays in
/// `Initialized`.
pub fn upload_add_post<S>(
    request: UploadAddRequest<'_>,
    ledger: &mut Ledger,
    user: &User,
    upload_config: &UploadConfig,
    storage: S,
    now: i64,
) -> (result: Result<UploadAddResponseOk, Error>) where
    S: Fn(&StorageRequest) -> Result<(), Error>,

    requires
        old(ledger).wf(),
        forall|request: &StorageRequest| storage.requires((request,)),
    ensures
        final(ledger).wf(),
        ({
            let before = old(ledger)@;
            let after = final(ledger)@;
            let extension = option_str_view(request.extension);
            let errors = request_errors(request.size, extension, upload_config.max_file_size);
            if !errors.is_empty() {
                &&& result == Err::<UploadAddResponseOk, Error>(Error::ValidationErrors(errors))
                &&& after == before
            } else if !before.has_post(request.post_id) {
                &&& result == Err::<UploadAddResponseOk, Error>(Error::DoesNotExist)
                &&& after == before
            } else if before.post_author(request.post_id) != user.username@ {
                &&& result == Err::<UploadAddResponseOk, Error>(Error::AccessDenied)
                &&& after == before
            } else if before.uploads.len() == i64::MAX {
                &&& result matches Err(Error::Sqlx(message))
                &&& message@ == ledger_full_message()
                &&& after == before
            } else {
                let id = (before.uploads.len() + 1) as i64;
                let created = before.with_new_upload(
                    extension,
                    request.size as i64,
                    request.post_id,
                    now,
                );
                exists|asked: StorageRequest, stored: Result<(), Error>|
                    {
                        &&& asked@ == (StorageRequestView::Allocate {
                            id,
                            extension,
                            size: request.size,
                        })
                        &&& storage.ensures((&asked,), stored)
                        &&& match stored {
                            Ok(_) => {
                                &&& result == Ok::<UploadAddResponseOk, Error>(
                                    UploadAddResponseOk { id },
                                )
                                &&& after == created.with_status(id, UploadStatus::Allocated)
                            },
                            Err(error) => {
                                &&& result == Err::<UploadAddResponseOk, Error>(error)
                                &&& after == created
                            },
                        }
                    }
            }
        }),
{
    let ghost before = ledger@;
    let (flow, action) = UploadFlow::create_upload(&request, upload_config);
    let (flow, action) = answer_from_ledger(flow, action, user, ledger, now);
    let ghost allocating = (flow, action);
    let ghost created = ledger@;
    let (flow, action) = answer_from_storage(flow, action, &storage);
    let ghost settling = (flow, action);
    let (flow, action) = answer_from_ledger(flow, action, user, ledger, now);
    proof {
        if allocating.1 is Storage {
            let asked = allocating.1->Storage_0;
            let stored = choose|stored: Result<(), Error>|
                storage.ensures((&asked,), stored) && settling == flow_step(
                    allocating.0,
                    FlowEvent::Stored(stored),
                );
            assert(created.has_upload((before.uploads.len() + 1) as i64));
            assert(created.upload((before.uploads.len() + 1) as i64).status
                == UploadStatus::Initialized);
        }
    }
    match action {
        FlowAction::Finish(Ok(FlowOutput::Added(response))) => Ok(response),
        FlowAction::Finish(Err(error)) => Err(error),
        _ => Err(Error::Unknown),
    }
}

/// A chunk whose range declares a total length other than the size of the
/// upload, or has no length, is refused with `InvalidContentRange`, and the
/// flow moves the upload back to `Allocated` before it says so: the upload
/// is never left in `Writing`.
pub proof fn lemma_length_mismatch_is_reverted(
    before: LedgerState,
    id: i64,
    username: Seq<char>,
    range: ContentRange,
    claimed: UploadFull,
)
    requires
        before.has_upload(id),
        before.upload(id).owner_username == username,
        before.upload(id).status == UploadStatus::Allocated,
        claimed@ == before.upload(id),
        (range.complete_length() matches Some(total) && total != before.upload(id).size)
            || range.length() is None,
    ensures
        refusal(before, FlowKind::Write(range), id, username) == Some(Error::InvalidContentRange),
        flow_step(
            UploadFlow::Claiming { kind: FlowKind::Write(range), id },
            FlowEvent::StatusChecked(Ok(Some(claimed))),
        ) == (
            UploadFlow::Settling { outcome: Err(Error::InvalidContentRange) },
            FlowAction::SetStatus { id, status: UploadStatus::Allocated },
        ),
        flow_step(
            UploadFlow::Settling { outcome: Err(Error::InvalidContentRange) },
            FlowEvent::StatusSet(Ok(Some(()))),
        ) == failed(Error::InvalidContentRange),
        before.with_status(id, UploadStatus::Writing).after_move(id, UploadStatus::Allocated)
            == before,
{
    lemma_status_set_twice(before, id, UploadStatus::Writing, UploadStatus::Allocated);
}

/// Of two requests to finalize one upload in `Allocated`, whichever claims
/// the upload first is the only one to go on. The other ends with
/// `InvalidUploadState`: when it reads the record after the claim it finds
/// the upload in `Publishing`, and when it read the record before, its own
/// claim is refused by the ledger.
pub proof fn lemma_concurrent_finalize(
    before: LedgerState,
    id: i64,
    username: String,
    seen: UploadFull,
)
    requires
        before.has_upload(id),
        before.upload(id).status == UploadStatus::Allocated,
        before.upload(id).owner_username == username@,
        seen@ == before.after_move(id, UploadStatus::Publishing).upload(id),
    ensures
        before.can_move(id, UploadStatus::Publishing),
        before.after_move(id, UploadStatus::Publishing).upload(id).status
            == UploadStatus::Publishing,
        !before.after_move(id, UploadStatus::Publishing).can_move(id, UploadStatus::Publishing),
        before.after_move(id, UploadStatus::Publishing).after_move(id, UploadStatus::Publishing)
            == before.after_move(id, UploadStatus::Publishing),
        flow_step(
            UploadFlow::Loading { kind: FlowKind::Finalize, id, username },
            FlowEvent::Found(Ok(seen)),
        ) == failed(Error::InvalidUploadState),
        flow_step(
            UploadFlow::Claiming { kind: FlowKind::Finalize, id },
            FlowEvent::StatusChecked(Ok(None)),
        ) == failed(Error::InvalidUploadState),
{
}

/// A move that the ledger refuses ends the flow with `InvalidUploadState`,
/// wherever the flow stands: a refused move is never passed over in silence.
pub proof fn lemma_refused_move_is_a_conflict(flow: UploadFlow)
    ensures
        flow is Claiming ==> flow_step(flow, FlowEvent::StatusChecked(Ok(None))) == failed(
            Error::InvalidUploadState,
        ),
        flow is Settling ==> flow_step(flow, FlowEvent::StatusSet(Ok(None))) == failed(
            Error::InvalidUploadState,
        ),
{
}

/// When the storage fails, the flow asks for no move of the upload that
/// would record the work as done: it ends with the error of the storage, or,
/// for a chunk, first moves the upload back to `Allocated`.
pub proof fn lemma_failed_storage_is_not_recorded(flow: UploadFlow, error: Error)
    requires
        flow is Allocating || flow is Working,
    ensures
        ({
            let next = flow_step(flow, FlowEvent::Stored(Err(error)));
            if flow is Working && flow->Working_kind is Write {
                next == (
                    UploadFlow::Settling { outcome: Err(error) },
                    FlowAction::SetStatus {
                        id: flow->Working_id,
                        status: UploadStatus::Allocated,
                    },
                )
            } else {
                next == failed(error)
            }
        }),
{
}

/// Every step brings a flow nearer to its answer, and a flow that is over
/// asks for nothing but to be answered.
pub proof fn lemma_flow_ends(flow: UploadFlow, event: FlowEvent)
    ensures
        flow_step(flow, event).0.steps_left() < flow.steps_left() || flow is Finished,
        flow_step(flow, event).0 is Finished <==> flow_step(flow, event).1 is Finish,
{
}

} // verus!
