//! The upload ledger: one record for each upload, and the only place where
//! the status of an upload changes.
//!
//! [`Ledger`] keeps the records in memory. Ids are handed out in sequence
//! from 1 and no record is ever removed, so that a record is found by its id.
//! Time is a plain number: callers pass the present moment, and ages and
//! `creation_date` are counted in the unit they choose for it.

use vstd::prelude::*;
use vstd::string::StringExecFns;
use crate::error::Error;
use crate::pagination::{limit_offset_and_page_id, page_count_of, Page, PageParams};
use crate::status::{transition_allowed, UploadStatus};
use crate::storage::{
    clone_option_string, file_url, get_file_url, option_as_str, option_str_view,
    option_string_view, UploadStorage,
};
use crate::user::User;

verus! {

/// What is needed to create an upload.
#[derive(Clone, Copy, Debug, PartialEq, Eq)]
pub struct NewUpload<'a> {
    pub extension: Option<&'a str>,
    pub size: i64,
    pub post_id: i64,
}

/// An upload as its own row holds it.
#[derive(Debug, PartialEq, Eq)]
pub struct Upload {
    pub id: i64,
    pub extension: Option<String>,
    pub size: i64,
    pub creation_date: i64,
    pub file_status: UploadStatus,
}

/// An upload together with the post it belongs to and the author of that
/// post, who alone may act on the upload.
#[derive(Debug, PartialEq, Eq)]
pub struct UploadFull {
    pub id: i64,
    pub extension: Option<String>,
    pub size: i64,
    pub creation_date: i64,
    pub file_status: UploadStatus,
    pub post_id: i64,
    pub post_author_username: String,
}

/// The record of an upload as contracts speak of it.
pub struct UploadRecord {
    pub id: i64,
    pub post_id: i64,
    pub extension: Option<Seq<char>>,
    pub size: i64,
    pub creation_date: i64,
    pub status: UploadStatus,
    pub owner_username: Seq<char>,
}

/// The part of a record that the row of the upload itself holds.
pub struct UploadSummary {
    pub id: i64,
    pub extension: Option<Seq<char>>,
    pub size: i64,
    pub creation_date: i64,
    pub status: UploadStatus,
}

impl UploadRecord {
    /// The record in another status.
    pub open spec fn with_status(self, status: UploadStatus) -> UploadRecord {
        UploadRecord { status, ..self }
    }

    /// The record without what comes from the post.
    pub open spec fn summary(self) -> UploadSummary {
        UploadSummary {
            id: self.id,
            extension: self.extension,
            size: self.size,
            creation_date: self.creation_date,
            status: self.status,
        }
    }
}

impl View for UploadFull {
    type V = UploadRecord;

    open spec fn view(&self) -> UploadRecord {
        UploadRecord {
            id: self.id,
            post_id: self.post_id,
            extension: option_string_view(self.extension),
            size: self.size,
            creation_date: self.creation_date,
            status: self.file_status,
            owner_username: self.post_author_username@,
        }
    }
}

impl View for Upload {
    type V = UploadSummary;

    open spec fn view(&self) -> UploadSummary {
        UploadSummary {
            id: self.id,
            extension: option_string_view(self.extension),
            size: self.size,
            creation_date: self.creation_date,
            status: self.file_status,
        }
    }
}

impl Clone for Upload {
    fn clone(&self) -> (copy: Self)
        ensures
            copy == *self,
    {
        Upload {
            id: self.id,
            extension: clone_option_string(&self.extension),
            size: self.size,
            creation_date: self.creation_date,
            file_status: self.file_status,
        }
    }
}

impl Clone for UploadFull {
    fn clone(&self) -> (copy: Self)
        ensures
            copy == *self,
    {
        UploadFull {
            id: self.id,
            extension: clone_option_string(&self.extension),
            size: self.size,
            creation_date: self.creation_date,
            file_status: self.file_status,
            post_id: self.post_id,
            post_author_username: self.post_author_username.clone(),
        }
    }
}

impl Upload {
    /// The address under which the file of the upload is served.
    pub fn file_url(&self, storage: &UploadStorage) -> (url: String)
        ensures
            url@ == file_url(self.id, self@.extension, *storage),
    {
        get_file_url(self.id, option_as_str(&self.extension), storage)
    }
}

impl UploadFull {
    /// The upload without what comes from the post.
    pub fn to_upload(&self) -> (upload: Upload)
        ensures
            upload@ == self@.summary(),
    {
        Upload {
            id: self.id,
            extension: clone_option_string(&self.extension),
            size: self.size,
            creation_date: self.creation_date,
            file_status: self.file_status,
        }
    }
}

/// What a ledger holds: the author of each post, post `n` at index `n - 1`,
/// and the record of each upload, upload `n` at index `n - 1`.
pub struct LedgerState {
    pub post_authors: Seq<Seq<char>>,
    pub uploads: Seq<UploadRecord>,
}

impl LedgerState {
    /// Whether there is a post `post_id`.
    pub open spec fn has_post(self, post_id: i64) -> bool {
        1 <= post_id <= self.post_authors.len()
    }

    /// The author of post `post_id`.
    pub open spec fn post_author(self, post_id: i64) -> Seq<char>
        recommends
            self.has_post(post_id),
    {
        self.post_authors[post_id - 1]
    }

    /// Whether there is an upload `id`.
    pub open spec fn has_upload(self, id: i64) -> bool {
        1 <= id <= self.uploads.len()
    }

    /// The record of upload `id`.
    pub open spec fn upload(self, id: i64) -> UploadRecord
        recommends
            self.has_upload(id),
    {
        self.uploads[id - 1]
    }

    /// The ledger with upload `id` in another status.
    pub open spec fn with_status(self, id: i64, status: UploadStatus) -> LedgerState
        recommends
            self.has_upload(id),
    {
        LedgerState {
            uploads: self.uploads.update(id - 1, self.upload(id).with_status(status)),
            ..self
        }
    }

    /// Whether the move of upload `id` to `status` is one that the state
    /// machine allows.
    pub open spec fn can_move(self, id: i64, status: UploadStatus) -> bool {
        self.has_upload(id) && transition_allowed(self.upload(id).status, status)
    }

    /// The ledger after an attempt to move upload `id` to `status`: the
    /// record moves if the state machine allows it, and nothing changes
    /// otherwise.
    pub open spec fn after_move(self, id: i64, status: UploadStatus) -> LedgerState {
        if self.can_move(id, status) {
            self.with_status(id, status)
        } else {
            self
        }
    }

    /// The ledger with one more upload, in `Initialized`.
    pub open spec fn with_new_upload(
        self,
        extension: Option<Seq<char>>,
        size: i64,
        post_id: i64,
        creation_date: i64,
    ) -> LedgerState {
        LedgerState {
            uploads: self.uploads.push(
                UploadRecord {
                    id: (self.uploads.len() + 1) as i64,
                    post_id,
                    extension,
                    size,
                    creation_date,
                    status: UploadStatus::Initialized,
                    owner_username: self.post_author(post_id),
                },
            ),
            ..self
        }
    }

    /// What every ledger keeps: ids count up from 1, and each upload
    /// belongs to a post of the ledger and is owned by its author.
    pub open spec fn wf(self) -> bool {
        &&& self.uploads.len() <= i64::MAX
        &&& self.post_authors.len() <= i64::MAX
        &&& forall|i: int| 0 <= i < self.uploads.len() ==> (#[trigger] self.uploads[i]).id == i + 1
        &&& forall|i: int|
            0 <= i < self.uploads.len() ==> self.has_post((#[trigger] self.uploads[i]).post_id)
        &&& forall|i: int|
            0 <= i < self.uploads.len() ==> (#[trigger] self.uploads[i]).owner_username
                == self.post_author(self.uploads[i].post_id)
    }
}

/// The upload ledger.
#[derive(Debug)]
pub struct Ledger {
    post_authors: Vec<String>,
    uploads: Vec<UploadFull>,
}

impl View for Ledger {
    type V = LedgerState;

    closed spec fn view(&self) -> LedgerState {
        LedgerState {
            post_authors: Seq::new(self.post_authors@.len(), |i: int| self.post_authors@[i]@),
            uploads: Seq::new(self.uploads@.len(), |i: int| self.uploads@[i]@),
        }
    }
}

/// The message of the error with which a ledger that cannot take another
/// row answers.
pub open spec fn ledger_full_message() -> Seq<char> {
    "the ledger is full"@
}

/// The message of the error with which the ledger answers when a row that
/// must be there is not.
pub open spec fn missing_row_message() -> Seq<char> {
    "no upload with this id"@
}

impl Ledger {
    /// Whether the ledger is one that its functions made.
    pub open spec fn wf(&self) -> bool {
        self@.wf()
    }

    /// A ledger without posts or uploads.
    pub fn new() -> (ledger: Ledger)
        ensures
            ledger.wf(),
            ledger@.post_authors.len() == 0,
            ledger@.uploads.len() == 0,
    {
        Ledger { post_authors: Vec::new(), uploads: Vec::new() }
    }

    /// Records a post written by `author_username` and returns its id, or
    /// `None` where the ledger cannot take another post.
    pub fn add_post(&mut self, author_username: &str) -> (post_id: Option<i64>)
        requires
            old(self).wf(),
        ensures
            final(self).wf(),
            final(self)@.uploads == old(self)@.uploads,
            match post_id {
                Some(post_id) => {
                    &&& old(self)@.post_authors.len() < i64::MAX
                    &&& post_id == old(self)@.post_authors.len() + 1
                    &&& final(self)@.post_authors == old(self)@.post_authors.push(
                        author_username@,
                    )
                },
                None => {
                    &&& old(self)@.post_authors.len() == i64::MAX
                    &&& final(self)@ == old(self)@
                },
            },
    {
        if self.post_authors.len() as u64 >= i64::MAX as u64 {
            return None;
        }
        let post_id: i64 = self.post_authors.len() as i64 + 1;
        self.post_authors.push(String::from_str(author_username));
        proof {
            assert(final(self)@.post_authors =~= old(self)@.post_authors.push(author_username@));
            assert(final(self)@.uploads =~= old(self)@.uploads);
        }
        Some(post_id)
    }

    /// The number of uploads in the ledger.
    pub fn upload_count(&self) -> (count: usize)
        ensures
            count == self@.uploads.len(),
    {
        self.uploads.len()
    }
}

/// The record of upload `id` with the author of its post, or `DoesNotExist`.
pub fn get_upload(id: i64, ledger: &Ledger) -> (result: Result<UploadFull, Error>)
    requires
        ledger.wf(),
    ensures
        match result {
            Ok(upload) => ledger@.has_upload(id) && upload@ == ledger@.upload(id),
            Err(error) => !ledger@.has_upload(id) && error == Error::DoesNotExist,
        },
{
    if id < 1 || id as u64 > ledger.uploads.len() as u64 {
        return Err(Error::DoesNotExist);
    }
    let index: usize = (id - 1) as usize;
    Ok(ledger.uploads[index].clone())
}

/// Whether `user` may create an upload under a post: the post must exist,
/// which it does where `post_author` is the name of its author, and `user`
/// must be that author.
pub fn check_post_author(post_author: Option<&str>, user: &User) -> (result: Result<(), Error>)
    ensures
        result == match post_author {
            None => Err::<(), Error>(Error::DoesNotExist),
            Some(author) => if author@ == user.username@ {
                Ok::<(), Error>(())
            } else {
                Err::<(), Error>(Error::AccessDenied)
            },
        },
{
    match post_author {
        None => Err(Error::DoesNotExist),
        Some(author) => {
            if String::from_str(author) == user.username {
                Ok(())
            } else {
                Err(Error::AccessDenied)
            }
        },
    }
}

/// Creates an upload of `user` under one of their posts.
///
/// Fails with `DoesNotExist` where there is no post `upload.post_id`, with
/// `AccessDenied` where `user` is not its author, and with a persistence
/// error where the ledger cannot take another upload. Otherwise the ledger
/// gets one more record, in `Initialized` and dated `now`, which is returned.
pub fn add_upload(upload: NewUpload<'_>, user: User, ledger: &mut Ledger, now: i64) -> (result:
    Result<Upload, Error>)
    requires
        old(ledger).wf(),
    ensures
        final(ledger).wf(),
        final(ledger)@.post_authors == old(ledger)@.post_authors,
        match result {
            Ok(created) => {
                &&& old(ledger)@.has_post(upload.post_id)
                &&& old(ledger)@.post_author(upload.post_id) == user.username@
                &&& old(ledger)@.uploads.len() < i64::MAX
                &&& final(ledger)@ == old(ledger)@.with_new_upload(
                    option_str_view(upload.extension),
                    upload.size,
                    upload.post_id,
                    now,
                )
                &&& created@ == final(ledger)@.upload(created.id).summary()
                &&& created.id == old(ledger)@.uploads.len() + 1
            },
            Err(error) => {
                &&& final(ledger)@ == old(ledger)@
                &&& if !old(ledger)@.has_post(upload.post_id) {
                    error == Error::DoesNotExist
                } else if old(ledger)@.post_author(upload.post_id) != user.username@ {
                    error == Error::AccessDenied
                } else {
                    &&& old(ledger)@.uploads.len() == i64::MAX
                    &&& error matches Error::Sqlx(message)
                    &&& message@ == ledger_full_message()
                }
            },
        },
{
    let known = upload.post_id >= 1 && upload.post_id as u64 <= ledger.post_authors.len() as u64;
    let post_author: Option<&str> = if known {
        Some(ledger.post_authors[(upload.post_id - 1) as usize].as_str())
    } else {
        None
    };
    match check_post_author(post_author, &user) {
        Ok(_) => {},
        Err(error) => {
            return Err(error);
        },
    }
    let post_index: usize = (upload.post_id - 1) as usize;
    if ledger.uploads.len() as u64 >= i64::MAX as u64 {
        return Err(Error::Sqlx(String::from_str("the ledger is full")));
    }
    let id: i64 = ledger.uploads.len() as i64 + 1;
    let extension: Option<String> = match upload.extension {
        Some(text) => Some(String::from_str(text)),
        None => None,
    };
    let record = UploadFull {
        id,
        extension: clone_option_string(&extension),
        size: upload.size,
        creation_date: now,
        file_status: UploadStatus::Initialized,
        post_id: upload.post_id,
        post_author_username: ledger.post_authors[post_index].clone(),
    };
    ledger.uploads.push(record);
    proof {
        assert(final(ledger)@.uploads =~= old(ledger)@.with_new_upload(
            option_str_view(upload.extension),
            upload.size,
            upload.post_id,
            now,
        ).uploads);
        assert(final(ledger)@.post_authors =~= old(ledger)@.post_authors);
    }
    Ok(
        Upload {
            id,
            extension,
            size: upload.size,
            creation_date: now,
            file_status: UploadStatus::Initialized,
        },
    )
}

/// Tries to move upload `id` to `new_status`.
///
/// The record moves, and `Some(())` is returned, exactly when the state
/// machine has an edge from its status to `new_status`. Where it has none,
/// nothing changes and `None` is returned: a refused move is an answer, not
/// an error. Where there is no upload `id`, a persistence error is returned.
pub fn try_set_upload_status(id: i64, new_status: UploadStatus, ledger: &mut Ledger) -> (result:
    Result<Option<()>, Error>)
    requires
        old(ledger).wf(),
    ensures
        final(ledger).wf(),
        final(ledger)@ == old(ledger)@.after_move(id, new_status),
        match result {
            Ok(Some(_)) => old(ledger)@.can_move(id, new_status),
            Ok(None) => old(ledger)@.has_upload(id) && !old(ledger)@.can_move(id, new_status),
            Err(error) => {
                &&& !old(ledger)@.has_upload(id)
                &&& error matches Error::Sqlx(message)
                &&& message@ == missing_row_message()
            },
        },
{
    if id < 1 || id as u64 > ledger.uploads.len() as u64 {
        return Err(Error::Sqlx(String::from_str("no upload with this id")));
    }
    let index: usize = (id - 1) as usize;
    if !ledger.uploads[index].file_status.can_transition_to(&new_status) {
        return Ok(None);
    }
    ledger.uploads[index].file_status = new_status;
    proof {
        assert(final(ledger)@.uploads =~= old(ledger)@.with_status(id, new_status).uploads);
        assert(final(ledger)@.post_authors =~= old(ledger)@.post_authors);
    }
    Ok(Some(()))
}

/// Tries to move upload `id` to `new_status` and returns its record as it
/// was before the move.
///
/// Fails with `DoesNotExist` where there is no upload `id`. Otherwise as
/// [`try_set_upload_status`]: the record is returned exactly when it moved.
pub fn try_set_upload_status_check_exists(
    id: i64,
    new_status: UploadStatus,
    ledger: &mut Ledger,
) -> (result: Result<Option<UploadFull>, Error>)
    requires
        old(ledger).wf(),
    ensures
        final(ledger).wf(),
        final(ledger)@ == old(ledger)@.after_move(id, new_status),
        match result {
            Ok(Some(before)) => old(ledger)@.can_move(id, new_status) && before@ == old(ledger)@.upload(id),
            Ok(None) => old(ledger)@.has_upload(id) && !old(ledger)@.can_move(id, new_status),
            Err(error) => !old(ledger)@.has_upload(id) && error == Error::DoesNotExist,
        },
{
    if id < 1 || id as u64 > ledger.uploads.len() as u64 {
        return Err(Error::DoesNotExist);
    }
    let index: usize = (id - 1) as usize;
    if !ledger.uploads[index].file_status.can_transition_to(&new_status) {
        return Ok(None);
    }
    let before = ledger.uploads[index].clone();
    ledger.uploads[index].file_status = new_status;
    proof {
        assert(final(ledger)@.uploads =~= old(ledger)@.with_status(id, new_status).uploads);
        assert(final(ledger)@.post_authors =~= old(ledger)@.post_authors);
    }
    Ok(Some(before))
}

/// Whether the sweeper is to reclaim an upload: it is neither published,
/// hidden nor missing, and it is older than `max_age` or was claimed by a
/// sweep that did not finish.
pub open spec fn is_sweep_candidate(record: UploadRecord, now: i64, max_age: u64) -> bool {
    &&& record.status != UploadStatus::Published
    &&& record.status != UploadStatus::Hidden
    &&& record.status != UploadStatus::Missing
    &&& (now - record.creation_date > max_age || record.status == UploadStatus::Hiding)
}

/// The number of candidates among the first `upto` records.
pub open spec fn candidates_before(
    uploads: Seq<UploadRecord>,
    upto: int,
    now: i64,
    max_age: u64,
) -> nat
    decreases upto,
{
    if upto <= 0 {
        0
    } else {
        candidates_before(uploads, upto - 1, now, max_age) + if is_sweep_candidate(
            uploads[upto - 1],
            now,
            max_age,
        ) {
            1nat
        } else {
            0nat
        }
    }
}

/// Whether the record at `index` is on the page of `limit` candidates that
/// starts after `offset` candidates, the candidates taken in the order of
/// their ids.
pub open spec fn is_claimed(
    uploads: Seq<UploadRecord>,
    index: int,
    offset: int,
    limit: int,
    now: i64,
    max_age: u64,
) -> bool {
    &&& is_sweep_candidate(uploads[index], now, max_age)
    &&& offset <= candidates_before(uploads, index, now, max_age) < offset + limit
}

/// The records after the candidates of a page were claimed: each of them
/// is in `Hiding`, and nothing else changed.
pub open spec fn after_claim(
    uploads: Seq<UploadRecord>,
    offset: int,
    limit: int,
    now: i64,
    max_age: u64,
) -> Seq<UploadRecord> {
    Seq::new(
        uploads.len(),
        |i: int|
            if is_claimed(uploads, i, offset, limit, now, max_age) {
                uploads[i].with_status(UploadStatus::Hiding)
            } else {
                uploads[i]
            },
    )
}

/// The claimed candidates among the first `upto` records, in the order of
/// their ids and as they are after the claim.
pub open spec fn claimed_items(
    uploads: Seq<UploadRecord>,
    upto: int,
    offset: int,
    limit: int,
    now: i64,
    max_age: u64,
) -> Seq<UploadSummary>
    decreases upto,
{
    if upto <= 0 {
        Seq::empty()
    } else {
        let rest = claimed_items(uploads, upto - 1, offset, limit, now, max_age);
        if is_claimed(uploads, upto - 1, offset, limit, now, max_age) {
            rest.push(uploads[upto - 1].with_status(UploadStatus::Hiding).summary())
        } else {
            rest
        }
    }
}

/// The records after the uploads named in `ids` were hidden: each of them
/// that was in `Hiding` is in `Hidden`, and nothing else changed.
pub open spec fn after_hide(uploads: Seq<UploadRecord>, ids: Seq<i64>) -> Seq<UploadRecord> {
    Seq::new(
        uploads.len(),
        |i: int|
            if ids.contains(uploads[i].id) && uploads[i].status == UploadStatus::Hiding {
                uploads[i].with_status(UploadStatus::Hidden)
            } else {
                uploads[i]
            },
    )
}

/// The views of a sequence of uploads.
pub open spec fn upload_views(items: Seq<Upload>) -> Seq<UploadSummary> {
    Seq::new(items.len(), |i: int| items[i]@)
}

/// Whether the records `after` are the records `before` with nothing but
/// statuses changed, followed by records that are new.
pub open spec fn only_statuses_changed(before: Seq<UploadRecord>, after: Seq<UploadRecord>)
    -> bool {
    &&& before.len() <= after.len()
    &&& forall|i: int|
        0 <= i < before.len() ==> #[trigger] after[i] == before[i].with_status(after[i].status)
}

/// No operation of the ledger removes a record or changes anything of it
/// but its status: the id, the size, the extension, the date of creation, the
/// post and the owner of an upload are what they were when it was created.
/// Each operation also leaves the ledger well formed.
pub proof fn lemma_records_are_kept(
    state: LedgerState,
    id: i64,
    status: UploadStatus,
    extension: Option<Seq<char>>,
    size: i64,
    post_id: i64,
    offset: int,
    limit: int,
    ids: Seq<i64>,
    now: i64,
    max_age: u64,
)
    requires
        state.wf(),
    ensures
        only_statuses_changed(state.uploads, state.after_move(id, status).uploads),
        state.after_move(id, status).wf(),
        only_statuses_changed(
            state.uploads,
            state.with_new_upload(extension, size, post_id, now).uploads,
        ),
        state.has_post(post_id) && state.uploads.len() < i64::MAX ==> state.with_new_upload(
            extension,
            size,
            post_id,
            now,
        ).wf(),
        only_statuses_changed(state.uploads, after_claim(state.uploads, offset, limit, now, max_age)),
        (LedgerState {
            uploads: after_claim(state.uploads, offset, limit, now, max_age),
            ..state
        }).wf(),
        only_statuses_changed(state.uploads, after_hide(state.uploads, ids)),
        (LedgerState { uploads: after_hide(state.uploads, ids), ..state }).wf(),
{
    let claimed = after_claim(state.uploads, offset, limit, now, max_age);
    assert forall|i: int| 0 <= i < state.uploads.len() implies #[trigger] claimed[i]
        == state.uploads[i].with_status(claimed[i].status) by {}
    let hidden = after_hide(state.uploads, ids);
    assert forall|i: int| 0 <= i < state.uploads.len() implies #[trigger] hidden[i]
        == state.uploads[i].with_status(hidden[i].status) by {}
    let claimed_state = LedgerState { uploads: claimed, ..state };
    assert forall|i: int| 0 <= i < claimed.len() implies (#[trigger] claimed[i]).id == i + 1
        && claimed_state.has_post(claimed[i].post_id) && claimed[i].owner_username
        == claimed_state.post_author(claimed[i].post_id) by {
        assert(state.uploads[i].id == i + 1);
    }
    let hidden_state = LedgerState { uploads: hidden, ..state };
    assert forall|i: int| 0 <= i < hidden.len() implies (#[trigger] hidden[i]).id == i + 1
        && hidden_state.has_post(hidden[i].post_id) && hidden[i].owner_username
        == hidden_state.post_author(hidden[i].post_id) by {
        assert(state.uploads[i].id == i + 1);
    }
    let moved = state.after_move(id, status);
    assert forall|i: int| 0 <= i < moved.uploads.len() implies (#[trigger] moved.uploads[i]).id
        == i + 1 && moved.has_post(moved.uploads[i].post_id) && moved.uploads[i].owner_username
        == moved.post_author(moved.uploads[i].post_id) by {
        assert(state.uploads[i].id == i + 1);
    }
    let grown = state.with_new_upload(extension, size, post_id, now);
    if state.has_post(post_id) && state.uploads.len() < i64::MAX {
        assert forall|i: int| 0 <= i < grown.uploads.len() implies (#[trigger] grown.uploads[i]).id
            == i + 1 && grown.has_post(grown.uploads[i].post_id)
            && grown.uploads[i].owner_username == grown.post_author(grown.uploads[i].post_id) by {
            if i < state.uploads.len() {
                assert(state.uploads[i].id == i + 1);
            }
        }
    }
}

/// There are no more candidates than records.
pub proof fn lemma_candidates_bounded(
    uploads: Seq<UploadRecord>,
    upto: int,
    now: i64,
    max_age: u64,
)
    requires
        0 <= upto,
    ensures
        candidates_before(uploads, upto, now, max_age) <= upto,
    decreases upto,
{
    if upto > 0 {
        lemma_candidates_bounded(uploads, upto - 1, now, max_age);
    }
}

fn is_candidate(record: &UploadFull, now: i64, max_age: u64) -> (candidate: bool)
    ensures
        candidate == is_sweep_candidate(record@, now, max_age),
{
    let age: i128 = now as i128 - record.creation_date as i128;
    let in_progress = match record.file_status {
        UploadStatus::Published => false,
        UploadStatus::Hidden => false,
        UploadStatus::Missing => false,
        _ => true,
    };
    let claimed = match record.file_status {
        UploadStatus::Hiding => true,
        _ => false,
    };
    in_progress && (age > max_age as i128 || claimed)
}

/// The number of uploads that the sweeper is to reclaim.
pub fn count_old_in_progress_uploads(ledger: &Ledger, max_age: u64, now: i64) -> (count: u64)
    requires
        ledger.wf(),
    ensures
        count == candidates_before(ledger@.uploads, ledger@.uploads.len() as int, now, max_age),
{
    let mut count: u64 = 0;
    let mut index: usize = 0;
    while index < ledger.uploads.len()
        invariant
            index <= ledger.uploads@.len(),
            count == candidates_before(ledger@.uploads, index as int, now, max_age),
            count <= index,
        decreases ledger.uploads@.len() - index,
    {
        if is_candidate(&ledger.uploads[index], now, max_age) {
            count = count + 1;
        }
        index = index + 1;
    }
    count
}

/// Claims one page of the uploads that the sweeper is to reclaim.
///
/// The candidates are taken in the order of their ids and cut into pages of
/// `page_params.page_size`. Those on the page asked for are moved to
/// `Hiding` and returned as they then are, with the counts of the listing
/// as it was before the claim. Where the page size is zero or the offset does
/// not fit, the result is `InvalidPagination`; where there is no such page,
/// `PageDoesNotExist`; in both cases nothing changes.
pub fn list_old_in_progress_uploads_and_set_hiding(
    ledger: &mut Ledger,
    page_params: PageParams,
    max_age: u64,
    now: i64,
) -> (result: Result<Page<Upload>, Error>)
    requires
        old(ledger).wf(),
    ensures
        final(ledger).wf(),
        final(ledger)@.post_authors == old(ledger)@.post_authors,
        ({
            let uploads = old(ledger)@.uploads;
            let total = candidates_before(uploads, uploads.len() as int, now, max_age);
            if page_params.page_size == 0 {
                &&& result == Err::<Page<Upload>, Error>(Error::InvalidPagination)
                &&& final(ledger)@ == old(ledger)@
            } else {
                match limit_offset_and_page_id(
                    page_params,
                    page_count_of(total as u64, page_params.page_size) as u64,
                ) {
                    Err(error) => {
                        &&& result == Err::<Page<Upload>, Error>(error)
                        &&& final(ledger)@ == old(ledger)@
                    },
                    Ok((limit, offset, page_id)) => {
                        &&& result matches Ok(page)
                        &&& upload_views(page.items@) == claimed_items(
                            uploads,
                            uploads.len() as int,
                            offset as int,
                            limit as int,
                            now,
                            max_age,
                        )
                        &&& page.page_id == page_id
                        &&& page.page_size == page_params.page_size
                        &&& page.page_count == page_count_of(total as u64, page_params.page_size)
                        &&& page.total_item_count == total
                        &&& final(ledger)@.uploads == after_claim(
                            uploads,
                            offset as int,
                            limit as int,
                            now,
                            max_age,
                        )
                    },
                }
            }
        }),
{
    let total: u64 = count_old_in_progress_uploads(ledger, max_age, now);
    let window = match page_params.get_window(total) {
        Ok(window) => window,
        Err(error) => {
            return Err(error);
        },
    };
    let limit: i64 = window.limit;
    let offset: i64 = window.offset;
    let ghost uploads = old(ledger)@.uploads;
    let mut items: Vec<Upload> = Vec::new();
    let mut rank: u64 = 0;
    let mut index: usize = 0;
    while index < ledger.uploads.len()
        invariant
            uploads == old(ledger)@.uploads,
            old(ledger).wf(),
            0 <= limit,
            0 <= offset,
            index <= ledger.uploads@.len(),
            ledger@.uploads.len() == uploads.len(),
            ledger@.post_authors == old(ledger)@.post_authors,
            rank == candidates_before(uploads, index as int, now, max_age),
            rank <= index,
            forall|j: int|
                0 <= j < index ==> #[trigger] ledger@.uploads[j] == after_claim(
                    uploads,
                    offset as int,
                    limit as int,
                    now,
                    max_age,
                )[j],
            forall|j: int| index <= j < uploads.len() ==> #[trigger] ledger@.uploads[j] == uploads[j],
            upload_views(items@) == claimed_items(
                uploads,
                index as int,
                offset as int,
                limit as int,
                now,
                max_age,
            ),
        decreases ledger.uploads@.len() - index,
    {
        let ghost before = ledger@;
        let ghost items_before = items@;
        if is_candidate(&ledger.uploads[index], now, max_age) {
            if rank >= (offset as u64) && rank - (offset as u64) < (limit as u64) {
                proof {
                    assert(before.uploads[index as int] == uploads[index as int]);
                }
                ledger.uploads[index].file_status = UploadStatus::Hiding;
                let item = ledger.uploads[index].to_upload();
                items.push(item);
                proof {
                    assert(ledger@.uploads[index as int] == uploads[index as int].with_status(
                        UploadStatus::Hiding,
                    ));
                    assert(upload_views(items@) =~= upload_views(items_before).push(
                        uploads[index as int].with_status(UploadStatus::Hiding).summary(),
                    ));
                }
            }
            rank = rank + 1;
        }
        proof {
            assert(ledger@.post_authors =~= before.post_authors);
            assert forall|j: int| index < j < uploads.len() implies #[trigger] ledger@.uploads[j]
                == uploads[j] by {
                assert(ledger@.uploads[j] == before.uploads[j]);
            }
            assert forall|j: int| 0 <= j < index implies #[trigger] ledger@.uploads[j]
                == after_claim(uploads, offset as int, limit as int, now, max_age)[j] by {
                assert(ledger@.uploads[j] == before.uploads[j]);
            }
            assert(before.uploads[index as int] == uploads[index as int]);
        }
        index = index + 1;
    }
    proof {
        assert(ledger@.uploads =~= after_claim(
            uploads,
            offset as int,
            limit as int,
            now,
            max_age,
        ));
    }
    Ok(
        Page {
            items,
            page_id: window.page_id,
            page_size: page_params.page_size,
            page_count: window.page_count,
            total_item_count: total,
        },
    )
}

/// Moves each of the uploads `ids` that is in `Hiding` to `Hidden`. Ids of
/// uploads in another status, and ids that name no upload, are passed over.
pub fn set_uploads_hidden(ledger: &mut Ledger, ids: Vec<i64>) -> (result: Result<(), Error>)
    requires
        old(ledger).wf(),
    ensures
        final(ledger).wf(),
        result.is_ok(),
        final(ledger)@.post_authors == old(ledger)@.post_authors,
        final(ledger)@.uploads == after_hide(old(ledger)@.uploads, ids@),
{
    let ghost uploads = old(ledger)@.uploads;
    let mut position: usize = 0;
    proof {
        assert(ledger@.uploads =~= after_hide(uploads, ids@.take(0)));
    }
    while position < ids.len()
        invariant
            uploads == old(ledger)@.uploads,
            old(ledger).wf(),
            position <= ids@.len(),
            ledger@.uploads.len() == uploads.len(),
            ledger@.post_authors == old(ledger)@.post_authors,
            ledger@.uploads == after_hide(uploads, ids@.take(position as int)),
        decreases ids@.len() - position,
    {
        let id: i64 = ids[position];
        let ghost before = ledger@;
        if id >= 1 && id as u64 <= ledger.uploads.len() as u64 {
            let index: usize = (id - 1) as usize;
            if ledger.uploads[index].file_status.can_transition_to(&UploadStatus::Hidden) {
                ledger.uploads[index].file_status = UploadStatus::Hidden;
            }
        }
        proof {
            let done = ids@.take(position as int);
            let next = ids@.take(position + 1);
            assert(next =~= done.push(id));
            assert forall|x: i64| next.contains(x) <==> (done.contains(x) || x == id) by {
                if done.contains(x) {
                    let k = choose|k: int| 0 <= k < done.len() && done[k] == x;
                    assert(next[k] == x);
                }
                if x == id {
                    assert(next[position as int] == x);
                }
            }
            assert(ledger@.post_authors =~= before.post_authors);
            assert forall|i: int| 0 <= i < uploads.len() implies #[trigger] ledger@.uploads[i]
                == after_hide(uploads, next)[i] by {
                assert(uploads[i].id == i + 1);
                assert(before.uploads[i] == after_hide(uploads, done)[i]);
                assert(next.contains(uploads[i].id) <==> (done.contains(uploads[i].id)
                    || uploads[i].id == id));
                if i == id - 1 {
                } else {
                    assert(ledger@.uploads[i] == before.uploads[i]);
                }
            }
            assert(ledger@.uploads =~= after_hide(uploads, next));
        }
        position = position + 1;
    }
    proof {
        assert(ids@.take(ids@.len() as int) =~= ids@);
    }
    Ok(())
}

} // verus!
