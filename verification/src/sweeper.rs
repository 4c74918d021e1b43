//! The sweeper: one pass over the ledger that reclaims uploads which were
//! abandoned before they were published, or whose removal did not finish.
//!
//! A pass claims the candidates page by page. For each claimed upload it has
//! the storage remove the files, and it then marks as hidden those whose
//! files are gone. An upload whose files could not be removed stays claimed,
//! so that the next pass finds it again.

use vstd::prelude::*;
use crate::error::Error;
use crate::ledger::{
    after_claim, after_hide, candidates_before, claimed_items, is_claimed, is_sweep_candidate,
    lemma_candidates_bounded, list_old_in_progress_uploads_and_set_hiding, set_uploads_hidden,
    upload_views, Ledger, Upload, UploadRecord, UploadSummary,
};
use crate::page_stream::{is_last_page, iterate_pages, PageStream};
use crate::pagination::{
    lemma_page_count, limit_offset_and_page_id, page_count_of, Page, PageParams,
};
use crate::status::UploadStatus;
use crate::storage::{clone_option_string, StorageRequest, StorageRequestView};

verus! {

/// What a sweep waits for.
#[derive(Clone, Copy, Debug, PartialEq, Eq, Structural)]
pub enum SweepPhase {
    /// A page of candidates.
    Claiming,
    /// The removal of the files of one upload of the page.
    Unpublishing,
    /// The ledger to mark the uploads of the page as hidden.
    Hiding,
    /// Nothing: the pass is over.
    Finished,
}

/// What a sweep asks its runner to do next.
#[derive(Debug, PartialEq, Eq)]
pub enum SweepAction {
    /// Claim the page of candidates that these parameters name.
    ClaimPage(PageParams),
    /// Have the storage remove the files of an upload.
    Unpublish(StorageRequest),
    /// Mark these uploads as hidden.
    SetHidden(Vec<i64>),
    /// End the pass with this result.
    Finish(Result<(), Error>),
}

/// The result of the action that a sweep asked for.
#[derive(Debug, PartialEq, Eq)]
pub enum SweepEvent {
    Claimed(Result<Page<Upload>, Error>),
    Unpublished(Result<(), Error>),
    HiddenSet(Result<(), Error>),
}

/// One pass of the sweeper.
#[derive(Debug)]
pub struct Sweeper {
    stream: PageStream,
    phase: SweepPhase,
    items: Vec<Upload>,
    position: usize,
    hidden: Vec<i64>,
}

/// A sweep as contracts speak of it.
pub struct SweeperState {
    /// The size of the pages that the pass claims.
    pub page_size: u64,
    /// The page to claim next.
    pub next_page_id: u64,
    /// Whether the page in hand is the last one.
    pub last_page: bool,
    /// What the pass waits for.
    pub phase: SweepPhase,
    /// The uploads of the page in hand.
    pub items: Seq<UploadSummary>,
    /// How many uploads of the page the storage was asked to remove.
    pub position: int,
    /// The uploads of the page whose files are gone.
    pub hidden: Seq<i64>,
}

/// An action of a sweep as contracts speak of it.
pub enum SweepActionView {
    ClaimPage(PageParams),
    Unpublish(StorageRequestView),
    SetHidden(Seq<i64>),
    Finish(Result<(), Error>),
}

/// The answer to a claim as contracts speak of it: the uploads of the page
/// and the number of pages, or the error.
pub enum ClaimedView {
    Page { items: Seq<UploadSummary>, page_count: u64 },
    Failed(Error),
}

/// An event of a sweep as contracts speak of it.
pub enum SweepEventView {
    Claimed(ClaimedView),
    Unpublished(Result<(), Error>),
    HiddenSet(Result<(), Error>),
}

impl View for SweepAction {
    type V = SweepActionView;

    open spec fn view(&self) -> SweepActionView {
        match *self {
            SweepAction::ClaimPage(params) => SweepActionView::ClaimPage(params),
            SweepAction::Unpublish(request) => SweepActionView::Unpublish(request@),
            SweepAction::SetHidden(ids) => SweepActionView::SetHidden(ids@),
            SweepAction::Finish(result) => SweepActionView::Finish(result),
        }
    }
}

impl View for SweepEvent {
    type V = SweepEventView;

    open spec fn view(&self) -> SweepEventView {
        match *self {
            SweepEvent::Claimed(Ok(page)) => SweepEventView::Claimed(
                ClaimedView::Page {
                    items: upload_views(page.items@),
                    page_count: page.page_count,
                },
            ),
            SweepEvent::Claimed(Err(error)) => SweepEventView::Claimed(ClaimedView::Failed(error)),
            SweepEvent::Unpublished(result) => SweepEventView::Unpublished(result),
            SweepEvent::HiddenSet(result) => SweepEventView::HiddenSet(result),
        }
    }
}

impl View for Sweeper {
    type V = SweeperState;

    closed spec fn view(&self) -> SweeperState {
        SweeperState {
            page_size: self.stream.page_size(),
            next_page_id: self.stream.next_page_id(),
            last_page: self.stream.is_finished(),
            phase: self.phase,
            items: upload_views(self.items@),
            position: self.position as int,
            hidden: self.hidden@,
        }
    }
}

/// A sweep that is over, with the result of the pass.
pub open spec fn finished(state: SweeperState, result: Result<(), Error>) -> (
    SweeperState,
    SweepActionView,
) {
    (SweeperState { phase: SweepPhase::Finished, ..state }, SweepActionView::Finish(result))
}

/// What a sweep does once it has the answer for one upload of its page, or
/// a new page: it asks for the files of the next upload to be removed, or,
/// after the last one, for those whose files are gone to be marked as hidden,
/// and hands over their ids.
pub open spec fn next_on_page(state: SweeperState) -> (SweeperState, SweepActionView) {
    if 0 <= state.position < state.items.len() {
        (
            SweeperState { phase: SweepPhase::Unpublishing, ..state },
            SweepActionView::Unpublish(
                StorageRequestView::Unpublish {
                    id: state.items[state.position].id,
                    extension: state.items[state.position].extension,
                },
            ),
        )
    } else {
        (
            SweeperState { phase: SweepPhase::Hiding, hidden: Seq::empty(), ..state },
            SweepActionView::SetHidden(state.hidden),
        )
    }
}

/// The step that a sweep in `state` takes on `event`.
///
/// A page that was claimed is worked through upload by upload. An upload
/// whose files could not be removed is passed over: it stays claimed. The
/// answer that the page does not exist ends the pass without an error; any
/// other failure of the ledger ends it with that error. After the last page
/// the pass ends.
pub open spec fn sweep_step(state: SweeperState, event: SweepEventView) -> (
    SweeperState,
    SweepActionView,
) {
    match state.phase {
        SweepPhase::Claiming => match event {
            SweepEventView::Claimed(ClaimedView::Page { items, page_count }) => {
                let last_page = is_last_page(state.next_page_id, page_count);
                next_on_page(
                    SweeperState {
                        last_page,
                        next_page_id: if last_page {
                            state.next_page_id
                        } else {
                            (state.next_page_id + 1) as u64
                        },
                        items,
                        position: 0,
                        hidden: Seq::empty(),
                        ..state
                    },
                )
            },
            SweepEventView::Claimed(ClaimedView::Failed(Error::PageDoesNotExist)) => finished(
                SweeperState { last_page: true, ..state },
                Ok(()),
            ),
            SweepEventView::Claimed(ClaimedView::Failed(error)) => finished(
                SweeperState { last_page: true, ..state },
                Err(error),
            ),
            _ => finished(state, Err(Error::Unknown)),
        },
        SweepPhase::Unpublishing => match event {
            SweepEventView::Unpublished(result) => next_on_page(
                SweeperState {
                    position: state.position + 1,
                    hidden: if result.is_ok() {
                        state.hidden.push(state.items[state.position].id)
                    } else {
                        state.hidden
                    },
                    ..state
                },
            ),
            _ => finished(state, Err(Error::Unknown)),
        },
        SweepPhase::Hiding => match event {
            SweepEventView::HiddenSet(Ok(_)) => if state.last_page {
                finished(state, Ok(()))
            } else {
                (
                    SweeperState { phase: SweepPhase::Claiming, ..state },
                    SweepActionView::ClaimPage(
                        PageParams {
                            page_id: Some(state.next_page_id),
                            page_size: state.page_size,
                        },
                    ),
                )
            },
            SweepEventView::HiddenSet(Err(error)) => finished(state, Err(error)),
            _ => finished(state, Err(Error::Unknown)),
        },
        SweepPhase::Finished => finished(state, Err(Error::Unknown)),
    }
}

impl Sweeper {
    /// Whether the sweep is one that its functions made.
    pub closed spec fn wf(&self) -> bool {
        &&& self.position <= self.items@.len()
        &&& self.phase == SweepPhase::Unpublishing ==> self.position < self.items@.len()
        &&& self.phase == SweepPhase::Claiming ==> !self.stream.is_finished()
    }

    /// Starts a pass that claims pages of `page_size` uploads. The pass
    /// asks for page 0.
    pub fn start(page_size: u64) -> (start: (Sweeper, SweepAction))
        ensures
            start.0.wf(),
            start.0@ == (SweeperState {
                page_size,
                next_page_id: 0,
                last_page: false,
                phase: SweepPhase::Claiming,
                items: Seq::empty(),
                position: 0,
                hidden: Seq::empty(),
            }),
            start.1@ == SweepActionView::ClaimPage(
                PageParams { page_id: Some(0), page_size },
            ),
    {
        let sweeper = Sweeper {
            stream: iterate_pages(page_size),
            phase: SweepPhase::Claiming,
            items: Vec::new(),
            position: 0,
            hidden: Vec::new(),
        };
        proof {
            assert(sweeper@.items =~= Seq::empty());
        }
        (sweeper, SweepAction::ClaimPage(PageParams { page_id: Some(0), page_size }))
    }

    /// What the sweep waits for.
    pub fn phase(&self) -> (phase: SweepPhase)
        ensures
            phase == self@.phase,
    {
        self.phase
    }

    /// Takes the result of the action that the sweep asked for last, and
    /// returns where the sweep stands next and what it asks for.
    pub fn step(self, event: SweepEvent) -> (next: (Sweeper, SweepAction))
        requires
            self.wf(),
        ensures
            next.0.wf(),
            (next.0@, next.1@) == sweep_step(self@, event@),
    {
        match self.phase {
            SweepPhase::Claiming => match event {
                SweepEvent::Claimed(outcome) => {
                    let mut stream = self.stream;
                    match stream.advance(outcome) {
                        Some(Ok(page)) => {
                            let sweeper = Sweeper {
                                stream,
                                phase: SweepPhase::Claiming,
                                items: page.items,
                                position: 0,
                                hidden: Vec::new(),
                            };
                            sweeper.next_on_page()
                        },
                        Some(Err(error)) => (
                            Sweeper {
                                stream,
                                phase: SweepPhase::Finished,
                                items: self.items,
                                position: self.position,
                                hidden: self.hidden,
                            },
                            SweepAction::Finish(Err(error)),
                        ),
                        None => (
                            Sweeper {
                                stream,
                                phase: SweepPhase::Finished,
                                items: self.items,
                                position: self.position,
                                hidden: self.hidden,
                            },
                            SweepAction::Finish(Ok(())),
                        ),
                    }
                },
                _ => (
                    Sweeper {
                        stream: self.stream,
                        phase: SweepPhase::Finished,
                        items: self.items,
                        position: self.position,
                        hidden: self.hidden,
                    },
                    SweepAction::Finish(Err(Error::Unknown)),
                ),
            },
            SweepPhase::Unpublishing => match event {
                SweepEvent::Unpublished(result) => {
                    let count: usize = self.items.len();
                    assert(self.position < count);
                    let mut hidden = self.hidden;
                    if result.is_ok() {
                        hidden.push(self.items[self.position].id);
                    }
                    let sweeper = Sweeper {
                        stream: self.stream,
                        phase: SweepPhase::Unpublishing,
                        items: self.items,
                        position: self.position + 1,
                        hidden,
                    };
                    sweeper.next_on_page()
                },
                _ => (
                    Sweeper {
                        stream: self.stream,
                        phase: SweepPhase::Finished,
                        items: self.items,
                        position: self.position,
                        hidden: self.hidden,
                    },
                    SweepAction::Finish(Err(Error::Unknown)),
                ),
            },
            SweepPhase::Hiding => match event {
                SweepEvent::HiddenSet(Ok(_)) => match self.stream.next_params() {
                    Some(params) => (
                        Sweeper {
                            stream: self.stream,
                            phase: SweepPhase::Claiming,
                            items: self.items,
                            position: self.position,
                            hidden: self.hidden,
                        },
                        SweepAction::ClaimPage(params),
                    ),
                    None => (
                        Sweeper {
                            stream: self.stream,
                            phase: SweepPhase::Finished,
                            items: self.items,
                            position: self.position,
                            hidden: self.hidden,
                        },
                        SweepAction::Finish(Ok(())),
                    ),
                },
                SweepEvent::HiddenSet(Err(error)) => (
                    Sweeper {
                        stream: self.stream,
                        phase: SweepPhase::Finished,
                        items: self.items,
                        position: self.position,
                        hidden: self.hidden,
                    },
                    SweepAction::Finish(Err(error)),
                ),
                _ => (
                    Sweeper {
                        stream: self.stream,
                        phase: SweepPhase::Finished,
                        items: self.items,
                        position: self.position,
                        hidden: self.hidden,
                    },
                    SweepAction::Finish(Err(Error::Unknown)),
                ),
            },
            SweepPhase::Finished => (
                Sweeper {
                    stream: self.stream,
                    phase: SweepPhase::Finished,
                    items: self.items,
                    position: self.position,
                    hidden: self.hidden,
                },
                SweepAction::Finish(Err(Error::Unknown)),
            ),
        }
    }

    fn next_on_page(self) -> (next: (Sweeper, SweepAction))
        requires
            self.position <= self.items@.len(),
        ensures
            next.0.wf(),
            (next.0@, next.1@) == next_on_page(self@),
    {
        if self.position < self.items.len() {
            let request = StorageRequest::Unpublish {
                id: self.items[self.position].id,
                extension: clone_option_string(&self.items[self.position].extension),
            };
            (
                Sweeper {
                    stream: self.stream,
                    phase: SweepPhase::Unpublishing,
                    items: self.items,
                    position: self.position,
                    hidden: self.hidden,
                },
                SweepAction::Unpublish(request),
            )
        } else {
            let ids = self.hidden;
            (
                Sweeper {
                    stream: self.stream,
                    phase: SweepPhase::Hiding,
                    items: self.items,
                    position: self.position,
                    hidden: Vec::new(),
                },
                SweepAction::SetHidden(ids),
            )
        }
    }
}

/// What a pass may have done to the records `before` when they are
/// `after`: a record that was no candidate is as it was, and a candidate is
/// as it was but for its status, which is the one it had, `Hiding` or
/// `Hidden`. So no candidate is lost: it is hidden or still a candidate.
pub open spec fn sweep_progress(
    before: Seq<UploadRecord>,
    after: Seq<UploadRecord>,
    now: i64,
    max_age: u64,
) -> bool {
    &&& after.len() == before.len()
    &&& forall|i: int|
        0 <= i < before.len() ==> {
            ||| #[trigger] after[i] == before[i]
            ||| {
                &&& is_sweep_candidate(before[i], now, max_age)
                &&& (after[i] == before[i].with_status(UploadStatus::Hiding) || after[i]
                    == before[i].with_status(UploadStatus::Hidden))
            }
        }
}

/// The records after the candidates on page `page_id` were claimed and
/// hidden.
pub open spec fn hide_page(
    uploads: Seq<UploadRecord>,
    page_id: u64,
    page_size: u64,
    now: i64,
    max_age: u64,
) -> Seq<UploadRecord> {
    Seq::new(
        uploads.len(),
        |i: int|
            if is_claimed(uploads, i, page_id * page_size, page_size as int, now, max_age) {
                uploads[i].with_status(UploadStatus::Hidden)
            } else {
                uploads[i]
            },
    )
}

/// The records after a pass that is about to claim page `page_id` has run
/// to its end, where the storage removes every file it is asked to.
///
/// The pass hides the candidates on the page and goes on to the next page
/// of what is then left, until the listing has no page of that number.
pub open spec fn swept_from(
    uploads: Seq<UploadRecord>,
    page_id: u64,
    page_size: u64,
    now: i64,
    max_age: u64,
) -> Seq<UploadRecord>
    decreases u64::MAX - page_id,
{
    let total = candidates_before(uploads, uploads.len() as int, now, max_age);
    let page_count = page_count_of(total as u64, page_size);
    if page_id >= page_count {
        uploads
    } else {
        let hidden = hide_page(uploads, page_id, page_size, now, max_age);
        if page_id + 1 >= page_count || page_id == u64::MAX {
            hidden
        } else {
            swept_from(hidden, (page_id + 1) as u64, page_size, now, max_age)
        }
    }
}

/// The records with every candidate hidden.
pub open spec fn all_hidden(uploads: Seq<UploadRecord>, now: i64, max_age: u64) -> Seq<
    UploadRecord,
> {
    Seq::new(
        uploads.len(),
        |i: int|
            if is_sweep_candidate(uploads[i], now, max_age) {
                uploads[i].with_status(UploadStatus::Hidden)
            } else {
                uploads[i]
            },
    )
}

/// The ids of a sequence of uploads.
pub open spec fn item_ids(items: Seq<UploadSummary>) -> Seq<i64> {
    Seq::new(items.len(), |i: int| items[i].id)
}

/// The request that a pass makes of the storage for a record that it
/// claimed: to remove the files of the upload.
pub open spec fn unpublish_request(record: UploadRecord) -> StorageRequestView {
    StorageRequestView::Unpublish { id: record.id, extension: record.extension }
}

/// Whether `storage`, asked to remove the files of `record`, may answer
/// that it did (`removed`) or that it could not (`!removed`).
pub open spec fn may_answer<S: Fn(&StorageRequest) -> Result<(), Error>>(
    storage: S,
    record: UploadRecord,
    removed: bool,
) -> bool {
    exists|request: StorageRequest, stored: Result<(), Error>|
        #[trigger] storage.ensures((&request,), stored) && request@ == unpublish_request(record)
            && stored.is_ok() == removed
}

/// The records after the candidates on page `page_id` were claimed and the
/// storage was asked to remove the files of each. `removed` holds, as pairs
/// of a page and an id, the uploads of which the storage said that the files
/// are gone: those are hidden, and the others stay claimed.
pub open spec fn hide_page_with(
    uploads: Seq<UploadRecord>,
    page_id: u64,
    page_size: u64,
    now: i64,
    max_age: u64,
    removed: Set<(u64, i64)>,
) -> Seq<UploadRecord> {
    Seq::new(
        uploads.len(),
        |i: int|
            if is_claimed(uploads, i, page_id * page_size, page_size as int, now, max_age) {
                if removed.contains((page_id, uploads[i].id)) {
                    uploads[i].with_status(UploadStatus::Hidden)
                } else {
                    uploads[i].with_status(UploadStatus::Hiding)
                }
            } else {
                uploads[i]
            },
    )
}

/// The uploads that page `page_id` claims, as pairs of the page and an id.
pub open spec fn asked_on_page(
    uploads: Seq<UploadRecord>,
    page_id: u64,
    page_size: u64,
    now: i64,
    max_age: u64,
) -> Set<(u64, i64)> {
    Set::new(
        |key: (u64, i64)|
            key.0 == page_id && exists|i: int|
                0 <= i < uploads.len() && is_claimed(
                    uploads,
                    i,
                    page_id * page_size,
                    page_size as int,
                    now,
                    max_age,
                ) && #[trigger] uploads[i].id == key.1,
    )
}

/// How a pass ends: the records it leaves, and the uploads of which it
/// asked the storage to remove the files, each with the page that claimed it.
pub struct PassEnd {
    pub uploads: Seq<UploadRecord>,
    pub asked: Set<(u64, i64)>,
}

/// How a pass that is about to claim page `page_id` ends, where `removed`
/// holds the uploads of which the storage says that their files are gone.
///
/// The pass claims the candidates on the page, hides those whose files are
/// gone, leaves the others claimed, and goes on to the next page of what is
/// then left, until the listing has no page of that number. A removal that
/// fails ends neither the page nor the pass.
pub open spec fn pass_with(
    uploads: Seq<UploadRecord>,
    page_id: u64,
    page_size: u64,
    now: i64,
    max_age: u64,
    removed: Set<(u64, i64)>,
) -> PassEnd
    decreases u64::MAX - page_id,
{
    let total = candidates_before(uploads, uploads.len() as int, now, max_age);
    let page_count = page_count_of(total as u64, page_size);
    if page_id >= page_count {
        PassEnd { uploads, asked: Set::empty() }
    } else {
        let hidden = hide_page_with(uploads, page_id, page_size, now, max_age, removed);
        let asked = asked_on_page(uploads, page_id, page_size, now, max_age);
        if page_id + 1 >= page_count || page_id == u64::MAX {
            PassEnd { uploads: hidden, asked }
        } else {
            let rest = pass_with(hidden, (page_id + 1) as u64, page_size, now, max_age, removed);
            PassEnd { uploads: rest.uploads, asked: asked.union(rest.asked) }
        }
    }
}

/// Whether each answer that `removed` holds for an upload of `asked` is
/// one that `storage` may give to the request to remove the files of that
/// upload.
pub open spec fn answers_justified<S: Fn(&StorageRequest) -> Result<(), Error>>(
    storage: S,
    start: Seq<UploadRecord>,
    asked: Set<(u64, i64)>,
    removed: Set<(u64, i64)>,
) -> bool {
    forall|key: (u64, i64)| #[trigger]
        asked.contains(key) ==> 1 <= key.1 <= start.len() && may_answer(
            storage,
            start[key.1 - 1],
            removed.contains(key),
        )
}

/// Whether a pass over the records `before` with `storage` may leave them
/// as `after`: `removed` holds answers that the storage may give to what the
/// pass asks of it, and `after` is where the pass ends with those answers.
pub open spec fn pass_outcome<S: Fn(&StorageRequest) -> Result<(), Error>>(
    storage: S,
    before: Seq<UploadRecord>,
    after: Seq<UploadRecord>,
    page_size: u64,
    now: i64,
    max_age: u64,
    removed: Set<(u64, i64)>,
) -> bool {
    let end = pass_with(before, 0, page_size, now, max_age, removed);
    &&& after == end.uploads
    &&& answers_justified(storage, before, end.asked, removed)
}

/// Whether `storage` never fails.
pub open spec fn never_fails<S: Fn(&StorageRequest) -> Result<(), Error>>(storage: S) -> bool {
    forall|request: &StorageRequest, stored: Result<(), Error>|
        storage.ensures((request,), stored) ==> stored.is_ok()
}

/// A claim and the hiding of what it claimed are steps that a pass may
/// take, and so are two such steps one after the other.
pub proof fn lemma_sweep_progress(
    first: Seq<UploadRecord>,
    second: Seq<UploadRecord>,
    offset: int,
    limit: int,
    ids: Seq<i64>,
    now: i64,
    max_age: u64,
)
    ensures
        sweep_progress(first, first, now, max_age),
        sweep_progress(first, after_claim(first, offset, limit, now, max_age), now, max_age),
        sweep_progress(first, after_hide(first, ids), now, max_age),
        sweep_progress(first, second, now, max_age) ==> sweep_progress(
            first,
            after_claim(second, offset, limit, now, max_age),
            now,
            max_age,
        ) && sweep_progress(first, after_hide(second, ids), now, max_age),
{
    if sweep_progress(first, second, now, max_age) {
        let claimed = after_claim(second, offset, limit, now, max_age);
        assert forall|i: int| 0 <= i < first.len() implies {
            ||| #[trigger] claimed[i] == first[i]
            ||| {
                &&& is_sweep_candidate(first[i], now, max_age)
                &&& (claimed[i] == first[i].with_status(UploadStatus::Hiding) || claimed[i]
                    == first[i].with_status(UploadStatus::Hidden))
            }
        } by {
            assert(second[i] == first[i] || is_sweep_candidate(first[i], now, max_age));
        }
        let hidden = after_hide(second, ids);
        assert forall|i: int| 0 <= i < first.len() implies {
            ||| #[trigger] hidden[i] == first[i]
            ||| {
                &&& is_sweep_candidate(first[i], now, max_age)
                &&& (hidden[i] == first[i].with_status(UploadStatus::Hiding) || hidden[i]
                    == first[i].with_status(UploadStatus::Hidden))
            }
        } by {
            assert(second[i] == first[i] || is_sweep_candidate(first[i], now, max_age));
        }
    }
}

/// The ids of the uploads that a claim returns are the ids of the records
/// that it claimed.
pub proof fn lemma_claimed_ids(
    uploads: Seq<UploadRecord>,
    upto: int,
    offset: int,
    limit: int,
    now: i64,
    max_age: u64,
    id: i64,
)
    requires
        0 <= upto <= uploads.len(),
    ensures
        item_ids(claimed_items(uploads, upto, offset, limit, now, max_age)).contains(id) <==> exists|
            j: int,
        |
            0 <= j < upto && is_claimed(uploads, j, offset, limit, now, max_age)
                && #[trigger] uploads[j].id == id,
    decreases upto,
{
    if upto > 0 {
        lemma_claimed_ids(uploads, upto - 1, offset, limit, now, max_age, id);
        let rest = claimed_items(uploads, upto - 1, offset, limit, now, max_age);
        let all = claimed_items(uploads, upto, offset, limit, now, max_age);
        if is_claimed(uploads, upto - 1, offset, limit, now, max_age) {
            assert(item_ids(all) =~= item_ids(rest).push(uploads[upto - 1].id));
            if item_ids(all).contains(id) {
                let k = choose|k: int| 0 <= k < item_ids(all).len() && item_ids(all)[k] == id;
                if k < rest.len() {
                    assert(item_ids(rest)[k] == id);
                } else {
                    assert(uploads[upto - 1].id == id);
                }
            }
            if item_ids(rest).contains(id) {
                let k = choose|k: int| 0 <= k < item_ids(rest).len() && item_ids(rest)[k] == id;
                assert(item_ids(all)[k] == id);
            }
            if uploads[upto - 1].id == id {
                assert(item_ids(all)[rest.len() as int] == id);
            }
        }
    }
}

/// Each upload that a claim returns is the record of its id as the claim
/// leaves it, that record is one the claim took, and the uploads come in
/// the order of their ids.
pub proof fn lemma_claimed_items(
    uploads: Seq<UploadRecord>,
    upto: int,
    offset: int,
    limit: int,
    now: i64,
    max_age: u64,
)
    requires
        0 <= upto <= uploads.len(),
        forall|i: int| 0 <= i < uploads.len() ==> (#[trigger] uploads[i]).id == i + 1,
    ensures
        ({
            let items = claimed_items(uploads, upto, offset, limit, now, max_age);
            &&& forall|k: int|
                0 <= k < items.len() ==> {
                    let i = (#[trigger] items[k]).id - 1;
                    &&& 0 <= i < upto
                    &&& is_claimed(uploads, i, offset, limit, now, max_age)
                    &&& items[k] == uploads[i].with_status(UploadStatus::Hiding).summary()
                }
            &&& forall|j: int, k: int|
                0 <= j < k < items.len() ==> (#[trigger] items[j]).id < (#[trigger] items[k]).id
        }),
    decreases upto,
{
    if upto > 0 {
        lemma_claimed_items(uploads, upto - 1, offset, limit, now, max_age);
        let rest = claimed_items(uploads, upto - 1, offset, limit, now, max_age);
        let items = claimed_items(uploads, upto, offset, limit, now, max_age);
        assert(uploads[upto - 1].id == upto);
        if is_claimed(uploads, upto - 1, offset, limit, now, max_age) {
            assert forall|k: int| 0 <= k < items.len() implies {
                let i = (#[trigger] items[k]).id - 1;
                &&& 0 <= i < upto
                &&& is_claimed(uploads, i, offset, limit, now, max_age)
                &&& items[k] == uploads[i].with_status(UploadStatus::Hiding).summary()
            } by {
                if k < rest.len() {
                    assert(items[k] == rest[k]);
                }
            }
            assert forall|j: int, k: int| 0 <= j < k < items.len() implies (#[trigger] items[j]).id
                < (#[trigger] items[k]).id by {
                assert(items[j] == rest[j]);
                if k < rest.len() {
                    assert(items[k] == rest[k]);
                }
            }
        }
    }
}

/// Hiding some of the uploads that a claim returned leaves the records as
/// the page leaves them with the answers of the storage: hidden where the
/// files are gone, claimed where they are not, and untouched otherwise.
pub proof fn lemma_page_hidden_with(
    uploads: Seq<UploadRecord>,
    page_id: u64,
    page_size: u64,
    now: i64,
    max_age: u64,
    ids: Seq<i64>,
    removed: Set<(u64, i64)>,
)
    requires
        forall|i: int| 0 <= i < uploads.len() ==> (#[trigger] uploads[i]).id == i + 1,
        forall|id: i64|
            ids.contains(id) ==> item_ids(
                claimed_items(
                    uploads,
                    uploads.len() as int,
                    page_id * page_size,
                    page_size as int,
                    now,
                    max_age,
                ),
            ).contains(id),
        forall|id: i64| ids.contains(id) == removed.contains((page_id, id)),
    ensures
        after_hide(
            after_claim(uploads, page_id * page_size, page_size as int, now, max_age),
            ids,
        ) == hide_page_with(uploads, page_id, page_size, now, max_age, removed),
{
    let offset = page_id * page_size;
    let limit = page_size as int;
    let claimed = after_claim(uploads, offset, limit, now, max_age);
    let hidden = after_hide(claimed, ids);
    let target = hide_page_with(uploads, page_id, page_size, now, max_age, removed);
    assert forall|i: int| 0 <= i < uploads.len() implies hidden[i] == target[i] by {
        lemma_claimed_ids(uploads, uploads.len() as int, offset, limit, now, max_age, uploads[i].id);
        assert(uploads[i].id == i + 1);
        if !is_claimed(uploads, i, offset, limit, now, max_age) && ids.contains(uploads[i].id) {
            let j = choose|j: int|
                0 <= j < uploads.len() && is_claimed(uploads, j, offset, limit, now, max_age)
                    && #[trigger] uploads[j].id == uploads[i].id;
            assert(uploads[j].id == j + 1);
        }
    }
    assert(hidden =~= target);
}

/// Where the storage removes the files of every upload it is asked about,
/// the pass ends as [`swept_from`] says.
pub proof fn lemma_pass_without_failures(
    uploads: Seq<UploadRecord>,
    page_id: u64,
    page_size: u64,
    now: i64,
    max_age: u64,
    removed: Set<(u64, i64)>,
)
    requires
        forall|key: (u64, i64)|
            pass_with(uploads, page_id, page_size, now, max_age, removed).asked.contains(key)
                ==> removed.contains(key),
    ensures
        pass_with(uploads, page_id, page_size, now, max_age, removed).uploads == swept_from(
            uploads,
            page_id,
            page_size,
            now,
            max_age,
        ),
    decreases u64::MAX - page_id,
{
    let total = candidates_before(uploads, uploads.len() as int, now, max_age);
    let page_count = page_count_of(total as u64, page_size);
    if page_id < page_count {
        let with = hide_page_with(uploads, page_id, page_size, now, max_age, removed);
        let all = hide_page(uploads, page_id, page_size, now, max_age);
        let asked = asked_on_page(uploads, page_id, page_size, now, max_age);
        assert forall|i: int| 0 <= i < uploads.len() implies with[i] == all[i] by {
            if is_claimed(uploads, i, page_id * page_size, page_size as int, now, max_age) {
                assert(asked.contains((page_id, uploads[i].id)));
            }
        }
        assert(with =~= all);
        if !(page_id + 1 >= page_count || page_id == u64::MAX) {
            lemma_pass_without_failures(
                with,
                (page_id + 1) as u64,
                page_size,
                now,
                max_age,
                removed,
            );
        }
    }
}

/// A candidate comes before the end of the listing of the candidates.
pub proof fn lemma_candidate_rank(
    uploads: Seq<UploadRecord>,
    index: int,
    upto: int,
    now: i64,
    max_age: u64,
)
    requires
        0 <= index < upto <= uploads.len(),
    ensures
        candidates_before(uploads, index, now, max_age) <= candidates_before(
            uploads,
            upto,
            now,
            max_age,
        ),
        is_sweep_candidate(uploads[index], now, max_age) ==> candidates_before(
            uploads,
            index,
            now,
            max_age,
        ) < candidates_before(uploads, upto, now, max_age),
    decreases upto - index,
{
    if upto > index + 1 {
        lemma_candidate_rank(uploads, index, upto - 1, now, max_age);
    }
}

/// Where no record is a candidate, the listing of the candidates is empty,
/// and the other way round.
pub proof fn lemma_no_candidates(uploads: Seq<UploadRecord>, upto: int, now: i64, max_age: u64)
    requires
        0 <= upto <= uploads.len(),
    ensures
        candidates_before(uploads, upto, now, max_age) == 0 <==> forall|i: int|
            0 <= i < upto ==> !is_sweep_candidate(#[trigger] uploads[i], now, max_age),
    decreases upto,
{
    if upto > 0 {
        lemma_no_candidates(uploads, upto - 1, now, max_age);
    }
}

/// Where all candidates fit on one page, one pass hides every candidate
/// and changes nothing else, provided that the storage removes every file it
/// is asked to. After that pass there is no candidate left, so that a second
/// pass at the same moment changes nothing.
pub proof fn lemma_one_page_sweep(
    uploads: Seq<UploadRecord>,
    page_size: u64,
    now: i64,
    max_age: u64,
)
    requires
        page_size > 0,
        uploads.len() <= i64::MAX,
        candidates_before(uploads, uploads.len() as int, now, max_age) <= page_size,
    ensures
        swept_from(uploads, 0, page_size, now, max_age) == all_hidden(uploads, now, max_age),
        candidates_before(
            all_hidden(uploads, now, max_age),
            uploads.len() as int,
            now,
            max_age,
        ) == 0,
        swept_from(all_hidden(uploads, now, max_age), 0, page_size, now, max_age) == all_hidden(
            uploads,
            now,
            max_age,
        ),
{
    let total = candidates_before(uploads, uploads.len() as int, now, max_age);
    let hidden = all_hidden(uploads, now, max_age);
    lemma_candidates_bounded(uploads, uploads.len() as int, now, max_age);
    lemma_page_count(total as u64, page_size);
    lemma_no_candidates(uploads, uploads.len() as int, now, max_age);
    lemma_no_candidates(hidden, uploads.len() as int, now, max_age);
    lemma_page_count(0, page_size);
    if total == 0 {
        assert(hidden =~= uploads);
    } else {
        let page_count = page_count_of(total as u64, page_size);
        assert(page_count == 1) by (nonlinear_arith)
            requires
                page_count * page_size >= total,
                (page_count - 1) * page_size < total,
                0 < total <= page_size,
        ;
        assert forall|i: int| 0 <= i < uploads.len() implies hide_page(
            uploads,
            0,
            page_size,
            now,
            max_age,
        )[i] == hidden[i] by {
            lemma_candidate_rank(uploads, i, uploads.len() as int, now, max_age);
        }
        assert(hide_page(uploads, 0, page_size, now, max_age) =~= hidden);
    }
}

/// With a storage that never fails, a pass ends as [`swept_from`] says:
/// no answer that such a storage may give leaves an upload claimed.
pub proof fn lemma_never_failing_storage<S: Fn(&StorageRequest) -> Result<(), Error>>(
    storage: S,
    before: Seq<UploadRecord>,
    after: Seq<UploadRecord>,
    page_size: u64,
    now: i64,
    max_age: u64,
    removed: Set<(u64, i64)>,
)
    requires
        never_fails(storage),
        pass_outcome(storage, before, after, page_size, now, max_age, removed),
    ensures
        after == swept_from(before, 0, page_size, now, max_age),
{
    let end = pass_with(before, 0, page_size, now, max_age, removed);
    assert forall|key: (u64, i64)| end.asked.contains(key) implies removed.contains(key) by {
        if !removed.contains(key) {
            let witness = choose|request: StorageRequest, stored: Result<(), Error>|
                #[trigger] storage.ensures((&request,), stored) && request@ == unpublish_request(
                    before[key.1 - 1],
                ) && stored.is_ok() == false;
            assert(storage.ensures((&witness.0,), witness.1));
        }
    }
    lemma_pass_without_failures(before, 0, page_size, now, max_age, removed);
}

/// Where all candidates fit on one page, a pass asks the storage about
/// every candidate, whatever it is answered on the way: a candidate whose
/// files are gone ends in `Hidden`, one whose files could not be removed
/// ends in `Hiding`, and nothing else changes.
pub proof fn lemma_one_page_pass(
    uploads: Seq<UploadRecord>,
    page_size: u64,
    now: i64,
    max_age: u64,
    removed: Set<(u64, i64)>,
)
    requires
        page_size > 0,
        uploads.len() <= i64::MAX,
        0 < candidates_before(uploads, uploads.len() as int, now, max_age) <= page_size,
    ensures
        pass_with(uploads, 0, page_size, now, max_age, removed) == (PassEnd {
            uploads: hide_page_with(uploads, 0, page_size, now, max_age, removed),
            asked: asked_on_page(uploads, 0, page_size, now, max_age),
        }),
        forall|i: int|
            0 <= i < uploads.len() ==> (is_sweep_candidate(#[trigger] uploads[i], now, max_age)
                <==> is_claimed(uploads, i, 0, page_size as int, now, max_age)),
{
    let total = candidates_before(uploads, uploads.len() as int, now, max_age);
    lemma_candidates_bounded(uploads, uploads.len() as int, now, max_age);
    lemma_page_count(total as u64, page_size);
    let page_count = page_count_of(total as u64, page_size);
    assert(page_count == 1) by (nonlinear_arith)
        requires
            page_count * page_size >= total,
            (page_count - 1) * page_size < total,
            0 < total <= page_size,
    ;
    assert forall|i: int| 0 <= i < uploads.len() implies (is_sweep_candidate(
        #[trigger] uploads[i],
        now,
        max_age,
    ) <==> is_claimed(uploads, i, 0, page_size as int, now, max_age)) by {
        lemma_candidate_rank(uploads, i, uploads.len() as int, now, max_age);
    }
}

/// Whether a pass over `uploads` in pages of `page_size` fails: a page
/// size of zero names no page, and one beyond `i64::MAX` fits no query once
/// there is something to claim.
pub open spec fn pass_fails(uploads: Seq<UploadRecord>, page_size: u64, now: i64, max_age: u64)
    -> bool {
    page_size == 0 || (page_size > i64::MAX && candidates_before(
        uploads,
        uploads.len() as int,
        now,
        max_age,
    ) > 0)
}

/// Whether `other` holds the same answers as `removed` for the pages below
/// `settled`.
pub open spec fn agrees_below(
    other: Set<(u64, i64)>,
    removed: Set<(u64, i64)>,
    settled: int,
) -> bool {
    forall|key: (u64, i64)| key.0 < settled ==> (other.contains(key) == removed.contains(key))
}

/// Whether a pass that began on `start` and has asked about the uploads
/// `asked`, with the answers `removed`, ends as a pass does that sets out
/// from `current` at page `page_id`, whatever the answers for the pages from
/// `settled` on.
pub open spec fn pass_continues(
    start: Seq<UploadRecord>,
    current: Seq<UploadRecord>,
    page_id: u64,
    asked: Set<(u64, i64)>,
    removed: Set<(u64, i64)>,
    settled: int,
    page_size: u64,
    now: i64,
    max_age: u64,
) -> bool {
    forall|other: Set<(u64, i64)>|
        agrees_below(other, removed, settled) ==> {
            let rest = pass_with(current, page_id, page_size, now, max_age, other);
            #[trigger] pass_with(start, 0, page_size, now, max_age, other) == (PassEnd {
                uploads: rest.uploads,
                asked: asked.union(rest.asked),
            })
        }
}

/// Whether a pass that began on `start` has ended on `current`, having
/// asked about the uploads `asked` with the answers `removed`.
pub open spec fn pass_ended(
    start: Seq<UploadRecord>,
    current: Seq<UploadRecord>,
    asked: Set<(u64, i64)>,
    removed: Set<(u64, i64)>,
    settled: int,
    page_size: u64,
    now: i64,
    max_age: u64,
) -> bool {
    forall|other: Set<(u64, i64)>|
        agrees_below(other, removed, settled) ==> #[trigger] pass_with(
            start,
            0,
            page_size,
            now,
            max_age,
            other,
        ) == (PassEnd { uploads: current, asked })
}

/// What holds of the page in hand while a pass works through it: the
/// records are those at the start of the page with its candidates claimed,
/// the uploads in hand are those candidates, and the pass ends as one does
/// that sets out from the start of the page.
pub open spec fn page_in_hand(
    start: Seq<UploadRecord>,
    uploads: Seq<UploadRecord>,
    state: SweeperState,
    page_start: Seq<UploadRecord>,
    page_id: u64,
    settled: int,
    asked: Set<(u64, i64)>,
    removed: Set<(u64, i64)>,
    now: i64,
    max_age: u64,
) -> bool {
    let page_size = state.page_size;
    let total = candidates_before(page_start, page_start.len() as int, now, max_age);
    let page_count = page_count_of(total as u64, page_size);
    &&& settled == page_id
    &&& sweep_progress(start, page_start, now, max_age)
    &&& forall|i: int| 0 <= i < page_start.len() ==> (#[trigger] page_start[i]).id == i + 1
    &&& uploads == after_claim(
        page_start,
        page_id * page_size,
        page_size as int,
        now,
        max_age,
    )
    &&& state.items == claimed_items(
        page_start,
        page_start.len() as int,
        page_id * page_size,
        page_size as int,
        now,
        max_age,
    )
    &&& page_id < page_count
    &&& state.last_page == (page_id + 1 >= page_count)
    &&& !state.last_page ==> state.next_page_id == page_id + 1
    &&& pass_continues(
        start,
        page_start,
        page_id,
        asked,
        removed,
        settled,
        page_size,
        now,
        max_age,
    )
}

/// What holds between the steps of a pass that began on the records
/// `start` and has brought them to `uploads`. `asked` and `removed` hold what
/// the pass asked of the storage on the pages below `settled` and what it
/// was answered; `page_removed` holds the uploads of the page in hand whose
/// files are gone.
pub open spec fn pass_invariant(
    start: Seq<UploadRecord>,
    uploads: Seq<UploadRecord>,
    state: SweeperState,
    action: SweepActionView,
    page_start: Seq<UploadRecord>,
    page_id: u64,
    settled: int,
    asked: Set<(u64, i64)>,
    removed: Set<(u64, i64)>,
    page_removed: Set<i64>,
    now: i64,
    max_age: u64,
) -> bool {
    let page_size = state.page_size;
    let valid = 1 <= page_size <= i64::MAX;
    &&& sweep_progress(start, uploads, now, max_age)
    &&& forall|key: (u64, i64)| #[trigger] asked.contains(key) ==> key.0 < settled
    &&& forall|key: (u64, i64)| #[trigger] removed.contains(key) ==> asked.contains(key)
    &&& match state.phase {
        SweepPhase::Claiming => {
            &&& action == SweepActionView::ClaimPage(
                PageParams { page_id: Some(state.next_page_id), page_size },
            )
            &&& !state.last_page
            &&& state.next_page_id == page_id
            &&& settled == page_id
            &&& !valid ==> uploads == start && page_id == 0
            &&& pass_continues(
                start,
                uploads,
                page_id,
                asked,
                removed,
                settled,
                page_size,
                now,
                max_age,
            )
        },
        SweepPhase::Unpublishing => {
            &&& valid
            &&& 0 <= state.position < state.items.len()
            &&& action == SweepActionView::Unpublish(
                StorageRequestView::Unpublish {
                    id: state.items[state.position].id,
                    extension: state.items[state.position].extension,
                },
            )
            &&& page_in_hand(
                start,
                uploads,
                state,
                page_start,
                page_id,
                settled,
                asked,
                removed,
                now,
                max_age,
            )
            &&& forall|id: i64| state.hidden.contains(id) <==> page_removed.contains(id)
        },
        SweepPhase::Hiding => {
            &&& valid
            &&& action is SetHidden
            &&& state.position == state.items.len()
            &&& page_in_hand(
                start,
                uploads,
                state,
                page_start,
                page_id,
                settled,
                asked,
                removed,
                now,
                max_age,
            )
            &&& forall|id: i64| action->SetHidden_0.contains(id) <==> page_removed.contains(id)
        },
        SweepPhase::Finished => {
            &&& action is Finish
            &&& if valid {
                action->Finish_0 == Ok::<(), Error>(())
            } else {
                &&& uploads == start
                &&& action->Finish_0 == if pass_fails(start, page_size, now, max_age) {
                    Err::<(), Error>(Error::InvalidPagination)
                } else {
                    Ok::<(), Error>(())
                }
            }
            &&& action->Finish_0 is Ok ==> pass_ended(
                start,
                uploads,
                asked,
                removed,
                settled,
                page_size,
                now,
                max_age,
            )
        },
    }
}

/// Whether the answers that `page_removed` holds for the first `position`
/// uploads of the page in hand are answers that `storage` may give, and
/// `page_removed` holds no other upload.
pub open spec fn page_answers<S: Fn(&StorageRequest) -> Result<(), Error>>(
    storage: S,
    start: Seq<UploadRecord>,
    items: Seq<UploadSummary>,
    position: int,
    page_removed: Set<i64>,
) -> bool {
    &&& forall|k: int|
        0 <= k < position && k < items.len() ==> 1 <= (#[trigger] items[k]).id <= start.len()
            && may_answer(storage, start[items[k].id - 1], page_removed.contains(items[k].id))
    &&& forall|id: i64|
        page_removed.contains(id) ==> exists|k: int|
            0 <= k < position && k < items.len() && (#[trigger] items[k]).id == id
}

/// What the pass asks of the storage for the upload at `position` of a
/// claimed page is to remove the files of the record of that id, as the
/// ledger had it when the pass began.
proof fn lemma_request_for_item(
    start: Seq<UploadRecord>,
    page_start: Seq<UploadRecord>,
    items: Seq<UploadSummary>,
    position: int,
    offset: int,
    limit: int,
    now: i64,
    max_age: u64,
)
    requires
        sweep_progress(start, page_start, now, max_age),
        forall|i: int| 0 <= i < page_start.len() ==> (#[trigger] page_start[i]).id == i + 1,
        items == claimed_items(page_start, page_start.len() as int, offset, limit, now, max_age),
        0 <= position < items.len(),
    ensures
        1 <= items[position].id <= start.len(),
        unpublish_request(start[items[position].id - 1]) == (StorageRequestView::Unpublish {
            id: items[position].id,
            extension: items[position].extension,
        }),
{
    lemma_claimed_items(page_start, page_start.len() as int, offset, limit, now, max_age);
    let index = items[position].id - 1;
    assert(page_start[index].id == start[index].id && page_start[index].extension
        == start[index].extension);
}

/// Taking down the answer of the storage for the upload at `position`
/// leaves the answers for the uploads before it as they were.
proof fn lemma_answer_recorded<S: Fn(&StorageRequest) -> Result<(), Error>>(
    storage: S,
    start: Seq<UploadRecord>,
    page_start: Seq<UploadRecord>,
    items: Seq<UploadSummary>,
    position: int,
    offset: int,
    limit: int,
    page_removed: Set<i64>,
    files_gone: bool,
    now: i64,
    max_age: u64,
)
    requires
        forall|i: int| 0 <= i < page_start.len() ==> (#[trigger] page_start[i]).id == i + 1,
        items == claimed_items(page_start, page_start.len() as int, offset, limit, now, max_age),
        0 <= position < items.len(),
        1 <= items[position].id <= start.len(),
        page_answers(storage, start, items, position, page_removed),
        may_answer(storage, start[items[position].id - 1], files_gone),
    ensures
        page_answers(
            storage,
            start,
            items,
            position + 1,
            if files_gone {
                page_removed.insert(items[position].id)
            } else {
                page_removed
            },
        ),
{
    let item = items[position];
    let recorded = if files_gone {
        page_removed.insert(item.id)
    } else {
        page_removed
    };
    lemma_claimed_items(page_start, page_start.len() as int, offset, limit, now, max_age);
    assert(!page_removed.contains(item.id)) by {
        if page_removed.contains(item.id) {
            let k = choose|k: int|
                0 <= k < position && k < items.len() && (#[trigger] items[k]).id == item.id;
            assert(items[k].id < items[position].id);
        }
    }
    assert forall|k: int| 0 <= k < position + 1 && k < items.len() implies {
        &&& 1 <= (#[trigger] items[k]).id <= start.len()
        &&& may_answer(storage, start[items[k].id - 1], recorded.contains(items[k].id))
    } by {
        if k < position {
            assert(items[k].id < item.id);
            assert(recorded.contains(items[k].id) == page_removed.contains(items[k].id));
        }
    }
    assert forall|id: i64| recorded.contains(id) implies exists|k: int|
        0 <= k < position + 1 && k < items.len() && (#[trigger] items[k]).id == id by {
        if id == item.id {
            assert(items[position].id == id);
        } else {
            let k = choose|k: int|
                0 <= k < position && k < items.len() && (#[trigger] items[k]).id == id;
            assert(items[k].id == id);
        }
    }
}

/// The answers for the uploads of page `page_id`, as pairs of the page and
/// an id.
pub open spec fn answers_of_page(page_id: u64, page_removed: Set<i64>) -> Set<(u64, i64)> {
    Set::new(|key: (u64, i64)| key.0 == page_id && page_removed.contains(key.1))
}

/// Once those uploads of the page in hand whose files are gone are marked
/// as hidden, the page is settled: the records are as the page leaves them
/// with the answers that the storage gave, and the pass ends as one does that
/// sets out from them at the next page, or has ended if this was the last.
proof fn lemma_page_settled<S: Fn(&StorageRequest) -> Result<(), Error>>(
    storage: S,
    start: Seq<UploadRecord>,
    before: Seq<UploadRecord>,
    state: SweeperState,
    ids: Seq<i64>,
    page_start: Seq<UploadRecord>,
    page_id: u64,
    asked: Set<(u64, i64)>,
    removed: Set<(u64, i64)>,
    page_removed: Set<i64>,
    now: i64,
    max_age: u64,
)
    requires
        state.position == state.items.len(),
        page_in_hand(
            start,
            before,
            state,
            page_start,
            page_id,
            page_id as int,
            asked,
            removed,
            now,
            max_age,
        ),
        forall|key: (u64, i64)| #[trigger] asked.contains(key) ==> key.0 < page_id,
        forall|key: (u64, i64)| #[trigger] removed.contains(key) ==> asked.contains(key),
        answers_justified(storage, start, asked, removed),
        page_answers(storage, start, state.items, state.position, page_removed),
        forall|id: i64| ids.contains(id) <==> page_removed.contains(id),
    ensures
        ({
            let page_size = state.page_size;
            let after = after_hide(before, ids);
            let new_removed = removed.union(answers_of_page(page_id, page_removed));
            let new_asked = asked.union(
                asked_on_page(page_start, page_id, page_size, now, max_age),
            );
            &&& answers_justified(storage, start, new_asked, new_removed)
            &&& forall|key: (u64, i64)| #[trigger] new_asked.contains(key) ==> key.0 < page_id + 1
            &&& forall|key: (u64, i64)| #[trigger]
                new_removed.contains(key) ==> new_asked.contains(key)
            &&& state.last_page ==> pass_ended(
                start,
                after,
                new_asked,
                new_removed,
                page_id + 1,
                page_size,
                now,
                max_age,
            )
            &&& !state.last_page ==> pass_continues(
                start,
                after,
                (page_id + 1) as u64,
                new_asked,
                new_removed,
                page_id + 1,
                page_size,
                now,
                max_age,
            )
        }),
{
    let page_size = state.page_size;
    let settled = page_id as int;
    let after = after_hide(before, ids);
    let items = state.items;
    let page = asked_on_page(page_start, page_id, page_size, now, max_age);
    let new_removed = removed.union(answers_of_page(page_id, page_removed));
    let new_asked = asked.union(page);
    lemma_claimed_items(
        page_start,
        page_start.len() as int,
        page_id * page_size,
        page_size as int,
        now,
        max_age,
    );
    assert forall|id: i64| ids.contains(id) implies item_ids(items).contains(id) by {
        assert(page_removed.contains(id));
        let k = choose|k: int|
            0 <= k < state.position && k < items.len() && (#[trigger] items[k]).id == id;
        assert(item_ids(items)[k] == id);
    }
    assert forall|key: (u64, i64)| #[trigger] new_asked.contains(key) implies {
        &&& 1 <= key.1 <= start.len()
        &&& may_answer(storage, start[key.1 - 1], new_removed.contains(key))
    } by {
        if page.contains(key) {
            lemma_claimed_ids(
                page_start,
                page_start.len() as int,
                page_id * page_size,
                page_size as int,
                now,
                max_age,
                key.1,
            );
            let k = choose|k: int| 0 <= k < item_ids(items).len() && item_ids(items)[k] == key.1;
            assert(items[k].id == key.1);
            assert(!removed.contains(key));
        } else {
            assert(asked.contains(key));
        }
    }
    assert forall|key: (u64, i64)| #[trigger] new_removed.contains(key) implies new_asked.contains(
        key,
    ) by {
        if !removed.contains(key) {
            let k = choose|k: int|
                0 <= k < state.position && k < items.len() && (#[trigger] items[k]).id == key.1;
            assert(page_start[items[k].id - 1].id == key.1);
            assert(page.contains(key));
        }
    }
    assert forall|other: Set<(u64, i64)>| agrees_below(other, new_removed, page_id + 1) implies {
        &&& agrees_below(other, removed, settled)
        &&& after == #[trigger] hide_page_with(page_start, page_id, page_size, now, max_age, other)
    } by {
        assert forall|key: (u64, i64)| key.0 < settled implies (other.contains(key)
            == removed.contains(key)) by {
            assert(new_removed.contains(key) == removed.contains(key));
        }
        assert forall|id: i64| ids.contains(id) == other.contains((page_id, id)) by {
            assert(!removed.contains((page_id, id)));
            assert(new_removed.contains((page_id, id)) == page_removed.contains(id));
        }
        lemma_page_hidden_with(page_start, page_id, page_size, now, max_age, ids, other);
    }
    if state.last_page {
        assert forall|other: Set<(u64, i64)>|
            agrees_below(other, new_removed, page_id + 1) implies #[trigger] pass_with(
            start,
            0,
            page_size,
            now,
            max_age,
            other,
        ) == (PassEnd { uploads: after, asked: new_asked }) by {
            assert(after == hide_page_with(page_start, page_id, page_size, now, max_age, other));
            assert(agrees_below(other, removed, settled));
        }
    } else {
        assert forall|other: Set<(u64, i64)>|
            agrees_below(other, new_removed, page_id + 1) implies {
            let rest = pass_with(after, (page_id + 1) as u64, page_size, now, max_age, other);
            #[trigger] pass_with(start, 0, page_size, now, max_age, other) == (PassEnd {
                uploads: rest.uploads,
                asked: new_asked.union(rest.asked),
            })
        } by {
            assert(after == hide_page_with(page_start, page_id, page_size, now, max_age, other));
            assert(agrees_below(other, removed, settled));
            let rest = pass_with(after, (page_id + 1) as u64, page_size, now, max_age, other);
            assert(asked.union(page.union(rest.asked)) =~= new_asked.union(rest.asked));
        }
    }
}

impl SweeperState {
    /// A bound on the steps that the pass may still take, as a triple to be
    /// read in lexicographic order: the pages it may still claim, the rank of
    /// what it waits for, and the uploads of the page it has not asked about.
    pub open spec fn pages_left(self) -> nat {
        if self.last_page {
            0
        } else {
            (u64::MAX - self.next_page_id + 1) as nat
        }
    }

    /// The rank of what the pass waits for.
    pub open spec fn phase_rank(self) -> nat {
        match self.phase {
            SweepPhase::Unpublishing => 3,
            SweepPhase::Hiding => 2,
            SweepPhase::Claiming => 1,
            SweepPhase::Finished => 0,
        }
    }

    /// The uploads of the page in hand that the pass has not asked about.
    pub open spec fn items_left(self) -> nat {
        if self.position <= self.items.len() {
            (self.items.len() - self.position) as nat
        } else {
            0
        }
    }
}

/// Runs one pass of the sweeper over `ledger`, at the moment `now`: the
/// uploads that are older than `max_age` without being published or hidden,
/// and those left in `Hiding`, are claimed in pages of `page_size`; `storage`
/// is asked to remove the files of each; and those whose files are gone are
/// marked as hidden.
///
/// The pass fails with `InvalidPagination`, and changes nothing, where the
/// page size is zero, or is beyond `i64::MAX` while there is something to
/// claim. Otherwise it succeeds, whatever the storage answers, and the
/// ledger ends as [`pass_with`] says for answers that the storage may give:
/// an upload whose files could not be removed stays in `Hiding`, and the pass
/// goes on with the next upload. Where the storage never fails, that is
/// where [`swept_from`] ends.
pub fn run_cleanup_storage_with_pool<S>(
    ledger: &mut Ledger,
    storage: S,
    page_size: u64,
    max_age: u64,
    now: i64,
) -> (result: Result<(), Error>) where S: Fn(&StorageRequest) -> Result<(), Error>
    requires
        old(ledger).wf(),
        forall|request: &StorageRequest| storage.requires((request,)),
    ensures
        final(ledger).wf(),
        final(ledger)@.post_authors == old(ledger)@.post_authors,
        sweep_progress(old(ledger)@.uploads, final(ledger)@.uploads, now, max_age),
        result == if pass_fails(old(ledger)@.uploads, page_size, now, max_age) {
            Err::<(), Error>(Error::InvalidPagination)
        } else {
            Ok::<(), Error>(())
        },
        result.is_err() ==> final(ledger)@ == old(ledger)@,
        result.is_ok() ==> exists|removed: Set<(u64, i64)>|
            pass_outcome(
                storage,
                old(ledger)@.uploads,
                final(ledger)@.uploads,
                page_size,
                now,
                max_age,
                removed,
            ),
        result.is_ok() && never_fails(storage) ==> final(ledger)@.uploads == swept_from(
            old(ledger)@.uploads,
            0,
            page_size,
            now,
            max_age,
        ),
{
    let ghost start = ledger@.uploads;
    let ghost mut page_start = ledger@.uploads;
    let ghost mut page_id: u64 = 0;
    let ghost mut settled: int = 0;
    let ghost mut asked: Set<(u64, i64)> = Set::empty();
    let ghost mut removed: Set<(u64, i64)> = Set::empty();
    let ghost mut page_removed: Set<i64> = Set::empty();
    let (mut sweeper, mut action) = Sweeper::start(page_size);
    proof {
        lemma_sweep_progress(start, start, 0, 0, Seq::empty(), now, max_age);
        assert forall|other: Set<(u64, i64)>| agrees_below(other, removed, settled) implies {
            let rest = pass_with(start, 0, page_size, now, max_age, other);
            #[trigger] pass_with(start, 0, page_size, now, max_age, other) == (PassEnd {
                uploads: rest.uploads,
                asked: asked.union(rest.asked),
            })
        } by {
            let rest = pass_with(start, 0, page_size, now, max_age, other);
            assert(asked.union(rest.asked) =~= rest.asked);
        }
    }
    loop
        invariant
            ledger.wf(),
            old(ledger).wf(),
            start == old(ledger)@.uploads,
            forall|request: &StorageRequest| storage.requires((request,)),
            ledger@.post_authors == old(ledger)@.post_authors,
            sweeper.wf(),
            sweeper@.page_size == page_size,
            answers_justified(storage, start, asked, removed),
            page_answers(storage, start, sweeper@.items, sweeper@.position, page_removed),
            pass_invariant(
                start,
                ledger@.uploads,
                sweeper@,
                action@,
                page_start,
                page_id,
                settled,
                asked,
                removed,
                page_removed,
                now,
                max_age,
            ),
        decreases sweeper@.pages_left(), sweeper@.phase_rank(), sweeper@.items_left(),
    {
        let ghost before = ledger@.uploads;
        let ghost state = sweeper@;
        let ghost requested = action@;
        let ghost page_removed_before = page_removed;
        let ghost mut files_gone = false;
        let event = match action {
            SweepAction::ClaimPage(params) => {
                proof {
                    page_start = ledger@.uploads;
                }
                SweepEvent::Claimed(
                    list_old_in_progress_uploads_and_set_hiding(ledger, params, max_age, now),
                )
            },
            SweepAction::Unpublish(request) => {
                let stored = storage(&request);
                proof {
                    let item = state.items[state.position];
                    lemma_request_for_item(
                        start,
                        page_start,
                        state.items,
                        state.position,
                        page_id * page_size,
                        page_size as int,
                        now,
                        max_age,
                    );
                    assert(may_answer(storage, start[item.id - 1], stored.is_ok()));
                    files_gone = stored.is_ok();
                    if files_gone {
                        page_removed = page_removed.insert(item.id);
                    }
                    lemma_answer_recorded(
                        storage,
                        start,
                        page_start,
                        state.items,
                        state.position,
                        page_id * page_size,
                        page_size as int,
                        page_removed_before,
                        files_gone,
                        now,
                        max_age,
                    );
                }
                SweepEvent::Unpublished(stored)
            },
            SweepAction::SetHidden(ids) => SweepEvent::HiddenSet(set_uploads_hidden(ledger, ids)),
            SweepAction::Finish(result) => {
                proof {
                    if !(1 <= page_size <= i64::MAX) {
                        assert(ledger@.uploads =~= old(ledger)@.uploads);
                    }
                    if result.is_ok() {
                        assert(agrees_below(removed, removed, settled));
                        let end = pass_with(start, 0, page_size, now, max_age, removed);
                        assert(end == (PassEnd { uploads: ledger@.uploads, asked }));
                        assert(pass_outcome(
                            storage,
                            start,
                            ledger@.uploads,
                            page_size,
                            now,
                            max_age,
                            removed,
                        ));
                        if never_fails(storage) {
                            lemma_never_failing_storage(
                                storage,
                                start,
                                ledger@.uploads,
                                page_size,
                                now,
                                max_age,
                                removed,
                            );
                        }
                    }
                }
                return result;
            },
        };
        let ghost answer = event@;
        let (next_sweeper, next_action) = sweeper.step(event);
        proof {
            let after = ledger@.uploads;
            let next = next_sweeper@;
            match state.phase {
                SweepPhase::Claiming => {
                    if next.phase != SweepPhase::Finished {
                        page_removed = Set::empty();
                    }
                    lemma_sweep_progress(
                        start,
                        before,
                        page_id * page_size,
                        page_size as int,
                        Seq::empty(),
                        now,
                        max_age,
                    );
                    if page_size > 0 {
                        lemma_claim_outcome(before, state, now, max_age);
                    }
                    if next.phase == SweepPhase::Finished && next_action@->Finish_0 is Ok {
                        assert forall|other: Set<(u64, i64)>|
                            agrees_below(other, removed, settled) implies #[trigger] pass_with(
                            start,
                            0,
                            page_size,
                            now,
                            max_age,
                            other,
                        ) == (PassEnd { uploads: after, asked }) by {
                            let rest = pass_with(before, page_id, page_size, now, max_age, other);
                            assert(asked.union(rest.asked) =~= asked);
                        }
                    }
                },
                SweepPhase::Unpublishing => {
                    let id = state.items[state.position].id;
                    let hidden = if files_gone {
                        state.hidden.push(id)
                    } else {
                        state.hidden
                    };
                    assert(answer->Unpublished_0.is_ok() == files_gone);
                    assert(if next.phase == SweepPhase::Unpublishing {
                        next.hidden == hidden
                    } else {
                        next_action@->SetHidden_0 == hidden
                    });
                    assert forall|x: i64| hidden.contains(x) <==> page_removed.contains(x) by {
                        if files_gone {
                            assert(hidden[state.hidden.len() as int] == id);
                            if state.hidden.contains(x) {
                                let k = choose|k: int|
                                    0 <= k < state.hidden.len() && state.hidden[k] == x;
                                assert(hidden[k] == x);
                            }
                            if hidden.contains(x) {
                                let k = choose|k: int| 0 <= k < hidden.len() && hidden[k] == x;
                                if k < state.hidden.len() {
                                    assert(state.hidden[k] == x);
                                }
                            }
                        }
                    }
                },
                SweepPhase::Hiding => {
                    let ids = requested->SetHidden_0;
                    lemma_sweep_progress(start, before, 0, 0, ids, now, max_age);
                    lemma_page_settled(
                        storage,
                        start,
                        before,
                        state,
                        ids,
                        page_start,
                        page_id,
                        asked,
                        removed,
                        page_removed,
                        now,
                        max_age,
                    );
                    removed = removed.union(answers_of_page(page_id, page_removed));
                    asked = asked.union(
                        asked_on_page(page_start, page_id, page_size, now, max_age),
                    );
                    settled = page_id + 1;
                    if !state.last_page {
                        page_id = (page_id + 1) as u64;
                    }
                },
                SweepPhase::Finished => {},
            }
        }
        sweeper = next_sweeper;
        action = next_action;
    }
}

/// What a claim for the page that a pass asks for comes to.
proof fn lemma_claim_outcome(
    uploads: Seq<UploadRecord>,
    state: SweeperState,
    now: i64,
    max_age: u64,
)
    requires
        uploads.len() <= i64::MAX,
        state.page_size > 0,
    ensures
        ({
            let page_size = state.page_size;
            let page_id = state.next_page_id;
            let total = candidates_before(uploads, uploads.len() as int, now, max_age);
            let page_count = page_count_of(total as u64, page_size);
            let params = PageParams { page_id: Some(page_id), page_size };
            &&& 0 <= total <= i64::MAX
            &&& 0 <= page_count <= u64::MAX
            &&& page_size <= i64::MAX ==> match limit_offset_and_page_id(params, page_count as u64) {
                Ok((limit, offset, id)) => {
                    &&& limit == page_size
                    &&& offset == page_id * page_size
                    &&& id == page_id
                    &&& page_id < page_count
                },
                Err(error) => error == Error::PageDoesNotExist && page_id >= page_count,
            }
            &&& page_size > i64::MAX && page_id == 0 ==> limit_offset_and_page_id(
                params,
                page_count as u64,
            ) == if total > 0 {
                Err::<(i64, i64, u64), Error>(Error::InvalidPagination)
            } else {
                Err::<(i64, i64, u64), Error>(Error::PageDoesNotExist)
            }
        }),
{
    let page_size = state.page_size;
    let page_id = state.next_page_id;
    let total = candidates_before(uploads, uploads.len() as int, now, max_age);
    lemma_candidates_bounded(uploads, uploads.len() as int, now, max_age);
    lemma_page_count(total as u64, page_size);
    let page_count = page_count_of(total as u64, page_size);
    assert(0 <= page_count <= total) by (nonlinear_arith)
        requires
            page_size >= 1,
            total >= 0,
            total > 0 ==> (page_count - 1) * page_size < total,
            total == 0 ==> page_count == 0,
            page_count * page_size >= total,
    ;
    assert(total > 0 ==> page_count >= 1) by (nonlinear_arith)
        requires
            page_count * page_size >= total,
            page_size >= 1,
    ;
    if page_id < page_count {
        assert(page_id * page_size <= (page_count - 1) * page_size && page_id <= page_id
            * page_size) by (nonlinear_arith)
            requires
                0 <= page_id <= page_count - 1,
                page_size >= 1,
        ;
    }
}

} // verus!
