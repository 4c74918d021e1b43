//! The upload status state machine.

use vstd::prelude::*;
use crate::text::same_text;

verus! {

/// Where an upload stands in its life.
#[derive(Clone, Copy, Debug, PartialEq, Eq, Structural, Hash)]
pub enum UploadStatus {
    Initialized,
    Allocated,
    Writing,
    Publishing,
    Published,
    Hiding,
    Hidden,
    Missing,
}

/// The edges of the state machine: whether a record in `current` may move to
/// `target`.
pub open spec fn transition_allowed(current: UploadStatus, target: UploadStatus) -> bool {
    match target {
        UploadStatus::Initialized => false,
        UploadStatus::Allocated => current == UploadStatus::Initialized || current
            == UploadStatus::Writing,
        UploadStatus::Writing => current == UploadStatus::Allocated,
        UploadStatus::Publishing => current == UploadStatus::Allocated || current
            == UploadStatus::Hidden,
        UploadStatus::Published => current == UploadStatus::Publishing,
        UploadStatus::Hiding => current == UploadStatus::Published,
        UploadStatus::Hidden => current == UploadStatus::Hiding,
        UploadStatus::Missing => true,
    }
}

impl UploadStatus {
    /// Whether the state machine has an edge from `self` to `new_status`.
    pub fn can_transition_to(&self, new_status: &UploadStatus) -> (allowed: bool)
        ensures
            allowed == transition_allowed(*self, *new_status),
    {
        match new_status {
            UploadStatus::Initialized => false,
            UploadStatus::Allocated => {
                *self == UploadStatus::Initialized || *self == UploadStatus::Writing
            },
            UploadStatus::Writing => *self == UploadStatus::Allocated,
            UploadStatus::Publishing => {
                *self == UploadStatus::Allocated || *self == UploadStatus::Hidden
            },
            UploadStatus::Published => *self == UploadStatus::Publishing,
            UploadStatus::Hiding => *self == UploadStatus::Published,
            UploadStatus::Hidden => *self == UploadStatus::Hiding,
            UploadStatus::Missing => true,
        }
    }

    /// The status that is stored under `name`, if there is one.
    pub fn from_name(name: &str) -> (status: Option<UploadStatus>)
        ensures
            status == status_named(name@),
    {
        if same_text(name, "INITIALIZED") {
            Some(UploadStatus::Initialized)
        } else if same_text(name, "ALLOCATED") {
            Some(UploadStatus::Allocated)
        } else if same_text(name, "WRITING") {
            Some(UploadStatus::Writing)
        } else if same_text(name, "PUBLISHING") {
            Some(UploadStatus::Publishing)
        } else if same_text(name, "PUBLISHED") {
            Some(UploadStatus::Published)
        } else if same_text(name, "HIDING") {
            Some(UploadStatus::Hiding)
        } else if same_text(name, "HIDDEN") {
            Some(UploadStatus::Hidden)
        } else if same_text(name, "MISSING") {
            Some(UploadStatus::Missing)
        } else {
            None
        }
    }

    /// The upper-case name under which the status is stored.
    pub fn name(&self) -> (name: &'static str)
        ensures
            name@ == status_name(*self),
    {
        match self {
            UploadStatus::Initialized => "INITIALIZED",
            UploadStatus::Allocated => "ALLOCATED",
            UploadStatus::Writing => "WRITING",
            UploadStatus::Publishing => "PUBLISHING",
            UploadStatus::Published => "PUBLISHED",
            UploadStatus::Hiding => "HIDING",
            UploadStatus::Hidden => "HIDDEN",
            UploadStatus::Missing => "MISSING",
        }
    }
}

/// The status that is stored under `name`, if there is one.
pub open spec fn status_named(name: Seq<char>) -> Option<UploadStatus> {
    if name == status_name(UploadStatus::Initialized) {
        Some(UploadStatus::Initialized)
    } else if name == status_name(UploadStatus::Allocated) {
        Some(UploadStatus::Allocated)
    } else if name == status_name(UploadStatus::Writing) {
        Some(UploadStatus::Writing)
    } else if name == status_name(UploadStatus::Publishing) {
        Some(UploadStatus::Publishing)
    } else if name == status_name(UploadStatus::Published) {
        Some(UploadStatus::Published)
    } else if name == status_name(UploadStatus::Hiding) {
        Some(UploadStatus::Hiding)
    } else if name == status_name(UploadStatus::Hidden) {
        Some(UploadStatus::Hidden)
    } else if name == status_name(UploadStatus::Missing) {
        Some(UploadStatus::Missing)
    } else {
        None
    }
}

/// The stored name of each status.
pub open spec fn status_name(status: UploadStatus) -> Seq<char> {
    match status {
        UploadStatus::Initialized => "INITIALIZED"@,
        UploadStatus::Allocated => "ALLOCATED"@,
        UploadStatus::Writing => "WRITING"@,
        UploadStatus::Publishing => "PUBLISHING"@,
        UploadStatus::Published => "PUBLISHED"@,
        UploadStatus::Hiding => "HIDING"@,
        UploadStatus::Hidden => "HIDDEN"@,
        UploadStatus::Missing => "MISSING"@,
    }
}

/// No status has an edge into `Initialized`: a record is in it only when
/// it is created.
pub proof fn lemma_initialized_is_unreachable(current: UploadStatus)
    ensures
        !transition_allowed(current, UploadStatus::Initialized),
{
}

/// Every status has an edge into `Missing`.
pub proof fn lemma_missing_is_always_reachable(current: UploadStatus)
    ensures
        transition_allowed(current, UploadStatus::Missing),
{
}

/// Each status is found again under its stored name.
pub proof fn lemma_names_are_distinct(status: UploadStatus)
    ensures
        status_named(status_name(status)) == Some(status),
{
    reveal_strlit("INITIALIZED");
    reveal_strlit("ALLOCATED");
    reveal_strlit("WRITING");
    reveal_strlit("PUBLISHING");
    reveal_strlit("PUBLISHED");
    reveal_strlit("HIDING");
    reveal_strlit("HIDDEN");
    reveal_strlit("MISSING");
    assert("INITIALIZED"@[0] == 'I');
    assert("ALLOCATED"@[0] == 'A');
    assert("WRITING"@[0] == 'W');
    assert("PUBLISHING"@.len() == 10);
    assert("PUBLISHED"@.len() == 9);
    assert("HIDING"@.len() == 6);
    assert("HIDDEN"@[3] == 'D');
    assert("HIDING"@[3] == 'I');
    assert("MISSING"@[0] == 'M');
}

/// A status with no edge but the one into `Missing` can only be left for
/// `Missing`.
pub proof fn lemma_missing_is_terminal(target: UploadStatus)
    ensures
        transition_allowed(UploadStatus::Missing, target) <==> target == UploadStatus::Missing,
{
}

} // verus!
