//! Form fields whose value must be one of a set of ids.

use vstd::prelude::*;
use vstd::hash_set::StringHashSet;
use vstd::string::StringExecFns;
use crate::post::BanReason;
use crate::storage::option_string_view;

verus! {

/// The views of a list of pairs of strings.
pub open spec fn pair_views(pairs: Seq<(String, String)>) -> Seq<(Seq<char>, Seq<char>)> {
    Seq::new(pairs.len(), |i: int| (pairs[i].0@, pairs[i].1@))
}

/// A set of ids among which a form field chooses, each with the label
/// under which the form offers it.
pub trait IdSet {
    /// The ids of the set.
    spec fn ids(&self) -> Set<Seq<char>>;

    /// The ids with their labels, in the order in which a form offers them.
    spec fn options(&self) -> Seq<(Seq<char>, Seq<char>)>;

    /// Whether `id` is in the set.
    fn is_valid_id(&self, id: &str) -> (valid: bool)
        ensures
            valid == self.ids().contains(id@),
    ;

    /// The ids with their labels.
    fn get_option_list(&self) -> (list: Vec<(String, String)>)
        ensures
            pair_views(list@) == self.options(),
    ;
}

/// A form field that holds one id of a set, or none.
#[derive(Debug, PartialEq, Eq)]
pub struct IdField {
    pub value: Option<String>,
    pub values: Vec<(String, String)>,
}

impl IdField {
    /// The field for `value`, with the options of `id_set`, and whether
    /// `value` was refused. A value that is not in `id_set` is refused, and
    /// the field is then empty.
    pub fn load<S: IdSet>(value: Option<String>, id_set: &S) -> (loaded: (Self, bool))
        ensures
            pair_views(loaded.0.values@) == id_set.options(),
            match value {
                None => loaded.0.value.is_none() && !loaded.1,
                Some(given) => if id_set.ids().contains(given@) {
                    loaded.0.value == Some(given) && !loaded.1
                } else {
                    loaded.0.value.is_none() && loaded.1
                },
            },
    {
        match value {
            None => (IdField { value: None, values: id_set.get_option_list() }, false),
            Some(given) => {
                if id_set.is_valid_id(given.as_str()) {
                    (IdField { value: Some(given), values: id_set.get_option_list() }, false)
                } else {
                    (IdField { value: None, values: id_set.get_option_list() }, true)
                }
            },
        }
    }
}

/// The reasons for which a post may be banned, as a set of ids.
pub struct BanReasonIdSet {
    pub ids_set: StringHashSet,
    pub option_list: Vec<(String, String)>,
}

/// The label under which a form offers a reason: its id, followed by a
/// colon and its description where it has one.
pub open spec fn reason_label(id: Seq<char>, description: Option<Seq<char>>) -> Seq<char> {
    match description {
        Some(text) => id + ": "@ + text,
        None => id,
    }
}

/// The ids of the first `upto` reasons.
pub open spec fn reason_ids(reasons: Seq<BanReason>, upto: int) -> Set<Seq<char>>
    decreases upto,
{
    if upto <= 0 {
        Set::empty()
    } else {
        reason_ids(reasons, upto - 1).insert(reasons[upto - 1].id@)
    }
}

/// The ids and labels of `reasons`, in their order.
pub open spec fn reason_options(reasons: Seq<BanReason>) -> Seq<(Seq<char>, Seq<char>)> {
    Seq::new(
        reasons.len(),
        |i: int|
            (reasons[i].id@, reason_label(reasons[i].id@, option_string_view(reasons[i].description))),
    )
}

impl BanReasonIdSet {
    /// The set of the ids of `reasons`, offered in their order.
    pub fn new(reasons: &Vec<BanReason>) -> (set: BanReasonIdSet)
        ensures
            set.ids() == reason_ids(reasons@, reasons@.len() as int),
            set.options() == reason_options(reasons@),
    {
        let mut ids_set = StringHashSet::new();
        let mut option_list: Vec<(String, String)> = Vec::new();
        let mut index: usize = 0;
        while index < reasons.len()
            invariant
                index <= reasons@.len(),
                ids_set@ == reason_ids(reasons@, index as int),
                option_list@.len() == index,
                forall|i: int|
                    0 <= i < index ==> (#[trigger] option_list@[i]).0@ == reasons@[i].id@
                        && option_list@[i].1@ == reason_label(
                        reasons@[i].id@,
                        option_string_view(reasons@[i].description),
                    ),
            decreases reasons@.len() - index,
        {
            let reason = &reasons[index];
            ids_set.insert(reason.id.clone());
            let mut label = reason.id.clone();
            match &reason.description {
                Some(text) => {
                    label.append(": ");
                    label.append(text.as_str());
                },
                None => {},
            }
            option_list.push((reason.id.clone(), label));
            index = index + 1;
        }
        proof {
            assert(pair_views(option_list@) =~= reason_options(reasons@));
        }
        BanReasonIdSet { ids_set, option_list }
    }
}

impl IdSet for BanReasonIdSet {
    open spec fn ids(&self) -> Set<Seq<char>> {
        self.ids_set@
    }

    open spec fn options(&self) -> Seq<(Seq<char>, Seq<char>)> {
        pair_views(self.option_list@)
    }

    fn is_valid_id(&self, id: &str) -> (valid: bool) {
        self.ids_set.contains(id)
    }

    fn get_option_list(&self) -> (list: Vec<(String, String)>) {
        let mut list: Vec<(String, String)> = Vec::new();
        let mut index: usize = 0;
        while index < self.option_list.len()
            invariant
                index <= self.option_list@.len(),
                list@.len() == index,
                forall|i: int|
                    0 <= i < index ==> (#[trigger] list@[i]).0@ == self.option_list@[i].0@
                        && list@[i].1@ == self.option_list@[i].1@,
            decreases self.option_list@.len() - index,
        {
            let pair = &self.option_list[index];
            list.push((pair.0.clone(), pair.1.clone()));
            index = index + 1;
        }
        proof {
            assert(pair_views(list@) =~= pair_views(self.option_list@));
        }
        list
    }
}

} // verus!
