//! The inventory of a storage: every key expression that has a value in the
//! bucket, with the timestamp of that value.
//!
//! The inventory is taken in three steps. The store lists the keys of all
//! objects. The engine selects the keys that belong to the storage. For each
//! of them the store is asked for the metadata of the object, all at once,
//! and the engine gathers the timestamps from the answers. An answer that
//! brings no timestamp costs the inventory one entry and nothing else.

use crate::config::S3ConfigView;
use crate::error::StorageError;
use crate::error::StorageErrorView;
use crate::error::StoreOperation;
use crate::key_expr::key_exprs_intersect;
use crate::key_expr::KeyExpression;
use crate::key_translation::reverse;
use crate::key_translation::reverse_spec;
use crate::key_translation::NONE_KEY;
use crate::storage::error_of_fault;
use crate::storage::fault_error;
use crate::storage::read_timestamp;
use crate::storage::read_timestamp_spec;
use crate::storage::timestamp_entry;
use crate::storage::S3Storage;
use crate::storage::LEGACY_TIMESTAMP_METADATA_KEY;
use crate::storage::TIMESTAMP_METADATA_KEY;
use crate::store::head_reply_view;
use crate::store::listing_reply_view;
use crate::store::listing_view;
use crate::store::text_view;
use crate::store::ObjectHead;
use crate::store::StoreFault;
use crate::store::StoreFaultView;
use crate::store::StoreRequest;
use crate::store::StoreRequestView;
use crate::timestamp::parse_spec;
use crate::timestamp::Timestamp;
use vstd::prelude::*;

verus! {

/// An object that belongs to the storage: its key, and the key expression
/// that the key stands for.
#[derive(Debug, PartialEq, Eq)]
pub struct Candidate {
    pub object_key: String,
    pub key_expr: KeyExpression,
}

/// Mathematical form of a [`Candidate`].
pub struct CandidateView {
    pub object_key: Seq<char>,
    pub key_expr: Seq<char>,
}

impl View for Candidate {
    type V = CandidateView;

    open spec fn view(&self) -> CandidateView {
        CandidateView { object_key: self.object_key@, key_expr: self.key_expr@ }
    }
}

/// An entry of the inventory: a key expression and the timestamp of its
/// value.
pub type Entry = (Option<KeyExpression>, Timestamp);

/// Mathematical form of an [`Entry`].
pub type EntryView = (Option<Seq<char>>, (u64, u128));

/// Mathematical form of an answer to `HeadObject`.
pub type HeadReplyView = Result<Option<Map<Seq<char>, Seq<char>>>, StoreFaultView>;

/// The candidate that a listed object makes, if it makes one. An object
/// without a key makes none, nor does the object under [`NONE_KEY`], nor one
/// whose key does not translate back to a key expression, nor one whose key
/// expression has no key in common with the key expression of the storage.
pub open spec fn candidate_of(config: S3ConfigView, listed: Option<Seq<char>>) -> Option<
    CandidateView,
> {
    match listed {
        None => None,
        Some(object_key) => match reverse_spec(config.path_prefix, object_key) {
            Ok(Some(key_expr)) => if key_exprs_intersect(key_expr, config.key_expr) {
                Some(CandidateView { object_key, key_expr })
            } else {
                None
            },
            _ => None,
        },
    }
}

/// The candidates among the listed objects, in the order of the listing.
pub open spec fn candidates_of(config: S3ConfigView, listing: Seq<Option<Seq<char>>>) -> Seq<
    CandidateView,
>
    decreases listing.len(),
{
    if listing.len() == 0 {
        Seq::empty()
    } else {
        let front = candidates_of(config, listing.drop_last());
        match candidate_of(config, listing.last()) {
            Some(candidate) => front.push(candidate),
            None => front,
        }
    }
}

/// Mathematical form of the candidates that were selected.
pub open spec fn candidates_view(candidates: Seq<Candidate>) -> Seq<CandidateView> {
    candidates.map_values(|c: Candidate| c@)
}

/// What the answer to `ListObjects` leaves to look up: the candidates, or the
/// store's failure, told of the bucket.
pub open spec fn select_entries_spec(
    config: S3ConfigView,
    reply: Result<Seq<Option<Seq<char>>>, StoreFaultView>,
) -> Result<Seq<CandidateView>, StorageErrorView> {
    match reply {
        Ok(listing) => Ok(candidates_of(config, listing)),
        Err(fault) => Err(fault_error(StoreOperation::ListObjects, config.bucket, fault)),
    }
}

/// The entry that the answer to `HeadObject` for a candidate makes, or why it
/// makes none.
pub open spec fn entry_spec(candidate: CandidateView, reply: HeadReplyView) -> Result<
    EntryView,
    StorageErrorView,
> {
    match reply {
        Err(fault) => Err(fault_error(StoreOperation::HeadObject, candidate.object_key, fault)),
        Ok(metadata) => match read_timestamp_spec(
            StoreOperation::HeadObject,
            candidate.object_key,
            metadata,
        ) {
            Ok(timestamp) => Ok((Some(candidate.key_expr), timestamp)),
            Err(e) => Err(e),
        },
    }
}

/// The inventory that the answers make: the entry of each answer that makes
/// one, in the order of the answers.
pub open spec fn entries_spec(answers: Seq<(CandidateView, HeadReplyView)>) -> Seq<EntryView>
    decreases answers.len(),
{
    if answers.len() == 0 {
        Seq::empty()
    } else {
        let front = entries_spec(answers.drop_last());
        match entry_spec(answers.last().0, answers.last().1) {
            Ok(entry) => front.push(entry),
            Err(_) => front,
        }
    }
}

/// Mathematical form of the answers to the lookups.
pub open spec fn answers_view(answers: Seq<(Candidate, Result<ObjectHead, StoreFault>)>) -> Seq<
    (CandidateView, HeadReplyView),
> {
    answers.map_values(
        |a: (Candidate, Result<ObjectHead, StoreFault>)| (a.0@, head_reply_view(a.1)),
    )
}

/// Mathematical form of an entry.
pub open spec fn entry_view(entry: Entry) -> EntryView {
    (
        match entry.0 {
            Some(key_expr) => Some(key_expr@),
            None => None,
        },
        entry.1@,
    )
}

/// Mathematical form of an inventory.
pub open spec fn entries_view(entries: Seq<Entry>) -> Seq<EntryView> {
    entries.map_values(|e: Entry| entry_view(e))
}

impl Candidate {
    /// The request that looks up the metadata of the candidate's object.
    pub fn head_request(&self) -> (res: StoreRequest)
        ensures
            res@ == (StoreRequestView::HeadObject { key: self.object_key@ }),
    {
        StoreRequest::HeadObject { key: self.object_key.clone() }
    }
}

impl S3Storage {
    /// Decides what the inventory asks of the store first: the keys of all
    /// objects.
    pub fn begin_get_all_entries(&self) -> (res: StoreRequest)
        ensures
            res@ == StoreRequestView::ListObjects,
    {
        StoreRequest::ListObjects
    }

    /// The candidate that a listed object makes, if it makes one.
    pub fn candidate(&self, listed: &Option<String>) -> (res: Option<Candidate>)
        ensures
            (match res {
                Some(c) => candidate_of(self@, text_view(*listed)) == Some(c@),
                None => candidate_of(self@, text_view(*listed)) is None,
            }),
    {
        let object_key = match listed {
            Some(object_key) => object_key,
            None => {
                return None;
            },
        };
        match reverse(self.config.prefix(), object_key.as_str()) {
            Ok(Some(key_expr)) => {
                if key_expr.intersects(&self.config.key_expr) {
                    Some(Candidate { object_key: object_key.clone(), key_expr })
                } else {
                    None
                }
            },
            _ => None,
        }
    }

    /// Selects, from the answer to `ListObjects`, the objects whose metadata
    /// is to be looked up.
    pub fn select_entries(&self, reply: Result<Vec<Option<String>>, StoreFault>) -> (res: Result<
        Vec<Candidate>,
        StorageError,
    >)
        ensures
            (match res {
                Ok(candidates) => select_entries_spec(self@, listing_reply_view(reply)) == Ok::<
                    Seq<CandidateView>,
                    StorageErrorView,
                >(candidates_view(candidates@)),
                Err(e) => select_entries_spec(self@, listing_reply_view(reply)) == Err::<
                    Seq<CandidateView>,
                    StorageErrorView,
                >(e@),
            }),
    {
        let listing = match reply {
            Ok(listing) => listing,
            Err(fault) => {
                return Err(
                    error_of_fault(StoreOperation::ListObjects, self.config.bucket.as_str(), &fault),
                );
            },
        };
        let ghost keys = listing_view(listing@);
        let mut candidates: Vec<Candidate> = Vec::new();
        let mut i: usize = 0;
        proof {
            assert(keys.take(0) =~= Seq::<Option<Seq<char>>>::empty());
            assert(candidates_view(candidates@) =~= Seq::<CandidateView>::empty());
        }
        while i < listing.len()
            invariant
                i <= listing@.len(),
                keys == listing_view(listing@),
                candidates_view(candidates@) == candidates_of(self@, keys.take(i as int)),
            decreases listing@.len() - i,
        {
            let ghost before = candidates@;
            let selected = self.candidate(&listing[i]);
            proof {
                assert(keys.take(i as int + 1).drop_last() =~= keys.take(i as int));
                assert(keys.take(i as int + 1).last() == text_view(listing@[i as int]));
            }
            match selected {
                Some(c) => {
                    candidates.push(c);
                    proof {
                        assert(candidates_view(candidates@) =~= candidates_view(before).push(c@));
                    }
                },
                None => {},
            }
            i = i + 1;
        }
        proof {
            assert(keys.take(i as int) =~= keys);
        }
        Ok(candidates)
    }

    /// Reads the answer to `HeadObject` for a candidate.
    pub fn entry(candidate: &Candidate, reply: &Result<ObjectHead, StoreFault>) -> (res: Result<
        Entry,
        StorageError,
    >)
        ensures
            (match res {
                Ok(entry) => entry_spec(candidate@, head_reply_view(*reply)) == Ok::<
                    EntryView,
                    StorageErrorView,
                >(entry_view(entry)),
                Err(e) => entry_spec(candidate@, head_reply_view(*reply)) == Err::<
                    EntryView,
                    StorageErrorView,
                >(e@),
            }),
    {
        let head = match reply {
            Ok(head) => head,
            Err(fault) => {
                return Err(
                    error_of_fault(StoreOperation::HeadObject, candidate.object_key.as_str(), fault),
                );
            },
        };
        match read_timestamp(
            StoreOperation::HeadObject,
            candidate.object_key.as_str(),
            &head.metadata,
        ) {
            Ok(timestamp) => Ok((Some(candidate.key_expr.clone()), timestamp)),
            Err(e) => Err(e),
        }
    }

    /// Gathers the inventory from the answers to the lookups. An answer that
    /// makes no entry is left out; the inventory never fails on its account.
    pub fn finish_get_all_entries(answers: &Vec<(Candidate, Result<ObjectHead, StoreFault>)>) -> (res:
        Vec<Entry>)
        ensures
            entries_view(res@) == entries_spec(answers_view(answers@)),
    {
        let ghost all = answers_view(answers@);
        let mut entries: Vec<Entry> = Vec::new();
        let mut i: usize = 0;
        proof {
            assert(all.take(0) =~= Seq::<(CandidateView, HeadReplyView)>::empty());
            assert(entries_view(entries@) =~= Seq::<EntryView>::empty());
        }
        while i < answers.len()
            invariant
                i <= answers@.len(),
                all == answers_view(answers@),
                entries_view(entries@) == entries_spec(all.take(i as int)),
            decreases answers@.len() - i,
        {
            let ghost before = entries@;
            let made = S3Storage::entry(&answers[i].0, &answers[i].1);
            proof {
                assert(all.take(i as int + 1).drop_last() =~= all.take(i as int));
                assert(all.take(i as int + 1).last() == all[i as int]);
            }
            match made {
                Ok(entry) => {
                    entries.push(entry);
                    proof {
                        assert(entries_view(entries@) =~= entries_view(before).push(
                            entry_view(entry),
                        ));
                    }
                },
                Err(_) => {},
            }
            i = i + 1;
        }
        proof {
            assert(all.take(i as int) =~= all);
        }
        entries
    }
}

/// A candidate is selected exactly when some listed object makes it.
pub proof fn lemma_candidates_are_the_listed_that_qualify(
    config: S3ConfigView,
    listing: Seq<Option<Seq<char>>>,
    candidate: CandidateView,
)
    ensures
        candidates_of(config, listing).contains(candidate) <==> exists|i: int|
            0 <= i < listing.len() && candidate_of(config, #[trigger] listing[i]) == Some(
                candidate,
            ),
    decreases listing.len(),
{
    let selected = candidates_of(config, listing);
    if listing.len() > 0 {
        let front = candidates_of(config, listing.drop_last());
        lemma_candidates_are_the_listed_that_qualify(config, listing.drop_last(), candidate);
        if selected.contains(candidate) {
            let j = choose|j: int| 0 <= j < selected.len() && selected[j] == candidate;
            if j < front.len() {
                assert(front[j] == candidate);
                assert(front.contains(candidate));
                let i = choose|i: int|
                    0 <= i < listing.drop_last().len() && candidate_of(
                        config,
                        #[trigger] listing.drop_last()[i],
                    ) == Some(candidate);
                assert(listing[i] == listing.drop_last()[i]);
            } else {
                assert(candidate_of(config, listing[listing.len() - 1]) == Some(candidate));
            }
        }
        if exists|i: int|
            0 <= i < listing.len() && candidate_of(config, #[trigger] listing[i]) == Some(
                candidate,
            ) {
            let i = choose|i: int|
                0 <= i < listing.len() && candidate_of(config, #[trigger] listing[i]) == Some(
                    candidate,
                );
            if i < listing.len() - 1 {
                assert(listing.drop_last()[i] == listing[i]);
                assert(front.contains(candidate));
                let j = choose|j: int| 0 <= j < front.len() && front[j] == candidate;
                assert(selected[j] == candidate);
            } else {
                assert(selected[selected.len() - 1] == candidate);
            }
        }
    }
}

/// The inventory leaves out the object under [`NONE_KEY`] and every object
/// whose key expression has no key in common with that of the storage: each
/// candidate is a listed object other than [`NONE_KEY`], stands for the key
/// expression that its key translates back to, and meets the key expression
/// of the storage.
pub proof fn lemma_candidates_respect_the_filter(
    config: S3ConfigView,
    listing: Seq<Option<Seq<char>>>,
    candidate: CandidateView,
)
    requires
        candidates_of(config, listing).contains(candidate),
    ensures
        listing.contains(Some(candidate.object_key)),
        candidate.object_key != NONE_KEY@,
        reverse_spec(config.path_prefix, candidate.object_key) == Ok::<
            Option<Seq<char>>,
            StorageErrorView,
        >(Some(candidate.key_expr)),
        key_exprs_intersect(candidate.key_expr, config.key_expr),
{
    lemma_candidates_are_the_listed_that_qualify(config, listing, candidate);
    let i = choose|i: int|
        0 <= i < listing.len() && candidate_of(config, #[trigger] listing[i]) == Some(candidate);
    assert(listing[i] == Some(candidate.object_key));
}

/// The inventory of two runs of answers, one after the other, is the
/// inventory of the first followed by that of the second.
pub proof fn lemma_entries_of_concatenation(
    first: Seq<(CandidateView, HeadReplyView)>,
    second: Seq<(CandidateView, HeadReplyView)>,
)
    ensures
        entries_spec(first + second) == entries_spec(first) + entries_spec(second),
    decreases second.len(),
{
    if second.len() == 0 {
        assert(first + second =~= first);
        assert(entries_spec(first) + entries_spec(second) =~= entries_spec(first));
    } else {
        assert((first + second).drop_last() =~= first + second.drop_last());
        assert((first + second).last() == second.last());
        lemma_entries_of_concatenation(first, second.drop_last());
        let front = entries_spec(second.drop_last());
        match entry_spec(second.last().0, second.last().1) {
            Ok(entry) => {
                assert((entries_spec(first) + front).push(entry) =~= entries_spec(first)
                    + front.push(entry));
            },
            Err(_) => {},
        }
    }
}

/// Every entry of the inventory is the entry of one of the answers, under
/// the key expression of that answer's candidate.
pub proof fn lemma_entries_come_from_answers(
    answers: Seq<(CandidateView, HeadReplyView)>,
    entry: EntryView,
)
    requires
        entries_spec(answers).contains(entry),
    ensures
        exists|i: int|
            0 <= i < answers.len() && entry_spec(
                (#[trigger] answers[i]).0,
                answers[i].1,
            ) == Ok::<EntryView, StorageErrorView>(entry) && entry.0 == Some(answers[i].0.key_expr),
    decreases answers.len(),
{
    let all = entries_spec(answers);
    let j = choose|j: int| 0 <= j < all.len() && all[j] == entry;
    let front = entries_spec(answers.drop_last());
    if j < front.len() {
        assert(front[j] == entry);
        lemma_entries_come_from_answers(answers.drop_last(), entry);
        let i = choose|i: int|
            0 <= i < answers.drop_last().len() && entry_spec(
                (#[trigger] answers.drop_last()[i]).0,
                answers.drop_last()[i].1,
            ) == Ok::<EntryView, StorageErrorView>(entry) && entry.0 == Some(
                answers.drop_last()[i].0.key_expr,
            );
        assert(answers[i] == answers.drop_last()[i]);
    } else {
        let i = answers.len() - 1;
        assert(entry_spec(answers[i].0, answers[i].1) == Ok::<EntryView, StorageErrorView>(entry));
    }
}

/// The candidates of the answers, in their order.
pub open spec fn candidates_answered(answers: Seq<(CandidateView, HeadReplyView)>) -> Seq<
    CandidateView,
> {
    answers.map_values(|a: (CandidateView, HeadReplyView)| a.0)
}

/// Where the lookups were made for the candidates of a listing, the
/// inventory names no key expression but one that a listed object other
/// than [`NONE_KEY`] stands for and that meets the key expression of the
/// storage.
pub proof fn lemma_inventory_respects_the_filter(
    config: S3ConfigView,
    listing: Seq<Option<Seq<char>>>,
    answers: Seq<(CandidateView, HeadReplyView)>,
    entry: EntryView,
)
    requires
        candidates_answered(answers) == candidates_of(config, listing),
        entries_spec(answers).contains(entry),
    ensures
        entry.0 is Some,
        key_exprs_intersect(entry.0->Some_0, config.key_expr),
        exists|object_key: Seq<char>|
            #![trigger listing.contains(Some(object_key))]
            listing.contains(Some(object_key)) && object_key != NONE_KEY@ && reverse_spec(
                config.path_prefix,
                object_key,
            ) == Ok::<Option<Seq<char>>, StorageErrorView>(entry.0),
{
    lemma_entries_come_from_answers(answers, entry);
    let i = choose|i: int|
        0 <= i < answers.len() && entry_spec((#[trigger] answers[i]).0, answers[i].1) == Ok::<
            EntryView,
            StorageErrorView,
        >(entry) && entry.0 == Some(answers[i].0.key_expr);
    let candidate = answers[i].0;
    assert(candidates_answered(answers)[i] == candidate);
    assert(candidates_of(config, listing).contains(candidate));
    lemma_candidates_respect_the_filter(config, listing, candidate);
    assert(listing.contains(Some(candidate.object_key)));
}

/// Where every lookup brings a timestamp, the inventory has one entry for
/// each answer, in the order of the answers, under the key expression of the
/// answer's candidate.
pub proof fn lemma_inventory_is_complete(answers: Seq<(CandidateView, HeadReplyView)>)
    requires
        forall|i: int|
            0 <= i < answers.len() ==> entry_spec((#[trigger] answers[i]).0, answers[i].1) is Ok,
    ensures
        entries_spec(answers).len() == answers.len(),
        forall|i: int|
            0 <= i < answers.len() ==> entry_spec(answers[i].0, answers[i].1) == Ok::<
                EntryView,
                StorageErrorView,
            >(#[trigger] entries_spec(answers)[i]) && entries_spec(answers)[i].0 == Some(
                answers[i].0.key_expr,
            ),
    decreases answers.len(),
{
    if answers.len() > 0 {
        let front = answers.drop_last();
        assert forall|i: int| 0 <= i < front.len() implies entry_spec(
            (#[trigger] front[i]).0,
            front[i].1,
        ) is Ok by {
            assert(front[i] == answers[i]);
        }
        lemma_inventory_is_complete(front);
        let last = answers[answers.len() - 1];
        assert(entry_spec(last.0, last.1) is Ok);
        assert forall|i: int| 0 <= i < answers.len() implies entry_spec(
            answers[i].0,
            answers[i].1,
        ) == Ok::<EntryView, StorageErrorView>(#[trigger] entries_spec(answers)[i])
            && entries_spec(answers)[i].0 == Some(answers[i].0.key_expr) by {
            if i < front.len() {
                assert(front[i] == answers[i]);
                assert(entries_spec(answers)[i] == entries_spec(front)[i]);
            }
        }
    }
}

/// A lookup that fails costs the inventory the entry of its own object and
/// no other: the inventory is the one that the remaining answers make.
pub proof fn lemma_failed_lookup_drops_one_entry(
    answers: Seq<(CandidateView, HeadReplyView)>,
    failed: int,
)
    requires
        0 <= failed < answers.len(),
        entry_spec(answers[failed].0, answers[failed].1) is Err,
    ensures
        entries_spec(answers) == entries_spec(answers.remove(failed)),
{
    let before = answers.take(failed);
    let one = seq![answers[failed]];
    let after = answers.skip(failed + 1);
    assert(answers =~= before + one + after);
    assert(answers.remove(failed) =~= before + after);
    lemma_entries_of_concatenation(before + one, after);
    lemma_entries_of_concatenation(before, one);
    lemma_entries_of_concatenation(before, after);
    assert(one.drop_last() =~= Seq::<(CandidateView, HeadReplyView)>::empty());
    assert(entries_spec(one.drop_last()) =~= Seq::<EntryView>::empty());
    assert(entries_spec(one) =~= Seq::<EntryView>::empty());
    assert(entries_spec(before) + Seq::<EntryView>::empty() =~= entries_spec(before));
}

/// An object whose metadata names its timestamp only under
/// [`LEGACY_TIMESTAMP_METADATA_KEY`] is in the inventory with that
/// timestamp.
pub proof fn lemma_legacy_timestamp_is_read(
    candidate: CandidateView,
    metadata: Map<Seq<char>, Seq<char>>,
)
    requires
        !metadata.contains_key(TIMESTAMP_METADATA_KEY@),
        metadata.contains_key(LEGACY_TIMESTAMP_METADATA_KEY@),
        parse_spec(metadata[LEGACY_TIMESTAMP_METADATA_KEY@]) is Some,
    ensures
        timestamp_entry(metadata) == Some(metadata[LEGACY_TIMESTAMP_METADATA_KEY@]),
        entry_spec(candidate, Ok(Some(metadata))) == Ok::<EntryView, StorageErrorView>(
            (
                Some(candidate.key_expr),
                parse_spec(metadata[LEGACY_TIMESTAMP_METADATA_KEY@])->Some_0,
            ),
        ),
{
}

} // verus!
