//! The preview generation worker: bulk-populates preview artifacts for every
//! catalog entry that lacks one, with progress visibility, without a
//! long-lived lock on the shared catalog.
//!
//! The worker decides; the surrounding process performs the catalog and image
//! I/O. One cycle runs:
//!
//! 1. The caller fetches the full record set under a brief catalog lock,
//!    releases the lock, and hands the snapshot to
//!    [`GeneratePreviews::begin_cycle`]. The worker filters once — this is
//!    the sole "what needs work" decision — and returns the items to process
//!    with the `Started` signal to emit. A store failure aborts the cycle
//!    here, before any signal.
//! 2. The caller computes previews for the returned records with whatever
//!    parallelism it has; the worker holds no lock and asks for none during
//!    this fan-out.
//! 3. Results may arrive in any order. For each item the caller first writes
//!    the updated record back under its own brief lock, then reports it:
//!    [`GeneratePreviews::item_succeeded`] yields the `Generated` signal to
//!    emit (so the catalog already reflects the item when the signal goes
//!    out), and [`GeneratePreviews::item_failed`] logs a per-item failure —
//!    failed items are skipped, never fatal.
//! 4. Once every item is resolved — and only then —
//!    [`GeneratePreviews::finish_cycle`] yields the `Completed` signal and
//!    returns the worker to idle.
//!
//! A `Start` received while a cycle is in flight is ignored: two cycles never
//! run concurrently against the same catalog.

use vstd::prelude::*;

use crate::media::{needs_preview, needs_preview_spec, MediaId, MediaRecord, ScannedRecord};

verus! {

/// Requests the worker reacts to.
#[derive(Debug)]
pub enum GeneratePreviewsInput {
    /// Run one full preview-generation cycle.
    Start,
}

/// Signals the worker emits to its observer, in order: one `Started`, one
/// `Generated` per persisted item (in completion order, not submission
/// order), one `Completed`.
#[derive(Debug, Clone, PartialEq)]
pub enum GeneratePreviewsOutput {
    /// Preview generation has started for the given number of items. Zero is
    /// a valid, immediately-completed cycle.
    Started(usize),
    /// A preview has been generated and written back to the catalog: the
    /// item's identifier and its new preview path, if one was recorded.
    Generated(MediaId, Option<String>),
    /// The cycle is over, whether zero, some, or all items succeeded.
    Completed,
}

/// Failure of the catalog store itself at cycle start: the one failure that
/// aborts a whole cycle instead of degrading per item.
#[derive(Clone, Copy, Debug, PartialEq, Eq, Structural)]
pub enum StoreError {
    Unavailable,
}

/// What one `Start` request produced.
#[derive(Debug)]
pub enum BeginOutcome {
    /// A cycle is already in flight; the request is ignored, so two cycles
    /// never overlap.
    AlreadyRunning,
    /// The catalog could not be read; the cycle aborted before any signal.
    StoreUnavailable(StoreError),
    /// The cycle began: the records that need previews, and the `Started`
    /// signal to emit.
    Begun(Vec<MediaRecord>, GeneratePreviewsOutput),
}

/// The records among `s` that still need preview work, in catalog order.
pub open spec fn unprocessed_of(s: Seq<ScannedRecord>) -> Seq<MediaRecord>
    decreases s.len(),
{
    if s.len() == 0 {
        Seq::empty()
    } else if needs_preview_spec(s.last()) {
        unprocessed_of(s.drop_last()).push(s.last().record)
    } else {
        unprocessed_of(s.drop_last())
    }
}

/// How many of the per-item flags are set.
pub open spec fn count_true(s: Seq<bool>) -> nat
    decreases s.len(),
{
    if s.len() == 0 {
        0
    } else {
        count_true(s.drop_last()) + (if s.last() {
            1nat
        } else {
            0nat
        })
    }
}

pub proof fn lemma_count_true_le(s: Seq<bool>)
    ensures
        count_true(s) <= s.len(),
    decreases s.len(),
{
    if s.len() > 0 {
        lemma_count_true_le(s.drop_last());
    }
}

pub proof fn lemma_count_true_lt(s: Seq<bool>, i: int)
    requires
        0 <= i < s.len(),
        !s[i],
    ensures
        count_true(s) < s.len(),
    decreases s.len(),
{
    if i == s.len() - 1 {
        lemma_count_true_le(s.drop_last());
    } else {
        lemma_count_true_lt(s.drop_last(), i);
    }
}

pub proof fn lemma_count_true_update_true(s: Seq<bool>, i: int)
    requires
        0 <= i < s.len(),
        !s[i],
    ensures
        count_true(s.update(i, true)) == count_true(s) + 1,
    decreases s.len(),
{
    let t = s.update(i, true);
    if i == s.len() - 1 {
        assert(t.drop_last() =~= s.drop_last());
    } else {
        lemma_count_true_update_true(s.drop_last(), i);
        assert(t.drop_last() =~= s.drop_last().update(i, true));
    }
}

pub proof fn lemma_count_true_all_false(s: Seq<bool>)
    requires
        forall|i: int| 0 <= i < s.len() ==> !s[i],
    ensures
        count_true(s) == 0,
    decreases s.len(),
{
    if s.len() > 0 {
        assert(forall|i: int| 0 <= i < s.drop_last().len() ==> !s.drop_last()[i]);
        lemma_count_true_all_false(s.drop_last());
    }
}

pub proof fn lemma_count_true_all_true(s: Seq<bool>)
    requires
        forall|i: int| 0 <= i < s.len() ==> s[i],
    ensures
        count_true(s) == s.len(),
    decreases s.len(),
{
    if s.len() > 0 {
        assert(forall|i: int| 0 <= i < s.drop_last().len() ==> s.drop_last()[i]);
        lemma_count_true_all_true(s.drop_last());
    }
}

pub proof fn lemma_count_true_full(s: Seq<bool>)
    requires
        count_true(s) == s.len(),
    ensures
        forall|i: int| 0 <= i < s.len() ==> s[i],
    decreases s.len(),
{
    if s.len() > 0 {
        lemma_count_true_le(s.drop_last());
        lemma_count_true_full(s.drop_last());
        assert forall|i: int| 0 <= i < s.len() implies s[i] by {
            if i < s.len() - 1 {
                assert(s.drop_last()[i] == s[i]);
            }
        }
    }
}

/// The records among `scans` that still need preview work, in catalog order.
/// This is the cycle's one filtering pass.
pub fn unprocessed_records(scans: Vec<ScannedRecord>) -> (r: Vec<MediaRecord>)
    ensures
        r@ == unprocessed_of(scans@),
{
    let ghost orig = scans@;
    let mut scans = scans;
    let mut work: Vec<MediaRecord> = Vec::new();
    while scans.len() > 0
        invariant
            scans@.len() <= orig.len(),
            scans@ =~= orig.skip(orig.len() - scans@.len()),
            work@ == unprocessed_of(orig.take(orig.len() - scans@.len())),
        decreases scans@.len(),
    {
        let ghost k = orig.len() - scans@.len();
        let s = scans.remove(0);
        proof {
            assert(s == orig[k as int]);
            assert(scans@ =~= orig.skip(k as int + 1));
            assert(orig.take(k as int + 1).drop_last() =~= orig.take(k as int));
            assert(orig.take(k as int + 1).last() == orig[k as int]);
        }
        if needs_preview(&s) {
            work.push(s.record);
        }
    }
    proof {
        assert(orig.take(orig.len() as int) =~= orig);
    }
    work
}

/// What a successful `Start` establishes: the request was ignored if a cycle
/// was in flight; a store failure aborted before any signal; and otherwise
/// the returned work is exactly the unprocessed records, the `Started` signal
/// carries their count, and a fresh all-unresolved cycle is in flight for
/// precisely those items.
pub open spec fn cycle_begun(
    pre: GeneratePreviews,
    post: GeneratePreviews,
    fetched: Result<Vec<ScannedRecord>, StoreError>,
    r: BeginOutcome,
) -> bool {
    if pre.is_running() {
        &&& r is AlreadyRunning
        &&& post == pre
    } else {
        match fetched {
            Result::Err(e) => {
                &&& r == BeginOutcome::StoreUnavailable(e)
                &&& post == pre
            },
            Result::Ok(v) => {
                let work = unprocessed_of(v@);
                &&& r matches BeginOutcome::Begun(out, sig) && out@ == work && sig
                    == GeneratePreviewsOutput::Started(work.len() as usize)
                &&& post.is_running()
                &&& post.id_seq() == work.map_values(|m: MediaRecord| m.id)
                &&& post.resolved_seq() == Seq::new(work.len(), |i: int| false)
                &&& post.emitted() == 0
                &&& post.failed() == 0
            },
        }
    }
}

/// The preview generation worker. Between cycles it is idle; during a cycle
/// it tracks, per announced item, whether the item has been resolved — as an
/// emitted `Generated` signal or a logged failure — and never finishes until
/// every item is accounted for.
pub struct GeneratePreviews {
    running: bool,
    ids: Vec<MediaId>,
    resolved: Vec<bool>,
    emitted: usize,
    failed: usize,
}

impl GeneratePreviews {
    /// Whether a cycle is in flight.
    pub closed spec fn is_running(&self) -> bool {
        self.running
    }

    /// The identifiers announced by the current cycle's `Started` signal.
    pub closed spec fn id_seq(&self) -> Seq<MediaId> {
        self.ids@
    }

    /// The count announced by the current cycle's `Started` signal.
    pub open spec fn total(&self) -> nat {
        self.id_seq().len()
    }

    /// Which announced items have been resolved so far.
    pub closed spec fn resolved_seq(&self) -> Seq<bool> {
        self.resolved@
    }

    /// How many `Generated` signals the current cycle has produced.
    pub closed spec fn emitted(&self) -> nat {
        self.emitted as nat
    }

    /// How many per-item failures the current cycle has logged.
    pub closed spec fn failed(&self) -> nat {
        self.failed as nat
    }

    /// Well-formedness: one resolution flag per announced item, and every
    /// resolved item is counted exactly once, as a signal or as a failure.
    pub closed spec fn wf(&self) -> bool {
        &&& self.resolved@.len() == self.ids@.len()
        &&& self.emitted + self.failed == count_true(self.resolved@)
    }

    /// An idle worker.
    pub fn new() -> (r: GeneratePreviews)
        ensures
            r.wf(),
            !r.is_running(),
    {
        GeneratePreviews {
            running: false,
            ids: Vec::new(),
            resolved: Vec::new(),
            emitted: 0,
            failed: 0,
        }
    }

    /// Reacts to one request; `fetched` is the catalog snapshot the caller
    /// took under a brief lock (or the store failure it got instead).
    pub fn update(&mut self, msg: GeneratePreviewsInput, fetched: Result<
        Vec<ScannedRecord>,
        StoreError,
    >) -> (r: BeginOutcome)
        requires
            old(self).wf(),
        ensures
            final(self).wf(),
            cycle_begun(*old(self), *final(self), fetched, r),
    {
        match msg {
            GeneratePreviewsInput::Start => self.begin_cycle(fetched),
        }
    }

    /// Starts one cycle: filters the snapshot to the items that need work and
    /// announces their count. Ignored while a cycle is in flight; aborted,
    /// before any signal, when the store could not be read.
    pub fn begin_cycle(&mut self, fetched: Result<Vec<ScannedRecord>, StoreError>) -> (r:
        BeginOutcome)
        requires
            old(self).wf(),
        ensures
            final(self).wf(),
            cycle_begun(*old(self), *final(self), fetched, r),
    {
        if self.running {
            return BeginOutcome::AlreadyRunning;
        }
        match fetched {
            Err(e) => BeginOutcome::StoreUnavailable(e),
            Ok(scans) => {
                let work = unprocessed_records(scans);
                let mut ids: Vec<MediaId> = Vec::new();
                let mut resolved: Vec<bool> = Vec::new();
                let mut i: usize = 0;
                while i < work.len()
                    invariant
                        i <= work.len(),
                        ids@.len() == i as nat,
                        resolved@.len() == i as nat,
                        forall|j: int| 0 <= j < i ==> ids@[j] == work@[j].id,
                        forall|j: int| 0 <= j < i ==> !resolved@[j],
                    decreases work.len() - i,
                {
                    ids.push(work[i].id);
                    resolved.push(false);
                    i = i + 1;
                }
                let count = work.len();
                proof {
                    assert(ids@ =~= work@.map_values(|m: MediaRecord| m.id));
                    assert(resolved@ =~= Seq::new(work@.len(), |j: int| false));
                    lemma_count_true_all_false(resolved@);
                }
                self.running = true;
                self.ids = ids;
                self.resolved = resolved;
                self.emitted = 0;
                self.failed = 0;
                BeginOutcome::Begun(work, GeneratePreviewsOutput::Started(count))
            },
        }
    }

    /// Reports that the item at `index` had its preview computed and the
    /// updated record written back to the catalog; yields the `Generated`
    /// signal to emit, so the signal always follows the catalog write.
    pub fn item_succeeded(&mut self, index: usize, path: Option<String>) -> (sig:
        GeneratePreviewsOutput)
        requires
            old(self).wf(),
            old(self).is_running(),
            index < old(self).total(),
            !old(self).resolved_seq()[index as int],
        ensures
            final(self).wf(),
            final(self).is_running(),
            final(self).id_seq() == old(self).id_seq(),
            final(self).resolved_seq() == old(self).resolved_seq().update(index as int, true),
            final(self).emitted() == old(self).emitted() + 1,
            final(self).failed() == old(self).failed(),
            sig == GeneratePreviewsOutput::Generated(old(self).id_seq()[index as int], path),
    {
        proof {
            lemma_count_true_lt(self.resolved@, index as int);
            lemma_count_true_update_true(self.resolved@, index as int);
            assert(vstd::std_specs::vec::spec_vec_len(&self.ids) == self.ids@.len());
        }
        let id = self.ids[index];
        self.resolved[index] = true;
        self.emitted = self.emitted + 1;
        GeneratePreviewsOutput::Generated(id, path)
    }

    /// Logs that the item at `index` failed — the preview computation or the
    /// catalog write — and is skipped. The cycle continues; nothing is
    /// emitted for this item.
    pub fn item_failed(&mut self, index: usize)
        requires
            old(self).wf(),
            old(self).is_running(),
            index < old(self).total(),
            !old(self).resolved_seq()[index as int],
        ensures
            final(self).wf(),
            final(self).is_running(),
            final(self).id_seq() == old(self).id_seq(),
            final(self).resolved_seq() == old(self).resolved_seq().update(index as int, true),
            final(self).emitted() == old(self).emitted(),
            final(self).failed() == old(self).failed() + 1,
    {
        proof {
            lemma_count_true_lt(self.resolved@, index as int);
            lemma_count_true_update_true(self.resolved@, index as int);
            assert(vstd::std_specs::vec::spec_vec_len(&self.ids) == self.ids@.len());
        }
        self.resolved[index] = true;
        self.failed = self.failed + 1;
    }

    /// Whether every announced item has been resolved.
    pub fn is_complete(&self) -> (r: bool)
        requires
            self.wf(),
        ensures
            r == (self.emitted() + self.failed() == self.total()),
    {
        proof {
            lemma_count_true_le(self.resolved@);
            assert(vstd::std_specs::vec::spec_vec_len(&self.ids) == self.ids@.len());
        }
        self.emitted + self.failed == self.ids.len()
    }

    /// Ends the cycle — allowed only once every announced item is resolved —
    /// and yields the unconditional `Completed` signal. The worker is idle
    /// again and a new `Start` will run a fresh cycle.
    pub fn finish_cycle(&mut self) -> (sig: GeneratePreviewsOutput)
        requires
            old(self).wf(),
            old(self).is_running(),
            old(self).emitted() + old(self).failed() == old(self).total(),
        ensures
            final(self).wf(),
            !final(self).is_running(),
            sig == GeneratePreviewsOutput::Completed,
    {
        self.running = false;
        GeneratePreviewsOutput::Completed
    }
}

/// Law (progress accounting): in any well-formed cycle, the `Generated`
/// signals emitted plus the failures logged never exceed the count the
/// `Started` signal carried, and they account for it exactly when — and only
/// when — every announced item has been resolved. Since `finish_cycle`
/// demands exactly that, the started count always equals the progress signals
/// plus the logged failures of its cycle by the time `Completed` is emitted.
pub proof fn lemma_progress_accounting(w: GeneratePreviews)
    requires
        w.wf(),
    ensures
        w.emitted() + w.failed() <= w.total(),
        (w.emitted() + w.failed() == w.total()) <==> (forall|i: int|
            0 <= i < w.total() ==> w.resolved_seq()[i]),
{
    lemma_count_true_le(w.resolved_seq());
    if w.emitted() + w.failed() == w.total() {
        lemma_count_true_full(w.resolved_seq());
    }
    if forall|i: int| 0 <= i < w.total() ==> w.resolved_seq()[i] {
        lemma_count_true_all_true(w.resolved_seq());
    }
}

/// Law (completeness): when a cycle may emit `Completed`, every item that
/// lacked a preview at cycle start has been resolved — each one either had
/// its record written back and a `Generated` signal produced, or was logged
/// as a failure. No item is silently dropped.
pub proof fn lemma_cycle_completeness(w: GeneratePreviews)
    requires
        w.wf(),
        w.emitted() + w.failed() == w.total(),
    ensures
        forall|i: int| 0 <= i < w.total() ==> w.resolved_seq()[i],
{
    lemma_progress_accounting(w);
}

} // verus!
