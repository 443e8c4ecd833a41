use vstd::prelude::*;
use vstd::relations::injective_on;
use vstd::set_lib::{lemma_int_range, lemma_len_subset, lemma_map_size, set_int_range};

use crate::error::RepoError;
use crate::guard::{exists_from_answer, found, is_success, lookup_for, success, PointLookup, NOT_FOUND};
use crate::post::{DocId, Post};
use crate::requests::{schema_properties, IndexSchema, Property, UpdateSpec};

verus! {

/// The index-wide refresh interval: suspended ("-1") during a bulk write,
/// back to the engine's default (null) afterwards.
#[derive(Clone, Copy, Debug, PartialEq, Eq, Structural)]
pub enum RefreshSetting {
    Suspended,
    Default,
}

/// One "index" operation of a bulk request: the document at `position` of the
/// batch, stored under `doc_id` and routed by `routing`.
#[derive(Clone, Debug, PartialEq, Eq)]
pub struct BulkOp {
    pub position: usize,
    pub doc_id: String,
    pub routing: String,
}

/// The engine's outcome for one operation of a bulk request.
#[derive(Clone, Debug, PartialEq, Eq)]
pub struct BulkItem {
    pub id: String,
    pub failed: bool,
}

/// The engine's answer to a bulk request: the batch-level error flag and one
/// item per operation.
#[derive(Clone, Debug, PartialEq, Eq)]
pub struct BulkReport {
    pub errors: bool,
    pub items: Vec<BulkItem>,
}

/// What the session asks its driver to do next.
#[derive(Debug, PartialEq, Eq)]
pub enum Action {
    /// Ask whether the index exists; answer with its status.
    ProbeIndex,
    /// Delete the index; answer with its status.
    DeleteIndex,
    /// Create the index with this schema; answer with its status.
    CreateIndex(IndexSchema),
    /// Set the refresh interval; answer with its status.
    SetRefresh(RefreshSetting),
    /// Look up one document; answer with its status.
    CheckExists(PointLookup),
    /// Send these bulk operations; answer with the engine's report.
    Submit(Vec<BulkOp>),
    /// The operation is over, with this outcome.
    Finish(Result<(), RepoError>),
}

/// Where an indexing session stands.
#[derive(Debug, PartialEq, Eq)]
pub enum Phase {
    Probing,
    Deleting,
    Creating,
    Suspending,
    Checking { next: usize },
    Submitted,
    Retried,
    Restoring { outcome: Result<(), RepoError> },
    Done,
}

/// The meaning of an action, over the session's documents.
pub enum Expect {
    Probe,
    Delete,
    Create,
    Refresh(RefreshSetting),
    Check(DocId),
    Send(Seq<usize>),
    Finish(Result<(), RepoError>),
}

/// `ops` writes the documents at `positions`, in that order, each keyed and
/// routed by its own id.
pub open spec fn is_batch(ops: Seq<BulkOp>, positions: Seq<usize>, ids: Seq<DocId>) -> bool {
    &&& ops.len() == positions.len()
    &&& forall|k: int|
        0 <= k < ops.len() ==> {
            &&& (#[trigger] ops[k]).position == positions[k]
            &&& positions[k] < ids.len()
            &&& ops[k].doc_id@ == ids[positions[k] as int].text()
            &&& ops[k].routing@ == ids[positions[k] as int].text()
        }
}

pub open spec fn describes(a: Action, e: Expect, ids: Seq<DocId>) -> bool {
    match e {
        Expect::Probe => a is ProbeIndex,
        Expect::Delete => a is DeleteIndex,
        Expect::Create => a matches Action::CreateIndex(s) && s.is_standard(),
        Expect::Refresh(r) => a matches Action::SetRefresh(x) && x == r,
        Expect::Check(id) => a matches Action::CheckExists(l) && l.doc_id@ == id.text()
            && l.routing@ == id.text(),
        Expect::Send(ps) => a matches Action::Submit(ops) && is_batch(ops@, ps, ids),
        Expect::Finish(o) => a matches Action::Finish(x) && x == o,
    }
}

pub open spec fn ids_of(posts: Seq<Post>) -> Seq<DocId> {
    posts.map_values(|p: Post| p.spec_id())
}

pub open spec fn all_positions(n: nat) -> Seq<usize> {
    Seq::new(n, |i: int| i as usize)
}

/// Whether the report holds a failed item with id `t`.
pub open spec fn reported_failed(items: Seq<BulkItem>, t: Seq<char>) -> bool {
    exists|k: int| 0 <= k < items.len() && (#[trigger] items[k]).failed && items[k].id@ == t
}

pub open spec fn has_failure(items: Seq<BulkItem>) -> bool {
    exists|k: int| 0 <= k < items.len() && (#[trigger] items[k]).failed
}

/// The positions among the first `n` documents whose id the report lists as failed.
pub open spec fn retry_positions(ids: Seq<DocId>, items: Seq<BulkItem>, n: nat) -> Seq<usize>
    decreases n,
{
    if n == 0 {
        Seq::empty()
    } else {
        let earlier = retry_positions(ids, items, (n - 1) as nat);
        if reported_failed(items, ids[n - 1].text()) {
            earlier.push((n - 1) as usize)
        } else {
            earlier
        }
    }
}

/// Drives one indexing operation: make sure the index exists, suspend refresh,
/// refuse documents that are already stored, write the batch, retry the failed
/// part once, restore refresh, report.
pub struct IndexSession {
    pub phase: Phase,
    pub ids: Vec<DocId>,
    pub force: bool,
    /// How many bulk requests the session has sent.
    pub sent: Ghost<nat>,
}

impl IndexSession {
    pub open spec fn wf(&self) -> bool {
        &&& self.ids@.len() <= usize::MAX
        &&& match self.phase {
            Phase::Probing | Phase::Deleting | Phase::Creating | Phase::Suspending => self.sent@
                == 0,
            Phase::Checking { next } => self.sent@ == 0 && next < self.ids@.len(),
            Phase::Submitted => self.sent@ == 1,
            Phase::Retried => self.sent@ == 2,
            Phase::Restoring { .. } | Phase::Done => self.sent@ <= 2,
        }
    }

    /// The phases that wait for a status code.
    pub open spec fn awaits_status(&self) -> bool {
        match self.phase {
            Phase::Submitted | Phase::Retried | Phase::Done => false,
            _ => true,
        }
    }

    /// The phases that wait for a bulk report.
    pub open spec fn awaits_report(&self) -> bool {
        self.phase is Submitted || self.phase is Retried
    }

    /// The step after the checks, or straight after suspending refresh when there
    /// is nothing to check.
    pub open spec fn checking_from(&self, i: nat) -> (Phase, Expect) {
        if i < self.ids@.len() {
            (Phase::Checking { next: i as usize }, Expect::Check(self.ids@[i as int]))
        } else if self.ids@.len() == 0 {
            (Phase::Restoring { outcome: Ok(()) }, Expect::Refresh(RefreshSetting::Default))
        } else {
            (Phase::Submitted, Expect::Send(all_positions(self.ids@.len())))
        }
    }

    /// Where a status answer leads.
    pub open spec fn after_status(&self, answer: Result<u16, RepoError>) -> (Phase, Expect) {
        match self.phase {
            Phase::Probing => match answer {
                Err(e) => (Phase::Done, Expect::Finish(Err(e))),
                Ok(s) => if is_success(s) && self.force {
                    (Phase::Deleting, Expect::Delete)
                } else if s == NOT_FOUND || self.force {
                    (Phase::Creating, Expect::Create)
                } else {
                    (Phase::Suspending, Expect::Refresh(RefreshSetting::Suspended))
                },
            },
            Phase::Deleting => (Phase::Creating, Expect::Create),
            Phase::Creating => match answer {
                Err(e) => (Phase::Done, Expect::Finish(Err(e))),
                Ok(_) => (Phase::Suspending, Expect::Refresh(RefreshSetting::Suspended)),
            },
            Phase::Suspending => self.checking_from(0),
            Phase::Checking { next } => if found(answer) {
                (
                    Phase::Restoring { outcome: Err(RepoError::Conflict) },
                    Expect::Refresh(RefreshSetting::Default),
                )
            } else {
                self.checking_from((next + 1) as nat)
            },
            Phase::Restoring { outcome } => (Phase::Done, Expect::Finish(outcome)),
            _ => (Phase::Done, Expect::Finish(Ok(()))),
        }
    }

    /// Where a bulk report leads.
    pub open spec fn after_report(&self, answer: Result<BulkReport, RepoError>) -> (Phase, Expect) {
        let restore = Expect::Refresh(RefreshSetting::Default);
        match answer {
            Err(e) => (Phase::Restoring { outcome: Err(e) }, restore),
            Ok(rep) => if !rep.errors {
                (Phase::Restoring { outcome: Ok(()) }, restore)
            } else if self.phase is Retried {
                (Phase::Restoring { outcome: Err(RepoError::PartialBulkFailure) }, restore)
            } else {
                let ps = retry_positions(self.ids@, rep.items@, self.ids@.len());
                if ps.len() > 0 {
                    (Phase::Retried, Expect::Send(ps))
                } else if has_failure(rep.items@) {
                    (Phase::Restoring { outcome: Err(RepoError::PartialBulkFailure) }, restore)
                } else {
                    (Phase::Restoring { outcome: Ok(()) }, restore)
                }
            },
        }
    }

    pub open spec fn sends(e: Expect) -> nat {
        if e is Send {
            1
        } else {
            0
        }
    }

    /// Starts indexing `posts`; with `force`, an existing index is dropped and
    /// created anew.
    pub fn start(posts: &Vec<Post>, force: bool) -> (r: (IndexSession, Action))
        ensures
            r.0.wf(),
            r.0.phase is Probing,
            r.0.ids@ == ids_of(posts@),
            r.0.force == force,
            r.0.sent@ == 0,
            r.1 is ProbeIndex,
    {
        let mut ids: Vec<DocId> = Vec::new();
        let mut i: usize = 0;
        while i < posts.len()
            invariant
                i <= posts@.len(),
                ids@ == ids_of(posts@.subrange(0, i as int)),
            decreases posts@.len() - i,
        {
            ids.push(posts[i].id());
            proof {
                assert(ids_of(posts@.subrange(0, i + 1)) =~= ids_of(posts@.subrange(0, i as int)).push(
                    posts@[i as int].spec_id(),
                ));
            }
            i = i + 1;
        }
        assert(posts@.subrange(0, posts@.len() as int) =~= posts@);
        let _count = ids.len();
        (IndexSession { phase: Phase::Probing, ids, force, sent: Ghost(0) }, Action::ProbeIndex)
    }

    pub fn is_done(&self) -> (r: bool)
        ensures
            r == self.phase is Done,
    {
        matches!(self.phase, Phase::Done)
    }

    pub fn wants_report(&self) -> (r: bool)
        ensures
            r == self.awaits_report(),
    {
        matches!(self.phase, Phase::Submitted | Phase::Retried)
    }

    fn check_or_send(&mut self, i: usize) -> (a: Action)
        requires
            i <= old(self).ids@.len(),
            old(self).sent@ == 0,
        ensures
            final(self).ids == old(self).ids,
            final(self).force == old(self).force,
            final(self).phase == old(self).checking_from(i as nat).0,
            describes(a, old(self).checking_from(i as nat).1, old(self).ids@),
            final(self).sent@ == Self::sends(old(self).checking_from(i as nat).1),
    {
        if i < self.ids.len() {
            self.phase = Phase::Checking { next: i };
            Action::CheckExists(lookup_for(self.ids[i]))
        } else if self.ids.len() == 0 {
            self.phase = Phase::Restoring { outcome: Ok(()) };
            Action::SetRefresh(RefreshSetting::Default)
        } else {
            self.phase = Phase::Submitted;
            self.sent = Ghost(1);
            let ops = batch_of(&self.ids);
            Action::Submit(ops)
        }
    }

    /// Takes the status answer to the last action and returns the next one.
    pub fn on_status(&mut self, answer: Result<u16, RepoError>) -> (a: Action)
        requires
            old(self).wf(),
            old(self).awaits_status(),
        ensures
            final(self).wf(),
            final(self).ids == old(self).ids,
            final(self).force == old(self).force,
            final(self).phase == old(self).after_status(answer).0,
            describes(a, old(self).after_status(answer).1, old(self).ids@),
            final(self).sent@ == old(self).sent@ + Self::sends(old(self).after_status(answer).1),
    {
        let mut phase = Phase::Done;
        core::mem::swap(&mut phase, &mut self.phase);
        match phase {
            Phase::Probing => match answer {
                Err(e) => Action::Finish(Err(e)),
                Ok(s) => {
                    if success(s) && self.force {
                        self.phase = Phase::Deleting;
                        Action::DeleteIndex
                    } else if s == NOT_FOUND || self.force {
                        self.phase = Phase::Creating;
                        Action::CreateIndex(IndexSchema::standard())
                    } else {
                        self.phase = Phase::Suspending;
                        Action::SetRefresh(RefreshSetting::Suspended)
                    }
                },
            },
            Phase::Deleting => {
                self.phase = Phase::Creating;
                Action::CreateIndex(IndexSchema::standard())
            },
            Phase::Creating => match answer {
                Err(e) => Action::Finish(Err(e)),
                Ok(_) => {
                    self.phase = Phase::Suspending;
                    Action::SetRefresh(RefreshSetting::Suspended)
                },
            },
            Phase::Suspending => self.check_or_send(0),
            Phase::Checking { next } => {
                let count = self.ids.len();
                if exists_from_answer(&answer) {
                    self.phase = Phase::Restoring { outcome: Err(RepoError::Conflict) };
                    Action::SetRefresh(RefreshSetting::Default)
                } else {
                    assert(next < count);
                    self.check_or_send(next + 1)
                }
            },
            Phase::Restoring { outcome } => Action::Finish(outcome),
            _ => Action::Finish(Ok(())),
        }
    }

    /// Takes the report of the last bulk request and returns the next action.
    pub fn on_report(&mut self, answer: Result<BulkReport, RepoError>) -> (a: Action)
        requires
            old(self).wf(),
            old(self).awaits_report(),
        ensures
            final(self).wf(),
            final(self).ids == old(self).ids,
            final(self).force == old(self).force,
            final(self).phase == old(self).after_report(answer).0,
            describes(a, old(self).after_report(answer).1, old(self).ids@),
            final(self).sent@ == old(self).sent@ + Self::sends(old(self).after_report(answer).1),
    {
        let retried = matches!(self.phase, Phase::Retried);
        match answer {
            Err(e) => {
                self.phase = Phase::Restoring { outcome: Err(e) };
                Action::SetRefresh(RefreshSetting::Default)
            },
            Ok(rep) => {
                if !rep.errors {
                    self.phase = Phase::Restoring { outcome: Ok(()) };
                    Action::SetRefresh(RefreshSetting::Default)
                } else if retried {
                    self.phase = Phase::Restoring { outcome: Err(RepoError::PartialBulkFailure) };
                    Action::SetRefresh(RefreshSetting::Default)
                } else {
                    let ps = retry_plan(&self.ids, &rep.items);
                    if ps.len() > 0 {
                        self.phase = Phase::Retried;
                        self.sent = Ghost(2);
                        Action::Submit(ops_at(&self.ids, &ps))
                    } else if any_failure(&rep.items) {
                        self.phase = Phase::Restoring {
                            outcome: Err(RepoError::PartialBulkFailure),
                        };
                        Action::SetRefresh(RefreshSetting::Default)
                    } else {
                        self.phase = Phase::Restoring { outcome: Ok(()) };
                        Action::SetRefresh(RefreshSetting::Default)
                    }
                }
            },
        }
    }
}


/// What the engine holds under the index name, as index setup sees it.
pub enum IndexState {
    Absent,
    Present { properties: Seq<Property> },
}

/// How the engine answers the setup steps: a probe finds the index or answers
/// 404; a delete removes it; a create makes it with the standard schema if it
/// is absent and is refused with 400 otherwise.
pub open spec fn engine_answer(st: IndexState, e: Expect) -> (IndexState, u16) {
    match e {
        Expect::Probe => (st, if st is Absent {
            NOT_FOUND
        } else {
            200
        }),
        Expect::Delete => (IndexState::Absent, 200),
        Expect::Create => if st is Absent {
            (IndexState::Present { properties: schema_properties() }, 200)
        } else {
            (st, 400)
        },
        _ => (st, 200),
    }
}

/// The index after the session's setup steps run against the engine, starting
/// with the pending action `e`, for at most `fuel` steps.
pub open spec fn setup_run(s: IndexSession, e: Expect, st: IndexState, fuel: nat) -> IndexState
    decreases fuel,
{
    if fuel == 0 || !(s.phase is Probing || s.phase is Deleting || s.phase is Creating) {
        st
    } else {
        let (next_state, code) = engine_answer(st, e);
        let (phase, next) = s.after_status(Ok(code));
        setup_run(
            IndexSession { phase, ids: s.ids, force: s.force, sent: s.sent },
            next,
            next_state,
            (fuel - 1) as nat,
        )
    }
}

/// The index after one setup that starts from `s`.
pub open spec fn ensure_index(s: IndexSession, st: IndexState) -> IndexState {
    setup_run(s, Expect::Probe, st, 3)
}

/// Setting up the index without forced recreation twice leaves it as setting it
/// up once does; setup makes an absent index with the standard schema, and a
/// forced one replaces any index with the standard schema.
pub proof fn lemma_setup_idempotent(s: IndexSession, st: IndexState)
    requires
        s.phase is Probing,
    ensures
        !s.force ==> ensure_index(s, ensure_index(s, st)) == ensure_index(s, st),
        !s.force && st is Present ==> ensure_index(s, st) == st,
        st is Absent || s.force ==> ensure_index(s, st) == (IndexState::Present {
            properties: schema_properties(),
        }),
{
    reveal_with_fuel(setup_run, 4);
}

/// A document that the pre-flight check finds stops the operation: refresh is
/// restored, the outcome is `Conflict`, and no bulk request is ever sent.
pub proof fn lemma_duplicate_refused(
    s: IndexSession,
    answer: Result<u16, RepoError>,
    restored: Result<u16, RepoError>,
)
    requires
        s.wf(),
        s.phase is Checking,
        found(answer),
    ensures
        s.sent@ == 0,
        s.after_status(answer) == (
            Phase::Restoring { outcome: Err(RepoError::Conflict) },
            Expect::Refresh(RefreshSetting::Default),
        ),
        (IndexSession { phase: s.after_status(answer).0, ids: s.ids, force: s.force, sent: s.sent }).after_status(restored)
            == (Phase::Done, Expect::Finish(Err(RepoError::Conflict))),
{
}

proof fn lemma_retry_members(ids: Seq<DocId>, items: Seq<BulkItem>, n: nat)
    requires
        n <= ids.len(),
        ids.len() <= usize::MAX,
    ensures
        forall|k: int|
            0 <= k < retry_positions(ids, items, n).len() ==> {
                let p = #[trigger] retry_positions(ids, items, n)[k];
                p < n && reported_failed(items, ids[p as int].text())
            },
        forall|p: int|
            0 <= p < n && reported_failed(items, #[trigger] ids[p].text()) ==> retry_positions(
                ids,
                items,
                n,
            ).contains(p as usize),
        forall|i: int, j: int|
            0 <= i < j < retry_positions(ids, items, n).len() ==> retry_positions(ids, items, n)[i]
                < retry_positions(ids, items, n)[j],
    decreases n,
{
    if n > 0 {
        let m = (n - 1) as nat;
        lemma_retry_members(ids, items, m);
        let earlier = retry_positions(ids, items, m);
        if reported_failed(items, ids[m as int].text()) {
            let now = earlier.push(m as usize);
            assert forall|p: int|
                0 <= p < n && reported_failed(items, #[trigger] ids[p].text()) implies now.contains(
                p as usize,
            ) by {
                if p < m {
                    let k = choose|k: int| 0 <= k < earlier.len() && earlier[k] == p as usize;
                    assert(now[k] == p as usize);
                } else {
                    assert(now[now.len() - 1] == p as usize);
                }
            }
        }
    }
}

/// After a first report with failures, the documents whose ids it reports
/// failed are sent again, each once, in order, in one request; the report of
/// that retry alone decides the outcome, and nothing is sent after it.
pub proof fn lemma_single_retry(
    s: IndexSession,
    first: BulkReport,
    second: Result<BulkReport, RepoError>,
)
    requires
        s.wf(),
        s.phase is Submitted,
        first.errors,
        retry_positions(s.ids@, first.items@, s.ids@.len()).len() > 0,
    ensures
        ({
            let ps = retry_positions(s.ids@, first.items@, s.ids@.len());
            &&& s.after_report(Ok(first)) == (Phase::Retried, Expect::Send(ps))
            &&& forall|p: int|
                0 <= p < s.ids@.len() ==> (ps.contains(p as usize) <==> reported_failed(
                    first.items@,
                    #[trigger] s.ids@[p].text(),
                ))
            &&& forall|i: int, j: int| 0 <= i < j < ps.len() ==> ps[i] < ps[j]
        }),
        ({
            let retried = IndexSession { phase: Phase::Retried, ids: s.ids, force: s.force, sent: Ghost(2) };
            retried.after_report(second) == match second {
                Err(e) => (Phase::Restoring { outcome: Err(e) }, Expect::Refresh(RefreshSetting::Default)),
                Ok(r) => if r.errors {
                    (
                        Phase::Restoring { outcome: Err(RepoError::PartialBulkFailure) },
                        Expect::Refresh(RefreshSetting::Default),
                    )
                } else {
                    (Phase::Restoring { outcome: Ok(()) }, Expect::Refresh(RefreshSetting::Default))
                },
            }
        }),
{
    let ids = s.ids@;
    let n = ids.len();
    let ps = retry_positions(ids, first.items@, n);
    lemma_retry_members(ids, first.items@, n);
    assert forall|p: int| 0 <= p < n implies (ps.contains(p as usize) <==> reported_failed(
        first.items@,
        #[trigger] ids[p].text(),
    )) by {
        if ps.contains(p as usize) {
            let k = choose|k: int| 0 <= k < ps.len() && ps[k] == p as usize;
            assert(ps[k] < n);
        }
    }
}

/// Every request about a document is keyed and routed by that document's id
/// text: its pre-flight lookup, its operation in a bulk batch, and the partial
/// update that matches it.
pub proof fn lemma_routing_consistent(
    posts: Seq<Post>,
    k: int,
    check: Action,
    batch: Action,
    positions: Seq<usize>,
    j: int,
    update: UpdateSpec,
)
    requires
        0 <= k < posts.len(),
        describes(check, Expect::Check(ids_of(posts)[k]), ids_of(posts)),
        describes(batch, Expect::Send(positions), ids_of(posts)),
        0 <= j < positions.len(),
        positions[j] == k,
        posts[k].is_update_of(update),
    ensures
        ({
            let t = posts[k].spec_id().text();
            &&& check->CheckExists_0.doc_id@ == t
            &&& check->CheckExists_0.routing@ == t
            &&& batch->Submit_0@[j].doc_id@ == t
            &&& batch->Submit_0@[j].routing@ == t
            &&& update.match_id@ == t
        }),
{
    let ops = batch->Submit_0@;
    assert(ops[j].position == positions[j]);
}

/// The slots of a bulk report that hold a failed item.
pub open spec fn failed_slots(items: Seq<BulkItem>) -> Set<int> {
    Set::new(|k: int| 0 <= k < items.len() && items[k].failed)
}

/// When the documents' ids are distinct and the report names each failed
/// document once, by an id of the batch, the retry batch holds exactly as
/// many documents as the report has failed items.
pub proof fn lemma_retry_size(ids: Seq<DocId>, items: Seq<BulkItem>)
    requires
        ids.len() <= usize::MAX,
        forall|i: int, j: int|
            0 <= i < ids.len() && 0 <= j < ids.len() && i != j ==> #[trigger] ids[i].text()
                != #[trigger] ids[j].text(),
        forall|k1: int, k2: int|
            #[trigger] failed_slots(items).contains(k1) && #[trigger] failed_slots(items).contains(k2)
                && k1 != k2 ==> items[k1].id@ != items[k2].id@,
        forall|k: int|
            #[trigger] failed_slots(items).contains(k) ==> exists|p: int|
                0 <= p < ids.len() && #[trigger] ids[p].text() == items[k].id@,
    ensures
        failed_slots(items).finite(),
        retry_positions(ids, items, ids.len()).len() == failed_slots(items).len(),
{
    let n = ids.len();
    let ps = retry_positions(ids, items, n);
    let slots = failed_slots(items);
    lemma_retry_members(ids, items, n);
    // the batch holds no position twice
    assert(ps.no_duplicates()) by {
        assert forall|i: int, j: int| 0 <= i < ps.len() && 0 <= j < ps.len() && i != j implies ps[i]
            != ps[j] by {
            if i < j {
                assert(ps[i] < ps[j]);
            } else {
                assert(ps[j] < ps[i]);
            }
        }
    }
    ps.unique_seq_to_set();
    let positions = ps.to_set();
    // the failed slots are finite, and their ids are as many as they are
    lemma_int_range(0, items.len() as int);
    assert(slots.subset_of(set_int_range(0, items.len() as int)));
    lemma_len_subset(slots, set_int_range(0, items.len() as int));
    let id_of_slot = |k: int| items[k].id@;
    let texts = slots.map(id_of_slot);
    assert(injective_on(id_of_slot, slots));
    lemma_map_size(slots, texts, id_of_slot);
    // the positions of the batch name those same ids, one each
    let text_of_position = |p: usize| ids[p as int].text();
    assert(positions.finite());
    assert(injective_on(text_of_position, positions)) by {
        assert forall|p1: usize, p2: usize|
            positions.contains(p1) && positions.contains(p2) && text_of_position(p1)
                == text_of_position(p2) implies p1 == p2 by {
            let k1 = choose|k: int| 0 <= k < ps.len() && ps[k] == p1;
            let k2 = choose|k: int| 0 <= k < ps.len() && ps[k] == p2;
            assert(ps[k1] < n && ps[k2] < n);
        }
    }
    assert(positions.map(text_of_position) =~= texts) by {
        assert forall|t: Seq<char>| positions.map(text_of_position).contains(t) implies texts.contains(
            t,
        ) by {
            let p = choose|p: usize| positions.contains(p) && t == text_of_position(p);
            let k = choose|k: int| 0 <= k < ps.len() && ps[k] == p;
            assert(ps[k] < n && reported_failed(items, ids[p as int].text()));
            let s = choose|s: int|
                0 <= s < items.len() && (#[trigger] items[s]).failed && items[s].id@ == ids[p as int].text();
            assert(slots.contains(s) && t == id_of_slot(s));
        }
        assert forall|t: Seq<char>| texts.contains(t) implies positions.map(text_of_position).contains(
            t,
        ) by {
            let s = choose|s: int| slots.contains(s) && t == id_of_slot(s);
            let p = choose|p: int| 0 <= p < n && #[trigger] ids[p].text() == items[s].id@;
            assert(items[s].failed && items[s].id@ == ids[p].text());
            assert(reported_failed(items, ids[p].text()));
            assert(ps.contains(p as usize));
            assert(positions.contains(p as usize) && t == text_of_position(p as usize));
        }
    }
    lemma_map_size(positions, texts, text_of_position);
}

/// Once refresh is suspended, the session never finishes without restoring
/// it first: every step out of the later phases either goes on with the work
/// or enters `Restoring` together with the request to restore refresh,
/// whatever the answer was.
pub proof fn lemma_refresh_restored(
    s: IndexSession,
    status: Result<u16, RepoError>,
    report: Result<BulkReport, RepoError>,
)
    requires
        s.wf(),
        s.phase is Suspending || s.phase is Checking || s.phase is Submitted || s.phase is Retried,
    ensures
        s.awaits_status() ==> !(s.after_status(status).1 is Finish) && (s.after_status(status).0 is Restoring
            <==> s.after_status(status).1 == Expect::Refresh(RefreshSetting::Default)),
        s.awaits_report() ==> !(s.after_report(report).1 is Finish) && (s.after_report(report).0 is Restoring
            <==> s.after_report(report).1 == Expect::Refresh(RefreshSetting::Default)),
{
}

/// The operations for the documents at `positions`.
fn ops_at(ids: &Vec<DocId>, positions: &Vec<usize>) -> (r: Vec<BulkOp>)
    requires
        forall|k: int| 0 <= k < positions@.len() ==> #[trigger] positions@[k] < ids@.len(),
    ensures
        is_batch(r@, positions@, ids@),
{
    let mut ops: Vec<BulkOp> = Vec::new();
    let mut k: usize = 0;
    while k < positions.len()
        invariant
            k <= positions@.len(),
            forall|j: int| 0 <= j < positions@.len() ==> #[trigger] positions@[j] < ids@.len(),
            is_batch(ops@, positions@.subrange(0, k as int), ids@),
        decreases positions@.len() - k,
    {
        let p = positions[k];
        let id = ids[p];
        ops.push(BulkOp { position: p, doc_id: id.to_text(), routing: id.to_text() });
        k = k + 1;
    }
    assert(positions@.subrange(0, positions@.len() as int) =~= positions@);
    ops
}

/// One operation per document, in order.
fn batch_of(ids: &Vec<DocId>) -> (r: Vec<BulkOp>)
    ensures
        is_batch(r@, all_positions(ids@.len()), ids@),
{
    let mut positions: Vec<usize> = Vec::new();
    let mut i: usize = 0;
    while i < ids.len()
        invariant
            i <= ids@.len(),
            positions@ =~= all_positions(i as nat),
        decreases ids@.len() - i,
    {
        positions.push(i);
        i = i + 1;
    }
    ops_at(ids, &positions)
}

fn failed_with(items: &Vec<BulkItem>, t: &String) -> (r: bool)
    ensures
        r == reported_failed(items@, t@),
{
    let mut k: usize = 0;
    while k < items.len()
        invariant
            k <= items@.len(),
            forall|j: int| 0 <= j < k ==> !((#[trigger] items@[j]).failed && items@[j].id@ == t@),
        decreases items@.len() - k,
    {
        if items[k].failed && items[k].id == *t {
            return true;
        }
        k = k + 1;
    }
    false
}

fn any_failure(items: &Vec<BulkItem>) -> (r: bool)
    ensures
        r == has_failure(items@),
{
    let mut k: usize = 0;
    while k < items.len()
        invariant
            k <= items@.len(),
            forall|j: int| 0 <= j < k ==> !(#[trigger] items@[j]).failed,
        decreases items@.len() - k,
    {
        if items[k].failed {
            return true;
        }
        k = k + 1;
    }
    false
}

/// The positions of the documents to send again.
fn retry_plan(ids: &Vec<DocId>, items: &Vec<BulkItem>) -> (r: Vec<usize>)
    ensures
        r@ == retry_positions(ids@, items@, ids@.len()),
        forall|k: int| 0 <= k < r@.len() ==> #[trigger] r@[k] < ids@.len(),
{
    let mut ps: Vec<usize> = Vec::new();
    let mut i: usize = 0;
    while i < ids.len()
        invariant
            i <= ids@.len(),
            ps@ == retry_positions(ids@, items@, i as nat),
            forall|k: int| 0 <= k < ps@.len() ==> #[trigger] ps@[k] < i,
        decreases ids@.len() - i,
    {
        let t = ids[i].to_text();
        if failed_with(items, &t) {
            ps.push(i);
        }
        i = i + 1;
    }
    ps
}

} // verus!
