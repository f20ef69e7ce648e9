//! Laws of the cell: what its transitions guarantee in combination.

use vstd::prelude::*;

use crate::cell::bootstrapped;
use crate::cell::deposited;
use crate::cell::fresh_cell;
use crate::cell::promoted;
use crate::cell::ModuleView;

verus! {

/// One thing that can happen to a started cell: the subscription reports a
/// modification (carrying the re-read of the backing file, or nothing when
/// that read failed), or an accessor drains the pending slot.
pub enum CellEvent {
    Notify(Option<Seq<u8>>),
    Promote,
}

/// The state after one event.
pub open spec fn after_event(m: ModuleView, e: CellEvent) -> ModuleView {
    match e {
        CellEvent::Notify(Some(b)) => deposited(m, b),
        CellEvent::Notify(None) => m,
        CellEvent::Promote => promoted(m),
    }
}

/// The state after a whole history of events, oldest first.
pub open spec fn after_events(m: ModuleView, es: Seq<CellEvent>) -> ModuleView
    decreases es.len(),
{
    if es.len() == 0 {
        m
    } else {
        after_event(after_events(m, es.drop_last()), es.last())
    }
}

/// The newest generation a history deposited, if it deposited any.
pub open spec fn newest_deposit(es: Seq<CellEvent>) -> Option<Seq<u8>>
    decreases es.len(),
{
    if es.len() == 0 {
        None
    } else {
        match es.last() {
            CellEvent::Notify(Some(b)) => Some(b),
            _ => newest_deposit(es.drop_last()),
        }
    }
}

/// What the next load exposes in a given state: the pending generation if
/// one waits, else the current one.
pub open spec fn exposed(m: ModuleView) -> Seq<u8> {
    promoted(m).current
}

/// The content a history converges to: its newest deposit, or, when it
/// deposited nothing, whatever the cell already exposed.
pub open spec fn converged_content(m: ModuleView, es: Seq<CellEvent>) -> Seq<u8> {
    match newest_deposit(es) {
        Some(b) => b,
        None => exposed(m),
    }
}

/// The first read is exact: a cell bootstrapped with `b` and not yet
/// touched by any deposit exposes exactly `b`.
pub proof fn lemma_first_load_exact(path: Seq<char>, b: Seq<u8>)
    ensures
        promoted(bootstrapped(fresh_cell(path), b)).current == b,
{
}

/// Freshness: once `b` is deposited, the very next promotion exposes
/// exactly `b`, whatever the cell held before, and drains the slot.
pub proof fn lemma_deposit_then_promote(m: ModuleView, b: Seq<u8>)
    ensures
        promoted(deposited(m, b)).current == b,
        promoted(deposited(m, b)).pending is None,
{
}

/// Coalescing: a deposit made before an older one was promoted replaces it
/// entirely, so the superseded generation can never be read again.
pub proof fn lemma_coalescing(m: ModuleView, b1: Seq<u8>, b2: Seq<u8>)
    ensures
        deposited(deposited(m, b1), b2) == deposited(m, b2),
        promoted(deposited(deposited(m, b1), b2)).current == b2,
{
    assert(deposited(deposited(m, b1), b2) =~= deposited(m, b2));
}

/// Reads are stable: promoting twice is the same as promoting once, so
/// repeated loads return the same generation until a new deposit arrives.
pub proof fn lemma_promote_idempotent(m: ModuleView)
    ensures
        promoted(promoted(m)) == promoted(m),
{
}

/// No torn reads: a promotion exposes either the old current generation or
/// the deposited one, whole — never a mixture of the two.
pub proof fn lemma_complete_generation(m: ModuleView)
    ensures
        promoted(m).current == m.current || (m.pending is Some && promoted(m).current
            == m.pending.unwrap()),
        m.pending is None ==> promoted(m) == m,
{
}

/// Convergence: after any history of modifications — failed re-reads,
/// superseded deposits and interleaved promotions included — the next load
/// exposes exactly the newest deposited generation, whole; a history that
/// deposited nothing leaves what the cell already exposed. This is
/// coalescing and eventual freshness over arbitrary runs: no generation is
/// ever mixed, truncated, or resurrected after being superseded.
pub proof fn lemma_convergence(m: ModuleView, es: Seq<CellEvent>)
    ensures
        exposed(after_events(m, es)) == converged_content(m, es),
    decreases es.len(),
{
    if es.len() != 0 {
        let prefix = es.drop_last();
        lemma_convergence(m, prefix);
        match es.last() {
            CellEvent::Notify(_) => {}
            CellEvent::Promote => {
                lemma_promote_idempotent(after_events(m, prefix));
            }
        }
    }
}

/// Isolation: what a cell exposes is a function of its own state and its
/// own events alone, so two cells that expose the same content and see the
/// same history keep agreeing — and nothing done to one cell can enter
/// another's content.
pub proof fn lemma_isolation(m1: ModuleView, m2: ModuleView, es: Seq<CellEvent>)
    requires
        exposed(m1) == exposed(m2),
    ensures
        exposed(after_events(m1, es)) == exposed(after_events(m2, es)),
{
    lemma_convergence(m1, es);
    lemma_convergence(m2, es);
}

/// A cell never changes identity: every transition watches the same path.
pub proof fn lemma_path_constant(m: ModuleView, b: Seq<u8>)
    ensures
        bootstrapped(m, b).path == m.path,
        deposited(m, b).path == m.path,
        promoted(m).path == m.path,
{
}

/// The bootstrap is one-way: no transition ever clears `started`, so
/// exactly one bootstrap can run over a cell's whole life.
pub proof fn lemma_started_monotone(m: ModuleView, b: Seq<u8>)
    ensures
        bootstrapped(m, b).started,
        deposited(m, b).started == m.started,
        promoted(m).started == m.started,
{
}

/// Well-formedness is an invariant: every transition taken from the state
/// in which the cell takes it leaves the cell well formed. A deposit can
/// only come from the subscription, which exists only once started.
pub proof fn lemma_wf_preserved(m: ModuleView, b: Seq<u8>)
    requires
        m.wf(),
    ensures
        bootstrapped(m, b).wf(),
        m.started ==> deposited(m, b).wf(),
        promoted(m).wf(),
{
}

/// Construction really is empty: a fresh cell is well formed and unstarted.
pub proof fn lemma_fresh_cell_wf(path: Seq<char>)
    ensures
        fresh_cell(path).wf(),
        !fresh_cell(path).started,
{
}

} // verus!
