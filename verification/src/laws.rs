//! The guarantees of the orchestrator, stated and proved over the model:
//! exclusion of concurrent starts, monotonicity of the log under every
//! orchestrator write, the clearing of a published error by the next
//! accepted start, the stage tagging of failures, and the idempotence of
//! selection.

use vstd::prelude::*;

use crate::errors::{ErrorInfoView, ErrorKindView};
use crate::state::{
    StateModel, append_t, begin_t, end_err_t, end_ok_t, progress_t, results_t, select_t,
};
use crate::pipeline::{EventView, PipeView, failure_tag, install_fail_note, step_spec};

verus! {

/// A start request against the shared record: accepted exactly when no
/// operation is in flight, and otherwise rejected with no mutation at all.
pub open spec fn try_begin(m: StateModel, label: Seq<char>) -> (StateModel, bool) {
    if m.busy {
        (m, false)
    } else {
        (begin_t(m, label), true)
    }
}

/// A sequence of start requests delivered one after the other, as the
/// exclusion primitive serializes them: the state they leave behind and how
/// many of them were accepted.
pub open spec fn run_begins(m: StateModel, labels: Seq<Seq<char>>) -> (StateModel, int)
    decreases labels.len(),
{
    if labels.len() == 0 {
        (m, 0)
    } else {
        let first = try_begin(m, labels[0]);
        let rest = run_begins(first.0, labels.drop_first());
        (rest.0, rest.1 + if first.1 { 1int } else { 0int })
    }
}

/// Exclusion: of any sequence of start requests, at most one is accepted
/// and flips the busy flag; while an operation is in flight every start
/// request is rejected and the record is left exactly as it was.
pub proof fn lemma_exclusion(m: StateModel, labels: Seq<Seq<char>>)
    ensures
        run_begins(m, labels).1 <= 1,
        m.busy ==> run_begins(m, labels).0 == m && run_begins(m, labels).1 == 0,
    decreases labels.len(),
{
    if labels.len() > 0 {
        let first = try_begin(m, labels[0]);
        lemma_exclusion(first.0, labels.drop_first());
    }
}

/// Any single write the orchestrator may perform on the shared record.
/// Clearing the log is not among them: it is a caller request, never issued
/// by the orchestrator.
pub enum OrchestratorWrite {
    Begin { label: Seq<char> },
    Progress { label: Seq<char> },
    AppendLog { line: Seq<char> },
    EndOk { note: Seq<char> },
    EndErr { err: ErrorInfoView, note: Seq<char> },
    Results { rs: Seq<Seq<char>> },
    Selection { choice: Option<Seq<char>> },
}

/// The transition a single orchestrator write performs.
pub open spec fn apply_write(m: StateModel, w: OrchestratorWrite) -> StateModel {
    match w {
        OrchestratorWrite::Begin { label } => begin_t(m, label),
        OrchestratorWrite::Progress { label } => progress_t(m, label),
        OrchestratorWrite::AppendLog { line } => append_t(m, line),
        OrchestratorWrite::EndOk { note } => end_ok_t(m, note),
        OrchestratorWrite::EndErr { err, note } => end_err_t(m, err, note),
        OrchestratorWrite::Results { rs } => results_t(m, rs),
        OrchestratorWrite::Selection { choice } => select_t(m, choice),
    }
}

/// A sequence of orchestrator writes, applied in order.
pub open spec fn apply_writes(m: StateModel, ws: Seq<OrchestratorWrite>) -> StateModel
    decreases ws.len(),
{
    if ws.len() == 0 {
        m
    } else {
        apply_writes(apply_write(m, ws[0]), ws.drop_first())
    }
}

/// The record's invariant holds across every orchestrator write: while an
/// operation is in flight no error is published; an error appears only at
/// completion, together with the busy flag returning to false.
pub proof fn lemma_writes_preserve_wf(m: StateModel, w: OrchestratorWrite)
    requires
        m.wf(),
    ensures
        apply_write(m, w).wf(),
{
}

proof fn lemma_prefix_trans(a: Seq<Seq<char>>, b: Seq<Seq<char>>, c: Seq<Seq<char>>)
    requires
        a.is_prefix_of(b),
        b.is_prefix_of(c),
    ensures
        a.is_prefix_of(c),
{
    assert(a =~= c.subrange(0, a.len() as int));
}

/// Monotonic log: every single orchestrator write leaves the existing log
/// lines in place and in order, at most appending one.
pub proof fn lemma_log_monotonic(m: StateModel, w: OrchestratorWrite)
    ensures
        m.log.is_prefix_of(apply_write(m, w).log),
{
    assert(m.log =~= apply_write(m, w).log.subrange(0, m.log.len() as int));
}

/// Monotonic log over time: between any two snapshots separated by any
/// sequence of orchestrator writes, the earlier log is a prefix of the
/// later one — never reordered, never truncated except by an explicit
/// caller-requested clear.
pub proof fn lemma_log_monotonic_many(m: StateModel, ws: Seq<OrchestratorWrite>)
    ensures
        m.log.is_prefix_of(apply_writes(m, ws).log),
    decreases ws.len(),
{
    if ws.len() == 0 {
        assert(m.log =~= apply_writes(m, ws).log.subrange(0, m.log.len() as int));
    } else {
        let m1 = apply_write(m, ws[0]);
        lemma_log_monotonic(m, ws[0]);
        lemma_log_monotonic_many(m1, ws.drop_first());
        lemma_prefix_trans(m.log, m1.log, apply_writes(m, ws).log);
    }
}

/// Error clears on restart: after an operation has failed, the very next
/// start request is accepted, and it removes the published error before any
/// stage of the new operation runs.
pub proof fn lemma_error_clears(m: StateModel, err: ErrorInfoView, note: Seq<char>, label: Seq<char>)
    requires
        m.busy,
    ensures
        ({
            let failed = end_err_t(m, err, note);
            let restarted = try_begin(failed, label);
            !failed.busy && failed.error == Some(err) && restarted.1
                && restarted.0.error is None && restarted.0.busy
        }),
{
}

/// Stage tagging: when the outside work for a stage fails, the machine
/// publishes an error tagged with exactly that stage's failure domain,
/// leaves the busy state with a single failure log line, and issues no
/// further action — no later stage's side effects can occur.
pub proof fn lemma_stage_tagging(
    p: PipeView,
    m: StateModel,
    ev: EventView,
    kind: ErrorKindView,
)
    requires
        crate::pipeline::event_error(ev) == Some(kind),
    ensures
        ({
            let (p2, m2, a2) = step_spec(p, m, ev);
            a2 is None && p2.stage is Failed && !m2.busy
                && m2.error == Some(ErrorInfoView { stage: failure_tag(ev), kind })
                && m2.log == m.log.push(install_fail_note())
                && m2.search_results == m.search_results
                && m2.selected_package == m.selected_package
        }),
{
}

/// Idempotent selection: selecting an identifier touches the selection
/// field alone, so selecting the same identifier twice in a row is a no-op
/// beyond the first selection, and in particular no operation starts.
pub proof fn lemma_select_idempotent(m: StateModel, choice: Option<Seq<char>>)
    ensures
        select_t(select_t(m, choice), choice) == select_t(m, choice),
        select_t(m, choice).busy == m.busy,
        select_t(m, choice).progress == m.progress,
        select_t(m, choice).error == m.error,
        select_t(m, choice).log == m.log,
        select_t(m, choice).search_results == m.search_results,
        select_t(m, choice).package_name == m.package_name,
{
}

} // verus!
