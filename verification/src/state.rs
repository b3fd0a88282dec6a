//! The shared operation state: one record of progress, error, log, search
//! results and selection, written by the orchestrator and snapshotted by an
//! observing caller. Every mutation is an exact transition on the record's
//! mathematical image, so observers can never justify a torn or reordered
//! view from these contracts.

use vstd::prelude::*;

use crate::errors::{ErrorInfo, ErrorInfoView, OpError, clone_error_info};

verus! {

/// Mathematical image of the whole shared record.
#[verifier::ext_equal]
pub struct StateModel {
    pub package_name: Seq<char>,
    pub busy: bool,
    pub progress: Option<Seq<char>>,
    pub error: Option<ErrorInfoView>,
    pub log: Seq<Seq<char>>,
    pub search_results: Seq<Seq<char>>,
    pub selected_package: Option<Seq<char>>,
}

impl StateModel {
    /// The record's invariant: while an operation is in flight no error is
    /// published; an error only appears at completion, together with
    /// `busy` returning to false.
    pub open spec fn wf(self) -> bool {
        self.busy ==> self.error is None
    }
}

/// The state at process start: everything empty, nothing in flight.
pub open spec fn init_model() -> StateModel {
    StateModel {
        package_name: Seq::empty(),
        busy: false,
        progress: None,
        error: None,
        log: Seq::empty(),
        search_results: Seq::empty(),
        selected_package: None,
    }
}

/// Transition of a successful `begin_operation`: mark busy, clear the error
/// of any earlier failed operation, set the initial progress label.
pub open spec fn begin_t(m: StateModel, label: Seq<char>) -> StateModel {
    StateModel { busy: true, error: None, progress: Some(label), ..m }
}

/// Transition of `set_progress`: replace the stage label, nothing else.
pub open spec fn progress_t(m: StateModel, label: Seq<char>) -> StateModel {
    StateModel { progress: Some(label), ..m }
}

/// Transition of `log`: append one line, nothing else.
pub open spec fn append_t(m: StateModel, line: Seq<char>) -> StateModel {
    StateModel { log: m.log.push(line), ..m }
}

/// Transition of a successful `end_operation`: leave the busy state, clear
/// the progress label, append the completion log line.
pub open spec fn end_ok_t(m: StateModel, note: Seq<char>) -> StateModel {
    StateModel { busy: false, progress: None, log: m.log.push(note), ..m }
}

/// Transition of a failed `end_operation`: leave the busy state, clear the
/// progress label, publish the stage-tagged error, append the failure log
/// line.
pub open spec fn end_err_t(m: StateModel, err: ErrorInfoView, note: Seq<char>) -> StateModel {
    StateModel { busy: false, progress: None, error: Some(err), log: m.log.push(note), ..m }
}

/// Transition of `add_search_results`: replace the result list wholesale.
pub open spec fn results_t(m: StateModel, rs: Seq<Seq<char>>) -> StateModel {
    StateModel { search_results: rs, ..m }
}

/// Transition of `select_package`: replace the selection, nothing else.
pub open spec fn select_t(m: StateModel, p: Option<Seq<char>>) -> StateModel {
    StateModel { selected_package: p, ..m }
}

/// Transition of `clear_log`: the one caller-requested truncation.
pub open spec fn clear_log_t(m: StateModel) -> StateModel {
    StateModel { log: Seq::empty(), ..m }
}

/// The shared record. Field names match what an observer renders: `log` is
/// the append-only history, `is_running` the busy flag, `progress` the
/// current stage label, `error` the last terminal failure.
pub struct AppState {
    pub log: Vec<String>,
    pub package_name: String,
    pub is_running: bool,
    pub progress: Option<String>,
    pub error: Option<ErrorInfo>,
    pub search_results: Vec<String>,
    pub selected_package: Option<String>,
}

impl View for AppState {
    type V = StateModel;

    open spec fn view(&self) -> StateModel {
        StateModel {
            package_name: self.package_name@,
            busy: self.is_running,
            progress: self.progress.deep_view(),
            error: match self.error {
                Some(ref e) => Some(e@),
                None => None,
            },
            log: self.log.deep_view(),
            search_results: self.search_results.deep_view(),
            selected_package: self.selected_package.deep_view(),
        }
    }
}

impl AppState {
    /// The one shared instance is created at process start with all fields
    /// empty and no operation in flight.
    pub fn new() -> (s: AppState)
        ensures
            s@ == init_model(),
            s@.wf(),
    {
        let s = AppState {
            log: Vec::new(),
            package_name: String::new(),
            is_running: false,
            progress: None,
            error: None,
            search_results: Vec::new(),
            selected_package: None,
        };
        proof {
            assert(s@ =~= init_model());
        }
        s
    }

    /// Append one line to the history; the existing lines keep their order.
    pub fn log(&mut self, message: &str)
        ensures
            final(self)@ == append_t(old(self)@, message@),
    {
        self.log.push(message.to_owned());
        proof {
            assert(self@ =~= append_t(old(self)@, message@));
        }
    }

    /// Drop the whole history; the one truncation, available to the caller
    /// only and never performed by the orchestrator.
    pub fn clear_log(&mut self)
        ensures
            final(self)@ == clear_log_t(old(self)@),
    {
        self.log.clear();
        proof {
            assert(self@ =~= clear_log_t(old(self)@));
        }
    }

    /// Replace the search results wholesale with the latest answer.
    pub fn add_search_results(&mut self, results: Vec<String>)
        ensures
            final(self)@ == results_t(old(self)@, results.deep_view()),
    {
        self.search_results = results;
        proof {
            assert(self@ =~= results_t(old(self)@, results.deep_view()));
        }
    }

    /// Replace the selection; a caller action that touches nothing else, so
    /// repeating it with the same identifier changes nothing further.
    pub fn select_package(&mut self, package: Option<String>)
        ensures
            final(self)@ == select_t(old(self)@, package.deep_view()),
    {
        self.selected_package = package;
        proof {
            assert(self@ =~= select_t(old(self)@, package.deep_view()));
        }
    }

    /// Replace the current stage label.
    pub fn set_progress(&mut self, label: &str)
        ensures
            final(self)@ == progress_t(old(self)@, label@),
    {
        self.progress = Some(label.to_owned());
        proof {
            assert(self@ =~= progress_t(old(self)@, label@));
        }
    }

    /// Remove the stage label.
    pub fn clear_progress(&mut self)
        ensures
            final(self)@ == (StateModel { progress: None, ..old(self)@ }),
    {
        self.progress = None;
        proof {
            assert(self@ =~= (StateModel { progress: None, ..old(self)@ }));
        }
    }

    /// The exclusion primitive: succeeds exactly when no operation is in
    /// flight, and then atomically marks the record busy, clears the error
    /// of any earlier failed operation and sets the initial progress label.
    /// A start request while busy is rejected with `AlreadyBusy` and
    /// mutates no field at all.
    pub fn begin_operation(&mut self, label: &str) -> (r: Result<(), OpError>)
        ensures
            old(self)@.busy ==> (r matches Err(e) && e@ is AlreadyBusy
                && final(self)@ == old(self)@),
            !old(self)@.busy ==> (r is Ok
                && final(self)@ == begin_t(old(self)@, label@)),
            !old(self)@.busy ==> final(self)@.wf(),
    {
        if self.is_running {
            Err(OpError::AlreadyBusy)
        } else {
            self.is_running = true;
            self.error = None;
            self.progress = Some(label.to_owned());
            proof {
                assert(self@ =~= begin_t(old(self)@, label@));
            }
            Ok(())
        }
    }

    /// The single completion point, called exactly once per successful
    /// `begin_operation`, on every exit path: leaves the busy state and
    /// either records the completion line (success) or publishes the
    /// stage-tagged error beside the failure line (failure).
    pub fn end_operation(&mut self, outcome: Result<(), ErrorInfo>, note: &str)
        requires
            old(self)@.busy,
        ensures
            outcome matches Ok(()) ==> final(self)@ == end_ok_t(old(self)@, note@),
            outcome matches Err(e) ==> final(self)@ == end_err_t(old(self)@, e@, note@),
            final(self)@.wf(),
    {
        self.is_running = false;
        self.progress = None;
        match outcome {
            Ok(()) => {
                self.log.push(note.to_owned());
                proof {
                    assert(self@ =~= end_ok_t(old(self)@, note@));
                }
            }
            Err(e) => {
                let ghost ev = e@;
                self.error = Some(e);
                self.log.push(note.to_owned());
                proof {
                    assert(self@ =~= end_err_t(old(self)@, ev, note@));
                }
            }
        }
    }

    /// A consistent point-in-time copy of the whole record, taken while the
    /// caller holds it: the copy's image equals the record's image.
    pub fn snapshot(&self) -> (s: AppState)
        ensures
            s@ == self@,
    {
        let s = AppState {
            log: clone_string_vec(&self.log),
            package_name: self.package_name.clone(),
            is_running: self.is_running,
            progress: clone_string_opt(&self.progress),
            error: match &self.error {
                Some(e) => Some(clone_error_info(e)),
                None => None,
            },
            search_results: clone_string_vec(&self.search_results),
            selected_package: clone_string_opt(&self.selected_package),
        };
        proof {
            assert(s@ =~= self@);
        }
        s
    }
}

impl Default for AppState {
    /// Same initial record as `new`.
    fn default() -> (s: AppState)
        ensures
            s@ == init_model(),
    {
        AppState::new()
    }
}

/// An element-wise copy of a string list with the same image.
pub fn clone_string_vec(v: &Vec<String>) -> (r: Vec<String>)
    ensures
        r.deep_view() == v.deep_view(),
{
    let mut r: Vec<String> = Vec::new();
    let mut i: usize = 0;
    while i < v.len()
        invariant
            i <= v.len(),
            r@.len() == i,
            r.deep_view() == v.deep_view().take(i as int),
        decreases v.len() - i,
    {
        let ghost pre = r;
        r.push(v[i].clone());
        i = i + 1;
        proof {
            assert forall|j: int| 0 <= j && j < i as int implies r.deep_view()[j]
                == v.deep_view().take(i as int)[j] by {
                assert(r.deep_view()[j] == r@[j].deep_view());
                if j < i as int - 1 {
                    assert(r@[j] == pre@[j]);
                    assert(pre.deep_view()[j] == pre@[j].deep_view());
                } else {
                    assert(r@[j] == v@[i as int - 1]);
                    assert(v.deep_view()[j] == v@[j].deep_view());
                }
            }
            assert(r.deep_view() =~= v.deep_view().take(i as int));
        }
    }
    proof {
        assert(r.deep_view() =~= v.deep_view());
    }
    r
}

/// A copy of an optional string with the same image.
pub fn clone_string_opt(v: &Option<String>) -> (r: Option<String>)
    ensures
        r.deep_view() == v.deep_view(),
{
    match v {
        Some(s) => Some(s.clone()),
        None => None,
    }
}

} // verus!
