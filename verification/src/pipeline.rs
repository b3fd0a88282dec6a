//! The orchestrator: a strictly sequential, non-retrying state machine that
//! sequences the install pipeline (metadata fetch, download and extraction,
//! build, artifact lookup, install), the single-step uninstall and the index
//! search, all gated by the shared record's exclusion primitive.
//!
//! The machine only decides: every network request, archive extraction and
//! subprocess run is handed to the caller as an [`Action`], and the caller
//! feeds the outcome back as a [`StageEvent`]. A failure at any stage ends
//! the operation with an error tagged by that stage, and no later stage's
//! action is ever issued.

use vstd::prelude::*;

use crate::errors::{ErrorInfo, ErrorInfoView, ErrorKindView, OpError, Stage};
use crate::state::{
    AppState, StateModel, begin_t, end_err_t, end_ok_t, progress_t, results_t, select_t,
};
use crate::textutil::{
    archive_url, archive_url_spec, contains_spec, dest_path_for, dest_path_spec, find_package_file,
    first_artifact, info_url, info_url_spec, path_join, path_join_spec, search_url,
    search_url_spec, str_contains,
};

verus! {

/// Metadata the index returns for one package, passed by value from the
/// fetch stage into the download stage and not retained afterwards.
pub struct PackageMetadata {
    pub name: String,
    pub version: String,
    pub description: String,
    pub urlpath: String,
}

/// Mathematical image of `PackageMetadata`.
#[verifier::ext_equal]
pub struct MetadataView {
    pub name: Seq<char>,
    pub version: Seq<char>,
    pub description: Seq<char>,
    pub urlpath: Seq<char>,
}

impl View for PackageMetadata {
    type V = MetadataView;

    open spec fn view(&self) -> MetadataView {
        MetadataView {
            name: self.name@,
            version: self.version@,
            description: self.description@,
            urlpath: self.urlpath@,
        }
    }
}

/// Where the install pipeline stands. `Locate` is the artifact lookup
/// between a successful build and the install command; `Done` and `Failed`
/// are terminal.
#[derive(Clone, Copy, PartialEq, Eq, Structural, Debug)]
pub enum PipeStage {
    MetadataFetch,
    Download,
    Build,
    Locate,
    Install,
    Done,
    Failed,
}

/// Outside work the caller must perform next. The orchestrator computes
/// every address and path itself; the caller only executes.
pub enum Action {
    QueryIndex { url: String },
    FetchMetadata { package: String, url: String },
    DownloadAndExtract { url: String, dest: String },
    RunBuild { dir: String },
    ListArtifacts { dir: String },
    RunInstall { artifact: String },
    RunUninstall { package: String },
}

/// Mathematical image of an `Action`.
#[verifier::ext_equal]
pub enum ActionView {
    QueryIndex { url: Seq<char> },
    FetchMetadata { package: Seq<char>, url: Seq<char> },
    DownloadAndExtract { url: Seq<char>, dest: Seq<char> },
    RunBuild { dir: Seq<char> },
    ListArtifacts { dir: Seq<char> },
    RunInstall { artifact: Seq<char> },
    RunUninstall { package: Seq<char> },
}

impl View for Action {
    type V = ActionView;

    open spec fn view(&self) -> ActionView {
        match self {
            Action::QueryIndex { url } => ActionView::QueryIndex { url: url@ },
            Action::FetchMetadata { package, url } => ActionView::FetchMetadata {
                package: package@,
                url: url@,
            },
            Action::DownloadAndExtract { url, dest } => ActionView::DownloadAndExtract {
                url: url@,
                dest: dest@,
            },
            Action::RunBuild { dir } => ActionView::RunBuild { dir: dir@ },
            Action::ListArtifacts { dir } => ActionView::ListArtifacts { dir: dir@ },
            Action::RunInstall { artifact } => ActionView::RunInstall { artifact: artifact@ },
            Action::RunUninstall { package } => ActionView::RunUninstall { package: package@ },
        }
    }
}

impl DeepView for Action {
    type V = ActionView;

    open spec fn deep_view(&self) -> ActionView {
        self.view()
    }
}

/// The outcome of the outside work for one stage, fed back by the caller.
pub enum StageEvent {
    MetadataFetched(Result<PackageMetadata, OpError>),
    Downloaded(Result<(), OpError>),
    Built(Result<(), OpError>),
    ArtifactsListed(Result<Vec<String>, OpError>),
    Installed(Result<(), OpError>),
}

/// Mathematical image of a `StageEvent`.
#[verifier::ext_equal]
pub enum EventView {
    MetadataFetched(Result<MetadataView, ErrorKindView>),
    Downloaded(Result<(), ErrorKindView>),
    Built(Result<(), ErrorKindView>),
    ArtifactsListed(Result<Seq<Seq<char>>, ErrorKindView>),
    Installed(Result<(), ErrorKindView>),
}

impl View for StageEvent {
    type V = EventView;

    open spec fn view(&self) -> EventView {
        match self {
            StageEvent::MetadataFetched(Ok(meta)) => EventView::MetadataFetched(Ok(meta@)),
            StageEvent::MetadataFetched(Err(e)) => EventView::MetadataFetched(Err(e@)),
            StageEvent::Downloaded(Ok(())) => EventView::Downloaded(Ok(())),
            StageEvent::Downloaded(Err(e)) => EventView::Downloaded(Err(e@)),
            StageEvent::Built(Ok(())) => EventView::Built(Ok(())),
            StageEvent::Built(Err(e)) => EventView::Built(Err(e@)),
            StageEvent::ArtifactsListed(Ok(entries)) => EventView::ArtifactsListed(
                Ok(entries.deep_view()),
            ),
            StageEvent::ArtifactsListed(Err(e)) => EventView::ArtifactsListed(Err(e@)),
            StageEvent::Installed(Ok(())) => EventView::Installed(Ok(())),
            StageEvent::Installed(Err(e)) => EventView::Installed(Err(e@)),
        }
    }
}

/// One in-flight install operation: the requested identifier, the working
/// directory chosen after the metadata arrived, and the stage reached.
pub struct InstallPipeline {
    pub package: String,
    pub dest: String,
    pub stage: PipeStage,
}

/// Mathematical image of an `InstallPipeline`.
#[verifier::ext_equal]
pub struct PipeView {
    pub package: Seq<char>,
    pub dest: Seq<char>,
    pub stage: PipeStage,
}

impl View for InstallPipeline {
    type V = PipeView;

    open spec fn view(&self) -> PipeView {
        PipeView { package: self.package@, dest: self.dest@, stage: self.stage }
    }
}

/// The stage whose outcome a given event reports.
pub open spec fn event_stage(ev: EventView) -> PipeStage {
    match ev {
        EventView::MetadataFetched(_) => PipeStage::MetadataFetch,
        EventView::Downloaded(_) => PipeStage::Download,
        EventView::Built(_) => PipeStage::Build,
        EventView::ArtifactsListed(_) => PipeStage::Locate,
        EventView::Installed(_) => PipeStage::Install,
    }
}

/// The failure a stage event reports, if any.
pub open spec fn event_error(ev: EventView) -> Option<ErrorKindView> {
    match ev {
        EventView::MetadataFetched(Err(k)) => Some(k),
        EventView::Downloaded(Err(k)) => Some(k),
        EventView::Built(Err(k)) => Some(k),
        EventView::ArtifactsListed(Err(k)) => Some(k),
        EventView::Installed(Err(k)) => Some(k),
        _ => None,
    }
}

/// The error tag published when the stage reported by `ev` fails. Artifact
/// lookup belongs to the install step's failure domain.
pub open spec fn failure_tag(ev: EventView) -> Stage {
    match ev {
        EventView::MetadataFetched(_) => Stage::MetadataFetch,
        EventView::Downloaded(_) => Stage::Download,
        EventView::Built(_) => Stage::Build,
        EventView::ArtifactsListed(_) => Stage::Install,
        EventView::Installed(_) => Stage::Install,
    }
}

/// The progress label published when the operation begins.
pub open spec fn install_label() -> Seq<char> {
    "Install..."@
}

/// The log line appended when the whole install succeeds.
pub open spec fn install_done_note() -> Seq<char> {
    "Install completed."@
}

/// The log line appended when any install stage fails.
pub open spec fn install_fail_note() -> Seq<char> {
    "Install failed."@
}

/// Transition into the absorbing `Failed` state: end the operation with the
/// stage-tagged error, issue no further action.
pub open spec fn fail_t(p: PipeView, m: StateModel, tag: Stage, kind: ErrorKindView) -> (
    PipeView,
    StateModel,
    Option<ActionView>,
) {
    (
        PipeView { stage: PipeStage::Failed, ..p },
        end_err_t(m, ErrorInfoView { stage: tag, kind }, install_fail_note()),
        None,
    )
}

/// The whole install state machine as one transition function: from the
/// pipeline, the shared record and a stage outcome to their successors and
/// the next action the caller must perform, `None` once the operation has
/// ended. A failure takes effect through `fail_t` and never issues a later
/// stage's action.
pub open spec fn step_spec(p: PipeView, m: StateModel, ev: EventView) -> (
    PipeView,
    StateModel,
    Option<ActionView>,
) {
    match ev {
        EventView::MetadataFetched(Ok(meta)) => (
            PipeView { stage: PipeStage::Download, dest: dest_path_spec(meta.name), ..p },
            progress_t(m, "Downloading and extracting..."@),
            Some(
                ActionView::DownloadAndExtract {
                    url: archive_url_spec(meta.urlpath),
                    dest: dest_path_spec(meta.name),
                },
            ),
        ),
        EventView::MetadataFetched(Err(kind)) => fail_t(p, m, Stage::MetadataFetch, kind),
        EventView::Downloaded(Ok(())) => (
            PipeView { stage: PipeStage::Build, ..p },
            progress_t(m, "Building..."@),
            Some(ActionView::RunBuild { dir: p.dest }),
        ),
        EventView::Downloaded(Err(kind)) => fail_t(p, m, Stage::Download, kind),
        EventView::Built(Ok(())) => (
            PipeView { stage: PipeStage::Locate, ..p },
            progress_t(m, "Locating built package..."@),
            Some(ActionView::ListArtifacts { dir: p.dest }),
        ),
        EventView::Built(Err(kind)) => fail_t(p, m, Stage::Build, kind),
        EventView::ArtifactsListed(Ok(entries)) => match first_artifact(entries, p.package) {
            Some(f) => (
                PipeView { stage: PipeStage::Install, ..p },
                progress_t(m, "Installing..."@),
                Some(ActionView::RunInstall { artifact: path_join_spec(p.dest, f) }),
            ),
            None => fail_t(p, m, Stage::Install, ErrorKindView::ArtifactNotFound),
        },
        EventView::ArtifactsListed(Err(kind)) => fail_t(p, m, Stage::Install, kind),
        EventView::Installed(Ok(())) => (
            PipeView { stage: PipeStage::Done, ..p },
            end_ok_t(m, install_done_note()),
            None,
        ),
        EventView::Installed(Err(kind)) => fail_t(p, m, Stage::Install, kind),
    }
}

impl InstallPipeline {
    /// Deliver one stage outcome. The caller must deliver the outcome of
    /// exactly the stage the pipeline awaits, while the operation it began
    /// is still marked in flight.
    pub fn step(&mut self, st: &mut AppState, event: StageEvent) -> (next: Option<Action>)
        requires
            old(st)@.busy,
            old(st)@.wf(),
            old(self)@.stage == event_stage(event@),
        ensures
            ({
                let (p2, m2, a2) = step_spec(old(self)@, old(st)@, event@);
                final(self)@ == p2 && final(st)@ == m2 && next.deep_view() == a2
            }),
            final(st)@.wf(),
    {
        let ghost ev = event@;
        match event {
            StageEvent::MetadataFetched(Ok(meta)) => {
                let dest = dest_path_for(meta.name.as_str());
                let url = archive_url(meta.urlpath.as_str());
                self.dest = dest.clone();
                self.stage = PipeStage::Download;
                st.set_progress("Downloading and extracting...");
                proof {
                    assert(self@ =~= step_spec(old(self)@, old(st)@, ev).0);
                }
                Some(Action::DownloadAndExtract { url, dest })
            }
            StageEvent::MetadataFetched(Err(kind)) => self.fail(st, Stage::MetadataFetch, kind),
            StageEvent::Downloaded(Ok(())) => {
                self.stage = PipeStage::Build;
                st.set_progress("Building...");
                proof {
                    assert(self@ =~= step_spec(old(self)@, old(st)@, ev).0);
                }
                Some(Action::RunBuild { dir: self.dest.clone() })
            }
            StageEvent::Downloaded(Err(kind)) => self.fail(st, Stage::Download, kind),
            StageEvent::Built(Ok(())) => {
                self.stage = PipeStage::Locate;
                st.set_progress("Locating built package...");
                proof {
                    assert(self@ =~= step_spec(old(self)@, old(st)@, ev).0);
                }
                Some(Action::ListArtifacts { dir: self.dest.clone() })
            }
            StageEvent::Built(Err(kind)) => self.fail(st, Stage::Build, kind),
            StageEvent::ArtifactsListed(Ok(entries)) => {
                match find_package_file(&entries, self.package.as_str()) {
                    Some(f) => {
                        self.stage = PipeStage::Install;
                        st.set_progress("Installing...");
                        proof {
                            assert(self@ =~= step_spec(old(self)@, old(st)@, ev).0);
                        }
                        Some(
                            Action::RunInstall {
                                artifact: path_join(self.dest.as_str(), f.as_str()),
                            },
                        )
                    }
                    None => self.fail(st, Stage::Install, OpError::ArtifactNotFound),
                }
            }
            StageEvent::ArtifactsListed(Err(kind)) => self.fail(st, Stage::Install, kind),
            StageEvent::Installed(Ok(())) => {
                self.stage = PipeStage::Done;
                st.end_operation(Ok(()), "Install completed.");
                proof {
                    assert(self@ =~= step_spec(old(self)@, old(st)@, ev).0);
                }
                None
            }
            StageEvent::Installed(Err(kind)) => self.fail(st, Stage::Install, kind),
        }
    }

    /// Enter the absorbing failure state and end the operation with the
    /// stage-tagged error.
    fn fail(&mut self, st: &mut AppState, tag: Stage, kind: OpError) -> (next: Option<Action>)
        requires
            old(st)@.busy,
        ensures
            final(self)@ == (PipeView { stage: PipeStage::Failed, ..old(self)@ }),
            final(st)@ == end_err_t(
                old(st)@,
                (ErrorInfoView { stage: tag, kind: kind@ }),
                install_fail_note(),
            ),
            next is None,
            final(st)@.wf(),
    {
        self.stage = PipeStage::Failed;
        st.end_operation(Err(ErrorInfo { stage: tag, kind }), "Install failed.");
        None
    }
}

/// Begin an install operation on the named package. Succeeds exactly when
/// no operation is in flight; then the shared record is marked busy with the
/// install label and the caller must fetch the package's metadata from the
/// returned address. A request while busy is rejected with `AlreadyBusy`
/// and mutates nothing.
pub fn start_install(st: &mut AppState, package: &str) -> (r: Result<(InstallPipeline, Action), OpError>)
    ensures
        old(st)@.busy ==> (r matches Err(e) && e@ is AlreadyBusy && final(st)@ == old(st)@),
        !old(st)@.busy ==> (r matches Ok(pa) && final(st)@ == begin_t(old(st)@, install_label())
            && pa.0@ == (PipeView {
                package: package@,
                dest: Seq::empty(),
                stage: PipeStage::MetadataFetch,
            })
            && pa.1@ == (ActionView::FetchMetadata { package: package@, url: info_url_spec(package@) })),
        final(st)@.wf() || final(st)@ == old(st)@,
{
    match st.begin_operation("Install...") {
        Ok(()) => {
            let pipeline = InstallPipeline {
                package: package.to_owned(),
                dest: String::new(),
                stage: PipeStage::MetadataFetch,
            };
            let action = Action::FetchMetadata { package: package.to_owned(), url: info_url(package) };
            Ok((pipeline, action))
        }
        Err(e) => Err(e),
    }
}

/// Begin the single-stage uninstall of the named package, under the same
/// exclusion contract as the install pipeline.
pub fn start_uninstall(st: &mut AppState, package: &str) -> (r: Result<Action, OpError>)
    ensures
        old(st)@.busy ==> (r matches Err(e) && e@ is AlreadyBusy && final(st)@ == old(st)@),
        !old(st)@.busy ==> (r matches Ok(a) && final(st)@ == begin_t(old(st)@, "Uninstall..."@)
            && a@ == (ActionView::RunUninstall { package: package@ })),
        final(st)@.wf() || final(st)@ == old(st)@,
{
    match st.begin_operation("Uninstall...") {
        Ok(()) => Ok(Action::RunUninstall { package: package.to_owned() }),
        Err(e) => Err(e),
    }
}

/// End the uninstall operation with the removal command's outcome; a
/// failure is tagged with the uninstall stage.
pub fn finish_uninstall(st: &mut AppState, outcome: Result<(), OpError>)
    requires
        old(st)@.busy,
    ensures
        outcome matches Ok(()) ==> final(st)@ == end_ok_t(old(st)@, "Uninstall completed."@),
        outcome matches Err(e) ==> final(st)@ == end_err_t(
            old(st)@,
            (ErrorInfoView { stage: Stage::Uninstall, kind: e@ }),
            "Uninstall failed."@,
        ),
        final(st)@.wf(),
{
    match outcome {
        Ok(()) => st.end_operation(Ok(()), "Uninstall completed."),
        Err(e) => st.end_operation(
            Err(ErrorInfo { stage: Stage::Uninstall, kind: e }),
            "Uninstall failed.",
        ),
    }
}

/// Begin a search operation for the given free text, under the same
/// exclusion contract; the caller must query the returned address.
pub fn start_search(st: &mut AppState, term: &str) -> (r: Result<Action, OpError>)
    ensures
        old(st)@.busy ==> (r matches Err(e) && e@ is AlreadyBusy && final(st)@ == old(st)@),
        !old(st)@.busy ==> (r matches Ok(a) && final(st)@ == begin_t(old(st)@, "Searching..."@)
            && a@ == (ActionView::QueryIndex { url: search_url_spec(term@) })),
        final(st)@.wf() || final(st)@ == old(st)@,
{
    match st.begin_operation("Searching...") {
        Ok(()) => Ok(Action::QueryIndex { url: search_url(term) }),
        Err(e) => Err(e),
    }
}

/// End the search operation: on success the result list replaces the old
/// one wholesale before the completion line is appended; on failure the
/// list is untouched and the error is tagged with the search stage.
pub fn finish_search(st: &mut AppState, outcome: Result<Vec<String>, OpError>)
    requires
        old(st)@.busy,
    ensures
        outcome matches Ok(rs) ==> final(st)@ == end_ok_t(
            results_t(old(st)@, rs.deep_view()),
            "Search completed."@,
        ),
        outcome matches Err(e) ==> final(st)@ == end_err_t(
            old(st)@,
            (ErrorInfoView { stage: Stage::Search, kind: e@ }),
            "Search failed."@,
        ),
        final(st)@.wf(),
{
    match outcome {
        Ok(rs) => {
            st.add_search_results(rs);
            st.end_operation(Ok(()), "Search completed.");
        }
        Err(e) => st.end_operation(
            Err(ErrorInfo { stage: Stage::Search, kind: e }),
            "Search failed.",
        ),
    }
}

/// Which operation acting on the current selection must trigger, given
/// whether the selected package is currently installed.
#[derive(Clone, Copy, PartialEq, Eq, Structural, Debug)]
pub enum OpKind {
    Install,
    Uninstall,
}

/// The caller's selection handling: record the chosen identifier and note
/// in the progress label whether it is already installed. Nothing else
/// changes — in particular no operation starts, so repeating the same
/// selection repeats the same record.
pub fn select_with_status(st: &mut AppState, package: String, installed: bool)
    ensures
        installed ==> final(st)@ == progress_t(
            select_t(old(st)@, Some(package@)),
            "Package is already installed."@,
        ),
        !installed ==> final(st)@ == (StateModel {
            progress: None,
            ..select_t(old(st)@, Some(package@))
        }),
{
    st.select_package(Some(package));
    if installed {
        st.set_progress("Package is already installed.");
    } else {
        st.clear_progress();
    }
}

/// An installed selection is offered removal, an absent one installation.
pub fn required_operation(installed: bool) -> (r: OpKind)
    ensures
        r == (if installed { OpKind::Uninstall } else { OpKind::Install }),
{
    if installed {
        OpKind::Uninstall
    } else {
        OpKind::Install
    }
}

/// Whether a metadata response's content type is acceptable: absent or
/// non-JSON answers are a malformed response.
pub fn validate_metadata_content_type(content_type: Option<&str>) -> (r: Result<(), OpError>)
    ensures
        r is Ok <==> (content_type matches Some(c) && contains_spec(c@, "application/json"@)),
        r matches Err(e) ==> e@ is MalformedResponse,
{
    match content_type {
        Some(c) => {
            if str_contains(c, "application/json") {
                Ok(())
            } else {
                Err(OpError::MalformedResponse)
            }
        }
        None => Err(OpError::MalformedResponse),
    }
}

/// Whether an archive response's content type is acceptable: anything but a
/// gzip archive is an unexpected content type.
pub fn validate_archive_content_type(content_type: Option<&str>) -> (r: Result<(), OpError>)
    ensures
        r is Ok <==> (content_type matches Some(c) && contains_spec(c@, "application/x-gzip"@)),
        r matches Err(e) ==> e@ is UnexpectedContentType,
{
    match content_type {
        Some(c) => {
            if str_contains(c, "application/x-gzip") {
                Ok(())
            } else {
                Err(OpError::UnexpectedContentType)
            }
        }
        None => Err(OpError::UnexpectedContentType),
    }
}

/// Classify a build tool run: a non-success status is a build failure
/// carrying the captured standard-error text verbatim, without retry.
pub fn build_outcome(status_success: bool, stderr: String) -> (r: Result<(), OpError>)
    ensures
        status_success ==> r is Ok,
        !status_success ==> (r matches Err(e) && e@ == (ErrorKindView::BuildFailed {
            stderr: stderr@,
        })),
{
    if status_success {
        Ok(())
    } else {
        Err(OpError::BuildFailed { stderr })
    }
}

/// Classify a privileged package-manager run: a non-success status is a
/// subprocess error carrying the exit code and the captured standard-error
/// text.
pub fn subprocess_outcome(status_success: bool, exit_code: i32, stderr: String) -> (r: Result<
    (),
    OpError,
>)
    ensures
        status_success ==> r is Ok,
        !status_success ==> (r matches Err(e) && e@ == (ErrorKindView::SubprocessError {
            exit_code,
            stderr: stderr@,
        })),
{
    if status_success {
        Ok(())
    } else {
        Err(OpError::SubprocessError { exit_code, stderr })
    }
}

} // verus!
