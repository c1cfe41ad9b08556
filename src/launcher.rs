//! The run as a one-way state machine. Each call of [`Launcher::step`] takes
//! the outcome of the work last asked for and names the next piece of work;
//! the caller performs it and reports back. Stages only move forward, so the
//! root change always precedes PID isolation, both precede the command, and
//! a failed run never asks for more work.
use vstd::prelude::*;
use crate::failure::Failure;
use crate::manifest::{Layer, ManifestEntry, select_manifest, has_match, is_first_match};
use crate::reference::ImageReference;
use crate::registry::{token_url, manifest_url, blob_url, token_url_of, manifest_url_of, blob_url_of};

verus! {

/// Where a run stands: the work it waits on, or how it ended.
#[derive(Clone, Copy, Debug, PartialEq, Eq, Structural)]
pub enum Stage {
    /// Waits for the workspace to be made.
    PreparingWorkspace,
    /// Waits for the pull token.
    Authenticating,
    /// Waits for the manifest index.
    ResolvingIndex,
    /// Waits for the image manifest of the selected variant.
    FetchingManifest,
    /// Waits for the layer last asked for to be extracted.
    ExtractingLayers,
    /// Waits for the root change.
    ChangingRoot,
    /// Waits for the PID namespace.
    IsolatingPids,
    /// Waits for the command to end.
    Running,
    /// The command ended and its status was handed on.
    Finished,
    /// The run stopped on a failure.
    Failed,
}

/// The position of a stage in the run; a run never moves to a lower one.
pub open spec fn stage_rank(s: Stage) -> nat {
    match s {
        Stage::PreparingWorkspace => 0,
        Stage::Authenticating => 1,
        Stage::ResolvingIndex => 2,
        Stage::FetchingManifest => 3,
        Stage::ExtractingLayers => 4,
        Stage::ChangingRoot => 5,
        Stage::IsolatingPids => 6,
        Stage::Running => 7,
        Stage::Finished => 8,
        Stage::Failed => 9,
    }
}

/// The work a run asks its caller to perform next.
#[derive(Clone, Copy, Debug, PartialEq, Eq, Structural)]
pub enum Action {
    /// Make the workspace directory with its `dev/null` placeholder.
    CreateWorkspace,
    /// Ask the token service for a pull token.
    FetchToken,
    /// Fetch the manifest index for the image's tag.
    FetchIndex,
    /// Fetch the image manifest for the selected digest.
    FetchManifest,
    /// Fetch the layer at this position and extract it onto the workspace.
    FetchLayer(usize),
    /// Make the workspace the filesystem root and enter it.
    ChangeRoot,
    /// Move into a fresh PID namespace.
    IsolatePids,
    /// Start the command with an empty environment and inherited streams.
    RunCommand,
    /// Exit with this status.
    Exit(i32),
    /// Stop the run and report this failure.
    Abort(Failure),
}

/// The outcome of the work last asked for.
pub enum Event {
    /// The workspace and its `dev/null` placeholder exist.
    WorkspaceCreated,
    /// The token service issued this pull token.
    TokenIssued(String),
    /// The manifest index lists these variants, in order.
    IndexFetched(Vec<ManifestEntry>),
    /// The image manifest lists these layers, bottom first.
    ManifestFetched(Vec<Layer>),
    /// The layer last asked for was extracted onto the workspace.
    LayerExtracted,
    /// The workspace is now the root and the working directory.
    RootChanged,
    /// The process is in a fresh PID namespace.
    PidsIsolated,
    /// The command ended; `code` is absent when a signal ended it.
    CommandExited { success: bool, code: Option<i32> },
    /// The work last asked for failed in this way.
    StepFailed(Failure),
}

/// The status a finished command hands to the launcher: 0 on success, else
/// the command's own code, or 1 when it has none (killed by a signal).
pub open spec fn exit_code_of(success: bool, code: Option<i32>) -> i32 {
    if success {
        0
    } else {
        match code {
            Some(c) => c,
            None => 1,
        }
    }
}

/// Whether `e` is an outcome that a run in stage `s` waits for.
pub open spec fn expects(s: Stage, e: Event) -> bool {
    match e {
        Event::WorkspaceCreated => s == Stage::PreparingWorkspace,
        Event::TokenIssued(_) => s == Stage::Authenticating,
        Event::IndexFetched(_) => s == Stage::ResolvingIndex,
        Event::ManifestFetched(_) => s == Stage::FetchingManifest,
        Event::LayerExtracted => s == Stage::ExtractingLayers,
        Event::RootChanged => s == Stage::ChangingRoot,
        Event::PidsIsolated => s == Stage::IsolatingPids,
        Event::CommandExited { .. } => s == Stage::Running,
        Event::StepFailed(_) => stage_rank(s) < 8,
    }
}

/// The digests of `layers`, in order.
pub open spec fn digests_of(layers: Seq<Layer>) -> Seq<Seq<char>> {
    layers.map_values(|l: Layer| l.digest@)
}

/// What a run knows: the image, the target architecture, the stage, and
/// what earlier stages obtained.
pub ghost struct LauncherView {
    pub stage: Stage,
    pub name: Seq<char>,
    pub tag: Seq<char>,
    pub architecture: Seq<char>,
    pub token: Seq<char>,
    pub digest: Seq<char>,
    pub layers: Seq<Seq<char>>,
    pub extracted: nat,
}

impl LauncherView {
    /// Layers are extracted one by one: while extracting, the next one exists.
    pub open spec fn wf(&self) -> bool {
        &&& self.extracted <= self.layers.len()
        &&& self.stage == Stage::ExtractingLayers ==> self.extracted < self.layers.len()
    }
}

/// `h` is a history of issued actions that follows the pipeline: the
/// workspace first, then the token, the index, the manifest, the layers in
/// manifest order, the root change, PID isolation, the command and its exit
/// status, each only right after the one before it; once a run has aborted,
/// it only aborts.
pub open spec fn ordered(h: Seq<Action>) -> bool {
    &&& h.len() > 0 ==> h[0] == Action::CreateWorkspace
    &&& forall|j: int| 0 < j < h.len() ==> #[trigger] h[j] != Action::CreateWorkspace
    &&& forall|j: int| 0 < j < h.len() && #[trigger] h[j] == Action::FetchToken
        ==> h[j - 1] == Action::CreateWorkspace
    &&& forall|j: int| 0 < j < h.len() && #[trigger] h[j] == Action::FetchIndex
        ==> h[j - 1] == Action::FetchToken
    &&& forall|j: int| 0 < j < h.len() && #[trigger] h[j] == Action::FetchManifest
        ==> h[j - 1] == Action::FetchIndex
    &&& forall|j: int| 0 < j < h.len() && #[trigger] h[j] is FetchLayer ==> if h[j]->FetchLayer_0 == 0 {
        h[j - 1] == Action::FetchManifest
    } else {
        h[j - 1] == Action::FetchLayer((h[j]->FetchLayer_0 - 1) as usize)
    }
    &&& forall|j: int| 0 < j < h.len() && #[trigger] h[j] == Action::ChangeRoot
        ==> h[j - 1] == Action::FetchManifest || h[j - 1] is FetchLayer
    &&& forall|j: int| 0 < j < h.len() && #[trigger] h[j] == Action::IsolatePids
        ==> h[j - 1] == Action::ChangeRoot
    &&& forall|j: int| 0 < j < h.len() && #[trigger] h[j] == Action::RunCommand
        ==> h[j - 1] == Action::IsolatePids
    &&& forall|j: int| 0 < j < h.len() && #[trigger] h[j] is Exit
        ==> h[j - 1] == Action::RunCommand
    &&& forall|j: int, k: int| 0 <= j < k < h.len() && #[trigger] h[j] is Abort
        ==> #[trigger] h[k] is Abort
}

/// The last action of `h` is the work that a run in state `v` waits on, and
/// a run that has not failed has never aborted.
pub open spec fn fits(v: LauncherView, h: Seq<Action>) -> bool {
    &&& h.len() > 0
    &&& match v.stage {
        Stage::PreparingWorkspace => h == seq![Action::CreateWorkspace],
        Stage::Authenticating => h.last() == Action::FetchToken,
        Stage::ResolvingIndex => h.last() == Action::FetchIndex,
        Stage::FetchingManifest => h.last() == Action::FetchManifest,
        Stage::ExtractingLayers => h.last() == Action::FetchLayer(v.extracted as usize),
        Stage::ChangingRoot => h.last() == Action::ChangeRoot,
        Stage::IsolatingPids => h.last() == Action::IsolatePids,
        Stage::Running => h.last() == Action::RunCommand,
        Stage::Finished => h.last() is Exit,
        Stage::Failed => h.last() is Abort,
    }
    &&& v.stage != Stage::Failed ==> forall|j: int| 0 <= j < h.len() ==> !(#[trigger] h[j] is Abort)
}

/// In a run that follows the pipeline, the command starts only after the
/// root change and then PID isolation, in that order.
pub proof fn lemma_isolation_before_command(h: Seq<Action>, k: int)
    requires
        ordered(h),
        0 <= k < h.len(),
        h[k] == Action::RunCommand,
    ensures
        k >= 2,
        h[k - 2] == Action::ChangeRoot,
        h[k - 1] == Action::IsolatePids,
{
    assert(h[k] != h[0]);
    assert(h[k - 1] == Action::IsolatePids);
    assert(h[k - 1] != h[0]);
}

/// In a run that follows the pipeline, nothing is fetched, extracted or
/// started once the run has aborted.
pub proof fn lemma_abort_is_final(h: Seq<Action>, j: int, k: int)
    requires
        ordered(h),
        0 <= j < k < h.len(),
        h[j] is Abort,
    ensures
        h[k] is Abort,
        !(h[k] is FetchLayer),
        h[k] != Action::RunCommand,
{
}

/// In a run that follows the pipeline, layer `i` is asked for right after
/// layers `0` to `i - 1`, in that order, which come right after the manifest.
pub proof fn lemma_layers_in_order(h: Seq<Action>, k: int)
    requires
        ordered(h),
        0 <= k < h.len(),
        h[k] is FetchLayer,
    ensures
        k > h[k]->FetchLayer_0 + 1,
        h[k - h[k]->FetchLayer_0 - 1] == Action::FetchManifest,
        forall|m: int|
            0 <= m <= h[k]->FetchLayer_0 ==> #[trigger] h[k - h[k]->FetchLayer_0 + m]
                == Action::FetchLayer(m as usize),
    decreases h[k]->FetchLayer_0,
{
    let i = h[k]->FetchLayer_0 as int;
    assert(h[k] != h[0]);
    if i == 0 {
        assert(h[k - 1] == Action::FetchManifest);
        assert(h[k - 1] != h[0]);
        assert(h[k - 2] == Action::FetchIndex);
        assert(h[k - 2] != h[0]);
    } else {
        assert(h[k - 1] == Action::FetchLayer((i - 1) as usize));
        lemma_layers_in_order(h, k - 1);
        assert forall|m: int| 0 <= m <= i implies #[trigger] h[k - i + m] == Action::FetchLayer(m as usize) by {
            if m < i {
                assert(h[(k - 1) - (i - 1) + m] == Action::FetchLayer(m as usize));
            }
        }
    }
}

/// One run of the launcher.
pub struct Launcher {
    image: ImageReference,
    architecture: String,
    stage: Stage,
    token: String,
    digest: String,
    layers: Vec<Layer>,
    extracted: usize,
    history: Ghost<Seq<Action>>,
}

impl View for Launcher {
    type V = LauncherView;

    closed spec fn view(&self) -> LauncherView {
        LauncherView {
            stage: self.stage,
            name: self.image.name@,
            tag: self.image.tag@,
            architecture: self.architecture@,
            token: self.token@,
            digest: self.digest@,
            layers: digests_of(self.layers@),
            extracted: self.extracted as nat,
        }
    }
}

impl Launcher {
    /// The actions the run has issued so far, oldest first.
    pub closed spec fn history(&self) -> Seq<Action> {
        self.history@
    }

    /// The state is consistent, and the history of the run follows the pipeline.
    pub open spec fn wf(&self) -> bool {
        &&& self@.wf()
        &&& ordered(self.history())
        &&& fits(self@, self.history())
    }

    /// Starts a run for `image` on `architecture`; its first work is the workspace.
    pub fn new(image: ImageReference, architecture: String) -> (r: (Launcher, Action))
        ensures
            r.0@.stage == Stage::PreparingWorkspace,
            r.0@.name == image.name@,
            r.0@.tag == image.tag@,
            r.0@.architecture == architecture@,
            r.0@.token.len() == 0,
            r.0@.digest.len() == 0,
            r.0@.layers.len() == 0,
            r.0@.extracted == 0,
            r.0.wf(),
            r.0.history() == seq![Action::CreateWorkspace],
            r.1 == Action::CreateWorkspace,
    {
        let l = Launcher {
            image,
            architecture,
            stage: Stage::PreparingWorkspace,
            token: String::new(),
            digest: String::new(),
            layers: Vec::new(),
            extracted: 0,
            history: Ghost(Seq::empty().push(Action::CreateWorkspace)),
        };
        (l, Action::CreateWorkspace)
    }

    /// The stage the run is in.
    pub fn stage(&self) -> (r: Stage)
        ensures
            r == self@.stage,
    {
        self.stage
    }

    /// The number of layers of the selected manifest.
    pub fn layer_count(&self) -> (r: usize)
        ensures
            r == self@.layers.len(),
    {
        self.layers.len()
    }

    /// The pull token obtained for the run.
    pub fn token(&self) -> (r: &str)
        ensures
            r@ == self@.token,
    {
        self.token.as_str()
    }

    /// Where to ask for the pull token.
    pub fn token_url(&self) -> (r: String)
        ensures
            r@ == token_url_of(self@.name),
    {
        token_url(self.image.name.as_str())
    }

    /// Where the manifest index of the image's tag lives.
    pub fn index_url(&self) -> (r: String)
        ensures
            r@ == manifest_url_of(self@.name, self@.tag),
    {
        manifest_url(self.image.name.as_str(), self.image.tag.as_str())
    }

    /// Where the image manifest of the selected digest lives.
    pub fn manifest_url(&self) -> (r: String)
        ensures
            r@ == manifest_url_of(self@.name, self@.digest),
    {
        manifest_url(self.image.name.as_str(), self.digest.as_str())
    }

    /// Where the blob of layer `i` lives.
    pub fn layer_url(&self, i: usize) -> (r: String)
        requires
            i < self@.layers.len(),
        ensures
            r@ == blob_url_of(self@.name, self@.layers[i as int]),
    {
        blob_url(self.image.name.as_str(), self.layers[i].digest.as_str())
    }
    /// Takes the outcome of the work last asked for and names the next work.
    ///
    /// An outcome that the stage does not wait for fails the run; a failed or
    /// finished run stays where it is and asks for nothing more.
    pub fn step(&mut self, event: Event) -> (r: Action)
        requires
            old(self).wf(),
        ensures
            final(self).wf(),
            final(self).history() == old(self).history().push(r),
            stage_rank(final(self)@.stage) >= stage_rank(old(self)@.stage),
            !expects(old(self)@.stage, event) ==> final(self)@ == (LauncherView {
                stage: Stage::Failed,
                ..old(self)@
            }) && r == Action::Abort(Failure::OutOfOrder),
            event matches Event::StepFailed(f) ==> expects(old(self)@.stage, event)
                ==> final(self)@ == (LauncherView { stage: Stage::Failed, ..old(self)@ })
                && r == Action::Abort(f),
            old(self)@.stage == Stage::PreparingWorkspace && event is WorkspaceCreated
                ==> final(self)@ == (LauncherView { stage: Stage::Authenticating, ..old(self)@ })
                && r == Action::FetchToken,
            event matches Event::TokenIssued(t) ==> old(self)@.stage == Stage::Authenticating
                ==> final(self)@ == (LauncherView {
                stage: Stage::ResolvingIndex,
                token: t@,
                ..old(self)@
            }) && r == Action::FetchIndex,
            event matches Event::IndexFetched(es) ==> old(self)@.stage == Stage::ResolvingIndex
                && !has_match(es@, old(self)@.architecture)
                ==> final(self)@ == (LauncherView { stage: Stage::Failed, ..old(self)@ })
                && r == Action::Abort(Failure::NoManifestForArchitecture),
            event matches Event::IndexFetched(es) ==> old(self)@.stage == Stage::ResolvingIndex
                && has_match(es@, old(self)@.architecture) ==> r == Action::FetchManifest
                && exists|i: int|
                is_first_match(es@, old(self)@.architecture, i) && final(self)@ == (LauncherView {
                    stage: Stage::FetchingManifest,
                    digest: #[trigger] es@[i].digest@,
                    ..old(self)@
                }),
            event matches Event::ManifestFetched(ls) ==> old(self)@.stage == Stage::FetchingManifest
                ==> final(self)@ == (LauncherView {
                stage: if ls@.len() > 0 {
                    Stage::ExtractingLayers
                } else {
                    Stage::ChangingRoot
                },
                layers: digests_of(ls@),
                extracted: 0,
                ..old(self)@
            }) && r == (if ls@.len() > 0 {
                Action::FetchLayer(0)
            } else {
                Action::ChangeRoot
            }),
            old(self)@.stage == Stage::ExtractingLayers && event is LayerExtracted
                ==> final(self)@ == (LauncherView {
                stage: if old(self)@.extracted + 1 < old(self)@.layers.len() {
                    Stage::ExtractingLayers
                } else {
                    Stage::ChangingRoot
                },
                extracted: old(self)@.extracted + 1,
                ..old(self)@
            }) && r == (if old(self)@.extracted + 1 < old(self)@.layers.len() {
                Action::FetchLayer((old(self)@.extracted + 1) as usize)
            } else {
                Action::ChangeRoot
            }),
            old(self)@.stage == Stage::ChangingRoot && event is RootChanged
                ==> final(self)@ == (LauncherView { stage: Stage::IsolatingPids, ..old(self)@ })
                && r == Action::IsolatePids,
            old(self)@.stage == Stage::IsolatingPids && event is PidsIsolated
                ==> final(self)@ == (LauncherView { stage: Stage::Running, ..old(self)@ })
                && r == Action::RunCommand,
            event matches Event::CommandExited { success, code } ==> old(self)@.stage
                == Stage::Running ==> final(self)@ == (LauncherView {
                stage: Stage::Finished,
                ..old(self)@
            }) && r == Action::Exit(exit_code_of(success, code)),
            // The PID namespace is entered only once the root change is done,
            // and the command starts only once both are.
            r == Action::IsolatePids ==> old(self)@.stage == Stage::ChangingRoot
                && event is RootChanged,
            r == Action::RunCommand ==> old(self)@.stage == Stage::IsolatingPids
                && event is PidsIsolated,
            // Layers are asked for in manifest order, each once, all before the root change.
            r matches Action::FetchLayer(i) ==> final(self)@.stage == Stage::ExtractingLayers
                && i == final(self)@.extracted && i < final(self)@.layers.len()
                && (i == 0 && event is ManifestFetched || i == old(self)@.extracted + 1
                && event is LayerExtracted),
            r == Action::ChangeRoot ==> final(self)@.extracted == final(self)@.layers.len(),
            // Nothing is extracted before the workspace exists.
            r is FetchLayer ==> stage_rank(old(self)@.stage) > stage_rank(Stage::PreparingWorkspace),
            // A stopped run asks for nothing more.
            stage_rank(old(self)@.stage) >= 8 ==> final(self)@.stage == Stage::Failed
                && r == Action::Abort(Failure::OutOfOrder),
    {
        let r = match event {
            Event::WorkspaceCreated if self.stage == Stage::PreparingWorkspace => {
                self.stage = Stage::Authenticating;
                Action::FetchToken
            },
            Event::TokenIssued(t) if self.stage == Stage::Authenticating => {
                self.token = t;
                self.stage = Stage::ResolvingIndex;
                Action::FetchIndex
            },
            Event::IndexFetched(es) if self.stage == Stage::ResolvingIndex => {
                match select_manifest(&es, &self.architecture) {
                    Ok(d) => {
                        self.digest = d;
                        self.stage = Stage::FetchingManifest;
                        Action::FetchManifest
                    },
                    Err(f) => {
                        self.stage = Stage::Failed;
                        Action::Abort(f)
                    },
                }
            },
            Event::ManifestFetched(ls) if self.stage == Stage::FetchingManifest => {
                let n = ls.len();
                self.layers = ls;
                self.extracted = 0;
                if n > 0 {
                    self.stage = Stage::ExtractingLayers;
                    Action::FetchLayer(0)
                } else {
                    self.stage = Stage::ChangingRoot;
                    Action::ChangeRoot
                }
            },
            Event::LayerExtracted if self.stage == Stage::ExtractingLayers => {
                assert(self.extracted < self.layers.len());
                self.extracted = self.extracted + 1;
                if self.extracted < self.layers.len() {
                    Action::FetchLayer(self.extracted)
                } else {
                    self.stage = Stage::ChangingRoot;
                    Action::ChangeRoot
                }
            },
            Event::RootChanged if self.stage == Stage::ChangingRoot => {
                self.stage = Stage::IsolatingPids;
                Action::IsolatePids
            },
            Event::PidsIsolated if self.stage == Stage::IsolatingPids => {
                self.stage = Stage::Running;
                Action::RunCommand
            },
            Event::CommandExited { success, code } if self.stage == Stage::Running => {
                self.stage = Stage::Finished;
                Action::Exit(exit_code(success, code))
            },
            Event::StepFailed(f) if self.stage != Stage::Finished && self.stage != Stage::Failed => {
                self.stage = Stage::Failed;
                Action::Abort(f)
            },
            _ => {
                self.stage = Stage::Failed;
                Action::Abort(Failure::OutOfOrder)
            },
        };
        self.history = Ghost(self.history@.push(r));
        r
    }
}

/// The status the launcher exits with once the command has ended.
pub fn exit_code(success: bool, code: Option<i32>) -> (r: i32)
    ensures
        r == exit_code_of(success, code),
{
    if success {
        0
    } else {
        match code {
            Some(c) => c,
            None => 1,
        }
    }
}

} // verus!
