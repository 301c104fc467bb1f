//! The installation orchestrator.
//!
//! One installation (or one standalone fetch) is a single sequential run:
//! the orchestrator hands its driver an action, the driver performs the I/O
//! and reports the outcome as an event, and the orchestrator steps to its
//! next phase. Every decision of the pipeline — which URL to fetch, when to
//! persist, when to spawn, what to relay, when to delete the artifact and
//! when to stop — is taken here.

use vstd::prelude::*;

use crate::descriptor::{
    artifact_path, descriptor_url, installer_args, installer_program, post_fetch_text,
    pre_fetch_text, spawn_text, spec_artifact_path, spec_installer_args, spec_installer_program,
    spec_post_fetch_text, spec_pre_fetch_text, spec_spawn_text, spec_url, DescriptorArtifact,
    SpecArtifact,
};
use crate::errors::{FetchError, InstallError};
use crate::events::{
    lossy_decode, utf8_lossy, Action, CommandEvent, Event, InstallationEvent, SpecAction,
    SpecCommand, SpecEvent, SpecNote,
};
use crate::ident::PackageIdentifier;

verus! {

/// Where a run stands.
///
/// The fetch phases come first; a standalone fetch ends after
/// `PostFetchNotify`, a full installation goes on to spawn and stream.
pub(crate) enum Phase {
    /// Awaiting the result of the pre-fetch notification.
    PreFetchNotify,
    /// Awaiting the HTTP status of the descriptor request.
    AwaitResponse,
    /// Awaiting the response body.
    AwaitBody,
    /// Awaiting the result of persisting the artifact.
    AwaitPersist,
    /// Awaiting the result of the artifact-persisted notification.
    PostFetchNotify,
    /// Awaiting the result of the pre-spawn notification.
    PreSpawnNotify,
    /// Awaiting the result of spawning the installer.
    AwaitSpawn,
    /// Awaiting the next event of the installer's stream.
    Streaming,
    /// Awaiting the result of relaying one stream event to the sink.
    RelayNotify,
    /// Awaiting the result of the completion notification.
    FinalNotify,
    /// The run is over, with this outcome.
    Done(Result<DescriptorArtifact, InstallError>),
}

/// The mathematical image of a [`Phase`].
pub enum SpecPhase {
    PreFetchNotify,
    AwaitResponse,
    AwaitBody,
    AwaitPersist,
    PostFetchNotify,
    PreSpawnNotify,
    AwaitSpawn,
    Streaming,
    RelayNotify,
    FinalNotify,
    Done(Result<SpecArtifact, InstallError>),
}

/// The mathematical image of a run outcome.
pub open spec fn res_view(r: Result<DescriptorArtifact, InstallError>) -> Result<
    SpecArtifact,
    InstallError,
> {
    match r {
        Ok(a) => Ok(a@),
        Err(e) => Err(e),
    }
}

impl View for Phase {
    type V = SpecPhase;

    closed spec fn view(&self) -> SpecPhase {
        match self {
            Phase::PreFetchNotify => SpecPhase::PreFetchNotify,
            Phase::AwaitResponse => SpecPhase::AwaitResponse,
            Phase::AwaitBody => SpecPhase::AwaitBody,
            Phase::AwaitPersist => SpecPhase::AwaitPersist,
            Phase::PostFetchNotify => SpecPhase::PostFetchNotify,
            Phase::PreSpawnNotify => SpecPhase::PreSpawnNotify,
            Phase::AwaitSpawn => SpecPhase::AwaitSpawn,
            Phase::Streaming => SpecPhase::Streaming,
            Phase::RelayNotify => SpecPhase::RelayNotify,
            Phase::FinalNotify => SpecPhase::FinalNotify,
            Phase::Done(r) => SpecPhase::Done(res_view(*r)),
        }
    }
}

/// The mathematical state of one run.
pub struct SpecState {
    pub phase: SpecPhase,
    pub identifier: Seq<char>,
    pub tmp_dir: Seq<char>,
    /// The descriptor body, once it has been read; empty before that.
    pub content: Seq<char>,
    /// Whether the run goes on to install after the fetch.
    pub install: bool,
}

/// The artifact a state describes.
pub open spec fn artifact_model(s: SpecState) -> SpecArtifact {
    SpecArtifact {
        identifier: s.identifier,
        path: spec_artifact_path(s.tmp_dir, s.identifier),
        content: s.content,
    }
}

/// The state after a fatal error.
pub open spec fn fail(s: SpecState, e: InstallError) -> SpecState {
    SpecState { phase: SpecPhase::Done(Err(e)), ..s }
}

/// The exit code reported to the UI: the process's own, or `-1` if unknown.
pub open spec fn exit_code_of(c: Option<i32>) -> i32 {
    match c {
        Some(x) => x,
        None => -1i32,
    }
}

/// Whether a status code counts as success.
pub open spec fn is_success_status(c: u16) -> bool {
    200 <= c && c < 300
}

/// One transition: from a state and the event the driver reported, to the
/// next state and the actions the driver must perform next.
///
/// An event that does not answer the pending action leaves the state as it
/// is and asks for nothing; a finished run ignores every further event.
pub open spec fn step_model(s: SpecState, ev: SpecEvent) -> (SpecState, Seq<SpecAction>) {
    let path = spec_artifact_path(s.tmp_dir, s.identifier);
    match (s.phase, ev) {
        (SpecPhase::PreFetchNotify, SpecEvent::Notified(ok)) => if ok {
            (
                SpecState { phase: SpecPhase::AwaitResponse, ..s },
                seq![SpecAction::Get(spec_url(s.identifier))],
            )
        } else {
            (fail(s, InstallError::Fetch(FetchError::NotifyFailed)), Seq::empty())
        },
        (SpecPhase::AwaitResponse, SpecEvent::Response(r)) => match r {
            Some(c) => if is_success_status(c) {
                (SpecState { phase: SpecPhase::AwaitBody, ..s }, seq![SpecAction::ReadBody])
            } else {
                (fail(s, InstallError::Fetch(FetchError::HttpStatus(c))), Seq::empty())
            },
            None => (fail(s, InstallError::Fetch(FetchError::Transport)), Seq::empty()),
        },
        (SpecPhase::AwaitBody, SpecEvent::Body(o)) => match o {
            Some(b) => (
                SpecState { phase: SpecPhase::AwaitPersist, content: b, ..s },
                seq![SpecAction::Persist(path, b)],
            ),
            None => (fail(s, InstallError::Fetch(FetchError::Decode)), Seq::empty()),
        },
        (SpecPhase::AwaitPersist, SpecEvent::Persisted(ok)) => if ok {
            (
                SpecState { phase: SpecPhase::PostFetchNotify, ..s },
                seq![SpecAction::Emit(SpecNote::Output(spec_post_fetch_text(path)))],
            )
        } else {
            (fail(s, InstallError::Fetch(FetchError::Persist)), Seq::empty())
        },
        (SpecPhase::PostFetchNotify, SpecEvent::Notified(ok)) => if ok {
            if s.install {
                (
                    SpecState { phase: SpecPhase::PreSpawnNotify, ..s },
                    seq![SpecAction::Emit(SpecNote::Output(spec_spawn_text()))],
                )
            } else {
                (SpecState { phase: SpecPhase::Done(Ok(artifact_model(s))), ..s }, Seq::empty())
            }
        } else {
            (fail(s, InstallError::Fetch(FetchError::NotifyFailed)), Seq::empty())
        },
        (SpecPhase::PreSpawnNotify, SpecEvent::Notified(ok)) => if ok {
            (
                SpecState { phase: SpecPhase::AwaitSpawn, ..s },
                seq![SpecAction::Spawn(spec_installer_program(), spec_installer_args(path))],
            )
        } else {
            (fail(s, InstallError::NotifyFailed), Seq::empty())
        },
        (SpecPhase::AwaitSpawn, SpecEvent::Spawned(ok)) => if ok {
            (SpecState { phase: SpecPhase::Streaming, ..s }, seq![SpecAction::Recv])
        } else {
            (fail(s, InstallError::SpawnFailed), Seq::empty())
        },
        (SpecPhase::Streaming, SpecEvent::Command(c)) => match c {
            SpecCommand::Stdout(bytes) => (
                SpecState { phase: SpecPhase::RelayNotify, ..s },
                seq![SpecAction::Emit(SpecNote::Output(lossy_decode(bytes)))],
            ),
            SpecCommand::Stderr(bytes) => (
                SpecState { phase: SpecPhase::RelayNotify, ..s },
                seq![SpecAction::Emit(SpecNote::Output(lossy_decode(bytes)))],
            ),
            SpecCommand::Error(t) => (
                SpecState { phase: SpecPhase::RelayNotify, ..s },
                seq![SpecAction::Emit(SpecNote::Error(t))],
            ),
            SpecCommand::Terminated(code) => (
                SpecState { phase: SpecPhase::FinalNotify, ..s },
                seq![
                    SpecAction::Remove(path),
                    SpecAction::Emit(SpecNote::Completed(exit_code_of(code))),
                ],
            ),
            SpecCommand::Other => (s, seq![SpecAction::Recv]),
        },
        (SpecPhase::Streaming, SpecEvent::Closed) => (
            SpecState { phase: SpecPhase::Done(Ok(artifact_model(s))), ..s },
            Seq::empty(),
        ),
        (SpecPhase::RelayNotify, SpecEvent::Notified(ok)) => if ok {
            (SpecState { phase: SpecPhase::Streaming, ..s }, seq![SpecAction::Recv])
        } else {
            (fail(s, InstallError::NotifyFailed), Seq::empty())
        },
        (SpecPhase::FinalNotify, SpecEvent::Notified(ok)) => if ok {
            (SpecState { phase: SpecPhase::Done(Ok(artifact_model(s))), ..s }, Seq::empty())
        } else {
            (fail(s, InstallError::NotifyFailed), Seq::empty())
        },
        _ => (s, Seq::empty()),
    }
}

/// The starting state of a run, and the one action issued up front: the
/// pre-fetch notification.
pub open spec fn start_model(id: Seq<char>, tmp_dir: Seq<char>, install: bool) -> (
    SpecState,
    Seq<SpecAction>,
) {
    (
        SpecState {
            phase: SpecPhase::PreFetchNotify,
            identifier: id,
            tmp_dir: tmp_dir,
            content: Seq::empty(),
            install: install,
        },
        seq![SpecAction::Emit(SpecNote::Output(spec_pre_fetch_text(spec_url(id))))],
    )
}

/// Runs the machine from `s` over the events of `evs` from index `i` on,
/// yielding the final state and every action issued along the way.
pub open spec fn run_from(s: SpecState, evs: Seq<SpecEvent>, i: int) -> (
    SpecState,
    Seq<SpecAction>,
)
    decreases evs.len() - i,
{
    if i < 0 || i >= evs.len() {
        (s, Seq::empty())
    } else {
        let first = step_model(s, evs[i]);
        let rest = run_from(first.0, evs, i + 1);
        (rest.0, first.1 + rest.1)
    }
}

/// A whole run: start, then every event in order. Yields the final state and
/// the full action trace, the initial notification included.
pub open spec fn run_model(id: Seq<char>, tmp_dir: Seq<char>, install: bool, evs: Seq<SpecEvent>) -> (
    SpecState,
    Seq<SpecAction>,
) {
    let st = start_model(id, tmp_dir, install);
    let r = run_from(st.0, evs, 0);
    (r.0, st.1 + r.1)
}

/// The executable orchestrator. Each value drives one run.
pub struct Orchestrator {
    phase: Phase,
    identifier: String,
    tmp_dir: String,
    url: String,
    path: String,
    content: String,
    install: bool,
}

impl View for Orchestrator {
    type V = SpecState;

    closed spec fn view(&self) -> SpecState {
        SpecState {
            phase: self.phase@,
            identifier: self.identifier@,
            tmp_dir: self.tmp_dir@,
            content: self.content@,
            install: self.install,
        }
    }
}

impl Orchestrator {
    /// The orchestrator's invariant: the cached URL and artifact path are the
    /// ones its identifier and temporary directory determine.
    pub closed spec fn wf(&self) -> bool {
        &&& self.identifier@.len() > 0
        &&& self.tmp_dir@.len() > 0
        &&& self.url@ == spec_url(self.identifier@)
        &&& self.path@ == spec_artifact_path(self.tmp_dir@, self.identifier@)
    }

    fn start_with(identifier: PackageIdentifier, tmp_dir: String, install: bool) -> (r: (
        Orchestrator,
        Vec<Action>,
    ))
        requires
            identifier.wf(),
            tmp_dir@.len() > 0,
        ensures
            r.0.wf(),
            r.0@ == start_model(identifier@, tmp_dir@, install).0,
            r.1.deep_view() == start_model(identifier@, tmp_dir@, install).1,
    {
        let url = descriptor_url(identifier.as_str());
        let path = artifact_path(tmp_dir.as_str(), identifier.as_str());
        let note = pre_fetch_text(url.as_str());
        let id_text = String::from_str(identifier.as_str());
        let orch = Orchestrator {
            phase: Phase::PreFetchNotify,
            identifier: id_text,
            tmp_dir,
            url,
            path,
            content: String::new(),
            install,
        };
        let acts: Vec<Action> = vec![Action::Emit(InstallationEvent::Output(note))];
        proof {
            assert(orch@ == start_model(identifier@, orch.tmp_dir@, install).0);
            assert(acts.deep_view() =~= start_model(identifier@, orch.tmp_dir@, install).1);
        }
        (orch, acts)
    }

    /// Begins a standalone fetch of the descriptor for `identifier`.
    pub fn start_fetch(identifier: PackageIdentifier, tmp_dir: String) -> (r: (
        Orchestrator,
        Vec<Action>,
    ))
        requires
            identifier.wf(),
            tmp_dir@.len() > 0,
        ensures
            r.0.wf(),
            r.0@ == start_model(identifier@, tmp_dir@, false).0,
            r.1.deep_view() == start_model(identifier@, tmp_dir@, false).1,
    {
        Self::start_with(identifier, tmp_dir, false)
    }

    /// Begins a full installation of the package `identifier`.
    pub fn start_install(identifier: PackageIdentifier, tmp_dir: String) -> (r: (
        Orchestrator,
        Vec<Action>,
    ))
        requires
            identifier.wf(),
            tmp_dir@.len() > 0,
        ensures
            r.0.wf(),
            r.0@ == start_model(identifier@, tmp_dir@, true).0,
            r.1.deep_view() == start_model(identifier@, tmp_dir@, true).1,
    {
        Self::start_with(identifier, tmp_dir, true)
    }

    /// Whether the run is over.
    pub fn is_done(&self) -> (r: bool)
        ensures
            r == (self@.phase is Done),
    {
        match &self.phase {
            Phase::Done(_) => true,
            _ => false,
        }
    }

    /// The run's outcome, once it is over.
    pub fn outcome(&self) -> (r: Option<Result<DescriptorArtifact, InstallError>>)
        ensures
            match self@.phase {
                SpecPhase::Done(res) => r matches Some(x) && res_view(x) == res,
                _ => r is None,
            },
    {
        match &self.phase {
            Phase::Done(Ok(a)) => Some(Ok(a.clone())),
            Phase::Done(Err(e)) => Some(Err(*e)),
            _ => None,
        }
    }

    fn artifact(&self) -> (r: DescriptorArtifact)
        requires
            self.wf(),
        ensures
            r@ == artifact_model(self@),
    {
        DescriptorArtifact {
            identifier: self.identifier.clone(),
            path: self.path.clone(),
            content: self.content.clone(),
        }
    }

    /// One transition of the run: consumes the event the driver reported and
    /// returns the actions the driver must perform next, in order. Only the
    /// last of them awaits a report.
    pub fn step(&mut self, ev: Event) -> (acts: Vec<Action>)
        requires
            old(self).wf(),
        ensures
            final(self).wf(),
            final(self)@ == step_model(old(self)@, ev@).0,
            acts.deep_view() == step_model(old(self)@, ev@).1,
    {
        let ghost gev = ev@;
        let acts: Vec<Action> = match (&self.phase, ev) {
            (Phase::PreFetchNotify, Event::Notified(ok)) => {
                if ok {
                    self.phase = Phase::AwaitResponse;
                    vec![Action::Get(self.url.clone())]
                } else {
                    self.phase = Phase::Done(
                        Err(InstallError::Fetch(FetchError::NotifyFailed)),
                    );
                    Vec::new()
                }
            },
            (Phase::AwaitResponse, Event::Response(r)) => {
                match r {
                    Some(c) => {
                        if 200 <= c && c < 300 {
                            self.phase = Phase::AwaitBody;
                            vec![Action::ReadBody]
                        } else {
                            self.phase = Phase::Done(
                                Err(InstallError::Fetch(FetchError::HttpStatus(c))),
                            );
                            Vec::new()
                        }
                    },
                    None => {
                        self.phase = Phase::Done(
                            Err(InstallError::Fetch(FetchError::Transport)),
                        );
                        Vec::new()
                    },
                }
            },
            (Phase::AwaitBody, Event::Body(o)) => {
                match o {
                    Some(b) => {
                        self.content = b;
                        self.phase = Phase::AwaitPersist;
                        vec![Action::Persist(self.path.clone(), self.content.clone())]
                    },
                    None => {
                        self.phase = Phase::Done(Err(InstallError::Fetch(FetchError::Decode)));
                        Vec::new()
                    },
                }
            },
            (Phase::AwaitPersist, Event::Persisted(ok)) => {
                if ok {
                    self.phase = Phase::PostFetchNotify;
                    vec![
                        Action::Emit(
                            InstallationEvent::Output(post_fetch_text(self.path.as_str())),
                        ),
                    ]
                } else {
                    self.phase = Phase::Done(Err(InstallError::Fetch(FetchError::Persist)));
                    Vec::new()
                }
            },
            (Phase::PostFetchNotify, Event::Notified(ok)) => {
                if ok {
                    if self.install {
                        self.phase = Phase::PreSpawnNotify;
                        vec![Action::Emit(InstallationEvent::Output(spawn_text()))]
                    } else {
                        self.phase = Phase::Done(Ok(self.artifact()));
                        Vec::new()
                    }
                } else {
                    self.phase = Phase::Done(
                        Err(InstallError::Fetch(FetchError::NotifyFailed)),
                    );
                    Vec::new()
                }
            },
            (Phase::PreSpawnNotify, Event::Notified(ok)) => {
                if ok {
                    self.phase = Phase::AwaitSpawn;
                    vec![
                        Action::Spawn(installer_program(), installer_args(self.path.as_str())),
                    ]
                } else {
                    self.phase = Phase::Done(Err(InstallError::NotifyFailed));
                    Vec::new()
                }
            },
            (Phase::AwaitSpawn, Event::Spawned(ok)) => {
                if ok {
                    self.phase = Phase::Streaming;
                    vec![Action::Recv]
                } else {
                    self.phase = Phase::Done(Err(InstallError::SpawnFailed));
                    Vec::new()
                }
            },
            (Phase::Streaming, Event::Command(c)) => {
                match c {
                    CommandEvent::Stdout(bytes) => {
                        self.phase = Phase::RelayNotify;
                        vec![Action::Emit(InstallationEvent::Output(utf8_lossy(&bytes)))]
                    },
                    CommandEvent::Stderr(bytes) => {
                        self.phase = Phase::RelayNotify;
                        vec![Action::Emit(InstallationEvent::Output(utf8_lossy(&bytes)))]
                    },
                    CommandEvent::Error(t) => {
                        self.phase = Phase::RelayNotify;
                        vec![Action::Emit(InstallationEvent::Error(t))]
                    },
                    CommandEvent::Terminated(code) => {
                        self.phase = Phase::FinalNotify;
                        let reported: i32 = match code {
                            Some(x) => x,
                            None => -1,
                        };
                        vec![
                            Action::Remove(self.path.clone()),
                            Action::Emit(InstallationEvent::Completed(reported)),
                        ]
                    },
                    CommandEvent::Other => {
                        vec![Action::Recv]
                    },
                }
            },
            (Phase::Streaming, Event::Closed) => {
                self.phase = Phase::Done(Ok(self.artifact()));
                Vec::new()
            },
            (Phase::RelayNotify, Event::Notified(ok)) => {
                if ok {
                    self.phase = Phase::Streaming;
                    vec![Action::Recv]
                } else {
                    self.phase = Phase::Done(Err(InstallError::NotifyFailed));
                    Vec::new()
                }
            },
            (Phase::FinalNotify, Event::Notified(ok)) => {
                if ok {
                    self.phase = Phase::Done(Ok(self.artifact()));
                    Vec::new()
                } else {
                    self.phase = Phase::Done(Err(InstallError::NotifyFailed));
                    Vec::new()
                }
            },
            _ => Vec::new(),
        };
        proof {
            assert(self@ == step_model(old(self)@, gev).0);
            assert(acts.deep_view() =~= step_model(old(self)@, gev).1);
        }
        acts
    }
}

} // verus!
