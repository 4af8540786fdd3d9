use vstd::prelude::*;
use vstd::pervasive::unreached;
use vstd::string::StringExecFns;
use crate::errors::Error;
use crate::words::KhaiiiWord;

verus! {

/// Owns at most one native analysis session, identified by a non-negative
/// handle; a negative handle is the closed state. The value cannot be
/// copied, so exactly one owner drives the session.
#[derive(Debug, PartialEq, Eq)]
pub struct KhaiiiApi {
    handle: i32,
}

/// One native call that the driver must perform for the open pipeline.
#[derive(Debug)]
pub enum EngineAction {
    /// Set the engine's global log level for the named logger.
    SetLogLevel { name: String, level: String },
    /// Ask whether the conventional "share" subdirectory of the current
    /// working directory exists, and for its full path.
    QueryLocalShare,
    /// Open a native session on the given resource directory and options.
    Open { rsc_dir: String, opt_str: String },
    /// Fetch the engine's last error message.
    FetchLastError,
}

/// The engine's answer to one `EngineAction`.
#[derive(Debug)]
pub enum EngineEvent {
    /// Status of the log-level call; negative means rejected.
    Status(i32),
    /// Answer to `QueryLocalShare`.
    LocalShare { exists: bool, path: String },
    /// Handle returned by the native open; negative means failure.
    Handle(i32),
    /// The engine's last error, or `None` when it was not decodable text.
    ErrorMessage(Option<String>),
}

/// Which answer the open pipeline is waiting for.
#[derive(Debug, PartialEq, Eq)]
pub enum OpenStage {
    /// Waiting for the status of the log-level call.
    AwaitLogStatus,
    /// Waiting for the local "share" directory query.
    AwaitLocalShare,
    /// Waiting for the handle of the native open.
    AwaitHandle,
    /// Waiting for the last error message after a failure.
    AwaitError,
}

/// The open pipeline as an explicit state machine: the driver performs each
/// returned `EngineAction` and hands the engine's answer back through
/// `on_event` until the pipeline ends in `Opened` or `Failed`.
#[derive(Debug)]
pub struct OpenFlow {
    pub rsc_dir: String,
    pub opt_str: String,
    pub log_level: String,
    pub stage: OpenStage,
}

/// Outcome of one step of the open pipeline.
#[derive(Debug)]
pub enum OpenStep {
    /// The pipeline continues with the next action to perform.
    Continue(OpenFlow, EngineAction),
    /// The pipeline ended in a failure.
    Failed(Error),
    /// The pipeline produced an open session.
    Opened(KhaiiiApi),
}

/// The step continues into fetching the engine's last error message.
pub open spec fn continues_to_error(pre: OpenFlow, r: OpenStep) -> bool {
    &&& r matches OpenStep::Continue(f, a)
    &&& f.stage is AwaitError
    &&& a is FetchLastError
    &&& f.rsc_dir == pre.rsc_dir
    &&& f.opt_str == pre.opt_str
    &&& f.log_level == pre.log_level
}

/// The step continues into the query for the local "share" directory.
pub open spec fn continues_to_local_query(pre: OpenFlow, r: OpenStep) -> bool {
    &&& r matches OpenStep::Continue(f, a)
    &&& f.stage is AwaitLocalShare
    &&& a is QueryLocalShare
    &&& f.rsc_dir == pre.rsc_dir
    &&& f.opt_str == pre.opt_str
    &&& f.log_level == pre.log_level
}

/// The step continues into the native open call on resource directory `dir`.
pub open spec fn continues_to_open(pre: OpenFlow, r: OpenStep, dir: Seq<char>) -> bool {
    &&& r matches OpenStep::Continue(f, a)
    &&& f.stage is AwaitHandle
    &&& f.rsc_dir == pre.rsc_dir
    &&& f.opt_str == pre.opt_str
    &&& f.log_level == pre.log_level
    &&& a matches EngineAction::Open { rsc_dir, opt_str }
    &&& rsc_dir@ == dir
    &&& opt_str@ == pre.opt_str@
}

/// The full transition relation of the open pipeline: what `on_event` owes
/// for every stage and answer. A rejected log level or a negative handle
/// turns into fetching the engine's last error; an empty resource directory
/// resolves to the local "share" subdirectory when it exists and to the
/// fixed system-wide default otherwise; a non-negative handle ends the
/// pipeline with an open session; a fetched error message ends it with the
/// translated error.
pub open spec fn open_transition(pre: OpenFlow, e: EngineEvent, r: OpenStep) -> bool {
    match pre.stage {
        OpenStage::AwaitLogStatus => match e {
            EngineEvent::Status(st) => if st < 0 {
                continues_to_error(pre, r)
            } else if pre.rsc_dir@.len() > 0 {
                continues_to_open(pre, r, pre.rsc_dir@)
            } else {
                continues_to_local_query(pre, r)
            },
            _ => true,
        },
        OpenStage::AwaitLocalShare => match e {
            EngineEvent::LocalShare { exists, path } => if exists {
                continues_to_open(pre, r, path@)
            } else {
                continues_to_open(pre, r, "/usr/local/share/khaiii"@)
            },
            _ => true,
        },
        OpenStage::AwaitHandle => match e {
            EngineEvent::Handle(h) => if h < 0 {
                continues_to_error(pre, r)
            } else {
                r matches OpenStep::Opened(api) && api.spec_handle() == h
            },
            _ => true,
        },
        OpenStage::AwaitError => match e {
            EngineEvent::ErrorMessage(m) => {
                r matches OpenStep::Failed(err) && err == match m {
                    Some(t) => Error::KhaiiiExcept(t),
                    None => Error::Unknown,
                }
            },
            _ => true,
        },
    }
}

impl OpenFlow {
    /// The kind of engine event the flow is waiting for.
    pub open spec fn expects(&self, e: EngineEvent) -> bool {
        match self.stage {
            OpenStage::AwaitLogStatus => e is Status,
            OpenStage::AwaitLocalShare => e is LocalShare,
            OpenStage::AwaitHandle => e is Handle,
            OpenStage::AwaitError => e is ErrorMessage,
        }
    }

    /// One transition of the open pipeline, as `open_transition` states it.
    pub fn on_event(self, e: EngineEvent) -> (r: OpenStep)
        requires
            self.expects(e),
        ensures
            open_transition(self, e, r),
    {
        let OpenFlow { rsc_dir, opt_str, log_level, stage } = self;
        match stage {
            OpenStage::AwaitLogStatus => match e {
                EngineEvent::Status(st) => {
                    if st < 0 {
                        OpenStep::Continue(
                            OpenFlow { rsc_dir, opt_str, log_level, stage: OpenStage::AwaitError },
                            EngineAction::FetchLastError,
                        )
                    } else if !rsc_dir.as_str().is_empty() {
                        let action = EngineAction::Open {
                            rsc_dir: rsc_dir.clone(),
                            opt_str: opt_str.clone(),
                        };
                        OpenStep::Continue(
                            OpenFlow { rsc_dir, opt_str, log_level, stage: OpenStage::AwaitHandle },
                            action,
                        )
                    } else {
                        OpenStep::Continue(
                            OpenFlow {
                                rsc_dir,
                                opt_str,
                                log_level,
                                stage: OpenStage::AwaitLocalShare,
                            },
                            EngineAction::QueryLocalShare,
                        )
                    }
                },
                _ => unreached(),
            },
            OpenStage::AwaitLocalShare => match e {
                EngineEvent::LocalShare { exists, path } => {
                    let dir = if exists {
                        path
                    } else {
                        String::from_str("/usr/local/share/khaiii")
                    };
                    let action = EngineAction::Open { rsc_dir: dir, opt_str: opt_str.clone() };
                    OpenStep::Continue(
                        OpenFlow { rsc_dir, opt_str, log_level, stage: OpenStage::AwaitHandle },
                        action,
                    )
                },
                _ => unreached(),
            },
            OpenStage::AwaitHandle => match e {
                EngineEvent::Handle(h) => {
                    if h < 0 {
                        OpenStep::Continue(
                            OpenFlow { rsc_dir, opt_str, log_level, stage: OpenStage::AwaitError },
                            EngineAction::FetchLastError,
                        )
                    } else {
                        OpenStep::Opened(KhaiiiApi { handle: h })
                    }
                },
                _ => unreached(),
            },
            OpenStage::AwaitError => match e {
                EngineEvent::ErrorMessage(m) => OpenStep::Failed(Error::from_last_error(m)),
                _ => unreached(),
            },
        }
    }
}

/// How an analyze request proceeds after the readiness decision.
#[derive(Debug)]
pub enum AnalyzePlan {
    /// The result is already determined without touching the engine.
    Done(Vec<KhaiiiWord>),
    /// The driver must run the native analyze call with these arguments,
    /// walk the returned list into `RawWord` values, hand them to
    /// `make_words`, and free the native result afterwards.
    CallEngine { input: String, opt_str: String },
}

impl KhaiiiApi {
    /// The native handle held by this value.
    pub closed spec fn spec_handle(&self) -> int {
        self.handle as int
    }

    /// An open session has a non-negative handle.
    pub open spec fn is_open(&self) -> bool {
        self.spec_handle() >= 0
    }

    /// Starts the open pipeline for a session on `rsc_dir` with engine
    /// options `opt_str`. The first action sets the engine's global log
    /// level for every logger; the pipeline fails fast if the engine rejects
    /// it.
    pub fn new(rsc_dir: String, opt_str: String, log_level: String) -> (r: (OpenFlow, EngineAction))
        ensures
            r.0.stage is AwaitLogStatus,
            r.0.rsc_dir == rsc_dir,
            r.0.opt_str == opt_str,
            r.0.log_level == log_level,
            r.1 matches EngineAction::SetLogLevel { name, level } && name@ == "all"@ && level
                == log_level,
    {
        let action = EngineAction::SetLogLevel {
            name: String::from_str("all"),
            level: log_level.clone(),
        };
        let flow = OpenFlow { rsc_dir, opt_str, log_level, stage: OpenStage::AwaitLogStatus };
        (flow, action)
    }

    /// The raw native handle, for the driver's own calls.
    pub fn handle(&self) -> (h: i32)
        ensures
            h as int == self.spec_handle(),
    {
        self.handle
    }

    /// Leaves the session closed; safe to call on a closed session. When the
    /// session was open, the returned handle must be passed to the native
    /// close call by the driver, exactly once.
    pub fn close(&mut self) -> (r: Option<i32>)
        ensures
            !final (self).is_open(),
            old(self).is_open() ==> (r matches Some(h) && h as int == old(self).spec_handle()),
            !old(self).is_open() ==> r is None,
    {
        if self.handle >= 0 {
            let h = self.handle;
            self.handle = -1;
            Some(h)
        } else {
            self.handle = -1;
            None
        }
    }

    /// Decides the version text from the engine's reply: the decoded native
    /// string, or a fixed placeholder when it was not decodable text.
    pub fn version(raw: Option<String>) -> (r: String)
        ensures
            raw matches Some(v) ==> r == v,
            raw is None ==> r@ == "Failed to get version"@,
    {
        match raw {
            Some(v) => v,
            None => String::from_str("Failed to get version"),
        }
    }

    /// Decides how an analyze request proceeds. A closed session is refused
    /// before any engine work; empty input is answered with an empty word
    /// sequence, never an error; otherwise the driver must run the native
    /// analyze call with the input and an empty option string.
    pub fn analyze(&self, input: String) -> (r: Result<AnalyzePlan, Error>)
        ensures
            !self.is_open() ==> (r matches Err(err) && err == Error::ResourcesFailure),
            self.is_open() && input@.len() == 0 ==> (r matches Ok(p) && (p
                matches AnalyzePlan::Done(words) && words@.len() == 0)),
            self.is_open() && input@.len() > 0 ==> (r matches Ok(p) && (p
                matches AnalyzePlan::CallEngine { input: text, opt_str } && text == input
                && opt_str@.len() == 0)),
    {
        if self.handle < 0 {
            Err(Error::ResourcesFailure)
        } else if input.as_str().is_empty() {
            Ok(AnalyzePlan::Done(Vec::new()))
        } else {
            Ok(AnalyzePlan::CallEngine { input, opt_str: String::new() })
        }
    }
}

} // verus!
