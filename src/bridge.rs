use vstd::prelude::*;
use crate::locator::{backend_script, chosen_index};
use crate::protocol::{
    is_sent_ack, json_string_of, params_text, request_line, CommandRequest, CommandResponse,
    EncodeError,
};

verus! {

/// What a successful `start` found or did.
#[derive(Debug, Clone, Copy, PartialEq, Eq)]
pub enum StartOutcome {
    /// A new child was spawned.
    Started,
    /// A child was owned already; nothing was done.
    AlreadyRunning,
}

/// The ways an operation of the bridge can fail.
#[derive(Debug)]
pub enum BridgeError {
    /// `send` or `stop` without a running child.
    NotRunning,
    /// The child could not be spawned; carries the system's message.
    Spawn(String),
    /// The command could not be serialized; carries the serializer's message.
    Serialize(String),
    /// Writing the command line failed; carries the system's message.
    Write(String),
    /// Flushing the child's input failed; carries the system's message.
    Flush(String),
    /// The child could not be terminated; carries the system's message.
    Kill(String),
}

/// The message that a caller of the bridge shows for an error.
pub open spec fn error_text(e: BridgeError) -> Seq<char> {
    match e {
        BridgeError::NotRunning => "Backend not running"@,
        BridgeError::Spawn(m) => "Failed to start backend: "@ + m@,
        BridgeError::Serialize(m) => "Failed to serialize command: "@ + m@,
        BridgeError::Write(m) => "Failed to send command: "@ + m@,
        BridgeError::Flush(m) => "Failed to flush stdin: "@ + m@,
        BridgeError::Kill(m) => "Failed to kill backend: "@ + m@,
    }
}

fn prefixed(prefix: &str, detail: &String) -> (r: String)
    ensures
        r@ == prefix@ + detail@,
{
    let mut s = String::from_str(prefix);
    s.append(detail.as_str());
    s
}

impl BridgeError {
    /// The human-readable text of the error.
    pub fn message(&self) -> (r: String)
        ensures
            r@ == error_text(*self),
    {
        match self {
            BridgeError::NotRunning => String::from_str("Backend not running"),
            BridgeError::Spawn(m) => prefixed("Failed to start backend: ", m),
            BridgeError::Serialize(m) => prefixed("Failed to serialize command: ", m),
            BridgeError::Write(m) => prefixed("Failed to send command: ", m),
            BridgeError::Flush(m) => prefixed("Failed to flush stdin: ", m),
            BridgeError::Kill(m) => prefixed("Failed to kill backend: ", m),
        }
    }
}

impl StartOutcome {
    /// The human-readable text of the outcome.
    pub fn message(&self) -> (r: String)
        ensures
            *self == StartOutcome::Started ==> r@ == "Backend started successfully"@,
            *self == StartOutcome::AlreadyRunning ==> r@ == "Backend already running"@,
    {
        match self {
            StartOutcome::Started => String::from_str("Backend started successfully"),
            StartOutcome::AlreadyRunning => String::from_str("Backend already running"),
        }
    }
}

/// The message of a successful `stop`.
pub fn stopped_message() -> (r: String)
    ensures
        r@ == "Backend stopped"@,
{
    String::from_str("Backend stopped")
}

/// The supervised child and the writable end of its input, both present or
/// both absent.
pub struct BackendState<P, W> {
    process: Option<P>,
    stdin: Option<W>,
}

/// What `start` asks of the host.
#[derive(Debug)]
pub enum StartStep {
    /// A child is owned already: nothing to spawn.
    AlreadyRunning,
    /// Spawn the backend on this script, then hand the outcome to
    /// `complete_start`.
    Launch(String),
}

/// How writing a command line to the child went.
#[derive(Debug)]
pub enum WriteEvent {
    /// The write failed; carries the system's message. No flush was made.
    WriteFailed(String),
    /// The write succeeded and the flush failed; carries the system's message.
    FlushFailed(String),
    /// The line was written and flushed.
    Delivered,
}

/// What a successful start sets: the launched child and its input.
pub open spec fn started_with<P, W>(post: BackendState<P, W>, child: P, input: W) -> bool {
    post.child() == Some(child) && post.input() == Some(input)
}

impl<P, W> BackendState<P, W> {
    /// The handle and the input are held together.
    pub closed spec fn wf(&self) -> bool {
        self.process.is_some() == self.stdin.is_some()
    }

    /// A child process is owned.
    pub closed spec fn is_running(&self) -> bool {
        self.process.is_some()
    }

    /// The owned child process, if any.
    pub closed spec fn child(&self) -> Option<P> {
        self.process
    }

    /// The held input handle, if any.
    pub closed spec fn input(&self) -> Option<W> {
        self.stdin
    }

    /// An input handle is held.
    pub closed spec fn has_input(&self) -> bool {
        self.stdin.is_some()
    }

    /// In a well-formed state a child is owned exactly when an input is held,
    /// and the spec accessors agree with each other.
    pub proof fn lemma_wf(&self)
        requires
            self.wf(),
        ensures
            self.is_running() <==> self.has_input(),
            self.is_running() <==> self.child() is Some,
            self.has_input() <==> self.input() is Some,
    {
    }

    /// A state that owns no child.
    pub fn new() -> (r: Self)
        ensures
            r.wf(),
            !r.is_running(),
            !r.has_input(),
    {
        BackendState { process: None, stdin: None }
    }

    /// Whether a child process is owned.
    pub fn running(&self) -> (r: bool)
        ensures
            r == self.is_running(),
    {
        self.process.is_some()
    }

    /// Whether an input handle is held.
    pub fn holds_input(&self) -> (r: bool)
        ensures
            r == self.has_input(),
    {
        self.stdin.is_some()
    }

    /// Decides what `start` does: nothing when a child is owned, else launch
    /// the first existing candidate, or the first candidate when none exists.
    pub fn start_step(&self, candidates: &Vec<String>, exists: &Vec<bool>) -> (r: StartStep)
        requires
            candidates@.len() > 0,
            exists@.len() == candidates@.len(),
        ensures
            r is AlreadyRunning <==> self.is_running(),
            r matches StartStep::Launch(script) ==> script == candidates@[chosen_index(exists@)],
    {
        if self.process.is_some() {
            StartStep::AlreadyRunning
        } else {
            StartStep::Launch(backend_script(candidates, exists))
        }
    }

    /// What `complete_start` leaves behind, given the state before it and the
    /// outcome of the launch.
    pub open spec fn complete_start_post(
        pre: Self,
        launched: Result<(P, W), String>,
        post: Self,
        r: Result<StartOutcome, BridgeError>,
    ) -> bool {
        &&& post.wf()
        &&& match launched {
            Ok((child, input)) => r == Ok::<StartOutcome, BridgeError>(StartOutcome::Started)
                && started_with(post, child, input),
            Err(e) => r == Err::<StartOutcome, BridgeError>(BridgeError::Spawn(e)) && post == pre,
        }
    }

    /// Takes the outcome of a launch: on success the child and its input are
    /// stored together; on failure the error carries the system's message and
    /// nothing is stored.
    pub fn complete_start(&mut self, launched: Result<(P, W), String>) -> (r: Result<
        StartOutcome,
        BridgeError,
    >)
        requires
            old(self).wf(),
            !old(self).is_running(),
        ensures
            Self::complete_start_post(*old(self), launched, *final(self), r),
    {
        match launched {
            Ok((child, input)) => {
                self.process = Some(child);
                self.stdin = Some(input);
                Ok(StartOutcome::Started)
            },
            Err(e) => Err(BridgeError::Spawn(e)),
        }
    }

    /// Decides what `send` does: fail with `NotRunning` when no child is
    /// owned, else return the command as the one JSON line to write to the
    /// held input, then flush, then hand the outcome to `send_outcome`.
    pub fn send_step(&self, action: String, params: Option<serde_json::Value>) -> (r: Result<
        String,
        BridgeError,
    >)
        requires
            self.wf(),
        ensures
            r is Err <==> !self.is_running(),
            r matches Err(e) ==> e is NotRunning,
            r matches Ok(line) ==> line@ == request_line(
                json_string_of(action@),
                params_text(params),
            ),
    {
        if self.stdin.is_none() {
            return Err(BridgeError::NotRunning);
        }
        let request = CommandRequest { action, params };
        match request.encode_line() {
            Ok(line) => Ok(line),
            Err(EncodeError::Serialize(m)) => Err(BridgeError::Serialize(m)),
        }
    }

    /// Lends the held input, to write a command line to it; the state keeps
    /// whatever the writer leaves behind.
    pub fn input_mut(&mut self) -> (r: &mut W)
        requires
            old(self).wf(),
            old(self).has_input(),
        ensures
            old(self).input() == Some(*r),
            final(self).input() == Some(*final(r)),
            final(self).child() == old(self).child(),
            final(self).wf(),
    {
        match &mut self.stdin {
            Some(w) => w,
            None => vstd::pervasive::unreached(),
        }
    }

    /// Lends the owned child, to terminate it.
    pub fn child_mut(&mut self) -> (r: &mut P)
        requires
            old(self).wf(),
            old(self).is_running(),
        ensures
            old(self).child() == Some(*r),
            final(self).child() == Some(*final(r)),
            final(self).input() == old(self).input(),
            final(self).wf(),
    {
        match &mut self.process {
            Some(p) => p,
            None => vstd::pervasive::unreached(),
        }
    }

    /// Decides what `stop` does: fail when no child is owned, else terminate
    /// the owned child and hand the outcome to `complete_stop`.
    pub fn stop_step(&self) -> (r: Result<(), BridgeError>)
        ensures
            r is Ok <==> self.is_running(),
            r matches Err(e) ==> e is NotRunning,
    {
        if self.process.is_some() {
            Ok(())
        } else {
            Err(BridgeError::NotRunning)
        }
    }

    /// What `complete_stop` leaves behind, given the state before it and the
    /// outcome of the termination.
    pub open spec fn complete_stop_post(
        pre: Self,
        killed: Result<(), String>,
        post: Self,
        r: Result<(), BridgeError>,
    ) -> bool {
        &&& post.wf()
        &&& match killed {
            Ok(()) => r == Ok::<(), BridgeError>(()) && !post.is_running() && !post.has_input(),
            Err(e) => r == Err::<(), BridgeError>(BridgeError::Kill(e)) && post == pre,
        }
    }

    /// Takes the outcome of terminating the child: on success both handles are
    /// released; when the system refused, the error carries its message and
    /// the handles are kept.
    pub fn complete_stop(&mut self, killed: Result<(), String>) -> (r: Result<(), BridgeError>)
        requires
            old(self).wf(),
            old(self).is_running(),
        ensures
            Self::complete_stop_post(*old(self), killed, *final(self), r),
    {
        match killed {
            Ok(()) => {
                self.process = None;
                self.stdin = None;
                Ok(())
            },
            Err(e) => Err(BridgeError::Kill(e)),
        }
    }
}

/// The result of `send` once the line has been handed to the child: the
/// acknowledgement when it was delivered, else the failing step's error with
/// the system's message.
pub fn send_outcome(event: WriteEvent) -> (r: Result<CommandResponse, BridgeError>)
    ensures
        match event {
            WriteEvent::WriteFailed(e) => r == Err::<CommandResponse, BridgeError>(
                BridgeError::Write(e),
            ),
            WriteEvent::FlushFailed(e) => r == Err::<CommandResponse, BridgeError>(
                BridgeError::Flush(e),
            ),
            WriteEvent::Delivered => r matches Ok(resp) && is_sent_ack(resp),
        },
{
    match event {
        WriteEvent::WriteFailed(e) => Err(BridgeError::Write(e)),
        WriteEvent::FlushFailed(e) => Err(BridgeError::Flush(e)),
        WriteEvent::Delivered => Ok(CommandResponse::command_sent()),
    }
}

/// Starting twice without a stop in between: once a launch has been stored,
/// the state owns a child and its input, so the next `start_step` reports
/// that the backend is already running and launches nothing.
pub proof fn law_second_start_is_noop<P, W>(
    s0: BackendState<P, W>,
    launched: Result<(P, W), String>,
    s1: BackendState<P, W>,
    r: Result<StartOutcome, BridgeError>,
)
    requires
        s0.wf(),
        BackendState::complete_start_post(s0, launched, s1, r),
        r is Ok,
    ensures
        s1.wf(),
        s1.is_running(),
        s1.has_input(),
        launched matches Ok((c, w)) && s1.child() == Some(c) && s1.input() == Some(w),
{
}

/// A start whose spawn fails leaves the bridge not started: no child and no
/// input handle are held, and the state is the one before.
pub proof fn law_failed_start_keeps_nothing<P, W>(
    s0: BackendState<P, W>,
    e: String,
    s1: BackendState<P, W>,
    r: Result<StartOutcome, BridgeError>,
)
    requires
        s0.wf(),
        !s0.is_running(),
        BackendState::complete_start_post(s0, Err(e), s1, r),
    ensures
        r == Err::<StartOutcome, BridgeError>(BridgeError::Spawn(e)),
        s1 == s0,
        !s1.is_running(),
        !s1.has_input(),
{
}

/// After a successful stop no child and no input handle are held, so a
/// following send or stop reports `NotRunning`.
pub proof fn law_stop_releases_everything<P, W>(
    s0: BackendState<P, W>,
    s1: BackendState<P, W>,
    r: Result<(), BridgeError>,
)
    requires
        s0.wf(),
        BackendState::complete_stop_post(s0, Ok(()), s1, r),
    ensures
        r is Ok,
        s1.wf(),
        !s1.is_running(),
        !s1.has_input(),
{
}

} // verus!
