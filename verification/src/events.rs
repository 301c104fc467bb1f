//! The vocabulary the orchestrator shares with its driver: notifications sent
//! to the UI sink, events the outside world reports back, and actions the
//! driver is asked to perform.

use vstd::prelude::*;

verus! {

/// One unit of progress reported to the notification sink.
#[derive(Debug, PartialEq, Eq)]
pub enum InstallationEvent {
    /// One line of progress text (download status or installer stdout/stderr),
    /// carried on the `install-output` channel.
    Output(String),
    /// A non-fatal process-level error description, carried on the
    /// `install-error` channel.
    Error(String),
    /// The installer's exit code (`-1` if unknown), carried on the
    /// `install-completed` channel.
    Completed(i32),
}

/// The mathematical image of an [`InstallationEvent`].
pub enum SpecNote {
    Output(Seq<char>),
    Error(Seq<char>),
    Completed(i32),
}

/// The name of the UI channel a notification is sent on.
pub open spec fn spec_channel(n: SpecNote) -> Seq<char> {
    match n {
        SpecNote::Output(_) => "install-output"@,
        SpecNote::Error(_) => "install-error"@,
        SpecNote::Completed(_) => "install-completed"@,
    }
}

impl InstallationEvent {
    /// The name of the UI channel this notification is sent on.
    pub fn channel(&self) -> (r: &'static str)
        ensures
            r@ == spec_channel(self@),
    {
        match self {
            InstallationEvent::Output(_) => "install-output",
            InstallationEvent::Error(_) => "install-error",
            InstallationEvent::Completed(_) => "install-completed",
        }
    }
}

impl View for InstallationEvent {
    type V = SpecNote;

    open spec fn view(&self) -> SpecNote {
        match self {
            InstallationEvent::Output(t) => SpecNote::Output(t@),
            InstallationEvent::Error(t) => SpecNote::Error(t@),
            InstallationEvent::Completed(c) => SpecNote::Completed(*c),
        }
    }
}

/// One event from the spawned installer's stream.
#[derive(Debug, PartialEq, Eq)]
pub enum CommandEvent {
    /// A line of standard output, as raw bytes.
    Stdout(Vec<u8>),
    /// A line of standard error, as raw bytes.
    Stderr(Vec<u8>),
    /// A process-level error (for example an I/O failure reading the pipe).
    Error(String),
    /// The process terminated with the given exit code, if one is known.
    Terminated(Option<i32>),
    /// Any other stream event; ignored.
    Other,
}

/// The mathematical image of a [`CommandEvent`].
pub enum SpecCommand {
    Stdout(Seq<u8>),
    Stderr(Seq<u8>),
    Error(Seq<char>),
    Terminated(Option<i32>),
    Other,
}

impl View for CommandEvent {
    type V = SpecCommand;

    open spec fn view(&self) -> SpecCommand {
        match self {
            CommandEvent::Stdout(b) => SpecCommand::Stdout(b@),
            CommandEvent::Stderr(b) => SpecCommand::Stderr(b@),
            CommandEvent::Error(t) => SpecCommand::Error(t@),
            CommandEvent::Terminated(c) => SpecCommand::Terminated(*c),
            CommandEvent::Other => SpecCommand::Other,
        }
    }
}

/// What the outside world reports back to the orchestrator, one report per
/// performed action.
#[derive(Debug, PartialEq, Eq)]
pub enum Event {
    /// Whether emitting the requested notification succeeded.
    Notified(bool),
    /// The HTTP status code of the response, or `None` on a transport-level
    /// failure.
    Response(Option<u16>),
    /// The response body decoded as text, or `None` on a decoding failure.
    Body(Option<String>),
    /// Whether persisting the artifact succeeded.
    Persisted(bool),
    /// Whether spawning the installer succeeded.
    Spawned(bool),
    /// The next event of the installer's stream.
    Command(CommandEvent),
    /// The installer's stream closed without a termination event.
    Closed,
}

/// The mathematical image of an [`Event`].
pub enum SpecEvent {
    Notified(bool),
    Response(Option<u16>),
    Body(Option<Seq<char>>),
    Persisted(bool),
    Spawned(bool),
    Command(SpecCommand),
    Closed,
}

impl View for Event {
    type V = SpecEvent;

    open spec fn view(&self) -> SpecEvent {
        match self {
            Event::Notified(b) => SpecEvent::Notified(*b),
            Event::Response(c) => SpecEvent::Response(*c),
            Event::Body(o) => SpecEvent::Body(
                match o {
                    Some(t) => Some(t@),
                    None => None,
                },
            ),
            Event::Persisted(b) => SpecEvent::Persisted(*b),
            Event::Spawned(b) => SpecEvent::Spawned(*b),
            Event::Command(c) => SpecEvent::Command(c@),
            Event::Closed => SpecEvent::Closed,
        }
    }
}

/// What the orchestrator asks its driver to do next.
#[derive(Debug, PartialEq, Eq)]
pub enum Action {
    /// Emit a notification to the sink and report whether that succeeded.
    Emit(InstallationEvent),
    /// Issue an HTTP GET for the given URL and report the status code.
    Get(String),
    /// Read the current response's body as text and report it.
    ReadBody,
    /// Write the given content to the given path and report whether that
    /// succeeded.
    Persist(String, String),
    /// Spawn the given program with the given arguments and report whether
    /// that succeeded.
    Spawn(String, Vec<String>),
    /// Await the next event of the installer's stream and report it.
    Recv,
    /// Delete the file at the given path, best-effort; nothing is reported
    /// and a failure is ignored.
    Remove(String),
}

/// The mathematical image of an [`Action`].
pub enum SpecAction {
    Emit(SpecNote),
    Get(Seq<char>),
    ReadBody,
    Persist(Seq<char>, Seq<char>),
    Spawn(Seq<char>, Seq<Seq<char>>),
    Recv,
    Remove(Seq<char>),
}

impl View for Action {
    type V = SpecAction;

    open spec fn view(&self) -> SpecAction {
        match self {
            Action::Emit(n) => SpecAction::Emit(n@),
            Action::Get(u) => SpecAction::Get(u@),
            Action::ReadBody => SpecAction::ReadBody,
            Action::Persist(p, c) => SpecAction::Persist(p@, c@),
            Action::Spawn(p, a) => SpecAction::Spawn(p@, a.deep_view()),
            Action::Recv => SpecAction::Recv,
            Action::Remove(p) => SpecAction::Remove(p@),
        }
    }
}

impl DeepView for Action {
    type V = SpecAction;

    open spec fn deep_view(&self) -> SpecAction {
        self.view()
    }
}

/// The text that stands for a byte line of installer output.
///
/// The decoding is a fixed function of the bytes alone; it is given a name
/// rather than spelled out.
pub uninterp spec fn lossy_decode(bytes: Seq<u8>) -> Seq<char>;

/// Relies on `String::from_utf8_lossy`: the decoded text depends on the bytes
/// alone (invalid sequences become U+FFFD), and an empty line decodes to the
/// empty string.
#[verifier::external_body]
pub(crate) fn utf8_lossy(bytes: &Vec<u8>) -> (r: String)
    ensures
        r@ == lossy_decode(bytes@),
        bytes@.len() == 0 ==> r@.len() == 0,
{
    String::from_utf8_lossy(bytes.as_slice()).into_owned()
}

} // verus!
