use vstd::prelude::*;
use vstd::utf8::{decode_utf8, valid_utf8};

verus! {

/// How the engine process ended: its exit code and, on Unix, the signal
/// that ended it.
#[derive(Clone, Copy, PartialEq, Eq, Structural, Debug)]
pub struct ExitStatus {
    pub code: Option<i32>,
    pub signal: Option<i32>,
}

/// One item of the engine's event stream, in the order the OS produced it.
pub enum EngineEvent {
    Stdout(Vec<u8>),
    Stderr(Vec<u8>),
    Terminated(ExitStatus),
    /// Any kind of event the relay does not interpret.
    Other,
}

/// A line for the host's log sink.
pub enum LogLine {
    /// Engine output for the informational sink.
    Info(String),
    /// Engine output for the error sink.
    Error(String),
    /// The engine's exit, for the error sink.
    Exited(ExitStatus),
}

/// What the relay does with one event: the line it logs, if any, and
/// whether it stops draining the stream.
pub struct RelayStep {
    pub log: Option<LogLine>,
    pub finished: bool,
}

/// The text that lossy UTF-8 decoding gives for `bytes`.
pub uninterp spec fn lossy_utf8(bytes: Seq<u8>) -> Seq<char>;

/// Relies on `String::from_utf8_lossy`: invalid sequences are replaced by
/// U+FFFD, and valid UTF-8 is decoded unchanged.
#[verifier::external_body]
fn decode_lossy(bytes: &[u8]) -> (r: String)
    ensures
        r@ == lossy_utf8(bytes@),
        valid_utf8(bytes@) ==> r@ == decode_utf8(bytes@),
{
    String::from_utf8_lossy(bytes).into_owned()
}

/// Holds when `log` is what the relay writes for `event`.
pub open spec fn relay_logs(event: EngineEvent, log: Option<LogLine>) -> bool {
    match event {
        EngineEvent::Stdout(b) => log is Some && log->Some_0 is Info
            && log->Some_0->Info_0@ == lossy_utf8(b@),
        EngineEvent::Stderr(b) => log is Some && log->Some_0 is Error
            && log->Some_0->Error_0@ == lossy_utf8(b@),
        EngineEvent::Terminated(status) => log == Some(LogLine::Exited(status)),
        EngineEvent::Other => log is None,
    }
}

/// Handles one event of the engine's stream: standard output goes to the
/// informational sink, standard error to the error sink, both decoded
/// lossily; termination is logged and ends the relay; anything else is
/// ignored. The relay never touches the supervisor's state.
pub fn relay_step(event: EngineEvent) -> (r: RelayStep)
    ensures
        relay_logs(event, r.log),
        r.finished <==> event is Terminated,
{
    match event {
        EngineEvent::Stdout(b) => RelayStep {
            log: Some(LogLine::Info(decode_lossy(b.as_slice()))),
            finished: false,
        },
        EngineEvent::Stderr(b) => RelayStep {
            log: Some(LogLine::Error(decode_lossy(b.as_slice()))),
            finished: false,
        },
        EngineEvent::Terminated(status) => RelayStep {
            log: Some(LogLine::Exited(status)),
            finished: true,
        },
        EngineEvent::Other => RelayStep { log: None, finished: false },
    }
}

} // verus!
