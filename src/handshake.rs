//! The initialize handshake as a state machine: the driver performs each step
//! on the transport and reports back what happened.
use vstd::prelude::*;
use vstd::string::StringExecFns;

verus! {

/// A fatal failure of the handshake.
#[derive(Clone, Copy, Debug, PartialEq, Eq, Structural)]
pub enum HandshakeError {
    /// The transport failed while reading the request or sending the response.
    Transport,
    /// The initialize request body did not decode.
    Decode,
    /// The driver reported an event that the current stage does not expect.
    OutOfOrder,
}

/// Where the handshake stands.
#[derive(Clone, Copy, Debug, PartialEq, Eq, Structural)]
pub enum Stage {
    AwaitRequest,
    AwaitDecode,
    AwaitSend,
    AwaitConfig,
    Ready,
    Failed(HandshakeError),
}

/// What the driver reports after performing a step.
#[derive(Clone, Copy, Debug, PartialEq, Eq, Structural)]
pub enum Event {
    Received,
    ReceiveFailed,
    Decoded,
    DecodeFailed,
    Sent,
    SendFailed,
    ConfigBuilt,
}

/// What the driver must do next.
#[derive(Clone, Copy, Debug, PartialEq, Eq, Structural)]
pub enum Step {
    /// Block on the transport for the initialize request.
    Read,
    /// Decode the request body into the initialize parameters.
    Decode,
    /// Send the initialize response, echoing the request's id.
    Respond,
    /// Resolve the workspace and build the configuration.
    BuildConfig,
    /// Hand the configuration and the transport to the steady-state loop.
    EnterLoop,
    /// Stop the process with this error; nothing more is sent.
    Abort(HandshakeError),
}

/// The handshake's transition table.
pub open spec fn transition(s: Stage, e: Event) -> (Stage, Step) {
    match (s, e) {
        (Stage::AwaitRequest, Event::Received) => (Stage::AwaitDecode, Step::Decode),
        (Stage::AwaitRequest, Event::ReceiveFailed) => (
            Stage::Failed(HandshakeError::Transport),
            Step::Abort(HandshakeError::Transport),
        ),
        (Stage::AwaitDecode, Event::Decoded) => (Stage::AwaitSend, Step::Respond),
        (Stage::AwaitDecode, Event::DecodeFailed) => (
            Stage::Failed(HandshakeError::Decode),
            Step::Abort(HandshakeError::Decode),
        ),
        (Stage::AwaitSend, Event::Sent) => (Stage::AwaitConfig, Step::BuildConfig),
        (Stage::AwaitSend, Event::SendFailed) => (
            Stage::Failed(HandshakeError::Transport),
            Step::Abort(HandshakeError::Transport),
        ),
        (Stage::AwaitConfig, Event::ConfigBuilt) => (Stage::Ready, Step::EnterLoop),
        (Stage::Failed(err), _) => (Stage::Failed(err), Step::Abort(err)),
        _ => (Stage::Failed(HandshakeError::OutOfOrder), Step::Abort(HandshakeError::OutOfOrder)),
    }
}

/// The steps that a run of events yields from a stage.
pub open spec fn steps(s: Stage, events: Seq<Event>) -> Seq<Step>
    decreases events.len(),
{
    if events.len() == 0 {
        Seq::empty()
    } else {
        let (next, step) = transition(s, events[0]);
        seq![step] + steps(next, events.drop_first())
    }
}

/// The first stage and step of a handshake.
pub fn start() -> (r: (Stage, Step))
    ensures
        r == (Stage::AwaitRequest, Step::Read),
{
    (Stage::AwaitRequest, Step::Read)
}

/// Moves the handshake on by one reported event.
pub fn advance(s: Stage, e: Event) -> (r: (Stage, Step))
    ensures
        r == transition(s, e),
{
    match (s, e) {
        (Stage::AwaitRequest, Event::Received) => (Stage::AwaitDecode, Step::Decode),
        (Stage::AwaitRequest, Event::ReceiveFailed) => (
            Stage::Failed(HandshakeError::Transport),
            Step::Abort(HandshakeError::Transport),
        ),
        (Stage::AwaitDecode, Event::Decoded) => (Stage::AwaitSend, Step::Respond),
        (Stage::AwaitDecode, Event::DecodeFailed) => (
            Stage::Failed(HandshakeError::Decode),
            Step::Abort(HandshakeError::Decode),
        ),
        (Stage::AwaitSend, Event::Sent) => (Stage::AwaitConfig, Step::BuildConfig),
        (Stage::AwaitSend, Event::SendFailed) => (
            Stage::Failed(HandshakeError::Transport),
            Step::Abort(HandshakeError::Transport),
        ),
        (Stage::AwaitConfig, Event::ConfigBuilt) => (Stage::Ready, Step::EnterLoop),
        (Stage::Failed(err), _) => (Stage::Failed(err), Step::Abort(err)),
        _ => (Stage::Failed(HandshakeError::OutOfOrder), Step::Abort(HandshakeError::OutOfOrder)),
    }
}

proof fn lemma_steps_len(s: Stage, events: Seq<Event>)
    ensures
        steps(s, events).len() == events.len(),
    decreases events.len(),
{
    if events.len() > 0 {
        lemma_steps_len(transition(s, events[0]).0, events.drop_first());
    }
}

/// Once failed, a handshake only aborts, with its first error.
pub proof fn lemma_failed_only_aborts(err: HandshakeError, events: Seq<Event>)
    ensures
        steps(Stage::Failed(err), events).len() == events.len(),
        forall|i: int| 0 <= i < events.len() ==> #[trigger] steps(Stage::Failed(err), events)[i]
            == Step::Abort(err),
    decreases events.len(),
{
    lemma_steps_len(Stage::Failed(err), events);
    if events.len() > 0 {
        lemma_failed_only_aborts(err, events.drop_first());
        let rest = steps(Stage::Failed(err), events.drop_first());
        assert(steps(Stage::Failed(err), events) == seq![Step::Abort(err)] + rest);
    }
}

/// A request body that fails to decode aborts the handshake with a decode
/// error, and no response is ever sent afterwards, whatever else is reported.
pub proof fn lemma_decode_failure_sends_nothing(rest: Seq<Event>)
    ensures
        ({
            let all = steps(Stage::AwaitRequest, seq![Event::Received, Event::DecodeFailed] + rest);
            &&& all[0] == Step::Decode
            &&& all[1] == Step::Abort(HandshakeError::Decode)
            &&& forall|i: int| 0 <= i < all.len() ==> #[trigger] all[i] != Step::Respond
        }),
{
    let evs = seq![Event::Received, Event::DecodeFailed] + rest;
    let evs1 = seq![Event::DecodeFailed] + rest;
    assert(evs.drop_first() =~= evs1);
    assert(evs1.drop_first() =~= rest);
    lemma_failed_only_aborts(HandshakeError::Decode, rest);
    let tail = steps(Stage::Failed(HandshakeError::Decode), rest);
    assert(steps(Stage::AwaitDecode, evs1) == seq![Step::Abort(HandshakeError::Decode)] + tail);
    assert(steps(Stage::AwaitRequest, evs) == seq![Step::Decode] + steps(Stage::AwaitDecode, evs1));
    let all = steps(Stage::AwaitRequest, evs);
    assert(all =~= seq![Step::Decode, Step::Abort(HandshakeError::Decode)] + tail);
}

/// The identity that the initialize response carries.
pub struct ServerIdentity {
    pub name: String,
    pub version: Option<String>,
}

/// The server's name and the build revision it reports.
pub fn server_identity(revision: &str) -> (r: ServerIdentity)
    ensures
        r.name@ == "rust-analyzer"@,
        r.version is Some && r.version->0@ == revision@,
{
    ServerIdentity {
        name: String::from_str("rust-analyzer"),
        version: Some(String::from_str(revision)),
    }
}

/// The line that the version mode prints: the product name, a space and the
/// build revision.
pub fn version_banner(revision: &str) -> (r: String)
    ensures
        r@ == "rust-analyzer "@ + revision@,
{
    let banner = String::from_str("rust-analyzer ");
    banner.concat(revision)
}

} // verus!
