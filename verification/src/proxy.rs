//! The relay between one bidirectional stream and one TCP connection to
//! the upstream target: an untyped full-duplex byte copy.

use crate::error::RelayError;
use vstd::prelude::*;

verus! {

/// The TCP endpoint to which a stream is relayed.
#[derive(Debug, Clone, Copy, PartialEq, Eq, Structural)]
pub struct Upstream {
    /// The four octets of the IPv4 address, first octet first.
    pub a: u8,
    pub b: u8,
    pub c: u8,
    pub d: u8,
    pub port: u16,
}

/// Where a relay stands.
#[derive(Debug, Clone, Copy, PartialEq, Eq, Structural)]
pub enum RelayState {
    /// The upstream connection is being opened.
    Connecting,
    /// Bytes are copied. Each flag says whether that side may still
    /// deliver bytes.
    Relaying { stream_open: bool, upstream_open: bool },
    /// Both sides have delivered all their bytes. Terminal.
    Finished,
    /// The relay was torn down on an error. Terminal.
    Failed,
}

/// What happened on either side.
#[derive(Debug, Clone, PartialEq, Eq)]
pub enum RelayEvent {
    /// The upstream connection is open.
    Connected,
    /// The upstream target could not be reached.
    Refused,
    /// The stream delivered bytes.
    StreamData(Vec<u8>),
    /// The stream closed its sending side.
    StreamEnd,
    /// The upstream delivered bytes.
    UpstreamData(Vec<u8>),
    /// The upstream closed its sending side.
    UpstreamEnd,
    /// A read or a write failed.
    Broken,
}

/// The mathematical content of a [`RelayEvent`].
pub ghost enum RelayEventView {
    Connected,
    Refused,
    StreamData(Seq<u8>),
    StreamEnd,
    UpstreamData(Seq<u8>),
    UpstreamEnd,
    Broken,
}

impl View for RelayEvent {
    type V = RelayEventView;

    open spec fn view(&self) -> RelayEventView {
        match *self {
            RelayEvent::Connected => RelayEventView::Connected,
            RelayEvent::Refused => RelayEventView::Refused,
            RelayEvent::StreamData(bytes) => RelayEventView::StreamData(bytes@),
            RelayEvent::StreamEnd => RelayEventView::StreamEnd,
            RelayEvent::UpstreamData(bytes) => RelayEventView::UpstreamData(bytes@),
            RelayEvent::UpstreamEnd => RelayEventView::UpstreamEnd,
            RelayEvent::Broken => RelayEventView::Broken,
        }
    }
}

/// What the driver of a relay does next.
#[derive(Debug, Clone, PartialEq, Eq)]
pub enum RelayAction {
    /// Start reading from both sides.
    Relay,
    /// Write these bytes to the upstream connection.
    WriteUpstream(Vec<u8>),
    /// Close the sending side towards the upstream.
    CloseUpstream,
    /// Write these bytes to the stream.
    WriteStream(Vec<u8>),
    /// Close the sending side of the stream.
    CloseStream,
}

/// The mathematical content of a [`RelayAction`].
pub ghost enum RelayActionView {
    Relay,
    WriteUpstream(Seq<u8>),
    CloseUpstream,
    WriteStream(Seq<u8>),
    CloseStream,
}

impl View for RelayAction {
    type V = RelayActionView;

    open spec fn view(&self) -> RelayActionView {
        match *self {
            RelayAction::Relay => RelayActionView::Relay,
            RelayAction::WriteUpstream(bytes) => RelayActionView::WriteUpstream(bytes@),
            RelayAction::CloseUpstream => RelayActionView::CloseUpstream,
            RelayAction::WriteStream(bytes) => RelayActionView::WriteStream(bytes@),
            RelayAction::CloseStream => RelayActionView::CloseStream,
        }
    }
}

/// The relay of one stream.
pub struct Proxy {
    state: RelayState,
}

/// The upstream target on the local host.
pub open spec fn local_upstream(port: u16) -> Upstream {
    Upstream { a: 127u8, b: 0u8, c: 0u8, d: 1u8, port }
}

/// The state of a relay of which one more side has ended.
pub open spec fn after_end(stream_open: bool, upstream_open: bool) -> RelayState {
    if stream_open || upstream_open {
        RelayState::Relaying { stream_open, upstream_open }
    } else {
        RelayState::Finished
    }
}

/// The next state and the answer of a relay in `state` to `event`. Bytes
/// go to the other side as they came; the end of one side closes the
/// sending side towards the other and leaves the other direction running;
/// an error on either side tears everything down.
pub open spec fn relay_step(state: RelayState, event: RelayEventView) -> (
    RelayState,
    Result<RelayActionView, RelayError>,
) {
    match (state, event) {
        (RelayState::Finished, _) => (RelayState::Finished, Err(RelayError::OutOfOrder)),
        (RelayState::Failed, _) => (RelayState::Failed, Err(RelayError::OutOfOrder)),
        (_, RelayEventView::Broken) => (RelayState::Failed, Err(RelayError::Disconnected)),
        (RelayState::Connecting, RelayEventView::Connected) => (
            RelayState::Relaying { stream_open: true, upstream_open: true },
            Ok(RelayActionView::Relay),
        ),
        (RelayState::Connecting, RelayEventView::Refused) => (
            RelayState::Failed,
            Err(RelayError::UpstreamUnreachable),
        ),
        (
            RelayState::Relaying { stream_open: true, upstream_open },
            RelayEventView::StreamData(bytes),
        ) => (state, Ok(RelayActionView::WriteUpstream(bytes))),
        (RelayState::Relaying { stream_open: true, upstream_open }, RelayEventView::StreamEnd) => (
            after_end(false, upstream_open),
            Ok(RelayActionView::CloseUpstream),
        ),
        (
            RelayState::Relaying { stream_open, upstream_open: true },
            RelayEventView::UpstreamData(bytes),
        ) => (state, Ok(RelayActionView::WriteStream(bytes))),
        (RelayState::Relaying { stream_open, upstream_open: true }, RelayEventView::UpstreamEnd) => (
            after_end(stream_open, false),
            Ok(RelayActionView::CloseStream),
        ),
        _ => (RelayState::Failed, Err(RelayError::OutOfOrder)),
    }
}

/// What `r` holds, as a view.
pub open spec fn answer_view(r: Result<RelayAction, RelayError>) -> Result<
    RelayActionView,
    RelayError,
> {
    match r {
        Ok(action) => Ok(action@),
        Err(error) => Err(error),
    }
}

impl View for Proxy {
    type V = RelayState;

    closed spec fn view(&self) -> RelayState {
        self.state
    }
}

impl Proxy {
    /// Starts a relay to the upstream port on the local host: the
    /// connection to that target is to be opened.
    pub fn start(upstream_port: u16) -> (r: (Proxy, Upstream))
        ensures
            r.0@ is Connecting,
            r.1 == local_upstream(upstream_port),
    {
        (
            Proxy { state: RelayState::Connecting },
            Upstream { a: 127u8, b: 0u8, c: 0u8, d: 1u8, port: upstream_port },
        )
    }

    /// Where the relay stands.
    pub fn state(&self) -> (state: RelayState)
        ensures
            state == self@,
    {
        self.state
    }

    /// Whether the relay has ended, in success or on an error.
    pub fn is_over(&self) -> (over: bool)
        ensures
            over == (self@ is Finished || self@ is Failed),
    {
        match self.state {
            RelayState::Finished => true,
            RelayState::Failed => true,
            _ => false,
        }
    }

    /// Drives the relay by one event.
    pub fn relay(&mut self, event: RelayEvent) -> (r: Result<RelayAction, RelayError>)
        ensures
            (final(self)@, answer_view(r)) == relay_step(old(self)@, event@),
    {
        let (state, r) = match (self.state, event) {
            (RelayState::Finished, _) => (RelayState::Finished, Err(RelayError::OutOfOrder)),
            (RelayState::Failed, _) => (RelayState::Failed, Err(RelayError::OutOfOrder)),
            (_, RelayEvent::Broken) => (RelayState::Failed, Err(RelayError::Disconnected)),
            (RelayState::Connecting, RelayEvent::Connected) => (
                RelayState::Relaying { stream_open: true, upstream_open: true },
                Ok(RelayAction::Relay),
            ),
            (RelayState::Connecting, RelayEvent::Refused) => (
                RelayState::Failed,
                Err(RelayError::UpstreamUnreachable),
            ),
            (
                RelayState::Relaying { stream_open: true, upstream_open },
                RelayEvent::StreamData(bytes),
            ) => (
                RelayState::Relaying { stream_open: true, upstream_open },
                Ok(RelayAction::WriteUpstream(bytes)),
            ),
            (RelayState::Relaying { stream_open: true, upstream_open }, RelayEvent::StreamEnd) => (
                if upstream_open {
                    RelayState::Relaying { stream_open: false, upstream_open: true }
                } else {
                    RelayState::Finished
                },
                Ok(RelayAction::CloseUpstream),
            ),
            (
                RelayState::Relaying { stream_open, upstream_open: true },
                RelayEvent::UpstreamData(bytes),
            ) => (
                RelayState::Relaying { stream_open, upstream_open: true },
                Ok(RelayAction::WriteStream(bytes)),
            ),
            (RelayState::Relaying { stream_open, upstream_open: true }, RelayEvent::UpstreamEnd) => (
                if stream_open {
                    RelayState::Relaying { stream_open: true, upstream_open: false }
                } else {
                    RelayState::Finished
                },
                Ok(RelayAction::CloseStream),
            ),
            _ => (RelayState::Failed, Err(RelayError::OutOfOrder)),
        };
        self.state = state;
        r
    }
}

/// A half-close is honoured: when the stream has sent its bytes and closed
/// its sending side, they go upstream and the sending side towards the
/// upstream is closed, but the relay goes on; what the upstream still
/// delivers reaches the stream, and only when the upstream has ended too
/// is the relay finished.
pub proof fn lemma_half_close_is_honoured(first: Seq<u8>, second: Seq<u8>)
    ensures
        ({
            let begun = RelayState::Relaying { stream_open: true, upstream_open: true };
            let half = RelayState::Relaying { stream_open: false, upstream_open: true };
            &&& relay_step(begun, RelayEventView::StreamData(first)) == (
                begun,
                Ok::<RelayActionView, RelayError>(RelayActionView::WriteUpstream(first)),
            )
            &&& relay_step(begun, RelayEventView::StreamEnd) == (
                half,
                Ok::<RelayActionView, RelayError>(RelayActionView::CloseUpstream),
            )
            &&& relay_step(half, RelayEventView::UpstreamData(second)) == (
                half,
                Ok::<RelayActionView, RelayError>(RelayActionView::WriteStream(second)),
            )
            &&& relay_step(half, RelayEventView::UpstreamEnd) == (
                RelayState::Finished,
                Ok::<RelayActionView, RelayError>(RelayActionView::CloseStream),
            )
        }),
{
}

/// A relay finishes only when the second of its two sides ends, fails only
/// on an error or on an event that its state does not accept, and once
/// over stays as it is.
pub proof fn lemma_relay_ends_when_both_sides_end(state: RelayState, event: RelayEventView)
    ensures
        relay_step(state, event).0 is Finished ==> state is Finished || (relay_step(
            state,
            event,
        ).1 is Ok && (state == (RelayState::Relaying { stream_open: true, upstream_open: false })
            && event is StreamEnd || state == (RelayState::Relaying {
            stream_open: false,
            upstream_open: true,
        }) && event is UpstreamEnd)),
        relay_step(state, event).0 is Failed <==> relay_step(state, event).1 is Err && !(state
            is Finished),
        state is Finished || state is Failed ==> relay_step(state, event).0 == state,
{
}

/// The actions of a relay that starts in `state` and is driven by
/// `events`, one action for each event up to the first that it refuses.
pub open spec fn relayed(state: RelayState, events: Seq<RelayEventView>) -> Seq<RelayActionView>
    decreases events.len(),
{
    if events.len() == 0 {
        Seq::empty()
    } else {
        match relay_step(state, events[0]).1 {
            Ok(action) => seq![action] + relayed(relay_step(state, events[0]).0, events.skip(1)),
            Err(_) => Seq::empty(),
        }
    }
}

/// The bytes that the upstream delivered in `events`, in order.
pub open spec fn upstream_bytes(events: Seq<RelayEventView>) -> Seq<u8>
    decreases events.len(),
{
    if events.len() == 0 {
        Seq::empty()
    } else {
        (match events[0] {
            RelayEventView::UpstreamData(bytes) => bytes,
            _ => Seq::empty(),
        }) + upstream_bytes(events.skip(1))
    }
}

/// The bytes that the stream delivered in `events`, in order.
pub open spec fn stream_bytes(events: Seq<RelayEventView>) -> Seq<u8>
    decreases events.len(),
{
    if events.len() == 0 {
        Seq::empty()
    } else {
        (match events[0] {
            RelayEventView::StreamData(bytes) => bytes,
            _ => Seq::empty(),
        }) + stream_bytes(events.skip(1))
    }
}

/// The bytes that `actions` write to the stream, in order.
pub open spec fn written_to_stream(actions: Seq<RelayActionView>) -> Seq<u8>
    decreases actions.len(),
{
    if actions.len() == 0 {
        Seq::empty()
    } else {
        (match actions[0] {
            RelayActionView::WriteStream(bytes) => bytes,
            _ => Seq::empty(),
        }) + written_to_stream(actions.skip(1))
    }
}

/// The bytes that `actions` write to the upstream, in order.
pub open spec fn written_to_upstream(actions: Seq<RelayActionView>) -> Seq<u8>
    decreases actions.len(),
{
    if actions.len() == 0 {
        Seq::empty()
    } else {
        (match actions[0] {
            RelayActionView::WriteUpstream(bytes) => bytes,
            _ => Seq::empty(),
        }) + written_to_upstream(actions.skip(1))
    }
}

/// Within one direction nothing is reordered, dropped or duplicated: as
/// long as the relay accepts its events, what it writes to the stream is
/// exactly what the upstream delivered, byte for byte and in order, and
/// what it writes to the upstream is exactly what the stream delivered.
pub proof fn lemma_relay_keeps_the_bytes(state: RelayState, events: Seq<RelayEventView>)
    ensures
        ({
            let actions = relayed(state, events);
            let accepted = events.take(actions.len() as int);
            &&& actions.len() <= events.len()
            &&& written_to_stream(actions) == upstream_bytes(accepted)
            &&& written_to_upstream(actions) == stream_bytes(accepted)
        }),
    decreases events.len(),
{
    let actions = relayed(state, events);
    if events.len() == 0 {
        assert(events.take(0) =~= events);
    } else {
        let (next, r) = relay_step(state, events[0]);
        match r {
            Ok(action) => {
                let rest = relayed(next, events.skip(1));
                lemma_relay_keeps_the_bytes(next, events.skip(1));
                let accepted = events.take(actions.len() as int);
                assert(actions.skip(1) =~= rest);
                assert(accepted.skip(1) =~= events.skip(1).take(rest.len() as int));
                assert(accepted[0] == events[0]);
            },
            Err(_) => {
                assert(events.take(0).len() == 0);
            },
        }
    }
}

} // verus!
