//! The protocol client as a state machine.
//!
//! The client owns no socket. Each of its functions is told what the caller
//! wants or what happened on the socket, moves the client to its next state,
//! and answers with an [`Action`]: what to do on the socket next, or how the
//! operation ended. Whoever holds the socket performs the action and hands
//! the outcome back: the outcome of [`Action::Dial`] to
//! [`PubqClient::dialed`], of [`Action::Send`] to [`PubqClient::sent`], of
//! [`Action::Receive`] to [`PubqClient::receive_message`].
//!
//! A frame that came passes three layers. [`PubqClient::receive_message`]
//! tells a frame from a wait that brought none.
//! [`PubqClient::assemble`] puts the chunks of a logical message together.
//! [`PubqClient::take_envelope`] takes the message, decoded, for the stage
//! of the operation that waits for it.

use crate::chunk::{accept, Assembly, Reassembler};
use crate::decimal::parsed_decimal;
use crate::envelope::{
    decoded, encoded, query_envelope, view_of, DataMessage, DataMessageView, Envelope,
    EnvelopeView, RequestAction, RequestStatus,
};
use crate::json::{Json, JsonTree};
use vstd::prelude::*;

verus! {

/// How an operation of the client can fail.
#[derive(Debug, Clone, Copy, PartialEq, Eq)]
pub enum ClientError {
    /// The dial failed, the socket failed, or the stream ended.
    Transport,
    /// A frame was no envelope, an envelope of the wrong kind, or an
    /// acknowledgement that carries no status.
    ProtocolViolation,
    /// The peer acknowledged the request with status `fail`.
    RequestFailed,
    /// No frame came within the time allowed.
    Timeout,
    /// The wait was called off from outside.
    Cancelled,
    /// The operation needs a connection and there is none.
    NotConnected,
    /// The exchange went well and the reply carries no payload.
    NoData,
}

/// The outcome of one wait on the socket.
#[derive(Debug, Clone, PartialEq, Eq)]
pub enum SocketEvent {
    /// A text frame came.
    Text(String),
    /// A frame came that is no text. It is dropped and the wait goes on.
    Ignored,
    /// The time allowed ran out first.
    TimedOut,
    /// The wait was called off first.
    Cancelled,
    /// The stream ended: no frame will come any more.
    Closed,
    /// The socket reported an error.
    Failed,
}

/// What the holder of the socket is to do next, or how the operation ended.
#[derive(Debug, Clone, PartialEq, Eq)]
pub enum Action {
    /// Open a new socket to the endpoint, in place of any that is held, and
    /// report to [`PubqClient::dialed`].
    Dial,
    /// Write this text as one frame and report to [`PubqClient::sent`].
    Send(String),
    /// Wait for the next frame and report to
    /// [`PubqClient::receive_message`].
    Receive,
    /// The operation is over: the client is connected.
    Connected,
    /// The operation is over: this is the payload of the reply.
    Delivered(Json),
    /// The operation is over: it failed.
    Failed(ClientError),
    /// The report answers no action that is outstanding. Nothing changed.
    Stray,
}

pub enum ActionView {
    Dial,
    Send(Seq<char>),
    Receive,
    Connected,
    Delivered(JsonTree),
    Failed(ClientError),
    Stray,
}

impl View for Action {
    type V = ActionView;

    open spec fn view(&self) -> ActionView {
        match self {
            Action::Dial => ActionView::Dial,
            Action::Send(text) => ActionView::Send(text@),
            Action::Receive => ActionView::Receive,
            Action::Connected => ActionView::Connected,
            Action::Delivered(payload) => ActionView::Delivered(payload@),
            Action::Failed(error) => ActionView::Failed(*error),
            Action::Stray => ActionView::Stray,
        }
    }
}

/// The connection, as the client knows it.
#[derive(Debug, Clone, Copy, PartialEq, Eq)]
pub enum Link {
    /// No socket is held.
    Down,
    /// A socket is held and the handshake has not been completed on it.
    Open,
    /// A socket is held and the handshake is complete: the client is
    /// connected. The next query goes out under `next_id`.
    Up { next_id: u64 },
}

/// How far the operation in progress has come.
pub enum Stage {
    /// No operation is in progress.
    Idle,
    /// `connect` waits for the dial to end.
    Dialing,
    /// `connect` waits for the header frame.
    Handshaking,
    /// A query waits for its frame to be written.
    Sending,
    /// A query waits for the reply.
    AwaitingPayload { assembly: Assembly },
    /// A query holds the reply and waits for the status acknowledgement.
    AwaitingStatus { payload: DataMessageView, assembly: Assembly },
}

/// The state of a client.
pub struct ClientView {
    pub link: Link,
    pub stage: Stage,
}

/// The endpoint that the client is made for.
pub const SOCKET_URL: &'static str = "wss://s-usc1a-nss-2040.firebaseio.com/.ws?v=5&ns=pq-dev";

/// The path under which the vendor list is kept.
pub open spec fn vendors_path() -> Seq<char> {
    "/clientUnits/compassdk_danskebank/all"@
}

/// The path under which the menu of the vendor `vendor_route` is kept.
pub open spec fn menu_path(vendor_route: Seq<char>) -> Seq<char> {
    "/Clients/"@ + vendor_route + "/activeMenu/categories"@
}

/// The client as it is made: no socket, no operation in progress.
pub open spec fn initial() -> ClientView {
    ClientView { link: Link::Down, stage: Stage::Idle }
}

/// The state after an operation ended with the connection as it was.
pub open spec fn at_rest(state: ClientView) -> ClientView {
    ClientView { link: state.link, stage: Stage::Idle }
}

/// The state after the socket was lost.
pub open spec fn cut_off() -> ClientView {
    ClientView { link: Link::Down, stage: Stage::Idle }
}

/// `connect`: nothing to do on the socket where the client is connected;
/// otherwise a dial, for which any socket still held is given up.
pub open spec fn connect_step(state: ClientView) -> (ClientView, ActionView) {
    match state.link {
        Link::Up { .. } => (at_rest(state), ActionView::Connected),
        _ => (ClientView { link: Link::Down, stage: Stage::Dialing }, ActionView::Dial),
    }
}

/// The end of a dial: with a socket the handshake begins; without one the
/// connect has failed.
pub open spec fn dialed_step(state: ClientView, opened: bool) -> (ClientView, ActionView) {
    match state.stage {
        Stage::Dialing => if opened {
            (ClientView { link: Link::Open, stage: Stage::Handshaking }, ActionView::Receive)
        } else {
            (cut_off(), ActionView::Failed(ClientError::Transport))
        },
        _ => (state, ActionView::Stray),
    }
}

/// A query for `path`: without a connection it fails at once; with one, the
/// query goes out under the next request id, which is then used up.
pub open spec fn query_step(state: ClientView, path: Seq<char>) -> (ClientView, ActionView) {
    match state.link {
        Link::Up { next_id } => (
            ClientView {
                link: Link::Up { next_id: (next_id + 1) as u64 },
                stage: Stage::Sending,
            },
            ActionView::Send(encoded(query_envelope(next_id, path))),
        ),
        _ => (at_rest(state), ActionView::Failed(ClientError::NotConnected)),
    }
}

/// The end of a write: after a good one the reply is awaited; a failed one
/// costs the connection.
pub open spec fn sent_step(state: ClientView, written: bool) -> (ClientView, ActionView) {
    match state.stage {
        Stage::Sending => if written {
            (
                ClientView {
                    link: state.link,
                    stage: Stage::AwaitingPayload { assembly: Assembly::Idle },
                },
                ActionView::Receive,
            )
        } else {
            (cut_off(), ActionView::Failed(ClientError::Transport))
        },
        _ => (state, ActionView::Stray),
    }
}

/// How a query ends once the reply and the acknowledgement are both in.
///
/// A reply whose action is not `Data` is a violation whatever the status.
/// Then the status decides: none is a violation, `fail` fails the request,
/// `ok` delivers the payload of the reply, and a reply without one is the
/// error of its own.
pub open spec fn verdict(payload: DataMessageView, status: DataMessageView) -> ActionView {
    if payload.action != Some(RequestAction::Data) {
        ActionView::Failed(ClientError::ProtocolViolation)
    } else {
        match status.body.status {
            None => ActionView::Failed(ClientError::ProtocolViolation),
            Some(RequestStatus::Fail) => ActionView::Failed(ClientError::RequestFailed),
            Some(RequestStatus::Okay) => match payload.body.data {
                Some(data) => ActionView::Delivered(data),
                None => ActionView::Failed(ClientError::NoData),
            },
        }
    }
}

/// What a wait that brought no frame does to an operation that was waiting:
/// a timeout or a cancellation ends the operation and leaves the connection;
/// the end of the stream or an error ends both.
pub open spec fn interrupted(state: ClientView, event: SocketEvent) -> (ClientView, ActionView) {
    match event {
        SocketEvent::TimedOut => (at_rest(state), ActionView::Failed(ClientError::Timeout)),
        SocketEvent::Cancelled => (at_rest(state), ActionView::Failed(ClientError::Cancelled)),
        SocketEvent::Closed => (cut_off(), ActionView::Failed(ClientError::Transport)),
        SocketEvent::Failed => (cut_off(), ActionView::Failed(ClientError::Transport)),
        _ => (state, ActionView::Receive),
    }
}

/// Whether the operation in progress waits for a frame.
pub open spec fn is_waiting(stage: Stage) -> bool {
    stage is Handshaking || stage is AwaitingPayload || stage is AwaitingStatus
}

/// What a text frame does to the reassembly of the stage that waits for it:
/// the state after the frame, and the logical message that the frame
/// completes. The header frame is a message by itself; the reply and the
/// acknowledgement of a query may each come in chunks.
pub open spec fn frame_step(state: ClientView, frame: Seq<char>) -> (
    ClientView,
    Option<Seq<char>>,
) {
    match state.stage {
        Stage::Handshaking => (state, Some(frame)),
        Stage::AwaitingPayload { assembly } => (
            ClientView {
                link: state.link,
                stage: Stage::AwaitingPayload { assembly: accept(assembly, frame).0 },
            },
            accept(assembly, frame).1,
        ),
        Stage::AwaitingStatus { payload, assembly } => (
            ClientView {
                link: state.link,
                stage: Stage::AwaitingStatus { payload, assembly: accept(assembly, frame).0 },
            },
            accept(assembly, frame).1,
        ),
        _ => (state, None),
    }
}

/// What a logical message, decoded, does to the stage that waits for it;
/// `None` stands for a message that is no envelope.
///
/// As header only a control envelope will do: it completes the handshake,
/// and the request ids start again at 1. As reply and as acknowledgement
/// only a data envelope will do: the reply is kept and the acknowledgement
/// awaited, and with the acknowledgement the query ends as [`verdict`] says.
/// Anything else is a violation, which ends the operation and leaves the
/// connection as it was.
pub open spec fn envelope_step(state: ClientView, message: Option<EnvelopeView>) -> (
    ClientView,
    ActionView,
) {
    match state.stage {
        Stage::Handshaking => match message {
            Some(EnvelopeView::Control(_)) => (
                ClientView { link: Link::Up { next_id: 1 }, stage: Stage::Idle },
                ActionView::Connected,
            ),
            _ => (at_rest(state), ActionView::Failed(ClientError::ProtocolViolation)),
        },
        Stage::AwaitingPayload { .. } => match message {
            Some(EnvelopeView::Data(payload)) => (
                ClientView {
                    link: state.link,
                    stage: Stage::AwaitingStatus { payload, assembly: Assembly::Idle },
                },
                ActionView::Receive,
            ),
            _ => (at_rest(state), ActionView::Failed(ClientError::ProtocolViolation)),
        },
        Stage::AwaitingStatus { payload, .. } => match message {
            Some(EnvelopeView::Data(status)) => (at_rest(state), verdict(payload, status)),
            _ => (at_rest(state), ActionView::Failed(ClientError::ProtocolViolation)),
        },
        _ => (state, ActionView::Stray),
    }
}

/// The outcome of a wait on the socket. A text frame goes to the
/// reassembly; the logical message that it completes is decoded and goes to
/// the stage that waits for it. Where no stage waits, the outcome is stray.
pub open spec fn socket_step(state: ClientView, event: SocketEvent) -> (ClientView, ActionView) {
    if !is_waiting(state.stage) {
        (state, ActionView::Stray)
    } else {
        match event {
            SocketEvent::Text(frame) => match frame_step(state, frame@).1 {
                Some(text) => envelope_step(frame_step(state, frame@).0, decoded(text)),
                None => (frame_step(state, frame@).0, ActionView::Receive),
            },
            _ => interrupted(state, event),
        }
    }
}

/// What a client can be told.
pub enum Input {
    /// The caller asks for a connection.
    Connect,
    /// The caller asks for what is kept under a path.
    Query(Seq<char>),
    /// A dial ended, with a socket or without.
    Dialed(bool),
    /// A write ended, well or not.
    Sent(bool),
    /// A wait on the socket ended.
    Socket(SocketEvent),
}

/// The state machine as one function: the state and the action that follow
/// an input.
pub open spec fn step(state: ClientView, input: Input) -> (ClientView, ActionView) {
    match input {
        Input::Connect => connect_step(state),
        Input::Query(path) => query_step(state, path),
        Input::Dialed(opened) => dialed_step(state, opened),
        Input::Sent(written) => sent_step(state, written),
        Input::Socket(event) => socket_step(state, event),
    }
}

/// Whether an action ends the operation.
pub open spec fn is_final(action: ActionView) -> bool {
    action is Connected || action is Delivered || action is Failed
}

/// How the end of an operation bears on the connection.
///
/// An operation that ends leaves none in progress. A transport error leaves
/// no socket. Every other failure, and a delivery, leave the connection as
/// it was. A stray report changes nothing.
pub proof fn lemma_endings_and_the_connection(state: ClientView, input: Input)
    ensures
        is_final(step(state, input).1) ==> step(state, input).0.stage is Idle,
        step(state, input).1 == ActionView::Failed(ClientError::Transport) ==> step(
            state,
            input,
        ).0.link is Down,
        step(state, input).1 matches ActionView::Failed(error) ==> error != ClientError::Transport
            ==> step(state, input).0.link == state.link,
        step(state, input).1 is Delivered ==> step(state, input).0.link == state.link,
        step(state, input).1 is Stray ==> step(state, input).0 == state,
{
}

/// A connection is made by the handshake alone: a client that was not
/// connected is connected after a step only if the step took a control
/// envelope as the header frame, and then the request ids start at 1.
pub proof fn lemma_connected_by_handshake(state: ClientView, input: Input)
    requires
        state.link !is Up,
    ensures
        step(state, input).0.link is Up ==> {
            &&& state.stage is Handshaking
            &&& step(state, input).0.link == (Link::Up { next_id: 1 })
            &&& step(state, input).1 is Connected
            &&& input matches Input::Socket(SocketEvent::Text(frame))
            &&& decoded(frame@) matches Some(EnvelopeView::Control(_))
        },
{
}

/// Request ids count up by one with each query of a connection. Nothing
/// else moves them while the connection stands but a handshake, which
/// starts them again at 1.
pub proof fn lemma_request_ids(state: ClientView, input: Input, id: u64)
    requires
        state.link == (Link::Up { next_id: id }),
        id < u64::MAX,
    ensures
        match input {
            Input::Query(path) => step(state, input) == (
                ClientView { link: Link::Up { next_id: (id + 1) as u64 }, stage: Stage::Sending },
                ActionView::Send(encoded(query_envelope(id, path))),
            ),
            _ => step(state, input).0.link is Up ==> step(state, input).0.link == state.link
                || step(state, input).0.link == (Link::Up { next_id: 1 }),
        },
{
}

/// Whether the stage of the operation fits the connection: a dial is made
/// without a socket, the header is awaited on a socket without handshake,
/// and a query is under way only on a connection.
pub open spec fn stage_fits_link(state: ClientView) -> bool {
    match state.stage {
        Stage::Idle => true,
        Stage::Dialing => state.link is Down,
        Stage::Handshaking => state.link is Open,
        _ => state.link is Up,
    }
}

/// The stage fits the connection in a new client and after every step from
/// a state in which it did.
pub proof fn lemma_stage_fits_link(state: ClientView, input: Input)
    requires
        stage_fits_link(state),
    ensures
        stage_fits_link(initial()),
        stage_fits_link(step(state, input).0),
{
}

/// The exchange of a query whose reply and acknowledgement each come in one
/// frame: after the reply the client asks for one more frame, and after the
/// acknowledgement the query ends as [`verdict`] says, with the connection
/// as it was.
pub proof fn lemma_query_exchange(
    state: ClientView,
    reply: String,
    acknowledgement: String,
    payload: DataMessageView,
    status: DataMessageView,
)
    requires
        state.stage == (Stage::AwaitingPayload { assembly: Assembly::Idle }),
        parsed_decimal(reply@) is None,
        parsed_decimal(acknowledgement@) is None,
    ensures
        decoded(reply@) == Some(EnvelopeView::Data(payload)) && decoded(acknowledgement@) == Some(
            EnvelopeView::Data(status),
        ) ==> {
            &&& socket_step(state, SocketEvent::Text(reply)).1 == ActionView::Receive
            &&& socket_step(
                socket_step(state, SocketEvent::Text(reply)).0,
                SocketEvent::Text(acknowledgement),
            ) == (at_rest(state), verdict(payload, status))
        },
{
}

enum Phase {
    Idle,
    Dialing,
    Handshaking,
    Sending,
    AwaitingPayload(Reassembler),
    AwaitingStatus(DataMessage, Reassembler),
}

impl View for Phase {
    type V = Stage;

    closed spec fn view(&self) -> Stage {
        match self {
            Phase::Idle => Stage::Idle,
            Phase::Dialing => Stage::Dialing,
            Phase::Handshaking => Stage::Handshaking,
            Phase::Sending => Stage::Sending,
            Phase::AwaitingPayload(reassembler) => Stage::AwaitingPayload {
                assembly: reassembler@,
            },
            Phase::AwaitingStatus(payload, reassembler) => Stage::AwaitingStatus {
                payload: payload@,
                assembly: reassembler@,
            },
        }
    }
}

/// The protocol client: the state of one connection and of the operation in
/// progress on it.
pub struct PubqClient {
    link: Link,
    phase: Phase,
}

impl View for PubqClient {
    type V = ClientView;

    closed spec fn view(&self) -> ClientView {
        ClientView { link: self.link, stage: self.phase@ }
    }
}

/// Ends a query on the reply and its acknowledgement.
pub fn settle(payload: DataMessage, status: DataMessage) -> (action: Action)
    ensures
        action@ == verdict(payload@, status@),
{
    match payload.action {
        Some(RequestAction::Data) => match status.body.status {
            None => Action::Failed(ClientError::ProtocolViolation),
            Some(RequestStatus::Fail) => Action::Failed(ClientError::RequestFailed),
            Some(RequestStatus::Okay) => match payload.body.data {
                Some(data) => Action::Delivered(data),
                None => Action::Failed(ClientError::NoData),
            },
        },
        _ => Action::Failed(ClientError::ProtocolViolation),
    }
}

/// The text of the path under which the menu of a vendor is kept.
pub fn menu_path_text(vendor_route: &str) -> (path: String)
    ensures
        path@ == menu_path(vendor_route@),
{
    let mut path = String::from_str("/Clients/");
    path.append(vendor_route);
    path.append("/activeMenu/categories");
    path
}

impl PubqClient {
    /// A client with no connection.
    pub fn new() -> (client: PubqClient)
        ensures
            client@ == initial(),
    {
        PubqClient { link: Link::Down, phase: Phase::Idle }
    }

    /// Whether the handshake is complete on a socket that is held.
    pub fn is_connected(&self) -> (connected: bool)
        ensures
            connected == (self@.link is Up),
    {
        match self.link {
            Link::Up { .. } => true,
            _ => false,
        }
    }

    /// Whether a socket is held. Where none is, the holder of the socket
    /// lets go of the one it has.
    pub fn holds_socket(&self) -> (held: bool)
        ensures
            held == (self@.link !is Down),
    {
        match self.link {
            Link::Down => false,
            _ => true,
        }
    }

    /// The id under which the next query goes out, while connected.
    pub fn next_request_id(&self) -> (id: Option<u64>)
        ensures
            id == match self@.link {
                Link::Up { next_id } => Some(next_id),
                _ => None::<u64>,
            },
    {
        match self.link {
            Link::Up { next_id } => Some(next_id),
            _ => None,
        }
    }

    /// Whether an operation is in progress.
    pub fn is_busy(&self) -> (busy: bool)
        ensures
            busy == (self@.stage !is Idle),
    {
        match self.phase {
            Phase::Idle => false,
            _ => true,
        }
    }

    /// Starts a connect. An operation that was in progress is given up.
    pub fn connect(&mut self) -> (action: Action)
        ensures
            (final(self)@, action@) == connect_step(old(self)@),
    {
        match self.link {
            Link::Up { .. } => {
                self.phase = Phase::Idle;
                Action::Connected
            },
            _ => {
                self.link = Link::Down;
                self.phase = Phase::Dialing;
                Action::Dial
            },
        }
    }

    /// Takes the outcome of a dial.
    pub fn dialed(&mut self, opened: bool) -> (action: Action)
        ensures
            (final(self)@, action@) == dialed_step(old(self)@, opened),
    {
        match self.phase {
            Phase::Dialing => {
                if opened {
                    self.link = Link::Open;
                    self.phase = Phase::Handshaking;
                    Action::Receive
                } else {
                    self.link = Link::Down;
                    self.phase = Phase::Idle;
                    Action::Failed(ClientError::Transport)
                }
            },
            _ => Action::Stray,
        }
    }

    fn query(&mut self, path: &str) -> (action: Action)
        requires
            old(self)@.link matches Link::Up { next_id } ==> next_id < u64::MAX,
        ensures
            (final(self)@, action@) == query_step(old(self)@, path@),
    {
        match self.link {
            Link::Up { next_id } => {
                let text = Envelope::query(next_id, path).encode();
                self.link = Link::Up { next_id: next_id + 1 };
                self.phase = Phase::Sending;
                Action::Send(text)
            },
            _ => {
                self.phase = Phase::Idle;
                Action::Failed(ClientError::NotConnected)
            },
        }
    }

    /// Starts the query for the vendor list. An operation that was in
    /// progress is given up.
    pub fn get_vendors(&mut self) -> (action: Action)
        requires
            old(self)@.link matches Link::Up { next_id } ==> next_id < u64::MAX,
        ensures
            (final(self)@, action@) == query_step(old(self)@, vendors_path()),
    {
        self.query("/clientUnits/compassdk_danskebank/all")
    }

    /// Starts the query for the menu of a vendor. An operation that was in
    /// progress is given up.
    pub fn get_vender_menu(&mut self, vendor_route: &str) -> (action: Action)
        requires
            old(self)@.link matches Link::Up { next_id } ==> next_id < u64::MAX,
        ensures
            (final(self)@, action@) == query_step(old(self)@, menu_path(vendor_route@)),
    {
        let path = menu_path_text(vendor_route);
        self.query(path.as_str())
    }

    /// Takes the outcome of a write.
    pub fn sent(&mut self, written: bool) -> (action: Action)
        ensures
            (final(self)@, action@) == sent_step(old(self)@, written),
    {
        match self.phase {
            Phase::Sending => {
                if written {
                    self.phase = Phase::AwaitingPayload(Reassembler::new());
                    Action::Receive
                } else {
                    self.link = Link::Down;
                    self.phase = Phase::Idle;
                    Action::Failed(ClientError::Transport)
                }
            },
            _ => Action::Stray,
        }
    }

    fn interrupt(&mut self, event: SocketEvent) -> (action: Action)
        requires
            event !is Text,
        ensures
            (final(self)@, action@) == interrupted(old(self)@, event),
    {
        match event {
            SocketEvent::TimedOut => {
                self.phase = Phase::Idle;
                Action::Failed(ClientError::Timeout)
            },
            SocketEvent::Cancelled => {
                self.phase = Phase::Idle;
                Action::Failed(ClientError::Cancelled)
            },
            SocketEvent::Closed => {
                self.link = Link::Down;
                self.phase = Phase::Idle;
                Action::Failed(ClientError::Transport)
            },
            SocketEvent::Failed => {
                self.link = Link::Down;
                self.phase = Phase::Idle;
                Action::Failed(ClientError::Transport)
            },
            _ => Action::Receive,
        }
    }

    /// Whether the operation in progress waits for a frame.
    pub fn awaits_frame(&self) -> (waiting: bool)
        ensures
            waiting == is_waiting(self@.stage),
    {
        match self.phase {
            Phase::Handshaking => true,
            Phase::AwaitingPayload(_) => true,
            Phase::AwaitingStatus(_, _) => true,
            _ => false,
        }
    }

    /// Takes a text frame into the reassembly of the stage that waits for
    /// it. Answers the logical message that the frame completes, and
    /// nothing while frames of it are outstanding or where no stage waits.
    pub fn assemble(&mut self, frame: String) -> (message: Option<String>)
        ensures
            (final(self)@, view_of(message)) == frame_step(old(self)@, frame@),
    {
        let mut phase = Phase::Idle;
        core::mem::swap(&mut self.phase, &mut phase);
        match phase {
            Phase::Handshaking => {
                self.phase = Phase::Handshaking;
                Some(frame)
            },
            Phase::AwaitingPayload(reassembler) => {
                let mut reassembler = reassembler;
                let message = reassembler.push(frame);
                self.phase = Phase::AwaitingPayload(reassembler);
                message
            },
            Phase::AwaitingStatus(payload, reassembler) => {
                let mut reassembler = reassembler;
                let message = reassembler.push(frame);
                self.phase = Phase::AwaitingStatus(payload, reassembler);
                message
            },
            other => {
                self.phase = other;
                None
            },
        }
    }

    /// Takes a logical message, decoded, for the stage that waits for it;
    /// `None` stands for a message that is no envelope.
    pub fn take_envelope(&mut self, message: Option<Envelope>) -> (action: Action)
        ensures
            (final(self)@, action@) == envelope_step(old(self)@, view_of(message)),
    {
        let mut phase = Phase::Idle;
        core::mem::swap(&mut self.phase, &mut phase);
        match phase {
            Phase::Handshaking => match message {
                Some(Envelope::Control(_)) => {
                    self.link = Link::Up { next_id: 1 };
                    Action::Connected
                },
                _ => Action::Failed(ClientError::ProtocolViolation),
            },
            Phase::AwaitingPayload(_) => match message {
                Some(Envelope::Data(payload)) => {
                    self.phase = Phase::AwaitingStatus(payload, Reassembler::new());
                    Action::Receive
                },
                _ => Action::Failed(ClientError::ProtocolViolation),
            },
            Phase::AwaitingStatus(payload, _) => match message {
                Some(Envelope::Data(status)) => settle(payload, status),
                _ => Action::Failed(ClientError::ProtocolViolation),
            },
            other => {
                self.phase = other;
                Action::Stray
            },
        }
    }

    /// Takes the outcome of a wait on the socket.
    pub fn receive_message(&mut self, event: SocketEvent) -> (action: Action)
        ensures
            (final(self)@, action@) == socket_step(old(self)@, event),
    {
        if !self.awaits_frame() {
            return Action::Stray;
        }
        match event {
            SocketEvent::Text(frame) => match self.assemble(frame) {
                Some(text) => self.take_envelope(Envelope::decode(text.as_str())),
                None => Action::Receive,
            },
            other => self.interrupt(other),
        }
    }
}

} // verus!
