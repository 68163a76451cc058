use pubq_client::client::{
    menu_path_text, settle, Action, ClientError, PubqClient, SocketEvent, SOCKET_URL,
};
use pubq_client::envelope::{
    DataMessage, Envelope, Header, RequestAction, RequestBody, RequestStatus,
};
use pubq_client::json::Json;
use std::collections::VecDeque;

const HEADER: &str = r#"{"t":"c","d":{"t":"h","d":{"h":"host1","s":"sess1","ts":1000,"v":"5"}}}"#;
const VENDORS_QUERY_1: &str =
    r#"{"t":"d","d":{"r":1,"a":"q","b":{"p":"/clientUnits/compassdk_danskebank/all","h":""}}}"#;
const PAYLOAD: &str =
    r#"{"t":"d","d":{"a":"d","b":{"p":"clientUnits/compassdk_danskebank/all","d":{"0":{"name":"Dhaba"}}}}}"#;
const STATUS_OK: &str = r#"{"t":"d","d":{"r":1,"b":{"s":"ok","d":{}}}}"#;
const STATUS_FAIL: &str = r#"{"t":"d","d":{"r":1,"b":{"s":"fail"}}}"#;
const STATUS_MISSING: &str = r#"{"t":"d","d":{"r":1,"b":{"d":{}}}}"#;

/// A peer that answers from a script and records the traffic.
struct Peer {
    dials: VecDeque<bool>,
    writes: VecDeque<bool>,
    events: VecDeque<SocketEvent>,
    dialed: usize,
    sent: Vec<String>,
    waits: usize,
}

impl Peer {
    fn new() -> Peer {
        Peer {
            dials: VecDeque::new(),
            writes: VecDeque::new(),
            events: VecDeque::new(),
            dialed: 0,
            sent: Vec::new(),
            waits: 0,
        }
    }

    fn frames(mut self, frames: &[&str]) -> Peer {
        for frame in frames {
            self.events.push_back(SocketEvent::Text(frame.to_string()));
        }
        self
    }

    fn event(mut self, event: SocketEvent) -> Peer {
        self.events.push_back(event);
        self
    }

    /// Performs actions until the operation is over.
    fn run(&mut self, client: &mut PubqClient, first: Action) -> Action {
        let mut action = first;
        loop {
            action = match action {
                Action::Dial => {
                    self.dialed += 1;
                    let opened = self.dials.pop_front().unwrap_or(true);
                    client.dialed(opened)
                }
                Action::Send(text) => {
                    self.sent.push(text);
                    let written = self.writes.pop_front().unwrap_or(true);
                    client.sent(written)
                }
                Action::Receive => {
                    self.waits += 1;
                    let event = self.events.pop_front().unwrap_or(SocketEvent::TimedOut);
                    client.receive_message(event)
                }
                over => return over,
            };
        }
    }
}

fn payload() -> Json {
    Json::Object(vec![(
        "0".to_string(),
        Json::Object(vec![("name".to_string(), Json::Str("Dhaba".to_string()))]),
    )])
}

fn connected(peer: &mut Peer) -> PubqClient {
    let mut client = PubqClient::new();
    peer.events.push_front(SocketEvent::Text(HEADER.to_string()));
    let first = client.connect();
    assert_eq!(peer.run(&mut client, first), Action::Connected);
    client
}

#[test]
fn new_client_is_disconnected() {
    let client = PubqClient::new();
    assert!(!client.is_connected());
    assert!(!client.holds_socket());
    assert!(!client.is_busy());
    assert_eq!(client.next_request_id(), None);
    assert!(SOCKET_URL.starts_with("wss://"));
}

#[test]
fn end_to_end_connect_then_get_vendors() {
    let mut peer = Peer::new().frames(&[HEADER, PAYLOAD, STATUS_OK]);
    let mut client = PubqClient::new();

    let first = client.connect();
    assert_eq!(first, Action::Dial);
    assert_eq!(peer.run(&mut client, first), Action::Connected);
    assert!(client.is_connected());
    assert_eq!(client.next_request_id(), Some(1));
    assert_eq!((peer.dialed, peer.waits, peer.sent.len()), (1, 1, 0));

    // a second connect performs no socket traffic
    let again = client.connect();
    assert_eq!(again, Action::Connected);
    assert_eq!((peer.dialed, peer.waits, peer.sent.len()), (1, 1, 0));

    let first = client.get_vendors();
    assert_eq!(first, Action::Send(VENDORS_QUERY_1.to_string()));
    let outcome = peer.run(&mut client, first);
    assert_eq!(outcome, Action::Delivered(payload()));
    assert_eq!(peer.sent, vec![VENDORS_QUERY_1.to_string()]);
    assert_eq!(peer.waits, 3);
    assert!(client.is_connected());
    assert!(!client.is_busy());
}

#[test]
fn handshake_wants_a_control_envelope() {
    for frame in [PAYLOAD, "not json", "3", r#"{"t":"c","d":{"h":"host1","s":"sess1","ts":1000,"v":"5"}}"#] {
        let mut peer = Peer::new().frames(&[frame]);
        let mut client = PubqClient::new();
        let first = client.connect();
        assert_eq!(
            peer.run(&mut client, first),
            Action::Failed(ClientError::ProtocolViolation)
        );
        assert!(!client.is_connected());
        assert_eq!(client.next_request_id(), None);
    }
}

#[test]
fn failed_dial_is_a_transport_error() {
    let mut peer = Peer::new();
    peer.dials.push_back(false);
    let mut client = PubqClient::new();
    let first = client.connect();
    assert_eq!(peer.run(&mut client, first), Action::Failed(ClientError::Transport));
    assert!(!client.is_connected());
    assert!(!client.holds_socket());
    assert_eq!(peer.waits, 0);
}

#[test]
fn handshake_timeout_leaves_the_client_disconnected() {
    let mut peer = Peer::new().event(SocketEvent::TimedOut);
    let mut client = PubqClient::new();
    let first = client.connect();
    assert_eq!(peer.run(&mut client, first), Action::Failed(ClientError::Timeout));
    assert!(!client.is_connected());
    // the next connect dials afresh
    peer.events.push_back(SocketEvent::Text(HEADER.to_string()));
    let first = client.connect();
    assert_eq!(first, Action::Dial);
    assert_eq!(peer.run(&mut client, first), Action::Connected);
    assert_eq!(peer.dialed, 2);
}

#[test]
fn queries_need_a_connection() {
    let mut client = PubqClient::new();
    assert_eq!(client.get_vendors(), Action::Failed(ClientError::NotConnected));
    assert_eq!(
        client.get_vender_menu("compassdk_dbvendor1"),
        Action::Failed(ClientError::NotConnected)
    );
    assert!(!client.is_busy());
}

#[test]
fn status_fail_fails_the_request_though_a_payload_came() {
    let mut peer = Peer::new().frames(&[PAYLOAD, STATUS_FAIL]);
    let mut client = connected(&mut peer);
    let first = client.get_vendors();
    assert_eq!(
        peer.run(&mut client, first),
        Action::Failed(ClientError::RequestFailed)
    );
    assert!(client.is_connected());
}

#[test]
fn missing_status_is_a_protocol_violation() {
    let mut peer = Peer::new().frames(&[PAYLOAD, STATUS_MISSING]);
    let mut client = connected(&mut peer);
    let first = client.get_vendors();
    assert_eq!(
        peer.run(&mut client, first),
        Action::Failed(ClientError::ProtocolViolation)
    );
    assert!(client.is_connected());
}

#[test]
fn reply_without_data_is_no_data() {
    let reply = r#"{"t":"d","d":{"a":"d","b":{"p":"x"}}}"#;
    let mut peer = Peer::new().frames(&[reply, STATUS_OK]);
    let mut client = connected(&mut peer);
    let first = client.get_vendors();
    assert_eq!(peer.run(&mut client, first), Action::Failed(ClientError::NoData));
    assert!(client.is_connected());
}

#[test]
fn reply_whose_action_is_not_data_is_a_violation_whatever_the_status() {
    let reply = r#"{"t":"d","d":{"a":"q","b":{"d":{"0":{"name":"Dhaba"}}}}}"#;
    for status in [STATUS_OK, STATUS_FAIL, STATUS_MISSING] {
        let mut peer = Peer::new().frames(&[reply, status]);
        let mut client = connected(&mut peer);
        let first = client.get_vendors();
        assert_eq!(
            peer.run(&mut client, first),
            Action::Failed(ClientError::ProtocolViolation)
        );
    }
}

#[test]
fn control_envelope_in_place_of_a_reply_is_a_violation() {
    let mut peer = Peer::new().frames(&[HEADER]);
    let mut client = connected(&mut peer);
    let first = client.get_vendors();
    assert_eq!(
        peer.run(&mut client, first),
        Action::Failed(ClientError::ProtocolViolation)
    );
    assert!(client.is_connected());

    let mut peer = Peer::new().frames(&[PAYLOAD, HEADER]);
    let mut client = connected(&mut peer);
    let first = client.get_vendors();
    assert_eq!(
        peer.run(&mut client, first),
        Action::Failed(ClientError::ProtocolViolation)
    );
}

#[test]
fn chunked_reply_is_put_together_before_it_is_decoded() {
    let (head, tail) = PAYLOAD.split_at(17);
    let (middle, end) = tail.split_at(30);
    let mut peer = Peer::new().frames(&["3", head, middle, end, "2", "{\"t\":\"d\",\"d\":{\"r\":1,", "\"b\":{\"s\":\"ok\"}}}"]);
    let mut client = connected(&mut peer);
    let first = client.get_vendors();
    assert_eq!(peer.run(&mut client, first), Action::Delivered(payload()));
    assert_eq!(peer.waits, 1 + 7);
}

#[test]
fn frames_that_are_no_text_are_passed_over() {
    let mut peer = Peer::new()
        .event(SocketEvent::Ignored)
        .frames(&[PAYLOAD])
        .event(SocketEvent::Ignored)
        .event(SocketEvent::Ignored)
        .frames(&[STATUS_OK]);
    let mut client = connected(&mut peer);
    let first = client.get_vendors();
    assert_eq!(peer.run(&mut client, first), Action::Delivered(payload()));
}

#[test]
fn timeout_and_cancellation_leave_the_connection() {
    for (event, error) in [
        (SocketEvent::TimedOut, ClientError::Timeout),
        (SocketEvent::Cancelled, ClientError::Cancelled),
    ] {
        let mut peer = Peer::new().frames(&[PAYLOAD]).event(event);
        let mut client = connected(&mut peer);
        let first = client.get_vendors();
        assert_eq!(peer.run(&mut client, first), Action::Failed(error));
        assert!(client.is_connected());
        assert!(client.holds_socket());
        assert!(!client.is_busy());
        assert_eq!(client.next_request_id(), Some(2));
    }
}

#[test]
fn end_of_stream_and_socket_errors_cost_the_connection() {
    for event in [SocketEvent::Closed, SocketEvent::Failed] {
        let mut peer = Peer::new().event(event);
        let mut client = connected(&mut peer);
        let first = client.get_vendors();
        assert_eq!(peer.run(&mut client, first), Action::Failed(ClientError::Transport));
        assert!(!client.is_connected());
        assert!(!client.holds_socket());
        assert_eq!(client.get_vendors(), Action::Failed(ClientError::NotConnected));
    }
}

#[test]
fn failed_write_costs_the_connection() {
    let mut peer = Peer::new();
    let mut client = connected(&mut peer);
    peer.writes.push_back(false);
    let first = client.get_vendors();
    assert_eq!(peer.run(&mut client, first), Action::Failed(ClientError::Transport));
    assert!(!client.is_connected());
    assert!(!client.holds_socket());
}

#[test]
fn request_ids_count_up_and_start_again_after_a_reconnect() {
    let mut peer = Peer::new().frames(&[PAYLOAD, STATUS_OK, PAYLOAD, STATUS_OK]);
    let mut client = connected(&mut peer);
    let first = client.get_vendors();
    assert_eq!(peer.run(&mut client, first), Action::Delivered(payload()));
    let first = client.get_vender_menu("compassdk_dbvendor1");
    assert_eq!(peer.run(&mut client, first), Action::Delivered(payload()));
    assert_eq!(
        peer.sent,
        vec![
            VENDORS_QUERY_1.to_string(),
            r#"{"t":"d","d":{"r":2,"a":"q","b":{"p":"/Clients/compassdk_dbvendor1/activeMenu/categories","h":""}}}"#.to_string(),
        ]
    );
    assert_eq!(client.next_request_id(), Some(3));

    // the stream ends under the third query: the connection is gone
    peer.events.push_back(SocketEvent::Closed);
    let first = client.get_vendors();
    assert_eq!(peer.run(&mut client, first), Action::Failed(ClientError::Transport));
    assert!(!client.is_connected());

    // the handshake is run again, and the ids start at 1
    peer.events.push_back(SocketEvent::Text(HEADER.to_string()));
    let first = client.connect();
    assert_eq!(first, Action::Dial);
    assert_eq!(peer.run(&mut client, first), Action::Connected);
    assert_eq!(peer.dialed, 2);
    assert_eq!(client.next_request_id(), Some(1));
    peer.events.push_back(SocketEvent::Text(PAYLOAD.to_string()));
    peer.events.push_back(SocketEvent::Text(STATUS_OK.to_string()));
    let first = client.get_vendors();
    assert_eq!(first, Action::Send(VENDORS_QUERY_1.to_string()));
    assert_eq!(peer.run(&mut client, first), Action::Delivered(payload()));
}

#[test]
fn reports_that_answer_no_action_change_nothing() {
    let mut client = PubqClient::new();
    assert_eq!(client.dialed(true), Action::Stray);
    assert_eq!(client.sent(true), Action::Stray);
    assert_eq!(client.receive_message(SocketEvent::Text(HEADER.to_string())), Action::Stray);
    assert_eq!(client.receive_message(SocketEvent::Closed), Action::Stray);
    assert!(!client.is_connected());
    assert!(!client.holds_socket());
    assert!(!client.is_busy());

    let mut peer = Peer::new();
    let mut client = connected(&mut peer);
    assert_eq!(client.receive_message(SocketEvent::Failed), Action::Stray);
    assert!(client.is_connected());
    assert_eq!(client.get_vendors(), Action::Send(VENDORS_QUERY_1.to_string()));
    assert!(client.is_busy());
    assert_eq!(client.dialed(false), Action::Stray);
    assert!(client.is_connected());
    assert!(client.is_busy());
}

#[test]
fn settle_decides_by_action_then_status_then_data() {
    let reply = |action, data| DataMessage {
        request_id: None,
        action,
        body: RequestBody { data, ..Default::default() },
    };
    let ack = |status| DataMessage {
        request_id: Some(1),
        action: None,
        body: RequestBody { status, ..Default::default() },
    };
    let data = Some(RequestAction::Data);
    assert_eq!(
        settle(reply(data, Some(payload())), ack(Some(RequestStatus::Okay))),
        Action::Delivered(payload())
    );
    assert_eq!(
        settle(reply(data, Some(payload())), ack(Some(RequestStatus::Fail))),
        Action::Failed(ClientError::RequestFailed)
    );
    assert_eq!(
        settle(reply(data, Some(payload())), ack(None)),
        Action::Failed(ClientError::ProtocolViolation)
    );
    assert_eq!(
        settle(reply(data, None), ack(Some(RequestStatus::Okay))),
        Action::Failed(ClientError::NoData)
    );
    assert_eq!(
        settle(reply(None, Some(payload())), ack(Some(RequestStatus::Okay))),
        Action::Failed(ClientError::ProtocolViolation)
    );
    assert_eq!(
        settle(reply(Some(RequestAction::Query), Some(payload())), ack(Some(RequestStatus::Fail))),
        Action::Failed(ClientError::ProtocolViolation)
    );
}

#[test]
fn menu_path_holds_the_vendor_route() {
    assert_eq!(
        menu_path_text("compassdk_dbvendor1"),
        "/Clients/compassdk_dbvendor1/activeMenu/categories"
    );
    assert_eq!(menu_path_text(""), "/Clients//activeMenu/categories");
}

fn header() -> Header {
    Header {
        host: "host1".to_string(),
        session_id: "sess1".to_string(),
        timestamp_ms: 1000,
        version: "5".to_string(),
    }
}

#[test]
fn take_envelope_decides_by_the_stage_that_waits() {
    let reply = DataMessage {
        request_id: None,
        action: Some(RequestAction::Data),
        body: RequestBody { data: Some(payload()), ..Default::default() },
    };
    let ack = DataMessage {
        request_id: Some(1),
        action: None,
        body: RequestBody { status: Some(RequestStatus::Okay), ..Default::default() },
    };

    let mut client = PubqClient::new();
    assert_eq!(client.take_envelope(Some(Envelope::Control(header()))), Action::Stray);
    assert_eq!(client.connect(), Action::Dial);
    assert_eq!(client.take_envelope(Some(Envelope::Control(header()))), Action::Stray);
    assert_eq!(client.dialed(true), Action::Receive);
    assert!(client.awaits_frame());
    assert_eq!(client.take_envelope(Some(Envelope::Control(header()))), Action::Connected);
    assert!(!client.awaits_frame());
    assert_eq!(client.next_request_id(), Some(1));

    assert!(matches!(client.get_vendors(), Action::Send(_)));
    assert!(!client.awaits_frame());
    assert_eq!(client.sent(true), Action::Receive);
    assert!(client.awaits_frame());
    assert_eq!(client.take_envelope(Some(Envelope::Data(reply.clone()))), Action::Receive);
    assert_eq!(client.take_envelope(Some(Envelope::Data(ack))), Action::Delivered(payload()));
    assert!(!client.is_busy());

    // a message that is no envelope, or one of the wrong kind, is a violation
    assert!(matches!(client.get_vendors(), Action::Send(_)));
    assert_eq!(client.sent(true), Action::Receive);
    assert_eq!(client.take_envelope(None), Action::Failed(ClientError::ProtocolViolation));
    assert!(client.is_connected());
    assert!(matches!(client.get_vendors(), Action::Send(_)));
    assert_eq!(client.sent(true), Action::Receive);
    assert_eq!(client.take_envelope(Some(Envelope::Data(reply))), Action::Receive);
    assert_eq!(
        client.take_envelope(Some(Envelope::Control(header()))),
        Action::Failed(ClientError::ProtocolViolation)
    );
    assert_eq!(client.next_request_id(), Some(4));
}

#[test]
fn assemble_puts_chunks_together_for_queries_and_not_for_the_header() {
    let mut client = PubqClient::new();
    assert_eq!(client.assemble("3".to_string()), None);
    assert_eq!(client.connect(), Action::Dial);
    assert_eq!(client.dialed(true), Action::Receive);
    // the header frame is taken as it comes
    assert_eq!(client.assemble("3".to_string()), Some("3".to_string()));
    assert_eq!(client.take_envelope(Some(Envelope::Control(header()))), Action::Connected);

    assert!(matches!(client.get_vendors(), Action::Send(_)));
    assert_eq!(client.sent(true), Action::Receive);
    assert_eq!(client.assemble("3".to_string()), None);
    assert_eq!(client.assemble("a".to_string()), None);
    assert_eq!(client.assemble("b".to_string()), None);
    assert_eq!(client.assemble("c".to_string()), Some("abc".to_string()));
    assert_eq!(client.assemble("plain".to_string()), Some("plain".to_string()));
}

#[test]
fn timeout_in_the_middle_of_chunks_drops_the_chunks() {
    let mut peer = Peer::new().frames(&["2", "{\"t\":"]).event(SocketEvent::TimedOut);
    let mut client = connected(&mut peer);
    let first = client.get_vendors();
    assert_eq!(peer.run(&mut client, first), Action::Failed(ClientError::Timeout));
    // the next query starts between messages
    peer.events.push_back(SocketEvent::Text(PAYLOAD.to_string()));
    peer.events.push_back(SocketEvent::Text(STATUS_OK.to_string()));
    let first = client.get_vendors();
    assert_eq!(peer.run(&mut client, first), Action::Delivered(payload()));
}
