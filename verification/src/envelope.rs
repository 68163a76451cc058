//! The wire envelope: a tagged union of the handshake header and the data
//! message, and its JSON form.
//!
//! Every frame is one JSON object `{"t": "c" | "d", "d": <content>}`. Under
//! `"c"` the content is `{"t":"h","d":{"h":..,"s":..,"ts":..,"v":..}}`; under
//! `"d"` it is `{"r":..,"a":..,"b":{"p":..,"h":..,"s":..,"d":..}}`.

use crate::decimal::{
    decimal_text, lemma_numeral_round_trip, numeral_of, parse_decimal, parsed_decimal,
};
use crate::json::{
    json_parse, json_text, lemma_member_concat, lemma_members_view, member, members_view,
    take_member, Json, JsonTree,
};
use vstd::prelude::*;

verus! {

/// What the peer says of itself in the first frame of a connection.
#[derive(Debug, Clone, PartialEq, Eq)]
pub struct Header {
    pub host: String,
    pub session_id: String,
    pub timestamp_ms: u64,
    pub version: String,
}

/// What a data message asks for or carries.
#[derive(Debug, Clone, Copy, PartialEq, Eq)]
pub enum RequestAction {
    Query,
    Data,
}

/// The peer's verdict on a request.
#[derive(Debug, Clone, Copy, PartialEq, Eq)]
pub enum RequestStatus {
    Okay,
    Fail,
}

/// The body of a data message. Which fields are filled tells a query from a
/// reply and from a status acknowledgement.
#[derive(Debug, Clone, PartialEq, Eq)]
pub struct RequestBody {
    pub path: Option<String>,
    pub hash: Option<String>,
    pub status: Option<RequestStatus>,
    pub data: Option<Json>,
}

/// A query, a reply to one, or a status acknowledgement.
#[derive(Debug, Clone, PartialEq, Eq)]
pub struct DataMessage {
    pub request_id: Option<u64>,
    pub action: Option<RequestAction>,
    pub body: RequestBody,
}

/// One decoded wire message.
#[derive(Debug, Clone, PartialEq, Eq)]
pub enum Envelope {
    Control(Header),
    Data(DataMessage),
}

pub struct HeaderView {
    pub host: Seq<char>,
    pub session_id: Seq<char>,
    pub timestamp_ms: u64,
    pub version: Seq<char>,
}

pub struct RequestBodyView {
    pub path: Option<Seq<char>>,
    pub hash: Option<Seq<char>>,
    pub status: Option<RequestStatus>,
    pub data: Option<JsonTree>,
}

pub struct DataMessageView {
    pub request_id: Option<u64>,
    pub action: Option<RequestAction>,
    pub body: RequestBodyView,
}

pub enum EnvelopeView {
    Control(HeaderView),
    Data(DataMessageView),
}

/// The view of a value that may be absent.
pub open spec fn view_of<T: View>(value: Option<T>) -> Option<T::V> {
    match value {
        Some(v) => Some(v@),
        None => None,
    }
}

impl View for Header {
    type V = HeaderView;

    open spec fn view(&self) -> HeaderView {
        HeaderView {
            host: self.host@,
            session_id: self.session_id@,
            timestamp_ms: self.timestamp_ms,
            version: self.version@,
        }
    }
}

impl View for RequestBody {
    type V = RequestBodyView;

    open spec fn view(&self) -> RequestBodyView {
        RequestBodyView {
            path: view_of(self.path),
            hash: view_of(self.hash),
            status: self.status,
            data: view_of(self.data),
        }
    }
}

impl View for DataMessage {
    type V = DataMessageView;

    open spec fn view(&self) -> DataMessageView {
        DataMessageView { request_id: self.request_id, action: self.action, body: self.body@ }
    }
}

impl View for Envelope {
    type V = EnvelopeView;

    open spec fn view(&self) -> EnvelopeView {
        match self {
            Envelope::Control(header) => EnvelopeView::Control(header@),
            Envelope::Data(message) => EnvelopeView::Data(message@),
        }
    }
}

// ---------------------------------------------------------------------------
// The JSON form, as a tree
// ---------------------------------------------------------------------------

/// The wire tag of an action.
pub open spec fn action_tag(action: RequestAction) -> Seq<char> {
    match action {
        RequestAction::Query => "q"@,
        RequestAction::Data => "d"@,
    }
}

/// The wire word of a status.
pub open spec fn status_word(status: RequestStatus) -> Seq<char> {
    match status {
        RequestStatus::Okay => "ok"@,
        RequestStatus::Fail => "fail"@,
    }
}

/// One member under `key`, or none where there is no value.
pub open spec fn member_if(key: Seq<char>, value: Option<JsonTree>) -> Seq<(Seq<char>, JsonTree)> {
    match value {
        Some(v) => seq![(key, v)],
        None => Seq::empty(),
    }
}

/// The tree of a header: `{"t":"h","d":{"h":..,"s":..,"ts":..,"v":..}}`.
pub open spec fn header_tree(header: HeaderView) -> JsonTree {
    JsonTree::Object(
        seq![
            ("t"@, JsonTree::Str("h"@)),
            (
                "d"@,
                JsonTree::Object(
                    seq![
                        ("h"@, JsonTree::Str(header.host)),
                        ("s"@, JsonTree::Str(header.session_id)),
                        ("ts"@, JsonTree::Number(numeral_of(header.timestamp_ms as nat))),
                        ("v"@, JsonTree::Str(header.version)),
                    ],
                ),
            ),
        ],
    )
}

/// The members of a body: `p`, `h`, `s`, `d`, in that order, each only where
/// the field is filled.
pub open spec fn body_members(body: RequestBodyView) -> Seq<(Seq<char>, JsonTree)> {
    member_if(
        "p"@,
        match body.path {
            Some(s) => Some(JsonTree::Str(s)),
            None => None,
        },
    ) + member_if(
        "h"@,
        match body.hash {
            Some(s) => Some(JsonTree::Str(s)),
            None => None,
        },
    ) + member_if(
        "s"@,
        match body.status {
            Some(s) => Some(JsonTree::Str(status_word(s))),
            None => None,
        },
    ) + member_if("d"@, body.data)
}

/// The tree of a data message: `{"r":..,"a":..,"b":{..}}`, with `null` for
/// an absent request id or action.
pub open spec fn message_tree(message: DataMessageView) -> JsonTree {
    JsonTree::Object(
        seq![
            (
                "r"@,
                match message.request_id {
                    Some(id) => JsonTree::Number(numeral_of(id as nat)),
                    None => JsonTree::Null,
                },
            ),
            (
                "a"@,
                match message.action {
                    Some(action) => JsonTree::Str(action_tag(action)),
                    None => JsonTree::Null,
                },
            ),
            ("b"@, JsonTree::Object(body_members(message.body))),
        ],
    )
}

/// The tree of an envelope: `{"t":"c"|"d","d":..}`.
pub open spec fn envelope_tree(envelope: EnvelopeView) -> JsonTree {
    match envelope {
        EnvelopeView::Control(header) => JsonTree::Object(
            seq![("t"@, JsonTree::Str("c"@)), ("d"@, header_tree(header))],
        ),
        EnvelopeView::Data(message) => JsonTree::Object(
            seq![("t"@, JsonTree::Str("d"@)), ("d"@, message_tree(message))],
        ),
    }
}

// ---------------------------------------------------------------------------
// Reading a tree
// ---------------------------------------------------------------------------

/// A text that must be there.
pub open spec fn required_text(value: Option<JsonTree>) -> Option<Seq<char>> {
    match value {
        Some(JsonTree::Str(s)) => Some(s),
        _ => None,
    }
}

/// A 64-bit number that must be there.
pub open spec fn required_number(value: Option<JsonTree>) -> Option<u64> {
    match value {
        Some(JsonTree::Number(digits)) => parsed_decimal(digits),
        _ => None,
    }
}

/// A text that may be missing or `null`. The outer `None` is a value of
/// another kind.
pub open spec fn optional_text(value: Option<JsonTree>) -> Option<Option<Seq<char>>> {
    match value {
        None => Some(None),
        Some(JsonTree::Null) => Some(None),
        Some(JsonTree::Str(s)) => Some(Some(s)),
        _ => None,
    }
}

/// A 64-bit number that may be missing or `null`. The outer `None` is a
/// value of another kind, or a number that is no 64-bit numeral.
pub open spec fn optional_number(value: Option<JsonTree>) -> Option<Option<u64>> {
    match value {
        None => Some(None),
        Some(JsonTree::Null) => Some(None),
        Some(JsonTree::Number(digits)) => match parsed_decimal(digits) {
            Some(n) => Some(Some(n)),
            None => None,
        },
        _ => None,
    }
}

/// The action that a tag names.
pub open spec fn action_of(tag: Seq<char>) -> Option<RequestAction> {
    if tag == "q"@ {
        Some(RequestAction::Query)
    } else if tag == "d"@ {
        Some(RequestAction::Data)
    } else {
        None
    }
}

/// The status that a word names.
pub open spec fn status_of(word: Seq<char>) -> Option<RequestStatus> {
    if word == "ok"@ {
        Some(RequestStatus::Okay)
    } else if word == "fail"@ {
        Some(RequestStatus::Fail)
    } else {
        None
    }
}

/// An action that may be missing or `null`. The outer `None` is anything
/// else but `"q"` and `"d"`.
pub open spec fn optional_action(value: Option<JsonTree>) -> Option<Option<RequestAction>> {
    match optional_text(value) {
        Some(None) => Some(None),
        Some(Some(tag)) => match action_of(tag) {
            Some(action) => Some(Some(action)),
            None => None,
        },
        None => None,
    }
}

/// A status that may be missing or `null`. The outer `None` is anything
/// else but `"ok"` and `"fail"`.
pub open spec fn optional_status(value: Option<JsonTree>) -> Option<Option<RequestStatus>> {
    match optional_text(value) {
        Some(None) => Some(None),
        Some(Some(word)) => match status_of(word) {
            Some(status) => Some(Some(status)),
            None => None,
        },
        None => None,
    }
}

/// A payload: any value but `null`, which stands for none.
pub open spec fn optional_payload(value: Option<JsonTree>) -> Option<JsonTree> {
    match value {
        Some(JsonTree::Null) => None,
        other => other,
    }
}

/// The header that a tree holds, if it is one.
pub open spec fn tree_header(tree: JsonTree) -> Option<HeaderView> {
    match tree {
        JsonTree::Object(outer) => match (required_text(member(outer, "t"@)), member(outer, "d"@)) {
            (Some(tag), Some(JsonTree::Object(fields))) => match (
                required_text(member(fields, "h"@)),
                required_text(member(fields, "s"@)),
                required_number(member(fields, "ts"@)),
                required_text(member(fields, "v"@)),
            ) {
                (Some(host), Some(session_id), Some(timestamp_ms), Some(version)) => if tag
                    == "h"@ {
                    Some(HeaderView { host, session_id, timestamp_ms, version })
                } else {
                    None
                },
                _ => None,
            },
            _ => None,
        },
        _ => None,
    }
}

/// The body that a tree holds, if it is one.
pub open spec fn tree_body(tree: JsonTree) -> Option<RequestBodyView> {
    match tree {
        JsonTree::Object(fields) => match (
            optional_text(member(fields, "p"@)),
            optional_text(member(fields, "h"@)),
            optional_status(member(fields, "s"@)),
        ) {
            (Some(path), Some(hash), Some(status)) => Some(
                RequestBodyView {
                    path,
                    hash,
                    status,
                    data: optional_payload(member(fields, "d"@)),
                },
            ),
            _ => None,
        },
        _ => None,
    }
}

/// The data message that a tree holds, if it is one.
pub open spec fn tree_message(tree: JsonTree) -> Option<DataMessageView> {
    match tree {
        JsonTree::Object(fields) => match (
            optional_number(member(fields, "r"@)),
            optional_action(member(fields, "a"@)),
            member(fields, "b"@),
        ) {
            (Some(request_id), Some(action), Some(body_tree)) => match tree_body(body_tree) {
                Some(body) => Some(DataMessageView { request_id, action, body }),
                None => None,
            },
            _ => None,
        },
        _ => None,
    }
}

/// The envelope that a tree holds, if it is one.
pub open spec fn tree_envelope(tree: JsonTree) -> Option<EnvelopeView> {
    match tree {
        JsonTree::Object(fields) => match (required_text(member(fields, "t"@)), member(
            fields,
            "d"@,
        )) {
            (Some(tag), Some(content)) => if tag == "c"@ {
                match tree_header(content) {
                    Some(header) => Some(EnvelopeView::Control(header)),
                    None => None,
                }
            } else if tag == "d"@ {
                match tree_message(content) {
                    Some(message) => Some(EnvelopeView::Data(message)),
                    None => None,
                }
            } else {
                None
            },
            _ => None,
        },
        _ => None,
    }
}

/// The query for `path` under the request id `request_id`: a data message
/// with action `Query`, the path, and an empty hash.
pub open spec fn query_envelope(request_id: u64, path: Seq<char>) -> EnvelopeView {
    EnvelopeView::Data(
        DataMessageView {
            request_id: Some(request_id),
            action: Some(RequestAction::Query),
            body: RequestBodyView {
                path: Some(path),
                hash: Some(Seq::empty()),
                status: None,
                data: None,
            },
        },
    )
}

/// The envelope that a text holds: the text must be one JSON document, and
/// the document an envelope.
pub open spec fn decoded(text: Seq<char>) -> Option<EnvelopeView> {
    match json_parse(text) {
        Some(tree) => tree_envelope(tree),
        None => None,
    }
}

/// The text of an envelope on the wire.
pub open spec fn encoded(envelope: EnvelopeView) -> Seq<char> {
    json_text(envelope_tree(envelope))
}

// ---------------------------------------------------------------------------
// Writing and reading back
// ---------------------------------------------------------------------------

/// The names and words of the wire format are pairwise different texts.
pub proof fn lemma_wire_words()
    ensures
        "t"@ != "d"@,
        "h"@ != "s"@,
        "h"@ != "ts"@,
        "h"@ != "v"@,
        "s"@ != "ts"@,
        "s"@ != "v"@,
        "ts"@ != "v"@,
        "r"@ != "a"@,
        "r"@ != "b"@,
        "a"@ != "b"@,
        "p"@ != "h"@,
        "p"@ != "s"@,
        "p"@ != "d"@,
        "h"@ != "d"@,
        "s"@ != "d"@,
        "c"@ != "d"@,
        "q"@ != "d"@,
        "ok"@ != "fail"@,
        "h"@ != "c"@,
{
    reveal_strlit("t");
    reveal_strlit("d");
    reveal_strlit("h");
    reveal_strlit("s");
    reveal_strlit("ts");
    reveal_strlit("v");
    reveal_strlit("r");
    reveal_strlit("a");
    reveal_strlit("b");
    reveal_strlit("p");
    reveal_strlit("c");
    reveal_strlit("q");
    reveal_strlit("ok");
    reveal_strlit("fail");
    assert("t"@[0] != "d"@[0]);
    assert("h"@[0] != "s"@[0]);
    assert("h"@[0] != "v"@[0]);
    assert("s"@[0] != "v"@[0]);
    assert("ts"@[0] != "v"@[0]);
    assert("r"@[0] != "a"@[0]);
    assert("r"@[0] != "b"@[0]);
    assert("a"@[0] != "b"@[0]);
    assert("p"@[0] != "h"@[0]);
    assert("p"@[0] != "s"@[0]);
    assert("p"@[0] != "d"@[0]);
    assert("h"@[0] != "d"@[0]);
    assert("s"@[0] != "d"@[0]);
    assert("c"@[0] != "d"@[0]);
    assert("q"@[0] != "d"@[0]);
    assert("h"@[0] != "c"@[0]);
    assert("ok"@[0] != "fail"@[0]);
}

/// In the one member that `member_if` may give, only its own name is found.
pub proof fn lemma_member_if(key: Seq<char>, value: Option<JsonTree>, asked: Seq<char>)
    ensures
        member(member_if(key, value), asked) == if asked == key {
            value
        } else {
            None
        },
{
    match value {
        Some(v) => {
            assert(member(seq![(key, v)].drop_first(), asked) is None);
        },
        None => {},
    }
}

/// What is found under each of the four names in the members of a body.
pub proof fn lemma_body_members(body: RequestBodyView, asked: Seq<char>)
    ensures
        asked == "p"@ ==> member(body_members(body), asked) == match body.path {
            Some(s) => Some(JsonTree::Str(s)),
            None => None,
        },
        asked == "h"@ ==> member(body_members(body), asked) == match body.hash {
            Some(s) => Some(JsonTree::Str(s)),
            None => None,
        },
        asked == "s"@ ==> member(body_members(body), asked) == match body.status {
            Some(s) => Some(JsonTree::Str(status_word(s))),
            None => None,
        },
        asked == "d"@ ==> member(body_members(body), asked) == body.data,
{
    lemma_wire_words();
    let path = match body.path {
        Some(s) => Some(JsonTree::Str(s)),
        None => None,
    };
    let hash = match body.hash {
        Some(s) => Some(JsonTree::Str(s)),
        None => None,
    };
    let status = match body.status {
        Some(s) => Some(JsonTree::Str(status_word(s))),
        None => None,
    };
    let p = member_if("p"@, path);
    let h = member_if("h"@, hash);
    let s = member_if("s"@, status);
    let d = member_if("d"@, body.data);
    lemma_member_if("p"@, path, asked);
    lemma_member_if("h"@, hash, asked);
    lemma_member_if("s"@, status, asked);
    lemma_member_if("d"@, body.data, asked);
    lemma_member_concat(p, h, asked);
    lemma_member_concat(p + h, s, asked);
    lemma_member_concat(p + h + s, d, asked);
}

/// A body that is written as a tree is read back from it, unless its payload
/// is `null`, which reads as no payload.
pub proof fn lemma_body_round_trip(body: RequestBodyView)
    requires
        body.data != Some(JsonTree::Null),
    ensures
        tree_body(JsonTree::Object(body_members(body))) == Some(body),
{
    lemma_wire_words();
    lemma_body_members(body, "p"@);
    lemma_body_members(body, "h"@);
    lemma_body_members(body, "s"@);
    lemma_body_members(body, "d"@);
}

/// A header that is written as a tree is read back from it.
pub proof fn lemma_header_round_trip(header: HeaderView)
    ensures
        tree_header(header_tree(header)) == Some(header),
{
    lemma_wire_words();
    lemma_numeral_round_trip(header.timestamp_ms as nat);
    reveal_with_fuel(member, 5);
    let fields = seq![
        ("h"@, JsonTree::Str(header.host)),
        ("s"@, JsonTree::Str(header.session_id)),
        ("ts"@, JsonTree::Number(numeral_of(header.timestamp_ms as nat))),
        ("v"@, JsonTree::Str(header.version)),
    ];
    assert(member(fields, "ts"@) == Some(
        JsonTree::Number(numeral_of(header.timestamp_ms as nat)),
    ));
}

/// A data message that is written as a tree is read back from it, unless
/// its payload is `null`.
pub proof fn lemma_message_round_trip(message: DataMessageView)
    requires
        message.body.data != Some(JsonTree::Null),
    ensures
        tree_message(message_tree(message)) == Some(message),
{
    lemma_wire_words();
    lemma_body_round_trip(message.body);
    match message.request_id {
        Some(id) => lemma_numeral_round_trip(id as nat),
        None => {},
    }
    reveal_with_fuel(member, 4);
}

/// Whether an envelope survives being written and read back: all do but a
/// data message whose payload is `null`.
pub open spec fn survives_the_wire(envelope: EnvelopeView) -> bool {
    match envelope {
        EnvelopeView::Control(_) => true,
        EnvelopeView::Data(message) => message.body.data != Some(JsonTree::Null),
    }
}

/// Encoding an envelope as a tree and decoding that tree gives the envelope
/// back.
pub proof fn lemma_envelope_round_trip(envelope: EnvelopeView)
    requires
        survives_the_wire(envelope),
    ensures
        tree_envelope(envelope_tree(envelope)) == Some(envelope),
{
    lemma_wire_words();
    reveal_with_fuel(member, 3);
    match envelope {
        EnvelopeView::Control(header) => lemma_header_round_trip(header),
        EnvelopeView::Data(message) => lemma_message_round_trip(message),
    }
}

/// Encoding an envelope as text and decoding that text gives the envelope
/// back, wherever the text reads back as the document that was written.
pub proof fn lemma_text_round_trip(envelope: EnvelopeView)
    requires
        survives_the_wire(envelope),
    ensures
        json_parse(encoded(envelope)) == Some(envelope_tree(envelope)) ==> decoded(
            encoded(envelope),
        ) == Some(envelope),
{
    lemma_envelope_round_trip(envelope);
}

// ---------------------------------------------------------------------------
// The codec
// ---------------------------------------------------------------------------

fn text_is(text: &String, word: &str) -> (same: bool)
    ensures
        same == (text@ == word@),
{
    let other = String::from_str(word);
    *text == other
}

fn entry(key: &str, value: Json) -> (pair: (String, Json))
    ensures
        pair.0@ == key@,
        pair.1 == value,
{
    (String::from_str(key), value)
}

fn read_required_text(value: Option<Json>) -> (text: Option<String>)
    ensures
        view_of(text) == required_text(view_of(value)),
{
    match value {
        Some(Json::Str(s)) => Some(s),
        _ => None,
    }
}

fn read_required_number(value: Option<Json>) -> (number: Option<u64>)
    ensures
        number == required_number(view_of(value)),
{
    match value {
        Some(Json::Number(digits)) => parse_decimal(digits.as_str()),
        _ => None,
    }
}

fn read_optional_text(value: Option<Json>) -> (text: Option<Option<String>>)
    ensures
        match text {
            Some(t) => optional_text(view_of(value)) == Some(view_of(t)),
            None => optional_text(view_of(value)) is None,
        },
{
    match value {
        None => Some(None),
        Some(Json::Null) => Some(None),
        Some(Json::Str(s)) => Some(Some(s)),
        _ => None,
    }
}

fn read_optional_number(value: Option<Json>) -> (number: Option<Option<u64>>)
    ensures
        number == optional_number(view_of(value)),
{
    match value {
        None => Some(None),
        Some(Json::Null) => Some(None),
        Some(Json::Number(digits)) => match parse_decimal(digits.as_str()) {
            Some(n) => Some(Some(n)),
            None => None,
        },
        _ => None,
    }
}

fn read_optional_action(value: Option<Json>) -> (action: Option<Option<RequestAction>>)
    ensures
        action == optional_action(view_of(value)),
{
    match read_optional_text(value) {
        None => None,
        Some(None) => Some(None),
        Some(Some(tag)) => {
            if text_is(&tag, "q") {
                Some(Some(RequestAction::Query))
            } else if text_is(&tag, "d") {
                Some(Some(RequestAction::Data))
            } else {
                None
            }
        },
    }
}

fn read_optional_status(value: Option<Json>) -> (status: Option<Option<RequestStatus>>)
    ensures
        status == optional_status(view_of(value)),
{
    match read_optional_text(value) {
        None => None,
        Some(None) => Some(None),
        Some(Some(word)) => {
            if text_is(&word, "ok") {
                Some(Some(RequestStatus::Okay))
            } else if text_is(&word, "fail") {
                Some(Some(RequestStatus::Fail))
            } else {
                None
            }
        },
    }
}

fn read_payload(value: Option<Json>) -> (payload: Option<Json>)
    ensures
        view_of(payload) == optional_payload(view_of(value)),
{
    match value {
        Some(Json::Null) => None,
        other => other,
    }
}

impl RequestAction {
    /// The one-letter tag that stands for the action on the wire.
    pub fn tag(&self) -> (tag: &'static str)
        ensures
            tag@ == action_tag(*self),
    {
        match self {
            RequestAction::Query => "q",
            RequestAction::Data => "d",
        }
    }
}

impl RequestStatus {
    /// The word that stands for the status on the wire.
    pub fn word(&self) -> (word: &'static str)
        ensures
            word@ == status_word(*self),
    {
        match self {
            RequestStatus::Okay => "ok",
            RequestStatus::Fail => "fail",
        }
    }
}

impl Header {
    /// Writes the header as a JSON document.
    pub fn to_json(&self) -> (json: Json)
        ensures
            json@ == header_tree(self@),
    {
        let mut fields: Vec<(String, Json)> = Vec::new();
        fields.push(entry("h", Json::Str(self.host.clone())));
        fields.push(entry("s", Json::Str(self.session_id.clone())));
        fields.push(entry("ts", Json::Number(decimal_text(self.timestamp_ms))));
        fields.push(entry("v", Json::Str(self.version.clone())));
        let mut outer: Vec<(String, Json)> = Vec::new();
        outer.push(entry("t", Json::Str(String::from_str("h"))));
        proof {
            lemma_members_view(fields@);
            assert(members_view(fields@) =~= seq![
                ("h"@, JsonTree::Str(self.host@)),
                ("s"@, JsonTree::Str(self.session_id@)),
                ("ts"@, JsonTree::Number(numeral_of(self.timestamp_ms as nat))),
                ("v"@, JsonTree::Str(self.version@)),
            ]);
        }
        outer.push(entry("d", Json::Object(fields)));
        proof {
            lemma_members_view(outer@);
            assert(members_view(outer@) =~= seq![
                ("t"@, JsonTree::Str("h"@)),
                ("d"@, JsonTree::Object(members_view(fields@))),
            ]);
        }
        Json::Object(outer)
    }

    /// Reads a header from a JSON document.
    ///
    /// The document must be an object tagged `"h"` whose content holds the
    /// host, the session id and the version as texts and the timestamp as a
    /// 64-bit numeral. Other members are passed over.
    pub fn from_json(json: Json) -> (header: Option<Header>)
        ensures
            view_of(header) == tree_header(json@),
    {
        proof {
            lemma_wire_words();
        }
        match json {
            Json::Object(outer) => {
                let mut outer = outer;
                let tag = read_required_text(take_member(&mut outer, "t"));
                let content = take_member(&mut outer, "d");
                match (tag, content) {
                    (Some(tag), Some(Json::Object(fields))) => {
                        let mut fields = fields;
                        let host = read_required_text(take_member(&mut fields, "h"));
                        let session_id = read_required_text(take_member(&mut fields, "s"));
                        let timestamp_ms = read_required_number(take_member(&mut fields, "ts"));
                        let version = read_required_text(take_member(&mut fields, "v"));
                        match (host, session_id, timestamp_ms, version) {
                            (Some(host), Some(session_id), Some(timestamp_ms), Some(version)) => {
                                if text_is(&tag, "h") {
                                    Some(Header { host, session_id, timestamp_ms, version })
                                } else {
                                    None
                                }
                            },
                            _ => None,
                        }
                    },
                    _ => None,
                }
            },
            _ => None,
        }
    }
}

impl Default for RequestBody {
    /// A body with no field filled.
    fn default() -> (body: RequestBody)
        ensures
            body@ == (RequestBodyView { path: None, hash: None, status: None, data: None }),
    {
        RequestBody { path: None, hash: None, status: None, data: None }
    }
}

impl RequestBody {
    /// Writes the body as a JSON document: an object that holds, in the
    /// order `p`, `h`, `s`, `d`, the fields that are filled.
    pub fn to_json(&self) -> (json: Json)
        ensures
            json@ == JsonTree::Object(body_members(self@)),
    {
        let mut fields: Vec<(String, Json)> = Vec::new();
        let ghost path_tree: Option<JsonTree> = match self@.path {
            Some(s) => Some(JsonTree::Str(s)),
            None => None,
        };
        let ghost hash_tree: Option<JsonTree> = match self@.hash {
            Some(s) => Some(JsonTree::Str(s)),
            None => None,
        };
        let ghost status_tree: Option<JsonTree> = match self@.status {
            Some(s) => Some(JsonTree::Str(status_word(s))),
            None => None,
        };
        match &self.path {
            Some(path) => {
                fields.push(entry("p", Json::Str(path.clone())));
            },
            None => {},
        }
        proof {
            lemma_members_view(fields@);
        }
        let ghost after_path = fields@;
        match &self.hash {
            Some(hash) => {
                fields.push(entry("h", Json::Str(hash.clone())));
            },
            None => {},
        }
        proof {
            lemma_members_view(after_path);
            lemma_members_view(fields@);
            assert(members_view(fields@) =~= member_if("p"@, path_tree) + member_if(
                "h"@,
                hash_tree,
            ));
        }
        let ghost after_hash = fields@;
        match &self.status {
            Some(status) => {
                fields.push(entry("s", Json::Str(String::from_str(status.word()))));
            },
            None => {},
        }
        proof {
            lemma_members_view(after_hash);
            lemma_members_view(fields@);
            assert(members_view(fields@) =~= member_if("p"@, path_tree) + member_if(
                "h"@,
                hash_tree,
            ) + member_if("s"@, status_tree));
        }
        let ghost after_status = fields@;
        match &self.data {
            Some(data) => {
                fields.push(entry("d", data.clone()));
            },
            None => {},
        }
        proof {
            lemma_members_view(after_status);
            lemma_members_view(fields@);
            assert(members_view(fields@) =~= body_members(self@));
        }
        Json::Object(fields)
    }

    /// Reads a body from a JSON document.
    ///
    /// The document must be an object. Each of `p` and `h` is a text, `s` is
    /// `"ok"` or `"fail"`, or the member is missing or `null`; `d` is any
    /// value, where `null` is no payload. Other members are passed over.
    pub fn from_json(json: Json) -> (body: Option<RequestBody>)
        ensures
            view_of(body) == tree_body(json@),
    {
        proof {
            lemma_wire_words();
        }
        match json {
            Json::Object(fields) => {
                let mut fields = fields;
                let path = read_optional_text(take_member(&mut fields, "p"));
                let hash = read_optional_text(take_member(&mut fields, "h"));
                let status = read_optional_status(take_member(&mut fields, "s"));
                let data = read_payload(take_member(&mut fields, "d"));
                match (path, hash, status) {
                    (Some(path), Some(hash), Some(status)) => Some(
                        RequestBody { path, hash, status, data },
                    ),
                    _ => None,
                }
            },
            _ => None,
        }
    }
}

impl DataMessage {
    /// Writes the message as a JSON document.
    pub fn to_json(&self) -> (json: Json)
        ensures
            json@ == message_tree(self@),
    {
        let id = match self.request_id {
            Some(id) => Json::Number(decimal_text(id)),
            None => Json::Null,
        };
        let action = match &self.action {
            Some(action) => Json::Str(String::from_str(action.tag())),
            None => Json::Null,
        };
        let body = self.body.to_json();
        let mut fields: Vec<(String, Json)> = Vec::new();
        fields.push(entry("r", id));
        fields.push(entry("a", action));
        fields.push(entry("b", body));
        proof {
            lemma_members_view(fields@);
            assert(message_tree(self@)->Object_0 =~= members_view(fields@));
        }
        Json::Object(fields)
    }

    /// Reads a data message from a JSON document.
    ///
    /// The document must be an object with a body under `b`. The request id
    /// under `r` is a 64-bit numeral and the action under `a` is `"q"` or
    /// `"d"`, or the member is missing or `null`.
    pub fn from_json(json: Json) -> (message: Option<DataMessage>)
        ensures
            view_of(message) == tree_message(json@),
    {
        proof {
            lemma_wire_words();
        }
        match json {
            Json::Object(fields) => {
                let mut fields = fields;
                let request_id = read_optional_number(take_member(&mut fields, "r"));
                let action = read_optional_action(take_member(&mut fields, "a"));
                let body = take_member(&mut fields, "b");
                match (request_id, action, body) {
                    (Some(request_id), Some(action), Some(body)) => {
                        match RequestBody::from_json(body) {
                            Some(body) => Some(DataMessage { request_id, action, body }),
                            None => None,
                        }
                    },
                    _ => None,
                }
            },
            _ => None,
        }
    }
}

impl Envelope {
    /// The query for `path` under the request id `request_id`. The hash is
    /// sent empty.
    pub fn query(request_id: u64, path: &str) -> (envelope: Envelope)
        ensures
            envelope@ == query_envelope(request_id, path@),
    {
        Envelope::Data(
            DataMessage {
                request_id: Some(request_id),
                action: Some(RequestAction::Query),
                body: RequestBody {
                    path: Some(String::from_str(path)),
                    hash: Some(String::new()),
                    status: None,
                    data: None,
                },
            },
        )
    }

    /// Writes the envelope as a JSON document.
    pub fn to_json(&self) -> (json: Json)
        ensures
            json@ == envelope_tree(self@),
    {
        let (tag, content) = match self {
            Envelope::Control(header) => ("c", header.to_json()),
            Envelope::Data(message) => ("d", message.to_json()),
        };
        let mut fields: Vec<(String, Json)> = Vec::new();
        fields.push(entry("t", Json::Str(String::from_str(tag))));
        fields.push(entry("d", content));
        proof {
            lemma_members_view(fields@);
            assert(members_view(fields@) =~= seq![
                ("t"@, JsonTree::Str(tag@)),
                ("d"@, content@),
            ]);
        }
        Json::Object(fields)
    }

    /// Reads an envelope from a JSON document: an object tagged `"c"` with a
    /// header as content, or tagged `"d"` with a data message.
    pub fn from_json(json: Json) -> (envelope: Option<Envelope>)
        ensures
            view_of(envelope) == tree_envelope(json@),
    {
        proof {
            lemma_wire_words();
        }
        match json {
            Json::Object(fields) => {
                let mut fields = fields;
                let tag = read_required_text(take_member(&mut fields, "t"));
                let content = take_member(&mut fields, "d");
                match (tag, content) {
                    (Some(tag), Some(content)) => {
                        if text_is(&tag, "c") {
                            match Header::from_json(content) {
                                Some(header) => Some(Envelope::Control(header)),
                                None => None,
                            }
                        } else if text_is(&tag, "d") {
                            match DataMessage::from_json(content) {
                                Some(message) => Some(Envelope::Data(message)),
                                None => None,
                            }
                        } else {
                            None
                        }
                    },
                    _ => None,
                }
            },
            _ => None,
        }
    }

    /// The text of the envelope on the wire.
    pub fn encode(&self) -> (text: String)
        ensures
            text@ == encoded(self@),
    {
        self.to_json().to_text()
    }

    /// Reads an envelope from the text of a frame. `None` where the text is
    /// no JSON or the document no envelope.
    pub fn decode(text: &str) -> (envelope: Option<Envelope>)
        ensures
            view_of(envelope) == decoded(text@),
    {
        match Json::parse(text) {
            Some(json) => Envelope::from_json(json),
            None => None,
        }
    }
}

} // verus!
