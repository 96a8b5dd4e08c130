//! Messages: their enumerations, the history filter and the records that
//! message endpoints return.
use vstd::prelude::*;

use crate::error::{DecodeError, Error};
use crate::json::{
    expect_object, field, field_is, json_quoted, list_field, list_field_is, opt_field,
    opt_field_is, string_json, FromJson, Json,
};
use crate::user::UserDetail;
use crate::util::{
    decimal_text, flag_text, opt_decimal, opt_flag, opt_pair, opt_text, push_opt_decimal,
    push_opt_flag, push_opt_text, query_text, text_is, AppendToQueryParams,
};

verus! {

/// The background color of a notification.
#[derive(Debug, Clone, Copy, Hash, PartialEq, Eq, Structural)]
pub enum Color {
    Yellow,
    Green,
    Red,
    Purple,
    Gray,
    Random,
}

impl Color {
    /// The wire string of each variant.
    pub open spec fn wire(self) -> Seq<char> {
        match self {
            Color::Yellow => "yellow"@,
            Color::Green => "green"@,
            Color::Red => "red"@,
            Color::Purple => "purple"@,
            Color::Gray => "gray"@,
            Color::Random => "random"@,
        }
    }

    /// The variant whose wire string is `s`, if any.
    pub open spec fn from_wire(s: Seq<char>) -> Option<Color> {
        if s == "yellow"@ {
            Some(Color::Yellow)
        } else if s == "green"@ {
            Some(Color::Green)
        } else if s == "red"@ {
            Some(Color::Red)
        } else if s == "purple"@ {
            Some(Color::Purple)
        } else if s == "gray"@ {
            Some(Color::Gray)
        } else if s == "random"@ {
            Some(Color::Random)
        } else {
            None
        }
    }

    /// The wire string.
    pub fn as_str(&self) -> (r: &'static str)
        ensures
            r@ == self.wire(),
    {
        match self {
            Color::Yellow => "yellow",
            Color::Green => "green",
            Color::Red => "red",
            Color::Purple => "purple",
            Color::Gray => "gray",
            Color::Random => "random",
        }
    }

    /// The variant whose wire string is `s`.
    pub fn parse(s: &str) -> (r: Result<Color, Error>)
        ensures
            match r {
                Ok(c) => Color::from_wire(s@) == Some(c),
                Err(e) => Color::from_wire(s@) is None && e.is_schema_with(
                    "invalid value for color"@,
                ),
            },
    {
        if text_is(s, "yellow") {
            Ok(Color::Yellow)
        } else if text_is(s, "green") {
            Ok(Color::Green)
        } else if text_is(s, "red") {
            Ok(Color::Red)
        } else if text_is(s, "purple") {
            Ok(Color::Purple)
        } else if text_is(s, "gray") {
            Ok(Color::Gray)
        } else if text_is(s, "random") {
            Ok(Color::Random)
        } else {
            Err(Error::Json(DecodeError::Schema(String::from_str("invalid value for color"))))
        }
    }

    /// The JSON string of the variant.
    pub fn to_json(&self) -> (r: String)
        ensures
            r@ == json_quoted(self.wire()),
    {
        string_json(self.as_str())
    }
}

/// Encoding a color and decoding the result gives it back, and a string that
/// encodes no color does not decode.
pub proof fn color_wire_round_trip(c: Color, s: Seq<char>)
    ensures
        Color::from_wire(c.wire()) == Some(c),
        Color::from_wire(s) is None <==> forall|d: Color| d.wire() != s,
{
    reveal_strlit("yellow");
    reveal_strlit("green");
    reveal_strlit("red");
    reveal_strlit("purple");
    reveal_strlit("gray");
    reveal_strlit("random");
    assert("yellow"@[0] == 'y' && "green"@[0] == 'g' && "red"@[0] == 'r');
    assert("purple"@[0] == 'p' && "gray"@[0] == 'g' && "random"@[0] == 'r');
    assert("green"@[2] == 'e' && "gray"@[2] == 'a');
    assert("red"@[1] == 'e' && "random"@[1] == 'a');
    match c {
        Color::Yellow => {},
        Color::Green => {},
        Color::Red => {},
        Color::Purple => {},
        Color::Gray => {},
        Color::Random => {},
    }
    if Color::from_wire(s) is None {
        assert forall|d: Color| d.wire() != s by {
            match d {
                Color::Yellow => {},
                Color::Green => {},
                Color::Red => {},
                Color::Purple => {},
                Color::Gray => {},
                Color::Random => {},
            }
        }
    } else {
        assert(Color::from_wire(s).unwrap().wire() == s);
    }
}

impl Default for Color {
    fn default() -> (r: Color)
        ensures
            r == Color::Yellow,
    {
        Color::Yellow
    }
}

impl FromJson for Color {
    open spec fn decodes_to(j: Json, v: Color) -> bool {
        j matches Json::Str(s) && Color::from_wire(s@) == Some(v)
    }

    fn from_json(j: &Json) -> (r: Result<Color, Error>) {
        match j {
            Json::Str(s) => Color::parse(s.as_str()),
            _ => Err(Error::Json(DecodeError::Schema(String::from_str("invalid value for color")))),
        }
    }
}

/// What a history item is.
#[derive(Debug, Clone, Copy, Hash, PartialEq, Eq, Structural)]
pub enum MessageType {
    Message,
    /// Sent as `guest_access`.
    GuestAccess,
    Topic,
    Notification,
}

impl MessageType {
    /// The wire string of each variant.
    pub open spec fn wire(self) -> Seq<char> {
        match self {
            MessageType::Message => "message"@,
            MessageType::GuestAccess => "guest_access"@,
            MessageType::Topic => "topic"@,
            MessageType::Notification => "notification"@,
        }
    }

    /// The variant whose wire string is `s`, if any.
    pub open spec fn from_wire(s: Seq<char>) -> Option<MessageType> {
        if s == "message"@ {
            Some(MessageType::Message)
        } else if s == "guest_access"@ {
            Some(MessageType::GuestAccess)
        } else if s == "topic"@ {
            Some(MessageType::Topic)
        } else if s == "notification"@ {
            Some(MessageType::Notification)
        } else {
            None
        }
    }

    /// The wire string.
    pub fn as_str(&self) -> (r: &'static str)
        ensures
            r@ == self.wire(),
    {
        match self {
            MessageType::Message => "message",
            MessageType::GuestAccess => "guest_access",
            MessageType::Topic => "topic",
            MessageType::Notification => "notification",
        }
    }

    /// The variant whose wire string is `s`.
    pub fn parse(s: &str) -> (r: Result<MessageType, Error>)
        ensures
            match r {
                Ok(t) => MessageType::from_wire(s@) == Some(t),
                Err(e) => MessageType::from_wire(s@) is None && e.is_schema_with(
                    "invalid value for message type"@,
                ),
            },
    {
        if text_is(s, "message") {
            Ok(MessageType::Message)
        } else if text_is(s, "guest_access") {
            Ok(MessageType::GuestAccess)
        } else if text_is(s, "topic") {
            Ok(MessageType::Topic)
        } else if text_is(s, "notification") {
            Ok(MessageType::Notification)
        } else {
            Err(
                Error::Json(
                    DecodeError::Schema(String::from_str("invalid value for message type")),
                ),
            )
        }
    }

    /// The JSON string of the variant.
    pub fn to_json(&self) -> (r: String)
        ensures
            r@ == json_quoted(self.wire()),
    {
        string_json(self.as_str())
    }
}

/// Encoding a message type and decoding the result gives it back, and a
/// string that encodes no message type does not decode.
pub proof fn message_type_wire_round_trip(t: MessageType, s: Seq<char>)
    ensures
        MessageType::from_wire(t.wire()) == Some(t),
        MessageType::from_wire(s) is None <==> forall|u: MessageType| u.wire() != s,
{
    reveal_strlit("message");
    reveal_strlit("guest_access");
    reveal_strlit("topic");
    reveal_strlit("notification");
    assert("message"@[0] == 'm' && "guest_access"@[0] == 'g');
    assert("topic"@[0] == 't' && "notification"@[0] == 'n');
    match t {
        MessageType::Message => {},
        MessageType::GuestAccess => {},
        MessageType::Topic => {},
        MessageType::Notification => {},
    }
    if MessageType::from_wire(s) is None {
        assert forall|u: MessageType| u.wire() != s by {
            match u {
                MessageType::Message => {},
                MessageType::GuestAccess => {},
                MessageType::Topic => {},
                MessageType::Notification => {},
            }
        }
    } else {
        assert(MessageType::from_wire(s).unwrap().wire() == s);
    }
}

impl FromJson for MessageType {
    open spec fn decodes_to(j: Json, v: MessageType) -> bool {
        j matches Json::Str(s) && MessageType::from_wire(s@) == Some(v)
    }

    fn from_json(j: &Json) -> (r: Result<MessageType, Error>) {
        match j {
            Json::Str(s) => MessageType::parse(s.as_str()),
            _ => Err(
                Error::Json(
                    DecodeError::Schema(String::from_str("invalid value for message type")),
                ),
            ),
        }
    }
}

/// How the text of a message is to be read.
#[derive(Debug, Clone, Copy, Hash, PartialEq, Eq, Structural)]
pub enum MessageFormat {
    Html,
    Text,
}

impl MessageFormat {
    /// The wire string of each variant.
    pub open spec fn wire(self) -> Seq<char> {
        match self {
            MessageFormat::Html => "html"@,
            MessageFormat::Text => "text"@,
        }
    }

    /// The variant whose wire string is `s`, if any.
    pub open spec fn from_wire(s: Seq<char>) -> Option<MessageFormat> {
        if s == "html"@ {
            Some(MessageFormat::Html)
        } else if s == "text"@ {
            Some(MessageFormat::Text)
        } else {
            None
        }
    }

    /// The wire string.
    pub fn as_str(&self) -> (r: &'static str)
        ensures
            r@ == self.wire(),
    {
        match self {
            MessageFormat::Html => "html",
            MessageFormat::Text => "text",
        }
    }

    /// The variant whose wire string is `s`.
    pub fn parse(s: &str) -> (r: Result<MessageFormat, Error>)
        ensures
            match r {
                Ok(f) => MessageFormat::from_wire(s@) == Some(f),
                Err(e) => MessageFormat::from_wire(s@) is None && e.is_schema_with(
                    "invalid value for message format"@,
                ),
            },
    {
        if text_is(s, "html") {
            Ok(MessageFormat::Html)
        } else if text_is(s, "text") {
            Ok(MessageFormat::Text)
        } else {
            Err(
                Error::Json(
                    DecodeError::Schema(String::from_str("invalid value for message format")),
                ),
            )
        }
    }

    /// The JSON string of the variant.
    pub fn to_json(&self) -> (r: String)
        ensures
            r@ == json_quoted(self.wire()),
    {
        string_json(self.as_str())
    }
}

/// Encoding a message format and decoding the result gives it back, and a
/// string that encodes no message format does not decode.
pub proof fn message_format_wire_round_trip(f: MessageFormat, s: Seq<char>)
    ensures
        MessageFormat::from_wire(f.wire()) == Some(f),
        MessageFormat::from_wire(s) is None <==> forall|g: MessageFormat| g.wire() != s,
{
    reveal_strlit("html");
    reveal_strlit("text");
    assert("html"@[0] != "text"@[0]);
    match f {
        MessageFormat::Html => {},
        MessageFormat::Text => {},
    }
    if MessageFormat::from_wire(s) is None {
        assert forall|g: MessageFormat| g.wire() != s by {
            match g {
                MessageFormat::Html => {},
                MessageFormat::Text => {},
            }
        }
    } else {
        assert(MessageFormat::from_wire(s).unwrap().wire() == s);
    }
}

impl Default for MessageFormat {
    fn default() -> (r: MessageFormat)
        ensures
            r == MessageFormat::Html,
    {
        MessageFormat::Html
    }
}

impl FromJson for MessageFormat {
    open spec fn decodes_to(j: Json, v: MessageFormat) -> bool {
        j matches Json::Str(s) && MessageFormat::from_wire(s@) == Some(v)
    }

    fn from_json(j: &Json) -> (r: Result<MessageFormat, Error>) {
        match j {
            Json::Str(s) => MessageFormat::parse(s.as_str()),
            _ => Err(
                Error::Json(
                    DecodeError::Schema(String::from_str("invalid value for message format")),
                ),
            ),
        }
    }
}

/// The filter of a history; an absent field sends no parameter. Dates and
/// the time zone are sent as given.
#[derive(Debug, Clone, Hash, PartialEq, Eq)]
pub struct MessagesRequest {
    pub start_index: Option<u64>,
    pub max_results: Option<u64>,
    pub reversed: Option<bool>,
    pub date: Option<String>,
    pub include_deleted: Option<bool>,
    pub timezone: Option<String>,
    pub end_date: Option<String>,
}

impl AppendToQueryParams for MessagesRequest {
    open spec fn query_pairs(&self) -> Seq<(Seq<char>, Seq<char>)> {
        opt_pair("start-index"@, opt_decimal(self.start_index)) + opt_pair(
            "max-results"@,
            opt_decimal(self.max_results),
        ) + opt_pair("reversed"@, opt_flag(self.reversed)) + opt_pair(
            "date"@,
            opt_text(self.date),
        ) + opt_pair("include-deleted"@, opt_flag(self.include_deleted)) + opt_pair(
            "timezone"@,
            opt_text(self.timezone),
        ) + opt_pair("end-date"@, opt_text(self.end_date))
    }

    fn append_to(&self, query: &mut Vec<(String, String)>) {
        let ghost start = query.deep_view();
        let ghost p1 = opt_pair("start-index"@, opt_decimal(self.start_index));
        let ghost p2 = opt_pair("max-results"@, opt_decimal(self.max_results));
        let ghost p3 = opt_pair("reversed"@, opt_flag(self.reversed));
        let ghost p4 = opt_pair("date"@, opt_text(self.date));
        let ghost p5 = opt_pair("include-deleted"@, opt_flag(self.include_deleted));
        let ghost p6 = opt_pair("timezone"@, opt_text(self.timezone));
        let ghost p7 = opt_pair("end-date"@, opt_text(self.end_date));
        push_opt_decimal(query, "start-index", self.start_index);
        push_opt_decimal(query, "max-results", self.max_results);
        assert(query.deep_view() =~= start + (p1 + p2));
        push_opt_flag(query, "reversed", self.reversed);
        assert(query.deep_view() =~= start + (p1 + p2 + p3));
        push_opt_text(query, "date", &self.date);
        assert(query.deep_view() =~= start + (p1 + p2 + p3 + p4));
        push_opt_flag(query, "include-deleted", self.include_deleted);
        assert(query.deep_view() =~= start + (p1 + p2 + p3 + p4 + p5));
        push_opt_text(query, "timezone", &self.timezone);
        assert(query.deep_view() =~= start + (p1 + p2 + p3 + p4 + p5 + p6));
        push_opt_text(query, "end-date", &self.end_date);
        assert(query.deep_view() =~= start + (p1 + p2 + p3 + p4 + p5 + p6 + p7));
    }
}

/// A history filter with no field present adds no pair, so its query
/// string is empty.
pub proof fn messages_request_absent_fields_add_nothing(r: MessagesRequest)
    requires
        r.start_index is None,
        r.max_results is None,
        r.reversed is None,
        r.date is None,
        r.include_deleted is None,
        r.timezone is None,
        r.end_date is None,
    ensures
        r.query_pairs() == Seq::<(Seq<char>, Seq<char>)>::empty(),
        query_text(r.query_pairs()) == Seq::<char>::empty(),
{
    assert(r.query_pairs() =~= Seq::<(Seq<char>, Seq<char>)>::empty());
}

/// A history filter with every field present adds exactly one pair per
/// field, in declared order, under its hyphenated key: numbers in decimal,
/// flags as `true` or `false`, texts as given.
pub proof fn messages_request_present_fields_in_order(r: MessagesRequest)
    requires
        r.start_index is Some,
        r.max_results is Some,
        r.reversed is Some,
        r.date is Some,
        r.include_deleted is Some,
        r.timezone is Some,
        r.end_date is Some,
    ensures
        r.query_pairs() == seq![
            ("start-index"@, decimal_text(r.start_index.unwrap() as nat)),
            ("max-results"@, decimal_text(r.max_results.unwrap() as nat)),
            ("reversed"@, flag_text(r.reversed.unwrap())),
            ("date"@, r.date.unwrap()@),
            ("include-deleted"@, flag_text(r.include_deleted.unwrap())),
            ("timezone"@, r.timezone.unwrap()@),
            ("end-date"@, r.end_date.unwrap()@),
        ],
{
    assert(r.query_pairs() =~= seq![
        ("start-index"@, decimal_text(r.start_index.unwrap() as nat)),
            ("max-results"@, decimal_text(r.max_results.unwrap() as nat)),
            ("reversed"@, flag_text(r.reversed.unwrap())),
            ("date"@, r.date.unwrap()@),
            ("include-deleted"@, flag_text(r.include_deleted.unwrap())),
            ("timezone"@, r.timezone.unwrap()@),
            ("end-date"@, r.end_date.unwrap()@),
    ]);
}

/// The links of a history.
#[derive(Debug, Clone, Hash, PartialEq, Eq)]
pub struct MessageDetailLinks {
    /// Sent as `self`.
    pub self_: String,
}

impl FromJson for MessageDetailLinks {
    open spec fn decodes_to(j: Json, v: MessageDetailLinks) -> bool {
        &&& j is Object
        &&& field_is(j, "self"@, v.self_)
    }

    fn from_json(j: &Json) -> (r: Result<MessageDetailLinks, Error>) {
        expect_object(j, "message links")?;
        let self_ = field(j, "self")?;
        Ok(MessageDetailLinks { self_ })
    }
}

/// A history: its items and links. The body carries no paging numbers, so
/// `start_index` and `max_results` are read as zero.
#[derive(Debug, Clone, Hash, PartialEq, Eq)]
pub struct Messages {
    pub start_index: u64,
    pub max_results: u64,
    pub items: Vec<Message>,
    pub links: MessageDetailLinks,
}

impl FromJson for Messages {
    open spec fn decodes_to(j: Json, v: Messages) -> bool {
        &&& j is Object
        &&& v.start_index == 0
        &&& v.max_results == 0
        &&& list_field_is(j, "items"@, v.items@)
        &&& field_is(j, "links"@, v.links)
    }

    fn from_json(j: &Json) -> (r: Result<Messages, Error>) {
        expect_object(j, "messages")?;
        let items = list_field(j, "items")?;
        let links = field(j, "links")?;
        Ok(Messages { start_index: 0, max_results: 0, items, links })
    }
}

/// A file attached to a message.
#[derive(Debug, Clone, Hash, PartialEq, Eq)]
pub struct MessageFile {
    pub url: String,
    pub thumb_url: Option<String>,
    pub name: String,
    /// Bytes.
    pub size: u64,
}

impl FromJson for MessageFile {
    open spec fn decodes_to(j: Json, v: MessageFile) -> bool {
        &&& j is Object
        &&& field_is(j, "url"@, v.url)
        &&& opt_field_is(j, "thumb_url"@, v.thumb_url)
        &&& field_is(j, "name"@, v.name)
        &&& field_is(j, "size"@, v.size)
    }

    fn from_json(j: &Json) -> (r: Result<MessageFile, Error>) {
        expect_object(j, "message file")?;
        let url = field(j, "url")?;
        let thumb_url = opt_field(j, "thumb_url")?;
        let name = field(j, "name")?;
        let size = field(j, "size")?;
        Ok(MessageFile { url, thumb_url, name, size })
    }
}

/// The answer to a message sent to a room: its id and time.
#[derive(Debug, Clone)]
pub struct SendMessageResponse {
    pub id: String,
    pub timestamp: String,
}

impl FromJson for SendMessageResponse {
    open spec fn decodes_to(j: Json, v: SendMessageResponse) -> bool {
        &&& j is Object
        &&& field_is(j, "id"@, v.id)
        &&& field_is(j, "timestamp"@, v.timestamp)
    }

    fn from_json(j: &Json) -> (r: Result<SendMessageResponse, Error>) {
        expect_object(j, "sent message")?;
        let id = field(j, "id")?;
        let timestamp = field(j, "timestamp")?;
        Ok(SendMessageResponse { id, timestamp })
    }
}

/// One item of a history. `from` is absent for messages of the system.
#[derive(Debug, Clone, Hash, PartialEq, Eq)]
pub struct Message {
    pub id: String,
    pub date: String,
    pub from: Option<UserDetail>,
    pub message: String,
    pub message_format: Option<MessageFormat>,
    /// Read from `type`.
    pub message_type: MessageType,
    pub color: Option<Color>,
    pub mentions: Vec<String>,
    pub file: Option<MessageFile>,
}

impl FromJson for Message {
    open spec fn decodes_to(j: Json, v: Message) -> bool {
        &&& j is Object
        &&& field_is(j, "id"@, v.id)
        &&& field_is(j, "date"@, v.date)
        &&& opt_field_is(j, "from"@, v.from)
        &&& field_is(j, "message"@, v.message)
        &&& opt_field_is(j, "message_format"@, v.message_format)
        &&& field_is(j, "type"@, v.message_type)
        &&& opt_field_is(j, "color"@, v.color)
        &&& list_field_is(j, "mentions"@, v.mentions@)
        &&& opt_field_is(j, "file"@, v.file)
    }

    fn from_json(j: &Json) -> (r: Result<Message, Error>) {
        expect_object(j, "message")?;
        let id = field(j, "id")?;
        let date = field(j, "date")?;
        let from = opt_field(j, "from")?;
        let message = field(j, "message")?;
        let message_format = opt_field(j, "message_format")?;
        let message_type = field(j, "type")?;
        let color = opt_field(j, "color")?;
        let mentions = list_field(j, "mentions")?;
        let file = opt_field(j, "file")?;
        Ok(
            Message {
                id,
                date,
                from,
                message,
                message_format,
                message_type,
                color,
                mentions,
                file,
            },
        )
    }
}

} // verus!
