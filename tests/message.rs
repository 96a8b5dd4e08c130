use hipchat_client::json::decode;
use hipchat_client::message::{Color, MessageFormat, MessageType, Messages, MessagesRequest};
use hipchat_client::util::query_string;
use hipchat_client::{DecodeError, Error};
use url::Url;

#[test]
fn unit_deserialize_message_format_html() {
    let expected = MessageFormat::Html;
    let actual: MessageFormat = decode("\"html\"").unwrap_or_else(|e| panic!("{:?}", e));
    assert_eq!(actual, expected);
}

#[test]
fn unit_deserialize_message_format_text() {
    let expected = MessageFormat::Text;
    let actual: MessageFormat = decode("\"text\"").unwrap_or_else(|e| panic!("{:?}", e));
    assert_eq!(actual, expected);
}

#[test]
fn unit_serialize_message_format_text() {
    let text = MessageFormat::Text;
    let actual = text.to_json();
    let expected = "\"text\"";
    assert_eq!(actual, expected);
}

#[test]
fn unit_default_messages_request_should_create_empty_params() {
    let messages_request = MessagesRequest {
        start_index: None,
        max_results: None,
        reversed: None,
        date: None,
        include_deleted: None,
        timezone: None,
        end_date: None,
    };

    let mut url =
        Url::parse("https://rsolomo.github.io/hipchat-client/hipchat_client/index.html").unwrap();

    url.set_query(Some(&query_string(&messages_request)));

    assert_eq!(Some(""), url.query());
}

#[test]
fn unit_populated_messages_request_should_create_encoded_params() {
    let messages_request = MessagesRequest {
        start_index: Some(1),
        max_results: Some(10),
        reversed: Some(false),
        date: Some("2017-03-20T12:00:00+4:00".to_string()),
        include_deleted: Some(false),
        timezone: Some("UTC".to_string()),
        end_date: Some("2017-03-20T13:00:00+4:00".to_string()),
    };

    let mut url =
        Url::parse("https://rsolomo.github.io/hipchat-client/hipchat_client/index.html").unwrap();

    url.set_query(Some(&query_string(&messages_request)));

    assert_eq!(Some("start-index=1&max-results=10&reversed=false&date=2017-03-20T12%3A00%3A00%2B4%3A00&include-deleted=false&timezone=UTC&end-date=2017-03-20T13%3A00%3A00%2B4%3A00"), url.query());
}

#[test]
fn color_round_trips_every_variant() {
    let all = [Color::Yellow, Color::Green, Color::Red, Color::Purple, Color::Gray, Color::Random];
    let names = ["yellow", "green", "red", "purple", "gray", "random"];
    for (c, n) in all.iter().zip(names.iter()) {
        assert_eq!(c.as_str(), *n);
        assert_eq!(Color::parse(c.as_str()).unwrap(), *c);
        let back: Color = decode(&c.to_json()).unwrap();
        assert_eq!(back, *c);
    }
}

#[test]
fn message_type_round_trips_every_variant() {
    let all = [
        MessageType::Message,
        MessageType::GuestAccess,
        MessageType::Topic,
        MessageType::Notification,
    ];
    for t in all.iter() {
        assert_eq!(MessageType::parse(t.as_str()).unwrap(), *t);
    }
    assert_eq!(MessageType::GuestAccess.to_json(), "\"guest_access\"");
    let t: MessageType = decode("\"guest_access\"").unwrap();
    assert_eq!(t, MessageType::GuestAccess);
}

#[test]
fn unknown_color_is_a_decode_error() {
    match Color::parse("blue") {
        Err(Error::Json(DecodeError::Schema(m))) => assert_eq!(m, "invalid value for color"),
        other => panic!("{:?}", other),
    }
    assert!(Color::parse("Yellow").is_err());
    assert!(Color::parse("").is_err());
    let r: Result<Color, Error> = decode("\"blue\"");
    assert!(matches!(r, Err(Error::Json(DecodeError::Schema(_)))));
}

#[test]
fn unknown_message_type_and_format_are_decode_errors() {
    match MessageType::parse("guestaccess") {
        Err(Error::Json(DecodeError::Schema(m))) => {
            assert_eq!(m, "invalid value for message type")
        }
        other => panic!("{:?}", other),
    }
    match MessageFormat::parse("markdown") {
        Err(Error::Json(DecodeError::Schema(m))) => {
            assert_eq!(m, "invalid value for message format")
        }
        other => panic!("{:?}", other),
    }
}

#[test]
fn message_defaults() {
    assert_eq!(Color::default(), Color::Yellow);
    assert_eq!(MessageFormat::default(), MessageFormat::Html);
}

#[test]
fn history_decodes_items_with_renamed_type() {
    let body = r#"{
        "items": [
            {"id": "a1", "date": "2017-03-20T12:00:00+00:00", "message": "hi",
             "type": "message", "color": "green", "message_format": "text",
             "mentions": ["bob"], "from": null,
             "file": {"url": "https://f", "name": "f.png", "size": 42}},
            {"id": "a2", "date": "2017-03-20T12:01:00+00:00", "message": "topic set",
             "type": "topic", "mentions": []}
        ],
        "links": {"self": "https://api.example.com/v2/room/1/history/latest"}
    }"#;
    let m: Messages = decode(body).unwrap();
    assert_eq!(m.start_index, 0);
    assert_eq!(m.max_results, 0);
    assert_eq!(m.items.len(), 2);
    assert_eq!(m.items[0].message_type, MessageType::Message);
    assert_eq!(m.items[0].color, Some(Color::Green));
    assert_eq!(m.items[0].message_format, Some(MessageFormat::Text));
    assert_eq!(m.items[0].mentions, vec!["bob".to_string()]);
    assert_eq!(m.items[0].from, None);
    assert_eq!(m.items[0].file.as_ref().unwrap().size, 42);
    assert_eq!(m.items[0].file.as_ref().unwrap().thumb_url, None);
    assert_eq!(m.items[1].message_type, MessageType::Topic);
    assert_eq!(m.items[1].color, None);
    assert_eq!(m.links.self_, "https://api.example.com/v2/room/1/history/latest");
}

#[test]
fn history_item_with_bad_color_fails() {
    let body = r#"{"items": [{"id": "a", "date": "d", "message": "m", "type": "message",
        "color": "blue", "mentions": []}], "links": {"self": "s"}}"#;
    let r: Result<Messages, Error> = decode(body);
    assert!(matches!(r, Err(Error::Json(DecodeError::Schema(_)))));
}
