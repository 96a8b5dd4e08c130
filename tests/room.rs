use hipchat_client::json::decode;
use hipchat_client::message::{Color, MessageFormat};
use hipchat_client::room::{
    Notification, RoomDetail, RoomUpdate, RoomUpdateOwner, Rooms, RoomsLinks, RoomsRequest,
};
use hipchat_client::util::{query_string, Privacy};
use hipchat_client::{DecodeError, Error};
use url::Url;

#[test]
fn unit_rooms_links() {
    let expected = RoomsLinks {
        self_: "https://www.example.com".to_owned(),
        prev: Some("https://www.example.com".to_owned()),
        next: Some("https://www.example.com".to_owned()),
    };
    let actual: RoomsLinks = decode(
        r#"{
            "self":"https://www.example.com",
            "prev":"https://www.example.com",
            "next":"https://www.example.com"
        }"#,
    )
    .unwrap();
    assert_eq!(actual, expected);
}

#[test]
fn unit_default_rooms_request_should_create_empty_params() {
    let rooms_request = RoomsRequest {
        start_index: None,
        max_results: None,
        include_private: None,
        include_archived: None,
    };

    let mut url =
        Url::parse("https://rsolomo.github.io/hipchat-client/hipchat_client/index.html").unwrap();

    url.set_query(Some(&query_string(&rooms_request)));

    assert_eq!(Some(""), url.query());
}

#[test]
fn unit_populated_rooms_request_should_create_encoded_params() {
    let rooms_request = RoomsRequest {
        start_index: Some(1),
        max_results: Some(10),
        include_private: Some(true),
        include_archived: Some(true),
    };

    let mut url =
        Url::parse("https://rsolomo.github.io/hipchat-client/hipchat_client/index.html").unwrap();

    url.set_query(Some(&query_string(&rooms_request)));

    assert_eq!(
        Some("start-index=1&max-results=10&include-private=true&include-archived=true"),
        url.query()
    );
}

#[test]
fn unit_serialize_privacy_private() {
    let actual = Privacy::Private.to_json();
    let expected = "\"private\"";
    assert_eq!(actual, expected);
}

#[test]
fn privacy_round_trip_and_default() {
    assert_eq!(Privacy::default(), Privacy::Public);
    assert_eq!(Privacy::parse("public").unwrap(), Privacy::Public);
    assert_eq!(Privacy::parse("private").unwrap(), Privacy::Private);
    match Privacy::parse("secret") {
        Err(Error::Json(DecodeError::Schema(m))) => assert_eq!(m, "invalid value for privacy"),
        other => panic!("{:?}", other),
    }
}

#[test]
fn rooms_request_skips_absent_fields_in_the_middle() {
    let r = RoomsRequest {
        start_index: None,
        max_results: Some(5),
        include_private: None,
        include_archived: Some(false),
    };
    assert_eq!(query_string(&r), "max-results=5&include-archived=false");
}

#[test]
fn room_update_omits_absent_fields() {
    let u = RoomUpdate {
        name: Some("general".to_string()),
        privacy: None,
        is_archived: Some(false),
        is_guest_accessible: None,
        topic: None,
        owner: None,
    };
    assert_eq!(u.to_json(), r#"{"name":"general","is_archived":false}"#);
}

#[test]
fn room_update_with_every_field() {
    let u = RoomUpdate {
        name: Some("a \"b\"".to_string()),
        privacy: Some(Privacy::Private),
        is_archived: Some(true),
        is_guest_accessible: Some(false),
        topic: Some("t".to_string()),
        owner: Some(RoomUpdateOwner { id: Some("12".to_string()) }),
    };
    assert_eq!(
        u.to_json(),
        r#"{"name":"a \"b\"","privacy":"private","is_archived":true,"is_guest_accessible":false,"topic":"t","owner":{"id":"12"}}"#
    );
}

#[test]
fn empty_room_update_is_an_empty_object() {
    let u = RoomUpdate {
        name: None,
        privacy: None,
        is_archived: None,
        is_guest_accessible: None,
        topic: None,
        owner: Some(RoomUpdateOwner { id: None }),
    };
    assert_eq!(u.to_json(), r#"{"owner":{}}"#);
}

#[test]
fn default_notification_body() {
    let n = Notification::default();
    assert_eq!(n.color, Color::Yellow);
    assert_eq!(n.message_format, MessageFormat::Html);
    assert!(!n.notify);
    assert_eq!(
        n.to_json(),
        r#"{"color":"yellow","message":"","notify":false,"message_format":"html"}"#
    );
}

#[test]
fn notification_body_escapes_the_message() {
    let n = Notification {
        color: Color::Random,
        message: "line\nbreak".to_string(),
        notify: true,
        message_format: MessageFormat::Text,
    };
    assert_eq!(
        n.to_json(),
        r#"{"color":"random","message":"line\nbreak","notify":true,"message_format":"text"}"#
    );
}

#[test]
fn rooms_page_decodes() {
    let body = r#"{"startIndex": 0, "maxResults": 100, "items": [],
        "links": {"self": "https://api.example.com/v2/room", "next": "https://n"}}"#;
    let rooms: Rooms = decode(body).unwrap();
    assert_eq!(rooms.items.len(), 0);
    assert_eq!(rooms.links.next.as_deref(), Some("https://n"));
    assert_eq!(rooms.links.prev, None);
}

#[test]
fn room_detail_wrong_privacy_fails() {
    let body = r#"{"xmpp_jid": "x", "statistics": {"links": {"self": "s"}}, "name": "n",
        "links": {"self": "s", "webhooks": "w", "participants": "p"}, "created": "c",
        "is_archived": false, "privacy": "hidden", "is_guest_accessible": false,
        "topic": "t", "id": 1}"#;
    let r: Result<RoomDetail, Error> = decode(body);
    assert!(matches!(r, Err(Error::Json(DecodeError::Schema(_)))));
}
