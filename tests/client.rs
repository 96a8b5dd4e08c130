use hipchat_client::client::{check_status, read_response, Method, Request};
use hipchat_client::emoticon::Emoticon;
use hipchat_client::message::{Messages, MessagesRequest, SendMessageResponse};
use hipchat_client::room::{Notification, RoomDetail, RoomUpdate, Rooms, RoomsRequest};
use hipchat_client::user::{UserDetail, Users, UsersRequest};
use hipchat_client::util::{u64_text, Privacy};
use hipchat_client::{Client, DecodeError, Error};

const ROOM_BODY: &str = r#"{
    "xmpp_jid": "1_general@conf.example.com",
    "statistics": {"links": {"self": "https://api.example.com/v2/room/1/statistics"}},
    "name": "general",
    "links": {"self": "https://api.example.com/v2/room/1",
              "webhooks": "https://api.example.com/v2/room/1/webhook",
              "members": null,
              "participants": "https://api.example.com/v2/room/1/participant"},
    "created": "2017-03-20T12:00:00+00:00",
    "is_archived": false,
    "privacy": "public",
    "is_guest_accessible": false,
    "topic": "Anything",
    "id": 1,
    "guest_access_url": null
}"#;

const ROOMS_BODY: &str = r#"{
    "startIndex": 0,
    "maxResults": 100,
    "items": [
        {"name": "general", "id": 1, "links": {"self": "https://api.example.com/v2/room/1",
            "webhooks": "w1", "participants": "p1"}},
        {"name": "random", "id": 2, "links": {"self": "https://api.example.com/v2/room/2",
            "webhooks": "w2", "members": "m2", "participants": "p2"}}
    ],
    "links": {"self": "https://api.example.com/v2/room"}
}"#;

fn client() -> Client {
    Client::new("https://api.example.com", "t0ken")
}

fn get(url: &str) -> (Method, String, Option<String>) {
    (Method::Get, url.to_string(), None)
}

fn parts(r: Request) -> (Method, String, Option<String>) {
    assert_eq!(r.authorization, "Bearer t0ken");
    (r.method, r.url, r.body)
}

#[test]
fn integration_get_room() {
    let c = client();
    let req = c.get_room("general");
    assert_eq!(parts(req), get("https://api.example.com/v2/room/general"));
    let room: RoomDetail = read_response(200, ROOM_BODY).unwrap();
    assert_eq!(room.name, "general");
    assert_eq!(room.privacy, Privacy::Public);
    assert_eq!(room.links.members, None);
    assert_eq!(room.statistics.links.self_, "https://api.example.com/v2/room/1/statistics");
}

#[test]
fn integration_get_rooms() {
    let c = client();
    assert_eq!(parts(c.get_rooms(None)), get("https://api.example.com/v2/room"));
    let rooms: Rooms = read_response(200, ROOMS_BODY).unwrap();
    assert!(rooms.items.iter().any(|r| r.name == "general"));
}

#[test]
fn integration_get_user() {
    let c = client();
    let id: u64 = 42;
    assert_eq!(parts(c.get_user(&u64_text(id))), get("https://api.example.com/v2/user/42"));
    let body = r#"{"id": 42, "name": "Ann", "mention_name": "ann", "links": {"self": "u"}}"#;
    let user: UserDetail = read_response(200, body).unwrap();
    assert_eq!(user.id, id);
}

#[test]
fn integration_get_users() {
    let c = client();
    assert_eq!(parts(c.get_users(None)), get("https://api.example.com/v2/user"));
    let body = r#"{"startIndex": 0, "maxResults": 100, "items": [], "links": {"self": "s"}}"#;
    let users: Users = read_response(200, body).unwrap();
    assert_eq!(users.items.len(), 0);
}

#[test]
fn integration_get_private_messages() {
    let c = client();
    assert_eq!(
        parts(c.get_private_messages("42", None)),
        get("https://api.example.com/v2/user/42/history")
    );
    let messages: Messages = read_response(200, r#"{"items": [], "links": {"self": "s"}}"#).unwrap();
    assert_eq!(messages.items.len(), 0);
}

#[test]
fn integration_get_recent_history() {
    let c = client();
    assert_eq!(
        parts(c.get_recent_history("general")),
        get("https://api.example.com/v2/room/general/history/latest")
    );
    let messages: Messages = read_response(200, r#"{"items": [], "links": {"self": "s"}}"#).unwrap();
    assert_eq!(messages.links.self_, "s");
}

#[test]
fn list_rooms_with_two_items() {
    let rooms: Rooms = read_response(200, ROOMS_BODY).unwrap();
    assert_eq!(rooms.items.len(), 2);
    assert_eq!(rooms.links.self_, "https://api.example.com/v2/room");
    assert_eq!(rooms.items[1].links.members.as_deref(), Some("m2"));
}

#[test]
fn not_found_is_a_status_error_for_every_operation() {
    let body = "not even json";
    assert!(matches!(read_response::<Emoticon>(404, body), Err(Error::HttpStatus(404))));
    assert!(matches!(read_response::<RoomDetail>(404, ROOM_BODY), Err(Error::HttpStatus(404))));
    assert!(matches!(read_response::<Rooms>(404, ROOMS_BODY), Err(Error::HttpStatus(404))));
    assert!(matches!(read_response::<SendMessageResponse>(404, body), Err(Error::HttpStatus(404))));
    assert!(matches!(read_response::<Messages>(404, body), Err(Error::HttpStatus(404))));
    assert!(matches!(read_response::<Users>(404, body), Err(Error::HttpStatus(404))));
    assert!(matches!(read_response::<UserDetail>(404, body), Err(Error::HttpStatus(404))));
    assert!(matches!(check_status(404), Err(Error::HttpStatus(404))));
    assert!(matches!(check_status(500), Err(Error::HttpStatus(500))));
    assert!(matches!(check_status(199), Err(Error::HttpStatus(199))));
    assert!(matches!(check_status(300), Err(Error::HttpStatus(300))));
    assert!(check_status(200).is_ok());
    assert!(check_status(204).is_ok());
    assert!(check_status(299).is_ok());
}

#[test]
fn malformed_body_is_a_syntax_error() {
    let r: Result<Rooms, Error> = read_response(200, "{\"startIndex\": 0,");
    assert!(matches!(r, Err(Error::Json(DecodeError::Syntax(_)))));
    let r: Result<RoomDetail, Error> = read_response(200, "");
    assert!(matches!(r, Err(Error::Json(DecodeError::Syntax(_)))));
}

#[test]
fn body_of_another_shape_is_a_schema_error() {
    let r: Result<Rooms, Error> = read_response(200, "[1, 2]");
    assert!(matches!(r, Err(Error::Json(DecodeError::Schema(_)))));
    let r: Result<Rooms, Error> = read_response(200, r#"{"startIndex": "0"}"#);
    assert!(matches!(r, Err(Error::Json(DecodeError::Schema(_)))));
}

#[test]
fn get_emoticon_request_and_response() {
    let c = client();
    assert_eq!(
        parts(c.get_emoticon("allthethings")),
        get("https://api.example.com/v2/emoticon/allthethings")
    );
    let body = r#"{"width": 30, "id": 9, "shortcut": "allthethings", "height": "30",
        "audio_path": null}"#;
    let e: Emoticon = read_response(201, body).unwrap();
    assert_eq!(
        e,
        Emoticon {
            width: 30,
            audio_path: None,
            id: 9,
            shortcut: "allthethings".to_string(),
            height: "30".to_string()
        }
    );
}

#[test]
fn update_and_delete_room_requests() {
    let c = client();
    let u = RoomUpdate {
        name: None,
        privacy: Some(Privacy::Public),
        is_archived: None,
        is_guest_accessible: None,
        topic: Some("News".to_string()),
        owner: None,
    };
    assert_eq!(
        parts(c.update_room("general", &u)),
        (
            Method::Put,
            "https://api.example.com/v2/room/general".to_string(),
            Some(r#"{"privacy":"public","topic":"News"}"#.to_string())
        )
    );
    assert_eq!(
        parts(c.delete_room("7")),
        (Method::Delete, "https://api.example.com/v2/room/7".to_string(), None)
    );
}

#[test]
fn send_message_and_notification_requests() {
    let c = client();
    assert_eq!(
        parts(c.send_message("general", "hello \"world\"")),
        (
            Method::Post,
            "https://api.example.com/v2/room/general/message".to_string(),
            Some(r#"{"message":"hello \"world\""}"#.to_string())
        )
    );
    let n = Notification { message: "build green".to_string(), ..Notification::default() };
    assert_eq!(
        parts(c.send_notification("general", &n)),
        (
            Method::Post,
            "https://api.example.com/v2/room/general/notification".to_string(),
            Some(
                r#"{"color":"yellow","message":"build green","notify":false,"message_format":"html"}"#
                    .to_string()
            )
        )
    );
    let sent: SendMessageResponse =
        read_response(201, r#"{"id": "abc", "timestamp": "2017-03-20T12:00:00"}"#).unwrap();
    assert_eq!(sent.id, "abc");
}

#[test]
fn listing_requests_carry_their_filters() {
    let c = client();
    let rooms = RoomsRequest {
        start_index: Some(100),
        max_results: None,
        include_private: Some(true),
        include_archived: None,
    };
    assert_eq!(
        parts(c.get_rooms(Some(&rooms))),
        get("https://api.example.com/v2/room?start-index=100&include-private=true")
    );
    let empty = RoomsRequest {
        start_index: None,
        max_results: None,
        include_private: None,
        include_archived: None,
    };
    assert_eq!(parts(c.get_rooms(Some(&empty))), get("https://api.example.com/v2/room"));
    assert_eq!(
        parts(c.get_users(Some(&UsersRequest::default()))),
        get("https://api.example.com/v2/user?start-index=0&max-results=100&include-guests=false&include-deleted=false")
    );
    let history = MessagesRequest {
        start_index: None,
        max_results: Some(1),
        reversed: None,
        date: Some("recent".to_string()),
        include_deleted: None,
        timezone: Some("Europe/Paris".to_string()),
        end_date: None,
    };
    assert_eq!(
        parts(c.get_private_messages("ann@example.com", Some(&history))),
        get("https://api.example.com/v2/user/ann@example.com/history?max-results=1&date=recent&timezone=Europe%2FParis")
    );
}

#[test]
fn numbers_in_decimal() {
    assert_eq!(u64_text(0), "0");
    assert_eq!(u64_text(120), "120");
    assert_eq!(u64_text(u64::MAX), "18446744073709551615");
}
