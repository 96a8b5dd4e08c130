//! The endpoints: the request of each operation, and how a response is
//! classified and decoded.
use vstd::prelude::*;

use crate::error::Error;
use crate::json::{decode, decoded, json_quoted, object_json, object_text, string_json, FromJson};
use crate::message::MessagesRequest;
use crate::room::{Notification, RoomUpdate, RoomsRequest};
use crate::user::UsersRequest;
use crate::util::{push_pair, query_string, query_text, AppendToQueryParams};

verus! {

/// The HTTP verb of a request.
#[derive(Debug, Clone, Copy, PartialEq, Eq, Structural)]
pub enum Method {
    Get,
    Post,
    Put,
    Delete,
}

/// A request ready to be sent.
#[derive(Debug)]
pub struct Request {
    pub method: Method,
    pub url: String,
    /// The value of the `Authorization` header.
    pub authorization: String,
    /// The JSON body, sent with `Content-Type: application/json`; GET and
    /// DELETE carry none.
    pub body: Option<String>,
}

impl Request {
    /// The request has the verb `m`, the URL `url`, the authorization `auth`
    /// and the body `body`.
    pub open spec fn is(
        self,
        m: Method,
        url: Seq<char>,
        auth: Seq<char>,
        body: Option<Seq<char>>,
    ) -> bool {
        &&& self.method == m
        &&& self.url@ == url
        &&& self.authorization@ == auth
        &&& match self.body {
            Some(b) => body == Some(b@),
            None => body is None,
        }
    }
}

/// `url` with the query string `q`; no `?` where `q` is empty.
pub open spec fn with_query(url: Seq<char>, q: Seq<char>) -> Seq<char> {
    if q.len() == 0 {
        url
    } else {
        url + "?"@ + q
    }
}

/// The query string of an optional filter; empty where there is none.
pub open spec fn filter_query<Q: AppendToQueryParams>(req: Option<&Q>) -> Seq<char> {
    match req {
        Some(q) => query_text(q.query_pairs()),
        None => Seq::empty(),
    }
}

/// The members of the body that sends the message `m`.
pub open spec fn message_members(m: Seq<char>) -> Seq<(Seq<char>, Seq<char>)> {
    seq![("message"@, json_quoted(m))]
}

/// Whether a status is in the success class, 2xx.
pub open spec fn is_success(status: u16) -> bool {
    200 <= status < 300
}

/// Succeeds where the status is in the success class; otherwise fails with
/// the status.
pub fn check_status(status: u16) -> (r: Result<(), Error>)
    ensures
        r is Ok <==> is_success(status),
        r is Err ==> r == Err::<(), Error>(Error::HttpStatus(status)),
{
    if 200 <= status && status < 300 {
        Ok(())
    } else {
        Err(Error::HttpStatus(status))
    }
}

/// Interprets a response that carries a `T`: a status outside 2xx fails with
/// that status and the body is not looked at; else the body is decoded.
pub fn read_response<T: FromJson>(status: u16, body: &str) -> (r: Result<T, Error>)
    ensures
        !is_success(status) ==> (r matches Err(Error::HttpStatus(s)) && s == status),
        is_success(status) ==> decoded(body@, r),
{
    match check_status(status) {
        Ok(()) => decode(body),
        Err(e) => Err(e),
    }
}

/// The configuration of a client: the API's base URL and the bearer token.
/// It is never changed after construction.
pub struct Client {
    base_url: String,
    token: String,
}

impl Client {
    /// The base URL: the origin followed by the API version.
    pub closed spec fn base(&self) -> Seq<char> {
        self.base_url@
    }

    /// The value of the `Authorization` header sent on every request.
    pub closed spec fn bearer(&self) -> Seq<char> {
        "Bearer "@ + self.token@
    }

    /// A client of version 2 of the API at `origin`, authorized by `token`.
    pub fn new(origin: &str, token: &str) -> (c: Client)
        ensures
            c.base() == origin@ + "/v2"@,
            c.bearer() == "Bearer "@ + token@,
    {
        Client { base_url: String::from_str(origin).concat("/v2"), token: String::from_str(token) }
    }

    /// The text of the `Authorization` header.
    fn authorization(&self) -> (r: String)
        ensures
            r@ == self.bearer(),
    {
        String::from_str("Bearer ").concat(self.token.as_str())
    }

    /// The base URL followed by `path`.
    fn path(&self, path: &str) -> (r: String)
        ensures
            r@ == self.base() + path@,
    {
        self.base_url.clone().concat(path)
    }

    /// The base URL followed by `path`, then the identifier `id` as given.
    fn url(&self, path: &str, id: &str) -> (r: String)
        ensures
            r@ == self.base() + path@ + id@,
    {
        self.path(path).concat(id)
    }

    /// `url` with the query string of the filter `req`, if any.
    fn url_with<Q: AppendToQueryParams>(url: String, req: Option<&Q>) -> (r: String)
        ensures
            r@ == with_query(url@, filter_query(req)),
    {
        match req {
            Some(q) => {
                let query = query_string(q);
                if query.as_str().is_empty() {
                    url
                } else {
                    url.concat("?").concat(query.as_str())
                }
            },
            None => url,
        }
    }

    /// The request of [Get emoticon](https://www.hipchat.com/docs/apiv2/method/get_emoticon).
    pub fn get_emoticon(&self, emoticon_id_or_shortcut: &str) -> (r: Request)
        ensures
            r.is(
                Method::Get,
                self.base() + "/emoticon/"@ + emoticon_id_or_shortcut@,
                self.bearer(),
                None,
            ),
    {
        Request {
            method: Method::Get,
            url: self.url("/emoticon/", emoticon_id_or_shortcut),
            authorization: self.authorization(),
            body: None,
        }
    }

    /// The request of [Get room](https://www.hipchat.com/docs/apiv2/method/get_room).
    pub fn get_room(&self, room_id_or_name: &str) -> (r: Request)
        ensures
            r.is(Method::Get, self.base() + "/room/"@ + room_id_or_name@, self.bearer(), None),
    {
        Request {
            method: Method::Get,
            url: self.url("/room/", room_id_or_name),
            authorization: self.authorization(),
            body: None,
        }
    }

    /// The request of [Update room](https://www.hipchat.com/docs/apiv2/method/update_room):
    /// only the fields of `req` that are present are sent.
    pub fn update_room(&self, room_id_or_name: &str, req: &RoomUpdate) -> (r: Request)
        ensures
            r.is(
                Method::Put,
                self.base() + "/room/"@ + room_id_or_name@,
                self.bearer(),
                Some(object_text(req.members())),
            ),
    {
        Request {
            method: Method::Put,
            url: self.url("/room/", room_id_or_name),
            authorization: self.authorization(),
            body: Some(req.to_json()),
        }
    }

    /// The request of [Delete room](https://www.hipchat.com/docs/apiv2/method/delete_room).
    pub fn delete_room(&self, room_id_or_name: &str) -> (r: Request)
        ensures
            r.is(Method::Delete, self.base() + "/room/"@ + room_id_or_name@, self.bearer(), None),
    {
        Request {
            method: Method::Delete,
            url: self.url("/room/", room_id_or_name),
            authorization: self.authorization(),
            body: None,
        }
    }

    /// The request of [Get all rooms](https://www.hipchat.com/docs/apiv2/method/get_all_rooms).
    pub fn get_rooms(&self, req: Option<&RoomsRequest>) -> (r: Request)
        ensures
            r.is(
                Method::Get,
                with_query(self.base() + "/room"@, filter_query(req)),
                self.bearer(),
                None,
            ),
    {
        Request {
            method: Method::Get,
            url: Client::url_with(self.path("/room"), req),
            authorization: self.authorization(),
            body: None,
        }
    }

    /// The request of [Send message](https://www.hipchat.com/docs/apiv2/method/send_message):
    /// the body is `{"message": ...}`.
    pub fn send_message(&self, room_id_or_name: &str, message: &str) -> (r: Request)
        ensures
            r.is(
                Method::Post,
                self.base() + "/room/"@ + room_id_or_name@ + "/message"@,
                self.bearer(),
                Some(object_text(message_members(message@))),
            ),
    {
        let mut ms: Vec<(String, String)> = Vec::new();
        push_pair(&mut ms, "message", string_json(message));
        assert(ms.deep_view() =~= message_members(message@));
        Request {
            method: Method::Post,
            url: self.url("/room/", room_id_or_name).concat("/message"),
            authorization: self.authorization(),
            body: Some(object_json(&ms)),
        }
    }

    /// The request of [Get private messages](https://www.hipchat.com/docs/apiv2/method/view_privatechat_history).
    pub fn get_private_messages(&self, user_id_or_email: &str, req: Option<&MessagesRequest>) -> (r:
        Request)
        ensures
            r.is(
                Method::Get,
                with_query(
                    self.base() + "/user/"@ + user_id_or_email@ + "/history"@,
                    filter_query(req),
                ),
                self.bearer(),
                None,
            ),
    {
        Request {
            method: Method::Get,
            url: Client::url_with(self.url("/user/", user_id_or_email).concat("/history"), req),
            authorization: self.authorization(),
            body: None,
        }
    }

    /// The request of [View recent room history](https://www.hipchat.com/docs/apiv2/method/view_recent_room_history).
    pub fn get_recent_history(&self, room_id_or_name: &str) -> (r: Request)
        ensures
            r.is(
                Method::Get,
                self.base() + "/room/"@ + room_id_or_name@ + "/history/latest"@,
                self.bearer(),
                None,
            ),
    {
        Request {
            method: Method::Get,
            url: self.url("/room/", room_id_or_name).concat("/history/latest"),
            authorization: self.authorization(),
            body: None,
        }
    }

    /// The request of [Send room notification](https://www.hipchat.com/docs/apiv2/method/send_room_notification).
    pub fn send_notification(&self, room_id_or_name: &str, notification: &Notification) -> (r:
        Request)
        ensures
            r.is(
                Method::Post,
                self.base() + "/room/"@ + room_id_or_name@ + "/notification"@,
                self.bearer(),
                Some(object_text(notification.members())),
            ),
    {
        Request {
            method: Method::Post,
            url: self.url("/room/", room_id_or_name).concat("/notification"),
            authorization: self.authorization(),
            body: Some(notification.to_json()),
        }
    }

    /// The request of [Get all users](https://www.hipchat.com/docs/apiv2/method/get_all_users).
    pub fn get_users(&self, req: Option<&UsersRequest>) -> (r: Request)
        ensures
            r.is(
                Method::Get,
                with_query(self.base() + "/user"@, filter_query(req)),
                self.bearer(),
                None,
            ),
    {
        Request {
            method: Method::Get,
            url: Client::url_with(self.path("/user"), req),
            authorization: self.authorization(),
            body: None,
        }
    }

    /// The request of [Get user](https://www.hipchat.com/docs/apiv2/method/view_user).
    pub fn get_user(&self, user_id_or_name: &str) -> (r: Request)
        ensures
            r.is(Method::Get, self.base() + "/user/"@ + user_id_or_name@, self.bearer(), None),
    {
        Request {
            method: Method::Get,
            url: self.url("/user/", user_id_or_name),
            authorization: self.authorization(),
            body: None,
        }
    }
}

} // verus!
