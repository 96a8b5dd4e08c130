//! Users: the listing filter and the records that user endpoints return.
use vstd::prelude::*;

use crate::error::Error;
use crate::json::{
    expect_object, field, field_is, list_field, list_field_is, opt_field, opt_field_is, FromJson,
    Json,
};
use crate::util::{
    decimal_text, flag_text, opt_decimal, opt_flag, opt_pair, push_opt_decimal, push_opt_flag,
    query_text, AppendToQueryParams,
};

verus! {

/// The filter of the user listing; an absent field sends no parameter.
#[derive(Debug, Hash, PartialEq, Eq)]
pub struct UsersRequest {
    pub start_index: Option<u64>,
    pub max_results: Option<u64>,
    pub include_guests: Option<bool>,
    pub include_deleted: Option<bool>,
}

impl Default for UsersRequest {
    /// The first hundred users, without guests or deleted users.
    fn default() -> (r: UsersRequest)
        ensures
            r == (UsersRequest {
                start_index: Some(0),
                max_results: Some(100),
                include_guests: Some(false),
                include_deleted: Some(false),
            }),
    {
        UsersRequest {
            start_index: Some(0),
            max_results: Some(100),
            include_guests: Some(false),
            include_deleted: Some(false),
        }
    }
}

impl AppendToQueryParams for UsersRequest {
    open spec fn query_pairs(&self) -> Seq<(Seq<char>, Seq<char>)> {
        opt_pair("start-index"@, opt_decimal(self.start_index)) + opt_pair(
            "max-results"@,
            opt_decimal(self.max_results),
        ) + opt_pair("include-guests"@, opt_flag(self.include_guests)) + opt_pair(
            "include-deleted"@,
            opt_flag(self.include_deleted),
        )
    }

    fn append_to(&self, query: &mut Vec<(String, String)>) {
        let ghost start = query.deep_view();
        let ghost p1 = opt_pair("start-index"@, opt_decimal(self.start_index));
        let ghost p2 = opt_pair("max-results"@, opt_decimal(self.max_results));
        let ghost p3 = opt_pair("include-guests"@, opt_flag(self.include_guests));
        let ghost p4 = opt_pair("include-deleted"@, opt_flag(self.include_deleted));
        push_opt_decimal(query, "start-index", self.start_index);
        push_opt_decimal(query, "max-results", self.max_results);
        assert(query.deep_view() =~= start + (p1 + p2));
        push_opt_flag(query, "include-guests", self.include_guests);
        assert(query.deep_view() =~= start + (p1 + p2 + p3));
        push_opt_flag(query, "include-deleted", self.include_deleted);
        assert(query.deep_view() =~= start + (p1 + p2 + p3 + p4));
    }
}

/// A user listing filter with no field present adds no pair, so its query
/// string is empty.
pub proof fn users_request_absent_fields_add_nothing(r: UsersRequest)
    requires
        r.start_index is None,
        r.max_results is None,
        r.include_guests is None,
        r.include_deleted is None,
    ensures
        r.query_pairs() == Seq::<(Seq<char>, Seq<char>)>::empty(),
        query_text(r.query_pairs()) == Seq::<char>::empty(),
{
    assert(r.query_pairs() =~= Seq::<(Seq<char>, Seq<char>)>::empty());
}

/// A user listing filter with every field present adds exactly one pair per
/// field, in declared order, under its hyphenated key: numbers in decimal,
/// flags as `true` or `false`, texts as given.
pub proof fn users_request_present_fields_in_order(r: UsersRequest)
    requires
        r.start_index is Some,
        r.max_results is Some,
        r.include_guests is Some,
        r.include_deleted is Some,
    ensures
        r.query_pairs() == seq![
            ("start-index"@, decimal_text(r.start_index.unwrap() as nat)),
            ("max-results"@, decimal_text(r.max_results.unwrap() as nat)),
            ("include-guests"@, flag_text(r.include_guests.unwrap())),
            ("include-deleted"@, flag_text(r.include_deleted.unwrap())),
        ],
{
    assert(r.query_pairs() =~= seq![
        ("start-index"@, decimal_text(r.start_index.unwrap() as nat)),
            ("max-results"@, decimal_text(r.max_results.unwrap() as nat)),
            ("include-guests"@, flag_text(r.include_guests.unwrap())),
            ("include-deleted"@, flag_text(r.include_deleted.unwrap())),
    ]);
}

/// The links of a user listing; `prev` and `next` are pagination cursors.
#[derive(Debug, Clone, Hash, PartialEq, Eq)]
pub struct UsersLinks {
    /// Sent as `self`.
    pub self_: String,
    pub prev: Option<String>,
    pub next: Option<String>,
}

impl FromJson for UsersLinks {
    open spec fn decodes_to(j: Json, v: UsersLinks) -> bool {
        &&& j is Object
        &&& field_is(j, "self"@, v.self_)
        &&& opt_field_is(j, "prev"@, v.prev)
        &&& opt_field_is(j, "next"@, v.next)
    }

    fn from_json(j: &Json) -> (r: Result<UsersLinks, Error>) {
        expect_object(j, "users links")?;
        let self_ = field(j, "self")?;
        let prev = opt_field(j, "prev")?;
        let next = opt_field(j, "next")?;
        Ok(UsersLinks { self_, prev, next })
    }
}

/// One page of the user listing.
#[derive(Debug, Hash, PartialEq, Eq)]
pub struct Users {
    /// Sent as `startIndex`.
    pub start_index: u64,
    /// Sent as `maxResults`.
    pub max_results: u64,
    pub items: Vec<User>,
    pub links: UsersLinks,
}

impl FromJson for Users {
    open spec fn decodes_to(j: Json, v: Users) -> bool {
        &&& j is Object
        &&& field_is(j, "startIndex"@, v.start_index)
        &&& field_is(j, "maxResults"@, v.max_results)
        &&& list_field_is(j, "items"@, v.items@)
        &&& field_is(j, "links"@, v.links)
    }

    fn from_json(j: &Json) -> (r: Result<Users, Error>) {
        expect_object(j, "users")?;
        let start_index = field(j, "startIndex")?;
        let max_results = field(j, "maxResults")?;
        let items = list_field(j, "items")?;
        let links = field(j, "links")?;
        Ok(Users { start_index, max_results, items, links })
    }
}

/// A user as the listing shows it.
#[derive(Debug, Clone, Hash, PartialEq, Eq)]
pub struct User {
    pub name: String,
    pub mention_name: String,
    pub id: u64,
    pub links: UserDetailLinks,
}

impl FromJson for User {
    open spec fn decodes_to(j: Json, v: User) -> bool {
        &&& j is Object
        &&& field_is(j, "name"@, v.name)
        &&& field_is(j, "mention_name"@, v.mention_name)
        &&& field_is(j, "id"@, v.id)
        &&& field_is(j, "links"@, v.links)
    }

    fn from_json(j: &Json) -> (r: Result<User, Error>) {
        expect_object(j, "user")?;
        let name = field(j, "name")?;
        let mention_name = field(j, "mention_name")?;
        let id = field(j, "id")?;
        let links = field(j, "links")?;
        Ok(User { name, mention_name, id, links })
    }
}

/// The chat client a user is connected with.
#[derive(Debug, Clone, Hash, PartialEq, Eq)]
pub struct UserClient {
    pub version: Option<String>,
    pub client_type: Option<String>,
}

impl FromJson for UserClient {
    open spec fn decodes_to(j: Json, v: UserClient) -> bool {
        &&& j is Object
        &&& opt_field_is(j, "version"@, v.version)
        &&& opt_field_is(j, "client_type"@, v.client_type)
    }

    fn from_json(j: &Json) -> (r: Result<UserClient, Error>) {
        expect_object(j, "user client")?;
        let version = opt_field(j, "version")?;
        let client_type = opt_field(j, "client_type")?;
        Ok(UserClient { version, client_type })
    }
}

/// Whether and how a user is present.
#[derive(Debug, Clone, Hash, PartialEq, Eq)]
pub struct UserPresence {
    pub status: Option<String>,
    /// Seconds idle.
    pub idle: Option<u64>,
    pub show: String,
    pub client: Option<UserClient>,
    pub is_online: bool,
}

impl FromJson for UserPresence {
    open spec fn decodes_to(j: Json, v: UserPresence) -> bool {
        &&& j is Object
        &&& opt_field_is(j, "status"@, v.status)
        &&& opt_field_is(j, "idle"@, v.idle)
        &&& field_is(j, "show"@, v.show)
        &&& opt_field_is(j, "client"@, v.client)
        &&& field_is(j, "is_online"@, v.is_online)
    }

    fn from_json(j: &Json) -> (r: Result<UserPresence, Error>) {
        expect_object(j, "user presence")?;
        let status = opt_field(j, "status")?;
        let idle = opt_field(j, "idle")?;
        let show = field(j, "show")?;
        let client = opt_field(j, "client")?;
        let is_online = field(j, "is_online")?;
        Ok(UserPresence { status, idle, show, client, is_online })
    }
}

/// A user in full.
#[derive(Debug, Clone, Hash, PartialEq, Eq)]
pub struct UserDetail {
    pub id: u64,
    pub xmpp_jid: Option<String>,
    pub name: String,
    pub mention_name: String,
    pub email: Option<String>,
    pub title: Option<String>,
    pub timezone: Option<String>,
    pub photo_url: Option<String>,
    pub presence: Option<UserPresence>,
    pub is_deleted: Option<bool>,
    pub is_guest: Option<bool>,
    pub is_group_admin: Option<bool>,
    pub created: Option<String>,
    pub last_active: Option<String>,
    pub links: UserDetailLinks,
}

impl FromJson for UserDetail {
    open spec fn decodes_to(j: Json, v: UserDetail) -> bool {
        &&& j is Object
        &&& field_is(j, "id"@, v.id)
        &&& opt_field_is(j, "xmpp_jid"@, v.xmpp_jid)
        &&& field_is(j, "name"@, v.name)
        &&& field_is(j, "mention_name"@, v.mention_name)
        &&& opt_field_is(j, "email"@, v.email)
        &&& opt_field_is(j, "title"@, v.title)
        &&& opt_field_is(j, "timezone"@, v.timezone)
        &&& opt_field_is(j, "photo_url"@, v.photo_url)
        &&& opt_field_is(j, "presence"@, v.presence)
        &&& opt_field_is(j, "is_deleted"@, v.is_deleted)
        &&& opt_field_is(j, "is_guest"@, v.is_guest)
        &&& opt_field_is(j, "is_group_admin"@, v.is_group_admin)
        &&& opt_field_is(j, "created"@, v.created)
        &&& opt_field_is(j, "last_active"@, v.last_active)
        &&& field_is(j, "links"@, v.links)
    }

    fn from_json(j: &Json) -> (r: Result<UserDetail, Error>) {
        expect_object(j, "user detail")?;
        let id = field(j, "id")?;
        let xmpp_jid = opt_field(j, "xmpp_jid")?;
        let name = field(j, "name")?;
        let mention_name = field(j, "mention_name")?;
        let email = opt_field(j, "email")?;
        let title = opt_field(j, "title")?;
        let timezone = opt_field(j, "timezone")?;
        let photo_url = opt_field(j, "photo_url")?;
        let presence = opt_field(j, "presence")?;
        let is_deleted = opt_field(j, "is_deleted")?;
        let is_guest = opt_field(j, "is_guest")?;
        let is_group_admin = opt_field(j, "is_group_admin")?;
        let created = opt_field(j, "created")?;
        let last_active = opt_field(j, "last_active")?;
        let links = field(j, "links")?;
        Ok(
            UserDetail {
                id,
                xmpp_jid,
                name,
                mention_name,
                email,
                title,
                timezone,
                photo_url,
                presence,
                is_deleted,
                is_guest,
                is_group_admin,
                created,
                last_active,
                links,
            },
        )
    }
}

/// The links of a user.
#[derive(Debug, Clone, Hash, PartialEq, Eq)]
pub struct UserDetailLinks {
    /// Sent as `self`.
    pub self_: String,
}

impl FromJson for UserDetailLinks {
    open spec fn decodes_to(j: Json, v: UserDetailLinks) -> bool {
        &&& j is Object
        &&& field_is(j, "self"@, v.self_)
    }

    fn from_json(j: &Json) -> (r: Result<UserDetailLinks, Error>) {
        expect_object(j, "user links")?;
        let self_ = field(j, "self")?;
        Ok(UserDetailLinks { self_ })
    }
}

/// The answer to a message sent to a user: its id and time.
#[derive(Debug, Hash, PartialEq, Eq)]
pub struct UserMessage {
    pub id: String,
    pub timestamp: String,
}

impl FromJson for UserMessage {
    open spec fn decodes_to(j: Json, v: UserMessage) -> bool {
        &&& j is Object
        &&& field_is(j, "id"@, v.id)
        &&& field_is(j, "timestamp"@, v.timestamp)
    }

    fn from_json(j: &Json) -> (r: Result<UserMessage, Error>) {
        expect_object(j, "user message")?;
        let id = field(j, "id")?;
        let timestamp = field(j, "timestamp")?;
        Ok(UserMessage { id, timestamp })
    }
}

} // verus!
