//! Rooms: the listing filter, the records that room endpoints return, and
//! the bodies sent to update a room or notify it.
use vstd::prelude::*;

use crate::error::Error;
use crate::json::{
    expect_object, field, field_is, json_quoted, list_field, list_field_is, object_json,
    object_text, opt_field, opt_field_is, string_json, FromJson, Json,
};
use crate::message::{Color, MessageFormat};
use crate::util::{
    bool_text, decimal_text, flag_text, opt_decimal, opt_flag, opt_pair, opt_text,
    push_opt_decimal, push_opt_flag, push_opt_text, push_pair, query_text, AppendToQueryParams,
    Privacy,
};

verus! {

/// The filter of the room listing; an absent field sends no parameter.
#[derive(Debug, Hash, PartialEq, Eq)]
pub struct RoomsRequest {
    pub start_index: Option<u64>,
    pub max_results: Option<u64>,
    pub include_private: Option<bool>,
    pub include_archived: Option<bool>,
}

impl AppendToQueryParams for RoomsRequest {
    open spec fn query_pairs(&self) -> Seq<(Seq<char>, Seq<char>)> {
        opt_pair("start-index"@, opt_decimal(self.start_index)) + opt_pair(
            "max-results"@,
            opt_decimal(self.max_results),
        ) + opt_pair("include-private"@, opt_flag(self.include_private)) + opt_pair(
            "include-archived"@,
            opt_flag(self.include_archived),
        )
    }

    fn append_to(&self, query: &mut Vec<(String, String)>) {
        let ghost start = query.deep_view();
        let ghost p1 = opt_pair("start-index"@, opt_decimal(self.start_index));
        let ghost p2 = opt_pair("max-results"@, opt_decimal(self.max_results));
        let ghost p3 = opt_pair("include-private"@, opt_flag(self.include_private));
        let ghost p4 = opt_pair("include-archived"@, opt_flag(self.include_archived));
        push_opt_decimal(query, "start-index", self.start_index);
        push_opt_decimal(query, "max-results", self.max_results);
        assert(query.deep_view() =~= start + (p1 + p2));
        push_opt_flag(query, "include-private", self.include_private);
        assert(query.deep_view() =~= start + (p1 + p2 + p3));
        push_opt_flag(query, "include-archived", self.include_archived);
        assert(query.deep_view() =~= start + (p1 + p2 + p3 + p4));
    }
}

/// A room listing filter with no field present adds no pair, so its query
/// string is empty.
pub proof fn rooms_request_absent_fields_add_nothing(r: RoomsRequest)
    requires
        r.start_index is None,
        r.max_results is None,
        r.include_private is None,
        r.include_archived is None,
    ensures
        r.query_pairs() == Seq::<(Seq<char>, Seq<char>)>::empty(),
        query_text(r.query_pairs()) == Seq::<char>::empty(),
{
    assert(r.query_pairs() =~= Seq::<(Seq<char>, Seq<char>)>::empty());
}

/// A room listing filter with every field present adds exactly one pair per
/// field, in declared order, under its hyphenated key: numbers in decimal,
/// flags as `true` or `false`, texts as given.
pub proof fn rooms_request_present_fields_in_order(r: RoomsRequest)
    requires
        r.start_index is Some,
        r.max_results is Some,
        r.include_private is Some,
        r.include_archived is Some,
    ensures
        r.query_pairs() == seq![
            ("start-index"@, decimal_text(r.start_index.unwrap() as nat)),
            ("max-results"@, decimal_text(r.max_results.unwrap() as nat)),
            ("include-private"@, flag_text(r.include_private.unwrap())),
            ("include-archived"@, flag_text(r.include_archived.unwrap())),
        ],
{
    assert(r.query_pairs() =~= seq![
        ("start-index"@, decimal_text(r.start_index.unwrap() as nat)),
            ("max-results"@, decimal_text(r.max_results.unwrap() as nat)),
            ("include-private"@, flag_text(r.include_private.unwrap())),
            ("include-archived"@, flag_text(r.include_archived.unwrap())),
    ]);
}

/// One page of the room listing.
#[derive(Debug, Hash, PartialEq, Eq)]
pub struct Rooms {
    /// Sent as `startIndex`.
    pub start_index: u64,
    /// Sent as `maxResults`.
    pub max_results: u64,
    pub items: Vec<Room>,
    pub links: RoomsLinks,
}

impl FromJson for Rooms {
    open spec fn decodes_to(j: Json, v: Rooms) -> bool {
        &&& j is Object
        &&& field_is(j, "startIndex"@, v.start_index)
        &&& field_is(j, "maxResults"@, v.max_results)
        &&& list_field_is(j, "items"@, v.items@)
        &&& field_is(j, "links"@, v.links)
    }

    fn from_json(j: &Json) -> (r: Result<Rooms, Error>) {
        expect_object(j, "rooms")?;
        let start_index = field(j, "startIndex")?;
        let max_results = field(j, "maxResults")?;
        let items = list_field(j, "items")?;
        let links = field(j, "links")?;
        Ok(Rooms { start_index, max_results, items, links })
    }
}

/// The links of a room listing; `prev` and `next` are pagination cursors.
#[derive(Debug, Hash, PartialEq, Eq)]
pub struct RoomsLinks {
    /// Sent as `self`.
    pub self_: String,
    pub prev: Option<String>,
    pub next: Option<String>,
}

impl FromJson for RoomsLinks {
    open spec fn decodes_to(j: Json, v: RoomsLinks) -> bool {
        &&& j is Object
        &&& field_is(j, "self"@, v.self_)
        &&& opt_field_is(j, "prev"@, v.prev)
        &&& opt_field_is(j, "next"@, v.next)
    }

    fn from_json(j: &Json) -> (r: Result<RoomsLinks, Error>) {
        expect_object(j, "rooms links")?;
        let self_ = field(j, "self")?;
        let prev = opt_field(j, "prev")?;
        let next = opt_field(j, "next")?;
        Ok(RoomsLinks { self_, prev, next })
    }
}

/// A room as the listing shows it.
#[derive(Debug, Hash, PartialEq, Eq)]
pub struct Room {
    pub name: String,
    pub id: u64,
    pub links: RoomDetailLinks,
}

impl FromJson for Room {
    open spec fn decodes_to(j: Json, v: Room) -> bool {
        &&& j is Object
        &&& field_is(j, "name"@, v.name)
        &&& field_is(j, "id"@, v.id)
        &&& field_is(j, "links"@, v.links)
    }

    fn from_json(j: &Json) -> (r: Result<Room, Error>) {
        expect_object(j, "room")?;
        let name = field(j, "name")?;
        let id = field(j, "id")?;
        let links = field(j, "links")?;
        Ok(Room { name, id, links })
    }
}

/// A room in full.
#[derive(Debug, Hash, PartialEq, Eq)]
pub struct RoomDetail {
    pub xmpp_jid: String,
    pub statistics: RoomDetailStatistics,
    pub name: String,
    pub links: RoomDetailLinks,
    pub created: String,
    pub is_archived: bool,
    pub privacy: Privacy,
    pub is_guest_accessible: bool,
    pub topic: String,
    pub avatar_url: Option<String>,
    pub id: u64,
    pub guest_access_url: Option<String>,
}

impl FromJson for RoomDetail {
    open spec fn decodes_to(j: Json, v: RoomDetail) -> bool {
        &&& j is Object
        &&& field_is(j, "xmpp_jid"@, v.xmpp_jid)
        &&& field_is(j, "statistics"@, v.statistics)
        &&& field_is(j, "name"@, v.name)
        &&& field_is(j, "links"@, v.links)
        &&& field_is(j, "created"@, v.created)
        &&& field_is(j, "is_archived"@, v.is_archived)
        &&& field_is(j, "privacy"@, v.privacy)
        &&& field_is(j, "is_guest_accessible"@, v.is_guest_accessible)
        &&& field_is(j, "topic"@, v.topic)
        &&& opt_field_is(j, "avatar_url"@, v.avatar_url)
        &&& field_is(j, "id"@, v.id)
        &&& opt_field_is(j, "guest_access_url"@, v.guest_access_url)
    }

    fn from_json(j: &Json) -> (r: Result<RoomDetail, Error>) {
        expect_object(j, "room detail")?;
        let xmpp_jid = field(j, "xmpp_jid")?;
        let statistics = field(j, "statistics")?;
        let name = field(j, "name")?;
        let links = field(j, "links")?;
        let created = field(j, "created")?;
        let is_archived = field(j, "is_archived")?;
        let privacy = field(j, "privacy")?;
        let is_guest_accessible = field(j, "is_guest_accessible")?;
        let topic = field(j, "topic")?;
        let avatar_url = opt_field(j, "avatar_url")?;
        let id = field(j, "id")?;
        let guest_access_url = opt_field(j, "guest_access_url")?;
        Ok(
            RoomDetail {
                xmpp_jid,
                statistics,
                name,
                links,
                created,
                is_archived,
                privacy,
                is_guest_accessible,
                topic,
                avatar_url,
                id,
                guest_access_url,
            },
        )
    }
}

/// The statistics of a room: where to find them.
#[derive(Debug, Hash, PartialEq, Eq)]
pub struct RoomDetailStatistics {
    pub links: RoomDetailStatisticsLinks,
}

impl FromJson for RoomDetailStatistics {
    open spec fn decodes_to(j: Json, v: RoomDetailStatistics) -> bool {
        &&& j is Object
        &&& field_is(j, "links"@, v.links)
    }

    fn from_json(j: &Json) -> (r: Result<RoomDetailStatistics, Error>) {
        expect_object(j, "room statistics")?;
        let links = field(j, "links")?;
        Ok(RoomDetailStatistics { links })
    }
}

/// The links of a room's statistics.
#[derive(Debug, Hash, PartialEq, Eq)]
pub struct RoomDetailStatisticsLinks {
    /// Sent as `self`.
    pub self_: String,
}

impl FromJson for RoomDetailStatisticsLinks {
    open spec fn decodes_to(j: Json, v: RoomDetailStatisticsLinks) -> bool {
        &&& j is Object
        &&& field_is(j, "self"@, v.self_)
    }

    fn from_json(j: &Json) -> (r: Result<RoomDetailStatisticsLinks, Error>) {
        expect_object(j, "room statistics links")?;
        let self_ = field(j, "self")?;
        Ok(RoomDetailStatisticsLinks { self_ })
    }
}

/// The links of a room.
#[derive(Debug, Hash, PartialEq, Eq)]
pub struct RoomDetailLinks {
    /// Sent as `self`.
    pub self_: String,
    pub webhooks: String,
    pub members: Option<String>,
    pub participants: String,
}

impl FromJson for RoomDetailLinks {
    open spec fn decodes_to(j: Json, v: RoomDetailLinks) -> bool {
        &&& j is Object
        &&& field_is(j, "self"@, v.self_)
        &&& field_is(j, "webhooks"@, v.webhooks)
        &&& opt_field_is(j, "members"@, v.members)
        &&& field_is(j, "participants"@, v.participants)
    }

    fn from_json(j: &Json) -> (r: Result<RoomDetailLinks, Error>) {
        expect_object(j, "room links")?;
        let self_ = field(j, "self")?;
        let webhooks = field(j, "webhooks")?;
        let members = opt_field(j, "members")?;
        let participants = field(j, "participants")?;
        Ok(RoomDetailLinks { self_, webhooks, members, participants })
    }
}

/// The owner of a room.
#[derive(Debug, Hash, PartialEq, Eq)]
pub struct RoomDetailOwner {
    pub mention_name: String,
    pub id: u64,
    pub links: RoomDetailOwnerLinks,
    pub name: String,
}

impl FromJson for RoomDetailOwner {
    open spec fn decodes_to(j: Json, v: RoomDetailOwner) -> bool {
        &&& j is Object
        &&& field_is(j, "mention_name"@, v.mention_name)
        &&& field_is(j, "id"@, v.id)
        &&& field_is(j, "links"@, v.links)
        &&& field_is(j, "name"@, v.name)
    }

    fn from_json(j: &Json) -> (r: Result<RoomDetailOwner, Error>) {
        expect_object(j, "room owner")?;
        let mention_name = field(j, "mention_name")?;
        let id = field(j, "id")?;
        let links = field(j, "links")?;
        let name = field(j, "name")?;
        Ok(RoomDetailOwner { mention_name, id, links, name })
    }
}

/// The links of a room's owner.
#[derive(Debug, Hash, PartialEq, Eq)]
pub struct RoomDetailOwnerLinks {
    /// Sent as `self`.
    pub self_: String,
}

impl FromJson for RoomDetailOwnerLinks {
    open spec fn decodes_to(j: Json, v: RoomDetailOwnerLinks) -> bool {
        &&& j is Object
        &&& field_is(j, "self"@, v.self_)
    }

    fn from_json(j: &Json) -> (r: Result<RoomDetailOwnerLinks, Error>) {
        expect_object(j, "room owner links")?;
        let self_ = field(j, "self")?;
        Ok(RoomDetailOwnerLinks { self_ })
    }
}

/// The JSON string of a text, where present.
pub open spec fn opt_quoted(o: Option<String>) -> Option<Seq<char>> {
    match o {
        Some(s) => Some(json_quoted(s@)),
        None => None,
    }
}

/// Writes a text as a JSON string, where present.
fn quote_opt(o: &Option<String>) -> (r: Option<String>)
    ensures
        opt_text(r) == opt_quoted(*o),
{
    match o {
        Some(s) => Some(string_json(s.as_str())),
        None => None,
    }
}

/// A change to a room: each field present is set, each absent one is left as
/// it is and is not sent.
#[derive(Debug, Hash, PartialEq, Eq)]
pub struct RoomUpdate {
    pub name: Option<String>,
    pub privacy: Option<Privacy>,
    pub is_archived: Option<bool>,
    pub is_guest_accessible: Option<bool>,
    pub topic: Option<String>,
    pub owner: Option<RoomUpdateOwner>,
}

/// The new owner of a room.
#[derive(Debug, Hash, PartialEq, Eq)]
pub struct RoomUpdateOwner {
    pub id: Option<String>,
}

impl RoomUpdateOwner {
    /// The members of the JSON object sent for the owner: (key, encoded value).
    pub open spec fn members(&self) -> Seq<(Seq<char>, Seq<char>)> {
        opt_pair("id"@, opt_quoted(self.id))
    }

    /// The JSON object sent for the owner.
    pub fn to_json(&self) -> (r: String)
        ensures
            r@ == object_text(self.members()),
    {
        let mut ms: Vec<(String, String)> = Vec::new();
        let id = quote_opt(&self.id);
        push_opt_text(&mut ms, "id", &id);
        assert(ms.deep_view() =~= self.members());
        object_json(&ms)
    }
}

/// The JSON string of a privacy, where present.
pub open spec fn opt_privacy_json(o: Option<Privacy>) -> Option<Seq<char>> {
    match o {
        Some(p) => Some(json_quoted(p.wire())),
        None => None,
    }
}

/// The JSON object of an owner, where present.
pub open spec fn opt_owner_json(o: Option<RoomUpdateOwner>) -> Option<Seq<char>> {
    match o {
        Some(w) => Some(object_text(w.members())),
        None => None,
    }
}

impl RoomUpdate {
    /// The members of the JSON body, (key, encoded value), one for each field
    /// that is present, in declared order.
    pub open spec fn members(&self) -> Seq<(Seq<char>, Seq<char>)> {
        opt_pair("name"@, opt_quoted(self.name)) + opt_pair("privacy"@, opt_privacy_json(self.privacy)) + opt_pair("is_archived"@, opt_flag(self.is_archived)) + opt_pair(
            "is_guest_accessible"@,
            opt_flag(self.is_guest_accessible),
        ) + opt_pair("topic"@, opt_quoted(self.topic)) + opt_pair("owner"@, opt_owner_json(self.owner))
    }

    /// The JSON body of the update.
    pub fn to_json(&self) -> (r: String)
        ensures
            r@ == object_text(self.members()),
    {
        let mut ms: Vec<(String, String)> = Vec::new();
        let ghost p1 = opt_pair("name"@, opt_quoted(self.name));
        let ghost p2 = opt_pair("privacy"@, opt_privacy_json(self.privacy));
        let ghost p3 = opt_pair("is_archived"@, opt_flag(self.is_archived));
        let ghost p4 = opt_pair("is_guest_accessible"@, opt_flag(self.is_guest_accessible));
        let ghost p5 = opt_pair("topic"@, opt_quoted(self.topic));
        let ghost p6 = opt_pair("owner"@, opt_owner_json(self.owner));
        let name = quote_opt(&self.name);
        push_opt_text(&mut ms, "name", &name);
        assert(ms.deep_view() =~= p1);
        let privacy = match self.privacy {
            Some(p) => Some(p.to_json()),
            None => None,
        };
        push_opt_text(&mut ms, "privacy", &privacy);
        assert(ms.deep_view() =~= p1 + p2);
        push_opt_flag(&mut ms, "is_archived", self.is_archived);
        push_opt_flag(&mut ms, "is_guest_accessible", self.is_guest_accessible);
        assert(ms.deep_view() =~= p1 + p2 + p3 + p4);
        let topic = quote_opt(&self.topic);
        push_opt_text(&mut ms, "topic", &topic);
        assert(ms.deep_view() =~= p1 + p2 + p3 + p4 + p5);
        let owner = match &self.owner {
            Some(o) => Some(o.to_json()),
            None => None,
        };
        push_opt_text(&mut ms, "owner", &owner);
        assert(ms.deep_view() =~= p1 + p2 + p3 + p4 + p5 + p6);
        object_json(&ms)
    }
}

/// Whether some member of `ms` has the key `k`.
pub open spec fn has_key(ms: Seq<(Seq<char>, Seq<char>)>, k: Seq<char>) -> bool {
    exists|i: int| 0 <= i < ms.len() && (#[trigger] ms[i]).0 == k
}

/// The body of an update has a member for a field exactly when the field is
/// present: an absent field is left out, never sent as `null`.
pub proof fn room_update_omits_absent(u: RoomUpdate)
    ensures
        has_key(u.members(), "name"@) <==> u.name is Some,
        has_key(u.members(), "privacy"@) <==> u.privacy is Some,
        has_key(u.members(), "is_archived"@) <==> u.is_archived is Some,
        has_key(u.members(), "is_guest_accessible"@) <==> u.is_guest_accessible is Some,
        has_key(u.members(), "topic"@) <==> u.topic is Some,
        has_key(u.members(), "owner"@) <==> u.owner is Some,
{
    reveal_strlit("name");
    reveal_strlit("privacy");
    reveal_strlit("is_archived");
    reveal_strlit("is_guest_accessible");
    reveal_strlit("topic");
    reveal_strlit("owner");
    assert("name"@[0] == 'n' && "privacy"@[0] == 'p' && "topic"@[0] == 't');
    assert("owner"@[0] == 'o' && "is_archived"@[0] == 'i' && "is_guest_accessible"@[0] == 'i');
    assert("is_archived"@[3] == 'a' && "is_guest_accessible"@[3] == 'g');
    let ms = u.members();
    assert forall|i: int| 0 <= i < ms.len() implies (ms[i].0 == "name"@ ==> u.name is Some) && (
    ms[i].0 == "privacy"@ ==> u.privacy is Some) && (ms[i].0 == "is_archived"@
        ==> u.is_archived is Some) && (ms[i].0 == "is_guest_accessible"@
        ==> u.is_guest_accessible is Some) && (ms[i].0 == "topic"@ ==> u.topic is Some) && (
    ms[i].0 == "owner"@ ==> u.owner is Some) by {
        let k = ms[i].0;
        assert(k == "name"@ || k == "privacy"@ || k == "is_archived"@ || k
            == "is_guest_accessible"@ || k == "topic"@ || k == "owner"@);
    }
    let n1: int = opt_pair("name"@, opt_quoted(u.name)).len() as int;
    let n2: int = n1 + opt_pair("privacy"@, opt_privacy_json(u.privacy)).len();
    let n3: int = n2 + opt_pair("is_archived"@, opt_flag(u.is_archived)).len();
    let n4: int = n3 + opt_pair("is_guest_accessible"@, opt_flag(u.is_guest_accessible)).len();
    let n5: int = n4 + opt_pair("topic"@, opt_quoted(u.topic)).len();
    if u.name is Some {
        assert(ms[0].0 == "name"@);
    }
    if u.privacy is Some {
        assert(ms[n1].0 == "privacy"@);
    }
    if u.is_archived is Some {
        assert(ms[n2].0 == "is_archived"@);
    }
    if u.is_guest_accessible is Some {
        assert(ms[n3].0 == "is_guest_accessible"@);
    }
    if u.topic is Some {
        assert(ms[n4].0 == "topic"@);
    }
    if u.owner is Some {
        assert(ms[n5].0 == "owner"@);
    }
}

/// A message posted to a room by an integration.
#[derive(Debug, Hash, PartialEq, Eq)]
pub struct Notification {
    pub color: Color,
    pub message: String,
    pub notify: bool,
    pub message_format: MessageFormat,
}

impl Notification {
    /// The members of the JSON body: (key, encoded value), every field, in
    /// declared order.
    pub open spec fn members(&self) -> Seq<(Seq<char>, Seq<char>)> {
        seq![
            ("color"@, json_quoted(self.color.wire())),
            ("message"@, json_quoted(self.message@)),
            ("notify"@, flag_text(self.notify)),
            ("message_format"@, json_quoted(self.message_format.wire())),
        ]
    }

    /// The JSON body of the notification.
    pub fn to_json(&self) -> (r: String)
        ensures
            r@ == object_text(self.members()),
    {
        let mut ms: Vec<(String, String)> = Vec::new();
        push_pair(&mut ms, "color", self.color.to_json());
        push_pair(&mut ms, "message", string_json(self.message.as_str()));
        push_pair(&mut ms, "notify", bool_text(self.notify));
        push_pair(&mut ms, "message_format", self.message_format.to_json());
        assert(ms.deep_view() =~= self.members());
        object_json(&ms)
    }
}

/// A notification left at its defaults is sent as a yellow HTML message that
/// does not notify: every member is present, none is `null`.
pub proof fn notification_default_members(n: Notification)
    requires
        n.color == Color::Yellow,
        n.message@ == Seq::<char>::empty(),
        !n.notify,
        n.message_format == MessageFormat::Html,
    ensures
        n.members() == seq![
            ("color"@, json_quoted("yellow"@)),
            ("message"@, json_quoted(Seq::<char>::empty())),
            ("notify"@, "false"@),
            ("message_format"@, json_quoted("html"@)),
        ],
{
}

impl Default for Notification {
    /// A yellow HTML notification with an empty text that does not notify.
    fn default() -> (r: Notification)
        ensures
            r.color == Color::Yellow,
            r.message@ == Seq::<char>::empty(),
            !r.notify,
            r.message_format == MessageFormat::Html,
    {
        Notification {
            color: Color::Yellow,
            message: String::new(),
            notify: false,
            message_format: MessageFormat::Html,
        }
    }
}

} // verus!
