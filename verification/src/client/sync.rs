//! `GET /sync`: the events the homeserver holds for the user, as one
//! answer or as an endless stream of answers.
use vstd::prelude::*;
use vstd::string::*;
use vstd::utf8::*;
use crate::error::RixError;
use crate::http::{Headers, HttpRequest, Method};
use crate::text::string_from_utf8;

verus! {

/// One event: its JSON content, its type, who sent it, and the room it
/// belongs to.
#[derive(Debug, Clone)]
pub struct Event {
    pub content: serde_json::Value,
    pub event_type: String,
    pub sender: Option<String>,
    pub room: Option<String>,
}

/// A list of events.
#[derive(Debug)]
pub struct EventContainer {
    pub events: Vec<Event>,
}

/// What a sync holds for one room.
#[derive(Debug)]
pub struct GroupSyncResult {
    pub timeline: Option<EventContainer>,
    pub ephemeral: Option<EventContainer>,
}

/// The rooms of one kind (left, joined or invited), each with its id.
/// The answer keys them by id, so no id occurs twice.
pub type GroupSyncContainer = Vec<(String, GroupSyncResult)>;

/// The rooms of a sync, by kind.
#[derive(Debug)]
pub struct GroupsSyncResult {
    pub leave: GroupSyncContainer,
    pub join: GroupSyncContainer,
    pub invite: GroupSyncContainer,
}

/// One answer to a sync.
#[derive(Debug)]
pub struct SyncResult {
    pub next_batch: String,
    pub presence: EventContainer,
    pub rooms: GroupsSyncResult,
}

/// No room id occurs twice in a list of rooms (the answer keys rooms by
/// id).
pub open spec fn room_ids_distinct(c: Seq<(String, GroupSyncResult)>) -> bool {
    forall|i: int, j: int|
        0 <= i < c.len() && 0 <= j < c.len() && i != j ==> (#[trigger] c[i]).0@ != (#[trigger] c[j]).0@
}

impl SyncResult {
    /// Each kind of rooms holds each room id at most once.
    pub open spec fn wf(&self) -> bool {
        &&& room_ids_distinct(self.rooms.leave@)
        &&& room_ids_distinct(self.rooms.join@)
        &&& room_ids_distinct(self.rooms.invite@)
    }
}

// ---------------------------------------------------------------------
// The events of an answer, in order
// ---------------------------------------------------------------------

/// The events of an optional list.
pub open spec fn opt_events(c: Option<EventContainer>) -> Seq<Event> {
    match c {
        Some(c) => c.events@,
        None => Seq::empty(),
    }
}

/// The events of one room: its timeline, then its ephemeral events.
pub open spec fn room_events(g: GroupSyncResult) -> Seq<Event> {
    opt_events(g.timeline) + opt_events(g.ephemeral)
}

/// The events of a list of rooms, room after room.
pub open spec fn rooms_events(c: Seq<(String, GroupSyncResult)>) -> Seq<Event>
    decreases c.len(),
{
    if c.len() == 0 {
        Seq::empty()
    } else {
        rooms_events(c.drop_last()) + room_events(c.last().1)
    }
}

/// The events of an answer: presence, then the left, joined and invited
/// rooms.
pub open spec fn sync_events(r: SyncResult) -> Seq<Event> {
    r.presence.events@ + rooms_events(r.rooms.leave@) + rooms_events(r.rooms.join@) + rooms_events(
        r.rooms.invite@,
    )
}

/// How many events an optional list holds.
pub open spec fn listed_count(c: Option<EventContainer>) -> nat {
    match c {
        Some(c) => c.events@.len(),
        None => 0,
    }
}

/// How many events the rooms of a list hold together, timeline and
/// ephemeral events alike.
pub open spec fn rooms_event_count(c: Seq<(String, GroupSyncResult)>) -> nat
    decreases c.len(),
{
    if c.len() == 0 {
        0
    } else {
        rooms_event_count(c.drop_last()) + listed_count(c.last().1.timeline) + listed_count(
            c.last().1.ephemeral,
        )
    }
}

/// The events listed for a room are exactly its timeline events, then
/// its ephemeral events: as many as both lists hold, the k-th timeline
/// event at place k and the k-th ephemeral event right after the
/// timeline, whatever their fields.
pub proof fn lemma_room_events_exact(g: GroupSyncResult)
    ensures
        room_events(g).len() == listed_count(g.timeline) + listed_count(g.ephemeral),
        g.timeline matches Some(t) ==> forall|k: int|
            0 <= k < t.events@.len() ==> room_events(g)[k] == #[trigger] t.events@[k],
        g.ephemeral matches Some(e) ==> forall|k: int|
            0 <= k < e.events@.len() ==> room_events(g)[listed_count(g.timeline) + k]
                == #[trigger] e.events@[k],
{
}

/// A list of rooms lists as many events as its rooms hold together.
pub proof fn lemma_rooms_event_count(c: Seq<(String, GroupSyncResult)>)
    ensures
        rooms_events(c).len() == rooms_event_count(c),
    decreases c.len(),
{
    if c.len() > 0 {
        lemma_rooms_event_count(c.drop_last());
        lemma_room_events_exact(c.last().1);
    }
}

/// The events that a list of references points at.
pub open spec fn deref_events(v: Seq<&Event>) -> Seq<Event> {
    v.map_values(|e: &Event| *e)
}

/// References to the events of a list, in order.
fn push_events<'a>(out: &mut Vec<&'a Event>, events: &'a Vec<Event>)
    ensures
        deref_events(final(out)@) == deref_events(old(out)@) + events@,
{
    let ghost start = deref_events(out@);
    for i in 0..events.len()
        invariant
            deref_events(out@) == start + events@.take(i as int),
    {
        let ghost prev = out@;
        out.push(&events[i]);
        proof {
            assert(deref_events(out@) =~= deref_events(prev).push(events@[i as int]));
            assert(events@.take(i + 1) =~= events@.take(i as int).push(events@[i as int]));
            assert(deref_events(out@) =~= start + events@.take(i + 1));
        }
    }
    proof {
        assert(events@.take(events@.len() as int) =~= events@);
    }
}

/// References to the events of a list of rooms: for each room, its
/// timeline, then its ephemeral events.
fn group_events<'a>(container: &'a GroupSyncContainer) -> (res: Vec<&'a Event>)
    ensures
        deref_events(res@) == rooms_events(container@),
{
    let mut res: Vec<&'a Event> = Vec::new();
    for i in 0..container.len()
        invariant
            deref_events(res@) == rooms_events(container@.take(i as int)),
    {
        let group = &container[i].1;
        if let Some(timeline) = &group.timeline {
            push_events(&mut res, &timeline.events);
        }
        if let Some(ephemeral) = &group.ephemeral {
            push_events(&mut res, &ephemeral.events);
        }
        proof {
            assert(container@.take(i + 1).drop_last() =~= container@.take(i as int));
            assert(deref_events(res@) =~= rooms_events(container@.take(i + 1)));
        }
    }
    proof {
        assert(container@.take(container@.len() as int) =~= container@);
    }
    res
}

impl SyncResult {
    /// All events of the answer: presence, then the left, joined and
    /// invited rooms, each room's timeline before its ephemeral events.
    pub fn events<'a>(&'a self) -> (res: Vec<&'a Event>)
        ensures
            deref_events(res@) == sync_events(*self),
            res@.len() == self.presence.events@.len() + rooms_event_count(self.rooms.leave@)
                + rooms_event_count(self.rooms.join@) + rooms_event_count(self.rooms.invite@),
    {
        proof {
            lemma_rooms_event_count(self.rooms.leave@);
            lemma_rooms_event_count(self.rooms.join@);
            lemma_rooms_event_count(self.rooms.invite@);
        }
        let mut res: Vec<&'a Event> = Vec::new();
        push_events(&mut res, &self.presence.events);
        let mut leave = group_events(&self.rooms.leave);
        let mut join = group_events(&self.rooms.join);
        let mut invite = group_events(&self.rooms.invite);
        let ghost (r0, l, j, v) = (res@, leave@, join@, invite@);
        res.append(&mut leave);
        res.append(&mut join);
        res.append(&mut invite);
        proof {
            assert(res@ =~= r0 + l + j + v);
            assert(deref_events(r0 + l + j + v) =~= deref_events(r0) + deref_events(l)
                + deref_events(j) + deref_events(v));
        }
        res
    }
}

// ---------------------------------------------------------------------
// Room ids
// ---------------------------------------------------------------------

/// The event names the room `id` as its room.
pub open spec fn names_room(e: Event, id: Seq<char>) -> bool {
    e.room matches Some(r) && r@ == id
}

/// `after` is `before` with its room set to `id`.
pub open spec fn event_filled(before: Event, after: Event, id: Seq<char>) -> bool {
    &&& after.content == before.content
    &&& after.event_type == before.event_type
    &&& after.sender == before.sender
    &&& names_room(after, id)
}

/// `after` is `before` with the room of each event set to `id`.
pub open spec fn events_filled(before: Seq<Event>, after: Seq<Event>, id: Seq<char>) -> bool {
    &&& after.len() == before.len()
    &&& forall|i: int| 0 <= i < before.len() ==> event_filled(before[i], #[trigger] after[i], id)
}

/// The same, for an optional list.
pub open spec fn opt_filled(before: Option<EventContainer>, after: Option<EventContainer>, id: Seq<
    char,
>) -> bool {
    match (before, after) {
        (None, None) => true,
        (Some(b), Some(a)) => events_filled(b.events@, a.events@, id),
        _ => false,
    }
}

/// The same, for a room's timeline and ephemeral events.
pub open spec fn room_filled(before: GroupSyncResult, after: GroupSyncResult, id: Seq<char>) -> bool {
    &&& opt_filled(before.timeline, after.timeline, id)
    &&& opt_filled(before.ephemeral, after.ephemeral, id)
}

/// The same, for a list of rooms, each with its own id; the ids stay.
pub open spec fn rooms_filled(
    before: Seq<(String, GroupSyncResult)>,
    after: Seq<(String, GroupSyncResult)>,
) -> bool {
    &&& after.len() == before.len()
    &&& forall|i: int|
        0 <= i < before.len() ==> (#[trigger] after[i]).0 == before[i].0 && room_filled(
            before[i].1,
            after[i].1,
            before[i].0@,
        )
}

/// The same, for all the rooms of a sync.
pub open spec fn groups_filled(before: GroupsSyncResult, after: GroupsSyncResult) -> bool {
    &&& rooms_filled(before.leave@, after.leave@)
    &&& rooms_filled(before.join@, after.join@)
    &&& rooms_filled(before.invite@, after.invite@)
}

/// Every event of the list names the room `id`.
pub open spec fn events_named(events: Seq<Event>, id: Seq<char>) -> bool {
    forall|k: int| 0 <= k < events.len() ==> names_room(#[trigger] events[k], id)
}

/// The same, for an optional list.
pub open spec fn opt_named(c: Option<EventContainer>, id: Seq<char>) -> bool {
    match c {
        Some(c) => events_named(c.events@, id),
        None => true,
    }
}

/// Every event of the room names the room `id`.
pub open spec fn room_named(g: GroupSyncResult, id: Seq<char>) -> bool {
    opt_named(g.timeline, id) && opt_named(g.ephemeral, id)
}

/// Every event of every room of the list names its room.
pub open spec fn rooms_named(c: Seq<(String, GroupSyncResult)>) -> bool {
    forall|i: int| 0 <= i < c.len() ==> room_named(#[trigger] c[i].1, c[i].0@)
}

/// Every room event of a sync names its room.
pub open spec fn groups_named(g: GroupsSyncResult) -> bool {
    &&& rooms_named(g.leave@)
    &&& rooms_named(g.join@)
    &&& rooms_named(g.invite@)
}

/// Whether the event's room is `target`, by text.
fn event_names(e: &Event, target: &String) -> (named: bool)
    ensures
        named == names_room(*e, target@),
{
    match &e.room {
        Some(r) => *r == *target,
        None => false,
    }
}

/// Whether every event of the list names the room `id`.
fn events_named_exec(events: &Vec<Event>, id: &str) -> (named: bool)
    ensures
        named == events_named(events@, id@),
{
    let target = String::from_str(id);
    for k in 0..events.len()
        invariant
            target@ == id@,
            forall|j: int| 0 <= j < k ==> names_room(#[trigger] events@[j], id@),
    {
        if !event_names(&events[k], &target) {
            return false;
        }
    }
    true
}

/// Whether every event of the room names the room `id`.
fn room_named_exec(g: &GroupSyncResult, id: &str) -> (named: bool)
    ensures
        named == room_named(*g, id@),
{
    let timeline_named = match &g.timeline {
        Some(c) => events_named_exec(&c.events, id),
        None => true,
    };
    let ephemeral_named = match &g.ephemeral {
        Some(c) => events_named_exec(&c.events, id),
        None => true,
    };
    timeline_named && ephemeral_named
}

/// Sets the room of every event of `container` to `id`; an event whose
/// room is already `id` is left as it is, so a list whose events all name
/// `id` does not change.
fn fill_group_result(id: &str, container: &mut EventContainer)
    ensures
        events_filled(old(container).events@, final(container).events@, id@),
        events_named(old(container).events@, id@) ==> *final(container) == *old(container),
{
    let ghost before = container.events@;
    let target = String::from_str(id);
    let n = container.events.len();
    for i in 0..n
        invariant
            n == before.len(),
            target@ == id@,
            container.events@.len() == before.len(),
            forall|k: int| 0 <= k < i ==> event_filled(before[k], #[trigger] container.events@[k], id@),
            forall|k: int| i <= k < before.len() ==> #[trigger] container.events@[k] == before[k],
            events_named(before, id@) ==> *container == *old(container),
    {
        if !event_names(&container.events[i], &target) {
            container.events[i].room = Some(target.clone());
        }
    }
}

/// Sets the room of every event of every room of `container` to the
/// room's id; a room whose events all name it is left as it is.
fn fill_group_container(container: &mut GroupSyncContainer)
    ensures
        rooms_filled(old(container)@, final(container)@),
        rooms_named(old(container)@) ==> *final(container) == *old(container),
{
    let ghost before = container@;
    let n = container.len();
    for i in 0..n
        invariant
            n == before.len(),
            container@.len() == before.len(),
            forall|k: int|
                0 <= k < i ==> (#[trigger] container@[k]).0 == before[k].0 && room_filled(
                    before[k].1,
                    container@[k].1,
                    before[k].0@,
                ),
            forall|k: int| i <= k < before.len() ==> #[trigger] container@[k] == before[k],
            rooms_named(before) ==> *container == *old(container),
    {
        let named = room_named_exec(&container[i].1, container[i].0.as_str());
        if named {
            proof {
                let g = container@[i as int].1;
                let id = container@[i as int].0@;
                match g.timeline {
                    Some(c) => {
                        assert(events_filled(c.events@, c.events@, id));
                    },
                    None => {},
                }
                match g.ephemeral {
                    Some(c) => {
                        assert(events_filled(c.events@, c.events@, id));
                    },
                    None => {},
                }
            }
        } else {
            proof {
                assert(!rooms_named(before));
            }
            let entry = &mut container[i];
            let id: &str = entry.0.as_str();
            if let Some(timeline) = &mut entry.1.timeline {
                fill_group_result(id, timeline);
            }
            if let Some(ephemeral) = &mut entry.1.ephemeral {
                fill_group_result(id, ephemeral);
            }
        }
    }
}

/// Every event of a filled list names the room.
proof fn lemma_filled_events_named(before: Seq<Event>, after: Seq<Event>, id: Seq<char>)
    requires
        events_filled(before, after, id),
    ensures
        events_named(after, id),
{
    assert forall|k: int| 0 <= k < after.len() implies names_room(#[trigger] after[k], id) by {
        assert(event_filled(before[k], after[k], id));
    }
}

/// Every room event of a filled list of rooms names its room.
proof fn lemma_filled_rooms_named(
    before: Seq<(String, GroupSyncResult)>,
    after: Seq<(String, GroupSyncResult)>,
)
    requires
        rooms_filled(before, after),
    ensures
        rooms_named(after),
{
    assert forall|i: int| 0 <= i < after.len() implies room_named(#[trigger] after[i].1, after[i].0@) by {
        assert(room_filled(before[i].1, after[i].1, before[i].0@));
        match (before[i].1.timeline, after[i].1.timeline) {
            (Some(b), Some(a)) => lemma_filled_events_named(b.events@, a.events@, before[i].0@),
            _ => {},
        }
        match (before[i].1.ephemeral, after[i].1.ephemeral) {
            (Some(b), Some(a)) => lemma_filled_events_named(b.events@, a.events@, before[i].0@),
            _ => {},
        }
    }
}

/// Sets the room of every room event of a sync to the room's id. Filling
/// twice gives what filling once gives: after a fill every room event
/// names its room, and a sync whose room events all do is left as it is.
fn fill_groups_result(result: &mut GroupsSyncResult)
    ensures
        groups_filled(*old(result), *final(result)),
        groups_named(*final(result)),
        groups_named(*old(result)) ==> *final(result) == *old(result),
{
    fill_group_container(&mut result.leave);
    fill_group_container(&mut result.join);
    fill_group_container(&mut result.invite);
    proof {
        lemma_filled_rooms_named(old(result).leave@, result.leave@);
        lemma_filled_rooms_named(old(result).join@, result.join@);
        lemma_filled_rooms_named(old(result).invite@, result.invite@);
    }
}

// ---------------------------------------------------------------------
// One sync
// ---------------------------------------------------------------------

/// The URI of a sync: from the start when there is no `since` token,
/// otherwise from that token, waiting up to thirty seconds for news.
pub open spec fn sync_uri(host: Seq<char>, token: Seq<char>, since: Option<Seq<char>>) -> Seq<char> {
    host + "/_matrix/client/r0/sync?access_token="@ + token + match since {
        Some(s) => "&since="@ + s + "&timeout=30000"@,
        None => Seq::<char>::empty(),
    }
}

/// The URI of a first sync is the homeserver, then the sync path with
/// `?access_token=`, then the whole access token, and nothing more.
pub proof fn lemma_sync_uri_carries_token(host: Seq<char>, token: Seq<char>)
    ensures
        ({
            let u = sync_uri(host, token, None);
            let path = "/_matrix/client/r0/sync?access_token="@;
            &&& u.len() == host.len() + path.len() + token.len()
            &&& crate::text::stands_at(u, 0, host)
            &&& crate::text::stands_at(u, host.len() as int, path)
            &&& crate::text::stands_at(u, host.len() + path.len() as int, token)
        }),
{
    let u = sync_uri(host, token, None);
    let path = "/_matrix/client/r0/sync?access_token="@;
    let a = host.len() as int;
    let b = a + path.len();
    assert(u =~= host + path + token);
    assert(u.subrange(0, a) =~= host);
    assert(u.subrange(a, b) =~= path);
    assert(u.subrange(b, b + token.len()) =~= token);
}

/// A sync from a batch asks what a first sync asks, followed by
/// `&since=`, the batch, and `&timeout=30000`.
pub proof fn lemma_sync_uri_from_batch(host: Seq<char>, token: Seq<char>, since: Seq<char>)
    ensures
        sync_uri(host, token, Some(since)) == sync_uri(host, token, None) + "&since="@ + since
            + "&timeout=30000"@,
{
    assert(sync_uri(host, token, None) =~= host + "/_matrix/client/r0/sync?access_token="@ + token);
    assert(sync_uri(host, token, Some(since)) =~= sync_uri(host, token, None) + "&since="@ + since
        + "&timeout=30000"@);
}

/// The request of a sync: a bare `GET` of `sync_uri` with an empty body.
pub fn sync_request(host: &str, token: &str, since: Option<String>) -> (req: HttpRequest)
    ensures
        req.method == Method::Get,
        req.uri@ == sync_uri(host@, token@, crate::text::opt_view(since)),
        since is None ==> crate::text::stands_at(req.uri@, req.uri@.len() - token@.len(), token@),
        req.headers is Bare,
        req.body@ == Seq::<u8>::empty(),
{
    proof {
        lemma_sync_uri_carries_token(host@, token@);
    }
    let mut uri = String::from_str(host);
    uri.append("/_matrix/client/r0/sync?access_token=");
    uri.append(token);
    match since {
        Some(s) => {
            uri.append("&since=");
            uri.append(s.as_str());
            uri.append("&timeout=30000");
        },
        None => {
            assert(uri@ =~= uri@ + Seq::<char>::empty());
        },
    }
    HttpRequest { method: Method::Get, uri, headers: Headers::Bare, body: Vec::new() }
}

/// The text of a sync answer, whatever its status: the body must be
/// UTF-8, else the UTF-8 error.
pub fn sync_body_text(body: Vec<u8>) -> (res: Result<String, RixError>)
    ensures
        valid_utf8(body@) ==> (res matches Ok(t) && t@ == decode_utf8(body@)),
        !valid_utf8(body@) ==> res matches Err(RixError::UTF8(_)),
{
    match string_from_utf8(body) {
        Ok(text) => Ok(text),
        Err(e) => Err(RixError::UTF8(e)),
    }
}

/// The answer to a sync, from that text read as JSON: the JSON error, or
/// the answer with the room of each room event set to its room's id. An
/// answer whose room events already name their rooms comes back as it
/// is, so reading an answer a second time changes nothing.
pub fn sync_response(parsed: Result<SyncResult, serde_json::Error>) -> (res: Result<
    SyncResult,
    RixError,
>)
    ensures
        match parsed {
            Ok(r) => res matches Ok(f) && f.next_batch == r.next_batch && f.presence
                == r.presence && groups_filled(r.rooms, f.rooms) && groups_named(f.rooms) && (
                groups_named(r.rooms) ==> f == r) && (r.wf() ==> f.wf()),
            Err(e) => res matches Err(RixError::JSON(f)) && f == e,
        },
{
    match parsed {
        Ok(mut body) => {
            fill_groups_result(&mut body.rooms);
            Ok(body)
        },
        Err(e) => Err(RixError::JSON(e)),
    }
}

/// Every event of a filled room names that room.
proof fn lemma_filled_room_names(before: GroupSyncResult, after: GroupSyncResult, id: Seq<char>)
    requires
        room_filled(before, after, id),
    ensures
        forall|j: int| 0 <= j < room_events(after).len() ==> names_room(#[trigger] room_events(after)[j], id),
{
    assert forall|j: int| 0 <= j < room_events(after).len() implies names_room(
        #[trigger] room_events(after)[j],
        id,
    ) by {
        let t = opt_events(after.timeline);
        if j < t.len() {
            assert(room_events(after)[j] == t[j]);
            match (before.timeline, after.timeline) {
                (Some(bt), Some(gt)) => {
                    assert(event_filled(bt.events@[j], gt.events@[j], id));
                },
                _ => {},
            }
        } else {
            let k = j - t.len();
            assert(room_events(after)[j] == opt_events(after.ephemeral)[k]);
            match (before.ephemeral, after.ephemeral) {
                (Some(be), Some(ge)) => {
                    assert(event_filled(be.events@[k], ge.events@[k], id));
                },
                _ => {},
            }
        }
    }
}

/// Every room event of a finished sync names its room: in each list of
/// rooms, each event of a room's timeline and ephemeral events has the
/// room's id as its room.
pub proof fn lemma_room_events_name_their_room(
    before: Seq<(String, GroupSyncResult)>,
    after: Seq<(String, GroupSyncResult)>,
)
    requires
        rooms_filled(before, after),
    ensures
        forall|i: int, j: int|
            0 <= i < after.len() && 0 <= j < room_events(after[i].1).len() ==> names_room(
                #[trigger] room_events(after[i].1)[j],
                after[i].0@,
            ),
{
    assert forall|i: int, j: int|
        0 <= i < after.len() && 0 <= j < room_events(after[i].1).len() implies names_room(
        #[trigger] room_events(after[i].1)[j],
        after[i].0@,
    ) by {
        assert(room_filled(before[i].1, after[i].1, before[i].0@));
        lemma_filled_room_names(before[i].1, after[i].1, before[i].0@);
    }
}

/// The id of the room under which each event of a list of rooms is
/// listed, event by event, in the order of `rooms_events`.
pub open spec fn rooms_event_ids(c: Seq<(String, GroupSyncResult)>) -> Seq<Seq<char>>
    decreases c.len(),
{
    if c.len() == 0 {
        Seq::empty()
    } else {
        rooms_event_ids(c.drop_last()) + Seq::new(
            room_events(c.last().1).len(),
            |_j: int| c.last().0@,
        )
    }
}

/// The id of the room under which each event of an answer after its
/// presence events is listed, in the order of `sync_events`.
pub open spec fn sync_event_rooms(r: SyncResult) -> Seq<Seq<char>> {
    rooms_event_ids(r.rooms.leave@) + rooms_event_ids(r.rooms.join@) + rooms_event_ids(
        r.rooms.invite@,
    )
}

/// In a filled list of rooms, each listed event names the room it is
/// listed under.
proof fn lemma_rooms_events_name(
    before: Seq<(String, GroupSyncResult)>,
    after: Seq<(String, GroupSyncResult)>,
)
    requires
        rooms_filled(before, after),
    ensures
        rooms_event_ids(after).len() == rooms_events(after).len(),
        forall|j: int|
            0 <= j < rooms_events(after).len() ==> names_room(
                #[trigger] rooms_events(after)[j],
                rooms_event_ids(after)[j],
            ),
    decreases after.len(),
{
    if after.len() > 0 {
        let n = after.len() - 1;
        let bl = before.drop_last();
        let al = after.drop_last();
        assert(rooms_filled(bl, al)) by {
            assert forall|i: int| 0 <= i < bl.len() implies (#[trigger] al[i]).0 == bl[i].0
                && room_filled(bl[i].1, al[i].1, bl[i].0@) by {
                assert(al[i] == after[i] && bl[i] == before[i]);
            }
        }
        lemma_rooms_events_name(bl, al);
        assert(after[n].0 == before[n].0 && room_filled(before[n].1, after[n].1, before[n].0@));
        lemma_filled_room_names(before[n].1, after[n].1, before[n].0@);
        let head = rooms_events(al);
        let last = room_events(after.last().1);
        assert forall|j: int| 0 <= j < rooms_events(after).len() implies names_room(
            #[trigger] rooms_events(after)[j],
            rooms_event_ids(after)[j],
        ) by {
            if j < head.len() {
                assert(rooms_events(after)[j] == head[j]);
                assert(rooms_event_ids(after)[j] == rooms_event_ids(al)[j]);
            } else {
                assert(rooms_events(after)[j] == last[j - head.len()]);
                assert(rooms_event_ids(after)[j] == after.last().0@);
            }
        }
    }
}

/// Every event that `events` lists after the presence events names the
/// room under which the answer listed it, once the sync is finished.
pub proof fn lemma_listed_events_name_their_room(before: GroupsSyncResult, r: SyncResult)
    requires
        groups_filled(before, r.rooms),
    ensures
        sync_events(r).len() == r.presence.events@.len() + sync_event_rooms(r).len(),
        forall|j: int|
            0 <= j < sync_event_rooms(r).len() ==> names_room(
                #[trigger] sync_events(r)[r.presence.events@.len() + j],
                sync_event_rooms(r)[j],
            ),
{
    lemma_rooms_events_name(before.leave@, r.rooms.leave@);
    lemma_rooms_events_name(before.join@, r.rooms.join@);
    lemma_rooms_events_name(before.invite@, r.rooms.invite@);
    let p = r.presence.events@;
    let l = rooms_events(r.rooms.leave@);
    let jn = rooms_events(r.rooms.join@);
    let v = rooms_events(r.rooms.invite@);
    let li = rooms_event_ids(r.rooms.leave@);
    let ji = rooms_event_ids(r.rooms.join@);
    let vi = rooms_event_ids(r.rooms.invite@);
    assert forall|j: int| 0 <= j < sync_event_rooms(r).len() implies names_room(
        #[trigger] sync_events(r)[p.len() + j],
        sync_event_rooms(r)[j],
    ) by {
        assert(sync_events(r) == p + l + jn + v);
        if j < l.len() {
            assert(sync_events(r)[p.len() + j] == l[j]);
            assert(sync_event_rooms(r)[j] == li[j]);
        } else if j < l.len() + jn.len() {
            assert(sync_events(r)[p.len() + j] == jn[j - l.len()]);
            assert(sync_event_rooms(r)[j] == ji[j - l.len()]);
        } else {
            assert(sync_events(r)[p.len() + j] == v[j - l.len() - jn.len()]);
            assert(sync_event_rooms(r)[j] == vi[j - l.len() - jn.len()]);
        }
    }
}

// ---------------------------------------------------------------------
// The stream of syncs
// ---------------------------------------------------------------------

/// An endless series of syncs, each one continuing from where the one
/// before ended.
pub struct SyncStream {
    host: String,
    token: String,
    since: Option<String>,
}

/// What came of polling the sync in flight.
pub enum SyncPoll {
    /// It answered.
    Ready(SyncResult),
    /// It has not answered yet.
    NotReady,
    /// It failed.
    Failed(RixError),
}

/// What the stream gives for one poll.
pub enum StreamPoll {
    /// The next answer; the next sync is to start now.
    Item(SyncResult),
    /// Nothing yet.
    NotReady,
    /// The sync in flight failed.
    Failed(RixError),
}

/// A stream of syncs for `host` and `token`, starting from nothing.
pub fn sync_stream(host: &str, access_token: &str) -> (s: SyncStream)
    ensures
        s.host_view() == host@,
        s.token_view() == access_token@,
        s.since_token() == None::<Seq<char>>,
{
    SyncStream {
        host: String::from_str(host),
        token: String::from_str(access_token),
        since: None,
    }
}

impl SyncStream {
    /// The homeserver the stream asks.
    pub closed spec fn host_view(&self) -> Seq<char> {
        self.host@
    }

    /// The access token the stream uses.
    pub closed spec fn token_view(&self) -> Seq<char> {
        self.token@
    }

    /// The batch the next sync starts from, if any.
    pub closed spec fn since_token(&self) -> Option<Seq<char>> {
        crate::text::opt_view(self.since)
    }

    /// The URI of the sync that the stream runs next.
    pub open spec fn next_uri(&self) -> Seq<char> {
        sync_uri(self.host_view(), self.token_view(), self.since_token())
    }

    /// The request of the sync that the stream runs next.
    pub fn next_request(&self) -> (req: HttpRequest)
        ensures
            req.method == Method::Get,
            req.uri@ == self.next_uri(),
            req.headers is Bare,
            req.body@ == Seq::<u8>::empty(),
    {
        let since = match &self.since {
            Some(s) => Some(s.clone()),
            None => None,
        };
        sync_request(self.host.as_str(), self.token.as_str(), since)
    }

    /// One step of the stream. An answer is handed on, and the next sync
    /// starts from its `next_batch`; a sync that has not answered gives
    /// nothing and a failed one gives its error, and both leave the
    /// stream as it was.
    pub fn on_poll(&mut self, outcome: SyncPoll) -> (res: StreamPoll)
        ensures
            final(self).host_view() == old(self).host_view(),
            final(self).token_view() == old(self).token_view(),
            match outcome {
                SyncPoll::Ready(item) => res matches StreamPoll::Item(r) && r == item
                    && final(self).since_token() == Some(item.next_batch@),
                SyncPoll::NotReady => res is NotReady && final(self).since_token() == old(
                    self,
                ).since_token(),
                SyncPoll::Failed(e) => res matches StreamPoll::Failed(f) && f == e
                    && final(self).since_token() == old(self).since_token(),
            },
    {
        match outcome {
            SyncPoll::Ready(item) => {
                self.since = Some(item.next_batch.clone());
                StreamPoll::Item(item)
            },
            SyncPoll::NotReady => StreamPoll::NotReady,
            SyncPoll::Failed(e) => StreamPoll::Failed(e),
        }
    }
}

/// The first sync of a stream starts from nothing, and after the stream
/// hands on an answer, its next sync starts from that answer's
/// `next_batch` and waits for news.
pub proof fn lemma_stream_continues_from_last_batch(s: SyncStream, t: SyncStream, item: SyncResult)
    requires
        t.host_view() == s.host_view(),
        t.token_view() == s.token_view(),
        t.since_token() == Some(item.next_batch@),
    ensures
        t.next_uri() == s.host_view() + "/_matrix/client/r0/sync?access_token="@ + s.token_view()
            + "&since="@ + item.next_batch@ + "&timeout=30000"@,
{
    assert(t.next_uri() =~= s.host_view() + "/_matrix/client/r0/sync?access_token="@
        + s.token_view() + "&since="@ + item.next_batch@ + "&timeout=30000"@);
}

} // verus!
