//! Records of the collaboration server's database and the rules that turn
//! stored contact rows into a user's contact list.
use vstd::prelude::*;
use vstd::string::StrSliceExecFns;
use crate::text::push_char;

verus! {

/// A user's id.
#[derive(Clone, Copy, Debug, Default, PartialEq, Eq, Structural, PartialOrd, Ord, Hash)]
pub struct UserId(pub i32);

/// A room's id.
#[derive(Clone, Copy, Debug, Default, PartialEq, Eq, Structural, PartialOrd, Ord, Hash)]
pub struct RoomId(pub i32);

/// A project's id.
#[derive(Clone, Copy, Debug, Default, PartialEq, Eq, Structural, PartialOrd, Ord, Hash)]
pub struct ProjectId(pub i32);

/// An organization's id.
#[derive(Clone, Copy, Debug, Default, PartialEq, Eq, Structural, PartialOrd, Ord, Hash)]
pub struct OrgId(pub i32);

/// A channel's id.
#[derive(Clone, Copy, Debug, Default, PartialEq, Eq, Structural, PartialOrd, Ord, Hash)]
pub struct ChannelId(pub i32);

/// A channel message's id.
#[derive(Clone, Copy, Debug, Default, PartialEq, Eq, Structural, PartialOrd, Ord, Hash)]
pub struct MessageId(pub i32);

impl UserId {
    /// The id whose wire form is `value`: its low 32 bits.
    pub fn from_proto(value: u64) -> (id: Self)
        ensures
            id.0 == value as i32,
    {
        Self(value as i32)
    }

    /// The wire form of the id: the id sign-extended to 64 bits.
    pub fn to_proto(self) -> (v: u64)
        ensures
            v == self.0 as u64,
    {
        self.0 as u64
    }
}

impl RoomId {
    pub fn from_proto(value: u64) -> (id: Self)
        ensures
            id.0 == value as i32,
    {
        Self(value as i32)
    }

    pub fn to_proto(self) -> (v: u64)
        ensures
            v == self.0 as u64,
    {
        self.0 as u64
    }
}

impl ProjectId {
    pub fn from_proto(value: u64) -> (id: Self)
        ensures
            id.0 == value as i32,
    {
        Self(value as i32)
    }

    pub fn to_proto(self) -> (v: u64)
        ensures
            v == self.0 as u64,
    {
        self.0 as u64
    }
}

impl OrgId {
    pub fn from_proto(value: u64) -> (id: Self)
        ensures
            id.0 == value as i32,
    {
        Self(value as i32)
    }

    pub fn to_proto(self) -> (v: u64)
        ensures
            v == self.0 as u64,
    {
        self.0 as u64
    }
}

impl ChannelId {
    pub fn from_proto(value: u64) -> (id: Self)
        ensures
            id.0 == value as i32,
    {
        Self(value as i32)
    }

    pub fn to_proto(self) -> (v: u64)
        ensures
            v == self.0 as u64,
    {
        self.0 as u64
    }
}

impl MessageId {
    pub fn from_proto(value: u64) -> (id: Self)
        ensures
            id.0 == value as i32,
    {
        Self(value as i32)
    }

    pub fn to_proto(self) -> (v: u64)
        ensures
            v == self.0 as u64,
    {
        self.0 as u64
    }
}

/// A registered user.
pub struct User {
    pub id: UserId,
    pub github_login: String,
    pub github_user_id: Option<i32>,
    pub email_address: Option<String>,
    pub admin: bool,
    pub invite_code: Option<String>,
    pub invite_count: i32,
    pub connected_once: bool,
}

/// A call room.
pub struct Room {
    pub id: RoomId,
    pub version: i32,
    pub live_kit_room: String,
}

/// A user taking part in a room.
pub struct RoomParticipant {
    pub room_id: RoomId,
    pub user_id: UserId,
    pub location_kind: Option<i32>,
    pub location_project_id: Option<ProjectId>,
    pub connection_id: Option<i32>,
}

/// A pending or answered call.
pub struct Call {
    pub room_id: RoomId,
    pub calling_user_id: UserId,
    pub called_user_id: UserId,
    pub answering_connection_id: Option<i32>,
    pub initial_project_id: Option<ProjectId>,
}

/// A shared project.
pub struct Project {
    pub id: ProjectId,
    pub host_user_id: UserId,
    pub unregistered: bool,
}

/// A user's activity over a period.
pub struct UserActivitySummary {
    pub id: UserId,
    pub github_login: String,
    pub project_activity: Vec<ProjectActivitySummary>,
}

/// The activity in one project over a period.
pub struct ProjectActivitySummary {
    pub id: ProjectId,
    pub duration: std::time::Duration,
    pub max_collaborators: usize,
}

/// An organization.
pub struct Org {
    pub id: OrgId,
    pub name: String,
    pub slug: String,
}

/// A chat channel.
pub struct Channel {
    pub id: ChannelId,
    pub name: String,
    pub owner_id: i32,
    pub owner_is_user: bool,
}

/// A user's relation to one other user.
#[derive(Clone, Copy, Debug, PartialEq, Eq, Structural)]
pub enum Contact {
    /// Both users accepted.
    Accepted { user_id: UserId, should_notify: bool },
    /// The user asked the other, who has not answered.
    Outgoing { user_id: UserId },
    /// The other user asked, and the user has not answered.
    Incoming { user_id: UserId, should_notify: bool },
}

/// The other user of a contact.
pub open spec fn contact_user(c: Contact) -> UserId {
    match c {
        Contact::Accepted { user_id, .. } => user_id,
        Contact::Outgoing { user_id } => user_id,
        Contact::Incoming { user_id, .. } => user_id,
    }
}

impl Contact {
    /// The other user of the contact.
    pub fn user_id(&self) -> (id: UserId)
        ensures
            id == contact_user(*self),
    {
        match self {
            Contact::Accepted { user_id, .. } => *user_id,
            Contact::Outgoing { user_id } => *user_id,
            Contact::Incoming { user_id, .. } => *user_id,
        }
    }
}

/// A request to become contacts, as the one asked sees it.
pub struct IncomingContactRequest {
    pub requester_id: UserId,
    pub should_notify: bool,
}

/// A waitlist sign-up.
pub struct Signup {
    pub email_address: String,
    pub platform_mac: bool,
    pub platform_windows: bool,
    pub platform_linux: bool,
    pub editor_features: Vec<String>,
    pub programming_languages: Vec<String>,
    pub device_id: Option<String>,
}

/// Counts of the waitlist by platform.
pub struct WaitlistSummary {
    pub count: i64,
    pub linux_count: i64,
    pub mac_count: i64,
    pub windows_count: i64,
    pub unknown_count: i64,
}

/// An invitation sent by email.
pub struct Invite {
    pub email_address: String,
    pub email_confirmation_code: String,
}

/// What is needed to create a user.
pub struct NewUserParams {
    pub github_login: String,
    pub github_user_id: i32,
    pub invite_count: i32,
}

/// What creating a user gives back.
pub struct NewUserResult {
    pub user_id: UserId,
    pub metrics_id: String,
    pub inviting_user_id: Option<UserId>,
    pub signup_device_id: Option<String>,
}

/// A stored contact row: the smaller id `a`, the larger id `b`, whether `a`
/// asked `b`, whether the request was accepted, and whether to notify.
pub struct ContactRow {
    pub user_id_a: UserId,
    pub user_id_b: UserId,
    pub a_to_b: bool,
    pub accepted: bool,
    pub should_notify: bool,
}

/// The contact that a stored row gives the user `me`.
pub open spec fn spec_contact_from_row(me: UserId, row: ContactRow) -> Contact {
    if row.user_id_a == me {
        if row.accepted {
            Contact::Accepted { user_id: row.user_id_b, should_notify: row.should_notify && row.a_to_b }
        } else if row.a_to_b {
            Contact::Outgoing { user_id: row.user_id_b }
        } else {
            Contact::Incoming { user_id: row.user_id_b, should_notify: row.should_notify }
        }
    } else if row.accepted {
        Contact::Accepted { user_id: row.user_id_a, should_notify: row.should_notify && !row.a_to_b }
    } else if row.a_to_b {
        Contact::Incoming { user_id: row.user_id_a, should_notify: row.should_notify }
    } else {
        Contact::Outgoing { user_id: row.user_id_a }
    }
}

/// The contact that a stored row gives the user `me`.
pub fn contact_from_row(me: UserId, row: &ContactRow) -> (c: Contact)
    ensures
        c == spec_contact_from_row(me, *row),
{
    if row.user_id_a.0 == me.0 {
        if row.accepted {
            Contact::Accepted { user_id: row.user_id_b, should_notify: row.should_notify && row.a_to_b }
        } else if row.a_to_b {
            Contact::Outgoing { user_id: row.user_id_b }
        } else {
            Contact::Incoming { user_id: row.user_id_b, should_notify: row.should_notify }
        }
    } else if row.accepted {
        Contact::Accepted { user_id: row.user_id_a, should_notify: row.should_notify && !row.a_to_b }
    } else if row.a_to_b {
        Contact::Incoming { user_id: row.user_id_a, should_notify: row.should_notify }
    } else {
        Contact::Outgoing { user_id: row.user_id_a }
    }
}

/// The contacts sorted by the other user's id.
pub open spec fn contacts_sorted(c: Seq<Contact>) -> bool {
    forall|i: int, j: int| 0 <= i < j < c.len() ==> contact_user(c[i]).0 <= contact_user(c[j]).0
}

/// The contacts that the rows give `me`, in row order.
pub open spec fn contacts_of_rows(me: UserId, rows: Seq<ContactRow>) -> Seq<Contact> {
    rows.map_values(|r: ContactRow| spec_contact_from_row(me, r))
}

/// The user `me`'s contacts from the stored rows that involve `me`, sorted
/// by the other user's id.
pub fn contacts_from_rows(me: UserId, rows: &Vec<ContactRow>) -> (c: Vec<Contact>)
    ensures
        contacts_sorted(c@),
        c@.to_multiset() == contacts_of_rows(me, rows@).to_multiset(),
{
    let ghost all = contacts_of_rows(me, rows@);
    let mut out: Vec<Contact> = Vec::new();
    let mut i: usize = 0;
    proof {
        broadcast use vstd::seq_lib::group_to_multiset_ensures;

        assert(all.take(0) =~= Seq::<Contact>::empty());
        assert(out@ =~= Seq::<Contact>::empty());
    }
    while i < rows.len()
        invariant
            i <= rows.len(),
            all == contacts_of_rows(me, rows@),
            contacts_sorted(out@),
            out@.to_multiset() == all.take(i as int).to_multiset(),
        decreases rows.len() - i,
    {
        let contact = contact_from_row(me, &rows[i]);
        let key = contact.user_id().0;
        let mut pos: usize = 0;
        while pos < out.len() && out[pos].user_id().0 <= key
            invariant
                pos <= out.len(),
                forall|k: int| 0 <= k < pos ==> contact_user(out@[k]).0 <= key,
            decreases out.len() - pos,
        {
            pos += 1;
        }
        let ghost before = out@;
        out.insert(pos, contact);
        proof {
            broadcast use vstd::seq_lib::group_to_multiset_ensures;

            assert(out@ == before.insert(pos as int, contact));
            assert(all.take(i + 1) =~= all.take(i as int).push(all[i as int]));
            assert(all[i as int] == contact);
            assert forall|a: int, b: int| 0 <= a < b < out@.len() implies contact_user(out@[a]).0
                <= contact_user(out@[b]).0 by {
                if b < pos {
                } else if b == pos {
                } else if a == pos {
                    assert(out@[b] == before[b - 1]);
                } else if a < pos {
                    assert(out@[b] == before[b - 1]);
                } else {
                    assert(out@[b] == before[b - 1]);
                    assert(out@[a] == before[a - 1]);
                }
            }
        }
        i += 1;
    }
    assert(all.take(rows.len() as int) =~= all);
    out
}

/// The stored form of "`sender` asks `receiver`": the smaller id, the
/// larger id, and whether the smaller one asked.
pub open spec fn spec_request_key(sender_id: UserId, receiver_id: UserId) -> (UserId, UserId, bool) {
    if sender_id.0 < receiver_id.0 {
        (sender_id, receiver_id, true)
    } else {
        (receiver_id, sender_id, false)
    }
}

/// The stored form of the pair of `requester` and `responder`, smaller id
/// first.
pub open spec fn spec_pair_key(requester_id: UserId, responder_id: UserId) -> (UserId, UserId) {
    if responder_id.0 < requester_id.0 {
        (responder_id, requester_id)
    } else {
        (requester_id, responder_id)
    }
}

/// The stored form of the request that `responder` answers: the smaller
/// id, the larger id, and whether the smaller one (the requester) asked.
pub open spec fn spec_response_key(responder_id: UserId, requester_id: UserId) -> (UserId, UserId, bool) {
    if responder_id.0 < requester_id.0 {
        (responder_id, requester_id, false)
    } else {
        (requester_id, responder_id, true)
    }
}

/// The row that sending a request writes.
pub fn contact_request_key(sender_id: UserId, receiver_id: UserId) -> (k: (UserId, UserId, bool))
    ensures
        k == spec_request_key(sender_id, receiver_id),
{
    if sender_id.0 < receiver_id.0 {
        (sender_id, receiver_id, true)
    } else {
        (receiver_id, sender_id, false)
    }
}

/// The row of a pair of users, whichever asked.
pub fn contact_pair_key(requester_id: UserId, responder_id: UserId) -> (k: (UserId, UserId))
    ensures
        k == spec_pair_key(requester_id, responder_id),
{
    if responder_id.0 < requester_id.0 {
        (responder_id, requester_id)
    } else {
        (requester_id, responder_id)
    }
}

/// The row that answering a request looks for.
pub fn contact_response_key(responder_id: UserId, requester_id: UserId) -> (k: (UserId, UserId, bool))
    ensures
        k == spec_response_key(responder_id, requester_id),
{
    if responder_id.0 < requester_id.0 {
        (responder_id, requester_id, false)
    } else {
        (requester_id, responder_id, true)
    }
}

/// A request is found by the one it was sent to: the row that answering
/// looks for is the row that sending wrote, and its pair of ids is the
/// pair's row, for two different users.
pub proof fn lemma_response_finds_request(sender_id: UserId, receiver_id: UserId)
    requires
        sender_id != receiver_id,
    ensures
        spec_response_key(receiver_id, sender_id) == spec_request_key(sender_id, receiver_id),
        (spec_request_key(sender_id, receiver_id).0, spec_request_key(sender_id, receiver_id).1)
            == spec_pair_key(sender_id, receiver_id),
        spec_pair_key(sender_id, receiver_id) == spec_pair_key(receiver_id, sender_id),
{
}

/// A stored row gives each of its two users a contact that names the other
/// one.
pub proof fn lemma_contact_names_the_other(me: UserId, row: ContactRow)
    requires
        row.user_id_a == me || row.user_id_b == me,
        row.user_id_a != row.user_id_b,
    ensures
        contact_user(spec_contact_from_row(me, row)) == if row.user_id_a == me {
            row.user_id_b
        } else {
            row.user_id_a
        },
{
}

/// Whether `me` sent the contact request that the row records: the row is
/// written from `user_id_a`'s side, and `a_to_b` says that side asked.
pub open spec fn requested_by(me: UserId, row: ContactRow) -> bool {
    row.a_to_b == (row.user_id_a == me)
}

/// A row gives an accepted contact exactly when it is accepted; a pending
/// request is outgoing for the user who sent it and incoming for the other;
/// an acceptance is announced only to the user who sent the request, and a
/// request only to the user who received it, each where the row asks for
/// a notification.
pub proof fn lemma_contact_notifies_the_right_side(me: UserId, row: ContactRow)
    ensures
        match spec_contact_from_row(me, row) {
            Contact::Accepted { should_notify, .. } => row.accepted && (should_notify <==> (
            row.should_notify && requested_by(me, row))),
            Contact::Outgoing { .. } => !row.accepted && requested_by(me, row),
            Contact::Incoming { should_notify, .. } => !row.accepted && !requested_by(me, row)
                && should_notify == row.should_notify,
        },
{
}

/// Sending an id over the wire and reading it back gives the id.
pub proof fn lemma_user_id_wire_round_trip(id: UserId)
    ensures
        ((id.0 as u64) as i32) == id.0,
{
    let x = id.0;
    assert(((x as u64) as i32) == x) by (bit_vector);
}

/// `char::is_alphanumeric` of `c`: whether `c` has the Unicode `Alphabetic`
/// or `Numeric` property.
pub uninterp spec fn char_alphanumeric(c: char) -> bool;

/// `char::is_alphanumeric`: the result is the property named
/// `char_alphanumeric`; the Unicode tables themselves are not restated.
#[verifier::external_body]
fn is_alphanumeric(c: char) -> (r: bool)
    ensures
        r == char_alphanumeric(c),
{
    c.is_alphanumeric()
}

/// `%` before each alphanumeric character among the first `n` of `s`, with
/// the others left out.
pub open spec fn like_pattern_prefix(s: Seq<char>, n: int) -> Seq<char>
    decreases n,
{
    if n <= 0 {
        Seq::empty()
    } else if char_alphanumeric(s[n - 1]) {
        like_pattern_prefix(s, n - 1) + seq!['%', s[n - 1]]
    } else {
        like_pattern_prefix(s, n - 1)
    }
}

/// The SQL `LIKE` pattern that matches any text holding the alphanumeric
/// characters of `string` in order: `%` before each of them and at the end.
pub fn fuzzy_like_string(string: &str) -> (r: String)
    ensures
        r@ == like_pattern_prefix(string@, string@.len() as int).push('%'),
{
    let mut result = String::new();
    let len = string.unicode_len();
    let mut i: usize = 0;
    while i < len
        invariant
            i <= len,
            len == string@.len(),
            result@ == like_pattern_prefix(string@, i as int),
        decreases len - i,
    {
        let c = string.get_char(i);
        if is_alphanumeric(c) {
            push_char(&mut result, '%');
            push_char(&mut result, c);
            assert(result@ =~= like_pattern_prefix(string@, i + 1));
        }
        i += 1;
    }
    push_char(&mut result, '%');
    result
}

} // verus!
