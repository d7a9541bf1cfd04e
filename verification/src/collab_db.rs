//! The decisions of the collaboration server's database transactions.
//! Each transaction alternates queries with decisions on their results; the
//! queries are run around this module, which decides what to do next and
//! what the transaction answers.
use vstd::prelude::*;
use crate::collab::{NewUserResult, Room, RoomId, User, UserId};

verus! {

/// Why a transaction was refused.
#[derive(Clone, Copy, Debug, PartialEq, Eq, Structural)]
pub enum DbError {
    /// No sign-up matches the invite's email address and code (404).
    NoSuchInvite,
    /// No user has the invite code (404).
    InviteCodeNotFound,
    /// The inviting user has no invites left (401).
    NoInvitesRemaining,
    /// A user already has the email address.
    EmailInUse,
}

impl DbError {
    /// The HTTP status of the refusal, where it has one.
    pub fn status(&self) -> (s: Option<u16>)
        ensures
            s == match *self {
                DbError::NoSuchInvite => Some(404u16),
                DbError::InviteCodeNotFound => Some(404u16),
                DbError::NoInvitesRemaining => Some(401u16),
                DbError::EmailInUse => None::<u16>,
            },
    {
        match self {
            DbError::NoSuchInvite => Some(404),
            DbError::InviteCodeNotFound => Some(404),
            DbError::NoInvitesRemaining => Some(401),
            DbError::EmailInUse => None,
        }
    }

    /// The message of the refusal.
    pub fn message(&self) -> (m: &'static str)
        ensures
            m@ == match *self {
                DbError::NoSuchInvite => "no such invite"@,
                DbError::InviteCodeNotFound => "invite code not found"@,
                DbError::NoInvitesRemaining => "no invites remaining"@,
                DbError::EmailInUse => "email address is already in use"@,
            },
    {
        match self {
            DbError::NoSuchInvite => "no such invite",
            DbError::InviteCodeNotFound => "invite code not found",
            DbError::NoInvitesRemaining => "no invites remaining",
            DbError::EmailInUse => "email address is already in use",
        }
    }
}

/// A participant of a room as the server describes it: the user and the
/// peer it is connected as.
#[derive(Clone, Copy, Debug, PartialEq, Eq, Structural)]
pub struct Participant {
    pub user_id: u64,
    pub peer_id: u32,
}

/// A room as the server describes it to clients.
pub struct RoomSnapshot {
    pub id: u64,
    pub version: u64,
    pub live_kit_room: String,
    pub participants: Vec<Participant>,
    pub pending_participant_user_ids: Vec<u64>,
}

/// The participants among the first `n` rows: those connected, with their
/// connection as peer.
pub open spec fn connected_participants(rows: Seq<(UserId, Option<i32>)>, n: int) -> Seq<Participant>
    decreases n,
{
    if n <= 0 {
        Seq::empty()
    } else {
        match rows[n - 1].1 {
            Some(c) => connected_participants(rows, n - 1).push(
                Participant { user_id: rows[n - 1].0.0 as u64, peer_id: c as u32 },
            ),
            None => connected_participants(rows, n - 1),
        }
    }
}

/// The users among the first `n` rows that are not connected yet.
pub open spec fn pending_users(rows: Seq<(UserId, Option<i32>)>, n: int) -> Seq<u64>
    decreases n,
{
    if n <= 0 {
        Seq::empty()
    } else {
        match rows[n - 1].1 {
            Some(_) => pending_users(rows, n - 1),
            None => pending_users(rows, n - 1).push(rows[n - 1].0.0 as u64),
        }
    }
}

/// The room as clients see it, from the room's row and its participant
/// rows (user and connection, if connected): the connected users are its
/// participants, the others are pending, both in row order.
pub fn room_snapshot(room: &Room, rows: &Vec<(UserId, Option<i32>)>) -> (s: RoomSnapshot)
    ensures
        s.id == room.id.0 as u64,
        s.version == room.version as u64,
        s.live_kit_room@ == room.live_kit_room@,
        s.participants@ == connected_participants(rows@, rows@.len() as int),
        s.pending_participant_user_ids@ == pending_users(rows@, rows@.len() as int),
{
    let mut participants: Vec<Participant> = Vec::new();
    let mut pending: Vec<u64> = Vec::new();
    let mut i: usize = 0;
    while i < rows.len()
        invariant
            i <= rows.len(),
            participants@ == connected_participants(rows@, i as int),
            pending@ == pending_users(rows@, i as int),
        decreases rows.len() - i,
    {
        let (user_id, connection_id) = rows[i];
        match connection_id {
            Some(c) => participants.push(
                Participant { user_id: user_id.to_proto(), peer_id: c as u32 },
            ),
            None => pending.push(user_id.to_proto()),
        }
        i += 1;
    }
    RoomSnapshot {
        id: room.id.to_proto(),
        version: room.version as u64,
        live_kit_room: room.live_kit_room.clone(),
        participants,
        pending_participant_user_ids: pending,
    }
}

/// Why a change to a contact was refused.
#[derive(Clone, Copy, Debug, PartialEq, Eq, Structural)]
pub enum ContactError {
    /// The request was sent before, or the two are contacts already.
    AlreadyRequested,
    /// The two users are not contacts.
    NoSuchContact,
    /// There is no such request to answer or dismiss.
    NoSuchContactRequest,
}

/// Sending a contact request: it took where exactly one row was written.
pub fn send_request_outcome(rows_affected: u64) -> (r: Result<(), ContactError>)
    ensures
        r == if rows_affected == 1 {
            Ok::<(), ContactError>(())
        } else {
            Err(ContactError::AlreadyRequested)
        },
{
    if rows_affected == 1 {
        Ok(())
    } else {
        Err(ContactError::AlreadyRequested)
    }
}

/// Removing a contact: it took where exactly one row was deleted.
pub fn remove_contact_outcome(rows_affected: u64) -> (r: Result<(), ContactError>)
    ensures
        r == if rows_affected == 1 {
            Ok::<(), ContactError>(())
        } else {
            Err(ContactError::NoSuchContact)
        },
{
    if rows_affected == 1 {
        Ok(())
    } else {
        Err(ContactError::NoSuchContact)
    }
}

/// Answering a contact request: it took where exactly one row changed.
pub fn respond_outcome(rows_affected: u64) -> (r: Result<(), ContactError>)
    ensures
        r == if rows_affected == 1 {
            Ok::<(), ContactError>(())
        } else {
            Err(ContactError::NoSuchContactRequest)
        },
{
    if rows_affected == 1 {
        Ok(())
    } else {
        Err(ContactError::NoSuchContactRequest)
    }
}

/// Dismissing a notification: it took where some row changed.
pub fn dismiss_outcome(rows_affected: u64) -> (r: Result<(), ContactError>)
    ensures
        r == if rows_affected == 0 {
            Err::<(), ContactError>(ContactError::NoSuchContactRequest)
        } else {
            Ok(())
        },
{
    if rows_affected == 0 {
        Err(ContactError::NoSuchContactRequest)
    } else {
        Ok(())
    }
}

/// Each participant row is either a participant or pending in the
/// snapshot, never both.
pub proof fn lemma_snapshot_partitions_rows(rows: Seq<(UserId, Option<i32>)>, n: int)
    requires
        0 <= n <= rows.len(),
    ensures
        connected_participants(rows, n).len() + pending_users(rows, n).len() == n,
    decreases n,
{
    if n > 0 {
        lemma_snapshot_partitions_rows(rows, n - 1);
    }
}

/// Creating an invite for an email address: refused where a user already
/// has the address.
pub fn check_email_unused(existing_user: Option<UserId>) -> (r: Result<(), DbError>)
    ensures
        r == if existing_user is Some {
            Err::<(), DbError>(DbError::EmailInUse)
        } else {
            Ok::<(), DbError>(())
        },
{
    match existing_user {
        Some(_) => Err(DbError::EmailInUse),
        None => Ok(()),
    }
}

/// Creating an invite from an invite code: the inviting user, given the
/// user that has the code and their invite count, if any.
pub fn check_inviter(row: Option<(UserId, i32)>) -> (r: Result<UserId, DbError>)
    ensures
        r == match row {
            None => Err::<UserId, DbError>(DbError::InviteCodeNotFound),
            Some((id, count)) => if count == 0 {
                Err::<UserId, DbError>(DbError::NoInvitesRemaining)
            } else {
                Ok::<UserId, DbError>(id)
            },
        },
{
    match row {
        None => Err(DbError::InviteCodeNotFound),
        Some((id, count)) => {
            if count == 0 {
                Err(DbError::NoInvitesRemaining)
            } else {
                Ok(id)
            }
        },
    }
}

/// Setting a user's invite count: whether the user first needs an invite
/// code (where they get invites), and the count as the database stores it.
pub fn invite_count_update(count: u32) -> (r: (bool, i32))
    ensures
        r.0 == (count > 0),
        r.1 == count as i32,
{
    (count > 0, count as i32)
}

/// What to do with a migration found on disk.
#[derive(Clone, Copy, Debug, PartialEq, Eq, Structural)]
pub enum MigrationStep {
    /// It was not applied yet: apply it.
    Apply,
    /// It was applied already.
    Skip,
    /// It was applied with another checksum, which is refused.
    ChecksumMismatch,
}

fn same_bytes(a: &Vec<u8>, b: &Vec<u8>) -> (same: bool)
    ensures
        same == (a@ == b@),
{
    if a.len() != b.len() {
        return false;
    }
    let mut i: usize = 0;
    while i < a.len()
        invariant
            a@.len() == b@.len(),
            i <= a.len(),
            forall|j: int| 0 <= j < i ==> a@[j] == b@[j],
        decreases a.len() - i,
    {
        if a[i] != b[i] {
            return false;
        }
        i += 1;
    }
    assert(a@ =~= b@);
    true
}

/// The step for a migration with checksum `checksum`, given the checksum it
/// was applied with, if it was.
pub fn migration_step(
    applied_checksum: Option<&Vec<u8>>,
    checksum: &Vec<u8>,
    ignore_checksum_mismatch: bool,
) -> (step: MigrationStep)
    ensures
        step == match applied_checksum {
            None => MigrationStep::Apply,
            Some(applied) => if applied@ != checksum@ && !ignore_checksum_mismatch {
                MigrationStep::ChecksumMismatch
            } else {
                MigrationStep::Skip
            },
        },
{
    match applied_checksum {
        None => MigrationStep::Apply,
        Some(applied) => {
            if !same_bytes(applied, checksum) && !ignore_checksum_mismatch {
                MigrationStep::ChecksumMismatch
            } else {
                MigrationStep::Skip
            }
        },
    }
}

/// Where the lookup of a user by GitHub account stands: the query to run
/// next, or the answer.
pub enum GithubLookup {
    /// Give the user with this GitHub id the login, and return them.
    UpdateLoginById { github_user_id: i32 },
    /// Give the user with the login this GitHub id, and return them.
    UpdateIdByLogin { github_user_id: i32 },
    /// Find the user with the login.
    SelectByLogin,
    /// The answer.
    Done(Option<User>),
}

/// The first query: by GitHub id where there is one, else by login.
pub open spec fn github_first_query(github_user_id: Option<i32>) -> GithubLookup {
    match github_user_id {
        Some(id) => GithubLookup::UpdateLoginById { github_user_id: id },
        None => GithubLookup::SelectByLogin,
    }
}

/// The step after the query `step` found `found`: a user not found by
/// GitHub id is looked for by login; otherwise the answer is what was
/// found.
pub open spec fn github_after(step: GithubLookup, found: Option<User>) -> GithubLookup {
    match step {
        GithubLookup::UpdateLoginById { github_user_id } => if found is None {
            GithubLookup::UpdateIdByLogin { github_user_id }
        } else {
            GithubLookup::Done(found)
        },
        _ => GithubLookup::Done(found),
    }
}

/// The first query of a lookup.
pub fn github_lookup_start(github_user_id: Option<i32>) -> (step: GithubLookup)
    ensures
        step == github_first_query(github_user_id),
{
    match github_user_id {
        Some(id) => GithubLookup::UpdateLoginById { github_user_id: id },
        None => GithubLookup::SelectByLogin,
    }
}

/// The step after a query.
pub fn github_lookup_next(step: GithubLookup, found: Option<User>) -> (next: GithubLookup)
    requires
        !(step is Done),
    ensures
        next == github_after(step, found),
{
    match step {
        GithubLookup::UpdateLoginById { github_user_id } => {
            if found.is_none() {
                GithubLookup::UpdateIdByLogin { github_user_id }
            } else {
                GithubLookup::Done(found)
            }
        },
        _ => GithubLookup::Done(found),
    }
}

/// A lookup gives an answer after at most two queries, and a second query
/// is made only when the user was not found by GitHub id; a user found is
/// the answer.
pub proof fn lemma_github_lookup_ends(
    github_user_id: Option<i32>,
    first: Option<User>,
    second: Option<User>,
)
    ensures
        ({
            let s1 = github_after(github_first_query(github_user_id), first);
            &&& s1 is Done || (s1 is UpdateIdByLogin && github_user_id is Some && first is None)
            &&& first is Some ==> s1 == GithubLookup::Done(first)
            &&& github_after(s1, second) is Done
        }),
{
}

/// The sign-up that an invite matches: its id, the user created from it
/// already (if any), who invited, and the device it was made on.
pub struct SignupRow {
    pub signup_id: i32,
    pub existing_user_id: Option<UserId>,
    pub inviting_user_id: Option<UserId>,
    pub device_id: Option<String>,
}

/// Where the creation of a user from an invite stands.
pub enum RedeemState {
    /// Nothing asked yet.
    Start,
    /// The sign-up of the invite was asked for.
    LookingUpSignup,
    /// The user is being inserted.
    InsertingUser { signup: SignupRow },
    /// The sign-up is being linked to the new user.
    LinkingSignup { signup: SignupRow, user_id: UserId, metrics_id: String },
    /// One invite of the inviting user is being used up.
    UsingInvite { signup: SignupRow, user_id: UserId, metrics_id: String, inviter: UserId },
    /// The inviting user and the new one are being made contacts.
    AddingContact { signup: SignupRow, user_id: UserId, metrics_id: String, inviter: UserId },
    /// The transaction is being committed; then `result` is the answer.
    Committing { result: NewUserResult },
    /// The answer was given.
    Finished,
}

/// What the last query gave.
pub enum RedeemEvent {
    /// The transaction began.
    Began,
    /// The sign-up that matches the invite, if any.
    SignupFound(Option<SignupRow>),
    /// The user was inserted (or updated) with this id and metrics id.
    UserInserted { user_id: UserId, metrics_id: String },
    /// The sign-up now names the user.
    SignupLinked,
    /// The inviting user's count was lowered, where it was above zero: the
    /// user's id then, else nothing.
    InviteUsed(Option<UserId>),
    /// The contact row was inserted.
    ContactAdded,
    /// The transaction was committed.
    Committed,
}

/// What to do next.
pub enum RedeemAction {
    /// Look up the sign-up with the invite's email address and code.
    LookUpSignup,
    /// Insert the user with the invite's email address and the given
    /// login, GitHub id and invite count.
    InsertUser,
    /// Make the sign-up `signup_id` name the user `user_id`.
    LinkSignup { user_id: UserId, signup_id: i32 },
    /// Lower the invite count of `inviter` where it is above zero.
    UseInvite { inviter: UserId },
    /// Make `inviter` and `user_id` accepted contacts.
    AddContact { inviter: UserId, user_id: UserId },
    /// Commit the transaction.
    Commit,
    /// Give this answer (and drop the transaction, where it was not
    /// committed).
    Finish(Result<Option<NewUserResult>, DbError>),
}

/// Whether `event` is what `state` waits for.
pub open spec fn redeem_expects(state: RedeemState, event: RedeemEvent) -> bool {
    match (state, event) {
        (RedeemState::Start, RedeemEvent::Began) => true,
        (RedeemState::LookingUpSignup, RedeemEvent::SignupFound(_)) => true,
        (RedeemState::InsertingUser { .. }, RedeemEvent::UserInserted { .. }) => true,
        (RedeemState::LinkingSignup { .. }, RedeemEvent::SignupLinked) => true,
        (RedeemState::UsingInvite { .. }, RedeemEvent::InviteUsed(_)) => true,
        (RedeemState::AddingContact { .. }, RedeemEvent::ContactAdded) => true,
        (RedeemState::Committing { .. }, RedeemEvent::Committed) => true,
        _ => false,
    }
}

/// What creating the user gives back: the new user, their metrics id, who
/// invited them and the device of the sign-up.
pub open spec fn redeemed(signup: SignupRow, user_id: UserId, metrics_id: String) -> NewUserResult {
    NewUserResult {
        user_id,
        metrics_id,
        inviting_user_id: signup.inviting_user_id,
        signup_device_id: signup.device_id,
    }
}

/// After the sign-up is linked: use an invite of the inviting user, or
/// commit where nobody invited.
pub open spec fn after_link(signup: SignupRow, user_id: UserId, metrics_id: String) -> (
    RedeemState,
    RedeemAction,
) {
    match signup.inviting_user_id {
        Some(inviter) => (
            RedeemState::UsingInvite { signup, user_id, metrics_id, inviter },
            RedeemAction::UseInvite { inviter },
        ),
        None => (
            RedeemState::Committing { result: redeemed(signup, user_id, metrics_id) },
            RedeemAction::Commit,
        ),
    }
}

/// The step of the creation of a user from an invite.
pub open spec fn redeem_transition(state: RedeemState, event: RedeemEvent) -> (
    RedeemState,
    RedeemAction,
) {
    match (state, event) {
        (RedeemState::Start, RedeemEvent::Began) => (
            RedeemState::LookingUpSignup,
            RedeemAction::LookUpSignup,
        ),
        (RedeemState::LookingUpSignup, RedeemEvent::SignupFound(found)) => match found {
            None => (RedeemState::Finished, RedeemAction::Finish(Err(DbError::NoSuchInvite))),
            Some(signup) => if signup.existing_user_id is Some {
                (RedeemState::Finished, RedeemAction::Finish(Ok(None)))
            } else {
                (RedeemState::InsertingUser { signup }, RedeemAction::InsertUser)
            },
        },
        (
            RedeemState::InsertingUser { signup },
            RedeemEvent::UserInserted { user_id, metrics_id },
        ) => (
            RedeemState::LinkingSignup { signup, user_id, metrics_id },
            RedeemAction::LinkSignup { user_id, signup_id: signup.signup_id },
        ),
        (
            RedeemState::LinkingSignup { signup, user_id, metrics_id },
            RedeemEvent::SignupLinked,
        ) => after_link(signup, user_id, metrics_id),
        (
            RedeemState::UsingInvite { signup, user_id, metrics_id, inviter },
            RedeemEvent::InviteUsed(used),
        ) => if used is Some {
            (
                RedeemState::AddingContact { signup, user_id, metrics_id, inviter },
                RedeemAction::AddContact { inviter, user_id },
            )
        } else {
            (RedeemState::Finished, RedeemAction::Finish(Err(DbError::NoInvitesRemaining)))
        },
        (
            RedeemState::AddingContact { signup, user_id, metrics_id, inviter },
            RedeemEvent::ContactAdded,
        ) => (
            RedeemState::Committing { result: redeemed(signup, user_id, metrics_id) },
            RedeemAction::Commit,
        ),
        (RedeemState::Committing { result }, RedeemEvent::Committed) => (
            RedeemState::Finished,
            RedeemAction::Finish(Ok(Some(result))),
        ),
        (s, _) => (s, RedeemAction::Commit),
    }
}

/// How many steps at most a state is from the end.
pub open spec fn redeem_rank(state: RedeemState) -> nat {
    match state {
        RedeemState::Start => 7,
        RedeemState::LookingUpSignup => 6,
        RedeemState::InsertingUser { .. } => 5,
        RedeemState::LinkingSignup { .. } => 4,
        RedeemState::UsingInvite { .. } => 3,
        RedeemState::AddingContact { .. } => 2,
        RedeemState::Committing { .. } => 1,
        RedeemState::Finished => 0,
    }
}

/// Every expected step moves the creation of a user forward, so it ends
/// after at most seven steps; and an answer is given exactly when it ends.
pub proof fn lemma_redeem_progress(state: RedeemState, event: RedeemEvent)
    requires
        redeem_expects(state, event),
    ensures
        redeem_rank(redeem_transition(state, event).0) < redeem_rank(state),
        (redeem_transition(state, event).0 is Finished) <==> (redeem_transition(
            state,
            event,
        ).1 is Finish),
{
}

/// A user is inserted only for a sign-up that has none yet, and an invite
/// is used up only for a sign-up that names who invited.
pub proof fn lemma_redeem_guards(state: RedeemState, event: RedeemEvent)
    requires
        redeem_expects(state, event),
    ensures
        redeem_transition(state, event).1 is InsertUser ==> (event matches RedeemEvent::SignupFound(
            Some(s),
        ) && s.existing_user_id is None),
        redeem_transition(state, event).1 matches RedeemAction::UseInvite { inviter } ==> (
        state matches RedeemState::LinkingSignup { signup, .. } && signup.inviting_user_id
            == Some(inviter)),
{
}

/// The answer of a creation is made of what it was given, whatever the
/// path: a user about to be committed is the inserted user, with the
/// metrics id the insertion gave, the inviter the sign-up names and the
/// device the sign-up was made on; and a committed creation answers with
/// exactly that user.
pub proof fn lemma_redeem_answer_carries_signup(state: RedeemState, event: RedeemEvent)
    requires
        redeem_expects(state, event),
    ensures
        match redeem_transition(state, event).0 {
            RedeemState::Committing { result } => match state {
                RedeemState::LinkingSignup { signup, user_id, metrics_id } => {
                    &&& signup.inviting_user_id is None
                    &&& result.user_id == user_id
                    &&& result.metrics_id == metrics_id
                    &&& result.inviting_user_id == signup.inviting_user_id
                    &&& result.signup_device_id == signup.device_id
                },
                RedeemState::AddingContact { signup, user_id, metrics_id, .. } => {
                    &&& result.user_id == user_id
                    &&& result.metrics_id == metrics_id
                    &&& result.inviting_user_id == signup.inviting_user_id
                    &&& result.signup_device_id == signup.device_id
                },
                _ => false,
            },
            _ => true,
        },
        match redeem_transition(state, event).1 {
            RedeemAction::Finish(Ok(Some(answer))) => state matches RedeemState::Committing {
                result,
            } && answer == result,
            _ => true,
        },
{
}

impl RedeemState {
    /// Whether `event` is what this state waits for.
    pub fn expects(&self, event: &RedeemEvent) -> (b: bool)
        ensures
            b == redeem_expects(*self, *event),
    {
        match (self, event) {
            (RedeemState::Start, RedeemEvent::Began) => true,
            (RedeemState::LookingUpSignup, RedeemEvent::SignupFound(_)) => true,
            (RedeemState::InsertingUser { .. }, RedeemEvent::UserInserted { .. }) => true,
            (RedeemState::LinkingSignup { .. }, RedeemEvent::SignupLinked) => true,
            (RedeemState::UsingInvite { .. }, RedeemEvent::InviteUsed(_)) => true,
            (RedeemState::AddingContact { .. }, RedeemEvent::ContactAdded) => true,
            (RedeemState::Committing { .. }, RedeemEvent::Committed) => true,
            _ => false,
        }
    }
}

/// Decides the next step of creating a user from an invite, from where the
/// creation stands and what the last query gave.
pub fn redeem_step(state: RedeemState, event: RedeemEvent) -> (r: (RedeemState, RedeemAction))
    requires
        redeem_expects(state, event),
    ensures
        r == redeem_transition(state, event),
{
    match (state, event) {
        (RedeemState::Start, RedeemEvent::Began) => (
            RedeemState::LookingUpSignup,
            RedeemAction::LookUpSignup,
        ),
        (RedeemState::LookingUpSignup, RedeemEvent::SignupFound(found)) => match found {
            None => (RedeemState::Finished, RedeemAction::Finish(Err(DbError::NoSuchInvite))),
            Some(signup) => {
                if signup.existing_user_id.is_some() {
                    (RedeemState::Finished, RedeemAction::Finish(Ok(None)))
                } else {
                    (RedeemState::InsertingUser { signup }, RedeemAction::InsertUser)
                }
            },
        },
        (
            RedeemState::InsertingUser { signup },
            RedeemEvent::UserInserted { user_id, metrics_id },
        ) => {
            let signup_id = signup.signup_id;
            (
                RedeemState::LinkingSignup { signup, user_id, metrics_id },
                RedeemAction::LinkSignup { user_id, signup_id },
            )
        },
        (
            RedeemState::LinkingSignup { signup, user_id, metrics_id },
            RedeemEvent::SignupLinked,
        ) => match signup.inviting_user_id {
            Some(inviter) => (
                RedeemState::UsingInvite { signup, user_id, metrics_id, inviter },
                RedeemAction::UseInvite { inviter },
            ),
            None => (
                RedeemState::Committing {
                    result: NewUserResult {
                        user_id,
                        metrics_id,
                        inviting_user_id: signup.inviting_user_id,
                        signup_device_id: signup.device_id,
                    },
                },
                RedeemAction::Commit,
            ),
        },
        (
            RedeemState::UsingInvite { signup, user_id, metrics_id, inviter },
            RedeemEvent::InviteUsed(used),
        ) => {
            if used.is_some() {
                (
                    RedeemState::AddingContact { signup, user_id, metrics_id, inviter },
                    RedeemAction::AddContact { inviter, user_id },
                )
            } else {
                (RedeemState::Finished, RedeemAction::Finish(Err(DbError::NoInvitesRemaining)))
            }
        },
        (
            RedeemState::AddingContact { signup, user_id, metrics_id, inviter },
            RedeemEvent::ContactAdded,
        ) => (
            RedeemState::Committing {
                result: NewUserResult {
                    user_id,
                    metrics_id,
                    inviting_user_id: signup.inviting_user_id,
                    signup_device_id: signup.device_id,
                },
            },
            RedeemAction::Commit,
        ),
        (RedeemState::Committing { result }, RedeemEvent::Committed) => (
            RedeemState::Finished,
            RedeemAction::Finish(Ok(Some(result))),
        ),
        (s, _) => (s, RedeemAction::Commit),
    }
}

} // verus!
