use zedlib::collab::User;
use zedlib::collab_db::{
    dismiss_outcome, github_lookup_next, github_lookup_start, invite_count_update,
    migration_step, remove_contact_outcome, respond_outcome, send_request_outcome, ContactError,
    GithubLookup, MigrationStep,
};
use zedlib::collab::{
    contact_from_row, contact_pair_key, contact_request_key, contact_response_key,
    contacts_from_rows, fuzzy_like_string, Contact, ContactRow, NewUserResult, Room, RoomId,
    UserId,
};
use zedlib::collab_db::{
    check_email_unused, check_inviter, redeem_step, room_snapshot, DbError, Participant,
    RedeemAction, RedeemEvent, RedeemState, SignupRow,
};

fn row(a: i32, b: i32, a_to_b: bool, accepted: bool, should_notify: bool) -> ContactRow {
    ContactRow {
        user_id_a: UserId(a),
        user_id_b: UserId(b),
        a_to_b,
        accepted,
        should_notify,
    }
}

#[test]
fn contact_rows_as_seen_by_each_side() {
    let me = UserId(1);
    assert_eq!(
        contact_from_row(me, &row(1, 2, true, true, true)),
        Contact::Accepted { user_id: UserId(2), should_notify: true }
    );
    assert_eq!(
        contact_from_row(me, &row(1, 2, true, false, true)),
        Contact::Outgoing { user_id: UserId(2) }
    );
    assert_eq!(
        contact_from_row(me, &row(1, 2, false, false, true)),
        Contact::Incoming { user_id: UserId(2), should_notify: true }
    );
    assert_eq!(
        contact_from_row(me, &row(0, 1, true, true, true)),
        Contact::Accepted { user_id: UserId(0), should_notify: false }
    );
    assert_eq!(
        contact_from_row(me, &row(0, 1, true, false, false)),
        Contact::Incoming { user_id: UserId(0), should_notify: false }
    );
    assert_eq!(
        contact_from_row(me, &row(0, 1, false, false, true)),
        Contact::Outgoing { user_id: UserId(0) }
    );
}

#[test]
fn contacts_are_sorted_by_user() {
    let me = UserId(5);
    let rows = vec![
        row(5, 9, true, false, false),
        row(2, 5, true, true, true),
        row(5, 7, false, false, true),
    ];
    let contacts = contacts_from_rows(me, &rows);
    assert_eq!(
        contacts,
        vec![
            Contact::Accepted { user_id: UserId(2), should_notify: false },
            Contact::Incoming { user_id: UserId(7), should_notify: true },
            Contact::Outgoing { user_id: UserId(9) },
        ]
    );
    assert_eq!(contacts[1].user_id(), UserId(7));
}

#[test]
fn contact_keys_put_the_smaller_id_first() {
    assert_eq!(contact_request_key(UserId(3), UserId(8)), (UserId(3), UserId(8), true));
    assert_eq!(contact_request_key(UserId(8), UserId(3)), (UserId(3), UserId(8), false));
    assert_eq!(contact_pair_key(UserId(8), UserId(3)), (UserId(3), UserId(8)));
    assert_eq!(contact_pair_key(UserId(3), UserId(8)), (UserId(3), UserId(8)));
    assert_eq!(contact_response_key(UserId(3), UserId(8)), (UserId(3), UserId(8), false));
    assert_eq!(contact_response_key(UserId(8), UserId(3)), (UserId(3), UserId(8), true));
}

#[test]
fn fuzzy_like_patterns() {
    assert_eq!(fuzzy_like_string("abc"), "%a%b%c%");
    assert_eq!(fuzzy_like_string("a-b c!"), "%a%b%c%");
    assert_eq!(fuzzy_like_string(""), "%");
    assert_eq!(fuzzy_like_string("é1"), "%é%1%");
}

#[test]
fn ids_on_the_wire() {
    assert_eq!(UserId::from_proto(42), UserId(42));
    assert_eq!(UserId(42).to_proto(), 42);
    assert_eq!(RoomId::from_proto(7).to_proto(), 7);
}

#[test]
fn room_snapshot_splits_connected_and_pending() {
    let room = Room { id: RoomId(4), version: 3, live_kit_room: "lk".to_string() };
    let rows = vec![(UserId(1), Some(10)), (UserId(2), None), (UserId(3), Some(11)), (UserId(4), None)];
    let s = room_snapshot(&room, &rows);
    assert_eq!(s.id, 4);
    assert_eq!(s.version, 3);
    assert_eq!(s.live_kit_room, "lk");
    assert_eq!(
        s.participants,
        vec![Participant { user_id: 1, peer_id: 10 }, Participant { user_id: 3, peer_id: 11 }]
    );
    assert_eq!(s.pending_participant_user_ids, vec![2, 4]);
}

#[test]
fn invite_checks() {
    assert_eq!(check_email_unused(None), Ok(()));
    assert_eq!(check_email_unused(Some(UserId(1))), Err(DbError::EmailInUse));
    assert_eq!(check_inviter(None), Err(DbError::InviteCodeNotFound));
    assert_eq!(check_inviter(Some((UserId(2), 0))), Err(DbError::NoInvitesRemaining));
    assert_eq!(check_inviter(Some((UserId(2), 3))), Ok(UserId(2)));
    assert_eq!(DbError::NoInvitesRemaining.status(), Some(401));
    assert_eq!(DbError::NoSuchInvite.status(), Some(404));
    assert_eq!(DbError::EmailInUse.status(), None);
    assert_eq!(DbError::InviteCodeNotFound.message(), "invite code not found");
}

fn finish(action: RedeemAction) -> Result<Option<NewUserResult>, DbError> {
    match action {
        RedeemAction::Finish(r) => r,
        _ => panic!("expected the end of the transaction"),
    }
}

#[test]
fn redeeming_an_invite_with_an_inviter() {
    let (s, a) = redeem_step(RedeemState::Start, RedeemEvent::Began);
    assert!(matches!(a, RedeemAction::LookUpSignup));
    let signup = SignupRow {
        signup_id: 17,
        existing_user_id: None,
        inviting_user_id: Some(UserId(3)),
        device_id: Some("dev".to_string()),
    };
    let (s, a) = redeem_step(s, RedeemEvent::SignupFound(Some(signup)));
    assert!(matches!(a, RedeemAction::InsertUser));
    let (s, a) = redeem_step(
        s,
        RedeemEvent::UserInserted { user_id: UserId(9), metrics_id: "m".to_string() },
    );
    assert!(matches!(a, RedeemAction::LinkSignup { user_id: UserId(9), signup_id: 17 }));
    let (s, a) = redeem_step(s, RedeemEvent::SignupLinked);
    assert!(matches!(a, RedeemAction::UseInvite { inviter: UserId(3) }));
    let (s, a) = redeem_step(s, RedeemEvent::InviteUsed(Some(UserId(3))));
    assert!(matches!(a, RedeemAction::AddContact { inviter: UserId(3), user_id: UserId(9) }));
    let (s, a) = redeem_step(s, RedeemEvent::ContactAdded);
    assert!(matches!(a, RedeemAction::Commit));
    let (s, a) = redeem_step(s, RedeemEvent::Committed);
    assert!(matches!(s, RedeemState::Finished));
    let result = finish(a).unwrap().unwrap();
    assert_eq!(result.user_id, UserId(9));
    assert_eq!(result.metrics_id, "m");
    assert_eq!(result.inviting_user_id, Some(UserId(3)));
    assert_eq!(result.signup_device_id, Some("dev".to_string()));
}

#[test]
fn redeeming_fails_or_stops_early() {
    let (s, _) = redeem_step(RedeemState::Start, RedeemEvent::Began);
    let (_, a) = redeem_step(s, RedeemEvent::SignupFound(None));
    assert_eq!(finish(a).err(), Some(DbError::NoSuchInvite));

    let (s, _) = redeem_step(RedeemState::Start, RedeemEvent::Began);
    let signup = SignupRow {
        signup_id: 1,
        existing_user_id: Some(UserId(5)),
        inviting_user_id: None,
        device_id: None,
    };
    let (_, a) = redeem_step(s, RedeemEvent::SignupFound(Some(signup)));
    assert!(finish(a).unwrap().is_none());

    let signup = SignupRow {
        signup_id: 1,
        existing_user_id: None,
        inviting_user_id: Some(UserId(2)),
        device_id: None,
    };
    let s = RedeemState::UsingInvite {
        signup,
        user_id: UserId(6),
        metrics_id: String::new(),
        inviter: UserId(2),
    };
    assert!(s.expects(&RedeemEvent::InviteUsed(None)));
    assert!(!s.expects(&RedeemEvent::Committed));
    let (_, a) = redeem_step(s, RedeemEvent::InviteUsed(None));
    assert_eq!(finish(a).err(), Some(DbError::NoInvitesRemaining));
}

#[test]
fn redeeming_without_an_inviter_commits_after_linking() {
    let signup = SignupRow {
        signup_id: 2,
        existing_user_id: None,
        inviting_user_id: None,
        device_id: None,
    };
    let s = RedeemState::LinkingSignup { signup, user_id: UserId(1), metrics_id: "x".to_string() };
    let (s, a) = redeem_step(s, RedeemEvent::SignupLinked);
    assert!(matches!(a, RedeemAction::Commit));
    let (_, a) = redeem_step(s, RedeemEvent::Committed);
    let result = finish(a).unwrap().unwrap();
    assert_eq!(result.inviting_user_id, None);
}

#[test]
fn contact_change_outcomes() {
    assert_eq!(send_request_outcome(1), Ok(()));
    assert_eq!(send_request_outcome(0), Err(ContactError::AlreadyRequested));
    assert_eq!(remove_contact_outcome(1), Ok(()));
    assert_eq!(remove_contact_outcome(2), Err(ContactError::NoSuchContact));
    assert_eq!(respond_outcome(0), Err(ContactError::NoSuchContactRequest));
    assert_eq!(respond_outcome(1), Ok(()));
    assert_eq!(dismiss_outcome(0), Err(ContactError::NoSuchContactRequest));
    assert_eq!(dismiss_outcome(3), Ok(()));
}

#[test]
fn migrations_and_invite_counts() {
    let sum = vec![1u8, 2, 3];
    let other = vec![1u8, 2, 4];
    assert_eq!(migration_step(None, &sum, false), MigrationStep::Apply);
    assert_eq!(migration_step(Some(&sum), &sum, false), MigrationStep::Skip);
    assert_eq!(migration_step(Some(&other), &sum, false), MigrationStep::ChecksumMismatch);
    assert_eq!(migration_step(Some(&other), &sum, true), MigrationStep::Skip);
    assert_eq!(invite_count_update(0), (false, 0));
    assert_eq!(invite_count_update(5), (true, 5));
    assert_eq!(invite_count_update(u32::MAX), (true, -1));
}

#[test]
fn github_account_lookup() {
    let user = || User {
        id: UserId(1),
        github_login: "octo".to_string(),
        github_user_id: Some(7),
        email_address: None,
        admin: false,
        invite_code: None,
        invite_count: 0,
        connected_once: false,
    };
    let s = github_lookup_start(Some(7));
    assert!(matches!(s, GithubLookup::UpdateLoginById { github_user_id: 7 }));
    let s = github_lookup_next(s, None);
    assert!(matches!(s, GithubLookup::UpdateIdByLogin { github_user_id: 7 }));
    let s = github_lookup_next(s, Some(user()));
    assert!(matches!(s, GithubLookup::Done(Some(ref u)) if u.id == UserId(1)));
    let s = github_lookup_start(Some(7));
    assert!(matches!(github_lookup_next(s, Some(user())), GithubLookup::Done(Some(_))));
    let s = github_lookup_start(None);
    assert!(matches!(s, GithubLookup::SelectByLogin));
    assert!(matches!(github_lookup_next(s, None), GithubLookup::Done(None)));
}
