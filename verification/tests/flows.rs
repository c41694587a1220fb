use arcadia::bot_actions::{plan_action_log, plan_approve_bot, ActionLog};
use arcadia::config::PanelConfig;
use arcadia::onboarding::{onboarding_gate, training_timer, OnboardingGate, TimerAction, TrainingStage};
use arcadia::panel_types::AuthorizeAction;
use arcadia::reports::{search_step, SearchStep};
use arcadia::rpc_methods::{method_step, BotFacts, GeneralLog, MethodAction, MethodEvent, MethodStage};
use arcadia::target_types::TargetType;
use arcadia::panel::{perm_then_uuid, uuid_then_perm, Link, PanelPerm, Refusal};
use arcadia::partners::{
    check_partner_details, check_partner_write, partner_avatar_location, partner_deletion,
    ImageMetadata,
};
use arcadia::rpc::{FormError, MethodKind, RPCMethod, RPCSuccess};
use arcadia::rpc_handle::{
    final_log_state, method_write, permission_event, plan_claim, rpc_step, EntityWrite, RpcAction,
    RpcError, RpcEvent, RpcRefusal, RpcStage,
};
use arcadia::rpc_menu::{
    execute_rpc_step, rpc_method_list, ExecuteRpcAction, ExecuteRpcEvent, ExecuteRpcStage,
};
use arcadia::rpc_server::{
    web_rpc, KeychainData, RPCRequest, RPCResponse, Success, WebRpcAction, WebRpcEvent,
    WebRpcStage,
};
use arcadia::session::AuthData;
use arcadia::sessions::{
    authorize_start, check_auth, check_auth_insecure, is_live, live_flags, plan_activate_session,
    plan_create_session, AuthorizeStart, Session, StaffLogin,
};
use arcadia::shop::{
    plan_delete_benefit, plan_delete_hold, plan_hold, plan_shop_item, settle_tiers, TierRow,
};
use arcadia::staff::{
    create_position_rows, delete_position_rows, plan_edit_member, plan_set_index,
    set_index_rows, write_gate, PositionRow,
};

fn s(v: &str) -> String {
    v.to_string()
}

fn sess(user: &str, token: &str, created_at: i64, state: &str) -> Session {
    Session { user_id: s(user), token: s(token), created_at, state: s(state) }
}

fn staff(user: &str, positions: usize) -> StaffLogin {
    StaffLogin { user_id: s(user), positions }
}

fn refusal<T>(r: Result<T, Refusal>) -> (u16, String) {
    match r {
        Ok(_) => panic!("expected a refusal"),
        Err(e) => (e.status, e.message),
    }
}

#[test]
fn sessions_expire_after_an_hour_or_five_pending_minutes() {
    let now = 10_000;
    assert!(!is_live(&sess("1", "t", now - 3601, "active"), now));
    assert!(is_live(&sess("1", "t", now - 3600, "active"), now));
    assert!(!is_live(&sess("1", "t", now - 301, "pending"), now));
    assert!(is_live(&sess("1", "t", now - 300, "pending"), now));
    let flags = live_flags(&vec![sess("1", "a", 0, "active"), sess("2", "b", now, "pending")], now);
    assert_eq!(flags, vec![false, true]);
}

#[test]
fn token_checks_answer_the_session() {
    let now = 10_000;
    let table = vec![
        sess("7", "old", 0, "active"),
        sess("1", "tok", 9_990, "active"),
        sess("2", "wait", 9_990, "pending"),
        sess("3", "nostaff", 9_990, "active"),
    ];
    let members = vec![staff("1", 2), staff("2", 1), staff("7", 1), staff("3", 0)];
    let a = check_auth_insecure(&table, now, "tok", &members).unwrap();
    assert_eq!((a.user_id.as_str(), a.created_at, a.state.as_str()), ("1", 9_990, "active"));
    assert_eq!(refusal(check_auth_insecure(&table, now, "old", &members)), (500, s("identityExpired")));
    assert_eq!(refusal(check_auth_insecure(&table, now, "none", &members)), (500, s("identityExpired")));
    assert_eq!(refusal(check_auth_insecure(&table, now, "nostaff", &members)), (500, s("identityExpired")));
    let p = check_auth_insecure(&table, now, "wait", &members).unwrap();
    assert_eq!(p.state, "pending");
    assert_eq!(refusal(check_auth(&table, now, "wait", &members)), (500, s("sessionNotActive")));
    assert_eq!(refusal(check_auth(&table, now, "old", &members)), (500, s("identityExpired")));
    assert_eq!(check_auth(&table, now, "tok", &members).unwrap().user_id, "1");
}

#[test]
fn login_makes_one_pending_session() {
    let n = plan_create_session("5", Some(2)).unwrap();
    assert_eq!(n.user_id, "5");
    assert_eq!(n.state, "pending");
    assert!(n.token.len() >= 4196 && n.token.len() < 6000);
    assert!(n.token.chars().all(|c| c.is_ascii_alphanumeric()));
    assert_eq!(n.popplio_token.len(), 2048);
    assert_eq!(
        refusal(plan_create_session("5", None)),
        (403, s("You are not a staff member [not in db]"))
    );
    assert_eq!(
        refusal(plan_create_session("5", Some(0))),
        (403, s("You are not a staff member [no positions]"))
    );
}

#[test]
fn activation_checks_in_order() {
    let pending = AuthData { user_id: s("1"), created_at: 0, state: s("pending") };
    let active = AuthData { user_id: s("1"), created_at: 0, state: s("active") };
    let a = plan_activate_session(&pending, "tok", true, true).unwrap();
    assert_eq!((a.token.as_str(), a.user_id.as_str(), a.state.as_str()), ("tok", "1", "active"));
    assert!(a.mfa_verified);
    assert_eq!(refusal(plan_activate_session(&active, "tok", false, false)), (400, s("sessionAlreadyActive")));
    assert_eq!(refusal(plan_activate_session(&pending, "tok", false, true)), (400, s("mfaNotSetup")));
    assert_eq!(refusal(plan_activate_session(&pending, "tok", true, false)), (400, s("Invalid OTP entered")));
}

fn request() -> RPCRequest {
    RPCRequest {
        user_id: s("1"),
        method: RPCMethod::Approve { target_id: s("2"), reason: s("ok") },
        api_token: s("key"),
        rpc_identity: s("id"),
        protocol: 1,
    }
}

fn keychain(user: &str, used: u64, max_uses: u64, allowed: &[&str]) -> KeychainData {
    KeychainData {
        user_id: s(user),
        used,
        max_uses,
        allowed_methods: allowed.iter().map(|m| s(m)).collect(),
    }
}

#[test]
fn rpc_server_checks_identity_then_user_then_runs() {
    let req = request();
    let (st, act) = web_rpc(&req, WebRpcStage::Start, WebRpcEvent::Begin);
    assert_eq!(st, WebRpcStage::AwaitingKeychain);
    assert!(matches!(act, WebRpcAction::LookUpIdentity { identity } if identity == "id"));
    let (st, act) = web_rpc(&req, WebRpcStage::AwaitingKeychain, WebRpcEvent::Keychain(None));
    assert_eq!(st, WebRpcStage::Done);
    assert!(matches!(act, WebRpcAction::Answer(Err(RPCResponse::InvalidIdentity))));
    let (_, act) = web_rpc(
        &req,
        WebRpcStage::AwaitingKeychain,
        WebRpcEvent::Keychain(Some(keychain("2", 0, 5, &["Approve"]))),
    );
    assert!(matches!(act, WebRpcAction::Answer(Err(RPCResponse::InvalidIdentity))));
    let (_, act) = web_rpc(
        &req,
        WebRpcStage::AwaitingKeychain,
        WebRpcEvent::Keychain(Some(keychain("1", 6, 5, &["Approve"]))),
    );
    assert!(matches!(act, WebRpcAction::Answer(Err(RPCResponse::UsageQuoteExceeded))));
    let (_, act) = web_rpc(
        &req,
        WebRpcStage::AwaitingKeychain,
        WebRpcEvent::Keychain(Some(keychain("1", 0, 5, &["Deny"]))),
    );
    assert!(matches!(act, WebRpcAction::Answer(Err(RPCResponse::MethodNotAllowed))));
    let (st, act) = web_rpc(
        &req,
        WebRpcStage::AwaitingKeychain,
        WebRpcEvent::Keychain(Some(keychain("1", 5, 5, &["Deny", "Approve"]))),
    );
    assert_eq!(st, WebRpcStage::AwaitingUser);
    match act {
        WebRpcAction::StoreUsesAndCheckUser { identity, used, user_id, api_token } => {
            assert_eq!((identity.as_str(), used, user_id.as_str(), api_token.as_str()), ("id", 6, "1", "key"));
        }
        other => panic!("unexpected {:?}", other),
    }
    let (_, act) = web_rpc(&req, WebRpcStage::AwaitingUser, WebRpcEvent::User { found: false, staff: true });
    assert!(matches!(act, WebRpcAction::Answer(Err(RPCResponse::UserNotFound))));
    let (_, act) = web_rpc(&req, WebRpcStage::AwaitingUser, WebRpcEvent::User { found: true, staff: false });
    assert!(matches!(act, WebRpcAction::Answer(Err(RPCResponse::StaffOnly))));
    let (st, act) = web_rpc(&req, WebRpcStage::AwaitingUser, WebRpcEvent::User { found: true, staff: true });
    assert_eq!(st, WebRpcStage::AwaitingMethod);
    assert!(matches!(act, WebRpcAction::RunMethod { user_id } if user_id == "1"));
    let (st, act) = web_rpc(
        &req,
        WebRpcStage::AwaitingMethod,
        WebRpcEvent::MethodDone(Ok(RPCSuccess::Content(s("done")))),
    );
    assert_eq!(st, WebRpcStage::Done);
    match act {
        WebRpcAction::Answer(Ok(ok)) => {
            assert_eq!(ok.status(), 200);
            assert!(matches!(ok, Success::Content(c) if c == "done"));
        }
        other => panic!("unexpected {:?}", other),
    }
    let (_, act) = web_rpc(&req, WebRpcStage::AwaitingMethod, WebRpcEvent::MethodDone(Ok(RPCSuccess::NoContent)));
    assert!(matches!(act, WebRpcAction::Answer(Ok(Success::NoContent))));
    let (_, act) = web_rpc(&req, WebRpcStage::AwaitingMethod, WebRpcEvent::MethodDone(Err(s("boom"))));
    match act {
        WebRpcAction::Answer(Err(e)) => {
            assert_eq!(e.status(), 400);
            assert_eq!(e.message(), "boom");
        }
        other => panic!("unexpected {:?}", other),
    }
}

#[test]
fn method_list_follows_the_permissions() {
    let all = rpc_method_list(&vec![], false);
    let names: Vec<String> = MethodKind::all().iter().map(|k| k.name()).collect();
    assert_eq!(all.iter().map(|a| a.id.clone()).collect::<Vec<_>>(), names);
    assert!(rpc_method_list(&vec![], true).is_empty());
    let only = rpc_method_list(&vec![s("rpc.Claim")], true);
    assert_eq!(only.len(), 1);
    assert_eq!(only[0].id, "Claim");
    assert_eq!(only[0].label, MethodKind::Claim.label());
    assert_eq!(rpc_method_list(&vec![s("global.*")], true).len(), names.len());
    let most = rpc_method_list(&vec![s("rpc.*"), s("~rpc.Deny")], true);
    assert_eq!(most.len(), names.len() - 1);
    assert!(most.iter().all(|a| a.id != "Deny"));
}

#[test]
fn executing_a_method_checks_the_login_first() {
    let (st, act) = execute_rpc_step(
        ExecuteRpcStage::AwaitingAuth,
        ExecuteRpcEvent::AuthChecked(Err(Refusal { status: 500, message: s("identityExpired") })),
    );
    assert_eq!(st, ExecuteRpcStage::Done);
    assert!(matches!(act, ExecuteRpcAction::Refuse(r) if r.status == 500 && r.message == "identityExpired"));
    let (st, act) = execute_rpc_step(
        ExecuteRpcStage::AwaitingAuth,
        ExecuteRpcEvent::AuthChecked(Ok(AuthData { user_id: s("9"), created_at: 1, state: s("active") })),
    );
    assert_eq!(st, ExecuteRpcStage::AwaitingMethod);
    assert!(matches!(act, ExecuteRpcAction::Run { user_id } if user_id == "9"));
    let (_, act) = execute_rpc_step(ExecuteRpcStage::AwaitingMethod, ExecuteRpcEvent::MethodDone(Ok(RPCSuccess::NoContent)));
    assert!(matches!(act, ExecuteRpcAction::Reply(204, t) if t.is_empty()));
    let (_, act) = execute_rpc_step(ExecuteRpcStage::AwaitingMethod, ExecuteRpcEvent::MethodDone(Err(s("bad"))));
    assert!(matches!(act, ExecuteRpcAction::Reply(400, t) if t == "bad"));
}

#[test]
fn rpc_permission_log_state_and_claims() {
    let m = RPCMethod::Approve { target_id: s("2"), reason: s("ok") };
    assert_eq!(permission_event(&vec![s("rpc.Approve")], &m), RpcEvent::PermissionChecked { allowed: true });
    assert_eq!(permission_event(&vec![s("rpc.Deny")], &m), RpcEvent::PermissionChecked { allowed: false });
    assert_eq!(final_log_state(&Ok(RPCSuccess::NoContent)), "success");
    assert_eq!(final_log_state(&Err(s("Entity not found"))), "Entity not found");
    let w = plan_claim("pending", &None, false, "b1", "u1", 100).unwrap();
    assert_eq!(
        (w.claimed_by.as_str(), w.last_claimed, w.log_user_id.as_str(), w.log_action.as_str(), w.log_target_id.as_str()),
        ("u1", 100, "u1", "claimed", "b1")
    );
    assert_eq!(w.claimed_by_prev, None);
    let w = plan_claim("pending", &Some(s("u9")), true, "b1", "u1", 100).unwrap();
    assert_eq!(w.claimed_by_prev, Some(s("u9")));
    assert_eq!(plan_claim("approved", &None, true, "b1", "u1", 100).unwrap_err(), RpcError::NotPendingReview);
    assert_eq!(
        plan_claim("pending", &Some(s("u9")), false, "b1", "u1", 100).unwrap_err(),
        RpcError::AlreadyClaimed { by: s("u9") }
    );
}

#[test]
fn moving_a_position_reads_its_uuid_first() {
    let id = "67e55044-10b1-426f-9247-bb680e5fe0c8";
    assert_eq!(plan_set_index(&vec![1], true, id, 3).unwrap(), 0x67e5504410b1426f9247bb680e5fe0c8u128);
    let (status, message) = refusal(plan_set_index(&vec![1], false, "nope", -1));
    assert_eq!(status, 500);
    assert!(!message.is_empty());
    assert_eq!(
        refusal(plan_set_index(&vec![1], false, id, 3)),
        (403, s("You do not have permission to set the indexes of staff positions [staff_positions.set_index]"))
    );
    assert_eq!(refusal(plan_set_index(&vec![1], true, id, -1)), (400, s("Index cannot be lower than 0")));
    assert_eq!(
        refusal(plan_set_index(&vec![1], true, id, 1)),
        (403, s("Index to set is lower than or equal to the lowest index of the staff member"))
    );
}

fn rows(v: &[(&str, i32)]) -> Vec<PositionRow> {
    v.iter().map(|(id, index)| PositionRow { id: s(id), index: *index }).collect()
}

fn pairs(v: &[PositionRow]) -> Vec<(String, i32)> {
    v.iter().map(|r| (r.id.clone(), r.index)).collect()
}

#[test]
fn position_indexes_shift_around_moves_creations_and_deletions() {
    let table = rows(&[("a", 1), ("b", 2), ("c", 3)]);
    assert_eq!(pairs(&set_index_rows(&table, "c", 2)), vec![(s("a"), 1), (s("b"), 3), (s("c"), 2)]);
    assert_eq!(pairs(&create_position_rows(&table, 2)), vec![(s("a"), 1), (s("b"), 3), (s("c"), 4)]);
    assert_eq!(pairs(&delete_position_rows(&table, "b", 2)), vec![(s("a"), 1), (s("c"), 2)]);
    // A member whose highest position is at 1 moves, creates and deletes
    // below it: the position at 1 keeps its index.
    assert_eq!(set_index_rows(&table, "b", 2)[0].index, 1);
    assert_eq!(create_position_rows(&table, 2)[0].index, 1);
    assert_eq!(delete_position_rows(&table, "c", 3)[0].index, 1);
}

#[test]
fn editing_a_member_writes_overrides_and_flags() {
    let e = plan_edit_member(&vec![1], &vec![2], true, Ok(()), "9", vec![s("rpc.Claim")], true, false).unwrap();
    assert_eq!((e.user_id.as_str(), e.no_autosync, e.unaccounted), ("9", true, false));
    assert_eq!(e.perm_overrides, vec![s("rpc.Claim")]);
    assert_eq!(
        refusal(plan_edit_member(&vec![1], &vec![2], false, Ok(()), "9", vec![], false, false)),
        (403, s("You do not have permission to edit staff members [staff_members.edit]"))
    );
    assert_eq!(
        refusal(plan_edit_member(&vec![1], &vec![0], true, Ok(()), "9", vec![], false, false)),
        (403, s("Target has a lower index than the member"))
    );
    assert_eq!(
        refusal(plan_edit_member(&vec![1], &vec![2], true, Err(s("rpc.Claim")), "9", vec![], false, false)),
        (403, s("You do not have permission to edit the following perms: rpc.Claim"))
    );
}

fn tiers(v: &[(&str, i32)]) -> Vec<TierRow> {
    v.iter().map(|(id, p)| TierRow { id: s(id), position: *p }).collect()
}

fn tier_pairs(v: &[TierRow]) -> Vec<(String, i32)> {
    v.iter().map(|r| (r.id.clone(), r.position)).collect()
}

#[test]
fn shop_holds_are_checked_in_order() {
    let w = plan_hold(false, true, 0, true, "1", "bot", "item", Some(2)).unwrap();
    assert_eq!((w.target_id.as_str(), w.target_type.as_str(), w.item.as_str()), ("1", "bot", "item"));
    assert_eq!(w.duration_micros, Some(2_000_000));
    assert_eq!(plan_hold(true, true, 1, true, "1", "server", "item", None).unwrap().duration_micros, None);
    assert_eq!(
        refusal(plan_hold(false, false, 0, true, "1", "bot", "item", None)),
        (403, s("You do not have permission to create shop holds [shop_holds.create]"))
    );
    assert_eq!(
        refusal(plan_hold(true, true, 0, true, "1", "bot", "item", None)),
        (400, s("Entry with same id does not already exist"))
    );
    assert_eq!(refusal(plan_hold(false, true, 0, false, "1", "bot", "item", None)), (400, s("Item does not exist")));
    assert_eq!(
        refusal(plan_hold(false, true, 0, true, "1", "user", "item", None)),
        (400, s("Target type must be either 'bot' or 'server'"))
    );
    assert!(plan_delete_hold(true, 1).is_ok());
    assert_eq!(refusal(plan_delete_hold(true, 0)), (400, s("Entry with same id does not already exist")));
}

#[test]
fn onboarding_gate_lets_non_staff_through() {
    assert_eq!(onboarding_gate(false, None), OnboardingGate::GoOn);
    assert_eq!(onboarding_gate(false, Some(TrainingStage::Pending)), OnboardingGate::GoOn);
    assert_eq!(onboarding_gate(true, Some(TrainingStage::Complete)), OnboardingGate::ResetOldThenGoOn);
    assert_eq!(onboarding_gate(true, Some(TrainingStage::Pending)), OnboardingGate::ResetOldThenTrain);
    assert_eq!(onboarding_gate(true, None), OnboardingGate::ResetOldThenTrain);
}

#[test]
fn unanswered_form_has_no_response() {
    let e = RPCMethod::from_modal(MethodKind::Approve, None).unwrap_err();
    assert_eq!(e, FormError::NoResponse);
    assert_eq!(e.message(), "No response");
    let m = RPCMethod::from_modal(MethodKind::Approve, Some(vec![s("1"), s("ok")])).unwrap();
    assert_eq!(m, RPCMethod::Approve { target_id: s("1"), reason: s("ok") });
}

#[test]
fn shop_items_need_existing_benefits() {
    let existing = vec![s("boost"), s("badge")];
    assert!(plan_shop_item(false, true, false, 5, &vec![s("badge"), s("boost")], &existing, 0).is_ok());
    assert_eq!(
        refusal(plan_shop_item(false, true, false, 5, &vec![s("badge"), s("gold"), s("silver")], &existing, 0)),
        (400, s("Benefit gold does not exist"))
    );
    assert_eq!(
        refusal(plan_shop_item(false, true, true, 5, &vec![], &existing, 0)),
        (400, s("Cents cannot be lower than 0"))
    );
    assert_eq!(
        refusal(plan_shop_item(false, true, false, -1, &vec![], &existing, 0)),
        (400, s("Duration cannot be lower than 0"))
    );
    assert_eq!(
        refusal(plan_shop_item(true, true, false, 5, &vec![], &existing, 0)),
        (400, s("Entry with same id does not already exist"))
    );
    assert_eq!(
        refusal(plan_shop_item(true, false, false, 5, &vec![], &existing, 1)),
        (403, s("You do not have permission to update shop items [shop_items.update]"))
    );
    let items = vec![vec![s("badge")], vec![s("boost"), s("badge")]];
    assert!(plan_delete_benefit(true, 1, "gold", &items).is_ok());
    assert_eq!(
        refusal(plan_delete_benefit(true, 1, "boost", &items)),
        (400, s("Cannot delete benefit as it is used by shop items"))
    );
    assert_eq!(
        refusal(plan_delete_benefit(true, 0, "gold", &items)),
        (400, s("Entry with same id does not already exist"))
    );
}

#[test]
fn partner_checks_in_order() {
    assert!(check_partner_write(false, true, false).is_ok());
    assert_eq!(refusal(check_partner_write(false, true, true)), (400, s("Partner already exists")));
    assert_eq!(refusal(check_partner_write(true, true, false)), (400, s("Partner does not already exist")));
    assert_eq!(
        refusal(check_partner_write(true, false, true)),
        (403, s("You do not have permission to update partners [partners.update]"))
    );
    assert_eq!(
        partner_avatar_location(true, Some("/cdn"), "p1").unwrap(),
        "/cdn/avatars/partners/p1.webp"
    );
    assert_eq!(refusal(partner_avatar_location(false, None, "p1")), (400, s("Partner type does not exist")));
    assert_eq!(refusal(partner_avatar_location(true, None, "p1")), (400, s("Main scope not found")));
    let links = vec![Link { name: s("Site"), value: s("https://example.com") }];
    let image = ImageMetadata::Found { is_file: true, len: 10 };
    assert!(check_partner_details(&image, &links, true).is_ok());
    assert_eq!(
        refusal(check_partner_details(&ImageMetadata::Found { is_file: true, len: 0 }, &links, true)),
        (400, s("Image is empty"))
    );
    assert_eq!(refusal(check_partner_details(&image, &vec![], true)), (400, s("Links cannot be empty")));
    assert_eq!(refusal(check_partner_details(&image, &links, false)), (400, s("User does not exist")));
    assert_eq!(partner_deletion(true, true, Some("/cdn"), "p1").unwrap(), "/cdn/partners/p1.webp");
    assert_eq!(refusal(partner_deletion(true, false, Some("/cdn"), "p1")), (400, s("Partner does not exist")));
}

#[test]
fn methods_write_their_rows() {
    let approve = RPCMethod::Approve { target_id: s("b"), reason: s("ok") };
    assert_eq!(
        method_write(&approve, 0),
        Some(EntityWrite::SetType { target: s("b"), bot_type: s("approved"), unclaim: true })
    );
    let premium = RPCMethod::PremiumAdd { target_id: s("b"), reason: s("ok"), time_period_hours: 48 };
    assert_eq!(method_write(&premium, 0), Some(EntityWrite::PremiumOn { target: s("b"), hours: 48 }));
    let team = RPCMethod::BotTransferOwnershipTeam { target_id: s("b"), reason: s("ok"), new_team: s("t") };
    assert_eq!(method_write(&team, 7), Some(EntityWrite::SetTeam { target: s("b"), team: 7 }));
    let claim = RPCMethod::Claim { target_id: s("b"), force: false };
    assert_eq!(method_write(&claim, 0), None);
    let certify = RPCMethod::CertifyAdd { target_id: s("b"), reason: s("ok") };
    assert_eq!(
        method_write(&certify, 0),
        Some(EntityWrite::SetType { target: s("b"), bot_type: s("certified"), unclaim: false })
    );
}

#[test]
fn panel_writes_are_gated_in_order() {
    let id = "67e55044-10b1-426f-9247-bb680e5fe0c8";
    assert_eq!(perm_then_uuid(PanelPerm::BlogUpdateEntry, true, id).unwrap(), 0x67e5504410b1426f9247bb680e5fe0c8u128);
    assert_eq!(
        refusal(perm_then_uuid(PanelPerm::BlogUpdateEntry, false, "x")),
        (403, s("You do not have permission to update blog entries [blog.update_entry]"))
    );
    assert_eq!(refusal(perm_then_uuid(PanelPerm::BlogUpdateEntry, true, "x")).0, 500);
    assert_eq!(refusal(uuid_then_perm(PanelPerm::StaffPositionsDelete, false, "x")).0, 500);
    assert_eq!(refusal(uuid_then_perm(PanelPerm::StaffPositionsDelete, false, id)).0, 403);
    assert!(uuid_then_perm(PanelPerm::StaffPositionsDelete, true, id).is_ok());
    assert_eq!(
        refusal(write_gate(PanelPerm::StaffDisciplinaryTypesUpdate, true, Some(Err(s("a.b"))), Some(1))),
        (403, s("You do not have permission to edit the following perms: a.b"))
    );
    assert_eq!(
        refusal(write_gate(PanelPerm::StaffDisciplinaryTypesUpdate, true, Some(Ok(())), Some(0))),
        (400, s("Entry with same id does not already exist"))
    );
    assert!(write_gate(PanelPerm::StaffDisciplinaryTypesCreate, true, Some(Ok(())), None).is_ok());
    assert_eq!(refusal(write_gate(PanelPerm::StaffDisciplinaryTypesDelete, false, None, Some(1))).0, 403);
}

#[test]
fn settling_tiers_makes_positions_unique() {
    // A new tier placed where others sit pushes the block in its way down
    // to the first free position.
    let table = tiers(&[("t", 5), ("a", 1), ("b", 2), ("c", 4)]);
    let settled = settle_tiers(&table, "t", 1).unwrap();
    assert_eq!(tier_pairs(&settled), vec![(s("t"), 1), (s("a"), 2), (s("b"), 3), (s("c"), 4)]);
    let chain = tiers(&[("t", 9), ("a", 1), ("b", 2)]);
    assert_eq!(tier_pairs(&settle_tiers(&chain, "t", 1).unwrap()), vec![(s("t"), 1), (s("a"), 2), (s("b"), 3)]);
    let free = tiers(&[("t", 9), ("a", 1)]);
    assert_eq!(tier_pairs(&settle_tiers(&free, "t", 4).unwrap()), vec![(s("t"), 4), (s("a"), 1)]);
    let full = tiers(&[("t", 0), ("a", i32::MAX)]);
    assert!(settle_tiers(&full, "t", i32::MAX).is_none());
}

fn facts(exists: bool, bot_type: &str, claimed_by: Option<&str>, in_team: bool) -> BotFacts {
    BotFacts {
        exists,
        bot_type: s(bot_type),
        claimed_by: claimed_by.map(s),
        claimed_at_known: claimed_by.is_some(),
        in_team,
    }
}

fn refused_with(a: MethodAction) -> RpcError {
    match a {
        MethodAction::Refuse(e) => e,
        other => panic!("expected a refusal, got {:?}", other),
    }
}

#[test]
fn methods_refuse_before_they_act() {
    let none: Vec<u64> = vec![];
    let ok: Result<u64, String> = Ok(42);
    let long = "x".repeat(2001);
    let m = RPCMethod::PremiumRemove { target_id: s("42"), reason: long };
    let (st, a) = method_step(&m, "u", 0, &ok, &none, MethodStage::Start, MethodEvent::Begin);
    assert_eq!(st, MethodStage::Done);
    assert_eq!(refused_with(a), RpcError::ReasonTooLong);

    let m = RPCMethod::ForceRemove { target_id: s("42"), reason: s("spam"), kick: true };
    let (st, a) = method_step(&m, "u", 0, &ok, &none, MethodStage::Start, MethodEvent::Begin);
    assert_eq!(st, MethodStage::AwaitingBot);
    assert!(matches!(a, MethodAction::ReadBot));
    let protected = vec![42u64];
    let (_, a) = method_step(&m, "u", 0, &ok, &protected, MethodStage::AwaitingBot, MethodEvent::Bot(facts(true, "approved", None, false)));
    assert_eq!(refused_with(a), RpcError::ProtectedKick);
    let (_, a) = method_step(&m, "u", 0, &ok, &none, MethodStage::AwaitingBot, MethodEvent::Bot(facts(false, "", None, false)));
    assert_eq!(refused_with(a), RpcError::DoesNotExist);
    let bad: Result<u64, String> = Err(s("invalid digit found in string"));
    let (_, a) = method_step(&m, "u", 0, &bad, &none, MethodStage::AwaitingBot, MethodEvent::Bot(facts(true, "approved", None, false)));
    assert_eq!(refused_with(a).message(), "invalid digit found in string");
    let (st, a) = method_step(&m, "u", 0, &ok, &none, MethodStage::AwaitingBot, MethodEvent::Bot(facts(true, "approved", None, false)));
    assert_eq!(st, MethodStage::Applied);
    assert!(matches!(a, MethodAction::Apply { write: EntityWrite::DeleteBot { ref target }, log: None } if target == "42"));
    let (st, a) = method_step(&m, "u", 0, &ok, &none, MethodStage::Applied, MethodEvent::Applied);
    assert_eq!(st, MethodStage::ModLogged);
    assert!(matches!(a, MethodAction::SendModLog));
    let (st, a) = method_step(&m, "u", 0, &ok, &none, MethodStage::ModLogged, MethodEvent::ModLogSent);
    assert_eq!(st, MethodStage::Done);
    assert!(matches!(a, MethodAction::KickFromMain { bot: 42 }));
}

#[test]
fn each_method_checks_what_it_read() {
    let none: Vec<u64> = vec![];
    let ok: Result<u64, String> = Ok(1);
    let unclaim = RPCMethod::Unclaim { target_id: s("b"), reason: s("r") };
    let (_, a) = method_step(&unclaim, "u", 0, &ok, &none, MethodStage::AwaitingBot, MethodEvent::Bot(facts(true, "testbot", None, false)));
    assert_eq!(refused_with(a), RpcError::TestBot);
    let (_, a) = method_step(&unclaim, "u", 0, &ok, &none, MethodStage::AwaitingBot, MethodEvent::Bot(facts(true, "pending", None, false)));
    assert_eq!(refused_with(a), RpcError::NotClaimed { target_id: s("b") });
    let (_, a) = method_step(&unclaim, "u", 0, &ok, &none, MethodStage::AwaitingBot, MethodEvent::Bot(facts(true, "pending", Some("9"), false)));
    match a {
        MethodAction::Apply { write, log: Some(l) } => {
            assert_eq!(write, EntityWrite::SetType { target: s("b"), bot_type: s("pending"), unclaim: true });
            assert_eq!(l, GeneralLog { action: s("unclaimed"), target_id: s("b"), claimed_by_prev: Some(s("9")) });
        }
        other => panic!("unexpected {:?}", other),
    }
    let claim = RPCMethod::Claim { target_id: s("b"), force: false };
    let (_, a) = method_step(&claim, "u", 7, &ok, &none, MethodStage::AwaitingBot, MethodEvent::Bot(facts(true, "pending", None, false)));
    assert!(matches!(a, MethodAction::ApplyClaim(ref w) if w.claimed_by == "u" && w.last_claimed == 7));
    let approve = RPCMethod::Approve { target_id: s("b"), reason: s("good") };
    let (st, a) = method_step(&approve, "u", 0, &ok, &none, MethodStage::AwaitingBot, MethodEvent::Bot(facts(true, "pending", Some("u"), false)));
    assert_eq!(st, MethodStage::Done);
    assert!(matches!(a, MethodAction::Approve(EntityWrite::SetType { .. })));
    let team = RPCMethod::BotTransferOwnershipTeam { target_id: s("b"), reason: s("r"), new_team: s("nope") };
    let (_, a) = method_step(&team, "u", 0, &ok, &none, MethodStage::AwaitingBot, MethodEvent::Bot(facts(true, "approved", None, true)));
    assert_eq!(refused_with(a), RpcError::InvalidTeamId);
    let user = RPCMethod::BotTransferOwnershipUser { target_id: s("b"), reason: s("r"), new_owner: s("o") };
    let (_, a) = method_step(&user, "u", 0, &ok, &none, MethodStage::AwaitingBot, MethodEvent::Bot(facts(true, "approved", None, true)));
    assert_eq!(refused_with(a), RpcError::InTeam);
    let ban = RPCMethod::AppBanUser { target_id: s("p"), reason: s("r") };
    let (st, a) = method_step(&ban, "u", 0, &ok, &none, MethodStage::Start, MethodEvent::Begin);
    assert_eq!(st, MethodStage::AwaitingUser);
    assert!(matches!(a, MethodAction::ReadUser));
    let (_, a) = method_step(&ban, "u", 0, &ok, &none, MethodStage::AwaitingUser, MethodEvent::User { exists: false });
    assert_eq!(refused_with(a), RpcError::DoesNotExist);
    let reset = RPCMethod::VoteResetAll { reason: s("r") };
    let (st, a) = method_step(&reset, "u", 0, &ok, &none, MethodStage::Start, MethodEvent::Begin);
    assert_eq!(st, MethodStage::Applied);
    assert!(matches!(a, MethodAction::Apply { write: EntityWrite::VoidAllVotes, log: None }));
    let (_, a) = method_step(&reset, "u", 0, &ok, &none, MethodStage::ModLogged, MethodEvent::ModLogSent);
    assert!(matches!(a, MethodAction::Finish));
    assert_eq!(reset.target(), None);
    assert_eq!(ban.target(), Some("p"));
}

fn panel_config() -> PanelConfig {
    PanelConfig {
        client_id: s("123"),
        redirect_url: vec![s("https://panel/auth")],
        panel_scope: s("scope"),
        panel_response_scope: s("resp"),
        ..Default::default()
    }
}

#[test]
fn login_checks_version_scope_and_redirect_first() {
    let panel = panel_config();
    let begin = AuthorizeAction::Begin { scope: s("scope"), redirect_url: s("https://panel/auth") };
    match authorize_start(&panel, 4, begin.clone()) {
        AuthorizeStart::Refuse(r) => assert_eq!((r.status, r.message.as_str()), (400, "Invalid version")),
        other => panic!("unexpected {:?}", other),
    }
    match authorize_start(&panel, 5, begin) {
        AuthorizeStart::Started(st) => {
            assert_eq!(st.login_url, "https://discord.com/api/oauth2/authorize?client_id=123&redirect_uri=https://panel/auth&response_type=code&scope=identify");
            assert_eq!(st.response_scope, "resp");
        }
        other => panic!("unexpected {:?}", other),
    }
    match authorize_start(&panel, 5, AuthorizeAction::Begin { scope: s("x"), redirect_url: s("y") }) {
        AuthorizeStart::Refuse(r) => assert_eq!(r.message, "Invalid scope"),
        other => panic!("unexpected {:?}", other),
    }
    match authorize_start(&panel, 5, AuthorizeAction::CreateSession { code: s("c"), redirect_url: s("https://evil") }) {
        AuthorizeStart::Refuse(r) => assert_eq!((r.status, r.message.as_str()), (400, "Invalid redirect url")),
        other => panic!("unexpected {:?}", other),
    }
    assert!(matches!(
        authorize_start(&panel, 5, AuthorizeAction::CreateSession { code: s("c"), redirect_url: s("https://panel/auth") }),
        AuthorizeStart::ExchangeCode { ref code, .. } if code == "c"
    ));
    assert!(matches!(
        authorize_start(&panel, 5, AuthorizeAction::ResetMfaTotp { login_token: s("t"), otp: s("1") }),
        AuthorizeStart::CheckToken { active: true, .. }
    ));
    assert!(matches!(
        authorize_start(&panel, 5, AuthorizeAction::Logout { login_token: s("t") }),
        AuthorizeStart::DeleteSession { ref login_token } if login_token == "t"
    ));
}

#[test]
fn searches_check_login_then_type() {
    let ok = || Ok(AuthData { user_id: s("1"), created_at: 0, state: s("active") });
    assert!(matches!(search_step(ok(), TargetType::Bot), SearchStep::SearchBots));
    assert!(matches!(search_step(ok(), TargetType::Server), SearchStep::SearchServers));
    assert!(matches!(search_step(ok(), TargetType::Team), SearchStep::Refuse(ref r) if r.status == 501 && r.message == "Searching this target type is not implemented"));
    let denied = Err(Refusal { status: 500, message: s("identityExpired") });
    assert!(matches!(search_step(denied, TargetType::User), SearchStep::Refuse(ref r) if r.status == 500));
}

#[test]
fn approvals_write_only_after_every_check() {
    let w = plan_approve_bot(true, "completed", "b", "claimed", Some("s"), true, 10, true, "s", "looks good").unwrap();
    assert_eq!(w.log, ActionLog { bot_id: s("b"), staff_id: s("s"), reason: s("looks good"), event: s("approve") });
    assert_eq!((w.bot_type.as_str(), w.clear_claim), ("approved", true));
    assert_eq!(plan_approve_bot(false, "completed", "b", "claimed", Some("s"), true, 10, true, "s", "looks good").unwrap_err(), "Only staff members may approve bots");
    assert_eq!(plan_approve_bot(true, "pending", "b", "claimed", Some("s"), true, 10, true, "s", "looks good").unwrap_err(), "onboarding_required");
    assert_eq!(plan_approve_bot(true, "completed", "b", "pending", Some("s"), true, 10, true, "s", "looks good").unwrap_err(), "Bot is not pending review?");
    assert_eq!(plan_approve_bot(true, "completed", "b", "claimed", None, true, 10, true, "s", "looks good").unwrap_err(), "<@b> is not claimed? Do ``/claim`` to claim this bot first!");
    assert!(plan_approve_bot(true, "completed", "b", "claimed", Some("s"), true, 4, true, "s", "looks good").unwrap_err().starts_with("Whoa there!"));
    assert!(plan_approve_bot(true, "completed", "b", "claimed", Some("s"), true, 10, false, "s", "looks good").unwrap_err().starts_with("Bot is not in testing server."));
    assert_eq!(plan_approve_bot(true, "completed", "b", "claimed", Some("s"), true, 10, true, "s", "ok").unwrap_err(), "Reason is too short or too long");
    assert_eq!(plan_action_log("b", "s", "tiny", "deny").unwrap_err(), "Reason is too short or too long");
    assert_eq!(plan_action_log("b", "s", "long enough", "deny").unwrap().event, "deny");
}

#[test]
fn the_gate_runs_the_method_within_the_rate_limit() {
    let m = RPCMethod::Approve { target_id: s("2"), reason: s("ok") };
    for count in [0i64, 1, 5] {
        let (st, act) = rpc_step(&m, TargetType::Bot, RpcStage::AwaitingRecentCount, RpcEvent::RecentCount { count });
        assert_eq!(st, RpcStage::Dispatched);
        assert_eq!(act, RpcAction::Run);
    }
    let (st, act) = rpc_step(&m, TargetType::Bot, RpcStage::AwaitingRecentCount, RpcEvent::RecentCount { count: 6 });
    assert_eq!(st, RpcStage::Refused);
    assert_eq!(act, RpcAction::RevokeSessionsAndRefuse(RpcRefusal::RateLimited));
}

#[test]
fn the_training_timer_runs_for_an_hour() {
    let hour = 3_600_000_000i64;
    assert_eq!(training_timer(true, None, 0), TimerAction::Keep);
    assert_eq!(training_timer(false, None, 0), TimerAction::Start);
    assert_eq!(training_timer(false, Some(10), 10 + hour), TimerAction::Keep);
    assert_eq!(training_timer(false, Some(10), 11 + hour), TimerAction::Restart);
    assert_eq!(training_timer(false, Some(i64::MIN), i64::MAX), TimerAction::Restart);
}
