use arcadia::rpc_menu::execute_rpc_answer;
use arcadia::parse::{BoolError, HoursError, IntError};
use arcadia::rpc::{FieldType, FormError, MethodKind, RPCField, RPCMethod, RPCSuccess};
use arcadia::rpc_handle::{
    approve_content, check_claim, check_exists, check_force_remove, check_reason, check_review,
    check_transfer_to_team, check_transfer_to_user, check_unclaim_claimed, check_unclaim_type,
    check_unverify, parse_new_team, rpc_step, RpcAction, RpcError, RpcEvent, RpcRefusal, RpcStage,
};
use arcadia::rpc_menu::{autocomplete, rpc_web_actions};
use arcadia::target_types::TargetType;

fn s(v: &str) -> String {
    v.to_string()
}

#[test]
fn method_metadata() {
    let m = RPCMethod::Approve { target_id: s("1"), reason: s("ok") };
    assert_eq!(m.name(), "Approve");
    assert_eq!(m.label(), "Approve entity");
    assert_eq!(m.description(), "Approve a entity. Needs to be claimed first.");
    assert_eq!(m.supported_target_types(), vec![TargetType::Bot]);
    assert_eq!(m.required_perm(), "rpc.Approve");
    let r = RPCMethod::VoteResetAll { reason: s("x") };
    assert_eq!(
        r.supported_target_types(),
        vec![TargetType::Bot, TargetType::Server, TargetType::Team, TargetType::Pack]
    );
    let u = RPCMethod::AppBanUser { target_id: s("1"), reason: s("x") };
    assert_eq!(u.supported_target_types(), vec![TargetType::User]);
}

#[test]
fn method_fields_follow_the_kind() {
    let claim = RPCMethod::Claim { target_id: s("1"), force: false };
    let f = claim.method_fields();
    assert_eq!(f.len(), 2);
    assert_eq!(f[0].id, "target_id");
    assert_eq!(f[1].id, "force");
    assert_eq!(f[1].field_type, FieldType::Boolean);
    let premium = RPCMethod::PremiumAdd { target_id: s("1"), reason: s("r"), time_period_hours: 1 };
    let f = premium.method_fields();
    assert_eq!(f.len(), 3);
    assert_eq!(f[1].field_type, FieldType::Hour);
    assert_eq!(f[2].id, "reason");
    let t = RPCField::target_id();
    assert_eq!(t.label, "Target ID");
    assert_eq!(t.field_type, FieldType::Text);
    let r = RPCField::reason();
    assert_eq!(r.field_type, FieldType::Textarea);
    assert_eq!(r.placeholder, "Reason for performing this action");
}

#[test]
fn every_method_but_claim_ends_with_reason() {
    for k in MethodKind::all() {
        let f = k.method_fields();
        if k == MethodKind::Claim {
            assert!(RPCMethod::blank(k).reason().is_none());
        } else {
            assert_eq!(f.last().unwrap().id, "reason");
            assert!(RPCMethod::blank(k).reason().is_some());
        }
        assert!(!k.supported_target_types().is_empty());
    }
}

#[test]
fn kind_names_are_distinct_and_read_back() {
    let all = MethodKind::all();
    assert_eq!(all.len(), 18);
    for (i, a) in all.iter().enumerate() {
        assert_eq!(MethodKind::from_name(&a.name()), Some(*a));
        for b in all.iter().skip(i + 1) {
            assert_ne!(a.name(), b.name());
        }
    }
    assert_eq!(MethodKind::from_name("Nope"), None);
}

#[test]
fn success_content() {
    assert_eq!(RPCSuccess::Content(s("hi")).content(), Some("hi"));
    assert_eq!(RPCSuccess::NoContent.content(), None);
}

#[test]
fn default_method_is_a_claim() {
    match RPCMethod::default() {
        RPCMethod::Claim { target_id, force } => {
            assert_eq!(target_id, "bot_id");
            assert!(!force);
        }
        _ => panic!("not a claim"),
    }
}

#[test]
fn form_builds_the_method() {
    let m = RPCMethod::from_form(MethodKind::Claim, &vec![s("42"), s("T")]).unwrap();
    match m {
        RPCMethod::Claim { target_id, force } => {
            assert_eq!(target_id, "42");
            assert!(force);
        }
        _ => panic!("wrong kind"),
    }
    let m = RPCMethod::from_form(MethodKind::PremiumAdd, &vec![s("7"), s("2 days"), s("why")])
        .unwrap();
    match m {
        RPCMethod::PremiumAdd { target_id, reason, time_period_hours } => {
            assert_eq!(target_id, "7");
            assert_eq!(reason, "why");
            assert_eq!(time_period_hours, 48);
        }
        _ => panic!("wrong kind"),
    }
    let m = RPCMethod::from_form(
        MethodKind::BotTransferOwnershipTeam,
        &vec![s("7"), s("team"), s("why")],
    )
    .unwrap();
    match m {
        RPCMethod::BotTransferOwnershipTeam { target_id, new_team, reason } => {
            assert_eq!((target_id.as_str(), new_team.as_str(), reason.as_str()), ("7", "team", "why"));
        }
        _ => panic!("wrong kind"),
    }
    let m = RPCMethod::from_form(MethodKind::VoteResetAll, &vec![s("all of them")]).unwrap();
    assert_eq!(m.reason(), Some("all of them"));
}

#[test]
fn form_errors() {
    let e = RPCMethod::from_form(MethodKind::ForceRemove, &vec![s("1"), s("maybe"), s("r")])
        .unwrap_err();
    assert_eq!(e, FormError::Boolean(BoolError::InvalidBoolean));
    assert_eq!(e.message(), "Invalid boolean");
    let e = RPCMethod::from_form(MethodKind::PremiumAdd, &vec![s("1"), s("2days"), s("r")])
        .unwrap_err();
    assert_eq!(e, FormError::Hours(HoursError::MissingSpace));
    let e = RPCMethod::from_form(MethodKind::PremiumAdd, &vec![s("1"), s("2 fortnights"), s("r")])
        .unwrap_err();
    assert_eq!(e, FormError::Hours(HoursError::UnknownUnit));
    let e = RPCMethod::from_form(MethodKind::PremiumAdd, &vec![s("1"), s("x days"), s("r")])
        .unwrap_err();
    assert_eq!(e, FormError::Hours(HoursError::InvalidNumber(IntError::InvalidDigit)));
}

#[test]
fn autocomplete_filters_names() {
    assert_eq!(autocomplete("").len(), 18);
    assert_eq!(autocomplete("VoteBan"), vec![s("VoteBanAdd"), s("VoteBanRemove")]);
    assert_eq!(autocomplete("Transfer"), vec![s("BotTransferOwnershipUser"), s("BotTransferOwnershipTeam")]);
    assert!(autocomplete("zzz").is_empty());
    assert_eq!(autocomplete("Claim"), vec![s("Claim")]);
    assert_eq!(autocomplete("laim"), vec![s("Claim"), s("Unclaim")]);
}

#[test]
fn web_actions_filtered_by_permission() {
    let mut allowed = vec![false; 18];
    allowed[0] = true;
    allowed[2] = true;
    let all = rpc_web_actions(false, &allowed);
    assert_eq!(all.len(), 18);
    let some = rpc_web_actions(true, &allowed);
    assert_eq!(some.len(), 2);
    assert_eq!(some[0].id, "Claim");
    assert_eq!(some[1].id, "Approve");
    assert_eq!(some[1].label, "Approve entity");
    assert_eq!(some[1].fields.len(), 2);
}

#[test]
fn rpc_checks_run_in_order() {
    let m = RPCMethod::Approve { target_id: s("1"), reason: s("fine") };
    let (st, act) = rpc_step(&m, TargetType::Bot, RpcStage::Start, RpcEvent::Begin);
    assert_eq!(st, RpcStage::AwaitingPermission);
    assert_eq!(act, RpcAction::CheckPermission { perm: s("rpc.Approve") });
    let (st, act) = rpc_step(&m, TargetType::Server, RpcStage::Start, RpcEvent::Begin);
    assert_eq!(st, RpcStage::Refused);
    assert_eq!(act, RpcAction::Refuse(RpcRefusal::UnsupportedTarget));
    let (st, act) = rpc_step(
        &m,
        TargetType::Bot,
        RpcStage::AwaitingPermission,
        RpcEvent::PermissionChecked { allowed: false },
    );
    assert_eq!(st, RpcStage::Refused);
    match act {
        RpcAction::Refuse(r) => assert_eq!(r.message(), "You need rpc.Approve permission to use Approve"),
        _ => panic!("expected a refusal"),
    }
    let (st, act) = rpc_step(
        &m,
        TargetType::Bot,
        RpcStage::AwaitingOnboarding,
        RpcEvent::OnboardingCount { count: 0 },
    );
    assert_eq!(st, RpcStage::Refused);
    assert_eq!(act, RpcAction::Refuse(RpcRefusal::OnboardingRequired));
    let (st, act) =
        rpc_step(&m, TargetType::Bot, RpcStage::AwaitingOnboarding, RpcEvent::OnboardingCount { count: 1 });
    assert_eq!((st, act), (RpcStage::AwaitingLog, RpcAction::InsertLog));
    let (st, act) = rpc_step(&m, TargetType::Bot, RpcStage::AwaitingLog, RpcEvent::LogInserted);
    assert_eq!((st, act), (RpcStage::AwaitingRecentCount, RpcAction::CountRecent));
    let (st, act) =
        rpc_step(&m, TargetType::Bot, RpcStage::AwaitingRecentCount, RpcEvent::RecentCount { count: 6 });
    assert_eq!(st, RpcStage::Refused);
    assert_eq!(act, RpcAction::RevokeSessionsAndRefuse(RpcRefusal::RateLimited));
    assert_eq!(RpcRefusal::RateLimited.message(), "Rate limit exceeded. Wait 5-10 minutes and try again?");
    let (st, act) =
        rpc_step(&m, TargetType::Bot, RpcStage::AwaitingRecentCount, RpcEvent::RecentCount { count: 5 });
    assert_eq!((st, act), (RpcStage::Dispatched, RpcAction::Run));
}

#[test]
fn method_checks() {
    assert!(check_reason(&"a".repeat(2000)).is_ok());
    assert_eq!(check_reason(&"a".repeat(2001)), Err(RpcError::ReasonTooLong));
    assert_eq!(RpcError::ReasonTooLong.message(), "Reason must be lower than/equal to 2000 characters");
    assert_eq!(check_claim("approved", &None, false), Err(RpcError::NotPendingReview));
    assert_eq!(
        check_claim("pending", &Some(s("9")), false),
        Err(RpcError::AlreadyClaimed { by: s("9") })
    );
    assert_eq!(RpcError::AlreadyClaimed { by: s("9") }.message(), "This bot is already claimed by <@9>");
    assert!(check_claim("pending", &Some(s("9")), true).is_ok());
    assert!(check_claim("pending", &None, false).is_ok());
    assert_eq!(check_unclaim_type("testbot"), Err(RpcError::TestBot));
    assert!(check_unclaim_type("pending").is_ok());
    assert_eq!(
        check_unclaim_claimed(&None, "5"),
        Err(RpcError::NotClaimed { target_id: s("5") })
    );
    assert_eq!(RpcError::NotClaimed { target_id: s("5") }.message(), "<@5> is not claimed");
    assert_eq!(check_review(true, "approved", &None, true, "1"), Err(RpcError::EntityNotPending));
    assert_eq!(check_review(false, "approved", &None, true, "1"), Err(RpcError::DenyNotPending));
    assert_eq!(
        check_review(true, "pending", &Some(s("")), true, "1"),
        Err(RpcError::ReviewNotClaimed { target_id: s("1") })
    );
    assert!(check_review(true, "pending", &Some(s("3")), true, "1").is_ok());
    assert_eq!(check_exists(0), Err(RpcError::DoesNotExist));
    assert!(check_exists(2).is_ok());
    assert_eq!(check_unverify("certified"), Err(RpcError::CertifiedCannotUnverify));
    assert_eq!(check_force_remove(&vec![10, 20], 20, true), Err(RpcError::ProtectedKick));
    assert!(check_force_remove(&vec![10, 20], 20, false).is_ok());
    assert_eq!(check_transfer_to_user(true), Err(RpcError::InTeam));
    assert_eq!(check_transfer_to_team(false), Err(RpcError::NotInTeam));
}

#[test]
fn new_team_must_be_a_uuid() {
    assert_eq!(
        parse_new_team("67e55044-10b1-426f-9247-bb680e5fe0c8"),
        Ok(0x67e55044_10b1_426f_9247_bb680e5fe0c8)
    );
    assert_eq!(parse_new_team("not-a-uuid"), Err(RpcError::InvalidTeamId));
    assert_eq!(RpcError::InvalidTeamId.message(), "Invalid team ID");
}

#[test]
fn approval_text() {
    assert_eq!(
        approve_content("abc", "12", "34"),
        "**Cache Server Invite:** https://discord.gg/abc\n**Invite URL:** https://discord.com/api/v10/oauth2/authorize?client_id=12&permissions=0&scope=bot%20applications.commands&guild_id=34"
    );
}

#[test]
fn target_types() {
    assert!(TargetType::Bot.supports_votes());
    assert!(!TargetType::User.supports_votes());
    assert_eq!(TargetType::Server.id(), "server_id");
    assert_eq!(TargetType::Pack.id(), "url");
    assert_eq!(TargetType::from_entity("bot"), Some(TargetType::Bot));
    assert_eq!(TargetType::from_entity("team"), None);
    assert_eq!(TargetType::default(), TargetType::Bot);
    assert_eq!(TargetType::from_variant_name("Team"), Some(TargetType::Team));
    assert_eq!(TargetType::Team.display_name(), "team");
}

#[test]
fn executed_method_answers() {
    assert_eq!(execute_rpc_answer(Ok(RPCSuccess::NoContent)), (204, s("")));
    assert_eq!(execute_rpc_answer(Ok(RPCSuccess::Content(s("done")))), (200, s("done")));
    assert_eq!(execute_rpc_answer(Err(s("nope"))), (400, s("nope")));
}
