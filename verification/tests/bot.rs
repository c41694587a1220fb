use arcadia::bot_actions::{
    check_action_reason, check_bot_exists, check_forced_removal, check_head_staff,
    check_in_testing_server, check_review_claim, check_review_staff, check_single_bot,
    check_unverifier, check_vote_owner, HeadStaffAction, Review,
};
use arcadia::bot_commands::{
    age_reply, bot_join_message, failure_reply, in_server, is_admin_dev, join_action,
    plan_bot_roles, user_join_message, CommandFailure, JoinAction,
};
use arcadia::config::{Config, Differs, Roles};
use arcadia::explain::{explanation, Bool, ExplainOption};
use arcadia::managers::{
    bot_team, manager_lookup, owned_by_rows, team_managers, user_managers, EntityManagers,
    Manager, ManagerLookup, OwnedBy, OwnedRow, UserLookup,
};
use arcadia::onboarding::{
    admin_setup, find_training_servers, invite_channel_name, reinvite_message, AdminSetup,
    claim_choice, is_training_server, needs_onboarding, onboarding_step, post_command_applies,
    post_command_stage, stage_after_timer, timer_action, OnboardState, OnboardingQuiz,
    OnboardingReply, TimerAction, TrainingStage,
};
use arcadia::panel_types::{display_name, discord_user_expiry_time, status_text, PlatformUser, Presence};
use arcadia::parse::{parse_bool, parse_hrs, parse_i32, HoursError, IntError};
use arcadia::rpc::RPCMethod;
use arcadia::rpc_server::{
    echo, web_rpc, AshfurResponse, AuthPayload, RPCRequest, RPCResponse, Success, WebRpcAction,
    WebRpcEvent, WebRpcStage,
};
use arcadia::target_types::TargetType;
use arcadia::text::decimal;

fn s(v: &str) -> String {
    v.to_string()
}

#[test]
fn training_stage_texts_round_trip() {
    for st in [
        TrainingStage::Pending,
        TrainingStage::QueueStep,
        TrainingStage::ClaimedBot,
        TrainingStage::StaffGuide,
        TrainingStage::StaffGuideViewed,
        TrainingStage::StaffGuideReadEncouraged,
        TrainingStage::StaffGuideViewedReminded,
        TrainingStage::Complete,
    ] {
        assert_eq!(TrainingStage::from_text(st.text()), Some(st));
    }
    assert_eq!(TrainingStage::from_text("nonsense"), None);
}

#[test]
fn onboarding_walkthrough() {
    assert!(!needs_onboarding(Some(TrainingStage::Complete)));
    assert!(needs_onboarding(None));
    let step = onboarding_step("queue", Some(TrainingStage::Pending));
    assert!(!step.proceed);
    assert_eq!(step.new_stage, Some(TrainingStage::QueueStep));
    assert_eq!(step.reply, OnboardingReply::Welcome);
    let step = onboarding_step("queue", Some(TrainingStage::QueueStep));
    assert_eq!(step.reply, OnboardingReply::QueueUnclaimed);
    assert_eq!(step.new_stage, None);
    let step = onboarding_step("staffguide", Some(TrainingStage::QueueStep));
    assert!(step.proceed);
    assert!(!step.reset_sandbox);
    assert_eq!(step.new_stage, Some(TrainingStage::StaffGuideViewed));
    assert_eq!(post_command_stage(Some(TrainingStage::StaffGuideViewed)), Some(TrainingStage::StaffGuideReadEncouraged));
    assert_eq!(post_command_stage(Some(TrainingStage::QueueStep)), None);
    let step = onboarding_step("claim", Some(TrainingStage::StaffGuideReadEncouraged));
    assert_eq!(
        step.reply,
        OnboardingReply::ClaimPrompt { force_claim_disabled: true, remind_disabled: false, encourage_remind: true }
    );
    assert_eq!(claim_choice("remind"), TrainingStage::StaffGuideViewedReminded);
    let step = onboarding_step("claim", Some(TrainingStage::StaffGuideViewedReminded));
    assert_eq!(
        step.reply,
        OnboardingReply::ClaimPrompt { force_claim_disabled: false, remind_disabled: true, encourage_remind: false }
    );
    assert_eq!(claim_choice("fclaim"), TrainingStage::ClaimedBot);
    let step = onboarding_step("queue", Some(TrainingStage::ClaimedBot));
    assert_eq!(step.reply, OnboardingReply::QueueClaimedByYou);
    let step = onboarding_step("staffguide", Some(TrainingStage::ClaimedBot));
    assert!(step.proceed);
    let step = onboarding_step("help", Some(TrainingStage::ClaimedBot));
    assert_eq!(step.reply, OnboardingReply::AskForQueue);
}

#[test]
fn onboarding_other_commands() {
    let step = onboarding_step("queue", Some(TrainingStage::StaffGuideViewed));
    assert_eq!(step.reply, OnboardingReply::QueueUnclaimed);
    let step = onboarding_step("help", Some(TrainingStage::StaffGuideViewed));
    assert!(step.proceed);
    let step = onboarding_step("staffguide", Some(TrainingStage::StaffGuideReadEncouraged));
    assert!(step.proceed);
    assert_eq!(step.reply, OnboardingReply::SuggestClaim);
    let step = onboarding_step("help", None);
    assert_eq!(step.reply, OnboardingReply::UnknownStage);
    assert!(!step.proceed);
    let step = onboarding_step("queue", None);
    assert_eq!(step.reply, OnboardingReply::QueueUnclaimed);
}

#[test]
fn onboarding_never_goes_backwards() {
    fn rank(s: TrainingStage) -> i32 {
        match s {
            TrainingStage::Pending => 0,
            TrainingStage::QueueStep => 1,
            TrainingStage::StaffGuideViewed => 2,
            TrainingStage::StaffGuideReadEncouraged => 3,
            TrainingStage::StaffGuideViewedReminded => 4,
            TrainingStage::ClaimedBot => 5,
            TrainingStage::StaffGuide => 6,
            TrainingStage::Complete => 7,
        }
    }
    for st in [TrainingStage::Pending, TrainingStage::QueueStep, TrainingStage::ClaimedBot, TrainingStage::StaffGuideViewed] {
        for cmd in ["queue", "staffguide", "claim", "help"] {
            if let Some(n) = onboarding_step(cmd, Some(st)).new_stage {
                assert!(rank(n) > rank(st));
            }
        }
    }
}

#[test]
fn onboarding_timer() {
    assert_eq!(timer_action(true, false, true), TimerAction::Keep);
    assert_eq!(timer_action(false, false, true), TimerAction::Start);
    assert_eq!(timer_action(false, true, true), TimerAction::Restart);
    assert_eq!(timer_action(false, true, false), TimerAction::Keep);
    assert_eq!(stage_after_timer(Some(TrainingStage::QueueStep), TimerAction::Restart), Some(TrainingStage::Pending));
    assert_eq!(stage_after_timer(None, TimerAction::Keep), None);
    assert!(is_training_server("ABC123", "abc123"));
    assert!(!is_training_server("Staff", "123"));
    assert!(post_command_applies(None, "1"));
    assert!(post_command_applies(Some("1"), "1"));
    assert!(!post_command_applies(Some("2"), "1"));
}

#[test]
fn onboarding_quiz_is_blank() {
    let q = OnboardingQuiz::new();
    assert_eq!(q.sections.len(), 1);
    assert_eq!(q.sections[0].name, "about");
    let names: Vec<&str> = q.sections[0].subsections.iter().map(|x| x.name.as_str()).collect();
    assert_eq!(names, vec!["ping", "about", "cmdinfo", "globallookup", "randomcat", "randomdog"]);
    assert!(q.sections[0].subsections.iter().all(|x| x.answer.is_empty() && x.subsections.is_empty()));
}

#[test]
fn onboard_states_are_snake_case() {
    assert_eq!(OnboardState::PendingManagerReview.text(), "pending_manager_review");
    assert_eq!(OnboardState::from_text("completed"), Some(OnboardState::Completed));
    assert_eq!(OnboardState::from_text("Completed"), None);
}

fn manager(user: &str, mentionable: bool) -> Manager {
    Manager { mentionable, user: s(user) }
}

#[test]
fn entity_managers() {
    let m = EntityManagers::from_members(vec![manager("1", true), manager("2", false), manager("3", true)]);
    assert_eq!(m.all(), vec![s("1"), s("2"), s("3")]);
    assert_eq!(m.mentionables(), vec![s("1"), s("3")]);
    assert_eq!(m.mention_users(), "<@1>, <@3>");
    let one = EntityManagers::owner(s("7"));
    assert_eq!(one.mention_users(), "<@7>");
    let quiet = EntityManagers::from_members(vec![manager("1", false)]);
    assert_eq!(quiet.mention_users(), "");
    assert!(quiet.mentionables().is_empty());
}

#[test]
fn finding_managers() {
    assert_eq!(manager_lookup(TargetType::Bot, "1").unwrap(), ManagerLookup::BotOwner);
    assert_eq!(manager_lookup(TargetType::Server, "1").unwrap(), ManagerLookup::ServerTeam);
    assert_eq!(manager_lookup(TargetType::User, "1").unwrap(), ManagerLookup::User);
    assert_eq!(
        manager_lookup(TargetType::Team, "67e55044-10b1-426f-9247-bb680e5fe0c8").unwrap(),
        ManagerLookup::Team(0x67e55044_10b1_426f_9247_bb680e5fe0c8)
    );
    let e = manager_lookup(TargetType::Team, "bad").unwrap_err();
    assert!(e.starts_with("Error while parsing team id bad: "));
    assert!(e.len() > "Error while parsing team id bad: ".len());
    assert_eq!(manager_lookup(TargetType::Pack, "x").unwrap_err(), "Packs are not supported yet!");
    assert_eq!(bot_team("5", Some(9)).unwrap(), 9);
    assert_eq!(
        bot_team("5", None).unwrap_err(),
        "Bot 5 is not owned by a team or a user. Please contact a dev right now!"
    );
    assert_eq!(user_managers("4", UserLookup::Found(s("4"))).unwrap().all(), vec![s("4")]);
    assert_eq!(user_managers("4", UserLookup::NotFound).unwrap_err(), "User 4 not found.");
    assert_eq!(
        user_managers("4", UserLookup::Failed(s("boom"))).unwrap_err(),
        "Error while checking for user 4: boom"
    );
    assert_eq!(
        team_managers("8", vec![]).unwrap_err(),
        "Entity 8 is on a team with no members. Please contact a dev right now!"
    );
    assert_eq!(team_managers("8", vec![manager("1", true)]).unwrap().all(), vec![s("1")]);
}

#[test]
fn owned_entities() {
    let rows = vec![
        OwnedRow { entity: s("bot"), id: s("1"), state: s("approved") },
        OwnedRow { entity: s("widget"), id: s("2"), state: s("x") },
        OwnedRow { entity: s("pack"), id: s("u"), state: s("pack") },
    ];
    let owned = owned_by_rows(&rows);
    assert_eq!(owned.len(), 2);
    assert_eq!(owned[0].target_type, TargetType::Bot);
    assert_eq!(owned[1].target_type, TargetType::Pack);
    assert_eq!(owned[1].target_id, "u");
}

#[test]
fn bot_action_checks() {
    assert_eq!(check_action_reason("abcd").unwrap_err(), "Reason is too short or too long");
    assert!(check_action_reason("abcde").is_ok());
    assert!(check_action_reason(&"a".repeat(1998)).is_ok());
    assert!(check_action_reason(&"a".repeat(1999)).is_err());
    assert_eq!(check_vote_owner(&vec![1], 2).unwrap_err(), "You cannot reset votes unless you are owner");
    assert!(check_vote_owner(&vec![1], 1).is_ok());
    assert_eq!(check_single_bot("all").unwrap_err(), "You cannot reset all votes with this command");
    assert_eq!(check_bot_exists(0).unwrap_err(), "Bot does not exist");
    assert_eq!(check_unverifier(false).unwrap_err(), "You need to be a staff member to unverify bots");
    assert_eq!(
        check_head_staff(HeadStaffAction::VoteBan, false, false).unwrap_err(),
        "You need `Head Staff Manager` or `Head Developer` to edit votebans"
    );
    assert!(check_head_staff(HeadStaffAction::PremiumAdd, false, true).is_ok());
    assert_eq!(
        check_forced_removal(&vec![3], 3, true).unwrap_err(),
        "You can't force delete this bot with 'kick' enabled!"
    );
}

#[test]
fn review_checks() {
    assert_eq!(check_review_staff(Review::Approve, false, "completed").unwrap_err(), "Only staff members may approve bots");
    assert_eq!(check_review_staff(Review::Deny, false, "completed").unwrap_err(), "Only staff members may deny bots");
    assert_eq!(check_review_staff(Review::Approve, true, "pending").unwrap_err(), "onboarding_required");
    assert_eq!(
        check_review_staff(Review::Deny, true, "pending").unwrap_err(),
        "You need to complete onboarding to continue!"
    );
    assert!(check_review_staff(Review::Approve, true, "completed").is_ok());
    assert_eq!(check_review_claim("1", "pending", Some("2"), true, 10).unwrap_err(), "Bot is not pending review?");
    assert_eq!(
        check_review_claim("1", "claimed", Some(""), true, 10).unwrap_err(),
        "<@1> is not claimed? Do ``/claim`` to claim this bot first!"
    );
    assert!(check_review_claim("1", "claimed", Some("2"), true, 4).unwrap_err().starts_with("Whoa there!"));
    assert!(check_review_claim("1", "claimed", Some("2"), true, 5).is_ok());
    assert!(check_in_testing_server(false).unwrap_err().starts_with("Bot is not in testing server."));
}

fn owned(state: &str) -> OwnedBy {
    OwnedBy { target_type: TargetType::Bot, target_id: s("1"), entity_state: s(state) }
}

#[test]
fn bot_owner_roles() {
    let roles = Roles::default();
    assert_eq!(
        plan_bot_roles(&vec![], &vec![], &roles).unwrap_err(),
        "You are not the owner/additional owner of any bots"
    );
    assert_eq!(
        plan_bot_roles(&vec![owned("pending")], &vec![], &roles).unwrap_err(),
        "You are not the owner/additional owner of any approved or certified bots"
    );
    let plan = plan_bot_roles(&vec![owned("approved")], &vec![roles.certified_developer], &roles).unwrap();
    assert!(!plan.certified);
    assert_eq!(plan.add, vec![roles.bot_developer]);
    assert_eq!(plan.remove, vec![roles.certified_developer]);
    let plan = plan_bot_roles(&vec![owned("approved"), owned("certified")], &vec![roles.bot_developer], &roles).unwrap();
    assert!(plan.certified);
    assert_eq!(plan.add, vec![roles.certified_developer]);
    assert!(plan.remove.is_empty());
}

#[test]
fn events_and_errors() {
    assert_eq!(
        join_action(1, 1, true, 77),
        JoinAction::WelcomeBot { server: 1, role: 77, reason: "Bot added to server".to_string() }
    );
    assert_eq!(join_action(1, 1, false, 77), JoinAction::WelcomeUser);
    assert_eq!(join_action(2, 1, true, 77), JoinAction::Ignore);
    assert_eq!(
        bot_join_message(5, "Robo"),
        "Bot <@5> (Robo) has joined the server and has been given the `Bots` role."
    );
    assert_eq!(
        user_join_message(6, "Ann"),
        "Hmmmm... looks like <@6> (Ann) has strolled in. Can we trust them?"
    );
    assert_eq!(
        failure_reply(&CommandFailure::Failed(s("oops"))),
        "There was an error running this command: oops"
    );
    assert_eq!(
        failure_reply(&CommandFailure::CheckFailed(Some(s("no")))),
        "Whoa there, do you have permission to do this?: no"
    );
    assert_eq!(
        failure_reply(&CommandFailure::CheckFailed(None)),
        "You don't have permission to do this but we couldn't figure out why..."
    );
    assert!(in_server(Some(870950609291972618), "870950609291972618"));
    assert!(!in_server(None, "1"));
    assert!(is_admin_dev(false, true));
    assert!(!is_admin_dev(false, false));
    assert_eq!(age_reply("ann", "2020"), "ann's account was created at 2020");
}

#[test]
fn explanations() {
    assert!(explanation(None).starts_with("\nWelcome to IBL"));
    assert!(explanation(Some(ExplainOption::Claim)).contains("``/claim``"));
    assert_eq!(ExplainOption::ApproveDeny.name(), "Approve/Deny");
    assert!(Bool::True.to_bool());
    assert!(!Bool::False.to_bool());
}

#[test]
fn config_defaults_and_environments() {
    let c = Config::default();
    assert_eq!(c.server_port.get_for_env("staging"), 3011);
    assert_eq!(c.server_port.get_for_env("prod"), 3010);
    assert_eq!(c.prefix.get_for_env("anything"), "ibs!");
    assert_eq!(c.owners, vec![510065483693817867]);
    let d = Differs { staging: s("a"), prod: s("b") };
    assert_eq!(d.get_for_env("staging"), "a");
    assert_eq!(d.get_for_env("production"), "b");
}

#[test]
fn parsing() {
    assert_eq!(parse_bool("TRUE"), Ok(true));
    assert_eq!(parse_bool("f"), Ok(false));
    assert!(parse_bool("yes").is_err());
    assert_eq!(parse_i32("-42"), Ok(-42));
    assert_eq!(parse_i32("+7"), Ok(7));
    assert_eq!(parse_i32(""), Err(IntError::Empty));
    assert_eq!(parse_i32("2147483648"), Err(IntError::PosOverflow));
    assert_eq!(parse_i32("-2147483649"), Err(IntError::NegOverflow));
    assert_eq!(parse_hrs("1 year"), Ok(365 * 24));
    assert_eq!(parse_hrs("2 mo"), Ok(2 * 30 * 24));
    assert_eq!(parse_hrs("3 w"), Ok(3 * 7 * 24));
    assert_eq!(parse_hrs("5 hrs"), Ok(5));
    assert_eq!(parse_hrs("5  hrs"), Err(HoursError::MissingSpace));
    assert_eq!(decimal(0), "0");
    assert_eq!(decimal(1234567890123), "1234567890123");
}

#[test]
fn users_and_rpc_server() {
    assert_eq!(display_name(Some("Nick"), "user"), "Nick");
    assert_eq!(display_name(None, "user"), "user");
    assert_eq!(status_text(Some(Presence::DoNotDisturb)), "dnd");
    assert_eq!(status_text(None), "offline");
    assert_eq!(discord_user_expiry_time(), 28800);
    let a = PlatformUser { id: s("1"), username: s("a"), avatar: s(""), display_name: s("a"), bot: false, status: s("online") };
    let b = PlatformUser { id: s("1"), username: s("b"), avatar: s("x"), display_name: s("b"), bot: true, status: s("idle") };
    assert!(a == b);
    let c = PlatformUser { id: s("2"), ..a.clone() };
    assert!(a != c);
    assert_eq!(RPCResponse::StaffOnly.status(), 403);
    assert_eq!(RPCResponse::InvalidProtocol.message(), "Out of date client. Please use the bot until this is fixed");
    assert_eq!(RPCResponse::Failed(s("x")).status(), 400);
    assert_eq!(Success::NoContent.status(), 204);
    let req = RPCRequest {
        user_id: s("1"),
        method: RPCMethod::default(),
        api_token: s("t"),
        rpc_identity: s("i"),
        protocol: 1,
    };
    match web_rpc(&req, WebRpcStage::AwaitingKeychain, WebRpcEvent::Keychain(None)) {
        (WebRpcStage::Done, WebRpcAction::Answer(Err(RPCResponse::InvalidIdentity))) => {}
        other => panic!("unexpected {:?}", other),
    }
    let auth = AuthPayload { user_id: s("1"), token: s("t") };
    assert_eq!(auth.authorize(false, true).unwrap_err(), "User not found");
    assert_eq!(auth.authorize(true, false).unwrap_err(), "User is not staff");
    assert!(auth.authorize(true, true).is_ok());
    match echo("hi") {
        AshfurResponse::Content(c) => assert_eq!(c, "hi"),
        _ => panic!("expected content"),
    }
    assert_eq!(AshfurResponse::NoContent.status(), 204);
}

#[test]
fn training_server_setup() {
    let names = vec![s("Staff"), s("123"), s("Other"), s("123")];
    assert_eq!(find_training_servers(&names, "123"), vec![1, 3]);
    assert!(find_training_servers(&vec![s("x")], "123").is_empty());
    let ch = invite_channel_name();
    assert!(ch.starts_with("invite-attempt-"));
    assert_eq!(ch.len(), 21);
    assert_eq!(admin_setup(true, None), AdminSetup::Ready);
    assert_eq!(admin_setup(false, Some(4)), AdminSetup::GiveRole(4));
    assert_eq!(admin_setup(false, None), AdminSetup::CreateRole);
    assert_eq!(
        reinvite_message(42),
        "You will need to reinvite this bot to the server so scopes can be set properly! Use ``https://discord.com/oauth2/authorize?client_id=42&scope=bot%20applications.commands&permissions=8``. Do this now then rerun ``/queue``!"
    );
}
