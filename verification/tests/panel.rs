use arcadia::config::{Config, PanelConfig, Servers};
use arcadia::panel::{Link, PanelPerm, Refusal};
use arcadia::partners::{
    asset_removal, check_deleted_partner, check_image, check_links, check_main_scope,
    check_new_partner, check_partner_type, check_partner_user, check_updated_partner,
    partner_asset_path, partner_avatar_path, AssetRemoval, AssetState, ImageMetadata,
};
use arcadia::session::{
    begin_login, check_activation_otp, check_active, check_auth_version, check_hello_version,
    check_identity, check_mfa_member, check_mfa_secret, check_mfa_state_session, check_pending,
    check_redirect_url, check_reset_otp, check_staff_login, core_constants, gen_random,
    instance_config, mfa_setup_needed, new_login_token,
};
use arcadia::shop::{
    check_benefit_exists, check_benefit_unused, check_blog_entry_exists, check_coupon,
    check_coupon_item, check_entry_exists, check_hold_item, check_shop_item, check_shop_target,
    check_tier, hold_duration_micros, interval_seconds, settle_tiers, TierRow,
};
use arcadia::staff::{
    apply_disciplinaries, check_corresponding_role, check_create_index, check_current_index,
    check_delete_perm_changes, check_member_edit, check_perm_changes, check_position_rank,
    check_set_index, check_staff_role, check_swap, lowest_index, swap_plan, ActiveDisciplinary,
    CorrespondingServer, PartialPosition,
};

fn s(v: &str) -> String {
    v.to_string()
}

fn refused(r: Result<(), Refusal>, status: u16, message: &str) {
    let e = r.unwrap_err();
    assert_eq!(e.status, status);
    assert_eq!(e.message, message);
}

#[test]
fn panel_perm_denials() {
    assert_eq!(PanelPerm::BlogCreateEntry.perm(), "blog.create_entry");
    assert_eq!(
        PanelPerm::BlogCreateEntry.denial(),
        "You do not have permission to create blog entries [blog.create_entry]"
    );
    assert_eq!(
        PanelPerm::BotWhitelistCreate.denial(),
        "You do not have permission to add to the bot whitelist (bot_whitelist.create)"
    );
    assert_eq!(
        PanelPerm::StaffPositionsSwapIndex.denial(),
        "You do not have permission to swap indexes of staff positions [staff_positions.swap_index]"
    );
    assert!(PanelPerm::RpcLogsView.check(true).is_ok());
    refused(
        PanelPerm::RpcLogsView.check(false),
        403,
        "You do not have permission to view rpc logs [rpc_logs.view]",
    );
}

#[test]
fn lowest_index_of_positions() {
    assert_eq!(lowest_index(&vec![]), i32::MAX);
    assert_eq!(lowest_index(&vec![5, 2, 9]), 2);
    assert_eq!(lowest_index(&vec![7]), 7);
}

#[test]
fn swapping_positions() {
    let member = vec![3, 8];
    assert!(check_swap(&member, 4, 5).is_ok());
    refused(check_swap(&member, 4, 4), 400, "Positions have the same index");
    refused(
        check_swap(&member, 3, 5),
        403,
        "Either 'a' or 'b' is lower than the lowest index of the member",
    );
    refused(
        check_swap(&member, 9, 1),
        403,
        "Either 'a' or 'b' is lower than the lowest index of the member",
    );
}

#[test]
fn swap_plan_exchanges_indexes() {
    let plan = swap_plan(&vec![1], "a", "b", 4, 9).unwrap();
    assert_eq!(plan.len(), 2);
    assert_eq!((plan[0].id.as_str(), plan[0].index), ("a", 9));
    assert_eq!((plan[1].id.as_str(), plan[1].index), ("b", 4));
    let e = swap_plan(&vec![5], "a", "b", 4, 9).unwrap_err();
    assert_eq!(e.status, 403);
}

#[test]
fn setting_and_creating_indexes() {
    let member = vec![2];
    refused(check_set_index(&member, -1), 400, "Index cannot be lower than 0");
    refused(
        check_set_index(&member, 2),
        403,
        "Index to set is lower than or equal to the lowest index of the staff member",
    );
    assert!(check_set_index(&member, 3).is_ok());
    refused(
        check_current_index(&member, 1),
        403,
        "Current index of position is lower than or equal to the lowest index of the staff member",
    );
    assert!(check_current_index(&member, 10).is_ok());
    refused(check_create_index(&member, -5), 400, "Index cannot be lower than 0");
    refused(
        check_create_index(&member, 0),
        403,
        "Index is lower than or equal to the lowest index of the staff member",
    );
    assert!(check_create_index(&member, 4).is_ok());
    refused(check_position_rank(&member, 2), 403, "Index is lower than the lowest index of the member");
    assert!(check_position_rank(&member, 3).is_ok());
}

#[test]
fn member_without_positions_reaches_nothing() {
    let member: Vec<i32> = vec![];
    assert!(check_set_index(&member, i32::MAX).is_err());
    assert!(check_create_index(&member, 1000).is_err());
    assert!(check_position_rank(&member, 0).is_err());
}

#[test]
fn own_highest_position_is_out_of_reach() {
    let member = vec![4, 6];
    assert!(check_position_rank(&member, 4).is_err());
    assert!(check_position_rank(&member, 6).is_ok());
}

#[test]
fn editing_members() {
    assert!(check_member_edit(&vec![1], &vec![2]).is_ok());
    assert!(check_member_edit(&vec![1], &vec![1]).is_ok());
    refused(check_member_edit(&vec![3], &vec![2, 9]), 403, "Target has a lower index than the member");
    // transitivity on a chain
    assert!(check_member_edit(&vec![1], &vec![5]).is_ok());
    assert!(check_member_edit(&vec![5], &vec![7]).is_ok());
    assert!(check_member_edit(&vec![1], &vec![7]).is_ok());
}

#[test]
fn permission_changes() {
    assert!(check_perm_changes(Ok(())).is_ok());
    refused(
        check_perm_changes(Err(s("rpc.Claim"))),
        403,
        "You do not have permission to edit the following perms: rpc.Claim",
    );
    refused(
        check_delete_perm_changes(Err(s("x"))),
        403,
        "You do not have permission to edit the following perms [neeed to delete position]: x",
    );
}

#[test]
fn roles_of_positions() {
    refused(check_staff_role(false), 400, "Role does not exist on the staff server");
    assert!(check_staff_role(true).is_ok());
    assert_eq!(CorrespondingServer::from_name("main"), Some(CorrespondingServer::Main));
    assert_eq!(CorrespondingServer::from_name("Main"), None);
    let e = CorrespondingServer::for_role("other").unwrap_err();
    assert_eq!(e.status, 400);
    assert_eq!(
        e.message,
        "Server other is not a supported corresponding role. Supported: [\n    \"Main\",\n    \"Testing\",\n    \"Staff\",\n]"
    );
    let servers = Servers::default();
    assert_eq!(CorrespondingServer::Testing.get_id(&servers), 870952645811134475);
    assert_eq!(CorrespondingServer::Staff.get_id(&servers), 870950609291972618);
    refused(
        check_corresponding_role(123, 456, false),
        400,
        "Role 123 does not exist on the server 456",
    );
    assert!(check_corresponding_role(123, 456, true).is_ok());
}

fn pos(id: &str, index: i32) -> PartialPosition {
    PartialPosition { id: s(id), index, perms: vec![s("rpc.*")] }
}

fn disc(id: &str, additory: bool) -> ActiveDisciplinary {
    ActiveDisciplinary { id: s(id), perm_limits: vec![s("rpc.Claim")], additory }
}

#[test]
fn disciplinaries_shape_positions() {
    let none = apply_disciplinaries(vec![pos("a", 1), pos("b", 2)], &vec![]);
    assert_eq!(none.len(), 2);
    let add = apply_disciplinaries(vec![pos("a", 1)], &vec![disc("d", true)]);
    assert_eq!(add.len(), 2);
    assert_eq!(add[1].id, "d");
    assert_eq!(add[1].index, 0);
    assert_eq!(add[1].perms, vec![s("rpc.Claim")]);
    let replace = apply_disciplinaries(vec![pos("a", 1), pos("b", 2)], &vec![disc("d", false)]);
    assert_eq!(replace.len(), 1);
    assert_eq!(replace[0].id, "d");
    let both = apply_disciplinaries(vec![pos("a", 1)], &vec![disc("d", false), disc("e", true)]);
    let ids: Vec<&str> = both.iter().map(|p| p.id.as_str()).collect();
    assert_eq!(ids, vec!["d", "e"]);
    let later = apply_disciplinaries(vec![pos("a", 1)], &vec![disc("d", true), disc("e", false)]);
    let ids: Vec<&str> = later.iter().map(|p| p.id.as_str()).collect();
    assert_eq!(ids, vec!["d", "e"]);
}

fn panel() -> PanelConfig {
    let mut p = PanelConfig::default();
    p.client_id = s("99");
    p.panel_scope = s("ibl");
    p.panel_response_scope = s("ibl-resp");
    p.redirect_url = vec![s("https://a.example/cb")];
    p
}

#[test]
fn login_begins_with_the_panel_scope() {
    let p = panel();
    let start = begin_login(&p, "ibl", "https://a.example/cb").unwrap();
    assert_eq!(
        start.login_url,
        "https://discord.com/api/oauth2/authorize?client_id=99&redirect_uri=https://a.example/cb&response_type=code&scope=identify"
    );
    assert_eq!(start.scope, "ibl");
    assert_eq!(start.response_scope, "ibl-resp");
    let e = begin_login(&p, "other", "x").unwrap_err();
    assert_eq!((e.status, e.message.as_str()), (400, "Invalid scope"));
    assert!(check_redirect_url(&p, "https://a.example/cb").is_ok());
    refused(check_redirect_url(&p, "https://evil.example"), 400, "Invalid redirect url");
}

#[test]
fn session_checks() {
    assert!(check_auth_version(5).is_ok());
    refused(check_auth_version(4), 400, "Invalid version");
    refused(check_hello_version(6), 400, "Invalid version");
    refused(check_staff_login(None), 403, "You are not a staff member [not in db]");
    refused(check_staff_login(Some(0)), 403, "You are not a staff member [no positions]");
    assert!(check_staff_login(Some(2)).is_ok());
    refused(check_identity(0, Some(1)), 500, "identityExpired");
    refused(check_identity(1, None), 500, "identityExpired");
    refused(check_identity(1, Some(0)), 500, "identityExpired");
    assert!(check_identity(1, Some(1)).is_ok());
    assert!(check_active("active").is_ok());
    refused(check_active("pending"), 500, "sessionNotActive");
    assert!(check_mfa_state_session("pending").is_ok());
    assert!(check_mfa_state_session("active").is_ok());
    refused(
        check_mfa_state_session("expired"),
        400,
        "This endpoint can only be used by pending and active sessions",
    );
    refused(check_mfa_member(false), 400, "You are not a staff member");
    assert!(mfa_setup_needed(false, true));
    assert!(mfa_setup_needed(true, false));
    assert!(!mfa_setup_needed(true, true));
    refused(check_pending("active"), 400, "sessionAlreadyActive");
    assert!(check_pending("pending").is_ok());
    refused(check_mfa_secret(false), 400, "mfaNotSetup");
    refused(check_reset_otp(false), 400, "Invalid OTP Entered");
    refused(check_activation_otp(false), 400, "Invalid OTP entered");
}

#[test]
fn no_session_is_both_active_and_pending() {
    for state in ["active", "pending", "x"] {
        assert!(!(check_active(state).is_ok() && check_pending(state).is_ok()));
    }
}

#[test]
fn random_tokens() {
    let t = gen_random(32);
    assert_eq!(t.chars().count(), 32);
    assert!(t.chars().all(|c| c.is_ascii_alphanumeric()));
    assert_eq!(gen_random(0), "");
    let tok = new_login_token();
    assert!(tok.len() >= 4196 && tok.len() < 6000);
    assert!(tok.chars().all(|c| c.is_ascii_alphanumeric()));
}

#[test]
fn greeting_constants() {
    let c = Config::default();
    let k = core_constants(&c, "staging");
    assert_eq!(k.frontend_url, "https://reedwhisker.infinitybots.gg");
    assert_eq!(k.servers.main, "758641373074423808");
    let k = core_constants(&c, "prod");
    assert_eq!(k.frontend_url, "https://infinitybots.gg");
    assert_eq!(k.cdn_url, "https://cdn.infinitybots.gg");
    assert_eq!(instance_config("staging").description, "Arcadia Staging Panel Instance");
    assert_eq!(instance_config("prod").description, "Arcadia Production Panel Instance");
    assert_eq!(instance_config("prod").warnings.len(), 2);
}

fn link(name: &str, value: &str) -> Link {
    Link { name: s(name), value: s(value) }
}

#[test]
fn partner_checks() {
    refused(check_new_partner(true), 400, "Partner already exists");
    refused(check_updated_partner(false), 400, "Partner does not already exist");
    refused(check_deleted_partner(false), 400, "Partner does not exist");
    refused(check_partner_type(false), 400, "Partner type does not exist");
    refused(check_partner_user(false), 400, "User does not exist");
    assert_eq!(check_main_scope(Some("/cdn")).unwrap(), "/cdn");
    let e = check_main_scope(None).unwrap_err();
    assert_eq!(e.message, "Main scope not found");
    assert_eq!(partner_avatar_path("/cdn", "p1"), "/cdn/avatars/partners/p1.webp");
    assert_eq!(partner_asset_path("/cdn", "p1"), "/cdn/partners/p1.webp");
}

#[test]
fn partner_images() {
    assert!(check_image(&ImageMetadata::Found { is_file: true, len: 10 }).is_ok());
    refused(check_image(&ImageMetadata::Found { is_file: false, len: 10 }), 400, "Image does not exist");
    refused(
        check_image(&ImageMetadata::Found { is_file: true, len: 100_000_001 }),
        400,
        "Image is too large",
    );
    assert!(check_image(&ImageMetadata::Found { is_file: true, len: 100_000_000 }).is_ok());
    refused(check_image(&ImageMetadata::Found { is_file: true, len: 0 }), 400, "Image is empty");
    refused(
        check_image(&ImageMetadata::Unreadable { error: s("gone") }),
        400,
        "Fetching image metadata failed: gone",
    );
}

#[test]
fn partner_links() {
    refused(check_links(&vec![]), 400, "Links cannot be empty");
    assert!(check_links(&vec![link("Site", "https://x.y")]).is_ok());
    refused(check_links(&vec![link("", "https://x.y")]), 400, "Link name cannot be empty");
    refused(check_links(&vec![link("a", "")]), 400, "Link URL cannot be empty");
    refused(
        check_links(&vec![link("a", "https://ok"), link("b", "http://no")]),
        400,
        "Link URL must start with https://",
    );
    refused(
        check_links(&vec![link("a", "ftp://no"), link("", "https://ok")]),
        400,
        "Link URL must start with https://",
    );
}

#[test]
fn partner_asset_removal() {
    assert_eq!(asset_removal(&AssetState::File).unwrap(), AssetRemoval::RemoveFile);
    assert_eq!(asset_removal(&AssetState::Directory).unwrap(), AssetRemoval::RemoveDirectory);
    assert_eq!(asset_removal(&AssetState::Missing).unwrap(), AssetRemoval::Keep);
    let e = asset_removal(&AssetState::Unreadable { error: s("denied") }).unwrap_err();
    assert_eq!(e.message, "Fetching asset metadata failed due to unknown error: denied");
}

#[test]
fn shop_checks() {
    refused(check_entry_exists(0), 400, "Entry with same id does not already exist");
    assert!(check_entry_exists(1).is_ok());
    refused(check_blog_entry_exists(0), 400, "Entry does not exist");
    assert!(check_shop_target("bot").is_ok());
    assert!(check_shop_target("server").is_ok());
    refused(check_shop_target("team"), 400, "Target type must be either 'bot' or 'server'");
    refused(check_tier(true, -1, "team"), 400, "Cents cannot be lower than 0");
    refused(check_tier(false, -1, "team"), 400, "Votes cannot be lower than 0");
    refused(check_tier(false, 0, "team"), 400, "Target type must be either 'bot' or 'server'");
    assert!(check_tier(false, 0, "bot").is_ok());
    refused(check_shop_item(false, -1), 400, "Duration cannot be lower than 0");
    refused(check_benefit_exists("gold", 0), 400, "Benefit gold does not exist");
    refused(check_benefit_unused(2), 400, "Cannot delete benefit as it is used by shop items");
    refused(check_hold_item(false), 400, "Item does not exist");
    refused(check_coupon(None, Some(1), Some(1), false), 400, "Max uses must be greater than 0");
    refused(check_coupon(Some(1), Some(0), Some(1), false), 400, "Reuse wait duration must be greater than 0");
    refused(check_coupon(Some(1), Some(1), None, false), 400, "Expiry must be greater than 0");
    refused(check_coupon(Some(1), Some(1), Some(1), true), 400, "Cents cannot be lower than 0");
    assert!(check_coupon(Some(1), Some(1), Some(1), false).is_ok());
    refused(check_coupon_item("it\"em", 0), 400, "Item \"it\\\"em\" does not exist");
}

#[test]
fn tier_renumbering() {
    let rows = vec![
        TierRow { id: "new".to_string(), position: 9 },
        TierRow { id: "a".to_string(), position: 3 },
        TierRow { id: "b".to_string(), position: 4 },
        TierRow { id: "c".to_string(), position: 6 },
    ];
    let settled = settle_tiers(&rows, "new", 3).unwrap();
    let positions: Vec<i32> = settled.iter().map(|t| t.position).collect();
    assert_eq!(positions, vec![3, 4, 5, 6]);
}

#[test]
fn hold_durations() {
    assert_eq!(hold_duration_micros(90), 90_000_000);
    assert_eq!(hold_duration_micros(-2), -2_000_000);
    assert_eq!(interval_seconds(1, 1, 1_500_000), 30 * 86400 + 86400 + 1);
    assert_eq!(interval_seconds(0, 0, -1_500_000), -1);
    assert_eq!(interval_seconds(0, 0, 999_999), 0);
    for secs in [0, 1, -1, 86400, i32::MAX, i32::MIN] {
        assert_eq!(interval_seconds(0, 0, hold_duration_micros(secs)), secs as i64);
    }
}
