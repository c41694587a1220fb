use arcadia::parse::{BoolError, HoursError};
use arcadia::parse::{parse_ids, parse_u64, IntError};
use arcadia::bot_commands::owner_ids;
use arcadia::target_types::vanity_code;
use arcadia::reports::{
    cache_expired, check_refresh_permission, leaderboard_limit, leaderboard_text, owner_only,
    ticket_label, uninvited_report, updprod_reply, ReviewStats,
};
use arcadia::target_types::TargetType;
use arcadia::text::{contains_text, signed_decimal};

fn s(v: &str) -> String {
    v.to_string()
}

#[test]
fn leaderboard_lines_carry_medals() {
    assert_eq!(leaderboard_limit(None), 5);
    assert_eq!(leaderboard_limit(Some(3)), 3);
    let stats = vec![
        ReviewStats { user_id: s("1"), approved: Some(4), denied: Some(1) },
        ReviewStats { user_id: s("2"), approved: None, denied: Some(2) },
        ReviewStats { user_id: s("3"), approved: Some(1), denied: None },
        ReviewStats { user_id: s("4"), approved: Some(1), denied: Some(0) },
    ];
    assert_eq!(
        leaderboard_text(&stats),
        "Oh, hello there! Let's see who's been fighting bots the most :eyes:\n\n\
🥇 <@1> | **Approved: 4** | **Denied: 1**\n\
🥈 <@2> | **Approved: 0** | **Denied: 2**\n\
🥉 <@3> | **Approved: 1** | **Denied: 0**\n \
<@4> | **Approved: 1** | **Denied: 0**\n"
    );
    assert_eq!(
        leaderboard_text(&vec![]),
        "Oh, hello there! Let's see who's been fighting bots the most :eyes:\n\n"
    );
}

#[test]
fn uninvited_bots_report() {
    let ids: Vec<String> = (1..=12).map(|i| i.to_string()).collect();
    let report = uninvited_report(&ids);
    assert!(report.starts_with("1 https://discord.com/oauth2/authorize?client_id=1&permissions=0&scope=bot%20applications.commands\n"));
    assert!(report.contains("10 https://discord.com/oauth2/authorize?client_id=10&"));
    assert!(!report.contains("client_id=11&"));
    assert!(report.ends_with("**Total Len:** 12"));
    assert_eq!(uninvited_report(&vec![]), "**Total Len:** 0");
}

#[test]
fn owner_only_commands() {
    assert_eq!(owner_only(&vec![1, 2], 2), None);
    assert_eq!(owner_only(&vec![1, 2], 3), Some(s("Only owners can update the main site")));
    assert!(updprod_reply().starts_with("``updprod`` has been moved"));
    assert_eq!(
        check_refresh_permission(false).unwrap_err(),
        "You do not have permission to use this command"
    );
    assert!(check_refresh_permission(true).is_ok());
}

#[test]
fn cache_and_labels() {
    assert!(cache_expired(100, 8 * 3600, 100 + 8 * 3600 + 1));
    assert!(!cache_expired(100, 8 * 3600, 100 + 8 * 3600));
    assert_eq!(ticket_label(true), "open");
    assert_eq!(ticket_label(false), "closed");
}

#[test]
fn text_helpers() {
    assert_eq!(signed_decimal(-45), "-45");
    assert_eq!(signed_decimal(i64::MIN), "-9223372036854775808");
    assert_eq!(signed_decimal(0), "0");
    assert!(contains_text("VoteBanAdd", "BanA"));
    assert!(contains_text("abc", ""));
    assert!(!contains_text("ab", "abc"));
}

#[test]
fn all_target_types_in_order() {
    assert_eq!(
        TargetType::all(),
        vec![TargetType::Bot, TargetType::Server, TargetType::Team, TargetType::Pack, TargetType::User]
    );
}

#[test]
fn ids_are_read_as_rust_reads_u64() {
    assert_eq!(parse_u64("18446744073709551615"), Ok(u64::MAX));
    assert_eq!(parse_u64("18446744073709551616"), Err(IntError::PosOverflow));
    assert_eq!(parse_u64("+12"), Ok(12));
    assert_eq!(parse_u64("-12"), Err(IntError::InvalidDigit));
    assert_eq!(parse_u64("-"), Err(IntError::InvalidDigit));
    assert_eq!(parse_u64(""), Err(IntError::Empty));
    for t in ["0", "42", "+7", "-1", "x", "", "99999999999999999999"] {
        assert_eq!(parse_u64(t).ok(), t.parse::<u64>().ok());
    }
    assert_eq!(parse_ids(&vec![s("1"), s("x"), s("3")]), vec![1, 3]);
}

#[test]
fn bot_owner_ids() {
    assert_eq!(owner_ids("5", &vec![s("6"), s("bad"), s("7")]).unwrap(), vec![5, 6, 7]);
    assert_eq!(owner_ids("bad", &vec![s("6")]).unwrap_err(), IntError::InvalidDigit);
}

#[test]
fn vanity_codes() {
    assert_eq!(vanity_code(Some(s("ibl"))).unwrap(), "ibl");
    assert_eq!(vanity_code(None).unwrap_err(), "No code found for vanity");
}

#[test]
fn written_ids_read_back() {
    for n in [0u64, 7, 10, 758641373074423808, u64::MAX] {
        assert_eq!(parse_u64(&arcadia::text::decimal(n)), Ok(n));
    }
}

#[test]
fn entity_search() {
    assert_eq!(arcadia::reports::search_pattern("ninja"), "%ninja%");
    assert_eq!(
        arcadia::reports::server_avatar_url("https://cdn.infinitybots.gg", "12"),
        "https://cdn.infinitybots.gg/servers/avatars/12.webp"
    );
    assert!(arcadia::reports::check_searchable(TargetType::Server).is_ok());
    let e = arcadia::reports::check_searchable(TargetType::Team).unwrap_err();
    assert_eq!((e.status, e.message.as_str()), (501, "Searching this target type is not implemented"));
}

#[test]
fn parse_error_messages_match_rust() {
    assert_eq!(IntError::Empty.message(), "".parse::<i32>().unwrap_err().to_string());
    assert_eq!(IntError::InvalidDigit.message(), "x".parse::<i32>().unwrap_err().to_string());
    assert_eq!(IntError::PosOverflow.message(), "9999999999".parse::<i32>().unwrap_err().to_string());
    assert_eq!(IntError::NegOverflow.message(), "-9999999999".parse::<i32>().unwrap_err().to_string());
    assert_eq!(
        HoursError::MissingSpace.message(),
        "Invalid time format. Format must be WITH A SPACE BETWEEN THE NUMBER AND THE UNIT"
    );
    assert_eq!(
        HoursError::UnknownUnit.message(),
        "Invalid time format. Unit must be years, months, weeks, days or hours"
    );
    assert_eq!(HoursError::InvalidNumber(IntError::Empty).message(), "cannot parse integer from empty string");
    assert_eq!(BoolError::InvalidBoolean.message(), "Invalid boolean");
}
