//! What the staff commands report: the review leaderboard, approved bots
//! missing from the main server, owner-only commands, user cache freshness
//! and the analytics labels.
use crate::ids::contains_id;
use crate::panel::{refusal_is, refused_with, Refusal};
use crate::session::AuthData;
use crate::target_types::TargetType;
use crate::text::{decimal, decimal_spec, owned, push_str, signed_decimal, signed_decimal_spec};
use vstd::prelude::*;

verus! {

/// A staff member's review counts.
#[derive(Debug, Clone)]
pub struct ReviewStats {
    pub user_id: String,
    pub approved: Option<i64>,
    pub denied: Option<i64>,
}

/// The number of results the leaderboard shows when none is asked for.
pub fn leaderboard_limit(limit: Option<i64>) -> (r: i64)
    ensures
        limit matches Some(n) ==> r == n,
        limit is None ==> r == 5,
{
    match limit {
        Some(n) => n,
        None => 5,
    }
}

/// The medal of a leaderboard place.
pub open spec fn medal(place: int) -> Seq<char> {
    if place == 0 {
        "🥇"@
    } else if place == 1 {
        "🥈"@
    } else if place == 2 {
        "🥉"@
    } else {
        ""@
    }
}

/// A count that is missing counts as 0.
pub open spec fn count_or_zero(c: Option<i64>) -> int {
    match c {
        Some(n) => n as int,
        None => 0,
    }
}

/// The leaderboard line of the staff member at a place.
pub open spec fn leaderboard_line(place: int, s: ReviewStats) -> Seq<char> {
    medal(place) + " <@"@ + s.user_id@ + "> | **Approved: "@ + signed_decimal_spec(
        count_or_zero(s.approved),
    ) + "** | **Denied: "@ + signed_decimal_spec(count_or_zero(s.denied)) + "**\n"@
}

/// The lines of the leaderboard, best first.
pub open spec fn leaderboard_lines(stats: Seq<ReviewStats>) -> Seq<char>
    decreases stats.len(),
{
    if stats.len() == 0 {
        Seq::empty()
    } else {
        leaderboard_lines(stats.drop_last()) + leaderboard_line(stats.len() - 1, stats.last())
    }
}

/// The opening of the leaderboard.
pub open spec fn leaderboard_intro() -> Seq<char> {
    "Oh, hello there! Let's see who's been fighting bots the most :eyes:\n\n"@
}

fn medal_exec(place: usize) -> (r: &'static str)
    ensures
        r@ == medal(place as int),
{
    if place == 0 {
        "🥇"
    } else if place == 1 {
        "🥈"
    } else if place == 2 {
        "🥉"
    } else {
        ""
    }
}

/// The text of the leaderboard: the opening, then one line per staff member
/// with a medal for the first three, their approvals and their denials.
pub fn leaderboard_text(stats: &Vec<ReviewStats>) -> (r: String)
    ensures
        r@ == leaderboard_intro() + leaderboard_lines(stats@),
{
    let mut text = owned("Oh, hello there! Let's see who's been fighting bots the most :eyes:\n\n");
    let mut i: usize = 0;
    while i < stats.len()
        invariant
            i <= stats.len(),
            text@ == leaderboard_intro() + leaderboard_lines(stats@.take(i as int)),
        decreases stats.len() - i,
    {
        let st = &stats[i];
        assert(stats@.take(i + 1).drop_last() =~= stats@.take(i as int));
        let approved = match st.approved {
            Some(n) => n,
            None => 0,
        };
        let denied = match st.denied {
            Some(n) => n,
            None => 0,
        };
        let ghost before = text@;
        push_str(&mut text, medal_exec(i));
        push_str(&mut text, " <@");
        push_str(&mut text, st.user_id.as_str());
        push_str(&mut text, "> | **Approved: ");
        push_str(&mut text, signed_decimal(approved).as_str());
        push_str(&mut text, "** | **Denied: ");
        push_str(&mut text, signed_decimal(denied).as_str());
        push_str(&mut text, "**\n");
        assert(text@ =~= before + leaderboard_line(i as int, stats@[i as int]));
        i = i + 1;
    }
    assert(stats@.take(stats.len() as int) =~= stats@);
    text
}

/// The invite line of a bot missing from the main server.
pub open spec fn invite_line(id: Seq<char>) -> Seq<char> {
    id + " https://discord.com/oauth2/authorize?client_id="@ + id
        + "&permissions=0&scope=bot%20applications.commands\n"@
}

/// The invite lines of the bots.
pub open spec fn invite_lines(ids: Seq<Seq<char>>) -> Seq<char>
    decreases ids.len(),
{
    if ids.len() == 0 {
        Seq::empty()
    } else {
        invite_lines(ids.drop_last()) + invite_line(ids.last())
    }
}

/// The report on approved bots missing from the main server: invite lines
/// for the first ten, and how many there are.
pub fn uninvited_report(missing: &Vec<String>) -> (r: String)
    ensures
        r@ == invite_lines(crate::text::str_views(missing@).take(
            if missing@.len() < 10 { missing@.len() as int } else { 10 },
        )) + "**Total Len:** "@ + decimal_spec(missing@.len() as nat),
{
    let shown: usize = if missing.len() < 10 { missing.len() } else { 10 };
    let ghost ids = crate::text::str_views(missing@);
    let mut text = String::new();
    let mut i: usize = 0;
    while i < shown
        invariant
            i <= shown,
            shown <= missing.len(),
            ids == crate::text::str_views(missing@),
            text@ == invite_lines(ids.take(i as int)),
        decreases shown - i,
    {
        assert(ids.take(i + 1).drop_last() =~= ids.take(i as int));
        assert(ids.take(i + 1).last() == missing@[i as int]@);
        let ghost before = text@;
        let id = missing[i].as_str();
        push_str(&mut text, id);
        push_str(&mut text, " https://discord.com/oauth2/authorize?client_id=");
        push_str(&mut text, id);
        push_str(&mut text, "&permissions=0&scope=bot%20applications.commands\n");
        assert(text@ =~= before + invite_line(missing@[i as int]@));
        i = i + 1;
    }
    push_str(&mut text, "**Total Len:** ");
    push_str(&mut text, decimal(missing.len() as u64).as_str());
    text
}

/// Checks a command only owners may use: `None` for an owner, else the reply.
pub fn owner_only(owners: &Vec<u64>, author: u64) -> (r: Option<String>)
    ensures
        owners@.contains(author) <==> r is None,
        r matches Some(m) ==> m@ == "Only owners can update the main site"@,
{
    if contains_id(owners, author) {
        None
    } else {
        Some(owned("Only owners can update the main site"))
    }
}

/// The reply to the production update command, which moved elsewhere.
pub fn updprod_reply() -> (r: &'static str)
    ensures
        r@ == "``updprod`` has been moved to https://sysmanage.infinitybots.gg > Custom Actions"@,
{
    "``updprod`` has been moved to https://sysmanage.infinitybots.gg > Custom Actions"
}

/// Whether a cached user, last updated at `last_updated` (in seconds), is
/// stale at `now` after `expiry` seconds.
pub fn cache_expired(last_updated: i64, expiry: i64, now: i64) -> (r: bool)
    requires
        i64::MIN <= last_updated + expiry <= i64::MAX,
    ensures
        r == (last_updated + expiry < now),
{
    last_updated + expiry < now
}

/// The label of a ticket count: `open` or `closed`.
pub fn ticket_label(open: bool) -> (r: &'static str)
    ensures
        open ==> r@ == "open"@,
        !open ==> r@ == "closed"@,
{
    if open {
        "open"
    } else {
        "closed"
    }
}

/// Checks the permission to refresh the role of the staff with the most
/// reviews: refused without it.
pub fn check_refresh_permission(allowed: bool) -> (r: Result<(), String>)
    ensures
        r is Ok <==> allowed,
        r is Err ==> r->Err_0@ == "You do not have permission to use this command"@,
{
    if !allowed {
        return Err(owned("You do not have permission to use this command"));
    }
    Ok(())
}

/// The `ILIKE` pattern that finds names containing the query.
pub fn search_pattern(query: &str) -> (r: String)
    ensures
        r@ == seq!['%'] + query@ + seq!['%'],
{
    let mut p = String::new();
    crate::text::push_char(&mut p, '%');
    push_str(&mut p, query);
    crate::text::push_char(&mut p, '%');
    p
}

/// The CDN address of a server's avatar.
pub fn server_avatar_url(cdn_url: &str, server_id: &str) -> (r: String)
    ensures
        r@ == cdn_url@ + "/servers/avatars/"@ + server_id@ + ".webp"@,
{
    let mut p = owned(cdn_url);
    push_str(&mut p, "/servers/avatars/");
    push_str(&mut p, server_id);
    push_str(&mut p, ".webp");
    p
}

/// HTTP status of a search the panel cannot do yet.
pub const NOT_IMPLEMENTED: u16 = 501;

/// Checks that entities of this type can be searched: bots and servers.
pub fn check_searchable(target_type: TargetType) -> (r: Result<(), Refusal>)
    ensures
        r is Ok <==> (target_type == TargetType::Bot || target_type == TargetType::Server),
        !(target_type == TargetType::Bot || target_type == TargetType::Server) ==> refused_with(
            r,
            NOT_IMPLEMENTED,
            "Searching this target type is not implemented"@,
        ),
{
    match target_type {
        TargetType::Bot => Ok(()),
        TargetType::Server => Ok(()),
        _ => Err(Refusal::new(NOT_IMPLEMENTED, owned("Searching this target type is not implemented"))),
    }
}

/// What an entity search does next.
#[derive(Debug)]
pub enum SearchStep {
    /// Answer with the refusal; no entity is looked up.
    Refuse(Refusal),
    /// Search the bots.
    SearchBots,
    /// Search the servers.
    SearchServers,
}

/// Decides an entity search from the outcome of checking the login token:
/// a refused login is the answer; then only bots and servers are searched,
/// and any other type is answered with 501 without a query.
pub fn search_step(auth: Result<AuthData, Refusal>, target_type: TargetType) -> (r: SearchStep)
    ensures
        auth matches Err(e) ==> (r matches SearchStep::Refuse(f) && f.status == e.status
            && f.message@ == e.message@),
        auth is Ok && target_type == TargetType::Bot ==> r is SearchBots,
        auth is Ok && target_type == TargetType::Server ==> r is SearchServers,
        auth is Ok && !(target_type == TargetType::Bot || target_type == TargetType::Server) ==> (
        r matches SearchStep::Refuse(f) && refusal_is(
            f,
            NOT_IMPLEMENTED,
            "Searching this target type is not implemented"@,
        )),
{
    match auth {
        Err(e) => SearchStep::Refuse(e),
        Ok(_) => match check_searchable(target_type) {
            Err(e) => SearchStep::Refuse(e),
            Ok(()) => if target_type == TargetType::Bot {
                SearchStep::SearchBots
            } else {
                SearchStep::SearchServers
            },
        },
    }
}

} // verus!
