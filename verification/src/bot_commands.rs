//! Decisions of the Discord bot's commands and events: bot-owner roles, new
//! members, command errors and the permission checks of commands.
use crate::config::Roles;
use crate::ids::contains_id;
use crate::managers::OwnedBy;
use crate::target_types::TargetType;
use crate::parse::{parse_ids, parse_u64, parse_u64_spec, parsed_ids, IntError};
use crate::text::{concat, decimal, decimal_spec, owned, str_eq, str_views};
use vstd::prelude::*;

verus! {

/// The review states of a user's bots: whether any is approved or
/// certified, and whether any is certified.
pub open spec fn bot_states(owned: Seq<OwnedBy>) -> (bool, bool)
    decreases owned.len(),
{
    if owned.len() == 0 {
        (false, false)
    } else {
        let (approved, certified) = bot_states(owned.drop_last());
        let o = owned.last();
        if o.target_type == TargetType::Bot && o.entity_state@ == "approved"@ {
            (true, certified)
        } else if o.target_type == TargetType::Bot && o.entity_state@ == "certified"@ {
            (true, true)
        } else {
            (approved, certified)
        }
    }
}

/// Whether the user owns any bot.
pub open spec fn owns_a_bot(owned: Seq<OwnedBy>) -> bool {
    exists|i: int| 0 <= i < owned.len() && #[trigger] owned[i].target_type == TargetType::Bot
}

/// The roles to give and take from a bot owner.
#[derive(Debug, Clone)]
pub struct RolePlan {
    /// Whether the owner has a certified bot
    pub certified: bool,
    pub add: Vec<u64>,
    pub remove: Vec<u64>,
}

/// The roles a member holds once a plan is applied.
pub open spec fn roles_after(held: Seq<u64>, add: Seq<u64>, remove: Seq<u64>) -> Set<u64> {
    held.to_set().union(add.to_set()).difference(remove.to_set())
}

/// Plans the roles of a bot owner from the entities they own and the roles
/// they hold: a bot developer role for an approved or certified bot, and the
/// certified developer role exactly when one of their bots is certified.
pub fn plan_bot_roles(entities: &Vec<OwnedBy>, held: &Vec<u64>, roles: &Roles) -> (r: Result<
    RolePlan,
    String,
>)
    ensures
        !owns_a_bot(entities@) ==> r is Err && r->Err_0@
            == "You are not the owner/additional owner of any bots"@,
        owns_a_bot(entities@) && !bot_states(entities@).0 ==> r is Err && r->Err_0@
            == "You are not the owner/additional owner of any approved or certified bots"@,
        r is Ok <==> owns_a_bot(entities@) && bot_states(entities@).0,
        r matches Ok(plan) ==> {
            &&& plan.certified == bot_states(entities@).1
            &&& plan.certified ==> plan.remove@.len() == 0
            &&& plan.add@ == (if held@.contains(roles.bot_developer) {
                Seq::<u64>::empty()
            } else {
                seq![roles.bot_developer]
            }) + (if plan.certified && !held@.contains(roles.certified_developer) {
                seq![roles.certified_developer]
            } else {
                Seq::<u64>::empty()
            })
            &&& !plan.certified ==> plan.remove@ == (if held@.contains(roles.certified_developer) {
                seq![roles.certified_developer]
            } else {
                Seq::<u64>::empty()
            })
        },
{
    let mut any_bot = false;
    let mut approved = false;
    let mut certified = false;
    let mut i: usize = 0;
    while i < entities.len()
        invariant
            i <= entities.len(),
            (approved, certified) == bot_states(entities@.take(i as int)),
            any_bot == exists|j: int| 0 <= j < i && #[trigger] entities@[j].target_type == TargetType::Bot,
        decreases entities.len() - i,
    {
        assert(entities@.take(i + 1).drop_last() =~= entities@.take(i as int));
        let o = &entities[i];
        if o.target_type == TargetType::Bot {
            any_bot = true;
            if str_eq(o.entity_state.as_str(), "approved") {
                approved = true;
            } else if str_eq(o.entity_state.as_str(), "certified") {
                approved = true;
                certified = true;
            }
        }
        i = i + 1;
    }
    assert(entities@.take(entities.len() as int) =~= entities@);
    if !any_bot {
        return Err(owned("You are not the owner/additional owner of any bots"));
    }
    if !approved {
        return Err(owned("You are not the owner/additional owner of any approved or certified bots"));
    }
    let mut add: Vec<u64> = Vec::new();
    let mut remove: Vec<u64> = Vec::new();
    if !contains_id(held, roles.bot_developer) {
        add.push(roles.bot_developer);
    }
    if certified {
        if !contains_id(held, roles.certified_developer) {
            add.push(roles.certified_developer);
        }
    } else if contains_id(held, roles.certified_developer) {
        remove.push(roles.certified_developer);
    }
    assert(add@ =~= (if held@.contains(roles.bot_developer) {
        Seq::<u64>::empty()
    } else {
        seq![roles.bot_developer]
    }) + (if certified && !held@.contains(roles.certified_developer) {
        seq![roles.certified_developer]
    } else {
        Seq::<u64>::empty()
    }));
    Ok(RolePlan { certified, add, remove })
}

/// Once the plan is applied, a bot owner holds the bot developer role, and
/// the certified developer role exactly when one of their bots is certified
/// (the two roles being different).
pub proof fn law_roles_follow_the_bots(
    held: Seq<u64>,
    add: Seq<u64>,
    remove: Seq<u64>,
    certified: bool,
    bot_developer: u64,
    certified_developer: u64,
)
    requires
        bot_developer != certified_developer,
        certified ==> remove.len() == 0,
        add == (if held.contains(bot_developer) {
            Seq::<u64>::empty()
        } else {
            seq![bot_developer]
        }) + (if certified && !held.contains(certified_developer) {
            seq![certified_developer]
        } else {
            Seq::<u64>::empty()
        }),
        !certified ==> remove == (if held.contains(certified_developer) {
            seq![certified_developer]
        } else {
            Seq::<u64>::empty()
        }),
    ensures
        roles_after(held, add, remove).contains(bot_developer),
        roles_after(held, add, remove).contains(certified_developer) == certified,
{
    let s = roles_after(held, add, remove);
    if !held.contains(bot_developer) {
        assert(add[0] == bot_developer);
        assert(add.to_set().contains(bot_developer));
    } else {
        assert(held.to_set().contains(bot_developer));
    }
    if certified {
        assert(remove.to_set() =~= Set::<u64>::empty());
        if !held.contains(certified_developer) {
            assert(add[add.len() - 1] == certified_developer);
            assert(add.contains(certified_developer));
            assert(add.to_set().contains(certified_developer));
        } else {
            assert(held.to_set().contains(certified_developer));
        }
    } else {
        if held.contains(certified_developer) {
            assert(remove[0] == certified_developer);
            assert(remove.to_set().contains(certified_developer));
        } else {
            assert(!add.contains(certified_developer)) by {
                if add.contains(certified_developer) {
                    let k = choose|k: int| 0 <= k < add.len() && add[k] == certified_developer;
                    assert(add[k] == bot_developer);
                }
            }
            assert(!held.to_set().contains(certified_developer));
            assert(!add.to_set().contains(certified_developer));
        }
    }
    assert(s.contains(bot_developer) == ((held.to_set().contains(bot_developer) || add.to_set().contains(bot_developer)) && !remove.to_set().contains(bot_developer)));
    if remove.len() > 0 {
        assert(remove =~= seq![certified_developer]);
        assert(!remove.contains(bot_developer)) by {
            if remove.contains(bot_developer) {
                let k = choose|k: int| 0 <= k < remove.len() && remove[k] == bot_developer;
                assert(remove[k] == certified_developer);
            }
        }
    }
}

/// What happens when someone joins a server.
#[derive(Debug, Clone, PartialEq, Eq)]
pub enum JoinAction {
    /// Announce the bot, and give it the role `role` on the server `server`,
    /// with `reason` in the audit log
    WelcomeBot { server: u64, role: u64, reason: String },
    /// Announce the user
    WelcomeUser,
    /// Nothing
    Ignore,
}

/// What happens when a member joins the server `guild`: joins to the main
/// server are announced, and bots get the bot role `bot_role` there, with the
/// audit reason `Bot added to server`.
pub fn join_action(guild: u64, main_server: u64, is_bot: bool, bot_role: u64) -> (r: JoinAction)
    ensures
        guild == main_server && is_bot ==> (r matches JoinAction::WelcomeBot { server, role, reason }
            && server == main_server && role == bot_role && reason@ == "Bot added to server"@),
        guild == main_server && !is_bot ==> r == JoinAction::WelcomeUser,
        guild != main_server ==> r == JoinAction::Ignore,
{
    if guild != main_server {
        JoinAction::Ignore
    } else if is_bot {
        JoinAction::WelcomeBot { server: main_server, role: bot_role, reason: owned("Bot added to server") }
    } else {
        JoinAction::WelcomeUser
    }
}

/// The announcement of a bot joining the main server.
pub fn bot_join_message(bot_id: u64, name: &str) -> (r: String)
    ensures
        r@ == "Bot <@"@ + decimal_spec(bot_id as nat) + "> ("@ + name@
            + ") has joined the server and has been given the `Bots` role."@,
{
    let a = concat("Bot <@", decimal(bot_id).as_str());
    let b = concat(a.as_str(), "> (");
    let c = concat(b.as_str(), name);
    concat(c.as_str(), ") has joined the server and has been given the `Bots` role.")
}

/// The announcement of a user joining the main server.
pub fn user_join_message(user_id: u64, name: &str) -> (r: String)
    ensures
        r@ == "Hmmmm... looks like <@"@ + decimal_spec(user_id as nat) + "> ("@ + name@
            + ") has strolled in. Can we trust them?"@,
{
    let a = concat("Hmmmm... looks like <@", decimal(user_id).as_str());
    let b = concat(a.as_str(), "> (");
    let c = concat(b.as_str(), name);
    concat(c.as_str(), ") has strolled in. Can we trust them?")
}

/// What went wrong with a command, as the error handler answers it.
#[derive(Debug, Clone)]
pub enum CommandFailure {
    /// The command failed with this error text
    Failed(String),
    /// A check refused the command, with this reason if it gave one
    CheckFailed(Option<String>),
}

/// The answer to a failed command.
pub fn failure_reply(f: &CommandFailure) -> (r: String)
    ensures
        f matches CommandFailure::Failed(e) ==> r@ == "There was an error running this command: "@
            + e@,
        f matches CommandFailure::CheckFailed(Some(e)) ==> r@
            == "Whoa there, do you have permission to do this?: "@ + e@,
        f matches CommandFailure::CheckFailed(None) ==> r@
            == "You don't have permission to do this but we couldn't figure out why..."@,
{
    match f {
        CommandFailure::Failed(e) => concat("There was an error running this command: ", e.as_str()),
        CommandFailure::CheckFailed(Some(e)) => concat(
            "Whoa there, do you have permission to do this?: ",
            e.as_str(),
        ),
        CommandFailure::CheckFailed(None) => owned(
            "You don't have permission to do this but we couldn't figure out why...",
        ),
    }
}

/// Whether a command runs in the server whose id is written `server_id`
/// (`guild` is the server it runs in, `None` in direct messages).
pub fn in_server(guild: Option<u64>, server_id: &str) -> (r: bool)
    ensures
        r == (guild matches Some(g) && decimal_spec(g as nat) == server_id@),
{
    match guild {
        Some(g) => str_eq(decimal(g).as_str(), server_id),
        None => false,
    }
}

/// Whether a user passes the admin-or-developer check.
pub fn is_admin_dev(admin: bool, ibldev: bool) -> (r: bool)
    ensures
        r == (admin || ibldev),
{
    admin || ibldev
}

/// The reply to `age`: when a user's account was created.
pub fn age_reply(name: &str, created_at: &str) -> (r: String)
    ensures
        r@ == name@ + "'s account was created at "@ + created_at@,
{
    let a = concat(name, "'s account was created at ");
    concat(a.as_str(), created_at)
}

/// The users whose presence in the main server makes a bot's owners count as
/// present: the owner, whose id must be a number, then each additional owner
/// whose id is one (the others are skipped).
pub fn owner_ids(owner: &str, additional: &Vec<String>) -> (r: Result<Vec<u64>, IntError>)
    ensures
        parse_u64_spec(owner@) matches Err(e) ==> r == Err::<Vec<u64>, IntError>(e),
        parse_u64_spec(owner@) matches Ok(n) ==> r is Ok && r->Ok_0@ == seq![n] + parsed_ids(
            str_views(additional@),
        ),
{
    let first = match parse_u64(owner) {
        Ok(n) => n,
        Err(e) => {
            return Err(e);
        },
    };
    let rest = parse_ids(additional);
    let mut ids: Vec<u64> = Vec::new();
    ids.push(first);
    let mut i: usize = 0;
    while i < rest.len()
        invariant
            i <= rest.len(),
            ids@ == seq![first] + rest@.take(i as int),
        decreases rest.len() - i,
    {
        ids.push(rest[i]);
        assert(rest@.take(i + 1) =~= rest@.take(i as int).push(rest@[i as int]));
        i = i + 1;
    }
    assert(rest@.take(rest.len() as int) =~= rest@);
    Ok(ids)
}

/// Whether the owned entity is a bot in the given state.
pub open spec fn owns_bot_in(owned: Seq<OwnedBy>, state: Seq<char>) -> bool {
    exists|i: int|
        0 <= i < owned.len() && (#[trigger] owned[i]).target_type == TargetType::Bot
            && owned[i].entity_state@ == state
}

/// An owner counts as owning an approved bot when some bot of theirs is
/// `approved` or `certified` (a certified bot is an approved one too), and
/// as owning a certified bot when some bot of theirs is `certified`.
pub proof fn law_bot_states(owned: Seq<OwnedBy>)
    ensures
        bot_states(owned).0 <==> (owns_bot_in(owned, "approved"@) || owns_bot_in(
            owned,
            "certified"@,
        )),
        bot_states(owned).1 <==> owns_bot_in(owned, "certified"@),
        owns_bot_in(owned, "certified"@) ==> bot_states(owned).0 && bot_states(owned).1,
    decreases owned.len(),
{
    if owned.len() > 0 {
        let rest = owned.drop_last();
        law_bot_states(rest);
        let n = owned.len() - 1;
        assert forall|state: Seq<char>| owns_bot_in(owned, state) <==> (owns_bot_in(rest, state) || (
        owned[n].target_type == TargetType::Bot && owned[n].entity_state@ == state)) by {
            if owns_bot_in(owned, state) {
                let i = choose|i: int|
                    0 <= i < owned.len() && (#[trigger] owned[i]).target_type == TargetType::Bot
                        && owned[i].entity_state@ == state;
                if i < n {
                    assert(rest[i] == owned[i]);
                }
            }
            if owns_bot_in(rest, state) {
                let i = choose|i: int|
                    0 <= i < rest.len() && (#[trigger] rest[i]).target_type == TargetType::Bot
                        && rest[i].entity_state@ == state;
                assert(owned[i] == rest[i]);
            }
            if owned[n].target_type == TargetType::Bot && owned[n].entity_state@ == state {
                assert(owned[n].target_type == TargetType::Bot);
            }
        }
        reveal_strlit("approved");
        reveal_strlit("certified");
        assert("approved"@ != "certified"@) by {
            assert("approved"@[0] != "certified"@[0]);
        }
    }
}

} // verus!
