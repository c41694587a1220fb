//! Who manages an entity (a bot, a server, a team or a user), how they are
//! mentioned, and what a user owns.
use crate::ids::{parse_uuid, uuid_parse_spec};
use crate::target_types::{from_entity_spec, TargetType};
use crate::text::{concat, owned, push_str, str_views};
use vstd::prelude::*;

verus! {

/// A manager of an entity: a user id, and whether they want to be mentioned.
#[derive(Debug, Clone)]
pub struct Manager {
    pub mentionable: bool,
    pub user: String,
}

/// The managers of an entity.
#[derive(Debug, Clone)]
pub struct EntityManagers {
    users: Vec<Manager>,
}

/// The user ids of the managers.
pub open spec fn users_of(ms: Seq<Manager>) -> Seq<Seq<char>> {
    ms.map_values(|m: Manager| m.user@)
}

/// The user ids of the managers who want to be mentioned, in order.
pub open spec fn mentionable_users(ms: Seq<Manager>) -> Seq<Seq<char>>
    decreases ms.len(),
{
    if ms.len() == 0 {
        Seq::empty()
    } else {
        let rest = mentionable_users(ms.drop_last());
        if ms.last().mentionable {
            rest.push(ms.last().user@)
        } else {
            rest
        }
    }
}

/// The mention of a user.
pub open spec fn mention(user: Seq<char>) -> Seq<char> {
    "<@"@ + user + ">"@
}

/// The mentions of the users, joined by `", "`.
pub open spec fn join_mentions(users: Seq<Seq<char>>) -> Seq<char>
    decreases users.len(),
{
    if users.len() == 0 {
        Seq::empty()
    } else if users.len() == 1 {
        mention(users[0])
    } else {
        join_mentions(users.drop_last()) + ", "@ + mention(users.last())
    }
}

impl EntityManagers {
    /// The managers, in order.
    pub closed spec fn managers(&self) -> Seq<Manager> {
        self.users@
    }

    /// A single manager who wants to be mentioned: the owning user.
    pub fn owner(user: String) -> (r: EntityManagers)
        ensures
            r.managers().len() == 1,
            r.managers()[0].mentionable,
            r.managers()[0].user@ == user@,
    {
        let mut users: Vec<Manager> = Vec::new();
        users.push(Manager { mentionable: true, user });
        EntityManagers { users }
    }

    /// The given managers, in order.
    pub fn from_members(users: Vec<Manager>) -> (r: EntityManagers)
        ensures
            r.managers() == users@,
    {
        EntityManagers { users }
    }

    /// The user ids of all managers, in order.
    pub fn all(&self) -> (r: Vec<String>)
        ensures
            str_views(r@) == users_of(self.managers()),
    {
        let mut all: Vec<String> = Vec::new();
        let mut i: usize = 0;
        while i < self.users.len()
            invariant
                i <= self.users.len(),
                str_views(all@) == users_of(self.users@.take(i as int)),
            decreases self.users.len() - i,
        {
            all.push(owned(self.users[i].user.as_str()));
            assert(users_of(self.users@.take(i + 1)) =~= users_of(self.users@.take(i as int)).push(
                self.users@[i as int].user@,
            ));
            assert(str_views(all@) =~= users_of(self.users@.take(i + 1)));
            i = i + 1;
        }
        assert(self.users@.take(self.users.len() as int) =~= self.users@);
        all
    }

    /// The user ids of the managers who want to be mentioned, in order.
    pub fn mentionables(&self) -> (r: Vec<String>)
        ensures
            str_views(r@) == mentionable_users(self.managers()),
    {
        let mut found: Vec<String> = Vec::new();
        let mut i: usize = 0;
        while i < self.users.len()
            invariant
                i <= self.users.len(),
                str_views(found@) == mentionable_users(self.users@.take(i as int)),
            decreases self.users.len() - i,
        {
            assert(self.users@.take(i + 1).drop_last() =~= self.users@.take(i as int));
            if self.users[i].mentionable {
                found.push(owned(self.users[i].user.as_str()));
                assert(str_views(found@) =~= mentionable_users(self.users@.take(i + 1)));
            }
            i = i + 1;
        }
        assert(self.users@.take(self.users.len() as int) =~= self.users@);
        found
    }

    /// The mentions (`<@id>`) of the managers who want to be mentioned,
    /// joined by `", "`.
    pub fn mention_users(&self) -> (r: String)
        ensures
            r@ == join_mentions(mentionable_users(self.managers())),
    {
        let mut text = String::new();
        let mut count: usize = 0;
        let mut i: usize = 0;
        while i < self.users.len()
            invariant
                i <= self.users.len(),
                count == mentionable_users(self.users@.take(i as int)).len(),
                count <= i,
                text@ == join_mentions(mentionable_users(self.users@.take(i as int))),
            decreases self.users.len() - i,
        {
            assert(self.users@.take(i + 1).drop_last() =~= self.users@.take(i as int));
            if self.users[i].mentionable {
                let ghost before = mentionable_users(self.users@.take(i as int));
                let ghost after = mentionable_users(self.users@.take(i + 1));
                assert(after == before.push(self.users@[i as int].user@));
                assert(after.drop_last() =~= before);
                if count > 0 {
                    push_str(&mut text, ", ");
                }
                push_str(&mut text, "<@");
                push_str(&mut text, self.users[i].user.as_str());
                push_str(&mut text, ">");
                assert(text@ =~= join_mentions(after));
                count = count + 1;
            }
            i = i + 1;
        }
        assert(self.users@.take(self.users.len() as int) =~= self.users@);
        text
    }
}

/// How the managers of an entity are found.
#[derive(Debug, Clone, Copy, PartialEq, Eq, Structural)]
pub enum ManagerLookup {
    /// Look up the bot's owner, then its team
    BotOwner,
    /// Look up the server's owning team
    ServerTeam,
    /// The team with this id
    Team(u128),
    /// Look up the user
    User,
}

/// How the managers of an entity of this type and id are found, or why they
/// cannot be.
pub open spec fn manager_lookup_spec(target_type: TargetType, target_id: Seq<char>) -> Result<
    ManagerLookup,
    Seq<char>,
> {
    match target_type {
        TargetType::Bot => Ok(ManagerLookup::BotOwner),
        TargetType::Server => Ok(ManagerLookup::ServerTeam),
        TargetType::Team => match uuid_parse_spec(target_id) {
            Ok(u) => Ok(ManagerLookup::Team(u)),
            Err(e) => Err("Error while parsing team id "@ + target_id + ": "@ + e),
        },
        TargetType::User => Ok(ManagerLookup::User),
        TargetType::Pack => Err("Packs are not supported yet!"@),
    }
}

/// How the managers of an entity are found: a team's id must be a UUID, and
/// packs have no managers yet.
pub fn manager_lookup(target_type: TargetType, target_id: &str) -> (r: Result<
    ManagerLookup,
    String,
>)
    ensures
        r is Ok ==> manager_lookup_spec(target_type, target_id@) == Ok::<
            ManagerLookup,
            Seq<char>,
        >(r->Ok_0),
        r is Err ==> manager_lookup_spec(target_type, target_id@) == Err::<
            ManagerLookup,
            Seq<char>,
        >(r->Err_0@),
{
    match target_type {
        TargetType::Bot => Ok(ManagerLookup::BotOwner),
        TargetType::Server => Ok(ManagerLookup::ServerTeam),
        TargetType::Team => match parse_uuid(target_id) {
            Ok(u) => Ok(ManagerLookup::Team(u)),
            Err(e) => {
                let a = concat("Error while parsing team id ", target_id);
                let b = concat(a.as_str(), ": ");
                Err(concat(b.as_str(), e.as_str()))
            },
        },
        TargetType::User => Ok(ManagerLookup::User),
        TargetType::Pack => Err(owned("Packs are not supported yet!")),
    }
}

/// The message for a bot with neither an owner nor a team.
pub open spec fn ownerless_bot_message(bot_id: Seq<char>) -> Seq<char> {
    "Bot "@ + bot_id + " is not owned by a team or a user. Please contact a dev right now!"@
}

/// The team owning a bot without an owning user, or the error for a bot
/// owned by neither.
pub fn bot_team(bot_id: &str, team_owner: Option<u128>) -> (r: Result<u128, String>)
    ensures
        team_owner matches Some(t) ==> r == Ok::<u128, String>(t),
        team_owner is None ==> r is Err && r->Err_0@ == ownerless_bot_message(bot_id@),
{
    match team_owner {
        Some(t) => Ok(t),
        None => {
            let a = concat("Bot ", bot_id);
            Err(concat(a.as_str(), " is not owned by a team or a user. Please contact a dev right now!"))
        },
    }
}

/// What looking a user up found.
#[derive(Debug, Clone)]
pub enum UserLookup {
    /// The user, by their stored id
    Found(String),
    /// No such user
    NotFound,
    /// The lookup failed, with this error text
    Failed(String),
}

/// The managers of a user entity (the user alone), or the error of the
/// lookup.
pub fn user_managers(target_id: &str, found: UserLookup) -> (r: Result<EntityManagers, String>)
    ensures
        found matches UserLookup::Found(u) ==> r is Ok && r->Ok_0.managers().len() == 1
            && r->Ok_0.managers()[0].mentionable && r->Ok_0.managers()[0].user@ == u@,
        found is NotFound ==> r is Err && r->Err_0@ == "User "@ + target_id@ + " not found."@,
        found matches UserLookup::Failed(e) ==> r is Err && r->Err_0@
            == "Error while checking for user "@ + target_id@ + ": "@ + e@,
{
    match found {
        UserLookup::Found(u) => Ok(EntityManagers::owner(u)),
        UserLookup::NotFound => {
            let a = concat("User ", target_id);
            Err(concat(a.as_str(), " not found."))
        },
        UserLookup::Failed(e) => {
            let a = concat("Error while checking for user ", target_id);
            let b = concat(a.as_str(), ": ");
            Err(concat(b.as_str(), e.as_str()))
        },
    }
}

/// The managers of an entity owned by a team: its members, which must not
/// be none.
pub fn team_managers(target_id: &str, members: Vec<Manager>) -> (r: Result<EntityManagers, String>)
    ensures
        members@.len() > 0 ==> r is Ok && r->Ok_0.managers() == members@,
        members@.len() == 0 ==> r is Err && r->Err_0@ == "Entity "@ + target_id@
            + " is on a team with no members. Please contact a dev right now!"@,
{
    if members.len() == 0 {
        let a = concat("Entity ", target_id);
        return Err(
            concat(a.as_str(), " is on a team with no members. Please contact a dev right now!"),
        );
    }
    Ok(EntityManagers::from_members(members))
}

/// An entity a user owns, directly or through a team.
#[derive(Debug, Clone)]
pub struct OwnedBy {
    pub target_type: TargetType,
    pub target_id: String,
    pub entity_state: String,
}

/// A row of the ownership query: the kind of entity, its id and its state.
#[derive(Debug, Clone)]
pub struct OwnedRow {
    pub entity: String,
    pub id: String,
    pub state: String,
}

/// The entities of the rows whose kind is known (`bot`, `server` or `pack`),
/// in order; rows of other kinds are skipped.
pub open spec fn owned_entities(rows: Seq<OwnedRow>) -> Seq<(TargetType, Seq<char>, Seq<char>)>
    decreases rows.len(),
{
    if rows.len() == 0 {
        Seq::empty()
    } else {
        let rest = owned_entities(rows.drop_last());
        let row = rows.last();
        match from_entity_spec(row.entity@) {
            Some(t) => rest.push((t, row.id@, row.state@)),
            None => rest,
        }
    }
}

/// The view of an owned entity.
pub open spec fn owned_view(o: OwnedBy) -> (TargetType, Seq<char>, Seq<char>) {
    (o.target_type, o.target_id@, o.entity_state@)
}

/// The entities a user owns, from the rows of the ownership query.
pub fn owned_by_rows(rows: &Vec<OwnedRow>) -> (r: Vec<OwnedBy>)
    ensures
        r@.map_values(|o: OwnedBy| owned_view(o)) == owned_entities(rows@),
{
    let mut entries: Vec<OwnedBy> = Vec::new();
    let mut i: usize = 0;
    while i < rows.len()
        invariant
            i <= rows.len(),
            entries@.map_values(|o: OwnedBy| owned_view(o)) == owned_entities(rows@.take(i as int)),
        decreases rows.len() - i,
    {
        assert(rows@.take(i + 1).drop_last() =~= rows@.take(i as int));
        let row = &rows[i];
        match TargetType::from_entity(row.entity.as_str()) {
            Some(t) => {
                entries.push(
                    OwnedBy {
                        target_type: t,
                        target_id: owned(row.id.as_str()),
                        entity_state: owned(row.state.as_str()),
                    },
                );
                assert(entries@.map_values(|o: OwnedBy| owned_view(o)) =~= owned_entities(
                    rows@.take(i + 1),
                ));
            },
            None => {},
        }
        i = i + 1;
    }
    assert(rows@.take(rows.len() as int) =~= rows@);
    entries
}

} // verus!
