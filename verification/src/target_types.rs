//! The kinds of entity that staff actions are aimed at.
use crate::text::{owned, str_eq};
use vstd::prelude::*;

verus! {

/// The kind of entity a staff action is aimed at.
#[derive(Debug, Clone, Copy, PartialEq, Eq, Structural)]
pub enum TargetType {
    Bot,
    Server,
    Team,
    Pack,
    User,
}

impl Default for TargetType {
    fn default() -> (r: Self)
        ensures
            r == TargetType::Bot,
    {
        TargetType::Bot
    }
}

/// The lowercase name of a target type, as shown to users and stored.
pub open spec fn display_spec(t: TargetType) -> Seq<char> {
    match t {
        TargetType::Bot => "bot"@,
        TargetType::Server => "server"@,
        TargetType::Team => "team"@,
        TargetType::Pack => "pack"@,
        TargetType::User => "user"@,
    }
}

/// The name of the variant, as written in requests.
pub open spec fn variant_name_spec(t: TargetType) -> Seq<char> {
    match t {
        TargetType::Bot => "Bot"@,
        TargetType::Server => "Server"@,
        TargetType::Team => "Team"@,
        TargetType::Pack => "Pack"@,
        TargetType::User => "User"@,
    }
}

/// The column that holds the id of an entity of this type.
pub open spec fn id_column_spec(t: TargetType) -> Seq<char> {
    match t {
        TargetType::Bot => "bot_id"@,
        TargetType::Server => "server_id"@,
        TargetType::Team => "id"@,
        TargetType::Pack => "url"@,
        TargetType::User => "user_id"@,
    }
}

/// The entity kind of a row of the owned-entities query.
pub open spec fn from_entity_spec(s: Seq<char>) -> Option<TargetType> {
    if s == "bot"@ {
        Some(TargetType::Bot)
    } else if s == "server"@ {
        Some(TargetType::Server)
    } else if s == "pack"@ {
        Some(TargetType::Pack)
    } else {
        None
    }
}

impl TargetType {
    /// Whether entities of this type can be voted for.
    pub fn supports_votes(&self) -> (r: bool)
        ensures
            r == (*self != TargetType::User),
    {
        match self {
            TargetType::Bot => true,
            TargetType::Server => true,
            TargetType::Team => true,
            TargetType::Pack => true,
            TargetType::User => false,
        }
    }

    /// The column that holds the id of an entity of this type.
    pub fn id(&self) -> (r: String)
        ensures
            r@ == id_column_spec(*self),
    {
        match self {
            TargetType::Bot => owned("bot_id"),
            TargetType::Server => owned("server_id"),
            TargetType::Team => owned("id"),
            TargetType::Pack => owned("url"),
            TargetType::User => owned("user_id"),
        }
    }

    /// The lowercase name of the target type (what its `Display` writes).
    pub fn display_name(&self) -> (r: String)
        ensures
            r@ == display_spec(*self),
    {
        match self {
            TargetType::Bot => owned("bot"),
            TargetType::Server => owned("server"),
            TargetType::Team => owned("team"),
            TargetType::Pack => owned("pack"),
            TargetType::User => owned("user"),
        }
    }

    /// The target type named by its variant name (`Bot`, `Server`, ...).
    pub fn from_variant_name(s: &str) -> (r: Option<TargetType>)
        ensures
            r matches Some(t) ==> variant_name_spec(t) == s@,
            r is None ==> forall|t: TargetType| variant_name_spec(t) != s@,
    {
        if str_eq(s, "Bot") {
            Some(TargetType::Bot)
        } else if str_eq(s, "Server") {
            Some(TargetType::Server)
        } else if str_eq(s, "Team") {
            Some(TargetType::Team)
        } else if str_eq(s, "Pack") {
            Some(TargetType::Pack)
        } else if str_eq(s, "User") {
            Some(TargetType::User)
        } else {
            proof {
                assert forall|t: TargetType| variant_name_spec(t) != s@ by {
                    match t {
                        TargetType::Bot => {},
                        TargetType::Server => {},
                        TargetType::Team => {},
                        TargetType::Pack => {},
                        TargetType::User => {},
                    }
                }
            }
            None
        }
    }

    /// The kind of entity that a row of the owned-entities query names
    /// (`bot`, `server` or `pack`); `None` for any other text.
    pub fn from_entity(s: &str) -> (r: Option<TargetType>)
        ensures
            r == from_entity_spec(s@),
    {
        if str_eq(s, "bot") {
            Some(TargetType::Bot)
        } else if str_eq(s, "server") {
            Some(TargetType::Server)
        } else if str_eq(s, "pack") {
            Some(TargetType::Pack)
        } else {
            None
        }
    }
}

/// The variant names of all target types, in declaration order.
pub open spec fn all_target_types() -> Seq<TargetType> {
    seq![TargetType::Bot, TargetType::Server, TargetType::Team, TargetType::Pack, TargetType::User]
}

impl TargetType {
    /// All target types, in declaration order (what the panel is greeted
    /// with).
    pub fn all() -> (r: Vec<TargetType>)
        ensures
            r@ == all_target_types(),
    {
        let mut v: Vec<TargetType> = Vec::new();
        v.push(TargetType::Bot);
        v.push(TargetType::Server);
        v.push(TargetType::Team);
        v.push(TargetType::Pack);
        v.push(TargetType::User);
        assert(v@ =~= all_target_types());
        v
    }
}

/// Reading the variant name of a target type gives it back.
pub proof fn law_variant_name_round_trip(t: TargetType)
    ensures
        forall|u: TargetType| variant_name_spec(u) == variant_name_spec(t) ==> u == t,
{
    reveal_strlit("Bot");
    reveal_strlit("Server");
    reveal_strlit("Team");
    reveal_strlit("Pack");
    reveal_strlit("User");
    assert forall|u: TargetType| variant_name_spec(u) == variant_name_spec(t) implies u == t by {
        if u != t {
            assert(variant_name_spec(u)[0] != variant_name_spec(t)[0]
                || variant_name_spec(u).len() != variant_name_spec(t).len());
        }
    }
}

/// The lowercase names of different target types differ.
pub proof fn law_display_names_distinct(t: TargetType, u: TargetType)
    requires
        t != u,
    ensures
        display_spec(t) != display_spec(u),
{
    reveal_strlit("bot");
    reveal_strlit("server");
    reveal_strlit("team");
    reveal_strlit("pack");
    reveal_strlit("user");
    assert(display_spec(t)[0] != display_spec(u)[0] || display_spec(t).len() != display_spec(
        u,
    ).len());
}

/// The code of a vanity, from its stored code (absent when none was given).
pub fn vanity_code(code: Option<String>) -> (r: Result<String, String>)
    ensures
        code matches Some(c) ==> r is Ok && r->Ok_0@ == c@,
        code is None ==> r is Err && r->Err_0@ == "No code found for vanity"@,
{
    match code {
        Some(c) => Ok(c),
        None => Err(owned("No code found for vanity")),
    }
}

} // verus!
