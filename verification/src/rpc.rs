//! Staff RPC methods: what each method is, what it needs and what it asks for.
use crate::target_types::TargetType;
use crate::parse::{
    bool_error_message, hours_error_message, parse_bool, parse_bool_spec, parse_hrs,
    parse_hrs_spec, BoolError, HoursError,
};
use crate::text::{owned, str_eq};
use vstd::prelude::*;

verus! {

/// A staff action, with the values it needs.
#[derive(Debug, Clone, PartialEq, Eq)]
pub enum RPCMethod {
    Claim { target_id: String, force: bool },
    Unclaim { target_id: String, reason: String },
    Approve { target_id: String, reason: String },
    Deny { target_id: String, reason: String },
    Unverify { target_id: String, reason: String },
    PremiumAdd { target_id: String, reason: String, time_period_hours: i32 },
    PremiumRemove { target_id: String, reason: String },
    VoteBanAdd { target_id: String, reason: String },
    VoteBanRemove { target_id: String, reason: String },
    VoteReset { target_id: String, reason: String },
    VoteResetAll { reason: String },
    ForceRemove { target_id: String, reason: String, kick: bool },
    CertifyAdd { target_id: String, reason: String },
    CertifyRemove { target_id: String, reason: String },
    BotTransferOwnershipUser { target_id: String, reason: String, new_owner: String },
    BotTransferOwnershipTeam { target_id: String, reason: String, new_team: String },
    AppBanUser { target_id: String, reason: String },
    AppUnbanUser { target_id: String, reason: String },
}

/// The kinds of RPC method, one per variant, in declaration order.
#[derive(Debug, Clone, Copy, PartialEq, Eq, Structural)]
pub enum MethodKind {
    Claim,
    Unclaim,
    Approve,
    Deny,
    Unverify,
    PremiumAdd,
    PremiumRemove,
    VoteBanAdd,
    VoteBanRemove,
    VoteReset,
    VoteResetAll,
    ForceRemove,
    CertifyAdd,
    CertifyRemove,
    BotTransferOwnershipUser,
    BotTransferOwnershipTeam,
    AppBanUser,
    AppUnbanUser,
}

/// The kind of an RPC method.
pub open spec fn kind_of(m: RPCMethod) -> MethodKind {
    match m {
        RPCMethod::Claim { .. } => MethodKind::Claim,
        RPCMethod::Unclaim { .. } => MethodKind::Unclaim,
        RPCMethod::Approve { .. } => MethodKind::Approve,
        RPCMethod::Deny { .. } => MethodKind::Deny,
        RPCMethod::Unverify { .. } => MethodKind::Unverify,
        RPCMethod::PremiumAdd { .. } => MethodKind::PremiumAdd,
        RPCMethod::PremiumRemove { .. } => MethodKind::PremiumRemove,
        RPCMethod::VoteBanAdd { .. } => MethodKind::VoteBanAdd,
        RPCMethod::VoteBanRemove { .. } => MethodKind::VoteBanRemove,
        RPCMethod::VoteReset { .. } => MethodKind::VoteReset,
        RPCMethod::VoteResetAll { .. } => MethodKind::VoteResetAll,
        RPCMethod::ForceRemove { .. } => MethodKind::ForceRemove,
        RPCMethod::CertifyAdd { .. } => MethodKind::CertifyAdd,
        RPCMethod::CertifyRemove { .. } => MethodKind::CertifyRemove,
        RPCMethod::BotTransferOwnershipUser { .. } => MethodKind::BotTransferOwnershipUser,
        RPCMethod::BotTransferOwnershipTeam { .. } => MethodKind::BotTransferOwnershipTeam,
        RPCMethod::AppBanUser { .. } => MethodKind::AppBanUser,
        RPCMethod::AppUnbanUser { .. } => MethodKind::AppUnbanUser,
    }
}

/// The name of each method kind (the variant name).
pub open spec fn kind_name(k: MethodKind) -> Seq<char> {
    match k {
        MethodKind::Claim => "Claim"@,
        MethodKind::Unclaim => "Unclaim"@,
        MethodKind::Approve => "Approve"@,
        MethodKind::Deny => "Deny"@,
        MethodKind::Unverify => "Unverify"@,
        MethodKind::PremiumAdd => "PremiumAdd"@,
        MethodKind::PremiumRemove => "PremiumRemove"@,
        MethodKind::VoteBanAdd => "VoteBanAdd"@,
        MethodKind::VoteBanRemove => "VoteBanRemove"@,
        MethodKind::VoteReset => "VoteReset"@,
        MethodKind::VoteResetAll => "VoteResetAll"@,
        MethodKind::ForceRemove => "ForceRemove"@,
        MethodKind::CertifyAdd => "CertifyAdd"@,
        MethodKind::CertifyRemove => "CertifyRemove"@,
        MethodKind::BotTransferOwnershipUser => "BotTransferOwnershipUser"@,
        MethodKind::BotTransferOwnershipTeam => "BotTransferOwnershipTeam"@,
        MethodKind::AppBanUser => "AppBanUser"@,
        MethodKind::AppUnbanUser => "AppUnbanUser"@,
    }
}

/// All method kinds, in declaration order.
pub open spec fn all_kinds() -> Seq<MethodKind> {
    seq![
        MethodKind::Claim,
        MethodKind::Unclaim,
        MethodKind::Approve,
        MethodKind::Deny,
        MethodKind::Unverify,
        MethodKind::PremiumAdd,
        MethodKind::PremiumRemove,
        MethodKind::VoteBanAdd,
        MethodKind::VoteBanRemove,
        MethodKind::VoteReset,
        MethodKind::VoteResetAll,
        MethodKind::ForceRemove,
        MethodKind::CertifyAdd,
        MethodKind::CertifyRemove,
        MethodKind::BotTransferOwnershipUser,
        MethodKind::BotTransferOwnershipTeam,
        MethodKind::AppBanUser,
        MethodKind::AppUnbanUser,
    ]
}

/// The target types a method kind can be used on.
pub open spec fn supported_spec(k: MethodKind) -> Seq<TargetType> {
    match k {
        MethodKind::VoteReset | MethodKind::VoteResetAll => seq![
            TargetType::Bot,
            TargetType::Server,
            TargetType::Team,
            TargetType::Pack,
        ],
        MethodKind::AppBanUser | MethodKind::AppUnbanUser => seq![TargetType::User],
        _ => seq![TargetType::Bot],
    }
}

/// The description of each method kind.
pub open spec fn description_spec(k: MethodKind) -> Seq<char> {
    match k {
        MethodKind::Claim => "Claim a entity. Be sure to claim entities that you are going to review!"@,
        MethodKind::Unclaim => "Unclaim a entity. Be sure to use this if you can't review the entity!"@,
        MethodKind::Approve => "Approve a entity. Needs to be claimed first."@,
        MethodKind::Deny => "Deny a entity. Needs to be claimed first."@,
        MethodKind::Unverify => "Unverifies a bot on the list"@,
        MethodKind::PremiumAdd => "Adds premium to a bot for a given time period"@,
        MethodKind::PremiumRemove => "Removes premium from a bot"@,
        MethodKind::VoteBanAdd => "Vote-bans the bot in question"@,
        MethodKind::VoteBanRemove => "Removes the vote-ban from the bot in question"@,
        MethodKind::VoteReset => "Reset the votes of a given entity (bot/pack/server etc."@,
        MethodKind::VoteResetAll => "Reset the votes of a given entity (bot/pack/server etc."@,
        MethodKind::ForceRemove => "Forcefully removes a bot from the list"@,
        MethodKind::CertifyAdd => "Certifies a entity. Recommended to use apps instead however"@,
        MethodKind::CertifyRemove => "Uncertifies a bot"@,
        MethodKind::BotTransferOwnershipUser => "Transfers the ownership of a bot to a new user"@,
        MethodKind::BotTransferOwnershipTeam => "Transfers the ownership of a bot to a new team"@,
        MethodKind::AppBanUser => "Ban user from apps"@,
        MethodKind::AppUnbanUser => "Unban user from apps"@,
    }
}

/// The label of each method kind.
pub open spec fn label_spec(k: MethodKind) -> Seq<char> {
    match k {
        MethodKind::Claim => "Claim entity"@,
        MethodKind::Unclaim => "Unclaim entity"@,
        MethodKind::Approve => "Approve entity"@,
        MethodKind::Deny => "Deny entity"@,
        MethodKind::Unverify => "Unverify entity"@,
        MethodKind::PremiumAdd => "Add Premium"@,
        MethodKind::PremiumRemove => "Remove Premium"@,
        MethodKind::VoteBanAdd => "Vote Ban"@,
        MethodKind::VoteBanRemove => "Unvote Ban"@,
        MethodKind::VoteReset => "Vote Reset Entity"@,
        MethodKind::VoteResetAll => "Vote Reset All Entities"@,
        MethodKind::ForceRemove => "Force Remove"@,
        MethodKind::CertifyAdd => "Certify"@,
        MethodKind::CertifyRemove => "Uncertify"@,
        MethodKind::BotTransferOwnershipUser => "Set Bot Owner [User]"@,
        MethodKind::BotTransferOwnershipTeam => "Set Bot Owner [Team]"@,
        MethodKind::AppBanUser => "Ban from apps [User]"@,
        MethodKind::AppUnbanUser => "Unban from apps [User]"@,
    }
}

/// How a field of a method is entered.
#[derive(Debug, Clone, Copy, PartialEq, Eq, Structural)]
pub enum FieldType {
    Text,
    Textarea,
    Number,
    /// Time expressed as a number of hours
    Hour,
    Boolean,
}

/// Represents a single RPC field
#[derive(Debug, Clone)]
pub struct RPCField {
    pub id: String,
    pub label: String,
    pub field_type: FieldType,
    pub icon: String,
    pub placeholder: String,
}

/// A field, as plain text: id, label, type, icon and placeholder.
pub struct FieldView {
    pub id: Seq<char>,
    pub label: Seq<char>,
    pub field_type: FieldType,
    pub icon: Seq<char>,
    pub placeholder: Seq<char>,
}

/// The plain-text view of a field.
pub open spec fn field_view(f: RPCField) -> FieldView {
    FieldView {
        id: f.id@,
        label: f.label@,
        field_type: f.field_type,
        icon: f.icon@,
        placeholder: f.placeholder@,
    }
}

/// The target id field.
pub open spec fn target_id_field() -> FieldView {
    FieldView {
        id: "target_id"@,
        label: "Target ID"@,
        field_type: FieldType::Text,
        icon: "ic:twotone-access-time-filled"@,
        placeholder: "The Target ID to perform the action on"@,
    }
}

/// The reason field.
pub open spec fn reason_field() -> FieldView {
    FieldView {
        id: "reason"@,
        label: "Reason"@,
        field_type: FieldType::Textarea,
        icon: "material-symbols:question-mark"@,
        placeholder: "Reason for performing this action"@,
    }
}

/// The fields of each method kind, in the order they are asked for.
pub open spec fn fields_spec(k: MethodKind) -> Seq<FieldView> {
    match k {
        MethodKind::Claim => seq![
            target_id_field(),
            FieldView {
                id: "force"@,
                label: "Force claim bot?"@,
                field_type: FieldType::Boolean,
                icon: "fa-solid:sign-out-alt"@,
                placeholder: "Yes/No"@,
            },
        ],
        MethodKind::PremiumAdd => seq![
            target_id_field(),
            FieldView {
                id: "time_period_hours"@,
                label: "Time [X unit(s)]"@,
                field_type: FieldType::Hour,
                icon: "material-symbols:timer"@,
                placeholder: "Time period. Format: X years/days/hours"@,
            },
            reason_field(),
        ],
        MethodKind::VoteResetAll => seq![reason_field()],
        MethodKind::ForceRemove => seq![
            target_id_field(),
            FieldView {
                id: "kick"@,
                label: "Kick the bot from the server"@,
                field_type: FieldType::Boolean,
                icon: "fa-solid:sign-out-alt"@,
                placeholder: "Kick the bot from the server"@,
            },
            reason_field(),
        ],
        MethodKind::BotTransferOwnershipUser => seq![
            target_id_field(),
            FieldView {
                id: "new_owner"@,
                label: "User ID"@,
                field_type: FieldType::Text,
                icon: "material-symbols:timer"@,
                placeholder: "New Owner"@,
            },
            reason_field(),
        ],
        MethodKind::BotTransferOwnershipTeam => seq![
            target_id_field(),
            FieldView {
                id: "new_team"@,
                label: "Team ID"@,
                field_type: FieldType::Text,
                icon: "material-symbols:timer"@,
                placeholder: "New Team"@,
            },
            reason_field(),
        ],
        _ => seq![target_id_field(), reason_field()],
    }
}

impl RPCField {
    /// The field that asks for the target id.
    pub fn target_id() -> (r: Self)
        ensures
            field_view(r) == target_id_field(),
    {
        RPCField {
            id: owned("target_id"),
            label: owned("Target ID"),
            field_type: FieldType::Text,
            icon: owned("ic:twotone-access-time-filled"),
            placeholder: owned("The Target ID to perform the action on"),
        }
    }

    /// The field that asks for the reason.
    pub fn reason() -> (r: Self)
        ensures
            field_view(r) == reason_field(),
    {
        RPCField {
            id: owned("reason"),
            label: owned("Reason"),
            field_type: FieldType::Textarea,
            icon: owned("material-symbols:question-mark"),
            placeholder: owned("Reason for performing this action"),
        }
    }

    fn make(id: &str, label: &str, field_type: FieldType, icon: &str, placeholder: &str) -> (r:
        Self)
        ensures
            field_view(r) == (FieldView {
                id: id@,
                label: label@,
                field_type,
                icon: icon@,
                placeholder: placeholder@,
            }),
    {
        RPCField {
            id: owned(id),
            label: owned(label),
            field_type,
            icon: owned(icon),
            placeholder: owned(placeholder),
        }
    }
}

/// The outcome of a method that succeeded.
#[derive(Debug, Clone, PartialEq, Eq)]
pub enum RPCSuccess {
    NoContent,
    Content(String),
}

impl RPCSuccess {
    /// The text a successful method returned, if any.
    pub fn content(&self) -> (r: Option<&str>)
        ensures
            match self {
                RPCSuccess::Content(c) => r matches Some(s) && s@ == c@,
                RPCSuccess::NoContent => r is None,
            },
    {
        match self {
            RPCSuccess::Content(c) => Some(c.as_str()),
            _ => None,
        }
    }
}

impl MethodKind {
    /// The variant name of the kind.
    pub fn name(&self) -> (r: String)
        ensures
            r@ == kind_name(*self),
    {
        match self {
            MethodKind::Claim => owned("Claim"),
            MethodKind::Unclaim => owned("Unclaim"),
            MethodKind::Approve => owned("Approve"),
            MethodKind::Deny => owned("Deny"),
            MethodKind::Unverify => owned("Unverify"),
            MethodKind::PremiumAdd => owned("PremiumAdd"),
            MethodKind::PremiumRemove => owned("PremiumRemove"),
            MethodKind::VoteBanAdd => owned("VoteBanAdd"),
            MethodKind::VoteBanRemove => owned("VoteBanRemove"),
            MethodKind::VoteReset => owned("VoteReset"),
            MethodKind::VoteResetAll => owned("VoteResetAll"),
            MethodKind::ForceRemove => owned("ForceRemove"),
            MethodKind::CertifyAdd => owned("CertifyAdd"),
            MethodKind::CertifyRemove => owned("CertifyRemove"),
            MethodKind::BotTransferOwnershipUser => owned("BotTransferOwnershipUser"),
            MethodKind::BotTransferOwnershipTeam => owned("BotTransferOwnershipTeam"),
            MethodKind::AppBanUser => owned("AppBanUser"),
            MethodKind::AppUnbanUser => owned("AppUnbanUser"),
        }
    }

    /// All method kinds, in declaration order.
    pub fn all() -> (r: Vec<MethodKind>)
        ensures
            r@ == all_kinds(),
    {
        let r = vec![
            MethodKind::Claim,
            MethodKind::Unclaim,
            MethodKind::Approve,
            MethodKind::Deny,
            MethodKind::Unverify,
            MethodKind::PremiumAdd,
            MethodKind::PremiumRemove,
            MethodKind::VoteBanAdd,
            MethodKind::VoteBanRemove,
            MethodKind::VoteReset,
            MethodKind::VoteResetAll,
            MethodKind::ForceRemove,
            MethodKind::CertifyAdd,
            MethodKind::CertifyRemove,
            MethodKind::BotTransferOwnershipUser,
            MethodKind::BotTransferOwnershipTeam,
            MethodKind::AppBanUser,
            MethodKind::AppUnbanUser,
        ];
        assert(r@ =~= all_kinds());
        r
    }

    /// The target types this kind of method can be used on.
    pub fn supported_target_types(&self) -> (r: Vec<TargetType>)
        ensures
            r@ == supported_spec(*self),
    {
        let r = match self {
            MethodKind::VoteReset | MethodKind::VoteResetAll => vec![
                TargetType::Bot,
                TargetType::Server,
                TargetType::Team,
                TargetType::Pack,
            ],
            MethodKind::AppBanUser | MethodKind::AppUnbanUser => vec![TargetType::User],
            _ => vec![TargetType::Bot],
        };
        assert(r@ =~= supported_spec(*self));
        r
    }

    /// Whether this kind of method can be used on target type `t`.
    pub fn supports(&self, t: TargetType) -> (r: bool)
        ensures
            r == supported_spec(*self).contains(t),
    {
        let v = self.supported_target_types();
        let mut i: usize = 0;
        while i < v.len()
            invariant
                v@ == supported_spec(*self),
                i <= v.len(),
                forall|j: int| 0 <= j < i ==> v@[j] != t,
            decreases v.len() - i,
        {
            if v[i] == t {
                assert(v@.contains(t)) by {
                    assert(v@[i as int] == t);
                }
                return true;
            }
            i = i + 1;
        }
        false
    }

    /// The description shown for this kind of method.
    pub fn description(&self) -> (r: String)
        ensures
            r@ == description_spec(*self),
    {
        match self {
            MethodKind::Claim => owned(
                "Claim a entity. Be sure to claim entities that you are going to review!",
            ),
            MethodKind::Unclaim => owned(
                "Unclaim a entity. Be sure to use this if you can't review the entity!",
            ),
            MethodKind::Approve => owned("Approve a entity. Needs to be claimed first."),
            MethodKind::Deny => owned("Deny a entity. Needs to be claimed first."),
            MethodKind::Unverify => owned("Unverifies a bot on the list"),
            MethodKind::PremiumAdd => owned("Adds premium to a bot for a given time period"),
            MethodKind::PremiumRemove => owned("Removes premium from a bot"),
            MethodKind::VoteBanAdd => owned("Vote-bans the bot in question"),
            MethodKind::VoteBanRemove => owned("Removes the vote-ban from the bot in question"),
            MethodKind::VoteReset => owned("Reset the votes of a given entity (bot/pack/server etc."),
            MethodKind::VoteResetAll => owned(
                "Reset the votes of a given entity (bot/pack/server etc.",
            ),
            MethodKind::ForceRemove => owned("Forcefully removes a bot from the list"),
            MethodKind::CertifyAdd => owned(
                "Certifies a entity. Recommended to use apps instead however",
            ),
            MethodKind::CertifyRemove => owned("Uncertifies a bot"),
            MethodKind::BotTransferOwnershipUser => owned(
                "Transfers the ownership of a bot to a new user",
            ),
            MethodKind::BotTransferOwnershipTeam => owned(
                "Transfers the ownership of a bot to a new team",
            ),
            MethodKind::AppBanUser => owned("Ban user from apps"),
            MethodKind::AppUnbanUser => owned("Unban user from apps"),
        }
    }

    /// The label shown for this kind of method.
    pub fn label(&self) -> (r: String)
        ensures
            r@ == label_spec(*self),
    {
        match self {
            MethodKind::Claim => owned("Claim entity"),
            MethodKind::Unclaim => owned("Unclaim entity"),
            MethodKind::Approve => owned("Approve entity"),
            MethodKind::Deny => owned("Deny entity"),
            MethodKind::Unverify => owned("Unverify entity"),
            MethodKind::PremiumAdd => owned("Add Premium"),
            MethodKind::PremiumRemove => owned("Remove Premium"),
            MethodKind::VoteBanAdd => owned("Vote Ban"),
            MethodKind::VoteBanRemove => owned("Unvote Ban"),
            MethodKind::VoteReset => owned("Vote Reset Entity"),
            MethodKind::VoteResetAll => owned("Vote Reset All Entities"),
            MethodKind::ForceRemove => owned("Force Remove"),
            MethodKind::CertifyAdd => owned("Certify"),
            MethodKind::CertifyRemove => owned("Uncertify"),
            MethodKind::BotTransferOwnershipUser => owned("Set Bot Owner [User]"),
            MethodKind::BotTransferOwnershipTeam => owned("Set Bot Owner [Team]"),
            MethodKind::AppBanUser => owned("Ban from apps [User]"),
            MethodKind::AppUnbanUser => owned("Unban from apps [User]"),
        }
    }

    /// The fields to ask for, for this kind of method.
    pub fn method_fields(&self) -> (r: Vec<RPCField>)
        ensures
            r@.map_values(|f: RPCField| field_view(f)) == fields_spec(*self),
    {
        let r = match self {
            MethodKind::Claim => vec![
                RPCField::target_id(),
                RPCField::make(
                    "force",
                    "Force claim bot?",
                    FieldType::Boolean,
                    "fa-solid:sign-out-alt",
                    "Yes/No",
                ),
            ],
            MethodKind::PremiumAdd => vec![
                RPCField::target_id(),
                RPCField::make(
                    "time_period_hours",
                    "Time [X unit(s)]",
                    FieldType::Hour,
                    "material-symbols:timer",
                    "Time period. Format: X years/days/hours",
                ),
                RPCField::reason(),
            ],
            MethodKind::VoteResetAll => vec![RPCField::reason()],
            MethodKind::ForceRemove => vec![
                RPCField::target_id(),
                RPCField::make(
                    "kick",
                    "Kick the bot from the server",
                    FieldType::Boolean,
                    "fa-solid:sign-out-alt",
                    "Kick the bot from the server",
                ),
                RPCField::reason(),
            ],
            MethodKind::BotTransferOwnershipUser => vec![
                RPCField::target_id(),
                RPCField::make(
                    "new_owner",
                    "User ID",
                    FieldType::Text,
                    "material-symbols:timer",
                    "New Owner",
                ),
                RPCField::reason(),
            ],
            MethodKind::BotTransferOwnershipTeam => vec![
                RPCField::target_id(),
                RPCField::make(
                    "new_team",
                    "Team ID",
                    FieldType::Text,
                    "material-symbols:timer",
                    "New Team",
                ),
                RPCField::reason(),
            ],
            _ => vec![RPCField::target_id(), RPCField::reason()],
        };
        assert(r@.map_values(|f: RPCField| field_view(f)) =~= fields_spec(*self));
        r
    }

    /// The kind named by a variant name; `None` for any other text.
    pub fn from_name(s: &str) -> (r: Option<MethodKind>)
        ensures
            r matches Some(k) ==> kind_name(k) == s@,
            r is None ==> forall|k: MethodKind| kind_name(k) != s@,
    {
        let all = MethodKind::all();
        let mut i: usize = 0;
        while i < all.len()
            invariant
                all@ == all_kinds(),
                i <= all.len(),
                forall|j: int| 0 <= j < i ==> kind_name(#[trigger] all@[j]) != s@,
            decreases all.len() - i,
        {
            let k = all[i];
            let name = k.name();
            if str_eq(name.as_str(), s) {
                return Some(k);
            }
            i = i + 1;
        }
        proof {
            assert forall|k: MethodKind| kind_name(k) != s@ by {
                lemma_kind_in_all(k);
                let j = choose|j: int| 0 <= j < all_kinds().len() && all_kinds()[j] == k;
                assert(kind_name(all@[j]) != s@);
            }
        }
        None
    }
}

/// Every kind is listed in `all_kinds`.
pub proof fn lemma_kind_in_all(k: MethodKind)
    ensures
        all_kinds().contains(k),
{
    let a = all_kinds();
    match k {
        MethodKind::Claim => assert(a[0] == k),
        MethodKind::Unclaim => assert(a[1] == k),
        MethodKind::Approve => assert(a[2] == k),
        MethodKind::Deny => assert(a[3] == k),
        MethodKind::Unverify => assert(a[4] == k),
        MethodKind::PremiumAdd => assert(a[5] == k),
        MethodKind::PremiumRemove => assert(a[6] == k),
        MethodKind::VoteBanAdd => assert(a[7] == k),
        MethodKind::VoteBanRemove => assert(a[8] == k),
        MethodKind::VoteReset => assert(a[9] == k),
        MethodKind::VoteResetAll => assert(a[10] == k),
        MethodKind::ForceRemove => assert(a[11] == k),
        MethodKind::CertifyAdd => assert(a[12] == k),
        MethodKind::CertifyRemove => assert(a[13] == k),
        MethodKind::BotTransferOwnershipUser => assert(a[14] == k),
        MethodKind::BotTransferOwnershipTeam => assert(a[15] == k),
        MethodKind::AppBanUser => assert(a[16] == k),
        MethodKind::AppUnbanUser => assert(a[17] == k),
    }
}

impl RPCMethod {
    /// The kind of this method.
    pub fn kind(&self) -> (r: MethodKind)
        ensures
            r == kind_of(*self),
    {
        match self {
            RPCMethod::Claim { .. } => MethodKind::Claim,
            RPCMethod::Unclaim { .. } => MethodKind::Unclaim,
            RPCMethod::Approve { .. } => MethodKind::Approve,
            RPCMethod::Deny { .. } => MethodKind::Deny,
            RPCMethod::Unverify { .. } => MethodKind::Unverify,
            RPCMethod::PremiumAdd { .. } => MethodKind::PremiumAdd,
            RPCMethod::PremiumRemove { .. } => MethodKind::PremiumRemove,
            RPCMethod::VoteBanAdd { .. } => MethodKind::VoteBanAdd,
            RPCMethod::VoteBanRemove { .. } => MethodKind::VoteBanRemove,
            RPCMethod::VoteReset { .. } => MethodKind::VoteReset,
            RPCMethod::VoteResetAll { .. } => MethodKind::VoteResetAll,
            RPCMethod::ForceRemove { .. } => MethodKind::ForceRemove,
            RPCMethod::CertifyAdd { .. } => MethodKind::CertifyAdd,
            RPCMethod::CertifyRemove { .. } => MethodKind::CertifyRemove,
            RPCMethod::BotTransferOwnershipUser { .. } => MethodKind::BotTransferOwnershipUser,
            RPCMethod::BotTransferOwnershipTeam { .. } => MethodKind::BotTransferOwnershipTeam,
            RPCMethod::AppBanUser { .. } => MethodKind::AppBanUser,
            RPCMethod::AppUnbanUser { .. } => MethodKind::AppUnbanUser,
        }
    }

    /// The variant name of the method (what its `Display` writes).
    pub fn name(&self) -> (r: String)
        ensures
            r@ == kind_name(kind_of(*self)),
    {
        self.kind().name()
    }

    /// The target types this method can be used on.
    pub fn supported_target_types(&self) -> (r: Vec<TargetType>)
        ensures
            r@ == supported_spec(kind_of(*self)),
    {
        self.kind().supported_target_types()
    }

    /// The description shown for this method.
    pub fn description(&self) -> (r: String)
        ensures
            r@ == description_spec(kind_of(*self)),
    {
        self.kind().description()
    }

    /// The label shown for this method.
    pub fn label(&self) -> (r: String)
        ensures
            r@ == label_spec(kind_of(*self)),
    {
        self.kind().label()
    }

    /// Returns the set of fields for this method's variant.
    pub fn method_fields(&self) -> (r: Vec<RPCField>)
        ensures
            r@.map_values(|f: RPCField| field_view(f)) == fields_spec(kind_of(*self)),
    {
        self.kind().method_fields()
    }

    /// The permission a staff member needs to use this method: `rpc.<name>`.
    pub fn required_perm(&self) -> (r: String)
        ensures
            r@ == "rpc"@ + seq!['.'] + kind_name(kind_of(*self)),
    {
        let name = self.name();
        crate::perms::build("rpc", name.as_str())
    }

    /// A method of the given kind with empty values (what parsing a bare
    /// variant name gives).
    pub fn blank(k: MethodKind) -> (r: RPCMethod)
        ensures
            kind_of(r) == k,
            target_of(r) matches Some(t) ==> t.len() == 0,
            reason_of(r) matches Some(t) ==> t.len() == 0,
            second_text_of(r) matches Some(t) ==> t.len() == 0,
            flag_of(r) matches Some(b) ==> !b,
            hours_of(r) matches Some(h) ==> h == 0,
    {
        match k {
            MethodKind::Claim => RPCMethod::Claim { target_id: String::new(), force: false },
            MethodKind::Unclaim => RPCMethod::Unclaim {
                target_id: String::new(),
                reason: String::new(),
            },
            MethodKind::Approve => RPCMethod::Approve {
                target_id: String::new(),
                reason: String::new(),
            },
            MethodKind::Deny => RPCMethod::Deny { target_id: String::new(), reason: String::new() },
            MethodKind::Unverify => RPCMethod::Unverify {
                target_id: String::new(),
                reason: String::new(),
            },
            MethodKind::PremiumAdd => RPCMethod::PremiumAdd {
                target_id: String::new(),
                reason: String::new(),
                time_period_hours: 0,
            },
            MethodKind::PremiumRemove => RPCMethod::PremiumRemove {
                target_id: String::new(),
                reason: String::new(),
            },
            MethodKind::VoteBanAdd => RPCMethod::VoteBanAdd {
                target_id: String::new(),
                reason: String::new(),
            },
            MethodKind::VoteBanRemove => RPCMethod::VoteBanRemove {
                target_id: String::new(),
                reason: String::new(),
            },
            MethodKind::VoteReset => RPCMethod::VoteReset {
                target_id: String::new(),
                reason: String::new(),
            },
            MethodKind::VoteResetAll => RPCMethod::VoteResetAll { reason: String::new() },
            MethodKind::ForceRemove => RPCMethod::ForceRemove {
                target_id: String::new(),
                reason: String::new(),
                kick: false,
            },
            MethodKind::CertifyAdd => RPCMethod::CertifyAdd {
                target_id: String::new(),
                reason: String::new(),
            },
            MethodKind::CertifyRemove => RPCMethod::CertifyRemove {
                target_id: String::new(),
                reason: String::new(),
            },
            MethodKind::BotTransferOwnershipUser => RPCMethod::BotTransferOwnershipUser {
                target_id: String::new(),
                reason: String::new(),
                new_owner: String::new(),
            },
            MethodKind::BotTransferOwnershipTeam => RPCMethod::BotTransferOwnershipTeam {
                target_id: String::new(),
                reason: String::new(),
                new_team: String::new(),
            },
            MethodKind::AppBanUser => RPCMethod::AppBanUser {
                target_id: String::new(),
                reason: String::new(),
            },
            MethodKind::AppUnbanUser => RPCMethod::AppUnbanUser {
                target_id: String::new(),
                reason: String::new(),
            },
        }
    }

    /// The target id the method acts on, for the methods that take one.
    pub fn target(&self) -> (r: Option<&str>)
        ensures
            r matches Some(t) ==> target_of(*self) == Some(t@),
            r is None ==> target_of(*self) is None,
    {
        match self {
            RPCMethod::VoteResetAll { .. } => None,
            RPCMethod::Claim { target_id, .. } => Some(target_id.as_str()),
            RPCMethod::Unclaim { target_id, .. } => Some(target_id.as_str()),
            RPCMethod::Approve { target_id, .. } => Some(target_id.as_str()),
            RPCMethod::Deny { target_id, .. } => Some(target_id.as_str()),
            RPCMethod::Unverify { target_id, .. } => Some(target_id.as_str()),
            RPCMethod::PremiumAdd { target_id, .. } => Some(target_id.as_str()),
            RPCMethod::PremiumRemove { target_id, .. } => Some(target_id.as_str()),
            RPCMethod::VoteBanAdd { target_id, .. } => Some(target_id.as_str()),
            RPCMethod::VoteBanRemove { target_id, .. } => Some(target_id.as_str()),
            RPCMethod::VoteReset { target_id, .. } => Some(target_id.as_str()),
            RPCMethod::ForceRemove { target_id, .. } => Some(target_id.as_str()),
            RPCMethod::CertifyAdd { target_id, .. } => Some(target_id.as_str()),
            RPCMethod::CertifyRemove { target_id, .. } => Some(target_id.as_str()),
            RPCMethod::BotTransferOwnershipUser { target_id, .. } => Some(target_id.as_str()),
            RPCMethod::BotTransferOwnershipTeam { target_id, .. } => Some(target_id.as_str()),
            RPCMethod::AppBanUser { target_id, .. } => Some(target_id.as_str()),
            RPCMethod::AppUnbanUser { target_id, .. } => Some(target_id.as_str()),
        }
    }

    /// The reason given with the method, for the methods that take one.
    pub fn reason(&self) -> (r: Option<&str>)
        ensures
            (kind_of(*self) == MethodKind::Claim) == (r is None),
            r matches Some(t) ==> reason_of(*self) == Some(t@),
            r is None ==> reason_of(*self) is None,
    {
        match self {
            RPCMethod::Claim { .. } => None,
            RPCMethod::Unclaim { reason, .. } => Some(reason.as_str()),
            RPCMethod::Approve { reason, .. } => Some(reason.as_str()),
            RPCMethod::Deny { reason, .. } => Some(reason.as_str()),
            RPCMethod::Unverify { reason, .. } => Some(reason.as_str()),
            RPCMethod::PremiumAdd { reason, .. } => Some(reason.as_str()),
            RPCMethod::PremiumRemove { reason, .. } => Some(reason.as_str()),
            RPCMethod::VoteBanAdd { reason, .. } => Some(reason.as_str()),
            RPCMethod::VoteBanRemove { reason, .. } => Some(reason.as_str()),
            RPCMethod::VoteReset { reason, .. } => Some(reason.as_str()),
            RPCMethod::VoteResetAll { reason } => Some(reason.as_str()),
            RPCMethod::ForceRemove { reason, .. } => Some(reason.as_str()),
            RPCMethod::CertifyAdd { reason, .. } => Some(reason.as_str()),
            RPCMethod::CertifyRemove { reason, .. } => Some(reason.as_str()),
            RPCMethod::BotTransferOwnershipUser { reason, .. } => Some(reason.as_str()),
            RPCMethod::BotTransferOwnershipTeam { reason, .. } => Some(reason.as_str()),
            RPCMethod::AppBanUser { reason, .. } => Some(reason.as_str()),
            RPCMethod::AppUnbanUser { reason, .. } => Some(reason.as_str()),
        }
    }
}

impl Default for RPCMethod {
    fn default() -> (r: Self)
        ensures
            r matches RPCMethod::Claim { target_id, force } && target_id@ == "bot_id"@ && !force,
    {
        RPCMethod::Claim { target_id: owned("bot_id"), force: false }
    }
}

/// The target id a method acts on, for the methods that take one.
pub open spec fn target_of(m: RPCMethod) -> Option<Seq<char>> {
    match m {
        RPCMethod::VoteResetAll { .. } => None,
        RPCMethod::Claim { target_id, .. } => Some(target_id@),
        RPCMethod::Unclaim { target_id, .. } => Some(target_id@),
        RPCMethod::Approve { target_id, .. } => Some(target_id@),
        RPCMethod::Deny { target_id, .. } => Some(target_id@),
        RPCMethod::Unverify { target_id, .. } => Some(target_id@),
        RPCMethod::PremiumAdd { target_id, .. } => Some(target_id@),
        RPCMethod::PremiumRemove { target_id, .. } => Some(target_id@),
        RPCMethod::VoteBanAdd { target_id, .. } => Some(target_id@),
        RPCMethod::VoteBanRemove { target_id, .. } => Some(target_id@),
        RPCMethod::VoteReset { target_id, .. } => Some(target_id@),
        RPCMethod::ForceRemove { target_id, .. } => Some(target_id@),
        RPCMethod::CertifyAdd { target_id, .. } => Some(target_id@),
        RPCMethod::CertifyRemove { target_id, .. } => Some(target_id@),
        RPCMethod::BotTransferOwnershipUser { target_id, .. } => Some(target_id@),
        RPCMethod::BotTransferOwnershipTeam { target_id, .. } => Some(target_id@),
        RPCMethod::AppBanUser { target_id, .. } => Some(target_id@),
        RPCMethod::AppUnbanUser { target_id, .. } => Some(target_id@),
    }
}

/// The reason given with a method, for the methods that take one.
pub open spec fn reason_of(m: RPCMethod) -> Option<Seq<char>> {
    match m {
        RPCMethod::Claim { .. } => None,
        RPCMethod::Unclaim { reason, .. } => Some(reason@),
        RPCMethod::Approve { reason, .. } => Some(reason@),
        RPCMethod::Deny { reason, .. } => Some(reason@),
        RPCMethod::Unverify { reason, .. } => Some(reason@),
        RPCMethod::PremiumAdd { reason, .. } => Some(reason@),
        RPCMethod::PremiumRemove { reason, .. } => Some(reason@),
        RPCMethod::VoteBanAdd { reason, .. } => Some(reason@),
        RPCMethod::VoteBanRemove { reason, .. } => Some(reason@),
        RPCMethod::VoteReset { reason, .. } => Some(reason@),
        RPCMethod::VoteResetAll { reason } => Some(reason@),
        RPCMethod::ForceRemove { reason, .. } => Some(reason@),
        RPCMethod::CertifyAdd { reason, .. } => Some(reason@),
        RPCMethod::CertifyRemove { reason, .. } => Some(reason@),
        RPCMethod::BotTransferOwnershipUser { reason, .. } => Some(reason@),
        RPCMethod::BotTransferOwnershipTeam { reason, .. } => Some(reason@),
        RPCMethod::AppBanUser { reason, .. } => Some(reason@),
        RPCMethod::AppUnbanUser { reason, .. } => Some(reason@),
    }
}

/// The second text of a method: the new owner or the new team of a transfer.
pub open spec fn second_text_of(m: RPCMethod) -> Option<Seq<char>> {
    match m {
        RPCMethod::BotTransferOwnershipUser { new_owner, .. } => Some(new_owner@),
        RPCMethod::BotTransferOwnershipTeam { new_team, .. } => Some(new_team@),
        _ => None,
    }
}

/// The yes/no answer of a method: whether a claim is forced, or a removal
/// kicks the bot.
pub open spec fn flag_of(m: RPCMethod) -> Option<bool> {
    match m {
        RPCMethod::Claim { force, .. } => Some(force),
        RPCMethod::ForceRemove { kick, .. } => Some(kick),
        _ => None,
    }
}

/// The number of hours of a method: how long premium is given for.
pub open spec fn hours_of(m: RPCMethod) -> Option<i32> {
    match m {
        RPCMethod::PremiumAdd { time_period_hours, .. } => Some(time_period_hours),
        _ => None,
    }
}

/// Why the answers of a method's form could not be read.
#[derive(Debug, Clone, Copy, PartialEq, Eq, Structural)]
pub enum FormError {
    /// A yes/no answer is not a boolean
    Boolean(BoolError),
    /// A time period is not one
    Hours(HoursError),
    /// The form was closed without an answer
    NoResponse,
}

impl FormError {
    /// The message of the error.
    pub fn message(&self) -> (r: String)
        ensures
            *self matches FormError::Boolean(_) ==> r@ == bool_error_message(),
            *self matches FormError::Hours(e) ==> r@ == hours_error_message(e),
            *self is NoResponse ==> r@ == "No response"@,
    {
        match self {
            FormError::Boolean(e) => e.message(),
            FormError::Hours(e) => e.message(),
            FormError::NoResponse => owned("No response"),
        }
    }
}

/// Whether the answer `input` to the field `f` at position `i` of a form
/// went into the method `m`.
pub open spec fn answer_taken(m: RPCMethod, f: FieldView, i: int, input: Seq<char>) -> bool {
    match f.field_type {
        FieldType::Textarea => reason_of(m) == Some(input),
        FieldType::Text => if i == 0 {
            target_of(m) == Some(input)
        } else {
            second_text_of(m) == Some(input)
        },
        FieldType::Boolean => parse_bool_spec(input) == Ok::<bool, BoolError>(flag_of(m)->Some_0)
            && flag_of(m) is Some,
        FieldType::Hour => parse_hrs_spec(input) == Ok::<int, HoursError>(hours_of(m)->Some_0 as int)
            && hours_of(m) is Some,
        // No method asks for a plain number.
        FieldType::Number => true,
    }
}

/// The error of reading the answer `input` to the field `f`, if any.
pub open spec fn answer_error(f: FieldView, input: Seq<char>) -> Option<FormError> {
    match f.field_type {
        FieldType::Boolean => match parse_bool_spec(input) {
            Err(e) => Some(FormError::Boolean(e)),
            Ok(_) => None,
        },
        FieldType::Hour => match parse_hrs_spec(input) {
            Err(e) => Some(FormError::Hours(e)),
            Ok(_) => None,
        },
        _ => None,
    }
}

/// Whether a time period answer is in range of a 32-bit number of hours.
pub open spec fn hours_fit(f: FieldView, input: Seq<char>) -> bool {
    f.field_type == FieldType::Hour ==> (parse_hrs_spec(input) matches Ok(n) ==> i32::MIN <= n
        <= i32::MAX)
}

impl RPCMethod {
    /// Builds the method of kind `k` from the answers to its form, given in
    /// the order of its fields.
    pub fn from_form(k: MethodKind, inputs: &Vec<String>) -> (r: Result<RPCMethod, FormError>)
        requires
            inputs@.len() >= fields_spec(k).len(),
            forall|i: int|
                0 <= i < fields_spec(k).len() ==> hours_fit(fields_spec(k)[i], #[trigger] inputs@[i]@),
        ensures
            r is Ok <==> forall|i: int|
                0 <= i < fields_spec(k).len() ==> answer_error(
                    fields_spec(k)[i],
                    #[trigger] inputs@[i]@,
                ) is None,
            r is Ok ==> kind_of(r->Ok_0) == k,
            r is Ok ==> forall|i: int|
                0 <= i < fields_spec(k).len() ==> answer_taken(
                    r->Ok_0,
                    fields_spec(k)[i],
                    i,
                    #[trigger] inputs@[i]@,
                ),
            r is Err ==> exists|i: int|
                0 <= i < fields_spec(k).len() && answer_error(fields_spec(k)[i], #[trigger] inputs@[i]@)
                    == Some(r->Err_0),
    {
        match k {
            MethodKind::Claim => {
                let target_id = owned(inputs[0].as_str());
                match parse_bool(inputs[1].as_str()) {
                    Ok(force) => Ok(RPCMethod::Claim { target_id, force }),
                    Err(e) => {
                        assert(answer_error(fields_spec(k)[1], inputs@[1]@) == Some(FormError::Boolean(e)));
                        Err(FormError::Boolean(e))
                    },
                }
            },
            MethodKind::PremiumAdd => {
                let target_id = owned(inputs[0].as_str());
                assert(hours_fit(fields_spec(k)[1], inputs@[1]@));
                match parse_hrs(inputs[1].as_str()) {
                    Ok(h) => {
                        let reason = owned(inputs[2].as_str());
                        Ok(RPCMethod::PremiumAdd { target_id, reason, time_period_hours: h })
                    },
                    Err(e) => {
                        assert(answer_error(fields_spec(k)[1], inputs@[1]@) == Some(FormError::Hours(e)));
                        Err(FormError::Hours(e))
                    },
                }
            },
            MethodKind::VoteResetAll => Ok(RPCMethod::VoteResetAll { reason: owned(inputs[0].as_str()) }),
            MethodKind::ForceRemove => {
                let target_id = owned(inputs[0].as_str());
                match parse_bool(inputs[1].as_str()) {
                    Ok(kick) => {
                        let reason = owned(inputs[2].as_str());
                        Ok(RPCMethod::ForceRemove { target_id, reason, kick })
                    },
                    Err(e) => {
                        assert(answer_error(fields_spec(k)[1], inputs@[1]@) == Some(FormError::Boolean(e)));
                        Err(FormError::Boolean(e))
                    },
                }
            },
            MethodKind::BotTransferOwnershipUser => Ok(RPCMethod::BotTransferOwnershipUser {
                target_id: owned(inputs[0].as_str()),
                new_owner: owned(inputs[1].as_str()),
                reason: owned(inputs[2].as_str()),
            }),
            MethodKind::BotTransferOwnershipTeam => Ok(RPCMethod::BotTransferOwnershipTeam {
                target_id: owned(inputs[0].as_str()),
                new_team: owned(inputs[1].as_str()),
                reason: owned(inputs[2].as_str()),
            }),
            MethodKind::Unclaim => Ok(RPCMethod::Unclaim { target_id: owned(inputs[0].as_str()), reason: owned(inputs[1].as_str()) }),
            MethodKind::Approve => Ok(RPCMethod::Approve { target_id: owned(inputs[0].as_str()), reason: owned(inputs[1].as_str()) }),
            MethodKind::Deny => Ok(RPCMethod::Deny { target_id: owned(inputs[0].as_str()), reason: owned(inputs[1].as_str()) }),
            MethodKind::Unverify => Ok(RPCMethod::Unverify { target_id: owned(inputs[0].as_str()), reason: owned(inputs[1].as_str()) }),
            MethodKind::PremiumRemove => Ok(RPCMethod::PremiumRemove { target_id: owned(inputs[0].as_str()), reason: owned(inputs[1].as_str()) }),
            MethodKind::VoteBanAdd => Ok(RPCMethod::VoteBanAdd { target_id: owned(inputs[0].as_str()), reason: owned(inputs[1].as_str()) }),
            MethodKind::VoteBanRemove => Ok(RPCMethod::VoteBanRemove { target_id: owned(inputs[0].as_str()), reason: owned(inputs[1].as_str()) }),
            MethodKind::VoteReset => Ok(RPCMethod::VoteReset { target_id: owned(inputs[0].as_str()), reason: owned(inputs[1].as_str()) }),
            MethodKind::CertifyAdd => Ok(RPCMethod::CertifyAdd { target_id: owned(inputs[0].as_str()), reason: owned(inputs[1].as_str()) }),
            MethodKind::CertifyRemove => Ok(RPCMethod::CertifyRemove { target_id: owned(inputs[0].as_str()), reason: owned(inputs[1].as_str()) }),
            MethodKind::AppBanUser => Ok(RPCMethod::AppBanUser { target_id: owned(inputs[0].as_str()), reason: owned(inputs[1].as_str()) }),
            MethodKind::AppUnbanUser => Ok(RPCMethod::AppUnbanUser { target_id: owned(inputs[0].as_str()), reason: owned(inputs[1].as_str()) }),
        }
    }
}

impl RPCMethod {
    /// Builds the method of kind `k` from its form as the staff member left
    /// it: the answers in the order of its fields, or `None` when the form was
    /// closed without an answer.
    pub fn from_modal(k: MethodKind, answers: Option<Vec<String>>) -> (r: Result<RPCMethod, FormError>)
        requires
            answers matches Some(inputs) ==> inputs@.len() >= fields_spec(k).len() && forall|i: int|
                0 <= i < fields_spec(k).len() ==> hours_fit(fields_spec(k)[i], #[trigger] inputs@[i]@),
        ensures
            answers is None ==> r == Err::<RPCMethod, FormError>(FormError::NoResponse),
            answers matches Some(inputs) ==> {
                &&& r is Ok <==> forall|i: int|
                    0 <= i < fields_spec(k).len() ==> answer_error(
                        fields_spec(k)[i],
                        #[trigger] inputs@[i]@,
                    ) is None
                &&& r is Ok ==> kind_of(r->Ok_0) == k
                &&& r is Ok ==> forall|i: int|
                    0 <= i < fields_spec(k).len() ==> answer_taken(
                        r->Ok_0,
                        fields_spec(k)[i],
                        i,
                        #[trigger] inputs@[i]@,
                    )
                &&& r is Err ==> exists|i: int|
                    0 <= i < fields_spec(k).len() && answer_error(
                        fields_spec(k)[i],
                        #[trigger] inputs@[i]@,
                    ) == Some(r->Err_0)
            },
    {
        match answers {
            None => Err(FormError::NoResponse),
            Some(inputs) => RPCMethod::from_form(k, &inputs),
        }
    }
}

// ----- Laws -----

/// Different kinds of method have different names, so a name picks out one
/// kind: reading a method's name back gives the same kind.
pub proof fn law_kind_names_distinct(a: MethodKind, b: MethodKind)
    requires
        a != b,
    ensures
        kind_name(a) != kind_name(b),
{
    reveal_strlit("Claim");
    reveal_strlit("Unclaim");
    reveal_strlit("Approve");
    reveal_strlit("Deny");
    reveal_strlit("Unverify");
    reveal_strlit("PremiumAdd");
    reveal_strlit("PremiumRemove");
    reveal_strlit("VoteBanAdd");
    reveal_strlit("VoteBanRemove");
    reveal_strlit("VoteReset");
    reveal_strlit("VoteResetAll");
    reveal_strlit("ForceRemove");
    reveal_strlit("CertifyAdd");
    reveal_strlit("CertifyRemove");
    reveal_strlit("BotTransferOwnershipUser");
    reveal_strlit("BotTransferOwnershipTeam");
    reveal_strlit("AppBanUser");
    reveal_strlit("AppUnbanUser");
    let na = kind_name(a);
    let nb = kind_name(b);
    if na == nb {
        assert(na.len() == nb.len());
        assert(na[0] == nb[0]);
        assert(na[na.len() - 1] == nb[nb.len() - 1]);
        assert(na.len() > 4 ==> na[4] == nb[4]);
        assert(na.len() > 7 ==> na[7] == nb[7]);
        assert(na.len() > 9 ==> na[9] == nb[9]);
        assert(na.len() > 12 ==> na[12] == nb[12]);
    }
}

/// Every method can be used on at least one target type.
pub proof fn law_every_method_has_a_target(k: MethodKind)
    ensures
        supported_spec(k).len() > 0,
{
}

/// Every method but `Claim` asks for a reason, as its last field.
pub proof fn law_reason_is_last_field(k: MethodKind)
    requires
        k != MethodKind::Claim,
    ensures
        fields_spec(k).len() > 0,
        fields_spec(k).last() == reason_field(),
{
}

/// Within the form of one method, no two fields share an id.
pub proof fn law_field_ids_distinct(k: MethodKind, i: int, j: int)
    requires
        0 <= i < j < fields_spec(k).len(),
    ensures
        fields_spec(k)[i].id != fields_spec(k)[j].id,
{
    reveal_strlit("target_id");
    reveal_strlit("force");
    reveal_strlit("time_period_hours");
    reveal_strlit("reason");
    reveal_strlit("kick");
    reveal_strlit("new_owner");
    reveal_strlit("new_team");
    let a = fields_spec(k)[i].id;
    let b = fields_spec(k)[j].id;
    if a == b {
        assert(a.len() == b.len());
        assert(a[0] == b[0]);
    }
}

/// Two methods have the same label exactly when they are of the same kind:
/// the labels of the kinds are pairwise distinct.
pub proof fn law_labels_distinct(a: RPCMethod, b: RPCMethod)
    ensures
        (label_spec(kind_of(a)) == label_spec(kind_of(b))) <==> kind_of(a) == kind_of(b),
{
    reveal_strlit("Claim entity");
    reveal_strlit("Unclaim entity");
    reveal_strlit("Approve entity");
    reveal_strlit("Deny entity");
    reveal_strlit("Unverify entity");
    reveal_strlit("Add Premium");
    reveal_strlit("Remove Premium");
    reveal_strlit("Vote Ban");
    reveal_strlit("Unvote Ban");
    reveal_strlit("Vote Reset Entity");
    reveal_strlit("Vote Reset All Entities");
    reveal_strlit("Force Remove");
    reveal_strlit("Certify");
    reveal_strlit("Uncertify");
    reveal_strlit("Set Bot Owner [User]");
    reveal_strlit("Set Bot Owner [Team]");
    reveal_strlit("Ban from apps [User]");
    reveal_strlit("Unban from apps [User]");
    let la = label_spec(kind_of(a));
    let lb = label_spec(kind_of(b));
    if la == lb {
        assert(la.len() == lb.len());
        assert(la[0] == lb[0]);
        assert(la.len() > 15 ==> la[15] == lb[15]);
    }
}

/// The structure of every method's fields: their ids are pairwise distinct,
/// a target id field comes first and is the standard one, and a reason field
/// comes last and is the standard one.
pub proof fn law_field_list_structure(k: MethodKind, i: int, j: int)
    requires
        0 <= i < fields_spec(k).len(),
        0 <= j < fields_spec(k).len(),
        i != j,
    ensures
        fields_spec(k)[i].id != fields_spec(k)[j].id,
        fields_spec(k)[i].id == "target_id"@ ==> i == 0 && fields_spec(k)[i] == target_id_field(),
        fields_spec(k)[i].id == "reason"@ ==> i == fields_spec(k).len() - 1 && fields_spec(k)[i]
            == reason_field(),
{
    if i < j {
        law_field_ids_distinct(k, i, j);
    } else {
        law_field_ids_distinct(k, j, i);
    }
    reveal_strlit("target_id");
    reveal_strlit("force");
    reveal_strlit("time_period_hours");
    reveal_strlit("reason");
    reveal_strlit("kick");
    reveal_strlit("new_owner");
    reveal_strlit("new_team");
    let a = fields_spec(k)[i].id;
    if a == "target_id"@ || a == "reason"@ {
        assert(a.len() == 9 || a.len() == 6);
        assert(a[0] == 't' || a[0] == 'r');
    }
}

} // verus!
