//! The staff panel's permissions and the answer it gives a refused request.
use crate::text::concat;
use crate::ids::{parse_uuid, uuid_parse_spec};
use vstd::prelude::*;

verus! {

/// HTTP status of a request the caller may not make.
pub const FORBIDDEN: u16 = 403;

/// HTTP status of a malformed or inconsistent request.
pub const BAD_REQUEST: u16 = 400;

/// A refused panel request: the HTTP status and the text sent back.
#[derive(Debug, Clone)]
pub struct Refusal {
    pub status: u16,
    pub message: String,
}

/// `e` is the refusal with this status and message.
pub open spec fn refusal_is(e: Refusal, status: u16, message: Seq<char>) -> bool {
    e.status == status && e.message@ == message
}

/// `r` is a refusal with this status and message.
pub open spec fn refused_with<T>(r: Result<T, Refusal>, status: u16, message: Seq<char>) -> bool {
    r is Err && refusal_is(r->Err_0, status, message)
}

impl Refusal {
    /// A refusal with the given status and message.
    pub fn new(status: u16, message: String) -> (r: Refusal)
        ensures
            r.status == status,
            r.message@ == message@,
    {
        Refusal { status, message }
    }

    /// A forbidden request with the given message.
    pub fn forbidden(message: &str) -> (r: Refusal)
        ensures
            refusal_is(r, FORBIDDEN, message@),
    {
        Refusal { status: FORBIDDEN, message: message.to_owned() }
    }

    /// A bad request with the given message.
    pub fn bad_request(message: &str) -> (r: Refusal)
        ensures
            refusal_is(r, BAD_REQUEST, message@),
    {
        Refusal { status: BAD_REQUEST, message: message.to_owned() }
    }
}

/// A named link: a label and a URL (or, for a corresponding role, a server
/// and a role id).
#[derive(Debug, Clone, Default)]
pub struct Link {
    pub name: String,
    pub value: String,
}

/// The permissions the panel checks before it changes anything.
#[derive(Debug, Clone, Copy, PartialEq, Eq, Structural)]
pub enum PanelPerm {
    BlogCreateEntry,
    BlogUpdateEntry,
    BlogDeleteEntry,
    BotWhitelistCreate,
    BotWhitelistUpdate,
    BotWhitelistDelete,
    PartnersCreate,
    PartnersUpdate,
    PartnersDelete,
    RpcLogsView,
    ShopCouponsList,
    ShopCouponsCreate,
    ShopCouponsUpdate,
    ShopCouponsDelete,
    ShopHoldsCreate,
    ShopHoldsUpdate,
    ShopHoldsDelete,
    ShopItemBenefitsCreate,
    ShopItemBenefitsUpdate,
    ShopItemBenefitsDelete,
    ShopItemsCreate,
    ShopItemsUpdate,
    ShopItemsDelete,
    StaffDisciplinaryTypesCreate,
    StaffDisciplinaryTypesUpdate,
    StaffDisciplinaryTypesDelete,
    StaffMembersEdit,
    StaffPositionsSwapIndex,
    StaffPositionsSetIndex,
    StaffPositionsCreate,
    StaffPositionsEdit,
    StaffPositionsDelete,
    VoteCreditTiersCreate,
    VoteCreditTiersUpdate,
    VoteCreditTiersDelete,
}

/// The permission's text, `namespace.name`.
pub open spec fn panel_perm_spec(p: PanelPerm) -> Seq<char> {
    match p {
        PanelPerm::BlogCreateEntry => "blog.create_entry"@,
        PanelPerm::BlogUpdateEntry => "blog.update_entry"@,
        PanelPerm::BlogDeleteEntry => "blog.delete_entry"@,
        PanelPerm::BotWhitelistCreate => "bot_whitelist.create"@,
        PanelPerm::BotWhitelistUpdate => "bot_whitelist.update"@,
        PanelPerm::BotWhitelistDelete => "bot_whitelist.delete"@,
        PanelPerm::PartnersCreate => "partners.create"@,
        PanelPerm::PartnersUpdate => "partners.update"@,
        PanelPerm::PartnersDelete => "partners.delete"@,
        PanelPerm::RpcLogsView => "rpc_logs.view"@,
        PanelPerm::ShopCouponsList => "shop_coupons.list"@,
        PanelPerm::ShopCouponsCreate => "shop_coupons.create"@,
        PanelPerm::ShopCouponsUpdate => "shop_coupons.update"@,
        PanelPerm::ShopCouponsDelete => "shop_coupons.delete"@,
        PanelPerm::ShopHoldsCreate => "shop_holds.create"@,
        PanelPerm::ShopHoldsUpdate => "shop_holds.update"@,
        PanelPerm::ShopHoldsDelete => "shop_holds.delete"@,
        PanelPerm::ShopItemBenefitsCreate => "shop_item_benefits.create"@,
        PanelPerm::ShopItemBenefitsUpdate => "shop_item_benefits.update"@,
        PanelPerm::ShopItemBenefitsDelete => "shop_item_benefits.delete"@,
        PanelPerm::ShopItemsCreate => "shop_items.create"@,
        PanelPerm::ShopItemsUpdate => "shop_items.update"@,
        PanelPerm::ShopItemsDelete => "shop_items.delete"@,
        PanelPerm::StaffDisciplinaryTypesCreate => "staff_disciplinary_types.create"@,
        PanelPerm::StaffDisciplinaryTypesUpdate => "staff_disciplinary_types.update"@,
        PanelPerm::StaffDisciplinaryTypesDelete => "staff_disciplinary_types.delete"@,
        PanelPerm::StaffMembersEdit => "staff_members.edit"@,
        PanelPerm::StaffPositionsSwapIndex => "staff_positions.swap_index"@,
        PanelPerm::StaffPositionsSetIndex => "staff_positions.set_index"@,
        PanelPerm::StaffPositionsCreate => "staff_positions.create"@,
        PanelPerm::StaffPositionsEdit => "staff_positions.edit"@,
        PanelPerm::StaffPositionsDelete => "staff_positions.delete"@,
        PanelPerm::VoteCreditTiersCreate => "vote_credit_tiers.create"@,
        PanelPerm::VoteCreditTiersUpdate => "vote_credit_tiers.update"@,
        PanelPerm::VoteCreditTiersDelete => "vote_credit_tiers.delete"@,
    }
}

/// What the permission allows, as the refusal names it.
pub open spec fn panel_action_spec(p: PanelPerm) -> Seq<char> {
    match p {
        PanelPerm::BlogCreateEntry => "create blog entries"@,
        PanelPerm::BlogUpdateEntry => "update blog entries"@,
        PanelPerm::BlogDeleteEntry => "delete blog entries"@,
        PanelPerm::BotWhitelistCreate => "add to the bot whitelist"@,
        PanelPerm::BotWhitelistUpdate => "update bot whitelist"@,
        PanelPerm::BotWhitelistDelete => "delete bot whitelist entries"@,
        PanelPerm::PartnersCreate => "create partners"@,
        PanelPerm::PartnersUpdate => "update partners"@,
        PanelPerm::PartnersDelete => "delete partners"@,
        PanelPerm::RpcLogsView => "view rpc logs"@,
        PanelPerm::ShopCouponsList => "list shop coupons"@,
        PanelPerm::ShopCouponsCreate => "create shop coupons"@,
        PanelPerm::ShopCouponsUpdate => "update shop coupons"@,
        PanelPerm::ShopCouponsDelete => "delete shop coupons"@,
        PanelPerm::ShopHoldsCreate => "create shop holds"@,
        PanelPerm::ShopHoldsUpdate => "update shop holds"@,
        PanelPerm::ShopHoldsDelete => "delete shop holds"@,
        PanelPerm::ShopItemBenefitsCreate => "create shop item benefits"@,
        PanelPerm::ShopItemBenefitsUpdate => "update shop item benefits"@,
        PanelPerm::ShopItemBenefitsDelete => "delete shop item benefits"@,
        PanelPerm::ShopItemsCreate => "create shop items"@,
        PanelPerm::ShopItemsUpdate => "update shop items"@,
        PanelPerm::ShopItemsDelete => "delete shop items"@,
        PanelPerm::StaffDisciplinaryTypesCreate => "create staff disciplinary types"@,
        PanelPerm::StaffDisciplinaryTypesUpdate => "update staff disciplinary types"@,
        PanelPerm::StaffDisciplinaryTypesDelete => "delete staff disciplinary types"@,
        PanelPerm::StaffMembersEdit => "edit staff members"@,
        PanelPerm::StaffPositionsSwapIndex => "swap indexes of staff positions"@,
        PanelPerm::StaffPositionsSetIndex => "set the indexes of staff positions"@,
        PanelPerm::StaffPositionsCreate => "create staff positions"@,
        PanelPerm::StaffPositionsEdit => "edit staff positions"@,
        PanelPerm::StaffPositionsDelete => "delete staff positions"@,
        PanelPerm::VoteCreditTiersCreate => "create vote credit tiers"@,
        PanelPerm::VoteCreditTiersUpdate => "update vote credit tiers"@,
        PanelPerm::VoteCreditTiersDelete => "delete vote credit tiers"@,
    }
}

/// Whether the refusal puts the permission in round brackets (the bot
/// whitelist's) rather than square ones.
pub open spec fn in_round_brackets(p: PanelPerm) -> bool {
    p == PanelPerm::BotWhitelistCreate || p == PanelPerm::BotWhitelistUpdate || p == PanelPerm::BotWhitelistDelete
}

/// The bracketed permission at the end of a refusal.
pub open spec fn bracketed(p: PanelPerm) -> Seq<char> {
    if in_round_brackets(p) {
        " ("@ + panel_perm_spec(p) + ")"@
    } else {
        " ["@ + panel_perm_spec(p) + "]"@
    }
}

/// The message of a refusal for want of the permission.
pub open spec fn denial_spec(p: PanelPerm) -> Seq<char> {
    "You do not have permission to "@ + panel_action_spec(p) + bracketed(p)
}

impl PanelPerm {
    /// The permission's text, `namespace.name`.
    pub fn perm(&self) -> (r: &'static str)
        ensures
            r@ == panel_perm_spec(*self),
    {
        match self {
            PanelPerm::BlogCreateEntry => "blog.create_entry",
            PanelPerm::BlogUpdateEntry => "blog.update_entry",
            PanelPerm::BlogDeleteEntry => "blog.delete_entry",
            PanelPerm::BotWhitelistCreate => "bot_whitelist.create",
            PanelPerm::BotWhitelistUpdate => "bot_whitelist.update",
            PanelPerm::BotWhitelistDelete => "bot_whitelist.delete",
            PanelPerm::PartnersCreate => "partners.create",
            PanelPerm::PartnersUpdate => "partners.update",
            PanelPerm::PartnersDelete => "partners.delete",
            PanelPerm::RpcLogsView => "rpc_logs.view",
            PanelPerm::ShopCouponsList => "shop_coupons.list",
            PanelPerm::ShopCouponsCreate => "shop_coupons.create",
            PanelPerm::ShopCouponsUpdate => "shop_coupons.update",
            PanelPerm::ShopCouponsDelete => "shop_coupons.delete",
            PanelPerm::ShopHoldsCreate => "shop_holds.create",
            PanelPerm::ShopHoldsUpdate => "shop_holds.update",
            PanelPerm::ShopHoldsDelete => "shop_holds.delete",
            PanelPerm::ShopItemBenefitsCreate => "shop_item_benefits.create",
            PanelPerm::ShopItemBenefitsUpdate => "shop_item_benefits.update",
            PanelPerm::ShopItemBenefitsDelete => "shop_item_benefits.delete",
            PanelPerm::ShopItemsCreate => "shop_items.create",
            PanelPerm::ShopItemsUpdate => "shop_items.update",
            PanelPerm::ShopItemsDelete => "shop_items.delete",
            PanelPerm::StaffDisciplinaryTypesCreate => "staff_disciplinary_types.create",
            PanelPerm::StaffDisciplinaryTypesUpdate => "staff_disciplinary_types.update",
            PanelPerm::StaffDisciplinaryTypesDelete => "staff_disciplinary_types.delete",
            PanelPerm::StaffMembersEdit => "staff_members.edit",
            PanelPerm::StaffPositionsSwapIndex => "staff_positions.swap_index",
            PanelPerm::StaffPositionsSetIndex => "staff_positions.set_index",
            PanelPerm::StaffPositionsCreate => "staff_positions.create",
            PanelPerm::StaffPositionsEdit => "staff_positions.edit",
            PanelPerm::StaffPositionsDelete => "staff_positions.delete",
            PanelPerm::VoteCreditTiersCreate => "vote_credit_tiers.create",
            PanelPerm::VoteCreditTiersUpdate => "vote_credit_tiers.update",
            PanelPerm::VoteCreditTiersDelete => "vote_credit_tiers.delete",
        }
    }

    /// What the permission allows, as the refusal names it.
    pub fn action(&self) -> (r: &'static str)
        ensures
            r@ == panel_action_spec(*self),
    {
        match self {
            PanelPerm::BlogCreateEntry => "create blog entries",
            PanelPerm::BlogUpdateEntry => "update blog entries",
            PanelPerm::BlogDeleteEntry => "delete blog entries",
            PanelPerm::BotWhitelistCreate => "add to the bot whitelist",
            PanelPerm::BotWhitelistUpdate => "update bot whitelist",
            PanelPerm::BotWhitelistDelete => "delete bot whitelist entries",
            PanelPerm::PartnersCreate => "create partners",
            PanelPerm::PartnersUpdate => "update partners",
            PanelPerm::PartnersDelete => "delete partners",
            PanelPerm::RpcLogsView => "view rpc logs",
            PanelPerm::ShopCouponsList => "list shop coupons",
            PanelPerm::ShopCouponsCreate => "create shop coupons",
            PanelPerm::ShopCouponsUpdate => "update shop coupons",
            PanelPerm::ShopCouponsDelete => "delete shop coupons",
            PanelPerm::ShopHoldsCreate => "create shop holds",
            PanelPerm::ShopHoldsUpdate => "update shop holds",
            PanelPerm::ShopHoldsDelete => "delete shop holds",
            PanelPerm::ShopItemBenefitsCreate => "create shop item benefits",
            PanelPerm::ShopItemBenefitsUpdate => "update shop item benefits",
            PanelPerm::ShopItemBenefitsDelete => "delete shop item benefits",
            PanelPerm::ShopItemsCreate => "create shop items",
            PanelPerm::ShopItemsUpdate => "update shop items",
            PanelPerm::ShopItemsDelete => "delete shop items",
            PanelPerm::StaffDisciplinaryTypesCreate => "create staff disciplinary types",
            PanelPerm::StaffDisciplinaryTypesUpdate => "update staff disciplinary types",
            PanelPerm::StaffDisciplinaryTypesDelete => "delete staff disciplinary types",
            PanelPerm::StaffMembersEdit => "edit staff members",
            PanelPerm::StaffPositionsSwapIndex => "swap indexes of staff positions",
            PanelPerm::StaffPositionsSetIndex => "set the indexes of staff positions",
            PanelPerm::StaffPositionsCreate => "create staff positions",
            PanelPerm::StaffPositionsEdit => "edit staff positions",
            PanelPerm::StaffPositionsDelete => "delete staff positions",
            PanelPerm::VoteCreditTiersCreate => "create vote credit tiers",
            PanelPerm::VoteCreditTiersUpdate => "update vote credit tiers",
            PanelPerm::VoteCreditTiersDelete => "delete vote credit tiers",
        }
    }

    /// The message sent when the caller lacks this permission.
    pub fn denial(&self) -> (r: String)
        ensures
            r@ == denial_spec(*self),
    {
        let round = match self {
            PanelPerm::BotWhitelistCreate | PanelPerm::BotWhitelistUpdate | PanelPerm::BotWhitelistDelete => true,
            _ => false,
        };
        let (open, close) = if round { (" (", ")") } else { (" [", "]") };
        let head = concat("You do not have permission to ", self.action());
        let with_open = concat(head.as_str(), open);
        let with_perm = concat(with_open.as_str(), self.perm());
        let r = concat(with_perm.as_str(), close);
        assert(round == in_round_brackets(*self));
        assert(r@ =~= denial_spec(*self));
        r
    }

    /// Refuses the request (forbidden, with the denial message) unless the
    /// caller holds the permission; `allowed` is whether they do.
    pub fn check(&self, allowed: bool) -> (r: Result<(), Refusal>)
        ensures
            allowed <==> r is Ok,
            !allowed ==> refused_with(r, FORBIDDEN, denial_spec(*self)),
    {
        if allowed {
            Ok(())
        } else {
            Err(Refusal { status: FORBIDDEN, message: self.denial() })
        }
    }
}

/// A refusal for want of a permission names that permission: its text stands
/// in the message, right after the opening bracket.
pub proof fn law_denial_names_the_permission(p: PanelPerm)
    ensures
        ({
            let start = "You do not have permission to "@.len() + panel_action_spec(p).len() + 2;
            denial_spec(p).subrange(start as int, (start + panel_perm_spec(p).len()) as int)
                == panel_perm_spec(p)
        }),
{
    let pre = "You do not have permission to "@ + panel_action_spec(p);
    let open = if in_round_brackets(p) { " ("@ } else { " ["@ };
    let close = if in_round_brackets(p) { ")"@ } else { "]"@ };
    reveal_strlit(" (");
    reveal_strlit(" [");
    assert(open.len() == 2);
    assert(denial_spec(p) =~= pre + open + panel_perm_spec(p) + close);
    let start = pre.len() + 2;
    assert((pre + open + panel_perm_spec(p) + close).subrange(start as int, (start + panel_perm_spec(p).len()) as int)
        =~= panel_perm_spec(p));
}

/// Checks the member's permission for `perm` (`allowed`), then reads the
/// UUID `id` names: a text that is no UUID is answered with status 500 and
/// the parser's message, as blog entries and disciplinary types are.
pub fn perm_then_uuid(perm: PanelPerm, allowed: bool, id: &str) -> (r: Result<u128, Refusal>)
    ensures
        r is Ok <==> allowed && uuid_parse_spec(id@) is Ok,
        !allowed ==> refused_with(r, FORBIDDEN, denial_spec(perm)),
        allowed && uuid_parse_spec(id@) is Err ==> refused_with(r, 500, uuid_parse_spec(id@)->Err_0),
        r is Ok ==> uuid_parse_spec(id@) == Ok::<u128, Seq<char>>(r->Ok_0),
{
    perm.check(allowed)?;
    match parse_uuid(id) {
        Ok(u) => Ok(u),
        Err(e) => Err(Refusal::new(500, e)),
    }
}

/// Reads the UUID `id` names, then checks the member's permission for `perm`
/// (`allowed`), as staff positions are edited and deleted.
pub fn uuid_then_perm(perm: PanelPerm, allowed: bool, id: &str) -> (r: Result<u128, Refusal>)
    ensures
        r is Ok <==> allowed && uuid_parse_spec(id@) is Ok,
        uuid_parse_spec(id@) is Err ==> refused_with(r, 500, uuid_parse_spec(id@)->Err_0),
        uuid_parse_spec(id@) is Ok && !allowed ==> refused_with(r, FORBIDDEN, denial_spec(perm)),
        r is Ok ==> uuid_parse_spec(id@) == Ok::<u128, Seq<char>>(r->Ok_0),
{
    let u = match parse_uuid(id) {
        Ok(u) => u,
        Err(e) => {
            return Err(Refusal::new(500, e));
        },
    };
    perm.check(allowed)?;
    Ok(u)
}

} // verus!
