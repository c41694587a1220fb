//! The shop and vote credits: the checks on tiers, items, benefits, coupons
//! and holds, the re-numbering of tier positions, and hold durations.
use crate::panel::{denial_spec, refused_with, PanelPerm, Refusal, BAD_REQUEST, FORBIDDEN};
use crate::text::{concat, contains_str, owned, str_eq, str_views};
use vstd::prelude::*;

verus! {

/// Checks that an entry to be changed exists: `count` is how many entries
/// have its id.
pub fn check_entry_exists(count: i64) -> (r: Result<(), Refusal>)
    ensures
        r is Ok <==> count != 0,
        count == 0 ==> refused_with(r, BAD_REQUEST, "Entry with same id does not already exist"@),
{
    if count == 0 {
        return Err(Refusal::bad_request("Entry with same id does not already exist"));
    }
    Ok(())
}

/// Checks that a blog entry to be updated exists: `count` is how many entries
/// have its tag.
pub fn check_blog_entry_exists(count: i64) -> (r: Result<(), Refusal>)
    ensures
        r is Ok <==> count != 0,
        count == 0 ==> refused_with(r, BAD_REQUEST, "Entry does not exist"@),
{
    if count == 0 {
        return Err(Refusal::bad_request("Entry does not exist"));
    }
    Ok(())
}

/// Whether a target type is one the shop serves: a bot or a server.
pub open spec fn shop_target_spec(target_type: Seq<char>) -> bool {
    target_type == "bot"@ || target_type == "server"@
}

/// Checks that a target type is `bot` or `server`.
pub fn check_shop_target(target_type: &str) -> (r: Result<(), Refusal>)
    ensures
        r is Ok <==> shop_target_spec(target_type@),
        !shop_target_spec(target_type@) ==> refused_with(
            r,
            BAD_REQUEST,
            "Target type must be either 'bot' or 'server'"@,
        ),
{
    if !str_eq(target_type, "bot") && !str_eq(target_type, "server") {
        return Err(Refusal::bad_request("Target type must be either 'bot' or 'server'"));
    }
    Ok(())
}

/// Checks a vote credit tier: its price per vote (`cents_negative` tells
/// whether it is below 0), its number of votes, and its target type, in this
/// order.
pub fn check_tier(cents_negative: bool, votes: i32, target_type: &str) -> (r: Result<(), Refusal>)
    ensures
        r is Ok <==> (!cents_negative && votes >= 0 && shop_target_spec(target_type@)),
        cents_negative ==> refused_with(r, BAD_REQUEST, "Cents cannot be lower than 0"@),
        !cents_negative && votes < 0 ==> refused_with(r, BAD_REQUEST, "Votes cannot be lower than 0"@),
        !cents_negative && votes >= 0 && !shop_target_spec(target_type@) ==> refused_with(
            r,
            BAD_REQUEST,
            "Target type must be either 'bot' or 'server'"@,
        ),
{
    if cents_negative {
        return Err(Refusal::bad_request("Cents cannot be lower than 0"));
    }
    if votes < 0 {
        return Err(Refusal::bad_request("Votes cannot be lower than 0"));
    }
    check_shop_target(target_type)
}

/// Checks a shop item: its price (`cents_negative` tells whether it is
/// below 0) and its duration.
pub fn check_shop_item(cents_negative: bool, duration: i32) -> (r: Result<(), Refusal>)
    ensures
        r is Ok <==> (!cents_negative && duration >= 0),
        cents_negative ==> refused_with(r, BAD_REQUEST, "Cents cannot be lower than 0"@),
        !cents_negative && duration < 0 ==> refused_with(
            r,
            BAD_REQUEST,
            "Duration cannot be lower than 0"@,
        ),
{
    if cents_negative {
        return Err(Refusal::bad_request("Cents cannot be lower than 0"));
    }
    if duration < 0 {
        return Err(Refusal::bad_request("Duration cannot be lower than 0"));
    }
    Ok(())
}

/// Checks that a benefit named by a shop item exists.
pub fn check_benefit_exists(benefit: &str, count: i64) -> (r: Result<(), Refusal>)
    ensures
        r is Ok <==> count != 0,
        count == 0 ==> refused_with(r, BAD_REQUEST, "Benefit "@ + benefit@ + " does not exist"@),
{
    if count == 0 {
        let a = concat("Benefit ", benefit);
        return Err(Refusal::new(BAD_REQUEST, concat(a.as_str(), " does not exist")));
    }
    Ok(())
}

/// Checks that a benefit to be deleted is used by no shop item: `uses` is how
/// many items list it.
pub fn check_benefit_unused(uses: i64) -> (r: Result<(), Refusal>)
    ensures
        r is Ok <==> uses <= 0,
        uses > 0 ==> refused_with(
            r,
            BAD_REQUEST,
            "Cannot delete benefit as it is used by shop items"@,
        ),
{
    if uses > 0 {
        return Err(Refusal::bad_request("Cannot delete benefit as it is used by shop items"));
    }
    Ok(())
}

/// The value of an optional limit, 0 when it is absent.
pub open spec fn or_zero(v: Option<i32>) -> i32 {
    match v {
        Some(x) => x,
        None => 0,
    }
}

/// Checks a coupon's limits, each absent one counting as 0: its number of
/// uses, the wait between reuses and its expiry must be positive, and its
/// price (`cents_negative` tells whether it is below 0) not negative.
pub fn check_coupon(
    max_uses: Option<i32>,
    reuse_wait_duration: Option<i32>,
    expiry: Option<i32>,
    cents_negative: bool,
) -> (r: Result<(), Refusal>)
    ensures
        r is Ok <==> (or_zero(max_uses) > 0 && or_zero(reuse_wait_duration) > 0 && or_zero(expiry)
            > 0 && !cents_negative),
        or_zero(max_uses) <= 0 ==> refused_with(r, BAD_REQUEST, "Max uses must be greater than 0"@),
        or_zero(max_uses) > 0 && or_zero(reuse_wait_duration) <= 0 ==> refused_with(
            r,
            BAD_REQUEST,
            "Reuse wait duration must be greater than 0"@,
        ),
        or_zero(max_uses) > 0 && or_zero(reuse_wait_duration) > 0 && or_zero(expiry) <= 0
            ==> refused_with(r, BAD_REQUEST, "Expiry must be greater than 0"@),
        or_zero(max_uses) > 0 && or_zero(reuse_wait_duration) > 0 && or_zero(expiry) > 0
            && cents_negative ==> refused_with(r, BAD_REQUEST, "Cents cannot be lower than 0"@),
{
    if max_uses.unwrap_or(0) <= 0 {
        return Err(Refusal::bad_request("Max uses must be greater than 0"));
    }
    if reuse_wait_duration.unwrap_or(0) <= 0 {
        return Err(Refusal::bad_request("Reuse wait duration must be greater than 0"));
    }
    if expiry.unwrap_or(0) <= 0 {
        return Err(Refusal::bad_request("Expiry must be greater than 0"));
    }
    if cents_negative {
        return Err(Refusal::bad_request("Cents cannot be lower than 0"));
    }
    Ok(())
}

/// The text `{:#?}` writes for a string (quoted, with escapes).
pub uninterp spec fn debug_text_spec(s: Seq<char>) -> Seq<char>;

/// `format!("{:#?}", s)` on a string slice: its `Debug` text.
#[verifier::external_body]
fn debug_text(s: &str) -> (r: String)
    ensures
        r@ == debug_text_spec(s@),
{
    format!("{:#?}", s)
}

/// Checks that an item named by a coupon exists.
pub fn check_coupon_item(item: &str, count: i64) -> (r: Result<(), Refusal>)
    ensures
        r is Ok <==> count != 0,
        count == 0 ==> refused_with(
            r,
            BAD_REQUEST,
            "Item "@ + debug_text_spec(item@) + " does not exist"@,
        ),
{
    if count == 0 {
        let shown = debug_text(item);
        let a = concat("Item ", shown.as_str());
        return Err(Refusal::new(BAD_REQUEST, concat(a.as_str(), " does not exist")));
    }
    Ok(())
}

/// Checks that the item a hold is for exists.
pub fn check_hold_item(exists: bool) -> (r: Result<(), Refusal>)
    ensures
        r is Ok <==> exists,
        !exists ==> refused_with(r, BAD_REQUEST, "Item does not exist"@),
{
    if !exists {
        return Err(Refusal::bad_request("Item does not exist"));
    }
    Ok(())
}

/// The microseconds of a hold lasting `seconds` seconds.
pub fn hold_duration_micros(seconds: i32) -> (r: i64)
    ensures
        r == seconds * 1_000_000,
{
    let s = seconds as i64;
    assert(-2147483648 * 1_000_000 <= s * 1_000_000 <= 2147483647 * 1_000_000) by (nonlinear_arith)
        requires
            -2147483648 <= s <= 2147483647,
    ;
    s * 1_000_000
}

/// Integer division rounding towards zero, as Rust divides.
pub open spec fn div_toward_zero(a: int, b: int) -> int {
    if a >= 0 {
        a / b
    } else {
        -((-a) / b)
    }
}

/// The microseconds of an interval of months (of 30 days), days and
/// microseconds.
pub open spec fn interval_micros(months: i32, days: i32, micros: i64) -> int {
    months * 30 * 24 * 60 * 60 * 1_000_000 + days * 24 * 60 * 60 * 1_000_000 + micros
}

/// The whole seconds of an interval of months (of 30 days), days and
/// microseconds, rounded towards zero.
pub fn interval_seconds(months: i32, days: i32, micros: i64) -> (r: i64)
    requires
        i64::MIN <= months * 2592000000000 <= i64::MAX,
        i64::MIN <= days * 86400000000 <= i64::MAX,
        i64::MIN <= months * 2592000000000 + days * 86400000000 <= i64::MAX,
        i64::MIN <= interval_micros(months, days, micros) <= i64::MAX,
    ensures
        r == div_toward_zero(interval_micros(months, days, micros), 1_000_000),
{
    let m = months as i128;
    let d = days as i128;
    assert(-2147483648 * 2592000000000 <= m * 2592000000000 <= 2147483647 * 2592000000000)
        by (nonlinear_arith)
        requires
            -2147483648 <= m <= 2147483647,
    ;
    assert(-2147483648 * 86400000000 <= d * 86400000000 <= 2147483647 * 86400000000)
        by (nonlinear_arith)
        requires
            -2147483648 <= d <= 2147483647,
    ;
    let total: i128 = m * 2592000000000 + d * 86400000000 + micros as i128;
    assert(total == interval_micros(months, days, micros));
    if total >= 0 {
        (total / 1_000_000) as i64
    } else {
        let q = (-total) / 1_000_000;
        (-q) as i64
    }
}

/// A hold's duration reads back as written: the seconds stored as
/// microseconds come back as the same number of seconds.
pub proof fn law_hold_duration_round_trip(seconds: i32)
    ensures
        div_toward_zero(interval_micros(0, 0, (seconds * 1_000_000) as i64), 1_000_000) == seconds,
{
    let m: int = seconds * 1_000_000;
    assert(-2147483648 * 1_000_000 <= m <= 2147483647 * 1_000_000) by (nonlinear_arith)
        requires
            m == seconds * 1_000_000,
            -2147483648 <= seconds <= 2147483647,
    ;
    assert(interval_micros(0, 0, m as i64) == m);
    if seconds >= 0 {
        assert(m / 1_000_000 == seconds) by (nonlinear_arith)
            requires
                m == seconds * 1_000_000,
        ;
    } else {
        assert((-m) / 1_000_000 == -seconds) by (nonlinear_arith)
            requires
                m == seconds * 1_000_000,
        ;
    }
}

/// Every benefit that a shop item lists exists.
pub open spec fn benefit_refs_valid(items: Seq<Seq<Seq<char>>>, benefits: Set<Seq<char>>) -> bool {
    forall|i: int, j: int|
        0 <= i < items.len() && 0 <= j < items[i].len() ==> benefits.contains(
            #[trigger] items[i][j],
        )
}

/// An item listing `listed` passes the existence check of each benefit.
pub open spec fn benefits_exist(listed: Seq<Seq<char>>, benefits: Set<Seq<char>>) -> bool {
    forall|j: int| 0 <= j < listed.len() ==> benefits.contains(#[trigger] listed[j])
}

/// No shop item lists the benefit `b`, so it passes the check before deletion.
pub open spec fn benefit_unused(items: Seq<Seq<Seq<char>>>, b: Seq<char>) -> bool {
    forall|i: int| 0 <= i < items.len() ==> !(#[trigger] items[i]).contains(b)
}

/// The benefits that shop items list keep existing across every change the
/// checks let through: creating or editing an item whose benefits all exist,
/// deleting an item, creating a benefit, and deleting a benefit no item
/// lists.
pub proof fn law_benefit_references_stay_valid(
    items: Seq<Seq<Seq<char>>>,
    benefits: Set<Seq<char>>,
    listed: Seq<Seq<char>>,
    k: int,
    b: Seq<char>,
)
    requires
        benefit_refs_valid(items, benefits),
    ensures
        benefits_exist(listed, benefits) ==> benefit_refs_valid(items.push(listed), benefits),
        benefits_exist(listed, benefits) && 0 <= k < items.len() ==> benefit_refs_valid(
            items.update(k, listed),
            benefits,
        ),
        0 <= k < items.len() ==> benefit_refs_valid(items.remove(k), benefits),
        benefit_refs_valid(items, benefits.insert(b)),
        benefit_unused(items, b) ==> benefit_refs_valid(items, benefits.remove(b)),
{
    if benefits_exist(listed, benefits) {
        let pushed = items.push(listed);
        assert forall|i: int, j: int|
            0 <= i < pushed.len() && 0 <= j < pushed[i].len() implies benefits.contains(
                #[trigger] pushed[i][j],
            ) by {
            if i < items.len() {
                assert(pushed[i] == items[i]);
            }
        }
        if 0 <= k < items.len() {
            let updated = items.update(k, listed);
            assert forall|i: int, j: int|
                0 <= i < updated.len() && 0 <= j < updated[i].len() implies benefits.contains(
                    #[trigger] updated[i][j],
                ) by {
                if i != k {
                    assert(updated[i] == items[i]);
                }
            }
        }
    }
    if 0 <= k < items.len() {
        let removed = items.remove(k);
        assert forall|i: int, j: int|
            0 <= i < removed.len() && 0 <= j < removed[i].len() implies benefits.contains(
                #[trigger] removed[i][j],
            ) by {
            if i < k {
                assert(removed[i] == items[i]);
            } else {
                assert(removed[i] == items[i + 1]);
            }
        }
    }
    assert forall|i: int, j: int|
        0 <= i < items.len() && 0 <= j < items[i].len() implies benefits.insert(b).contains(
            #[trigger] items[i][j],
        ) by {}
    if benefit_unused(items, b) {
        assert forall|i: int, j: int|
            0 <= i < items.len() && 0 <= j < items[i].len() implies benefits.remove(b).contains(
                #[trigger] items[i][j],
            ) by {
            assert(!items[i].contains(b));
            if items[i][j] == b {
                assert(items[i].contains(b));
            }
        }
    }
}

/// A vote credit tier's id and position.
#[derive(Debug, Clone)]
pub struct TierRow {
    pub id: String,
    pub position: i32,
}

/// What creating or editing a shop hold writes.
#[derive(Debug, Clone)]
pub struct HoldWrite {
    pub target_id: String,
    pub target_type: String,
    pub item: String,
    /// The hold's length in microseconds, when it has one.
    pub duration_micros: Option<i64>,
}

/// A hold's length in microseconds from its length in seconds.
pub open spec fn hold_micros_spec(duration: Option<i32>) -> Option<i64> {
    match duration {
        Some(d) => Some((d * 1_000_000) as i64),
        None => None,
    }
}

/// Creates or edits a shop hold. For an edit (`editing`), `hold_count` is how
/// many holds have its id; `allowed` is whether the member holds the action's
/// permission, and `item_exists` whether the held item exists. The checks come
/// in the order permission, existing hold (edit only), item, target type.
pub fn plan_hold(
    editing: bool,
    allowed: bool,
    hold_count: i64,
    item_exists: bool,
    target_id: &str,
    target_type: &str,
    item: &str,
    duration: Option<i32>,
) -> (r: Result<HoldWrite, Refusal>)
    ensures
        r is Ok <==> allowed && (editing ==> hold_count != 0) && item_exists && shop_target_spec(
            target_type@,
        ),
        !allowed ==> refused_with(
            r,
            FORBIDDEN,
            denial_spec(
                if editing {
                    PanelPerm::ShopHoldsUpdate
                } else {
                    PanelPerm::ShopHoldsCreate
                },
            ),
        ),
        allowed && editing && hold_count == 0 ==> refused_with(
            r,
            BAD_REQUEST,
            "Entry with same id does not already exist"@,
        ),
        allowed && (editing ==> hold_count != 0) && !item_exists ==> refused_with(
            r,
            BAD_REQUEST,
            "Item does not exist"@,
        ),
        allowed && (editing ==> hold_count != 0) && item_exists && !shop_target_spec(target_type@)
            ==> refused_with(r, BAD_REQUEST, "Target type must be either 'bot' or 'server'"@),
        r matches Ok(w) ==> w.target_id@ == target_id@ && w.target_type@ == target_type@ && w.item@
            == item@ && w.duration_micros == hold_micros_spec(duration),
{
    if editing {
        PanelPerm::ShopHoldsUpdate.check(allowed)?;
        check_entry_exists(hold_count)?;
    } else {
        PanelPerm::ShopHoldsCreate.check(allowed)?;
    }
    check_hold_item(item_exists)?;
    check_shop_target(target_type)?;
    let micros = match duration {
        Some(d) => Some(hold_duration_micros(d)),
        None => None,
    };
    Ok(
        HoldWrite {
            target_id: owned(target_id),
            target_type: owned(target_type),
            item: owned(item),
            duration_micros: micros,
        },
    )
}

/// Deletes a shop hold: the member must hold `shop_holds.delete`, and a hold
/// must have the id (`hold_count` of them do).
pub fn plan_delete_hold(allowed: bool, hold_count: i64) -> (r: Result<(), Refusal>)
    ensures
        r is Ok <==> allowed && hold_count != 0,
        !allowed ==> refused_with(r, FORBIDDEN, denial_spec(PanelPerm::ShopHoldsDelete)),
        allowed && hold_count == 0 ==> refused_with(
            r,
            BAD_REQUEST,
            "Entry with same id does not already exist"@,
        ),
{
    PanelPerm::ShopHoldsDelete.check(allowed)?;
    check_entry_exists(hold_count)
}

/// The benefits each shop item lists, as text.
pub open spec fn item_benefits(items: Seq<Vec<String>>) -> Seq<Seq<Seq<char>>> {
    items.map_values(|v: Vec<String>| str_views(v@))
}

/// Creates (or, when `editing`, edits) a shop item listing `benefits`, given
/// the ids of the existing benefits `existing`; `allowed` is whether the
/// member holds the action's permission, and `item_count` how many items have
/// the item's id. The checks come in the order permission, price, duration,
/// each listed benefit in turn, and (for an edit) the item's existence.
pub fn plan_shop_item(
    editing: bool,
    allowed: bool,
    cents_negative: bool,
    duration: i32,
    benefits: &Vec<String>,
    existing: &Vec<String>,
    item_count: i64,
) -> (r: Result<(), Refusal>)
    ensures
        r is Ok <==> allowed && !cents_negative && duration >= 0 && benefits_exist(
            str_views(benefits@),
            str_views(existing@).to_set(),
        ) && (editing ==> item_count != 0),
        !allowed ==> refused_with(
            r,
            FORBIDDEN,
            denial_spec(
                if editing {
                    PanelPerm::ShopItemsUpdate
                } else {
                    PanelPerm::ShopItemsCreate
                },
            ),
        ),
        allowed && cents_negative ==> refused_with(r, BAD_REQUEST, "Cents cannot be lower than 0"@),
        allowed && !cents_negative && duration < 0 ==> refused_with(
            r,
            BAD_REQUEST,
            "Duration cannot be lower than 0"@,
        ),
        forall|i: int|
            allowed && !cents_negative && duration >= 0 && 0 <= i < benefits@.len()
                && !str_views(existing@).contains(#[trigger] benefits@[i]@) && (forall|j: int|
                0 <= j < i ==> str_views(existing@).contains(benefits@[j]@)) ==> refused_with(
                r,
                BAD_REQUEST,
                "Benefit "@ + benefits@[i]@ + " does not exist"@,
            ),
        allowed && !cents_negative && duration >= 0 && benefits_exist(
            str_views(benefits@),
            str_views(existing@).to_set(),
        ) && editing && item_count == 0 ==> refused_with(
            r,
            BAD_REQUEST,
            "Entry with same id does not already exist"@,
        ),
{
    if editing {
        PanelPerm::ShopItemsUpdate.check(allowed)?;
    } else {
        PanelPerm::ShopItemsCreate.check(allowed)?;
    }
    check_shop_item(cents_negative, duration)?;
    let mut i: usize = 0;
    while i < benefits.len()
        invariant
            i <= benefits@.len(),
            allowed && !cents_negative && duration >= 0,
            forall|j: int| 0 <= j < i ==> str_views(existing@).contains(#[trigger] benefits@[j]@),
        decreases benefits.len() - i,
    {
        let found = contains_str(existing, benefits[i].as_str());
        if !found {
            let count: i64 = 0;
            proof {
                assert(!str_views(existing@).to_set().contains(str_views(benefits@)[i as int]));
            }
            return check_benefit_exists(benefits[i].as_str(), count);
        }
        i = i + 1;
    }
    assert(benefits_exist(str_views(benefits@), str_views(existing@).to_set())) by {
        assert forall|j: int| 0 <= j < str_views(benefits@).len() implies str_views(
            existing@,
        ).to_set().contains(#[trigger] str_views(benefits@)[j]) by {
            assert(str_views(benefits@)[j] == benefits@[j]@);
        }
    }
    if editing {
        check_entry_exists(item_count)?;
    }
    Ok(())
}

/// Deletes the benefit `id`: the member must hold the permission
/// (`allowed`), a benefit must have the id (`count` of them do), and no shop
/// item may list it (`items` holds each item's benefits).
pub fn plan_delete_benefit(allowed: bool, count: i64, id: &str, items: &Vec<Vec<String>>) -> (r: Result<
    (),
    Refusal,
>)
    ensures
        r is Ok <==> allowed && count != 0 && benefit_unused(item_benefits(items@), id@),
        !allowed ==> refused_with(r, FORBIDDEN, denial_spec(PanelPerm::ShopItemBenefitsDelete)),
        allowed && count == 0 ==> refused_with(
            r,
            BAD_REQUEST,
            "Entry with same id does not already exist"@,
        ),
        allowed && count != 0 && !benefit_unused(item_benefits(items@), id@) ==> refused_with(
            r,
            BAD_REQUEST,
            "Cannot delete benefit as it is used by shop items"@,
        ),
{
    PanelPerm::ShopItemBenefitsDelete.check(allowed)?;
    check_entry_exists(count)?;
    let mut used = false;
    let mut i: usize = 0;
    while i < items.len()
        invariant
            i <= items@.len(),
            !used <==> forall|j: int| 0 <= j < i ==> !item_benefits(items@)[j].contains(id@),
        decreases items.len() - i,
    {
        assert(item_benefits(items@)[i as int] == str_views(items@[i as int]@));
        if contains_str(&items[i], id) {
            used = true;
        }
        i = i + 1;
    }
    check_benefit_unused(if used { 1 } else { 0 })
}

/// A tier other than `id` sits at position `q`.
pub open spec fn occupied(rows: Seq<TierRow>, id: Seq<char>, q: int) -> bool {
    exists|i: int| 0 <= i < rows.len() && (#[trigger] rows[i]).id@ != id && rows[i].position == q
}

/// `g` is the first position from `position` on that no tier other than `id`
/// holds: every position from `position` up to `g` (excluded) is held.
pub open spec fn is_first_gap(rows: Seq<TierRow>, id: Seq<char>, position: i32, g: int) -> bool {
    &&& position <= g <= i32::MAX
    &&& forall|q: int| position <= q < g ==> occupied(rows, id, q)
    &&& !occupied(rows, id, g)
}

/// A tier's position once the tier `id` is placed at `position` and the
/// tiers in its way have made room: the placed tier takes `position`, each
/// other tier from `position` up to the first free position `g` moves one
/// further down, and the rest stay.
pub open spec fn settled_position(row: TierRow, id: Seq<char>, position: i32, g: int) -> int {
    if row.id@ == id {
        position as int
    } else if position <= row.position < g {
        row.position + 1
    } else {
        row.position as int
    }
}

/// Whether a tier other than `id` sits at position `q`.
fn occupied_exec(rows: &Vec<TierRow>, id: &str, q: i32) -> (r: bool)
    ensures
        r == occupied(rows@, id@, q as int),
{
    let mut i: usize = 0;
    while i < rows.len()
        invariant
            i <= rows@.len(),
            forall|j: int| 0 <= j < i ==> !((#[trigger] rows@[j]).id@ != id@ && rows@[j].position == q),
        decreases rows.len() - i,
    {
        if rows[i].position == q && !str_eq(rows[i].id.as_str(), id) {
            assert(rows@[i as int].id@ != id@ && rows@[i as int].position == q);
            return true;
        }
        i = i + 1;
    }
    false
}

/// Places the tier `id` at `position` and keeps shifting the tiers in its
/// way until the positions are unique: the tiers from `position` up to the
/// first position no other tier holds move one further down. `None` when
/// every position from `position` to `i32::MAX` is held, so that there is no
/// room to shift into.
pub fn settle_tiers(rows: &Vec<TierRow>, id: &str, position: i32) -> (r: Option<Vec<TierRow>>)
    ensures
        r is None <==> forall|q: int| position <= q <= i32::MAX ==> occupied(rows@, id@, q),
        r matches Some(v) ==> exists|g: int|
            is_first_gap(rows@, id@, position, g) && v@.len() == rows@.len() && forall|i: int|
                0 <= i < v@.len() ==> (#[trigger] v@[i]).id@ == rows@[i].id@ && v@[i].position
                    == settled_position(rows@[i], id@, position, g),
{
    let mut g: i64 = position as i64;
    loop
        invariant
            position <= g <= i32::MAX + 1,
            forall|q: int| position <= q < g ==> occupied(rows@, id@, q),
        ensures
            position <= g <= i32::MAX,
            forall|q: int| position <= q < g ==> occupied(rows@, id@, q),
            !occupied(rows@, id@, g as int),
        decreases i32::MAX + 1 - g,
    {
        if g > i32::MAX as i64 {
            return None;
        }
        if !occupied_exec(rows, id, g as i32) {
            break;
        }
        g = g + 1;
    }
    let ghost gap: int = g as int;
    assert(is_first_gap(rows@, id@, position, gap));
    let mut v: Vec<TierRow> = Vec::new();
    let mut i: usize = 0;
    while i < rows.len()
        invariant
            i <= rows@.len(),
            gap == g,
            position <= g <= i32::MAX,
            v@.len() == i,
            forall|j: int|
                0 <= j < i ==> (#[trigger] v@[j]).id@ == rows@[j].id@ && v@[j].position
                    == settled_position(rows@[j], id@, position, gap),
        decreases rows.len() - i,
    {
        let row = &rows[i];
        let p = if str_eq(row.id.as_str(), id) {
            position
        } else if position <= row.position && (row.position as i64) < g {
            row.position + 1
        } else {
            row.position
        };
        v.push(TierRow { id: owned(row.id.as_str()), position: p });
        i = i + 1;
    }
    Some(v)
}

/// Once the tiers have made room, the positions are unique, provided the ids
/// are and the other tiers' positions were.
pub proof fn law_settled_positions_distinct(
    rows: Seq<TierRow>,
    id: Seq<char>,
    position: i32,
    g: int,
    i: int,
    j: int,
)
    requires
        is_first_gap(rows, id, position, g),
        0 <= i < j < rows.len(),
        forall|a: int, b: int| 0 <= a < b < rows.len() ==> rows[a].id@ != rows[b].id@,
        forall|a: int, b: int|
            0 <= a < b < rows.len() && rows[a].id@ != id && rows[b].id@ != id ==> rows[a].position
                != rows[b].position,
    ensures
        settled_position(rows[i], id, position, g) != settled_position(rows[j], id, position, g),
{
    assert(rows[i].id@ != rows[j].id@);
    if rows[i].id@ != id && rows[j].id@ != id {
        assert(rows[i].position != rows[j].position);
        if rows[j].position == g {
            assert(occupied(rows, id, g));
        }
        if rows[i].position == g {
            assert(occupied(rows, id, g));
        }
    } else if rows[i].id@ == id {
        if rows[j].position == g {
            assert(occupied(rows, id, g));
        }
    } else {
        if rows[i].position == g {
            assert(occupied(rows, id, g));
        }
    }
}

/// The placed tier ends at its position, and every other tier stays or moves
/// exactly one further down.
pub proof fn law_settling_moves_at_most_one_down(
    rows: Seq<TierRow>,
    id: Seq<char>,
    position: i32,
    g: int,
    i: int,
)
    requires
        is_first_gap(rows, id, position, g),
        0 <= i < rows.len(),
    ensures
        rows[i].id@ == id ==> settled_position(rows[i], id, position, g) == position,
        rows[i].id@ != id ==> (settled_position(rows[i], id, position, g) == rows[i].position
            || settled_position(rows[i], id, position, g) == rows[i].position + 1),
        rows[i].id@ != id ==> settled_position(rows[i], id, position, g) <= i32::MAX,
{
}

} // verus!
