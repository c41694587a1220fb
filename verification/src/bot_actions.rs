//! The checks of the bot commands staff use on bots: approving, denying,
//! vote resets, premium, certification, vote bans and forced removal.
use crate::ids::contains_id;
use crate::onboarding::onboard_state_text;
use crate::onboarding::OnboardState;
use crate::text::{concat, owned, str_eq};
use vstd::prelude::*;

verus! {

/// Checks the reason logged with an action: from 5 to 1998 bytes.
pub fn check_action_reason(reason: &str) -> (r: Result<(), String>)
    ensures
        r is Ok <==> (5 <= reason.len() <= 1998),
        r is Err ==> r->Err_0@ == "Reason is too short or too long"@,
{
    if reason.len() < 5 || reason.len() > 1998 {
        return Err(owned("Reason is too short or too long"));
    }
    Ok(())
}

/// Checks that the staff member is one of the owners, who alone may change
/// vote counts.
pub fn check_vote_owner(owners: &Vec<u64>, staff_id: u64) -> (r: Result<(), String>)
    ensures
        r is Ok <==> owners@.contains(staff_id),
        r is Err ==> r->Err_0@ == "You cannot reset votes unless you are owner"@,
{
    if !contains_id(owners, staff_id) {
        return Err(owned("You cannot reset votes unless you are owner"));
    }
    Ok(())
}

/// Checks that a single bot's votes are reset, not all of them (`all`).
pub fn check_single_bot(bot_id: &str) -> (r: Result<(), String>)
    ensures
        r is Ok <==> bot_id@ != "all"@,
        r is Err ==> r->Err_0@ == "You cannot reset all votes with this command"@,
{
    if str_eq(bot_id, "all") {
        return Err(owned("You cannot reset all votes with this command"));
    }
    Ok(())
}

/// Checks that the bot exists: `count` is how many bots have its id.
pub fn check_bot_exists(count: i64) -> (r: Result<(), String>)
    ensures
        r is Ok <==> count != 0,
        r is Err ==> r->Err_0@ == "Bot does not exist"@,
{
    if count == 0 {
        return Err(owned("Bot does not exist"));
    }
    Ok(())
}

/// Checks that the user unverifying a bot is staff.
pub fn check_unverifier(staff: bool) -> (r: Result<(), String>)
    ensures
        r is Ok <==> staff,
        r is Err ==> r->Err_0@ == "You need to be a staff member to unverify bots"@,
{
    if !staff {
        return Err(owned("You need to be a staff member to unverify bots"));
    }
    Ok(())
}

/// The actions reserved to head staff.
#[derive(Debug, Clone, Copy, PartialEq, Eq, Structural)]
pub enum HeadStaffAction {
    PremiumAdd,
    PremiumRemove,
    CertifyRemove,
    VoteBan,
    ForceRemove,
}

/// What the refusal says the action is.
pub open spec fn head_staff_action_text(a: HeadStaffAction) -> Seq<char> {
    match a {
        HeadStaffAction::PremiumAdd => "add premium to bots"@,
        HeadStaffAction::PremiumRemove => "remove premium from bots"@,
        HeadStaffAction::CertifyRemove => "uncertify bots"@,
        HeadStaffAction::VoteBan => "edit votebans"@,
        HeadStaffAction::ForceRemove => "forcibly remove a bit"@,
    }
}

/// Checks that the staff member is a head developer (`iblhdev`) or a head
/// administrator (`hadmin`).
pub fn check_head_staff(action: HeadStaffAction, iblhdev: bool, hadmin: bool) -> (r: Result<
    (),
    String,
>)
    ensures
        r is Ok <==> (iblhdev || hadmin),
        r is Err ==> r->Err_0@ == "You need `Head Staff Manager` or `Head Developer` to "@
            + head_staff_action_text(action),
{
    if !(iblhdev || hadmin) {
        let what = match action {
            HeadStaffAction::PremiumAdd => "add premium to bots",
            HeadStaffAction::PremiumRemove => "remove premium from bots",
            HeadStaffAction::CertifyRemove => "uncertify bots",
            HeadStaffAction::VoteBan => "edit votebans",
            HeadStaffAction::ForceRemove => "forcibly remove a bit",
        };
        return Err(concat("You need `Head Staff Manager` or `Head Developer` to ", what));
    }
    Ok(())
}

/// Checks a forced removal: a protected bot cannot be kicked.
pub fn check_forced_removal(protected_bots: &Vec<u64>, bot_id: u64, kick: bool) -> (r: Result<
    (),
    String,
>)
    ensures
        r is Ok <==> !(protected_bots@.contains(bot_id) && kick),
        r is Err ==> r->Err_0@ == "You can't force delete this bot with 'kick' enabled!"@,
{
    if contains_id(protected_bots, bot_id) && kick {
        return Err(owned("You can't force delete this bot with 'kick' enabled!"));
    }
    Ok(())
}

/// The two outcomes of a review.
#[derive(Debug, Clone, Copy, PartialEq, Eq, Structural)]
pub enum Review {
    Approve,
    Deny,
}

/// The refusal for someone reviewing a bot who is not staff.
pub open spec fn not_staff_message(review: Review) -> Seq<char> {
    match review {
        Review::Approve => "Only staff members may approve bots"@,
        Review::Deny => "Only staff members may deny bots"@,
    }
}

/// The refusal for someone reviewing a bot before completing onboarding.
pub open spec fn onboarding_message(review: Review) -> Seq<char> {
    match review {
        Review::Approve => "onboarding_required"@,
        Review::Deny => "You need to complete onboarding to continue!"@,
    }
}

/// Checks who reviews the bot: staff, with onboarding completed (`onboard_state` is
/// their stored onboarding state).
pub fn check_review_staff(review: Review, staff: bool, onboard_state: &str) -> (r: Result<(), String>)
    ensures
        r is Ok <==> (staff && onboard_state@ == onboard_state_text(OnboardState::Completed)),
        !staff ==> r is Err && r->Err_0@ == not_staff_message(review),
        staff && onboard_state@ != onboard_state_text(OnboardState::Completed) ==> r is Err
            && r->Err_0@ == onboarding_message(review),
{
    if !staff {
        return Err(
            match review {
                Review::Approve => owned("Only staff members may approve bots"),
                Review::Deny => owned("Only staff members may deny bots"),
            },
        );
    }
    if !str_eq(onboard_state, OnboardState::Completed.text()) {
        return Err(
            match review {
                Review::Approve => owned("onboarding_required"),
                Review::Deny => owned("You need to complete onboarding to continue!"),
            },
        );
    }
    Ok(())
}

/// The least number of minutes a bot must be tested before it is reviewed.
pub const MIN_TEST_MINUTES: i64 = 5;

/// Whether a bot counts as claimed for review: someone non-empty claimed it,
/// and the time of the claim is known.
pub open spec fn claimed_for_review(claimed_by: Option<Seq<char>>, claim_time_known: bool) -> bool {
    claimed_by matches Some(c) && c.len() > 0 && claim_time_known
}

/// Checks a bot under review: it is claimed, by someone, at a known time,
/// and was tested for at least 5 minutes since (`minutes_since_claim`).
pub fn check_review_claim(
    bot_id: &str,
    bot_type: &str,
    claimed_by: Option<&str>,
    claim_time_known: bool,
    minutes_since_claim: i64,
) -> (r: Result<(), String>)
    ensures
        r is Ok <==> (bot_type@ == "claimed"@ && claimed_for_review(
            match claimed_by {
                Some(c) => Some(c@),
                None => None,
            },
            claim_time_known,
        ) && minutes_since_claim >= MIN_TEST_MINUTES),
        bot_type@ != "claimed"@ ==> r is Err && r->Err_0@ == "Bot is not pending review?"@,
        bot_type@ == "claimed"@ && !claimed_for_review(
            match claimed_by {
                Some(c) => Some(c@),
                None => None,
            },
            claim_time_known,
        ) ==> r is Err && r->Err_0@ == "<@"@ + bot_id@
            + "> is not claimed? Do ``/claim`` to claim this bot first!"@,
        bot_type@ == "claimed"@ && claimed_for_review(
            match claimed_by {
                Some(c) => Some(c@),
                None => None,
            },
            claim_time_known,
        ) && minutes_since_claim < MIN_TEST_MINUTES ==> r is Err && r->Err_0@
            == "Whoa there! You need to test this bot for at least 5 minutes (recommended: 10-20 minutes) before being able to approve/deny it!"@,
{
    if !str_eq(bot_type, "claimed") {
        return Err(owned("Bot is not pending review?"));
    }
    let unclaimed = match claimed_by {
        None => true,
        Some(c) => c.unicode_len() == 0,
    } || !claim_time_known;
    if unclaimed {
        let a = concat("<@", bot_id);
        return Err(concat(a.as_str(), "> is not claimed? Do ``/claim`` to claim this bot first!"));
    }
    if minutes_since_claim < MIN_TEST_MINUTES {
        return Err(
            owned(
                "Whoa there! You need to test this bot for at least 5 minutes (recommended: 10-20 minutes) before being able to approve/deny it!",
            ),
        );
    }
    Ok(())
}

/// Checks that a bot to be approved is in the testing server.
pub fn check_in_testing_server(member: bool) -> (r: Result<(), String>)
    ensures
        r is Ok <==> member,
        r is Err ==> r->Err_0@
            == "Bot is not in testing server. Please ensure this bot is in the testing server when approving. It will then be kicked by Arcadia when added to main server"@,
{
    if !member {
        return Err(
            owned(
                "Bot is not in testing server. Please ensure this bot is in the testing server when approving. It will then be kicked by Arcadia when added to main server",
            ),
        );
    }
    Ok(())
}

/// A row of the action log.
#[derive(Debug, Clone, PartialEq, Eq)]
pub struct ActionLog {
    pub bot_id: String,
    pub staff_id: String,
    pub reason: String,
    pub event: String,
}

/// Records an action: the reason must be from 5 to 1998 bytes; then the
/// row to append to the action log, and nothing else.
pub fn plan_action_log(bot_id: &str, staff_id: &str, reason: &str, event: &str) -> (r: Result<
    ActionLog,
    String,
>)
    ensures
        r is Ok <==> (5 <= reason.len() <= 1998),
        r is Err ==> r->Err_0@ == "Reason is too short or too long"@,
        r matches Ok(l) ==> l.bot_id@ == bot_id@ && l.staff_id@ == staff_id@ && l.reason@ == reason@
            && l.event@ == event@,
{
    check_action_reason(reason)?;
    Ok(
        ActionLog {
            bot_id: owned(bot_id),
            staff_id: owned(staff_id),
            reason: owned(reason),
            event: owned(event),
        },
    )
}

/// The refusal of an approval, in the order of its checks, if any.
pub open spec fn approve_refusal(
    staff: bool,
    onboard_state: Seq<char>,
    bot_id: Seq<char>,
    bot_type: Seq<char>,
    claimed_by: Option<Seq<char>>,
    claim_time_known: bool,
    minutes_since_claim: i64,
    in_testing_server: bool,
    reason_len: usize,
) -> Option<Seq<char>> {
    if !staff {
        Some(not_staff_message(Review::Approve))
    } else if onboard_state != onboard_state_text(OnboardState::Completed) {
        Some(onboarding_message(Review::Approve))
    } else if bot_type != "claimed"@ {
        Some("Bot is not pending review?"@)
    } else if !claimed_for_review(claimed_by, claim_time_known) {
        Some("<@"@ + bot_id + "> is not claimed? Do ``/claim`` to claim this bot first!"@)
    } else if minutes_since_claim < MIN_TEST_MINUTES {
        Some(
            "Whoa there! You need to test this bot for at least 5 minutes (recommended: 10-20 minutes) before being able to approve/deny it!"@,
        )
    } else if !in_testing_server {
        Some(
            "Bot is not in testing server. Please ensure this bot is in the testing server when approving. It will then be kicked by Arcadia when added to main server"@,
        )
    } else if !(5 <= reason_len <= 1998) {
        Some("Reason is too short or too long"@)
    } else {
        None
    }
}

/// What an approval writes: its action log row, and the bot becomes
/// approved and unclaimed.
#[derive(Debug, Clone)]
pub struct ApprovalWrite {
    pub log: ActionLog,
    pub bot_id: String,
    pub bot_type: String,
    pub clear_claim: bool,
}

/// Approves the bot `bot_id` for the staff member `staff_id` (staff when
/// `staff`, with the onboarding state `onboard_state`), from what was read
/// of the bot: its type, claimer, whether the claim time is known, the
/// minutes since the claim and whether it is in the testing server. Every
/// check comes before the writes, which are only planned when all pass: a
/// refused approval writes neither the bot nor the action log.
pub fn plan_approve_bot(
    staff: bool,
    onboard_state: &str,
    bot_id: &str,
    bot_type: &str,
    claimed_by: Option<&str>,
    claim_time_known: bool,
    minutes_since_claim: i64,
    in_testing_server: bool,
    staff_id: &str,
    reason: &str,
) -> (r: Result<ApprovalWrite, String>)
    ensures
        ({
            let refusal = approve_refusal(
                staff,
                onboard_state@,
                bot_id@,
                bot_type@,
                match claimed_by {
                    Some(c) => Some(c@),
                    None => None,
                },
                claim_time_known,
                minutes_since_claim,
                in_testing_server,
                reason.len(),
            );
            &&& r is Err <==> refusal is Some
            &&& r matches Err(e) ==> e@ == refusal->Some_0
        }),
        r matches Ok(w) ==> w.log.bot_id@ == bot_id@ && w.log.staff_id@ == staff_id@
            && w.log.reason@ == reason@ && w.log.event@ == "approve"@ && w.bot_id@ == bot_id@
            && w.bot_type@ == "approved"@ && w.clear_claim,
{
    check_review_staff(Review::Approve, staff, onboard_state)?;
    check_review_claim(bot_id, bot_type, claimed_by, claim_time_known, minutes_since_claim)?;
    check_in_testing_server(in_testing_server)?;
    let log = plan_action_log(bot_id, staff_id, reason, "approve")?;
    Ok(ApprovalWrite { log, bot_id: owned(bot_id), bot_type: owned("approved"), clear_claim: true })
}

} // verus!
