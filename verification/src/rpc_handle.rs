//! Running an RPC method: the checks made before a method runs, in order,
//! and the checks each method makes on the data it reads.
//!
//! The checks that need the database are a state machine: [`rpc_step`] takes
//! the stage reached and what the last database call answered, and says what
//! to do next. The caller performs the action and reports back.
use crate::ids::{contains_id, parse_uuid, uuid_parse_spec};
use crate::perms::{has_perm, has_perm_spec, views};
use crate::rpc::{kind_name, kind_of, supported_spec, MethodKind, RPCMethod, RPCSuccess};
use crate::target_types::TargetType;
use crate::text::{owned, push_str, str_eq};
use vstd::prelude::*;

verus! {

/// How far the checks before a method have come.
#[derive(Debug, Clone, Copy, PartialEq, Eq, Structural)]
pub enum RpcStage {
    /// Nothing checked yet.
    Start,
    /// Waiting for whether the staff member holds the method's permission.
    AwaitingPermission,
    /// Waiting for the number of completed onboardings of the last month.
    AwaitingOnboarding,
    /// Waiting for the call to be written to the RPC log.
    AwaitingLog,
    /// Waiting for the number of calls of the last 7 minutes.
    AwaitingRecentCount,
    /// All checks passed; the method runs.
    Dispatched,
    /// A check failed; the call is answered with the refusal.
    Refused,
}

/// What the last database call answered.
#[derive(Debug, Clone, Copy, PartialEq, Eq, Structural)]
pub enum RpcEvent {
    /// The call starts.
    Begin,
    /// Whether the staff member's resolved permissions include the method's.
    PermissionChecked { allowed: bool },
    /// Completed, not voided onboardings of the staff member in the last month.
    OnboardingCount { count: i64 },
    /// The call was written to the RPC log.
    LogInserted,
    /// Calls of the staff member in the last 7 minutes (the new one included).
    RecentCount { count: i64 },
}

/// Why a call is refused before its method runs.
#[derive(Debug, Clone, PartialEq, Eq)]
pub enum RpcRefusal {
    /// The method cannot be used on the requested target type.
    UnsupportedTarget,
    /// The staff member lacks `perm`, the permission of method `method`.
    MissingPermission { perm: String, method: String },
    /// The staff member has not completed onboarding in the last month.
    OnboardingRequired,
    /// More than 5 calls in the last 7 minutes.
    RateLimited,
}

/// What to do next.
#[derive(Debug, Clone, PartialEq, Eq)]
pub enum RpcAction {
    /// Resolve the staff member's permissions and check for `perm`.
    CheckPermission { perm: String },
    /// Count the staff member's completed onboardings of the last month.
    CountOnboarding,
    /// Write the call to the RPC log.
    InsertLog,
    /// Count the staff member's calls of the last 7 minutes.
    CountRecent,
    /// Run the method.
    Run,
    /// Answer the call with the refusal.
    Refuse(RpcRefusal),
    /// Revoke the staff member's panel sessions, then answer with the refusal.
    RevokeSessionsAndRefuse(RpcRefusal),
}

/// The shape of an action, without its texts.
#[derive(Debug, Clone, Copy, PartialEq, Eq, Structural)]
pub enum ActionTag {
    CheckPermission,
    CountOnboarding,
    InsertLog,
    CountRecent,
    Run,
    Refuse(RefusalKind),
    RevokeSessionsAndRefuse(RefusalKind),
}

/// The kind of a refusal, without its texts.
#[derive(Debug, Clone, Copy, PartialEq, Eq, Structural)]
pub enum RefusalKind {
    UnsupportedTarget,
    MissingPermission,
    OnboardingRequired,
    RateLimited,
}

/// The kind of a refusal.
pub open spec fn refusal_kind(r: RpcRefusal) -> RefusalKind {
    match r {
        RpcRefusal::UnsupportedTarget => RefusalKind::UnsupportedTarget,
        RpcRefusal::MissingPermission { .. } => RefusalKind::MissingPermission,
        RpcRefusal::OnboardingRequired => RefusalKind::OnboardingRequired,
        RpcRefusal::RateLimited => RefusalKind::RateLimited,
    }
}

/// The event that each waiting stage expects.
pub open spec fn event_fits(stage: RpcStage, event: RpcEvent) -> bool {
    match stage {
        RpcStage::Start => event is Begin,
        RpcStage::AwaitingPermission => event is PermissionChecked,
        RpcStage::AwaitingOnboarding => event is OnboardingCount,
        RpcStage::AwaitingLog => event is LogInserted,
        RpcStage::AwaitingRecentCount => event is RecentCount,
        _ => false,
    }
}

/// The next stage and the shape of the next action.
pub open spec fn rpc_step_spec(k: MethodKind, t: TargetType, stage: RpcStage, event: RpcEvent) -> (
    RpcStage,
    ActionTag,
) {
    match event {
        RpcEvent::Begin => if supported_spec(k).contains(t) {
            (RpcStage::AwaitingPermission, ActionTag::CheckPermission)
        } else {
            (RpcStage::Refused, ActionTag::Refuse(RefusalKind::UnsupportedTarget))
        },
        RpcEvent::PermissionChecked { allowed } => if allowed {
            (RpcStage::AwaitingOnboarding, ActionTag::CountOnboarding)
        } else {
            (RpcStage::Refused, ActionTag::Refuse(RefusalKind::MissingPermission))
        },
        RpcEvent::OnboardingCount { count } => if count == 0 {
            (RpcStage::Refused, ActionTag::Refuse(RefusalKind::OnboardingRequired))
        } else {
            (RpcStage::AwaitingLog, ActionTag::InsertLog)
        },
        RpcEvent::LogInserted => (RpcStage::AwaitingRecentCount, ActionTag::CountRecent),
        RpcEvent::RecentCount { count } => if count > 5 {
            (RpcStage::Refused, ActionTag::RevokeSessionsAndRefuse(RefusalKind::RateLimited))
        } else {
            (RpcStage::Dispatched, ActionTag::Run)
        },
    }
}

/// The shape of an action: its kind, and for a refusal the refusal's kind.
/// Two actions of the same shape differ at most in the texts of a
/// permission refusal or a permission check, which `rpc_step` fixes apart.
pub open spec fn action_tag(a: RpcAction) -> ActionTag {
    match a {
        RpcAction::CheckPermission { .. } => ActionTag::CheckPermission,
        RpcAction::CountOnboarding => ActionTag::CountOnboarding,
        RpcAction::InsertLog => ActionTag::InsertLog,
        RpcAction::CountRecent => ActionTag::CountRecent,
        RpcAction::Run => ActionTag::Run,
        RpcAction::Refuse(r) => ActionTag::Refuse(refusal_kind(r)),
        RpcAction::RevokeSessionsAndRefuse(r) => ActionTag::RevokeSessionsAndRefuse(refusal_kind(r)),
    }
}

/// The permission that method kind `k` needs: `rpc.<name>`.
pub open spec fn rpc_perm_spec(k: MethodKind) -> Seq<char> {
    "rpc"@ + seq!['.'] + kind_name(k)
}

/// One step of the checks before `method` runs on target type `target`.
pub fn rpc_step(method: &RPCMethod, target: TargetType, stage: RpcStage, event: RpcEvent) -> (r: (
    RpcStage,
    RpcAction,
))
    requires
        event_fits(stage, event),
    ensures
        (r.0, action_tag(r.1)) == rpc_step_spec(kind_of(*method), target, stage, event),
        r.1 matches RpcAction::CheckPermission { perm } ==> perm@ == rpc_perm_spec(
            kind_of(*method),
        ),
        r.1 matches RpcAction::Refuse(RpcRefusal::MissingPermission { perm, method: name }) ==> perm@
            == rpc_perm_spec(kind_of(*method)) && name@ == kind_name(kind_of(*method)),
        event matches RpcEvent::RecentCount { count } && count <= 5 ==> r.1 == RpcAction::Run,
{
    match event {
        RpcEvent::Begin => {
            if method.kind().supports(target) {
                (RpcStage::AwaitingPermission, RpcAction::CheckPermission { perm: method.required_perm() })
            } else {
                (RpcStage::Refused, RpcAction::Refuse(RpcRefusal::UnsupportedTarget))
            }
        },
        RpcEvent::PermissionChecked { allowed } => {
            if allowed {
                (RpcStage::AwaitingOnboarding, RpcAction::CountOnboarding)
            } else {
                (
                    RpcStage::Refused,
                    RpcAction::Refuse(
                        RpcRefusal::MissingPermission {
                            perm: method.required_perm(),
                            method: method.name(),
                        },
                    ),
                )
            }
        },
        RpcEvent::OnboardingCount { count } => {
            if count == 0 {
                (RpcStage::Refused, RpcAction::Refuse(RpcRefusal::OnboardingRequired))
            } else {
                (RpcStage::AwaitingLog, RpcAction::InsertLog)
            }
        },
        RpcEvent::LogInserted => (RpcStage::AwaitingRecentCount, RpcAction::CountRecent),
        RpcEvent::RecentCount { count } => {
            if count > 5 {
                (RpcStage::Refused, RpcAction::RevokeSessionsAndRefuse(RpcRefusal::RateLimited))
            } else {
                (RpcStage::Dispatched, RpcAction::Run)
            }
        },
    }
}

impl RpcRefusal {
    /// The message the call is answered with.
    pub fn message(&self) -> (r: String)
        ensures
            r@ == refusal_message(*self),
    {
        match self {
            RpcRefusal::UnsupportedTarget => owned("This method does not support this target type yet"),
            RpcRefusal::MissingPermission { perm, method } => {
                let mut s = owned("You need ");
                push_str(&mut s, perm.as_str());
                push_str(&mut s, " permission to use ");
                push_str(&mut s, method.as_str());
                s
            },
            RpcRefusal::OnboardingRequired => owned(
                "You need to have completed onboarding in order to use RPC!",
            ),
            RpcRefusal::RateLimited => owned("Rate limit exceeded. Wait 5-10 minutes and try again?"),
        }
    }
}

/// The message of each refusal.
pub open spec fn refusal_message(r: RpcRefusal) -> Seq<char> {
    match r {
        RpcRefusal::UnsupportedTarget => "This method does not support this target type yet"@,
        RpcRefusal::MissingPermission { perm, method } => "You need "@ + perm@
            + " permission to use "@ + method@,
        RpcRefusal::OnboardingRequired => "You need to have completed onboarding in order to use RPC!"@,
        RpcRefusal::RateLimited => "Rate limit exceeded. Wait 5-10 minutes and try again?"@,
    }
}

/// The outcome of feeding the checks the answers `allowed`, `onboarded` and
/// `recent`, from the start.
pub open spec fn run_checks(
    k: MethodKind,
    t: TargetType,
    allowed: bool,
    onboarded: i64,
    recent: i64,
) -> (RpcStage, ActionTag) {
    let s1 = rpc_step_spec(k, t, RpcStage::Start, RpcEvent::Begin);
    if s1.0 != RpcStage::AwaitingPermission {
        s1
    } else {
        let s2 = rpc_step_spec(k, t, s1.0, RpcEvent::PermissionChecked { allowed });
        if s2.0 != RpcStage::AwaitingOnboarding {
            s2
        } else {
            let s3 = rpc_step_spec(k, t, s2.0, RpcEvent::OnboardingCount { count: onboarded });
            if s3.0 != RpcStage::AwaitingLog {
                s3
            } else {
                let s4 = rpc_step_spec(k, t, s3.0, RpcEvent::LogInserted);
                rpc_step_spec(k, t, s4.0, RpcEvent::RecentCount { count: recent })
            }
        }
    }
}

/// A method runs exactly when it supports the target type, the staff member
/// holds its permission, has completed onboarding in the last month and made
/// at most 5 calls in the last 7 minutes; every other call is refused.
pub proof fn law_method_runs_only_after_all_checks(
    k: MethodKind,
    t: TargetType,
    allowed: bool,
    onboarded: i64,
    recent: i64,
)
    ensures
        (run_checks(k, t, allowed, onboarded, recent).0 == RpcStage::Dispatched) == (supported_spec(
            k,
        ).contains(t) && allowed && onboarded != 0 && recent <= 5),
        run_checks(k, t, allowed, onboarded, recent).0 == RpcStage::Dispatched
            || run_checks(k, t, allowed, onboarded, recent).0 == RpcStage::Refused,
{
}

/// The log entry is written only once the permission and the onboarding
/// checks passed, and before the rate limit is counted.
pub proof fn law_log_written_after_permission_checks(k: MethodKind, t: TargetType, stage: RpcStage, event: RpcEvent)
    requires
        event_fits(stage, event),
        rpc_step_spec(k, t, stage, event).1 == ActionTag::InsertLog,
    ensures
        stage == RpcStage::AwaitingOnboarding,
        event matches RpcEvent::OnboardingCount { count } && count != 0,
{
}

// ----- The checks each method makes -----

/// Why a method refuses to act on the data it read.
#[derive(Debug, Clone, PartialEq, Eq)]
pub enum RpcError {
    /// The reason is longer than 2000 bytes.
    ReasonTooLong,
    /// The bot is not pending review (claim, unclaim).
    NotPendingReview,
    /// The bot is a test bot.
    TestBot,
    /// The bot is claimed by `by`, and the claim is not forced.
    AlreadyClaimed { by: String },
    /// The bot `target_id` is not claimed (unclaim).
    NotClaimed { target_id: String },
    /// The entity is not pending review (approve).
    EntityNotPending,
    /// The entity is not pending review (deny).
    DenyNotPending,
    /// The bot `target_id` has no claim to review under.
    ReviewNotClaimed { target_id: String },
    /// The entity does not exist.
    DoesNotExist,
    /// Certified bots cannot be unverified.
    CertifiedCannotUnverify,
    /// The bot is protected, so it cannot be removed with `kick`.
    ProtectedKick,
    /// The bot belongs to a team, so a user cannot become its owner.
    InTeam,
    /// The new team id is not a UUID.
    InvalidTeamId,
    /// The bot belongs to no team, so it cannot move to another one.
    NotInTeam,
    /// The target id is not a Discord id; `error` is why.
    BadTargetId { error: String },
}

/// The message of each refusal of a method.
pub open spec fn error_message(e: RpcError) -> Seq<char> {
    match e {
        RpcError::ReasonTooLong => "Reason must be lower than/equal to 2000 characters"@,
        RpcError::NotPendingReview => "This bot is not pending review"@,
        RpcError::TestBot => "This bot is a test bot"@,
        RpcError::AlreadyClaimed { by } => "This bot is already claimed by <@"@ + by@ + ">"@,
        RpcError::NotClaimed { target_id } => "<@"@ + target_id@ + "> is not claimed"@,
        RpcError::EntityNotPending => "Entity is not pending review?"@,
        RpcError::DenyNotPending => " is not pending review?"@,
        RpcError::ReviewNotClaimed { target_id } => "<@"@ + target_id@
            + "> is not claimed? Do ``/claim`` to claim this bot first!"@,
        RpcError::DoesNotExist => " does not exist"@,
        RpcError::CertifiedCannotUnverify => "Certified bots cannot be unverified"@,
        RpcError::ProtectedKick => "You can't force delete this bot with 'kick' enabled!"@,
        RpcError::InTeam => " is in a team. Please use BotTransferOwnershipTeam"@,
        RpcError::InvalidTeamId => "Invalid team ID"@,
        RpcError::NotInTeam => " is not in a team. Please use TransferOwnership"@,
        RpcError::BadTargetId { error } => error@,
    }
}

impl RpcError {
    /// The message the call is answered with.
    pub fn message(&self) -> (r: String)
        ensures
            r@ == error_message(*self),
    {
        match self {
            RpcError::ReasonTooLong => owned("Reason must be lower than/equal to 2000 characters"),
            RpcError::NotPendingReview => owned("This bot is not pending review"),
            RpcError::TestBot => owned("This bot is a test bot"),
            RpcError::AlreadyClaimed { by } => {
                let mut s = owned("This bot is already claimed by <@");
                push_str(&mut s, by.as_str());
                push_str(&mut s, ">");
                s
            },
            RpcError::NotClaimed { target_id } => {
                let mut s = owned("<@");
                push_str(&mut s, target_id.as_str());
                push_str(&mut s, "> is not claimed");
                s
            },
            RpcError::EntityNotPending => owned("Entity is not pending review?"),
            RpcError::DenyNotPending => owned(" is not pending review?"),
            RpcError::ReviewNotClaimed { target_id } => {
                let mut s = owned("<@");
                push_str(&mut s, target_id.as_str());
                push_str(&mut s, "> is not claimed? Do ``/claim`` to claim this bot first!");
                s
            },
            RpcError::DoesNotExist => owned(" does not exist"),
            RpcError::CertifiedCannotUnverify => owned("Certified bots cannot be unverified"),
            RpcError::ProtectedKick => owned("You can't force delete this bot with 'kick' enabled!"),
            RpcError::InTeam => owned(" is in a team. Please use BotTransferOwnershipTeam"),
            RpcError::InvalidTeamId => owned("Invalid team ID"),
            RpcError::NotInTeam => owned(" is not in a team. Please use TransferOwnership"),
            RpcError::BadTargetId { error } => owned(error.as_str()),
        }
    }
}

/// The longest reason, in bytes, that a method accepts.
pub const MAX_REASON_BYTES: usize = 2000;

/// A reason is accepted when it is at most 2000 bytes long.
pub fn check_reason(reason: &str) -> (r: Result<(), RpcError>)
    ensures
        r is Ok <==> reason.len() <= 2000,
        r is Err ==> r == Err::<(), RpcError>(RpcError::ReasonTooLong),
{
    if reason.len() > MAX_REASON_BYTES {
        Err(RpcError::ReasonTooLong)
    } else {
        Ok(())
    }
}

/// A bot can be claimed when it is pending review and, unless the claim is
/// forced, nobody has claimed it yet.
pub fn check_claim(bot_type: &str, claimed_by: &Option<String>, force: bool) -> (r: Result<
    (),
    RpcError,
>)
    ensures
        bot_type@ != "pending"@ ==> r == Err::<(), RpcError>(RpcError::NotPendingReview),
        bot_type@ == "pending"@ && !force && claimed_by is Some ==> (r matches Err(
            RpcError::AlreadyClaimed { by },
        ) && by@ == claimed_by->0@),
        bot_type@ == "pending"@ && (force || claimed_by is None) ==> r is Ok,
{
    if !str_eq(bot_type, "pending") {
        return Err(RpcError::NotPendingReview);
    }
    if !force {
        if let Some(by) = claimed_by {
            return Err(RpcError::AlreadyClaimed { by: by.clone() });
        }
    }
    Ok(())
}

/// Before an unclaim: the bot must not be a test bot and must be pending review.
pub fn check_unclaim_type(bot_type: &str) -> (r: Result<(), RpcError>)
    ensures
        bot_type@ == "testbot"@ ==> r == Err::<(), RpcError>(RpcError::TestBot),
        bot_type@ != "testbot"@ && bot_type@ != "pending"@ ==> r == Err::<(), RpcError>(
            RpcError::NotPendingReview,
        ),
        bot_type@ == "pending"@ ==> r is Ok,
{
    if str_eq(bot_type, "testbot") {
        proof {
            reveal_strlit("testbot");
            reveal_strlit("pending");
            assert("testbot"@[0] != "pending"@[0]);
        }
        return Err(RpcError::TestBot);
    }
    if !str_eq(bot_type, "pending") {
        return Err(RpcError::NotPendingReview);
    }
    Ok(())
}

/// An unclaim needs a claim to undo.
pub fn check_unclaim_claimed(claimed_by: &Option<String>, target_id: &str) -> (r: Result<
    (),
    RpcError,
>)
    ensures
        claimed_by is Some <==> r is Ok,
        r matches Err(RpcError::NotClaimed { target_id: t }) ==> t@ == target_id@,
        r is Err ==> r matches Err(RpcError::NotClaimed { .. }),
{
    if claimed_by.is_none() {
        return Err(RpcError::NotClaimed { target_id: owned(target_id) });
    }
    Ok(())
}

/// Whether a review (approve or deny) has a claim to act under: someone
/// claimed the bot (a non-empty id) at some time.
pub open spec fn review_claimed(claimed_by: Option<String>, claimed_at_known: bool) -> bool {
    claimed_by matches Some(by) && by@.len() > 0 && claimed_at_known
}

/// Before an approve (`approve`) or a deny (`!approve`): the bot must be
/// pending review and claimed.
pub fn check_review(
    approve: bool,
    bot_type: &str,
    claimed_by: &Option<String>,
    claimed_at_known: bool,
    target_id: &str,
) -> (r: Result<(), RpcError>)
    ensures
        bot_type@ != "pending"@ ==> r == Err::<(), RpcError>(
            if approve {
                RpcError::EntityNotPending
            } else {
                RpcError::DenyNotPending
            },
        ),
        bot_type@ == "pending"@ && !review_claimed(*claimed_by, claimed_at_known) ==> (r matches Err(
            RpcError::ReviewNotClaimed { target_id: t },
        ) && t@ == target_id@),
        bot_type@ == "pending"@ && review_claimed(*claimed_by, claimed_at_known) ==> r is Ok,
{
    if !str_eq(bot_type, "pending") {
        return Err(
            if approve {
                RpcError::EntityNotPending
            } else {
                RpcError::DenyNotPending
            },
        );
    }
    let claimed = match claimed_by {
        Some(by) => !by.as_str().is_empty() && claimed_at_known,
        None => false,
    };
    if !claimed {
        return Err(RpcError::ReviewNotClaimed { target_id: owned(target_id) });
    }
    Ok(())
}

/// The entity must exist: the count of rows with its id is not zero.
pub fn check_exists(count: i64) -> (r: Result<(), RpcError>)
    ensures
        count != 0 <==> r is Ok,
        r is Err ==> r == Err::<(), RpcError>(RpcError::DoesNotExist),
{
    if count == 0 {
        Err(RpcError::DoesNotExist)
    } else {
        Ok(())
    }
}

/// Certified bots cannot be unverified.
pub fn check_unverify(bot_type: &str) -> (r: Result<(), RpcError>)
    ensures
        bot_type@ != "certified"@ <==> r is Ok,
        r is Err ==> r == Err::<(), RpcError>(RpcError::CertifiedCannotUnverify),
{
    if str_eq(bot_type, "certified") {
        Err(RpcError::CertifiedCannotUnverify)
    } else {
        Ok(())
    }
}

/// A protected bot cannot be force-removed with `kick` set.
pub fn check_force_remove(protected_bots: &Vec<u64>, target: u64, kick: bool) -> (r: Result<
    (),
    RpcError,
>)
    ensures
        (protected_bots@.contains(target) && kick) <==> r is Err,
        r is Err ==> r == Err::<(), RpcError>(RpcError::ProtectedKick),
{
    if contains_id(protected_bots, target) && kick {
        Err(RpcError::ProtectedKick)
    } else {
        Ok(())
    }
}

/// A bot in a team cannot be given to a user.
pub fn check_transfer_to_user(in_team: bool) -> (r: Result<(), RpcError>)
    ensures
        in_team <==> r is Err,
        r is Err ==> r == Err::<(), RpcError>(RpcError::InTeam),
{
    if in_team {
        Err(RpcError::InTeam)
    } else {
        Ok(())
    }
}

/// The new team of a bot must be a UUID.
pub fn parse_new_team(new_team: &str) -> (r: Result<u128, RpcError>)
    ensures
        uuid_parse_spec(new_team@) matches Ok(u) ==> r == Ok::<u128, RpcError>(u),
        uuid_parse_spec(new_team@) is Err ==> r == Err::<u128, RpcError>(RpcError::InvalidTeamId),
{
    match parse_uuid(new_team) {
        Ok(u) => Ok(u),
        Err(_) => Err(RpcError::InvalidTeamId),
    }
}

/// Only a bot in a team can move to another team.
pub fn check_transfer_to_team(in_team: bool) -> (r: Result<(), RpcError>)
    ensures
        in_team <==> r is Ok,
        r is Err ==> r == Err::<(), RpcError>(RpcError::NotInTeam),
{
    if !in_team {
        Err(RpcError::NotInTeam)
    } else {
        Ok(())
    }
}

/// The text an approval answers with: the cache server invite and the bot's
/// invite URL.
pub open spec fn approve_content_spec(invite_code: Seq<char>, client_id: Seq<char>, guild_id: Seq<
    char,
>) -> Seq<char> {
    "**Cache Server Invite:** https://discord.gg/"@ + invite_code
        + "\n**Invite URL:** https://discord.com/api/v10/oauth2/authorize?client_id="@ + client_id
        + "&permissions=0&scope=bot%20applications.commands&guild_id="@ + guild_id
}

/// Builds the text an approval answers with.
pub fn approve_content(invite_code: &str, client_id: &str, guild_id: &str) -> (r: String)
    ensures
        r@ == approve_content_spec(invite_code@, client_id@, guild_id@),
{
    let mut s = owned("**Cache Server Invite:** https://discord.gg/");
    push_str(&mut s, invite_code);
    push_str(&mut s, "\n**Invite URL:** https://discord.com/api/v10/oauth2/authorize?client_id=");
    push_str(&mut s, client_id);
    push_str(&mut s, "&permissions=0&scope=bot%20applications.commands&guild_id=");
    push_str(&mut s, guild_id);
    s
}

/// The answer to the permission check, from the staff member's resolved
/// permissions: whether they hold the method's permission `rpc.<name>`.
pub fn permission_event(resolved: &Vec<String>, method: &RPCMethod) -> (r: RpcEvent)
    ensures
        r == (RpcEvent::PermissionChecked {
            allowed: has_perm_spec(views(resolved@), rpc_perm_spec(kind_of(*method))),
        }),
{
    let perm = method.required_perm();
    RpcEvent::PermissionChecked { allowed: has_perm(resolved, perm.as_str()) }
}

/// The state an RPC log entry ends in: `success` when the method succeeded,
/// else the text of its error.
pub fn final_log_state(outcome: &Result<RPCSuccess, String>) -> (r: String)
    ensures
        outcome is Ok ==> r@ == "success"@,
        outcome matches Err(e) ==> r@ == e@,
{
    match outcome {
        Ok(_) => owned("success"),
        Err(e) => owned(e.as_str()),
    }
}

/// What a claim writes: the bot's new claimer and claim time, and an entry
/// `claimed` of the staff log naming the bot and its previous claimer.
#[derive(Debug, Clone)]
pub struct ClaimWrite {
    pub claimed_by: String,
    pub last_claimed: i64,
    pub log_user_id: String,
    pub log_action: String,
    pub log_target_id: String,
    pub claimed_by_prev: Option<String>,
}

/// Claims the bot `target_id` (of type `bot_type`, claimed by `claimed_by`)
/// for `user_id` at time `now`: it must be pending review and, unless the
/// claim is forced, unclaimed.
pub fn plan_claim(
    bot_type: &str,
    claimed_by: &Option<String>,
    force: bool,
    target_id: &str,
    user_id: &str,
    now: i64,
) -> (r: Result<ClaimWrite, RpcError>)
    ensures
        bot_type@ != "pending"@ ==> (r matches Err(RpcError::NotPendingReview)),
        bot_type@ == "pending"@ && !force && claimed_by is Some ==> (r matches Err(
            RpcError::AlreadyClaimed { by },
        ) && by@ == claimed_by->0@),
        r is Ok <==> bot_type@ == "pending"@ && (force || claimed_by is None),
        r matches Ok(w) ==> w.claimed_by@ == user_id@ && w.last_claimed == now && w.log_user_id@
            == user_id@ && w.log_action@ == "claimed"@ && w.log_target_id@ == target_id@ && (match claimed_by {
            Some(p) => w.claimed_by_prev matches Some(q) && q@ == p@,
            None => w.claimed_by_prev is None,
        }),
{
    match check_claim(bot_type, claimed_by, force) {
        Err(e) => Err(e),
        Ok(()) => {
            let prev = match claimed_by {
                Some(p) => Some(owned(p.as_str())),
                None => None,
            };
            Ok(
                ClaimWrite {
                    claimed_by: owned(user_id),
                    last_claimed: now,
                    log_user_id: owned(user_id),
                    log_action: owned("claimed"),
                    log_target_id: owned(target_id),
                    claimed_by_prev: prev,
                },
            )
        },
    }
}

/// The row change a method makes once its checks pass (a claim is planned by
/// [`plan_claim`]).
#[derive(Debug, Clone, PartialEq, Eq)]
pub enum EntityWrite {
    /// The bot `target` gets the type `bot_type`; its claim is cleared when
    /// `unclaim`.
    SetType { target: String, bot_type: String, unclaim: bool },
    /// The bot becomes premium from now on, for `hours` hours.
    PremiumOn { target: String, hours: i32 },
    /// The bot stops being premium.
    PremiumOff { target: String },
    /// The bot's vote ban is set to `banned`.
    VoteBan { target: String, banned: bool },
    /// The entity's live votes are voided.
    VoidVotes { target: String },
    /// The live votes of every entity of the target type, but immutable ones,
    /// are voided.
    VoidAllVotes,
    /// The bot is deleted.
    DeleteBot { target: String },
    /// The bot gets the user `owner` as its owner.
    SetOwner { target: String, owner: String },
    /// The bot gets the team `team` as its owner.
    SetTeam { target: String, team: u128 },
    /// The user's ban from applying is set to `banned`.
    AppBan { target: String, banned: bool },
}

/// Whether `w` is what method `m` writes once its checks pass; `team` is the
/// parsed id of the new team of a team transfer.
pub open spec fn write_fits(m: RPCMethod, team: u128, w: EntityWrite) -> bool {
    match m {
            RPCMethod::Claim { .. } => false,
            RPCMethod::Unclaim { target_id, .. } => w matches EntityWrite::SetType { target, bot_type, unclaim } && target@ == target_id@ && bot_type@ == "pending"@ && unclaim,
            RPCMethod::Approve { target_id, .. } => w matches EntityWrite::SetType { target, bot_type, unclaim } && target@ == target_id@ && bot_type@ == "approved"@ && unclaim,
            RPCMethod::Deny { target_id, .. } => w matches EntityWrite::SetType { target, bot_type, unclaim } && target@ == target_id@ && bot_type@ == "denied"@ && unclaim,
            RPCMethod::Unverify { target_id, .. } => w matches EntityWrite::SetType { target, bot_type, unclaim } && target@ == target_id@ && bot_type@ == "pending"@ && unclaim,
            RPCMethod::PremiumAdd { target_id, time_period_hours, .. } => w matches EntityWrite::PremiumOn { target, hours } && target@ == target_id@ && hours == time_period_hours,
            RPCMethod::PremiumRemove { target_id, .. } => w matches EntityWrite::PremiumOff { target } && target@ == target_id@,
            RPCMethod::VoteBanAdd { target_id, .. } => w matches EntityWrite::VoteBan { target, banned } && target@ == target_id@ && banned,
            RPCMethod::VoteBanRemove { target_id, .. } => w matches EntityWrite::VoteBan { target, banned } && target@ == target_id@ && !banned,
            RPCMethod::VoteReset { target_id, .. } => w matches EntityWrite::VoidVotes { target } && target@ == target_id@,
            RPCMethod::VoteResetAll { .. } => w == EntityWrite::VoidAllVotes,
            RPCMethod::ForceRemove { target_id, .. } => w matches EntityWrite::DeleteBot { target } && target@ == target_id@,
            RPCMethod::CertifyAdd { target_id, .. } => w matches EntityWrite::SetType { target, bot_type, unclaim } && target@ == target_id@ && bot_type@ == "certified"@ && !unclaim,
            RPCMethod::CertifyRemove { target_id, .. } => w matches EntityWrite::SetType { target, bot_type, unclaim } && target@ == target_id@ && bot_type@ == "approved"@ && !unclaim,
            RPCMethod::BotTransferOwnershipUser { target_id, new_owner, .. } => w matches EntityWrite::SetOwner { target, owner } && target@ == target_id@ && owner@ == new_owner@,
            RPCMethod::BotTransferOwnershipTeam { target_id, .. } => w matches EntityWrite::SetTeam { target, team: t } && target@ == target_id@ && t == team,
            RPCMethod::AppBanUser { target_id, .. } => w matches EntityWrite::AppBan { target, banned } && target@ == target_id@ && banned,
            RPCMethod::AppUnbanUser { target_id, .. } => w matches EntityWrite::AppBan { target, banned } && target@ == target_id@ && !banned,
        }
}

/// What method `m` writes once its checks pass; `team` is the parsed id of
/// the new team of a team transfer. A claim writes through [`plan_claim`],
/// so it has no entry here.
pub fn method_write(m: &RPCMethod, team: u128) -> (r: Option<EntityWrite>)
    ensures
        *m is Claim ==> r is None,
        !(*m is Claim) ==> (r matches Some(w) && write_fits(*m, team, w)),
{
    match m {
        RPCMethod::Claim { .. } => None,
        RPCMethod::Unclaim { target_id, .. } => Some(
            EntityWrite::SetType { target: owned(target_id.as_str()), bot_type: owned("pending"), unclaim: true },
        ),
        RPCMethod::Approve { target_id, .. } => Some(
            EntityWrite::SetType { target: owned(target_id.as_str()), bot_type: owned("approved"), unclaim: true },
        ),
        RPCMethod::Deny { target_id, .. } => Some(
            EntityWrite::SetType { target: owned(target_id.as_str()), bot_type: owned("denied"), unclaim: true },
        ),
        RPCMethod::Unverify { target_id, .. } => Some(
            EntityWrite::SetType { target: owned(target_id.as_str()), bot_type: owned("pending"), unclaim: true },
        ),
        RPCMethod::PremiumAdd { target_id, time_period_hours, .. } => Some(
            EntityWrite::PremiumOn { target: owned(target_id.as_str()), hours: *time_period_hours },
        ),
        RPCMethod::PremiumRemove { target_id, .. } => Some(
            EntityWrite::PremiumOff { target: owned(target_id.as_str()) },
        ),
        RPCMethod::VoteBanAdd { target_id, .. } => Some(
            EntityWrite::VoteBan { target: owned(target_id.as_str()), banned: true },
        ),
        RPCMethod::VoteBanRemove { target_id, .. } => Some(
            EntityWrite::VoteBan { target: owned(target_id.as_str()), banned: false },
        ),
        RPCMethod::VoteReset { target_id, .. } => Some(
            EntityWrite::VoidVotes { target: owned(target_id.as_str()) },
        ),
        RPCMethod::VoteResetAll { .. } => Some(EntityWrite::VoidAllVotes),
        RPCMethod::ForceRemove { target_id, .. } => Some(
            EntityWrite::DeleteBot { target: owned(target_id.as_str()) },
        ),
        RPCMethod::CertifyAdd { target_id, .. } => Some(
            EntityWrite::SetType { target: owned(target_id.as_str()), bot_type: owned("certified"), unclaim: false },
        ),
        RPCMethod::CertifyRemove { target_id, .. } => Some(
            EntityWrite::SetType { target: owned(target_id.as_str()), bot_type: owned("approved"), unclaim: false },
        ),
        RPCMethod::BotTransferOwnershipUser { target_id, new_owner, .. } => Some(
            EntityWrite::SetOwner { target: owned(target_id.as_str()), owner: owned(new_owner.as_str()) },
        ),
        RPCMethod::BotTransferOwnershipTeam { target_id, .. } => Some(
            EntityWrite::SetTeam { target: owned(target_id.as_str()), team },
        ),
        RPCMethod::AppBanUser { target_id, .. } => Some(
            EntityWrite::AppBan { target: owned(target_id.as_str()), banned: true },
        ),
        RPCMethod::AppUnbanUser { target_id, .. } => Some(
            EntityWrite::AppBan { target: owned(target_id.as_str()), banned: false },
        ),
    }
}

/// The target types each method can be used on: resetting votes works on
/// bots, servers, teams and packs; banning or unbanning from apps on users;
/// every other method on bots alone. A call on any other type is refused
/// before the permission check, and a call on one of these goes on to it.
pub proof fn law_supported_target_types(m: RPCMethod, t: TargetType)
    ensures
        supported_spec(kind_of(m)).contains(t) <==> (if m is VoteReset || m is VoteResetAll {
            t == TargetType::Bot || t == TargetType::Server || t == TargetType::Team || t
                == TargetType::Pack
        } else if m is AppBanUser || m is AppUnbanUser {
            t == TargetType::User
        } else {
            t == TargetType::Bot
        }),
        rpc_step_spec(kind_of(m), t, RpcStage::Start, RpcEvent::Begin) == (if supported_spec(
            kind_of(m),
        ).contains(t) {
            (RpcStage::AwaitingPermission, ActionTag::CheckPermission)
        } else {
            (RpcStage::Refused, ActionTag::Refuse(RefusalKind::UnsupportedTarget))
        }),
{
    let s = supported_spec(kind_of(m));
    if m is VoteReset || m is VoteResetAll {
        assert(s[0] == TargetType::Bot && s[1] == TargetType::Server && s[2] == TargetType::Team
            && s[3] == TargetType::Pack);
    } else if m is AppBanUser || m is AppUnbanUser {
        assert(s[0] == TargetType::User);
    } else {
        assert(s[0] == TargetType::Bot);
    }
}

/// What each review leaves the bot as: a denied bot becomes `denied`, an
/// approved one `approved`, and an unclaimed or unverified one goes back to
/// `pending`; each of them clears the claim, and a denial never writes what
/// an approval writes.
pub proof fn law_review_outcomes(m: RPCMethod, team: u128, w: EntityWrite, a: RPCMethod, v: EntityWrite)
    requires
        write_fits(m, team, w),
    ensures
        m is Deny ==> (w matches EntityWrite::SetType { bot_type, unclaim, .. } && bot_type@
            == "denied"@ && unclaim),
        m is Approve ==> (w matches EntityWrite::SetType { bot_type, unclaim, .. } && bot_type@
            == "approved"@ && unclaim),
        m is Unclaim || m is Unverify ==> (w matches EntityWrite::SetType { bot_type, unclaim, .. }
            && bot_type@ == "pending"@ && unclaim),
        m is Deny && a is Approve && write_fits(a, team, v) ==> (w matches EntityWrite::SetType {
            bot_type: b1,
            ..
        } && v matches EntityWrite::SetType { bot_type: b2, .. } && b1@ != b2@),
{
    reveal_strlit("denied");
    reveal_strlit("approved");
    if m is Deny && a is Approve && write_fits(a, team, v) {
        assert("denied"@[0] != "approved"@[0]);
    }
}

} // verus!
