//! Running an RPC method once the checks before it passed: the method's own
//! checks on what it reads, its write, its message to the mod-log channel
//! and, for a removal with `kick`, the kick.
//!
//! [`method_step`] takes the stage reached and what the last outside step
//! answered, and says what to do next. Every refusal comes before the
//! method writes anything, sends its message or kicks anyone.
use crate::ids::uuid_parse_spec;
use crate::rpc::{reason_of, RPCMethod};
use crate::rpc_handle::{
    check_claim, check_exists, check_force_remove, check_review,
    check_transfer_to_team, check_transfer_to_user, check_unclaim_claimed, check_unclaim_type,
    check_unverify, method_write, parse_new_team, plan_claim, review_claimed, write_fits,
    ClaimWrite, EntityWrite, RpcError, MAX_REASON_BYTES,
};
use crate::text::owned;
use vstd::prelude::*;

verus! {

/// What a method reads of the bot it acts on.
#[derive(Debug, Clone)]
pub struct BotFacts {
    /// Whether a bot has the target id.
    pub exists: bool,
    pub bot_type: String,
    pub claimed_by: Option<String>,
    /// Whether the time of the claim is known.
    pub claimed_at_known: bool,
    /// Whether the bot belongs to a team.
    pub in_team: bool,
}

/// How far a method has come.
#[derive(Debug, Clone, Copy, PartialEq, Eq, Structural)]
pub enum MethodStage {
    /// Nothing done yet.
    Start,
    /// Waiting for what the method reads of the bot.
    AwaitingBot,
    /// Waiting for whether the target user exists.
    AwaitingUser,
    /// Waiting for the write to be done.
    Applied,
    /// Waiting for the mod-log message to be sent.
    ModLogged,
    /// The method has answered.
    Done,
}

/// What the last outside step answered.
#[derive(Debug)]
pub enum MethodEvent {
    /// The method starts.
    Begin,
    /// What the method reads of the bot.
    Bot(BotFacts),
    /// Whether the target user exists.
    User { exists: bool },
    /// The write is done.
    Applied,
    /// The mod-log message is sent.
    ModLogSent,
}

/// An entry of the staff log.
#[derive(Debug, Clone, PartialEq, Eq)]
pub struct GeneralLog {
    pub action: String,
    pub target_id: String,
    pub claimed_by_prev: Option<String>,
}

/// What to do next.
#[derive(Debug)]
pub enum MethodAction {
    /// Read the bot's facts.
    ReadBot,
    /// Read whether the target user exists.
    ReadUser,
    /// Make the write, and add the staff log entry when there is one.
    Apply { write: EntityWrite, log: Option<GeneralLog> },
    /// Make the claim's writes.
    ApplyClaim(ClaimWrite),
    /// Make the approval's write, then add the bot to a cache server, send
    /// the approval message, give its owners the developer role, remove it
    /// from the testing server and answer with the invites.
    Approve(EntityWrite),
    /// Send the method's message to the mod-log channel.
    SendModLog,
    /// Kick the bot `bot` from the main server, if it is there; then answer
    /// with no content.
    KickFromMain { bot: u64 },
    /// Answer with no content.
    Finish,
    /// Answer with the refusal.
    Refuse(RpcError),
}

/// The shape of an action.
#[derive(Debug, Clone, Copy, PartialEq, Eq, Structural)]
pub enum MethodTag {
    ReadBot,
    ReadUser,
    Apply,
    ApplyClaim,
    Approve,
    SendModLog,
    KickFromMain,
    Finish,
    Refuse,
}

/// The shape of an action.
pub open spec fn method_tag(a: MethodAction) -> MethodTag {
    match a {
        MethodAction::ReadBot => MethodTag::ReadBot,
        MethodAction::ReadUser => MethodTag::ReadUser,
        MethodAction::Apply { .. } => MethodTag::Apply,
        MethodAction::ApplyClaim(_) => MethodTag::ApplyClaim,
        MethodAction::Approve(_) => MethodTag::Approve,
        MethodAction::SendModLog => MethodTag::SendModLog,
        MethodAction::KickFromMain { .. } => MethodTag::KickFromMain,
        MethodAction::Finish => MethodTag::Finish,
        MethodAction::Refuse(_) => MethodTag::Refuse,
    }
}

/// What a method reads before it writes.
#[derive(Debug, Clone, Copy, PartialEq, Eq, Structural)]
pub enum MethodRead {
    Bot,
    User,
    Nothing,
}

/// What method `m` reads before it writes.
pub open spec fn method_read(m: RPCMethod) -> MethodRead {
    match m {
        RPCMethod::VoteReset { .. } => MethodRead::Nothing,
        RPCMethod::VoteResetAll { .. } => MethodRead::Nothing,
        RPCMethod::AppBanUser { .. } => MethodRead::User,
        RPCMethod::AppUnbanUser { .. } => MethodRead::User,
        _ => MethodRead::Bot,
    }
}

/// The reason of the method is longer than 2000 bytes of UTF-8.
pub open spec fn reason_too_long(m: RPCMethod) -> bool {
    reason_of(m) matches Some(r) && vstd::utf8::encode_utf8(r).len() > 2000
}

/// A refusal as its kind and the text it carries.
pub open spec fn error_key(e: RpcError) -> (int, Seq<char>) {
    match e {
        RpcError::ReasonTooLong => (0, Seq::empty()),
        RpcError::NotPendingReview => (1, Seq::empty()),
        RpcError::TestBot => (2, Seq::empty()),
        RpcError::AlreadyClaimed { by } => (3, by@),
        RpcError::NotClaimed { target_id } => (4, target_id@),
        RpcError::EntityNotPending => (5, Seq::empty()),
        RpcError::DenyNotPending => (6, Seq::empty()),
        RpcError::ReviewNotClaimed { target_id } => (7, target_id@),
        RpcError::DoesNotExist => (8, Seq::empty()),
        RpcError::CertifiedCannotUnverify => (9, Seq::empty()),
        RpcError::ProtectedKick => (10, Seq::empty()),
        RpcError::InTeam => (11, Seq::empty()),
        RpcError::InvalidTeamId => (12, Seq::empty()),
        RpcError::NotInTeam => (13, Seq::empty()),
        RpcError::BadTargetId { error } => (14, error@),
    }
}

/// The refusal a method makes on what it read of the bot, if any, in the
/// order of its checks. `snowflake` is the target id read as a Discord id,
/// and `protected` the bots that cannot be removed with `kick`.
pub open spec fn bot_refusal(
    m: RPCMethod,
    f: BotFacts,
    snowflake: Result<u64, String>,
    protected: Seq<u64>,
) -> Option<RpcError> {
    match m {
        RPCMethod::Claim { force, .. } => if f.bot_type@ != "pending"@ {
            Some(RpcError::NotPendingReview)
        } else if !force && f.claimed_by is Some {
            Some(RpcError::AlreadyClaimed { by: f.claimed_by->0 })
        } else {
            None
        },
        RPCMethod::Unclaim { target_id, .. } => if f.bot_type@ == "testbot"@ {
            Some(RpcError::TestBot)
        } else if f.bot_type@ != "pending"@ {
            Some(RpcError::NotPendingReview)
        } else if f.claimed_by is None {
            Some(RpcError::NotClaimed { target_id })
        } else {
            None
        },
        RPCMethod::Approve { target_id, .. } => if f.bot_type@ != "pending"@ {
            Some(RpcError::EntityNotPending)
        } else if !review_claimed(f.claimed_by, f.claimed_at_known) {
            Some(RpcError::ReviewNotClaimed { target_id })
        } else {
            None
        },
        RPCMethod::Deny { target_id, .. } => if f.bot_type@ != "pending"@ {
            Some(RpcError::DenyNotPending)
        } else if !review_claimed(f.claimed_by, f.claimed_at_known) {
            Some(RpcError::ReviewNotClaimed { target_id })
        } else {
            None
        },
        RPCMethod::Unverify { .. } => if !f.exists {
            Some(RpcError::DoesNotExist)
        } else if f.bot_type@ == "certified"@ {
            Some(RpcError::CertifiedCannotUnverify)
        } else {
            None
        },
        RPCMethod::ForceRemove { kick, .. } => if !f.exists {
            Some(RpcError::DoesNotExist)
        } else if snowflake is Err {
            Some(RpcError::BadTargetId { error: snowflake->Err_0 })
        } else if protected.contains(snowflake->Ok_0) && kick {
            Some(RpcError::ProtectedKick)
        } else {
            None
        },
        RPCMethod::BotTransferOwnershipUser { .. } => if !f.exists {
            Some(RpcError::DoesNotExist)
        } else if f.in_team {
            Some(RpcError::InTeam)
        } else {
            None
        },
        RPCMethod::BotTransferOwnershipTeam { new_team, .. } => if !f.exists {
            Some(RpcError::DoesNotExist)
        } else if uuid_parse_spec(new_team@) is Err {
            Some(RpcError::InvalidTeamId)
        } else if !f.in_team {
            Some(RpcError::NotInTeam)
        } else {
            None
        },
        _ => if !f.exists {
            Some(RpcError::DoesNotExist)
        } else {
            None
        },
    }
}

/// The refusal the method answers `event` with, if any.
pub open spec fn expected_refusal(
    m: RPCMethod,
    snowflake: Result<u64, String>,
    protected: Seq<u64>,
    event: MethodEvent,
) -> Option<RpcError> {
    match event {
        MethodEvent::Begin => if reason_too_long(m) {
            Some(RpcError::ReasonTooLong)
        } else {
            None
        },
        MethodEvent::Bot(f) => bot_refusal(m, f, snowflake, protected),
        MethodEvent::User { exists } => if !exists {
            Some(RpcError::DoesNotExist)
        } else {
            None
        },
        _ => None,
    }
}

/// The next stage and the shape of the next action.
pub open spec fn method_step_spec(
    m: RPCMethod,
    snowflake: Result<u64, String>,
    protected: Seq<u64>,
    event: MethodEvent,
) -> (MethodStage, MethodTag) {
    if expected_refusal(m, snowflake, protected, event) is Some {
        (MethodStage::Done, MethodTag::Refuse)
    } else {
        match event {
            MethodEvent::Begin => match method_read(m) {
                MethodRead::Bot => (MethodStage::AwaitingBot, MethodTag::ReadBot),
                MethodRead::User => (MethodStage::AwaitingUser, MethodTag::ReadUser),
                MethodRead::Nothing => (MethodStage::Applied, MethodTag::Apply),
            },
            MethodEvent::Bot(_) => if m is Claim {
                (MethodStage::Applied, MethodTag::ApplyClaim)
            } else if m is Approve {
                (MethodStage::Done, MethodTag::Approve)
            } else {
                (MethodStage::Applied, MethodTag::Apply)
            },
            MethodEvent::User { .. } => (MethodStage::Applied, MethodTag::Apply),
            MethodEvent::Applied => (MethodStage::ModLogged, MethodTag::SendModLog),
            MethodEvent::ModLogSent => if (m matches RPCMethod::ForceRemove { kick, .. } && kick)
                && snowflake is Ok {
                (MethodStage::Done, MethodTag::KickFromMain)
            } else {
                (MethodStage::Done, MethodTag::Finish)
            },
        }
    }
}

/// The event that each waiting stage expects for method `m`; the bot's row
/// must have been found for the methods that read it without counting
/// first.
pub open spec fn method_event_fits(m: RPCMethod, stage: MethodStage, event: MethodEvent) -> bool {
    match stage {
        MethodStage::Start => event is Begin,
        MethodStage::AwaitingBot => method_read(m) == MethodRead::Bot && (event matches MethodEvent::Bot(
            f,
        ) && ((m is Claim || m is Unclaim || m is Approve || m is Deny) ==> f.exists)),
        MethodStage::AwaitingUser => method_read(m) == MethodRead::User && event is User,
        MethodStage::Applied => event is Applied,
        MethodStage::ModLogged => event is ModLogSent,
        MethodStage::Done => false,
    }
}

/// The team a transfer moves the bot to, when its id is a UUID.
pub open spec fn team_of(m: RPCMethod) -> u128 {
    match m {
        RPCMethod::BotTransferOwnershipTeam { new_team, .. } => match uuid_parse_spec(new_team@) {
            Ok(u) => u,
            Err(_) => 0,
        },
        _ => 0,
    }
}

fn bot_checks(
    m: &RPCMethod,
    f: &BotFacts,
    snowflake: &Result<u64, String>,
    protected: &Vec<u64>,
) -> (r: Result<u128, RpcError>)
    requires
        (m is Claim || m is Unclaim || m is Approve || m is Deny) ==> f.exists,
    ensures
        r is Ok <==> bot_refusal(*m, *f, *snowflake, protected@) is None,
        r matches Err(e) ==> (bot_refusal(*m, *f, *snowflake, protected@) matches Some(x)
            && error_key(x) == error_key(e)),
        r matches Ok(t) ==> t == team_of(*m),
{
    let count: i64 = if f.exists {
        1
    } else {
        0
    };
    match m {
        RPCMethod::Claim { force, .. } => {
            check_claim(f.bot_type.as_str(), &f.claimed_by, *force)?;
            Ok(0)
        },
        RPCMethod::Unclaim { target_id, .. } => {
            check_unclaim_type(f.bot_type.as_str())?;
            check_unclaim_claimed(&f.claimed_by, target_id.as_str())?;
            Ok(0)
        },
        RPCMethod::Approve { target_id, .. } => {
            check_review(true, f.bot_type.as_str(), &f.claimed_by, f.claimed_at_known, target_id.as_str())?;
            Ok(0)
        },
        RPCMethod::Deny { target_id, .. } => {
            check_review(false, f.bot_type.as_str(), &f.claimed_by, f.claimed_at_known, target_id.as_str())?;
            Ok(0)
        },
        RPCMethod::Unverify { .. } => {
            check_exists(count)?;
            check_unverify(f.bot_type.as_str())?;
            Ok(0)
        },
        RPCMethod::ForceRemove { kick, .. } => {
            check_exists(count)?;
            match snowflake {
                Err(e) => Err(RpcError::BadTargetId { error: owned(e.as_str()) }),
                Ok(s) => {
                    check_force_remove(protected, *s, *kick)?;
                    Ok(0)
                },
            }
        },
        RPCMethod::BotTransferOwnershipUser { .. } => {
            check_exists(count)?;
            check_transfer_to_user(f.in_team)?;
            Ok(0)
        },
        RPCMethod::BotTransferOwnershipTeam { new_team, .. } => {
            check_exists(count)?;
            let team = parse_new_team(new_team.as_str())?;
            check_transfer_to_team(f.in_team)?;
            Ok(team)
        },
        _ => {
            check_exists(count)?;
            Ok(0)
        },
    }
}

/// One step of running method `m` for the staff member `user_id` at time
/// `now`. `snowflake` is the target id read as a Discord id, and `protected`
/// the bots that cannot be removed with `kick`.
///
/// A reason longer than 2000 bytes is refused before anything is read; the
/// method then reads the bot (or the user) and makes its checks on it, in
/// order; only when they pass does it write, then send its message to the
/// mod-log channel, then (a removal with `kick`) kick the bot.
pub fn method_step(
    m: &RPCMethod,
    user_id: &str,
    now: i64,
    snowflake: &Result<u64, String>,
    protected: &Vec<u64>,
    stage: MethodStage,
    event: MethodEvent,
) -> (r: (MethodStage, MethodAction))
    requires
        method_event_fits(*m, stage, event),
    ensures
        (r.0, method_tag(r.1)) == method_step_spec(*m, *snowflake, protected@, event),
        r.1 matches MethodAction::Refuse(e) ==> (expected_refusal(
            *m,
            *snowflake,
            protected@,
            event,
        ) matches Some(x) && error_key(x) == error_key(e)),
        r.1 matches MethodAction::Apply { write, log } ==> write_fits(*m, team_of(*m), write) && (
        m is Unclaim <==> log is Some),
        r.1 matches MethodAction::Apply { log: Some(l), .. } ==> l.action@ == "unclaimed"@ && (
        event matches MethodEvent::Bot(f) && (m matches RPCMethod::Unclaim { target_id, .. }
            && l.target_id@ == target_id@) && (match f.claimed_by {
            Some(p) => l.claimed_by_prev matches Some(q) && q@ == p@,
            None => l.claimed_by_prev is None,
        })),
        r.1 matches MethodAction::Approve(w) ==> write_fits(*m, team_of(*m), w),
        r.1 matches MethodAction::ApplyClaim(w) ==> (m matches RPCMethod::Claim { target_id, .. }
            && event matches MethodEvent::Bot(f) && w.claimed_by@ == user_id@ && w.last_claimed
            == now && w.log_user_id@ == user_id@ && w.log_action@ == "claimed"@ && w.log_target_id@
            == target_id@ && (match f.claimed_by {
            Some(p) => w.claimed_by_prev matches Some(q) && q@ == p@,
            None => w.claimed_by_prev is None,
        })),
        r.1 matches MethodAction::KickFromMain { bot } ==> *snowflake == Ok::<u64, String>(bot),
{
    match event {
        MethodEvent::Begin => {
            match m.reason() {
                Some(reason) => {
                    let bytes: usize = reason.as_bytes().len();
                    if bytes > MAX_REASON_BYTES {
                        return (MethodStage::Done, MethodAction::Refuse(RpcError::ReasonTooLong));
                    }
                },
                None => {},
            }
            match m {
                RPCMethod::VoteReset { .. } | RPCMethod::VoteResetAll { .. } => {
                    let write = method_write(m, 0).unwrap();
                    (MethodStage::Applied, MethodAction::Apply { write, log: None })
                },
                RPCMethod::AppBanUser { .. } | RPCMethod::AppUnbanUser { .. } => (
                    MethodStage::AwaitingUser,
                    MethodAction::ReadUser,
                ),
                _ => (MethodStage::AwaitingBot, MethodAction::ReadBot),
            }
        },
        MethodEvent::Bot(f) => {
            let team = match bot_checks(m, &f, snowflake, protected) {
                Err(e) => {
                    return (MethodStage::Done, MethodAction::Refuse(e));
                },
                Ok(t) => t,
            };
            match m {
                RPCMethod::Claim { target_id, force } => {
                    let w = plan_claim(f.bot_type.as_str(), &f.claimed_by, *force, target_id.as_str(), user_id, now);
                    match w {
                        Ok(w) => (MethodStage::Applied, MethodAction::ApplyClaim(w)),
                        Err(e) => (MethodStage::Done, MethodAction::Refuse(e)),
                    }
                },
                RPCMethod::Approve { .. } => {
                    let write = method_write(m, team).unwrap();
                    (MethodStage::Done, MethodAction::Approve(write))
                },
                RPCMethod::Unclaim { target_id, .. } => {
                    let write = method_write(m, team).unwrap();
                    let prev = match &f.claimed_by {
                        Some(p) => Some(owned(p.as_str())),
                        None => None,
                    };
                    let log = GeneralLog {
                        action: owned("unclaimed"),
                        target_id: owned(target_id.as_str()),
                        claimed_by_prev: prev,
                    };
                    (MethodStage::Applied, MethodAction::Apply { write, log: Some(log) })
                },
                _ => {
                    let write = method_write(m, team).unwrap();
                    (MethodStage::Applied, MethodAction::Apply { write, log: None })
                },
            }
        },
        MethodEvent::User { exists } => {
            if !exists {
                return (MethodStage::Done, MethodAction::Refuse(RpcError::DoesNotExist));
            }
            let write = method_write(m, 0).unwrap();
            (MethodStage::Applied, MethodAction::Apply { write, log: None })
        },
        MethodEvent::Applied => (MethodStage::ModLogged, MethodAction::SendModLog),
        MethodEvent::ModLogSent => {
            match (m, snowflake) {
                (RPCMethod::ForceRemove { kick: true, .. }, Ok(s)) => (
                    MethodStage::Done,
                    MethodAction::KickFromMain { bot: *s },
                ),
                _ => (MethodStage::Done, MethodAction::Finish),
            }
        },
    }
}

/// A method refuses only before it acts: every refusal answers the start or
/// what was read, never a write or a sent message, so a refused method has
/// written nothing, sent nothing and kicked nobody.
pub proof fn law_method_refuses_before_acting(
    m: RPCMethod,
    snowflake: Result<u64, String>,
    protected: Seq<u64>,
    event: MethodEvent,
)
    requires
        method_step_spec(m, snowflake, protected, event).1 == MethodTag::Refuse,
    ensures
        event is Begin || event is Bot || event is User,
{
}

/// A method writes only once its checks passed: a reason of at most 2000
/// bytes and, for what it read, no refusal. In particular a protected bot is
/// never deleted with `kick` set.
pub proof fn law_method_writes_after_checks(
    m: RPCMethod,
    snowflake: Result<u64, String>,
    protected: Seq<u64>,
    event: MethodEvent,
)
    requires
        ({
            let t = method_step_spec(m, snowflake, protected, event).1;
            t == MethodTag::Apply || t == MethodTag::ApplyClaim || t == MethodTag::Approve
        }),
    ensures
        event is Begin ==> !reason_too_long(m) && method_read(m) == MethodRead::Nothing,
        event matches MethodEvent::Bot(f) ==> bot_refusal(m, f, snowflake, protected) is None,
        event matches MethodEvent::User { exists } ==> exists,
        (m matches RPCMethod::ForceRemove { kick, .. } && kick) && event is Bot ==> snowflake is Ok
            && !protected.contains(snowflake->Ok_0),
{
}

} // verus!
