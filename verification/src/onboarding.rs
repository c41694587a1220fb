//! Staff onboarding: the stages a new staff member goes through in their
//! training server, what each command does at each stage, and the quiz they
//! fill in.
use crate::text::{owned, str_eq};
use vstd::prelude::*;

verus! {

/// The stages of the training, as stored for each staff member.
#[derive(Debug, Clone, Copy, PartialEq, Eq, Structural)]
pub enum TrainingStage {
    Pending,
    QueueStep,
    ClaimedBot,
    StaffGuide,
    StaffGuideViewed,
    StaffGuideReadEncouraged,
    StaffGuideViewedReminded,
    Complete,
}

/// The stored text of a stage.
pub open spec fn stage_text_spec(s: TrainingStage) -> Seq<char> {
    match s {
        TrainingStage::Pending => "pending"@,
        TrainingStage::QueueStep => "queue-step"@,
        TrainingStage::ClaimedBot => "claimed-bot"@,
        TrainingStage::StaffGuide => "staff-guide"@,
        TrainingStage::StaffGuideViewed => "staff-guide-viewed"@,
        TrainingStage::StaffGuideReadEncouraged => "staff-guide-read-encouraged"@,
        TrainingStage::StaffGuideViewedReminded => "staff-guide-viewed-reminded"@,
        TrainingStage::Complete => "complete"@,
    }
}

/// The stage a stored text names, if any.
pub open spec fn stage_of_spec(t: Seq<char>) -> Option<TrainingStage> {
    if t == "pending"@ {
        Some(TrainingStage::Pending)
    } else if t == "queue-step"@ {
        Some(TrainingStage::QueueStep)
    } else if t == "claimed-bot"@ {
        Some(TrainingStage::ClaimedBot)
    } else if t == "staff-guide"@ {
        Some(TrainingStage::StaffGuide)
    } else if t == "staff-guide-viewed"@ {
        Some(TrainingStage::StaffGuideViewed)
    } else if t == "staff-guide-read-encouraged"@ {
        Some(TrainingStage::StaffGuideReadEncouraged)
    } else if t == "staff-guide-viewed-reminded"@ {
        Some(TrainingStage::StaffGuideViewedReminded)
    } else if t == "complete"@ {
        Some(TrainingStage::Complete)
    } else {
        None
    }
}

impl TrainingStage {
    /// The stored text of the stage.
    pub fn text(&self) -> (r: &'static str)
        ensures
            r@ == stage_text_spec(*self),
    {
        match self {
            TrainingStage::Pending => "pending",
            TrainingStage::QueueStep => "queue-step",
            TrainingStage::ClaimedBot => "claimed-bot",
            TrainingStage::StaffGuide => "staff-guide",
            TrainingStage::StaffGuideViewed => "staff-guide-viewed",
            TrainingStage::StaffGuideReadEncouraged => "staff-guide-read-encouraged",
            TrainingStage::StaffGuideViewedReminded => "staff-guide-viewed-reminded",
            TrainingStage::Complete => "complete",
        }
    }

    /// The stage a stored text names, `None` for an unknown text.
    pub fn from_text(t: &str) -> (r: Option<TrainingStage>)
        ensures
            r == stage_of_spec(t@),
    {
        if str_eq(t, "pending") {
            Some(TrainingStage::Pending)
        } else if str_eq(t, "queue-step") {
            Some(TrainingStage::QueueStep)
        } else if str_eq(t, "claimed-bot") {
            Some(TrainingStage::ClaimedBot)
        } else if str_eq(t, "staff-guide") {
            Some(TrainingStage::StaffGuide)
        } else if str_eq(t, "staff-guide-viewed") {
            Some(TrainingStage::StaffGuideViewed)
        } else if str_eq(t, "staff-guide-read-encouraged") {
            Some(TrainingStage::StaffGuideReadEncouraged)
        } else if str_eq(t, "staff-guide-viewed-reminded") {
            Some(TrainingStage::StaffGuideViewedReminded)
        } else if str_eq(t, "complete") {
            Some(TrainingStage::Complete)
        } else {
            None
        }
    }
}

/// Whether a staff member still goes through onboarding: their stage is not
/// `complete`.
pub fn needs_onboarding(stage: Option<TrainingStage>) -> (r: bool)
    ensures
        r == (stage != Some(TrainingStage::Complete)),
{
    match stage {
        Some(TrainingStage::Complete) => false,
        _ => true,
    }
}

/// What happens to the training's one-hour timer.
#[derive(Debug, Clone, Copy, PartialEq, Eq, Structural)]
pub enum TimerAction {
    /// Leave it as it is
    Keep,
    /// Start it now: the training never started
    Start,
    /// The hour ran out: start again now, back at `pending`
    Restart,
}

/// Decides the timer: `onboarded` is whether the member finished onboarding
/// once, `started` whether the timer was ever started, and `expired` whether
/// more than an hour passed since it was.
pub fn timer_action(onboarded: bool, started: bool, expired: bool) -> (r: TimerAction)
    ensures
        onboarded ==> r == TimerAction::Keep,
        !onboarded && !started ==> r == TimerAction::Start,
        !onboarded && started && expired ==> r == TimerAction::Restart,
        !onboarded && started && !expired ==> r == TimerAction::Keep,
{
    if onboarded {
        TimerAction::Keep
    } else if !started {
        TimerAction::Start
    } else if expired {
        TimerAction::Restart
    } else {
        TimerAction::Keep
    }
}

/// The length of a training attempt, in microseconds: one hour.
pub const TRAINING_WINDOW_MICROS: i64 = 3_600_000_000;

/// Decides the timer from the times themselves: `started_at` is when the
/// timer was last started (`None` when never), and `now` the current time,
/// both in microseconds since the epoch. The timer runs out when more than
/// an hour has passed.
pub fn training_timer(onboarded: bool, started_at: Option<i64>, now: i64) -> (r: TimerAction)
    ensures
        onboarded ==> r == TimerAction::Keep,
        !onboarded && started_at is None ==> r == TimerAction::Start,
        !onboarded ==> (started_at matches Some(t) && now - t > TRAINING_WINDOW_MICROS ==> r
            == TimerAction::Restart),
        !onboarded ==> (started_at matches Some(t) && now - t <= TRAINING_WINDOW_MICROS ==> r
            == TimerAction::Keep),
{
    let expired = match started_at {
        Some(t) => (now as i128) - (t as i128) > TRAINING_WINDOW_MICROS as i128,
        None => false,
    };
    timer_action(onboarded, started_at.is_some(), expired)
}

/// The stage after the timer was handled: a restart goes back to `pending`.
pub fn stage_after_timer(stage: Option<TrainingStage>, action: TimerAction) -> (r: Option<
    TrainingStage,
>)
    ensures
        action == TimerAction::Restart ==> r == Some(TrainingStage::Pending),
        action != TimerAction::Restart ==> r == stage,
{
    match action {
        TimerAction::Restart => Some(TrainingStage::Pending),
        _ => stage,
    }
}

/// The text `str::to_lowercase` makes of a text.
pub uninterp spec fn lowercase_spec(s: Seq<char>) -> Seq<char>;

/// `str::to_lowercase`: the text in lower case, by Unicode's rules.
#[verifier::external_body]
fn lowercase(s: &str) -> (r: String)
    ensures
        r@ == lowercase_spec(s@),
{
    s.to_lowercase()
}

/// Whether the server a command runs in is the member's training server,
/// which is named after their user id (in any case).
pub fn is_training_server(guild_name: &str, user_id: &str) -> (r: bool)
    ensures
        r == (lowercase_spec(guild_name@) == lowercase_spec(user_id@)),
{
    let a = lowercase(guild_name);
    let b = lowercase(user_id);
    str_eq(a.as_str(), b.as_str())
}

/// The positions of the servers named after the member (in any case): the
/// training servers they already have.
pub open spec fn training_servers(names: Seq<Seq<char>>, user_id: Seq<char>) -> Seq<int>
    decreases names.len(),
{
    if names.len() == 0 {
        Seq::empty()
    } else {
        let rest = training_servers(names.drop_last(), user_id);
        if lowercase_spec(names.last()) == lowercase_spec(user_id) {
            rest.push(names.len() - 1)
        } else {
            rest
        }
    }
}

/// The positions, among the servers the bot is in (by name), of the member's
/// training servers; an invite is sent for each, and a new server is made
/// when there is none.
pub fn find_training_servers(names: &Vec<String>, user_id: &str) -> (r: Vec<usize>)
    ensures
        r@.map_values(|i: usize| i as int) == training_servers(
            crate::text::str_views(names@),
            user_id@,
        ),
{
    let ghost views = crate::text::str_views(names@);
    let mut found: Vec<usize> = Vec::new();
    let mut i: usize = 0;
    while i < names.len()
        invariant
            i <= names.len(),
            views == crate::text::str_views(names@),
            found@.map_values(|k: usize| k as int) == training_servers(views.take(i as int), user_id@),
        decreases names.len() - i,
    {
        assert(views.take(i + 1).drop_last() =~= views.take(i as int));
        assert(views.take(i + 1).last() == names@[i as int]@);
        if is_training_server(names[i].as_str(), user_id) {
            found.push(i);
            assert(found@.map_values(|k: usize| k as int) =~= training_servers(views.take(i as int), user_id@).push(i as int));
        }
        i = i + 1;
    }
    assert(views.take(names.len() as int) =~= views);
    found
}

/// The name of a channel made to invite the member to a training server.
pub fn invite_channel_name() -> (r: String)
    ensures
        r@.len() == 21,
        r@.take(15) == "invite-attempt-"@,
        forall|i: int| 15 <= i < 21 ==> crate::session::is_alphanumeric(#[trigger] r@[i]),
{
    let suffix = crate::session::gen_random(6);
    let r = crate::text::concat("invite-attempt-", suffix.as_str());
    proof {
        reveal_strlit("invite-attempt-");
    }
    assert(r@.take(15) =~= "invite-attempt-"@);
    assert forall|i: int| 15 <= i < 21 implies crate::session::is_alphanumeric(#[trigger] r@[i]) by {
        assert(r@[i] == suffix@[i - 15]);
    }
    r
}

/// How a member is made administrator of their training server.
#[derive(Debug, Clone, Copy, PartialEq, Eq, Structural)]
pub enum AdminSetup {
    /// They are administrator already: onboarding goes on
    Ready,
    /// Give them the existing "Head Administrator" role, then ask them to
    /// invite the bot again
    GiveRole(u64),
    /// Create the "Head Administrator" role, give it to them, then ask them to
    /// invite the bot again
    CreateRole,
}

/// Decides the administrator setup: `is_admin` is whether the member holds
/// the administrator permission, and `head_admin_role` a role of the server
/// named "Head Administrator", if it has one.
pub fn admin_setup(is_admin: bool, head_admin_role: Option<u64>) -> (r: AdminSetup)
    ensures
        is_admin ==> r == AdminSetup::Ready,
        !is_admin && head_admin_role is Some ==> r == AdminSetup::GiveRole(head_admin_role->Some_0),
        !is_admin && head_admin_role is None ==> r == AdminSetup::CreateRole,
{
    if is_admin {
        AdminSetup::Ready
    } else {
        match head_admin_role {
            Some(role) => AdminSetup::GiveRole(role),
            None => AdminSetup::CreateRole,
        }
    }
}

/// The request to invite the bot again, with its application id.
pub fn reinvite_message(bot_id: u64) -> (r: String)
    ensures
        r@ == "You will need to reinvite this bot to the server so scopes can be set properly! Use ``https://discord.com/oauth2/authorize?client_id="@
            + crate::text::decimal_spec(bot_id as nat)
            + "&scope=bot%20applications.commands&permissions=8``. Do this now then rerun ``/queue``!"@,
{
    let a = crate::text::concat(
        "You will need to reinvite this bot to the server so scopes can be set properly! Use ``https://discord.com/oauth2/authorize?client_id=",
        crate::text::decimal(bot_id).as_str(),
    );
    crate::text::concat(
        a.as_str(),
        "&scope=bot%20applications.commands&permissions=8``. Do this now then rerun ``/queue``!",
    )
}

/// What the bot answers a command during onboarding.
#[derive(Debug, Clone, Copy, PartialEq, Eq, Structural)]
pub enum OnboardingReply {
    /// Nothing
    Silent,
    /// The welcome, the resubmitted test bot and the first hints
    Welcome,
    /// The sandbox queue with the test bot claimed by the member
    QueueClaimedByYou,
    /// A hint to look at the queue
    AskForQueue,
    /// The sandbox queue with the test bot unclaimed, and a hint to read the
    /// staff guide
    QueueUnclaimed,
    /// A hint to try the queue command
    SuggestQueue,
    /// The "already claimed" prompt with its two buttons
    ClaimPrompt { force_claim_disabled: bool, remind_disabled: bool, encourage_remind: bool },
    /// A hint to claim the test bot
    SuggestClaim,
    /// The stage is not one the training knows
    UnknownStage,
}

/// The outcome of a command during onboarding.
#[derive(Debug, Clone, Copy, PartialEq, Eq, Structural)]
pub struct OnboardingStep {
    /// Whether the command itself then runs
    pub proceed: bool,
    /// Whether the sandbox is reset first (the test bot back to pending, the
    /// timer restarted)
    pub reset_sandbox: bool,
    /// The stage to store, if it changes
    pub new_stage: Option<TrainingStage>,
    /// What the bot answers
    pub reply: OnboardingReply,
}

/// The stage a command is handled at: the queue command shows the sandbox
/// queue at any stage but `pending` and `complete`.
pub open spec fn effective_stage(cmd: Seq<char>, stage: Option<TrainingStage>) -> Option<
    TrainingStage,
> {
    if cmd == "queue"@ && stage != Some(TrainingStage::Pending) && stage != Some(
        TrainingStage::Complete,
    ) {
        if stage == Some(TrainingStage::ClaimedBot) {
            Some(TrainingStage::ClaimedBot)
        } else {
            Some(TrainingStage::QueueStep)
        }
    } else {
        stage
    }
}

/// The outcome of the command `cmd` at a stage (`None` for an unknown one).
pub open spec fn onboarding_step_spec(cmd: Seq<char>, stage: Option<TrainingStage>) -> OnboardingStep {
    if cmd == "staffguide"@ && stage == Some(TrainingStage::QueueStep) {
        OnboardingStep {
            proceed: true,
            reset_sandbox: false,
            new_stage: Some(TrainingStage::StaffGuideViewed),
            reply: OnboardingReply::Silent,
        }
    } else {
        let s = effective_stage(cmd, stage);
        let (proceed, new_stage, reply) = match s {
            Some(TrainingStage::Pending) => (
                false,
                Some(TrainingStage::QueueStep),
                OnboardingReply::Welcome,
            ),
            Some(TrainingStage::ClaimedBot) => {
                if cmd == "queue"@ {
                    (false, None, OnboardingReply::QueueClaimedByYou)
                } else if cmd == "staffguide"@ {
                    (true, None, OnboardingReply::Silent)
                } else {
                    (false, None, OnboardingReply::AskForQueue)
                }
            },
            Some(TrainingStage::QueueStep) => {
                if cmd == "queue"@ {
                    (false, None, OnboardingReply::QueueUnclaimed)
                } else {
                    (false, None, OnboardingReply::SuggestQueue)
                }
            },
            Some(TrainingStage::StaffGuide) => (true, None, OnboardingReply::Silent),
            Some(TrainingStage::StaffGuideViewed) => (true, None, OnboardingReply::Silent),
            Some(TrainingStage::StaffGuideReadEncouraged) | Some(
                TrainingStage::StaffGuideViewedReminded,
            ) => {
                if cmd == "claim"@ {
                    (
                        false,
                        None,
                        OnboardingReply::ClaimPrompt {
                            force_claim_disabled: s == Some(
                                TrainingStage::StaffGuideReadEncouraged,
                            ),
                            remind_disabled: s == Some(TrainingStage::StaffGuideViewedReminded),
                            encourage_remind: s == Some(TrainingStage::StaffGuideReadEncouraged),
                        },
                    )
                } else {
                    (cmd == "staffguide"@, None, OnboardingReply::SuggestClaim)
                }
            },
            _ => (false, None, OnboardingReply::UnknownStage),
        };
        OnboardingStep { proceed, reset_sandbox: true, new_stage, reply }
    }
}

/// Handles the command `cmd` in the member's training server, at the stored
/// stage (`None` for an unknown text).
pub fn onboarding_step(cmd: &str, stage: Option<TrainingStage>) -> (r: OnboardingStep)
    ensures
        r == onboarding_step_spec(cmd@, stage),
{
    let is_queue = str_eq(cmd, "queue");
    let is_guide = str_eq(cmd, "staffguide");
    let is_claim = str_eq(cmd, "claim");
    if is_guide && stage == Some(TrainingStage::QueueStep) {
        return OnboardingStep {
            proceed: true,
            reset_sandbox: false,
            new_stage: Some(TrainingStage::StaffGuideViewed),
            reply: OnboardingReply::Silent,
        };
    }
    let s = if is_queue && stage != Some(TrainingStage::Pending) && stage != Some(
        TrainingStage::Complete,
    ) {
        if stage == Some(TrainingStage::ClaimedBot) {
            Some(TrainingStage::ClaimedBot)
        } else {
            Some(TrainingStage::QueueStep)
        }
    } else {
        stage
    };
    let (proceed, new_stage, reply) = match s {
        Some(TrainingStage::Pending) => (
            false,
            Some(TrainingStage::QueueStep),
            OnboardingReply::Welcome,
        ),
        Some(TrainingStage::ClaimedBot) => {
            if is_queue {
                (false, None, OnboardingReply::QueueClaimedByYou)
            } else if is_guide {
                (true, None, OnboardingReply::Silent)
            } else {
                (false, None, OnboardingReply::AskForQueue)
            }
        },
        Some(TrainingStage::QueueStep) => {
            if is_queue {
                (false, None, OnboardingReply::QueueUnclaimed)
            } else {
                (false, None, OnboardingReply::SuggestQueue)
            }
        },
        Some(TrainingStage::StaffGuide) => (true, None, OnboardingReply::Silent),
        Some(TrainingStage::StaffGuideViewed) => (true, None, OnboardingReply::Silent),
        Some(TrainingStage::StaffGuideReadEncouraged) | Some(
            TrainingStage::StaffGuideViewedReminded,
        ) => {
            if is_claim {
                (
                    false,
                    None,
                    OnboardingReply::ClaimPrompt {
                        force_claim_disabled: s == Some(TrainingStage::StaffGuideReadEncouraged),
                        remind_disabled: s == Some(TrainingStage::StaffGuideViewedReminded),
                        encourage_remind: s == Some(TrainingStage::StaffGuideReadEncouraged),
                    },
                )
            } else {
                (is_guide, None, OnboardingReply::SuggestClaim)
            }
        },
        _ => (false, None, OnboardingReply::UnknownStage),
    };
    OnboardingStep { proceed, reset_sandbox: true, new_stage, reply }
}

/// The stage after a button of the claim prompt was pressed.
pub open spec fn claim_choice_spec(button: Seq<char>) -> TrainingStage {
    if button == "remind"@ {
        TrainingStage::StaffGuideViewedReminded
    } else {
        TrainingStage::ClaimedBot
    }
}

/// The stage after the member pressed a button of the claim prompt: the
/// reminder button (`remind`) or the force-claim one.
pub fn claim_choice(button: &str) -> (r: TrainingStage)
    ensures
        r == claim_choice_spec(button@),
{
    if str_eq(button, "remind") {
        TrainingStage::StaffGuideViewedReminded
    } else {
        TrainingStage::ClaimedBot
    }
}

/// Whether the stage is advanced after a command, in the server it ran in
/// (`None` outside a server): only in the member's training server, named
/// after their user id, or outside any server.
pub fn post_command_applies(guild_name: Option<&str>, user_id: &str) -> (r: bool)
    ensures
        r == (guild_name matches Some(g) ==> g@ == user_id@),
{
    match guild_name {
        Some(g) => str_eq(g, user_id),
        None => true,
    }
}

/// The stage stored after a command ran, if it changes.
pub open spec fn post_command_stage_spec(stage: Option<TrainingStage>) -> Option<TrainingStage> {
    if stage == Some(TrainingStage::StaffGuideViewed) {
        Some(TrainingStage::StaffGuideReadEncouraged)
    } else {
        None
    }
}

/// The stage stored after a command ran: having viewed the staff guide, the
/// member is encouraged to start on the test bot.
pub fn post_command_stage(stage: Option<TrainingStage>) -> (r: Option<TrainingStage>)
    ensures
        r == post_command_stage_spec(stage),
{
    match stage {
        Some(TrainingStage::StaffGuideViewed) => Some(TrainingStage::StaffGuideReadEncouraged),
        _ => None,
    }
}

/// How far along the training a stage is.
pub open spec fn stage_rank(s: TrainingStage) -> int {
    match s {
        TrainingStage::Pending => 0,
        TrainingStage::QueueStep => 1,
        TrainingStage::StaffGuideViewed => 2,
        TrainingStage::StaffGuideReadEncouraged => 3,
        TrainingStage::StaffGuideViewedReminded => 4,
        TrainingStage::ClaimedBot => 5,
        TrainingStage::StaffGuide => 6,
        TrainingStage::Complete => 7,
    }
}

/// A command never moves a member backwards in the training: every stage it
/// stores is further along than the stored one.
pub proof fn law_commands_only_move_forward(cmd: Seq<char>, stage: TrainingStage)
    ensures
        onboarding_step_spec(cmd, Some(stage)).new_stage matches Some(n) ==> stage_rank(n)
            > stage_rank(stage),
{
    reveal_strlit("queue");
    reveal_strlit("staffguide");
}

/// What a command stores after it ran never moves a member backwards either.
pub proof fn law_post_command_moves_forward(stage: TrainingStage)
    ensures
        post_command_stage_spec(Some(stage)) matches Some(n) ==> stage_rank(n) > stage_rank(stage),
{
}

/// A choice at the claim prompt never moves a member backwards.
pub proof fn law_claim_choice_moves_forward(stage: TrainingStage, button: Seq<char>)
    requires
        stage == TrainingStage::StaffGuideReadEncouraged || stage
            == TrainingStage::StaffGuideViewedReminded,
    ensures
        stage_rank(claim_choice_spec(button)) >= stage_rank(stage),
{
}

/// The text stored for a stage names that stage again.
pub proof fn law_stage_text_round_trip(s: TrainingStage)
    ensures
        stage_of_spec(stage_text_spec(s)) == Some(s),
{
    reveal_strlit("pending");
    reveal_strlit("queue-step");
    reveal_strlit("claimed-bot");
    reveal_strlit("staff-guide");
    reveal_strlit("staff-guide-viewed");
    reveal_strlit("staff-guide-read-encouraged");
    reveal_strlit("staff-guide-viewed-reminded");
    reveal_strlit("complete");
    let t = stage_text_spec(s);
    if s != TrainingStage::Pending {
        assert(t != "pending"@) by {
            if t.len() == 7 {
                assert(t[0] != 'p');
            }
        }
    }
    if s != TrainingStage::QueueStep && s != TrainingStage::Pending {
        assert(t != "queue-step"@) by {
            if t.len() == 10 {
                assert(t[0] != 'q');
            }
        }
    }
    if s != TrainingStage::ClaimedBot {
        assert(t != "claimed-bot"@) by {
            if t.len() == 11 {
                assert(t[0] != 'c');
            }
        }
    }
    if s != TrainingStage::StaffGuide {
        assert(t != "staff-guide"@) by {
            if t.len() == 11 {
                assert(t[0] != 's');
            }
        }
    }
    if s != TrainingStage::StaffGuideViewed {
        assert(t != "staff-guide-viewed"@) by {
            assert(t.len() != 18);
        }
    }
    if s != TrainingStage::StaffGuideReadEncouraged {
        assert(t != "staff-guide-read-encouraged"@) by {
            if t.len() == 27 {
                assert(t[12] != 'r');
            }
        }
    }
    if s != TrainingStage::StaffGuideViewedReminded {
        assert(t != "staff-guide-viewed-reminded"@) by {
            if t.len() == 27 {
                assert(t[12] != 'v');
            }
        }
    }
}

/// A question of the onboarding quiz, with its sub-questions.
#[derive(Debug)]
pub struct SectionQuestion {
    /// Name of section
    pub name: String,
    /// This is inputted by users
    pub answer: String,
    pub subsections: Vec<SectionQuestion>,
}

/// The onboarding quiz.
#[derive(Debug)]
pub struct OnboardingQuiz {
    pub sections: Vec<SectionQuestion>,
}

fn question(name: &str) -> (r: SectionQuestion)
    ensures
        r.name@ == name@,
        r.answer@ == Seq::<char>::empty(),
        r.subsections@.len() == 0,
{
    SectionQuestion { name: owned(name), answer: String::new(), subsections: Vec::new() }
}

/// Whether a question has the given name, no answer yet and no sub-questions.
pub open spec fn blank_question(q: SectionQuestion, name: Seq<char>) -> bool {
    q.name@ == name && q.answer@.len() == 0 && q.subsections@.len() == 0
}

impl OnboardingQuiz {
    /// The blank quiz: one section, `about`, with a question for each of the
    /// test bot's commands `ping`, `about`, `cmdinfo`, `globallookup`,
    /// `randomcat` and `randomdog`.
    pub fn new() -> (r: OnboardingQuiz)
        ensures
            r.sections@.len() == 1,
            r.sections@[0].name@ == "about"@,
            r.sections@[0].answer@.len() == 0,
            r.sections@[0].subsections@.len() == 6,
            blank_question(r.sections@[0].subsections@[0], "ping"@),
            blank_question(r.sections@[0].subsections@[1], "about"@),
            blank_question(r.sections@[0].subsections@[2], "cmdinfo"@),
            blank_question(r.sections@[0].subsections@[3], "globallookup"@),
            blank_question(r.sections@[0].subsections@[4], "randomcat"@),
            blank_question(r.sections@[0].subsections@[5], "randomdog"@),
    {
        let mut subsections: Vec<SectionQuestion> = Vec::new();
        subsections.push(question("ping"));
        subsections.push(question("about"));
        subsections.push(question("cmdinfo"));
        subsections.push(question("globallookup"));
        subsections.push(question("randomcat"));
        subsections.push(question("randomdog"));
        let mut sections: Vec<SectionQuestion> = Vec::new();
        sections.push(
            SectionQuestion { name: owned("about"), answer: String::new(), subsections },
        );
        OnboardingQuiz { sections }
    }
}

/// The onboarding states of a staff application.
#[derive(Debug, Clone, Copy, PartialEq, Eq, Structural)]
pub enum OnboardState {
    Pending,
    PendingManagerReview,
    Denied,
    Completed,
}

/// The snake-case text of an onboarding state.
pub open spec fn onboard_state_text(s: OnboardState) -> Seq<char> {
    match s {
        OnboardState::Pending => "pending"@,
        OnboardState::PendingManagerReview => "pending_manager_review"@,
        OnboardState::Denied => "denied"@,
        OnboardState::Completed => "completed"@,
    }
}

/// The state a snake-case text names, if any.
pub open spec fn onboard_state_of(t: Seq<char>) -> Option<OnboardState> {
    if t == "pending"@ {
        Some(OnboardState::Pending)
    } else if t == "pending_manager_review"@ {
        Some(OnboardState::PendingManagerReview)
    } else if t == "denied"@ {
        Some(OnboardState::Denied)
    } else if t == "completed"@ {
        Some(OnboardState::Completed)
    } else {
        None
    }
}

impl OnboardState {
    /// The snake-case text of the state.
    pub fn text(&self) -> (r: &'static str)
        ensures
            r@ == onboard_state_text(*self),
    {
        match self {
            OnboardState::Pending => "pending",
            OnboardState::PendingManagerReview => "pending_manager_review",
            OnboardState::Denied => "denied",
            OnboardState::Completed => "completed",
        }
    }

    /// The state a snake-case text names, if any.
    pub fn from_text(t: &str) -> (r: Option<OnboardState>)
        ensures
            r == onboard_state_of(t@),
    {
        if str_eq(t, "pending") {
            Some(OnboardState::Pending)
        } else if str_eq(t, "pending_manager_review") {
            Some(OnboardState::PendingManagerReview)
        } else if str_eq(t, "denied") {
            Some(OnboardState::Denied)
        } else if str_eq(t, "completed") {
            Some(OnboardState::Completed)
        } else {
            None
        }
    }
}

/// The snake-case text of an onboarding state names that state again.
pub proof fn law_onboard_state_text_round_trip(s: OnboardState)
    ensures
        onboard_state_of(onboard_state_text(s)) == Some(s),
{
    reveal_strlit("pending");
    reveal_strlit("pending_manager_review");
    reveal_strlit("denied");
    reveal_strlit("completed");
    let t = onboard_state_text(s);
    assert("pending"@.len() == 7);
    assert("pending_manager_review"@.len() == 22);
    assert("denied"@.len() == 6);
    assert("completed"@.len() == 9);
    match s {
        OnboardState::Pending => {},
        OnboardState::PendingManagerReview => {
            assert(t.len() == 22);
        },
        OnboardState::Denied => {
            assert(t.len() == 6);
        },
        OnboardState::Completed => {
            assert(t.len() == 9);
        },
    }
}

/// What a command does about onboarding before anything else.
#[derive(Debug, Clone, Copy, PartialEq, Eq, Structural)]
pub enum OnboardingGate {
    /// The command goes on, with nothing written and no message sent.
    GoOn,
    /// Month-old completed onboardings are reset to pending; the command then
    /// goes on.
    ResetOldThenGoOn,
    /// Month-old completed onboardings are reset to pending; the member's
    /// training then decides.
    ResetOldThenTrain,
}

/// Decides whether a command needs onboarding. Non-staff members skip it
/// entirely. For staff, stale completions are reset first; a member whose
/// training `stage` is complete then continues.
pub fn onboarding_gate(is_staff: bool, stage: Option<TrainingStage>) -> (r: OnboardingGate)
    ensures
        !is_staff ==> r == OnboardingGate::GoOn,
        is_staff && stage == Some(TrainingStage::Complete) ==> r == OnboardingGate::ResetOldThenGoOn,
        is_staff && stage != Some(TrainingStage::Complete) ==> r == OnboardingGate::ResetOldThenTrain,
{
    if !is_staff {
        OnboardingGate::GoOn
    } else if needs_onboarding(stage) {
        OnboardingGate::ResetOldThenTrain
    } else {
        OnboardingGate::ResetOldThenGoOn
    }
}

/// Before the staff guide is reached, the training holds commands back:
/// at the start (pending) no command runs, and at the queue step only the
/// staff guide does. A command held back there gets a reply (never
/// silence): at the queue step, anything but the queue and the staff guide
/// is told to try the queue.
pub proof fn law_training_holds_commands_before_the_guide(cmd: Seq<char>, stage: TrainingStage)
    requires
        stage == TrainingStage::Pending || stage == TrainingStage::QueueStep,
    ensures
        onboarding_step_spec(cmd, Some(stage)).proceed ==> stage == TrainingStage::QueueStep && cmd
            == "staffguide"@,
        !onboarding_step_spec(cmd, Some(stage)).proceed ==> onboarding_step_spec(
            cmd,
            Some(stage),
        ).reply != OnboardingReply::Silent,
        stage == TrainingStage::QueueStep && cmd != "queue"@ && cmd != "staffguide"@
            ==> onboarding_step_spec(cmd, Some(stage)) == (OnboardingStep {
            proceed: false,
            reset_sandbox: true,
            new_stage: None,
            reply: OnboardingReply::SuggestQueue,
        }),
{
}

} // verus!
