//! The texts of the `explainme` command, and the yes/no choice commands offer.
use vstd::prelude::*;

verus! {

/// What `explainme` can explain.
#[derive(Debug, Clone, Copy, PartialEq, Eq, Structural)]
pub enum ExplainOption {
    Claim,
    Testing,
    ApproveDeny,
    Tips,
}

/// The label a command shows for the option.
pub open spec fn explain_option_name(o: ExplainOption) -> Seq<char> {
    match o {
        ExplainOption::Claim => "Claim"@,
        ExplainOption::Testing => "Testing"@,
        ExplainOption::ApproveDeny => "Approve/Deny"@,
        ExplainOption::Tips => "Tips"@,
    }
}

/// The explanation given for an option, or the overview without one.
pub open spec fn explanation_spec(o: Option<ExplainOption>) -> Seq<char> {
    match o {
        Some(ExplainOption::Claim) => "\n**Objective**\n- Run ``/claim`` to claim the bot\n\n**Explanation**       \nClaiming bots will allow you to approve or deny bots after you review a bot! You should do this before you review a bot. Also, if you ever have to stop reviewing a bot. You can always unclaim the bot and ask another staff member, to help review the rest of this bot for you by doing ``/unclaim``\n        "@,
        Some(ExplainOption::Testing) => "\n**Objective**\n- Test the bot according to the rules stated in ``/staffguide``\n\n**Explanation**\nTest the bot according to the rules stated in ``/staffguide``. Note that you do not have to test every single command in the bot however *the majority* should work. During onboarding however, you must test each command! Once you have done this progress to using the ``/approve`` or ``/deny`` commands.\n        "@,
        Some(ExplainOption::ApproveDeny) => "\n**Objective**\n- Approve or deny the bot using either ``/approve`` or ``/deny``\n\n**Explanation**\nApproving or denying a bot will remove the bot from the queue and either approve it (it shows on the home page) or deny it (bot has to be resubmitted to the queue for restesting after issues are resolved).\n        "@,
        Some(ExplainOption::Tips) => "\n1. If you are on mobile, consider setting ``embed`` to false in ``queue`` command.\n\n*Explanation*\n\nCopy-pasting embeds on mobile is not well supported.\n\n2. Don't test *every* command, but test the main commands and functionality of the bot (outside of onboarding)\n\n*Explanation*\n\nTesting every command is very time-consuming. You should test the main commands and functionality of the bot (outside of onboarding where you should test every command and report on it in the feedback)\n\n3. Check the bots description\n\n*Explanation*\n\nWhere possible, check the bots description to make sure it is readable and does not abuse character limits without good reason.\n        "@,
        None => "\nWelcome to IBL, ``explainme`` is a easy way to get an explanation on commands.\n\n**The Steps**\n\nThese are the steps *in order*\n\n1. ``claim``: Claim the bot\n2. ``testing``: Test the bot\n3. ``approve/deny``: Approve or deny the bot\n        "@,
    }
}

impl ExplainOption {
    /// The label a command shows for the option.
    pub fn name(&self) -> (r: &'static str)
        ensures
            r@ == explain_option_name(*self),
    {
        match self {
            ExplainOption::Claim => "Claim",
            ExplainOption::Testing => "Testing",
            ExplainOption::ApproveDeny => "Approve/Deny",
            ExplainOption::Tips => "Tips",
        }
    }
}

/// The explanation `explainme` gives for an option, or the overview of the
/// review steps without one.
pub fn explanation(option: Option<ExplainOption>) -> (r: &'static str)
    ensures
        r@ == explanation_spec(option),
{
    match option {
        Some(ExplainOption::Claim) => "\n**Objective**\n- Run ``/claim`` to claim the bot\n\n**Explanation**       \nClaiming bots will allow you to approve or deny bots after you review a bot! You should do this before you review a bot. Also, if you ever have to stop reviewing a bot. You can always unclaim the bot and ask another staff member, to help review the rest of this bot for you by doing ``/unclaim``\n        ",
        Some(ExplainOption::Testing) => "\n**Objective**\n- Test the bot according to the rules stated in ``/staffguide``\n\n**Explanation**\nTest the bot according to the rules stated in ``/staffguide``. Note that you do not have to test every single command in the bot however *the majority* should work. During onboarding however, you must test each command! Once you have done this progress to using the ``/approve`` or ``/deny`` commands.\n        ",
        Some(ExplainOption::ApproveDeny) => "\n**Objective**\n- Approve or deny the bot using either ``/approve`` or ``/deny``\n\n**Explanation**\nApproving or denying a bot will remove the bot from the queue and either approve it (it shows on the home page) or deny it (bot has to be resubmitted to the queue for restesting after issues are resolved).\n        ",
        Some(ExplainOption::Tips) => "\n1. If you are on mobile, consider setting ``embed`` to false in ``queue`` command.\n\n*Explanation*\n\nCopy-pasting embeds on mobile is not well supported.\n\n2. Don't test *every* command, but test the main commands and functionality of the bot (outside of onboarding)\n\n*Explanation*\n\nTesting every command is very time-consuming. You should test the main commands and functionality of the bot (outside of onboarding where you should test every command and report on it in the feedback)\n\n3. Check the bots description\n\n*Explanation*\n\nWhere possible, check the bots description to make sure it is readable and does not abuse character limits without good reason.\n        ",
        None => "\nWelcome to IBL, ``explainme`` is a easy way to get an explanation on commands.\n\n**The Steps**\n\nThese are the steps *in order*\n\n1. ``claim``: Claim the bot\n2. ``testing``: Test the bot\n3. ``approve/deny``: Approve or deny the bot\n        ",
    }
}

/// A yes/no choice, as commands offer it.
#[derive(Debug, Clone, Copy, PartialEq, Eq, Structural)]
pub enum Bool {
    True,
    False,
}

impl Bool {
    /// The choice as a boolean.
    pub fn to_bool(&self) -> (r: bool)
        ensures
            r == (*self == Bool::True),
    {
        match self {
            Bool::True => true,
            Bool::False => false,
        }
    }

    /// The label a command shows for the choice.
    pub fn name(&self) -> (r: &'static str)
        ensures
            *self == Bool::True ==> r@ == "True"@,
            *self == Bool::False ==> r@ == "False"@,
    {
        match self {
            Bool::True => "True",
            Bool::False => "False",
        }
    }
}

} // verus!
