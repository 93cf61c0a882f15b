//! What a generated body does when a command comes in: which checks it
//! asks, and how it ends.

use crate::args::SubCommandArgsView;
use crate::function::SubCommandFuncView;
use crate::guard::{not_in_dms_text, permission_denied_text, Body, BodyView};
use crate::subcommand::formatted;
use vstd::prelude::*;
use vstd::string::StringExecFns;

verus! {

/// The build that the generated function is compiled in.
#[derive(Debug, Clone, Copy, PartialEq, Eq)]
pub enum Profile {
    /// A running bot: the guards resolve member and channel.
    Production,
    /// A test build: the checks are asked without arguments, and nothing is
    /// resolved.
    Test,
}

/// Where a command was used.
#[derive(Debug, Clone, Copy, PartialEq, Eq)]
pub enum Channel {
    /// A channel of a guild.
    Guild,
    /// Anything else, such as a direct message.
    Other,
}

/// What one permission check answers.
#[derive(Debug, Clone, Copy, PartialEq, Eq)]
pub enum Answer {
    /// The check holds.
    Granted,
    /// The check does not hold.
    Refused,
    /// The check itself failed.
    Failed,
}

/// How the generated function ends.
#[derive(Debug, Clone, Copy, PartialEq, Eq)]
pub enum Outcome {
    /// The handler's block runs, and its result is the function's.
    RunsBody,
    /// A check was refused.
    PermissionDenied,
    /// The command was used outside a guild and does not work there.
    NotInDms,
    /// The member could not be resolved; the error is handed on.
    MemberUnresolved,
    /// The channel could not be resolved; the error is handed on.
    ChannelUnresolved,
    /// A check failed; its error is handed on.
    CheckFailed,
}

/// One use of a command, as far as the guards can tell uses apart.
#[derive(Debug, Clone, PartialEq, Eq)]
pub struct Invocation {
    /// Whether the member resolves.
    pub member_resolves: bool,
    /// The channel, where it resolves.
    pub channel: Option<Channel>,
    /// What each configured check would answer if it were asked, in the
    /// order of the configuration.
    pub answers: Vec<Answer>,
}

/// What an [`Invocation`] stands for in contracts.
pub struct InvocationView {
    pub member_resolves: bool,
    pub channel: Option<Channel>,
    pub answers: Seq<Answer>,
}

impl View for Invocation {
    type V = InvocationView;

    open spec fn view(&self) -> InvocationView {
        InvocationView {
            member_resolves: self.member_resolves,
            channel: self.channel,
            answers: self.answers@,
        }
    }
}

/// What happened on one use of a command.
#[derive(Debug, Clone, Copy, PartialEq, Eq)]
pub struct Trace {
    /// How the function ended.
    pub outcome: Outcome,
    /// How many checks were asked: the first `asked` of the configuration.
    pub asked: usize,
}

/// The first place at or behind `from` whose answer is not `Granted`; the
/// length of `answers` where there is none.
pub open spec fn first_objection(answers: Seq<Answer>, from: int) -> int
    decreases answers.len() - from,
{
    if from < 0 || from >= answers.len() {
        answers.len() as int
    } else if answers[from] is Granted {
        first_objection(answers, from + 1)
    } else {
        from
    }
}

/// How many checks are asked when they are asked in order and joined by
/// `&&`: all up to and including the first that is not granted.
pub open spec fn checks_asked(answers: Seq<Answer>) -> int {
    let stop = first_objection(answers, 0);
    if stop < answers.len() {
        stop + 1
    } else {
        answers.len() as int
    }
}

/// How asking the checks in order ends.
pub open spec fn checks_outcome(answers: Seq<Answer>) -> Outcome {
    let stop = first_objection(answers, 0);
    if stop >= answers.len() {
        Outcome::RunsBody
    } else if answers[stop] is Refused {
        Outcome::PermissionDenied
    } else {
        Outcome::CheckFailed
    }
}

impl BodyView {
    /// Whether `invocation` has one answer for each check of the body.
    pub open spec fn answered_by(self, invocation: InvocationView) -> bool {
        self matches BodyView::Guarded { checks, .. } ==> invocation.answers.len() == checks.len()
    }

    /// Whether the guards get as far as asking the checks.
    pub open spec fn reaches_checks(self, profile: Profile, invocation: InvocationView) -> bool {
        self is Guarded && match profile {
            Profile::Test => true,
            Profile::Production => invocation.member_resolves && invocation.channel == Some(
                Channel::Guild,
            ),
        }
    }

    /// How the body ends on `invocation`.
    pub open spec fn outcome(self, profile: Profile, invocation: InvocationView) -> Outcome {
        match self {
            BodyView::Plain { block } => Outcome::RunsBody,
            BodyView::Guarded { context, checks, works_in_dms, block } => match profile {
                Profile::Test => checks_outcome(invocation.answers),
                Profile::Production => if !invocation.member_resolves {
                    Outcome::MemberUnresolved
                } else {
                    match invocation.channel {
                        None => Outcome::ChannelUnresolved,
                        Some(Channel::Guild) => checks_outcome(invocation.answers),
                        Some(Channel::Other) => if works_in_dms {
                            Outcome::RunsBody
                        } else {
                            Outcome::NotInDms
                        },
                    }
                },
            },
        }
    }

    /// How many checks the body asks on `invocation`.
    pub open spec fn asked(self, profile: Profile, invocation: InvocationView) -> int {
        if self.reaches_checks(profile, invocation) {
            checks_asked(invocation.answers)
        } else {
            0
        }
    }
}

impl Outcome {
    /// The message of the failure that the guards themselves make.
    pub open spec fn spec_message(self) -> Option<Seq<char>> {
        match self {
            Outcome::PermissionDenied => Some(permission_denied_text()),
            Outcome::NotInDms => Some(not_in_dms_text()),
            _ => None,
        }
    }

    /// The message of the failure that the guards themselves make; `None`
    /// where the block runs or an error is handed on.
    pub fn message(&self) -> (text: Option<String>)
        ensures
            crate::text::option_view(text) == self.spec_message(),
    {
        match self {
            Outcome::PermissionDenied => Some(String::from_str("User does not have permissions")),
            Outcome::NotInDms => Some(String::from_str("Command is not available in dms")),
            _ => None,
        }
    }
}

/// Asks the checks in order until one is not granted.
fn ask_checks(answers: &Vec<Answer>) -> (trace: Trace)
    ensures
        trace.outcome == checks_outcome(answers@),
        trace.asked == checks_asked(answers@),
{
    let mut i: usize = 0;
    while i < answers.len()
        invariant
            i <= answers.len(),
            first_objection(answers@, 0) == first_objection(answers@, i as int),
        decreases answers.len() - i,
    {
        match answers[i] {
            Answer::Granted => {},
            Answer::Refused => {
                return Trace { outcome: Outcome::PermissionDenied, asked: i + 1 };
            },
            Answer::Failed => {
                return Trace { outcome: Outcome::CheckFailed, asked: i + 1 };
            },
        }
        i += 1;
    }
    Trace { outcome: Outcome::RunsBody, asked: i }
}

impl Body {
    /// Follows the guards on one use of the command.
    pub fn run(&self, profile: Profile, invocation: &Invocation) -> (trace: Trace)
        requires
            self@.answered_by(invocation@),
        ensures
            trace.outcome == self@.outcome(profile, invocation@),
            trace.asked == self@.asked(profile, invocation@),
    {
        match self {
            Body::Plain { block: _ } => Trace { outcome: Outcome::RunsBody, asked: 0 },
            Body::Guarded { context: _, checks: _, works_in_dms, block: _ } => match profile {
                Profile::Test => ask_checks(&invocation.answers),
                Profile::Production => {
                    if !invocation.member_resolves {
                        return Trace { outcome: Outcome::MemberUnresolved, asked: 0 };
                    }
                    match invocation.channel {
                        None => Trace { outcome: Outcome::ChannelUnresolved, asked: 0 },
                        Some(Channel::Guild) => ask_checks(&invocation.answers),
                        Some(Channel::Other) => if *works_in_dms {
                            Trace { outcome: Outcome::RunsBody, asked: 0 }
                        } else {
                            Trace { outcome: Outcome::NotInDms, asked: 0 }
                        },
                    }
                },
            },
        }
    }
}

/// Up to the first objection every answer is `Granted`, and the objection
/// itself is not.
pub proof fn lemma_first_objection(answers: Seq<Answer>, from: int)
    requires
        0 <= from <= answers.len(),
    ensures
        from <= first_objection(answers, from) <= answers.len(),
        forall|j: int| from <= j < first_objection(answers, from) ==> answers[j] is Granted,
        first_objection(answers, from) < answers.len() ==> !(answers[first_objection(
            answers,
            from,
        )] is Granted),
    decreases answers.len() - from,
{
    if from < answers.len() && answers[from] is Granted {
        lemma_first_objection(answers, from + 1);
    }
}

/// With no check configured the generated body is the handler's block and
/// nothing else: its text is the block's, it asks nothing, resolves
/// nothing, and runs the block wherever the command is used.
pub proof fn law_no_checks_no_guards(
    func: SubCommandFuncView,
    args: SubCommandArgsView,
    profile: Profile,
    invocation: InvocationView,
)
    requires
        args.perms_checks.len() == 0,
        formatted(func, args) is Ok,
    ensures
        formatted(func, args)->Ok_0.body == (BodyView::Plain { block: func.block }),
        formatted(func, args)->Ok_0.body.source() == func.block,
        formatted(func, args)->Ok_0.body.outcome(profile, invocation) == Outcome::RunsBody,
        formatted(func, args)->Ok_0.body.asked(profile, invocation) == 0,
{
}

/// The checks are asked in the configured order and no further than the
/// first that is not granted: where the check at `stop` is the first such,
/// exactly the checks up to `stop` are asked. A refusal ends in the failure
/// "User does not have permissions", a failed check in its own error.
pub proof fn law_checks_short_circuit(
    body: BodyView,
    profile: Profile,
    invocation: InvocationView,
    stop: int,
)
    requires
        body.reaches_checks(profile, invocation),
        0 <= stop < invocation.answers.len(),
        forall|j: int| 0 <= j < stop ==> invocation.answers[j] is Granted,
        !(invocation.answers[stop] is Granted),
    ensures
        body.asked(profile, invocation) == stop + 1,
        invocation.answers[stop] is Refused ==> {
            &&& body.outcome(profile, invocation) == Outcome::PermissionDenied
            &&& body.outcome(profile, invocation).spec_message() == Some(
                "User does not have permissions"@,
            )
        },
        invocation.answers[stop] is Failed ==> body.outcome(profile, invocation)
            == Outcome::CheckFailed,
{
    lemma_first_objection(invocation.answers, 0);
}

/// Where every check is granted, all are asked and the block runs.
pub proof fn law_all_granted_runs_body(body: BodyView, profile: Profile, invocation: InvocationView)
    requires
        body.reaches_checks(profile, invocation),
        forall|j: int| 0 <= j < invocation.answers.len() ==> invocation.answers[j] is Granted,
    ensures
        body.asked(profile, invocation) == invocation.answers.len(),
        body.outcome(profile, invocation) == Outcome::RunsBody,
{
    lemma_first_objection(invocation.answers, 0);
}

/// A command that does not work in direct messages, used outside a guild in
/// a running bot: whatever checks are configured, as long as there is one,
/// none is asked and the failure reads "Command is not available in dms".
pub proof fn law_direct_message_refused(
    func: SubCommandFuncView,
    args: SubCommandArgsView,
    invocation: InvocationView,
)
    requires
        !args.works_in_dms,
        args.perms_checks.len() > 0,
        formatted(func, args) is Ok,
        invocation.member_resolves,
        invocation.channel == Some(Channel::Other),
    ensures
        formatted(func, args)->Ok_0.body.outcome(Profile::Production, invocation)
            == Outcome::NotInDms,
        formatted(func, args)->Ok_0.body.asked(Profile::Production, invocation) == 0,
        Outcome::NotInDms.spec_message() == Some("Command is not available in dms"@),
{
}

/// A command that works in direct messages, used outside a guild in a
/// running bot: the block runs and no check is asked.
pub proof fn law_direct_message_allowed(
    func: SubCommandFuncView,
    args: SubCommandArgsView,
    invocation: InvocationView,
)
    requires
        args.works_in_dms,
        formatted(func, args) is Ok,
        invocation.member_resolves,
        invocation.channel == Some(Channel::Other),
    ensures
        formatted(func, args)->Ok_0.body.outcome(Profile::Production, invocation)
            == Outcome::RunsBody,
        formatted(func, args)->Ok_0.body.asked(Profile::Production, invocation) == 0,
{
}

} // verus!
