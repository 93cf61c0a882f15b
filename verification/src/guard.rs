//! The body of a generated function: the handler's block, alone or behind
//! the guards, as source text and as what it does when a command comes in.

use crate::text::{joined, push_joined, string_views};
use vstd::prelude::*;
use vstd::string::StringExecFns;

verus! {

/// The message of the failure that a refused permission check ends in.
pub open spec fn permission_denied_text() -> Seq<char> {
    "User does not have permissions"@
}

/// The message of the failure that a command ends in when it is used
/// outside a guild and does not work there.
pub open spec fn not_in_dms_text() -> Seq<char> {
    "Command is not available in dms"@
}

/// The body of a generated function.
#[derive(Debug, Clone, PartialEq, Eq)]
pub enum Body {
    /// The handler's block and nothing else: no check was configured.
    Plain { block: String },
    /// The handler's block behind the guards. `context` is the pattern of
    /// the handler's first parameter, through which the guards reach the
    /// member and the channel; `checks` holds at least one name.
    Guarded { context: String, checks: Vec<String>, works_in_dms: bool, block: String },
}

/// What a [`Body`] stands for in contracts.
pub enum BodyView {
    Plain { block: Seq<char> },
    Guarded { context: Seq<char>, checks: Seq<Seq<char>>, works_in_dms: bool, block: Seq<char> },
}

impl View for Body {
    type V = BodyView;

    open spec fn view(&self) -> BodyView {
        match *self {
            Body::Plain { block } => BodyView::Plain { block: block@ },
            Body::Guarded { context, checks, works_in_dms, block } => BodyView::Guarded {
                context: context@,
                checks: string_views(checks@),
                works_in_dms,
                block: block@,
            },
        }
    }
}

/// The expression that fails with `message`, through the error type found
/// under `root`.
pub open spec fn failure_source(root: Seq<char>, message: Seq<char>) -> Seq<char> {
    "Err(Box::new("@ + root + "::commands::SlashyError::new(\""@ + message
        + "\")) as Box<dyn Error + Sync + std::marker::Send + 'static>)"@
}

/// The call of one check in a running bot: on the context, the member and
/// the guild channel.
pub open spec fn production_call(check: Seq<char>, context: Seq<char>) -> Seq<char> {
    check + " (& "@ + context + " .ctx, & member, & c).await?"@
}

/// The call of one check under test: without arguments.
pub open spec fn test_call(check: Seq<char>) -> Seq<char> {
    check + " ().await?"@
}

/// The calls of all checks in a running bot, in order.
pub open spec fn production_calls(checks: Seq<Seq<char>>, context: Seq<char>) -> Seq<Seq<char>> {
    checks.map_values(|check: Seq<char>| production_call(check, context))
}

/// The calls of all checks under test, in order.
pub open spec fn test_calls(checks: Seq<Seq<char>>) -> Seq<Seq<char>> {
    checks.map_values(|check: Seq<char>| test_call(check))
}

/// The spelling of a flag.
pub open spec fn flag_source(flag: bool) -> Seq<char> {
    if flag {
        "true"@
    } else {
        "false"@
    }
}

/// The guards as they are compiled into a running bot: the member and the
/// channel are resolved; in a guild the checks are asked in order, joined
/// by `&&`; elsewhere the flag decides.
pub open spec fn production_source(
    context: Seq<char>,
    checks: Seq<Seq<char>>,
    works_in_dms: bool,
    block: Seq<char>,
) -> Seq<char> {
    "#[cfg(not(test))] { use ::serenity::model::channel::Channel; use ::std::error::Error; let member = "@
        + context + " .member().await?; match "@ + context
        + " .channel().await? { Channel::Guild(c) => { if "@ + joined(
        production_calls(checks, context),
        " && "@,
    ) + " { "@ + block + " } else { "@ + failure_source("::slashy"@, permission_denied_text())
        + " } }, _ => if "@ + flag_source(works_in_dms) + " { "@ + block + " } else { "@
        + failure_source("::slashy"@, not_in_dms_text()) + " } } }"@
}

/// The guards as they are compiled under test: the checks alone, asked
/// without arguments.
pub open spec fn test_source(checks: Seq<Seq<char>>, block: Seq<char>) -> Seq<char> {
    "#[cfg(test)] { use ::std::error::Error; if "@ + joined(test_calls(checks), " && "@) + " { "@
        + block + " } else { "@ + failure_source("crate"@, permission_denied_text()) + " } }"@
}

impl BodyView {
    /// Whether the body is one that can be written out: guards stand
    /// around at least one check.
    pub open spec fn well_formed(self) -> bool {
        self matches BodyView::Guarded { checks, .. } ==> checks.len() > 0
    }

    /// The body as source text. A plain body is the handler's block, letter
    /// for letter; a guarded one holds the guards for both build profiles.
    pub open spec fn source(self) -> Seq<char> {
        match self {
            BodyView::Plain { block } => block,
            BodyView::Guarded { context, checks, works_in_dms, block } => production_source(
                context,
                checks,
                works_in_dms,
                block,
            ) + " "@ + test_source(checks, block),
        }
    }
}

/// Appends the failing expression to `out`.
fn write_failure(out: &mut String, root: &str, message: &str)
    ensures
        final(out)@ == old(out)@ + failure_source(root@, message@),
{
    let mut failure = String::from_str("Err(Box::new(");
    failure.append(root);
    failure.append("::commands::SlashyError::new(\"");
    failure.append(message);
    failure.append("\")) as Box<dyn Error + Sync + std::marker::Send + 'static>)");
    out.append(failure.as_str());
}

/// The calls of `checks` in a running bot.
fn production_call_texts(checks: &Vec<String>, context: &String) -> (calls: Vec<String>)
    ensures
        string_views(calls@) == production_calls(string_views(checks@), context@),
{
    let mut calls: Vec<String> = Vec::new();
    let mut i: usize = 0;
    while i < checks.len()
        invariant
            i <= checks.len(),
            calls@.len() == i,
            forall|j: int| 0 <= j < i ==> calls@[j]@ == production_call(checks@[j]@, context@),
        decreases checks.len() - i,
    {
        let mut call = checks[i].clone();
        call.append(" (& ");
        call.append(context.as_str());
        call.append(" .ctx, & member, & c).await?");
        assert(call@ =~= production_call(checks@[i as int]@, context@));
        calls.push(call);
        i += 1;
    }
    assert(string_views(calls@) =~= production_calls(string_views(checks@), context@));
    calls
}

/// The calls of `checks` under test.
fn test_call_texts(checks: &Vec<String>) -> (calls: Vec<String>)
    ensures
        string_views(calls@) == test_calls(string_views(checks@)),
{
    let mut calls: Vec<String> = Vec::new();
    let mut i: usize = 0;
    while i < checks.len()
        invariant
            i <= checks.len(),
            calls@.len() == i,
            forall|j: int| 0 <= j < i ==> calls@[j]@ == test_call(checks@[j]@),
        decreases checks.len() - i,
    {
        let mut call = checks[i].clone();
        call.append(" ().await?");
        calls.push(call);
        i += 1;
    }
    assert(string_views(calls@) =~= test_calls(string_views(checks@)));
    calls
}

/// The guards for a running bot, as source text.
fn production_text(context: &String, checks: &Vec<String>, works_in_dms: bool, block: &String) -> (out:
    String)
    ensures
        out@ == production_source(context@, string_views(checks@), works_in_dms, block@),
{
    let calls = production_call_texts(checks, context);
    let mut out = String::from_str(
        "#[cfg(not(test))] { use ::serenity::model::channel::Channel; use ::std::error::Error; let member = ",
    );
    out.append(context.as_str());
    out.append(" .member().await?; match ");
    out.append(context.as_str());
    out.append(" .channel().await? { Channel::Guild(c) => { if ");
    push_joined(&mut out, &calls, " && ");
    out.append(" { ");
    out.append(block.as_str());
    out.append(" } else { ");
    write_failure(&mut out, "::slashy", "User does not have permissions");
    out.append(" } }, _ => if ");
    if works_in_dms {
        out.append("true");
    } else {
        out.append("false");
    }
    out.append(" { ");
    out.append(block.as_str());
    out.append(" } else { ");
    write_failure(&mut out, "::slashy", "Command is not available in dms");
    out.append(" } } }");
    out
}

/// The guards under test, as source text.
fn test_text(checks: &Vec<String>, block: &String) -> (out: String)
    ensures
        out@ == test_source(string_views(checks@), block@),
{
    let calls = test_call_texts(checks);
    let mut out = String::from_str("#[cfg(test)] { use ::std::error::Error; if ");
    push_joined(&mut out, &calls, " && ");
    out.append(" { ");
    out.append(block.as_str());
    out.append(" } else { ");
    write_failure(&mut out, "crate", "User does not have permissions");
    out.append(" } }");
    out
}

impl Body {
    /// The body's source text.
    pub fn to_source(&self) -> (out: String)
        ensures
            out@ == self@.source(),
    {
        match self {
            Body::Plain { block } => block.clone(),
            Body::Guarded { context, checks, works_in_dms, block } => {
                let mut out = production_text(context, checks, *works_in_dms, block);
                out.append(" ");
                out.append(test_text(checks, block).as_str());
                out
            },
        }
    }
}

} // verus!
