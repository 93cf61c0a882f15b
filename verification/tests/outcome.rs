use slashy_macros::guard::Body;
use slashy_macros::outcome::{Answer, Channel, Invocation, Outcome, Profile, Trace};
use slashy_macros::{format_subcommand, SubCommandArgs, SubCommandFunc};

fn guarded(works_in_dms: bool, checks: &[&str]) -> Body {
    let item = syn::parse_str::<syn::ItemFn>("fn f(ctx: &Ctx) -> R { run() }").unwrap();
    let func = SubCommandFunc::from_item(&item);
    let args = SubCommandArgs {
        works_in_dms,
        perms_checks: checks.iter().map(|name| name.to_string()).collect(),
    };
    format_subcommand(func, args).unwrap().body
}

fn used(channel: Channel, answers: &[Answer]) -> Invocation {
    Invocation { member_resolves: true, channel: Some(channel), answers: answers.to_vec() }
}

fn trace(outcome: Outcome, asked: usize) -> Trace {
    Trace { outcome, asked }
}

#[test]
fn refusal_stops_the_checks() {
    let body = guarded(true, &["first", "second"]);
    let invocation = used(Channel::Guild, &[Answer::Refused, Answer::Granted]);
    let found = body.run(Profile::Production, &invocation);
    assert_eq!(found, trace(Outcome::PermissionDenied, 1));
    assert_eq!(found.outcome.message(), Some("User does not have permissions".to_string()));
    let found = body.run(Profile::Test, &invocation);
    assert_eq!(found, trace(Outcome::PermissionDenied, 1));
}

#[test]
fn later_refusal_is_reached_in_order() {
    let body = guarded(false, &["a", "b", "c"]);
    let invocation = used(Channel::Guild, &[Answer::Granted, Answer::Refused, Answer::Granted]);
    assert_eq!(body.run(Profile::Production, &invocation), trace(Outcome::PermissionDenied, 2));
}

#[test]
fn all_granted_runs_the_body() {
    let body = guarded(false, &["a", "b", "c"]);
    let invocation = used(Channel::Guild, &[Answer::Granted, Answer::Granted, Answer::Granted]);
    assert_eq!(body.run(Profile::Production, &invocation), trace(Outcome::RunsBody, 3));
    assert_eq!(body.run(Profile::Test, &invocation), trace(Outcome::RunsBody, 3));
    assert_eq!(Outcome::RunsBody.message(), None);
}

#[test]
fn failed_check_hands_its_error_on() {
    let body = guarded(true, &["a", "b"]);
    let invocation = used(Channel::Guild, &[Answer::Granted, Answer::Failed]);
    let found = body.run(Profile::Production, &invocation);
    assert_eq!(found, trace(Outcome::CheckFailed, 2));
    assert_eq!(found.outcome.message(), None);
    let invocation = used(Channel::Guild, &[Answer::Failed, Answer::Refused]);
    assert_eq!(body.run(Profile::Test, &invocation), trace(Outcome::CheckFailed, 1));
}

#[test]
fn direct_message_is_refused_without_the_flag() {
    for checks in [&["a"][..], &["a", "b"][..]] {
        let body = guarded(false, checks);
        let answers = vec![Answer::Granted; checks.len()];
        let found = body.run(Profile::Production, &used(Channel::Other, &answers));
        assert_eq!(found, trace(Outcome::NotInDms, 0));
        assert_eq!(found.outcome.message(), Some("Command is not available in dms".to_string()));
        let answers = vec![Answer::Refused; checks.len()];
        let found = body.run(Profile::Production, &used(Channel::Other, &answers));
        assert_eq!(found, trace(Outcome::NotInDms, 0));
    }
}

#[test]
fn direct_message_runs_the_body_with_the_flag() {
    let body = guarded(true, &["a", "b"]);
    let invocation = used(Channel::Other, &[Answer::Refused, Answer::Failed]);
    assert_eq!(body.run(Profile::Production, &invocation), trace(Outcome::RunsBody, 0));
    let body = guarded(true, &[]);
    assert_eq!(
        body.run(Profile::Production, &used(Channel::Other, &[])),
        trace(Outcome::RunsBody, 0)
    );
}

#[test]
fn without_checks_the_body_runs_anywhere() {
    let body = guarded(false, &[]);
    assert_eq!(
        body.run(Profile::Production, &used(Channel::Other, &[])),
        trace(Outcome::RunsBody, 0)
    );
    assert_eq!(
        body.run(Profile::Production, &used(Channel::Guild, &[])),
        trace(Outcome::RunsBody, 0)
    );
    let unresolved = Invocation { member_resolves: false, channel: None, answers: Vec::new() };
    assert_eq!(body.run(Profile::Production, &unresolved), trace(Outcome::RunsBody, 0));
    assert_eq!(body.run(Profile::Test, &unresolved), trace(Outcome::RunsBody, 0));
}

#[test]
fn unresolved_member_comes_first() {
    let body = guarded(true, &["a"]);
    let invocation =
        Invocation { member_resolves: false, channel: None, answers: vec![Answer::Granted] };
    assert_eq!(body.run(Profile::Production, &invocation), trace(Outcome::MemberUnresolved, 0));
    let invocation = Invocation {
        member_resolves: false,
        channel: Some(Channel::Guild),
        answers: vec![Answer::Granted],
    };
    assert_eq!(body.run(Profile::Production, &invocation), trace(Outcome::MemberUnresolved, 0));
}

#[test]
fn unresolved_channel_hands_its_error_on() {
    let body = guarded(true, &["a"]);
    let invocation =
        Invocation { member_resolves: true, channel: None, answers: vec![Answer::Granted] };
    let found = body.run(Profile::Production, &invocation);
    assert_eq!(found, trace(Outcome::ChannelUnresolved, 0));
    assert_eq!(found.outcome.message(), None);
}

#[test]
fn test_build_resolves_nothing() {
    let body = guarded(false, &["a"]);
    let invocation =
        Invocation { member_resolves: false, channel: None, answers: vec![Answer::Granted] };
    assert_eq!(body.run(Profile::Test, &invocation), trace(Outcome::RunsBody, 1));
    let invocation = used(Channel::Other, &[Answer::Refused]);
    assert_eq!(body.run(Profile::Test, &invocation), trace(Outcome::PermissionDenied, 1));
}
