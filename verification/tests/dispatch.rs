use tbs::command::{Clear, Commands, Pull, Push};
use tbs::dispatch::{ignore, Dispatcher, Progress};
use tbs::plan::{plan, Step};

fn run(cmd: &Commands, outcomes: &[bool]) -> (Vec<Step>, Progress) {
    let mut dispatcher = Dispatcher::new(plan(cmd).unwrap());
    let mut performed: Vec<Step> = Vec::new();
    let mut next = outcomes.iter();
    loop {
        let step = match dispatcher.pending() {
            Some(step) => step.clone(),
            None => break,
        };
        let ok = match next.next() {
            Some(ok) => *ok,
            None => break,
        };
        performed.push(step);
        dispatcher.report(if ok { Ok(()) } else { Err(()) });
    }
    (performed, dispatcher.progress())
}

#[test]
fn push_config_runs_both_invocations_when_the_first_succeeds() {
    let steps = plan(&Commands::Push(Push::Config)).unwrap();
    let (performed, progress) = run(&Commands::Push(Push::Config), &[true, true]);
    assert_eq!(performed, steps);
    assert_eq!(performed.len(), 2);
    assert_eq!(progress, Progress::Succeeded);
}

#[test]
fn push_config_stops_when_the_first_invocation_fails() {
    let steps = plan(&Commands::Push(Push::Config)).unwrap();
    let (performed, progress) = run(&Commands::Push(Push::Config), &[false, true]);
    assert_eq!(performed, vec![steps[0].clone()]);
    assert_eq!(progress, Progress::Failed);
}

#[test]
fn push_config_fails_when_the_broadcast_fails() {
    let (performed, progress) = run(&Commands::Push(Push::Config), &[true, false]);
    assert_eq!(performed.len(), 2);
    assert_eq!(progress, Progress::Failed);
}

#[test]
fn pull_config_with_a_bridge_failure_opens_nothing() {
    let (performed, progress) = run(&Commands::Pull(Pull::Config), &[false, true]);
    assert_eq!(performed.len(), 1);
    assert!(matches!(performed[0], Step::Spawn(_)));
    assert!(!performed.iter().any(|s| matches!(s, Step::Open(_))));
    assert_eq!(progress, Progress::Failed);
}

#[test]
fn pull_config_opens_the_file_after_the_pull() {
    let (performed, progress) = run(&Commands::Pull(Pull::Config), &[true, true]);
    assert_eq!(performed.len(), 2);
    assert_eq!(performed[1], Step::Open("config.json".to_string()));
    assert_eq!(progress, Progress::Succeeded);
}

#[test]
fn pull_config_fails_when_the_file_cannot_be_opened() {
    let (_, progress) = run(&Commands::Pull(Pull::Config), &[true, false]);
    assert_eq!(progress, Progress::Failed);
}

#[test]
fn pull_log_goes_on_when_the_directory_steps_fail() {
    for (removed, created) in [(true, true), (true, false), (false, true), (false, false)] {
        let (performed, progress) = run(&Commands::Pull(Pull::Log), &[removed, created, true]);
        assert_eq!(performed.len(), 3);
        assert_eq!(performed[0], Step::RemoveDir("Log".to_string()));
        assert_eq!(performed[1], Step::CreateDir("Log".to_string()));
        assert!(matches!(performed[2], Step::Spawn(_)));
        assert_eq!(progress, Progress::Succeeded);
    }
}

#[test]
fn pull_log_fails_when_the_pull_fails() {
    let (performed, progress) = run(&Commands::Pull(Pull::Log), &[true, true, false]);
    assert_eq!(performed.len(), 3);
    assert_eq!(progress, Progress::Failed);
}

#[test]
fn a_fresh_plan_is_pending_at_its_first_step() {
    let steps = plan(&Commands::Clear(Clear::Log)).unwrap();
    let dispatcher = Dispatcher::new(steps.clone());
    assert_eq!(dispatcher.progress(), Progress::Pending);
    assert_eq!(dispatcher.pending(), Some(&steps[0]));
}

#[test]
fn an_empty_plan_has_succeeded() {
    let dispatcher = Dispatcher::new(Vec::new());
    assert_eq!(dispatcher.progress(), Progress::Succeeded);
    assert_eq!(dispatcher.pending(), None);
}

#[test]
fn a_report_with_nothing_due_changes_nothing() {
    let mut done = Dispatcher::new(plan(&Commands::Clear(Clear::Log)).unwrap());
    done.report(Ok(()));
    assert_eq!(done.progress(), Progress::Succeeded);
    done.report(Err(()));
    assert_eq!(done.progress(), Progress::Succeeded);
    assert_eq!(done.pending(), None);

    let mut failed = Dispatcher::new(plan(&Commands::Push(Push::Config)).unwrap());
    failed.report(Err(()));
    assert_eq!(failed.progress(), Progress::Failed);
    failed.report(Ok(()));
    assert_eq!(failed.progress(), Progress::Failed);
    assert_eq!(failed.pending(), None);
}

#[test]
fn ignore_turns_an_error_into_success() {
    let ok: Result<u32, String> = Ok(7);
    let err: Result<u32, String> = Err("gone".to_string());
    assert_eq!(ignore(&ok), Ok(()));
    assert_eq!(ignore(&err), Ok(()));
}
