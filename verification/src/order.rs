//! The order in which the steps of particular commands become due, whatever
//! the outcomes of the steps before them.

use vstd::prelude::*;
use crate::command::{
    config_updated_words, pull_config_words, pull_log_words, push_config_words, Call, Commands,
    ConfigError, Pull, Push, AM,
};
use crate::dispatch::{initial, pending_of, progress_of, report_of, run_of, Progress};
use crate::plan::{plan_of, spawn_of, StepModel};

verus! {

/// A Zoom call without a link gets a plan exactly if it has both a meeting
/// number and a password. Where the number is missing that is the error,
/// whether or not the password is there; else the missing password is.
pub proof fn lemma_zoom_without_link_needs_both(
    number: Option<String>,
    password: Option<String>,
)
    ensures
        plan_of(Commands::AM(AM::Call(Call::Zoom { number, password, link: None }))) is Ok <==> (
        number is Some && password is Some),
        number is None ==> plan_of(
            Commands::AM(AM::Call(Call::Zoom { number, password, link: None })),
        ) == Err::<Seq<StepModel>, ConfigError>(ConfigError::MeetingNumberRequired),
        number is Some && password is None ==> plan_of(
            Commands::AM(AM::Call(Call::Zoom { number, password, link: None })),
        ) == Err::<Seq<StepModel>, ConfigError>(ConfigError::PasswordRequired),
{
}

/// Pulling the logs first removes the local log directory, then creates
/// it, then asks the bridge: the pull is due once both were attempted and
/// not before, whether or not either of them worked.
pub proof fn lemma_pull_log_resets_first(removed: bool, created: bool)
    ensures
        plan_of(Commands::Pull(Pull::Log)) is Ok,
        ({
            let steps = plan_of(Commands::Pull(Pull::Log))->Ok_0;
            &&& steps.len() == 3
            &&& pending_of(steps, initial()) == Some(StepModel::RemoveDir("Log"@))
            &&& pending_of(steps, run_of(steps, seq![removed])) == Some(
                StepModel::CreateDir("Log"@),
            )
            &&& pending_of(steps, run_of(steps, seq![removed, created])) == Some(
                spawn_of(pull_log_words()),
            )
        }),
{
    let steps = plan_of(Commands::Pull(Pull::Log))->Ok_0;
    let one = seq![removed];
    let two = seq![removed, created];
    assert(one.drop_last() =~= Seq::<bool>::empty());
    assert(two.drop_last() =~= one);
    assert(run_of(steps, one.drop_last()) == initial());
    assert(run_of(steps, one) == report_of(steps, initial(), removed));
    assert(run_of(steps, two) == report_of(steps, run_of(steps, one), created));
}

/// Pushing the configuration takes two bridge invocations: the file, then
/// the notice that it changed. The notice is due exactly if the push of the
/// file succeeded; where it failed the plan has failed and nothing is due.
pub proof fn lemma_push_config_in_sequence(pushed: bool)
    ensures
        plan_of(Commands::Push(Push::Config)) is Ok,
        ({
            let steps = plan_of(Commands::Push(Push::Config))->Ok_0;
            let after = run_of(steps, seq![pushed]);
            &&& steps == seq![spawn_of(push_config_words()), spawn_of(config_updated_words())]
            &&& pending_of(steps, initial()) == Some(spawn_of(push_config_words()))
            &&& pushed ==> pending_of(steps, after) == Some(spawn_of(config_updated_words()))
            &&& !pushed ==> pending_of(steps, after) is None && progress_of(steps, after)
                == Progress::Failed
        }),
{
    let steps = plan_of(Commands::Push(Push::Config))->Ok_0;
    let one = seq![pushed];
    assert(one.drop_last() =~= Seq::<bool>::empty());
    assert(run_of(steps, one.drop_last()) == initial());
    assert(run_of(steps, one) == report_of(steps, initial(), pushed));
}

/// Pulling the configuration asks the bridge first and opens the file only
/// if that succeeded: after a failed pull the plan has failed and no step
/// is due.
pub proof fn lemma_pull_config_opens_after_pull(pulled: bool)
    ensures
        plan_of(Commands::Pull(Pull::Config)) is Ok,
        ({
            let steps = plan_of(Commands::Pull(Pull::Config))->Ok_0;
            let after = run_of(steps, seq![pulled]);
            &&& pending_of(steps, initial()) == Some(spawn_of(pull_config_words()))
            &&& pulled ==> pending_of(steps, after) == Some(StepModel::Open("config.json"@))
            &&& !pulled ==> pending_of(steps, after) is None && progress_of(steps, after)
                == Progress::Failed
        }),
{
    let steps = plan_of(Commands::Pull(Pull::Config))->Ok_0;
    let one = seq![pulled];
    assert(one.drop_last() =~= Seq::<bool>::empty());
    assert(run_of(steps, one.drop_last()) == initial());
    assert(run_of(steps, one) == report_of(steps, initial(), pulled));
}

} // verus!
