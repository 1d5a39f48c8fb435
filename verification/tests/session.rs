use mdr::args::{parse_args, Config, Parsed};
use mdr::confirm::is_affirmative;
use mdr::diagnostics::renderer_missing;
use mdr::render::{rebuild_outcome, ProcessStatus, RebuildOutcome};
use mdr::session::{exit_code, first_step, next_step, task_result, Outcome, Overwrite, Step, SUCCESS};

fn config(args: &[&str]) -> Config {
    let args: Vec<String> = args.iter().map(|a| a.to_string()).collect();
    match parse_args(&args) {
        Parsed::Run(config) => config,
        other => panic!("{:?}", other),
    }
}

/// Walks a session through the outcomes given, and returns every step taken.
fn walk(config: &Config, outcomes: &[Outcome]) -> Vec<Step> {
    let mut steps = vec![first_step()];
    for outcome in outcomes {
        let next = next_step(config, *steps.last().unwrap(), *outcome);
        steps.push(next);
    }
    steps
}

#[test]
fn errors_when_pandoc_missing() {
    let config = config(&["mdr", "foo.md", "bar.html"]);
    let steps = walk(&config, &[Outcome::RendererChecked { available: false }]);
    assert_eq!(steps, vec![Step::CheckRenderer, Step::Exit { status: 127 }]);
    assert!(renderer_missing(&config.bin).contains("pandoc not found"));
}

#[test]
fn renderer_that_vanishes_before_the_first_build_exits_127_after_clean_up() {
    let config = config(&["mdr", "foo.md"]);
    let built = rebuild_outcome(ProcessStatus::NotSpawned);
    let steps = walk(
        &config,
        &[
            Outcome::RendererChecked { available: true },
            Outcome::WorkDirCreated { created: true },
            Outcome::AssetsWritten { written: true },
            Outcome::Built(built),
            Outcome::CleanedUp,
        ],
    );
    assert_eq!(
        steps,
        vec![
            Step::CheckRenderer,
            Step::CreateWorkDir,
            Step::WriteAssets,
            Step::Build,
            Step::CleanUp { status: 127 },
            Step::Exit { status: 127 },
        ]
    );
    assert!(renderer_missing("mdr").contains("not found"));
}

#[test]
fn plain_build_goes_straight_through() {
    let config = config(&["mdr", "note.md"]);
    let steps = walk(
        &config,
        &[
            Outcome::RendererChecked { available: true },
            Outcome::WorkDirCreated { created: true },
            Outcome::AssetsWritten { written: true },
            Outcome::Built(RebuildOutcome::Succeeded),
            Outcome::CleanedUp,
        ],
    );
    assert_eq!(
        steps,
        vec![
            Step::CheckRenderer,
            Step::CreateWorkDir,
            Step::WriteAssets,
            Step::Build,
            Step::CleanUp { status: 0 },
            Step::Exit { status: 0 },
        ]
    );
    assert_eq!(SUCCESS, 0);
}

#[test]
fn aborts_when_user_declines_overwrite() {
    let config = config(&["mdr", "-n", "note.md", "note.html"]);
    let answer = Overwrite::Answered { agreed: is_affirmative("n\n") };
    let steps = walk(
        &config,
        &[Outcome::RendererChecked { available: true }, Outcome::Confirmed(answer)],
    );
    assert_eq!(
        steps,
        vec![Step::CheckRenderer, Step::ConfirmOverwrite, Step::Exit { status: 1 }]
    );
}

#[test]
fn overwrites_when_user_confirms() {
    let config = config(&["mdr", "--no-clobber", "note.md", "note.html"]);
    let answer = Overwrite::Answered { agreed: is_affirmative("yes\n") };
    let steps = walk(
        &config,
        &[Outcome::RendererChecked { available: true }, Outcome::Confirmed(answer)],
    );
    assert_eq!(
        steps,
        vec![Step::CheckRenderer, Step::ConfirmOverwrite, Step::CreateWorkDir]
    );
}

#[test]
fn nothing_to_overwrite_needs_no_answer_and_an_unreadable_answer_aborts() {
    let config = config(&["mdr", "-n", "note.md"]);
    assert_eq!(
        next_step(&config, Step::ConfirmOverwrite, Outcome::Confirmed(Overwrite::NothingToOverwrite)),
        Step::CreateWorkDir
    );
    assert_eq!(
        next_step(&config, Step::ConfirmOverwrite, Outcome::Confirmed(Overwrite::Unreadable)),
        Step::Exit { status: 1 }
    );
}

#[test]
fn working_directory_that_cannot_be_made_exits_without_clean_up() {
    let config = config(&["mdr", "note.md"]);
    assert_eq!(
        next_step(&config, Step::CreateWorkDir, Outcome::WorkDirCreated { created: false }),
        Step::Exit { status: 1 }
    );
}

#[test]
fn assets_that_cannot_be_written_exit_after_clean_up() {
    let config = config(&["mdr", "note.md"]);
    assert_eq!(
        next_step(&config, Step::WriteAssets, Outcome::AssetsWritten { written: false }),
        Step::CleanUp { status: 1 }
    );
}

#[test]
fn failed_first_build_ends_the_session_with_its_status() {
    for flags in [vec!["mdr", "note.md"], vec!["mdr", "-w", "note.md"], vec!["mdr", "-s", "note.md"]] {
        let config = config(&flags);
        for status in [1, 2, 43, 127] {
            assert_eq!(
                next_step(&config, Step::Build, Outcome::Built(RebuildOutcome::Failed(status))),
                Step::CleanUp { status }
            );
        }
        assert_eq!(
            next_step(&config, Step::Build, Outcome::Built(RebuildOutcome::Crashed)),
            Step::CleanUp { status: 1 }
        );
    }
}

#[test]
fn mode_follows_the_first_build() {
    let built = Outcome::Built(RebuildOutcome::Succeeded);
    assert_eq!(next_step(&config(&["mdr", "-w", "n.md"]), Step::Build, built), Step::Watch);
    assert_eq!(next_step(&config(&["mdr", "-s", "n.md"]), Step::Build, built), Step::Serve);
    assert_eq!(next_step(&config(&["mdr", "-s", "-w", "n.md"]), Step::Build, built), Step::Serve);
    assert_eq!(next_step(&config(&["mdr", "-P", "n.md"]), Step::Build, built), Step::Serve);
    assert_eq!(
        next_step(&config(&["mdr", "n.md"]), Step::Build, built),
        Step::CleanUp { status: 0 }
    );
}

#[test]
fn mode_ends_with_the_status_of_whichever_task_ended() {
    let config = config(&["mdr", "-s", "note.md"]);
    for step in [Step::Serve, Step::Watch] {
        assert_eq!(
            next_step(&config, step, Outcome::ModeEnded(Some(Ok(())))),
            Step::CleanUp { status: 0 }
        );
        assert_eq!(
            next_step(&config, step, Outcome::ModeEnded(Some(Err(127)))),
            Step::CleanUp { status: 127 }
        );
        assert_eq!(next_step(&config, step, Outcome::ModeEnded(None)), Step::CleanUp { status: 1 });
    }
}

#[test]
fn clean_up_keeps_the_status_whatever_happened() {
    let config = config(&["mdr", "note.md"]);
    for outcome in [Outcome::CleanedUp, Outcome::WorkDirCreated { created: false }] {
        assert_eq!(
            next_step(&config, Step::CleanUp { status: 43 }, outcome),
            Step::Exit { status: 43 }
        );
    }
    assert_eq!(
        next_step(&config, Step::Exit { status: 5 }, Outcome::CleanedUp),
        Step::Exit { status: 5 }
    );
}

#[test]
fn outcome_of_another_step_is_a_general_failure() {
    let config = config(&["mdr", "note.md"]);
    assert_eq!(
        next_step(&config, Step::CheckRenderer, Outcome::CleanedUp),
        Step::Exit { status: 1 }
    );
    assert_eq!(
        next_step(&config, Step::Build, Outcome::RendererChecked { available: true }),
        Step::CleanUp { status: 1 }
    );
    assert_eq!(next_step(&config, Step::Watch, Outcome::CleanedUp), Step::CleanUp { status: 1 });
}

#[test]
fn dead_task_counts_as_a_general_failure() {
    assert_eq!(task_result(None), Err(1));
    assert_eq!(task_result(Some(Ok(()))), Ok(()));
    assert_eq!(task_result(Some(Err(127))), Err(127));
    assert_eq!(exit_code(Ok(())), 0);
    assert_eq!(exit_code(Err(64)), 64);
}
