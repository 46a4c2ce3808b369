use editorconfig_checker::delegate::{conclude, forwarded_args, ChildReport};
use editorconfig_checker::error::Error;
use editorconfig_checker::pipeline::{
    final_exit_code, probe_event, work_event, Action, Event, Stage,
};

fn run(from: Stage, events: &[Event]) -> (Stage, Vec<Action>, bool) {
    let mut stage = from;
    let mut actions = Vec::new();
    let mut warned = false;
    for event in events {
        actions.push(stage.action());
        let next = stage.advance(*event);
        warned = warned || next.warning;
        stage = next.stage;
    }
    (stage, actions, warned)
}

#[test]
fn a_cache_hit_goes_straight_to_the_delegate() {
    let (stage, actions, warned) = run(
        Stage::Start,
        &[Event::Done, Event::Done, Event::Present, Event::Done, Event::Done],
    );
    assert_eq!(stage, Stage::Terminated { failed: false });
    assert_eq!(
        actions,
        vec![Action::Identify, Action::Locate, Action::Probe, Action::Proceed, Action::Run]
    );
    assert!(!warned);
    assert_eq!(stage.action(), Action::Exit);
}

#[test]
fn a_cache_miss_fetches_extracts_and_deletes() {
    let (stage, actions, warned) = run(
        Stage::Start,
        &[
            Event::Done,
            Event::Done,
            Event::Absent,
            Event::Done,
            Event::Done,
            Event::Done,
            Event::Done,
            Event::Done,
        ],
    );
    assert_eq!(stage, Stage::Terminated { failed: false });
    assert_eq!(
        actions,
        vec![
            Action::Identify,
            Action::Locate,
            Action::Probe,
            Action::Fetch,
            Action::Proceed,
            Action::Extract,
            Action::RemoveArchive,
            Action::Run
        ]
    );
    assert!(!warned);
}

#[test]
fn every_stage_names_its_work() {
    assert_eq!(Stage::Start.action(), Action::Identify);
    assert_eq!(Stage::Identified.action(), Action::Locate);
    assert_eq!(Stage::Located.action(), Action::Probe);
    assert_eq!(Stage::CacheHit.action(), Action::Proceed);
    assert_eq!(Stage::Downloading.action(), Action::Fetch);
    assert_eq!(Stage::Downloaded.action(), Action::Proceed);
    assert_eq!(Stage::Unpacking.action(), Action::Extract);
    assert_eq!(Stage::Unpacked.action(), Action::RemoveArchive);
    assert_eq!(Stage::Delegating.action(), Action::Run);
    assert_eq!(Stage::Terminated { failed: true }.action(), Action::Exit);
}

#[test]
fn a_failure_ends_the_run() {
    for stage in [
        Stage::Start,
        Stage::Identified,
        Stage::Located,
        Stage::CacheHit,
        Stage::Downloading,
        Stage::Downloaded,
        Stage::Unpacking,
        Stage::Delegating,
    ] {
        let next = stage.advance(Event::Failed);
        assert_eq!(next.stage, Stage::Terminated { failed: true });
        assert!(!next.warning);
    }
}

#[test]
fn a_failed_deletion_only_warns() {
    let next = Stage::Unpacked.advance(Event::Failed);
    assert_eq!(next.stage, Stage::Delegating);
    assert!(next.warning);
    let next = Stage::Unpacked.advance(Event::Done);
    assert_eq!(next.stage, Stage::Delegating);
    assert!(!next.warning);
}

#[test]
fn a_finished_run_stays_finished() {
    for failed in [false, true] {
        for event in [Event::Done, Event::Present, Event::Absent, Event::Failed] {
            let next = Stage::Terminated { failed }.advance(event);
            assert_eq!(next.stage, Stage::Terminated { failed });
            assert!(!next.warning);
        }
    }
}

#[test]
fn a_report_that_answers_nothing_ends_the_run() {
    assert_eq!(Stage::Start.advance(Event::Present).stage, Stage::Terminated { failed: true });
    assert_eq!(Stage::Located.advance(Event::Done).stage, Stage::Terminated { failed: true });
    assert_eq!(Stage::Delegating.advance(Event::Absent).stage, Stage::Terminated { failed: true });
}

#[test]
fn after_a_cache_hit_nothing_is_acquired() {
    let events = [Event::Done, Event::Present, Event::Absent, Event::Failed];
    for a in events {
        for b in events {
            for c in events {
                let (_, actions, _) = run(Stage::CacheHit, &[a, b, c]);
                for action in actions {
                    assert!(!matches!(
                        action,
                        Action::Fetch | Action::Extract | Action::RemoveArchive
                    ));
                }
            }
        }
    }
}

#[test]
fn a_failed_fetch_never_reaches_the_delegate() {
    let (stage, actions, _) = run(Stage::Downloading, &[Event::Failed, Event::Done, Event::Done]);
    assert_eq!(stage, Stage::Terminated { failed: true });
    assert_eq!(actions, vec![Action::Fetch, Action::Exit, Action::Exit]);
}

#[test]
fn a_probe_reports_present_or_absent() {
    assert_eq!(probe_event(true), Event::Present);
    assert_eq!(probe_event(false), Event::Absent);
    assert_eq!(Stage::Located.advance(probe_event(true)).stage, Stage::CacheHit);
    assert_eq!(Stage::Located.advance(probe_event(false)).stage, Stage::Downloading);
}

#[test]
fn work_reports_done_or_failed() {
    assert_eq!(work_event(&Ok(())), Event::Done);
    assert_eq!(work_event(&Err(Error::UnresolvableBasePath)), Event::Failed);
    assert_eq!(
        work_event(&Err(Error::DownloadFailed(String::from("404 Not Found")))),
        Event::Failed
    );
}

#[test]
fn the_launcher_exits_with_the_code_of_the_delegate() {
    let ended = Stage::Terminated { failed: false };
    assert_eq!(final_exit_code(ended, Some(7)), 7);
    assert_eq!(final_exit_code(ended, Some(0)), 0);
    assert_eq!(final_exit_code(ended, Some(-3)), -3);
    assert_eq!(final_exit_code(ended, None), 1);
}

#[test]
fn the_launcher_exits_with_the_fallback_after_a_failure() {
    let failed = Stage::Terminated { failed: true };
    assert_eq!(final_exit_code(failed, None), 1);
    assert_eq!(final_exit_code(failed, Some(0)), 1);
    assert_eq!(final_exit_code(failed, Some(7)), 1);
    for stage in [Stage::Start, Stage::Located, Stage::Downloading, Stage::Delegating] {
        assert_eq!(final_exit_code(stage, Some(0)), 1);
    }
}

#[test]
fn a_run_passes_arguments_output_and_exit_code_through() {
    let argv: Vec<String> =
        ["ec", "-v", "", "a b", "--exclude=x y"].iter().map(|s| s.to_string()).collect();
    let args = forwarded_args(argv.clone());
    assert_eq!(args.len(), argv.len() - 1);
    for (i, arg) in args.iter().enumerate() {
        assert_eq!(arg, &argv[i + 1]);
    }
    let echoed: Vec<u8> = args.join("\n").into_bytes();
    let outcome =
        conclude(Ok(ChildReport { stdout: echoed.clone(), status: Some(7) })).unwrap();
    assert_eq!(outcome.output.as_bytes(), &echoed[..]);
    let (stage, _, _) = run(
        Stage::Start,
        &[Event::Done, Event::Done, Event::Present, Event::Done, Event::Done],
    );
    assert_eq!(final_exit_code(stage, Some(outcome.code)), 7);
}
