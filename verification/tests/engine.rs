use burnin::engine::build_failure_message;
use burnin::{BuildOutcome, Decision, Engine, EngineError, Mode};

fn ok_build() -> BuildOutcome {
    BuildOutcome {
        success: true,
        stdout: String::new(),
        stderr: String::new(),
        duration_ms: 5,
    }
}

fn failed_build() -> BuildOutcome {
    BuildOutcome {
        success: false,
        stdout: "compiling".to_string(),
        stderr: "error: busted".to_string(),
        duration_ms: 9,
    }
}

#[test]
fn refuses_zero_projects() {
    let r = Engine::new(Mode::Sequential, vec![0], 4, 0);
    assert!(matches!(r, Err(EngineError::NoProjects)));
    assert_eq!(EngineError::NoProjects.describe(), "no projects found");
}

#[test]
fn refuses_zero_cores() {
    let r = Engine::new(Mode::Sequential, vec![], 4, 2);
    assert!(matches!(r, Err(EngineError::NoCores)));
    assert_eq!(EngineError::NoCores.describe(), "no cores to stress");
}

#[test]
fn sequential_run_order() {
    let mut e = Engine::new(Mode::Sequential, vec![0, 1], 4, 2).unwrap();

    let j = e.next_job();
    assert_eq!((j.core, j.project, j.units), (Some(0), 0, vec![0, 4]));
    assert_eq!(e.record_clean(true), Decision::Continue);
    assert_eq!(e.record_build(&ok_build()), Decision::Continue);

    let j = e.next_job();
    assert_eq!((j.core, j.project, j.units), (Some(0), 1, vec![0, 4]));
    assert_eq!(e.record_build(&ok_build()), Decision::Continue);

    let j = e.next_job();
    assert_eq!((j.core, j.project, j.units), (Some(1), 0, vec![1, 5]));
    assert_eq!(e.record_build(&ok_build()), Decision::Continue);

    let j = e.next_job();
    assert_eq!((j.core, j.project, j.units), (Some(1), 1, vec![1, 5]));
    assert_eq!(e.record_build(&ok_build()), Decision::RunCompleted);

    // The next run starts over with exactly the first run's first job.
    let j = e.next_job();
    assert_eq!((j.core, j.project, j.units), (Some(0), 0, vec![0, 4]));
    assert!(e.failed_project().is_none());
}

#[test]
fn repeated_runs_are_identical() {
    let mut e = Engine::new(Mode::Sequential, vec![2], 4, 2).unwrap();
    let mut first_run: Vec<(Option<usize>, usize, Vec<usize>)> = Vec::new();
    let mut second_run: Vec<(Option<usize>, usize, Vec<usize>)> = Vec::new();
    for record in [&mut first_run, &mut second_run] {
        loop {
            let j = e.next_job();
            record.push((j.core, j.project, j.units));
            if e.record_build(&ok_build()) == Decision::RunCompleted {
                break;
            }
        }
    }
    assert_eq!(first_run, second_run);
}

#[test]
fn failed_build_aborts_before_next_project() {
    let mut e = Engine::new(Mode::Sequential, vec![0], 4, 2).unwrap();
    let j = e.next_job();
    assert_eq!(j.project, 0);
    assert_eq!(e.record_build(&failed_build()), Decision::FatalBuild);
    // The run is aborted at project 0: project 1 is never reached.
    assert_eq!(e.failed_project(), Some(0));
}

#[test]
fn clean_failure_is_recoverable() {
    let mut e = Engine::new(Mode::Sequential, vec![0], 4, 1).unwrap();
    assert_eq!(e.record_clean(false), Decision::Continue);
    assert!(e.failed_project().is_none());
    let j = e.next_job();
    assert_eq!(j.project, 0);
}

#[test]
fn parallel_mode_pins_to_union() {
    let mut e = Engine::new(Mode::Parallel, vec![0, 1], 4, 2).unwrap();
    let j = e.next_job();
    assert_eq!((j.core, j.project), (None, 0));
    assert_eq!(j.units, vec![0, 4, 1, 5]);
    assert_eq!(e.record_build(&ok_build()), Decision::Continue);
    let j = e.next_job();
    assert_eq!((j.core, j.project), (None, 1));
    assert_eq!(j.units, vec![0, 4, 1, 5]);
    assert_eq!(e.record_build(&ok_build()), Decision::RunCompleted);
}

#[test]
fn failure_message_names_project() {
    assert_eq!(build_failure_message("p1"), "failed to build p1");
}
