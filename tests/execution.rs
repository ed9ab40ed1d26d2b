use addsubs::error::ProgramError;
use addsubs::execution::{advance, start, ExitReport, Phase, ResultSlots, Step};
use addsubs::language::LanguageCode;
use addsubs::task::MuxTask;

fn task(name: &str) -> MuxTask {
    MuxTask {
        sub: format!("{name}.srt"),
        video: format!("{name}.mkv"),
        output_path: format!("./output/{name}.mkv"),
        language: LanguageCode::Jpn,
    }
}

fn exited(code: i32, out: &[u8]) -> Result<ExitReport, ProgramError> {
    Ok(ExitReport { code: Some(code), stdout: out.to_vec() })
}

#[test]
fn start_without_sync_runs_mux() {
    match start(&task("a"), false) {
        Step::Run(Phase::Mux, inv) => assert_eq!(inv.program, "mkvmerge"),
        _ => panic!("expected the multiplexing step"),
    }
}

#[test]
fn start_with_sync_runs_sync_first() {
    match start(&task("a"), true) {
        Step::Run(Phase::Sync, inv) => {
            assert_eq!(inv.program, "ffs");
            assert_eq!(inv.args, vec!["a.mkv", "-i", "a.srt", "-o", "a.srt"]);
        }
        _ => panic!("expected the synchronisation step"),
    }
}

#[test]
fn sync_success_leads_to_mux() {
    match advance(&task("a"), Phase::Sync, exited(0, b"ignored")) {
        Step::Run(Phase::Mux, inv) => assert_eq!(inv.args[2], "a.mkv"),
        _ => panic!("expected the multiplexing step"),
    }
}

#[test]
fn sync_failure_ends_task() {
    match advance(&task("a"), Phase::Sync, exited(3, b"")) {
        Step::Finish(Err(ProgramError::ToolError { program, code })) => {
            assert_eq!(program, "ffs");
            assert_eq!(code, Some(3));
        }
        _ => panic!("expected a tool failure"),
    }
    let spawn = Err(ProgramError::InputError(std::io::Error::new(
        std::io::ErrorKind::NotFound,
        "ffs not found",
    )));
    assert!(matches!(
        advance(&task("a"), Phase::Sync, spawn),
        Step::Finish(Err(ProgramError::InputError(_)))
    ));
}

#[test]
fn mux_result_is_its_stdout() {
    match advance(&task("a"), Phase::Mux, exited(0, b"done")) {
        Step::Finish(Ok(out)) => assert_eq!(out, b"done".to_vec()),
        _ => panic!("expected success"),
    }
    match advance(&task("a"), Phase::Mux, Ok(ExitReport { code: None, stdout: vec![] })) {
        Step::Finish(Err(ProgramError::ToolError { program, code })) => {
            assert_eq!(program, "mkvmerge");
            assert_eq!(code, None);
        }
        _ => panic!("expected a tool failure"),
    }
}

#[test]
fn one_failure_leaves_siblings_alone() {
    let tasks = [task("a"), task("b"), task("c")];
    let mut slots = ResultSlots::new(tasks.len());
    assert_eq!(slots.len(), 3);
    assert!(!slots.is_complete());
    // units end out of order: b fails, c and a succeed
    for (i, outcome) in [(1usize, exited(2, b"")), (2, exited(0, b"c out")), (0, exited(0, b"a out"))] {
        match advance(&tasks[i], Phase::Mux, outcome) {
            Step::Finish(r) => slots.fill(i, r),
            _ => panic!("a multiplexing step ends the unit"),
        }
    }
    assert!(slots.is_complete());
    let results = slots.into_results();
    assert_eq!(results.len(), 3);
    assert_eq!(results[0].as_ref().unwrap(), &b"a out".to_vec());
    assert!(matches!(
        results[1],
        Err(ProgramError::ToolError { code: Some(2), .. })
    ));
    assert_eq!(results[2].as_ref().unwrap(), &b"c out".to_vec());
}

#[test]
fn empty_batch_is_complete() {
    let slots = ResultSlots::new(0);
    assert!(slots.is_complete());
    assert!(slots.into_results().is_empty());
}

#[test]
fn io_error_becomes_input_error() {
    let e = ProgramError::from(std::io::Error::new(std::io::ErrorKind::PermissionDenied, "denied"));
    match e {
        ProgramError::InputError(inner) => {
            assert_eq!(inner.kind(), std::io::ErrorKind::PermissionDenied)
        }
        other => panic!("unexpected {other:?}"),
    }
}
