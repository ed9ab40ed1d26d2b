use addsubs::batch::{begin, on_event, BatchAction, BatchConfig, BatchEvent, BatchState};
use addsubs::error::ProgramError;

fn config(lang: &str) -> BatchConfig {
    BatchConfig {
        dir: "/videos".to_string(),
        video_token: "mkv".to_string(),
        sub_token: "srt".to_string(),
        lang: lang.to_string(),
    }
}

fn listing(names: &[&str]) -> BatchEvent {
    BatchEvent::Listed(names.iter().map(|s| s.to_string()).collect())
}

#[test]
fn batch_runs_through_its_stages() {
    let c = config("jpn");
    let (state, action) = begin(&c).unwrap();
    assert!(matches!(state, BatchState::Listing));
    match action {
        BatchAction::ListDirectory(d) => assert_eq!(d, "/videos"),
        _ => panic!("expected a listing"),
    }
    let event = listing(&["b.mkv", "a.srt", "a.mkv", "b.srt", "cover.jpg"]);
    assert!(state.expects(&event));
    let (state, action) = on_event(&c, state, event).unwrap();
    match action {
        BatchAction::AskOperator(lines) => {
            assert_eq!(lines, vec!["a.srt\ta.mkv", "b.srt\tb.mkv"])
        }
        _ => panic!("expected a question"),
    }
    let answer = BatchEvent::Answered("Y\n".to_string());
    assert!(state.expects(&answer));
    assert!(!state.expects(&BatchEvent::OutputDirReady));
    let (state, action) = on_event(&c, state, answer).unwrap();
    match action {
        BatchAction::CreateOutputDir(p) => assert_eq!(p, "/videos/output"),
        _ => panic!("expected the output directory"),
    }
    let (state, action) = on_event(&c, state, BatchEvent::OutputDirReady).unwrap();
    assert!(matches!(state, BatchState::Dispatched));
    match action {
        BatchAction::Dispatch(tasks) => {
            assert_eq!(tasks.len(), 2);
            assert_eq!(tasks[0].output_path, "/videos/output/a.mkv");
            assert_eq!(tasks[1].sub, "b.srt");
        }
        _ => panic!("expected the dispatch"),
    }
}

#[test]
fn batch_with_unknown_language_stops_at_once() {
    match begin(&config("xx")) {
        Err(ProgramError::LangError(c)) => assert_eq!(c, "xx"),
        _ => panic!("expected a language error"),
    }
}

#[test]
fn batch_with_unequal_counts_never_asks_for_output_dir() {
    let c = config("eng");
    let (state, _) = begin(&c).unwrap();
    let r = on_event(&c, state, listing(&["a.mkv", "a.srt", "b.mkv"]));
    assert!(matches!(r, Err(ProgramError::MismatchError)));
}

#[test]
fn batch_cancelled_by_operator() {
    let c = config("eng");
    let (state, _) = begin(&c).unwrap();
    let (state, _) = on_event(&c, state, listing(&["a.mkv", "a.srt"])).unwrap();
    let r = on_event(&c, state, BatchEvent::Answered("no\n".to_string()));
    assert!(matches!(r, Err(ProgramError::ExitError)));
}

#[test]
fn batch_state_does_not_skip_ahead() {
    let c = config("und");
    let (state, _) = begin(&c).unwrap();
    assert!(!state.expects(&BatchEvent::Answered(String::new())));
    assert!(!state.expects(&BatchEvent::OutputDirReady));
    assert!(!BatchState::Dispatched.expects(&listing(&[])));
}
