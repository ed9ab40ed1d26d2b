use addsubs::error::ProgramError;
use addsubs::language::{resolve_language, LanguageCode};
use addsubs::pairing::pair_entries;
use addsubs::task::{build_tasks, output_dir, parse_mux_args, MuxTask};

fn two_pairs() -> addsubs::pairing::PairSet {
    let e: Vec<String> = ["a.mkv", "b.mkv", "a.srt", "b.srt"]
        .iter()
        .map(|s| s.to_string())
        .collect();
    pair_entries(&e, "mkv", "srt").unwrap()
}

#[test]
fn language_table() {
    let table = [
        ("jpn", LanguageCode::Jpn, "Japanese"),
        ("eng", LanguageCode::Eng, "English"),
        ("spa", LanguageCode::Spa, "Spanish"),
        ("und", LanguageCode::Und, "Undetermined"),
    ];
    for (code, lang, name) in table {
        assert_eq!(LanguageCode::from_code(code), Some(lang));
        assert_eq!(lang.code(), code);
        assert_eq!(lang.name(), name);
        assert_eq!(resolve_language(code).unwrap(), lang);
    }
}

#[test]
fn unknown_language_carries_code() {
    for code in ["fra", "JPN", "", "jpn "] {
        match resolve_language(code) {
            Err(ProgramError::LangError(c)) => assert_eq!(c, code),
            other => panic!("unexpected {other:?}"),
        }
    }
}

#[test]
fn unknown_language_builds_no_task() {
    match build_tasks(&two_pairs(), "/videos", "xyz") {
        Err(ProgramError::LangError(c)) => assert_eq!(c, "xyz"),
        other => panic!("unexpected {:?}", other.map(|t| t.len())),
    }
}

#[test]
fn output_paths_keep_file_names() {
    assert_eq!(output_dir("."), "./output");
    assert_eq!(output_dir("/videos"), "/videos/output");
    let tasks = build_tasks(&two_pairs(), "/videos", "eng").unwrap();
    assert_eq!(tasks.len(), 2);
    assert_eq!(tasks[0].output_path, "/videos/output/a.mkv");
    assert_eq!(tasks[1].output_path, "/videos/output/b.mkv");
    assert_eq!(tasks[1].video, "b.mkv");
    assert_eq!(tasks[1].sub, "b.srt");
    assert_eq!(tasks[1].language, LanguageCode::Eng);
}

#[test]
fn mux_invocation_arguments() {
    let tasks = build_tasks(&two_pairs(), ".", "jpn").unwrap();
    let inv = tasks[0].mux_invocation();
    assert_eq!(inv.program, "mkvmerge");
    assert_eq!(
        inv.args,
        vec![
            "-o",
            "./output/a.mkv",
            "a.mkv",
            "--language",
            "0:jpn",
            "--track-name",
            "0:Japanese",
            "a.srt"
        ]
    );
}

#[test]
fn sync_invocation_arguments() {
    let tasks = build_tasks(&two_pairs(), ".", "jpn").unwrap();
    let inv = tasks[1].sync_invocation();
    assert_eq!(inv.program, "ffs");
    assert_eq!(inv.args, vec!["b.mkv", "-i", "b.srt", "-o", "b.srt"]);
}

#[test]
fn mux_arguments_read_back() {
    let t = MuxTask {
        sub: "ep 01.srt".to_string(),
        video: "ep 01.mkv".to_string(),
        output_path: "dir/output/ep 01.mkv".to_string(),
        language: LanguageCode::Spa,
    };
    let f = parse_mux_args(&t.mux_invocation().args).unwrap();
    assert_eq!(f.output_path, t.output_path);
    assert_eq!(f.video, t.video);
    assert_eq!(f.code, "spa");
    assert_eq!(f.track_name, "Spanish");
    assert_eq!(f.sub, t.sub);
}

#[test]
fn malformed_mux_arguments_are_refused() {
    let good: Vec<String> = ["-o", "o", "v", "--language", "0:jpn", "--track-name", "0:J", "s"]
        .iter()
        .map(|s| s.to_string())
        .collect();
    assert!(parse_mux_args(&good).is_some());
    let mut short = good.clone();
    short.pop();
    assert!(parse_mux_args(&short).is_none());
    let mut bad_flag = good.clone();
    bad_flag[0] = "-x".to_string();
    assert!(parse_mux_args(&bad_flag).is_none());
    let mut bad_value = good.clone();
    bad_value[4] = "1:jpn".to_string();
    assert!(parse_mux_args(&bad_value).is_none());
    let mut bare = good.clone();
    bare[6] = "0".to_string();
    assert!(parse_mux_args(&bare).is_none());
}
