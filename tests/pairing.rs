use addsubs::confirm::{confirm, is_approved, preview_lines};
use addsubs::error::ProgramError;
use addsubs::pairing::{classify, pair_entries, Classification};
use addsubs::text::{contains, name_le, same_text};

fn entries(names: &[&str]) -> Vec<String> {
    names.iter().map(|s| s.to_string()).collect()
}

#[test]
fn pairs_sorted_lexicographically() {
    let e = entries(&["b.srt", "a.mkv", "b.mkv", "a.srt"]);
    let p = pair_entries(&e, "mkv", "srt").unwrap();
    assert_eq!(
        p.pairs(),
        vec![
            ("a.srt".to_string(), "a.mkv".to_string()),
            ("b.srt".to_string(), "b.mkv".to_string())
        ]
    );
    assert_eq!(p.len(), 2);
    assert_eq!(p.video(0), "a.mkv");
    assert_eq!(p.sub(1), "b.srt");
}

#[test]
fn missing_subtitle_is_mismatch() {
    let e = entries(&["a.mkv", "a.srt", "b.mkv"]);
    assert!(matches!(
        pair_entries(&e, "mkv", "srt"),
        Err(ProgramError::MismatchError)
    ));
}

#[test]
fn extra_subtitle_is_mismatch() {
    let e = entries(&["a.mkv", "a.srt", "b.srt"]);
    assert!(matches!(
        pair_entries(&e, "mkv", "srt"),
        Err(ProgramError::MismatchError)
    ));
}

#[test]
fn pairing_ignores_listing_order() {
    let e1 = entries(&["c.mkv", "a.srt", "notes.txt", "b.mkv", "c.srt", "a.mkv", "b.srt"]);
    let e2 = entries(&["a.mkv", "b.srt", "b.mkv", "c.srt", "notes.txt", "a.srt", "c.mkv"]);
    let p1 = pair_entries(&e1, "mkv", "srt").unwrap();
    let p2 = pair_entries(&e2, "mkv", "srt").unwrap();
    assert_eq!(p1.pairs(), p2.pairs());
    assert_eq!(p1.pairs()[2], ("c.srt".to_string(), "c.mkv".to_string()));
}

#[test]
fn pairing_is_positional_not_by_stem() {
    let e = entries(&["x.mkv", "y.mkv", "b.srt", "a.srt"]);
    let p = pair_entries(&e, "mkv", "srt").unwrap();
    assert_eq!(
        p.pairs(),
        vec![
            ("a.srt".to_string(), "x.mkv".to_string()),
            ("b.srt".to_string(), "y.mkv".to_string())
        ]
    );
}

#[test]
fn empty_directory_pairs_nothing() {
    let p = pair_entries(&Vec::new(), "mkv", "srt").unwrap();
    assert_eq!(p.len(), 0);
    assert!(p.pairs().is_empty());
}

#[test]
fn sort_is_by_code_point() {
    let e = entries(&["b.mkv", "B.mkv", "a.mkv", "a.srt", "b.srt", "c.srt"]);
    let p = pair_entries(&e, "mkv", "srt").unwrap();
    assert_eq!(p.video(0), "B.mkv");
    assert_eq!(p.video(1), "a.mkv");
    assert_eq!(p.video(2), "b.mkv");
}

#[test]
fn name_matching_both_tokens_is_video() {
    assert_eq!(classify("show.srt.mkv", "mkv", "srt"), Classification::Video);
    assert_eq!(classify("show.mkv.srt", "mkv", "srt"), Classification::Video);
    assert_eq!(classify("show.srt", "mkv", "srt"), Classification::Subtitle);
    assert_eq!(classify("show.txt", "mkv", "srt"), Classification::Ignored);
}

#[test]
fn classification_is_by_substring() {
    assert_eq!(classify("mkvnotes", "mkv", "srt"), Classification::Video);
    assert_eq!(classify("a.MKV", "mkv", "srt"), Classification::Ignored);
}

#[test]
fn text_helpers() {
    assert!(contains("abcabd", "abd"));
    assert!(!contains("abcab", "abd"));
    assert!(contains("abc", ""));
    assert!(!contains("", "a"));
    assert!(same_text("jpn", "jpn"));
    assert!(!same_text("jpn", "jp"));
    assert!(name_le("a", "ab"));
    assert!(!name_le("ab", "a"));
    assert!(name_le("ab", "ab"));
    assert!(name_le("Z", "a"));
    assert!(name_le("é", "ë"));
}

#[test]
fn answers_that_approve() {
    for a in ["", "y", "Y", "yes", "\n", "Y\n", "garbled"] {
        assert!(is_approved(a), "{a:?}");
        assert!(confirm(a).is_ok());
    }
}

#[test]
fn answers_that_cancel() {
    for a in ["n", "no", "N\nn", "yn", "nope\n"] {
        assert!(!is_approved(a), "{a:?}");
        assert!(matches!(confirm(a), Err(ProgramError::ExitError)));
    }
    assert!(is_approved("N"));
}

#[test]
fn preview_lists_sub_then_video() {
    let e = entries(&["a.mkv", "b.mkv", "a.srt", "b.srt"]);
    let p = pair_entries(&e, "mkv", "srt").unwrap();
    assert_eq!(
        preview_lines(&p),
        vec!["a.srt\ta.mkv".to_string(), "b.srt\tb.mkv".to_string()]
    );
}
