use enigmata::fingerprint::fingerprint;
use enigmata::session::DocumentSession;

#[test]
fn new_session_is_clean_and_untitled() {
    let s = DocumentSession::new();
    assert!(!s.is_dirty());
    assert!(s.path.is_none());
    assert_eq!(s.char_count(), 0);
    assert_eq!(s.cursor_line, 1);
    assert_eq!(s.cursor_column, 1);
}

#[test]
fn load_then_save_reproduces_bytes() {
    let bytes = "hello w\u{f6}rld\nsecond line".as_bytes().to_vec();
    let mut s = DocumentSession::new();
    let lossy = s.load_from_bytes("notes.txt".to_string(), &bytes);
    assert!(!lossy);
    assert_eq!(s.save_bytes(), bytes);
}

#[test]
fn load_leaves_session_clean() {
    let bytes = b"some content".to_vec();
    let mut s = DocumentSession::new();
    s.load_from_bytes("a.txt".to_string(), &bytes);
    assert!(!s.is_dirty());
    assert_eq!(s.path, Some("a.txt".to_string()));
    assert_eq!(s.content, "some content");
}

#[test]
fn editing_back_to_baseline_clears_dirty() {
    let mut s = DocumentSession::new();
    s.load_from_bytes("a.txt".to_string(), &b"abc".to_vec());
    assert!(!s.is_dirty());
    assert!(s.on_edit("abx".to_string()));
    assert!(s.is_dirty());
    assert!(s.on_edit("abxy".to_string()));
    assert!(s.is_dirty());
    assert!(!s.on_edit("abc".to_string()));
    assert!(!s.is_dirty());
}

#[test]
fn lossy_load_is_reported_and_decodes_with_replacement() {
    let bytes = vec![0xff, b'a'];
    let mut s = DocumentSession::new();
    let lossy = s.load_from_bytes("bin.dat".to_string(), &bytes);
    assert!(lossy);
    assert_eq!(s.content, "\u{fffd}a");
    assert!(!s.is_dirty());
}

#[test]
fn fingerprint_exact_values() {
    assert_eq!(fingerprint(""), 0xcbf29ce484222325);
    assert_eq!(fingerprint("a"), 0xaf63dc4c8601ec8c);
    assert_eq!(fingerprint("abc"), 0xe71fa2190541574b);
}

#[test]
fn fingerprint_detects_difference_and_equality() {
    assert_ne!(fingerprint("abc"), fingerprint("abd"));
    assert_eq!(fingerprint("same text"), fingerprint("same text"));
}

#[test]
fn char_count_counts_scalar_values_not_bytes() {
    let bytes = "\u{3b1}\u{3b2}\u{3b3}".as_bytes().to_vec();
    assert_eq!(bytes.len(), 6);
    let mut s = DocumentSession::new();
    s.load_from_bytes("greek.txt".to_string(), &bytes);
    assert_eq!(s.char_count(), 3);
}

#[test]
fn default_file_name_untitled() {
    let s = DocumentSession::new();
    assert_eq!(s.default_file_name(), "Untitled.txt");
}

#[test]
fn default_file_name_takes_last_path_component() {
    let mut s = DocumentSession::new();
    s.set_path("dir/sub/naming.txt".to_string());
    assert_eq!(s.default_file_name(), "naming.txt");
    s.set_path("plain".to_string());
    assert_eq!(s.default_file_name(), "plain");
}

#[test]
fn mark_saved_resets_baseline() {
    let mut s = DocumentSession::new();
    s.on_edit("draft".to_string());
    assert!(s.is_dirty());
    s.mark_saved();
    assert!(!s.is_dirty());
    s.on_edit("draft more".to_string());
    assert!(s.is_dirty());
    assert!(!s.on_edit("draft".to_string()));
}

#[test]
fn set_content_keeps_baseline() {
    let mut s = DocumentSession::new();
    s.load_from_bytes("a.txt".to_string(), &b"base".to_vec());
    s.set_content("other".to_string());
    assert!(s.is_dirty());
    s.set_content("base".to_string());
    assert!(!s.is_dirty());
}

#[test]
fn save_bytes_encodes_utf8() {
    let mut s = DocumentSession::new();
    s.on_edit("caf\u{e9}".to_string());
    assert_eq!(s.save_bytes(), "caf\u{e9}".as_bytes().to_vec());
}
