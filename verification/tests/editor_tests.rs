use enigmata::editor::{Command, Editor, Effect, Event, Notice, PanelState, QuitDecision};

fn loaded_editor(path: &str, content: &[u8]) -> Editor {
    let mut e = Editor::new();
    let eff = e.notify(Event::FileRead(path.to_string(), Some(content.to_vec())));
    assert!(matches!(eff, Effect::Nothing));
    e
}

#[test]
fn quit_with_clean_session_exits() {
    let mut e = Editor::new();
    let eff = e.dispatch(Command::Quit);
    assert!(matches!(eff, Effect::Exit));
}

#[test]
fn quit_with_dirty_session_asks_then_cancel_changes_nothing() {
    let mut e = Editor::new();
    e.notify(Event::Edited("unsaved words".to_string()));
    assert!(e.session.is_dirty());
    let eff = e.dispatch(Command::Quit);
    assert!(matches!(eff, Effect::AskQuitDecision));
    assert_eq!(e.session.content, "unsaved words");
    let eff = e.notify(Event::QuitDecision(QuitDecision::Cancel));
    assert!(matches!(eff, Effect::Nothing));
    assert_eq!(e.session.content, "unsaved words");
    assert!(e.session.is_dirty());
    assert!(!e.pending_quit);
}

#[test]
fn discard_and_quit_exits_without_writing() {
    let mut e = Editor::new();
    e.notify(Event::Edited("gone".to_string()));
    e.dispatch(Command::Quit);
    let eff = e.notify(Event::QuitDecision(QuitDecision::DiscardAndQuit));
    assert!(matches!(eff, Effect::Exit));
}

#[test]
fn save_then_quit_exits_only_after_successful_save() {
    let mut e = loaded_editor("doc.txt", b"hi");
    e.notify(Event::Edited("hi there".to_string()));
    assert!(e.session.is_dirty());
    let eff = e.dispatch(Command::Quit);
    assert!(matches!(eff, Effect::AskQuitDecision));
    let eff = e.notify(Event::QuitDecision(QuitDecision::SaveThenQuit));
    match eff {
        Effect::WriteFile(path, bytes) => {
            assert_eq!(path, "doc.txt");
            assert_eq!(bytes, b"hi there".to_vec());
        },
        other => panic!("expected a write, got {:?}", other),
    }
    let eff = e.notify(Event::SaveFinished(true));
    assert!(matches!(eff, Effect::Exit));
    assert!(!e.session.is_dirty());
}

#[test]
fn save_then_quit_stays_alive_on_write_failure() {
    let mut e = loaded_editor("doc.txt", b"hi");
    e.notify(Event::Edited("hi there".to_string()));
    e.dispatch(Command::Quit);
    e.notify(Event::QuitDecision(QuitDecision::SaveThenQuit));
    let eff = e.notify(Event::SaveFinished(false));
    assert!(matches!(eff, Effect::Report(Notice::IoError)));
    assert!(e.session.is_dirty());
    assert!(!e.pending_quit);
    assert_eq!(e.session.content, "hi there");
}

#[test]
fn save_on_untitled_session_asks_for_a_path() {
    let mut e = Editor::new();
    e.notify(Event::Edited("fresh".to_string()));
    let eff = e.dispatch(Command::Save);
    match eff {
        Effect::AskSavePath(name) => assert_eq!(name, "Untitled.txt"),
        other => panic!("expected a save dialog, got {:?}", other),
    }
    let eff = e.notify(Event::SavePathChosen(Some("out.txt".to_string())));
    match eff {
        Effect::WriteFile(path, bytes) => {
            assert_eq!(path, "out.txt");
            assert_eq!(bytes, b"fresh".to_vec());
        },
        other => panic!("expected a write, got {:?}", other),
    }
    let eff = e.notify(Event::SaveFinished(true));
    assert!(matches!(eff, Effect::Nothing));
    assert!(!e.session.is_dirty());
}

#[test]
fn cancelled_save_dialog_changes_nothing() {
    let mut e = Editor::new();
    e.notify(Event::Edited("kept".to_string()));
    e.dispatch(Command::SaveAs);
    let eff = e.notify(Event::SavePathChosen(None));
    assert!(matches!(eff, Effect::Nothing));
    assert_eq!(e.session.content, "kept");
    assert!(e.session.path.is_none());
}

#[test]
fn save_with_path_writes_current_content() {
    let mut e = loaded_editor("notes.txt", b"alpha");
    e.notify(Event::Edited("alpha beta".to_string()));
    let eff = e.dispatch(Command::Save);
    match eff {
        Effect::WriteFile(path, bytes) => {
            assert_eq!(path, "notes.txt");
            assert_eq!(bytes, b"alpha beta".to_vec());
        },
        other => panic!("expected a write, got {:?}", other),
    }
}

#[test]
fn replace_all_on_banana() {
    let mut e = Editor::new();
    e.notify(Event::Edited("banana".to_string()));
    e.dispatch(Command::SetCaseSensitive(true));
    e.dispatch(Command::UpdateQuery("a".to_string()));
    assert_eq!(e.query.matches, vec![(1, 2), (3, 4), (5, 6)]);
    let eff = e.dispatch(Command::ReplaceAll("b".to_string()));
    assert!(matches!(eff, Effect::Nothing));
    assert_eq!(e.session.content, "bbnbnb");
    assert_eq!(e.query.matches, Vec::<(usize, usize)>::new());
}

#[test]
fn replace_all_without_matches_is_a_no_op() {
    let mut e = Editor::new();
    e.notify(Event::Edited("banana".to_string()));
    e.dispatch(Command::UpdateQuery("zzz".to_string()));
    let eff = e.dispatch(Command::ReplaceAll("b".to_string()));
    assert!(matches!(eff, Effect::Nothing));
    assert_eq!(e.session.content, "banana");
}

#[test]
fn replace_one_rewrites_the_active_match() {
    let mut e = Editor::new();
    e.notify(Event::Edited("foo bar foo".to_string()));
    e.dispatch(Command::UpdateQuery("foo".to_string()));
    e.dispatch(Command::Next);
    let eff = e.dispatch(Command::ReplaceOne("baz".to_string()));
    assert!(matches!(eff, Effect::Nothing));
    assert_eq!(e.session.content, "baz bar foo");
    assert_eq!(e.query.matches, vec![(8, 11)]);
    assert_eq!(e.query.active_index, None);
}

#[test]
fn replace_one_without_active_match_is_a_no_op() {
    let mut e = Editor::new();
    e.notify(Event::Edited("foo".to_string()));
    e.dispatch(Command::UpdateQuery("foo".to_string()));
    let eff = e.dispatch(Command::ReplaceOne("baz".to_string()));
    assert!(matches!(eff, Effect::Nothing));
    assert_eq!(e.session.content, "foo");
}

#[test]
fn find_toggles_the_search_panel() {
    let mut e = Editor::new();
    assert_eq!(e.panel, PanelState::Hidden);
    let eff = e.dispatch(Command::Find);
    assert!(matches!(eff, Effect::FocusSearch));
    assert_eq!(e.panel, PanelState::Revealed);
    let eff = e.dispatch(Command::Find);
    assert!(matches!(eff, Effect::Nothing));
    assert_eq!(e.panel, PanelState::Hidden);
}

#[test]
fn open_flow_reads_chosen_file() {
    let mut e = Editor::new();
    let eff = e.dispatch(Command::Open);
    assert!(matches!(eff, Effect::AskOpenPath));
    let eff = e.notify(Event::OpenPathChosen(Some("x.txt".to_string())));
    match eff {
        Effect::ReadFile(path) => assert_eq!(path, "x.txt"),
        other => panic!("expected a read, got {:?}", other),
    }
    let eff = e.notify(Event::OpenPathChosen(None));
    assert!(matches!(eff, Effect::Nothing));
}

#[test]
fn failed_read_is_reported_and_state_kept() {
    let mut e = Editor::new();
    e.notify(Event::Edited("still here".to_string()));
    let eff = e.notify(Event::FileRead("gone.txt".to_string(), None));
    assert!(matches!(eff, Effect::Report(Notice::IoError)));
    assert_eq!(e.session.content, "still here");
    assert!(e.session.path.is_none());
}

#[test]
fn lossy_load_reports_a_decode_warning() {
    let mut e = Editor::new();
    let eff = e.notify(Event::FileRead("bin.dat".to_string(), Some(vec![0xff])));
    assert!(matches!(eff, Effect::Report(Notice::DecodeWarning)));
    assert_eq!(e.session.content, "\u{fffd}");
    assert!(!e.session.is_dirty());
}

#[test]
fn invalid_regex_is_reported_inline() {
    let mut e = Editor::new();
    e.notify(Event::Edited("(text)".to_string()));
    e.dispatch(Command::SetRegex(true));
    let eff = e.dispatch(Command::UpdateQuery("(".to_string()));
    assert!(matches!(eff, Effect::Report(Notice::PatternError)));
    assert!(e.query.pattern_error);
    assert_eq!(e.query.match_count(), 0);
    let eff = e.dispatch(Command::UpdateQuery("\\(".to_string()));
    assert!(matches!(eff, Effect::Nothing));
    assert_eq!(e.query.matches, vec![(0, 1)]);
}

#[test]
fn edits_recompute_the_match_set() {
    let mut e = Editor::new();
    e.notify(Event::Edited("aa".to_string()));
    e.dispatch(Command::UpdateQuery("a".to_string()));
    assert_eq!(e.query.match_count(), 2);
    e.notify(Event::Edited("aaaa".to_string()));
    assert_eq!(e.query.match_count(), 4);
    e.notify(Event::Edited("bbbb".to_string()));
    assert_eq!(e.query.match_count(), 0);
}

#[test]
fn flag_commands_update_the_flags() {
    let mut e = Editor::new();
    e.notify(Event::Edited("Foo foo".to_string()));
    e.dispatch(Command::UpdateQuery("foo".to_string()));
    assert_eq!(e.query.match_count(), 2);
    e.dispatch(Command::SetCaseSensitive(true));
    assert_eq!(e.query.matches, vec![(4, 7)]);
    e.dispatch(Command::SetWholeWord(true));
    assert_eq!(e.query.matches, vec![(4, 7)]);
    assert!(e.query.flags.case_sensitive);
    assert!(e.query.flags.whole_word);
    assert!(!e.query.flags.regex_enabled);
}

#[test]
fn cursor_and_language_events_update_the_session() {
    let mut e = Editor::new();
    e.notify(Event::CursorMoved(3, 7));
    assert_eq!(e.session.cursor_line, 3);
    assert_eq!(e.session.cursor_column, 7);
    let eff = e.notify(Event::LanguageResolved(Some("rust".to_string())));
    assert!(matches!(eff, Effect::Nothing));
    assert_eq!(e.session.language_id, Some("rust".to_string()));
    e.notify(Event::LanguageResolved(None));
    assert_eq!(e.session.language_id, None);
}

#[test]
fn zoom_commands_are_forwarded_as_effects() {
    let mut e = Editor::new();
    assert!(matches!(e.dispatch(Command::ZoomIn), Effect::GrowZoom));
    assert!(matches!(e.dispatch(Command::ZoomOut), Effect::ShrinkZoom));
}

#[test]
fn load_save_round_trip_through_the_editor() {
    let original = "line one\nline two \u{263a}\n".as_bytes().to_vec();
    let mut e = Editor::new();
    e.notify(Event::FileRead("doc.txt".to_string(), Some(original.clone())));
    let eff = e.dispatch(Command::Save);
    match eff {
        Effect::WriteFile(path, bytes) => {
            assert_eq!(path, "doc.txt");
            assert_eq!(bytes, original);
        },
        other => panic!("expected a write, got {:?}", other),
    }
}
