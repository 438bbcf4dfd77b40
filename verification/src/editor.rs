//! The editor shell's control core: one state machine that takes each
//! resolved command or collaborator event and produces the next state plus
//! a single effect for the hosting shell to perform.
//!
//! The shell owns everything the core cannot: dialogs, file reads and
//! writes, process exit. The core decides; the shell performs the effect
//! and reports the outcome back as an event, strictly in arrival order.
//! Quitting is a returned `Exit` effect, never a process exit from here,
//! so the core stays testable.

use vstd::prelude::*;
use vstd::utf8::{decode_utf8, encode_utf8, valid_utf8};

use crate::codec::lossy_decoded;
use crate::fingerprint::fingerprint_of;
use crate::matcher::matches_wf;
use crate::replace::{all_replaced, replace_all, splice, spliced};
use crate::search::{
    computed_matches, next_index, pattern_error_spec, previous_index, SearchFlags, SearchQuery,
};
use crate::session::{file_name_of, DocumentSession};

verus! {

/// The command surface exposed to the UI layer, after chord or menu
/// resolution.
#[derive(Debug)]
pub enum Command {
    /// Ask for a file to open.
    Open,
    /// Save to the current path; untitled sessions fall through to save-as.
    Save,
    /// Ask for a path and save there.
    SaveAs,
    /// Request to quit; unsaved changes demand a decision first.
    Quit,
    /// Toggle the search panel.
    Find,
    /// Grow the view's zoom level (a UI-layer effect).
    ZoomIn,
    /// Shrink the view's zoom level (a UI-layer effect).
    ZoomOut,
    /// Replace the search pattern.
    UpdateQuery(String),
    /// Toggle regular-expression matching.
    SetRegex(bool),
    /// Toggle case-sensitive matching.
    SetCaseSensitive(bool),
    /// Toggle whole-word matching.
    SetWholeWord(bool),
    /// Move the match cursor forward, wrapping.
    Next,
    /// Move the match cursor backward, wrapping.
    Previous,
    /// Replace the active match with the given text.
    ReplaceOne(String),
    /// Replace every current match with the given text.
    ReplaceAll(String),
}

/// A decision from the quit-confirmation collaborator.
#[derive(Clone, Copy, PartialEq, Eq, Structural, Debug)]
pub enum QuitDecision {
    /// Save first; quit only if the save succeeds.
    SaveThenQuit,
    /// Quit without writing.
    DiscardAndQuit,
    /// Stay running; nothing changes.
    Cancel,
}

/// An asynchronous result or notification delivered back to the core.
#[derive(Debug)]
pub enum Event {
    /// The editing surface reports the buffer's new content.
    Edited(String),
    /// The editing surface reports the caret position (1-based).
    CursorMoved(usize, usize),
    /// The file picker returned for an open request; `None` is "cancelled".
    OpenPathChosen(Option<String>),
    /// A requested read finished; `None` is a read failure.
    FileRead(String, Option<Vec<u8>>),
    /// The file picker returned for a save request; `None` is "cancelled".
    SavePathChosen(Option<String>),
    /// A requested write finished, successfully or not.
    SaveFinished(bool),
    /// The quit-confirmation collaborator decided.
    QuitDecision(QuitDecision),
    /// The language provider guessed a highlighting language, if any.
    LanguageResolved(Option<String>),
}

/// A recoverable condition surfaced to the user through the shell.
#[derive(Clone, Copy, PartialEq, Eq, Structural, Debug)]
pub enum Notice {
    /// A file could not be read or written; state is unchanged.
    IoError,
    /// Loaded bytes were not valid UTF-8 and were decoded lossily.
    DecodeWarning,
    /// The pattern is not a valid regular expression; the match set is
    /// empty until it is corrected.
    PatternError,
}

/// The one thing the shell is asked to do in response to an input.
#[derive(Debug)]
pub enum Effect {
    /// Nothing to do.
    Nothing,
    /// Show the open dialog; answer with `OpenPathChosen`.
    AskOpenPath,
    /// Read this file; answer with `FileRead`.
    ReadFile(String),
    /// Show the save dialog with this suggested name; answer with
    /// `SavePathChosen`.
    AskSavePath(String),
    /// Write these bytes to this path; answer with `SaveFinished`.
    WriteFile(String, Vec<u8>),
    /// Ask the quit-confirmation collaborator; answer with `QuitDecision`.
    AskQuitDecision,
    /// Terminate the session.
    Exit,
    /// Reveal happened: give the pattern input the focus.
    FocusSearch,
    /// Surface a recoverable condition to the user.
    Report(Notice),
    /// Grow the zoom level.
    GrowZoom,
    /// Shrink the zoom level.
    ShrinkZoom,
}

/// The search panel's visibility.
#[derive(Clone, Copy, PartialEq, Eq, Structural, Debug)]
pub enum PanelState {
    /// The panel is not shown.
    Hidden,
    /// The panel is shown and the pattern input has focus.
    Revealed,
}

/// The editor core: the document session, the search query, the search
/// panel state, and whether a confirmed quit is waiting for a save.
pub struct Editor {
    /// The single document.
    pub session: DocumentSession,
    /// The search query and its match set.
    pub query: SearchQuery,
    /// The search panel's visibility.
    pub panel: PanelState,
    /// A save-then-quit is in flight: exit when the save succeeds.
    pub pending_quit: bool,
}

/// The name to suggest in a save dialog.
pub open spec fn suggested_name(e: Editor) -> Seq<char> {
    match e.session.path {
        Some(p) => file_name_of(p@),
        None => "Untitled.txt"@,
    }
}

/// The effect that starts a save: write to the current path, or ask for a
/// path when the session is untitled.
pub open spec fn save_requested(pre: Editor, eff: Effect) -> bool {
    match pre.session.path {
        Some(p) => eff matches Effect::WriteFile(q, b) && q@ == p@ && b@ == encode_utf8(
            pre.session.content@,
        ),
        None => eff matches Effect::AskSavePath(nm) && nm@ == suggested_name(pre),
    }
}

/// The effect that reports the query state after a recomputation: an
/// invalid regular expression is surfaced, anything else is quiet.
pub open spec fn pattern_error_reported(post: Editor, eff: Effect) -> bool {
    if post.query.pattern_error {
        eff matches Effect::Report(n) && n == Notice::PatternError
    } else {
        eff is Nothing
    }
}

impl Editor {
    /// The core's invariant: the match set is the one computed from the
    /// current pattern, flags and buffer — never stale — and the
    /// navigation cursor is in range.
    pub open spec fn wf(self) -> bool {
        &&& self.query.matches@ == computed_matches(
            self.query.pattern@,
            self.query.flags,
            self.session.content@,
        )
        &&& self.query.pattern_error == pattern_error_spec(self.query.pattern@, self.query.flags)
        &&& matches_wf(self.query.matches@, self.session.content@.len() as int)
        &&& self.query.nav_wf()
    }

    /// A fresh session: empty untitled buffer, clean, inactive search,
    /// hidden panel.
    pub fn new() -> (e: Self)
        ensures
            e.wf(),
            e.session.content@ == Seq::<char>::empty(),
            e.session.path is None,
            !e.session.dirty_spec(),
            e.query.pattern@ == Seq::<char>::empty(),
            e.query.active_index is None,
            e.panel == PanelState::Hidden,
            !e.pending_quit,
    {
        let e = Editor {
            session: DocumentSession::new(),
            query: SearchQuery::new(),
            panel: PanelState::Hidden,
            pending_quit: false,
        };
        e
    }

    /// Recomputes the query against the current buffer and reports an
    /// invalid pattern.
    fn refresh_query(&mut self) -> (eff: Effect)
        ensures
            final(self).session == old(self).session,
            final(self).panel == old(self).panel,
            final(self).pending_quit == old(self).pending_quit,
            final(self).query.pattern == old(self).query.pattern,
            final(self).query.flags == old(self).query.flags,
            final(self).query.active_index is None,
            final(self).wf(),
            pattern_error_reported(*final(self), eff),
    {
        self.query.recompute(self.session.content.as_str());
        if self.query.pattern_error {
            Effect::Report(Notice::PatternError)
        } else {
            Effect::Nothing
        }
    }

    /// The effect that starts a save for the current session.
    fn save_request(&self) -> (eff: Effect)
        ensures
            save_requested(*self, eff),
    {
        match &self.session.path {
            Some(p) => {
                let bytes = self.session.save_bytes();
                Effect::WriteFile(p.clone(), bytes)
            },
            None => Effect::AskSavePath(self.session.default_file_name()),
        }
    }

    /// Dispatches one resolved command against the current state and
    /// returns the effect the shell must perform.
    pub fn dispatch(&mut self, cmd: Command) -> (eff: Effect)
        requires
            old(self).wf(),
        ensures
            final(self).wf(),
            match cmd {
                Command::Open => *final(self) == *old(self) && eff is AskOpenPath,
                Command::Save => *final(self) == *old(self) && save_requested(*old(self), eff),
                Command::SaveAs => *final(self) == *old(self) && (eff matches Effect::AskSavePath(
                    nm,
                ) && nm@ == suggested_name(*old(self))),
                Command::Quit => *final(self) == *old(self) && (if old(
                    self,
                ).session.dirty_spec() {
                    eff is AskQuitDecision
                } else {
                    eff is Exit
                }),
                Command::Find => {
                    &&& final(self).session == old(self).session
                    &&& final(self).query == old(self).query
                    &&& final(self).pending_quit == old(self).pending_quit
                    &&& match old(self).panel {
                        PanelState::Hidden => final(self).panel == PanelState::Revealed
                            && eff is FocusSearch,
                        PanelState::Revealed => final(self).panel == PanelState::Hidden
                            && eff is Nothing,
                    }
                },
                Command::ZoomIn => *final(self) == *old(self) && eff is GrowZoom,
                Command::ZoomOut => *final(self) == *old(self) && eff is ShrinkZoom,
                Command::UpdateQuery(s) => {
                    &&& final(self).session == old(self).session
                    &&& final(self).panel == old(self).panel
                    &&& final(self).pending_quit == old(self).pending_quit
                    &&& final(self).query.pattern == s
                    &&& final(self).query.flags == old(self).query.flags
                    &&& final(self).query.active_index is None
                    &&& pattern_error_reported(*final(self), eff)
                },
                Command::SetRegex(b) => {
                    &&& final(self).session == old(self).session
                    &&& final(self).panel == old(self).panel
                    &&& final(self).pending_quit == old(self).pending_quit
                    &&& final(self).query.pattern == old(self).query.pattern
                    &&& final(self).query.flags == (SearchFlags {
                        regex_enabled: b,
                        ..old(self).query.flags
                    })
                    &&& final(self).query.active_index is None
                    &&& pattern_error_reported(*final(self), eff)
                },
                Command::SetCaseSensitive(b) => {
                    &&& final(self).session == old(self).session
                    &&& final(self).panel == old(self).panel
                    &&& final(self).pending_quit == old(self).pending_quit
                    &&& final(self).query.pattern == old(self).query.pattern
                    &&& final(self).query.flags == (SearchFlags {
                        case_sensitive: b,
                        ..old(self).query.flags
                    })
                    &&& final(self).query.active_index is None
                    &&& pattern_error_reported(*final(self), eff)
                },
                Command::SetWholeWord(b) => {
                    &&& final(self).session == old(self).session
                    &&& final(self).panel == old(self).panel
                    &&& final(self).pending_quit == old(self).pending_quit
                    &&& final(self).query.pattern == old(self).query.pattern
                    &&& final(self).query.flags == (SearchFlags {
                        whole_word: b,
                        ..old(self).query.flags
                    })
                    &&& final(self).query.active_index is None
                    &&& pattern_error_reported(*final(self), eff)
                },
                Command::Next => {
                    &&& final(self).session == old(self).session
                    &&& final(self).panel == old(self).panel
                    &&& final(self).pending_quit == old(self).pending_quit
                    &&& final(self).query.pattern == old(self).query.pattern
                    &&& final(self).query.flags == old(self).query.flags
                    &&& final(self).query.matches == old(self).query.matches
                    &&& final(self).query.active_index == next_index(
                        old(self).query.active_index,
                        old(self).query.matches@.len(),
                    )
                    &&& eff is Nothing
                },
                Command::Previous => {
                    &&& final(self).session == old(self).session
                    &&& final(self).panel == old(self).panel
                    &&& final(self).pending_quit == old(self).pending_quit
                    &&& final(self).query.pattern == old(self).query.pattern
                    &&& final(self).query.flags == old(self).query.flags
                    &&& final(self).query.matches == old(self).query.matches
                    &&& final(self).query.active_index == previous_index(
                        old(self).query.active_index,
                        old(self).query.matches@.len(),
                    )
                    &&& eff is Nothing
                },
                Command::ReplaceOne(rep) => match old(self).query.active_index {
                    None => *final(self) == *old(self) && eff is Nothing,
                    Some(k) => {
                        &&& final(self).session.content@ == spliced(
                            old(self).session.content@,
                            old(self).query.matches@[k as int].0 as int,
                            old(self).query.matches@[k as int].1 as int,
                            rep@,
                        )
                        &&& final(self).session.baseline == old(self).session.baseline
                        &&& final(self).session.path == old(self).session.path
                        &&& final(self).query.pattern == old(self).query.pattern
                        &&& final(self).query.flags == old(self).query.flags
                        &&& final(self).query.active_index is None
                        &&& final(self).panel == old(self).panel
                        &&& final(self).pending_quit == old(self).pending_quit
                        &&& eff is Nothing
                    },
                },
                Command::ReplaceAll(rep) => if old(self).query.matches@.len() == 0 {
                    *final(self) == *old(self) && eff is Nothing
                } else {
                    &&& final(self).session.content@ == all_replaced(
                        old(self).session.content@,
                        old(self).query.matches@,
                        rep@,
                    )
                    &&& final(self).session.baseline == old(self).session.baseline
                    &&& final(self).session.path == old(self).session.path
                    &&& final(self).query.pattern == old(self).query.pattern
                    &&& final(self).query.flags == old(self).query.flags
                    &&& final(self).query.active_index is None
                    &&& final(self).panel == old(self).panel
                    &&& final(self).pending_quit == old(self).pending_quit
                    &&& eff is Nothing
                },
            },
    {
        match cmd {
            Command::Open => Effect::AskOpenPath,
            Command::Save => self.save_request(),
            Command::SaveAs => Effect::AskSavePath(self.session.default_file_name()),
            Command::Quit => {
                if self.session.is_dirty() {
                    Effect::AskQuitDecision
                } else {
                    Effect::Exit
                }
            },
            Command::Find => {
                match self.panel {
                    PanelState::Hidden => {
                        self.panel = PanelState::Revealed;
                        Effect::FocusSearch
                    },
                    PanelState::Revealed => {
                        self.panel = PanelState::Hidden;
                        Effect::Nothing
                    },
                }
            },
            Command::ZoomIn => Effect::GrowZoom,
            Command::ZoomOut => Effect::ShrinkZoom,
            Command::UpdateQuery(s) => {
                self.query.set_pattern(s);
                self.refresh_query()
            },
            Command::SetRegex(b) => {
                let flags = SearchFlags { regex_enabled: b, ..self.query.flags };
                self.query.set_flags(flags);
                self.refresh_query()
            },
            Command::SetCaseSensitive(b) => {
                let flags = SearchFlags { case_sensitive: b, ..self.query.flags };
                self.query.set_flags(flags);
                self.refresh_query()
            },
            Command::SetWholeWord(b) => {
                let flags = SearchFlags { whole_word: b, ..self.query.flags };
                self.query.set_flags(flags);
                self.refresh_query()
            },
            Command::Next => {
                self.query.next();
                Effect::Nothing
            },
            Command::Previous => {
                self.query.previous();
                Effect::Nothing
            },
            Command::ReplaceOne(rep) => {
                match self.query.active_match() {
                    None => Effect::Nothing,
                    Some((s, e)) => {
                        let new_content = splice(self.session.content.as_str(), s, e, rep.as_str());
                        self.session.on_edit(new_content);
                        self.refresh_query();
                        Effect::Nothing
                    },
                }
            },
            Command::ReplaceAll(rep) => {
                if self.query.match_count() == 0 {
                    Effect::Nothing
                } else {
                    let new_content = replace_all(
                        self.session.content.as_str(),
                        &self.query.matches,
                        rep.as_str(),
                    );
                    self.session.on_edit(new_content);
                    self.refresh_query();
                    Effect::Nothing
                }
            },
        }
    }

    /// Applies one collaborator event against the current state and
    /// returns the effect the shell must perform.
    pub fn notify(&mut self, ev: Event) -> (eff: Effect)
        requires
            old(self).wf(),
        ensures
            final(self).wf(),
            match ev {
                Event::Edited(text) => {
                    &&& final(self).session.content@ == text@
                    &&& final(self).session.baseline == old(self).session.baseline
                    &&& final(self).session.path == old(self).session.path
                    &&& final(self).session.dirty_spec() == (fingerprint_of(text@) != old(
                        self,
                    ).session.baseline)
                    &&& final(self).query.pattern == old(self).query.pattern
                    &&& final(self).query.flags == old(self).query.flags
                    &&& final(self).panel == old(self).panel
                    &&& final(self).pending_quit == old(self).pending_quit
                    &&& eff is Nothing
                },
                Event::CursorMoved(line, column) => {
                    &&& final(self).session.cursor_line == line
                    &&& final(self).session.cursor_column == column
                    &&& final(self).session.content == old(self).session.content
                    &&& final(self).session.path == old(self).session.path
                    &&& final(self).session.baseline == old(self).session.baseline
                    &&& final(self).query == old(self).query
                    &&& final(self).panel == old(self).panel
                    &&& final(self).pending_quit == old(self).pending_quit
                    &&& eff is Nothing
                },
                Event::OpenPathChosen(choice) => *final(self) == *old(self) && match choice {
                    Some(p) => eff matches Effect::ReadFile(q) && q == p,
                    None => eff is Nothing,
                },
                Event::FileRead(path, data) => match data {
                    None => *final(self) == *old(self) && (eff matches Effect::Report(n) && n
                        == Notice::IoError),
                    Some(bytes) => {
                        &&& final(self).session.content@ == lossy_decoded(bytes@)
                        &&& valid_utf8(bytes@) ==> final(self).session.content@ == decode_utf8(
                            bytes@,
                        )
                        &&& final(self).session.path == Some(path)
                        &&& !final(self).session.dirty_spec()
                        &&& final(self).query.pattern == old(self).query.pattern
                        &&& final(self).query.flags == old(self).query.flags
                        &&& final(self).query.active_index is None
                        &&& final(self).panel == old(self).panel
                        &&& final(self).pending_quit == old(self).pending_quit
                        &&& if valid_utf8(bytes@) {
                            pattern_error_reported(*final(self), eff)
                        } else {
                            eff matches Effect::Report(n) && n == Notice::DecodeWarning
                        }
                    },
                },
                Event::SavePathChosen(choice) => match choice {
                    None => {
                        &&& final(self).session == old(self).session
                        &&& final(self).query == old(self).query
                        &&& final(self).panel == old(self).panel
                        &&& !final(self).pending_quit
                        &&& eff is Nothing
                    },
                    Some(p) => {
                        &&& final(self).session.path == Some(p)
                        &&& final(self).session.content == old(self).session.content
                        &&& final(self).session.baseline == old(self).session.baseline
                        &&& final(self).query == old(self).query
                        &&& final(self).panel == old(self).panel
                        &&& final(self).pending_quit == old(self).pending_quit
                        &&& eff matches Effect::WriteFile(q, b) && q@ == p@ && b@ == encode_utf8(
                            old(self).session.content@,
                        )
                    },
                },
                Event::SaveFinished(ok) => if ok {
                    &&& final(self).session.content == old(self).session.content
                    &&& final(self).session.path == old(self).session.path
                    &&& final(self).session.baseline == fingerprint_of(old(self).session.content@)
                    &&& !final(self).session.dirty_spec()
                    &&& final(self).query == old(self).query
                    &&& final(self).panel == old(self).panel
                    &&& !final(self).pending_quit
                    &&& if old(self).pending_quit {
                        eff is Exit
                    } else {
                        eff is Nothing
                    }
                } else {
                    &&& final(self).session == old(self).session
                    &&& final(self).query == old(self).query
                    &&& final(self).panel == old(self).panel
                    &&& !final(self).pending_quit
                    &&& eff matches Effect::Report(n) && n == Notice::IoError
                },
                Event::QuitDecision(d) => match d {
                    QuitDecision::Cancel => {
                        &&& final(self).session == old(self).session
                        &&& final(self).query == old(self).query
                        &&& final(self).panel == old(self).panel
                        &&& !final(self).pending_quit
                        &&& eff is Nothing
                    },
                    QuitDecision::DiscardAndQuit => *final(self) == *old(self) && eff is Exit,
                    QuitDecision::SaveThenQuit => {
                        &&& final(self).session == old(self).session
                        &&& final(self).query == old(self).query
                        &&& final(self).panel == old(self).panel
                        &&& final(self).pending_quit
                        &&& save_requested(*old(self), eff)
                    },
                },
                Event::LanguageResolved(lang) => {
                    &&& final(self).session.language_id == lang
                    &&& final(self).session.content == old(self).session.content
                    &&& final(self).session.path == old(self).session.path
                    &&& final(self).session.baseline == old(self).session.baseline
                    &&& final(self).query == old(self).query
                    &&& final(self).panel == old(self).panel
                    &&& final(self).pending_quit == old(self).pending_quit
                    &&& eff is Nothing
                },
            },
    {
        match ev {
            Event::Edited(text) => {
                self.session.on_edit(text);
                self.query.recompute(self.session.content.as_str());
                Effect::Nothing
            },
            Event::CursorMoved(line, column) => {
                self.session.set_cursor(line, column);
                Effect::Nothing
            },
            Event::OpenPathChosen(choice) => {
                match choice {
                    Some(p) => Effect::ReadFile(p),
                    None => Effect::Nothing,
                }
            },
            Event::FileRead(path, data) => {
                match data {
                    None => Effect::Report(Notice::IoError),
                    Some(bytes) => {
                        let lossy = self.session.load_from_bytes(path, &bytes);
                        let refreshed = self.refresh_query();
                        if lossy {
                            Effect::Report(Notice::DecodeWarning)
                        } else {
                            refreshed
                        }
                    },
                }
            },
            Event::SavePathChosen(choice) => {
                match choice {
                    None => {
                        self.pending_quit = false;
                        Effect::Nothing
                    },
                    Some(p) => {
                        self.session.set_path(p);
                        self.save_request()
                    },
                }
            },
            Event::SaveFinished(ok) => {
                if ok {
                    self.session.mark_saved();
                    let was_pending = self.pending_quit;
                    self.pending_quit = false;
                    if was_pending {
                        Effect::Exit
                    } else {
                        Effect::Nothing
                    }
                } else {
                    self.pending_quit = false;
                    Effect::Report(Notice::IoError)
                }
            },
            Event::QuitDecision(d) => {
                match d {
                    QuitDecision::Cancel => {
                        self.pending_quit = false;
                        Effect::Nothing
                    },
                    QuitDecision::DiscardAndQuit => Effect::Exit,
                    QuitDecision::SaveThenQuit => {
                        self.pending_quit = true;
                        self.save_request()
                    },
                }
            },
            Event::LanguageResolved(lang) => {
                self.session.set_language(lang);
                Effect::Nothing
            },
        }
    }
}

} // verus!
