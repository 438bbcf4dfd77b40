//! The document session: the authoritative text buffer, its file identity,
//! and its dirty state.
//!
//! The dirty flag is never stored: it is always derived as "the fingerprint
//! of the current content differs from the fingerprint captured at the most
//! recent successful load or save". Editing the buffer back to content whose
//! fingerprint equals that baseline therefore clears the flag again.

use vstd::prelude::*;
use vstd::string::{StrSliceExecFns, StringExecFns};
use vstd::utf8::{decode_utf8, encode_utf8, valid_utf8};

use crate::codec::{decode_bytes, encode_text, lossy_decoded, utf8_is_valid};
use crate::fingerprint::{fingerprint, fingerprint_of};

verus! {

/// A single document: buffer content, file identity, dirty baseline,
/// cursor metrics, and the advisory highlighting language.
pub struct DocumentSession {
    /// The authoritative buffer text.
    pub content: String,
    /// The associated file path; `None` means untitled.
    pub path: Option<String>,
    /// Fingerprint of the content at the most recent load or save.
    pub baseline: u64,
    /// 1-based cursor line, as reported by the editing surface.
    pub cursor_line: usize,
    /// 1-based cursor column, as reported by the editing surface.
    pub cursor_column: usize,
    /// Opaque highlighting language identifier, advisory only.
    pub language_id: Option<String>,
}

impl DocumentSession {
    /// The derived dirty state: content fingerprint differs from baseline.
    pub open spec fn dirty_spec(self) -> bool {
        fingerprint_of(self.content@) != self.baseline
    }

    /// Creates an empty, untitled, clean session.
    pub fn new() -> (s: Self)
        ensures
            s.content@ == Seq::<char>::empty(),
            s.path is None,
            s.language_id is None,
            s.cursor_line == 1,
            s.cursor_column == 1,
            !s.dirty_spec(),
    {
        let content = String::new();
        let baseline: u64 = fingerprint(content.as_str());
        DocumentSession {
            content,
            path: None,
            baseline,
            cursor_line: 1,
            cursor_column: 1,
            language_id: None,
        }
    }

    /// Recomputes the dirty flag from the current content.
    pub fn is_dirty(&self) -> (r: bool)
        ensures
            r == self.dirty_spec(),
    {
        fingerprint(self.content.as_str()) != self.baseline
    }

    /// The number of Unicode scalar values in the buffer.
    pub fn char_count(&self) -> (r: usize)
        ensures
            r == self.content@.len(),
    {
        self.content.as_str().unicode_len()
    }

    /// Loads decoded file bytes into the session: replaces the content,
    /// records the path, and resets the baseline so the session is clean.
    /// Returns `true` when the bytes were not valid UTF-8 and were decoded
    /// lossily — a data-loss warning for the caller, not an error.
    pub fn load_from_bytes(&mut self, path: String, bytes: &Vec<u8>) -> (lossy: bool)
        ensures
            final(self).content@ == lossy_decoded(bytes@),
            valid_utf8(bytes@) ==> final(self).content@ == decode_utf8(bytes@),
            final(self).path == Some(path),
            !final(self).dirty_spec(),
            lossy == !valid_utf8(bytes@),
            final(self).cursor_line == old(self).cursor_line,
            final(self).cursor_column == old(self).cursor_column,
            final(self).language_id == old(self).language_id,
    {
        let lossy = !utf8_is_valid(bytes);
        self.content = decode_bytes(bytes);
        self.baseline = fingerprint(self.content.as_str());
        self.path = Some(path);
        lossy
    }

    /// Replaces the buffer content as a plain edit: the baseline is left
    /// untouched, so the dirty state reflects divergence from the last
    /// load or save point.
    pub fn set_content(&mut self, text: String)
        ensures
            final(self).content@ == text@,
            final(self).baseline == old(self).baseline,
            final(self).path == old(self).path,
            final(self).cursor_line == old(self).cursor_line,
            final(self).cursor_column == old(self).cursor_column,
            final(self).language_id == old(self).language_id,
            final(self).dirty_spec() == (fingerprint_of(text@) != old(self).baseline),
    {
        self.content = text;
    }

    /// An edit notification from the editing surface: replaces the content
    /// and returns the recomputed dirty flag.
    pub fn on_edit(&mut self, text: String) -> (dirty: bool)
        ensures
            final(self).content@ == text@,
            final(self).baseline == old(self).baseline,
            final(self).path == old(self).path,
            final(self).cursor_line == old(self).cursor_line,
            final(self).cursor_column == old(self).cursor_column,
            final(self).language_id == old(self).language_id,
            dirty == final(self).dirty_spec(),
    {
        self.set_content(text);
        self.is_dirty()
    }

    /// Records a successful save: the baseline becomes the fingerprint of
    /// the current content, so the session is clean.
    pub fn mark_saved(&mut self)
        ensures
            final(self).content == old(self).content,
            final(self).path == old(self).path,
            final(self).baseline == fingerprint_of(old(self).content@),
            !final(self).dirty_spec(),
            final(self).cursor_line == old(self).cursor_line,
            final(self).cursor_column == old(self).cursor_column,
            final(self).language_id == old(self).language_id,
    {
        self.baseline = fingerprint(self.content.as_str());
    }

    /// Associates the session with a new path, as the first step of
    /// "save as".
    pub fn set_path(&mut self, path: String)
        ensures
            final(self).path == Some(path),
            final(self).content == old(self).content,
            final(self).baseline == old(self).baseline,
            final(self).cursor_line == old(self).cursor_line,
            final(self).cursor_column == old(self).cursor_column,
            final(self).language_id == old(self).language_id,
    {
        self.path = Some(path);
    }

    /// The UTF-8 bytes to persist on save.
    pub fn save_bytes(&self) -> (r: Vec<u8>)
        ensures
            r@ == encode_utf8(self.content@),
    {
        encode_text(self.content.as_str())
    }

    /// Records the caret position reported by the editing surface
    /// (1-based line and column).
    pub fn set_cursor(&mut self, line: usize, column: usize)
        ensures
            final(self).cursor_line == line,
            final(self).cursor_column == column,
            final(self).content == old(self).content,
            final(self).path == old(self).path,
            final(self).baseline == old(self).baseline,
            final(self).language_id == old(self).language_id,
    {
        self.cursor_line = line;
        self.cursor_column = column;
    }

    /// Stores the advisory highlighting language resolved by the external
    /// language provider; `None` (no guess) is a valid outcome.
    pub fn set_language(&mut self, language_id: Option<String>)
        ensures
            final(self).language_id == language_id,
            final(self).content == old(self).content,
            final(self).path == old(self).path,
            final(self).baseline == old(self).baseline,
            final(self).cursor_line == old(self).cursor_line,
            final(self).cursor_column == old(self).cursor_column,
    {
        self.language_id = language_id;
    }

    /// The name to suggest in a save dialog: the final component of the
    /// current path (after the last `/`), or a fixed untitled name.
    pub fn default_file_name(&self) -> (r: String)
        ensures
            match self.path {
                None => r@ == "Untitled.txt"@,
                Some(p) => r@ == file_name_of(p@),
            },
    {
        match &self.path {
            None => "Untitled.txt".to_owned(),
            Some(p) => {
                let chars = crate::text::chars_vec(p.as_str());
                let cut: usize = last_separator_end(&chars);
                let n: usize = p.as_str().unicode_len();
                let name = p.as_str().substring_char(cut, n).to_owned();
                proof {
                    assert(p@.subrange(cut as int, n as int) =~= p@.skip(cut as int));
                }
                name
            },
        }
    }
}

/// The suffix of `path` after its last `/` separator.
pub open spec fn file_name_of(path: Seq<char>) -> Seq<char> {
    path.skip(last_sep_end(path, path.len() as int))
}

/// The end position of the last `/` within the first `n` characters;
/// 0 when there is none.
pub open spec fn last_sep_end(path: Seq<char>, n: int) -> int
    decreases n,
{
    if n <= 0 {
        0
    } else if path[n - 1] == '/' {
        n
    } else {
        last_sep_end(path, n - 1)
    }
}

/// Executable twin of [`last_sep_end`] over the whole vector.
fn last_separator_end(chars: &Vec<char>) -> (r: usize)
    ensures
        r as int == last_sep_end(chars@, chars@.len() as int),
        r <= chars@.len(),
{
    let mut n: usize = chars.len();
    while n > 0
        invariant
            0 <= n <= chars@.len(),
            last_sep_end(chars@, chars@.len() as int) == last_sep_end(chars@, n as int),
        decreases n,
    {
        if chars[n - 1] == '/' {
            return n;
        }
        n = n - 1;
    }
    0
}

/// Law: a session loaded from valid UTF-8 bytes saves back the very same
/// bytes — loading decodes, saving encodes, and the two are inverses on
/// valid input. (Lossily decoded input is exempt: decoding already lost
/// information there, which is why loading reports it as a warning.)
pub proof fn lemma_session_round_trip(s: DocumentSession, bytes: Seq<u8>)
    requires
        valid_utf8(bytes),
        s.content@ == decode_utf8(bytes),
    ensures
        encode_utf8(s.content@) == bytes,
{
    crate::codec::lemma_load_save_round_trip(bytes);
}

/// Law: any edit that brings the content's fingerprint back to the
/// baseline leaves the session clean, however many edits came between —
/// edits never move the baseline, so the dirty flag is a function of the
/// current content alone.
pub proof fn lemma_dirty_idempotent(s: DocumentSession)
    requires
        fingerprint_of(s.content@) == s.baseline,
    ensures
        !s.dirty_spec(),
{
}

} // verus!
