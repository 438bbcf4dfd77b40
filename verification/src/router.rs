//! The command router: a flat table from resolved command identifiers to
//! handler tokens.
//!
//! Chord recognition happens outside the core; several distinct chords may
//! resolve to the same identifier, so registering an identifier again with
//! the same handler succeeds (alternation). Registering an identifier that
//! already has a different handler is a configuration error and is
//! rejected.

use vstd::prelude::*;

verus! {

/// The resolved command identifiers the editor shell dispatches on.
#[derive(Clone, Copy, PartialEq, Eq, Structural, Debug)]
pub enum CommandId {
    /// Open a file through the file picker.
    Open,
    /// Save to the current path, or fall through to save-as.
    Save,
    /// Save under a path chosen through the file picker.
    SaveAs,
    /// Request to quit the session.
    Quit,
    /// Toggle the search panel.
    Find,
    /// Grow the view's zoom level.
    ZoomIn,
    /// Shrink the view's zoom level.
    ZoomOut,
    /// Replace the search pattern.
    UpdateQuery,
    /// Toggle regular-expression matching.
    SetRegex,
    /// Toggle case-sensitive matching.
    SetCaseSensitive,
    /// Toggle whole-word matching.
    SetWholeWord,
    /// Move the match cursor forward.
    Next,
    /// Move the match cursor backward.
    Previous,
    /// Replace the active match.
    ReplaceOne,
    /// Replace every match.
    ReplaceAll,
}

/// Registering an identifier that is already bound to a different handler.
#[derive(Clone, Copy, PartialEq, Eq, Structural, Debug)]
pub struct DuplicateBindingError {
    /// The identifier whose registration was rejected.
    pub id: CommandId,
}

/// The handler bound to `id` in the table, if any: the handler of the
/// first entry for `id`.
pub open spec fn bound_handler(table: Seq<(CommandId, u64)>, id: CommandId) -> Option<u64>
    decreases table.len(),
{
    if table.len() == 0 {
        None
    } else if table[0].0 == id {
        Some(table[0].1)
    } else {
        bound_handler(table.drop_first(), id)
    }
}

/// A flat mapping from resolved command identifiers to opaque handler
/// tokens, interpreted by the shell.
pub struct CommandRouter {
    /// The registered bindings, first entry per identifier authoritative;
    /// registration keeps at most one entry per identifier.
    pub bindings: Vec<(CommandId, u64)>,
}

impl CommandRouter {
    /// An empty table.
    pub fn new() -> (r: Self)
        ensures
            r.bindings@ == Seq::<(CommandId, u64)>::empty(),
            forall|id: CommandId| bound_handler(r.bindings@, id) is None,
    {
        CommandRouter { bindings: Vec::new() }
    }

    /// Looks up the handler bound to `id`.
    pub fn lookup(&self, id: CommandId) -> (r: Option<u64>)
        ensures
            r == bound_handler(self.bindings@, id),
    {
        let mut k: usize = 0;
        proof {
            assert(self.bindings@.skip(0) =~= self.bindings@);
        }
        while k < self.bindings.len()
            invariant
                0 <= k <= self.bindings@.len(),
                bound_handler(self.bindings@, id) == bound_handler(
                    self.bindings@.skip(k as int),
                    id,
                ),
            decreases self.bindings@.len() - k,
        {
            let (entry_id, handler): (CommandId, u64) = self.bindings[k];
            proof {
                assert(self.bindings@.skip(k as int)[0] == self.bindings@[k as int]);
                assert(self.bindings@.skip(k as int).drop_first() =~= self.bindings@.skip(
                    k as int + 1,
                ));
            }
            if entry_id == id {
                return Some(handler);
            }
            k = k + 1;
        }
        proof {
            assert(self.bindings@.skip(k as int) =~= Seq::<(CommandId, u64)>::empty());
        }
        None
    }

    /// Binds `id` to `handler`. Succeeds when `id` is unbound, and also
    /// when `id` is already bound to this same handler — the alternation
    /// case, where several chords resolve to one identifier. Fails, and
    /// leaves the table unchanged, when `id` is already bound to a
    /// different handler.
    pub fn register(&mut self, id: CommandId, handler: u64) -> (r: Result<
        (),
        DuplicateBindingError,
    >)
        ensures
            match bound_handler(old(self).bindings@, id) {
                Some(h) => if h == handler {
                    r is Ok && final(self).bindings == old(self).bindings
                } else {
                    r == Result::<(), DuplicateBindingError>::Err(DuplicateBindingError { id })
                        && final(self).bindings == old(self).bindings
                },
                None => {
                    &&& r is Ok
                    &&& bound_handler(final(self).bindings@, id) == Some(handler)
                    &&& forall|other: CommandId|
                        other != id ==> bound_handler(final(self).bindings@, other)
                            == bound_handler(old(self).bindings@, other)
                },
            },
    {
        match self.lookup(id) {
            Some(h) => {
                if h == handler {
                    Ok(())
                } else {
                    Err(DuplicateBindingError { id })
                }
            },
            None => {
                let ghost before = self.bindings@;
                self.bindings.push((id, handler));
                proof {
                    lemma_bound_handler_push(before, id, handler, id);
                    assert forall|other: CommandId| other != id implies bound_handler(
                        self.bindings@,
                        other,
                    ) == bound_handler(before, other) by {
                        lemma_bound_handler_push(before, id, handler, other);
                    }
                }
                Ok(())
            },
        }
    }
}

/// How appending one binding changes the lookup: an identifier that was
/// bound keeps its handler; an unbound identifier picks up the new entry
/// exactly when it is the appended one.
proof fn lemma_bound_handler_push(
    table: Seq<(CommandId, u64)>,
    id: CommandId,
    handler: u64,
    probe: CommandId,
)
    ensures
        bound_handler(table.push((id, handler)), probe) == (match bound_handler(table, probe) {
            Some(h) => Some(h),
            None => if probe == id {
                Some(handler)
            } else {
                None
            },
        }),
    decreases table.len(),
{
    let pushed = table.push((id, handler));
    assert(pushed.len() == table.len() + 1);
    if table.len() == 0 {
        assert(pushed[0] == (id, handler));
        assert(pushed.drop_first() =~= Seq::<(CommandId, u64)>::empty());
        assert(bound_handler(pushed.drop_first(), probe) is None);
        if probe == id {
            assert(pushed[0].0 == probe);
            assert(bound_handler(pushed, probe) == Some(handler));
        } else {
            assert(pushed[0].0 != probe);
            assert(bound_handler(pushed, probe) == bound_handler(pushed.drop_first(), probe));
        }
    } else {
        assert(pushed[0] == table[0]);
        assert(pushed.drop_first() =~= table.drop_first().push((id, handler)));
        lemma_bound_handler_push(table.drop_first(), id, handler, probe);
        if table[0].0 == probe {
            assert(bound_handler(pushed, probe) == Some(table[0].1));
        } else {
            assert(bound_handler(pushed, probe) == bound_handler(pushed.drop_first(), probe));
        }
    }
}

} // verus!
