//! Linear undo/redo history: an append-only sequence of buffer snapshots with
//! a cursor bounded to the sequence, and the invariant that no two adjacent
//! snapshots are equal.

use vstd::prelude::*;

verus! {

/// Mathematical model of a [`History`]: the stored snapshots (each a sequence
/// of characters) and the cursor into them.
#[verifier::ext_equal]
pub struct HistoryModel {
    /// The recorded snapshots, oldest first.
    pub snapshots: Seq<Seq<char>>,
    /// Index of the snapshot the editor currently shows.
    pub cursor: int,
}

/// Well-formedness of a history: the cursor stays inside the sequence and no
/// two adjacent snapshots are equal.
pub open spec fn history_wf(m: HistoryModel) -> bool {
    &&& 0 <= m.cursor < m.snapshots.len()
    &&& forall|i: int| 0 <= i < m.snapshots.len() - 1 ==> #[trigger] m.snapshots[i] != m.snapshots[i + 1]
}

/// The history after moving one step back, if possible.
pub open spec fn undone(m: HistoryModel) -> HistoryModel {
    if m.cursor > 0 {
        HistoryModel { snapshots: m.snapshots, cursor: m.cursor - 1 }
    } else {
        m
    }
}

/// The history after moving one step forward, if possible.
pub open spec fn redone(m: HistoryModel) -> HistoryModel {
    if m.cursor < m.snapshots.len() - 1 {
        HistoryModel { snapshots: m.snapshots, cursor: m.cursor + 1 }
    } else {
        m
    }
}

/// The history after saving `s`: nothing changes when `s` equals the snapshot
/// under the cursor; otherwise everything after the cursor is discarded and
/// `s` is appended, with the cursor on it.
pub open spec fn saved(m: HistoryModel, s: Seq<char>) -> HistoryModel {
    if s == m.snapshots[m.cursor] {
        m
    } else {
        HistoryModel { snapshots: m.snapshots.take(m.cursor + 1).push(s), cursor: m.cursor + 1 }
    }
}

/// Holds the history of the buffer, with the invariant that there are never
/// two successive entries that are equal.
#[derive(Debug)]
pub struct History {
    snapshots: Vec<Vec<char>>,
    cursor: usize,
}

impl View for History {
    type V = HistoryModel;

    closed spec fn view(&self) -> HistoryModel {
        HistoryModel {
            snapshots: self.snapshots@.map_values(|s: Vec<char>| s@),
            cursor: self.cursor as int,
        }
    }
}

/// Compares two texts character by character.
pub fn text_eq(a: &Vec<char>, b: &Vec<char>) -> (r: bool)
    ensures
        r <==> a@ == b@,
{
    if a.len() != b.len() {
        assert(a@ != b@) by {
            assert(a@.len() != b@.len());
        }
        return false;
    }
    let n = a.len();
    let mut i: usize = 0;
    while i < n
        invariant
            n == a@.len() == b@.len(),
            0 <= i <= n,
            forall|k: int| 0 <= k < i ==> a@[k] == b@[k],
        decreases n - i,
    {
        if a[i] != b[i] {
            assert(a@ != b@) by {
                assert(a@[i as int] != b@[i as int]);
            }
            return false;
        }
        i = i + 1;
    }
    assert(a@ =~= b@);
    true
}

impl History {
    /// Creates a new [`History`], starting with the given snapshot.
    pub fn with_initial_value(value: Vec<char>) -> (h: History)
        ensures
            h@ == (HistoryModel { snapshots: seq![value@], cursor: 0 }),
            history_wf(h@),
    {
        let h = History { snapshots: vec![value], cursor: 0 };
        assert(h@.snapshots =~= seq![value@]);
        h
    }

    /// Returns the stored snapshots, oldest first.
    pub fn as_vec(&self) -> (r: &Vec<Vec<char>>)
        ensures
            r@.map_values(|s: Vec<char>| s@) == self@.snapshots,
    {
        &self.snapshots
    }

    /// Returns the entry at the current cursor.
    pub fn as_cursor_entry(&self) -> (r: &Vec<char>)
        requires
            history_wf(self@),
        ensures
            r@ == self@.snapshots[self@.cursor],
    {
        &self.snapshots[self.cursor]
    }

    /// Returns `true` if the cursor is at the end of the history, meaning
    /// that nothing can be redone.
    pub fn is_cursor_at_end(&self) -> (r: bool)
        requires
            history_wf(self@),
        ensures
            r <==> self@.cursor == self@.snapshots.len() - 1,
    {
        proof {
            assert(self@.snapshots.len() == self.snapshots@.len());
            assert(self.cursor < self.snapshots.len());
        }
        self.cursor + 1 == self.snapshots.len()
    }

    /// Moves backward in the history; fails, changing nothing, when the
    /// cursor is already on the oldest snapshot.
    pub fn undo(&mut self) -> (r: Option<&Vec<char>>)
        requires
            history_wf(old(self)@),
        ensures
            final(self)@ == undone(old(self)@),
            history_wf(final(self)@),
            old(self)@.cursor > 0 ==> (r matches Some(v) && v@ == final(self)@.snapshots[final(self)@.cursor]),
            old(self)@.cursor == 0 ==> r is None,
    {
        if self.cursor > 0 {
            self.cursor = self.cursor - 1;
            Some(&self.snapshots[self.cursor])
        } else {
            None
        }
    }

    /// Moves forward in the history; fails, changing nothing, when the cursor
    /// is already on the newest snapshot.
    pub fn redo(&mut self) -> (r: Option<&Vec<char>>)
        requires
            history_wf(old(self)@),
        ensures
            final(self)@ == redone(old(self)@),
            history_wf(final(self)@),
            old(self)@.cursor < old(self)@.snapshots.len() - 1 ==> (r matches Some(v) && v@
                == final(self)@.snapshots[final(self)@.cursor]),
            old(self)@.cursor == old(self)@.snapshots.len() - 1 ==> r is None,
    {
        proof {
            assert(self@.snapshots.len() == self.snapshots@.len());
            assert(self.cursor < self.snapshots.len());
        }
        if self.cursor + 1 < self.snapshots.len() {
            self.cursor = self.cursor + 1;
            Some(&self.snapshots[self.cursor])
        } else {
            None
        }
    }

    /// Appends a snapshot that is known to differ from the one under the
    /// cursor, discarding everything after the cursor first.
    pub fn save_clone(&mut self, value: Vec<char>)
        requires
            history_wf(old(self)@),
            value@ != old(self)@.snapshots[old(self)@.cursor],
        ensures
            final(self)@ == saved(old(self)@, value@),
            history_wf(final(self)@),
    {
        let ghost m = self@;
        proof {
            assert(self@.snapshots.len() == self.snapshots@.len());
            assert(self.cursor < self.snapshots.len());
        }
        if self.is_cursor_at_end() {
            self.snapshots.push(value);
            self.cursor = self.cursor + 1;
        } else {
            self.cursor = self.cursor + 1;
            self.snapshots.truncate(self.cursor);
            self.snapshots.push(value);
        }
        assert(self@.snapshots =~= m.snapshots.take(m.cursor + 1).push(value@));
        assert forall|i: int| 0 <= i < self@.snapshots.len() - 1 implies #[trigger] self@.snapshots[i]
            != self@.snapshots[i + 1] by {
            if i < self@.snapshots.len() - 2 {
                assert(m.snapshots[i] != m.snapshots[i + 1]);
            }
        }
    }

    /// Saves the given buffer text in the history, unless it equals the
    /// snapshot under the cursor.
    pub fn save(&mut self, entry: &Vec<char>)
        requires
            history_wf(old(self)@),
        ensures
            final(self)@ == saved(old(self)@, entry@),
            history_wf(final(self)@),
    {
        let same = text_eq(entry, self.as_cursor_entry());
        if !same {
            let copy = entry.clone();
            assert(copy@ == entry@);
            self.save_clone(copy);
        }
    }
}

impl Default for History {
    /// An empty-buffer history: one empty snapshot, cursor on it.
    fn default() -> (h: History)
        ensures
            h@ == (HistoryModel { snapshots: seq![Seq::empty()], cursor: 0 }),
            history_wf(h@),
    {
        let h = History::with_initial_value(Vec::new());
        assert(h@.snapshots =~= seq![Seq::<char>::empty()]);
        h
    }
}

/// Law: saving preserves the history invariant, so along any sequence of
/// saves no two adjacent stored snapshots are ever equal.
pub proof fn lemma_save_preserves_invariant(m: HistoryModel, s: Seq<char>)
    requires
        history_wf(m),
    ensures
        history_wf(saved(m, s)),
{
    if s != m.snapshots[m.cursor] {
        let m2 = saved(m, s);
        assert forall|i: int| 0 <= i < m2.snapshots.len() - 1 implies #[trigger] m2.snapshots[i]
            != m2.snapshots[i + 1] by {
            if i < m2.snapshots.len() - 2 {
                assert(m.snapshots[i] != m.snapshots[i + 1]);
            }
        }
    }
}

/// A whole sequence of saves applied in order.
pub open spec fn saved_all(m: HistoryModel, entries: Seq<Seq<char>>) -> HistoryModel
    decreases entries.len(),
{
    if entries.len() == 0 {
        m
    } else {
        saved_all(saved(m, entries[0]), entries.drop_first())
    }
}

/// Law: along any sequence of saves the history invariant holds, so no two
/// adjacent stored snapshots are ever equal.
pub proof fn lemma_saves_keep_invariant(m: HistoryModel, entries: Seq<Seq<char>>)
    requires
        history_wf(m),
    ensures
        history_wf(saved_all(m, entries)),
    decreases entries.len(),
{
    if entries.len() > 0 {
        lemma_save_preserves_invariant(m, entries[0]);
        lemma_saves_keep_invariant(saved(m, entries[0]), entries.drop_first());
    }
}

/// Law: an undo that moved the cursor, followed by a redo, restores the
/// history to exactly its pre-undo state.
pub proof fn lemma_undo_then_redo(m: HistoryModel)
    requires
        history_wf(m),
        m.cursor > 0,
    ensures
        redone(undone(m)) == m,
{
    assert(redone(undone(m)) =~= m);
}

/// Law: saving a genuinely new snapshot after undos discards every snapshot
/// after the cursor; the redo branch is unreachable afterwards.
pub proof fn lemma_save_after_undo_discards(m: HistoryModel, s: Seq<char>)
    requires
        history_wf(m),
        s != m.snapshots[m.cursor],
    ensures
        saved(m, s).snapshots == m.snapshots.take(m.cursor + 1).push(s),
        saved(m, s).snapshots.len() == m.cursor + 2,
        saved(m, s).cursor == saved(m, s).snapshots.len() - 1,
{
}

} // verus!
