//! The editing session: one line of text, a cursor, the active mode, the
//! live pending state and the undo history. One key event is fully processed
//! before the next is accepted; a motion that cannot resolve drops the whole
//! enclosing action, never a part of it.

use crate::events::{toggle_case, toggled, KeyEvent};
use crate::history::{history_wf, redone, saved, undone, History, HistoryModel};
use crate::keymaps::{Action, GoToAction, OPending};
use crate::mode::{event_actions, ActionsView, Actions, Mode};
use crate::motion::{resolve, resolve_spec};
use vstd::pervasive::VecAdditionalExecFns;
use vstd::prelude::*;

verus! {

/// Mathematical model of an editing session.
#[verifier::ext_equal]
pub struct BufferModel {
    /// The line content.
    pub text: Seq<char>,
    /// The cursor offset, between 0 and the content length.
    pub cursor: int,
    /// The active mode.
    pub mode: Mode,
    /// The live pending state, if any.
    pub pending: Option<OPending>,
    /// The undo history.
    pub history: HistoryModel,
}

/// Well-formedness of a session: the cursor stays within the content, the
/// history keeps its own invariant, and the content equals the snapshot
/// under the history cursor.
pub open spec fn buffer_wf(m: BufferModel) -> bool {
    &&& 0 <= m.cursor <= m.text.len()
    &&& history_wf(m.history)
    &&& m.text == m.history.snapshots[m.history.cursor]
}

/// The offset deletions and in-place edits start from: the cursor, clamped
/// onto the line content.
pub open spec fn edit_origin(m: BufferModel) -> int {
    if m.text.len() == 0 {
        0
    } else if m.cursor < m.text.len() {
        m.cursor
    } else {
        m.text.len() - 1
    }
}

/// One action applied to a session: the new session, and whether the action
/// could resolve. A character search without an occurrence is the one thing
/// that fails; failure changes nothing and aborts the rest of the sequence.
pub open spec fn apply_one(m: BufferModel, a: Action) -> (BufferModel, bool) {
    match a {
        Action::GoTo(g) => match resolve_spec(g, m.text, m.cursor) {
            Some(t) => (BufferModel { cursor: t, ..m }, true),
            None => (m, false),
        },
        Action::Delete(first, second) => {
            let p = edit_origin(m);
            match resolve_spec(first, m.text, p) {
                None => (m, false),
                Some(t1) => {
                    let target = match second {
                        None => Some(t1),
                        Some(s) => resolve_spec(s, m.text, t1),
                    };
                    match target {
                        None => (m, false),
                        Some(t) => {
                            let lo = if p <= t { p } else { t };
                            let hi0 = if p <= t { t } else { p };
                            let hi = if (first is EndWord || first is EndWORD) && hi0
                                < m.text.len() {
                                hi0 + 1
                            } else {
                                hi0
                            };
                            let text2 = m.text.take(lo) + m.text.skip(hi);
                            (
                                BufferModel {
                                    text: text2,
                                    cursor: lo,
                                    history: saved(m.history, text2),
                                    ..m
                                },
                                true,
                            )
                        },
                    }
                },
            }
        },
        Action::DeleteLine => {
            let text2 = Seq::<char>::empty();
            (
                BufferModel { text: text2, cursor: 0, history: saved(m.history, text2), ..m },
                true,
            )
        },
        Action::DeleteNextChar => {
            if m.cursor < m.text.len() {
                let text2 = m.text.remove(m.cursor);
                let cursor2 = if m.cursor < text2.len() {
                    m.cursor
                } else if text2.len() == 0 {
                    0
                } else {
                    text2.len() - 1
                };
                (
                    BufferModel {
                        text: text2,
                        cursor: cursor2,
                        history: saved(m.history, text2),
                        ..m
                    },
                    true,
                )
            } else {
                (m, true)
            }
        },
        Action::DeletePreviousChar => {
            if m.cursor > 0 {
                let text2 = m.text.remove(m.cursor - 1);
                (
                    BufferModel {
                        text: text2,
                        cursor: m.cursor - 1,
                        history: saved(m.history, text2),
                        ..m
                    },
                    true,
                )
            } else {
                (m, true)
            }
        },
        Action::InsertChar(c) => {
            let text2 = m.text.insert(m.cursor, c);
            (
                BufferModel {
                    text: text2,
                    cursor: m.cursor + 1,
                    history: saved(m.history, text2),
                    ..m
                },
                true,
            )
        },
        Action::ReplaceWith(c) => {
            if m.text.len() == 0 {
                (m, true)
            } else {
                let text2 = m.text.update(edit_origin(m), c);
                (BufferModel { text: text2, history: saved(m.history, text2), ..m }, true)
            }
        },
        Action::ToggleCapitalisation => {
            if m.text.len() == 0 {
                (m, true)
            } else {
                let p = edit_origin(m);
                let text2 = m.text.update(p, toggled(m.text[p]));
                (BufferModel { text: text2, history: saved(m.history, text2), ..m }, true)
            }
        },
        Action::SelectMode(md) => (BufferModel { mode: md, ..m }, true),
        Action::Undo => {
            if m.history.cursor > 0 {
                let h2 = undone(m.history);
                let text2 = h2.snapshots[h2.cursor];
                let cursor2 = if m.cursor <= text2.len() {
                    m.cursor
                } else {
                    text2.len() as int
                };
                (BufferModel { text: text2, cursor: cursor2, history: h2, ..m }, true)
            } else {
                (m, true)
            }
        },
        Action::Redo => {
            if m.history.cursor < m.history.snapshots.len() - 1 {
                let h2 = redone(m.history);
                let text2 = h2.snapshots[h2.cursor];
                let cursor2 = if m.cursor <= text2.len() {
                    m.cursor
                } else {
                    text2.len() as int
                };
                (BufferModel { text: text2, cursor: cursor2, history: h2, ..m }, true)
            } else {
                (m, true)
            }
        },
    }
}

/// A sequence of actions applied in order, stopping at the first one that
/// cannot resolve.
pub open spec fn apply_seq(m: BufferModel, actions: Seq<Action>) -> BufferModel
    decreases actions.len(),
{
    if actions.len() == 0 {
        m
    } else {
        let st = apply_one(m, actions[0]);
        if st.1 {
            apply_seq(st.0, actions.drop_first())
        } else {
            st.0
        }
    }
}

/// One key event processed by a session: the state machine answers with
/// either a new pending state or a sequence of actions to apply.
pub open spec fn stepped(m: BufferModel, e: KeyEvent) -> BufferModel {
    let cleared = BufferModel { pending: None, ..m };
    match event_actions(m.mode, e, m.pending) {
        ActionsView::OPending(p) => BufferModel { pending: Some(p), ..m },
        ActionsView::List(l) => apply_seq(cleared, l),
    }
}

/// Removes the index range `lo..hi` from a text.
fn remove_range(v: &mut Vec<char>, lo: usize, hi: usize)
    requires
        lo <= hi <= old(v)@.len(),
    ensures
        final(v)@ == old(v)@.take(lo as int) + old(v)@.skip(hi as int),
{
    let ghost orig = v@;
    let mut out: Vec<char> = Vec::new();
    let mut i: usize = 0;
    while i < lo
        invariant
            i <= lo <= hi <= orig.len(),
            v@ == orig,
            out@ == orig.take(i as int),
        decreases lo - i,
    {
        out.push(v[i]);
        proof {
            assert(out@ =~= orig.take(i as int + 1));
        }
        i = i + 1;
    }
    let mut j: usize = hi;
    while j < v.len()
        invariant
            lo <= hi <= j <= orig.len(),
            v@ == orig,
            out@ == orig.take(lo as int) + orig.subrange(hi as int, j as int),
        decreases orig.len() - j,
    {
        out.push(v[j]);
        proof {
            assert(out@ =~= orig.take(lo as int) + orig.subrange(hi as int, j as int + 1));
        }
        j = j + 1;
    }
    *v = out;
    proof {
        assert(final(v)@ =~= orig.take(lo as int) + orig.skip(hi as int));
    }
}

/// The editing session a host drives: it owns the line content, the cursor,
/// the mode, the live pending state and the history over content snapshots.
#[derive(Debug)]
pub struct Buffer {
    content: Vec<char>,
    cursor: usize,
    mode: Mode,
    pending: Option<OPending>,
    /// The undo history; exposed so a host or test can inspect the stack.
    pub history: History,
}

impl View for Buffer {
    type V = BufferModel;

    closed spec fn view(&self) -> BufferModel {
        BufferModel {
            text: self.content@,
            cursor: self.cursor as int,
            mode: self.mode,
            pending: self.pending,
            history: self.history@,
        }
    }
}

impl Buffer {
    /// A session over the given initial content, in normal mode, with the
    /// cursor at the line start and that content as the one history entry.
    pub fn with_text(content: Vec<char>) -> (b: Buffer)
        ensures
            b@ == (BufferModel {
                text: content@,
                cursor: 0,
                mode: Mode::Normal,
                pending: None,
                history: HistoryModel { snapshots: seq![content@], cursor: 0 },
            }),
            buffer_wf(b@),
    {
        let ghost v = content@;
        let history = History::with_initial_value(content.clone());
        proof {
            assert(content@ =~= v);
        }
        Buffer { content, cursor: 0, mode: Mode::Normal, pending: None, history }
    }

    /// The current line content.
    pub fn as_content(&self) -> (r: &Vec<char>)
        ensures
            r@ == self@.text,
    {
        &self.content
    }

    /// The current cursor offset.
    pub fn cursor(&self) -> (r: usize)
        ensures
            r as int == self@.cursor,
    {
        self.cursor
    }

    /// The active mode.
    pub fn mode(&self) -> (r: Mode)
        ensures
            r == self@.mode,
    {
        self.mode
    }

    /// The live pending state, if any.
    pub fn pending(&self) -> (r: Option<OPending>)
        ensures
            r == self@.pending,
    {
        self.pending
    }

    /// Applies one action to the session; returns whether the action could
    /// resolve. Failure leaves the session untouched.
    #[verifier::rlimit(80)]
    pub fn apply(&mut self, action: Action) -> (ok: bool)
        requires
            buffer_wf(old(self)@),
        ensures
            final(self)@ == apply_one(old(self)@, action).0,
            ok == apply_one(old(self)@, action).1,
            buffer_wf(final(self)@),
    {
        let ghost m = self@;
        match action {
            Action::GoTo(g) => {
                match resolve(g, &self.content, self.cursor) {
                    Some(t) => {
                        self.cursor = t;
                        true
                    },
                    None => false,
                }
            },
            Action::Delete(first, second) => {
                let p = if self.content.len() == 0 {
                    0
                } else if self.cursor < self.content.len() {
                    self.cursor
                } else {
                    self.content.len() - 1
                };
                let t1 = match resolve(first, &self.content, p) {
                    Some(t) => t,
                    None => {
                        return false;
                    },
                };
                let t = match second {
                    None => t1,
                    Some(s) => match resolve(s, &self.content, t1) {
                        Some(t2) => t2,
                        None => {
                            return false;
                        },
                    },
                };
                let lo = if p <= t {
                    p
                } else {
                    t
                };
                let hi0 = if p <= t {
                    t
                } else {
                    p
                };
                let inclusive = matches!(first, GoToAction::EndWord | GoToAction::EndWORD);
                let hi = if inclusive && hi0 < self.content.len() {
                    hi0 + 1
                } else {
                    hi0
                };
                remove_range(&mut self.content, lo, hi);
                self.cursor = lo;
                self.history.save(&self.content);
                true
            },
            Action::DeleteLine => {
                self.content.clear();
                self.cursor = 0;
                self.history.save(&self.content);
                true
            },
            Action::DeleteNextChar => {
                if self.cursor < self.content.len() {
                    self.content.remove(self.cursor);
                    if self.cursor < self.content.len() {
                    } else if self.content.len() == 0 {
                        self.cursor = 0;
                    } else {
                        self.cursor = self.content.len() - 1;
                    }
                    self.history.save(&self.content);
                }
                true
            },
            Action::DeletePreviousChar => {
                if self.cursor > 0 {
                    self.content.remove(self.cursor - 1);
                    self.cursor = self.cursor - 1;
                    self.history.save(&self.content);
                }
                true
            },
            Action::InsertChar(c) => {
                self.content.insert(self.cursor, c);
                let n = self.content.len();
                proof {
                    assert(self.cursor < n);
                }
                self.cursor = self.cursor + 1;
                self.history.save(&self.content);
                true
            },
            Action::ReplaceWith(c) => {
                if self.content.len() > 0 {
                    let p = if self.cursor < self.content.len() {
                        self.cursor
                    } else {
                        self.content.len() - 1
                    };
                    self.content.set(p, c);
                    self.history.save(&self.content);
                }
                true
            },
            Action::ToggleCapitalisation => {
                if self.content.len() > 0 {
                    let p = if self.cursor < self.content.len() {
                        self.cursor
                    } else {
                        self.content.len() - 1
                    };
                    let flipped = toggle_case(self.content[p]);
                    self.content.set(p, flipped);
                    self.history.save(&self.content);
                }
                true
            },
            Action::SelectMode(md) => {
                self.mode = md;
                true
            },
            Action::Undo => {
                match self.history.undo() {
                    Some(v) => {
                        let fresh = v.clone();
                        proof {
                            assert(fresh@ =~= v@);
                        }
                        self.content = fresh;
                        if self.cursor > self.content.len() {
                            self.cursor = self.content.len();
                        }
                    },
                    None => {},
                }
                true
            },
            Action::Redo => {
                match self.history.redo() {
                    Some(v) => {
                        let fresh = v.clone();
                        proof {
                            assert(fresh@ =~= v@);
                        }
                        self.content = fresh;
                        if self.cursor > self.content.len() {
                            self.cursor = self.content.len();
                        }
                    },
                    None => {},
                }
                true
            },
        }
    }

    /// Feeds one key event to the session: the state machine resolves it
    /// against the mode and the pending state, and the resulting actions are
    /// applied in order, stopping at the first that cannot resolve.
    pub fn update(&mut self, event: &KeyEvent)
        requires
            buffer_wf(old(self)@),
        ensures
            final(self)@ == stepped(old(self)@, *event),
            buffer_wf(final(self)@),
    {
        let ghost m0 = self@;
        let actions = self.mode.handle_event(event, self.pending);
        self.pending = None;
        let ghost base = self@;
        proof {
            assert(base =~= (BufferModel { pending: None, ..m0 }));
        }
        match actions {
            Actions::OPending(p) => {
                self.pending = Some(p);
                proof {
                    assert(self@ =~= (BufferModel { pending: Some(p), ..m0 }));
                }
            },
            Actions::List(list) => {
                let ghost l = list@;
                proof {
                    assert(l.skip(0) =~= l);
                }
                let mut idx: usize = 0;
                let mut aborted = false;
                while idx < list.len() && !aborted
                    invariant
                        0 <= idx <= l.len(),
                        list@ == l,
                        buffer_wf(self@),
                        !aborted ==> apply_seq(base, l) == apply_seq(self@, l.skip(idx as int)),
                        aborted ==> apply_seq(base, l) == self@,
                    decreases l.len() - idx,
                {
                    let a = list[idx];
                    let ghost prev = self@;
                    let ok_step = self.apply(a);
                    proof {
                        assert(l.skip(idx as int)[0] == l[idx as int]);
                        assert(l.skip(idx as int).drop_first() =~= l.skip(idx as int + 1));
                    }
                    if !ok_step {
                        aborted = true;
                    }
                    idx = idx + 1;
                }
                proof {
                    if !aborted {
                        assert(l.skip(idx as int) =~= Seq::<Action>::empty());
                    }
                    assert(self@ == apply_seq(base, l));
                }
            },
        }
    }
}

impl Default for Buffer {
    /// An empty session: no content, cursor at 0, normal mode, a history of
    /// one empty snapshot.
    fn default() -> (b: Buffer)
        ensures
            b@ == (BufferModel {
                text: Seq::empty(),
                cursor: 0,
                mode: Mode::Normal,
                pending: None,
                history: HistoryModel { snapshots: seq![Seq::empty()], cursor: 0 },
            }),
            buffer_wf(b@),
    {
        let b = Buffer::with_text(Vec::new());
        proof {
            assert(b@.text =~= Seq::<char>::empty());
            assert(b@.history.snapshots =~= seq![Seq::<char>::empty()]);
        }
        b
    }
}


/// Law: a character search for an absent character fails and leaves the
/// session unchanged, both as a bare motion and under a delete operator;
/// in particular it deletes nothing.
pub proof fn lemma_failed_search_is_noop(m: BufferModel, c: char, second: Option<GoToAction>)
    requires
        buffer_wf(m),
        forall|k: int| 0 <= k < m.text.len() ==> m.text[k] != c,
    ensures
        apply_one(m, Action::GoTo(GoToAction::NextOccurrenceOf(c))) == (m, false),
        apply_one(m, Action::Delete(GoToAction::NextOccurrenceOf(c), second)) == (m, false),
{
    crate::motion::lemma_find_fwd_absent(m.text, c, m.cursor + 1);
    crate::motion::lemma_find_fwd_absent(m.text, c, edit_origin(m) + 1);
}

/// Law: inserting a character and immediately undoing restores exactly the
/// pre-insert content, and redoing then restores the post-insert content.
pub proof fn lemma_insert_undo_redo_round_trip(m: BufferModel, c: char)
    requires
        buffer_wf(m),
    ensures
        ({
            let m1 = apply_one(m, Action::InsertChar(c)).0;
            let m2 = apply_one(m1, Action::Undo).0;
            let m3 = apply_one(m2, Action::Redo).0;
            &&& m1.text == m.text.insert(m.cursor, c)
            &&& m2.text == m.text
            &&& m3.text == m1.text
        }),
{
    let text2 = m.text.insert(m.cursor, c);
    assert(text2.len() == m.text.len() + 1);
    assert(text2 != m.history.snapshots[m.history.cursor]);
    let h1 = saved(m.history, text2);
    assert(h1.snapshots == m.history.snapshots.take(m.history.cursor + 1).push(text2));
    assert(h1.snapshots[m.history.cursor + 1] == text2);
    assert(h1.snapshots[m.history.cursor] == m.history.snapshots[m.history.cursor]);
    let m1 = apply_one(m, Action::InsertChar(c)).0;
    let m2 = apply_one(m1, Action::Undo).0;
    assert(m2.text == m.text);
    assert(m2.history.cursor == m.history.cursor);
    assert(m2.history.snapshots == h1.snapshots);
    let m3 = apply_one(m2, Action::Redo).0;
    assert(m3.text == h1.snapshots[m.history.cursor + 1]);
}

} // verus!
