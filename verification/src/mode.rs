//! The mode/pending state machine: consumes one key event at a time and
//! emits zero, one or many actions, or transitions into a pending sub-state.

use crate::events::{shift_fixed, fix_shift_modifier, KeyCode, KeyEvent, KeyModifiers};
use crate::keymaps::{Action, CombinablePending, GoToAction, OPending};
use vstd::prelude::*;

verus! {

/// Represents the vim mode of the buffer.
#[derive(Clone, Copy, Debug, PartialEq, Eq, Structural)]
pub enum Mode {
    /// Insert mode.
    Insert,
    /// Normal mode.
    Normal,
}

impl Default for Mode {
    /// The mode an editing session starts in.
    fn default() -> (m: Mode)
        ensures
            m == Mode::Normal,
    {
        Mode::Normal
    }
}

/// What the state machine answers to one key event: either an ordered list
/// of actions to apply in sequence, or a pending state awaiting more keys.
#[derive(Debug)]
pub enum Actions {
    /// Apply these actions in order; the empty list is the deliberate no-op.
    List(Vec<Action>),
    /// Wait for more keys to complete this pending state.
    OPending(OPending),
}

/// Mathematical view of [`Actions`].
#[verifier::ext_equal]
pub enum ActionsView {
    /// Apply these actions in order.
    List(Seq<Action>),
    /// Wait for more keys.
    OPending(OPending),
}

impl View for Actions {
    type V = ActionsView;

    open spec fn view(&self) -> ActionsView {
        match self {
            Actions::List(l) => ActionsView::List(l@),
            Actions::OPending(p) => ActionsView::OPending(*p),
        }
    }
}

/// The deliberate no-op answer.
pub open spec fn no_actions() -> ActionsView {
    ActionsView::List(Seq::empty())
}

impl Actions {
    /// The empty answer: a deliberate no-op.
    pub fn none() -> (r: Actions)
        ensures
            r@ == no_actions(),
    {
        let r = Actions::List(Vec::new());
        proof {
            assert(r@ =~= no_actions());
        }
        r
    }

    /// A single action.
    pub fn one(a: Action) -> (r: Actions)
        ensures
            r@ == ActionsView::List(seq![a]),
    {
        let mut v: Vec<Action> = Vec::new();
        v.push(a);
        let r = Actions::List(v);
        proof {
            assert(r@ =~= ActionsView::List(seq![a]));
        }
        r
    }

    /// Two actions in order.
    pub fn two(a: Action, b: Action) -> (r: Actions)
        ensures
            r@ == ActionsView::List(seq![a, b]),
    {
        let mut v: Vec<Action> = Vec::new();
        v.push(a);
        v.push(b);
        let r = Actions::List(v);
        proof {
            assert(r@ =~= ActionsView::List(seq![a, b]));
        }
        r
    }

    /// Three actions in order.
    pub fn three(a: Action, b: Action, c: Action) -> (r: Actions)
        ensures
            r@ == ActionsView::List(seq![a, b, c]),
    {
        let mut v: Vec<Action> = Vec::new();
        v.push(a);
        v.push(b);
        v.push(c);
        let r = Actions::List(v);
        proof {
            assert(r@ =~= ActionsView::List(seq![a, b, c]));
        }
        r
    }

    /// A pending state awaiting more keys.
    pub fn pending(p: OPending) -> (r: Actions)
        ensures
            r@ == ActionsView::OPending(p),
    {
        Actions::OPending(p)
    }
}

/// The normal-mode table for key presses without modifiers.
pub open spec fn normal_blank(code: KeyCode) -> ActionsView {
    match code {
        KeyCode::Char(c) => if c == '$' {
            ActionsView::List(seq![Action::GoTo(GoToAction::EndOfLine)])
        } else if c == '0' {
            ActionsView::List(seq![Action::GoTo(GoToAction::BeginningOfLine)])
        } else if c == '^' {
            ActionsView::List(seq![Action::GoTo(GoToAction::FirstNonSpace)])
        } else if c == 'a' {
            ActionsView::List(
                seq![Action::GoTo(GoToAction::Right), Action::SelectMode(Mode::Insert)],
            )
        } else if c == 'b' {
            ActionsView::List(seq![Action::GoTo(GoToAction::BeginningOfWord)])
        } else if c == 'c' {
            ActionsView::OPending(OPending::Change)
        } else if c == 'd' {
            ActionsView::OPending(OPending::Delete)
        } else if c == 'e' {
            ActionsView::List(seq![Action::GoTo(GoToAction::EndWord)])
        } else if c == 'f' {
            ActionsView::OPending(OPending::CombinablePending(CombinablePending::FindNext))
        } else if c == 'g' {
            ActionsView::OPending(OPending::GoTo)
        } else if c == 'h' {
            ActionsView::List(seq![Action::GoTo(GoToAction::Left)])
        } else if c == 'i' {
            ActionsView::List(seq![Action::SelectMode(Mode::Insert)])
        } else if c == 'l' {
            ActionsView::List(seq![Action::GoTo(GoToAction::Right)])
        } else if c == 'x' {
            ActionsView::List(seq![Action::DeleteNextChar])
        } else if c == 'r' {
            ActionsView::OPending(OPending::ReplaceOne)
        } else if c == 's' {
            ActionsView::List(
                seq![
                    Action::GoTo(GoToAction::Right),
                    Action::DeletePreviousChar,
                    Action::SelectMode(Mode::Insert),
                ],
            )
        } else if c == 't' {
            ActionsView::OPending(
                OPending::CombinablePending(CombinablePending::FindNextDecrement),
            )
        } else if c == 'u' {
            ActionsView::List(seq![Action::Undo])
        } else if c == 'w' {
            ActionsView::List(seq![Action::GoTo(GoToAction::NextWord)])
        } else if c == '~' {
            ActionsView::List(
                seq![Action::ToggleCapitalisation, Action::GoTo(GoToAction::Right)],
            )
        } else {
            no_actions()
        },
        KeyCode::Backspace => ActionsView::List(seq![Action::GoTo(GoToAction::Left)]),
        _ => no_actions(),
    }
}

/// The normal-mode table for key presses with control held.
pub open spec fn normal_ctrl(code: KeyCode) -> ActionsView {
    match code {
        KeyCode::Char(c) => if c == 'r' {
            ActionsView::List(seq![Action::Redo])
        } else {
            no_actions()
        },
        _ => no_actions(),
    }
}

/// The normal-mode table for key presses with shift held.
pub open spec fn normal_shift(code: KeyCode) -> ActionsView {
    match code {
        KeyCode::Char(c) => if c == 'A' {
            ActionsView::List(
                seq![Action::GoTo(GoToAction::EndOfLine), Action::SelectMode(Mode::Insert)],
            )
        } else if c == 'B' {
            ActionsView::List(seq![Action::GoTo(GoToAction::BeginningOfWORD)])
        } else if c == 'D' {
            ActionsView::List(seq![Action::Delete(GoToAction::EndOfLine, None)])
        } else if c == 'E' {
            ActionsView::List(seq![Action::GoTo(GoToAction::EndWORD)])
        } else if c == 'F' {
            ActionsView::OPending(OPending::CombinablePending(CombinablePending::FindPrevious))
        } else if c == 'I' {
            ActionsView::List(
                seq![Action::GoTo(GoToAction::FirstNonSpace), Action::SelectMode(Mode::Insert)],
            )
        } else if c == 'S' {
            ActionsView::List(seq![Action::DeleteLine, Action::SelectMode(Mode::Insert)])
        } else if c == 'T' {
            ActionsView::OPending(
                OPending::CombinablePending(CombinablePending::FindPreviousIncrement),
            )
        } else if c == 'W' {
            ActionsView::List(seq![Action::GoTo(GoToAction::NextWORD)])
        } else if c == 'X' {
            ActionsView::List(seq![Action::DeletePreviousChar])
        } else {
            no_actions()
        },
        _ => no_actions(),
    }
}

/// The insert-mode table for key presses without modifiers.
pub open spec fn insert_blank(code: KeyCode) -> ActionsView {
    match code {
        KeyCode::Char(c) => ActionsView::List(seq![Action::InsertChar(c)]),
        KeyCode::Backspace => ActionsView::List(seq![Action::DeletePreviousChar]),
        KeyCode::Esc => ActionsView::List(
            seq![Action::SelectMode(Mode::Normal), Action::GoTo(GoToAction::Left)],
        ),
        _ => no_actions(),
    }
}

/// The insert-mode table for key presses with shift held.
pub open spec fn insert_shift(code: KeyCode) -> ActionsView {
    match code {
        KeyCode::Char(c) => ActionsView::List(seq![Action::InsertChar(c)]),
        _ => no_actions(),
    }
}

/// The per-mode dispatch for unmodified key presses; the arrow keys move the
/// cursor in every mode.
pub open spec fn mode_blank(m: Mode, code: KeyCode) -> ActionsView {
    if code == KeyCode::Left {
        ActionsView::List(seq![Action::GoTo(GoToAction::Left)])
    } else if code == KeyCode::Right {
        ActionsView::List(seq![Action::GoTo(GoToAction::Right)])
    } else {
        match m {
            Mode::Insert => insert_blank(code),
            Mode::Normal => normal_blank(code),
        }
    }
}

/// The per-mode dispatch for key presses with control held.
pub open spec fn mode_ctrl(m: Mode, code: KeyCode) -> ActionsView {
    match m {
        Mode::Insert => no_actions(),
        Mode::Normal => normal_ctrl(code),
    }
}

/// The per-mode dispatch for key presses with shift held.
pub open spec fn mode_shift(m: Mode, code: KeyCode) -> ActionsView {
    match m {
        Mode::Insert => insert_shift(code),
        Mode::Normal => normal_shift(code),
    }
}

/// What one key event yields when no pending state is live: the shift
/// normalisation, then the table for the event's modifier combination.
pub open spec fn non_opending_actions(m: Mode, e: KeyEvent) -> ActionsView {
    let f = shift_fixed(e);
    match f.modifiers {
        KeyModifiers::Plain => mode_blank(m, f.code),
        KeyModifiers::Control => mode_ctrl(m, f.code),
        KeyModifiers::Shift => mode_shift(m, f.code),
        KeyModifiers::Other => no_actions(),
    }
}

/// Resolves a find-motion pending state with its target character: the
/// motion, plus the paired adjustment motion for the `till` variants.
pub open spec fn combinable_goto(k: CombinablePending, ch: char) -> (GoToAction, Option<
    GoToAction,
>) {
    match k {
        CombinablePending::FindNext => (GoToAction::NextOccurrenceOf(ch), None),
        CombinablePending::FindNextDecrement => (
            GoToAction::NextOccurrenceOf(ch),
            Some(GoToAction::Left),
        ),
        CombinablePending::FindPrevious => (GoToAction::PreviousOccurrenceOf(ch), None),
        CombinablePending::FindPreviousIncrement => (
            GoToAction::PreviousOccurrenceOf(ch),
            Some(GoToAction::Right),
        ),
    }
}

/// Resolves a find-motion under an operator: the adjustment motion follows
/// the operator's semantics (`df` deletes through the found character, so
/// a rightward step is appended; `dt` keeps the plain `till` adjustment).
pub open spec fn operator_goto(k: CombinablePending, ch: char) -> (GoToAction, Option<
    GoToAction,
>) {
    let pair = combinable_goto(k, ch);
    let second = match k {
        CombinablePending::FindNext => Some(GoToAction::Right),
        CombinablePending::FindNextDecrement => None,
        CombinablePending::FindPrevious => pair.1,
        CombinablePending::FindPreviousIncrement => pair.1,
    };
    (pair.0, second)
}

/// What `delete` or `change` yields once its following key event arrives:
/// a single motion is combined into a ranged delete, a find-motion pending
/// escalates, a doubled operator deletes the whole line, and anything else
/// cancels.
pub open spec fn operator_actions(m: Mode, e: KeyEvent, op: OPending) -> ActionsView {
    match non_opending_actions(m, e) {
        ActionsView::List(l) => if l.len() == 1 && (l[0] matches Action::GoTo(g)) {
            if op is Change {
                ActionsView::List(
                    seq![
                        Action::Delete(l[0]->GoTo_0, None),
                        Action::SelectMode(Mode::Insert),
                    ],
                )
            } else {
                ActionsView::List(seq![Action::Delete(l[0]->GoTo_0, None)])
            }
        } else {
            ActionsView::List(l)
        },
        ActionsView::OPending(p2) => match p2 {
            OPending::CombinablePending(k) => if op is Change {
                ActionsView::OPending(OPending::ChangeAction(k))
            } else {
                ActionsView::OPending(OPending::DeleteAction(k))
            },
            _ => if p2 == op {
                if op is Change {
                    ActionsView::List(
                        seq![Action::DeleteLine, Action::SelectMode(Mode::Insert)],
                    )
                } else {
                    ActionsView::List(seq![Action::DeleteLine])
                }
            } else {
                no_actions()
            },
        },
    }
}

/// What one key event yields while a pending state is live.
pub open spec fn opending_actions(m: Mode, p: OPending, e: KeyEvent) -> ActionsView {
    match e.code {
        KeyCode::Char(ch) => match p {
            OPending::GoTo => if ch == 'e' {
                ActionsView::List(seq![Action::GoTo(GoToAction::EndOfPreviousWord)])
            } else if ch == 'E' {
                ActionsView::List(seq![Action::GoTo(GoToAction::EndOfPreviousWORD)])
            } else {
                no_actions()
            },
            OPending::CombinablePending(k) => {
                let pair = combinable_goto(k, ch);
                match pair.1 {
                    None => ActionsView::List(seq![Action::GoTo(pair.0)]),
                    Some(second) => ActionsView::List(
                        seq![Action::GoTo(pair.0), Action::GoTo(second)],
                    ),
                }
            },
            OPending::ReplaceOne => ActionsView::List(seq![Action::ReplaceWith(ch)]),
            OPending::DeleteAction(k) => {
                let pair = operator_goto(k, ch);
                ActionsView::List(seq![Action::Delete(pair.0, pair.1)])
            },
            OPending::ChangeAction(k) => {
                let pair = operator_goto(k, ch);
                ActionsView::List(
                    seq![Action::Delete(pair.0, pair.1), Action::SelectMode(Mode::Insert)],
                )
            },
            OPending::Change => operator_actions(m, e, OPending::Change),
            OPending::Delete => operator_actions(m, e, OPending::Delete),
        },
        _ => no_actions(),
    }
}

/// The full state machine step: one key event, given the live pending state,
/// yields the actions to apply or the next pending state.
pub open spec fn event_actions(m: Mode, e: KeyEvent, pending: Option<OPending>) -> ActionsView {
    match pending {
        None => non_opending_actions(m, e),
        Some(p) => opending_actions(m, p, e),
    }
}

/// Key handling for normal mode.
#[derive(Debug)]
pub struct Normal;

/// Key handling for insert mode.
#[derive(Debug)]
pub struct Insert;

impl Normal {
    /// The normal-mode key table for presses without modifiers.
    pub fn handle_blank_key_press(&self, code: KeyCode) -> (r: Actions)
        ensures
            r@ == normal_blank(code),
    {
        match code {
            KeyCode::Char(c) => {
                if c == '$' {
                    Actions::one(Action::GoTo(GoToAction::EndOfLine))
                } else if c == '0' {
                    Actions::one(Action::GoTo(GoToAction::BeginningOfLine))
                } else if c == '^' {
                    Actions::one(Action::GoTo(GoToAction::FirstNonSpace))
                } else if c == 'a' {
                    Actions::two(
                        Action::GoTo(GoToAction::Right),
                        Action::SelectMode(Mode::Insert),
                    )
                } else if c == 'b' {
                    Actions::one(Action::GoTo(GoToAction::BeginningOfWord))
                } else if c == 'c' {
                    Actions::pending(OPending::Change)
                } else if c == 'd' {
                    Actions::pending(OPending::Delete)
                } else if c == 'e' {
                    Actions::one(Action::GoTo(GoToAction::EndWord))
                } else if c == 'f' {
                    Actions::pending(OPending::CombinablePending(CombinablePending::FindNext))
                } else if c == 'g' {
                    Actions::pending(OPending::GoTo)
                } else if c == 'h' {
                    Actions::one(Action::GoTo(GoToAction::Left))
                } else if c == 'i' {
                    Actions::one(Action::SelectMode(Mode::Insert))
                } else if c == 'l' {
                    Actions::one(Action::GoTo(GoToAction::Right))
                } else if c == 'x' {
                    Actions::one(Action::DeleteNextChar)
                } else if c == 'r' {
                    Actions::pending(OPending::ReplaceOne)
                } else if c == 's' {
                    Actions::three(
                        Action::GoTo(GoToAction::Right),
                        Action::DeletePreviousChar,
                        Action::SelectMode(Mode::Insert),
                    )
                } else if c == 't' {
                    Actions::pending(
                        OPending::CombinablePending(CombinablePending::FindNextDecrement),
                    )
                } else if c == 'u' {
                    Actions::one(Action::Undo)
                } else if c == 'w' {
                    Actions::one(Action::GoTo(GoToAction::NextWord))
                } else if c == '~' {
                    Actions::two(Action::ToggleCapitalisation, Action::GoTo(GoToAction::Right))
                } else {
                    Actions::none()
                }
            },
            KeyCode::Backspace => Actions::one(Action::GoTo(GoToAction::Left)),
            _ => Actions::none(),
        }
    }

    /// The normal-mode key table for presses with control held.
    pub fn handle_ctrl_key_press(&self, code: KeyCode) -> (r: Actions)
        ensures
            r@ == normal_ctrl(code),
    {
        match code {
            KeyCode::Char(c) => {
                if c == 'r' {
                    Actions::one(Action::Redo)
                } else {
                    Actions::none()
                }
            },
            _ => Actions::none(),
        }
    }

    /// The normal-mode key table for presses with shift held.
    pub fn handle_shift_key_press(&self, code: KeyCode) -> (r: Actions)
        ensures
            r@ == normal_shift(code),
    {
        match code {
            KeyCode::Char(c) => {
                if c == 'A' {
                    Actions::two(
                        Action::GoTo(GoToAction::EndOfLine),
                        Action::SelectMode(Mode::Insert),
                    )
                } else if c == 'B' {
                    Actions::one(Action::GoTo(GoToAction::BeginningOfWORD))
                } else if c == 'D' {
                    Actions::one(Action::Delete(GoToAction::EndOfLine, None))
                } else if c == 'E' {
                    Actions::one(Action::GoTo(GoToAction::EndWORD))
                } else if c == 'F' {
                    Actions::pending(
                        OPending::CombinablePending(CombinablePending::FindPrevious),
                    )
                } else if c == 'I' {
                    Actions::two(
                        Action::GoTo(GoToAction::FirstNonSpace),
                        Action::SelectMode(Mode::Insert),
                    )
                } else if c == 'S' {
                    Actions::two(Action::DeleteLine, Action::SelectMode(Mode::Insert))
                } else if c == 'T' {
                    Actions::pending(
                        OPending::CombinablePending(CombinablePending::FindPreviousIncrement),
                    )
                } else if c == 'W' {
                    Actions::one(Action::GoTo(GoToAction::NextWORD))
                } else if c == 'X' {
                    Actions::one(Action::DeletePreviousChar)
                } else {
                    Actions::none()
                }
            },
            _ => Actions::none(),
        }
    }
}

impl Insert {
    /// The insert-mode key table for presses without modifiers.
    pub fn handle_blank_key_press(&self, code: KeyCode) -> (r: Actions)
        ensures
            r@ == insert_blank(code),
    {
        match code {
            KeyCode::Char(c) => Actions::one(Action::InsertChar(c)),
            KeyCode::Backspace => Actions::one(Action::DeletePreviousChar),
            KeyCode::Esc => Actions::two(
                Action::SelectMode(Mode::Normal),
                Action::GoTo(GoToAction::Left),
            ),
            _ => Actions::none(),
        }
    }

    /// The insert-mode key table for presses with shift held.
    pub fn handle_shift_key_press(&self, code: KeyCode) -> (r: Actions)
        ensures
            r@ == insert_shift(code),
    {
        match code {
            KeyCode::Char(c) => Actions::one(Action::InsertChar(c)),
            _ => Actions::none(),
        }
    }
}

impl Mode {
    /// Resolves a find-motion pending state with its target character.
    pub fn handle_combinable_opending_char_event(
        combinable_pending: CombinablePending,
        ch: char,
    ) -> (r: (GoToAction, Option<GoToAction>))
        ensures
            r == combinable_goto(combinable_pending, ch),
    {
        match combinable_pending {
            CombinablePending::FindNext => (GoToAction::NextOccurrenceOf(ch), None),
            CombinablePending::FindNextDecrement => (
                GoToAction::NextOccurrenceOf(ch),
                Some(GoToAction::Left),
            ),
            CombinablePending::FindPrevious => (GoToAction::PreviousOccurrenceOf(ch), None),
            CombinablePending::FindPreviousIncrement => (
                GoToAction::PreviousOccurrenceOf(ch),
                Some(GoToAction::Right),
            ),
        }
    }

    /// Resolves a find-motion under an operator (`df`, `ct`, ...).
    pub fn handle_operator_action(action: CombinablePending, ch: char) -> (r: (
        GoToAction,
        Option<GoToAction>,
    ))
        ensures
            r == operator_goto(action, ch),
    {
        let pair = Mode::handle_combinable_opending_char_event(action, ch);
        let second = match action {
            CombinablePending::FindNext => Some(GoToAction::Right),
            CombinablePending::FindNextDecrement => None,
            CombinablePending::FindPrevious => pair.1,
            CombinablePending::FindPreviousIncrement => pair.1,
        };
        (pair.0, second)
    }

    /// Dispatches an unmodified key press; arrows move in every mode.
    pub fn handle_blank_key_press(&self, code: KeyCode) -> (r: Actions)
        ensures
            r@ == mode_blank(*self, code),
    {
        match code {
            KeyCode::Left => Actions::one(Action::GoTo(GoToAction::Left)),
            KeyCode::Right => Actions::one(Action::GoTo(GoToAction::Right)),
            _ => match self {
                Mode::Insert => Insert.handle_blank_key_press(code),
                Mode::Normal => Normal.handle_blank_key_press(code),
            },
        }
    }

    /// Dispatches a key press with control held.
    pub fn handle_ctrl_key_press(&self, code: KeyCode) -> (r: Actions)
        ensures
            r@ == mode_ctrl(*self, code),
    {
        match self {
            Mode::Insert => Actions::none(),
            Mode::Normal => Normal.handle_ctrl_key_press(code),
        }
    }

    /// Dispatches a key press with shift held.
    pub fn handle_shift_key_press(&self, code: KeyCode) -> (r: Actions)
        ensures
            r@ == mode_shift(*self, code),
    {
        match self {
            Mode::Insert => Insert.handle_shift_key_press(code),
            Mode::Normal => Normal.handle_shift_key_press(code),
        }
    }

    /// Handles a key event when no pending state is live.
    pub fn handle_non_opending_event(self, event: &KeyEvent) -> (r: Actions)
        ensures
            r@ == non_opending_actions(self, *event),
    {
        let mut key_event = *event;
        fix_shift_modifier(&mut key_event);
        match key_event.modifiers {
            KeyModifiers::Plain => self.handle_blank_key_press(key_event.code),
            KeyModifiers::Control => self.handle_ctrl_key_press(key_event.code),
            KeyModifiers::Shift => self.handle_shift_key_press(key_event.code),
            KeyModifiers::Other => Actions::none(),
        }
    }

    /// Handles the key event that follows `d` or `c`.
    pub fn handle_operator(self, event: &KeyEvent, opending: OPending) -> (r: Actions)
        ensures
            r@ == operator_actions(self, *event, opending),
    {
        let is_change = matches!(opending, OPending::Change);
        match self.handle_non_opending_event(event) {
            Actions::List(list) => {
                if list.len() == 1 {
                    match list[0] {
                        Action::GoTo(goto_action) => {
                            if is_change {
                                Actions::two(
                                    Action::Delete(goto_action, None),
                                    Action::SelectMode(Mode::Insert),
                                )
                            } else {
                                Actions::one(Action::Delete(goto_action, None))
                            }
                        },
                        _ => Actions::List(list),
                    }
                } else {
                    Actions::List(list)
                }
            },
            Actions::OPending(p2) => match p2 {
                OPending::CombinablePending(k) => {
                    if is_change {
                        Actions::pending(OPending::ChangeAction(k))
                    } else {
                        Actions::pending(OPending::DeleteAction(k))
                    }
                },
                _ => {
                    if p2 == opending {
                        if is_change {
                            Actions::two(Action::DeleteLine, Action::SelectMode(Mode::Insert))
                        } else {
                            Actions::one(Action::DeleteLine)
                        }
                    } else {
                        Actions::none()
                    }
                },
            },
        }
    }

    /// Handles a key event while a pending state is live and waiting.
    pub fn handle_opending_event(self, opending: OPending, event: &KeyEvent) -> (r: Actions)
        ensures
            r@ == opending_actions(self, opending, *event),
    {
        match event.code {
            KeyCode::Char(ch) => match opending {
                OPending::GoTo => {
                    if ch == 'e' {
                        Actions::one(Action::GoTo(GoToAction::EndOfPreviousWord))
                    } else if ch == 'E' {
                        Actions::one(Action::GoTo(GoToAction::EndOfPreviousWORD))
                    } else {
                        Actions::none()
                    }
                },
                OPending::CombinablePending(k) => {
                    let pair = Mode::handle_combinable_opending_char_event(k, ch);
                    match pair.1 {
                        None => Actions::one(Action::GoTo(pair.0)),
                        Some(second) => Actions::two(Action::GoTo(pair.0), Action::GoTo(second)),
                    }
                },
                OPending::ReplaceOne => Actions::one(Action::ReplaceWith(ch)),
                OPending::DeleteAction(k) => {
                    let pair = Mode::handle_operator_action(k, ch);
                    Actions::one(Action::Delete(pair.0, pair.1))
                },
                OPending::ChangeAction(k) => {
                    let pair = Mode::handle_operator_action(k, ch);
                    Actions::two(
                        Action::Delete(pair.0, pair.1),
                        Action::SelectMode(Mode::Insert),
                    )
                },
                OPending::Change => self.handle_operator(event, OPending::Change),
                OPending::Delete => self.handle_operator(event, OPending::Delete),
            },
            _ => Actions::none(),
        }
    }

    /// Handles one incoming key event, given the live pending state.
    pub fn handle_event(self, event: &KeyEvent, pending: Option<OPending>) -> (r: Actions)
        ensures
            r@ == event_actions(self, *event, pending),
    {
        match pending {
            None => self.handle_non_opending_event(event),
            Some(old_pending) => self.handle_opending_event(old_pending, event),
        }
    }
}

} // verus!
