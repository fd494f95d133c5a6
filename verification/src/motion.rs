//! The motion resolver: a pure function from line content and cursor offset
//! to the offset a motion targets. Character searches can fail; every other
//! motion always yields an offset within the line.

use crate::classify::{classify_run, run_class, CharClass};
use crate::keymaps::GoToAction;
use vstd::prelude::*;

verus! {

/// Index of the first position at or after `i` that leaves the class run
/// `k`, or the end of the line.
pub open spec fn skip_class_fwd(text: Seq<char>, k: CharClass, coarse: bool, i: int) -> int
    decreases text.len() - i,
{
    if 0 <= i < text.len() && run_class(text[i], coarse) == k {
        skip_class_fwd(text, k, coarse, i + 1)
    } else {
        i
    }
}

/// Index of the first position at or after `i` that holds a non-whitespace
/// character, or the end of the line.
pub open spec fn skip_space_fwd(text: Seq<char>, i: int) -> int
    decreases text.len() - i,
{
    if 0 <= i < text.len() && run_class(text[i], true) == CharClass::Whitespace {
        skip_space_fwd(text, i + 1)
    } else {
        i
    }
}

/// Index of the position just before the run of class `k` that covers `j`
/// (possibly `-1`); `j` itself when `j` lies outside such a run.
pub open spec fn skip_class_back(text: Seq<char>, k: CharClass, coarse: bool, j: int) -> int
    decreases j + 1,
{
    if 0 <= j < text.len() && run_class(text[j], coarse) == k {
        skip_class_back(text, k, coarse, j - 1)
    } else {
        j
    }
}

/// Index of the first position at or before `j` that holds a non-whitespace
/// character, or `-1`.
pub open spec fn skip_space_back(text: Seq<char>, j: int) -> int
    decreases j + 1,
{
    if 0 <= j < text.len() && run_class(text[j], true) == CharClass::Whitespace {
        skip_space_back(text, j - 1)
    } else {
        j
    }
}

/// Index of the last character of the class run of `k` that starts at or
/// covers `i`.
pub open spec fn run_end_fwd(text: Seq<char>, k: CharClass, coarse: bool, i: int) -> int
    decreases text.len() - i,
{
    if 0 <= i < text.len() && i + 1 < text.len() && run_class(text[i + 1], coarse) == k {
        run_end_fwd(text, k, coarse, i + 1)
    } else {
        i
    }
}

/// Index of the first occurrence of `c` at or after `i`, if any.
pub open spec fn find_fwd(text: Seq<char>, c: char, i: int) -> Option<int>
    decreases text.len() - i,
{
    if !(0 <= i < text.len()) {
        None
    } else if text[i] == c {
        Some(i)
    } else {
        find_fwd(text, c, i + 1)
    }
}

/// Index of the last occurrence of `c` at or before `j`, if any.
pub open spec fn find_back(text: Seq<char>, c: char, j: int) -> Option<int>
    decreases j + 1,
{
    if !(0 <= j < text.len()) {
        None
    } else if text[j] == c {
        Some(j)
    } else {
        find_back(text, c, j - 1)
    }
}

/// Target of `w`/`W`: skip the class run under the cursor, then whitespace;
/// the end of the line when nothing remains.
pub open spec fn next_word_of(text: Seq<char>, cur: int, coarse: bool) -> int {
    if cur >= text.len() {
        text.len() as int
    } else {
        skip_space_fwd(text, skip_class_fwd(text, run_class(text[cur], coarse), coarse, cur))
    }
}

/// Target of `b`/`B`: scan backward over whitespace, then to the start of
/// the class run found there; the start of the line when nothing remains.
pub open spec fn begin_word_of(text: Seq<char>, cur: int, coarse: bool) -> int {
    if cur <= 0 {
        0
    } else {
        let j = skip_space_back(text, cur - 1);
        if j < 0 {
            0
        } else {
            skip_class_back(text, run_class(text[j], coarse), coarse, j) + 1
        }
    }
}

/// Target of `e`/`E`: step forward, skip whitespace, then go to the end of
/// the class run found there; the last offset when the scan leaves the line.
pub open spec fn end_word_of(text: Seq<char>, cur: int, coarse: bool) -> int {
    let i = skip_space_fwd(text, cur + 1);
    if i >= text.len() {
        if text.len() == 0 {
            0
        } else {
            text.len() - 1
        }
    } else {
        run_end_fwd(text, run_class(text[i], coarse), coarse, i)
    }
}

/// Target of `ge`/`gE`: scan backward past the class run under the cursor
/// and any whitespace before it, to the end of the previous run; the start
/// of the line when nothing remains.
pub open spec fn end_prev_word_of(text: Seq<char>, cur: int, coarse: bool) -> int {
    if text.len() == 0 {
        0
    } else {
        let p = if cur < text.len() { cur } else { text.len() - 1 };
        let j = skip_class_back(text, run_class(text[p], coarse), coarse, p);
        let j2 = skip_space_back(text, j);
        if j2 < 0 {
            0
        } else {
            j2
        }
    }
}

/// Target of a find-forward motion: the first occurrence strictly after the
/// cursor, if any.
pub open spec fn next_occurrence_of(text: Seq<char>, c: char, cur: int) -> Option<int> {
    find_fwd(text, c, cur + 1)
}

/// Target of a find-backward motion: the last occurrence strictly before
/// the cursor, if any.
pub open spec fn prev_occurrence_of(text: Seq<char>, c: char, cur: int) -> Option<int> {
    find_back(text, c, cur - 1)
}

/// Where a motion sends the cursor on the given line: `None` exactly when a
/// character search finds no occurrence; every other motion yields an offset.
pub open spec fn resolve_spec(motion: GoToAction, text: Seq<char>, cur: int) -> Option<int> {
    match motion {
        GoToAction::BeginningOfLine => Some(0int),
        GoToAction::BeginningOfWORD => Some(begin_word_of(text, cur, true)),
        GoToAction::BeginningOfWord => Some(begin_word_of(text, cur, false)),
        GoToAction::EndOfLine => Some(text.len() as int),
        GoToAction::EndOfPreviousWORD => Some(end_prev_word_of(text, cur, true)),
        GoToAction::EndOfPreviousWord => Some(end_prev_word_of(text, cur, false)),
        GoToAction::EndWORD => Some(end_word_of(text, cur, true)),
        GoToAction::EndWord => Some(end_word_of(text, cur, false)),
        GoToAction::FirstNonSpace => Some(skip_space_fwd(text, 0)),
        GoToAction::Left => Some(if cur > 0 { cur - 1 } else { 0int }),
        GoToAction::NextOccurrenceOf(c) => next_occurrence_of(text, c, cur),
        GoToAction::NextWORD => Some(next_word_of(text, cur, true)),
        GoToAction::NextWord => Some(next_word_of(text, cur, false)),
        GoToAction::PreviousOccurrenceOf(c) => prev_occurrence_of(text, c, cur),
        GoToAction::Right => Some(if cur < text.len() { cur + 1 } else { cur }),
    }
}

/// Law: `Left` at the start of the line is a no-op.
pub proof fn lemma_left_at_line_start(text: Seq<char>)
    ensures
        resolve_spec(GoToAction::Left, text, 0) == Some(0int),
{
}

/// Law: `Right` at the end of the line is a no-op.
pub proof fn lemma_right_at_line_end(text: Seq<char>)
    ensures
        resolve_spec(GoToAction::Right, text, text.len() as int) == Some(text.len() as int),
{
}

/// A forward search for an absent character fails.
pub proof fn lemma_find_fwd_absent(text: Seq<char>, c: char, i: int)
    requires
        forall|k: int| 0 <= k < text.len() ==> text[k] != c,
    ensures
        find_fwd(text, c, i) is None,
    decreases text.len() - i,
{
    if 0 <= i < text.len() {
        lemma_find_fwd_absent(text, c, i + 1);
    }
}

/// A backward search for an absent character fails.
pub proof fn lemma_find_back_absent(text: Seq<char>, c: char, j: int)
    requires
        forall|k: int| 0 <= k < text.len() ==> text[k] != c,
    ensures
        find_back(text, c, j) is None,
    decreases j + 1,
{
    if 0 <= j < text.len() {
        lemma_find_back_absent(text, c, j - 1);
    }
}

/// What a forward search returns is an occurrence within the line.
pub proof fn lemma_find_fwd_in_range(text: Seq<char>, c: char, i: int)
    ensures
        find_fwd(text, c, i) matches Some(x) ==> i <= x < text.len() && text[x] == c,
    decreases text.len() - i,
{
    if 0 <= i < text.len() && text[i] != c {
        lemma_find_fwd_in_range(text, c, i + 1);
    }
}

/// What a backward search returns is an occurrence within the line.
pub proof fn lemma_find_back_in_range(text: Seq<char>, c: char, j: int)
    ensures
        find_back(text, c, j) matches Some(x) ==> 0 <= x <= j && x < text.len() && text[x] == c,
    decreases j + 1,
{
    if 0 <= j < text.len() && text[j] != c {
        lemma_find_back_in_range(text, c, j - 1);
    }
}

fn skip_class_fwd_x(text: &Vec<char>, k: CharClass, coarse: bool, start: usize) -> (r: usize)
    requires
        start <= text@.len(),
    ensures
        r as int == skip_class_fwd(text@, k, coarse, start as int),
        start <= r <= text@.len(),
{
    let mut i = start;
    while i < text.len() && classify_run(text[i], coarse) == k
        invariant
            start <= i <= text@.len(),
            skip_class_fwd(text@, k, coarse, start as int) == skip_class_fwd(
                text@,
                k,
                coarse,
                i as int,
            ),
        decreases text@.len() - i,
    {
        i = i + 1;
    }
    i
}

fn skip_space_fwd_x(text: &Vec<char>, start: usize) -> (r: usize)
    requires
        start <= text@.len(),
    ensures
        r as int == skip_space_fwd(text@, start as int),
        start <= r <= text@.len(),
{
    let mut i = start;
    while i < text.len() && classify_run(text[i], true) == CharClass::Whitespace
        invariant
            start <= i <= text@.len(),
            skip_space_fwd(text@, start as int) == skip_space_fwd(text@, i as int),
        decreases text@.len() - i,
    {
        i = i + 1;
    }
    i
}

/// Scans backward from `start_plus - 1` while inside the class run `k`;
/// returns one past the final position, i.e. the start of the run.
fn skip_class_back_x(text: &Vec<char>, k: CharClass, coarse: bool, start_plus: usize) -> (r:
    usize)
    requires
        start_plus <= text@.len(),
    ensures
        r as int == skip_class_back(text@, k, coarse, start_plus as int - 1) + 1,
        r <= start_plus,
{
    let mut p = start_plus;
    while p > 0 && classify_run(text[p - 1], coarse) == k
        invariant
            0 <= p <= start_plus <= text@.len(),
            skip_class_back(text@, k, coarse, start_plus as int - 1) == skip_class_back(
                text@,
                k,
                coarse,
                p as int - 1,
            ),
        decreases p,
    {
        p = p - 1;
    }
    p
}

/// Scans backward from `start_plus - 1` over whitespace; returns one past
/// the final position.
fn skip_space_back_x(text: &Vec<char>, start_plus: usize) -> (r: usize)
    requires
        start_plus <= text@.len(),
    ensures
        r as int == skip_space_back(text@, start_plus as int - 1) + 1,
        r <= start_plus,
{
    let mut p = start_plus;
    while p > 0 && classify_run(text[p - 1], true) == CharClass::Whitespace
        invariant
            0 <= p <= start_plus <= text@.len(),
            skip_space_back(text@, start_plus as int - 1) == skip_space_back(text@, p as int - 1),
        decreases p,
    {
        p = p - 1;
    }
    p
}

fn run_end_fwd_x(text: &Vec<char>, k: CharClass, coarse: bool, start: usize) -> (r: usize)
    requires
        start < text@.len(),
    ensures
        r as int == run_end_fwd(text@, k, coarse, start as int),
        start <= r < text@.len(),
{
    let mut i = start;
    while i < text.len() - 1 && classify_run(text[i + 1], coarse) == k
        invariant
            start <= i < text@.len(),
            run_end_fwd(text@, k, coarse, start as int) == run_end_fwd(text@, k, coarse, i as int),
        decreases text@.len() - i,
    {
        i = i + 1;
    }
    i
}

fn find_fwd_x(text: &Vec<char>, c: char, start: usize) -> (r: Option<usize>)
    requires
        start <= text@.len(),
    ensures
        (r is Some <==> find_fwd(text@, c, start as int) is Some),
        r matches Some(t) ==> find_fwd(text@, c, start as int) == Some(t as int) && t
            < text@.len(),
{
    let mut i = start;
    while i < text.len()
        invariant
            start <= i <= text@.len(),
            find_fwd(text@, c, start as int) == find_fwd(text@, c, i as int),
        decreases text@.len() - i,
    {
        if text[i] == c {
            return Some(i);
        }
        i = i + 1;
    }
    None
}

fn find_back_x(text: &Vec<char>, c: char, start_plus: usize) -> (r: Option<usize>)
    requires
        start_plus <= text@.len(),
    ensures
        (r is Some <==> find_back(text@, c, start_plus as int - 1) is Some),
        r matches Some(t) ==> find_back(text@, c, start_plus as int - 1) == Some(t as int) && t
            < text@.len(),
{
    let mut p = start_plus;
    while p > 0
        invariant
            0 <= p <= start_plus <= text@.len(),
            find_back(text@, c, start_plus as int - 1) == find_back(text@, c, p as int - 1),
        decreases p,
    {
        if text[p - 1] == c {
            return Some(p - 1);
        }
        p = p - 1;
    }
    None
}

fn next_word_x(text: &Vec<char>, cursor: usize, coarse: bool) -> (r: usize)
    requires
        cursor <= text@.len(),
    ensures
        r as int == next_word_of(text@, cursor as int, coarse),
        r <= text@.len(),
{
    if cursor >= text.len() {
        text.len()
    } else {
        let k = classify_run(text[cursor], coarse);
        let i = skip_class_fwd_x(text, k, coarse, cursor);
        skip_space_fwd_x(text, i)
    }
}

fn begin_word_x(text: &Vec<char>, cursor: usize, coarse: bool) -> (r: usize)
    requires
        cursor <= text@.len(),
    ensures
        r as int == begin_word_of(text@, cursor as int, coarse),
        r <= text@.len(),
{
    if cursor == 0 {
        0
    } else {
        let jp = skip_space_back_x(text, cursor);
        if jp == 0 {
            0
        } else {
            let k = classify_run(text[jp - 1], coarse);
            skip_class_back_x(text, k, coarse, jp)
        }
    }
}

fn end_word_x(text: &Vec<char>, cursor: usize, coarse: bool) -> (r: usize)
    requires
        cursor <= text@.len(),
    ensures
        r as int == end_word_of(text@, cursor as int, coarse),
        r <= text@.len(),
{
    if cursor < text.len() {
        let i = skip_space_fwd_x(text, cursor + 1);
        if i < text.len() {
            let k = classify_run(text[i], coarse);
            run_end_fwd_x(text, k, coarse, i)
        } else {
            text.len() - 1
        }
    } else {
        if text.len() == 0 {
            0
        } else {
            text.len() - 1
        }
    }
}

fn end_prev_word_x(text: &Vec<char>, cursor: usize, coarse: bool) -> (r: usize)
    requires
        cursor <= text@.len(),
    ensures
        r as int == end_prev_word_of(text@, cursor as int, coarse),
        r <= text@.len(),
{
    if text.len() == 0 {
        0
    } else {
        let p = if cursor < text.len() {
            cursor
        } else {
            text.len() - 1
        };
        let k = classify_run(text[p], coarse);
        let jp = skip_class_back_x(text, k, coarse, p + 1);
        let j2p = skip_space_back_x(text, jp);
        if j2p == 0 {
            0
        } else {
            j2p - 1
        }
    }
}

/// Computes the offset the motion targets on the given line, from the given
/// cursor offset; `None` exactly when a character search finds no occurrence.
pub fn resolve(motion: GoToAction, text: &Vec<char>, cursor: usize) -> (r: Option<usize>)
    requires
        cursor <= text@.len(),
    ensures
        (r is Some <==> resolve_spec(motion, text@, cursor as int) is Some),
        r matches Some(t) ==> resolve_spec(motion, text@, cursor as int) == Some(t as int) && t
            <= text@.len(),
{
    match motion {
        GoToAction::BeginningOfLine => Some(0),
        GoToAction::BeginningOfWORD => Some(begin_word_x(text, cursor, true)),
        GoToAction::BeginningOfWord => Some(begin_word_x(text, cursor, false)),
        GoToAction::EndOfLine => Some(text.len()),
        GoToAction::EndOfPreviousWORD => Some(end_prev_word_x(text, cursor, true)),
        GoToAction::EndOfPreviousWord => Some(end_prev_word_x(text, cursor, false)),
        GoToAction::EndWORD => Some(end_word_x(text, cursor, true)),
        GoToAction::EndWord => Some(end_word_x(text, cursor, false)),
        GoToAction::FirstNonSpace => Some(skip_space_fwd_x(text, 0)),
        GoToAction::Left => Some(
            if cursor > 0 {
                cursor - 1
            } else {
                0
            },
        ),
        GoToAction::NextOccurrenceOf(c) => {
            if cursor >= text.len() {
                proof {
                    assert(find_fwd(text@, c, cursor as int + 1) is None);
                }
                None
            } else {
                find_fwd_x(text, c, cursor + 1)
            }
        },
        GoToAction::NextWORD => Some(next_word_x(text, cursor, true)),
        GoToAction::NextWord => Some(next_word_x(text, cursor, false)),
        GoToAction::PreviousOccurrenceOf(c) => find_back_x(text, c, cursor),
        GoToAction::Right => Some(
            if cursor < text.len() {
                cursor + 1
            } else {
                cursor
            },
        ),
    }
}

} // verus!
