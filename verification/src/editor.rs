//! The editor's state: the viewport, the cursor inside it and the lines on
//! display. Cursor motion clamps at the viewport's edges.

use vstd::prelude::*;
use crate::input::EditorKey;

verus! {

/// The byte of the quit key, `Ctrl-Q`.
pub const QUIT_KEY: u8 = 0x11;

/// The mathematical content of an [`EditorConfig`].
pub struct EditorModel {
    /// The cursor's column, counted from 0.
    pub cx: nat,
    /// The cursor's row, counted from 0.
    pub cy: nat,
    /// The viewport's height.
    pub rows: nat,
    /// The viewport's width.
    pub cols: nat,
    /// The lines on display, each as its characters.
    pub lines: Seq<Seq<char>>,
}

pub open spec fn moves_left(key: EditorKey) -> bool {
    key == EditorKey::ArrowLeft || key == EditorKey::Char(0x68)
}

pub open spec fn moves_down(key: EditorKey) -> bool {
    key == EditorKey::ArrowDown || key == EditorKey::Char(0x6a)
}

pub open spec fn moves_up(key: EditorKey) -> bool {
    key == EditorKey::ArrowUp || key == EditorKey::Char(0x6b)
}

pub open spec fn moves_right(key: EditorKey) -> bool {
    key == EditorKey::ArrowRight || key == EditorKey::Char(0x6c)
}

impl EditorModel {
    /// The viewport is not empty and the cursor lies inside it.
    pub open spec fn wf(self) -> bool {
        &&& self.rows >= 1
        &&& self.cols >= 1
        &&& self.cx < self.cols
        &&& self.cy < self.rows
    }

    pub open spec fn with_cursor(self, cx: nat, cy: nat) -> EditorModel {
        EditorModel { cx, cy, rows: self.rows, cols: self.cols, lines: self.lines }
    }

    /// The state after one key: a step that would leave the viewport is
    /// dropped, a page key jumps to the top or bottom row, `Home` and `End`
    /// to the first or last column, and any other key changes nothing.
    pub open spec fn after_key(self, key: EditorKey) -> EditorModel {
        if moves_left(key) {
            self.with_cursor(if self.cx > 0 { (self.cx - 1) as nat } else { self.cx }, self.cy)
        } else if moves_right(key) {
            self.with_cursor(if self.cx + 1 < self.cols { self.cx + 1 } else { self.cx }, self.cy)
        } else if moves_up(key) {
            self.with_cursor(self.cx, if self.cy > 0 { (self.cy - 1) as nat } else { self.cy })
        } else if moves_down(key) {
            self.with_cursor(self.cx, if self.cy + 1 < self.rows { self.cy + 1 } else { self.cy })
        } else if key == EditorKey::PageUp {
            self.with_cursor(self.cx, 0)
        } else if key == EditorKey::PageDown {
            self.with_cursor(self.cx, (self.rows - 1) as nat)
        } else if key == EditorKey::Home {
            self.with_cursor(0, self.cy)
        } else if key == EditorKey::End {
            self.with_cursor((self.cols - 1) as nat, self.cy)
        } else {
            self
        }
    }

    /// The state after a run of keys, applied first to last.
    pub open spec fn after_keys(self, keys: Seq<EditorKey>) -> EditorModel
        decreases keys.len(),
    {
        if keys.len() == 0 {
            self
        } else {
            self.after_keys(keys.drop_last()).after_key(keys.last())
        }
    }

    /// The state after `count` presses of the same key.
    pub open spec fn after_repeated(self, key: EditorKey, count: nat) -> EditorModel
        decreases count,
    {
        if count == 0 {
            self
        } else {
            self.after_repeated(key, (count - 1) as nat).after_key(key)
        }
    }

    /// What a polled key press does: `Ctrl-Q` and a poll that timed out
    /// leave the state alone, every other key acts as in `after_key`.
    pub open spec fn after_poll(self, polled: Option<EditorKey>) -> EditorModel {
        match polled {
            Some(key) => if key == EditorKey::Char(QUIT_KEY) {
                self
            } else {
                self.after_key(key)
            },
            None => self,
        }
    }
}

/// The characters of each line.
pub open spec fn lines_of(rows: Seq<String>) -> Seq<Seq<char>> {
    Seq::new(rows.len(), |i: int| rows[i]@)
}

/// Editor state: the viewport's size, the cursor and the lines on display.
pub struct EditorConfig {
    cx: usize,
    cy: usize,
    rows: usize,
    cols: usize,
    erows: Vec<String>,
}

impl View for EditorConfig {
    type V = EditorModel;

    closed spec fn view(&self) -> EditorModel {
        EditorModel {
            cx: self.cx as nat,
            cy: self.cy as nat,
            rows: self.rows as nat,
            cols: self.cols as nat,
            lines: lines_of(self.erows@),
        }
    }
}

impl EditorConfig {
    /// A viewport of `rows` by `cols` cells showing `erows`, with the
    /// cursor at the origin.
    pub fn setup(rows: usize, cols: usize, erows: Vec<String>) -> (config: EditorConfig)
        requires
            rows >= 1,
            cols >= 1,
        ensures
            config@.wf(),
            config@ == (EditorModel { cx: 0, cy: 0, rows: rows as nat, cols: cols as nat, lines: lines_of(erows@) }),
    {
        EditorConfig { cx: 0, cy: 0, rows, cols, erows }
    }

    /// Moves the cursor as `key` asks, never out of the viewport.
    pub fn move_cursor(&mut self, key: &EditorKey)
        requires
            old(self)@.wf(),
        ensures
            final(self)@ == old(self)@.after_key(*key),
            final(self)@.wf(),
    {
        match *key {
            EditorKey::ArrowLeft | EditorKey::Char(0x68) => {
                if self.cx > 0 {
                    self.cx -= 1;
                }
            },
            EditorKey::ArrowDown | EditorKey::Char(0x6a) => {
                if self.cy < self.rows - 1 {
                    self.cy += 1;
                }
            },
            EditorKey::ArrowUp | EditorKey::Char(0x6b) => {
                if self.cy > 0 {
                    self.cy -= 1;
                }
            },
            EditorKey::ArrowRight | EditorKey::Char(0x6c) => {
                if self.cx < self.cols - 1 {
                    self.cx += 1;
                }
            },
            EditorKey::PageUp => {
                self.cy = 0;
            },
            EditorKey::PageDown => {
                self.cy = self.rows - 1;
            },
            EditorKey::Home => {
                self.cx = 0;
            },
            EditorKey::End => {
                self.cx = self.cols - 1;
            },
            _ => {},
        }
    }

    /// Handles the outcome of one poll for a key (`None` when the poll
    /// timed out) and says whether it is time to stop.
    pub fn process_keypress(&mut self, polled: Option<EditorKey>) -> (quit: bool)
        requires
            old(self)@.wf(),
        ensures
            quit == (polled == Some(EditorKey::Char(QUIT_KEY))),
            final(self)@ == old(self)@.after_poll(polled),
            final(self)@.wf(),
    {
        match polled {
            Some(EditorKey::Char(QUIT_KEY)) => true,
            Some(key) => {
                self.move_cursor(&key);
                false
            },
            None => false,
        }
    }

    /// The cursor's column, counted from 0.
    pub fn cx(&self) -> (cx: usize)
        ensures
            cx == self@.cx,
    {
        self.cx
    }

    /// The cursor's row, counted from 0.
    pub fn cy(&self) -> (cy: usize)
        ensures
            cy == self@.cy,
    {
        self.cy
    }

    /// The viewport's height.
    pub fn rows(&self) -> (rows: usize)
        ensures
            rows == self@.rows,
    {
        self.rows
    }

    /// The viewport's width.
    pub fn cols(&self) -> (cols: usize)
        ensures
            cols == self@.cols,
    {
        self.cols
    }

    /// The numbers of a state fit the machine's word.
    pub proof fn lemma_model_bounded(&self)
        ensures
            self@.cx <= usize::MAX,
            self@.cy <= usize::MAX,
            self@.rows <= usize::MAX,
            self@.cols <= usize::MAX,
    {
    }

    /// The lines on display.
    pub fn erows(&self) -> (erows: &Vec<String>)
        ensures
            lines_of(erows@) == self@.lines,
    {
        &self.erows
    }
}

/// Motion keeps the cursor inside the viewport: after any run of keys the
/// state is well-formed again, and the viewport and the lines are as before.
pub proof fn lemma_cursor_stays_inside(start: EditorModel, keys: Seq<EditorKey>)
    requires
        start.wf(),
    ensures
        start.after_keys(keys).wf(),
        start.after_keys(keys).cx < start.cols,
        start.after_keys(keys).cy < start.rows,
        start.after_keys(keys).rows == start.rows,
        start.after_keys(keys).cols == start.cols,
        start.after_keys(keys).lines == start.lines,
    decreases keys.len(),
{
    if keys.len() > 0 {
        lemma_cursor_stays_inside(start, keys.drop_last());
    }
}

/// `PageUp` puts the cursor on row 0 and `PageDown` on the last row,
/// whatever row it was on, and neither moves it sideways.
pub proof fn lemma_page_jumps_to_edge(start: EditorModel)
    requires
        start.wf(),
    ensures
        start.after_key(EditorKey::PageUp).cy == 0,
        start.after_key(EditorKey::PageDown).cy == start.rows - 1,
        start.after_key(EditorKey::PageUp).cx == start.cx,
        start.after_key(EditorKey::PageDown).cx == start.cx,
{
}

/// `count` clamped single steps up or down move the cursor by `count` rows
/// or to the edge, whichever comes first.
pub proof fn lemma_repeated_steps(start: EditorModel, count: nat)
    requires
        start.wf(),
    ensures
        start.after_repeated(EditorKey::ArrowUp, count) == start.with_cursor(
            start.cx,
            if start.cy >= count { (start.cy - count) as nat } else { 0 },
        ),
        start.after_repeated(EditorKey::ArrowDown, count) == start.with_cursor(
            start.cx,
            if start.cy + count < start.rows { start.cy + count } else { (start.rows - 1) as nat },
        ),
    decreases count,
{
    if count > 0 {
        lemma_repeated_steps(start, (count - 1) as nat);
    }
}

/// A page key does what as many single steps as the viewport has rows do.
pub proof fn lemma_page_is_repeated_step(start: EditorModel)
    requires
        start.wf(),
    ensures
        start.after_key(EditorKey::PageUp) == start.after_repeated(EditorKey::ArrowUp, start.rows),
        start.after_key(EditorKey::PageDown) == start.after_repeated(EditorKey::ArrowDown, start.rows),
{
    lemma_repeated_steps(start, start.rows);
}

} // verus!
