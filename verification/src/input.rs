//! Decoding of raw terminal input into logical key presses.
//!
//! A key press occupies one *slot* of reads from the terminal. Each read
//! either yields a byte or times out. The decoder is a small state machine
//! that is fed one read at a time and finishes a slot after at most four
//! reads.

use vstd::prelude::*;

verus! {

/// The escape byte that starts every multi-byte key sequence.
pub const ESCAPE: u8 = 0x1b;

/// A logical key press.
#[derive(Clone, Copy, Debug, PartialEq, Eq, Structural)]
pub enum EditorKey {
    Char(u8),
    ArrowUp,
    ArrowDown,
    ArrowRight,
    ArrowLeft,
    PageUp,
    PageDown,
    Home,
    End,
    Delete,
}

/// Where the decoder stands inside one slot.
#[derive(Clone, Copy, Debug, PartialEq, Eq, Structural)]
pub enum DecoderState {
    /// Nothing of the slot has been read yet.
    Start,
    /// The escape byte was read.
    Escaped,
    /// The escape byte and the read after it (which may have timed out).
    Introduced(Option<u8>),
    /// `ESC [` and a digit were read; the closing `~` is awaited.
    Numbered(u8),
}

/// What the decoder asks for after one read.
#[derive(Clone, Copy, Debug, PartialEq, Eq, Structural)]
pub enum DecoderStep {
    /// The slot is not finished: read once more and feed the outcome.
    More(DecoderState),
    /// The slot is finished, with a key or with nothing (the first read timed out).
    Done(Option<EditorKey>),
}

/// The outcome of decoding one slot out of a recorded run of reads.
#[derive(Clone, Copy, Debug, PartialEq, Eq, Structural)]
pub struct KeyRead {
    /// The key of the slot, if its first read yielded a byte.
    pub key: Option<EditorKey>,
    /// How many reads the slot took.
    pub consumed: usize,
}

pub open spec fn is_digit(b: u8) -> bool {
    0x30 <= b <= 0x39
}

/// The key that `ESC [ digit ~` stands for.
pub open spec fn numbered_key(digit: u8) -> EditorKey {
    if digit == 0x31 || digit == 0x37 {
        EditorKey::Home
    } else if digit == 0x33 {
        EditorKey::Delete
    } else if digit == 0x34 || digit == 0x38 {
        EditorKey::End
    } else if digit == 0x35 {
        EditorKey::PageUp
    } else if digit == 0x36 {
        EditorKey::PageDown
    } else {
        EditorKey::Char(ESCAPE)
    }
}

/// The key that `ESC [ letter` stands for.
pub open spec fn bracket_key(letter: u8) -> EditorKey {
    if letter == 0x41 {
        EditorKey::ArrowUp
    } else if letter == 0x42 {
        EditorKey::ArrowDown
    } else if letter == 0x43 {
        EditorKey::ArrowRight
    } else if letter == 0x44 {
        EditorKey::ArrowLeft
    } else if letter == 0x46 {
        EditorKey::End
    } else if letter == 0x48 {
        EditorKey::Home
    } else {
        EditorKey::Char(ESCAPE)
    }
}

/// The key that `ESC O letter` stands for.
pub open spec fn application_key(letter: u8) -> EditorKey {
    if letter == 0x46 {
        EditorKey::End
    } else if letter == 0x48 {
        EditorKey::Home
    } else {
        EditorKey::Char(ESCAPE)
    }
}

/// The `index`-th read of a recorded run; past its end every read times out.
pub open spec fn read_at(reads: Seq<Option<u8>>, index: int) -> Option<u8> {
    if 0 <= index < reads.len() {
        reads[index]
    } else {
        None
    }
}

/// Whether the slot that starts `reads` is `ESC [ digit`, the one form that
/// takes a fourth read.
pub open spec fn awaits_tilde(reads: Seq<Option<u8>>) -> bool {
    &&& read_at(reads, 0) == Some(ESCAPE)
    &&& read_at(reads, 1) == Some(0x5bu8)
    &&& read_at(reads, 2) is Some
    &&& is_digit(read_at(reads, 2)->0)
}

/// The key of the slot that starts `reads`.
pub open spec fn decoded_key(reads: Seq<Option<u8>>) -> Option<EditorKey> {
    match read_at(reads, 0) {
        None => None,
        Some(first) => if first != ESCAPE {
            Some(EditorKey::Char(first))
        } else {
            match (read_at(reads, 1), read_at(reads, 2)) {
                (Some(intro), Some(code)) => if intro == 0x5b {
                    if is_digit(code) {
                        if read_at(reads, 3) == Some(0x7eu8) {
                            Some(numbered_key(code))
                        } else {
                            Some(EditorKey::Char(ESCAPE))
                        }
                    } else {
                        Some(bracket_key(code))
                    }
                } else if intro == 0x4f {
                    Some(application_key(code))
                } else {
                    Some(EditorKey::Char(ESCAPE))
                },
                _ => Some(EditorKey::Char(ESCAPE)),
            }
        },
    }
}

/// How many reads the slot that starts `reads` takes: one for a plain byte
/// or a timeout, three after an escape byte, four for `ESC [ digit`.
pub open spec fn reads_taken(reads: Seq<Option<u8>>) -> nat {
    if read_at(reads, 0) != Some(ESCAPE) {
        1
    } else if awaits_tilde(reads) {
        4
    } else {
        3
    }
}

/// The transition of the decoder on one read.
pub open spec fn step_of(state: DecoderState, read: Option<u8>) -> DecoderStep {
    match state {
        DecoderState::Start => match read {
            None => DecoderStep::Done(None),
            Some(b) => if b == ESCAPE {
                DecoderStep::More(DecoderState::Escaped)
            } else {
                DecoderStep::Done(Some(EditorKey::Char(b)))
            },
        },
        DecoderState::Escaped => DecoderStep::More(DecoderState::Introduced(read)),
        DecoderState::Introduced(intro) => match (intro, read) {
            (Some(i), Some(code)) => if i == 0x5b {
                if is_digit(code) {
                    DecoderStep::More(DecoderState::Numbered(code))
                } else {
                    DecoderStep::Done(Some(bracket_key(code)))
                }
            } else if i == 0x4f {
                DecoderStep::Done(Some(application_key(code)))
            } else {
                DecoderStep::Done(Some(EditorKey::Char(ESCAPE)))
            },
            _ => DecoderStep::Done(Some(EditorKey::Char(ESCAPE))),
        },
        DecoderState::Numbered(digit) => if read == Some(0x7eu8) {
            DecoderStep::Done(Some(numbered_key(digit)))
        } else {
            DecoderStep::Done(Some(EditorKey::Char(ESCAPE)))
        },
    }
}

/// An upper bound on the reads that a slot still takes from `state`.
pub open spec fn reads_left(state: DecoderState) -> nat {
    match state {
        DecoderState::Start => 4,
        DecoderState::Escaped => 3,
        DecoderState::Introduced(_) => 2,
        DecoderState::Numbered(_) => 1,
    }
}

/// The decoder run from `state` over `reads`, starting at read `pos`: the
/// key of the slot and the position after its last read. Every `More`
/// lowers `reads_left`, so the last branch is never taken; it is there to
/// make the recursion end by its form.
pub open spec fn run_from(state: DecoderState, reads: Seq<Option<u8>>, pos: nat) -> (Option<EditorKey>, nat)
    decreases reads_left(state),
{
    match step_of(state, read_at(reads, pos as int)) {
        DecoderStep::Done(key) => (key, pos + 1),
        DecoderStep::More(next) => if reads_left(next) < reads_left(state) {
            run_from(next, reads, pos + 1)
        } else {
            (None, pos)
        },
    }
}

fn key_for_digit(digit: u8) -> (key: EditorKey)
    ensures
        key == numbered_key(digit),
{
    match digit {
        0x31 | 0x37 => EditorKey::Home,
        0x33 => EditorKey::Delete,
        0x34 | 0x38 => EditorKey::End,
        0x35 => EditorKey::PageUp,
        0x36 => EditorKey::PageDown,
        _ => EditorKey::Char(ESCAPE),
    }
}

fn key_for_bracket(letter: u8) -> (key: EditorKey)
    ensures
        key == bracket_key(letter),
{
    match letter {
        0x41 => EditorKey::ArrowUp,
        0x42 => EditorKey::ArrowDown,
        0x43 => EditorKey::ArrowRight,
        0x44 => EditorKey::ArrowLeft,
        0x46 => EditorKey::End,
        0x48 => EditorKey::Home,
        _ => EditorKey::Char(ESCAPE),
    }
}

fn key_for_application(letter: u8) -> (key: EditorKey)
    ensures
        key == application_key(letter),
{
    match letter {
        0x46 => EditorKey::End,
        0x48 => EditorKey::Home,
        _ => EditorKey::Char(ESCAPE),
    }
}

/// The state in which every slot starts.
pub fn decoder_start() -> (state: DecoderState)
    ensures
        state == DecoderState::Start,
{
    DecoderState::Start
}

/// Feeds the outcome of one read (`None` for a timeout) to the decoder.
///
/// The caller reads again while the answer is `More`; each such answer
/// lowers `reads_left`, so a slot ends after at most four reads.
pub fn decoder_step(state: DecoderState, read: Option<u8>) -> (step: DecoderStep)
    ensures
        step == step_of(state, read),
        step matches DecoderStep::More(next) ==> reads_left(next) < reads_left(state),
{
    match state {
        DecoderState::Start => match read {
            None => DecoderStep::Done(None),
            Some(b) => if b == ESCAPE {
                DecoderStep::More(DecoderState::Escaped)
            } else {
                DecoderStep::Done(Some(EditorKey::Char(b)))
            },
        },
        DecoderState::Escaped => DecoderStep::More(DecoderState::Introduced(read)),
        DecoderState::Introduced(intro) => match (intro, read) {
            (Some(0x5b), Some(code)) => if 0x30 <= code && code <= 0x39 {
                DecoderStep::More(DecoderState::Numbered(code))
            } else {
                DecoderStep::Done(Some(key_for_bracket(code)))
            },
            (Some(0x4f), Some(code)) => DecoderStep::Done(Some(key_for_application(code))),
            _ => DecoderStep::Done(Some(EditorKey::Char(ESCAPE))),
        },
        DecoderState::Numbered(digit) => match read {
            Some(0x7e) => DecoderStep::Done(Some(key_for_digit(digit))),
            _ => DecoderStep::Done(Some(EditorKey::Char(ESCAPE))),
        },
    }
}

fn recorded_read(reads: &Vec<Option<u8>>, index: usize) -> (read: Option<u8>)
    ensures
        read == read_at(reads@, index as int),
{
    if index < reads.len() {
        reads[index]
    } else {
        None
    }
}

/// Decodes the key press at the head of a recorded run of reads, in which
/// `None` stands for a read that timed out and every read past the end of
/// the run counts as timed out.
pub fn editor_read_key(reads: &Vec<Option<u8>>) -> (slot: KeyRead)
    ensures
        slot.key == decoded_key(reads@),
        slot.consumed == reads_taken(reads@),
{
    let mut state = decoder_start();
    let mut pos: usize = 0;
    proof {
        lemma_run_decodes(reads@);
    }
    loop
        invariant
            pos + reads_left(state) <= 4,
            reads_left(state) >= 1,
            run_from(state, reads@, pos as nat) == run_from(DecoderState::Start, reads@, 0),
            run_from(DecoderState::Start, reads@, 0) == (decoded_key(reads@), reads_taken(reads@)),
        decreases reads_left(state),
    {
        let read = recorded_read(reads, pos);
        pos = pos + 1;
        match decoder_step(state, read) {
            DecoderStep::Done(key) => {
                return KeyRead { key, consumed: pos };
            },
            DecoderStep::More(next) => {
                state = next;
            },
        }
    }
}

/// Decoding is total: from the start state the decoder finishes every slot,
/// whatever was read and wherever the reads time out, after at most four
/// reads, and what it yields is the key of that slot.
pub proof fn lemma_run_decodes(reads: Seq<Option<u8>>)
    ensures
        run_from(DecoderState::Start, reads, 0) == (decoded_key(reads), reads_taken(reads)),
        1 <= reads_taken(reads) <= 4,
        read_at(reads, 0) is Some ==> decoded_key(reads) is Some,
        read_at(reads, 0) is None ==> decoded_key(reads) is None,
{
    reveal_with_fuel(run_from, 5);
}

} // verus!
