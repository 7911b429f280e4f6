//! The decisions around the terminal itself: how large the viewport is,
//! what a cursor position report says, and which attributes make up raw
//! mode.

use vstd::prelude::*;
use crate::input::is_digit;
use crate::output::decimal;

verus! {

/// Why a cursor position report was not understood.
#[derive(Clone, Copy, Debug, PartialEq, Eq, Structural)]
pub enum ReportError {
    /// The reply does not start with `ESC [`.
    InvalidPrefix,
    /// What follows `ESC [` is not `row ; col R` with both in digits.
    Malformed,
    /// The row or the column does not fit the machine's word.
    OutOfRange,
}

/// The attributes of a terminal that raw mode touches, as plain numbers.
/// The flag words are wide enough for every platform's own.
#[derive(Clone, Copy, Debug, PartialEq, Eq, Structural)]
pub struct TerminalAttributes {
    /// The input mode flags.
    pub input_flags: u64,
    /// The output mode flags.
    pub output_flags: u64,
    /// The control mode flags.
    pub control_flags: u64,
    /// The local mode flags.
    pub local_flags: u64,
    /// The least number of bytes that a read waits for.
    pub read_min: u8,
    /// How long a read waits, in tenths of a second.
    pub read_timeout: u8,
}

/// The bits by which this platform names the flags that raw mode changes.
#[derive(Clone, Copy, Debug, PartialEq, Eq, Structural)]
pub struct FlagBits {
    /// Input: a break raises an interrupt.
    pub brkint: u64,
    /// Input: carriage return is turned into line feed.
    pub icrnl: u64,
    /// Input: parity is checked.
    pub inpck: u64,
    /// Input: the eighth bit is stripped.
    pub istrip: u64,
    /// Input: `Ctrl-S` and `Ctrl-Q` stop and resume output.
    pub ixon: u64,
    /// Output: output is post-processed.
    pub opost: u64,
    /// Control: characters have eight bits.
    pub cs8: u64,
    /// Local: input is echoed.
    pub echo: u64,
    /// Local: input is handed over line by line.
    pub icanon: u64,
    /// Local: extended input processing.
    pub iexten: u64,
    /// Local: `Ctrl-C` and `Ctrl-Z` raise signals.
    pub isig: u64,
}

/// A flag is named by one bit or more, all of them among the low sixteen.
pub open spec fn in_low_half(flag: u64) -> bool {
    0 < flag < 0x1_0000
}

/// Each of the eleven flags is named by bits among the low sixteen.
pub open spec fn flags_in_low_half(bits: FlagBits) -> bool {
    &&& in_low_half(bits.brkint)
    &&& in_low_half(bits.icrnl)
    &&& in_low_half(bits.inpck)
    &&& in_low_half(bits.istrip)
    &&& in_low_half(bits.ixon)
    &&& in_low_half(bits.opost)
    &&& in_low_half(bits.cs8)
    &&& in_low_half(bits.echo)
    &&& in_low_half(bits.icanon)
    &&& in_low_half(bits.iexten)
    &&& in_low_half(bits.isig)
}

/// The bits of a flag word above the low sixteen.
pub open spec fn upper_bits(flags: u64) -> u64 {
    flags & !0xffffu64
}

/// The input flags that raw mode switches off.
pub open spec fn raw_input_mask(bits: FlagBits) -> u64 {
    bits.ixon | bits.icrnl | bits.brkint | bits.inpck | bits.istrip
}

/// The local flags that raw mode switches off.
pub open spec fn raw_local_mask(bits: FlagBits) -> u64 {
    bits.echo | bits.icanon | bits.isig | bits.iexten
}

/// Raw mode, made from the attributes `orig`: no echo, no line buffering,
/// no signals, no input or output processing, eight-bit characters, and
/// reads that return after a tenth of a second even without a byte.
pub open spec fn raw_attributes(orig: TerminalAttributes, bits: FlagBits) -> TerminalAttributes {
    TerminalAttributes {
        input_flags: orig.input_flags & !raw_input_mask(bits),
        output_flags: orig.output_flags & !bits.opost,
        control_flags: orig.control_flags | bits.cs8,
        local_flags: orig.local_flags & !raw_local_mask(bits),
        read_min: 0,
        read_timeout: 1,
    }
}

/// `ESC [ 9 9 9 B ESC [ 9 9 9 C`: push the cursor towards the bottom right
/// corner; the terminal stops it at the last row and column.
pub open spec fn corner_probe() -> Seq<u8> {
    seq![
        0x1bu8, 0x5bu8, 0x39u8, 0x39u8, 0x39u8, 0x42u8,
        0x1bu8, 0x5bu8, 0x39u8, 0x39u8, 0x39u8, 0x43u8,
    ]
}

/// `ESC [ 6 n`: ask the terminal where the cursor is.
pub open spec fn position_request() -> Seq<u8> {
    seq![0x1bu8, 0x5bu8, 0x36u8, 0x6eu8]
}

/// What a direct size query tells: the size when the query succeeded with
/// both numbers positive, nothing otherwise.
pub open spec fn queried_size(status: i32, rows: u16, cols: u16) -> Option<(usize, usize)> {
    if status == -1 || rows == 0 || cols == 0 {
        None
    } else {
        Some((rows as usize, cols as usize))
    }
}

/// The first position at or after `from` that holds no digit.
pub open spec fn digits_end(s: Seq<u8>, from: int) -> int
    decreases s.len() - from,
{
    if 0 <= from < s.len() && is_digit(s[from]) {
        digits_end(s, from + 1)
    } else {
        from
    }
}

/// The number that a run of digits writes in base ten.
pub open spec fn digits_value(digits: Seq<u8>) -> nat
    decreases digits.len(),
{
    if digits.len() == 0 {
        0
    } else {
        digits_value(digits.drop_last()) * 10 + (digits.last() - 0x30) as nat
    }
}

/// The reply starts with `ESC [`.
pub open spec fn has_report_prefix(s: Seq<u8>) -> bool {
    s.len() >= 2 && s[0] == 0x1b && s[1] == 0x5b
}

/// Where the row of a report ends.
pub open spec fn row_end(s: Seq<u8>) -> int {
    digits_end(s, 2)
}

/// Where the column of a report ends.
pub open spec fn col_end(s: Seq<u8>) -> int {
    digits_end(s, row_end(s) + 1)
}

/// The reply is exactly `ESC [ row ; col R`, row and column each written
/// with one digit or more.
pub open spec fn is_report(s: Seq<u8>) -> bool {
    &&& has_report_prefix(s)
    &&& 2 < row_end(s) < s.len()
    &&& s[row_end(s)] == 0x3b
    &&& row_end(s) + 1 < col_end(s)
    &&& col_end(s) + 1 == s.len()
    &&& s[col_end(s)] == 0x52
}

/// The row that a report names.
pub open spec fn report_row(s: Seq<u8>) -> nat {
    digits_value(s.subrange(2, row_end(s)))
}

/// The column that a report names.
pub open spec fn report_col(s: Seq<u8>) -> nat {
    digits_value(s.subrange(row_end(s) + 1, col_end(s)))
}

/// What a reply to a position request says.
pub open spec fn parsed_report(s: Seq<u8>) -> Result<(usize, usize), ReportError> {
    if !has_report_prefix(s) {
        Err(ReportError::InvalidPrefix)
    } else if !is_report(s) {
        Err(ReportError::Malformed)
    } else if report_row(s) > usize::MAX || report_col(s) > usize::MAX {
        Err(ReportError::OutOfRange)
    } else {
        Ok((report_row(s) as usize, report_col(s) as usize))
    }
}

/// The reply that names `row` and `col`, as a terminal writes it.
pub open spec fn report_of(row: nat, col: nat) -> Seq<u8> {
    seq![0x1bu8, 0x5bu8] + decimal(row) + seq![0x3bu8] + decimal(col) + seq![0x52u8]
}

/// A number written in base ten is a run of one digit or more, and reads
/// back as the number.
pub proof fn lemma_decimal_reads_back(n: nat)
    ensures
        decimal(n).len() >= 1,
        forall|k: int| 0 <= k < decimal(n).len() ==> is_digit(#[trigger] decimal(n)[k]),
        digits_value(decimal(n)) == n,
    decreases n,
{
    if n < 10 {
        assert(decimal(n).drop_last() =~= Seq::<u8>::empty());
        assert(digits_value(decimal(n).drop_last()) == 0);
    } else {
        lemma_decimal_reads_back(n / 10);
        assert(decimal(n).drop_last() =~= decimal(n / 10));
    }
}

/// Every position that a terminal can report is read back from its
/// report: the two numbers, whatever they are, as long as they fit the
/// machine's word.
pub proof fn lemma_report_round_trip(row: nat, col: nat)
    requires
        row <= usize::MAX,
        col <= usize::MAX,
    ensures
        parsed_report(report_of(row, col)) == Ok::<(usize, usize), ReportError>(
            (row as usize, col as usize),
        ),
{
    let s = report_of(row, col);
    let semi: int = decimal(row).len() as int + 2;
    let end: int = semi + 1 + decimal(col).len();
    lemma_decimal_reads_back(row);
    lemma_decimal_reads_back(col);
    assert(s.len() == end + 1);
    assert(s[0] == 0x1b && s[1] == 0x5b);
    assert forall|k: int| 2 <= k < semi implies is_digit(#[trigger] s[k]) by {
        assert(s[k] == decimal(row)[k - 2]);
    }
    assert(s[semi] == 0x3b);
    assert forall|k: int| semi + 1 <= k < end implies is_digit(#[trigger] s[k]) by {
        assert(s[k] == decimal(col)[k - semi - 1]);
    }
    assert(s[end] == 0x52);
    lemma_digits_end_skips(s, 2, semi);
    assert(digits_end(s, semi) == semi);
    lemma_digits_end_skips(s, semi + 1, end);
    assert(digits_end(s, end) == end);
    assert(s.subrange(2, semi) =~= decimal(row));
    assert(s.subrange(semi + 1, end) =~= decimal(col));
}

proof fn lemma_digits_end_skips(s: Seq<u8>, from: int, upto: int)
    requires
        0 <= from <= upto <= s.len(),
        forall|k: int| from <= k < upto ==> is_digit(#[trigger] s[k]),
    ensures
        digits_end(s, from) == digits_end(s, upto),
    decreases upto - from,
{
    if from < upto {
        lemma_digits_end_skips(s, from + 1, upto);
    }
}

/// Reads the run of digits that starts at `from`: where it ends, and its
/// value unless that is beyond the machine's word.
fn scan_number(s: &[u8], from: usize) -> (r: (usize, Option<usize>))
    requires
        from <= s@.len(),
    ensures
        r.0 == digits_end(s@, from as int),
        from <= r.0 <= s@.len(),
        r.1 == (if digits_value(s@.subrange(from as int, r.0 as int)) <= usize::MAX {
            Some(digits_value(s@.subrange(from as int, r.0 as int)) as usize)
        } else {
            None
        }),
{
    let mut i: usize = from;
    let mut value: Option<usize> = Some(0);
    assert(s@.subrange(from as int, from as int).len() == 0);
    while i < s.len() && 0x30 <= s[i] && s[i] <= 0x39
        invariant
            from <= i <= s@.len(),
            forall|k: int| from <= k < i ==> is_digit(#[trigger] s@[k]),
            value == (if digits_value(s@.subrange(from as int, i as int)) <= usize::MAX {
                Some(digits_value(s@.subrange(from as int, i as int)) as usize)
            } else {
                None
            }),
        decreases s@.len() - i,
    {
        let digit: usize = (s[i] - 0x30) as usize;
        proof {
            assert(s@.subrange(from as int, i + 1).drop_last() =~= s@.subrange(
                from as int,
                i as int,
            ));
        }
        value = match value {
            Some(v) => if v <= (usize::MAX - digit) / 10 {
                Some(v * 10 + digit)
            } else {
                None
            },
            None => None,
        };
        i += 1;
    }
    proof {
        lemma_digits_end_skips(s@, from as int, i as int);
    }
    (i, value)
}

/// The constants `BRKINT`, `ICRNL`, `INPCK`, `ISTRIP`, `IXON`, `OPOST`,
/// `CS8`, `ECHO`, `ICANON`, `IEXTEN` and `ISIG` of the `termios` crate,
/// gathered in one value. Their numbers differ from platform to platform.
/// What is claimed of them holds on each platform that the crate knows:
/// none of them is zero, and each lies below `0x1_0000`.
#[verifier::external_body]
fn platform_flag_bits() -> (bits: FlagBits)
    ensures
        flags_in_low_half(bits),
{
    FlagBits {
        brkint: termios::BRKINT as u64,
        icrnl: termios::ICRNL as u64,
        inpck: termios::INPCK as u64,
        istrip: termios::ISTRIP as u64,
        ixon: termios::IXON as u64,
        opost: termios::OPOST as u64,
        cs8: termios::CS8 as u64,
        echo: termios::ECHO as u64,
        icanon: termios::ICANON as u64,
        iexten: termios::IEXTEN as u64,
        isig: termios::ISIG as u64,
    }
}

/// The raw mode attributes for a terminal whose attributes are `orig`,
/// with the flags named by `bits`.
pub fn raw_mode_with(orig: TerminalAttributes, bits: FlagBits) -> (raw: TerminalAttributes)
    ensures
        raw == raw_attributes(orig, bits),
{
    TerminalAttributes {
        input_flags: orig.input_flags & !(bits.ixon | bits.icrnl | bits.brkint | bits.inpck
            | bits.istrip),
        output_flags: orig.output_flags & !bits.opost,
        control_flags: orig.control_flags | bits.cs8,
        local_flags: orig.local_flags & !(bits.echo | bits.icanon | bits.isig | bits.iexten),
        read_min: 0,
        read_timeout: 1,
    }
}

/// The raw mode attributes for a terminal whose attributes are `orig`,
/// with the flags as this platform names them. The caller keeps `orig` to
/// put the terminal back as it was.
pub fn enable_raw_mode(orig: TerminalAttributes) -> (raw: TerminalAttributes)
    ensures
        exists|bits: FlagBits| flags_in_low_half(bits) && raw == raw_attributes(orig, bits),
        raw.read_min == 0,
        raw.read_timeout == 1,
        raw.input_flags & !orig.input_flags == 0,
        raw.output_flags & !orig.output_flags == 0,
        raw.local_flags & !orig.local_flags == 0,
        orig.control_flags & !raw.control_flags == 0,
        upper_bits(raw.input_flags) == upper_bits(orig.input_flags),
        upper_bits(raw.output_flags) == upper_bits(orig.output_flags),
        upper_bits(raw.local_flags) == upper_bits(orig.local_flags),
        upper_bits(raw.control_flags) == upper_bits(orig.control_flags),
{
    let bits = platform_flag_bits();
    let raw = raw_mode_with(orig, bits);
    proof {
        lemma_raw_mode_only_clears(orig, bits);
        lemma_raw_mode_keeps_upper_bits(orig, bits);
        assert(flags_in_low_half(bits) && raw == raw_attributes(orig, bits));
    }
    raw
}

/// Where every flag is named by bits among the low sixteen, raw mode
/// leaves the bits above them as they were, in all four flag words.
pub proof fn lemma_raw_mode_keeps_upper_bits(orig: TerminalAttributes, bits: FlagBits)
    requires
        flags_in_low_half(bits),
    ensures
        upper_bits(raw_attributes(orig, bits).input_flags) == upper_bits(orig.input_flags),
        upper_bits(raw_attributes(orig, bits).output_flags) == upper_bits(orig.output_flags),
        upper_bits(raw_attributes(orig, bits).local_flags) == upper_bits(orig.local_flags),
        upper_bits(raw_attributes(orig, bits).control_flags) == upper_bits(orig.control_flags),
{
    let (a, b, c, d, e) = (bits.ixon, bits.icrnl, bits.brkint, bits.inpck, bits.istrip);
    assert((a | b | c | d | e) < 0x1_0000u64) by (bit_vector)
        requires
            a < 0x1_0000u64,
            b < 0x1_0000u64,
            c < 0x1_0000u64,
            d < 0x1_0000u64,
            e < 0x1_0000u64,
    ;
    let (p, q, r, t) = (bits.echo, bits.icanon, bits.isig, bits.iexten);
    assert((p | q | r | t) < 0x1_0000u64) by (bit_vector)
        requires
            p < 0x1_0000u64,
            q < 0x1_0000u64,
            r < 0x1_0000u64,
            t < 0x1_0000u64,
    ;
    lemma_clearing_keeps_upper_bits(orig.input_flags, raw_input_mask(bits));
    lemma_clearing_keeps_upper_bits(orig.output_flags, bits.opost);
    lemma_clearing_keeps_upper_bits(orig.local_flags, raw_local_mask(bits));
    let f = orig.control_flags;
    let m = bits.cs8;
    assert((f | m) & !0xffffu64 == f & !0xffffu64) by (bit_vector)
        requires
            m < 0x1_0000u64,
    ;
}

/// Raw mode switches no input, output or local flag on and no control
/// flag off.
pub proof fn lemma_raw_mode_only_clears(orig: TerminalAttributes, bits: FlagBits)
    ensures
        raw_attributes(orig, bits).input_flags & !orig.input_flags == 0,
        raw_attributes(orig, bits).output_flags & !orig.output_flags == 0,
        raw_attributes(orig, bits).local_flags & !orig.local_flags == 0,
        orig.control_flags & !raw_attributes(orig, bits).control_flags == 0,
{
    lemma_cleared_is_subset(orig.input_flags, raw_input_mask(bits));
    lemma_cleared_is_subset(orig.output_flags, bits.opost);
    lemma_cleared_is_subset(orig.local_flags, raw_local_mask(bits));
    let c = orig.control_flags;
    let m = bits.cs8;
    assert(c & !(c | m) == 0) by (bit_vector);
}

/// Raw mode disables echo, line buffering, signals and the processing of
/// input and output: every flag that it is to switch off is off in the
/// attributes it gives, and the eight-bit character size is on.
pub proof fn lemma_raw_mode_clears_masks(orig: TerminalAttributes, bits: FlagBits)
    ensures
        raw_attributes(orig, bits).input_flags & raw_input_mask(bits) == 0,
        raw_attributes(orig, bits).output_flags & bits.opost == 0,
        raw_attributes(orig, bits).local_flags & raw_local_mask(bits) == 0,
        raw_attributes(orig, bits).control_flags & bits.cs8 == bits.cs8,
{
    lemma_cleared_is_off(orig.input_flags, raw_input_mask(bits));
    lemma_cleared_is_off(orig.output_flags, bits.opost);
    lemma_cleared_is_off(orig.local_flags, raw_local_mask(bits));
    let c = orig.control_flags;
    let m = bits.cs8;
    assert((c | m) & m == m) by (bit_vector);
}

proof fn lemma_cleared_is_subset(flags: u64, mask: u64)
    ensures
        (flags & !mask) & !flags == 0,
{
    assert((flags & !mask) & !flags == 0) by (bit_vector);
}

proof fn lemma_cleared_is_off(flags: u64, mask: u64)
    ensures
        (flags & !mask) & mask == 0,
{
    assert((flags & !mask) & mask == 0) by (bit_vector);
}

proof fn lemma_clearing_keeps_upper_bits(flags: u64, mask: u64)
    requires
        mask < 0x1_0000,
    ensures
        upper_bits(flags & !mask) == upper_bits(flags),
{
    assert((flags & !mask) & !0xffffu64 == flags & !0xffffu64) by (bit_vector)
        requires
            mask < 0x1_0000u64,
    ;
}

/// Decides on the answer to a direct size query: `status` is what the
/// query returned (-1 for a failure), `rows` and `cols` what it filled in.
/// `None` says that the size is still unknown and has to be probed for.
pub fn get_window_size(status: i32, rows: u16, cols: u16) -> (size: Option<(usize, usize)>)
    ensures
        size == queried_size(status, rows, cols),
{
    if status == -1 || rows == 0 || cols == 0 {
        None
    } else {
        Some((rows as usize, cols as usize))
    }
}

/// The bytes that push the cursor to the bottom right corner.
pub fn window_size_probe() -> (bytes: Vec<u8>)
    ensures
        bytes@ == corner_probe(),
{
    let mut buf: Vec<u8> = Vec::new();
    buf.push(0x1b);
    buf.push(0x5b);
    buf.push(0x39);
    buf.push(0x39);
    buf.push(0x39);
    buf.push(0x42);
    buf.push(0x1b);
    buf.push(0x5b);
    buf.push(0x39);
    buf.push(0x39);
    buf.push(0x39);
    buf.push(0x43);
    assert(buf@ =~= corner_probe());
    buf
}

/// The bytes that ask the terminal for the cursor's position.
pub fn cursor_position_request() -> (bytes: Vec<u8>)
    ensures
        bytes@ == position_request(),
{
    let mut buf: Vec<u8> = Vec::new();
    buf.push(0x1b);
    buf.push(0x5b);
    buf.push(0x36);
    buf.push(0x6e);
    assert(buf@ =~= position_request());
    buf
}

/// Reads the terminal's reply to a position request, `ESC [ row ; col R`,
/// and gives the row and the column that it names.
pub fn get_cursor_position(reply: &[u8]) -> (position: Result<(usize, usize), ReportError>)
    ensures
        position == parsed_report(reply@),
{
    if reply.len() < 2 || reply[0] != 0x1b || reply[1] != 0x5b {
        return Err(ReportError::InvalidPrefix);
    }
    let (semi, row) = scan_number(reply, 2);
    if semi == 2 || semi >= reply.len() || reply[semi] != 0x3b {
        return Err(ReportError::Malformed);
    }
    let (end, col) = scan_number(reply, semi + 1);
    if end == semi + 1 || end >= reply.len() || end != reply.len() - 1 || reply[end] != 0x52 {
        return Err(ReportError::Malformed);
    }
    match (row, col) {
        (Some(r), Some(c)) => Ok((r, c)),
        _ => Err(ReportError::OutOfRange),
    }
}

} // verus!
