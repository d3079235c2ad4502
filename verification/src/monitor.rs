pub mod format;
pub mod parse;
pub mod tokenizer;

use vstd::prelude::*;
use self::format::{
    Formatting, LeadingZeros, digits, first_non_zero, skip_leading_zeros, space_leading_zeros,
    lemma_first_non_zero, to_binary, to_decimal_usize, to_hex_u8, to_hex_usize, hex_len_val,
    HEX_LEN, DECIMAL_LEN,
};
use self::tokenizer::{Token, TokenType, Tokenizer, spec_next_token};

verus! {

/// Capacity of the monitor's line buffer.
pub const LINE_LEN: usize = 256;

/// Width of the value under the cursor.
#[derive(Clone, Copy, PartialEq, Eq, Structural)]
pub enum CursorType {
    U8,
    U16,
    U32,
    U64,
    U128,
}

impl CursorType {
    pub open spec fn spec_byte_len(self) -> usize {
        match self {
            CursorType::U8 => 1,
            CursorType::U16 => 2,
            CursorType::U32 => 4,
            CursorType::U64 => 8,
            CursorType::U128 => 16,
        }
    }

    /// Size in bytes.
    pub fn byte_len(&self) -> (r: usize)
        ensures
            r == self.spec_byte_len(),
    {
        match self {
            CursorType::U8 => 1,
            CursorType::U16 => 2,
            CursorType::U32 => 4,
            CursorType::U64 => 8,
            CursorType::U128 => 16,
        }
    }

    /// Alignment in bytes on AArch64 (equal to the size for these types).
    pub fn align_of(&self) -> (r: usize)
        ensures
            r == self.spec_byte_len(),
    {
        match self {
            CursorType::U8 => 1,
            CursorType::U16 => 2,
            CursorType::U32 => 4,
            CursorType::U64 => 8,
            CursorType::U128 => 16,
        }
    }

    pub open spec fn spec_wider(self) -> Self {
        match self {
            CursorType::U8 => CursorType::U16,
            CursorType::U16 => CursorType::U32,
            CursorType::U32 => CursorType::U64,
            CursorType::U64 => CursorType::U128,
            CursorType::U128 => CursorType::U128,
        }
    }

    pub open spec fn spec_slimmer(self) -> Self {
        match self {
            CursorType::U8 => CursorType::U8,
            CursorType::U16 => CursorType::U8,
            CursorType::U32 => CursorType::U16,
            CursorType::U64 => CursorType::U32,
            CursorType::U128 => CursorType::U64,
        }
    }

    /// The next wider type; `U128` stays.
    pub fn wider(&self) -> (r: Self)
        ensures
            r == self.spec_wider(),
    {
        match self {
            CursorType::U8 => CursorType::U16,
            CursorType::U16 => CursorType::U32,
            CursorType::U32 => CursorType::U64,
            CursorType::U64 => CursorType::U128,
            CursorType::U128 => CursorType::U128,
        }
    }

    /// The next narrower type; `U8` stays.
    pub fn slimmer(&self) -> (r: Self)
        ensures
            r == self.spec_slimmer(),
    {
        match self {
            CursorType::U8 => CursorType::U8,
            CursorType::U16 => CursorType::U8,
            CursorType::U32 => CursorType::U16,
            CursorType::U64 => CursorType::U32,
            CursorType::U128 => CursorType::U64,
        }
    }
}

/// Widening doubles the size until `U128`; narrowing undoes a widening, and widening
/// undoes a narrowing, except at the ends.
pub proof fn lemma_cursor_wider_slimmer(c: CursorType)
    ensures
        c != CursorType::U128 ==> c.spec_wider().spec_byte_len() == 2 * c.spec_byte_len(),
        c != CursorType::U128 ==> c.spec_wider().spec_slimmer() == c,
        c != CursorType::U8 ==> c.spec_slimmer().spec_wider() == c,
        CursorType::U128.spec_wider() == CursorType::U128,
        CursorType::U8.spec_slimmer() == CursorType::U8,
{
}

#[derive(Clone, Copy, PartialEq, Eq, Structural)]
pub struct CommandContext {
    pub last_address: usize,
    pub length: usize,
    pub cursor_type: CursorType,
}

#[derive(Clone, Copy)]
pub enum Command {
    DoNothing,
    ExecuteMemory { start: usize, params: (usize, usize, usize, usize) },
    PrintMemory { start: usize },
    PrintMemoryContinue,
}

#[derive(Clone, Copy, PartialEq, Eq, Structural)]
pub enum CommandParseError {
    IllegalToken { position: usize },
}

/// Whether `c` is the letter of the run command.
pub open spec fn is_run_letter(c: u8) -> bool {
    c == 82 || c == 114
}

/// The command a line stands for: an empty line continues printing, a line starting
/// with a number prints memory there, `R` and a number runs the code at that address;
/// anything else is an error at the first token that does not fit (at the `R` when no
/// address follows it).
pub open spec fn spec_parse(s: Seq<u8>) -> Result<Command, CommandParseError> {
    match spec_next_token(s, 0, true) {
        (None, _) => Ok(Command::PrintMemoryContinue),
        (Some(t), p) => match t.token_type {
            TokenType::USize(value) => Ok(Command::PrintMemory { start: value }),
            TokenType::SingleLetter(c) => if is_run_letter(c) {
                match spec_next_token(s, p, true).0 {
                    Some(t2) => match t2.token_type {
                        TokenType::USize(value) => Ok(Command::ExecuteMemory { start: value, params: (0, 0, 0, 0) }),
                        _ => Err(CommandParseError::IllegalToken { position: t2.start }),
                    },
                    None => Err(CommandParseError::IllegalToken { position: t.start }),
                }
            } else {
                Err(CommandParseError::IllegalToken { position: t.start })
            },
            _ => Err(CommandParseError::IllegalToken { position: t.start }),
        },
    }
}

/// A line holding a hex address asks to print the memory at that address.
pub proof fn lemma_address_line_prints(s: Seq<u8>)
    requires
        s.len() > 0,
        forall|i: int| 0 <= i < s.len() ==> self::parse::is_hex_digit(s[i]),
        self::parse::hex_value(s) <= usize::MAX,
    ensures
        spec_parse(s) == Ok::<Command, CommandParseError>(Command::PrintMemory { start: self::parse::hex_value(s) as usize }),
{
    self::tokenizer::lemma_skip_hex_digits(s, 0);
    assert(s.subrange(0, s.len() as int) =~= s);
}

/// With the monitor's default row length (8) and cursor (32 bits), printing at
/// `address` shows one row: the 8 bytes starting at `address`, the first row labelled
/// with the address itself, whether or not it is aligned.
pub proof fn lemma_print_shows_eight_bytes_from_address(address: usize)
    ensures
        spec_window(address, 8, CursorType::U32) == (address as int, address + 8),
{
}

/// `R` and a hex address asks to run the code at that address.
pub proof fn lemma_run_line_runs(s: Seq<u8>)
    requires
        s.len() > 2,
        s[0] == 82,
        s[1] == 32,
        forall|i: int| 2 <= i < s.len() ==> self::parse::is_hex_digit(s[i]),
        self::parse::hex_value(s.subrange(2, s.len() as int)) <= usize::MAX,
    ensures
        spec_parse(s) == Ok::<Command, CommandParseError>(Command::ExecuteMemory {
            start: self::parse::hex_value(s.subrange(2, s.len() as int)) as usize,
            params: (0, 0, 0, 0),
        }),
{
    self::tokenizer::lemma_skip_hex_digits(s, 2);
    assert(self::tokenizer::skip_whitespace(s, 2) == 2);
    assert(self::tokenizer::skip_whitespace(s, 1) == 2);
    assert(self::tokenizer::skip_whitespace(s, 0) == 0);
}

impl Command {
    pub fn parse(c_str: &[u8]) -> (r: Result<Command, CommandParseError>)
        ensures
            r == spec_parse(c_str@),
    {
        let mut tokenizer = Tokenizer::new(c_str, true);
        match tokenizer.next() {
            None => Ok(Command::PrintMemoryContinue),
            Some(t) => match t.token_type {
                TokenType::USize(value) => Ok(Command::PrintMemory { start: value }),
                TokenType::SingleLetter(c) => {
                    if c == 82 || c == 114 {
                        match tokenizer.next() {
                            Some(t2) => match t2.token_type {
                                TokenType::USize(value) => Ok(Command::ExecuteMemory { start: value, params: (0, 0, 0, 0) }),
                                _ => Err(CommandParseError::IllegalToken { position: t2.start }),
                            },
                            None => Err(CommandParseError::IllegalToken { position: t.start }),
                        }
                    } else {
                        Err(CommandParseError::IllegalToken { position: t.start })
                    }
                },
                _ => Err(CommandParseError::IllegalToken { position: t.start }),
            },
        }
    }
}

/// The bytes the monitor sends to its terminal, in order.
pub struct Writer {
    pub sent: Vec<u8>,
}

impl Writer {
    pub fn new() -> (r: Self)
        ensures
            r.sent@ == Seq::<u8>::empty(),
    {
        Writer { sent: Vec::new() }
    }

    pub fn putc(&mut self, char: u8)
        ensures
            final(self).sent@ == old(self).sent@.push(char),
    {
        self.sent.push(char);
    }

    pub fn putc_repeat(&mut self, char: u8, count: usize)
        ensures
            final(self).sent@ == old(self).sent@ + Seq::new(count as nat, |i: int| char),
    {
        let mut n = count;
        while n > 0
            invariant
                n <= count,
                self.sent@ == old(self).sent@ + Seq::new((count - n) as nat, |i: int| char),
            decreases n,
        {
            self.putc(char);
            n -= 1;
            assert(self.sent@ =~= old(self).sent@ + Seq::new((count - n) as nat, |i: int| char));
        }
    }

    pub fn puts(&mut self, str: &[u8])
        ensures
            final(self).sent@ == old(self).sent@ + str@,
    {
        let mut i: usize = 0;
        while i < str.len()
            invariant
                i <= str@.len(),
                self.sent@ == old(self).sent@ + str@.subrange(0, i as int),
            decreases str@.len() - i,
        {
            self.putc(str[i]);
            i += 1;
            assert(self.sent@ =~= old(self).sent@ + str@.subrange(0, i as int));
        }
        assert(str@.subrange(0, str@.len() as int) =~= str@);
    }

    pub fn puts_n(&mut self, str: &[u8])
        ensures
            final(self).sent@ == old(self).sent@ + str@,
    {
        self.puts(str);
    }

    pub fn put_iter(&mut self, items: &Vec<u8>)
        ensures
            final(self).sent@ == old(self).sent@ + items@,
    {
        self.puts(items.as_slice());
    }

    /// Eight binary digits.
    pub fn binary(&mut self, value: u8, formatting: Option<Formatting>)
        ensures
            final(self).sent@ == old(self).sent@ + digits(value as nat, 8, 2),
    {
        let digits = to_binary(value);
        self.puts(digits.as_slice());
    }

    /// Two hex digits.
    pub fn hex(&mut self, value: u8, formatting: Option<Formatting>)
        ensures
            final(self).sent@ == old(self).sent@ + digits(value as nat, 2, 16),
    {
        let digits = to_hex_u8(value);
        self.puts(digits.as_slice());
    }

    /// Writes `digits` of `value` as the leading zero mode says; a zero value is written
    /// as a single `0`, after `zero_pad` spaces in `Space` mode.
    fn put_number(&mut self, value: u64, digits_of: &Vec<u8>, mode: LeadingZeros, zero_pad: usize)
        ensures
            final(self).sent@ == old(self).sent@ + spec_number_text(value, digits_of@, mode, zero_pad),
    {
        match mode {
            LeadingZeros::Keep => {
                self.puts(digits_of.as_slice());
            },
            LeadingZeros::Skip => {
                if value == 0 {
                    self.putc(48);
                } else {
                    let first = first_non_zero_index(digits_of);
                    let rest = tokenizer::slice_subrange(digits_of.as_slice(), first, digits_of.len());
                    self.puts(rest);
                }
            },
            LeadingZeros::Space => {
                if value == 0 {
                    self.putc_repeat(32, zero_pad);
                    self.putc(48);
                } else {
                    let first = first_non_zero_index(digits_of);
                    self.putc_repeat(32, first);
                    let rest = tokenizer::slice_subrange(digits_of.as_slice(), first, digits_of.len());
                    self.puts(rest);
                    assert(self.sent@ =~= old(self).sent@ + space_leading_zeros(digits_of@));
                }
            },
        }
    }

    /// Twenty decimal digits, with leading zeros kept, skipped or turned into spaces.
    pub fn decimal_usize(&mut self, value: usize, formatting: Option<Formatting>)
        ensures
            final(self).sent@ == old(self).sent@ + spec_number_text(
                value as u64, digits(value as nat, DECIMAL_LEN as nat, 10), spec_mode(formatting), 20),
    {
        let mode = match formatting {
            Some(f) => f.leading_zeros,
            None => LeadingZeros::Keep,
        };
        let digits_of = to_decimal_usize(value as u64);
        self.put_number(value as u64, &digits_of, mode, 20);
    }

    /// Sixteen hex digits, with leading zeros kept, skipped or turned into spaces.
    pub fn hex_usize(&mut self, value: usize, formatting: Option<Formatting>)
        ensures
            final(self).sent@ == old(self).sent@ + spec_number_text(
                value as u64, digits(value as nat, HEX_LEN as nat, 16), spec_mode(formatting), (HEX_LEN - 1) as usize),
    {
        let mode = match formatting {
            Some(f) => f.leading_zeros,
            None => LeadingZeros::Keep,
        };
        let value64 = value as u64;
        let digits_of = to_hex_usize(value64);
        let pad = hex_len_val(&value64) - 1;
        self.put_number(value64, &digits_of, mode, pad);
    }

    pub fn newline(&mut self)
        ensures
            final(self).sent@ == old(self).sent@.push(10),
    {
        self.putc(10);
    }

    pub fn carriage_return(&mut self)
        ensures
            final(self).sent@ == old(self).sent@.push(13),
    {
        self.putc(13);
    }
}

/// The leading zero mode of an optional formatting (keep by default).
pub open spec fn spec_mode(formatting: Option<Formatting>) -> LeadingZeros {
    match formatting {
        Some(f) => f.leading_zeros,
        None => LeadingZeros::Keep,
    }
}

/// Text of a number with the given digits in a leading zero mode.
pub open spec fn spec_number_text(value: u64, digits_of: Seq<u8>, mode: LeadingZeros, zero_pad: usize) -> Seq<u8> {
    match mode {
        LeadingZeros::Keep => digits_of,
        LeadingZeros::Skip => if value == 0 { seq![48u8] } else { skip_leading_zeros(digits_of) },
        LeadingZeros::Space => if value == 0 {
            Seq::new(zero_pad as nat, |i: int| 32u8).push(48)
        } else {
            space_leading_zeros(digits_of)
        },
    }
}

fn first_non_zero_index(s: &Vec<u8>) -> (r: usize)
    ensures
        r == first_non_zero(s@),
        r <= s@.len(),
{
    proof { lemma_first_non_zero(s@); }
    let mut i: usize = 0;
    while i < s.len() && s[i] == 48
        invariant
            i <= s@.len(),
            forall|k: int| 0 <= k < i ==> s@[k] == 48,
            first_non_zero(s@) <= s@.len(),
            forall|k: int| 0 <= k < first_non_zero(s@) ==> s@[k] == 48,
            first_non_zero(s@) < s@.len() ==> s@[first_non_zero(s@) as int] != 48,
            i <= first_non_zero(s@),
        decreases s@.len() - i,
    {
        i += 1;
    }
    i
}

} // verus!

verus! {

/// First and last byte address (exclusive) that a memory print at `address` shows:
/// whole rows of `length` bytes, the first starting at `address`, until the row that
/// holds the cursor's last byte.
pub open spec fn spec_window(address: usize, length: usize, cursor: CursorType) -> (int, int) {
    let rows = (cursor.spec_byte_len() + length - 1) / (length as int);
    (address as int, address + rows * length)
}

pub open spec fn is_graphic(c: u8) -> bool {
    33 <= c <= 126
}

/// Byte at `a` of a memory window that starts at `base`.
pub open spec fn mem_at(memory: Seq<u8>, base: int, a: int) -> u8 {
    memory[a - base]
}

/// Hex cells of the addresses `[from, to)`, each preceded by `(` at the cursor start,
/// `)` at the cursor end, or a space.
pub open spec fn hex_cells(from: int, to: int, cur_start: int, cur_end: int, memory: Seq<u8>, base: int) -> Seq<u8>
    decreases to - from,
{
    if to <= from {
        Seq::empty()
    } else {
        let a = to - 1;
        let marker: u8 = if a == cur_start { 40 } else if a == cur_end { 41 } else { 32 };
        hex_cells(from, a, cur_start, cur_end, memory, base).push(marker) + digits(mem_at(memory, base, a) as nat, 2, 16)
    }
}

/// The bytes `[from, to)` as text, non-graphic bytes as dots.
pub open spec fn ascii_cells(from: int, to: int, memory: Seq<u8>, base: int) -> Seq<u8>
    decreases to - from,
{
    if to <= from {
        Seq::empty()
    } else {
        let m = mem_at(memory, base, to - 1);
        ascii_cells(from, to - 1, memory, base).push(if is_graphic(m) { m } else { 46 })
    }
}

/// The bytes `[from, to)` in binary, each after a space.
pub open spec fn binary_cells(from: int, to: int, memory: Seq<u8>, base: int) -> Seq<u8>
    decreases to - from,
{
    if to <= from {
        Seq::empty()
    } else {
        binary_cells(from, to - 1, memory, base).push(32) + digits(mem_at(memory, base, to - 1) as nat, 8, 2)
    }
}

/// One printed row `[start, end)`.
pub open spec fn row_text(start: int, end: int, cur_start: int, cur_end: int, memory: Seq<u8>, base: int) -> Seq<u8> {
    spec_number_text(start as u64, digits(start as nat, HEX_LEN as nat, 16), LeadingZeros::Space, 15).push(58)
        + hex_cells(start, end, cur_start, cur_end, memory, base).push(if cur_end == end { 41 } else { 32 })
        + ascii_cells(start, end, memory, base)
        + binary_cells(
            if cur_start >= start { cur_start } else { start },
            if cur_end <= end { cur_end } else { end },
            memory, base)
}

/// All rows from `[start, end)` on, separated by line feeds, until the cursor's end.
pub open spec fn rows_text(start: int, end: int, length: int, cur_start: int, cur_end: int, memory: Seq<u8>, base: int) -> Seq<u8>
    decreases (if cur_end > end { cur_end - end } else { 0 }),
{
    if cur_end <= end || length <= 0 {
        row_text(start, end, cur_start, cur_end, memory, base)
    } else {
        (row_text(start, end, cur_start, cur_end, memory, base).push(10))
            + rows_text(start + length, end + length, length, cur_start, cur_end, memory, base)
    }
}

} // verus!

verus! {

proof fn lemma_rows(d: int, length: int)
    requires
        d >= 1,
        length >= 1,
    ensures
        ((d + length - 1) / length) * length >= d,
        ((d + length - 1) / length) * length <= d + length - 1,
        (d + length - 1) / length >= 1,
        ((d + length - 1) / length) * length >= length,
{
    let rows = (d + length - 1) / length;
    assert(rows * length >= d && rows * length <= d + length - 1 && rows >= 1 && rows * length >= length) by (nonlinear_arith)
        requires d >= 1, length >= 1, rows == (d + length - 1) / length;
}

proof fn lemma_more_rows(k: int, rows: int, length: int, d: int)
    requires
        length >= 1,
        rows * length >= d,
        k * length < d,
        k >= 0,
    ensures
        k + 1 <= rows,
        (k + 1) * length == k * length + length,
        (k + 1) * length <= rows * length,
{
    assert(k + 1 <= rows && (k + 1) * length == k * length + length && (k + 1) * length <= rows * length) by (nonlinear_arith)
        requires length >= 1, rows * length >= d, k * length < d, k >= 0;
}

/// The memory range `[start, end)` that printing at `address` shows.
pub fn memory_window(address: usize, length: usize, cursor: CursorType) -> (r: (usize, usize))
    requires
        length > 0,
        address + cursor.spec_byte_len() + length <= usize::MAX,
    ensures
        r.0 as int == spec_window(address, length, cursor).0,
        r.1 as int == spec_window(address, length, cursor).1,
        r.0 <= address,
        address + cursor.spec_byte_len() <= r.1,
{
    let start = address;
    let cur_end = address + cursor.byte_len();
    let d = cur_end - start;
    proof { lemma_rows(d as int, length as int); }
    let rows = (d + length - 1) / length;
    let end = start + rows * length;
    (start, end)
}


/// Prints the row `[start, end)`.
fn print_row(out: &mut Writer, start: usize, end: usize, cur_start: usize, cur_end: usize, memory: &[u8], base: usize, window_end: usize)
    requires
        base <= start <= end <= window_end,
        memory@.len() == window_end - base,
    ensures
        final(out).sent@ == old(out).sent@ + row_text(start as int, end as int, cur_start as int, cur_end as int, memory@, base as int),
{
        out.hex_usize(start, Some(Formatting { leading_zeros: LeadingZeros::Space }));
        out.putc(58);
        let mut addr = start;
        while addr < end
            invariant
                start <= addr <= end,
                end <= window_end,
                memory@.len() == window_end - base,
                base <= start,
                out.sent@ == old(out).sent@ + spec_number_text(start as u64, digits(start as nat, HEX_LEN as nat, 16), LeadingZeros::Space, 15).push(58)
                    + hex_cells(start as int, addr as int, cur_start as int, cur_end as int, memory@, base as int),
            decreases end - addr,
        {
            if addr == cur_start {
                out.putc(40);
            } else if addr == cur_end {
                out.putc(41);
            } else {
                out.putc(32);
            }
            out.hex(memory[addr - base], None);
            addr += 1;
            assert(out.sent@ =~= old(out).sent@ + spec_number_text(start as u64, digits(start as nat, HEX_LEN as nat, 16), LeadingZeros::Space, 15).push(58)
                    + hex_cells(start as int, addr as int, cur_start as int, cur_end as int, memory@, base as int));
        }
        if cur_end == end {
            out.putc(41);
        } else {
            out.putc(32);
        }
        let ghost after_hex = out.sent@;
        let mut addr = start;
        while addr < end
            invariant
                start <= addr <= end,
                end <= window_end,
                memory@.len() == window_end - base,
                base <= start,
                out.sent@ == after_hex + ascii_cells(start as int, addr as int, memory@, base as int),
            decreases end - addr,
        {
            let m = memory[addr - base];
            out.putc(if 33 <= m && m <= 126 { m } else { 46 });
            addr += 1;
            assert(out.sent@ =~= after_hex + ascii_cells(start as int, addr as int, memory@, base as int));
        }
        let ghost after_ascii = out.sent@;
        let from = if cur_start >= start { cur_start } else { start };
        let to = if cur_end <= end { cur_end } else { end };
        let mut addr = from;
        while addr < to
            invariant
                from <= addr,
                addr <= to || addr == from,
                start <= from,
                to <= end,
                end <= window_end,
                memory@.len() == window_end - base,
                base <= start,
                out.sent@ == after_ascii + binary_cells(from as int, addr as int, memory@, base as int),
            decreases to - addr,
        {
            out.putc(32);
            out.binary(memory[addr - base], None);
            addr += 1;
            assert(out.sent@ =~= after_ascii + binary_cells(from as int, addr as int, memory@, base as int));
        }
        assert(binary_cells(from as int, addr as int, memory@, base as int) == binary_cells(from as int, to as int, memory@, base as int));
    assert(out.sent@ =~= old(out).sent@ + row_text(start as int, end as int, cur_start as int, cur_end as int, memory@, base as int));
}

impl Command {
    /// Prints rows of `length` bytes from `address` on, with hex, text and binary columns;
    /// `memory` holds the bytes of `memory_window(address, length, cursor)`. Returns the
    /// address after the cursor.
    pub fn print_memory(&self, out: &mut Writer, address: usize, length: usize, cursor: CursorType, memory: &[u8]) -> (r: usize)
        requires
            length > 0,
            address + cursor.spec_byte_len() + length <= usize::MAX,
            memory@.len() == spec_window(address, length, cursor).1 - spec_window(address, length, cursor).0,
        ensures
            r == address + cursor.spec_byte_len(),
            final(out).sent@ == old(out).sent@ + rows_text(
                spec_window(address, length, cursor).0,
                spec_window(address, length, cursor).0 + length,
                length as int,
                address as int,
                address + cursor.spec_byte_len(),
                memory@,
                spec_window(address, length, cursor).0),
    {
        let cur_start = address;
        let cur_end = address + cursor.byte_len();
        let (base, window_end) = memory_window(address, length, cursor);
        let ghost d = cur_end - base;
        let ghost rows = (d + length - 1) / (length as int);
        proof { lemma_rows(d, length as int); }
        let mut start = base;
        let mut end = base + length;
        let ghost mut k: int = 1;
        let ghost prefix = old(out).sent@;
        let ghost done: Seq<u8> = Seq::empty();
        assert(window_end == base + rows * length);
        loop
            invariant_except_break
                out.sent@ == prefix + done,
                done + rows_text(start as int, end as int, length as int, cur_start as int, cur_end as int, memory@, base as int)
                    == rows_text(base as int, base + length, length as int, cur_start as int, cur_end as int, memory@, base as int),
            invariant
                length > 0,
                cur_start == address,
                cur_end == address + cursor.spec_byte_len(),
                base <= cur_start,
                cur_end <= window_end,
                window_end == base + rows * length,
                rows * length >= d,
                d == cur_end - base,
                1 <= k <= rows,
                end == base + k * length,
                start == end - length,
                memory@.len() == window_end - base,
                end <= window_end,
                base <= start,
                base == spec_window(address, length, cursor).0,
                window_end == spec_window(address, length, cursor).1,
                prefix == old(out).sent@,
            ensures
                out.sent@ == old(out).sent@ + rows_text(base as int, base + length, length as int, cur_start as int, cur_end as int, memory@, base as int),
            decreases window_end - end,
        {
            let ghost before_row = out.sent@;
            print_row(out, start, end, cur_start, cur_end, memory, base, window_end);
            let ghost row = row_text(start as int, end as int, cur_start as int, cur_end as int, memory@, base as int);
            if cur_end <= end {
                assert(rows_text(start as int, end as int, length as int, cur_start as int, cur_end as int, memory@, base as int) == row);
                break;
            } else {
                proof {
                    lemma_more_rows(k, rows, length as int, d);
                    done = done + row.push(10);
                    assert(rows_text(start as int, end as int, length as int, cur_start as int, cur_end as int, memory@, base as int)
                        == row.push(10) + rows_text(start + length, end + length, length as int, cur_start as int, cur_end as int, memory@, base as int));
                    k = k + 1;
                }
                end += length;
                start += length;
                out.newline();
                assert(out.sent@ =~= prefix + done);
            }
        }
        cur_end
    }
}

} // verus!

verus! {

impl Command {
    /// The address a print command starts at, if it prints.
    pub open spec fn spec_print_address(&self, context: CommandContext) -> Option<usize> {
        match self {
            Command::PrintMemory { start } => Some(*start),
            Command::PrintMemoryContinue => Some(context.last_address),
            _ => None,
        }
    }

    pub fn print_address(&self, context: &CommandContext) -> (r: Option<usize>)
        ensures
            r == self.spec_print_address(*context),
    {
        match self {
            Command::PrintMemory { start } => Some(*start),
            Command::PrintMemoryContinue => Some(context.last_address),
            _ => None,
        }
    }

    /// Runs a command that does not execute code: a print command prints the memory at
    /// its address (whose window `memory` holds) and moves the last address past the
    /// cursor.
    pub fn run(&self, out: &mut Writer, context: &mut CommandContext, memory: &[u8])
        requires
            !(self is ExecuteMemory),
            old(context).length > 0,
            self.spec_print_address(*old(context)) matches Some(a) ==> {
                &&& a + old(context).cursor_type.spec_byte_len() + old(context).length <= usize::MAX
                &&& memory@.len() == spec_window(a, old(context).length, old(context).cursor_type).1
                    - spec_window(a, old(context).length, old(context).cursor_type).0
            },
        ensures
            final(context).length == old(context).length,
            final(context).cursor_type == old(context).cursor_type,
            match self.spec_print_address(*old(context)) {
                None => final(out).sent@ == old(out).sent@ && final(context).last_address == old(context).last_address,
                Some(a) => {
                    let w = spec_window(a, old(context).length, old(context).cursor_type);
                    &&& final(context).last_address == a + old(context).cursor_type.spec_byte_len()
                    &&& final(out).sent@ == old(out).sent@ + rows_text(w.0, w.0 + old(context).length,
                        old(context).length as int, a as int, a + old(context).cursor_type.spec_byte_len(), memory@, w.0)
                },
            },
    {
        match self.print_address(context) {
            None => {},
            Some(a) => {
                let last = self.print_memory(out, a, context.length, context.cursor_type, memory);
                context.last_address = last;
            },
        }
    }
}

/// ASCII upper case of a letter; other bytes unchanged.
pub open spec fn to_upper(c: u8) -> u8 {
    if 97 <= c <= 122 { (c - 32) as u8 } else { c }
}

/// The prompt: a new line, the last address in hex without leading zeros, and `>`.
pub open spec fn prompt_text(last_address: usize) -> Seq<u8> {
    seq![10u8] + spec_number_text(last_address as u64, digits(last_address as nat, HEX_LEN as nat, 16), LeadingZeros::Skip, 15).push(62)
}

/// The line, a new line, `position` spaces and a caret pointing at the error.
pub open spec fn error_text(line: Seq<u8>, position: usize) -> Seq<u8> {
    line.push(10) + Seq::new(position as nat, |i: int| 32u8) + seq![94u8, 33, 32, 69, 114, 114, 111, 114]
}

/// The memory monitor: a line editor for hex addresses whose lines become commands.
pub struct Monitor {
    pub writer: Writer,
    pub line_buffer: Vec<u8>,
    pub context: CommandContext,
}

impl Monitor {
    pub fn new() -> (r: Self)
        ensures
            r.writer.sent@ == Seq::<u8>::empty(),
            r.line_buffer@ == Seq::<u8>::empty(),
            r.context == (CommandContext { last_address: 0, length: 8, cursor_type: CursorType::U32 }),
    {
        Monitor {
            writer: Writer::new(),
            line_buffer: Vec::new(),
            context: CommandContext { last_address: 0, length: 8, cursor_type: CursorType::U32 },
        }
    }

    /// Clears the screen (form feed) and shows the prompt.
    pub fn start(&mut self)
        ensures
            final(self).writer.sent@ == old(self).writer.sent@.push(12) + prompt_text(old(self).context.last_address),
            final(self).line_buffer == old(self).line_buffer,
            final(self).context == old(self).context,
    {
        self.writer.putc(12);
        self.echo_prompt();
    }

    pub fn echo_prompt(&mut self)
        ensures
            final(self).writer.sent@ == old(self).writer.sent@ + prompt_text(old(self).context.last_address),
            final(self).line_buffer == old(self).line_buffer,
            final(self).context == old(self).context,
    {
        let ghost before = self.writer.sent@;
        self.writer.newline();
        self.writer.hex_usize(self.context.last_address, Some(Formatting { leading_zeros: LeadingZeros::Skip }));
        self.writer.putc(62);
        assert(self.writer.sent@ =~= before + prompt_text(self.context.last_address));
    }

    pub fn echo_line_buffer(&mut self)
        ensures
            final(self).writer.sent@ == old(self).writer.sent@ + old(self).line_buffer@,
            final(self).line_buffer == old(self).line_buffer,
            final(self).context == old(self).context,
    {
        self.writer.puts(self.line_buffer.as_slice());
    }

    pub fn echo_error(&mut self, position: usize)
        ensures
            final(self).writer.sent@ == old(self).writer.sent@ + error_text(old(self).line_buffer@, position),
            final(self).line_buffer == old(self).line_buffer,
            final(self).context == old(self).context,
    {
        let ghost before = self.writer.sent@;
        self.echo_line_buffer();
        self.writer.newline();
        self.writer.putc_repeat(32, position);
        let msg: Vec<u8> = vec![94u8, 33, 32, 69, 114, 114, 111, 114];
        self.writer.puts(msg.as_slice());
        assert(self.writer.sent@ =~= before + error_text(self.line_buffer@, position));
    }

    /// Backspace, space, backspace: erases the last character on the terminal.
    pub fn echo_backspace(&mut self)
        ensures
            final(self).writer.sent@ == old(self).writer.sent@ + seq![8u8, 32, 8],
            final(self).line_buffer == old(self).line_buffer,
            final(self).context == old(self).context,
    {
        let ghost before = self.writer.sent@;
        self.writer.putc(8);
        self.writer.putc(32);
        self.writer.putc(8);
        assert(self.writer.sent@ =~= before + seq![8u8, 32, 8]);
    }

    /// Parses the line: a command is handed back to be run; an error is shown under the
    /// line.
    pub fn submit(&mut self) -> (r: Option<Command>)
        ensures
            final(self).line_buffer == old(self).line_buffer,
            final(self).context == old(self).context,
            match spec_parse(old(self).line_buffer@) {
                Ok(c) => r == Some(c) && final(self).writer.sent@ == old(self).writer.sent@,
                Err(CommandParseError::IllegalToken { position }) => r is None
                    && final(self).writer.sent@ == old(self).writer.sent@ + error_text(old(self).line_buffer@, position),
            },
    {
        match Command::parse(self.line_buffer.as_slice()) {
            Ok(command) => Some(command),
            Err(CommandParseError::IllegalToken { position }) => {
                self.echo_error(position);
                None
            },
        }
    }

    /// Empties the line and shows the prompt again.
    pub fn end_line(&mut self)
        ensures
            final(self).line_buffer@ == Seq::<u8>::empty(),
            final(self).context == old(self).context,
            final(self).writer.sent@ == old(self).writer.sent@ + prompt_text(old(self).context.last_address),
    {
        self.line_buffer.clear();
        self.echo_prompt();
    }

    /// Handles one input byte (upper-cased): backspace or delete erase, return or line
    /// feed submit the line, `+` and `-` widen and narrow the cursor, hex digits, `R`
    /// and spaces are added while the line has room, anything else rings the bell. A
    /// submitted line that parses is handed back as a command, to be run before
    /// `end_line`.
    pub fn handle_input(&mut self, input: u8) -> (r: Option<Command>)
        ensures
            ({
                let c = to_upper(input);
                let s0 = old(self).writer.sent@;
                let line = old(self).line_buffer@;
                let ctx = old(self).context;
                if c == 127 || c == 8 {
                    &&& r is None
                    &&& final(self).context == ctx
                    &&& if line.len() > 0 {
                        final(self).line_buffer@ == line.drop_last() && final(self).writer.sent@ == s0 + seq![8u8, 32, 8]
                    } else {
                        final(self).line_buffer@ == line && final(self).writer.sent@ == s0
                    }
                } else if c == 10 || c == 13 {
                    &&& final(self).context == ctx
                    &&& match spec_parse(line) {
                        Ok(cmd) => r == Some(cmd) && final(self).line_buffer@ == line && final(self).writer.sent@ == s0.push(13),
                        Err(CommandParseError::IllegalToken { position }) => r is None
                            && final(self).line_buffer@ == Seq::<u8>::empty()
                            && final(self).writer.sent@ == s0.push(13) + error_text(line, position) + prompt_text(ctx.last_address),
                    }
                } else if c == 43 {
                    r is None && final(self).line_buffer@ == line && final(self).writer.sent@ == s0
                        && final(self).context == (CommandContext { cursor_type: ctx.cursor_type.spec_wider(), ..ctx })
                } else if c == 45 {
                    r is None && final(self).line_buffer@ == line && final(self).writer.sent@ == s0
                        && final(self).context == (CommandContext { cursor_type: ctx.cursor_type.spec_slimmer(), ..ctx })
                } else if self::parse::is_hex_digit(c) || c == 82 || c == 32 {
                    &&& r is None
                    &&& final(self).context == ctx
                    &&& if line.len() < LINE_LEN {
                        final(self).line_buffer@ == line.push(c) && final(self).writer.sent@ == s0.push(c)
                    } else {
                        final(self).line_buffer@ == line && final(self).writer.sent@ == s0
                    }
                } else {
                    r is None && final(self).line_buffer@ == line && final(self).context == ctx
                        && final(self).writer.sent@ == s0.push(7)
                }
            }),
    {
        let c: u8 = if 97 <= input && input <= 122 { input - 32 } else { input };
        if c == 127 || c == 8 {
            if self.line_buffer.len() > 0 {
                self.line_buffer.pop();
                self.echo_backspace();
            }
            None
        } else if c == 10 || c == 13 {
            self.writer.carriage_return();
            match self.submit() {
                Some(command) => Some(command),
                None => {
                    self.end_line();
                    None
                },
            }
        } else if c == 43 {
            self.context.cursor_type = self.context.cursor_type.wider();
            None
        } else if c == 45 {
            self.context.cursor_type = self.context.cursor_type.slimmer();
            None
        } else if (48 <= c && c <= 57) || (65 <= c && c <= 70) || (97 <= c && c <= 102) || c == 82 || c == 32 {
            if self.line_buffer.len() < LINE_LEN {
                self.line_buffer.push(c);
                self.writer.putc(c);
            }
            None
        } else {
            self.writer.putc(7);
            None
        }
    }
}

} // verus!
