//! The debugger's commands and how they are written.
//!
//! A command line is one command and nothing else. The commands are tried
//! in a fixed order, and the first one whose words fit the start of the line
//! is taken, whatever follows. So `showmem` is no command: `s` fits first and
//! leaves `howmem` over. The empty line repeats the last command.

use vstd::prelude::*;
use vstd::string::StrSliceExecFns;

verus! {

#[derive(Debug, Clone)]
pub enum Command {
    ShowRegs,
    Step,
    Goto(u32),
    ShowMem(Option<u32>),
    Disassemble(usize),
    Label,
    AddLabel(String, u32),
    Exit,
    Repeat,
}

/// A command, with the name of a label as its characters.
pub enum CommandView {
    ShowRegs,
    Step,
    Goto(u32),
    ShowMem(Option<u32>),
    Disassemble(usize),
    Label,
    AddLabel(Seq<char>, u32),
    Exit,
    Repeat,
}

impl View for Command {
    type V = CommandView;

    open spec fn view(&self) -> CommandView {
        match *self {
            Command::ShowRegs => CommandView::ShowRegs,
            Command::Step => CommandView::Step,
            Command::Goto(addr) => CommandView::Goto(addr),
            Command::ShowMem(addr) => CommandView::ShowMem(addr),
            Command::Disassemble(count) => CommandView::Disassemble(count),
            Command::Label => CommandView::Label,
            Command::AddLabel(name, addr) => CommandView::AddLabel(name@, addr),
            Command::Exit => CommandView::Exit,
            Command::Repeat => CommandView::Repeat,
        }
    }
}

/// The line is no command.
#[derive(Clone, Copy, Debug, PartialEq, Eq, Structural)]
pub struct ParseError;

/// The instructions that `disassemble` shows where it is given no count.
pub const DEFAULT_DISASSEMBLY_COUNT: usize = 4;

/// The kinds of characters that the words of a command are made of.
#[derive(Clone, Copy, Debug, PartialEq, Eq, Structural)]
pub enum CharClass {
    /// A space or a tab.
    Space,
    /// `0` to `9`.
    Digit,
    /// `0` to `9`, `a` to `f`, `A` to `F`.
    HexDigit,
    /// `0` to `9`, `a` to `z`, `A` to `Z`.
    Alphanumeric,
}

pub open spec fn is_digit(c: char) -> bool {
    0x30 <= c as u32 <= 0x39
}

pub open spec fn is_lower_hex(c: char) -> bool {
    0x61 <= c as u32 <= 0x66
}

pub open spec fn is_upper_hex(c: char) -> bool {
    0x41 <= c as u32 <= 0x46
}

pub open spec fn is_letter(c: char) -> bool {
    0x61 <= c as u32 <= 0x7a || 0x41 <= c as u32 <= 0x5a
}

/// Whether a character is of a class.
pub open spec fn in_class(c: char, class: CharClass) -> bool {
    match class {
        CharClass::Space => c as u32 == 0x20 || c as u32 == 0x09,
        CharClass::Digit => is_digit(c),
        CharClass::HexDigit => is_digit(c) || is_lower_hex(c) || is_upper_hex(c),
        CharClass::Alphanumeric => is_digit(c) || is_letter(c),
    }
}

/// Where the characters of a class that start at `at` end.
pub open spec fn run_end(s: Seq<char>, at: int, class: CharClass) -> int
    decreases s.len() - at,
{
    if 0 <= at < s.len() && in_class(s[at], class) {
        run_end(s, at + 1, class)
    } else {
        at
    }
}

/// Whether the line has the word at a position.
pub open spec fn has_word(s: Seq<char>, at: int, word: Seq<char>) -> bool {
    0 <= at && at + word.len() <= s.len() && s.subrange(at, at + word.len()) == word
}

/// The value of a hexadecimal digit.
pub open spec fn hex_digit_value(c: char) -> nat {
    if is_digit(c) {
        (c as u32 - 0x30) as nat
    } else if is_lower_hex(c) {
        (c as u32 - 0x61 + 10) as nat
    } else {
        (c as u32 - 0x41 + 10) as nat
    }
}

/// The number that the hexadecimal digits from `from` up to `to` write.
pub open spec fn hex_value(s: Seq<char>, from: int, to: int) -> nat
    decreases to - from,
{
    if to <= from {
        0
    } else {
        hex_value(s, from, to - 1) * 16 + hex_digit_value(s[to - 1])
    }
}

/// The number that the decimal digits from `from` up to `to` write.
pub open spec fn decimal_value(s: Seq<char>, from: int, to: int) -> nat
    decreases to - from,
{
    if to <= from {
        0
    } else {
        decimal_value(s, from, to - 1) * 10 + (s[to - 1] as u32 - 0x30) as nat
    }
}

/// A value that was read and where the reading ended.
pub struct Parsed<T> {
    pub value: T,
    pub end: int,
}

/// An address at a position: `0x` or `$` may come first, then at least one
/// hexadecimal digit; all digits that follow belong to it, and their value
/// must fit 32 bits.
pub open spec fn address_at(s: Seq<char>, at: int) -> Option<Parsed<u32>> {
    let start = if has_word(s, at, "0x"@) {
        at + 2
    } else if has_word(s, at, "$"@) {
        at + 1
    } else {
        at
    };
    let end = run_end(s, start, CharClass::HexDigit);
    if end > start && hex_value(s, start, end) <= u32::MAX {
        Some(Parsed { value: hex_value(s, start, end) as u32, end })
    } else {
        None
    }
}

/// A count at a position: at least one decimal digit; all digits that
/// follow belong to it, and their value must fit a `usize`.
pub open spec fn count_at(s: Seq<char>, at: int) -> Option<Parsed<usize>> {
    let end = run_end(s, at, CharClass::Digit);
    if end > at && decimal_value(s, at, end) <= usize::MAX {
        Some(Parsed { value: decimal_value(s, at, end) as usize, end })
    } else {
        None
    }
}

/// An address after at least one space or tab.
pub open spec fn spaced_address_at(s: Seq<char>, at: int) -> Option<Parsed<u32>> {
    let start = run_end(s, at, CharClass::Space);
    if start > at {
        address_at(s, start)
    } else {
        None
    }
}

/// A count after at least one space or tab.
pub open spec fn spaced_count_at(s: Seq<char>, at: int) -> Option<Parsed<usize>> {
    let start = run_end(s, at, CharClass::Space);
    if start > at {
        count_at(s, start)
    } else {
        None
    }
}

/// Where the first of two words that the line starts with ends.
pub open spec fn word_end_2(s: Seq<char>, first: Seq<char>, second: Seq<char>) -> Option<int> {
    if has_word(s, 0, first) {
        Some(first.len() as int)
    } else if has_word(s, 0, second) {
        Some(second.len() as int)
    } else {
        None
    }
}

/// `showregs` or `r`.
pub open spec fn show_regs(s: Seq<char>) -> Option<Parsed<CommandView>> {
    match word_end_2(s, "showregs"@, "r"@) {
        Some(end) => Some(Parsed { value: CommandView::ShowRegs, end }),
        None => None,
    }
}

/// `step` or `s`.
pub open spec fn step(s: Seq<char>) -> Option<Parsed<CommandView>> {
    match word_end_2(s, "step"@, "s"@) {
        Some(end) => Some(Parsed { value: CommandView::Step, end }),
        None => None,
    }
}

/// `goto` or `g`, then an address.
pub open spec fn goto(s: Seq<char>) -> Option<Parsed<CommandView>> {
    match word_end_2(s, "goto"@, "g"@) {
        Some(end) => match spaced_address_at(s, end) {
            Some(addr) => Some(Parsed { value: CommandView::Goto(addr.value), end: addr.end }),
            None => None,
        },
        None => None,
    }
}

/// `showmem`, `mem` or `m`, then an address or nothing.
pub open spec fn show_mem(s: Seq<char>) -> Option<Parsed<CommandView>> {
    let word_end = if has_word(s, 0, "showmem"@) {
        Some("showmem"@.len() as int)
    } else {
        word_end_2(s, "mem"@, "m"@)
    };
    match word_end {
        Some(end) => match spaced_address_at(s, end) {
            Some(addr) => Some(
                Parsed { value: CommandView::ShowMem(Some(addr.value)), end: addr.end },
            ),
            None => Some(Parsed { value: CommandView::ShowMem(None), end }),
        },
        None => None,
    }
}

/// `disassemble` or `d`, then a count or nothing, which stands for 4.
pub open spec fn disassemble(s: Seq<char>) -> Option<Parsed<CommandView>> {
    match word_end_2(s, "disassemble"@, "d"@) {
        Some(end) => match spaced_count_at(s, end) {
            Some(count) => Some(
                Parsed { value: CommandView::Disassemble(count.value), end: count.end },
            ),
            None => Some(
                Parsed { value: CommandView::Disassemble(DEFAULT_DISASSEMBLY_COUNT), end },
            ),
        },
        None => None,
    }
}

/// `label` or `l`.
pub open spec fn label(s: Seq<char>) -> Option<Parsed<CommandView>> {
    match word_end_2(s, "label"@, "l"@) {
        Some(end) => Some(Parsed { value: CommandView::Label, end }),
        None => None,
    }
}

/// `addlabel` or `al`, then a dot and the label's name, which is made of
/// letters and digits, then an address.
pub open spec fn add_label(s: Seq<char>) -> Option<Parsed<CommandView>> {
    match word_end_2(s, "addlabel"@, "al"@) {
        Some(end) => {
            let dot = run_end(s, end, CharClass::Space);
            let name_start = dot + 1;
            let name_end = run_end(s, name_start, CharClass::Alphanumeric);
            if dot > end && dot < s.len() && s[dot] as u32 == 0x2e && name_end > name_start {
                match spaced_address_at(s, name_end) {
                    Some(addr) => Some(
                        Parsed {
                            value: CommandView::AddLabel(
                                s.subrange(name_start, name_end),
                                addr.value,
                            ),
                            end: addr.end,
                        },
                    ),
                    None => None,
                }
            } else {
                None
            }
        },
        None => None,
    }
}

/// `exit`, `quit`, `e`, `x` or `q`.
pub open spec fn exit(s: Seq<char>) -> Option<Parsed<CommandView>> {
    let word_end = match word_end_2(s, "exit"@, "quit"@) {
        Some(end) => Some(end),
        None => if has_word(s, 0, "e"@) {
            Some("e"@.len() as int)
        } else {
            word_end_2(s, "x"@, "q"@)
        },
    };
    match word_end {
        Some(end) => Some(Parsed { value: CommandView::Exit, end }),
        None => None,
    }
}

/// The first command, in the order in which they are tried, that fits the
/// start of the line, and where it ends. Where none fits, the line stands
/// for a repetition of the last command, which takes nothing of it.
pub open spec fn first_fit(s: Seq<char>) -> Parsed<CommandView> {
    if let Some(fit) = show_regs(s) {
        fit
    } else if let Some(fit) = step(s) {
        fit
    } else if let Some(fit) = goto(s) {
        fit
    } else if let Some(fit) = show_mem(s) {
        fit
    } else if let Some(fit) = disassemble(s) {
        fit
    } else if let Some(fit) = label(s) {
        fit
    } else if let Some(fit) = add_label(s) {
        fit
    } else if let Some(fit) = exit(s) {
        fit
    } else {
        Parsed { value: CommandView::Repeat, end: 0 }
    }
}

/// The command that a line writes: the first one that fits its start, if
/// that one takes the whole line.
pub open spec fn parsed(s: Seq<char>) -> Option<CommandView> {
    if first_fit(s).end == s.len() {
        Some(first_fit(s).value)
    } else {
        None
    }
}

fn char_in_class(c: char, class: CharClass) -> (r: bool)
    ensures
        r == in_class(c, class),
{
    let code: u32 = c as u32;
    let digit = 0x30 <= code && code <= 0x39;
    match class {
        CharClass::Space => code == 0x20 || code == 0x09,
        CharClass::Digit => digit,
        CharClass::HexDigit => digit || (0x61 <= code && code <= 0x66) || (0x41 <= code && code
            <= 0x46),
        CharClass::Alphanumeric => digit || (0x61 <= code && code <= 0x7a) || (0x41 <= code
            && code <= 0x5a),
    }
}

/// Where the characters of a class that start at `at` end.
fn scan(s: &str, length: usize, at: usize, class: CharClass) -> (end: usize)
    requires
        length == s@.len(),
        at <= length,
    ensures
        end == run_end(s@, at as int, class),
        at <= end <= length,
        forall|i: int| at <= i < end ==> in_class(s@[i], class),
{
    let mut end: usize = at;
    while end < length && char_in_class(s.get_char(end), class)
        invariant
            length == s@.len(),
            at <= end <= length,
            run_end(s@, at as int, class) == run_end(s@, end as int, class),
            forall|i: int| at <= i < end ==> in_class(s@[i], class),
        decreases length - end,
    {
        end = end + 1;
    }
    end
}

/// Whether the line has the word at a position.
fn word_at(s: &str, length: usize, at: usize, word: &str) -> (r: bool)
    requires
        length == s@.len(),
        at <= length,
    ensures
        r == has_word(s@, at as int, word@),
{
    let word_length = word.unicode_len();
    if word_length > length - at {
        return false;
    }
    let mut i: usize = 0;
    while i < word_length
        invariant
            length == s@.len(),
            word_length == word@.len(),
            at + word_length <= length,
            i <= word_length,
            forall|j: int| 0 <= j < i ==> s@[at + j] == word@[j],
        decreases word_length - i,
    {
        if s.get_char(at + i) != word.get_char(i) {
            assert(s@.subrange(at as int, at + word_length)[i as int] != word@[i as int]);
            return false;
        }
        i = i + 1;
    }
    assert(s@.subrange(at as int, at + word_length) =~= word@);
    true
}

/// Reads an address at a position.
fn parse_address(s: &str, length: usize, at: usize) -> (r: Option<(u32, usize)>)
    requires
        length == s@.len(),
        at <= length,
    ensures
        match address_at(s@, at as int) {
            Some(addr) => r == Some((addr.value, addr.end as usize)) && at < addr.end <= length,
            None => r is None,
        },
{
    proof {
        assert("0x"@.len() == 2) by {
            reveal_strlit("0x");
        }
        assert("$"@.len() == 1) by {
            reveal_strlit("$");
        }
    }
    let start: usize = if word_at(s, length, at, "0x") {
        at + 2
    } else if word_at(s, length, at, "$") {
        at + 1
    } else {
        at
    };
    let end = scan(s, length, start, CharClass::HexDigit);
    if end == start {
        return None;
    }
    let mut value: u64 = 0;
    let mut overflow = false;
    let mut i: usize = start;
    while i < end
        invariant
            length == s@.len(),
            start <= i <= end <= length,
            forall|j: int| start <= j < end ==> in_class(s@[j], CharClass::HexDigit),
            !overflow ==> value == hex_value(s@, start as int, i as int) && value <= u32::MAX,
            overflow ==> hex_value(s@, start as int, i as int) > u32::MAX,
        decreases end - i,
    {
        let code: u32 = s.get_char(i) as u32;
        let digit: u64 = if 0x30 <= code && code <= 0x39 {
            (code - 0x30) as u64
        } else if 0x61 <= code && code <= 0x66 {
            (code - 0x61 + 10) as u64
        } else {
            (code - 0x41 + 10) as u64
        };
        assert(digit == hex_digit_value(s@[i as int]));
        if !overflow {
            value = value * 16 + digit;
            if value > 0xffff_ffff {
                overflow = true;
            }
        }
        i = i + 1;
    }
    if overflow {
        None
    } else {
        Some((value as u32, end))
    }
}

/// Reads a count at a position.
fn parse_count(s: &str, length: usize, at: usize) -> (r: Option<(usize, usize)>)
    requires
        length == s@.len(),
        at <= length,
    ensures
        match count_at(s@, at as int) {
            Some(count) => r == Some((count.value, count.end as usize)) && at < count.end
                <= length,
            None => r is None,
        },
{
    let end = scan(s, length, at, CharClass::Digit);
    if end == at {
        return None;
    }
    let mut value: usize = 0;
    let mut overflow = false;
    let mut i: usize = at;
    while i < end
        invariant
            length == s@.len(),
            at <= i <= end <= length,
            forall|j: int| at <= j < end ==> in_class(s@[j], CharClass::Digit),
            !overflow ==> value == decimal_value(s@, at as int, i as int),
            overflow ==> decimal_value(s@, at as int, i as int) > usize::MAX,
        decreases end - i,
    {
        let code: u32 = s.get_char(i) as u32;
        let digit: usize = (code - 0x30) as usize;
        if !overflow {
            match value.checked_mul(10) {
                Some(tens) => match tens.checked_add(digit) {
                    Some(sum) => {
                        value = sum;
                    },
                    None => {
                        overflow = true;
                    },
                },
                None => {
                    overflow = true;
                },
            }
        }
        i = i + 1;
    }
    if overflow {
        None
    } else {
        Some((value, end))
    }
}

/// Reads an address after at least one space or tab.
fn parse_spaced_address(s: &str, length: usize, at: usize) -> (r: Option<(u32, usize)>)
    requires
        length == s@.len(),
        at <= length,
    ensures
        match spaced_address_at(s@, at as int) {
            Some(addr) => r == Some((addr.value, addr.end as usize)) && at < addr.end <= length,
            None => r is None,
        },
{
    let start = scan(s, length, at, CharClass::Space);
    if start > at {
        parse_address(s, length, start)
    } else {
        None
    }
}

/// Reads a count after at least one space or tab.
fn parse_spaced_count(s: &str, length: usize, at: usize) -> (r: Option<(usize, usize)>)
    requires
        length == s@.len(),
        at <= length,
    ensures
        match spaced_count_at(s@, at as int) {
            Some(count) => r == Some((count.value, count.end as usize)) && at < count.end
                <= length,
            None => r is None,
        },
{
    let start = scan(s, length, at, CharClass::Space);
    if start > at {
        parse_count(s, length, start)
    } else {
        None
    }
}

/// Where the first of two words that the line starts with ends.
fn first_word_2(s: &str, length: usize, first: &str, second: &str) -> (r: Option<usize>)
    requires
        length == s@.len(),
    ensures
        match word_end_2(s@, first@, second@) {
            Some(end) => r == Some(end as usize) && end <= length,
            None => r is None,
        },
{
    if word_at(s, length, 0, first) {
        Some(first.unicode_len())
    } else if word_at(s, length, 0, second) {
        Some(second.unicode_len())
    } else {
        None
    }
}

/// A command that fits the start of the line and where it ends.
pub struct Fit {
    pub command: Command,
    pub end: usize,
}

/// Whether a fit is the one that the grammar gives.
pub open spec fn fits(r: Option<Fit>, expected: Option<Parsed<CommandView>>) -> bool {
    match expected {
        Some(fit) => r matches Some(found) && found.command@ == fit.value && found.end == fit.end,
        None => r is None,
    }
}

fn fit_goto(s: &str, length: usize) -> (r: Option<Fit>)
    requires
        length == s@.len(),
    ensures
        fits(r, goto(s@)),
{
    match first_word_2(s, length, "goto", "g") {
        Some(end) => match parse_spaced_address(s, length, end) {
            Some((addr, end)) => Some(Fit { command: Command::Goto(addr), end }),
            None => None,
        },
        None => None,
    }
}

fn fit_show_mem(s: &str, length: usize) -> (r: Option<Fit>)
    requires
        length == s@.len(),
    ensures
        fits(r, show_mem(s@)),
{
    let word_end = if word_at(s, length, 0, "showmem") {
        Some("showmem".unicode_len())
    } else {
        first_word_2(s, length, "mem", "m")
    };
    match word_end {
        Some(end) => match parse_spaced_address(s, length, end) {
            Some((addr, end)) => Some(Fit { command: Command::ShowMem(Some(addr)), end }),
            None => Some(Fit { command: Command::ShowMem(None), end }),
        },
        None => None,
    }
}

fn fit_disassemble(s: &str, length: usize) -> (r: Option<Fit>)
    requires
        length == s@.len(),
    ensures
        fits(r, disassemble(s@)),
{
    match first_word_2(s, length, "disassemble", "d") {
        Some(end) => match parse_spaced_count(s, length, end) {
            Some((count, end)) => Some(Fit { command: Command::Disassemble(count), end }),
            None => Some(Fit { command: Command::Disassemble(DEFAULT_DISASSEMBLY_COUNT), end }),
        },
        None => None,
    }
}

fn fit_add_label(s: &str, length: usize) -> (r: Option<Fit>)
    requires
        length == s@.len(),
    ensures
        fits(r, add_label(s@)),
{
    match first_word_2(s, length, "addlabel", "al") {
        Some(end) => {
            let dot = scan(s, length, end, CharClass::Space);
            if dot == end || dot >= length || s.get_char(dot) as u32 != 0x2e {
                return None;
            }
            let name_start = dot + 1;
            let name_end = scan(s, length, name_start, CharClass::Alphanumeric);
            if name_end == name_start {
                return None;
            }
            match parse_spaced_address(s, length, name_end) {
                Some((addr, end)) => {
                    let name = s.substring_char(name_start, name_end).to_owned();
                    Some(Fit { command: Command::AddLabel(name, addr), end })
                },
                None => None,
            }
        },
        None => None,
    }
}

fn fit_exit(s: &str, length: usize) -> (r: Option<Fit>)
    requires
        length == s@.len(),
    ensures
        fits(r, exit(s@)),
{
    let word_end = match first_word_2(s, length, "exit", "quit") {
        Some(end) => Some(end),
        None => if word_at(s, length, 0, "e") {
            Some("e".unicode_len())
        } else {
            first_word_2(s, length, "x", "q")
        },
    };
    match word_end {
        Some(end) => Some(Fit { command: Command::Exit, end }),
        None => None,
    }
}

fn fit_words(s: &str, length: usize) -> (r: Option<Fit>)
    requires
        length == s@.len(),
    ensures
        fits(
            r,
            if show_regs(s@) is Some {
                show_regs(s@)
            } else {
                step(s@)
            },
        ),
{
    match first_word_2(s, length, "showregs", "r") {
        Some(end) => Some(Fit { command: Command::ShowRegs, end }),
        None => match first_word_2(s, length, "step", "s") {
            Some(end) => Some(Fit { command: Command::Step, end }),
            None => None,
        },
    }
}

fn fit_label(s: &str, length: usize) -> (r: Option<Fit>)
    requires
        length == s@.len(),
    ensures
        fits(r, label(s@)),
{
    match first_word_2(s, length, "label", "l") {
        Some(end) => Some(Fit { command: Command::Label, end }),
        None => None,
    }
}

/// The first command that fits the start of the line.
fn find_first_fit(s: &str, length: usize) -> (r: Fit)
    requires
        length == s@.len(),
    ensures
        r.command@ == first_fit(s@).value,
        r.end == first_fit(s@).end,
{
    if let Some(fit) = fit_words(s, length) {
        return fit;
    }
    if let Some(fit) = fit_goto(s, length) {
        return fit;
    }
    if let Some(fit) = fit_show_mem(s, length) {
        return fit;
    }
    if let Some(fit) = fit_disassemble(s, length) {
        return fit;
    }
    if let Some(fit) = fit_label(s, length) {
        return fit;
    }
    if let Some(fit) = fit_add_label(s, length) {
        return fit;
    }
    if let Some(fit) = fit_exit(s, length) {
        return fit;
    }
    Fit { command: Command::Repeat, end: 0 }
}

impl Command {
    /// Reads a command line.
    pub fn from_str(s: &str) -> (r: Result<Command, ParseError>)
        ensures
            match parsed(s@) {
                Some(command) => r matches Ok(found) && found@ == command,
                None => r is Err,
            },
    {
        let length = s.unicode_len();
        let fit = find_first_fit(s, length);
        if fit.end == length {
            Ok(fit.command)
        } else {
            Err(ParseError)
        }
    }

    /// The command that a line stands for, where the line may repeat the
    /// last command: there must be a last command then.
    pub fn resolve(command: Command, last_command: Option<Command>) -> (r: Result<
        Command,
        ParseError,
    >)
        ensures
            match (command, last_command) {
                (Command::Repeat, Some(last)) => r == Ok::<Command, ParseError>(last),
                (Command::Repeat, None) => r is Err,
                (other, _) => r == Ok::<Command, ParseError>(other),
            },
    {
        match command {
            Command::Repeat => match last_command {
                Some(last) => Ok(last),
                None => Err(ParseError),
            },
            other => Ok(other),
        }
    }
}

} // verus!
