//! The client's side of the control socket: the command it sends, the
//! process id it reads from the daemon's file, and what it makes of the
//! answers.

use crate::error::{Error, ErrorView};
use crate::types::{option_text, Action, Command, CommandView, Config, DaemonState};
use vstd::prelude::*;
use vstd::string::StrSliceExecFns;

verus! {

/// Whether `c` is white space, as Unicode defines it.
pub open spec fn is_white_space(c: char) -> bool {
    let code = c as u32;
    ||| 0x09 <= code <= 0x0D
    ||| code == 0x20
    ||| code == 0x85
    ||| code == 0xA0
    ||| code == 0x1680
    ||| 0x2000 <= code <= 0x200A
    ||| code == 0x2028
    ||| code == 0x2029
    ||| code == 0x202F
    ||| code == 0x205F
    ||| code == 0x3000
}

/// `text` without the white space at its front.
pub open spec fn without_leading_space(text: Seq<char>) -> Seq<char>
    decreases text.len(),
{
    if text.len() > 0 && is_white_space(text[0]) {
        without_leading_space(text.drop_first())
    } else {
        text
    }
}

/// `text` without the white space at its end.
pub open spec fn without_trailing_space(text: Seq<char>) -> Seq<char>
    decreases text.len(),
{
    if text.len() > 0 && is_white_space(text.last()) {
        without_trailing_space(text.drop_last())
    } else {
        text
    }
}

/// `text` without the white space at either end.
pub open spec fn trimmed(text: Seq<char>) -> Seq<char> {
    without_trailing_space(without_leading_space(text))
}

/// Why a text is not a number that fits.
#[derive(Clone, Copy, Debug, PartialEq, Eq, Structural)]
pub enum IntFault {
    Empty,
    InvalidDigit,
    PosOverflow,
    NegOverflow,
}

/// Whether `c` is one of the digits `0` to `9`.
pub open spec fn is_digit(c: char) -> bool {
    '0' <= c && c <= '9'
}

/// The number that the digit `c` stands for.
pub open spec fn digit_value(c: char) -> int {
    c as u32 - 48
}

/// Reads the digits of `text` from place `at` on, having read `so_far` up to
/// there; `negative` tells whether each digit counts down. What is no digit
/// is a fault; so is a number that leaves the range of 64 bits with a sign,
/// at the digit where it does.
pub open spec fn digits_from(text: Seq<char>, negative: bool, so_far: int, at: int) -> Result<
    int,
    IntFault,
>
    decreases text.len() - at,
{
    if at >= text.len() || at < 0 {
        Ok(so_far)
    } else if !is_digit(text[at]) {
        Err(IntFault::InvalidDigit)
    } else {
        let next = if negative {
            so_far * 10 - digit_value(text[at])
        } else {
            so_far * 10 + digit_value(text[at])
        };
        if next > i64::MAX {
            Err(IntFault::PosOverflow)
        } else if next < i64::MIN {
            Err(IntFault::NegOverflow)
        } else {
            digits_from(text, negative, next, at + 1)
        }
    }
}

/// The number that `text` writes in decimal: an optional sign, `+` or `-`,
/// and then digits, at least one, and nothing else.
pub open spec fn decimal_value(text: Seq<char>) -> Result<int, IntFault> {
    if text.len() == 0 {
        Err(IntFault::Empty)
    } else if text[0] == '+' || text[0] == '-' {
        if text.len() == 1 {
            Err(IntFault::InvalidDigit)
        } else {
            digits_from(text, text[0] == '-', 0, 1)
        }
    } else {
        digits_from(text, false, 0, 0)
    }
}

/// With white space before place `at` and none at it, what is left of the
/// front begins at `at`.
proof fn lemma_leading_space(text: Seq<char>, at: int)
    requires
        0 <= at <= text.len(),
        forall|k: int| 0 <= k < at ==> is_white_space(#[trigger] text[k]),
        at == text.len() || !is_white_space(text[at]),
    ensures
        without_leading_space(text) == text.subrange(at, text.len() as int),
    decreases at,
{
    if at == 0 {
        assert(text.subrange(0, text.len() as int) =~= text);
    } else {
        let rest = text.drop_first();
        assert forall|k: int| 0 <= k < at - 1 implies is_white_space(#[trigger] rest[k]) by {
            assert(rest[k] == text[k + 1]);
        }
        lemma_leading_space(rest, at - 1);
        assert(rest.subrange(at - 1, rest.len() as int) =~= text.subrange(at, text.len() as int));
    }
}

/// With white space from place `to` on and none before it, what is left of
/// the end stops at `to`.
proof fn lemma_trailing_space(text: Seq<char>, to: int)
    requires
        0 <= to <= text.len(),
        forall|k: int| to <= k < text.len() ==> is_white_space(#[trigger] text[k]),
        to == 0 || !is_white_space(text[to - 1]),
    ensures
        without_trailing_space(text) == text.subrange(0, to),
    decreases text.len() - to,
{
    if to == text.len() {
        assert(text.subrange(0, to) =~= text);
    } else {
        let rest = text.drop_last();
        lemma_trailing_space(rest, to);
        assert(rest.subrange(0, to) =~= text.subrange(0, to));
    }
}

/// Whether `c` is white space.
pub fn is_space(c: char) -> (space: bool)
    ensures
        space == is_white_space(c),
{
    let code: u32 = c as u32;
    (0x09 <= code && code <= 0x0D) || code == 0x20 || code == 0x85 || code == 0xA0 || code
        == 0x1680 || (0x2000 <= code && code <= 0x200A) || code == 0x2028 || code == 0x2029
        || code == 0x202F || code == 0x205F || code == 0x3000
}

/// `text` without the white space at either end.
pub fn trim(text: &str) -> (inner: &str)
    ensures
        inner@ == trimmed(text@),
{
    let length: usize = text.unicode_len();
    let mut from: usize = 0;
    while from < length && is_space(text.get_char(from))
        invariant
            from <= length == text@.len(),
            forall|k: int| 0 <= k < from ==> is_white_space(#[trigger] text@[k]),
        decreases length - from,
    {
        from = from + 1;
    }
    let mut to: usize = length;
    while to > from && is_space(text.get_char(to - 1))
        invariant
            from <= to <= length == text@.len(),
            forall|k: int| to <= k < length ==> is_white_space(#[trigger] text@[k]),
        decreases to,
    {
        to = to - 1;
    }
    proof {
        let front = text@.subrange(from as int, length as int);
        lemma_leading_space(text@, from as int);
        assert forall|k: int| to - from <= k < front.len() implies is_white_space(
            #[trigger] front[k],
        ) by {
            assert(front[k] == text@[k + from]);
        }
        if to > from {
            assert(front[to - from - 1] == text@[to - 1]);
        }
        lemma_trailing_space(front, to - from);
        assert(front.subrange(0, to - from) =~= text@.subrange(from as int, to as int));
    }
    text.substring_char(from, to)
}

/// Reads `text` as a number written in decimal that fits 64 bits with a
/// sign.
pub fn parse_decimal(text: &str) -> (parsed: Result<i64, IntFault>)
    ensures
        match decimal_value(text@) {
            Ok(value) => parsed == Ok::<i64, IntFault>(value as i64) && i64::MIN <= value
                <= i64::MAX,
            Err(fault) => parsed == Err::<i64, IntFault>(fault),
        },
{
    let length: usize = text.unicode_len();
    if length == 0 {
        return Err(IntFault::Empty);
    }
    let first = text.get_char(0);
    let negative = first == '-';
    let signed = first == '+' || first == '-';
    if signed && length == 1 {
        return Err(IntFault::InvalidDigit);
    }
    let mut at: usize = if signed {
        1
    } else {
        0
    };
    let ghost whole = decimal_value(text@);
    let mut so_far: i64 = 0;
    assert(whole == digits_from(text@, negative, 0, at as int));
    while at < length
        invariant
            at <= length == text@.len(),
            negative ==> so_far <= 0,
            !negative ==> so_far >= 0,
            whole == decimal_value(text@),
            whole == digits_from(text@, negative, so_far as int, at as int),
        decreases length - at,
    {
        let c = text.get_char(at);
        let code: u32 = c as u32;
        if !('0' <= c && c <= '9') {
            assert(!is_digit(text@[at as int]));
            return Err(IntFault::InvalidDigit);
        }
        assert(is_digit(text@[at as int]));
        let digit: i64 = (code - 48) as i64;
        assert(digit == digit_value(text@[at as int]) && 0 <= digit <= 9);
        let next = match so_far.checked_mul(10) {
            Some(tenfold) => if negative {
                tenfold.checked_sub(digit)
            } else {
                tenfold.checked_add(digit)
            },
            None => None,
        };
        match next {
            Some(value) => {
                so_far = value;
            },
            None => {
                if negative {
                    return Err(IntFault::NegOverflow);
                } else {
                    return Err(IntFault::PosOverflow);
                }
            },
        }
        at = at + 1;
    }
    Ok(so_far)
}

/// How the report of a failed reading calls `fault`.
pub open spec fn fault_text(fault: IntFault) -> Seq<char> {
    match fault {
        IntFault::Empty => "cannot parse integer from empty string"@,
        IntFault::InvalidDigit => "invalid digit found in string"@,
        IntFault::PosOverflow => "number too large to fit in target type"@,
        IntFault::NegOverflow => "number too small to fit in target type"@,
    }
}

/// How the report of a failed reading calls `fault`.
pub fn fault_message(fault: IntFault) -> (text: String)
    ensures
        text@ == fault_text(fault),
{
    match fault {
        IntFault::Empty => "cannot parse integer from empty string".to_owned(),
        IntFault::InvalidDigit => "invalid digit found in string".to_owned(),
        IntFault::PosOverflow => "number too large to fit in target type".to_owned(),
        IntFault::NegOverflow => "number too small to fit in target type".to_owned(),
    }
}

/// The process id that the daemon's file holds, or why there is none.
/// `contents` is what reading the file gave: its text, or the report of the
/// failure to read it. The text is the id in decimal; white space around it
/// does not count.
pub open spec fn server_pid(config: &Config, contents: Result<Seq<char>, Seq<char>>) -> Result<
    int,
    ErrorView,
> {
    match contents {
        Err(source) => Err(ErrorView::PidFileReadError { filename: config@.pid_file, source }),
        Ok(text) => match decimal_value(trimmed(text)) {
            Ok(pid) => Ok(pid),
            Err(fault) => Err(
                ErrorView::PidFileParseError {
                    filename: config@.pid_file,
                    source: fault_text(fault),
                },
            ),
        },
    }
}

/// The view of what reading a file gave.
pub open spec fn contents_view(contents: Result<String, String>) -> Result<Seq<char>, Seq<char>> {
    match contents {
        Ok(text) => Ok(text@),
        Err(source) => Err(source@),
    }
}

/// The process id of the daemon, from what reading its file gave.
pub fn get_server_pid(config: &Config, contents: &Result<String, String>) -> (pid: Result<
    i64,
    Error,
>)
    ensures
        match server_pid(config, contents_view(*contents)) {
            Ok(value) => pid == Ok::<i64, Error>(value as i64) && i64::MIN <= value <= i64::MAX,
            Err(fault) => pid matches Err(error) && error@ == fault,
        },
{
    match contents {
        Err(source) => Err(
            Error::PidFileReadError { filename: config.pid_file.clone(), source: source.clone() },
        ),
        Ok(text) => match parse_decimal(trim(text.as_str())) {
            Ok(pid) => Ok(pid),
            Err(fault) => Err(
                Error::PidFileParseError {
                    filename: config.pid_file.clone(),
                    source: fault_message(fault),
                },
            ),
        },
    }
}

/// Tells whether the daemon is running: its process id and its state, or the
/// first thing that went wrong. `contents` is what reading the file with the
/// process id gave, `state` what the daemon answered when asked whether it
/// is alive. A file without a process id is reported before an answer that
/// failed.
pub fn check_server_is_running(
    config: &Config,
    contents: &Result<String, String>,
    state: Result<DaemonState, Error>,
) -> (running: Result<(i64, DaemonState), Error>)
    ensures
        match server_pid(config, contents_view(*contents)) {
            Err(fault) => running matches Err(error) && error@ == fault,
            Ok(pid) => match state {
                Ok(alive) => running == Ok::<(i64, DaemonState), Error>((pid as i64, alive)),
                Err(failure) => running == Err::<(i64, DaemonState), Error>(failure),
            },
        },
{
    match get_server_pid(config, contents) {
        Err(error) => Err(error),
        Ok(pid) => match state {
            Ok(alive) => Ok((pid, alive)),
            Err(failure) => Err(failure),
        },
    }
}

/// The name that stands for a sender whose user is unknown.
pub const UNKNOWN_USER: &'static str = "<None>";

/// The command to send: `action` with its list and data, in the name of
/// `user`, or of nobody where the user is not known.
pub fn new_command(
    action: Action,
    user: Option<String>,
    list_name: Option<String>,
    data: Option<String>,
) -> (command: Command)
    ensures
        command@ == (CommandView {
            action,
            originator: match user {
                Some(name) => name@,
                None => UNKNOWN_USER@,
            },
            list_name: option_text(list_name),
            data: option_text(data),
        }),
{
    let originator = match user {
        Some(name) => name,
        None => UNKNOWN_USER.to_owned(),
    };
    Command { action, originator, list_name, data }
}

/// What to tell the user after the daemon was told to stop: it has stopped
/// when it no longer answers.
pub fn stop_report(still_answers: bool) -> (line: &'static str)
    ensures
        line@ == if still_answers {
            "Could not stop server"@
        } else {
            "Server stopped successfully"@
        },
{
    if still_answers {
        "Could not stop server"
    } else {
        "Server stopped successfully"
    }
}

} // verus!
