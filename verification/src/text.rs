//! Building text: joining pieces and writing numbers in decimal.

use vstd::prelude::*;
use vstd::string::StringExecFns;

verus! {

/// The characters of each text of `texts`, in order.
pub open spec fn texts_view(texts: Seq<String>) -> Seq<Seq<char>> {
    Seq::new(texts.len(), |i: int| texts[i]@)
}

/// Whether `piece` stands in `text` as one unbroken stretch.
pub open spec fn is_slice_of(piece: Seq<char>, text: Seq<char>) -> bool {
    exists|from: int, to: int|
        0 <= from <= to <= text.len() && piece == #[trigger] text.subrange(from, to)
}

/// Whether `pieces` stand in `text` at the places `starts`, one place for
/// each piece: each piece is the stretch of the text that begins at its
/// place, and each ends before the next begins, or where it begins.
pub open spec fn stand_at(pieces: Seq<Seq<char>>, text: Seq<char>, starts: Seq<int>) -> bool {
    &&& starts.len() == pieces.len()
    &&& forall|k: int|
        0 <= k < pieces.len() ==> 0 <= #[trigger] starts[k] && starts[k] + pieces[k].len()
            <= text.len() && text.subrange(starts[k], starts[k] + pieces[k].len()) == pieces[k]
    &&& forall|k: int|
        0 <= k < pieces.len() - 1 ==> starts[k] + pieces[k].len() <= #[trigger] starts[k + 1]
}

/// Whether `pieces` are stretches of `text` that follow one another from
/// left to right without overlap.
pub open spec fn in_order(pieces: Seq<Seq<char>>, text: Seq<char>) -> bool {
    exists|starts: Seq<int>| stand_at(pieces, text, starts)
}

/// The two pieces, one after the other.
pub fn join2(a: &str, b: &str) -> (text: String)
    ensures
        text@ == a@ + b@,
{
    let mut text = String::from_str(a);
    text.append(b);
    text
}

/// The three pieces, one after the other.
pub fn join3(a: &str, b: &str, c: &str) -> (text: String)
    ensures
        text@ == a@ + b@ + c@,
{
    let mut text = join2(a, b);
    text.append(c);
    text
}

/// The four pieces, one after the other.
pub fn join4(a: &str, b: &str, c: &str, d: &str) -> (text: String)
    ensures
        text@ == a@ + b@ + c@ + d@,
{
    let mut text = join3(a, b, c);
    text.append(d);
    text
}

/// The five pieces, one after the other.
pub fn join5(a: &str, b: &str, c: &str, d: &str, e: &str) -> (text: String)
    ensures
        text@ == a@ + b@ + c@ + d@ + e@,
{
    let mut text = join4(a, b, c, d);
    text.append(e);
    text
}

/// The character that writes the digit `d`.
pub open spec fn digit_char(d: int) -> char
    recommends
        0 <= d <= 9,
{
    if d == 0 {
        '0'
    } else if d == 1 {
        '1'
    } else if d == 2 {
        '2'
    } else if d == 3 {
        '3'
    } else if d == 4 {
        '4'
    } else if d == 5 {
        '5'
    } else if d == 6 {
        '6'
    } else if d == 7 {
        '7'
    } else if d == 8 {
        '8'
    } else {
        '9'
    }
}

/// The decimal digits of `n`, most significant first, without leading zeros;
/// zero is written as the single digit `0`.
pub open spec fn decimal(n: nat) -> Seq<char>
    decreases n,
{
    if n < 10 {
        seq![digit_char(n as int)]
    } else {
        decimal(n / 10) + seq![digit_char((n % 10) as int)]
    }
}

/// The text of one decimal digit.
fn digit_text(d: u32) -> (text: &'static str)
    requires
        d <= 9,
    ensures
        text@ == seq![digit_char(d as int)],
{
    proof {
        reveal_strlit("0");
        reveal_strlit("1");
        reveal_strlit("2");
        reveal_strlit("3");
        reveal_strlit("4");
        reveal_strlit("5");
        reveal_strlit("6");
        reveal_strlit("7");
        reveal_strlit("8");
        reveal_strlit("9");
    }
    let text = if d == 0 {
        "0"
    } else if d == 1 {
        "1"
    } else if d == 2 {
        "2"
    } else if d == 3 {
        "3"
    } else if d == 4 {
        "4"
    } else if d == 5 {
        "5"
    } else if d == 6 {
        "6"
    } else if d == 7 {
        "7"
    } else if d == 8 {
        "8"
    } else {
        "9"
    };
    assert(text@ =~= seq![digit_char(d as int)]);
    text
}

/// Writes `n` in decimal.
pub fn u32_to_decimal(n: u32) -> (text: String)
    ensures
        text@ == decimal(n as nat),
    decreases n,
{
    if n < 10 {
        String::from_str(digit_text(n))
    } else {
        let mut text = u32_to_decimal(n / 10);
        text.append(digit_text(n % 10));
        text
    }
}

} // verus!
