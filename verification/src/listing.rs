//! How the shop's stock is written down: one line of text for each item.

use vstd::prelude::*;
use vstd::string::StringExecFns;

verus! {

/// The character that stands for the digit `d`: the characters of the ten
/// digits follow one another from `'0'` on.
pub open spec fn digit(d: nat) -> char
    recommends
        d < 10,
{
    ('0' as u8 + d) as char
}

/// The digits of `n` in base ten, the most significant first, with no
/// leading zero but for zero itself.
pub open spec fn decimal_digits(n: nat) -> Seq<char>
    decreases n,
{
    if n < 10 {
        seq![digit(n)]
    } else {
        decimal_digits(n / 10).push(digit(n % 10))
    }
}

/// `n` written in base ten, with a minus sign in front where it is negative.
pub open spec fn decimal(n: int) -> Seq<char> {
    if n < 0 {
        seq!['-'] + decimal_digits((-n) as nat)
    } else {
        decimal_digits(n as nat)
    }
}

/// What separates the parts of a line.
pub open spec fn separator() -> Seq<char> {
    seq![',', ' ']
}

/// The line for an item: its name, the days left and the quality, in that
/// order.
pub open spec fn item_line(name: Seq<char>, sell_in: int, quality: int) -> Seq<char> {
    name + separator() + decimal(sell_in) + separator() + decimal(quality)
}

/// The heading above the listing of day `day`.
pub open spec fn day_header_line(day: nat) -> Seq<char> {
    "-------- day "@ + decimal_digits(day) + " --------"@
}

/// The heading above the columns of a listing.
pub const COLUMN_HEADER: &'static str = "name, sellIn, quality";

/// The digit `d` as a text of one character.
fn digit_text(d: u32) -> (text: &'static str)
    requires
        d < 10,
    ensures
        text@ == seq![digit(d as nat)],
{
    proof {
        reveal_strlit("0");
        reveal_strlit("1");
        reveal_strlit("2");
        reveal_strlit("3");
        reveal_strlit("4");
        reveal_strlit("5");
        reveal_strlit("6");
        reveal_strlit("7");
        reveal_strlit("8");
        reveal_strlit("9");
    }
    let text = match d {
        0 => "0",
        1 => "1",
        2 => "2",
        3 => "3",
        4 => "4",
        5 => "5",
        6 => "6",
        7 => "7",
        8 => "8",
        _ => "9",
    };
    assert(text@ =~= seq![digit(d as nat)]);
    text
}

/// Appends the digits of `n` to `out`, the most significant first.
fn append_digits(out: &mut String, n: u32)
    ensures
        final(out)@ == old(out)@ + decimal_digits(n as nat),
    decreases n,
{
    if n >= 10 {
        append_digits(out, n / 10);
    }
    out.append(digit_text(n % 10));
    assert(out@ =~= old(out)@ + decimal_digits(n as nat));
}

/// Appends `n`, written in base ten, to `out`.
pub fn append_decimal(out: &mut String, n: i32)
    ensures
        final(out)@ == old(out)@ + decimal(n as int),
{
    if n < 0 {
        proof {
            reveal_strlit("-");
        }
        out.append("-");
        let magnitude: u32 = if n == i32::MIN {
            2147483648u32
        } else {
            (-n) as u32
        };
        append_digits(out, magnitude);
        assert(out@ =~= old(out)@ + decimal(n as int));
    } else {
        append_digits(out, n as u32);
    }
}

/// Appends what separates the parts of a line to `out`.
pub fn append_separator(out: &mut String)
    ensures
        final(out)@ == old(out)@ + separator(),
{
    proof {
        reveal_strlit(", ");
    }
    out.append(", ");
    assert(out@ =~= old(out)@ + separator());
}

/// The heading above the listing of day `day`.
pub fn day_header(day: u32) -> (text: String)
    ensures
        text@ == day_header_line(day as nat),
{
    let mut text = "-------- day ".to_owned();
    append_digits(&mut text, day);
    text.append(" --------");
    text
}

} // verus!
