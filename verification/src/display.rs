//! Verified text building for the monitor's table and the countdown view:
//! decimal rendering, zero-padded clock fields, and the terminal colour
//! escape around a piece of text.

use vstd::prelude::*;

verus! {

/// The character of one decimal digit.
pub open spec fn spec_digit_char(d: nat) -> char {
    if d == 0 {
        '0'
    } else if d == 1 {
        '1'
    } else if d == 2 {
        '2'
    } else if d == 3 {
        '3'
    } else if d == 4 {
        '4'
    } else if d == 5 {
        '5'
    } else if d == 6 {
        '6'
    } else if d == 7 {
        '7'
    } else if d == 8 {
        '8'
    } else {
        '9'
    }
}

/// The decimal rendering of a number, most significant digit first, no
/// leading zeroes.
pub open spec fn spec_decimal(n: nat) -> Seq<char>
    decreases n,
{
    if n < 10 {
        seq![spec_digit_char(n)]
    } else {
        spec_decimal(n / 10) + seq![spec_digit_char(n % 10)]
    }
}

/// The decimal rendering padded to at least two digits, as clock fields
/// are drawn.
pub open spec fn spec_pad2(n: nat) -> Seq<char> {
    if n < 10 {
        seq!['0'] + spec_decimal(n)
    } else {
        spec_decimal(n)
    }
}

/// A span of seconds drawn as a clock: hours, minutes and seconds, each at
/// least two digits wide, separated by colons.
pub open spec fn spec_hms(total: nat) -> Seq<char> {
    spec_pad2(total / 3600) + seq![':'] + spec_pad2((total % 3600) / 60) + seq![':'] + spec_pad2(
        total % 60,
    )
}

/// One decimal digit as text.
fn digit_str(d: u64) -> (r: &'static str)
    requires
        d < 10,
    ensures
        r@ == seq![spec_digit_char(d as nat)],
{
    let r: &'static str = match d {
        0 => "0",
        1 => "1",
        2 => "2",
        3 => "3",
        4 => "4",
        5 => "5",
        6 => "6",
        7 => "7",
        8 => "8",
        _ => "9",
    };
    proof {
        reveal_strlit("0");
        reveal_strlit("1");
        reveal_strlit("2");
        reveal_strlit("3");
        reveal_strlit("4");
        reveal_strlit("5");
        reveal_strlit("6");
        reveal_strlit("7");
        reveal_strlit("8");
        reveal_strlit("9");
        assert(r@ =~= seq![spec_digit_char(d as nat)]);
    }
    r
}

/// Renders a number in decimal.
pub fn u64_to_decimal(n: u64) -> (r: String)
    ensures
        r@ == spec_decimal(n as nat),
    decreases n,
{
    if n < 10 {
        String::from_str(digit_str(n))
    } else {
        let mut s = u64_to_decimal(n / 10);
        s.append(digit_str(n % 10));
        s
    }
}

/// Renders a clock field, padded to two digits.
fn pad2(n: u64) -> (r: String)
    ensures
        r@ == spec_pad2(n as nat),
{
    if n < 10 {
        let mut s = String::from_str("0");
        proof {
            reveal_strlit("0");
            assert("0"@ =~= seq!['0']);
        }
        s.append(digit_str(n));
        s
    } else {
        u64_to_decimal(n)
    }
}

/// Renders a span of seconds as `HH:MM:SS` (hours widening past two digits
/// as needed).
pub fn format_hms(total_secs: u64) -> (r: String)
    ensures
        r@ == spec_hms(total_secs as nat),
{
    let h = total_secs / 3600;
    let m = (total_secs % 3600) / 60;
    let s = total_secs % 60;
    let mut out = pad2(h);
    out.append(":");
    let mid = pad2(m);
    out.append(mid.as_str());
    out.append(":");
    let tail = pad2(s);
    out.append(tail.as_str());
    proof {
        reveal_strlit(":");
        assert(":"@ =~= seq![':']);
    }
    out
}

/// What the external case folding turns a string into; the result depends
/// on the characters alone.
pub uninterp spec fn lower_of(s: Seq<char>) -> Seq<char>;

/// Relies on str::to_lowercase: lower-cases a string; the result is a
/// function of the characters alone.
#[verifier::external_body]
fn lowercase(s: &str) -> (r: String)
    ensures
        r@ == lower_of(s@),
{
    s.to_lowercase()
}

/// The terminal palette entry a colour name selects, matched after case
/// folding; unknown names select white.
pub open spec fn spec_color_code(lname: Seq<char>) -> u8 {
    if lname == "red"@ {
        210
    } else if lname == "green"@ {
        151
    } else if lname == "yellow"@ {
        229
    } else if lname == "blue"@ {
        153
    } else if lname == "magenta"@ {
        219
    } else if lname == "cyan"@ {
        159
    } else if lname == "orange"@ {
        215
    } else if lname == "purple"@ {
        183
    } else if lname == "pink"@ {
        218
    } else if lname == "gray"@ {
        250
    } else {
        15
    }
}

/// The text wrapped in the escape sequence that paints it with the given
/// palette entry.
pub open spec fn spec_colored(text: Seq<char>, code: u8) -> Seq<char> {
    "\u{1B}[38;5;"@ + spec_decimal(code as nat) + "m"@ + text + "\u{1B}[0m"@
}

/// Whether the string holds exactly this text.
fn str_matches(s: &String, lit: &str) -> (r: bool)
    ensures
        r == (s@ == lit@),
{
    let other = String::from_str(lit);
    *s == other
}

/// The palette entry for a case-folded colour name.
fn color_code(lname: &String) -> (code: u8)
    ensures
        code == spec_color_code(lname@),
{
    if str_matches(lname, "red") {
        210
    } else if str_matches(lname, "green") {
        151
    } else if str_matches(lname, "yellow") {
        229
    } else if str_matches(lname, "blue") {
        153
    } else if str_matches(lname, "magenta") {
        219
    } else if str_matches(lname, "cyan") {
        159
    } else if str_matches(lname, "orange") {
        215
    } else if str_matches(lname, "purple") {
        183
    } else if str_matches(lname, "pink") {
        218
    } else if str_matches(lname, "gray") {
        250
    } else {
        15
    }
}

/// Paints `text` with the palette entry named by `name` (matched without
/// regard to case; unknown names paint white) for a colour terminal.
pub fn color(text: &str, name: &str) -> (r: String)
    ensures
        r@ == spec_colored(text@, spec_color_code(lower_of(name@))),
{
    let lname = lowercase(name);
    let code = color_code(&lname);
    let mut out = String::from_str("\u{1B}[38;5;");
    let dec = u64_to_decimal(code as u64);
    out.append(dec.as_str());
    out.append("m");
    out.append(text);
    out.append("\u{1B}[0m");
    proof {
        reveal_strlit("m");
    }
    out
}

} // verus!
