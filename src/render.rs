use crate::event::EventView;
use crate::event::NormalizedEvent;
use crate::severity::{classify, severity_of, Severity};
use vstd::prelude::*;
use vstd::string::*;

verus! {

pub open spec fn digit(d: int) -> char {
    "0123456789abcdef"@[d]
}

/// `n` in lowercase hexadecimal, without leading zeros.
pub open spec fn hex_text(n: nat) -> Seq<char>
    decreases n,
{
    if n < 16 {
        seq![digit(n as int)]
    } else {
        hex_text(n / 16).push(digit((n % 16) as int))
    }
}

/// `n` in decimal, without leading zeros.
pub open spec fn decimal_digits(n: nat) -> Seq<char>
    decreases n,
{
    if n < 10 {
        seq![digit(n as int)]
    } else {
        decimal_digits(n / 10).push(digit((n % 10) as int))
    }
}

pub open spec fn decimal_text(n: int) -> Seq<char> {
    if n < 0 {
        "-"@ + decimal_digits((-n) as nat)
    } else {
        decimal_digits(n as nat)
    }
}

/// `text` between the terminal escape that selects the attributes `code`
/// and the escape that resets them.
pub open spec fn styled(code: Seq<char>, text: Seq<char>) -> Seq<char> {
    seq!['\x1b', '['] + code + seq!['m'] + text + seq!['\x1b', '[', '0', 'm']
}

pub open spec fn timestamp_code() -> Seq<char> {
    "35"@
}

pub open spec fn message_code() -> Seq<char> {
    "1;38;2;70;130;180"@
}

pub open spec fn severity_code(s: Severity) -> Seq<char> {
    match s {
        Severity::Warning => "1;5;31"@,
        Severity::Informational => "1;37"@,
    }
}

/// The line written for a novel event with fingerprint `fp`.
pub open spec fn record_line(e: EventView, fp: u64) -> Seq<char> {
    styled(timestamp_code(), e.timestamp) + " "@ + e.source_component + "@"@ + e.namespace + ": "@
        + styled(message_code(), e.message) + " ("@ + styled(
        severity_code(severity_of(e.event_type)),
        e.event_type,
    ) + ")("@ + e.reason + ")("@ + decimal_text(e.count as int) + ") (fnv: "@ + hex_text(
        fp as nat,
    ) + ")"@
}

/// The diagnostic written for a duplicate with fingerprint `fp`.
pub open spec fn duplicate_line(fp: u64) -> Seq<char> {
    "dup event fnv: "@ + hex_text(fp as nat)
}

/// Relies on ansi_term: `Colour::Purple.normal()` paints as ESC `[35m`, the
/// text, ESC `[0m`.
#[verifier::external_body]
fn paint_timestamp(text: &str) -> (r: String)
    ensures
        r@ == styled(timestamp_code(), text@),
{
    ansi_term::Colour::Purple.normal().paint(text).to_string()
}

/// Relies on ansi_term: `Colour::RGB(70, 130, 180).bold()` paints as
/// ESC `[1;38;2;70;130;180m`, the text, ESC `[0m`.
#[verifier::external_body]
fn paint_message(text: &str) -> (r: String)
    ensures
        r@ == styled(message_code(), text@),
{
    ansi_term::Colour::RGB(70, 130, 180).bold().paint(text).to_string()
}

/// Relies on ansi_term: `Colour::Red.bold().blink()` paints as ESC `[1;5;31m`,
/// the text, ESC `[0m`.
#[verifier::external_body]
fn paint_alert(text: &str) -> (r: String)
    ensures
        r@ == styled(severity_code(Severity::Warning), text@),
{
    ansi_term::Colour::Red.bold().blink().paint(text).to_string()
}

/// Relies on ansi_term: `Colour::White.bold()` paints as ESC `[1;37m`, the
/// text, ESC `[0m`.
#[verifier::external_body]
fn paint_calm(text: &str) -> (r: String)
    ensures
        r@ == styled(severity_code(Severity::Informational), text@),
{
    ansi_term::Colour::White.bold().paint(text).to_string()
}

fn digit_str(d: u64) -> (r: &'static str)
    requires
        d < 16,
    ensures
        r@ == seq![digit(d as int)],
{
    proof {
        reveal_strlit("0123456789abcdef");
    }
    let r = "0123456789abcdef".substring_char(d as usize, d as usize + 1);
    assert(r@ =~= seq![digit(d as int)]);
    r
}

fn append_hex(out: &mut String, n: u64)
    ensures
        final(out)@ == old(out)@ + hex_text(n as nat),
    decreases n,
{
    if n >= 16 {
        append_hex(out, n / 16);
    }
    out.append(digit_str(n % 16));
    assert(out@ =~= old(out)@ + hex_text(n as nat));
}

fn append_decimal(out: &mut String, n: u64)
    ensures
        final(out)@ == old(out)@ + decimal_digits(n as nat),
    decreases n,
{
    if n >= 10 {
        append_decimal(out, n / 10);
    }
    out.append(digit_str(n % 10));
    assert(out@ =~= old(out)@ + decimal_digits(n as nat));
}

/// `n` in lowercase hexadecimal.
pub fn hex_string(n: u64) -> (r: String)
    ensures
        r@ == hex_text(n as nat),
{
    let mut s = String::new();
    append_hex(&mut s, n);
    assert(s@ =~= hex_text(n as nat));
    s
}

/// `n` in decimal, with a leading `-` when negative.
pub fn decimal_string(n: i64) -> (r: String)
    ensures
        r@ == decimal_text(n as int),
{
    let mut s = String::new();
    if n < 0 {
        s.append("-");
        let magnitude: i128 = -(n as i128);
        append_decimal(&mut s, magnitude as u64);
    } else {
        append_decimal(&mut s, n as u64);
    }
    assert(s@ =~= decimal_text(n as int));
    s
}

/// The styled line for a novel event: every field is present, empty or not.
pub fn format_record(e: &NormalizedEvent, fp: u64) -> (r: String)
    ensures
        r@ == record_line(e@, fp),
{
    let type_text = match classify(e.event_type.as_str()) {
        Severity::Warning => paint_alert(e.event_type.as_str()),
        Severity::Informational => paint_calm(e.event_type.as_str()),
    };
    let mut s = paint_timestamp(e.timestamp.as_str());
    s.append(" ");
    s.append(e.source_component.as_str());
    s.append("@");
    s.append(e.namespace.as_str());
    s.append(": ");
    s.append(paint_message(e.message.as_str()).as_str());
    s.append(" (");
    s.append(type_text.as_str());
    s.append(")(");
    s.append(e.reason.as_str());
    s.append(")(");
    s.append(decimal_string(e.count as i64).as_str());
    s.append(") (fnv: ");
    s.append(hex_string(fp).as_str());
    s.append(")");
    assert(s@ =~= record_line(e@, fp));
    s
}

/// The diagnostic for a suppressed duplicate: its fingerprint alone.
pub fn format_duplicate(fp: u64) -> (r: String)
    ensures
        r@ == duplicate_line(fp),
{
    let mut s = String::from_str("dup event fnv: ");
    s.append(hex_string(fp).as_str());
    s
}

} // verus!
