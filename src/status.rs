//! HTTP status codes: the success range and the text a status line shows.
use vstd::prelude::*;

verus! {

/// Text that the status line shows for a code without a registered reason.
pub open spec fn unknown_reason() -> Seq<char> {
    "<unknown status code>"@
}

/// The registered reason phrase of a status code, if the code is valid and
/// has one.
pub uninterp spec fn reason_phrase(code: u16) -> Option<Seq<char>>;

/// Relies on `reqwest::StatusCode` (the `http` crate's type): `from_u16`
/// accepts exactly the codes 100..=999, and `canonical_reason` gives the
/// phrase registered for a code, or `None`.
#[verifier::external_body]
fn canonical_reason(code: u16) -> (r: Option<String>)
    ensures
        (code < 100 || code > 999) ==> r is None,
        100 <= code <= 999 ==> (match r {
            Some(s) => reason_phrase(code) == Some(s@),
            None => reason_phrase(code) is None,
        }),
{
    match reqwest::StatusCode::from_u16(code) {
        Ok(status) => status.canonical_reason().map(|p| p.to_string()),
        Err(_) => None,
    }
}

/// A status in the success range 200..=299.
pub open spec fn success_status(code: u16) -> bool {
    200 <= code <= 299
}

pub open spec fn digit_char(d: nat) -> char {
    if d == 0 { '0' }
    else if d == 1 { '1' }
    else if d == 2 { '2' }
    else if d == 3 { '3' }
    else if d == 4 { '4' }
    else if d == 5 { '5' }
    else if d == 6 { '6' }
    else if d == 7 { '7' }
    else if d == 8 { '8' }
    else { '9' }
}

/// Decimal digits of `n`, most significant first, without leading zeros.
pub open spec fn decimal(n: nat) -> Seq<char>
    decreases n,
{
    if n < 10 {
        seq![digit_char(n)]
    } else {
        decimal(n / 10).push(digit_char(n % 10))
    }
}

/// The status line of a code: its number, a space, and its reason phrase
/// (codes outside 100..=999 have none).
pub open spec fn status_line(code: u16) -> Seq<char> {
    let reason = match reason_phrase(code) {
        Some(p) if 100 <= code <= 999 => p,
        _ => unknown_reason(),
    };
    decimal(code as nat) + " "@ + reason
}

pub fn is_success_status(code: u16) -> (r: bool)
    ensures
        r == success_status(code),
{
    200 <= code && code <= 299
}

fn digit_str(d: u16) -> (r: &'static str)
    requires
        d < 10,
    ensures
        r@ == seq![digit_char(d as nat)],
{
    proof {
        reveal_strlit("0");
        reveal_strlit("1");
        reveal_strlit("2");
        reveal_strlit("3");
        reveal_strlit("4");
        reveal_strlit("5");
        reveal_strlit("6");
        reveal_strlit("7");
        reveal_strlit("8");
        reveal_strlit("9");
    }
    let r = if d == 0 { "0" }
    else if d == 1 { "1" }
    else if d == 2 { "2" }
    else if d == 3 { "3" }
    else if d == 4 { "4" }
    else if d == 5 { "5" }
    else if d == 6 { "6" }
    else if d == 7 { "7" }
    else if d == 8 { "8" }
    else { "9" };
    assert(r@ =~= seq![digit_char(d as nat)]);
    r
}

/// Appends the decimal digits of `n` to `out`.
pub fn push_decimal(out: &mut String, n: u16)
    ensures
        final(out)@ == old(out)@ + decimal(n as nat),
    decreases n,
{
    if n >= 10 {
        push_decimal(out, n / 10);
    }
    out.append(digit_str(n % 10));
    proof {
        if n >= 10 {
            assert(decimal(n as nat) == decimal((n / 10) as nat).push(digit_char((n % 10) as nat)));
        }
    }
    assert(final(out)@ =~= old(out)@ + decimal(n as nat));
}

/// The status line of `code`, as an HTTP response shows it (`503 Service
/// Unavailable`).
pub fn status_line_text(code: u16) -> (r: String)
    ensures
        r@ == status_line(code),
{
    let mut out = String::new();
    push_decimal(&mut out, code);
    out.append(" ");
    match canonical_reason(code) {
        Some(p) => out.append(p.as_str()),
        None => {
            out.append("<unknown status code>");
        },
    }
    assert(out@ =~= status_line(code));
    out
}

} // verus!
