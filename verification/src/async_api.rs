//! How the answers of the framework's asynchronous calls are read: status
//! bits and yes/no answers arrive as text.

use vstd::prelude::*;

use crate::asset_pack::AssetPackStatus;
use crate::error::{bridge_error, BackgroundAssetsError};
use crate::text::{decimal_text, digit_char, str_eq};

verus! {

broadcast use vstd::string::group_string_axioms;

/// An ASCII decimal digit.
pub open spec fn is_decimal_digit(c: char) -> bool {
    '0' <= c && c <= '9'
}

/// The value of a sequence of decimal digits, most significant first.
pub open spec fn digits_value(s: Seq<char>) -> nat
    decreases s.len(),
{
    if s.len() == 0 {
        0
    } else {
        digits_value(s.drop_last()) * 10 + ((s.last() as u32) - ('0' as u32)) as nat
    }
}

/// The digits of an unsigned number's text: the text without one leading
/// `+` sign.
pub open spec fn unsigned_digits(s: Seq<char>) -> Seq<char> {
    if s.len() > 0 && s[0] == '+' {
        s.drop_first()
    } else {
        s
    }
}

/// The `u64` that `s` reads as: an optional `+` followed by one or more
/// decimal digits, with a value that fits. Any other character, including
/// white space, makes the text unreadable.
pub open spec fn parsed_u64(s: Seq<char>) -> Option<u64> {
    let d = unsigned_digits(s);
    if d.len() > 0 && (forall|i: int| 0 <= i < d.len() ==> is_decimal_digit(#[trigger] d[i]))
        && digits_value(d) <= u64::MAX {
        Some(digits_value(d) as u64)
    } else {
        None
    }
}

/// The text of the error that `str::parse::<u64>` gives for `value`, as
/// its `Display` writes it.
pub uninterp spec fn parse_u64_error_text(value: Seq<char>) -> Seq<char>;

/// Reads `value` as a `u64` with `str::parse`, which accepts an optional `+`
/// followed by decimal digits whose value fits, and refuses anything else;
/// a refusal is handed back as the text of the parser's error.
#[verifier::external_body]
fn parse_u64(value: &str) -> (r: Result<u64, String>)
    ensures
        match parsed_u64(value@) {
            Some(n) => r matches Ok(v) && v == n,
            None => r matches Err(t) && t@ == parse_u64_error_text(value@),
        },
{
    value.parse::<u64>().map_err(|error| error.to_string())
}

/// The texts that read as a yes.
pub open spec fn is_yes_text(s: Seq<char>) -> bool {
    ||| s == "1"@
    ||| s == "true"@
    ||| s == "TRUE"@
    ||| s == "yes"@
    ||| s == "ok"@
}

/// The texts that read as a no.
pub open spec fn is_no_text(s: Seq<char>) -> bool {
    ||| s == "0"@
    ||| s == "false"@
    ||| s == "FALSE"@
    ||| s == "no"@
}

/// The start of the message for a status payload that did not read as a
/// number.
pub open spec fn status_error_prefix(context: Seq<char>) -> Seq<char> {
    "invalid "@ + context + " payload: "@
}

/// Reads a status payload: the decimal text of the status bits. Text that
/// does not read as a `u64` gives an error whose message is
/// `invalid {context} payload: ` followed by the parser's reason.
pub fn parse_status_response(value: String, context: &str) -> (r: Result<AssetPackStatus, BackgroundAssetsError>)
    ensures
        match parsed_u64(value@) {
            Some(n) => r matches Ok(s) && s.0 == n,
            None => r matches Err(e)
                && e@ == bridge_error(status_error_prefix(context@) + parse_u64_error_text(value@)),
        },
{
    match parse_u64(value.as_str()) {
        Ok(bits) => Ok(AssetPackStatus::new(bits)),
        Err(reason) => {
            let mut message = String::from_str("invalid ");
            message.append(context);
            message.append(" payload: ");
            message.append(reason.as_str());
            let e = BackgroundAssetsError::message(message);
            assert(e@ == bridge_error(status_error_prefix(context@) + reason@));
            Err(e)
        },
    }
}

/// Whether the answer of an exclusive-control request grants the lock: it
/// does for `1`, `true`, `TRUE`, `yes` and `ok`, and for nothing else.
pub fn exclusive_control_granted(value: &str) -> (r: bool)
    ensures
        r == is_yes_text(value@),
{
    str_eq(value, "1") || str_eq(value, "true") || str_eq(value, "TRUE") || str_eq(value, "yes") || str_eq(value, "ok")
}

/// Reads a yes/no payload: `1`, `true`, `TRUE`, `yes` and `ok` are yes;
/// `0`, `false`, `FALSE` and `no` are no; any other text is an error that
/// quotes it.
pub fn parse_bool_response(value: String) -> (r: Result<bool, BackgroundAssetsError>)
    ensures
        is_yes_text(value@) ==> r == Ok::<bool, BackgroundAssetsError>(true),
        is_no_text(value@) ==> r == Ok::<bool, BackgroundAssetsError>(false),
        !is_yes_text(value@) && !is_no_text(value@) ==> (r matches Err(e)
            && e@ == bridge_error("invalid exclusive-control payload: "@ + value@)),
{
    let v = value.as_str();
    proof {
        reveal_strlit("1");
        reveal_strlit("true");
        reveal_strlit("TRUE");
        reveal_strlit("yes");
        reveal_strlit("ok");
        reveal_strlit("0");
        reveal_strlit("false");
        reveal_strlit("FALSE");
        reveal_strlit("no");
        assert("1"@ != "0"@) by { assert("1"@[0] != "0"@[0]); }
        assert("ok"@ != "no"@) by { assert("ok"@[0] != "no"@[0]); }
        assert(is_no_text(value@) ==> !is_yes_text(value@));
    }
    if str_eq(v, "1") || str_eq(v, "true") || str_eq(v, "TRUE") || str_eq(v, "yes") || str_eq(v, "ok") {
        Ok(true)
    } else if str_eq(v, "0") || str_eq(v, "false") || str_eq(v, "FALSE") || str_eq(v, "no") {
        Ok(false)
    } else {
        let mut message = String::from_str("invalid exclusive-control payload: ");
        message.append(v);
        Err(BackgroundAssetsError::message(message))
    }
}

/// No text reads both as a yes and as a no.
pub proof fn law_yes_and_no_are_disjoint(s: Seq<char>)
    ensures
        !(is_yes_text(s) && is_no_text(s)),
{
    reveal_strlit("1");
    reveal_strlit("true");
    reveal_strlit("TRUE");
    reveal_strlit("yes");
    reveal_strlit("ok");
    reveal_strlit("0");
    reveal_strlit("false");
    reveal_strlit("FALSE");
    reveal_strlit("no");
    assert("1"@ != "0"@) by { assert("1"@[0] != "0"@[0]); }
    assert("ok"@ != "no"@) by { assert("ok"@[0] != "no"@[0]); }
    assert("1"@.len() == 1 && "true"@.len() == 4 && "TRUE"@.len() == 4 && "yes"@.len() == 3 && "ok"@.len() == 2);
    assert("0"@.len() == 1 && "false"@.len() == 5 && "FALSE"@.len() == 5 && "no"@.len() == 2);
}

proof fn lemma_digit_char_value(d: nat)
    requires
        d < 10,
    ensures
        is_decimal_digit(digit_char(d)),
        (digit_char(d) as u32) - ('0' as u32) == d,
{
    let s = seq!['0', '1', '2', '3', '4', '5', '6', '7', '8', '9'];
    assert(digit_char(d) == s[d as int]);
    if d == 0 { assert(s[0] == '0'); }
    else if d == 1 { assert(s[1] == '1'); }
    else if d == 2 { assert(s[2] == '2'); }
    else if d == 3 { assert(s[3] == '3'); }
    else if d == 4 { assert(s[4] == '4'); }
    else if d == 5 { assert(s[5] == '5'); }
    else if d == 6 { assert(s[6] == '6'); }
    else if d == 7 { assert(s[7] == '7'); }
    else if d == 8 { assert(s[8] == '8'); }
    else { assert(s[9] == '9'); }
}

proof fn lemma_decimal_text_digits(n: nat)
    ensures
        decimal_text(n).len() > 0,
        forall|i: int| 0 <= i < decimal_text(n).len() ==> is_decimal_digit(#[trigger] decimal_text(n)[i]),
        digits_value(decimal_text(n)) == n,
    decreases n,
{
    if n < 10 {
        lemma_digit_char_value(n);
        let t = decimal_text(n);
        assert(t == seq![digit_char(n)]);
        assert(t.drop_last() =~= Seq::<char>::empty());
        assert(t.last() == digit_char(n));
        assert(digits_value(t) == digits_value(t.drop_last()) * 10 + ((t.last() as u32) - ('0' as u32)) as nat);
    } else {
        lemma_decimal_text_digits(n / 10);
        lemma_digit_char_value(n % 10);
        let t = decimal_text(n);
        assert(t == decimal_text(n / 10).push(digit_char(n % 10)));
        assert(t.drop_last() =~= decimal_text(n / 10));
        assert(t.last() == digit_char(n % 10));
        assert(digits_value(t) == digits_value(t.drop_last()) * 10 + ((t.last() as u32) - ('0' as u32)) as nat);
        assert((n / 10) * 10 + n % 10 == n) by (nonlinear_arith);
        assert forall|i: int| 0 <= i < t.len() implies is_decimal_digit(#[trigger] t[i]) by {
            if i < t.len() - 1 {
                assert(t[i] == decimal_text(n / 10)[i]);
            }
        }
    }
}

/// The decimal text of a status's bits reads back as those bits.
pub proof fn law_decimal_text_reads_back(n: u64)
    ensures
        parsed_u64(decimal_text(n as nat)) == Some(n),
{
    lemma_decimal_text_digits(n as nat);
    let t = decimal_text(n as nat);
    assert(t[0] != '+');
    assert(unsigned_digits(t) == t);
}

} // verus!
