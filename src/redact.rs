//! Privacy-preserving rendering of a typed payload for log output.
//!
//! The rendering is best-effort obfuscation, not a security guarantee: it
//! keeps the first character (and, for long payloads, the last one) together
//! with the character count.
use vstd::prelude::*;
use vstd::string::*;
use crate::text::contains_exactly;

verus! {

/// Payloads of at most this many characters keep only their first character.
pub const SHORT_LIMIT: usize = 10;

/// The decimal digit `d` as a character.
pub open spec fn digit_char(d: nat) -> char {
    if d == 0 {
        '0'
    } else if d == 1 {
        '1'
    } else if d == 2 {
        '2'
    } else if d == 3 {
        '3'
    } else if d == 4 {
        '4'
    } else if d == 5 {
        '5'
    } else if d == 6 {
        '6'
    } else if d == 7 {
        '7'
    } else if d == 8 {
        '8'
    } else {
        '9'
    }
}

/// The decimal notation of `n`, without leading zeros.
pub open spec fn decimal(n: nat) -> Seq<char>
    decreases n,
{
    if n < 10 {
        seq![digit_char(n)]
    } else {
        decimal(n / 10).push(digit_char(n % 10))
    }
}

/// What the log shows in place of the payload `t`.
pub open spec fn redacted(t: Seq<char>) -> Seq<char> {
    if t.len() == 0 {
        "(empty)"@
    } else if t.len() <= SHORT_LIMIT {
        seq![t[0]] + "... ("@ + decimal(t.len()) + " chars)"@
    } else {
        seq![t[0]] + "***************"@ + seq![t.last()] + " ("@ + decimal(t.len()) + " chars)"@
    }
}

/// The notation of `n` has at most one digit more than `n / 10` counts.
proof fn lemma_decimal_len(n: nat)
    ensures
        decimal(n).len() <= 1 + n / 10,
    decreases n,
{
    if n >= 10 {
        lemma_decimal_len(n / 10);
    }
}

/// Redaction is a function of the length, the first character and, beyond
/// ten characters, the last one: texts that agree on those are redacted
/// alike, whatever else they hold. In particular equal texts are redacted
/// alike.
pub proof fn lemma_redaction_reveals_only_ends(a: Seq<char>, b: Seq<char>)
    requires
        a.len() == b.len(),
        a.len() > 0 ==> a[0] == b[0],
        a.len() > SHORT_LIMIT ==> a.last() == b.last(),
    ensures
        redacted(a) == redacted(b),
{
}

/// A text of more than thirty characters never occurs in its redaction.
pub proof fn lemma_redaction_hides_long_text(t: Seq<char>)
    requires
        t.len() > 30,
    ensures
        redacted(t).len() < t.len(),
        !contains_exactly(redacted(t), t),
{
    reveal_strlit("***************");
    reveal_strlit(" (");
    reveal_strlit(" chars)");
    lemma_decimal_len(t.len());
}

fn digit_str(d: usize) -> (r: &'static str)
    requires
        d < 10,
    ensures
        r@ == seq![digit_char(d as nat)],
{
    proof {
        reveal_strlit("0");
        reveal_strlit("1");
        reveal_strlit("2");
        reveal_strlit("3");
        reveal_strlit("4");
        reveal_strlit("5");
        reveal_strlit("6");
        reveal_strlit("7");
        reveal_strlit("8");
        reveal_strlit("9");
    }
    if d == 0 {
        "0"
    } else if d == 1 {
        "1"
    } else if d == 2 {
        "2"
    } else if d == 3 {
        "3"
    } else if d == 4 {
        "4"
    } else if d == 5 {
        "5"
    } else if d == 6 {
        "6"
    } else if d == 7 {
        "7"
    } else if d == 8 {
        "8"
    } else {
        "9"
    }
}

/// Appends the decimal notation of `n` to `s`.
fn append_decimal(s: &mut String, n: usize)
    ensures
        final(s)@ == old(s)@ + decimal(n as nat),
    decreases n,
{
    if n < 10 {
        s.append(digit_str(n));
    } else {
        append_decimal(s, n / 10);
        s.append(digit_str(n % 10));
        assert(decimal(n as nat) == decimal((n / 10) as nat).push(digit_char((n % 10) as nat)));
    }
}

/// Renders `text` for a log line without revealing its content: a fixed
/// placeholder when empty; up to ten characters, the first one, an ellipsis
/// and the count; beyond that, the first one, fifteen asterisks whatever the
/// length, the last one and the count.
pub fn mask_text(text: &str) -> (r: String)
    ensures
        r@ == redacted(text@),
{
    let len = text.unicode_len();
    if len == 0 {
        return String::from_str("(empty)");
    }
    let first = text.substring_char(0, 1);
    assert(first@ =~= seq![text@[0]]);
    let mut r = String::from_str(first);
    if len <= SHORT_LIMIT {
        r.append("... (");
    } else {
        let last = text.substring_char(len - 1, len);
        assert(last@ =~= seq![text@.last()]);
        r.append("***************");
        r.append(last);
        r.append(" (");
    }
    append_decimal(&mut r, len);
    r.append(" chars)");
    r
}

} // verus!
