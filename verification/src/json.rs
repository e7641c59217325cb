//! The pieces of JSON text that the request bodies are made of: string
//! literals, which serde_json writes, and unsigned numbers.

use vstd::prelude::*;
use vstd::string::StringExecFns;

verus! {

/// The JSON string literal that serde_json writes for `s`: the text between
/// double quotes, with the escapes that serde_json chooses.
pub uninterp spec fn json_string_text(s: Seq<char>) -> Seq<char>;

/// Calls `serde_json::to_string` on a string slice. Trusted: the call
/// succeeds, and the text it returns depends on the characters of `s`
/// alone. serde_json documents two reasons for an error, a `Serialize` impl
/// that fails and a map with a key that is no string; a string slice is
/// neither.
#[verifier::external_body]
fn to_json_string(s: &str) -> (out: Option<String>)
    ensures
        out is Some,
        out->0@ == json_string_text(s@),
{
    serde_json::to_string(s).ok()
}

/// The JSON string literal for `s`.
pub fn quote(s: &str) -> (out: String)
    ensures
        out@ == json_string_text(s@),
{
    match to_json_string(s) {
        Some(text) => text,
        None => vstd::pervasive::unreached(),
    }
}

/// The character of a decimal digit.
pub open spec fn digit_char(d: int) -> char
    recommends
        0 <= d < 10,
{
    if d == 0 {
        '0'
    } else if d == 1 {
        '1'
    } else if d == 2 {
        '2'
    } else if d == 3 {
        '3'
    } else if d == 4 {
        '4'
    } else if d == 5 {
        '5'
    } else if d == 6 {
        '6'
    } else if d == 7 {
        '7'
    } else if d == 8 {
        '8'
    } else {
        '9'
    }
}

/// A number in decimal digits, without sign or leading zeros: its JSON text.
pub open spec fn decimal_text(n: nat) -> Seq<char>
    decreases n,
{
    if n < 10 {
        seq![digit_char(n as int)]
    } else {
        decimal_text(n / 10).push(digit_char((n % 10) as int))
    }
}

/// The text of one decimal digit.
fn digit_str(d: u64) -> (s: &'static str)
    requires
        d < 10,
    ensures
        s@ == seq![digit_char(d as int)],
{
    proof {
        reveal_strlit("0");
        reveal_strlit("1");
        reveal_strlit("2");
        reveal_strlit("3");
        reveal_strlit("4");
        reveal_strlit("5");
        reveal_strlit("6");
        reveal_strlit("7");
        reveal_strlit("8");
        reveal_strlit("9");
    }
    let s = if d == 0 {
        "0"
    } else if d == 1 {
        "1"
    } else if d == 2 {
        "2"
    } else if d == 3 {
        "3"
    } else if d == 4 {
        "4"
    } else if d == 5 {
        "5"
    } else if d == 6 {
        "6"
    } else if d == 7 {
        "7"
    } else if d == 8 {
        "8"
    } else {
        "9"
    };
    assert(s@ =~= seq![digit_char(d as int)]);
    s
}

/// Appends `n` in decimal digits to `buf`.
pub fn push_decimal(buf: &mut String, n: u64)
    ensures
        final(buf)@ == old(buf)@ + decimal_text(n as nat),
    decreases n,
{
    if n >= 10 {
        push_decimal(buf, n / 10);
    }
    buf.append(digit_str(n % 10));
    assert(buf@ =~= old(buf)@ + decimal_text(n as nat));
}

/// The number that a decimal digit stands for.
pub open spec fn digit_value(c: char) -> int {
    if c == '0' {
        0
    } else if c == '1' {
        1
    } else if c == '2' {
        2
    } else if c == '3' {
        3
    } else if c == '4' {
        4
    } else if c == '5' {
        5
    } else if c == '6' {
        6
    } else if c == '7' {
        7
    } else if c == '8' {
        8
    } else {
        9
    }
}

/// The number that decimal digits stand for, most significant first.
pub open spec fn decimal_value(digits: Seq<char>) -> int
    decreases digits.len(),
{
    if digits.len() == 0 {
        0
    } else {
        decimal_value(digits.drop_last()) * 10 + digit_value(digits.last())
    }
}

/// Decimal text is canonical: at least one digit, nothing but digits, and no
/// leading zero but for zero itself.
pub proof fn lemma_decimal_text_canonical(n: nat)
    ensures
        decimal_text(n).len() >= 1,
        forall|i: int|
            0 <= i < decimal_text(n).len() ==> '0' <= #[trigger] decimal_text(n)[i] <= '9',
        n > 0 ==> decimal_text(n)[0] != '0',
    decreases n,
{
    if n >= 10 {
        lemma_decimal_text_canonical(n / 10);
    }
}

/// A number written in decimal and read back is the same number.
pub proof fn lemma_decimal_round_trip(n: nat)
    ensures
        decimal_value(decimal_text(n)) == n,
    decreases n,
{
    let text = decimal_text(n);
    if n < 10 {
        assert(decimal_value(text.drop_last()) == 0);
        assert(digit_value(text.last()) == n);
    } else {
        lemma_decimal_round_trip(n / 10);
        assert(text.drop_last() =~= decimal_text(n / 10));
        assert(digit_value(text.last()) == n % 10);
    }
}

/// Where a JSON string ends whose content starts at `from`: the index of the
/// first double quote that no backslash escapes, or the length of the text
/// if there is none.
pub open spec fn closing_quote(text: Seq<char>, from: int) -> int
    decreases text.len() - from,
{
    if from < 0 || from >= text.len() {
        text.len() as int
    } else if text[from] == '"' {
        from
    } else if text[from] == '\\' {
        if from + 1 < text.len() {
            closing_quote(text, from + 2)
        } else {
            text.len() as int
        }
    } else {
        closing_quote(text, from + 1)
    }
}

/// True for a text with the shape of a JSON string literal: it opens with a
/// double quote, and the first double quote after it that no backslash
/// escapes is its last character.
pub open spec fn is_string_literal(text: Seq<char>) -> bool {
    text.len() >= 2 && text[0] == '"' && closing_quote(text, 1) == text.len() - 1
}

/// Where a string ends does not depend on what follows it.
pub proof fn lemma_closing_quote_is_local(text: Seq<char>, rest: Seq<char>, from: int)
    requires
        0 <= from < text.len(),
        closing_quote(text, from) == text.len() - 1,
    ensures
        closing_quote(text + rest, from) == text.len() - 1,
    decreases text.len() - from,
{
    let whole = text + rest;
    assert(whole[from] == text[from]);
    if text[from] == '"' {
    } else if text[from] == '\\' {
        assert(from + 1 < text.len());
        assert(closing_quote(text, from + 2) == text.len() - 1);
        assert(from + 2 < text.len());
        lemma_closing_quote_is_local(text, rest, from + 2);
    } else {
        assert(closing_quote(text, from + 1) == text.len() - 1);
        assert(from + 1 < text.len());
        lemma_closing_quote_is_local(text, rest, from + 1);
    }
}

/// Two texts that are equal and start with the same text go on with the same
/// text.
pub proof fn lemma_same_start_same_rest(start: Seq<char>, x: Seq<char>, y: Seq<char>)
    requires
        start + x == start + y,
    ensures
        x == y,
{
    assert(x =~= (start + x).subrange(start.len() as int, (start + x).len() as int));
    assert(y =~= (start + y).subrange(start.len() as int, (start + y).len() as int));
}

/// A text starts with one string literal at most: where two literals, each
/// followed by some text, make the same text, the literals are the same and
/// so is what follows them.
pub proof fn lemma_string_literal_is_unique(a: Seq<char>, x: Seq<char>, b: Seq<char>, y: Seq<char>)
    requires
        is_string_literal(a),
        is_string_literal(b),
        a + x == b + y,
    ensures
        a == b,
        x == y,
{
    lemma_closing_quote_is_local(a, x, 1);
    lemma_closing_quote_is_local(b, y, 1);
    assert(a.len() == b.len());
    assert(a =~= (a + x).subrange(0, a.len() as int));
    assert(b =~= (b + y).subrange(0, b.len() as int));
    lemma_same_start_same_rest(a, x, y);
}

/// A text starts with one number at most: where two numbers in decimal, each
/// followed by a text that does not start with a digit, make the same text,
/// the numbers are the same and so is what follows them.
pub proof fn lemma_decimal_is_unique(n: nat, x: Seq<char>, m: nat, y: Seq<char>)
    requires
        x.len() > 0 && !('0' <= x[0] <= '9'),
        y.len() > 0 && !('0' <= y[0] <= '9'),
        decimal_text(n) + x == decimal_text(m) + y,
    ensures
        n == m,
        x == y,
{
    let a = decimal_text(n);
    let b = decimal_text(m);
    lemma_decimal_text_canonical(n);
    lemma_decimal_text_canonical(m);
    if a.len() < b.len() {
        assert((a + x)[a.len() as int] == x[0]);
        assert((b + y)[a.len() as int] == b[a.len() as int]);
    } else if b.len() < a.len() {
        assert((b + y)[b.len() as int] == y[0]);
        assert((a + x)[b.len() as int] == a[b.len() as int]);
    }
    assert(a.len() == b.len());
    assert(a =~= (a + x).subrange(0, a.len() as int));
    assert(b =~= (b + y).subrange(0, b.len() as int));
    lemma_decimal_round_trip(n);
    lemma_decimal_round_trip(m);
    lemma_same_start_same_rest(a, x, y);
}

} // verus!
