use vstd::prelude::*;
use vstd::string::*;

verus! {

/// The decimal digit that stands for `d`.
pub open spec fn digit(d: nat) -> char {
    "0123456789"@[d as int]
}

/// Decimal notation of `n`, without leading zeros.
pub open spec fn decimal(n: nat) -> Seq<char>
    decreases n,
{
    if n < 10 {
        seq![digit(n)]
    } else {
        decimal(n / 10).push(digit(n % 10))
    }
}

/// Decimal notation of `n`, with a leading `-` for negative numbers.
pub open spec fn signed_decimal(n: int) -> Seq<char> {
    if n < 0 {
        "-"@ + decimal((-n) as nat)
    } else {
        decimal(n as nat)
    }
}

/// Appends the decimal notation of `n` to `out`.
pub fn append_decimal(out: &mut String, n: u128)
    ensures
        final(out)@ == old(out)@ + decimal(n as nat),
    decreases n,
{
    if n >= 10 {
        append_decimal(out, n / 10);
    }
    let ghost before = out@;
    proof {
        reveal_strlit("0123456789");
    }
    let d: usize = (n % 10) as usize;
    out.append("0123456789".substring_ascii(d, d + 1));
    assert(out@ =~= before.push(digit((n % 10) as nat)));
    assert(out@ =~= old(out)@ + decimal(n as nat));
}

/// Appends the decimal notation of `n` to `out`, signed where `n` is negative.
pub fn append_signed_decimal(out: &mut String, n: i64)
    ensures
        final(out)@ == old(out)@ + signed_decimal(n as int),
{
    if n < 0 {
        out.append("-");
        append_decimal(out, (-(n as i128)) as u128);
        assert(out@ =~= old(out)@ + signed_decimal(n as int));
    } else {
        append_decimal(out, n as u128);
    }
}

/// Whether `a` and `b` hold the same characters.
pub fn same_text(a: &str, b: &str) -> (same: bool)
    ensures
        same == (a@ == b@),
{
    a.to_owned() == b.to_owned()
}

/// What stands before the first `.` of a key, and what stands behind it: the
/// whole key and nothing where there is no `.`.
pub open spec fn split_at_dot(key: Seq<char>) -> (Seq<char>, Seq<char>) {
    match key.index_of_first('.') {
        Some(i) => (key.take(i), key.skip(i + 1)),
        None => (key, ""@),
    }
}

/// Splits a key at its first `.`.
pub fn split_key(key: &str) -> (parts: (&str, &str))
    ensures
        (parts.0@, parts.1@) == split_at_dot(key@),
{
    let len = key.unicode_len();
    proof {
        key@.index_of_first_ensures('.');
    }
    for k in 0..len
        invariant
            len == key@.len(),
            forall|j: int| 0 <= j < k ==> key@[j] != '.',
    {
        if key.get_char(k) == '.' {
            proof {
                key@.index_of_first_ensures('.');
                assert(key@.contains(key@[k as int]));
                assert(key@.index_of_first('.') == Some(k as int));
            }
            return (key.substring_char(0, k), key.substring_char(k + 1, len));
        }
    }
    (key, "")
}

/// The truth value that a text spells out.
pub open spec fn plain_bool(text: Seq<char>) -> Option<bool> {
    if text == "true"@ {
        Some(true)
    } else if text == "false"@ {
        Some(false)
    } else {
        None
    }
}

/// What `str::parse::<bool>` reports of a text that is not a truth value.
pub uninterp spec fn bool_error_text(text: Seq<char>) -> Seq<char>;

/// `str::parse::<bool>`: `true` and `false` are the only texts that parse. How
/// the error of any other text reads depends on the text alone.
#[verifier::external_body]
pub(crate) fn parse_bool(text: &str) -> (parsed: Result<bool, String>)
    ensures
        match parsed {
            Ok(b) => plain_bool(text@) == Some(b),
            Err(report) => plain_bool(text@) is None && report@ == bool_error_text(text@),
        },
{
    text.parse::<bool>().map_err(|e| e.to_string())
}

/// `text` with its upper-case ASCII letters in lower case.
pub open spec fn ascii_lowercase(text: Seq<char>) -> Seq<char> {
    text.map_values(
        |c: char|
            if 'A' <= c <= 'Z' {
                (c as u32 + 32) as char
            } else {
                c
            },
    )
}

/// Nothing but the four letters of `true` and the five of `false` is a truth
/// value.
pub proof fn law_only_true_and_false_are_truth_values(text: Seq<char>)
    ensures
        plain_bool(text) == Some(true) <==> text == seq!['t', 'r', 'u', 'e'],
        plain_bool(text) == Some(false) <==> text == seq!['f', 'a', 'l', 's', 'e'],
{
    reveal_strlit("true");
    reveal_strlit("false");
    assert("true"@ =~= seq!['t', 'r', 'u', 'e']);
    assert("false"@ =~= seq!['f', 'a', 'l', 's', 'e']);
    assert(seq!['t', 'r', 'u', 'e'].len() != seq!['f', 'a', 'l', 's', 'e'].len());
}

/// A key is put together again from its two parts with a `.` between them, and
/// the first part has no `.`; a key without one is its own first part.
pub proof fn law_split_key_joins(key: Seq<char>)
    ensures
        !split_at_dot(key).0.contains('.'),
        key.contains('.') ==> key == split_at_dot(key).0 + seq!['.'] + split_at_dot(key).1,
        !key.contains('.') ==> split_at_dot(key).0 == key && split_at_dot(key).1.len() == 0,
{
    reveal_strlit("");
    key.index_of_first_ensures('.');
    if key.contains('.') {
        let i = key.index_of_first('.')->0;
        assert(key =~= key.take(i) + seq!['.'] + key.skip(i + 1));
    }
}

/// Lower case moves the upper-case ASCII letters by the same distance and leaves
/// every other character alone.
pub proof fn law_lowercase_moves_letters_only(text: Seq<char>, i: int)
    requires
        0 <= i < text.len(),
    ensures
        ascii_lowercase(text).len() == text.len(),
        'A' <= text[i] <= 'Z' ==> ascii_lowercase(text)[i] as int == text[i] as int + ('a' as int
            - 'A' as int),
        !('A' <= text[i] <= 'Z') ==> ascii_lowercase(text)[i] == text[i],
{
}

/// The number that decimal digits stand for.
pub open spec fn number_of(digits: Seq<char>) -> int
    decreases digits.len(),
{
    if digits.len() == 0 {
        0
    } else {
        number_of(digits.drop_last()) * 10 + (digits.last() as int - '0' as int)
    }
}

/// Decimal notation reads back as the number, is made of digits alone, and has no
/// leading zero but for zero itself.
pub proof fn law_decimal_reads_back(n: nat)
    ensures
        number_of(decimal(n)) == n,
        decimal(n).len() > 0,
        forall|i: int| 0 <= i < decimal(n).len() ==> '0' <= #[trigger] decimal(n)[i] <= '9',
        n > 0 ==> decimal(n)[0] != '0',
        n == 0 ==> decimal(n).len() == 1,
    decreases n,
{
    reveal_strlit("0123456789");
    if n < 10 {
        assert(decimal(n).drop_last() =~= Seq::<char>::empty());
        assert(number_of(Seq::<char>::empty()) == 0);
    } else {
        law_decimal_reads_back(n / 10);
        assert(decimal(n).drop_last() =~= decimal(n / 10));
    }
}

/// A negative number reads as its magnitude behind a `-`, any other as itself.
pub proof fn law_signed_decimal_reads_back(n: int)
    ensures
        n < 0 ==> signed_decimal(n)[0] == '-' && number_of(signed_decimal(n).skip(1)) == -n,
        n >= 0 ==> number_of(signed_decimal(n)) == n && signed_decimal(n)[0] != '-',
{
    reveal_strlit("-");
    if n < 0 {
        law_decimal_reads_back((-n) as nat);
        assert(signed_decimal(n).skip(1) =~= decimal((-n) as nat));
    } else {
        law_decimal_reads_back(n as nat);
        assert('0' <= decimal(n as nat)[0]);
    }
}

}
