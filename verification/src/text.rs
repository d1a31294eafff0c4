use vstd::prelude::*;
use vstd::string::*;
use vstd::utf8::*;

verus! {

/// The number of bytes that a text takes in UTF-8. Every length in this
/// crate is counted in bytes; for ASCII text that is the number of characters.
pub open spec fn byte_len(text: Seq<char>) -> nat {
    encode_utf8(text).len()
}

/// Counts the bytes that a text takes in UTF-8.
pub fn byte_length(text: &String) -> (count: usize)
    ensures
        count == byte_len(text@),
{
    text.as_str().as_bytes().len()
}

/// The UTF-8 encoding of a concatenation is the concatenation of the encodings.
pub proof fn lemma_encode_concat(a: Seq<char>, b: Seq<char>)
    ensures
        encode_utf8(a + b) == encode_utf8(a) + encode_utf8(b),
    decreases a.len(),
{
    if a.len() == 0 {
        assert(a + b == b);
        assert(encode_utf8(a) + encode_utf8(b) == encode_utf8(b));
    } else {
        lemma_encode_concat(a.drop_first(), b);
        assert((a + b).drop_first() == a.drop_first() + b);
        assert((a + b)[0] == a[0]);
        assert(encode_utf8(a + b) == encode_scalar(a[0] as u32) + (encode_utf8(a.drop_first())
            + encode_utf8(b)));
        assert(encode_scalar(a[0] as u32) + (encode_utf8(a.drop_first()) + encode_utf8(b)) == (
        encode_scalar(a[0] as u32) + encode_utf8(a.drop_first())) + encode_utf8(b));
    }
}

/// Byte lengths add up under concatenation.
pub proof fn lemma_byte_len_concat(a: Seq<char>, b: Seq<char>)
    ensures
        byte_len(a + b) == byte_len(a) + byte_len(b),
{
    lemma_encode_concat(a, b);
}

/// The character of a decimal digit.
pub open spec fn digit_char(d: nat) -> char
    recommends
        d < 10,
{
    if d == 0 {
        '0'
    } else if d == 1 {
        '1'
    } else if d == 2 {
        '2'
    } else if d == 3 {
        '3'
    } else if d == 4 {
        '4'
    } else if d == 5 {
        '5'
    } else if d == 6 {
        '6'
    } else if d == 7 {
        '7'
    } else if d == 8 {
        '8'
    } else {
        '9'
    }
}

/// The decimal numeral of a number: no sign, no leading zero, `0` for zero.
pub open spec fn decimal(n: nat) -> Seq<char>
    decreases n,
{
    if n < 10 {
        seq![digit_char(n)]
    } else {
        decimal(n / 10).push(digit_char(n % 10))
    }
}

/// The one-character text of a decimal digit.
fn digit_str(d: u64) -> (s: &'static str)
    requires
        d < 10,
    ensures
        s@ == seq![digit_char(d as nat)],
{
    proof {
        reveal_strlit("0");
        reveal_strlit("1");
        reveal_strlit("2");
        reveal_strlit("3");
        reveal_strlit("4");
        reveal_strlit("5");
        reveal_strlit("6");
        reveal_strlit("7");
        reveal_strlit("8");
        reveal_strlit("9");
    }
    let s = if d == 0 {
        "0"
    } else if d == 1 {
        "1"
    } else if d == 2 {
        "2"
    } else if d == 3 {
        "3"
    } else if d == 4 {
        "4"
    } else if d == 5 {
        "5"
    } else if d == 6 {
        "6"
    } else if d == 7 {
        "7"
    } else if d == 8 {
        "8"
    } else {
        "9"
    };
    assert(s@ =~= seq![digit_char(d as nat)]);
    s
}

/// Writes a number as its decimal numeral.
pub fn decimal_string(n: u64) -> (s: String)
    ensures
        s@ == decimal(n as nat),
    decreases n,
{
    if n < 10 {
        String::from_str(digit_str(n))
    } else {
        let mut s = decimal_string(n / 10);
        s.append(digit_str(n % 10));
        assert(s@ =~= decimal(n as nat));
        s
    }
}

/// The greatest number of bytes in the symbol of an asset.
pub const MAX_SYMBOL_LENGTH: usize = 10;

/// A run of `count` null characters.
pub open spec fn nulls(count: nat) -> Seq<char> {
    Seq::new(count, |i: int| '\0')
}

/// The symbol as it is stored: filled on the right with null characters up to
/// `MAX_SYMBOL_LENGTH` bytes.
pub open spec fn padded_symbol(symbol: Seq<char>) -> Seq<char> {
    if byte_len(symbol) <= MAX_SYMBOL_LENGTH {
        symbol + nulls((MAX_SYMBOL_LENGTH - byte_len(symbol)) as nat)
    } else {
        symbol
    }
}

/// What is left of a text once the null characters at its end are dropped.
pub open spec fn trim_nulls(text: Seq<char>) -> Seq<char>
    decreases text.len(),
{
    if text.len() > 0 && text.last() == '\0' {
        trim_nulls(text.drop_last())
    } else {
        text
    }
}

/// A run of null characters takes one byte for each.
pub proof fn lemma_nulls_byte_len(count: nat)
    ensures
        byte_len(nulls(count)) == count,
{
    assert(is_ascii_chars(nulls(count)));
    is_ascii_chars_encode_utf8(nulls(count));
}

/// Fills a symbol on the right with null characters up to `MAX_SYMBOL_LENGTH`
/// bytes.
pub fn pad_symbol(symbol: &String) -> (stored: String)
    requires
        byte_len(symbol@) <= MAX_SYMBOL_LENGTH,
    ensures
        stored@ == padded_symbol(symbol@),
        byte_len(stored@) == MAX_SYMBOL_LENGTH,
{
    let missing: usize = MAX_SYMBOL_LENGTH - byte_length(symbol);
    let mut stored = symbol.clone();
    let mut added: usize = 0;
    while added < missing
        invariant
            added <= missing,
            stored@ == symbol@ + nulls(added as nat),
        decreases missing - added,
    {
        proof {
            reveal_strlit("\0");
        }
        stored.append("\0");
        added = added + 1;
        assert(stored@ =~= symbol@ + nulls(added as nat));
    }
    proof {
        lemma_byte_len_concat(symbol@, nulls(missing as nat));
        lemma_nulls_byte_len(missing as nat);
    }
    stored
}

} // verus!
