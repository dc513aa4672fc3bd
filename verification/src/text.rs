//! Text that several modules print: hexadecimal bytes and decimal numbers.

use vstd::prelude::*;

verus! {

/// The text of a string that may be missing.
pub open spec fn optional_text(text: Option<String>) -> Option<Seq<char>> {
    match text {
        Some(text) => Some(text@),
        None => None,
    }
}

/// The lower-case hexadecimal digit of `value`, for `0 <= value < 16`.
pub open spec fn hex_digit(value: int) -> char {
    if value < 10 {
        ('0' as int + value) as char
    } else {
        ('a' as int + (value - 10)) as char
    }
}

/// Two lower-case hexadecimal digits for each byte, the high half first.
pub open spec fn hex_text(bytes: Seq<u8>) -> Seq<char> {
    Seq::new(
        2 * bytes.len(),
        |i: int|
            if i % 2 == 0 {
                hex_digit(bytes[i / 2] as int / 16)
            } else {
                hex_digit(bytes[i / 2] as int % 16)
            },
    )
}

/// Calls `hex::encode`. Claimed of it: each byte becomes two lower-case
/// hexadecimal digits, the high half first.
#[verifier::external_body]
pub(crate) fn hex_encode(bytes: &[u8]) -> (text: String)
    ensures
        text@ == hex_text(bytes@),
{
    hex::encode(bytes)
}

/// Writes down a `bitcoin::Txid`. Claimed of it: the 32 bytes of the id are
/// written in hexadecimal, the last byte first.
#[verifier::external_body]
pub(crate) fn txid_text(txid: &[u8; 32]) -> (text: String)
    ensures
        text@ == hex_text(txid@.reverse()),
{
    let hash = bitcoin_hashes::Hash::from_inner(*txid);
    bitcoin::Txid::from_hash(hash).to_string()
}

/// The decimal digit of `value`, for `0 <= value < 10`.
pub open spec fn decimal_digit(value: int) -> char {
    ('0' as int + value) as char
}

/// `value` in decimal, without leading zeros.
pub open spec fn decimal_text(value: nat) -> Seq<char>
    decreases value,
{
    if value < 10 {
        seq![decimal_digit(value as int)]
    } else {
        decimal_text(value / 10).push(decimal_digit((value % 10) as int))
    }
}

/// Appends one decimal digit.
fn push_digit(digit: u64, buf: &mut String)
    requires
        digit < 10,
    ensures
        final(buf)@ == old(buf)@.push(decimal_digit(digit as int)),
{
    proof {
        reveal_strlit("0");
        reveal_strlit("1");
        reveal_strlit("2");
        reveal_strlit("3");
        reveal_strlit("4");
        reveal_strlit("5");
        reveal_strlit("6");
        reveal_strlit("7");
        reveal_strlit("8");
        reveal_strlit("9");
    }
    let text = match digit {
        0 => "0",
        1 => "1",
        2 => "2",
        3 => "3",
        4 => "4",
        5 => "5",
        6 => "6",
        7 => "7",
        8 => "8",
        _ => "9",
    };
    assert(text@ =~= seq![decimal_digit(digit as int)]);
    buf.append(text);
    assert(buf@ =~= old(buf)@.push(decimal_digit(digit as int)));
}

/// Appends `value` in decimal.
pub fn push_decimal(value: u64, buf: &mut String)
    ensures
        final(buf)@ == old(buf)@ + decimal_text(value as nat),
    decreases value,
{
    if value >= 10 {
        push_decimal(value / 10, buf);
    }
    push_digit(value % 10, buf);
    assert(buf@ =~= old(buf)@ + decimal_text(value as nat));
}

/// `true` or `false`.
pub open spec fn bool_text(value: bool) -> Seq<char> {
    if value {
        "true"@
    } else {
        "false"@
    }
}

/// Appends `true` or `false`.
pub fn push_bool(value: bool, buf: &mut String)
    ensures
        final(buf)@ == old(buf)@ + bool_text(value),
{
    if value {
        buf.append("true");
    } else {
        buf.append("false");
    }
}

/// The texts in quotation marks, with a comma between neighbours.
pub open spec fn quoted(texts: Seq<Seq<char>>) -> Seq<char>
    decreases texts.len(),
{
    if texts.len() == 0 {
        Seq::empty()
    } else if texts.len() == 1 {
        "\""@ + texts[0] + "\""@
    } else {
        quoted(texts.drop_last()) + ", \""@ + texts.last() + "\""@
    }
}

/// A copy of the bytes.
pub fn copy_bytes(bytes: &[u8]) -> (copy: Vec<u8>)
    ensures
        copy@ == bytes@,
{
    let mut copy: Vec<u8> = Vec::new();
    let mut i: usize = 0;
    while i < bytes.len()
        invariant
            i <= bytes@.len(),
            copy@ == bytes@.take(i as int),
        decreases bytes@.len() - i,
    {
        copy.push(bytes[i]);
        i = i + 1;
        assert(copy@ =~= bytes@.take(i as int));
    }
    assert(bytes@.take(i as int) =~= bytes@);
    copy
}

/// Whether two byte strings are the same.
pub fn same_bytes(left: &[u8], right: &[u8]) -> (same: bool)
    ensures
        same == (left@ == right@),
{
    if left.len() != right.len() {
        return false;
    }
    let mut i: usize = 0;
    while i < left.len()
        invariant
            left@.len() == right@.len(),
            i <= left@.len(),
            forall|j: int| 0 <= j < i ==> left@[j] == right@[j],
        decreases left@.len() - i,
    {
        if left[i] != right[i] {
            return false;
        }
        i = i + 1;
    }
    assert(left@ =~= right@);
    true
}

/// Whether two texts are the same.
pub fn same_text(left: &str, right: &str) -> (same: bool)
    ensures
        same == (left@ == right@),
{
    let same = same_bytes(left.as_bytes(), right.as_bytes());
    proof {
        vstd::utf8::encode_utf8_decode_utf8(left@);
        vstd::utf8::encode_utf8_decode_utf8(right@);
    }
    same
}

/// The hexadecimal text of bytes is twice as long as the bytes, and tells them
/// apart: different bytes have different texts.
pub proof fn hex_text_identifies_bytes(left: Seq<u8>, right: Seq<u8>)
    ensures
        hex_text(left).len() == 2 * left.len(),
        hex_text(left) == hex_text(right) ==> left == right,
{
    if hex_text(left) == hex_text(right) {
        assert(hex_text(left).len() == hex_text(right).len());
        assert forall|i: int| 0 <= i < left.len() implies left[i] == right[i] by {
            assert(hex_text(left)[2 * i] == hex_text(right)[2 * i]);
            assert(hex_text(left)[2 * i + 1] == hex_text(right)[2 * i + 1]);
            assert((2 * i) / 2 == i && (2 * i + 1) / 2 == i);
            assert(left[i] as int / 16 == right[i] as int / 16);
            assert(left[i] as int % 16 == right[i] as int % 16);
        }
        assert(left =~= right);
    }
}

/// Hexadecimal text has two of the sixteen digits for each byte, in the order
/// of the bytes: first the one for its upper half, then the one for its lower
/// half.
pub proof fn hex_text_has_two_digits_for_each_byte(bytes: Seq<u8>, i: int)
    requires
        0 <= i < bytes.len(),
    ensures
        hex_text(bytes).len() == 2 * bytes.len(),
        hex_text(bytes)[2 * i] == "0123456789abcdef"@[bytes[i] as int / 16],
        hex_text(bytes)[2 * i + 1] == "0123456789abcdef"@[bytes[i] as int % 16],
{
    reveal_strlit("0123456789abcdef");
    assert((2 * i) / 2 == i && (2 * i + 1) / 2 == i);
    assert((2 * i) % 2 == 0 && (2 * i + 1) % 2 == 1);
}

/// The number that a text of decimal digits stands for.
pub open spec fn decimal_value(text: Seq<char>) -> int
    decreases text.len(),
{
    if text.len() == 0 {
        0
    } else {
        10 * decimal_value(text.drop_last()) + (text.last() as int - '0' as int)
    }
}

/// A number that was written in decimal is read back from its text, which has
/// digits only and no needless zero in front.
pub proof fn decimal_text_is_read_back(value: nat)
    ensures
        decimal_value(decimal_text(value)) == value,
        decimal_text(value).len() > 0,
        forall|i: int|
            0 <= i < decimal_text(value).len() ==> '0' <= #[trigger] decimal_text(value)[i] <= '9',
        value > 0 ==> decimal_text(value)[0] != '0',
    decreases value,
{
    let text = decimal_text(value);
    if value < 10 {
        assert(text.drop_last() =~= Seq::empty());
        assert(decimal_value(text.drop_last()) == 0);
    } else {
        decimal_text_is_read_back(value / 10);
        assert(text.drop_last() =~= decimal_text(value / 10));
        assert(text[0] == decimal_text(value / 10)[0]);
    }
}

/// A truth value is written as the word for it.
pub proof fn truth_is_written_out(value: bool)
    ensures
        value ==> bool_text(value) == "true"@,
        !value ==> bool_text(value) == "false"@,
{
}

/// A list of texts in quotation marks is that of its first part, a comma and a
/// blank, and that of its second part. A text alone is put between quotation
/// marks, and where there is no text nothing is written.
pub proof fn quoted_lists_are_joined_by_commas(left: Seq<Seq<char>>, right: Seq<Seq<char>>)
    ensures
        left.len() == 0 ==> quoted(left).len() == 0,
        left.len() == 1 ==> quoted(left) == "\""@ + left[0] + "\""@,
        left.len() > 0 && right.len() > 0 ==> quoted(left + right) == quoted(left) + ", "@ + quoted(
            right,
        ),
    decreases right.len(),
{
    if left.len() > 0 && right.len() > 0 {
        reveal_strlit(", \"");
        reveal_strlit(", ");
        reveal_strlit("\"");
        assert(", \""@ =~= ", "@ + "\""@);
        let init = right.drop_last();
        assert((left + right).drop_last() =~= left + init);
        assert((left + right).last() == right.last());
        if right.len() == 1 {
            assert(left + init =~= left);
            assert(quoted(left + right) =~= quoted(left) + ", "@ + quoted(right));
        } else {
            quoted_lists_are_joined_by_commas(left, init);
            assert(quoted(left + right) =~= quoted(left) + ", "@ + quoted(right));
        }
    }
}

/// A text that is there counts as itself, and one that is missing as none.
pub proof fn optional_text_is_the_text(text: Option<String>)
    ensures
        text matches Some(text) ==> optional_text(Some(text)) == Some(text@),
        text is None ==> optional_text(text) is None,
        optional_text(text) is Some <==> text is Some,
{
}

} // verus!
