//! Numbers as text, for the messages that errors carry.

use vstd::prelude::*;
use vstd::string::StringExecFns;

verus! {

/// The character of a decimal digit.
pub open spec fn digit_char(d: nat) -> char
    recommends
        d < 10,
{
    seq!['0', '1', '2', '3', '4', '5', '6', '7', '8', '9'][d as int]
}

/// A natural number in decimal, without leading zeros.
pub open spec fn nat_text(n: nat) -> Seq<char>
    decreases n,
{
    if n < 10 {
        seq![digit_char(n)]
    } else {
        nat_text(n / 10).push(digit_char(n % 10))
    }
}

/// An integer in decimal, with a leading minus sign where it is negative.
pub open spec fn int_text(n: int) -> Seq<char> {
    if n < 0 {
        seq!['-'] + nat_text((-n) as nat)
    } else {
        nat_text(n as nat)
    }
}

/// The character of a hexadecimal digit.
pub open spec fn hex_char(d: int) -> char
    recommends
        0 <= d < 16,
{
    seq!['0', '1', '2', '3', '4', '5', '6', '7', '8', '9', 'a', 'b', 'c', 'd', 'e', 'f'][d]
}

/// The byte at `k` of the elements of a word, where each element is eight bytes, the least
/// significant one first.
pub open spec fn word_byte(elements: Seq<u64>, k: int) -> int {
    (elements[k / 8] as int / vstd::arithmetic::power::pow(256, (k % 8) as nat)) % 256
}

/// A word in hexadecimal: `0x`, and two digits for each of its 32 bytes.
pub open spec fn word_text(elements: Seq<u64>) -> Seq<char> {
    "0x"@ + Seq::new(
        64,
        |i: int|
            if i % 2 == 0 {
                hex_char(word_byte(elements, i / 2) / 16)
            } else {
                hex_char(word_byte(elements, i / 2) % 16)
            },
    )
}

/// Returns the text of a decimal digit.
fn digit(d: u64) -> (r: &'static str)
    requires
        d < 10,
    ensures
        r@ == seq![digit_char(d as nat)],
{
    proof {
        reveal_strlit("0");
        reveal_strlit("1");
        reveal_strlit("2");
        reveal_strlit("3");
        reveal_strlit("4");
        reveal_strlit("5");
        reveal_strlit("6");
        reveal_strlit("7");
        reveal_strlit("8");
        reveal_strlit("9");
    }
    if d == 0 {
        "0"
    } else if d == 1 {
        "1"
    } else if d == 2 {
        "2"
    } else if d == 3 {
        "3"
    } else if d == 4 {
        "4"
    } else if d == 5 {
        "5"
    } else if d == 6 {
        "6"
    } else if d == 7 {
        "7"
    } else if d == 8 {
        "8"
    } else {
        "9"
    }
}

/// Appends `n` in decimal to `text`.
pub fn append_nat(text: &mut String, n: u64)
    ensures
        final(text)@ == old(text)@ + nat_text(n as nat),
    decreases n,
{
    if n >= 10 {
        append_nat(text, n / 10);
    }
    text.append(digit(n % 10));
    assert(text@ =~= old(text)@ + nat_text(n as nat));
}

/// Appends `n` in decimal to `text`, with a leading minus sign where it is negative.
pub fn append_int(text: &mut String, n: i32)
    ensures
        final(text)@ == old(text)@ + int_text(n as int),
{
    if n < 0 {
        proof {
            reveal_strlit("-");
        }
        text.append("-");
        append_nat(text, (-(n as i64)) as u64);
        assert(text@ =~= old(text)@ + int_text(n as int));
    } else {
        append_nat(text, n as u64);
    }
}

// LAWS

/// The number that decimal digits stand for, the most significant one first.
pub open spec fn decimal_value(text: Seq<char>) -> int
    decreases text.len(),
{
    if text.len() == 0 {
        0
    } else {
        10 * decimal_value(text.drop_last()) + (text.last() as int - '0' as int)
    }
}

/// The text of a natural number is made of digits, stands for that number, and has no leading zero.
pub proof fn law_nat_text(n: nat)
    ensures
        nat_text(n).len() >= 1,
        forall|i: int| 0 <= i < nat_text(n).len() ==> '0' <= #[trigger] nat_text(n)[i] <= '9',
        decimal_value(nat_text(n)) == n,
        nat_text(n)[0] == '0' ==> n == 0 && nat_text(n).len() == 1,
    decreases n,
{
    reveal_with_fuel(decimal_value, 2);
    if n >= 10 {
        law_nat_text(n / 10);
        let front = nat_text(n / 10);
        let text = nat_text(n);
        assert(text.drop_last() =~= front);
        assert(text[0] == front[0]);
        assert forall|i: int| 0 <= i < text.len() implies '0' <= #[trigger] text[i] <= '9' by {
            if i < front.len() {
                assert(text[i] == front[i]);
            }
        }
    } else {
        assert(nat_text(n).drop_last() =~= Seq::empty());
    }
}

/// The text of an integer is that of a natural number, behind a minus sign where it is negative.
pub proof fn law_int_text(n: int)
    ensures
        n >= 0 ==> decimal_value(int_text(n)) == n && int_text(n)[0] != '-',
        n < 0 ==> int_text(n)[0] == '-' && decimal_value(int_text(n).skip(1)) == -n && int_text(
            n,
        ).skip(1)[0] != '0',
{
    if n < 0 {
        law_nat_text((-n) as nat);
        assert(int_text(n).skip(1) =~= nat_text((-n) as nat));
    } else {
        law_nat_text(n as nat);
        assert('0' <= nat_text(n as nat)[0]);
    }
}

/// The number that a lower-case hexadecimal digit stands for.
pub open spec fn hex_value(c: char) -> int {
    if c <= '9' {
        c as int - '0' as int
    } else {
        c as int - 'a' as int + 10
    }
}

/// The bytes of an element of a word make up that element, the least significant one first.
pub proof fn law_word_bytes(elements: Seq<u64>, i: int)
    requires
        0 <= i < elements.len(),
    ensures
        forall|k: int| 0 <= #[trigger] word_byte(elements, k) < 256,
        elements[i] == word_byte(elements, 8 * i) + 0x100 * word_byte(elements, 8 * i + 1) + 0x1_0000
            * word_byte(elements, 8 * i + 2) + 0x100_0000 * word_byte(elements, 8 * i + 3)
            + 0x1_0000_0000 * word_byte(elements, 8 * i + 4) + 0x100_0000_0000 * word_byte(
            elements,
            8 * i + 5,
        ) + 0x1_0000_0000_0000 * word_byte(elements, 8 * i + 6) + 0x100_0000_0000_0000 * word_byte(
            elements,
            8 * i + 7,
        ),
{
    let x = elements[i] as int;
    lemma_base_256(x);
    lemma_byte_at(elements, i, 0, 1);
    lemma_byte_at(elements, i, 1, 0x100);
    lemma_byte_at(elements, i, 2, 0x1_0000);
    lemma_byte_at(elements, i, 3, 0x100_0000);
    lemma_byte_at(elements, i, 4, 0x1_0000_0000);
    lemma_byte_at(elements, i, 5, 0x100_0000_0000);
    lemma_byte_at(elements, i, 6, 0x1_0000_0000_0000);
    lemma_byte_at(elements, i, 7, 0x100_0000_0000_0000);
}

/// The byte at `j` of the element at `i`.
proof fn lemma_byte_at(elements: Seq<u64>, i: int, j: int, power: int)
    requires
        0 <= i,
        0 <= j < 8,
        power == seq![
            1int,
            0x100,
            0x1_0000,
            0x100_0000,
            0x1_0000_0000,
            0x100_0000_0000,
            0x1_0000_0000_0000,
            0x100_0000_0000_0000,
        ][j],
    ensures
        word_byte(elements, 8 * i + j) == elements[i] as int / power % 0x100,
{
    assert((8 * i + j) / 8 == i);
    assert((8 * i + j) % 8 == j);
    lemma_power_of_256(j as nat);
}

/// The first powers of 256.
proof fn lemma_power_of_256(j: nat)
    requires
        j < 8,
    ensures
        vstd::arithmetic::power::pow(256, j) == seq![
            1int,
            0x100,
            0x1_0000,
            0x100_0000,
            0x1_0000_0000,
            0x100_0000_0000,
            0x1_0000_0000_0000,
            0x100_0000_0000_0000,
        ][j as int],
    decreases j,
{
    reveal(vstd::arithmetic::power::pow);
    if j > 0 {
        lemma_power_of_256((j - 1) as nat);
    }
}

/// A number of eight digits to the base 256.
proof fn lemma_base_256(x: int)
    requires
        0 <= x <= u64::MAX,
    ensures
        x == x / 1 % 0x100 + 0x100 * (x / 0x100 % 0x100) + 0x1_0000 * (x / 0x1_0000 % 0x100)
            + 0x100_0000 * (x / 0x100_0000 % 0x100) + 0x1_0000_0000 * (x / 0x1_0000_0000 % 0x100)
            + 0x100_0000_0000 * (x / 0x100_0000_0000 % 0x100) + 0x1_0000_0000_0000 * (x
            / 0x1_0000_0000_0000 % 0x100) + 0x100_0000_0000_0000 * (x / 0x100_0000_0000_0000
            % 0x100),
{
    let x1 = x / 0x100;
    let x2 = x1 / 0x100;
    let x3 = x2 / 0x100;
    let x4 = x3 / 0x100;
    let x5 = x4 / 0x100;
    let x6 = x5 / 0x100;
    let x7 = x6 / 0x100;
    assert(x2 == x / 0x1_0000);
    assert(x3 == x / 0x100_0000);
    assert(x4 == x / 0x1_0000_0000);
    assert(x5 == x / 0x100_0000_0000);
    assert(x6 == x / 0x1_0000_0000_0000);
    assert(x7 == x / 0x100_0000_0000_0000);
}

/// The text of a word is `0x` and two hexadecimal digits for each byte, the bytes in order and the
/// more significant digit first.
pub proof fn law_word_text(elements: Seq<u64>)
    ensures
        word_text(elements).len() == 66,
        word_text(elements)[0] == '0',
        word_text(elements)[1] == 'x',
        forall|i: int|
            2 <= i < 66 ==> ('0' <= #[trigger] word_text(elements)[i] <= '9' || 'a' <= word_text(
                elements,
            )[i] <= 'f'),
        forall|k: int|
            0 <= k < 32 ==> 16 * hex_value(word_text(elements)[2 + 2 * k]) + hex_value(
                word_text(elements)[3 + 2 * k],
            ) == #[trigger] word_byte(elements, k),
{
    reveal_strlit("0x");
    let text = word_text(elements);
    assert(forall|d: int| 0 <= d < 16 ==> hex_value(#[trigger] hex_char(d)) == d);
    assert(forall|d: int|
        0 <= d < 16 ==> ('0' <= #[trigger] hex_char(d) <= '9' || 'a' <= hex_char(d) <= 'f'));
    assert forall|i: int| 2 <= i < 66 implies ('0' <= #[trigger] text[i] <= '9' || 'a' <= text[i]
        <= 'f') by {
        let byte = word_byte(elements, (i - 2) / 2);
        assert(0 <= byte < 256);
        assert(text[i] == hex_char(byte / 16) || text[i] == hex_char(byte % 16));
    }
    assert forall|k: int| 0 <= k < 32 implies 16 * hex_value(text[2 + 2 * k]) + hex_value(
        text[3 + 2 * k],
    ) == #[trigger] word_byte(elements, k) by {
        let byte = word_byte(elements, k);
        assert(0 <= byte < 256);
        assert(text[2 + 2 * k] == hex_char(byte / 16));
        assert(text[3 + 2 * k] == hex_char(byte % 16));
    }
}

} // verus!
