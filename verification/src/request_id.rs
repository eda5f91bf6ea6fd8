//! Request identifiers: random UUIDs and their text form.

use vstd::arithmetic::div_mod::*;
use vstd::arithmetic::power::*;
use vstd::prelude::*;

verus! {

/// A UUID, held as its 128 bits in big-endian order.
#[derive(Clone, Copy, Debug, PartialEq, Eq, Structural)]
pub struct RequestId {
    pub bits: u128,
}

/// The lower-case hexadecimal digit of a value below sixteen.
pub open spec fn hex_digit(n: int) -> char {
    if n < 10 {
        (48 + n) as char
    } else {
        (87 + n) as char
    }
}

/// The `k`-th of the 32 hexadecimal digits of `bits`, counted from the most significant one.
pub open spec fn nibble(bits: int, k: int) -> int {
    bits / pow(16, (31 - k) as nat) % 16
}

/// How many digits stand before position `i` of the hyphenated form.
pub open spec fn digits_before(i: int) -> int {
    if i < 8 {
        i
    } else if i < 13 {
        i - 1
    } else if i < 18 {
        i - 2
    } else if i < 23 {
        i - 3
    } else {
        i - 4
    }
}

/// The hyphenated text form: 32 lower-case hexadecimal digits in groups of 8, 4, 4, 4 and 12.
pub open spec fn hyphenated(bits: int) -> Seq<char> {
    Seq::new(
        36,
        |i: int|
            if i == 8 || i == 13 || i == 18 || i == 23 {
                '-'
            } else {
                hex_digit(nibble(bits, digits_before(i)))
            },
    )
}

/// Whether the version digit is 4 and the two variant bits are `10`.
pub open spec fn is_version_4(bits: int) -> bool {
    &&& nibble(bits, 12) == 4
    &&& nibble(bits, 16) / 4 == 2
}

/// Calls `uuid::Uuid::new_v4`. The bits are random, except that the version and variant fields
/// are those of a version 4 UUID. Nothing is claimed of the other bits, and the call does not
/// return where the operating system refuses to hand out randomness.
#[verifier::external_body]
fn random_bits() -> (bits: u128)
    ensures
        is_version_4(bits as int),
{
    uuid::Uuid::new_v4().as_u128()
}

/// Calls the `Display` formatting of `uuid::Uuid`, which writes the hyphenated form in lower
/// case.
#[verifier::external_body]
fn uuid_text(bits: u128) -> (text: String)
    ensures
        text@ == hyphenated(bits as int),
{
    uuid::Uuid::from_u128(bits).to_string()
}

impl RequestId {
    /// A fresh random identifier.
    pub fn new_v4() -> (id: RequestId)
        ensures
            is_version_4(id.bits as int),
    {
        RequestId { bits: random_bits() }
    }

    /// The text that goes into headers, rows and span attributes.
    pub fn to_string(&self) -> (text: String)
        ensures
            text@ == hyphenated(self.bits as int),
    {
        uuid_text(self.bits)
    }
}

proof fn lemma_hex_digit_injective(m: int, n: int)
    requires
        0 <= m < 16,
        0 <= n < 16,
        hex_digit(m) == hex_digit(n),
    ensures
        m == n,
{
    assert(hex_digit(m) as int == if m < 10 {
        48 + m
    } else {
        87 + m
    });
    assert(hex_digit(n) as int == if n < 10 {
        48 + n
    } else {
        87 + n
    });
}

/// Two values whose digits agree from the top down to place `j` agree when divided by `16^j`.
proof fn lemma_equal_digits(a: int, b: int, j: nat)
    requires
        0 <= a < pow(16, 32),
        0 <= b < pow(16, 32),
        j <= 32,
        forall|k: int| 0 <= k < 32 ==> #[trigger] nibble(a, k) == nibble(b, k),
    ensures
        a / pow(16, j) == b / pow(16, j),
    decreases 32 - j,
{
    lemma_pow_positive(16, j);
    if j == 32 {
        lemma_basic_div(a, pow(16, 32));
        lemma_basic_div(b, pow(16, 32));
    } else {
        lemma_equal_digits(a, b, j + 1);
        assert(nibble(a, 31 - j as int) == nibble(b, 31 - j as int));
        lemma_pow_adds(16, j, 1);
        lemma_pow1(16);
        lemma_div_denominator(a, pow(16, j), 16);
        lemma_div_denominator(b, pow(16, j), 16);
        lemma_fundamental_div_mod(a / pow(16, j), 16);
        lemma_fundamental_div_mod(b / pow(16, j), 16);
    }
}

/// Distinct identifiers have distinct text forms.
pub proof fn law_text_identifies_request(a: RequestId, b: RequestId)
    requires
        hyphenated(a.bits as int) == hyphenated(b.bits as int),
    ensures
        a == b,
{
    let x = a.bits as int;
    let y = b.bits as int;
    assert forall|k: int| 0 <= k < 32 implies #[trigger] nibble(x, k) == nibble(y, k) by {
        let i = if k < 8 {
            k
        } else if k < 12 {
            k + 1
        } else if k < 16 {
            k + 2
        } else if k < 20 {
            k + 3
        } else {
            k + 4
        };
        assert(hyphenated(x)[i] == hyphenated(y)[i]);
        assert(digits_before(i) == k);
        lemma_hex_digit_injective(nibble(x, k), nibble(y, k));
    }
    assert(pow(16, 32) == 0x1_0000_0000_0000_0000_0000_0000_0000_0000) by {
        lemma_pow_multiplies(16, 8, 4);
        assert(pow(16, 8) == 0x1_0000_0000) by {
            reveal_with_fuel(pow, 9);
        }
        reveal_with_fuel(pow, 5);
        assert(pow(0x1_0000_0000, 4) == 0x1_0000_0000 * (0x1_0000_0000 * (0x1_0000_0000 * (
        0x1_0000_0000 * 1))));
    }
    lemma_equal_digits(x, y, 0);
    lemma_pow0(16);
}

/// The text form of a version 4 identifier shows its version.
pub proof fn law_version_is_shown(id: RequestId)
    requires
        is_version_4(id.bits as int),
    ensures
        hyphenated(id.bits as int).len() == 36,
        hyphenated(id.bits as int)[14] == '4',
{
}

} // verus!
