//! 128-bit identifiers (VM ids, pool ids, volume and snapshot ids) and
//! their textual forms.
use vstd::prelude::*;

verus! {

/// The lowercase hexadecimal digit for `d` (0..16).
pub open spec fn hex_digit(d: int) -> char {
    seq!['0', '1', '2', '3', '4', '5', '6', '7', '8', '9', 'a', 'b', 'c', 'd', 'e', 'f'][d]
}

/// The `n` low hexadecimal digits of `v`, most significant first.
pub open spec fn hex_text(v: nat, n: nat) -> Seq<char>
    decreases n,
{
    if n == 0 {
        Seq::empty()
    } else {
        hex_text(v / 16, (n - 1) as nat).push(hex_digit((v % 16) as int))
    }
}

/// The 32-digit form of an id, without separators.
pub open spec fn simple_text(id: u128) -> Seq<char> {
    hex_text(id as nat, 32)
}

/// The 8-4-4-4-12 hyphenated form of an id.
pub open spec fn hyphenated_text(id: u128) -> Seq<char> {
    let s = simple_text(id);
    s.subrange(0, 8) + seq!['-'] + s.subrange(8, 12) + seq!['-'] + s.subrange(12, 16) + seq!['-']
        + s.subrange(16, 20) + seq!['-'] + s.subrange(20, 32)
}

/// Relies on uuid's `Uuid::from_u128` and its hyphenated formatter: the
/// big-endian bytes of the value, two lowercase digits each, in 8-4-4-4-12
/// groups.
#[verifier::external_body]
pub fn id_text(id: u128) -> (r: String)
    ensures
        r@ == hyphenated_text(id),
{
    uuid::Uuid::from_u128(id).hyphenated().to_string()
}

/// Relies on uuid's `Uuid::from_u128` and its simple formatter: the
/// big-endian bytes of the value, two lowercase digits each.
#[verifier::external_body]
pub fn id_simple_text(id: u128) -> (r: String)
    ensures
        r@ == simple_text(id),
{
    uuid::Uuid::from_u128(id).simple().to_string()
}

/// Relies on uuid's `Uuid::new_v4`: random bits with the version nibble
/// set to 4 and the variant bits set to `10`.
#[verifier::external_body]
pub fn fresh_id() -> (r: u128)
    ensures
        (r >> 76u128) & 0xfu128 == 4,
        (r >> 62u128) & 0x3u128 == 2,
{
    uuid::Uuid::new_v4().as_u128()
}

pub proof fn lemma_hex_text_len(v: nat, n: nat)
    ensures
        hex_text(v, n).len() == n,
    decreases n,
{
    if n > 0 {
        lemma_hex_text_len(v / 16, (n - 1) as nat);
    }
}

/// Every character of a hex text is a digit or a lowercase letter a-f.
pub open spec fn is_hex_char(c: char) -> bool {
    ('0' <= c && c <= '9') || ('a' <= c && c <= 'f')
}

pub proof fn lemma_hex_text_chars(v: nat, n: nat)
    ensures
        forall|i: int| 0 <= i < hex_text(v, n).len() ==> is_hex_char(#[trigger] hex_text(v, n)[i]),
    decreases n,
{
    if n > 0 {
        lemma_hex_text_chars(v / 16, (n - 1) as nat);
        lemma_hex_text_len(v / 16, (n - 1) as nat);
        let d = (v % 16) as int;
        assert(is_hex_char(hex_digit(d))) by {
            reveal_with_fuel(hex_digit, 1);
        }
    }
}

/// Sixteen to the power `n`.
pub open spec fn pow16(n: nat) -> nat
    decreases n,
{
    if n == 0 {
        1
    } else {
        16 * pow16((n - 1) as nat)
    }
}

proof fn lemma_pow16_positive(n: nat)
    ensures
        pow16(n) > 0,
    decreases n,
{
    if n > 0 {
        lemma_pow16_positive((n - 1) as nat);
    }
}

proof fn lemma_hex_digit_injective(i: int, j: int)
    requires
        0 <= i < 16,
        0 <= j < 16,
        hex_digit(i) == hex_digit(j),
    ensures
        i == j,
{
    let digits = seq!['0', '1', '2', '3', '4', '5', '6', '7', '8', '9', 'a', 'b', 'c', 'd', 'e', 'f'];
    assert(digits[0] == '0' && digits[1] == '1' && digits[2] == '2' && digits[3] == '3');
    assert(digits[4] == '4' && digits[5] == '5' && digits[6] == '6' && digits[7] == '7');
    assert(digits[8] == '8' && digits[9] == '9' && digits[10] == 'a' && digits[11] == 'b');
    assert(digits[12] == 'c' && digits[13] == 'd' && digits[14] == 'e' && digits[15] == 'f');
}

/// Equal hex texts of length `n` come from values equal modulo `16^n`.
proof fn lemma_hex_text_determines(v: nat, w: nat, n: nat)
    requires
        hex_text(v, n) == hex_text(w, n),
    ensures
        v % pow16(n) == w % pow16(n),
    decreases n,
{
    if n > 0 {
        let m = (n - 1) as nat;
        let a = hex_text(v / 16, m);
        let b = hex_text(w / 16, m);
        lemma_hex_text_len(v / 16, m);
        lemma_hex_text_len(w / 16, m);
        assert(hex_text(v, n).drop_last() =~= a);
        assert(hex_text(w, n).drop_last() =~= b);
        lemma_hex_text_determines(v / 16, w / 16, m);
        assert(hex_text(v, n).last() == hex_digit((v % 16) as int));
        assert(hex_text(w, n).last() == hex_digit((w % 16) as int));
        lemma_hex_digit_injective((v % 16) as int, (w % 16) as int);
        lemma_pow16_positive(m);
        vstd::arithmetic::div_mod::lemma_breakdown(v as int, 16, pow16(m) as int);
        vstd::arithmetic::div_mod::lemma_breakdown(w as int, 16, pow16(m) as int);
    }
}

/// Distinct ids have distinct simple texts.
pub proof fn lemma_simple_text_injective(a: u128, b: u128)
    requires
        a != b,
    ensures
        simple_text(a) != simple_text(b),
{
    if simple_text(a) == simple_text(b) {
        lemma_hex_text_determines(a as nat, b as nat, 32);
        reveal_with_fuel(pow16, 33);
        assert(pow16(32) == 0x1_0000_0000_0000_0000_0000_0000_0000_0000nat);
        vstd::arithmetic::div_mod::lemma_small_mod(a as nat, pow16(32));
        vstd::arithmetic::div_mod::lemma_small_mod(b as nat, pow16(32));
    }
}

/// Distinct ids have distinct hyphenated texts.
pub proof fn lemma_id_text_injective(a: u128, b: u128)
    requires
        a != b,
    ensures
        hyphenated_text(a) != hyphenated_text(b),
{
    lemma_simple_text_injective(a, b);
    lemma_hex_text_len(a as nat, 32);
    lemma_hex_text_len(b as nat, 32);
    let ha = hyphenated_text(a);
    let hb = hyphenated_text(b);
    assert(simple_text(a) =~= ha.subrange(0, 8) + ha.subrange(9, 13) + ha.subrange(14, 18)
        + ha.subrange(19, 23) + ha.subrange(24, 36));
    assert(simple_text(b) =~= hb.subrange(0, 8) + hb.subrange(9, 13) + hb.subrange(14, 18)
        + hb.subrange(19, 23) + hb.subrange(24, 36));
}

} // verus!
