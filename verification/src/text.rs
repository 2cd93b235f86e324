//! Text as the rules use it: equality, decimal and hexadecimal forms, stable hashes.

use vstd::prelude::*;
use vstd::utf8::{decode_utf8, encode_utf8, encode_utf8_decode_utf8};

verus! {

/// Two texts with the same UTF-8 bytes are the same text.
pub proof fn bytes_determine_text(a: Seq<char>, b: Seq<char>)
    requires
        encode_utf8(a) == encode_utf8(b),
    ensures
        a == b,
{
    encode_utf8_decode_utf8(a);
    encode_utf8_decode_utf8(b);
    assert(decode_utf8(encode_utf8(a)) == a);
}

/// Whether the two byte strings are the same.
pub fn same_bytes(a: &[u8], b: &[u8]) -> (r: bool)
    ensures
        r == (a@ == b@),
{
    if a.len() != b.len() {
        return false;
    }
    let mut i: usize = 0;
    while i < a.len()
        invariant
            i <= a.len(),
            a.len() == b.len(),
            forall|j: int| 0 <= j < i ==> a@[j] == b@[j],
        decreases a.len() - i,
    {
        if a[i] != b[i] {
            return false;
        }
        i = i + 1;
    }
    assert(a@ =~= b@);
    true
}

/// Whether the two texts are the same.
pub fn same(a: &str, b: &str) -> (r: bool)
    ensures
        r == (a@ == b@),
{
    let r = same_bytes(a.as_bytes(), b.as_bytes());
    proof {
        if encode_utf8(a@) == encode_utf8(b@) {
            bytes_determine_text(a@, b@);
        }
    }
    r
}

/// The decimal digit for `d`.
pub open spec fn digit(d: nat) -> char {
    if d == 0 { '0' }
    else if d == 1 { '1' }
    else if d == 2 { '2' }
    else if d == 3 { '3' }
    else if d == 4 { '4' }
    else if d == 5 { '5' }
    else if d == 6 { '6' }
    else if d == 7 { '7' }
    else if d == 8 { '8' }
    else if d == 9 { '9' }
    else if d == 10 { 'a' }
    else if d == 11 { 'b' }
    else if d == 12 { 'c' }
    else if d == 13 { 'd' }
    else if d == 14 { 'e' }
    else { 'f' }
}

fn digit_text(d: u8) -> (r: &'static str)
    requires
        d < 16,
    ensures
        r@ == seq![digit(d as nat)],
{
    proof {
        reveal_strlit("0");
        reveal_strlit("1");
        reveal_strlit("2");
        reveal_strlit("3");
        reveal_strlit("4");
        reveal_strlit("5");
        reveal_strlit("6");
        reveal_strlit("7");
        reveal_strlit("8");
        reveal_strlit("9");
        reveal_strlit("a");
        reveal_strlit("b");
        reveal_strlit("c");
        reveal_strlit("d");
        reveal_strlit("e");
        reveal_strlit("f");
    }
    match d {
        0 => "0",
        1 => "1",
        2 => "2",
        3 => "3",
        4 => "4",
        5 => "5",
        6 => "6",
        7 => "7",
        8 => "8",
        9 => "9",
        10 => "a",
        11 => "b",
        12 => "c",
        13 => "d",
        14 => "e",
        _ => "f",
    }
}

/// `n` written in decimal without leading zeros.
pub open spec fn decimal(n: nat) -> Seq<char>
    decreases n,
{
    if n < 10 {
        seq![digit(n)]
    } else {
        decimal(n / 10).push(digit(n % 10))
    }
}

/// Appends `n` in decimal.
pub fn push_decimal(out: &mut String, n: u64)
    ensures
        final(out)@ == old(out)@ + decimal(n as nat),
    decreases n,
{
    if n >= 10 {
        push_decimal(out, n / 10);
    }
    out.append(digit_text((n % 10) as u8));
    assert(out@ =~= old(out)@ + decimal(n as nat));
}

/// The two lower-case hexadecimal digits of each byte, in order.
pub open spec fn hex(bytes: Seq<u8>) -> Seq<char>
    decreases bytes.len(),
{
    if bytes.len() == 0 {
        seq![]
    } else {
        hex(bytes.drop_last()) + seq![digit((bytes.last() / 16) as nat), digit((bytes.last() % 16) as nat)]
    }
}

/// Lower-case hexadecimal text of the bytes.
pub fn hex_lower(bytes: &[u8]) -> (r: String)
    ensures
        r@ == hex(bytes@),
{
    let mut out = String::new();
    let mut i: usize = 0;
    assert(bytes@.take(0) =~= seq![]);
    while i < bytes.len()
        invariant
            i <= bytes.len(),
            out@ == hex(bytes@.take(i as int)),
        decreases bytes.len() - i,
    {
        out.append(digit_text(bytes[i] / 16));
        out.append(digit_text(bytes[i] % 16));
        proof {
            let next = bytes@.take(i + 1);
            assert(next.drop_last() =~= bytes@.take(i as int));
            assert(out@ =~= hex(next));
        }
        i = i + 1;
    }
    assert(bytes@.take(bytes.len() as int) =~= bytes@);
    out
}

/// The value of a hexadecimal digit of either case, by its byte.
pub open spec fn nibble(b: u8) -> Option<u8> {
    if 0x30 <= b <= 0x39 {
        Some((b - 0x30) as u8)
    } else if 0x41 <= b <= 0x46 {
        Some((b - 0x41 + 10) as u8)
    } else if 0x61 <= b <= 0x66 {
        Some((b - 0x61 + 10) as u8)
    } else {
        None
    }
}

fn nibble_of(b: u8) -> (r: Option<u8>)
    ensures
        r == nibble(b),
{
    if 0x30 <= b && b <= 0x39 {
        Some(b - 0x30)
    } else if 0x41 <= b && b <= 0x46 {
        Some(b - 0x41 + 10)
    } else if 0x61 <= b && b <= 0x66 {
        Some(b - 0x61 + 10)
    } else {
        None
    }
}

/// The bytes written by the leading pairs of hexadecimal digits; reading stops at the
/// first pair that is not two digits, or when fewer than two bytes are left.
pub open spec fn unhex(bytes: Seq<u8>) -> Seq<u8>
    decreases bytes.len(),
{
    if bytes.len() < 2 || nibble(bytes[0]) is None || nibble(bytes[1]) is None {
        seq![]
    } else {
        seq![(nibble(bytes[0])->0 * 16 + nibble(bytes[1])->0) as u8] + unhex(bytes.skip(2))
    }
}

/// Reads the leading pairs of hexadecimal digits.
pub fn unhex_bytes(bytes: &[u8]) -> (r: Vec<u8>)
    ensures
        r@ == unhex(bytes@),
{
    let mut out: Vec<u8> = Vec::new();
    let mut i: usize = 0;
    assert(bytes@.skip(0) =~= bytes@);
    assert(out@ + unhex(bytes@.skip(0)) =~= unhex(bytes@));
    while i < bytes.len() && bytes.len() - i >= 2
        invariant
            i <= bytes.len(),
            out@ + unhex(bytes@.skip(i as int)) == unhex(bytes@),
        decreases bytes.len() - i,
    {
        let ghost rest = bytes@.skip(i as int);
        assert(rest[0] == bytes@[i as int] && rest[1] == bytes@[i + 1]);
        match (nibble_of(bytes[i]), nibble_of(bytes[i + 1])) {
            (Some(a), Some(b)) => {
                let ghost before = out@;
                out.push(a * 16 + b);
                proof {
                    assert(rest.skip(2) =~= bytes@.skip(i + 2));
                    assert(before + (seq![(a * 16 + b) as u8] + unhex(rest.skip(2))) =~= out@
                        + unhex(rest.skip(2)));
                }
            },
            _ => {
                assert(out@ =~= out@ + unhex(rest));
                return out;
            },
        }
        i = i + 2;
    }
    assert(out@ =~= out@ + unhex(bytes@.skip(i as int)));
    out
}

/// One step of the 64-bit FNV-1a hash.
pub open spec fn fnv_step(h: u64, b: u8) -> u64 {
    (h ^ (b as u64)).wrapping_mul(0x100_0000_01b3)
}

/// The 64-bit FNV-1a hash of the bytes, continued from `h`.
pub open spec fn fnv_from(h: u64, bytes: Seq<u8>) -> u64
    decreases bytes.len(),
{
    if bytes.len() == 0 {
        h
    } else {
        fnv_step(fnv_from(h, bytes.drop_last()), bytes.last())
    }
}

/// The 64-bit FNV-1a hash of a text's UTF-8 bytes.
pub open spec fn fnv_hash(s: Seq<char>) -> u64 {
    fnv_from(0xcbf2_9ce4_8422_2325, encode_utf8(s))
}

/// 64-bit FNV-1a over the text's bytes: the same text gives the same number everywhere.
pub fn fnv1a(s: &str) -> (r: u64)
    ensures
        r == fnv_hash(s@),
{
    let bytes = s.as_bytes();
    let mut h: u64 = 0xcbf2_9ce4_8422_2325;
    let mut i: usize = 0;
    assert(bytes@.take(0) =~= seq![]);
    while i < bytes.len()
        invariant
            i <= bytes.len(),
            h == fnv_from(0xcbf2_9ce4_8422_2325, bytes@.take(i as int)),
        decreases bytes.len() - i,
    {
        h = (h ^ (bytes[i] as u64)).wrapping_mul(0x100_0000_01b3);
        assert(bytes@.take(i + 1).drop_last() =~= bytes@.take(i as int));
        i = i + 1;
    }
    assert(bytes@.take(bytes.len() as int) =~= bytes@);
    h
}

/// One step of the 64-bit FNV-1a hash on a whole word.
pub open spec fn fnv_word(h: u64, word: u64) -> u64 {
    (h ^ word).wrapping_mul(0x100_0000_01b3)
}

/// The 64-bit FNV-1a hash of a list of words.
pub open spec fn fnv_words(words: Seq<u64>) -> u64
    decreases words.len(),
{
    if words.len() == 0 {
        0xcbf2_9ce4_8422_2325
    } else {
        fnv_word(fnv_words(words.drop_last()), words.last())
    }
}

/// 64-bit FNV-1a over a list of words.
pub fn fnv1a_words(words: &[u64]) -> (r: u64)
    ensures
        r == fnv_words(words@),
{
    let mut h: u64 = 0xcbf2_9ce4_8422_2325;
    let mut i: usize = 0;
    assert(words@.take(0) =~= seq![]);
    while i < words.len()
        invariant
            i <= words.len(),
            h == fnv_words(words@.take(i as int)),
        decreases words.len() - i,
    {
        h = (h ^ words[i]).wrapping_mul(0x100_0000_01b3);
        assert(words@.take(i + 1).drop_last() =~= words@.take(i as int));
        i = i + 1;
    }
    assert(words@.take(words.len() as int) =~= words@);
    h
}

/// The two lists of words differ in one place and nowhere else.
pub open spec fn one_apart(a: Seq<u64>, b: Seq<u64>) -> bool {
    &&& a.len() == b.len()
    &&& exists|i: int|
        0 <= i < a.len() && a[i] != b[i] && #[trigger] a.update(i, b[i]) == b
}

proof fn prime_cancels(x: u64, y: u64)
    requires
        x.wrapping_mul(0x100_0000_01b3) == y.wrapping_mul(0x100_0000_01b3),
    ensures
        x == y,
{
    let m: int = 0x1_0000_0000_0000_0000;
    let p: int = 0x100_0000_01b3;
    let q: int = 0xce96_5057_aff6_957b;
    let k: int = 0xce9650590f;
    assert(p * q == m * k + 1) by (nonlinear_arith)
        requires
            m == 0x1_0000_0000_0000_0000,
            p == 0x100_0000_01b3,
            q == 0xce96_5057_aff6_957b,
            k == 0xce9650590f,
    ;
    assert((x * p) % m == (y * p) % m);
    assert forall|z: u64| #[trigger] ((((z * p) % m) * q) % m) == z by {
        vstd::arithmetic::div_mod::lemma_mul_mod_noop_left(z * p, q, m);
        assert((z * p) * q == m * (z * k) + z) by (nonlinear_arith)
            requires
                p * q == m * k + 1,
        ;
        vstd::arithmetic::div_mod::lemma_mod_multiples_vanish(z * k, z as int, m);
        vstd::arithmetic::div_mod::lemma_small_mod(z as nat, m as nat);
    }
    assert((((x * p) % m) * q) % m == x);
    assert((((y * p) % m) * q) % m == y);
}

/// A single changed word always changes the hash.
pub proof fn changed_word_shows(a: Seq<u64>, b: Seq<u64>)
    requires
        one_apart(a, b),
    ensures
        fnv_words(a) != fnv_words(b),
    decreases a.len(),
{
    let i = choose|i: int| 0 <= i < a.len() && a[i] != b[i] && #[trigger] a.update(i, b[i]) == b;
    let last = a.len() - 1;
    let (ha, hb) = (fnv_words(a.drop_last()), fnv_words(b.drop_last()));
    let (wa, wb) = (a.last(), b.last());
    if fnv_words(a) == fnv_words(b) {
        prime_cancels(ha ^ wa, hb ^ wb);
        if i == last {
            assert(a.drop_last() =~= b.drop_last());
            assert(ha ^ wa == ha ^ wb ==> wa == wb) by (bit_vector);
        } else {
            let (fa, fb) = (a.drop_last(), b.drop_last());
            assert(fa.update(i, fb[i]) =~= fb) by {
                assert forall|k: int| 0 <= k < fa.len() implies fa.update(i, fb[i])[k] == fb[k] by {
                    assert(a.update(i, b[i])[k] == b[k]);
                }
            }
            assert(one_apart(fa, fb));
            changed_word_shows(fa, fb);
            assert(wa == a.update(i, b[i])[last]);
            assert(ha ^ wa == hb ^ wa ==> ha == hb) by (bit_vector);
        }
    }
}

/// The 32-bit FNV-1a hash of the bytes.
pub open spec fn seed_from(bytes: Seq<u8>) -> u32
    decreases bytes.len(),
{
    if bytes.len() == 0 {
        0x811c_9dc5
    } else {
        (seed_from(bytes.drop_last()) ^ (bytes.last() as u32)).wrapping_mul(0x0100_0193)
    }
}

/// 32-bit FNV-1a over the text's bytes: the procedural seed that a text stands for.
pub fn seed32(s: &str) -> (r: u32)
    ensures
        r == seed_from(encode_utf8(s@)),
{
    let bytes = s.as_bytes();
    let mut h: u32 = 0x811c_9dc5;
    let mut i: usize = 0;
    assert(bytes@.take(0) =~= seq![]);
    while i < bytes.len()
        invariant
            i <= bytes.len(),
            h == seed_from(bytes@.take(i as int)),
        decreases bytes.len() - i,
    {
        h = (h ^ (bytes[i] as u32)).wrapping_mul(0x0100_0193);
        assert(bytes@.take(i + 1).drop_last() =~= bytes@.take(i as int));
        i = i + 1;
    }
    assert(bytes@.take(bytes.len() as int) =~= bytes@);
    h
}

/// What a text of decimal digits amounts to.
pub open spec fn amount(text: Seq<char>) -> int
    decreases text.len(),
{
    if text.len() == 0 {
        0
    } else {
        10 * amount(text.drop_last()) + (text.last() as int - '0' as int)
    }
}

/// A number written in decimal is made of decimal digits, has no leading zero, and reads back as the
/// number.
pub proof fn decimals_read_back(n: nat)
    ensures
        amount(decimal(n)) == n,
        decimal(n).len() > 0,
        decimal(n).len() > 1 ==> decimal(n)[0] != '0',
        forall|i: int| 0 <= i < decimal(n).len() ==> '0' <= #[trigger] decimal(n)[i] <= '9',
    decreases n,
{
    reveal_with_fuel(amount, 2);
    if n >= 10 {
        let rest = decimal(n / 10);
        decimals_read_back(n / 10);
        assert(decimal(n).drop_last() =~= rest);
        assert(decimal(n)[0] == rest[0]);
        if rest.len() == 1 {
            assert(rest =~= seq![rest[0]]);
            assert(rest.drop_last() =~= seq![]);
            assert(amount(rest) == rest[0] as int - '0' as int);
        }
        assert forall|i: int| 0 <= i < decimal(n).len() implies '0' <= #[trigger] decimal(n)[i] <= '9' by {
            if i < rest.len() {
                assert(decimal(n)[i] == rest[i]);
            }
        }
    } else {
        assert(decimal(n).drop_last() =~= seq![]);
    }
}

/// Hexadecimal text has two digits for each byte, the high half first.
pub proof fn bytes_are_two_digits(bytes: Seq<u8>, i: int)
    requires
        0 <= i < bytes.len(),
    ensures
        hex(bytes).len() == 2 * bytes.len(),
        hex(bytes)[2 * i] as int == bytes[i] / 16 + if bytes[i] / 16 < 10 {
            0x30int
        } else {
            0x57
        },
        hex(bytes)[2 * i + 1] as int == bytes[i] % 16 + if bytes[i] % 16 < 10 {
            0x30int
        } else {
            0x57
        },
    decreases bytes.len(),
{
    reveal_with_fuel(hex, 2);
    let rest = bytes.drop_last();
    if rest.len() > 0 {
        bytes_are_two_digits(rest, if i < rest.len() { i } else { 0 });
    }
    if i < rest.len() {
        assert(rest[i] == bytes[i]);
        assert(hex(bytes)[2 * i] == hex(rest)[2 * i]);
        assert(hex(bytes)[2 * i + 1] == hex(rest)[2 * i + 1]);
    }
}

/// A text's hash starts from the offset basis and takes each byte in order: the byte is mixed into
/// the low bits, then the whole is multiplied by the prime, modulo 2^64. Words and 32-bit seeds go
/// the same way.
pub proof fn hashes_fold_in_each_part(h: u64, bytes: Seq<u8>, b: u8, words: Seq<u64>, w: u64)
    ensures
        fnv_from(h, seq![]) == h,
        fnv_from(h, bytes.push(b)) == ((fnv_from(h, bytes) ^ (b as u64)) * 0x100_0000_01b3)
            % 0x1_0000_0000_0000_0000,
        fnv_words(seq![]) == 0xcbf2_9ce4_8422_2325,
        fnv_words(words.push(w)) == ((fnv_words(words) ^ w) * 0x100_0000_01b3)
            % 0x1_0000_0000_0000_0000,
        seed_from(seq![]) == 0x811c_9dc5,
        seed_from(bytes.push(b)) == ((seed_from(bytes) ^ (b as u32)) * 0x0100_0193) % 0x1_0000_0000,
{
    assert(bytes.push(b).drop_last() =~= bytes);
    assert(words.push(w).drop_last() =~= words);
}

/// The hash of a text is that of its bytes, from the offset basis on.
pub proof fn texts_hash_by_their_bytes(s: &str, r: u64, seed: u32)
    requires
        call_ensures(fnv1a, (s,), r),
        call_ensures(seed32, (s,), seed),
    ensures
        r == fnv_from(0xcbf2_9ce4_8422_2325, encode_utf8(s@)),
        seed == seed_from(encode_utf8(s@)),
{
}

} // verus!
