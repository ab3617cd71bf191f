//! The 256-bit machine word and the parsing of numeric immediates into it.

use vstd::prelude::*;

verus! {

/// The radix of one 64-bit limb.
pub open spec fn limb_base() -> nat {
    0x1_0000_0000_0000_0000
}

/// The number of distinct values of a machine word.
pub open spec fn word_modulus() -> nat {
    limb_base() * limb_base() * limb_base() * limb_base()
}

/// A 256-bit machine word, held as four 64-bit limbs, least significant first.
#[derive(Clone, Copy, Debug, PartialEq, Eq, Structural)]
pub struct Word {
    pub l0: u64,
    pub l1: u64,
    pub l2: u64,
    pub l3: u64,
}

impl Word {
    /// The unsigned integer that the word holds.
    pub open spec fn value(self) -> nat {
        (self.l0 + limb_base() * (self.l1 + limb_base() * (self.l2 + limb_base() * self.l3))) as nat
    }

    /// The word that holds `v`.
    pub fn from_u64(v: u64) -> (r: Word)
        ensures
            r.value() == v,
    {
        Word { l0: v, l1: 0, l2: 0, l3: 0 }
    }
}

/// The value of one digit character, letters counting from ten in either case;
/// 36 for a character that is no digit in any radix.
pub open spec fn digit_of(c: char) -> nat {
    if '0' <= c && c <= '9' {
        (c as nat - '0' as nat) as nat
    } else if 'a' <= c && c <= 'z' {
        (c as nat - 'a' as nat + 10) as nat
    } else if 'A' <= c && c <= 'Z' {
        (c as nat - 'A' as nat + 10) as nat
    } else {
        36
    }
}

/// Every character of `s` is a digit in `radix`.
pub open spec fn all_digits(s: Seq<char>, radix: nat) -> bool {
    forall|i: int| 0 <= i < s.len() ==> #[trigger] digit_of(s[i]) < radix
}

/// The number that the digits of `s` spell in `radix`, most significant first.
pub open spec fn digits_value(s: Seq<char>, radix: nat) -> nat
    decreases s.len(),
{
    if s.len() == 0 {
        0
    } else {
        digits_value(s.drop_last(), radix) * radix + digit_of(s.last())
    }
}

/// `s` is a non-empty numeral in `radix` whose value fits in a machine word.
pub open spec fn is_word_numeral(s: Seq<char>, radix: nat) -> bool {
    s.len() > 0 && all_digits(s, radix) && digits_value(s, radix) < word_modulus()
}

/// The value of the digit `c`, if it is a digit in `radix`.
fn digit(c: char, radix: u64) -> (r: Option<u64>)
    requires
        radix <= 36,
    ensures
        r.is_some() == (digit_of(c) < radix),
        r.is_some() ==> r.unwrap() == digit_of(c),
{
    let d: u64 = if '0' <= c && c <= '9' {
        (c as u64) - ('0' as u64)
    } else if 'a' <= c && c <= 'z' {
        (c as u64) - ('a' as u64) + 10
    } else if 'A' <= c && c <= 'Z' {
        (c as u64) - ('A' as u64) + 10
    } else {
        36
    };
    if d < radix {
        Some(d)
    } else {
        None
    }
}

/// One limb of a multiply-and-add: `limb * radix + carry`, split into the new
/// limb and the carry out.
fn limb_mul_add(limb: u64, radix: u64, carry: u64) -> (r: (u64, u64))
    requires
        radix <= 16,
        carry < 16,
    ensures
        r.0 + r.1 * limb_base() == limb * radix + carry,
        r.1 < 16,
{
    proof {
        assert(limb * radix <= 0xffff_ffff_ffff_ffff * 16) by (nonlinear_arith)
            requires
                limb <= 0xffff_ffff_ffff_ffff,
                radix <= 16,
        ;
    }
    let t: u128 = (limb as u128) * (radix as u128) + (carry as u128);
    let lo = (t % 0x1_0000_0000_0000_0000u128) as u64;
    let hi = (t / 0x1_0000_0000_0000_0000u128) as u64;
    (lo, hi)
}

/// `w * radix + d`, with whether it fits in a word.
fn word_mul_add(w: Word, radix: u64, d: u64) -> (r: (Word, bool))
    requires
        radix <= 16,
        d < 16,
    ensures
        r.1 == (w.value() * radix + d < word_modulus()),
        r.1 ==> r.0.value() == w.value() * radix + d,
{
    let (n0, c0) = limb_mul_add(w.l0, radix, d);
    let (n1, c1) = limb_mul_add(w.l1, radix, c0);
    let (n2, c2) = limb_mul_add(w.l2, radix, c1);
    let (n3, c3) = limb_mul_add(w.l3, radix, c2);
    let r = Word { l0: n0, l1: n1, l2: n2, l3: n3 };
    proof {
        let b = limb_base();
        assert(w.value() * radix == w.l0 * radix + b * (w.l1 * radix + b * (w.l2 * radix + b * (
        w.l3 * radix)))) by (nonlinear_arith)
            requires
                w.value() == w.l0 + b * (w.l1 + b * (w.l2 + b * w.l3)),
        ;
        assert(r.value() + c3 * word_modulus() == w.value() * radix + d) by (nonlinear_arith)
            requires
                n0 + c0 * b == w.l0 * radix + d,
                n1 + c1 * b == w.l1 * radix + c0,
                n2 + c2 * b == w.l2 * radix + c1,
                n3 + c3 * b == w.l3 * radix + c2,
                w.value() * radix == w.l0 * radix + b * (w.l1 * radix + b * (w.l2 * radix + b * (
                w.l3 * radix))),
                r.value() == n0 + b * (n1 + b * (n2 + b * n3)),
                word_modulus() == b * b * b * b,
        ;
        assert(r.value() < word_modulus()) by (nonlinear_arith)
            requires
                r.value() == n0 + b * (n1 + b * (n2 + b * n3)),
                n0 < b,
                n1 < b,
                n2 < b,
                n3 < b,
                b == limb_base(),
                word_modulus() == b * b * b * b,
        ;
    }
    (r, c3 == 0)
}

/// The digits value of a prefix is at most that of a longer prefix.
proof fn lemma_prefix_value_le(s: Seq<char>, radix: nat, j: int, k: int)
    requires
        0 <= j <= k <= s.len(),
        radix >= 1,
    ensures
        digits_value(s.take(j), radix) <= digits_value(s.take(k), radix),
    decreases k - j,
{
    if j < k {
        lemma_prefix_value_le(s, radix, j, k - 1);
        assert(s.take(k).drop_last() =~= s.take(k - 1));
        let v = digits_value(s.take(k - 1), radix);
        assert(v <= v * radix) by (nonlinear_arith)
            requires
                radix >= 1,
        ;
    }
}

/// Parses a numeral in `radix` (ten or sixteen) into a machine word.
pub fn parse_word(s: &str, radix: u64) -> (r: Option<Word>)
    requires
        radix == 10 || radix == 16,
    ensures
        r.is_some() == is_word_numeral(s@, radix as nat),
        r.is_some() ==> r.unwrap().value() == digits_value(s@, radix as nat),
{
    let n = s.unicode_len();
    if n == 0 {
        return None;
    }
    let mut acc = Word::from_u64(0);
    let mut i: usize = 0;
    while i < n
        invariant
            n == s@.len(),
            radix == 10 || radix == 16,
            0 <= i <= n,
            all_digits(s@.take(i as int), radix as nat),
            acc.value() == digits_value(s@.take(i as int), radix as nat),
        decreases n - i,
    {
        let c = s.get_char(i);
        let d = match digit(c, radix) {
            Some(d) => d,
            None => {
                return None;
            },
        };
        let (next, fits) = word_mul_add(acc, radix, d);
        proof {
            assert(s@.take(i + 1).drop_last() =~= s@.take(i as int));
            assert(s@.take(i + 1).last() == c);
        }
        if !fits {
            proof {
                lemma_prefix_value_le(s@, radix as nat, i + 1, n as int);
                assert(s@.take(n as int) =~= s@);
            }
            return None;
        }
        acc = next;
        i = i + 1;
    }
    proof {
        assert(s@.take(n as int) =~= s@);
    }
    Some(acc)
}

} // verus!
