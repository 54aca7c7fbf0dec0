//! Base-128 variable-length integers, as the event schema's wire format
//! writes them: seven bits per byte, least significant group first, the high
//! bit set on every byte but the last, at most ten bytes, value below 2^64.
use vstd::prelude::*;

verus! {

/// 128 to the power `n`.
pub open spec fn pow128(n: nat) -> nat
    decreases n,
{
    if n == 0 {
        1
    } else {
        128 * pow128((n - 1) as nat)
    }
}

/// The value of the seven-bit groups of the first `n` bytes.
pub open spec fn varint_sum(s: Seq<u8>, n: nat) -> nat
    decreases n,
{
    if n == 0 {
        0
    } else {
        varint_sum(s, (n - 1) as nat) + ((s[n - 1] % 128) as nat) * pow128((n - 1) as nat)
    }
}

/// The integer at the front of `s` takes `n` bytes.
pub open spec fn varint_ends_at(s: Seq<u8>, n: nat) -> bool {
    &&& 1 <= n <= s.len()
    &&& s[n - 1] < 128
    &&& forall|i: int| 0 <= i < n - 1 ==> s[i] >= 128
}

/// A well-formed integer at the front of `s` that takes `n` bytes.
pub open spec fn varint_valid(s: Seq<u8>, n: nat) -> bool {
    &&& varint_ends_at(s, n)
    &&& n <= 10
    &&& varint_sum(s, n) < 0x1_0000_0000_0000_0000
}

/// The integer at the front of `s` and the bytes it takes, if well formed.
pub open spec fn varint_spec(s: Seq<u8>) -> Option<(u64, nat)> {
    if exists|n: nat| varint_valid(s, n) {
        let n = choose|n: nat| varint_valid(s, n);
        Some((varint_sum(s, n) as u64, n))
    } else {
        None
    }
}

proof fn lemma_ends_unique(s: Seq<u8>, a: nat, b: nat)
    requires
        varint_ends_at(s, a),
        varint_ends_at(s, b),
    ensures
        a == b,
{
    if a < b {
        assert(s[a - 1] >= 128);
    } else if b < a {
        assert(s[b - 1] >= 128);
    }
}

proof fn lemma_pow128_grows(a: nat, b: nat)
    requires
        a <= b,
    ensures
        1 <= pow128(a) <= pow128(b),
    decreases b,
{
    if b > 0 {
        if a < b {
            lemma_pow128_grows(a, (b - 1) as nat);
        } else {
            lemma_pow128_grows(0, (b - 1) as nat);
        }
    }
}

proof fn lemma_sum_below(s: Seq<u8>, n: nat)
    requires
        n <= s.len(),
    ensures
        varint_sum(s, n) < pow128(n),
    decreases n,
{
    if n > 0 {
        lemma_sum_below(s, (n - 1) as nat);
        let p = pow128((n - 1) as nat);
        let d = (s[n - 1] % 128) as nat;
        assert(d * p <= 127 * p) by (nonlinear_arith)
            requires d <= 127;
    }
}

/// Reads the integer that starts at `pos`: its value and the bytes it takes.
pub fn read_varint(s: &[u8], pos: usize) -> (r: Option<(u64, usize)>)
    requires
        pos <= s@.len(),
    ensures
        match r {
            Some((v, n)) => varint_spec(s@.skip(pos as int)) == Some((v, n as nat)) && pos + n <= s@.len(),
            None => varint_spec(s@.skip(pos as int)).is_none(),
        },
{
    let ghost t = s@.skip(pos as int);
    let mut value: u64 = 0;
    let mut scale: u64 = 1;
    let mut i: usize = 0;
    assert(pow128(9) == 0x8000_0000_0000_0000) by {
        reveal_with_fuel(pow128, 10);
    }
    loop
        invariant
            pos <= s@.len(),
            t == s@.skip(pos as int),
            i <= 9,
            i <= t.len(),
            pos + i <= s@.len(),
            forall|j: int| 0 <= j < i ==> t[j] >= 128,
            value as nat == varint_sum(t, i as nat),
            scale as nat == pow128(i as nat),
            pow128(9) == 0x8000_0000_0000_0000,
        decreases 9 - i,
    {
        proof {
            lemma_sum_below(t, i as nat);
            lemma_pow128_grows(i as nat, 9);
        }
        if i >= s.len() - pos {
            assert forall|n: nat| !varint_valid(t, n) by {
                if varint_ends_at(t, n) {
                    assert(t[n - 1] >= 128);
                }
            }
            return None;
        }
        let c = s[pos + i];
        assert(c == t[i as int]);
        if i == 9 && c > 1 {
            assert forall|n: nat| !varint_valid(t, n) by {
                if varint_valid(t, n) {
                    if n < 10 {
                        assert(t[n - 1] >= 128);
                    } else {
                        assert(n == 10);
                        assert(c < 128);
                        let d = (c % 128) as nat;
                        assert(d >= 2);
                        assert(d * 0x8000_0000_0000_0000 >= 2 * 0x8000_0000_0000_0000) by (nonlinear_arith)
                            requires d >= 2;
                        assert(varint_sum(t, 10) == varint_sum(t, 9) + d * pow128(9));
                    }
                }
            }
            return None;
        }
        let d: u64 = (c % 128) as u64;
        proof {
            if i < 9 {
                lemma_pow128_grows((i + 1) as nat, 9);
                assert(pow128((i + 1) as nat) == 128 * pow128(i as nat));
                assert(value + d * scale < 128 * scale) by (nonlinear_arith)
                    requires d <= 127, value < scale;
            } else {
                assert(value + d * scale < 2 * scale) by (nonlinear_arith)
                    requires d <= 1, value < scale;
            }
        }
        let next = value + d * scale;
        assert(next as nat == varint_sum(t, (i + 1) as nat));
        if c < 128 {
            assert(varint_valid(t, (i + 1) as nat));
            proof {
                assert forall|n: nat| varint_valid(t, n) implies n == i + 1 by {
                    lemma_ends_unique(t, n, (i + 1) as nat);
                }
            }
            return Some((next, i + 1));
        }
        assert(i < 9);
        assert(scale * 128 <= 0x8000_0000_0000_0000) by (nonlinear_arith)
            requires scale <= pow128(8), pow128(9) == 128 * pow128(8), pow128(9) == 0x8000_0000_0000_0000;
        value = next;
        scale = scale * 128;
        i = i + 1;
    }
}

} // verus!
