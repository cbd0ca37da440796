//! Little-endian numbers in instruction payloads and in account data.

use vstd::prelude::*;

verus! {

/// The `n` low bytes of `v`, lowest first.
pub open spec fn le_bytes(v: nat, n: nat) -> Seq<u8>
    decreases n,
{
    if n == 0 {
        Seq::empty()
    } else {
        seq![(v % 256) as u8] + le_bytes(v / 256, (n - 1) as nat)
    }
}

/// The number that eight bytes, lowest first, stand for.
pub open spec fn le_value(s: Seq<u8>) -> nat
    recommends
        s.len() == 8,
{
    (s[0] + s[1] * 0x100 + s[2] * 0x1_0000 + s[3] * 0x100_0000 + s[4] * 0x1_0000_0000 + s[5]
        * 0x100_0000_0000 + s[6] * 0x1_0000_0000_0000 + s[7] * 0x100_0000_0000_0000) as nat
}

/// The unsigned number with the bits of `x` in 64-bit two's complement.
pub open spec fn twos_complement(x: int) -> nat {
    if x >= 0 {
        x as nat
    } else {
        (x + 0x1_0000_0000_0000_0000) as nat
    }
}

/// The signed number with the bits of `u` in 64-bit two's complement.
pub open spec fn signed_value(u: nat) -> int {
    if u < 0x8000_0000_0000_0000 {
        u as int
    } else {
        u - 0x1_0000_0000_0000_0000
    }
}

pub proof fn lemma_le_bytes_len(v: nat, n: nat)
    ensures
        le_bytes(v, n).len() == n,
    decreases n,
{
    if n > 0 {
        lemma_le_bytes_len(v / 256, (n - 1) as nat);
    }
}

/// Appends the `n` low bytes of `x`, lowest first.
pub fn push_le(data: &mut Vec<u8>, x: u128, n: usize)
    ensures
        final(data)@ == old(data)@ + le_bytes(x as nat, n as nat),
        final(data)@.len() == old(data)@.len() + n,
{
    let ghost start = data@;
    let mut rest: u128 = x;
    let mut i: usize = 0;
    let ghost mut done: Seq<u8> = Seq::empty();
    proof {
        assert(data@ =~= start + done);
        assert(done + le_bytes(x as nat, n as nat) =~= le_bytes(x as nat, n as nat));
    }
    while i < n
        invariant
            i <= n,
            data@ == start + done,
            done.len() == i,
            done + le_bytes(rest as nat, (n - i) as nat) == le_bytes(x as nat, n as nat),
        decreases n - i,
    {
        let b: u8 = (rest % 256) as u8;
        data.push(b);
        proof {
            let grown = done.push(b);
            assert(data@ =~= start + grown);
            assert(le_bytes(rest as nat, (n - i) as nat) == seq![b] + le_bytes(
                (rest / 256) as nat,
                (n - i - 1) as nat,
            ));
            assert(grown + le_bytes((rest / 256) as nat, (n - (i + 1)) as nat) =~= done + le_bytes(
                rest as nat,
                (n - i) as nat,
            ));
            done = grown;
        }
        rest = rest / 256;
        i = i + 1;
    }
    proof {
        assert(done + le_bytes(rest as nat, 0) =~= done);
        lemma_le_bytes_len(x as nat, n as nat);
    }
}

/// Appends `bytes`.
pub fn push_bytes(data: &mut Vec<u8>, bytes: &[u8])
    ensures
        final(data)@ == old(data)@ + bytes@,
{
    let mut i: usize = 0;
    while i < bytes.len()
        invariant
            i <= bytes.len(),
            data@ == old(data)@ + bytes@.subrange(0, i as int),
        decreases bytes.len() - i,
    {
        data.push(bytes[i]);
        proof {
            assert(data@ =~= old(data)@ + bytes@.subrange(0, i + 1));
        }
        i = i + 1;
    }
    proof {
        assert(bytes@.subrange(0, bytes@.len() as int) =~= bytes@);
    }
}

/// The bits of `x` as an unsigned number.
pub fn to_twos_complement(x: i64) -> (u: u64)
    ensures
        u == twos_complement(x as int),
{
    if x >= 0 {
        x as u64
    } else {
        let low: u64 = (x - i64::MIN) as u64;
        low + 0x8000_0000_0000_0000
    }
}

/// The bits of `u` as a signed number.
pub fn from_twos_complement(u: u64) -> (x: i64)
    ensures
        x == signed_value(u as nat),
{
    if u < 0x8000_0000_0000_0000 {
        u as i64
    } else {
        let low: i64 = (u - 0x8000_0000_0000_0000) as i64;
        low + i64::MIN
    }
}

/// The number held in the eight bytes of `data` from `at` on, lowest first, where `data`
/// holds them.
pub fn read_u64_le(data: &[u8], at: usize) -> (r: Option<u64>)
    ensures
        match r {
            Some(v) => at + 8 <= data@.len() && v == le_value(data@.subrange(at as int, at + 8)),
            None => at + 8 > data@.len(),
        },
{
    if data.len() < 8 || at > data.len() - 8 {
        return None;
    }
    let ghost s = data@.subrange(at as int, at + 8);
    proof {
        assert(s[0] == data@[at + 0] && s[1] == data@[at + 1] && s[2] == data@[at + 2] && s[3]
            == data@[at + 3] && s[4] == data@[at + 4] && s[5] == data@[at + 5] && s[6] == data@[at
            + 6] && s[7] == data@[at + 7]);
    }
    let b0: u64 = data[at] as u64;
    let b1: u64 = data[at + 1] as u64;
    let b2: u64 = data[at + 2] as u64;
    let b3: u64 = data[at + 3] as u64;
    let b4: u64 = data[at + 4] as u64;
    let b5: u64 = data[at + 5] as u64;
    let b6: u64 = data[at + 6] as u64;
    let b7: u64 = data[at + 7] as u64;
    Some(
        b0 + b1 * 0x100 + b2 * 0x1_0000 + b3 * 0x100_0000 + b4 * 0x1_0000_0000 + b5
            * 0x100_0000_0000 + b6 * 0x1_0000_0000_0000 + b7 * 0x100_0000_0000_0000,
    )
}

/// The signed number held in the eight bytes of `data` from `at` on, lowest first, where
/// `data` holds them.
pub fn read_i64_le(data: &[u8], at: usize) -> (r: Option<i64>)
    ensures
        match r {
            Some(v) => at + 8 <= data@.len() && v == signed_value(
                le_value(data@.subrange(at as int, at + 8)),
            ),
            None => at + 8 > data@.len(),
        },
{
    match read_u64_le(data, at) {
        Some(u) => Some(from_twos_complement(u)),
        None => None,
    }
}

} // verus!
