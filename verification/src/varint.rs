//! Base-128 variable-length integers, the number format of the message encoding.
//!
//! A number is written seven bits at a time, least significant group first;
//! every byte but the last has its top bit set. A reader accepts at most ten
//! bytes and a value below 2^64, and it accepts padded forms (`0x80 0x00`
//! reads as zero) although the writer never produces them.
use vstd::prelude::*;

verus! {

/// The bytes that `v` is written as.
pub open spec fn varint(v: nat) -> Seq<u8>
    decreases v,
{
    if v < 128 {
        seq![v as u8]
    } else {
        seq![(v % 128 + 128) as u8] + varint(v / 128)
    }
}

/// Reads one number from the front of `bytes`, looking at no more than
/// `budget` bytes: the number and how many bytes it took.
pub open spec fn scan_varint(bytes: Seq<u8>, budget: nat) -> Option<(nat, nat)>
    decreases budget,
{
    if budget == 0 || bytes.len() == 0 {
        None
    } else if bytes[0] < 128 {
        Some((bytes[0] as nat, 1nat))
    } else {
        match scan_varint(bytes.drop_first(), (budget - 1) as nat) {
            Some((v, n)) => Some((((bytes[0] - 128) + 128 * v) as nat, n + 1)),
            None => None,
        }
    }
}

/// What a reader makes of the front of `bytes`: a 64-bit number and the
/// count of bytes it occupied, or nothing where the bytes end early, run
/// past ten, or spell a value that 64 bits cannot hold.
pub open spec fn read_varint(bytes: Seq<u8>) -> Option<(u64, nat)> {
    match scan_varint(bytes, 10) {
        Some((v, n)) => if v <= u64::MAX {
            Some((v as u64, n))
        } else {
            None
        },
        None => None,
    }
}

/// 128 to the power `k`.
pub open spec fn radix(k: nat) -> nat
    decreases k,
{
    if k == 0 {
        1
    } else {
        128 * radix((k - 1) as nat)
    }
}

/// A number below `128^k` is written in at most `k` bytes, and at least one.
pub proof fn lemma_varint_len(v: nat, k: nat)
    requires
        k >= 1,
        v < radix(k),
    ensures
        1 <= varint(v).len() <= k,
    decreases k,
{
    reveal_with_fuel(radix, 2);
    if v >= 128 {
        assert(k >= 2);
        assert(v / 128 < radix((k - 1) as nat));
        lemma_varint_len(v / 128, (k - 1) as nat);
    }
}

/// Every 64-bit number is written in at most ten bytes.
pub proof fn lemma_varint_len_u64(v: u64)
    ensures
        1 <= varint(v as nat).len() <= 10,
{
    reveal_with_fuel(radix, 11);
    lemma_varint_len(v as nat, 10);
}

/// Scanning what was written, whatever follows it, gives the number back.
pub proof fn lemma_scan_written(v: nat, rest: Seq<u8>, budget: nat)
    requires
        varint(v).len() <= budget,
    ensures
        scan_varint(varint(v) + rest, budget) == Some((v, varint(v).len())),
    decreases v,
{
    let all = varint(v) + rest;
    if v >= 128 {
        let tail = varint(v / 128);
        assert(all.drop_first() =~= tail + rest);
        lemma_scan_written(v / 128, rest, (budget - 1) as nat);
        assert(all[0] == (v % 128 + 128) as u8);
        assert((all[0] - 128) + 128 * (v / 128) == v);
    } else {
        assert(all[0] == v as u8);
    }
}

/// Reading a written 64-bit number, whatever follows it, gives it back.
pub proof fn lemma_read_written(v: u64, rest: Seq<u8>)
    ensures
        read_varint(varint(v as nat) + rest) == Some((v, varint(v as nat).len())),
{
    lemma_varint_len_u64(v);
    lemma_scan_written(v as nat, rest, 10);
}

/// A successful scan consumed between one byte and its budget, all of them
/// present, and its value is below `128` to the count of bytes.
pub proof fn lemma_scan_bounds(bytes: Seq<u8>, budget: nat)
    ensures
        match scan_varint(bytes, budget) {
            Some((v, n)) => 1 <= n <= budget && n <= bytes.len() && v < radix(n),
            None => true,
        },
    decreases budget,
{
    reveal_with_fuel(radix, 2);
    if budget != 0 && bytes.len() != 0 && bytes[0] >= 128 {
        lemma_scan_bounds(bytes.drop_first(), (budget - 1) as nat);
    }
}

/// A successful read consumed between one and ten bytes, all of them present.
pub proof fn lemma_read_bounds(bytes: Seq<u8>)
    ensures
        match read_varint(bytes) {
            Some((v, n)) => 1 <= n <= 10 && n <= bytes.len(),
            None => true,
        },
{
    lemma_scan_bounds(bytes, 10);
}

/// Appends `value` in its written form.
pub fn put_varint(out: &mut Vec<u8>, value: u64)
    ensures
        final(out)@ == old(out)@ + varint(value as nat),
{
    let mut v: u64 = value;
    while v >= 128
        invariant
            out@ + varint(v as nat) == old(out)@ + varint(value as nat),
        decreases v,
    {
        let ghost before = out@;
        let low: u64 = v % 128 + 128;
        out.push(low as u8);
        proof {
            assert(before.push(low as u8) + varint((v / 128) as nat) =~= before + varint(v as nat));
        }
        v = v / 128;
    }
    let ghost before = out@;
    out.push(v as u8);
    proof {
        assert(before.push(v as u8) =~= before + varint(v as nat));
    }
}

/// How a partial scan combines with the scan of what is left: `acc` gathered
/// from `taken` bytes, each further group weighted by `scale`.
pub open spec fn resume(acc: nat, scale: nat, taken: nat, rest: Option<(nat, nat)>) -> Option<
    (nat, nat),
> {
    match rest {
        Some((v, n)) => Some((acc + scale * v, n + taken)),
        None => None,
    }
}

proof fn lemma_resume_step(acc: nat, scale: nat, low: nat, v: nat)
    ensures
        acc + scale * (low + 128 * v) == (acc + scale * low) + (128 * scale) * v,
{
    assert(scale * (low + 128 * v) == scale * low + (128 * scale) * v) by (nonlinear_arith);
}

/// Reads one number at `start`: the number and the position after it.
pub fn take_varint(bytes: &[u8], start: usize) -> (r: Option<(u64, usize)>)
    requires
        start <= bytes.len(),
    ensures
        match read_varint(bytes@.skip(start as int)) {
            Some((v, n)) => r == Some((v, (start + n) as usize)),
            None => r is None,
        },
{
    let ghost s = bytes@.skip(start as int);
    let mut acc: u64 = 0;
    let mut scale: u64 = 1;
    let mut i: usize = 0;
    proof {
        assert(s.skip(0) =~= s);
        reveal_with_fuel(radix, 11);
    }
    while i < 10
        invariant
            i <= 10,
            start <= bytes.len(),
            s == bytes@.skip(start as int),
            i <= s.len(),
            scale == radix(i as nat),
            acc < scale,
            scan_varint(s, 10) == resume(
                acc as nat,
                scale as nat,
                i as nat,
                scan_varint(s.skip(i as int), (10 - i) as nat),
            ),
        decreases 10 - i,
    {
        proof {
            reveal_with_fuel(radix, 11);
        }
        if i >= bytes.len() - start {
            return None;
        }
        let b: u8 = bytes[start + i];
        let ghost here = s.skip(i as int);
        assert(here[0] == b);
        assert(here.drop_first() =~= s.skip(i + 1));
        if b < 128 {
            if i == 9 && b >= 2 {
                proof {
                    assert(scale * (b as nat) >= scale * 2) by (nonlinear_arith)
                        requires
                            b >= 2,
                    ;
                }
                return None;
            }
            proof {
                assert(scale * (b as nat) <= scale * 127) by (nonlinear_arith)
                    requires
                        b <= 127,
                ;
                if i == 9 {
                    assert(scale * (b as nat) <= scale * 1) by (nonlinear_arith)
                        requires
                            b <= 1,
                    ;
                }
            }
            let value: u64 = acc + scale * (b as u64);
            return Some((value, start + i + 1));
        }
        if i == 9 {
            return None;
        }
        let low: u64 = (b - 128) as u64;
        proof {
            assert(scale * (low as nat) <= scale * 127) by (nonlinear_arith)
                requires
                    low <= 127,
            ;
            match scan_varint(s.skip(i + 1), (9 - i) as nat) {
                Some((v, n)) => {
                    lemma_resume_step(acc as nat, scale as nat, low as nat, v);
                },
                None => {},
            }
        }
        acc = acc + scale * low;
        scale = scale * 128;
        i = i + 1;
    }
    None
}

} // verus!
