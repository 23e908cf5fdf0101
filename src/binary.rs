use vstd::prelude::*;

verus! {

/// `128` to the power `k`.
pub open spec fn pow128(k: nat) -> nat
    decreases k,
{
    if k == 0 {
        1
    } else {
        128 * pow128((k - 1) as nat)
    }
}

/// The little-endian base-128 value of the `k` bytes from `pos`, each
/// contributing its low seven bits.
pub open spec fn leb_value(b: Seq<u8>, pos: int, k: nat) -> nat
    decreases k,
{
    if k == 0 {
        0
    } else {
        leb_value(b, pos, (k - 1) as nat) + ((b[pos + k - 1] % 128) as nat) * pow128((k - 1) as nat)
    }
}

/// The length of the unsigned LEB128 number that starts at `pos`, counting
/// from its `k`-th byte: `None` where it runs past the end or past five
/// bytes.
pub open spec fn leb_len(b: Seq<u8>, pos: int, k: nat) -> Option<nat>
    decreases 5 - k,
{
    if k >= 5 || pos + k >= b.len() {
        None
    } else if b[pos + k] < 128 {
        Some(k + 1)
    } else {
        leb_len(b, pos, k + 1)
    }
}

/// Whether a top-level section at or after `pos` is a core module (section
/// id 1). A section is its id byte, its size as unsigned LEB128, and that
/// many bytes of content; a malformed size ends the walk.
pub open spec fn core_module_from(b: Seq<u8>, pos: int) -> bool
    decreases b.len() - pos,
{
    if pos < 0 || pos >= b.len() {
        false
    } else if b[pos] == 1u8 {
        true
    } else {
        match leb_len(b, pos + 1, 0) {
            None => false,
            Some(n) => {
                let next = pos + 1 + n + leb_value(b, pos + 1, n);
                if next >= b.len() {
                    false
                } else {
                    core_module_from(b, next)
                }
            },
        }
    }
}

/// The component holds a core module among its top-level sections, which
/// follow the eight-byte preamble.
pub open spec fn holds_core_module(b: Seq<u8>) -> bool {
    core_module_from(b, 8)
}

proof fn pow128_bound(k: nat)
    requires
        k <= 5,
    ensures
        pow128(k) <= 0x8_0000_0000,
        k <= 4 ==> pow128(k) <= 0x1000_0000,
{
    reveal_with_fuel(pow128, 6);
}

/// Reads the unsigned LEB128 number at `pos`: its byte length and value.
fn read_leb(b: &Vec<u8>, pos: usize) -> (r: Option<(usize, u64)>)
    requires
        pos <= b@.len(),
    ensures
        match r {
            None => leb_len(b@, pos as int, 0) is None,
            Some((n, v)) => leb_len(b@, pos as int, 0) == Some(n as nat) && v as nat == leb_value(
                b@,
                pos as int,
                n as nat,
            ),
        },
{
    let mut k: usize = 0;
    let mut acc: u64 = 0;
    let mut mult: u64 = 1;
    while k < 5
        invariant
            pos <= b@.len(),
            k <= 5,
            leb_len(b@, pos as int, 0) == leb_len(b@, pos as int, k as nat),
            acc as nat == leb_value(b@, pos as int, k as nat),
            k < 5 ==> mult as nat == pow128(k as nat),
            acc < pow128(k as nat),
        decreases 5 - k,
    {
        if pos >= b.len() || k >= b.len() - pos {
            return None;
        }
        let byte = b[pos + k];
        proof {
            pow128_bound(k as nat);
            pow128_bound((k + 1) as nat);
            let p = pow128(k as nat);
            assert(pow128((k + 1) as nat) == 128 * p);
            assert(acc + (byte % 128) as nat * p < 128 * p) by (nonlinear_arith)
                requires
                    acc < p,
                    (byte % 128) < 128,
            ;
        }
        acc = acc + ((byte % 128) as u64) * mult;
        if byte < 128 {
            return Some((k + 1, acc));
        }
        k = k + 1;
        if k < 5 {
            proof {
                pow128_bound(k as nat);
            }
            mult = mult * 128;
        }
    }
    None
}

/// Whether the component holds a core module among its top-level sections.
pub fn has_core_module(b: &Vec<u8>) -> (r: bool)
    ensures
        r == holds_core_module(b@),
{
    let mut pos: u64 = 8;
    while pos < b.len() as u64
        invariant
            8 <= pos,
            holds_core_module(b@) == core_module_from(b@, pos as int),
        decreases b@.len() - pos,
    {
        let p = pos as usize;
        if b[p] == 1u8 {
            return true;
        }
        match read_leb(b, p + 1) {
            None => return false,
            Some((n, v)) => {
                let next: u128 = pos as u128 + 1 + n as u128 + v as u128;
                if next >= b.len() as u128 {
                    return false;
                }
                pos = next as u64;
            },
        }
    }
    false
}

} // verus!
