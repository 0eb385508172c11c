//! Byte-level encoding helpers shared by the validators: big-endian integer
//! encoding, the CBOR framing used for message roots and draw entropy, and
//! the unsigned-varint payload of identifier addresses.

use vstd::prelude::*;

verus! {

/// The byte sequences held by a list of byte vectors, in order.
pub open spec fn bytes_seq_view(v: Seq<Vec<u8>>) -> Seq<Seq<u8>> {
    Seq::new(v.len(), |i: int| v[i]@)
}

/// Big-endian bytes of a 64-bit value: byte `i` is digit `7 - i` in base 256.
pub open spec fn u64_be_bytes(x: u64) -> Seq<u8> {
    seq![
        ((x / 0x100000000000000) % 0x100) as u8,
        ((x / 0x1000000000000) % 0x100) as u8,
        ((x / 0x10000000000) % 0x100) as u8,
        ((x / 0x100000000) % 0x100) as u8,
        ((x / 0x1000000) % 0x100) as u8,
        ((x / 0x10000) % 0x100) as u8,
        ((x / 0x100) % 0x100) as u8,
        (x % 0x100) as u8,
    ]
}

/// The two's-complement 64-bit image of a signed epoch or tag value.
pub open spec fn twos_complement_u64(x: i64) -> u64 {
    if x >= 0 {
        x as u64
    } else {
        (x + 0x10000000000000000) as u64
    }
}

/// Two's-complement image of an unbounded integer, for spec-level totality.
pub open spec fn wrap_u64(x: int) -> u64 {
    if 0 <= x < 0x10000000000000000 {
        x as u64
    } else if 0 <= x + 0x10000000000000000 < 0x10000000000000000 {
        (x + 0x10000000000000000) as u64
    } else {
        0
    }
}

pub fn u64_to_be_bytes(x: u64) -> (r: Vec<u8>)
    ensures
        r@ == u64_be_bytes(x),
{
    let mut r: Vec<u8> = Vec::new();
    r.push(((x / 0x100000000000000) % 0x100) as u8);
    r.push(((x / 0x1000000000000) % 0x100) as u8);
    r.push(((x / 0x10000000000) % 0x100) as u8);
    r.push(((x / 0x100000000) % 0x100) as u8);
    r.push(((x / 0x1000000) % 0x100) as u8);
    r.push(((x / 0x10000) % 0x100) as u8);
    r.push(((x / 0x100) % 0x100) as u8);
    r.push((x % 0x100) as u8);
    proof {
        assert(r@ =~= u64_be_bytes(x));
    }
    r
}

pub fn i64_to_u64_twos_complement(x: i64) -> (r: u64)
    ensures
        r == twos_complement_u64(x),
{
    if x >= 0 {
        x as u64
    } else {
        let y: i128 = (x as i128) + 0x10000000000000000i128;
        y as u64
    }
}

/// Appends all of `src` onto `dst`.
pub fn append_bytes(dst: &mut Vec<u8>, src: &Vec<u8>)
    ensures
        final(dst)@ == old(dst)@ + src@,
{
    let n = src.len();
    let mut i: usize = 0;
    while i < n
        invariant
            n == src@.len(),
            i <= n,
            dst@ == old(dst)@ + src@.subrange(0, i as int),
        decreases n - i,
    {
        dst.push(src[i]);
        i = i + 1;
        proof {
            assert(old(dst)@ + src@.subrange(0, i - 1) + seq![src@[i - 1]] =~= old(dst)@
                + src@.subrange(0, i as int));
        }
    }
    proof {
        assert(src@.subrange(0, n as int) =~= src@);
    }
}

/// The bytes of `v` from `from` (inclusive) to `to` (exclusive).
pub fn subvec(v: &Vec<u8>, from: usize, to: usize) -> (r: Vec<u8>)
    requires
        from <= to <= v@.len(),
    ensures
        r@ == v@.subrange(from as int, to as int),
{
    let mut r: Vec<u8> = Vec::new();
    let mut i: usize = from;
    while i < to
        invariant
            from <= i <= to <= v@.len(),
            r@ == v@.subrange(from as int, i as int),
        decreases to - i,
    {
        r.push(v[i]);
        i = i + 1;
        proof {
            assert(v@.subrange(from as int, i - 1).push(v@[i - 1]) =~= v@.subrange(
                from as int,
                i as int,
            ));
        }
    }
    r
}

/// Whether two byte vectors hold the same bytes.
pub fn bytes_eq(a: &Vec<u8>, b: &Vec<u8>) -> (r: bool)
    ensures
        r == (a@ == b@),
{
    let r = a == b;
    proof {
        if r {
            assert(a@ =~= b@);
        } else if a@ == b@ {
            assert(a@ =~= b@);
            assert(false);
        }
    }
    r
}

/// An owned copy of a byte vector.
pub fn clone_bytes(v: &Vec<u8>) -> (r: Vec<u8>)
    ensures
        r@ == v@,
{
    let r = subvec(v, 0, v.len());
    proof {
        assert(v@.subrange(0, v@.len() as int) =~= v@);
    }
    r
}

/// CBOR header introducing a byte string of the given length (major type 2).
pub open spec fn cbor_bytes_header(len: nat) -> Seq<u8> {
    if len < 24 {
        seq![(0x40 + len) as u8]
    } else if len < 0x100 {
        seq![0x58u8, len as u8]
    } else if len < 0x10000 {
        seq![0x59u8, (len / 0x100) as u8, (len % 0x100) as u8]
    } else if len < 0x100000000 {
        seq![
            0x5au8,
            (len / 0x1000000) as u8,
            ((len / 0x10000) % 0x100) as u8,
            ((len / 0x100) % 0x100) as u8,
            (len % 0x100) as u8,
        ]
    } else {
        seq![0x5bu8] + u64_be_bytes(len as u64)
    }
}

/// CBOR encoding of a byte string: header followed by the payload itself.
pub open spec fn cbor_bytes_enc(p: Seq<u8>) -> Seq<u8> {
    cbor_bytes_header(p.len()) + p
}

pub fn cbor_encode_bytes(p: &Vec<u8>) -> (r: Vec<u8>)
    ensures
        r@ == cbor_bytes_enc(p@),
{
    let n = p.len();
    let mut r: Vec<u8> = Vec::new();
    if n < 24 {
        r.push(0x40 + (n as u8));
    } else if n < 0x100 {
        r.push(0x58u8);
        r.push(n as u8);
    } else if n < 0x10000 {
        r.push(0x59u8);
        r.push((n / 0x100) as u8);
        r.push((n % 0x100) as u8);
    } else if (n as u64) < 0x100000000u64 {
        r.push(0x5au8);
        r.push((n / 0x1000000) as u8);
        r.push(((n / 0x10000) % 0x100) as u8);
        r.push(((n / 0x100) % 0x100) as u8);
        r.push((n % 0x100) as u8);
    } else {
        r.push(0x5bu8);
        let mut be = u64_to_be_bytes(n as u64);
        r.append(&mut be);
    }
    proof {
        assert(r@ =~= cbor_bytes_header(p@.len()));
    }
    append_bytes(&mut r, p);
    proof {
        assert(r@ =~= cbor_bytes_enc(p@));
    }
    r
}

/// Value of the little-endian base-128 varint starting at `i`: the low seven
/// bits of each byte, least significant first, ending at the first byte
/// without its continuation bit.
pub open spec fn uvarint_val(s: Seq<u8>, i: int) -> Option<int>
    decreases s.len() - i,
{
    if i < 0 || i >= s.len() {
        None
    } else if s[i] < 0x80 {
        Some(s[i] as int)
    } else {
        match uvarint_val(s, i + 1) {
            None => None,
            Some(rest) => Some((s[i] - 0x80) + 128 * rest),
        }
    }
}

/// Value of the varint suffix of `s` starting at `i`, when it fits in 64
/// bits.
pub fn uvarint_suffix(s: &Vec<u8>, i: usize) -> (r: Option<u64>)
    requires
        i <= s@.len(),
    ensures
        match r {
            Some(x) => uvarint_val(s@, i as int) == Some(x as int),
            None => match uvarint_val(s@, i as int) {
                None => true,
                Some(v) => v > u64::MAX,
            },
        },
    decreases s@.len() - i,
{
    if i >= s.len() {
        None
    } else {
        let b = s[i];
        if b < 0x80 {
            Some(b as u64)
        } else {
            match uvarint_suffix(s, i + 1) {
                None => {
                    proof {
                        let sv = uvarint_val(s@, i as int + 1);
                        if sv is Some {
                            assert((s@[i as int] - 0x80) + 128 * sv->Some_0 > u64::MAX);
                        }
                    }
                    None
                },
                Some(rest) => {
                    let v: u128 = ((b - 0x80) as u128) + 128u128 * (rest as u128);
                    if v > u64::MAX as u128 {
                        None
                    } else {
                        Some(v as u64)
                    }
                },
            }
        }
    }
}

/// An identifier address: the zero protocol byte followed by exactly one
/// minimally-encoded varint (every byte but the last carries the
/// continuation bit, the last does not and is nonzero unless it is alone).
pub open spec fn is_id_address(a: Seq<u8>) -> bool {
    &&& a.len() >= 2
    &&& a[0] == 0
    &&& (forall|j: int| 1 <= j < a.len() - 1 ==> a[j] >= 0x80)
    &&& a[a.len() - 1] < 0x80
    &&& (a[a.len() - 1] != 0 || a.len() == 2)
}

/// The numeric actor identifier carried by an identifier address, if the
/// bytes are one and its value fits in 64 bits.
pub open spec fn miner_id_spec(a: Seq<u8>) -> Option<u64> {
    if !is_id_address(a) {
        None
    } else {
        match uvarint_val(a, 1) {
            None => None,
            Some(v) => if 0 <= v <= u64::MAX {
                Some(v as u64)
            } else {
                None
            },
        }
    }
}

/// Reads the numeric actor identifier out of an address: the address must be
/// an identifier address and its varint payload must fit in 64 bits.
pub fn miner_id(addr: &Vec<u8>) -> (r: Option<u64>)
    ensures
        r == miner_id_spec(addr@),
{
    let n = addr.len();
    if n < 2 || addr[0] != 0 {
        return None;
    }
    let mut j: usize = 1;
    while j < n - 1
        invariant
            2 <= n == addr@.len(),
            1 <= j <= n - 1,
            forall|k: int| 1 <= k < j ==> addr@[k] >= 0x80,
        decreases n - 1 - j,
    {
        if addr[j] < 0x80 {
            return None;
        }
        j = j + 1;
    }
    if addr[n - 1] >= 0x80 {
        return None;
    }
    if addr[n - 1] == 0 && n != 2 {
        return None;
    }
    uvarint_suffix(addr, 1)
}

} // verus!
