//! The byte formats of Bitcoin's consensus encoding, as far as the library
//! reads and writes them: little-endian integers, compact sizes, and byte
//! strings with a compact size in front.

use vstd::prelude::*;

verus! {

/// The `len` low bytes of `n`, the least significant byte first.
pub open spec fn le_bytes(n: nat, len: nat) -> Seq<u8>
    decreases len,
{
    if len == 0 {
        Seq::empty()
    } else {
        seq![(n % 256) as u8] + le_bytes(n / 256, (len - 1) as nat)
    }
}

/// The number whose little-endian digits to base 256 are `s`.
pub open spec fn le_value(s: Seq<u8>) -> nat
    decreases s.len(),
{
    if s.len() == 0 {
        0
    } else {
        s[0] as nat + 256 * le_value(s.skip(1))
    }
}

/// The two's complement pattern of a signed version number.
pub open spec fn twos_complement(v: i32) -> nat {
    if v >= 0 {
        v as nat
    } else {
        (v + 0x1_0000_0000) as nat
    }
}

/// The signed number that a two's complement pattern of four bytes stands for.
pub open spec fn signed_value(pattern: nat) -> i32 {
    if pattern < 0x8000_0000 {
        pattern as i32
    } else {
        (pattern - 0x1_0000_0000) as i32
    }
}

/// A compact size: one byte for small numbers, and a marker byte with two,
/// four or eight little-endian bytes for larger ones.
pub open spec fn compact_size(n: nat) -> Seq<u8> {
    if n < 0xfd {
        seq![n as u8]
    } else if n < 0x1_0000 {
        seq![0xfdu8] + le_bytes(n, 2)
    } else if n < 0x1_0000_0000 {
        seq![0xfeu8] + le_bytes(n, 4)
    } else {
        seq![0xffu8] + le_bytes(n, 8)
    }
}

/// A byte string with its length in front.
pub open spec fn sized_bytes(s: Seq<u8>) -> Seq<u8> {
    compact_size(s.len()) + s
}

/// Reads a little-endian number of `len` bytes off the front of `s`; gives the
/// number and what is left of `s`.
pub open spec fn read_le(s: Seq<u8>, len: nat) -> Option<(nat, Seq<u8>)> {
    if s.len() < len {
        None
    } else {
        Some((le_value(s.take(len as int)), s.skip(len as int)))
    }
}

/// Reads a compact size off the front of `s`. A number that a shorter form
/// could hold is refused.
pub open spec fn read_compact_size(s: Seq<u8>) -> Option<(nat, Seq<u8>)> {
    if s.len() == 0 {
        None
    } else {
        let tail = s.skip(1);
        if s[0] < 0xfd {
            Some((s[0] as nat, tail))
        } else {
            let width: nat = if s[0] == 0xfd {
                2
            } else if s[0] == 0xfe {
                4
            } else {
                8
            };
            let least: nat = if s[0] == 0xfd {
                0xfd
            } else if s[0] == 0xfe {
                0x1_0000
            } else {
                0x1_0000_0000
            };
            match read_le(tail, width) {
                Some((n, rest)) if n >= least => Some((n, rest)),
                _ => None,
            }
        }
    }
}

/// Reads a byte string with its length in front off the front of `s`. The
/// length is taken in the width of the machine's `usize`.
pub open spec fn read_sized_bytes(s: Seq<u8>) -> Option<(Seq<u8>, Seq<u8>)> {
    match read_compact_size(s) {
        Some((n, rest)) => {
            let len = (n as u64) as usize as int;
            if rest.len() < len {
                None
            } else {
                Some((rest.take(len), rest.skip(len)))
            }
        },
        None => None,
    }
}

pub proof fn lemma_le_bytes_len(n: nat, len: nat)
    ensures
        le_bytes(n, len).len() == len,
    decreases len,
{
    if len > 0 {
        lemma_le_bytes_len(n / 256, (len - 1) as nat);
    }
}

/// The value of the `len` low bytes of a number below `256^len` is the number.
pub proof fn lemma_le_value_of_bytes(n: nat, len: nat)
    requires
        n < vstd::arithmetic::power::pow(256, len),
    ensures
        le_value(le_bytes(n, len)) == n,
    decreases len,
{
    reveal(vstd::arithmetic::power::pow);
    if len > 0 {
        let m = (len - 1) as nat;
        lemma_le_bytes_len(n / 256, m);
        assert(n / 256 < vstd::arithmetic::power::pow(256, m)) by (nonlinear_arith)
            requires
                n < 256 * vstd::arithmetic::power::pow(256, m),
        ;
        lemma_le_value_of_bytes(n / 256, m);
        assert(le_bytes(n, len).skip(1) =~= le_bytes(n / 256, m));
    }
}

/// A little-endian number is read back as it was written, whatever follows it.
pub proof fn law_read_le_of_bytes(n: nat, len: nat, rest: Seq<u8>)
    requires
        n < vstd::arithmetic::power::pow(256, len),
    ensures
        read_le(le_bytes(n, len) + rest, len) == Some((n, rest)),
{
    lemma_le_bytes_len(n, len);
    lemma_le_value_of_bytes(n, len);
    let s = le_bytes(n, len) + rest;
    assert(s.take(len as int) =~= le_bytes(n, len));
    assert(s.skip(len as int) =~= rest);
}

pub proof fn lemma_pow256()
    ensures
        vstd::arithmetic::power::pow(256, 1) == 0x100,
        vstd::arithmetic::power::pow(256, 2) == 0x1_0000,
        vstd::arithmetic::power::pow(256, 4) == 0x1_0000_0000,
        vstd::arithmetic::power::pow(256, 8) == 0x1_0000_0000_0000_0000,
{
    reveal(vstd::arithmetic::power::pow);
    reveal_with_fuel(vstd::arithmetic::power::pow, 9);
}

/// A compact size is read back as it was written, whatever follows it.
pub proof fn law_read_compact_size(n: nat, rest: Seq<u8>)
    requires
        n <= u64::MAX,
    ensures
        read_compact_size(compact_size(n) + rest) == Some((n, rest)),
{
    lemma_pow256();
    let s = compact_size(n) + rest;
    if n < 0xfd {
        assert(s.skip(1) =~= rest);
    } else {
        let width: nat = if n < 0x1_0000 {
            2
        } else if n < 0x1_0000_0000 {
            4
        } else {
            8
        };
        lemma_le_bytes_len(n, width);
        assert(s.skip(1) =~= le_bytes(n, width) + rest);
        law_read_le_of_bytes(n, width, rest);
    }
}

/// A byte string is read back as it was written, whatever follows it.
pub proof fn law_read_sized_bytes(data: Seq<u8>, rest: Seq<u8>)
    requires
        data.len() <= usize::MAX,
    ensures
        read_sized_bytes(sized_bytes(data) + rest) == Some((data, rest)),
{
    let s = sized_bytes(data) + rest;
    assert(s =~= compact_size(data.len()) + (data + rest));
    law_read_compact_size(data.len(), data + rest);
    assert((data + rest).take(data.len() as int) =~= data);
    assert((data + rest).skip(data.len() as int) =~= rest);
}

/// Writes `n` as four little-endian bytes.
pub fn u32_to_le_bytes(n: u32) -> (r: Vec<u8>)
    ensures
        r@ == le_bytes(n as nat, 4),
{
    let b0: u32 = n % 256;
    let b1: u32 = (n / 256) % 256;
    let b2: u32 = (n / 65536) % 256;
    let b3: u32 = n / 16777216;
    proof {
        reveal_with_fuel(le_bytes, 5);
        let n = n as nat;
        assert(n / 256 / 256 == n / 65536);
        assert(n / 65536 / 256 == n / 16777216);
        assert(n / 16777216 < 256);
    }
    let r: Vec<u8> = vec![b0 as u8, b1 as u8, b2 as u8, b3 as u8];
    assert(r@ =~= le_bytes(n as nat, 4));
    r
}

} // verus!
