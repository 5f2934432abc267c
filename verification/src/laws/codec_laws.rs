//! What is read is what is written: the converse of reading back.

use vstd::prelude::*;

use crate::codec;

verus! {

/// Little-endian numbers: nothing is zero, and a byte in front is the lowest
/// digit.
pub proof fn law_little_endian(b: u8, s: Seq<u8>)
    ensures
        codec::le_value(Seq::empty()) == 0,
        codec::le_value(seq![b] + s) == b + 256 * codec::le_value(s),
{
    assert((seq![b] + s).skip(1) =~= s);
}

/// Bytes are the little-endian form of the number that they stand for, and no
/// number that needs more bytes.
pub proof fn law_le_bytes_of_value(s: Seq<u8>)
    ensures
        codec::le_bytes(codec::le_value(s), s.len()) == s,
        codec::le_value(s) < vstd::arithmetic::power::pow(256, s.len()),
    decreases s.len(),
{
    reveal(vstd::arithmetic::power::pow);
    if s.len() == 0 {
        assert(codec::le_bytes(codec::le_value(s), s.len()) =~= s);
    } else {
        let tail = s.skip(1);
        law_le_bytes_of_value(tail);
        let high = codec::le_value(tail);
        let n = codec::le_value(s);
        assert(n == s[0] + 256 * high);
        assert(n % 256 == s[0] as nat && n / 256 == high);
        assert(codec::le_bytes(n, s.len()) =~= s);
        assert(n < 256 * vstd::arithmetic::power::pow(256, tail.len()));
    }
}

/// What is read as a little-endian number is its form, and the rest is what is
/// left.
pub proof fn law_read_le_is_written(s: Seq<u8>, len: nat)
    ensures
        codec::read_le(s, len) is Some <==> s.len() >= len,
        codec::read_le(s, len) matches Some((n, rest)) ==> s == codec::le_bytes(n, len) + rest && n
            < vstd::arithmetic::power::pow(256, len),
{
    if s.len() >= len {
        law_le_bytes_of_value(s.take(len as int));
        assert(s =~= s.take(len as int) + s.skip(len as int));
    }
}

/// What is read as a compact size is its one form, and the rest is what is left.
pub proof fn law_read_compact_size_is_written(s: Seq<u8>)
    ensures
        codec::read_compact_size(s) matches Some((n, rest)) ==> s == codec::compact_size(n) + rest
            && n <= u64::MAX,
{
    if codec::read_compact_size(s) is Some && s[0] >= 0xfd {
        let width: nat = if s[0] == 0xfd {
            2
        } else if s[0] == 0xfe {
            4
        } else {
            8
        };
        codec::lemma_pow256();
        law_read_le_is_written(s.skip(1), width);
        assert(s =~= seq![s[0]] + s.skip(1));
    }
    if codec::read_compact_size(s) is Some {
        let (n, rest) = codec::read_compact_size(s)->Some_0;
        assert(s =~= codec::compact_size(n) + rest);
    }
}

/// What is read as a byte string stands behind its length, and the rest is what
/// is left. The length is the string's own wherever a machine's `usize` holds it.
pub proof fn law_read_sized_bytes_is_written(s: Seq<u8>) -> (n: nat)
    ensures
        codec::read_sized_bytes(s) matches Some((data, rest)) ==> {
            &&& s == codec::compact_size(n) + (data + rest)
            &&& n <= u64::MAX
            &&& data.len() == (n as u64) as usize
        },
{
    law_read_compact_size_is_written(s);
    match codec::read_compact_size(s) {
        Some((n, rest)) => {
            let len = (n as u64) as usize as int;
            if rest.len() >= len {
                assert(rest =~= rest.take(len) + rest.skip(len));
            }
            n
        },
        None => 0,
    }
}

/// A version number is its pattern modulo 2^32, and the pattern's number again.
pub proof fn law_twos_complement(v: i32)
    ensures
        codec::twos_complement(v) < 0x1_0000_0000,
        codec::twos_complement(v) == v || codec::twos_complement(v) == v + 0x1_0000_0000,
        codec::signed_value(codec::twos_complement(v)) == v,
{
}

/// The four little-endian bytes of a number stand for the number.
pub proof fn law_u32_bytes_stand_for_it(n: u32, bytes: Vec<u8>)
    requires
        call_ensures(codec::u32_to_le_bytes, (n,), bytes),
    ensures
        bytes@.len() == 4,
        codec::le_value(bytes@) == n,
{
    codec::lemma_pow256();
    codec::lemma_le_bytes_len(n as nat, 4);
    codec::lemma_le_value_of_bytes(n as nat, 4);
}

} // verus!
