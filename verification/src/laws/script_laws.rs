//! Addresses, pushes and envelopes.

use vstd::prelude::*;

use crate::codec;
use crate::error::{Error, Result};
use crate::outside;
use crate::script::{self, Payload, PubkeyHash};

verus! {

/// An address gives a public key hash exactly where it pays to one, and then
/// that one, in all its bytes.
pub proof fn law_address_gives_its_hash(address: &str, r: Result<PubkeyHash>)
    requires
        call_ensures(script::pubkey_hash_from_address, (address,), r),
    ensures
        r matches Ok(hash) ==> outside::address_payload(address@) == Some(
            Payload::PubkeyHash(hash),
        ),
        r matches Err(e) ==> e == Error::Todo && (outside::address_payload(address@) is None
            || outside::address_payload(address@) == Some(Payload::Other)),
{
}

/// A payload gives a public key hash exactly where it is one.
pub proof fn law_payload_gives_its_hash(
    hash: PubkeyHash,
    a: Result<PubkeyHash>,
    b: Result<PubkeyHash>,
)
    requires
        call_ensures(Payload::pubkey_hash, (Payload::PubkeyHash(hash),), a),
        call_ensures(Payload::pubkey_hash, (Payload::Other,), b),
    ensures
        a == Ok::<PubkeyHash, Error>(hash),
        b == Err::<PubkeyHash, Error>(Error::Todo),
{
}

/// Every size has a push. Up to 75 bytes the opcode is the size itself; above,
/// it is `OP_PUSHDATA1`, `OP_PUSHDATA2` or `OP_PUSHDATA4`, by the number of bytes
/// that the size needs, and four little-endian bytes with the size follow.
pub proof fn law_push_of_every_size(size: u32, r: Result<(u8, Option<Vec<u8>>)>)
    requires
        call_ensures(script::get_push, (size,), r),
    ensures
        r is Ok,
        r->Ok_0.1 is None <==> size <= 75,
        size <= 75 ==> r->Ok_0.0 == size,
        76 <= size < 0x100 ==> r->Ok_0.0 == 0x4c,
        0x100 <= size < 0x1_0000 ==> r->Ok_0.0 == 0x4d,
        0x1_0000 <= size ==> r->Ok_0.0 == 0x4e,
        r->Ok_0.1 matches Some(bytes) ==> bytes@.len() == 4 && codec::le_value(bytes@) == size,
{
    codec::lemma_pow256();
    codec::lemma_le_bytes_len(size as nat, 4);
    codec::lemma_le_value_of_bytes(size as nat, 4);
}

/// Different sizes have different pushes.
pub proof fn law_pushes_differ(
    a: u32,
    b: u32,
    r: Result<(u8, Option<Vec<u8>>)>,
    s: Result<(u8, Option<Vec<u8>>)>,
)
    requires
        call_ensures(script::get_push, (a,), r),
        call_ensures(script::get_push, (b,), s),
        r->Ok_0.0 == s->Ok_0.0,
        match (r->Ok_0.1, s->Ok_0.1) {
            (Some(x), Some(y)) => x@ == y@,
            (None, None) => true,
            _ => false,
        },
    ensures
        a == b,
{
    law_push_of_every_size(a, r);
    law_push_of_every_size(b, s);
}

/// A push is an opcode, the number of bytes where the opcode does not say it,
/// and the bytes themselves, unchanged at the end.
pub proof fn law_push_ends_with_its_data(data: Seq<u8>)
    requires
        data.len() <= u32::MAX,
    ensures
        ({
            let s = script::push_instruction(data);
            let n = data.len();
            let head: nat = if n <= 75 {
                1
            } else if n < 0x100 {
                2
            } else if n < 0x1_0000 {
                3
            } else {
                5
            };
            &&& s.len() == head + n
            &&& s.skip(head as int) == data
            &&& n <= 75 ==> s[0] == n
            &&& 76 <= n < 0x100 ==> s[0] == 0x4c
            &&& 0x100 <= n < 0x1_0000 ==> s[0] == 0x4d
            &&& 0x1_0000 <= n ==> s[0] == 0x4e
            &&& n > 75 ==> codec::le_value(s.subrange(1, head as int)) == n
        }),
{
    let s = script::push_instruction(data);
    let n = data.len();
    codec::lemma_pow256();
    if n <= 75 {
        assert(s.skip(1) =~= data);
    } else {
        let width: nat = if n < 0x100 {
            1
        } else if n < 0x1_0000 {
            2
        } else {
            4
        };
        codec::lemma_le_bytes_len(n, width);
        codec::lemma_le_value_of_bytes(n, width);
        assert(s.subrange(1, 1 + width as int) =~= codec::le_bytes(n, width));
        assert(s.skip(1 + width as int) =~= data);
    }
}

/// An assembled envelope holds, in this order and with nothing between: the
/// branch that is never taken, the marker, a push of the opcode and size that the
/// content type's push would have, a push of the content, and the branch's end.
/// It is there exactly for content that a script can push.
pub proof fn law_envelope_holds_its_parts(
    mime: &str,
    data: &str,
    push: Result<(u8, Option<Vec<u8>>)>,
    r: Result<Vec<u8>>,
)
    requires
        call_ensures(script::get_push, (mime.len() as u32,), push),
        call_ensures(script::assemble_envelope, (mime, data), r),
    ensures
        ({
            let content = vstd::utf8::encode_utf8(data@);
            let header = match push->Ok_0.1 {
                Some(size) => seq![push->Ok_0.0] + size@,
                None => seq![push->Ok_0.0],
            };
            &&& r is Ok <==> content.len() <= 0xFFFF_FFFF
            &&& r matches Ok(envelope) ==> envelope@ == seq![
                0x00u8,
                0x63u8,
                0x03u8,
                0x03u8,
                0x6fu8,
                0x72u8,
                0x62u8,
                0x51u8,
            ] + (seq![header.len() as u8] + header) + seq![0x00u8] + script::push_instruction(
                content,
            ) + seq![0x68u8]
            &&& r matches Err(e) ==> e == Error::Todo
        }),
{
    let size = mime.len() as u32;
    codec::lemma_le_bytes_len(size as nat, 4);
    if let Ok(envelope) = r {
        let content = vstd::utf8::encode_utf8(data@);
        let header = match push->Ok_0.1 {
            Some(size) => seq![push->Ok_0.0] + size@,
            None => seq![push->Ok_0.0],
        };
        assert(header =~= script::push_header_bytes(size));
        assert(envelope@ =~= seq![
            0x00u8,
            0x63u8,
            0x03u8,
            0x03u8,
            0x6fu8,
            0x72u8,
            0x62u8,
            0x51u8,
        ] + (seq![header.len() as u8] + header) + seq![0x00u8] + script::push_instruction(content)
            + seq![0x68u8]);
    }
}

/// An envelope of content that is too long is refused.
pub proof fn law_too_long_content_is_refused(mime: &str, data: &str, r: Result<Vec<u8>>)
    requires
        call_ensures(script::create_envelope, (mime, data), r),
    ensures
        r == Err::<Vec<u8>, Error>(Error::Todo),
{
}

} // verus!
