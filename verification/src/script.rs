//! Scripts, addresses, and envelopes.

use vstd::prelude::*;

use bitcoin::script::{Builder, PushBytesBuf};

use crate::codec;
use crate::error::{Error, Result};
use crate::outside;

verus! {

/// The hash of a public key, which an output can pay to.
#[derive(Debug, Clone, Copy, PartialEq, Eq)]
pub struct PubkeyHash(pub [u8; 20]);

/// The hash of a script.
pub struct ScriptHash;

/// What an address pays to: the hash of a public key, or anything else.
#[derive(Debug, Clone, Copy, PartialEq, Eq)]
pub enum Payload {
    PubkeyHash(PubkeyHash),
    Other,
}

impl Payload {
    /// The public key hash; an error where the payload is anything else.
    pub fn pubkey_hash(self) -> (r: Result<PubkeyHash>)
        ensures
            r == match self {
                Payload::PubkeyHash(hash) => Ok(hash),
                Payload::Other => Err(Error::Todo),
            },
    {
        match self {
            Payload::PubkeyHash(hash) => Ok(hash),
            _ => Err(Error::Todo),
        }
    }
}

/// The public key hash that an address pays to; an error where the string is
/// not an address or pays to anything else.
pub fn pubkey_hash_from_address(string: &str) -> (r: Result<PubkeyHash>)
    ensures
        r == match outside::address_payload(string@) {
            Some(Payload::PubkeyHash(hash)) => Ok(hash),
            _ => Err(Error::Todo),
        },
{
    match outside::parse_address(string) {
        Ok(payload) => payload.pubkey_hash(),
        Err(_) => Err(Error::Todo),
    }
}

/// `OP_DUP OP_HASH160 <hash> OP_EQUALVERIFY OP_CHECKSIG`.
pub open spec fn p2pkh_script(hash: Seq<u8>) -> Seq<u8> {
    seq![0x76u8, 0xa9u8, 0x14u8] + hash + seq![0x88u8, 0xacu8]
}

/// Whether a script pays to a public key hash.
pub open spec fn is_p2pkh_script(s: Seq<u8>) -> bool {
    &&& s.len() == 25
    &&& s[0] == 0x76 && s[1] == 0xa9 && s[2] == 0x14
    &&& s[23] == 0x88 && s[24] == 0xac
}

/// `OP_1 <key>`.
pub open spec fn p2tr_script(key: Seq<u8>) -> Seq<u8> {
    seq![0x51u8, 0x20u8] + key
}

/// Whether a script pays to a taproot output key.
pub open spec fn is_p2tr_script(s: Seq<u8>) -> bool {
    s.len() == 34 && s[0] == 0x51 && s[1] == 0x20
}

/// The instruction that pushes `data`: the shortest length form that holds the
/// number of bytes, then the bytes.
pub open spec fn push_instruction(data: Seq<u8>) -> Seq<u8> {
    let n = data.len();
    if n < 0x4c {
        seq![n as u8] + data
    } else if n < 0x100 {
        seq![0x4cu8] + codec::le_bytes(n, 1) + data
    } else if n < 0x1_0000 {
        seq![0x4du8] + codec::le_bytes(n, 2) + data
    } else {
        seq![0x4eu8] + codec::le_bytes(n, 4) + data
    }
}

const OP_FALSE: u8 = 0x00;

const OP_0: u8 = 0x00;

const OP_PUSHBYTES_3: u8 = 0x03;

const OP_PUSHDATA1: u8 = 0x4c;

const OP_PUSHDATA2: u8 = 0x4d;

const OP_PUSHDATA4: u8 = 0x4e;

const OP_TRUE: u8 = 0x51;

const OP_IF: u8 = 0x63;

const OP_ENDIF: u8 = 0x68;

/// The opcode of a push of `size` bytes, and the size behind it where the
/// opcode does not hold it.
pub open spec fn push_header(size: u32) -> (u8, Option<Seq<u8>>) {
    if size <= 75 {
        (size as u8, None)
    } else if size <= 255 {
        (0x4c, Some(codec::le_bytes(size as nat, 4)))
    } else if size <= 65535 {
        (0x4d, Some(codec::le_bytes(size as nat, 4)))
    } else {
        (0x4e, Some(codec::le_bytes(size as nat, 4)))
    }
}

/// The opcode of a push of `size` bytes, and the size behind it where the
/// opcode does not hold it. There is one for every size.
pub fn get_push(size: u32) -> (r: Result<(u8, Option<Vec<u8>>)>)
    ensures
        r is Ok,
        r->Ok_0.0 == push_header(size).0,
        r->Ok_0.1 is Some <==> push_header(size).1 is Some,
        r->Ok_0.1 matches Some(buf) ==> push_header(size).1 == Some(buf@),
{
    if size <= 75 {
        // OP_PUSHBYTES[0|1|2|...|75]
        Ok((size as u8, None))
    } else if size <= 255 {
        Ok((OP_PUSHDATA1, Some(codec::u32_to_le_bytes(size))))
    } else if size <= 65535 {
        Ok((OP_PUSHDATA2, Some(codec::u32_to_le_bytes(size))))
    } else {
        Ok((OP_PUSHDATA4, Some(codec::u32_to_le_bytes(size))))
    }
}

/// The header of a push, as bytes.
pub open spec fn push_header_bytes(size: u32) -> Seq<u8> {
    match push_header(size) {
        (opcode, Some(size_buf)) => seq![opcode] + size_buf,
        (opcode, None) => seq![opcode],
    }
}

/// The instructions that [`assemble_envelope`] writes: behind a
/// branch that is never taken, the opcode of a push of three bytes and then a
/// push of "orb", a push of the header that the content type's push would have,
/// and a push of the content.
pub open spec fn assembled_envelope(mime_len: u32, data: Seq<u8>) -> Seq<u8> {
    seq![0x00u8, 0x63u8, 0x03u8] + push_instruction(seq![0x6fu8, 0x72u8, 0x62u8]) + seq![0x51u8]
        + push_instruction(push_header_bytes(mime_len)) + seq![0x00u8] + push_instruction(data)
        + seq![0x68u8]
}

/// Assembles the instructions of an envelope; an error where the content is too
/// long for a script to push.
///
/// This is no finished envelope. The opcode of the marker's push stands there
/// twice, and of the content type there is only the header of its push, with its
/// length taken modulo 2^32.
pub fn assemble_envelope(mime: &str, data: &str) -> (r: Result<Vec<u8>>)
    ensures
        r is Ok <==> vstd::utf8::encode_utf8(data@).len() <= u32::MAX,
        r matches Ok(script) ==> script@ == assembled_envelope(mime.len() as u32, vstd::utf8::encode_utf8(data@)),
        r matches Err(e) ==> e == Error::Todo,
{
    let size = #[verifier::truncate]
    (mime.len() as u32);
    let (op_push, size_buf) = match get_push(size) {
        Ok(push) => push,
        Err(e) => return Err(e),
    };

    // For any size up to 75 the opcode is `OP_PUSHBYTES[0|1|2|...|75]`. For any
    // size above it is `OP_PUSHDATA[1|2|4]`, with the size behind it.
    let mut mime_buf = PushBytesBuf::new();
    match mime_buf.push(op_push) {
        Ok(_) => {},
        Err(_) => return Err(Error::Todo),
    }
    if let Some(size_buf) = size_buf {
        proof {
            codec::lemma_le_bytes_len(size as nat, 4);
        }
        match mime_buf.extend_from_slice(size_buf.as_slice()) {
            Ok(_) => {},
            Err(_) => return Err(Error::Todo),
        }
    }
    assert(outside::push_bytes(mime_buf) =~= push_header_bytes(size));

    let mut marker_buf = PushBytesBuf::new();
    match marker_buf.extend_from_slice(&[0x6f, 0x72, 0x62]) {
        Ok(_) => {},
        Err(_) => return Err(Error::Todo),
    }
    assert(outside::push_bytes(marker_buf) =~= seq![0x6fu8, 0x72u8, 0x62u8]);

    let mut data_buf = PushBytesBuf::new();
    match data_buf.extend_from_slice(data.as_bytes()) {
        Ok(_) => {},
        Err(_) => return Err(Error::Todo),
    }
    assert(outside::push_bytes(data_buf) =~= vstd::utf8::encode_utf8(data@));

    let script = Builder::new();
    let script = outside::push_opcode(script, OP_FALSE);
    let script = outside::push_opcode(script, OP_IF);
    // Push the three bytes of "orb".
    let script = outside::push_opcode(script, OP_PUSHBYTES_3);
    let script = outside::push_slice(script, marker_buf);
    let script = outside::push_opcode(script, OP_TRUE);
    let script = outside::push_slice(script, mime_buf);
    let script = outside::push_opcode(script, OP_0);
    let script = outside::push_slice(script, data_buf);
    let script = outside::push_opcode(script, OP_ENDIF);
    assert(outside::script_bytes(script) =~= assembled_envelope(size, vstd::utf8::encode_utf8(data@)));
    Ok(script.into_bytes())
}

/// Creates the envelope of a content type and a content. So far this is settled
/// only for content that is too long for a script to push, which is an error.
pub fn create_envelope(mime: &str, data: &str) -> (r: Result<Vec<u8>>)
    requires
        vstd::utf8::encode_utf8(data@).len() > u32::MAX,
    ensures
        r == Err::<Vec<u8>, Error>(Error::Todo),
{
    assemble_envelope(mime, data)
}

} // verus!
