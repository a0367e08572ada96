//! Blocks as the pipeline sees them, and the consensus codec they come from.

use crate::limits::HEADER_LEN;
use vstd::bytes::spec_u32_to_le_bytes;
use vstd::prelude::*;

verus! {

/// An opaque transaction, carried from the decoder to the transaction indexer.
#[verifier::external_type_specification]
#[verifier::external_body]
pub struct ExTransaction(bitcoin::Transaction);

/// An opaque consensus decoding failure.
#[verifier::external_type_specification]
#[verifier::external_body]
pub struct ExConsensusError(bitcoin::consensus::encode::Error);

/// The six fields of a block header.
#[derive(Clone, Copy, Debug)]
pub struct BlockHeader {
    pub version: i32,
    pub prev_blockhash: [u8; 32],
    pub merkle_root: [u8; 32],
    pub time: u32,
    pub bits: u32,
    pub nonce: u32,
}

/// A decoded block: its header and its transactions in block order.
pub struct Block {
    pub header: BlockHeader,
    pub txdata: Vec<bitcoin::Transaction>,
}

/// The mathematical value of a [`Block`].
pub struct BlockView {
    pub header: BlockHeader,
    pub txdata: Seq<bitcoin::Transaction>,
}

impl View for Block {
    type V = BlockView;

    open spec fn view(&self) -> BlockView {
        BlockView { header: self.header, txdata: self.txdata@ }
    }
}

/// The canonical 80-byte serialization of a header: every integer in
/// little-endian order, the two hashes as stored.
pub open spec fn header_bytes(h: BlockHeader) -> Seq<u8> {
    spec_u32_to_le_bytes(h.version as u32) + h.prev_blockhash@ + h.merkle_root@
        + spec_u32_to_le_bytes(h.time) + spec_u32_to_le_bytes(h.bits) + spec_u32_to_le_bytes(
        h.nonce,
    )
}

/// What consensus decoding makes of a byte string: the block it starts with,
/// or `None` where the bytes are malformed.
pub uninterp spec fn consensus_decoded(raw: Seq<u8>) -> Option<BlockView>;

/// Calls `bitcoin::Block::consensus_decode` on the bytes. Trusted: the outcome
/// is a function of the bytes alone, and a block that decodes starts with the
/// 80 bytes of its header, which serialize back to the same bytes.
#[verifier::external_body]
pub(crate) fn consensus_decode_block(raw: &[u8]) -> (res: Result<
    Block,
    bitcoin::consensus::encode::Error,
>)
    ensures
        match res {
            Ok(block) => consensus_decoded(raw@) == Some(block@),
            Err(_) => consensus_decoded(raw@) is None,
        },
        res matches Ok(block) ==> raw@.len() >= HEADER_LEN && header_bytes(block.header)
            == raw@.subrange(0, HEADER_LEN as int),
{
    let mut reader = raw;
    let b = <bitcoin::Block as bitcoin::consensus::Decodable>::consensus_decode(&mut reader)?;
    let h = b.header;
    let header = BlockHeader {
        version: h.version.to_consensus(),
        prev_blockhash: bitcoin::hashes::Hash::to_byte_array(h.prev_blockhash),
        merkle_root: bitcoin::hashes::Hash::to_byte_array(h.merkle_root),
        time: h.time,
        bits: h.bits.to_consensus(),
        nonce: h.nonce,
    };
    Ok(Block { header, txdata: b.txdata })
}

/// Calls `consensus_encode` of `bitcoin::block::Header` on a header rebuilt
/// from the six fields. Trusted: the 80 bytes written are `header_bytes`.
#[verifier::external_body]
pub(crate) fn consensus_encode_header(h: &BlockHeader) -> (out: [u8; 80])
    ensures
        out@ == header_bytes(*h),
{
    let header = bitcoin::block::Header {
        version: bitcoin::block::Version::from_consensus(h.version),
        prev_blockhash: bitcoin::hashes::Hash::from_byte_array(h.prev_blockhash),
        merkle_root: bitcoin::hashes::Hash::from_byte_array(h.merkle_root),
        time: h.time,
        bits: bitcoin::CompactTarget::from_consensus(h.bits),
        nonce: h.nonce,
    };
    let mut out = [0u8; 80];
    bitcoin::consensus::Encodable::consensus_encode(&header, &mut &mut out[..]).unwrap();
    out
}

} // verus!
