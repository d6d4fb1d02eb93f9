//! The records that the tables hold, each with its encoding.

use crate::codecs::{
    decode_at, encode_onto, lemma_encoding_injective, lemma_lex_lt_concat,
    lemma_u64_order_preserved, lex_lt, wrong_length, Decode, DecodeError, Encode, FixedWidth,
};
use vstd::prelude::*;

verus! {

/// A block's height.
pub type BlockNumber = u64;

/// A block's hash.
pub type BlockHash = Felt;

/// The address of a contract.
pub type ContractAddress = Felt;

/// A 256-bit word, held as four 64-bit limbs from the most significant down.
#[derive(Debug, Clone, Copy, PartialEq, Eq, Structural, Hash)]
pub struct Felt {
    pub w3: u64,
    pub w2: u64,
    pub w1: u64,
    pub w0: u64,
}

impl Felt {
    pub open spec fn spec_zero() -> Felt {
        Felt { w3: 0, w2: 0, w1: 0, w0: 0 }
    }

    /// The word zero.
    pub fn zero() -> (z: Felt)
        ensures
            z == Self::spec_zero(),
    {
        Felt { w3: 0, w2: 0, w1: 0, w0: 0 }
    }

    pub open spec fn spec_from_u64(v: u64) -> Felt {
        Felt { w3: 0, w2: 0, w1: 0, w0: v }
    }

    /// The word whose value is `v`.
    pub fn from_u64(v: u64) -> (f: Felt)
        ensures
            f == Self::spec_from_u64(v),
    {
        Felt { w3: 0, w2: 0, w1: 0, w0: v }
    }
}

impl Felt {
    /// Whether the word is the smaller number.
    pub open spec fn spec_is_below(self, other: Felt) -> bool {
        self.w3 < other.w3 || (self.w3 == other.w3 && (self.w2 < other.w2 || (self.w2 == other.w2
            && (self.w1 < other.w1 || (self.w1 == other.w1 && self.w0 < other.w0)))))
    }

    /// Whether the word is the smaller number.
    pub fn is_below(&self, other: &Felt) -> (below: bool)
        ensures
            below == self.spec_is_below(*other),
    {
        self.w3 < other.w3 || (self.w3 == other.w3 && (self.w2 < other.w2 || (self.w2 == other.w2
            && (self.w1 < other.w1 || (self.w1 == other.w1 && self.w0 < other.w0)))))
    }

    /// Words sort as their encodings do: a word is the smaller number exactly
    /// when its encoding is below the other's in byte-lexicographic order.
    pub proof fn lemma_order_preserved(a: Felt, b: Felt)
        ensures
            a.spec_is_below(b) <==> lex_lt(a.encoding(), b.encoding()),
    {
        let (a3, a2, a1, a0) = (a.w3.encoding(), a.w2.encoding(), a.w1.encoding(), a.w0.encoding());
        let (b3, b2, b1, b0) = (b.w3.encoding(), b.w2.encoding(), b.w1.encoding(), b.w0.encoding());
        u64::lemma_width(a.w3, a3);
        u64::lemma_width(a.w2, a3);
        u64::lemma_width(a.w1, a3);
        u64::lemma_width(b.w3, a3);
        u64::lemma_width(b.w2, a3);
        u64::lemma_width(b.w1, a3);
        lemma_u64_order_preserved(a.w3, b.w3);
        lemma_u64_order_preserved(a.w2, b.w2);
        lemma_u64_order_preserved(a.w1, b.w1);
        lemma_u64_order_preserved(a.w0, b.w0);
        if a3 == b3 {
            lemma_encoding_injective(a.w3, b.w3);
        }
        if a2 == b2 {
            lemma_encoding_injective(a.w2, b.w2);
        }
        if a1 == b1 {
            lemma_encoding_injective(a.w1, b.w1);
        }
        lemma_lex_lt_concat(a3, a2, b3, b2);
        lemma_lex_lt_concat(a3 + a2, a1, b3 + b2, b1);
        lemma_lex_lt_concat(a3 + a2 + a1, a0, b3 + b2 + b1, b0);
        if a3 + a2 == b3 + b2 {
            assert((a3 + a2).subrange(0, 8) =~= a3);
            assert((b3 + b2).subrange(0, 8) =~= b3);
            assert((a3 + a2).subrange(8, 16) =~= a2);
            assert((b3 + b2).subrange(8, 16) =~= b2);
        }
        if a3 + a2 + a1 == b3 + b2 + b1 {
            assert((a3 + a2 + a1).subrange(0, 16) =~= a3 + a2);
            assert((b3 + b2 + b1).subrange(0, 16) =~= b3 + b2);
            assert((a3 + a2 + a1).subrange(16, 24) =~= a1);
            assert((b3 + b2 + b1).subrange(16, 24) =~= b1);
        }
    }
}

impl Default for Felt {
    fn default() -> (z: Felt)
        ensures
            z == Felt::spec_zero(),
    {
        Felt::zero()
    }
}

impl Encode for Felt {
    open spec fn encoding(&self) -> Seq<u8> {
        self.w3.encoding() + self.w2.encoding() + self.w1.encoding() + self.w0.encoding()
    }

    fn encode(&self) -> (bytes: Vec<u8>) {
        let mut bytes = self.w3.encode();
        encode_onto(&mut bytes, &self.w2);
        encode_onto(&mut bytes, &self.w1);
        encode_onto(&mut bytes, &self.w0);
        bytes
    }
}

impl Decode for Felt {
    open spec fn decoding(bytes: Seq<u8>) -> Result<Felt, DecodeError> {
        if bytes.len() == 32 {
            Ok(
                Felt {
                    w3: u64::decoding(bytes.subrange(0, 8)).unwrap(),
                    w2: u64::decoding(bytes.subrange(8, 16)).unwrap(),
                    w1: u64::decoding(bytes.subrange(16, 24)).unwrap(),
                    w0: u64::decoding(bytes.subrange(24, 32)).unwrap(),
                },
            )
        } else {
            Err(wrong_length(32, bytes.len()))
        }
    }

    fn decode(bytes: &[u8]) -> (r: Result<Felt, DecodeError>) {
        if bytes.len() != 32 {
            return Err(DecodeError::UnexpectedLength { expected: 32, actual: bytes.len() });
        }
        let w3 = decode_at::<u64>(bytes, 0)?;
        let w2 = decode_at::<u64>(bytes, 8)?;
        let w1 = decode_at::<u64>(bytes, 16)?;
        let w0 = decode_at::<u64>(bytes, 24)?;
        Ok(Felt { w3, w2, w1, w0 })
    }

    proof fn lemma_round_trip(v: Felt) {
        let e = v.encoding();
        u64::lemma_width(v.w3, e);
        u64::lemma_width(v.w2, e);
        u64::lemma_width(v.w1, e);
        u64::lemma_width(v.w0, e);
        u64::lemma_round_trip(v.w3);
        u64::lemma_round_trip(v.w2);
        u64::lemma_round_trip(v.w1);
        u64::lemma_round_trip(v.w0);
        assert(e.subrange(0, 8) =~= v.w3.encoding());
        assert(e.subrange(8, 16) =~= v.w2.encoding());
        assert(e.subrange(16, 24) =~= v.w1.encoding());
        assert(e.subrange(24, 32) =~= v.w0.encoding());
    }
}

impl FixedWidth for Felt {
    open spec fn width() -> nat {
        32
    }

    fn byte_width() -> (n: usize) {
        32
    }

    proof fn lemma_width(v: Felt, bytes: Seq<u8>) {
        u64::lemma_width(v.w3, bytes);
        u64::lemma_width(v.w2, bytes);
        u64::lemma_width(v.w1, bytes);
        u64::lemma_width(v.w0, bytes);
    }
}

/// The price of gas in each fee token.
#[derive(Debug, Clone, Copy, PartialEq, Eq, Structural)]
pub struct GasPrices {
    /// The price in wei.
    pub eth: u128,
    /// The price in fri.
    pub strk: u128,
}

impl GasPrices {
    pub open spec fn spec_default() -> GasPrices {
        GasPrices { eth: 0, strk: 0 }
    }
}

impl Default for GasPrices {
    fn default() -> (g: GasPrices)
        ensures
            g == GasPrices::spec_default(),
    {
        GasPrices { eth: 0, strk: 0 }
    }
}

impl Encode for GasPrices {
    open spec fn encoding(&self) -> Seq<u8> {
        self.eth.encoding() + self.strk.encoding()
    }

    fn encode(&self) -> (bytes: Vec<u8>) {
        let mut bytes = self.eth.encode();
        encode_onto(&mut bytes, &self.strk);
        bytes
    }
}

impl Decode for GasPrices {
    open spec fn decoding(bytes: Seq<u8>) -> Result<GasPrices, DecodeError> {
        if bytes.len() == 32 {
            Ok(
                GasPrices {
                    eth: u128::decoding(bytes.subrange(0, 16)).unwrap(),
                    strk: u128::decoding(bytes.subrange(16, 32)).unwrap(),
                },
            )
        } else {
            Err(wrong_length(32, bytes.len()))
        }
    }

    fn decode(bytes: &[u8]) -> (r: Result<GasPrices, DecodeError>) {
        if bytes.len() != 32 {
            return Err(DecodeError::UnexpectedLength { expected: 32, actual: bytes.len() });
        }
        let eth = decode_at::<u128>(bytes, 0)?;
        let strk = decode_at::<u128>(bytes, 16)?;
        Ok(GasPrices { eth, strk })
    }

    proof fn lemma_round_trip(v: GasPrices) {
        let e = v.encoding();
        u128::lemma_width(v.eth, e);
        u128::lemma_width(v.strk, e);
        u128::lemma_round_trip(v.eth);
        u128::lemma_round_trip(v.strk);
        assert(e.subrange(0, 16) =~= v.eth.encoding());
        assert(e.subrange(16, 32) =~= v.strk.encoding());
    }
}

impl FixedWidth for GasPrices {
    open spec fn width() -> nat {
        32
    }

    fn byte_width() -> (n: usize) {
        32
    }

    proof fn lemma_width(v: GasPrices, bytes: Seq<u8>) {
        u128::lemma_width(v.eth, bytes);
        u128::lemma_width(v.strk, bytes);
    }
}

/// Block environment values.
#[derive(Debug, Clone, Copy, PartialEq, Eq, Structural)]
pub struct BlockEnv {
    /// The block height.
    pub number: BlockNumber,
    /// The timestamp in seconds since the UNIX epoch.
    pub timestamp: u64,
    /// The L1 gas prices at this particular block.
    pub gas_prices: GasPrices,
    /// The contract address of the sequencer.
    pub sequencer_address: ContractAddress,
}

impl BlockEnv {
    pub open spec fn spec_default() -> BlockEnv {
        BlockEnv {
            number: 0,
            timestamp: 0,
            gas_prices: GasPrices::spec_default(),
            sequencer_address: Felt::spec_zero(),
        }
    }
}

impl Default for BlockEnv {
    fn default() -> (e: BlockEnv)
        ensures
            e == BlockEnv::spec_default(),
    {
        BlockEnv {
            number: 0,
            timestamp: 0,
            gas_prices: GasPrices::default(),
            sequencer_address: Felt::zero(),
        }
    }
}

impl Encode for BlockEnv {
    open spec fn encoding(&self) -> Seq<u8> {
        self.number.encoding() + self.timestamp.encoding() + self.gas_prices.encoding()
            + self.sequencer_address.encoding()
    }

    fn encode(&self) -> (bytes: Vec<u8>) {
        let mut bytes = self.number.encode();
        encode_onto(&mut bytes, &self.timestamp);
        encode_onto(&mut bytes, &self.gas_prices);
        encode_onto(&mut bytes, &self.sequencer_address);
        bytes
    }
}

impl Decode for BlockEnv {
    open spec fn decoding(bytes: Seq<u8>) -> Result<BlockEnv, DecodeError> {
        if bytes.len() == 80 {
            Ok(
                BlockEnv {
                    number: u64::decoding(bytes.subrange(0, 8)).unwrap(),
                    timestamp: u64::decoding(bytes.subrange(8, 16)).unwrap(),
                    gas_prices: GasPrices::decoding(bytes.subrange(16, 48)).unwrap(),
                    sequencer_address: Felt::decoding(bytes.subrange(48, 80)).unwrap(),
                },
            )
        } else {
            Err(wrong_length(80, bytes.len()))
        }
    }

    fn decode(bytes: &[u8]) -> (r: Result<BlockEnv, DecodeError>) {
        if bytes.len() != 80 {
            return Err(DecodeError::UnexpectedLength { expected: 80, actual: bytes.len() });
        }
        let number = decode_at::<u64>(bytes, 0)?;
        let timestamp = decode_at::<u64>(bytes, 8)?;
        let gas_prices = decode_at::<GasPrices>(bytes, 16)?;
        let sequencer_address = decode_at::<Felt>(bytes, 48)?;
        Ok(BlockEnv { number, timestamp, gas_prices, sequencer_address })
    }

    proof fn lemma_round_trip(v: BlockEnv) {
        let e = v.encoding();
        u64::lemma_width(v.number, e);
        u64::lemma_width(v.timestamp, e);
        GasPrices::lemma_width(v.gas_prices, e);
        Felt::lemma_width(v.sequencer_address, e);
        u64::lemma_round_trip(v.number);
        u64::lemma_round_trip(v.timestamp);
        GasPrices::lemma_round_trip(v.gas_prices);
        Felt::lemma_round_trip(v.sequencer_address);
        assert(e.subrange(0, 8) =~= v.number.encoding());
        assert(e.subrange(8, 16) =~= v.timestamp.encoding());
        assert(e.subrange(16, 48) =~= v.gas_prices.encoding());
        assert(e.subrange(48, 80) =~= v.sequencer_address.encoding());
    }
}

impl FixedWidth for BlockEnv {
    open spec fn width() -> nat {
        80
    }

    fn byte_width() -> (n: usize) {
        80
    }

    proof fn lemma_width(v: BlockEnv, bytes: Seq<u8>) {
        u64::lemma_width(v.number, bytes);
        u64::lemma_width(v.timestamp, bytes);
        GasPrices::lemma_width(v.gas_prices, bytes);
        Felt::lemma_width(v.sequencer_address, bytes);
    }
}

/// A block's header.
#[derive(Debug, Clone, Copy, PartialEq, Eq, Structural)]
pub struct Header {
    /// The hash of the block before this one.
    pub parent_hash: BlockHash,
    /// The block height.
    pub number: BlockNumber,
    /// The L1 gas prices at this block.
    pub gas_prices: GasPrices,
    /// The timestamp in seconds since the UNIX epoch.
    pub timestamp: u64,
    /// The root of the state after this block.
    pub state_root: Felt,
    /// The contract address of the sequencer.
    pub sequencer_address: ContractAddress,
}

impl Header {
    pub open spec fn spec_default() -> Header {
        Header {
            parent_hash: Felt::spec_zero(),
            number: 0,
            gas_prices: GasPrices::spec_default(),
            timestamp: 0,
            state_root: Felt::spec_zero(),
            sequencer_address: Felt::spec_zero(),
        }
    }
}

impl Default for Header {
    fn default() -> (h: Header)
        ensures
            h == Header::spec_default(),
    {
        Header {
            parent_hash: Felt::zero(),
            number: 0,
            gas_prices: GasPrices::default(),
            timestamp: 0,
            state_root: Felt::zero(),
            sequencer_address: Felt::zero(),
        }
    }
}

impl Encode for Header {
    open spec fn encoding(&self) -> Seq<u8> {
        self.parent_hash.encoding() + self.number.encoding() + self.gas_prices.encoding()
            + self.timestamp.encoding() + self.state_root.encoding()
            + self.sequencer_address.encoding()
    }

    fn encode(&self) -> (bytes: Vec<u8>) {
        let mut bytes = self.parent_hash.encode();
        encode_onto(&mut bytes, &self.number);
        encode_onto(&mut bytes, &self.gas_prices);
        encode_onto(&mut bytes, &self.timestamp);
        encode_onto(&mut bytes, &self.state_root);
        encode_onto(&mut bytes, &self.sequencer_address);
        bytes
    }
}

impl Decode for Header {
    open spec fn decoding(bytes: Seq<u8>) -> Result<Header, DecodeError> {
        if bytes.len() == 144 {
            Ok(
                Header {
                    parent_hash: Felt::decoding(bytes.subrange(0, 32)).unwrap(),
                    number: u64::decoding(bytes.subrange(32, 40)).unwrap(),
                    gas_prices: GasPrices::decoding(bytes.subrange(40, 72)).unwrap(),
                    timestamp: u64::decoding(bytes.subrange(72, 80)).unwrap(),
                    state_root: Felt::decoding(bytes.subrange(80, 112)).unwrap(),
                    sequencer_address: Felt::decoding(bytes.subrange(112, 144)).unwrap(),
                },
            )
        } else {
            Err(wrong_length(144, bytes.len()))
        }
    }

    fn decode(bytes: &[u8]) -> (r: Result<Header, DecodeError>) {
        if bytes.len() != 144 {
            return Err(DecodeError::UnexpectedLength { expected: 144, actual: bytes.len() });
        }
        let parent_hash = decode_at::<Felt>(bytes, 0)?;
        let number = decode_at::<u64>(bytes, 32)?;
        let gas_prices = decode_at::<GasPrices>(bytes, 40)?;
        let timestamp = decode_at::<u64>(bytes, 72)?;
        let state_root = decode_at::<Felt>(bytes, 80)?;
        let sequencer_address = decode_at::<Felt>(bytes, 112)?;
        Ok(Header { parent_hash, number, gas_prices, timestamp, state_root, sequencer_address })
    }

    proof fn lemma_round_trip(v: Header) {
        let e = v.encoding();
        Self::lemma_width(v, e);
        Felt::lemma_width(v.parent_hash, e);
        u64::lemma_width(v.number, e);
        GasPrices::lemma_width(v.gas_prices, e);
        u64::lemma_width(v.timestamp, e);
        Felt::lemma_width(v.state_root, e);
        Felt::lemma_width(v.sequencer_address, e);
        Felt::lemma_round_trip(v.parent_hash);
        u64::lemma_round_trip(v.number);
        GasPrices::lemma_round_trip(v.gas_prices);
        u64::lemma_round_trip(v.timestamp);
        Felt::lemma_round_trip(v.state_root);
        Felt::lemma_round_trip(v.sequencer_address);
        assert(e.subrange(0, 32) =~= v.parent_hash.encoding());
        assert(e.subrange(32, 40) =~= v.number.encoding());
        assert(e.subrange(40, 72) =~= v.gas_prices.encoding());
        assert(e.subrange(72, 80) =~= v.timestamp.encoding());
        assert(e.subrange(80, 112) =~= v.state_root.encoding());
        assert(e.subrange(112, 144) =~= v.sequencer_address.encoding());
    }
}

impl FixedWidth for Header {
    open spec fn width() -> nat {
        144
    }

    fn byte_width() -> (n: usize) {
        144
    }

    proof fn lemma_width(v: Header, bytes: Seq<u8>) {
        Felt::lemma_width(v.parent_hash, bytes);
        u64::lemma_width(v.number, bytes);
        GasPrices::lemma_width(v.gas_prices, bytes);
        u64::lemma_width(v.timestamp, bytes);
        Felt::lemma_width(v.state_root, bytes);
        Felt::lemma_width(v.sequencer_address, bytes);
    }
}

/// One slot of a contract's storage: the slot's key and what it holds.
#[derive(Debug, Clone, Copy, PartialEq, Eq, Structural)]
pub struct StorageEntry {
    pub key: Felt,
    pub value: Felt,
}

impl Encode for StorageEntry {
    open spec fn encoding(&self) -> Seq<u8> {
        self.key.encoding() + self.value.encoding()
    }

    fn encode(&self) -> (bytes: Vec<u8>) {
        let mut bytes = self.key.encode();
        encode_onto(&mut bytes, &self.value);
        bytes
    }
}

impl Decode for StorageEntry {
    open spec fn decoding(bytes: Seq<u8>) -> Result<StorageEntry, DecodeError> {
        if bytes.len() == 64 {
            Ok(
                StorageEntry {
                    key: Felt::decoding(bytes.subrange(0, 32)).unwrap(),
                    value: Felt::decoding(bytes.subrange(32, 64)).unwrap(),
                },
            )
        } else {
            Err(wrong_length(64, bytes.len()))
        }
    }

    fn decode(bytes: &[u8]) -> (r: Result<StorageEntry, DecodeError>) {
        if bytes.len() != 64 {
            return Err(DecodeError::UnexpectedLength { expected: 64, actual: bytes.len() });
        }
        let key = decode_at::<Felt>(bytes, 0)?;
        let value = decode_at::<Felt>(bytes, 32)?;
        Ok(StorageEntry { key, value })
    }

    proof fn lemma_round_trip(v: StorageEntry) {
        let e = v.encoding();
        Felt::lemma_width(v.key, e);
        Felt::lemma_width(v.value, e);
        Felt::lemma_round_trip(v.key);
        Felt::lemma_round_trip(v.value);
        assert(e.subrange(0, 32) =~= v.key.encoding());
        assert(e.subrange(32, 64) =~= v.value.encoding());
    }
}

impl FixedWidth for StorageEntry {
    open spec fn width() -> nat {
        64
    }

    fn byte_width() -> (n: usize) {
        64
    }

    proof fn lemma_width(v: StorageEntry, bytes: Seq<u8>) {
        Felt::lemma_width(v.key, bytes);
        Felt::lemma_width(v.value, bytes);
    }
}

/// How final a block is.
#[derive(Debug, Clone, Copy, PartialEq, Eq, Structural)]
pub enum FinalityStatus {
    AcceptedOnL2,
    AcceptedOnL1,
}

impl Encode for FinalityStatus {
    open spec fn encoding(&self) -> Seq<u8> {
        match self {
            FinalityStatus::AcceptedOnL2 => seq![0u8],
            FinalityStatus::AcceptedOnL1 => seq![1u8],
        }
    }

    fn encode(&self) -> (bytes: Vec<u8>) {
        let tag: u8 = match self {
            FinalityStatus::AcceptedOnL2 => 0,
            FinalityStatus::AcceptedOnL1 => 1,
        };
        let mut bytes: Vec<u8> = Vec::new();
        bytes.push(tag);
        assert(bytes@ =~= self.encoding());
        bytes
    }
}

impl Decode for FinalityStatus {
    open spec fn decoding(bytes: Seq<u8>) -> Result<FinalityStatus, DecodeError> {
        if bytes.len() != 1 {
            Err(wrong_length(1, bytes.len()))
        } else if bytes[0] == 0 {
            Ok(FinalityStatus::AcceptedOnL2)
        } else if bytes[0] == 1 {
            Ok(FinalityStatus::AcceptedOnL1)
        } else {
            Err(DecodeError::InvalidContent)
        }
    }

    fn decode(bytes: &[u8]) -> (r: Result<FinalityStatus, DecodeError>) {
        if bytes.len() != 1 {
            return Err(DecodeError::UnexpectedLength { expected: 1, actual: bytes.len() });
        }
        let tag: u8 = bytes[0];
        if tag == 0 {
            Ok(FinalityStatus::AcceptedOnL2)
        } else if tag == 1 {
            Ok(FinalityStatus::AcceptedOnL1)
        } else {
            Err(DecodeError::InvalidContent)
        }
    }

    proof fn lemma_round_trip(v: FinalityStatus) {
    }
}

impl FixedWidth for FinalityStatus {
    open spec fn width() -> nat {
        1
    }

    fn byte_width() -> (n: usize) {
        1
    }

    proof fn lemma_width(v: FinalityStatus, bytes: Seq<u8>) {
    }
}

} // verus!
