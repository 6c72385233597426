//! The block content and the outcome of its execution, as hashable data.

use crate::crypto::{keccak256_of, CryptoHash};
use crate::encoding::{le_bytes, push_le, Encode};
use vstd::prelude::*;

verus! {

/// The identifier of a chain.
#[derive(Clone, Copy, Debug, PartialEq, Eq, Hash)]
pub struct ChainId(pub CryptoHash);

impl ChainId {
    /// The bytes whose hash identifies the root chain number `index`.
    pub open spec fn root_description(index: u32) -> Seq<u8> {
        seq![0u8] + le_bytes(index as nat, 4)
    }

    /// The identifier of the root chain number `index`.
    pub fn root(index: u32) -> (r: ChainId)
        ensures
            r.0@ == keccak256_of(Self::root_description(index)),
    {
        let mut description: Vec<u8> = Vec::new();
        description.push(0u8);
        push_le(&mut description, index as u128, 4);
        assert(description@ =~= Self::root_description(index));
        ChainId(CryptoHash::of_bytes(&description))
    }
}

impl Encode for ChainId {
    open spec fn encoding(&self) -> Seq<u8> {
        self.0.encoding()
    }

    fn encode_into(&self, out: &mut Vec<u8>) {
        self.0.encode_into(out);
    }

    fn copied(&self) -> (r: Self) {
        *self
    }
}

/// An amount of tokens, counted in attos (10^-18 of a token).
#[derive(Clone, Copy, Debug, PartialEq, Eq, Hash, PartialOrd, Ord, Default)]
pub struct Amount(pub u128);

/// The number of attos in one token.
pub const ATTOS_PER_TOKEN: u128 = 1_000_000_000_000_000_000;

impl Amount {
    /// The amount of `tokens` whole tokens.
    pub fn from_tokens(tokens: u64) -> (r: Amount)
        ensures
            r.0 == tokens as u128 * ATTOS_PER_TOKEN,
    {
        assert(tokens as u128 * ATTOS_PER_TOKEN <= u64::MAX as u128 * ATTOS_PER_TOKEN)
            by (nonlinear_arith);
        Amount(tokens as u128 * ATTOS_PER_TOKEN)
    }
}

impl Encode for Amount {
    open spec fn encoding(&self) -> Seq<u8> {
        self.0.encoding()
    }

    fn encode_into(&self, out: &mut Vec<u8>) {
        self.0.encode_into(out);
    }

    fn copied(&self) -> (r: Self) {
        *self
    }
}

/// An operation that a block carries.
#[derive(Clone, Debug, PartialEq, Eq, Hash)]
pub enum Operation {
    /// Moves `amount` to the chain `recipient`.
    Transfer { recipient: ChainId, amount: Amount },
    /// An operation of an application, as opaque bytes.
    User { bytes: Vec<u8> },
}

impl Encode for Operation {
    open spec fn encoding(&self) -> Seq<u8> {
        match self {
            Operation::Transfer { recipient, amount } => seq![0u8] + recipient.encoding()
                + amount.encoding(),
            Operation::User { bytes } => seq![1u8] + bytes.encoding(),
        }
    }

    fn encode_into(&self, out: &mut Vec<u8>) {
        match self {
            Operation::Transfer { recipient, amount } => {
                out.push(0u8);
                recipient.encode_into(out);
                amount.encode_into(out);
            },
            Operation::User { bytes } => {
                out.push(1u8);
                bytes.encode_into(out);
            },
        }
        assert(out@ =~= old(out)@ + self.encoding());
    }

    fn copied(&self) -> (r: Self) {
        match self {
            Operation::Transfer { recipient, amount } => Operation::Transfer {
                recipient: *recipient,
                amount: *amount,
            },
            Operation::User { bytes } => Operation::User { bytes: bytes.copied() },
        }
    }
}

/// The content of a proposed block.
#[derive(Clone, Debug, PartialEq, Eq, Hash)]
pub struct ProposedBlock {
    pub chain_id: ChainId,
    pub epoch: u32,
    pub height: u64,
    pub timestamp: u64,
    pub previous_block_hash: Option<CryptoHash>,
    pub operations: Vec<Operation>,
}

/// The first block of `chain_id`: height zero, no predecessor, no operation.
pub fn make_first_block(chain_id: ChainId) -> (r: ProposedBlock)
    ensures
        r.chain_id == chain_id,
        r.epoch == 0,
        r.height == 0,
        r.timestamp == 0,
        r.previous_block_hash is None,
        r.operations@.len() == 0,
{
    ProposedBlock {
        chain_id,
        epoch: 0,
        height: 0,
        timestamp: 0,
        previous_block_hash: None,
        operations: Vec::new(),
    }
}

impl ProposedBlock {
    /// This block with a transfer of `amount` to `recipient` added at the end.
    pub fn with_simple_transfer(self, recipient: ChainId, amount: Amount) -> (r: ProposedBlock)
        ensures
            r.chain_id == self.chain_id,
            r.epoch == self.epoch,
            r.height == self.height,
            r.timestamp == self.timestamp,
            r.previous_block_hash == self.previous_block_hash,
            r.operations@ == self.operations@.push(Operation::Transfer { recipient, amount }),
    {
        let mut block = self;
        block.operations.push(Operation::Transfer { recipient, amount });
        block
    }
}

impl Encode for ProposedBlock {
    open spec fn encoding(&self) -> Seq<u8> {
        self.chain_id.encoding() + self.epoch.encoding() + self.height.encoding()
            + self.timestamp.encoding() + self.previous_block_hash.encoding()
            + self.operations.encoding()
    }

    fn encode_into(&self, out: &mut Vec<u8>) {
        self.chain_id.encode_into(out);
        self.epoch.encode_into(out);
        self.height.encode_into(out);
        self.timestamp.encode_into(out);
        self.previous_block_hash.encode_into(out);
        self.operations.encode_into(out);
        assert(out@ =~= old(out)@ + self.encoding());
    }

    fn copied(&self) -> (r: Self) {
        ProposedBlock {
            chain_id: self.chain_id,
            epoch: self.epoch,
            height: self.height,
            timestamp: self.timestamp,
            previous_block_hash: self.previous_block_hash.copied(),
            operations: self.operations.copied(),
        }
    }
}

/// A message that executing a block sends to another chain.
#[derive(Clone, Debug, PartialEq, Eq, Hash)]
pub struct OutgoingMessage {
    pub destination: ChainId,
    pub payload: Vec<u8>,
}

impl Encode for OutgoingMessage {
    open spec fn encoding(&self) -> Seq<u8> {
        self.destination.encoding() + self.payload.encoding()
    }

    fn encode_into(&self, out: &mut Vec<u8>) {
        self.destination.encode_into(out);
        self.payload.encode_into(out);
        assert(out@ =~= old(out)@ + self.encoding());
    }

    fn copied(&self) -> (r: Self) {
        OutgoingMessage { destination: self.destination, payload: self.payload.copied() }
    }
}

/// An event that executing a block emits on a stream.
#[derive(Clone, Debug, PartialEq, Eq, Hash)]
pub struct Event {
    pub stream_id: Vec<u8>,
    pub index: u32,
    pub value: Vec<u8>,
}

impl Encode for Event {
    open spec fn encoding(&self) -> Seq<u8> {
        self.stream_id.encoding() + self.index.encoding() + self.value.encoding()
    }

    fn encode_into(&self, out: &mut Vec<u8>) {
        self.stream_id.encode_into(out);
        self.index.encode_into(out);
        self.value.encode_into(out);
        assert(out@ =~= old(out)@ + self.encoding());
    }

    fn copied(&self) -> (r: Self) {
        Event {
            stream_id: self.stream_id.copied(),
            index: self.index,
            value: self.value.copied(),
        }
    }
}

/// What one operation of a block returned, as opaque bytes.
#[derive(Clone, Debug, PartialEq, Eq, Hash, Default)]
pub struct OperationResult(pub Vec<u8>);

impl Encode for OperationResult {
    open spec fn encoding(&self) -> Seq<u8> {
        self.0.encoding()
    }

    fn encode_into(&self, out: &mut Vec<u8>) {
        self.0.encode_into(out);
    }

    fn copied(&self) -> (r: Self) {
        OperationResult(self.0.copied())
    }
}

/// What executing a block produced. Each list holds one entry per transaction,
/// in order.
#[derive(Clone, Debug, PartialEq, Eq, Hash)]
pub struct BlockExecutionOutcome {
    /// The messages sent, one batch per transaction.
    pub messages: Vec<Vec<OutgoingMessage>>,
    /// For each chain that receives messages, the last earlier block that sent it some.
    pub previous_message_blocks: Vec<(ChainId, CryptoHash)>,
    /// The hash of the chain's state after the block.
    pub state_hash: CryptoHash,
    /// The oracle responses recorded, one batch per transaction.
    pub oracle_responses: Vec<Vec<Vec<u8>>>,
    /// The events emitted, one batch per transaction.
    pub events: Vec<Vec<Event>>,
    /// The blobs published, one batch per transaction.
    pub blobs: Vec<Vec<Vec<u8>>>,
    /// The result of each operation.
    pub operation_results: Vec<OperationResult>,
}

impl BlockExecutionOutcome {
    /// The executed block made of `block` and this outcome.
    pub fn with(self, block: ProposedBlock) -> (r: ExecutedBlock)
        ensures
            r.block == block,
            r.outcome == self,
    {
        ExecutedBlock { block, outcome: self }
    }
}

impl Encode for BlockExecutionOutcome {
    open spec fn encoding(&self) -> Seq<u8> {
        self.messages.encoding() + self.previous_message_blocks.encoding()
            + self.state_hash.encoding() + self.oracle_responses.encoding()
            + self.events.encoding() + self.blobs.encoding() + self.operation_results.encoding()
    }

    fn encode_into(&self, out: &mut Vec<u8>) {
        self.messages.encode_into(out);
        self.previous_message_blocks.encode_into(out);
        self.state_hash.encode_into(out);
        self.oracle_responses.encode_into(out);
        self.events.encode_into(out);
        self.blobs.encode_into(out);
        self.operation_results.encode_into(out);
        assert(out@ =~= old(out)@ + self.encoding());
    }

    fn copied(&self) -> (r: Self) {
        BlockExecutionOutcome {
            messages: self.messages.copied(),
            previous_message_blocks: self.previous_message_blocks.copied(),
            state_hash: self.state_hash,
            oracle_responses: self.oracle_responses.copied(),
            events: self.events.copied(),
            blobs: self.blobs.copied(),
            operation_results: self.operation_results.copied(),
        }
    }
}

/// A block together with the outcome of its execution.
#[derive(Clone, Debug, PartialEq, Eq, Hash)]
pub struct ExecutedBlock {
    pub block: ProposedBlock,
    pub outcome: BlockExecutionOutcome,
}

impl Encode for ExecutedBlock {
    open spec fn encoding(&self) -> Seq<u8> {
        self.block.encoding() + self.outcome.encoding()
    }

    fn encode_into(&self, out: &mut Vec<u8>) {
        self.block.encode_into(out);
        self.outcome.encode_into(out);
        assert(out@ =~= old(out)@ + self.encoding());
    }

    fn copied(&self) -> (r: Self) {
        ExecutedBlock { block: self.block.copied(), outcome: self.outcome.copied() }
    }
}

} // verus!
