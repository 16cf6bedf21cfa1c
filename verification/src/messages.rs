//! The messages that the miner sends to a Cryptix node.
use vstd::prelude::*;

verus! {

/// Asks the node for its state.
#[derive(Debug, Clone, PartialEq, Eq)]
pub struct GetInfoRequestMessage {}

/// Subscribes to notifications of added blocks.
#[derive(Debug, Clone, PartialEq, Eq)]
pub struct NotifyBlockAddedRequestMessage {}

/// Subscribes to notifications of new block templates.
#[derive(Debug, Clone, PartialEq, Eq)]
pub struct NotifyNewBlockTemplateRequestMessage {}

/// Asks the node for a block template paying to `pay_address`.
#[derive(Debug, Clone, PartialEq, Eq)]
pub struct GetBlockTemplateRequestMessage {
    pub pay_address: String,
    pub extra_data: String,
}

/// The parents of a block at one level of the block DAG, as hex strings.
#[derive(Debug, Clone, PartialEq, Eq)]
pub struct RpcBlockLevelParents {
    pub parent_hashes: Vec<String>,
}

/// The header of a block as the node's RPC carries it.
#[derive(Debug, Clone, PartialEq, Eq)]
pub struct RpcBlockHeader {
    pub version: u32,
    pub parents: Vec<RpcBlockLevelParents>,
    pub hash_merkle_root: String,
    pub accepted_id_merkle_root: String,
    pub utxo_commitment: String,
    pub timestamp: i64,
    pub bits: u32,
    pub nonce: u64,
    pub daa_score: u64,
    pub blue_work: String,
    pub pruning_point: String,
    pub blue_score: u64,
}

/// A block as the node's RPC carries it.
#[derive(Debug, Clone, PartialEq, Eq)]
pub struct RpcBlock {
    pub header: Option<RpcBlockHeader>,
}

/// Submits a mined block.
#[derive(Debug, Clone, PartialEq, Eq)]
pub struct SubmitBlockRequestMessage {
    pub block: Option<RpcBlock>,
    pub allow_non_daa_blocks: bool,
}

/// The request that a message carries.
#[derive(Debug, Clone, PartialEq, Eq)]
pub enum Payload {
    GetInfoRequest(GetInfoRequestMessage),
    NotifyBlockAddedRequest(NotifyBlockAddedRequestMessage),
    SubmitBlockRequest(SubmitBlockRequestMessage),
    GetBlockTemplateRequest(GetBlockTemplateRequestMessage),
    NotifyNewBlockTemplateRequest(NotifyNewBlockTemplateRequestMessage),
}

/// A message to the node.
#[derive(Debug, Clone, PartialEq, Eq)]
pub struct CryptixdMessage {
    pub payload: Option<Payload>,
}

impl CryptixdMessage {
    /// A request for the node's state.
    pub fn get_info_request() -> (m: Self)
        ensures
            m == (CryptixdMessage { payload: Some(Payload::GetInfoRequest(GetInfoRequestMessage {})) }),
    {
        CryptixdMessage { payload: Some(Payload::GetInfoRequest(GetInfoRequestMessage {})) }
    }

    /// A subscription to added blocks.
    pub fn notify_block_added() -> (m: Self)
        ensures
            m == (CryptixdMessage {
                payload: Some(Payload::NotifyBlockAddedRequest(NotifyBlockAddedRequestMessage {})),
            }),
    {
        CryptixdMessage {
            payload: Some(Payload::NotifyBlockAddedRequest(NotifyBlockAddedRequestMessage {})),
        }
    }

    /// Submits `block`, refusing blocks outside the DAA window.
    pub fn submit_block(block: RpcBlock) -> (m: Self)
        ensures
            m == (CryptixdMessage {
                payload: Some(
                    Payload::SubmitBlockRequest(
                        SubmitBlockRequestMessage { block: Some(block), allow_non_daa_blocks: false },
                    ),
                ),
            }),
    {
        CryptixdMessage {
            payload: Some(
                Payload::SubmitBlockRequest(
                    SubmitBlockRequestMessage { block: Some(block), allow_non_daa_blocks: false },
                ),
            ),
        }
    }
}

impl From<GetInfoRequestMessage> for CryptixdMessage {
    fn from(a: GetInfoRequestMessage) -> (m: Self) {
        CryptixdMessage { payload: Some(Payload::GetInfoRequest(a)) }
    }
}

impl vstd::std_specs::convert::FromSpecImpl<GetInfoRequestMessage> for CryptixdMessage {
    open spec fn obeys_from_spec() -> bool {
        true
    }

    open spec fn from_spec(a: GetInfoRequestMessage) -> Self {
        CryptixdMessage { payload: Some(Payload::GetInfoRequest(a)) }
    }
}

impl From<NotifyBlockAddedRequestMessage> for CryptixdMessage {
    fn from(a: NotifyBlockAddedRequestMessage) -> (m: Self) {
        CryptixdMessage { payload: Some(Payload::NotifyBlockAddedRequest(a)) }
    }
}

impl vstd::std_specs::convert::FromSpecImpl<NotifyBlockAddedRequestMessage> for CryptixdMessage {
    open spec fn obeys_from_spec() -> bool {
        true
    }

    open spec fn from_spec(a: NotifyBlockAddedRequestMessage) -> Self {
        CryptixdMessage { payload: Some(Payload::NotifyBlockAddedRequest(a)) }
    }
}

impl From<GetBlockTemplateRequestMessage> for CryptixdMessage {
    fn from(a: GetBlockTemplateRequestMessage) -> (m: Self) {
        CryptixdMessage { payload: Some(Payload::GetBlockTemplateRequest(a)) }
    }
}

impl vstd::std_specs::convert::FromSpecImpl<GetBlockTemplateRequestMessage> for CryptixdMessage {
    open spec fn obeys_from_spec() -> bool {
        true
    }

    open spec fn from_spec(a: GetBlockTemplateRequestMessage) -> Self {
        CryptixdMessage { payload: Some(Payload::GetBlockTemplateRequest(a)) }
    }
}

impl From<NotifyNewBlockTemplateRequestMessage> for CryptixdMessage {
    fn from(a: NotifyNewBlockTemplateRequestMessage) -> (m: Self) {
        CryptixdMessage { payload: Some(Payload::NotifyNewBlockTemplateRequest(a)) }
    }
}

impl vstd::std_specs::convert::FromSpecImpl<NotifyNewBlockTemplateRequestMessage> for CryptixdMessage {
    open spec fn obeys_from_spec() -> bool {
        true
    }

    open spec fn from_spec(a: NotifyNewBlockTemplateRequestMessage) -> Self {
        CryptixdMessage { payload: Some(Payload::NotifyNewBlockTemplateRequest(a)) }
    }
}

} // verus!
