//! Outbound message routing toward an Axelar gateway contract on an EVM
//! chain.
//!
//! The crate renders an opaque application message into the exact call data
//! that the gateway contract expects (a four-byte function selector followed
//! by the contract-ABI encoding of the destination chain name, the hex-rendered
//! destination contract address and the raw payload), and composes that
//! encoder with a pluggable submission mechanism that carries the encoded
//! call onto the chain.
use vstd::prelude::*;

pub mod abi;
pub mod axelar_evm;
pub mod mock;
pub mod router;

verus! {

/// Name of the gateway contract function that every encoded call targets.
pub const AXELAR_FUNCTION_NAME: &'static str = "callContract";

/// Name of the gateway function's first parameter: the destination chain.
pub const AXELAR_DESTINATION_CHAIN_PARAM: &'static str = "destinationChain";

/// Name of the gateway function's second parameter: the receiving contract.
pub const AXELAR_DESTINATION_CONTRACT_ADDRESS_PARAM: &'static str = "destinationContractAddress";

/// Name of the gateway function's third parameter: the opaque message.
pub const AXELAR_PAYLOAD_PARAM: &'static str = "payload";

/// Upper bound on the byte length of a destination chain identifier.
pub const MAX_AXELAR_EVM_CHAIN_SIZE: u32 = 16;

} // verus!
