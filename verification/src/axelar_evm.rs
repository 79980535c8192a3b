//! The router that carries a message to the gateway contract on an EVM
//! chain.
//!
//! `get_axelar_encoded_msg` renders the exact call data the gateway function
//! expects; `AxelarEVMRouter` composes that encoder with a submission
//! mechanism and never submits anything when encoding fails.
use crate::abi::{
    addr_hex, address_to_hex_bytes, axelar_selector, bytes_are_valid_utf8, ceil32, encode_word,
    encoded_call, head_offset_2, head_offset_3, lemma_ceil32_bounds, push_all, push_tail,
    short_selector,
};
use crate::router::{clone_bytes, DispatchRecord, SubmissionError, SubmissionMechanism};
use crate::AXELAR_FUNCTION_NAME;
use vstd::prelude::*;
use vstd::utf8::valid_utf8;

verus! {

/// Why an encoding attempt failed. Every reason is terminal for the call:
/// the caller sees it verbatim and nothing was submitted.
#[derive(Clone, Copy, Debug, PartialEq, Eq, Structural)]
pub enum EncodeError {
    /// The fixed function descriptor could not be obtained.
    FunctionDescriptorUnavailable,
    /// The chain identifier bytes are not valid UTF-8.
    InvalidChainIdEncoding,
    /// The ABI encoding step rejected the arguments.
    ArgumentEncodingFailed,
}

impl EncodeError {
    /// The stable reason string that belongs to each failure.
    pub open spec fn reason_spec(&self) -> Seq<char> {
        match self {
            EncodeError::FunctionDescriptorUnavailable => "cannot retrieve Axelar contract function"@,
            EncodeError::InvalidChainIdEncoding => "target chain conversion error"@,
            EncodeError::ArgumentEncodingFailed => "cannot encode input for Axelar contract function"@,
        }
    }

    /// The stable reason string reported for this failure.
    pub fn reason(&self) -> (r: &'static str)
        ensures
            r@ == self.reason_spec(),
    {
        match self {
            EncodeError::FunctionDescriptorUnavailable => "cannot retrieve Axelar contract function",
            EncodeError::InvalidChainIdEncoding => "target chain conversion error",
            EncodeError::ArgumentEncodingFailed => "cannot encode input for Axelar contract function",
        }
    }
}

/// `n` rounded up to the next multiple of 32, as a machine word.
fn ceil32_exec(n: usize) -> (r: usize)
    requires
        n + 31 <= usize::MAX,
    ensures
        r as nat == ceil32(n as nat),
        r <= n + 31,
{
    ((n + 31) / 32) * 32
}

/// Encodes the provided message into the format required for submitting it
/// to the Axelar gateway contract, which in turn calls the target contract
/// with the serialized message as its payload.
///
/// The call data is the fixed four-byte selector of the gateway function,
/// followed by the ABI encoding of the chain identifier (as a string), the
/// target contract address (as the string `0x` plus 40 lowercase hex
/// characters) and the raw payload bytes.
pub fn get_axelar_encoded_msg(
    serialized_msg: Vec<u8>,
    target_chain: Vec<u8>,
    target_contract: [u8; 20],
) -> (r: Result<Vec<u8>, EncodeError>)
    requires
        target_chain@.len() + serialized_msg@.len() + 400 <= usize::MAX,
    ensures
        (r is Ok) <==> valid_utf8(target_chain@),
        r matches Ok(v) ==> v@ == encoded_call(target_chain@, target_contract@, serialized_msg@),
        r matches Ok(v) ==> v@.len() >= 4 && v@.subrange(0, 4) == axelar_selector(),
        r matches Err(e) ==> e == EncodeError::InvalidChainIdEncoding,
{
    if !bytes_are_valid_utf8(&target_chain) {
        return Err(EncodeError::InvalidChainIdEncoding);
    }
    let mut out: Vec<u8> = short_selector(AXELAR_FUNCTION_NAME, 0, 0, 1);
    let hex_addr: Vec<u8> = address_to_hex_bytes(&target_contract);
    let off1: usize = 96;
    let c_pad: usize = ceil32_exec(target_chain.len());
    let a_pad: usize = ceil32_exec(hex_addr.len());
    let off2: usize = off1 + 32 + c_pad;
    let off3: usize = off2 + 32 + a_pad;
    proof {
        lemma_ceil32_bounds(target_chain@.len());
        lemma_ceil32_bounds(hex_addr@.len());
        assert(off2 as nat == head_offset_2(target_chain@));
        assert(off3 as nat == head_offset_3(target_chain@, addr_hex(target_contract@)));
    }
    let w1: Vec<u8> = encode_word(off1 as u64);
    push_all(&mut out, &w1);
    let w2: Vec<u8> = encode_word(off2 as u64);
    push_all(&mut out, &w2);
    let w3: Vec<u8> = encode_word(off3 as u64);
    push_all(&mut out, &w3);
    push_tail(&mut out, &target_chain);
    push_tail(&mut out, &hex_addr);
    push_tail(&mut out, &serialized_msg);
    proof {
        assert(out@ =~= encoded_call(target_chain@, target_contract@, serialized_msg@));
        assert(out@.subrange(0, 4) =~= axelar_selector());
    }
    Ok(out)
}

/// Why a router configuration was rejected. Configuration errors are caught
/// when the route is built and can never reach `do_send`.
#[derive(Clone, Copy, Debug, PartialEq, Eq, Structural)]
pub enum ConfigError {
    /// The chain identifier is longer than `MAX_AXELAR_EVM_CHAIN_SIZE`.
    ChainIdTooLong,
}

/// A destination chain identifier: at most `MAX_AXELAR_EVM_CHAIN_SIZE`
/// bytes, held as raw bytes and checked for UTF-8 only at encode time.
pub struct ChainIdentifier {
    bytes: Vec<u8>,
}

impl View for ChainIdentifier {
    type V = Seq<u8>;

    closed spec fn view(&self) -> Seq<u8> {
        self.bytes@
    }
}

impl ChainIdentifier {
    /// The length bound that every constructed identifier obeys.
    pub open spec fn wf(&self) -> bool {
        self@.len() <= crate::MAX_AXELAR_EVM_CHAIN_SIZE
    }

    /// Accepts exactly the byte strings within the length bound.
    pub fn new(bytes: Vec<u8>) -> (r: Result<ChainIdentifier, ConfigError>)
        ensures
            (r is Ok) <==> bytes@.len() <= crate::MAX_AXELAR_EVM_CHAIN_SIZE,
            r matches Ok(c) ==> c@ == bytes@ && c.wf(),
            r matches Err(e) ==> e == ConfigError::ChainIdTooLong,
    {
        if bytes.len() <= crate::MAX_AXELAR_EVM_CHAIN_SIZE as usize {
            Ok(ChainIdentifier { bytes })
        } else {
            Err(ConfigError::ChainIdTooLong)
        }
    }

    /// The identifier's bytes.
    pub fn as_bytes(&self) -> (r: &Vec<u8>)
        ensures
            r@ == self@,
    {
        &self.bytes
    }
}

/// Why a send attempt failed.
#[derive(Clone, Copy, Debug)]
pub enum SendError {
    /// Encoding failed; nothing was dispatched.
    Encoding(EncodeError),
    /// The submission mechanism rejected the dispatched call.
    Submission(SubmissionError),
}

impl SendError {
    /// The stable reason string reported for this failure.
    pub fn reason(&self) -> (r: &'static str)
        ensures
            self matches SendError::Encoding(e) ==> r@ == e.reason_spec(),
            self matches SendError::Submission(s) ==> r == s.reason,
    {
        match self {
            SendError::Encoding(e) => e.reason(),
            SendError::Submission(s) => s.reason,
        }
    }
}

/// The router used for executing a contract call via Axelar: a destination
/// descriptor composed with an underlying submission mechanism.
pub struct AxelarEVMRouter<M: SubmissionMechanism> {
    pub router: M,
    pub evm_chain: ChainIdentifier,
    pub liquidity_pools_contract_address: [u8; 20],
}

impl<M: SubmissionMechanism> AxelarEVMRouter<M> {
    pub fn new(
        router: M,
        evm_chain: ChainIdentifier,
        liquidity_pools_contract_address: [u8; 20],
    ) -> (r: Self)
        ensures
            r.router == router,
            r.evm_chain == evm_chain,
            r.liquidity_pools_contract_address == liquidity_pools_contract_address,
    {
        Self { router, evm_chain, liquidity_pools_contract_address }
    }

    /// Calls the init function on the underlying submission mechanism;
    /// nothing is dispatched by initialization.
    pub fn do_init(&mut self) -> (r: Result<(), SubmissionError>)
        ensures
            final(self).router.log() == old(self).router.log(),
            final(self).evm_chain == old(self).evm_chain,
            final(self).liquidity_pools_contract_address == old(
                self,
            ).liquidity_pools_contract_address,
    {
        self.router.do_init()
    }

    /// Encodes the message for the gateway contract and, only when encoding
    /// succeeds, dispatches the encoded call through the submission
    /// mechanism. When encoding fails, the mechanism is untouched: nothing
    /// was dispatched and no state changed.
    pub fn do_send(&mut self, sender: Vec<u8>, msg: Vec<u8>) -> (r: Result<(), SendError>)
        requires
            old(self).evm_chain.wf(),
            msg@.len() + 500 <= usize::MAX,
        ensures
            final(self).evm_chain == old(self).evm_chain,
            final(self).liquidity_pools_contract_address == old(
                self,
            ).liquidity_pools_contract_address,
            !valid_utf8(old(self).evm_chain@) ==> final(self).router == old(self).router
                && r matches Err(SendError::Encoding(EncodeError::InvalidChainIdEncoding)),
            valid_utf8(old(self).evm_chain@) ==> final(self).router.log() == old(
                self,
            ).router.log().push(
                DispatchRecord {
                    sender: sender@,
                    payload: encoded_call(
                        old(self).evm_chain@,
                        old(self).liquidity_pools_contract_address@,
                        msg@,
                    ),
                },
            ) && ((r is Ok) || r matches Err(SendError::Submission(_))),
    {
        let chain: Vec<u8> = clone_bytes(self.evm_chain.as_bytes());
        let eth_msg: Vec<u8> = match get_axelar_encoded_msg(
            msg,
            chain,
            self.liquidity_pools_contract_address,
        ) {
            Ok(v) => v,
            Err(e) => {
                return Err(SendError::Encoding(e));
            },
        };
        match self.router.dispatch(&sender, eth_msg) {
            Ok(()) => Ok(()),
            Err(e) => Err(SendError::Submission(e)),
        }
    }
}

} // verus!
