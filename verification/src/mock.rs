//! Plain-data models of the runtime collaborators that surround the router
//! in its host chain: fee and author selection stubs, address and currency
//! conversions, relay-call encoders, and a recording message sender.
//!
//! Each conversion works on the values the runtime types carry — an address
//! as its 20 bytes, an account as its 32 bytes, a consensus location as a
//! parent count plus a list of junctions — so the conversions themselves are
//! verified against exact contracts.
use crate::abi::push_all;
use vstd::prelude::*;

verus! {

/// A dispatch weight: computation time and proof size.
#[derive(Clone, Copy, Debug, PartialEq, Eq, Structural)]
pub struct Weight {
    pub ref_time: u64,
    pub proof_size: u64,
}

/// A consensus location: how many parents to climb, then which junctions to
/// descend.
#[derive(Clone, Debug)]
pub struct Location {
    pub parents: u8,
    pub interior: Vec<Junction>,
}

/// One step of a consensus location.
#[derive(Clone, Debug)]
pub enum Junction {
    Parachain(u32),
    AccountKey20 { key: Vec<u8> },
    PalletInstance(u8),
}

impl Location {
    /// The parent location: one parent up, no junctions.
    pub fn parent() -> (r: Location)
        ensures
            r.parents == 1,
            r.interior@ == Seq::<Junction>::empty(),
    {
        Location { parents: 1, interior: Vec::new() }
    }
}

/// A fee calculator that always quotes the same gas price.
pub struct FixedGasPrice;

impl FixedGasPrice {
    /// One gwei, with a fixed small weight.
    pub fn min_gas_price() -> (r: (u128, Weight))
        ensures
            r.0 == 1_000_000_000u128,
            r.1 == (Weight { ref_time: 7, proof_size: 0 }),
    {
        (1_000_000_000u128, Weight { ref_time: 7, proof_size: 0 })
    }
}

/// The 32-byte account that stands for a 20-byte EVM address: the address,
/// an 8-byte big-endian one, the tag `EVM`, and a zero byte.
pub open spec fn evm_account_of(a: Seq<u8>) -> Seq<u8> {
    Seq::new(32, |i: int| {
        if i < 20 {
            a[i]
        } else if i < 27 {
            0u8
        } else if i == 27 {
            1u8
        } else if i == 28 {
            0x45u8
        } else if i == 29 {
            0x56u8
        } else if i == 30 {
            0x4Du8
        } else {
            0u8
        }
    })
}

/// Identity address mapping: an EVM address embedded in an account
/// identifier.
pub struct IdentityAddressMapping;

impl IdentityAddressMapping {
    /// Embeds the address in a 32-byte account identifier, tagged `EVM`.
    pub fn into_account_id(address: [u8; 20]) -> (r: Vec<u8>)
        ensures
            r@ == evm_account_of(address@),
            r@.len() == 32,
    {
        let mut r: Vec<u8> = Vec::new();
        let mut i: usize = 0;
        while i < 20
            invariant
                i <= 20,
                r@.len() == i,
                forall|t: int| 0 <= t < i ==> r@[t] == address@[t],
            decreases 20 - i,
        {
            r.push(address[i]);
            i = i + 1;
        }
        let mut j: usize = 0;
        while j < 7
            invariant
                j <= 7,
                r@.len() == 20 + j,
                forall|t: int| 0 <= t < 20 ==> r@[t] == address@[t],
                forall|t: int| 20 <= t < r@.len() ==> r@[t] == 0u8,
            decreases 7 - j,
        {
            r.push(0u8);
            j = j + 1;
        }
        r.push(1u8);
        r.push(0x45u8);
        r.push(0x56u8);
        r.push(0x4Du8);
        r.push(0u8);
        proof {
            assert(r@ =~= evm_account_of(address@));
        }
        r
    }
}

/// The fixed block author: the truncated address `0x1234500000…`.
pub open spec fn truncated_author() -> Seq<u8> {
    Seq::new(20, |i: int| {
        if i == 0 {
            0x12u8
        } else if i == 1 {
            0x34u8
        } else if i == 2 {
            0x50u8
        } else {
            0u8
        }
    })
}

/// An author lookup that always names the same truncated address.
pub struct FindAuthorTruncated;

impl FindAuthorTruncated {
    /// Always finds the fixed author, whatever the digests say.
    pub fn find_author() -> (r: Option<Vec<u8>>)
        ensures
            r matches Some(a) && a@ == truncated_author(),
    {
        let mut a: Vec<u8> = Vec::new();
        a.push(0x12u8);
        a.push(0x34u8);
        a.push(0x50u8);
        let mut i: usize = 0;
        while i < 17
            invariant
                i <= 17,
                a@.len() == 3 + i,
                a@[0] == 0x12u8 && a@[1] == 0x34u8 && a@[2] == 0x50u8,
                forall|t: int| 3 <= t < a@.len() ==> a@[t] == 0u8,
            decreases 17 - i,
        {
            a.push(0u8);
            i = i + 1;
        }
        proof {
            assert(a@ =~= truncated_author());
        }
        Some(a)
    }
}

/// What a precompile-set lookup answers: whether the address is a
/// precompile, and at what extra cost.
#[derive(Clone, Copy, Debug, PartialEq, Eq, Structural)]
pub struct PrecompileCheck {
    pub is_precompile: bool,
    pub extra_cost: u64,
}

/// The address of the only precompile in the set: nineteen zero bytes, then
/// a one.
pub open spec fn precompile_address() -> Seq<u8> {
    Seq::new(20, |i: int| {
        if i == 19 {
            1u8
        } else {
            0u8
        }
    })
}

/// A precompile set holding exactly the identity precompile at address one.
pub struct MockPrecompileSet;

impl MockPrecompileSet {
    /// Answers whether `address` is the set's one precompile, at no extra
    /// cost.
    pub fn is_precompile(&self, address: &[u8; 20], _remaining_gas: u64) -> (r: PrecompileCheck)
        ensures
            r.is_precompile <==> address@ == precompile_address(),
            r.extra_cost == 0,
    {
        let mut eq: bool = address[19] == 1;
        let mut i: usize = 0;
        while i < 19
            invariant
                i <= 19,
                eq <==> (address@[19] == 1u8 && forall|t: int| 0 <= t < i ==> address@[t] == 0u8),
            decreases 19 - i,
        {
            if address[i] != 0 {
                eq = false;
            }
            i = i + 1;
        }
        proof {
            if eq {
                assert(address@ =~= precompile_address());
            }
        }
        PrecompileCheck { is_precompile: eq, extra_cost: 0 }
    }
}

/// An asset together with its amount.
pub type Asset = (Location, u128);

/// An asset transactor that accepts everything and holds nothing.
pub struct DummyAssetTransactor;

impl DummyAssetTransactor {
    /// Accepts any deposit.
    pub fn deposit_asset(_what: &Asset, _who: &Location) -> (r: Result<(), ()>)
        ensures
            r is Ok,
    {
        Ok(())
    }

    /// Yields an empty holding for any withdrawal.
    pub fn withdraw_asset(_what: &Asset, _who: &Location) -> (r: Result<Vec<Asset>, ()>)
        ensures
            r matches Ok(v) && v@.len() == 0,
    {
        Ok(Vec::new())
    }
}

/// A weigher that weighs every message and instruction as zero.
pub struct DummyWeigher;

impl DummyWeigher {
    /// Weighs any message as zero.
    pub fn weight(_message: &Vec<u8>) -> (r: Result<Weight, ()>)
        ensures
            r == Ok::<Weight, ()>(Weight { ref_time: 0, proof_size: 0 }),
    {
        Ok(Weight { ref_time: 0, proof_size: 0 })
    }

    /// Weighs any single instruction as zero.
    pub fn instr_weight(_instruction: &Vec<u8>) -> (r: Result<Weight, ()>)
        ensures
            r == Ok::<Weight, ()>(Weight { ref_time: 0, proof_size: 0 }),
    {
        Ok(Weight { ref_time: 0, proof_size: 0 })
    }
}

/// The SCALE image of a 16-bit value: its two bytes, least significant
/// first.
pub open spec fn le16(x: u16) -> Seq<u8> {
    seq![(x % 256) as u8, (x / 256) as u8]
}

/// A call of the relay chain's utility pallet.
#[derive(Clone, Debug)]
pub enum UtilityCall {
    AsDerivative(u16),
}

impl UtilityCall {
    /// The SCALE image: the variant index, then the derivative index.
    pub open spec fn encode_spec(&self) -> Seq<u8> {
        match self {
            UtilityCall::AsDerivative(a) => seq![0u8] + le16(*a),
        }
    }

    /// SCALE-encodes the call.
    pub fn encode(&self) -> (r: Vec<u8>)
        ensures
            r@ == self.encode_spec(),
    {
        let mut r: Vec<u8> = Vec::new();
        match self {
            UtilityCall::AsDerivative(a) => {
                r.push(0u8);
                r.push((*a % 256) as u8);
                r.push((*a / 256) as u8);
            },
        }
        proof {
            assert(r@ =~= self.encode_spec());
        }
        r
    }
}

/// A call of the relay chain's HRMP pallet.
#[derive(Clone, Debug)]
pub enum HrmpCall {
    Init(),
    Accept(),
    Close(),
}

impl HrmpCall {
    /// The SCALE image: the variant index alone.
    pub open spec fn encode_spec(&self) -> Seq<u8> {
        match self {
            HrmpCall::Init() => seq![0u8],
            HrmpCall::Accept() => seq![1u8],
            HrmpCall::Close() => seq![2u8],
        }
    }

    /// SCALE-encodes the call.
    pub fn encode(&self) -> (r: Vec<u8>)
        ensures
            r@ == self.encode_spec(),
    {
        let mut r: Vec<u8> = Vec::new();
        match self {
            HrmpCall::Init() => r.push(0u8),
            HrmpCall::Accept() => r.push(1u8),
            HrmpCall::Close() => r.push(2u8),
        }
        proof {
            assert(r@ =~= self.encode_spec());
        }
        r
    }
}

/// A call addressed to the relay chain: one of its two pallets the mock
/// runtime speaks to.
#[derive(Clone, Debug)]
pub enum RelayCall {
    Utility(UtilityCall),
    Hrmp(HrmpCall),
}

impl RelayCall {
    /// The SCALE image: the pallet index, then the inner call.
    pub open spec fn encode_spec(&self) -> Seq<u8> {
        match self {
            RelayCall::Utility(u) => seq![0u8] + u.encode_spec(),
            RelayCall::Hrmp(h) => seq![1u8] + h.encode_spec(),
        }
    }

    /// SCALE-encodes the call.
    pub fn encode(&self) -> (r: Vec<u8>)
        ensures
            r@ == self.encode_spec(),
    {
        let mut r: Vec<u8> = Vec::new();
        match self {
            RelayCall::Utility(u) => {
                r.push(0u8);
                let inner: Vec<u8> = u.encode();
                push_all(&mut r, &inner);
            },
            RelayCall::Hrmp(h) => {
                r.push(1u8);
                let inner: Vec<u8> = h.encode();
                push_all(&mut r, &inner);
            },
        }
        proof {
            assert(r@ =~= self.encode_spec());
        }
        r
    }
}

/// A utility call to run under a derivative account, with its inner call
/// bytes.
#[derive(Clone, Debug)]
pub enum UtilityAvailableCalls {
    AsDerivative(u16, Vec<u8>),
}

/// The transactors the mock runtime knows: only the relay chain.
#[derive(Clone, Copy, Debug, PartialEq, Eq, Structural)]
pub enum Transactors {
    Relay,
}

impl Default for Transactors {
    /// The relay chain is the default transactor.
    fn default() -> (r: Self)
        ensures
            r == Transactors::Relay,
    {
        Transactors::Relay
    }
}

impl Transactors {
    /// Where the transactor's calls go: the parent location.
    pub fn destination(self) -> (r: Location)
        ensures
            r.parents == 1,
            r.interior@ == Seq::<Junction>::empty(),
    {
        match self {
            Transactors::Relay => Location::parent(),
        }
    }

    /// Encodes a utility call for the relay chain: the SCALE image of the
    /// derivative wrapper, then the inner call bytes.
    pub fn encode_call(self, call: UtilityAvailableCalls) -> (r: Vec<u8>)
        ensures
            call matches UtilityAvailableCalls::AsDerivative(a, b) ==> r@ == RelayCall::Utility(
                UtilityCall::AsDerivative(a),
            ).encode_spec() + b@,
    {
        match self {
            Transactors::Relay => match call {
                UtilityAvailableCalls::AsDerivative(a, b) => {
                    let mut out: Vec<u8> = RelayCall::Utility(UtilityCall::AsDerivative(a)).encode();
                    push_all(&mut out, &b);
                    out
                },
            },
        }
    }
}

/// Converts any account to the fixed key-20 location the mock runtime pins
/// it to.
pub struct AccountIdToLocation;

impl AccountIdToLocation {
    /// The location of the repeated-`0xAA` EVM key, at the local consensus.
    pub fn convert(_account: [u8; 32]) -> (r: Location)
        ensures
            r.parents == 0,
            r.interior@.len() == 1,
            r.interior@[0] matches Junction::AccountKey20 { key } && key@ == Seq::new(
                20,
                |i: int| 0xAAu8,
            ),
    {
        let mut key: Vec<u8> = Vec::new();
        let mut i: usize = 0;
        while i < 20
            invariant
                i <= 20,
                key@.len() == i,
                forall|t: int| 0 <= t < key@.len() ==> key@[t] == 0xAAu8,
            decreases 20 - i,
        {
            key.push(0xAAu8);
            i = i + 1;
        }
        proof {
            assert(key@ =~= Seq::new(20, |i: int| 0xAAu8));
        }
        let mut interior: Vec<Junction> = Vec::new();
        interior.push(Junction::AccountKey20 { key });
        Location { parents: 0, interior }
    }
}

/// The currencies the mock runtime prices: its own, or a reserve asset.
#[derive(Clone, Copy, Debug, PartialEq, Eq, Structural)]
pub enum CurrencyId {
    SelfReserve,
    OtherReserve(u128),
}

/// The parachain identifier of the mock runtime.
pub const PARACHAIN_ID: u32 = 100;

/// The index the balances pallet holds in the mock runtime.
pub const BALANCES_PALLET_INDEX: u8 = 1;

/// Maps a currency to the location of its reserve.
pub struct CurrencyIdToLocation;

impl CurrencyIdToLocation {
    /// The self reserve lives under this parachain at the balances pallet;
    /// reserve asset zero is the relay chain itself; every other reserve
    /// asset lives on parachain two.
    pub fn convert(currency: CurrencyId) -> (r: Option<Location>)
        ensures
            currency matches CurrencyId::SelfReserve ==> r matches Some(l) && l.parents == 1
                && l.interior@.len() == 2 && (l.interior@[0] matches Junction::Parachain(p) && p
                == PARACHAIN_ID) && (l.interior@[1] matches Junction::PalletInstance(x) && x
                == BALANCES_PALLET_INDEX),
            currency matches CurrencyId::OtherReserve(a) ==> r matches Some(l) && l.parents == 1
                && (a == 0 ==> l.interior@.len() == 0) && (a != 0 ==> l.interior@.len() == 1 && (
            l.interior@[0] matches Junction::Parachain(p) && p == 2)),
    {
        match currency {
            CurrencyId::SelfReserve => {
                let mut interior: Vec<Junction> = Vec::new();
                interior.push(Junction::Parachain(PARACHAIN_ID));
                interior.push(Junction::PalletInstance(BALANCES_PALLET_INDEX));
                Some(Location { parents: 1, interior })
            },
            CurrencyId::OtherReserve(asset) => {
                if asset == 0 {
                    Some(Location::parent())
                } else {
                    let mut interior: Vec<Junction> = Vec::new();
                    interior.push(Junction::Parachain(2));
                    Some(Location { parents: 1, interior })
                }
            },
        }
    }
}

/// The HRMP operations a caller can ask the mock encoder for.
#[derive(Clone, Copy, Debug, PartialEq, Eq, Structural)]
pub enum HrmpAvailableCalls {
    InitOpenChannel(u32, u32, u32),
    AcceptOpenChannel(u32),
    CloseChannel(u32, u32),
    CancelOpenRequest(u32, u32, u32),
}

/// Encodes HRMP operations as relay-chain calls.
pub struct MockHrmpEncoder;

impl MockHrmpEncoder {
    /// Every operation encodes to the relay HRMP pallet: opening yields the
    /// init call, accepting the accept call, and both closing and
    /// cancelling the close call.
    pub fn hrmp_encode_call(call: HrmpAvailableCalls) -> (r: Result<Vec<u8>, ()>)
        ensures
            call matches HrmpAvailableCalls::InitOpenChannel(_, _, _) ==> r matches Ok(v) && v@
                == RelayCall::Hrmp(HrmpCall::Init()).encode_spec(),
            call matches HrmpAvailableCalls::AcceptOpenChannel(_) ==> r matches Ok(v) && v@
                == RelayCall::Hrmp(HrmpCall::Accept()).encode_spec(),
            call matches HrmpAvailableCalls::CloseChannel(_, _) ==> r matches Ok(v) && v@
                == RelayCall::Hrmp(HrmpCall::Close()).encode_spec(),
            call matches HrmpAvailableCalls::CancelOpenRequest(_, _, _) ==> r matches Ok(v) && v@
                == RelayCall::Hrmp(HrmpCall::Close()).encode_spec(),
    {
        match call {
            HrmpAvailableCalls::InitOpenChannel(_, _, _) => Ok(
                RelayCall::Hrmp(HrmpCall::Init()).encode(),
            ),
            HrmpAvailableCalls::AcceptOpenChannel(_) => Ok(
                RelayCall::Hrmp(HrmpCall::Accept()).encode(),
            ),
            HrmpAvailableCalls::CloseChannel(_, _) => Ok(RelayCall::Hrmp(HrmpCall::Close()).encode()),
            HrmpAvailableCalls::CancelOpenRequest(_, _, _) => Ok(
                RelayCall::Hrmp(HrmpCall::Close()).encode(),
            ),
        }
    }
}

/// A message sender that records what it is asked to deliver instead of
/// sending anything.
pub struct TestSendXcm {
    pub sent: Vec<(Location, Vec<u8>)>,
}

impl TestSendXcm {
    /// A sender with an empty record.
    pub fn new() -> (r: TestSendXcm)
        ensures
            r.sent@ == Seq::<(Location, Vec<u8>)>::empty(),
    {
        TestSendXcm { sent: Vec::new() }
    }

    /// Records the destination and message; both must be present.
    pub fn validate(&mut self, destination: Option<Location>, message: Option<Vec<u8>>) -> (r:
        Result<(), ()>)
        requires
            old(self).sent@.len() < usize::MAX,
            destination is Some,
            message is Some,
        ensures
            r is Ok,
            destination matches Some(d) && message matches Some(m) ==> final(self).sent@ == old(
                self,
            ).sent@.push((d, m)),
    {
        match (destination, message) {
            (Some(d), Some(m)) => {
                self.sent.push((d, m));
                Ok(())
            },
            _ => Err(()),
        }
    }

    /// Delivery always succeeds with the zero hash.
    pub fn deliver(&self) -> (r: Vec<u8>)
        ensures
            r@ == Seq::new(32, |i: int| 0u8),
    {
        let mut r: Vec<u8> = Vec::new();
        let mut i: usize = 0;
        while i < 32
            invariant
                i <= 32,
                r@.len() == i,
                forall|t: int| 0 <= t < r@.len() ==> r@[t] == 0u8,
            decreases 32 - i,
        {
            r.push(0u8);
            i = i + 1;
        }
        proof {
            assert(r@ =~= Seq::new(32, |i: int| 0u8));
        }
        r
    }
}

} // verus!
