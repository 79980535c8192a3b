//! Contract-ABI encoding of the gateway call.
//!
//! The wire format is fixed: a four-byte function selector followed by the
//! standard head/tail encoding of three arguments `(string, string, bytes)`.
//! Each dynamic argument is referred to from the head by a 32-byte big-endian
//! offset word and laid out in the tail as a 32-byte length word followed by
//! its bytes, zero-padded to a multiple of 32.
use vstd::arithmetic::div_mod::{
    lemma_basic_div, lemma_div_denominator, lemma_mod_breakdown, lemma_small_mod,
};
use vstd::prelude::*;

verus! {

/// `256^k`, the weight of a byte `k` positions above the least significant
/// one.
pub open spec fn pow256(k: nat) -> nat
    decreases k,
{
    if k == 0 {
        1nat
    } else {
        256 * pow256((k - 1) as nat)
    }
}

/// The concrete weights of the nine lowest byte positions.
pub proof fn lemma_pow256_values()
    ensures
        pow256(0) == 1,
        pow256(1) == 0x100,
        pow256(2) == 0x1_0000,
        pow256(3) == 0x100_0000,
        pow256(4) == 0x1_0000_0000,
        pow256(5) == 0x100_0000_0000,
        pow256(6) == 0x1_0000_0000_0000,
        pow256(7) == 0x100_0000_0000_0000,
        pow256(8) == 0x1_0000_0000_0000_0000,
{
    assert(pow256(0) == 1);
    assert(pow256(1) == 0x100);
    assert(pow256(2) == 0x1_0000);
    assert(pow256(3) == 0x100_0000);
    assert(pow256(4) == 0x1_0000_0000);
    assert(pow256(5) == 0x100_0000_0000);
    assert(pow256(6) == 0x1_0000_0000_0000);
    assert(pow256(7) == 0x100_0000_0000_0000);
    assert(pow256(8) == 0x1_0000_0000_0000_0000);
}

pub proof fn lemma_pow256_pos(k: nat)
    ensures
        pow256(k) >= 1,
    decreases k,
{
    if k > 0 {
        lemma_pow256_pos((k - 1) as nat);
    }
}

pub proof fn lemma_pow256_increases(j: nat, k: nat)
    requires
        j <= k,
    ensures
        pow256(j) <= pow256(k),
    decreases k,
{
    if j < k {
        lemma_pow256_increases(j, (k - 1) as nat);
        lemma_pow256_pos((k - 1) as nat);
    }
}

/// The `k` big-endian base-256 digits of `n`, most significant first.
pub open spec fn be_bytes(n: nat, k: nat) -> Seq<u8>
    decreases k,
{
    if k == 0 {
        Seq::empty()
    } else {
        be_bytes(n / 256, (k - 1) as nat).push((n % 256) as u8)
    }
}

/// One 32-byte ABI word holding `n` in big-endian form.
pub open spec fn word32(n: nat) -> Seq<u8> {
    be_bytes(n, 32)
}

/// The number a big-endian byte sequence stands for.
pub open spec fn word_val(s: Seq<u8>) -> nat
    decreases s.len(),
{
    if s.len() == 0 {
        0nat
    } else {
        (word_val(s.drop_last()) * 256 + s.last()) as nat
    }
}

pub proof fn lemma_be_bytes_len(n: nat, k: nat)
    ensures
        be_bytes(n, k).len() == k,
    decreases k,
{
    if k > 0 {
        lemma_be_bytes_len(n / 256, (k - 1) as nat);
    }
}

/// Reading the digits back yields the encoded number, reduced to `k` digits.
pub proof fn lemma_word_val_be_bytes(n: nat, k: nat)
    ensures
        word_val(be_bytes(n, k)) == n % pow256(k),
    decreases k,
{
    if k == 0 {
        assert(n % 1 == 0) by (nonlinear_arith);
    } else {
        let rest = be_bytes(n / 256, (k - 1) as nat);
        assert(be_bytes(n, k).drop_last() =~= rest);
        lemma_word_val_be_bytes(n / 256, (k - 1) as nat);
        lemma_pow256_pos((k - 1) as nat);
        lemma_mod_breakdown(n as int, 256, pow256((k - 1) as nat) as int);
    }
}

/// A 32-byte word is decoded exactly for any value below `256^32`.
pub proof fn lemma_word32_round_trip(n: nat)
    requires
        n < pow256(32),
    ensures
        word_val(word32(n)) == n,
{
    lemma_word_val_be_bytes(n, 32);
    lemma_small_mod(n, pow256(32));
}

/// `n` rounded up to the next multiple of 32.
pub open spec fn ceil32(n: nat) -> nat {
    ((n + 31) / 32) * 32
}

pub proof fn lemma_ceil32_bounds(n: nat)
    ensures
        n <= ceil32(n) <= n + 31,
        ceil32(n) % 32 == 0,
{
    assert(n <= ((n + 31) / 32) * 32 <= n + 31 && (((n + 31) / 32) * 32) % 32 == 0)
        by (nonlinear_arith);
}

pub open spec fn zero_bytes(n: nat) -> Seq<u8> {
    Seq::new(n, |i: int| 0u8)
}

/// A dynamic value zero-padded to a multiple of 32 bytes.
pub open spec fn padded(data: Seq<u8>) -> Seq<u8> {
    data + zero_bytes((ceil32(data.len()) - data.len()) as nat)
}

/// The tail layout of one dynamic argument: its length word, then its
/// padded bytes.
pub open spec fn tail_entry(data: Seq<u8>) -> Seq<u8> {
    word32(data.len()) + padded(data)
}

/// The full argument encoding: three offset words, then the three tails,
/// in argument order.
pub open spec fn encoded_args(chain: Seq<u8>, addr_hex: Seq<u8>, payload: Seq<u8>) -> Seq<u8> {
    word32(head_offset_1()) + word32(head_offset_2(chain)) + word32(head_offset_3(chain, addr_hex))
        + tail_entry(chain) + tail_entry(addr_hex) + tail_entry(payload)
}

/// Offset of the first tail: past the three head words.
pub open spec fn head_offset_1() -> nat {
    96nat
}

/// Offset of the second tail: past the first tail.
pub open spec fn head_offset_2(chain: Seq<u8>) -> nat {
    head_offset_1() + 32 + ceil32(chain.len())
}

/// Offset of the third tail: past the second tail.
pub open spec fn head_offset_3(chain: Seq<u8>, addr_hex: Seq<u8>) -> nat {
    head_offset_2(chain) + 32 + ceil32(addr_hex.len())
}

/// The lowercase hexadecimal digit for a value below 16.
pub open spec fn hex_digit(n: u8) -> u8 {
    if n < 10 {
        (0x30 + n) as u8
    } else {
        (0x57 + n) as u8
    }
}

/// Two lowercase hexadecimal digits per byte, high nibble first.
pub open spec fn hex_bytes(s: Seq<u8>) -> Seq<u8> {
    Seq::new(2 * s.len(), |i: int| {
        if i % 2 == 0 {
            hex_digit(s[i / 2] / 16)
        } else {
            hex_digit(s[i / 2] % 16)
        }
    })
}

/// The textual rendering of a contract address: `0x`, then its bytes in
/// lowercase hexadecimal.
pub open spec fn addr_hex(a: Seq<u8>) -> Seq<u8> {
    seq![0x30u8, 0x78u8] + hex_bytes(a)
}

/// The dynamic value whose tail begins at `off`: the bytes that its length
/// word announces.
pub open spec fn decoded_dyn_at(data: Seq<u8>, off: nat) -> Seq<u8> {
    let n = word_val(data.subrange(off as int, off as int + 32));
    data.subrange(off as int + 32, off as int + 32 + n)
}

/// The three dynamic arguments that the head words of `data` point at,
/// decoded against the fixed `(string, string, bytes)` layout.
pub open spec fn decoded_args(data: Seq<u8>) -> (Seq<u8>, Seq<u8>, Seq<u8>) {
    let o1 = word_val(data.subrange(0, 32));
    let o2 = word_val(data.subrange(32, 64));
    let o3 = word_val(data.subrange(64, 96));
    (decoded_dyn_at(data, o1), decoded_dyn_at(data, o2), decoded_dyn_at(data, o3))
}

/// Law: the encoding is deterministic. Two encodings of the same chain
/// identifier, address and payload are byte-identical; nothing but the
/// three inputs enters the result.
pub proof fn lemma_encode_deterministic(
    chain: Seq<u8>,
    addr: Seq<u8>,
    payload: Seq<u8>,
    r1: Seq<u8>,
    r2: Seq<u8>,
)
    requires
        r1 == encoded_call(chain, addr, payload),
        r2 == encoded_call(chain, addr, payload),
    ensures
        r1 == r2,
{
}

/// Law: round-trip. Decoding the argument part of an encoding against the
/// fixed three-argument layout yields back exactly the three values that
/// were encoded.
pub proof fn lemma_encoded_args_round_trip(chain: Seq<u8>, text: Seq<u8>, payload: Seq<u8>)
    requires
        chain.len() + text.len() + payload.len() + 400 < pow256(32),
    ensures
        decoded_args(encoded_args(chain, text, payload)) == (chain, text, payload),
{
    let data = encoded_args(chain, text, payload);
    let o1 = head_offset_1();
    let o2 = head_offset_2(chain);
    let o3 = head_offset_3(chain, text);
    let w1 = word32(o1);
    let w2 = word32(o2);
    let w3 = word32(o3);
    let t1 = tail_entry(chain);
    let t2 = tail_entry(text);
    let t3 = tail_entry(payload);
    lemma_be_bytes_len(o1, 32);
    lemma_be_bytes_len(o2, 32);
    lemma_be_bytes_len(o3, 32);
    lemma_be_bytes_len(chain.len(), 32);
    lemma_be_bytes_len(text.len(), 32);
    lemma_be_bytes_len(payload.len(), 32);
    lemma_ceil32_bounds(chain.len());
    lemma_ceil32_bounds(text.len());
    lemma_ceil32_bounds(payload.len());
    assert(t1.len() == 32 + ceil32(chain.len()));
    assert(t2.len() == 32 + ceil32(text.len()));
    assert(t3.len() == 32 + ceil32(payload.len()));
    lemma_word32_round_trip(o1);
    lemma_word32_round_trip(o2);
    lemma_word32_round_trip(o3);
    lemma_word32_round_trip(chain.len());
    lemma_word32_round_trip(text.len());
    lemma_word32_round_trip(payload.len());
    assert(data.subrange(0, 32) =~= w1);
    assert(data.subrange(32, 64) =~= w2);
    assert(data.subrange(64, 96) =~= w3);
    assert(data.subrange(o1 as int, o1 as int + 32) =~= word32(chain.len()));
    assert(data.subrange(o1 as int + 32, o1 as int + 32 + chain.len()) =~= chain);
    assert(data.subrange(o2 as int, o2 as int + 32) =~= word32(text.len()));
    assert(data.subrange(o2 as int + 32, o2 as int + 32 + text.len()) =~= text);
    assert(data.subrange(o3 as int, o3 as int + 32) =~= word32(payload.len()));
    assert(data.subrange(o3 as int + 32, o3 as int + 32 + payload.len()) =~= payload);
}

/// Law: round-trip through the address rendering. The decoded second
/// argument is the `0x`-prefixed lowercase hexadecimal text of the address
/// that was encoded.
pub proof fn lemma_encoded_call_args_round_trip(chain: Seq<u8>, addr: Seq<u8>, payload: Seq<u8>)
    requires
        addr.len() == 20,
        chain.len() + payload.len() + 500 < pow256(32),
    ensures
        decoded_args(encoded_args(chain, addr_hex(addr), payload)) == (
            chain,
            addr_hex(addr),
            payload,
        ),
{
    assert(addr_hex(addr).len() == 42);
    lemma_encoded_args_round_trip(chain, addr_hex(addr), payload);
}

/// The selector that a fixed function name and three fixed parameter types
/// determine.
pub uninterp spec fn selector_of(name: Seq<char>, kind1: u8, kind2: u8, kind3: u8) -> Seq<u8>;

/// The fixed selector of the gateway function: its name applied to the
/// parameter types `(string, string, bytes)`.
pub open spec fn axelar_selector() -> Seq<u8> {
    selector_of(crate::AXELAR_FUNCTION_NAME@, 0u8, 0u8, 1u8)
}

/// The complete call data: the fixed selector, then the encoded arguments
/// `(chain identifier, hex-rendered address, payload)`.
pub open spec fn encoded_call(chain: Seq<u8>, addr: Seq<u8>, payload: Seq<u8>) -> Seq<u8> {
    axelar_selector() + encoded_args(chain, addr_hex(addr), payload)
}

/// Relies on `ethabi::short_signature`: the first four bytes of the
/// keccak-256 hash of the canonical signature `name(t1,t2,t3)`, a function of
/// the name and the parameter types alone. A kind byte of 1 stands for the
/// ABI type `bytes`; any other kind byte stands for `string`.
#[verifier::external_body]
pub(crate) fn short_selector(name: &str, kind1: u8, kind2: u8, kind3: u8) -> (r: Vec<u8>)
    ensures
        r@ == selector_of(name@, kind1, kind2, kind3),
        r@.len() == 4,
{
    let params = [kind1, kind2, kind3].map(|k| {
        if k == 1 {
            ethabi::ParamType::Bytes
        } else {
            ethabi::ParamType::String
        }
    });
    ethabi::short_signature(name, &params).to_vec()
}

/// Relies on `hex::encode`: two lowercase hexadecimal digits per byte, high
/// nibble first; the fixed prefix `0x` is put in front here.
#[verifier::external_body]
pub(crate) fn address_to_hex_bytes(addr: &[u8; 20]) -> (r: Vec<u8>)
    ensures
        r@ == addr_hex(addr@),
{
    format!("0x{}", hex::encode(addr)).into_bytes()
}

/// Relies on `core::str::from_utf8`: it returns `Ok` exactly when the bytes
/// are valid UTF-8.
#[verifier::external_body]
pub(crate) fn bytes_are_valid_utf8(bytes: &Vec<u8>) -> (r: bool)
    ensures
        r == vstd::utf8::valid_utf8(bytes@),
{
    core::str::from_utf8(bytes.as_slice()).is_ok()
}

/// `256^e` as a machine word, for the exponents a 64-bit value can need.
fn pow256_u64(e: usize) -> (r: u64)
    requires
        e < 8,
    ensures
        r as nat == pow256(e as nat),
        r >= 1,
{
    let r: u64 = match e {
        0 => 1,
        1 => 0x100,
        2 => 0x1_0000,
        3 => 0x100_0000,
        4 => 0x1_0000_0000,
        5 => 0x100_0000_0000,
        6 => 0x1_0000_0000_0000,
        _ => 0x100_0000_0000_0000,
    };
    proof {
        lemma_pow256_values();
    }
    r
}

/// Writes `m` as one 32-byte big-endian ABI word.
pub fn encode_word(m: u64) -> (out: Vec<u8>)
    ensures
        out@ == word32(m as nat),
{
    let mut out: Vec<u8> = Vec::new();
    let mut i: usize = 0;
    proof {
        lemma_be_bytes_len((m as nat) / pow256(32nat), 0nat);
        assert(be_bytes((m as nat) / pow256(32nat), 0nat) =~= Seq::<u8>::empty());
        assert(out@ =~= Seq::<u8>::empty());
    }
    while i < 32
        invariant
            i <= 32,
            out@.len() == i,
            out@ == be_bytes((m as nat) / pow256((32 - i) as nat), i as nat),
        decreases 32 - i,
    {
        let e: usize = 31 - i;
        let b: u8;
        if e >= 8 {
            b = 0;
            proof {
                lemma_pow256_values();
                lemma_pow256_increases(8, e as nat);
                lemma_basic_div(m as int, pow256(e as nat) as int);
            }
        } else {
            let p: u64 = pow256_u64(e);
            b = ((m / p) % 256) as u8;
        }
        out.push(b);
        proof {
            let n: nat = m as nat;
            let en: nat = (31 - i) as nat;
            let q: nat = n / pow256(en);
            lemma_pow256_pos(en);
            lemma_div_denominator(n as int, pow256(en) as int, 256);
            assert(pow256((32 - i) as nat) == 256 * pow256(en));
            assert(q / 256 == n / pow256((32 - i) as nat));
            assert(b == (q % 256) as u8);
            assert(out@ =~= be_bytes(q, (i + 1) as nat));
        }
        i = i + 1;
    }
    proof {
        lemma_pow256_values();
        assert((m as nat) / pow256((32 - 32) as nat) == m as nat);
    }
    out
}

/// Appends every byte of `src` to `dst`.
pub fn push_all(dst: &mut Vec<u8>, src: &Vec<u8>)
    ensures
        final(dst)@ == old(dst)@ + src@,
{
    let mut j: usize = 0;
    while j < src.len()
        invariant
            j <= src@.len(),
            dst@ == old(dst)@ + src@.subrange(0, j as int),
        decreases src@.len() - j,
    {
        dst.push(src[j]);
        proof {
            assert(src@.subrange(0, (j + 1) as int) =~= src@.subrange(0, j as int).push(
                src@[j as int],
            ));
        }
        j = j + 1;
    }
    proof {
        assert(src@.subrange(0, src@.len() as int) =~= src@);
    }
}

/// Appends the tail layout of one dynamic argument: its length word, its
/// bytes, and zero padding up to a multiple of 32.
pub fn push_tail(out: &mut Vec<u8>, data: &Vec<u8>)
    ensures
        final(out)@ == old(out)@ + tail_entry(data@),
{
    let w: Vec<u8> = encode_word(data.len() as u64);
    push_all(out, &w);
    push_all(out, data);
    let ghost done: Seq<u8> = out@;
    let r: usize = data.len() % 32;
    let pad: usize = if r == 0 {
        0
    } else {
        32 - r
    };
    proof {
        lemma_ceil32_bounds(data@.len());
        assert(pad as nat == (ceil32(data@.len()) - data@.len()) as nat) by (nonlinear_arith)
            requires
                r == data@.len() % 32,
                pad == (if r == 0 { 0int } else { 32 - r }),
                data@.len() <= ceil32(data@.len()) <= data@.len() + 31,
                ceil32(data@.len()) % 32 == 0,
        ;
    }
    let mut t: usize = 0;
    while t < pad
        invariant
            t <= pad,
            out@ == done + zero_bytes(t as nat),
        decreases pad - t,
    {
        out.push(0u8);
        proof {
            assert(out@ =~= done + zero_bytes((t + 1) as nat));
        }
        t = t + 1;
    }
    proof {
        assert(data@ + zero_bytes(pad as nat) =~= padded(data@));
        assert(out@ =~= old(out)@ + tail_entry(data@));
    }
}

} // verus!
