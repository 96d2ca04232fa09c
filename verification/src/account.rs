//! # Account
//!
//! A custom account contract for Soroban (Stellar) controlled by an EVM
//! (secp256k1) wallet key, such as a MetaMask account on Base or Ethereum.
//!
//! The contract stores a single 20-byte Ethereum address. Any Soroban
//! invocation that requires this account's authorization is approved by a
//! `personal_sign` (EIP-191) signature from the corresponding EVM key over
//! the Soroban authorization payload. This lets a user whose only key is an
//! EVM browser wallet act as a first-class Soroban address, for example as
//! the funder (`from`) of a payment channel, with no Stellar key at all.
//!
//! Replay protection, nonces, expiration, and network binding are provided
//! by the Soroban authorization framework, which computes the 32-byte
//! `signature_payload` over the full invocation tree. This contract only
//! verifies that the payload was signed by the stored EVM address.
//!
//! ## Signed message format
//!
//! The wallet signs the 66-character ASCII string `m = "0x" || lowercase_hex(payload)`
//! via `personal_sign`. The contract rebuilds `m` from the payload and verifies:
//!
//! ```text
//! digest = keccak256("\x19Ethereum Signed Message:\n66" || m)
//! ecrecover(digest, signature) == stored ethereum address
//! ```
//!
//! Note for SDKs: providers interpret a `0x`-prefixed `personal_sign` param as
//! hex data and sign the *decoded* bytes. To sign the 66 ASCII bytes of `m`,
//! pass `"0x" || hex(utf8_bytes(m))` (132 hex chars) at the RPC layer.
//!
//! Signatures must be 65 bytes `r || s || v` with canonical low `s` and
//! `v` in {0, 1, 27, 28}. Only externally owned accounts are supported;
//! contract wallets (ERC-1271) cannot be verified.
//!
//! ## Functions
//!
//! | Function | Description |
//! |---|---|
//! | `__constructor` | Store the controlling Ethereum address. Immutable thereafter. |
//! | `__check_auth` | Verify an EIP-191 signature over the authorization payload. |
//! | `eth_address` | Returns the controlling Ethereum address. |
//! | `extend` | Extend the lifetime (TTL) of the account's storage. |

use vstd::prelude::*;

use crate::platform;
use crate::host::{array_at, bytes_equal, Context, TTL_EXTEND_TO, TTL_THRESHOLD};
use soroban_sdk::Env;

verus! {

/// secp256k1 group order halved, big-endian: signatures with s above this
/// value are non-canonical and rejected.
pub const SECP256K1_N_HALF: [u8; 32] = [
    0x7f, 0xff, 0xff, 0xff, 0xff, 0xff, 0xff, 0xff,
    0xff, 0xff, 0xff, 0xff, 0xff, 0xff, 0xff, 0xff,
    0x5d, 0x57, 0x6e, 0x73, 0x57, 0xa4, 0x50, 0x1d,
    0xdf, 0xe9, 0x2f, 0x46, 0x68, 0x1b, 0x20, 0xa0,
];

/// The ASCII bytes of `\x19Ethereum Signed Message:\n66` and of the `0x` that
/// follows it in every signed message.
pub const MESSAGE_PREFIX: [u8; 30] = [
    0x19, 0x45, 0x74, 0x68, 0x65, 0x72, 0x65, 0x75, 0x6d, 0x20,
    0x53, 0x69, 0x67, 0x6e, 0x65, 0x64, 0x20, 0x4d, 0x65, 0x73,
    0x73, 0x61, 0x67, 0x65, 0x3a, 0x0a, 0x36, 0x36, 0x30, 0x78,
];

/// The ASCII bytes of `0123456789abcdef`.
pub const HEX: [u8; 16] = [
    0x30, 0x31, 0x32, 0x33, 0x34, 0x35, 0x36, 0x37,
    0x38, 0x39, 0x61, 0x62, 0x63, 0x64, 0x65, 0x66,
];

/// Why the contract refuses a signature.
#[derive(Clone, Copy, Debug, PartialEq, Eq)]
pub enum Error {
    InvalidRecoveryId,
    NonCanonicalSignature,
    WrongSigner,
}

impl Error {
    /// The number by which a caller of the contract sees the error.
    pub fn code(&self) -> (code: u32)
        ensures
            code == match *self {
                Error::InvalidRecoveryId => 1u32,
                Error::NonCanonicalSignature => 2u32,
                Error::WrongSigner => 3u32,
            },
    {
        match *self {
            Error::InvalidRecoveryId => 1,
            Error::NonCanonicalSignature => 2,
            Error::WrongSigner => 3,
        }
    }
}

/// Why an authorization is refused.
#[derive(Clone, Copy, Debug, PartialEq, Eq)]
pub enum Failure {
    /// The contract refuses it.
    Contract(Error),
    /// No public key can be recovered from the signature.
    Recovery,
}

/// The keys of the instance storage.
#[derive(Clone, Copy, Debug, PartialEq, Eq)]
pub enum DataKey {
    EthAddress,
}

/// The instance storage of a deployed account.
#[derive(Clone, Copy, Debug, PartialEq, Eq)]
pub struct Instance {
    pub eth_address: [u8; 20],
}

/// Something that the contract has the host do.
#[derive(Clone, Copy, Debug, PartialEq, Eq)]
pub enum Action {
    /// Store a byte string in the instance storage.
    Store(DataKey, [u8; 20]),
    /// Extend the TTL of the instance storage to `extend_to`, once it is below
    /// `threshold`.
    ExtendTtl { threshold: u32, extend_to: u32 },
}

/// One invocation of the contract: where it runs, what its storage holds and
/// what it has had the host do, in that order.
pub struct Invocation {
    pub context: Context,
    pub storage: Instance,
    pub actions: Vec<Action>,
}

/// The ASCII bytes of a text.
pub open spec fn ascii(text: Seq<char>) -> Seq<u8> {
    text.map_values(|c: char| c as u8)
}

/// The number that `bytes` encode, most significant byte first.
pub open spec fn be_value(bytes: Seq<u8>) -> nat
    decreases bytes.len(),
{
    if bytes.len() == 0 {
        0
    } else {
        be_value(bytes.drop_last()) * 256 + bytes.last() as nat
    }
}

/// The order of the secp256k1 group.
pub open spec fn secp256k1_order() -> nat {
    0xfffffffffffffffffffffffffffffffebaaedce6af48a03bbfd25e8cd0364141nat
}

/// Whether a signature scalar is canonical: at most half the group order.
pub open spec fn is_low_s(s: Seq<u8>) -> bool {
    2 * be_value(s) <= secp256k1_order()
}

/// The lowercase hex digit of a number below 16.
pub open spec fn hex_digit(n: int) -> u8 {
    ascii("0123456789abcdef"@)[n]
}

/// The lowercase hex encoding of `bytes`.
pub open spec fn hex(bytes: Seq<u8>) -> Seq<u8> {
    Seq::new(
        2 * bytes.len(),
        |i: int| hex_digit(if i % 2 == 0 { bytes[i / 2] / 16 } else { bytes[i / 2] % 16 } as int),
    )
}

/// The message that a wallet's `personal_sign` hashes for an authorization
/// payload: the EIP-191 header followed by `0x` and the payload in hex.
pub open spec fn message(payload: Seq<u8>) -> Seq<u8> {
    ascii("\x19Ethereum Signed Message:\n66"@) + ascii("0x"@) + hex(payload)
}

/// The recovery identifier that the last byte of a signature stands for.
pub open spec fn recovery_id_of(v: u8) -> Option<u8> {
    if v == 0 || v == 27 {
        Some(0)
    } else if v == 1 || v == 28 {
        Some(1)
    } else {
        None
    }
}

/// The Ethereum address of a public key with the given Keccak-256 hash.
pub open spec fn eth_address_of(public_key_hash: Seq<u8>) -> Seq<u8> {
    public_key_hash.subrange(12, 32)
}

/// Whether an authorization signature is accepted, and if not, why: the
/// signature must have a known recovery identifier and a canonical scalar, and
/// the key it was made with must belong to `eth_address`.
pub open spec fn auth_result(
    eth_address: Seq<u8>,
    payload: Seq<u8>,
    signature: Seq<u8>,
) -> Result<(), Failure> {
    match recovery_id_of(signature[64]) {
        None => Err(Failure::Contract(Error::InvalidRecoveryId)),
        Some(recovery_id) => if !is_low_s(signature.subrange(32, 64)) {
            Err(Failure::Contract(Error::NonCanonicalSignature))
        } else {
            match platform::secp256k1_recovered(
                platform::keccak256_digest(message(payload)),
                signature.subrange(0, 64),
                recovery_id,
            ) {
                None => Err(Failure::Recovery),
                Some(public_key) => if eth_address_of(
                    platform::keccak256_digest(public_key.subrange(1, 65)),
                ) == eth_address {
                    Ok(())
                } else {
                    Err(Failure::Contract(Error::WrongSigner))
                },
            }
        },
    }
}

proof fn lemma_be_value_take(bytes: Seq<u8>, k: int)
    requires
        0 <= k < bytes.len(),
    ensures
        be_value(bytes.take(k + 1)) == be_value(bytes.take(k)) * 256 + bytes[k],
{
    assert(bytes.take(k + 1).drop_last() =~= bytes.take(k));
}

/// Byte strings of one length that agree up to a place are ordered as their
/// bytes at that place are.
proof fn lemma_be_value_less(a: Seq<u8>, b: Seq<u8>, i: int, k: int)
    requires
        a.len() == b.len(),
        0 <= i < k <= a.len(),
        a.take(i) == b.take(i),
        a[i] < b[i],
    ensures
        be_value(a.take(k)) < be_value(b.take(k)),
    decreases k,
{
    lemma_be_value_take(a, k - 1);
    lemma_be_value_take(b, k - 1);
    if k > i + 1 {
        lemma_be_value_less(a, b, i, k - 1);
    }
}

/// Whether the number that `a` encodes, most significant byte first, is
/// greater than the one that `b` encodes.
pub fn exceeds(a: &[u8; 32], b: &[u8; 32]) -> (greater: bool)
    ensures
        greater == (be_value(a@) > be_value(b@)),
{
    let mut i: usize = 0;
    while i < 32
        invariant
            i <= 32,
            a@.take(i as int) == b@.take(i as int),
        decreases 32 - i,
    {
        proof {
            assert(a@.take(32) =~= a@);
            assert(b@.take(32) =~= b@);
        }
        if a[i] > b[i] {
            proof {
                lemma_be_value_less(b@, a@, i as int, 32);
            }
            return true;
        }
        if a[i] < b[i] {
            proof {
                lemma_be_value_less(a@, b@, i as int, 32);
            }
            return false;
        }
        assert(a@.take(i + 1) =~= a@.take(i as int).push(a@[i as int]));
        assert(b@.take(i + 1) =~= b@.take(i as int).push(b@[i as int]));
        i += 1;
    }
    assert(a@.take(32) =~= a@);
    assert(b@.take(32) =~= b@);
    false
}

proof fn lemma_half_order()
    ensures
        be_value(SECP256K1_N_HALF@) * 2 + 1 == secp256k1_order(),
{
    let h = SECP256K1_N_HALF@;
    reveal_with_fuel(be_value, 33);
    assert(be_value(h) == 0x7fffffffffffffffffffffffffffffff5d576e7357a4501ddfe92f46681b20a0nat);
}

proof fn lemma_hex_digits()
    ensures
        forall|n: int| 0 <= n < 16 ==> #[trigger] HEX@[n] == hex_digit(n),
{
    reveal_strlit("0123456789abcdef");
    assert(HEX@ =~= ascii("0123456789abcdef"@));
}

proof fn lemma_message_prefix()
    ensures
        MESSAGE_PREFIX@ == ascii("\x19Ethereum Signed Message:\n66"@) + ascii("0x"@),
{
    reveal_strlit("\x19Ethereum Signed Message:\n66");
    reveal_strlit("0x");
    assert(MESSAGE_PREFIX@ =~= ascii("\x19Ethereum Signed Message:\n66"@) + ascii("0x"@));
}

/// Append the lowercase hex encoding of the given bytes.
pub fn append_hex(out: &mut Vec<u8>, bytes: &[u8; 32])
    ensures
        final(out)@ == old(out)@ + hex(bytes@),
{
    proof {
        lemma_hex_digits();
    }
    let mut i: usize = 0;
    while i < 32
        invariant
            i <= 32,
            forall|n: int| 0 <= n < 16 ==> #[trigger] HEX@[n] == hex_digit(n),
            out@ == old(out)@ + hex(bytes@).take(2 * i),
        decreases 32 - i,
    {
        let b: u8 = bytes[i];
        assert(b >> 4 == b / 16 && b / 16 < 16) by (bit_vector);
        assert(b & 0x0f == b % 16 && b & 0x0f < 16) by (bit_vector);
        out.push(HEX[(b >> 4) as usize]);
        out.push(HEX[(b & 0x0f) as usize]);
        proof {
            let encoded = hex(bytes@);
            assert(encoded[2 * i] == hex_digit((b / 16) as int));
            assert(encoded[2 * i + 1] == hex_digit((b % 16) as int));
            assert(encoded.take(2 * (i + 1)) =~= encoded.take(2 * i).push(encoded[2 * i]).push(
                encoded[2 * i + 1],
            ));
            assert(out@ =~= old(out)@ + encoded.take(2 * (i + 1)));
        }
        i += 1;
    }
    assert(hex(bytes@).take(64) =~= hex(bytes@));
}

/// The message that a wallet's `personal_sign` hashes for an authorization
/// payload.
pub fn signed_message(payload: &[u8; 32]) -> (text: Vec<u8>)
    ensures
        text@ == message(payload@),
        text@.len() == 94,
{
    let mut text: Vec<u8> = Vec::new();
    text.extend_from_slice(&MESSAGE_PREFIX);
    assert(text@ =~= MESSAGE_PREFIX@);
    proof {
        lemma_message_prefix();
    }
    append_hex(&mut text, payload);
    text
}

/// The `r || s` part of a signature and its recovery identifier, where the
/// signature has a known recovery identifier and a canonical scalar.
pub fn signature_parts(signature: &[u8; 65]) -> (parts: Result<([u8; 64], u8), Error>)
    ensures
        match parts {
            Ok((rs, recovery_id)) => {
                &&& recovery_id_of(signature@[64]) == Some(recovery_id)
                &&& is_low_s(signature@.subrange(32, 64))
                &&& rs@ == signature@.subrange(0, 64)
            },
            Err(Error::InvalidRecoveryId) => recovery_id_of(signature@[64]) is None,
            Err(Error::NonCanonicalSignature) => {
                &&& recovery_id_of(signature@[64]) is Some
                &&& !is_low_s(signature@.subrange(32, 64))
            },
            Err(Error::WrongSigner) => false,
        },
{
    // Normalize the recovery id: accept v in {0, 1, 27, 28}.
    let recovery_id: u8 = match signature[64] {
        0 | 27 => 0,
        1 | 28 => 1,
        _ => return Err(Error::InvalidRecoveryId),
    };
    // Reject non-canonical (high-s) signatures.
    let s: [u8; 32] = array_at(signature, 32);
    proof {
        lemma_half_order();
    }
    if exceeds(&s, &SECP256K1_N_HALF) {
        return Err(Error::NonCanonicalSignature);
    }
    Ok((array_at(signature, 0), recovery_id))
}

/// Whether a public key with the given Keccak-256 hash belongs to
/// `eth_address`.
pub fn check_signer(eth_address: &[u8; 20], public_key_hash: &[u8; 32]) -> (result: Result<(), Error>)
    ensures
        result == if eth_address_of(public_key_hash@) == eth_address@ {
            Ok(())
        } else {
            Err(Error::WrongSigner)
        },
{
    let recovered: [u8; 20] = array_at(public_key_hash, 12);
    if !bytes_equal(&recovered, eth_address) {
        assert(eth_address_of(public_key_hash@) != eth_address@) by {
            if recovered@ == eth_address@ {
                assert(recovered =~= *eth_address);
            }
        }
        return Err(Error::WrongSigner);
    }
    Ok(())
}

/// The account contract.
pub struct Contract;

impl Contract {
    /// Store the controlling Ethereum address. Immutable thereafter.
    ///
    /// Callable by the deployer.
    ///
    /// # Auth
    /// None. Deployment integrity is the deployer's responsibility: the
    /// account factory binds the deployed address to the address stored here
    /// by deriving the deployment salt from it.
    pub fn __constructor(context: Context, eth_address: [u8; 20]) -> (call: Invocation)
        ensures
            call.context == context,
            call.storage == (Instance { eth_address }),
            call.actions@ == seq![Action::Store(DataKey::EthAddress, eth_address)],
    {
        let mut actions: Vec<Action> = Vec::new();
        actions.push(Action::Store(DataKey::EthAddress, eth_address));
        Invocation { context, storage: Instance { eth_address }, actions }
    }

    /// Returns the controlling Ethereum address.
    ///
    /// Callable by anyone.
    ///
    /// # Auth
    /// None.
    pub fn eth_address(call: &Invocation) -> (eth_address: [u8; 20])
        ensures
            eth_address == call.storage.eth_address,
    {
        call.storage.eth_address
    }

    /// Extend the lifetime (TTL) of the account's instance storage, so that
    /// a long-lived account is not archived while in use. Extension also
    /// happens as a side effect of `__check_auth`.
    ///
    /// Callable by anyone.
    ///
    /// # Auth
    /// None.
    pub fn extend(call: &mut Invocation)
        ensures
            final(call).context == old(call).context,
            final(call).storage == old(call).storage,
            final(call).actions@ == old(call).actions@.push(extend_ttl()),
    {
        Self::extend_instance_ttl(call);
    }

    /// Verify an EIP-191 `personal_sign` signature over the Soroban
    /// authorization payload.
    ///
    /// The authorization contexts are intentionally not restricted: this
    /// account may authorize any Soroban invocation, which is what makes a
    /// permissionless exit (e.g. withdrawing channel funds to any address)
    /// possible without this contract enumerating destinations.
    pub fn __check_auth(
        env: &Env,
        call: &mut Invocation,
        signature_payload: &[u8; 32],
        signature: &[u8; 65],
    ) -> (result: Result<(), Failure>)
        ensures
            result == auth_result(
                old(call).storage.eth_address@,
                signature_payload@,
                signature@,
            ),
            final(call).context == old(call).context,
            final(call).storage == old(call).storage,
            final(call).actions@ == old(call).actions@.push(extend_ttl()),
    {
        Self::extend_instance_ttl(call);
        let (rs, recovery_id) = match signature_parts(signature) {
            Ok(parts) => parts,
            Err(error) => return Err(Failure::Contract(error)),
        };
        // digest = keccak256("\x19Ethereum Signed Message:\n66" || "0x" || hex(payload))
        let text: Vec<u8> = signed_message(signature_payload);
        let digest: [u8; 32] = platform::keccak256(env, text.as_slice());
        // Recover the uncompressed public key (0x04 || x || y) and derive the
        // Ethereum address from it.
        let public_key: [u8; 65] = match platform::secp256k1_recover(&digest, &rs, recovery_id) {
            Some(key) => key,
            None => return Err(Failure::Recovery),
        };
        let point: [u8; 64] = array_at(&public_key, 1);
        let public_key_hash: [u8; 32] = platform::keccak256(env, &point);
        match check_signer(&call.storage.eth_address, &public_key_hash) {
            Ok(()) => Ok(()),
            Err(error) => Err(Failure::Contract(error)),
        }
    }

    fn extend_instance_ttl(call: &mut Invocation)
        ensures
            final(call).context == old(call).context,
            final(call).storage == old(call).storage,
            final(call).actions@ == old(call).actions@.push(extend_ttl()),
    {
        call.actions.push(Action::ExtendTtl { threshold: TTL_THRESHOLD, extend_to: TTL_EXTEND_TO });
    }
}

/// The extension of the storage's lifetime that the contract has the host do.
pub open spec fn extend_ttl() -> Action {
    Action::ExtendTtl { threshold: TTL_THRESHOLD, extend_to: TTL_EXTEND_TO }
}

/// Different payloads are signed as different messages, so a signature is never
/// asked to speak for a payload other than its own.
pub proof fn law_payloads_have_distinct_messages(a: Seq<u8>, b: Seq<u8>)
    requires
        a.len() == 32,
        b.len() == 32,
        message(a) == message(b),
    ensures
        a == b,
{
    lemma_hex_digits();
    let header = ascii("\x19Ethereum Signed Message:\n66"@) + ascii("0x"@);
    assert(hex(a) =~= message(a).skip(header.len() as int));
    assert(hex(b) =~= message(b).skip(header.len() as int));
    assert forall|i: int| 0 <= i < 32 implies a[i] == b[i] by {
        assert(hex(a)[2 * i] == HEX@[(a[i] / 16) as int]);
        assert(hex(b)[2 * i] == HEX@[(b[i] / 16) as int]);
        assert(hex(a)[2 * i + 1] == HEX@[(a[i] % 16) as int]);
        assert(hex(b)[2 * i + 1] == HEX@[(b[i] % 16) as int]);
        assert(a[i] / 16 == b[i] / 16);
        assert(a[i] % 16 == b[i] % 16);
    }
    assert(a =~= b);
}

/// A signature is judged the same whether its recovery identifier is written as
/// 0 or 1, or in the legacy form as 27 or 28.
pub proof fn law_legacy_recovery_id(eth_address: Seq<u8>, payload: Seq<u8>, signature: Seq<u8>)
    requires
        signature.len() == 65,
        signature[64] <= 1,
    ensures
        auth_result(eth_address, payload, signature.update(64, (signature[64] + 27) as u8))
            == auth_result(eth_address, payload, signature),
{
    let legacy = signature.update(64, (signature[64] + 27) as u8);
    assert(legacy.subrange(32, 64) =~= signature.subrange(32, 64));
    assert(legacy.subrange(0, 64) =~= signature.subrange(0, 64));
}

/// Of a signature scalar `s` and its malleable counterpart, the group order less
/// `s`, exactly one is canonical: a signature cannot be turned into a second one
/// that is accepted too.
pub proof fn law_one_scalar_is_canonical(s: Seq<u8>, counterpart: Seq<u8>)
    requires
        be_value(s) + be_value(counterpart) == secp256k1_order(),
    ensures
        is_low_s(s) != is_low_s(counterpart),
{
}

/// A signature with a non-canonical scalar authorizes nothing, whoever made it.
pub proof fn law_high_s_authorizes_nothing(
    eth_address: Seq<u8>,
    payload: Seq<u8>,
    signature: Seq<u8>,
)
    requires
        signature.len() == 65,
        !is_low_s(signature.subrange(32, 64)),
    ensures
        auth_result(eth_address, payload, signature) is Err,
{
}

/// One signature over one payload authorizes for at most one Ethereum address.
pub proof fn law_signature_has_one_signer(
    eth_address: Seq<u8>,
    other: Seq<u8>,
    payload: Seq<u8>,
    signature: Seq<u8>,
)
    requires
        signature.len() == 65,
        auth_result(eth_address, payload, signature) is Ok,
        auth_result(other, payload, signature) is Ok,
    ensures
        eth_address == other,
{
}

/// The number that bytes encode grows by one byte at a time, the last being the
/// least significant.
pub proof fn law_numbers_are_read_most_significant_byte_first(bytes: Seq<u8>, last: u8)
    ensures
        be_value(Seq::<u8>::empty()) == 0,
        be_value(bytes.push(last)) == 256 * be_value(bytes) + last,
{
    assert(bytes.push(last).drop_last() =~= bytes);
}

/// A scalar is canonical if and only if it is at most half the order of the
/// secp256k1 group.
pub proof fn law_canonical_scalars(s: Seq<u8>)
    ensures
        is_low_s(s) <==> 2 * be_value(s)
            <= 0xfffffffffffffffffffffffffffffffebaaedce6af48a03bbfd25e8cd0364141nat,
{
}

/// The last byte of a signature stands for the recovery identifier 0 or 1, as it is
/// or 27 more, and else for none.
pub proof fn law_recovery_ids(v: u8)
    ensures
        recovery_id_of(v) == Some(0u8) <==> v == 0 || v == 27,
        recovery_id_of(v) == Some(1u8) <==> v == 1 || v == 28,
        recovery_id_of(v) is Some ==> recovery_id_of(v)->0 <= 1,
{
}

/// An Ethereum address is the last 20 of the 32 bytes of the key's hash.
pub proof fn law_address_is_the_end_of_the_hash(public_key_hash: Seq<u8>)
    requires
        public_key_hash.len() == 32,
    ensures
        eth_address_of(public_key_hash).len() == 20,
        forall|i: int|
            0 <= i < 20 ==> #[trigger] eth_address_of(public_key_hash)[i] == public_key_hash[12
                + i],
{
}

/// Each byte is written as two digits, the higher first: `0` to `9` for what is
/// below ten, and else `a` to `f`.
pub proof fn law_hex_digits(bytes: Seq<u8>, i: int)
    requires
        0 <= i < bytes.len(),
    ensures
        hex(bytes).len() == 2 * bytes.len(),
        ({
            let high = bytes[i] / 16;
            let low = bytes[i] % 16;
            &&& hex(bytes)[2 * i] == if high < 10 {
                0x30 + high
            } else {
                0x61 + (high - 10)
            }
            &&& hex(bytes)[2 * i + 1] == if low < 10 {
                0x30 + low
            } else {
                0x61 + (low - 10)
            }
        }),
{
    lemma_hex_digits();
    let high = (bytes[i] / 16) as int;
    let low = (bytes[i] % 16) as int;
    assert(hex(bytes)[2 * i] == HEX@[high]);
    assert(hex(bytes)[2 * i + 1] == HEX@[low]);
}

/// The signed message is the EIP-191 header for 66 characters, `0x` and the whole
/// payload in hex, byte for byte.
pub proof fn law_message_holds_the_whole_payload(payload: Seq<u8>)
    requires
        payload.len() == 32,
    ensures
        message(payload).len() == 94,
        forall|i: int|
            0 <= i < 30 ==> #[trigger] message(payload)[i] as int
                == "\x19Ethereum Signed Message:\n660x"@[i] as int,
        forall|i: int| 0 <= i < 64 ==> #[trigger] hex(payload)[i] == message(payload)[30 + i],
{
    reveal_strlit("\x19Ethereum Signed Message:\n660x");
    lemma_message_prefix();
    let text = "\x19Ethereum Signed Message:\n660x"@;
    assert(MESSAGE_PREFIX@ =~= Seq::new(30, |i: int| text[i] as u8));
    assert(message(payload) =~= MESSAGE_PREFIX@ + hex(payload));
}

/// What decides an authorization: the form of the signature, and whether the key
/// that the host recovers from it and the message of the payload hashes to the
/// address. Nothing else does.
pub proof fn law_what_decides_an_authorization(
    eth_address: Seq<u8>,
    payload: Seq<u8>,
    signature: Seq<u8>,
)
    requires
        signature.len() == 65,
    ensures
        ({
            let result = auth_result(eth_address, payload, signature);
            let v = signature[64];
            let known = v == 0 || v == 1 || v == 27 || v == 28;
            let canonical = is_low_s(signature.subrange(32, 64));
            let key = platform::secp256k1_recovered(
                platform::keccak256_digest(message(payload)),
                signature.subrange(0, 64),
                if v == 0 || v == 27 {
                    0u8
                } else {
                    1u8
                },
            );
            let signer = platform::keccak256_digest(key->0.subrange(1, 65)).subrange(12, 32);
            let sound = known && canonical && key is Some;
            &&& result is Ok <==> sound && signer == eth_address
            &&& result == Err::<(), Failure>(Failure::Contract(Error::InvalidRecoveryId))
                <==> !known
            &&& result == Err::<(), Failure>(Failure::Contract(Error::NonCanonicalSignature))
                <==> known && !canonical
            &&& result == Err::<(), Failure>(Failure::Recovery) <==> known && canonical
                && key is None
            &&& result == Err::<(), Failure>(Failure::Contract(Error::WrongSigner)) <==> sound
                && signer != eth_address
        }),
{
}

/// The lifetime of the storage is extended to sixty days of 17280 ledgers, once it
/// is below thirty.
pub proof fn law_lifetime_is_sixty_days()
    ensures
        extend_ttl() == (Action::ExtendTtl { threshold: 518_400, extend_to: 1_036_800 }),
{
}

} // verus!
