//! The library by itself: each law on concrete values, the edge cases of each
//! operation, and the exact actions, bytes and numbers that it comes to.

use ed25519_dalek::Signer;
use soroban_sdk::testutils::EnvTestConfig;
use soroban_sdk::{Bytes, Env};

use payment_channel::account;
use payment_channel::account_factory;
use payment_channel::channel::event::{Close, Deposit, Event, Open, Refund, Withdraw};
use payment_channel::channel::{Action, BalanceQuery, Commitment, Contract, DataKey, Error, Failure, Instance, Invocation, Value, MAX_REFUND_WAITING_PERIOD};
use payment_channel::channel_factory;
use payment_channel::host::{array_at, bytes_equal, Address, Context, Deployment, TTL_EXTEND_TO, TTL_THRESHOLD};

const CHANNEL: Address = Address::Contract([0xc0; 32]);
const TOKEN: Address = Address::Contract([0x70; 32]);
const FUNDER: Address = Address::Account([0xf0; 32]);
const RECIPIENT: Address = Address::Account([0x10; 32]);
const NETWORK: [u8; 32] = [0x5e; 32];
const EXTEND: Action = Action::ExtendTtl { threshold: 518_400, extend_to: 1_036_800 };

fn new_env() -> Env {
    Env::new_with_config(EnvTestConfig { capture_snapshot_at_drop: false, ..Default::default() })
}

fn signing_key() -> ed25519_dalek::SigningKey {
    ed25519_dalek::SigningKey::from_bytes(&[7; 32])
}

fn commitment_key() -> [u8; 32] {
    signing_key().verifying_key().to_bytes()
}

fn context_at(sequence: u32) -> Context {
    Context { contract: CHANNEL, sequence, network_id: NETWORK }
}

/// A channel with 500 deposited, of which 200 were withdrawn.
fn storage() -> Instance {
    Instance {
        token: TOKEN,
        from: FUNDER,
        commitment_key: commitment_key(),
        to: RECIPIENT,
        refund_waiting_period: 100,
        withdrawn_amount: Some(200),
        close_effective_at_ledger: None,
        refunded: None,
        deposited_amount: Some(500),
    }
}

fn invocation(storage: Instance, sequence: u32) -> Invocation {
    assert!(storage.is_valid());
    Invocation { context: context_at(sequence), storage, actions: Vec::new() }
}

fn closing(storage: Instance, effective: u32) -> Instance {
    Instance { close_effective_at_ledger: Some(effective), ..storage }
}

fn finished(storage: Instance, effective: u32) -> Instance {
    Instance { refunded: Some(true), ..closing(storage, effective) }
}

fn signature(env: &Env, key: &ed25519_dalek::SigningKey, network: [u8; 32], channel: Address, amount: i128) -> [u8; 64] {
    key.sign(&Commitment::new(network, channel, amount).into_bytes(env)).to_bytes()
}

fn signed(env: &Env, amount: i128) -> [u8; 64] {
    signature(env, &signing_key(), NETWORK, CHANNEL, amount)
}

fn pay(amount: i128) -> Action {
    Action::Transfer { token: TOKEN, from: CHANNEL, to: RECIPIENT, amount }
}

fn withdrawal(amount: i128) -> Action {
    Action::Publish(Event::Withdraw(Withdraw { to: RECIPIENT, amount }))
}

/// What the actions bring to `holder`, less what they take.
fn moved(actions: &[Action], holder: Address) -> i128 {
    let mut total: i128 = 0;
    for action in actions {
        if let Action::Transfer { token, from, to, amount } = *action {
            assert_eq!(token, TOKEN);
            if to == holder {
                total += amount;
            }
            if from == holder {
                total -= amount;
            }
        }
    }
    total
}

/// The storage after a host that starts out with `storage` stored what the
/// actions say.
fn stored(mut storage: Instance, actions: &[Action]) -> Instance {
    for action in actions {
        match *action {
            Action::Store(DataKey::Token, Value::Address(token)) => storage.token = token,
            Action::Store(DataKey::From, Value::Address(from)) => storage.from = from,
            Action::Store(DataKey::CommitmentKey, Value::Bytes(key)) => storage.commitment_key = key,
            Action::Store(DataKey::To, Value::Address(to)) => storage.to = to,
            Action::Store(DataKey::RefundWaitingPeriod, Value::U32(n)) => storage.refund_waiting_period = n,
            Action::Store(DataKey::WithdrawnAmount, Value::I128(n)) => storage.withdrawn_amount = Some(n),
            Action::Store(DataKey::CloseEffectiveAtLedger, Value::U32(n)) => storage.close_effective_at_ledger = Some(n),
            Action::Store(DataKey::Refunded, Value::Bool(b)) => storage.refunded = Some(b),
            Action::Store(DataKey::DepositedAmount, Value::I128(n)) => storage.deposited_amount = Some(n),
            Action::Store(key, value) => panic!("{:?} stored under {:?}", value, key),
            _ => {}
        }
    }
    storage
}

// The numbers and byte strings.

#[test]
fn lifetimes_are_thirty_and_sixty_days() {
    assert_eq!(TTL_THRESHOLD, 518_400);
    assert_eq!(TTL_EXTEND_TO, 1_036_800);
}

#[test]
fn error_codes() {
    assert_eq!(Error::NegativeAmount.code(), 1);
    assert_eq!(Error::NotClosed.code(), 2);
    assert_eq!(Error::RefundWaitingPeriodNotElapsed.code(), 3);
    assert_eq!(Error::AlreadyClosed.code(), 4);
    assert_eq!(Error::InsufficientDeposit.code(), 5);
    assert_eq!(Error::Refunded.code(), 6);
    assert_eq!(Error::Overflow.code(), 7);
    assert_eq!(Error::RefundWaitingPeriodTooLong.code(), 8);
    assert_eq!(account::Error::InvalidRecoveryId.code(), 1);
    assert_eq!(account::Error::NonCanonicalSignature.code(), 2);
    assert_eq!(account::Error::WrongSigner.code(), 3);
    assert_eq!(channel_factory::Error::WasmHashMismatch.code(), 1);
}

#[test]
fn byte_strings_are_compared_and_cut() {
    assert!(bytes_equal(&[1, 2, 3], &[1, 2, 3]));
    assert!(!bytes_equal(&[1, 2, 3], &[1, 2, 4]));
    assert!(!bytes_equal(&[0, 2, 3], &[1, 2, 3]));
    assert!(bytes_equal::<0>(&[], &[]));
    assert_eq!(array_at::<2>(&[1, 2, 3, 4], 1), [2, 3]);
    assert_eq!(array_at::<4>(&[1, 2, 3, 4], 0), [1, 2, 3, 4]);
    assert_eq!(array_at::<0>(&[1, 2], 2), [0u8; 0]);
}

#[test]
fn events_have_names_and_parties() {
    let open = Event::Open(Open { from: FUNDER, commitment_key: [1; 32], to: RECIPIENT, token: TOKEN, amount: 5, refund_waiting_period: 9 });
    assert_eq!((open.name(), open.topics()), ("open", vec![FUNDER, RECIPIENT]));
    let deposit = Event::Deposit(Deposit { from: FUNDER, amount: 5 });
    assert_eq!((deposit.name(), deposit.topics()), ("deposit", vec![FUNDER]));
    let withdraw = Event::Withdraw(Withdraw { to: RECIPIENT, amount: 5 });
    assert_eq!((withdraw.name(), withdraw.topics()), ("withdraw", vec![RECIPIENT]));
    let close = Event::Close(Close { effective_at_ledger: 5 });
    assert_eq!((close.name(), close.topics()), ("close", vec![]));
    let refund = Event::Refund(Refund { from: FUNDER, amount: 5 });
    assert_eq!((refund.name(), refund.topics()), ("refund", vec![FUNDER]));
}

// The account.

#[test]
fn hex_is_lowercase_and_padded() {
    let mut bytes = [0u8; 32];
    bytes[0] = 0x0a;
    bytes[1] = 0xbc;
    bytes[31] = 0xff;
    let mut out = vec![b'!'];
    account::append_hex(&mut out, &bytes);
    assert_eq!(out, b"!0abc0000000000000000000000000000000000000000000000000000000000ff".to_vec());
}

#[test]
fn signed_message_is_the_personal_sign_message() {
    let expected = b"\x19Ethereum Signed Message:\n660x2a2a2a2a2a2a2a2a2a2a2a2a2a2a2a2a2a2a2a2a2a2a2a2a2a2a2a2a2a2a2a2a".to_vec();
    assert_eq!(account::signed_message(&[0x2a; 32]), expected);
}

#[test]
fn payloads_have_distinct_messages() {
    let mut other = [0x2a; 32];
    other[31] = 0x2b;
    assert_ne!(account::signed_message(&[0x2a; 32]), account::signed_message(&other));
}

#[test]
fn numbers_are_compared_most_significant_byte_first() {
    let mut small = [0u8; 32];
    small[31] = 0xff;
    let mut great = [0u8; 32];
    great[30] = 1;
    assert!(account::exceeds(&great, &small));
    assert!(!account::exceeds(&small, &great));
    assert!(!account::exceeds(&great, &great));
}

/// A signature whose scalar is half the group order but for its last byte.
fn signature_with(last: u8, v: u8) -> [u8; 65] {
    let mut signature = [0x11; 65];
    signature[32..64].copy_from_slice(&account::SECP256K1_N_HALF);
    signature[63] = last;
    signature[64] = v;
    signature
}

#[test]
fn signature_parts_at_the_canonical_bound() {
    // The scalar at the bound is canonical, the next one is not.
    let at_bound = signature_with(0xa0, 28);
    let rs: [u8; 64] = at_bound[..64].try_into().unwrap();
    assert_eq!(account::signature_parts(&at_bound), Ok((rs, 1)));
    assert_eq!(account::signature_parts(&signature_with(0xa1, 28)), Err(account::Error::NonCanonicalSignature));
}

#[test]
fn legacy_recovery_ids() {
    for (v, id) in [(0, 0), (27, 0), (1, 1), (28, 1)] {
        assert_eq!(account::signature_parts(&signature_with(0, v)).unwrap().1, id);
    }
    for v in [2u8, 26, 29, 255] {
        assert_eq!(account::signature_parts(&signature_with(0, v)), Err(account::Error::InvalidRecoveryId));
    }
    // An unknown recovery identifier is found before a high scalar.
    assert_eq!(account::signature_parts(&signature_with(0xa1, 2)), Err(account::Error::InvalidRecoveryId));
}

#[test]
fn one_scalar_is_canonical() {
    // Half the order, rounded down, and half the order, rounded up, add up to it.
    assert!(account::signature_parts(&signature_with(0xa0, 0)).is_ok());
    assert!(account::signature_parts(&signature_with(0xa1, 0)).is_err());
}

#[test]
fn signer_is_the_end_of_the_key_hash() {
    let mut hash = [9u8; 32];
    hash[12] = 1;
    let mut address = [9u8; 20];
    address[0] = 1;
    assert_eq!(account::check_signer(&address, &hash), Ok(()));
    address[19] = 8;
    assert_eq!(account::check_signer(&address, &hash), Err(account::Error::WrongSigner));
}

fn account_call(eth_address: [u8; 20]) -> account::Invocation {
    account::Invocation { context: context_at(1), storage: account::Instance { eth_address }, actions: Vec::new() }
}

#[test]
fn account_is_opened_and_extended() {
    let mut call = account::Contract::__constructor(context_at(1), [3; 20]);
    assert_eq!(account::Contract::eth_address(&call), [3; 20]);
    account::Contract::extend(&mut call);
    let extend = account::Action::ExtendTtl { threshold: 518_400, extend_to: 1_036_800 };
    assert_eq!(call.actions, vec![account::Action::Store(account::DataKey::EthAddress, [3; 20]), extend]);
}

/// The signature that the secp256k1 key 1 makes over the message of a payload,
/// and the Ethereum address of that key.
fn wallet_signature(env: &Env, payload: &[u8; 32]) -> ([u8; 65], [u8; 20]) {
    let mut scalar = [0u8; 32];
    scalar[31] = 1;
    let key = k256::ecdsa::SigningKey::from_bytes((&scalar).into()).unwrap();
    let message = Bytes::from_slice(env, &account::signed_message(payload));
    let digest = env.crypto().keccak256(&message).to_array();
    let (rs, id) = key.sign_prehash_recoverable(&digest).unwrap();
    let mut signature = [0u8; 65];
    signature[..64].copy_from_slice(&rs.to_bytes());
    signature[64] = id.to_byte();
    // The well-known address of that key.
    let address = [0x7e, 0x5f, 0x45, 0x52, 0x09, 0x1a, 0x69, 0x12, 0x5d, 0x5d, 0xfc, 0xb7, 0xb8, 0xc2, 0x65, 0x90, 0x29, 0x39, 0x5b, 0xdf];
    (signature, address)
}

#[test]
fn known_wallet_authorizes() {
    let env = new_env();
    let (signature, address) = wallet_signature(&env, &[0x2a; 32]);
    let mut call = account_call(address);
    assert_eq!(account::Contract::__check_auth(&env, &mut call, &[0x2a; 32], &signature), Ok(()));
    assert_eq!(call.actions, vec![account::Action::ExtendTtl { threshold: 518_400, extend_to: 1_036_800 }]);
    assert_eq!(call.storage.eth_address, address);
}

#[test]
fn host_recovers_the_same_key() {
    let env = new_env();
    let (signature, address) = wallet_signature(&env, &[0x2a; 32]);
    let message = Bytes::from_slice(&env, &account::signed_message(&[0x2a; 32]));
    let digest = env.crypto().keccak256(&message);
    let rs = soroban_sdk::BytesN::from_array(&env, &signature[..64].try_into().unwrap());
    let key = env.crypto().secp256k1_recover(&digest, &rs, signature[64] as u32).to_array();
    let hash = env.crypto().keccak256(&Bytes::from_slice(&env, &key[1..])).to_array();
    assert_eq!(account::check_signer(&address, &hash), Ok(()));
}

#[test]
fn signature_has_one_signer() {
    let env = new_env();
    let (signature, mut address) = wallet_signature(&env, &[0x2a; 32]);
    address[0] ^= 1;
    let result = account::Contract::__check_auth(&env, &mut account_call(address), &[0x2a; 32], &signature);
    assert_eq!(result, Err(account::Failure::Contract(account::Error::WrongSigner)));
}

#[test]
fn signature_without_a_key_is_refused() {
    let env = new_env();
    // Zero is no signature scalar: there is no key to recover.
    let result = account::Contract::__check_auth(&env, &mut account_call([0; 20]), &[0x2a; 32], &[0; 65]);
    assert_eq!(result, Err(account::Failure::Recovery));
}

#[test]
fn high_s_authorizes_nothing() {
    let env = new_env();
    let (mut signature, address) = wallet_signature(&env, &[0x2a; 32]);
    signature[32] = 0xf0;
    let mut call = account_call(address);
    let result = account::Contract::__check_auth(&env, &mut call, &[0x2a; 32], &signature);
    assert_eq!(result, Err(account::Failure::Contract(account::Error::NonCanonicalSignature)));
}

// The factories.

fn xdr_symbol(out: &mut Vec<u8>, symbol: &str) {
    out.extend([0, 0, 0, 15]);
    out.extend((symbol.len() as u32).to_be_bytes());
    out.extend(symbol.as_bytes());
    out.resize(out.len().div_ceil(4) * 4, 0);
}

fn xdr_bytes(out: &mut Vec<u8>, bytes: &[u8]) {
    out.extend([0, 0, 0, 13]);
    out.extend((bytes.len() as u32).to_be_bytes());
    out.extend(bytes);
}

fn xdr_address(out: &mut Vec<u8>, address: &Address) {
    out.extend([0, 0, 0, 18]);
    match address {
        Address::Account(key) => {
            // An account, whose key is of the ed25519 type.
            out.extend([0, 0, 0, 0, 0, 0, 0, 0]);
            out.extend(key);
        }
        Address::Contract(id) => {
            out.extend([0, 0, 0, 1]);
            out.extend(id);
        }
    }
}

fn sha256(env: &Env, data: &[u8]) -> [u8; 32] {
    env.crypto().sha256(&Bytes::from_slice(env, data)).to_array()
}

#[test]
fn host_hash_is_sha256() {
    let expected = [
        0xba, 0x78, 0x16, 0xbf, 0x8f, 0x01, 0xcf, 0xea, 0x41, 0x41, 0x40, 0xde, 0x5d, 0xae, 0x22, 0x23, 0xb0, 0x03, 0x61, 0xa3, 0x96, 0x17, 0x7a, 0x9c, 0xb4, 0x10, 0xff, 0x61, 0xf2, 0x00, 0x15, 0xad,
    ];
    assert_eq!(sha256(&new_env(), b"abc"), expected);
}

fn account_factory_call() -> account_factory::Invocation {
    account_factory::Invocation { context: context_at(1), storage: account_factory::Instance { wasm_hash: [4; 32] }, actions: Vec::new() }
}

#[test]
fn account_factory_is_initialized_and_extended() {
    let mut call = account_factory::FactoryContract::__constructor(context_at(1), [4; 32]);
    assert_eq!(account_factory::FactoryContract::wasm_hash(&call), [4; 32]);
    account_factory::FactoryContract::extend(&mut call);
    let extend = account_factory::Action::ExtendTtl { threshold: 518_400, extend_to: 1_036_800 };
    assert_eq!(call.actions, vec![account_factory::Action::Store(account_factory::DataKey::WasmHash, [4; 32]), extend]);
}

#[test]
fn account_salt_is_the_hash_of_domain_and_signer() {
    let env = new_env();
    let mut call = account_factory_call();
    let account = account_factory::FactoryContract::open_account(&env, &mut call, [5; 20]);

    let mut preimage = vec![0, 0, 0, 16, 0, 0, 0, 1, 0, 0, 0, 2];
    xdr_symbol(&mut preimage, "owcacctv1");
    xdr_bytes(&mut preimage, &[5; 20]);
    let salt = sha256(&env, &preimage);

    assert_eq!(account, Deployment { deployer: CHANNEL, salt });
    let extend = account_factory::Action::ExtendTtl { threshold: 518_400, extend_to: 1_036_800 };
    assert_eq!(call.actions, vec![extend, account_factory::Action::Deploy { salt, wasm_hash: [4; 32], eth_address: [5; 20] }]);
}

#[test]
fn account_address_is_deterministic() {
    let env = new_env();
    let mut call = account_factory_call();
    let before = account_factory::FactoryContract::account_address(&env, &call, [5; 20]);
    let account = account_factory::FactoryContract::open_account(&env, &mut call, [5; 20]);
    let after = account_factory::FactoryContract::account_address(&env, &call, [5; 20]);
    assert_eq!(before, after);
    assert_eq!(before.network_id, env.ledger().network_id().to_array());

    // A contract's identifier is the hash of the network, the deployer and the
    // salt in the XDR of a contract identifier preimage.
    let mut preimage = vec![0, 0, 0, 8];
    preimage.extend(before.network_id);
    preimage.extend([0, 0, 0, 0, 0, 0, 0, 1]);
    preimage.extend([0xc0; 32]);
    preimage.extend(account.salt);
    assert_eq!(before.address, Address::Contract(sha256(&env, &preimage)));
}

#[test]
fn signers_have_distinct_accounts() {
    let env = new_env();
    let call = account_factory_call();
    let one = account_factory::FactoryContract::account_address(&env, &call, [5; 20]);
    let other = account_factory::FactoryContract::account_address(&env, &call, [6; 20]);
    assert_ne!(one.address, other.address);
}

fn channel_factory_call() -> channel_factory::Invocation {
    let storage = channel_factory::Instance { admin: RECIPIENT, wasm_hash: [4; 32] };
    channel_factory::Invocation { context: context_at(1), storage, actions: Vec::new() }
}

fn open(env: &Env, call: &mut channel_factory::Invocation, salt: [u8; 32], wasm_hash: [u8; 32], from: Address) -> Result<Deployment, channel_factory::Error> {
    channel_factory::FactoryContract::open(env, call, salt, wasm_hash, TOKEN, from, [8; 32], RECIPIENT, 50, 60)
}

#[test]
fn channel_factory_is_initialized_and_extended() {
    let mut call = channel_factory::FactoryContract::__constructor(context_at(1), RECIPIENT, [4; 32]);
    assert_eq!(channel_factory::FactoryContract::admin(&call), RECIPIENT);
    assert_eq!(channel_factory::FactoryContract::wasm_hash(&call), [4; 32]);
    channel_factory::FactoryContract::extend(&mut call);
    let expected = vec![
        channel_factory::Action::Store(channel_factory::DataKey::Admin, channel_factory::Value::Address(RECIPIENT)),
        channel_factory::Action::Store(channel_factory::DataKey::WasmHash, channel_factory::Value::Bytes([4; 32])),
        channel_factory::Action::ExtendTtl { threshold: 518_400, extend_to: 1_036_800 },
    ];
    assert_eq!(call.actions, expected);
}

#[test]
fn admin_sets_the_wasm() {
    let mut call = channel_factory_call();
    channel_factory::FactoryContract::set_wasm(&mut call, [9; 32]);
    assert_eq!(call.storage, channel_factory::Instance { admin: RECIPIENT, wasm_hash: [9; 32] });
    let expected = vec![
        channel_factory::Action::RequireAuth(RECIPIENT),
        channel_factory::Action::ExtendTtl { threshold: 518_400, extend_to: 1_036_800 },
        channel_factory::Action::Store(channel_factory::DataKey::WasmHash, channel_factory::Value::Bytes([9; 32])),
        channel_factory::Action::Publish(channel_factory::WasmSet { wasm_hash: [9; 32] }),
    ];
    assert_eq!(call.actions, expected);
}

#[test]
fn channel_salt_is_the_hash_of_funder_and_salt() {
    let env = new_env();
    for from in [FUNDER, CHANNEL] {
        let mut call = channel_factory_call();
        let channel = open(&env, &mut call, [2; 32], [4; 32], from).unwrap();

        let mut preimage = vec![0, 0, 0, 16, 0, 0, 0, 1, 0, 0, 0, 2];
        xdr_address(&mut preimage, &from);
        xdr_bytes(&mut preimage, &[2; 32]);
        let salt = sha256(&env, &preimage);

        assert_eq!(channel, Deployment { deployer: CHANNEL, salt });
        let args = channel_factory::ChannelArgs { token: TOKEN, from, commitment_key: [8; 32], to: RECIPIENT, amount: 50, refund_waiting_period: 60 };
        let expected = vec![
            channel_factory::Action::RequireAuth(from),
            channel_factory::Action::ExtendTtl { threshold: 518_400, extend_to: 1_036_800 },
            channel_factory::Action::Deploy { salt, wasm_hash: [4; 32], args },
        ];
        assert_eq!(call.actions, expected);
    }
}

#[test]
fn changed_wasm_is_not_deployed() {
    let env = new_env();
    let mut call = channel_factory_call();
    channel_factory::FactoryContract::set_wasm(&mut call, [9; 32]);
    call.actions.clear();
    assert_eq!(open(&env, &mut call, [2; 32], [4; 32], FUNDER), Err(channel_factory::Error::WasmHashMismatch));
    assert_eq!(call.actions, vec![channel_factory::Action::RequireAuth(FUNDER)]);
    assert!(open(&env, &mut call, [2; 32], [9; 32], FUNDER).is_ok());
}

#[test]
fn funders_have_distinct_channels() {
    let env = new_env();
    let mut call = channel_factory_call();
    let one = open(&env, &mut call, [2; 32], [4; 32], FUNDER).unwrap();
    let other = open(&env, &mut call, [2; 32], [4; 32], RECIPIENT).unwrap();
    let again = open(&env, &mut call, [3; 32], [4; 32], FUNDER).unwrap();
    assert_ne!(one.salt, other.salt);
    assert_ne!(one.salt, again.salt);
    assert_eq!(one, open(&env, &mut call, [2; 32], [4; 32], FUNDER).unwrap());
}

// Opening a channel.

fn opened(amount: i128, refund_waiting_period: u32) -> Result<Invocation, Error> {
    Contract::__constructor(context_at(10), TOKEN, FUNDER, commitment_key(), RECIPIENT, amount, refund_waiting_period)
}

fn configuration(refund_waiting_period: u32) -> Vec<Action> {
    vec![
        Action::Store(DataKey::Token, Value::Address(TOKEN)),
        Action::Store(DataKey::From, Value::Address(FUNDER)),
        Action::Store(DataKey::CommitmentKey, Value::Bytes(commitment_key())),
        Action::Store(DataKey::To, Value::Address(RECIPIENT)),
        Action::Store(DataKey::RefundWaitingPeriod, Value::U32(refund_waiting_period)),
        Action::RequireAuth(FUNDER),
        EXTEND,
    ]
}

fn opening(amount: i128, refund_waiting_period: u32) -> Action {
    Action::Publish(Event::Open(Open { from: FUNDER, commitment_key: commitment_key(), to: RECIPIENT, token: TOKEN, amount, refund_waiting_period }))
}

#[test]
fn opening_stores_deposits_and_announces() {
    let call = opened(500, 100).unwrap();
    let mut expected = configuration(100);
    expected.push(Action::Store(DataKey::DepositedAmount, Value::I128(500)));
    expected.push(Action::Transfer { token: TOKEN, from: FUNDER, to: CHANNEL, amount: 500 });
    expected.push(Action::Publish(Event::Deposit(Deposit { from: FUNDER, amount: 500 })));
    expected.push(opening(500, 100));
    assert_eq!(call.actions, expected);
    assert_eq!(call.storage, Instance { withdrawn_amount: None, ..storage() });
    assert_eq!(call.storage, stored(call.storage, &call.actions));
}

#[test]
fn opening_without_a_deposit_moves_nothing() {
    let call = opened(0, 0).unwrap();
    let mut expected = configuration(0);
    expected.push(opening(0, 0));
    assert_eq!(call.actions, expected);
    assert_eq!(call.storage.deposited_amount, None);
    assert_eq!(Contract::deposited(&call), 0);
    assert_eq!(Contract::withdrawn(&call), 0);
}

#[test]
fn opening_refuses_bad_arguments() {
    assert_eq!(opened(-1, 100).err(), Some(Error::NegativeAmount));
    assert_eq!(opened(-1, MAX_REFUND_WAITING_PERIOD + 1).err(), Some(Error::NegativeAmount));
    assert_eq!(opened(0, MAX_REFUND_WAITING_PERIOD + 1).err(), Some(Error::RefundWaitingPeriodTooLong));
    assert!(opened(i128::MAX, MAX_REFUND_WAITING_PERIOD).is_ok());
}

#[test]
fn opened_channel_is_well_formed() {
    assert!(opened(500, 100).unwrap().storage.is_valid());
    assert!(opened(0, MAX_REFUND_WAITING_PERIOD).unwrap().storage.is_valid());
}

#[test]
fn storage_that_no_channel_has_is_not_valid() {
    assert!(storage().is_valid());
    assert!(finished(storage(), 5).is_valid());
    assert!(!Instance { withdrawn_amount: Some(501), ..storage() }.is_valid());
    assert!(!Instance { withdrawn_amount: Some(-1), ..storage() }.is_valid());
    assert!(!Instance { refunded: Some(true), ..storage() }.is_valid());
    assert!(!Instance { refund_waiting_period: MAX_REFUND_WAITING_PERIOD + 1, ..storage() }.is_valid());
}

#[test]
fn getters_read_the_storage() {
    let call = invocation(closing(storage(), 77), 10);
    assert_eq!(Contract::token(&call), TOKEN);
    assert_eq!(Contract::from(&call), FUNDER);
    assert_eq!(Contract::to(&call), RECIPIENT);
    assert_eq!(Contract::commitment_key(&call), commitment_key());
    assert_eq!(Contract::refund_waiting_period(&call), 100);
    assert_eq!(Contract::close_effective_at_ledger(&call), Some(77));
    assert_eq!(Contract::deposited(&call), 500);
    assert_eq!(Contract::withdrawn(&call), 200);
    assert_eq!(Contract::balance(&call), BalanceQuery { token: TOKEN, holder: CHANNEL });
}

#[test]
fn extension_does_nothing_else() {
    let mut call = invocation(storage(), 10);
    Contract::extend(&mut call);
    assert_eq!(call.actions, vec![EXTEND]);
    assert_eq!(call.storage, storage());
}

// Deposits.

#[test]
fn deposit_is_recorded_moved_and_announced() {
    let mut call = invocation(storage(), 10);
    assert_eq!(Contract::top_up(&mut call, 40), Ok(()));
    let expected = vec![
        Action::RequireAuth(FUNDER),
        EXTEND,
        Action::Store(DataKey::DepositedAmount, Value::I128(540)),
        Action::Transfer { token: TOKEN, from: FUNDER, to: CHANNEL, amount: 40 },
        Action::Publish(Event::Deposit(Deposit { from: FUNDER, amount: 40 })),
    ];
    assert_eq!(call.actions, expected);
    assert_eq!(call.storage, Instance { deposited_amount: Some(540), ..storage() });
}

#[test]
fn deposit_of_nothing_only_extends() {
    let mut call = invocation(storage(), 10);
    assert_eq!(Contract::top_up(&mut call, 0), Ok(()));
    assert_eq!(call.actions, vec![Action::RequireAuth(FUNDER), EXTEND]);
    assert_eq!(call.storage, storage());
}

#[test]
fn deposit_is_refused() {
    let mut call = invocation(storage(), 10);
    assert_eq!(Contract::top_up(&mut call, -1), Err(Error::NegativeAmount));
    assert!(call.actions.is_empty());

    assert_eq!(Contract::top_up(&mut call, i128::MAX - 499), Err(Error::Overflow));
    assert_eq!(call.actions, vec![Action::RequireAuth(FUNDER), EXTEND]);
    assert_eq!(call.storage, storage());
    assert_eq!(Contract::top_up(&mut call, i128::MAX - 500), Ok(()));
    assert_eq!(Contract::deposited(&call), i128::MAX);

    // A close that has started, even if it is not effective yet.
    let mut call = invocation(closing(storage(), 50), 10);
    assert_eq!(Contract::top_up(&mut call, 1), Err(Error::AlreadyClosed));
    assert_eq!(Contract::top_up(&mut call, 0), Err(Error::AlreadyClosed));
    assert_eq!(Contract::top_up(&mut call, -1), Err(Error::NegativeAmount));
    assert!(call.actions.is_empty());
}

// Commitments.

#[test]
fn commitment_bytes_are_the_xdr_of_the_four_fields() {
    let env = new_env();
    let mut expected = vec![0, 0, 0, 17, 0, 0, 0, 1, 0, 0, 0, 4];
    xdr_symbol(&mut expected, "amount");
    expected.extend([0, 0, 0, 10]);
    expected.extend(300i128.to_be_bytes());
    xdr_symbol(&mut expected, "channel");
    xdr_address(&mut expected, &CHANNEL);
    xdr_symbol(&mut expected, "domain");
    xdr_symbol(&mut expected, "chancmmt");
    xdr_symbol(&mut expected, "network");
    xdr_bytes(&mut expected, &NETWORK);
    assert_eq!(Contract::prepare_commitment(&env, &invocation(storage(), 10), 300), Ok(expected.clone()));
    assert_eq!(Commitment::new(NETWORK, CHANNEL, 300).into_bytes(&env), expected);
}

#[test]
fn negative_commitment_is_not_prepared() {
    let env = new_env();
    assert_eq!(Contract::prepare_commitment(&env, &invocation(storage(), 10), -1), Err(Error::NegativeAmount));
    assert!(Contract::prepare_commitment(&env, &invocation(storage(), 10), 0).is_ok());
}

#[test]
fn prepared_bytes_are_verified() {
    let env = new_env();
    let mut call = invocation(storage(), 10);
    let bytes = Contract::prepare_commitment(&env, &call, 300).unwrap();
    let sig = signing_key().sign(&bytes).to_bytes();
    assert!(Commitment::new(NETWORK, CHANNEL, 300).verify(&env, &commitment_key(), &sig));
    assert_eq!(Contract::settle(&env, &mut call, 300, &sig), Ok(()));
}

#[test]
fn commitments_are_not_interchangeable() {
    let env = new_env();
    let key = signing_key();
    let sigs = [
        signature(&env, &key, NETWORK, CHANNEL, 301),
        signature(&env, &key, NETWORK, Address::Account([0xc0; 32]), 300),
        signature(&env, &key, NETWORK, TOKEN, 300),
        signature(&env, &key, [0; 32], CHANNEL, 300),
        signature(&env, &ed25519_dalek::SigningKey::from_bytes(&[8; 32]), NETWORK, CHANNEL, 300),
        [0; 64],
    ];
    for sig in sigs {
        let mut call = invocation(storage(), 10);
        assert_eq!(Contract::settle(&env, &mut call, 300, &sig), Err(Failure::Signature));
        assert_eq!(call.actions, vec![Action::RequireAuth(RECIPIENT)]);
        assert_eq!(call.storage, storage());
        assert_eq!(Contract::close(&env, &mut call, 300, &sig), Err(Failure::Signature));
    }
    assert_eq!(Contract::settle(&env, &mut invocation(storage(), 10), 300, &signed(&env, 300)), Ok(()));
}

#[test]
fn bytes_that_are_no_key_verify_nothing() {
    let env = new_env();
    // No point of the curve has this encoding.
    let mut bytes = [0u8; 32];
    bytes[0] = 2;
    assert!(ed25519_dalek::VerifyingKey::from_bytes(&bytes).is_err());
    assert!(!Commitment::new(NETWORK, CHANNEL, 300).verify(&env, &bytes, &signed(&env, 300)));
}

#[test]
fn settlement_pays_the_difference() {
    let env = new_env();
    let mut call = invocation(storage(), 10);
    assert_eq!(Contract::settle(&env, &mut call, 300, &signed(&env, 300)), Ok(()));
    let expected = vec![Action::RequireAuth(RECIPIENT), EXTEND, Action::Store(DataKey::WithdrawnAmount, Value::I128(300)), pay(100), withdrawal(100)];
    assert_eq!(call.actions, expected);
    assert_eq!(call.storage, Instance { withdrawn_amount: Some(300), ..storage() });
}

#[test]
fn older_commitment_pays_nothing() {
    let env = new_env();
    for amount in [200, 150, 0] {
        let mut call = invocation(storage(), 10);
        assert_eq!(Contract::settle(&env, &mut call, amount, &signed(&env, amount)), Ok(()));
        assert_eq!(call.actions, vec![Action::RequireAuth(RECIPIENT), EXTEND]);
        assert_eq!(call.storage, storage());
    }
}

#[test]
fn negative_commitment_is_refused() {
    let env = new_env();
    for storage in [storage(), finished(storage(), 5)] {
        let mut call = invocation(storage, 10);
        assert_eq!(Contract::settle(&env, &mut call, -1, &signed(&env, -1)), Err(Failure::Contract(Error::NegativeAmount)));
        assert_eq!(Contract::close(&env, &mut call, -1, &signed(&env, -1)), Err(Failure::Contract(Error::NegativeAmount)));
        assert!(call.actions.is_empty());
    }
}

#[test]
fn commitments_beyond_deposit_are_refused() {
    let env = new_env();
    let mut call = invocation(storage(), 10);
    assert_eq!(Contract::settle(&env, &mut call, 501, &signed(&env, 501)), Err(Failure::Contract(Error::InsufficientDeposit)));
    assert_eq!(call.actions, vec![Action::RequireAuth(RECIPIENT), EXTEND]);
    assert_eq!(call.storage, storage());
    assert_eq!(Contract::close(&env, &mut call, 501, &signed(&env, 501)), Err(Failure::Contract(Error::InsufficientDeposit)));
    // Without a signature, the missing signature is what is reported.
    assert_eq!(Contract::settle(&env, &mut call, 501, &[0; 64]), Err(Failure::Signature));
}

#[test]
fn commitments_are_honoured_until_final() {
    let env = new_env();
    // Open, closing and closed.
    for storage in [storage(), closing(storage(), 50), closing(storage(), 5)] {
        let mut call = invocation(storage, 10);
        assert_eq!(Contract::settle(&env, &mut call, 500, &signed(&env, 500)), Ok(()));
        assert_eq!(moved(&call.actions, RECIPIENT), 300);
    }
    let mut call = invocation(finished(storage(), 5), 10);
    assert_eq!(Contract::settle(&env, &mut call, 500, &signed(&env, 500)), Err(Failure::Contract(Error::Refunded)));
}

#[test]
fn settlements_add_up() {
    let env = new_env();
    let series: [&[i128]; 5] = [&[250, 400], &[400, 250], &[100, 400, 0], &[400, 400], &[210, 300, 220, 400, 399]];
    for amounts in series {
        let mut call = invocation(storage(), 10);
        for amount in amounts {
            assert_eq!(Contract::settle(&env, &mut call, *amount, &signed(&env, *amount)), Ok(()));
        }
        assert_eq!(call.storage, Instance { withdrawn_amount: Some(400), ..storage() });
        assert_eq!(moved(&call.actions, RECIPIENT), 200);
    }
}

#[test]
fn settlement_of_a_verified_commitment() {
    let mut call = invocation(storage(), 10);
    assert_eq!(Contract::settle_committed(&mut call, 300, false), Err(Failure::Signature));
    assert!(call.actions.is_empty());
    assert_eq!(Contract::settle_committed(&mut call, 501, true), Err(Failure::Contract(Error::InsufficientDeposit)));
    call.actions.clear();
    assert_eq!(Contract::settle_committed(&mut call, 500, true), Ok(()));
    assert_eq!(call.actions, vec![EXTEND, Action::Store(DataKey::WithdrawnAmount, Value::I128(500)), pay(300), withdrawal(300)]);
}

// Closing.

fn closing_at(sequence: u32) -> Vec<Action> {
    vec![Action::Store(DataKey::CloseEffectiveAtLedger, Value::U32(sequence)), Action::Publish(Event::Close(Close { effective_at_ledger: sequence }))]
}

#[test]
fn close_pays_closes_and_refunds() {
    let env = new_env();
    let mut call = invocation(storage(), 10);
    assert_eq!(Contract::close(&env, &mut call, 300, &signed(&env, 300)), Ok(BalanceQuery { token: TOKEN, holder: CHANNEL }));
    let mut expected = vec![Action::RequireAuth(RECIPIENT), EXTEND, Action::Store(DataKey::WithdrawnAmount, Value::I128(300)), pay(100), withdrawal(100)];
    expected.extend(closing_at(10));
    assert_eq!(call.actions, expected);
    assert_eq!(call.storage, Instance { withdrawn_amount: Some(300), ..closing(storage(), 10) });

    call.actions.clear();
    assert_eq!(Contract::close_balance(&mut call, 200), Some(200));
    let attempt = Action::TryTransfer { token: TOKEN, from: CHANNEL, to: FUNDER, amount: 200 };
    assert_eq!(call.actions, vec![Action::Store(DataKey::Refunded, Value::Bool(true)), attempt]);
    assert_eq!(call.storage, Instance { withdrawn_amount: Some(300), ..finished(storage(), 10) });

    call.actions.clear();
    Contract::close_refunded(&mut call, 200, true);
    assert_eq!(call.actions, vec![Action::Publish(Event::Refund(Refund { from: FUNDER, amount: 200 }))]);
    call.actions.clear();
    Contract::close_refunded(&mut call, 200, false);
    assert!(call.actions.is_empty());
    assert!(call.storage.is_valid());
}

#[test]
fn close_of_an_empty_channel_refunds_nothing() {
    for balance in [0, -1] {
        let mut call = invocation(closing(storage(), 10), 10);
        assert_eq!(Contract::close_balance(&mut call, balance), None);
        assert_eq!(call.actions, vec![Action::Store(DataKey::Refunded, Value::Bool(true))]);
        assert_eq!(call.storage.refunded, Some(true));
    }
}

#[test]
fn close_resolves_a_close_that_started() {
    // One that is to take effect later takes effect now.
    let mut call = invocation(closing(storage(), 11), 10);
    assert!(Contract::close_committed(&mut call, 200, true).is_ok());
    let mut expected = vec![EXTEND];
    expected.extend(closing_at(10));
    assert_eq!(call.actions, expected);
    assert_eq!(call.storage.close_effective_at_ledger, Some(10));

    // One that has taken effect stays.
    for effective in [10, 9] {
        let mut call = invocation(closing(storage(), effective), 10);
        assert!(Contract::close_committed(&mut call, 200, true).is_ok());
        assert_eq!(call.actions, vec![EXTEND]);
        assert_eq!(call.storage.close_effective_at_ledger, Some(effective));
    }
}

#[test]
fn close_is_refused() {
    let mut call = invocation(storage(), 10);
    assert_eq!(Contract::close_committed(&mut call, 300, false), Err(Failure::Signature));
    assert!(call.actions.is_empty());
    assert_eq!(Contract::close_committed(&mut call, 501, true), Err(Failure::Contract(Error::InsufficientDeposit)));
    assert_eq!(call.actions, vec![EXTEND]);
    assert_eq!(call.storage, storage());
}

#[test]
fn close_starts_after_the_waiting_period() {
    let mut call = invocation(storage(), 10);
    assert_eq!(Contract::close_start(&mut call), Ok(()));
    let mut expected = vec![Action::RequireAuth(FUNDER), EXTEND];
    expected.extend(closing_at(110));
    assert_eq!(call.actions, expected);
    assert_eq!(call.storage, closing(storage(), 110));

    // A further start resets the wait, until the close takes effect.
    call.context.sequence = 109;
    assert_eq!(Contract::close_start(&mut call), Ok(()));
    assert_eq!(call.storage, closing(storage(), 209));
    call.context.sequence = 209;
    call.actions.clear();
    assert_eq!(Contract::close_start(&mut call), Err(Error::AlreadyClosed));
    assert!(call.actions.is_empty());
}

#[test]
fn waiting_period_ends_at_the_last_ledger_at_the_latest() {
    let mut call = invocation(Instance { refund_waiting_period: MAX_REFUND_WAITING_PERIOD, ..storage() }, 10);
    assert_eq!(Contract::close_start(&mut call), Ok(()));
    assert_eq!(call.storage.close_effective_at_ledger, Some(u32::MAX));
    let mut call = invocation(Instance { refund_waiting_period: MAX_REFUND_WAITING_PERIOD, ..storage() }, 1);
    assert_eq!(Contract::close_start(&mut call), Ok(()));
    assert_eq!(call.storage.close_effective_at_ledger, Some(u32::MAX));
}

#[test]
fn close_without_a_waiting_period_takes_effect_at_once() {
    let mut call = invocation(Instance { refund_waiting_period: 0, ..storage() }, 10);
    assert_eq!(Contract::close_start(&mut call), Ok(()));
    assert_eq!(call.storage.close_effective_at_ledger, Some(10));
    assert!(Contract::refund(&mut call).is_ok());
}

// Refunds.

#[test]
fn refund_makes_final_and_empties() {
    let mut call = invocation(closing(storage(), 10), 10);
    assert_eq!(Contract::refund(&mut call), Ok(BalanceQuery { token: TOKEN, holder: CHANNEL }));
    assert_eq!(call.actions, vec![Action::RequireAuth(FUNDER), Action::Store(DataKey::Refunded, Value::Bool(true))]);
    assert_eq!(call.storage, finished(storage(), 10));
    call.actions.clear();
    Contract::refund_balance(&mut call, 300);
    let transfer = Action::Transfer { token: TOKEN, from: CHANNEL, to: FUNDER, amount: 300 };
    assert_eq!(call.actions, vec![transfer, Action::Publish(Event::Refund(Refund { from: FUNDER, amount: 300 }))]);
}

#[test]
fn refund_empties_the_channel() {
    for balance in [0, 1, 300, i128::MAX] {
        let mut call = invocation(finished(storage(), 10), 10);
        Contract::refund_balance(&mut call, balance);
        assert_eq!(moved(&call.actions, CHANNEL), -balance);
        assert_eq!(moved(&call.actions, FUNDER), balance);
    }
}

#[test]
fn refund_of_nothing_announces_nothing() {
    for balance in [0, -1] {
        let mut call = invocation(finished(storage(), 10), 10);
        Contract::refund_balance(&mut call, balance);
        assert!(call.actions.is_empty());
    }
}

#[test]
fn refund_is_refused() {
    let mut call = invocation(storage(), 10);
    assert_eq!(Contract::refund(&mut call), Err(Error::NotClosed));
    let mut call = invocation(closing(storage(), 11), 10);
    assert_eq!(Contract::refund(&mut call), Err(Error::RefundWaitingPeriodNotElapsed));
    assert!(call.actions.is_empty());
    assert_eq!(call.storage, closing(storage(), 11));
}

// What holds of a channel whatever is done to it.

/// Everything that can be done to a channel, as far as amounts go.
fn everything(call: &mut Invocation) {
    for amount in [-1, 0, 1, 499, 500, 501, i128::MAX] {
        let _ = Contract::top_up(call, amount);
        if amount >= 0 && call.storage.refunded != Some(true) {
            let _ = Contract::settle_committed(call, amount, true);
            let _ = Contract::settle_committed(call, amount, false);
        }
    }
    let _ = Contract::close_start(call);
    if Contract::refund(call).is_ok() {
        Contract::refund_balance(call, 7);
    }
    Contract::extend(call);
}

#[test]
fn operations_keep_channel_well_formed() {
    let mut call = opened(500, 100).unwrap();
    for sequence in [10, 10, 50, 109, 149, 250, 300] {
        call.context.sequence = sequence;
        everything(&mut call);
        assert!(call.storage.is_valid());
    }
    assert!(Contract::withdrawn(&call) <= Contract::deposited(&call));
}

#[test]
fn configuration_is_fixed() {
    let mut call = invocation(storage(), 10);
    everything(&mut call);
    assert_eq!(Contract::token(&call), TOKEN);
    assert_eq!(Contract::from(&call), FUNDER);
    assert_eq!(Contract::to(&call), RECIPIENT);
    assert_eq!(Contract::commitment_key(&call), commitment_key());
    assert_eq!(Contract::refund_waiting_period(&call), 100);
}

#[test]
fn totals_never_shrink() {
    let mut call = invocation(storage(), 10);
    let mut deposited = 500;
    let mut withdrawn = 200;
    for sequence in [10, 150, 500] {
        call.context.sequence = sequence;
        everything(&mut call);
        assert!(Contract::deposited(&call) >= deposited);
        assert!(Contract::withdrawn(&call) >= withdrawn);
        deposited = Contract::deposited(&call);
        withdrawn = Contract::withdrawn(&call);
    }
}

#[test]
fn final_channel_never_changes() {
    let mut call = invocation(finished(storage(), 5), 10);
    everything(&mut call);
    call.context.sequence = 1_000_000;
    everything(&mut call);
    assert_eq!(call.storage, finished(storage(), 5));
}

#[test]
fn final_channel_serves_only_refunds() {
    let env = new_env();
    let mut call = invocation(finished(storage(), 5), 10);
    assert_eq!(Contract::settle(&env, &mut call, 300, &signed(&env, 300)), Err(Failure::Contract(Error::Refunded)));
    assert_eq!(Contract::close(&env, &mut call, 300, &signed(&env, 300)), Err(Failure::Contract(Error::Refunded)));
    assert_eq!(Contract::top_up(&mut call, 1), Err(Error::AlreadyClosed));
    assert_eq!(Contract::close_start(&mut call), Err(Error::AlreadyClosed));
    assert!(call.actions.is_empty());
    assert!(Contract::refund(&mut call).is_ok());
    assert!(Contract::refund(&mut call).is_ok());
}

#[test]
fn close_and_refund_are_final() {
    let mut call = invocation(storage(), 10);
    assert!(Contract::close_committed(&mut call, 200, true).is_ok());
    Contract::close_balance(&mut call, 0);
    assert_eq!(call.storage, finished(storage(), 10));

    let mut call = invocation(closing(storage(), 9), 10);
    assert!(Contract::refund(&mut call).is_ok());
    assert_eq!(call.storage, finished(storage(), 9));
}

#[test]
fn closing_channel_takes_no_deposits() {
    let mut call = invocation(closing(storage(), 50), 10);
    everything(&mut call);
    assert_eq!(Contract::top_up(&mut call, 1), Err(Error::AlreadyClosed));
    assert_eq!(Contract::deposited(&call), 500);
    assert!(Contract::close_effective_at_ledger(&call).is_some());
}

#[test]
fn waiting_period_is_kept() {
    let mut call = invocation(storage(), 10);
    assert_eq!(Contract::close_start(&mut call), Ok(()));
    for sequence in [10, 11, 108, 109] {
        call.context.sequence = sequence;
        assert_eq!(Contract::settle_committed(&mut call, 200 + sequence as i128, true), Ok(()));
        // A close that is refused does not end the wait.
        assert!(Contract::close_committed(&mut call, 501, true).is_err());
        assert!(Contract::close_committed(&mut call, 400, false).is_err());
        assert_eq!(Contract::refund(&mut call), Err(Error::RefundWaitingPeriodNotElapsed));
    }
    // To start again puts the refund off, and never brings it forward.
    assert_eq!(Contract::close_start(&mut call), Ok(()));
    call.context.sequence = 110;
    assert_eq!(Contract::refund(&mut call), Err(Error::RefundWaitingPeriodNotElapsed));
    call.context.sequence = 209;
    assert!(Contract::refund(&mut call).is_ok());
}

#[test]
fn only_deposits_raise_deposited() {
    let mut call = invocation(storage(), 10);
    assert_eq!(Contract::top_up(&mut call, 40), Ok(()));
    assert_eq!(Contract::top_up(&mut call, -1), Err(Error::NegativeAmount));
    assert_eq!(Contract::top_up(&mut call, i128::MAX), Err(Error::Overflow));
    assert_eq!(Contract::top_up(&mut call, 0), Ok(()));
    assert_eq!(Contract::top_up(&mut call, 60), Ok(()));
    assert_eq!(Contract::deposited(&call), 600);
    assert_eq!(Contract::settle_committed(&mut call, 500, true), Ok(()));
    assert_eq!(Contract::close_start(&mut call), Ok(()));
    call.context.sequence = 110;
    assert!(Contract::refund(&mut call).is_ok());
    Contract::refund_balance(&mut call, 1000);
    assert_eq!(Contract::top_up(&mut call, 1), Err(Error::AlreadyClosed));
    assert_eq!(Contract::deposited(&call), 600);
}

#[test]
fn operations_follow_phases() {
    // Open, closing, closed and final; whether each takes a deposit, a
    // commitment, the start of a close and a refund.
    let phases = [
        (storage(), true, true, true, false),
        (closing(storage(), 11), false, true, true, false),
        (closing(storage(), 10), false, true, false, true),
        (finished(storage(), 10), false, false, false, true),
    ];
    let env = new_env();
    for (storage, deposit, commitment, start, refund) in phases {
        assert_eq!(Contract::top_up(&mut invocation(storage, 10), 1).is_ok(), deposit);
        assert_eq!(Contract::settle(&env, &mut invocation(storage, 10), 300, &signed(&env, 300)).is_ok(), commitment);
        assert_eq!(Contract::close(&env, &mut invocation(storage, 10), 300, &signed(&env, 300)).is_ok(), commitment);
        assert_eq!(Contract::close_start(&mut invocation(storage, 10)).is_ok(), start);
        assert_eq!(Contract::refund(&mut invocation(storage, 10)).is_ok(), refund);
    }
}

#[test]
fn only_closing_ends_by_itself() {
    // A closing channel comes to serve refunds as ledgers pass.
    assert!(Contract::refund(&mut invocation(closing(storage(), 11), 10)).is_err());
    assert!(Contract::refund(&mut invocation(closing(storage(), 11), 11)).is_ok());
    // An open one does not.
    assert!(Contract::refund(&mut invocation(storage(), u32::MAX)).is_err());
    assert!(Contract::top_up(&mut invocation(storage(), u32::MAX), 1).is_ok());
}

#[test]
fn authorization_comes_first_and_use_extends_lifetime() {
    let env = new_env();
    let mut topped_up = invocation(storage(), 10);
    assert!(Contract::top_up(&mut topped_up, 1).is_ok());
    let mut settled = invocation(storage(), 10);
    assert!(Contract::settle(&env, &mut settled, 300, &signed(&env, 300)).is_ok());
    let mut closed = invocation(storage(), 10);
    assert!(Contract::close(&env, &mut closed, 300, &signed(&env, 300)).is_ok());
    let mut started = invocation(storage(), 10);
    assert!(Contract::close_start(&mut started).is_ok());
    for (call, who) in [(&topped_up, FUNDER), (&settled, RECIPIENT), (&closed, RECIPIENT), (&started, FUNDER)] {
        assert_eq!(call.actions[0], Action::RequireAuth(who));
        assert!(call.actions.contains(&EXTEND));
    }
    let mut refunded = invocation(closing(storage(), 10), 10);
    assert!(Contract::refund(&mut refunded).is_ok());
    assert_eq!(refunded.actions[0], Action::RequireAuth(FUNDER));
}

#[test]
fn stored_entries_make_the_storage() {
    let mut call = invocation(storage(), 10);
    assert!(Contract::top_up(&mut call, 100).is_ok());
    assert!(Contract::settle_committed(&mut call, 450, true).is_ok());
    assert!(Contract::close_start(&mut call).is_ok());
    assert_eq!(stored(storage(), &call.actions), call.storage);
    call.context.sequence = 50;
    assert!(Contract::close_committed(&mut call, 460, true).is_ok());
    Contract::close_balance(&mut call, 140);
    assert_eq!(stored(storage(), &call.actions), call.storage);
    assert_eq!(call.storage, Instance { deposited_amount: Some(600), withdrawn_amount: Some(460), ..finished(storage(), 50) });

    let mut call = invocation(closing(storage(), 10), 10);
    assert!(Contract::refund(&mut call).is_ok());
    assert_eq!(stored(closing(storage(), 10), &call.actions), call.storage);
}

#[test]
fn tokens_follow_the_accounts() {
    let mut call = invocation(storage(), 10);
    assert!(Contract::top_up(&mut call, 100).is_ok());
    assert_eq!(moved(&call.actions, CHANNEL), 100);
    assert!(Contract::settle_committed(&mut call, 450, true).is_ok());
    assert_eq!(moved(&call.actions, CHANNEL), 100 - 250);
    assert_eq!(moved(&call.actions, CHANNEL), (600 - 450) - (500 - 200));
}

#[test]
fn recipient_receives_what_is_withdrawn() {
    let mut call = invocation(storage(), 10);
    for amount in [250, 100, 400, 400, 500] {
        assert!(Contract::settle_committed(&mut call, amount, true).is_ok());
        assert_eq!(moved(&call.actions, RECIPIENT), Contract::withdrawn(&call) - 200);
    }
    assert_eq!(moved(&call.actions, RECIPIENT), 300);
}

#[test]
fn accepted_commitments_are_covered() {
    // The channel holds exactly what is deposited and not withdrawn.
    let balance = 300;
    let mut call = invocation(storage(), 10);
    assert!(Contract::top_up(&mut call, 50).is_ok());
    assert!(Contract::settle_committed(&mut call, 300, true).is_ok());
    assert!(Contract::close_start(&mut call).is_ok());
    assert!(Contract::settle_committed(&mut call, 550, true).is_ok());
    assert_eq!(balance + moved(&call.actions, CHANNEL), 0);
    assert_eq!(moved(&call.actions, CHANNEL), (550 - 550) - (500 - 200));
}

#[test]
fn close_leaves_the_rest_to_the_funder() {
    let mut call = invocation(storage(), 10);
    assert!(Contract::close_committed(&mut call, 300, true).is_ok());
    call.actions.clear();
    assert_eq!(Contract::close_balance(&mut call, 250), Some(250));
    assert!(call.actions.contains(&Action::TryTransfer { token: TOKEN, from: CHANNEL, to: FUNDER, amount: 250 }));
    assert_eq!(moved(&call.actions, CHANNEL), 0);
    // The attempt failed: the funder is refunded later.
    Contract::close_refunded(&mut call, 250, false);
    call.actions.clear();
    assert!(Contract::refund(&mut call).is_ok());
    Contract::refund_balance(&mut call, 250);
    assert_eq!(moved(&call.actions, FUNDER), 250);
}

#[test]
fn withdrawn_is_the_highest_accepted_commitment() {
    let mut call = invocation(storage(), 10);
    assert!(Contract::settle_committed(&mut call, 300, true).is_ok());
    assert!(Contract::settle_committed(&mut call, 501, true).is_err());
    assert!(Contract::settle_committed(&mut call, 450, false).is_err());
    assert!(Contract::close_committed(&mut call, 250, true).is_ok());
    assert_eq!(Contract::withdrawn(&call), 300);
    assert_eq!(moved(&call.actions, RECIPIENT), 100);
}

#[test]
fn final_once_closed_or_refunded() {
    let mut call = invocation(storage(), 10);
    assert!(Contract::refund(&mut call).is_err());
    assert!(Contract::close_committed(&mut call, 501, true).is_err());
    assert!(Contract::close_start(&mut call).is_ok());
    assert!(!Contract::refunded(&call));
    call.context.sequence = 110;
    assert!(!Contract::refunded(&call));
    assert!(Contract::refund(&mut call).is_ok());
    assert!(Contract::refunded(&call));
    assert_eq!(Contract::close_effective_at_ledger(&call), Some(110));

    let mut call = invocation(storage(), 10);
    assert!(Contract::close_committed(&mut call, 500, true).is_ok());
    Contract::close_balance(&mut call, 0);
    assert!(Contract::refunded(&call));
    assert_eq!(Contract::close_effective_at_ledger(&call), Some(10));
}

#[test]
fn final_channel_pays_only_the_funder() {
    let mut call = invocation(finished(storage(), 5), 10);
    everything(&mut call);
    assert_eq!(moved(&call.actions, RECIPIENT), 0);
    assert_eq!(moved(&call.actions, FUNDER), 7);
    assert_eq!(moved(&call.actions, CHANNEL), -7);
}

#[test]
fn account_addresses_agree() {
    let env = new_env();
    let one = account_factory_call();
    let mut other = account_factory_call();
    other.storage.wasm_hash = [9; 32];
    other.context.sequence = 1000;
    let first = account_factory::FactoryContract::account_address(&env, &one, [5; 20]);
    let second = account_factory::FactoryContract::account_address(&env, &other, [5; 20]);
    assert_eq!(first, second);
    // Another factory has another account.
    other.context.contract = TOKEN;
    assert_ne!(first.address, account_factory::FactoryContract::account_address(&env, &other, [5; 20]).address);
}
