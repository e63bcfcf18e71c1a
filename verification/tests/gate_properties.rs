//! Concrete checks of the validator's stated properties: determinism, check
//! order, bound inclusivity, the whitelist gate across policies, and the
//! cryptography the pipeline leans on.

use ed25519_dalek::{Signer, SigningKey};
use sha3::Digest;
use txn_gate::account::{AccountContext, AccountRole, BalanceEntry};
use txn_gate::chain::ChainId;
use txn_gate::codec::serialize_raw;
use txn_gate::gas::{GasConstants, check_size};
use txn_gate::policy::PublishingPolicy;
use txn_gate::status::{StatusCode, TransactionStatus, VMStatus, ValidationOutcome};
use txn_gate::transaction_scripts::StdlibScript;
use txn_gate::txn::{
    AccountAddress, RawTransaction, Script, SignedTransaction, TransactionArgument,
    TransactionPayload,
};
use txn_gate::validator::{execution_gate, validate_for_admission, validate_for_execution};

const LBR_NAME: &str = "LBR";
const NOW: u64 = 1_000;

fn addr(last: u8) -> AccountAddress {
    let mut bytes = vec![0u8; 16];
    bytes[15] = last;
    AccountAddress::new(bytes)
}

fn key(seed: u8) -> SigningKey {
    SigningKey::from_bytes(&[seed; 32])
}

fn account_for(key: &SigningKey, balance: u64, sequence_number: u64) -> AccountContext {
    AccountContext {
        present: true,
        authentication_key: sha3::Sha3_256::digest(key.verifying_key().to_bytes()).to_vec(),
        sequence_number,
        balances: vec![BalanceEntry { currency_code: LBR_NAME.to_string(), amount: balance }],
        role: AccountRole::Ordinary,
    }
}

fn sign(raw: RawTransaction, signer: &SigningKey, claimed: &SigningKey) -> SignedTransaction {
    let message = serialize_raw(&raw);
    let signature = signer.sign(&message);
    SignedTransaction {
        raw,
        public_key: claimed.verifying_key().to_bytes().to_vec(),
        signature: signature.to_bytes().to_vec(),
    }
}

fn transfer(
    sender: &AccountAddress,
    payee: &AccountAddress,
    amount: u64,
    sequence_number: u64,
    max_gas_amount: u64,
    gas_unit_price: u64,
    chain_id: ChainId,
) -> RawTransaction {
    RawTransaction {
        sender: sender.clone(),
        sequence_number,
        payload: TransactionPayload::Script(Script {
            code: StdlibScript::PeerToPeerWithMetadata.compiled_bytes().into_vec(),
            ty_args: vec![LBR_NAME.to_string()],
            args: vec![
                TransactionArgument::Address(payee.clone()),
                TransactionArgument::U64(amount),
                TransactionArgument::U8Vector(vec![]),
                TransactionArgument::U8Vector(vec![]),
            ],
        }),
        max_gas_amount,
        gas_unit_price,
        gas_currency_code: LBR_NAME.to_string(),
        expiration_time: 1_000_000,
        chain_id,
    }
}

fn rejected(code: StatusCode) -> ValidationOutcome {
    ValidationOutcome::Rejected(code, code.status_type())
}

#[test]
fn validation_is_idempotent() {
    // The same immutable transaction and snapshot yield the identical
    // outcome, run after run, at both call sites.
    let gas = GasConstants::default();
    let policy = PublishingPolicy::Locked(StdlibScript::whitelist());
    let sender_key = key(1);
    let sender = account_for(&sender_key, 900_000, 10);
    let txn = sign(
        transfer(&addr(1), &addr(2), 1_000, 10, 100_000, 1, ChainId::test()),
        &sender_key,
        &sender_key,
    );
    let first = validate_for_admission(&txn, &sender, &gas, &policy, NOW, ChainId::test());
    let second = validate_for_admission(&txn, &sender, &gas, &policy, NOW, ChainId::test());
    assert_eq!(first, second);
    assert_eq!(first, ValidationOutcome::Accepted);
    let first = validate_for_execution(&txn, &sender, &gas, &policy, NOW, ChainId::test());
    let second = validate_for_execution(&txn, &sender, &gas, &policy, NOW, ChainId::test());
    assert_eq!(first, second);
}

#[test]
fn earlier_check_decides() {
    // A transaction violating both the signature check and the size cap is
    // rejected for the signature, the earlier check, at both call sites.
    let gas = GasConstants::default();
    let policy = PublishingPolicy::Locked(StdlibScript::whitelist());
    let sender_key = key(1);
    let wrong_key = key(2);
    let sender = account_for(&sender_key, 900_000, 10);
    let mut raw = transfer(&addr(1), &addr(2), 1_000, 10, 100_000, 1, ChainId::test());
    if let TransactionPayload::Script(s) = &mut raw.payload {
        s.args = vec![TransactionArgument::U64(42); 4096];
    }
    assert!(serialize_raw(&raw).len() > 4096);
    let txn = sign(raw, &wrong_key, &sender_key);
    assert_eq!(
        validate_for_admission(&txn, &sender, &gas, &policy, NOW, ChainId::test()),
        rejected(StatusCode::InvalidSignature)
    );
    assert_eq!(
        validate_for_execution(&txn, &sender, &gas, &policy, NOW, ChainId::test()),
        rejected(StatusCode::InvalidSignature)
    );
}

#[test]
fn whitelist_gate_across_policies() {
    // The same bytecode, absent from the whitelist: an unknown script under
    // the locked policy, past whitelist gating under the open and
    // custom-scripts policies.
    let gas = GasConstants::default();
    let sender_key = key(1);
    let sender = account_for(&sender_key, 900_000, 10);
    let mut raw = transfer(&addr(1), &addr(2), 1_000, 10, 100_000, 1, ChainId::test());
    if let TransactionPayload::Script(s) = &mut raw.payload {
        s.code = vec![0u8, 200u8];
        s.args = vec![];
    }
    let txn = sign(raw, &sender_key, &sender_key);
    let locked = PublishingPolicy::Locked(StdlibScript::whitelist());
    assert_eq!(
        validate_for_execution(&txn, &sender, &gas, &locked, NOW, ChainId::test()),
        rejected(StatusCode::UnknownScript)
    );
    for policy in [PublishingPolicy::CustomScripts, PublishingPolicy::Open] {
        assert_eq!(
            validate_for_execution(&txn, &sender, &gas, &policy, NOW, ChainId::test()),
            ValidationOutcome::Accepted
        );
    }
}

#[test]
fn chain_and_expiration_checks() {
    let gas = GasConstants::default();
    let policy = PublishingPolicy::Open;
    let sender_key = key(1);
    let sender = account_for(&sender_key, 900_000, 10);

    // A transaction for another chain.
    let txn = sign(
        transfer(&addr(1), &addr(2), 1_000, 10, 100_000, 1, ChainId::new(9)),
        &sender_key,
        &sender_key,
    );
    assert_eq!(
        validate_for_admission(&txn, &sender, &gas, &policy, NOW, ChainId::test()),
        rejected(StatusCode::BadChainId)
    );

    // A transaction whose expiration time has passed.
    let mut raw = transfer(&addr(1), &addr(2), 1_000, 10, 100_000, 1, ChainId::test());
    raw.expiration_time = NOW - 1;
    let txn = sign(raw, &sender_key, &sender_key);
    assert_eq!(
        validate_for_execution(&txn, &sender, &gas, &policy, NOW, ChainId::test()),
        rejected(StatusCode::TransactionExpired)
    );

    // One expiring exactly now is still valid.
    let mut raw = transfer(&addr(1), &addr(2), 1_000, 10, 100_000, 1, ChainId::test());
    raw.expiration_time = NOW;
    let txn = sign(raw, &sender_key, &sender_key);
    assert_eq!(
        validate_for_admission(&txn, &sender, &gas, &policy, NOW, ChainId::test()),
        ValidationOutcome::Accepted
    );
}

#[test]
fn gas_bounds_are_inclusive() {
    let gas = GasConstants::default();
    assert_eq!(gas.min_transaction_gas_units, 600);
    assert_eq!(gas.maximum_number_of_gas_units, 4_000_000);
    assert_eq!(gas.min_price_per_gas_unit, 0);
    assert_eq!(gas.max_price_per_gas_unit, 10_000);

    // Equality with either bound passes; only a strict overshoot fails.
    assert_eq!(gas.check_gas_price(gas.max_price_per_gas_unit), None);
    assert_eq!(
        gas.check_gas_price(gas.max_price_per_gas_unit + 1),
        Some(StatusCode::GasUnitPriceAboveMaxBound)
    );
    assert_eq!(gas.check_max_gas_units(gas.min_transaction_gas_units), None);
    assert_eq!(gas.check_max_gas_units(gas.maximum_number_of_gas_units), None);
    assert_eq!(
        gas.check_max_gas_units(gas.min_transaction_gas_units - 1),
        Some(StatusCode::MaxGasUnitsBelowMinTransactionGasUnits)
    );
    assert_eq!(
        gas.check_max_gas_units(gas.maximum_number_of_gas_units + 1),
        Some(StatusCode::MaxGasUnitsExceedsMaxGasUnitsBound)
    );
    assert_eq!(check_size(4096), None);
    assert_eq!(check_size(4097), Some(StatusCode::ExceededMaxTransactionSize));

    // A ledger with a nonzero price floor rejects prices under it.
    let strict = GasConstants { min_price_per_gas_unit: 2, ..gas };
    assert_eq!(
        strict.check_gas_price(1),
        Some(StatusCode::GasUnitPriceBelowMinBound)
    );
    assert_eq!(strict.check_gas_price(2), None);
}

#[test]
fn gas_price_below_floor_rejected_in_pipeline() {
    let gas = GasConstants { min_price_per_gas_unit: 2, ..GasConstants::default() };
    let policy = PublishingPolicy::Open;
    let sender_key = key(1);
    let sender = account_for(&sender_key, 900_000, 10);
    let txn = sign(
        transfer(&addr(1), &addr(2), 1_000, 10, 100_000, 1, ChainId::test()),
        &sender_key,
        &sender_key,
    );
    assert_eq!(
        validate_for_execution(&txn, &sender, &gas, &policy, NOW, ChainId::test()),
        rejected(StatusCode::GasUnitPriceBelowMinBound)
    );
}

#[test]
fn execution_gate_charges_kept_transactions() {
    // A kept rejection advances the sequence number and debits the fee for
    // the work performed; only the gas currency's balance moves.
    let gas = GasConstants::default();
    let policy = PublishingPolicy::Locked(StdlibScript::whitelist());
    let sender_key = key(1);
    let mut sender = account_for(&sender_key, 900_000, 10);
    sender.balances.push(BalanceEntry { currency_code: "XUS".to_string(), amount: 5_000 });
    let mut raw = transfer(&addr(1), &addr(2), 1_000, 10, 100_000, 2, ChainId::test());
    if let TransactionPayload::Script(s) = &mut raw.payload {
        s.args = vec![];
    }
    let txn = sign(raw, &sender_key, &sender_key);
    let (status, after) =
        execution_gate(&txn, sender.clone(), &gas, &policy, NOW, ChainId::test(), 300);
    assert_eq!(status, TransactionStatus::Keep(VMStatus::Error(StatusCode::TypeMismatch)));
    assert_eq!(after.sequence_number, 11);
    assert_eq!(after.balance_in(&LBR_NAME.to_string()), 900_000 - 600);
    assert_eq!(after.balance_in(&"XUS".to_string()), 5_000);

    // A discarded rejection leaves the account untouched.
    let stale = sign(
        transfer(&addr(1), &addr(2), 1_000, 3, 100_000, 2, ChainId::test()),
        &sender_key,
        &sender_key,
    );
    let (status, after) =
        execution_gate(&stale, sender.clone(), &gas, &policy, NOW, ChainId::test(), 300);
    assert_eq!(status, TransactionStatus::Discard(StatusCode::SequenceNumberTooOld));
    assert_eq!(after.sequence_number, 10);
    assert_eq!(after.balance_in(&LBR_NAME.to_string()), 900_000);
}

#[test]
fn module_publishing_under_locked_policy() {
    // Under the locked policy a module publish from an ordinary account is
    // kept as an invalid publisher at both call sites; the identical
    // transaction from the privileged root account is accepted and runs.
    let gas = GasConstants::default();
    let policy = PublishingPolicy::Locked(StdlibScript::whitelist());
    let chain = ChainId::test();
    let sender_key = key(1);
    let sender_addr = addr(1);
    let ordinary = account_for(&sender_key, 1_000_000, 10);
    let mut root = account_for(&sender_key, 1_000_000, 10);
    root.role = AccountRole::PrivilegedRoot;
    let module = txn_gate::bytecode::module_image(&sender_addr, b"a module body");
    let raw = RawTransaction {
        sender: sender_addr.clone(),
        sequence_number: 10,
        payload: TransactionPayload::Module(txn_gate::txn::Module { code: module }),
        max_gas_amount: 100_000,
        gas_unit_price: 1,
        gas_currency_code: LBR_NAME.to_string(),
        expiration_time: 1_000_000,
        chain_id: chain,
    };
    let txn = sign(raw, &sender_key, &sender_key);
    assert_eq!(
        validate_for_admission(&txn, &ordinary, &gas, &policy, NOW, chain),
        rejected(StatusCode::InvalidModulePublisher)
    );
    assert_eq!(
        validate_for_execution(&txn, &ordinary, &gas, &policy, NOW, chain),
        rejected(StatusCode::InvalidModulePublisher)
    );
    assert!(!StatusCode::InvalidModulePublisher.is_discarded());
    assert_eq!(
        validate_for_admission(&txn, &root, &gas, &policy, NOW, chain),
        ValidationOutcome::Accepted
    );
    let (status, _) = execution_gate(&txn, root, &gas, &policy, NOW, chain, 600);
    assert_eq!(status, TransactionStatus::Keep(VMStatus::Executed));
}

#[test]
fn custom_script_argument_typing() {
    // A custom script declaring a (u8, bool, u128) signature runs with
    // matching arguments and is kept as a type mismatch otherwise.
    let gas = GasConstants::default();
    let policy = PublishingPolicy::CustomScripts;
    let chain = ChainId::test();
    let sender_key = key(1);
    let sender = account_for(&sender_key, 900_000, 10);
    // Image format: a count byte, the tags, then the body.
    let code = vec![3u8, 0, 5, 2, 0xAB];
    let good_args = vec![
        TransactionArgument::U8(7),
        TransactionArgument::Bool(true),
        TransactionArgument::U128(1 << 100),
    ];
    let mut raw = transfer(&addr(1), &addr(2), 0, 10, 100_000, 1, chain);
    if let TransactionPayload::Script(s) = &mut raw.payload {
        s.code = code.clone();
        s.args = good_args;
    }
    let txn = sign(raw, &sender_key, &sender_key);
    assert_eq!(
        validate_for_execution(&txn, &sender, &gas, &policy, NOW, chain),
        ValidationOutcome::Accepted
    );
    let mut raw = transfer(&addr(1), &addr(2), 0, 10, 100_000, 1, chain);
    if let TransactionPayload::Script(s) = &mut raw.payload {
        s.code = code;
        s.args = vec![TransactionArgument::U8(7), TransactionArgument::Bool(true)];
    }
    let txn = sign(raw, &sender_key, &sender_key);
    assert_eq!(
        validate_for_execution(&txn, &sender, &gas, &policy, NOW, chain),
        rejected(StatusCode::TypeMismatch)
    );
}

#[test]
fn balance_lookup_reads_the_right_currency() {
    let sender_key = key(1);
    let mut ctx = account_for(&sender_key, 7, 0);
    ctx.balances.push(BalanceEntry { currency_code: "XUS".to_string(), amount: 11 });
    assert_eq!(ctx.balance_in(&LBR_NAME.to_string()), 7);
    assert_eq!(ctx.balance_in(&"XUS".to_string()), 11);
    assert_eq!(ctx.balance_in(&"NONE".to_string()), 0);
}

#[test]
fn content_hash_is_a_digest() {
    // The whitelist digests are real sha3-256 hashes of the images: 32
    // bytes, matching an independent computation, never the image echoed
    // back.
    for script in StdlibScript::all() {
        let image = script.compiled_bytes().into_vec();
        let expected = sha3::Sha3_256::digest(&image).to_vec();
        assert_eq!(script.hash(), expected);
        assert_eq!(script.hash().len(), 32);
        assert_ne!(script.hash(), image);
    }
}

#[test]
fn signature_verification_separates_keys_and_messages() {
    // A correctly signed transaction passes the signature check; one whose
    // signature is tampered with, signed under a foreign key, or carrying
    // malformed key bytes is rejected for the signature.
    let gas = GasConstants::default();
    let policy = PublishingPolicy::Open;
    let sender_key = key(5);
    let sender = account_for(&sender_key, 900_000, 10);
    let good = sign(
        transfer(&addr(1), &addr(2), 1_000, 10, 100_000, 1, ChainId::test()),
        &sender_key,
        &sender_key,
    );
    assert_eq!(
        validate_for_admission(&good, &sender, &gas, &policy, NOW, ChainId::test()),
        ValidationOutcome::Accepted
    );

    let mut tampered = good.clone();
    tampered.signature[0] ^= 1;
    assert_eq!(
        validate_for_admission(&tampered, &sender, &gas, &policy, NOW, ChainId::test()),
        rejected(StatusCode::InvalidSignature)
    );

    let foreign = sign(
        transfer(&addr(1), &addr(2), 1_000, 10, 100_000, 1, ChainId::test()),
        &key(6),
        &sender_key,
    );
    assert_eq!(
        validate_for_admission(&foreign, &sender, &gas, &policy, NOW, ChainId::test()),
        rejected(StatusCode::InvalidSignature)
    );

    let mut short_key = good.clone();
    short_key.public_key.pop();
    assert_eq!(
        validate_for_execution(&short_key, &sender, &gas, &policy, NOW, ChainId::test()),
        rejected(StatusCode::InvalidSignature)
    );
}
