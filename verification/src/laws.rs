//! The laws the pipeline obeys, stated over the validator's specification
//! and proved once for all inputs: the stale-sequence-number rejection, the
//! position of the gas-price check, the whitelist gate, read idempotence,
//! first-failure determinism, and the exact extent of the documented
//! asymmetry between the two call sites.

use vstd::prelude::*;
use crate::account::{AccountContext, AccountRole, spec_balance_in};
use crate::bytecode::{spec_args_match, spec_module_address, spec_script_signature};
use crate::chain::ChainId;
use crate::codec::spec_ser_raw;
use crate::crypto::{ed25519_verifies, sha3_256_of};
use crate::gas::{GasConstants, MAX_TRANSACTION_SIZE_IN_BYTES};
use crate::policy::{PublishingPolicy, spec_digests_view, spec_whitelist_contains};
use crate::status::{StatusCode, ValidationOutcome, spec_rejected, spec_status_type, spec_type_is_discarded};
use crate::txn::{AccountAddress, Script, SignedTransaction, TransactionPayload};
use crate::validator::{
    CallSite, spec_core_checks_pass, spec_identity_checks_pass, spec_keep_effects,
    spec_payload_gate, spec_prologue,
};

verus! {

/// A well-formed transaction from an existing account whose sequence number
/// is strictly below the account's is rejected with the stale
/// sequence-number code at both call sites, and the rejection is a discard.
pub proof fn lemma_stale_sequence_number_rejected(
    txn: SignedTransaction,
    ctx: AccountContext,
    gas: GasConstants,
    policy: PublishingPolicy,
    current_time: u64,
    ledger_chain: ChainId,
)
    requires
        spec_identity_checks_pass(txn, ctx, current_time, ledger_chain),
        txn.raw.sequence_number < ctx.sequence_number,
    ensures
        spec_prologue(txn, ctx, gas, policy, current_time, ledger_chain, CallSite::Admission)
            == spec_rejected(StatusCode::SequenceNumberTooOld),
        spec_prologue(txn, ctx, gas, policy, current_time, ledger_chain, CallSite::Execution)
            == spec_rejected(StatusCode::SequenceNumberTooOld),
        spec_type_is_discarded(spec_status_type(StatusCode::SequenceNumberTooOld)),
{
}

/// The gas-price bound is evaluated strictly after affordability and before
/// the gas-allowance checks: a transaction pricing gas above the maximum is
/// rejected for the unaffordable fee where one exists, and otherwise with
/// the price-bound code, whatever its gas allowance or size would say.
pub proof fn lemma_gas_price_checked_after_affordability(
    txn: SignedTransaction,
    ctx: AccountContext,
    gas: GasConstants,
    policy: PublishingPolicy,
    current_time: u64,
    ledger_chain: ChainId,
    site: CallSite,
)
    requires
        spec_identity_checks_pass(txn, ctx, current_time, ledger_chain),
        txn.raw.sequence_number == ctx.sequence_number,
        txn.raw.gas_unit_price > gas.max_price_per_gas_unit,
    ensures
        spec_balance_in(ctx.balances@, txn.raw.gas_currency_code@) < txn.raw.max_gas_amount
            * txn.raw.gas_unit_price ==> spec_prologue(
            txn,
            ctx,
            gas,
            policy,
            current_time,
            ledger_chain,
            site,
        ) == spec_rejected(StatusCode::InsufficientBalanceForTransactionFee),
        spec_balance_in(ctx.balances@, txn.raw.gas_currency_code@) >= txn.raw.max_gas_amount
            * txn.raw.gas_unit_price ==> spec_prologue(
            txn,
            ctx,
            gas,
            policy,
            current_time,
            ledger_chain,
            site,
        ) == spec_rejected(StatusCode::GasUnitPriceAboveMaxBound),
{
}

/// Under a locked policy, a script whose content hash is absent from the
/// whitelist is turned away by the payload gate at either call site, while
/// the identical bytecode passes whitelist gating under the custom-scripts
/// and open policies.
pub proof fn lemma_locked_whitelist_gates_scripts(
    s: Script,
    sender: AccountAddress,
    role: AccountRole,
    wl: Vec<Vec<u8>>,
    site: CallSite,
)
    requires
        !spec_whitelist_contains(spec_digests_view(wl@), sha3_256_of(s.code@)),
    ensures
        spec_payload_gate(
            TransactionPayload::Script(s),
            sender,
            role,
            PublishingPolicy::Locked(wl),
            site,
        ) == Some(StatusCode::UnknownScript),
        spec_payload_gate(
            TransactionPayload::Script(s),
            sender,
            role,
            PublishingPolicy::CustomScripts,
            site,
        ) != Some(StatusCode::UnknownScript),
        spec_payload_gate(
            TransactionPayload::Script(s),
            sender,
            role,
            PublishingPolicy::Open,
            site,
        ) != Some(StatusCode::UnknownScript),
{
}

/// A whole transaction carrying such a script, once past the core checks,
/// is rejected with exactly the unknown-script code at execution.
pub proof fn lemma_locked_pipeline_rejects_unknown_script(
    txn: SignedTransaction,
    ctx: AccountContext,
    gas: GasConstants,
    wl: Vec<Vec<u8>>,
    current_time: u64,
    ledger_chain: ChainId,
    site: CallSite,
)
    requires
        spec_core_checks_pass(txn, ctx, gas, current_time, ledger_chain),
        txn.raw.payload matches TransactionPayload::Script(s) && !spec_whitelist_contains(
            spec_digests_view(wl@),
            sha3_256_of(s.code@),
        ),
    ensures
        spec_prologue(
            txn,
            ctx,
            gas,
            PublishingPolicy::Locked(wl),
            current_time,
            ledger_chain,
            site,
        ) == spec_rejected(StatusCode::UnknownScript),
{
}

/// Reading is idempotent: the pipeline is a pure function of the immutable
/// transaction and snapshot, so any two runs over the same pair yield the
/// identical outcome.
pub proof fn lemma_validation_read_idempotent(
    first: ValidationOutcome,
    second: ValidationOutcome,
    txn: SignedTransaction,
    ctx: AccountContext,
    gas: GasConstants,
    policy: PublishingPolicy,
    current_time: u64,
    ledger_chain: ChainId,
    site: CallSite,
)
    requires
        first == spec_prologue(txn, ctx, gas, policy, current_time, ledger_chain, site),
        second == spec_prologue(txn, ctx, gas, policy, current_time, ledger_chain, site),
    ensures
        first == second,
{
}

/// The first failing check decides: a transaction with an invalid signature
/// is rejected for the signature at both call sites, however oversized its
/// serialized form also is.
pub proof fn lemma_earlier_check_decides(
    txn: SignedTransaction,
    ctx: AccountContext,
    gas: GasConstants,
    policy: PublishingPolicy,
    current_time: u64,
    ledger_chain: ChainId,
)
    requires
        txn.raw.chain_id == ledger_chain,
        txn.raw.expiration_time >= current_time,
        ctx.present,
        !ed25519_verifies(txn.public_key@, spec_ser_raw(txn.raw), txn.signature@),
        spec_ser_raw(txn.raw).len() > MAX_TRANSACTION_SIZE_IN_BYTES,
    ensures
        spec_prologue(txn, ctx, gas, policy, current_time, ledger_chain, CallSite::Admission)
            == spec_rejected(StatusCode::InvalidSignature),
        spec_prologue(txn, ctx, gas, policy, current_time, ledger_chain, CallSite::Execution)
            == spec_rejected(StatusCode::InvalidSignature),
{
}

/// A kept transaction charges its sender exactly once: the account the
/// execution gate hands back holds, in the gas currency, the old balance
/// less the fee for the gas units consumed, and its sequence number has
/// advanced by exactly one.
pub proof fn lemma_keep_effects_charge_exactly_once(
    old_ctx: AccountContext,
    new_ctx: AccountContext,
    raw: crate::txn::RawTransaction,
    gas_units_used: u64,
)
    requires
        spec_keep_effects(old_ctx, new_ctx, raw, gas_units_used),
        gas_units_used * raw.gas_unit_price <= spec_balance_in(
            old_ctx.balances@,
            raw.gas_currency_code@,
        ),
    ensures
        spec_balance_in(new_ctx.balances@, raw.gas_currency_code@) == spec_balance_in(
            old_ctx.balances@,
            raw.gas_currency_code@,
        ) - gas_units_used * raw.gas_unit_price,
        new_ctx.sequence_number == old_ctx.sequence_number + 1,
{
    crate::account::lemma_debit_balance(
        old_ctx.balances@,
        raw.gas_currency_code@,
        (gas_units_used * raw.gas_unit_price) as u64,
    );
}

/// Execution accepts nothing it has not fully vetted. An accepted
/// transaction has passed every core check, and its payload has cleared the
/// whole gate: a script is whitelisted wherever the policy is locked,
/// deserializes, and its arguments match the declared signature; a module
/// comes from the privileged root wherever the policy gates publishing,
/// deserializes, and under the open policy declares the sender's own
/// address.
pub proof fn lemma_acceptance_inverts_gating(
    txn: SignedTransaction,
    ctx: AccountContext,
    gas: GasConstants,
    policy: PublishingPolicy,
    current_time: u64,
    ledger_chain: ChainId,
)
    requires
        spec_prologue(txn, ctx, gas, policy, current_time, ledger_chain, CallSite::Execution)
            == ValidationOutcome::Accepted,
    ensures
        spec_core_checks_pass(txn, ctx, gas, current_time, ledger_chain),
        match txn.raw.payload {
            TransactionPayload::Script(s) => {
                &&& (policy matches PublishingPolicy::Locked(wl) ==> spec_whitelist_contains(
                    spec_digests_view(wl@),
                    sha3_256_of(s.code@),
                ))
                &&& (spec_script_signature(s.code@) matches Some(sig) && spec_args_match(
                    s.args@,
                    sig,
                ))
            },
            TransactionPayload::Module(m) => {
                &&& (!(policy is Open) ==> ctx.role == AccountRole::PrivilegedRoot)
                &&& spec_module_address(m.code@) is Some
                &&& (policy is Open ==> spec_module_address(m.code@) == Some(txn.raw.sender@))
            },
        },
{
}

/// The two call sites diverge exactly where documented. Where execution
/// accepts, admission accepted too; where execution rejects with any code
/// other than the deferred ones — the too-new sequence number, and the
/// deserialization, address-match and argument-type checks that need the
/// payload opened — admission returns the identical rejection; and where
/// execution rejects with a deferred payload check, admission had accepted.
pub proof fn lemma_call_site_parity(
    txn: SignedTransaction,
    ctx: AccountContext,
    gas: GasConstants,
    policy: PublishingPolicy,
    current_time: u64,
    ledger_chain: ChainId,
)
    ensures
        ({
            let a = spec_prologue(
                txn,
                ctx,
                gas,
                policy,
                current_time,
                ledger_chain,
                CallSite::Admission,
            );
            let e = spec_prologue(
                txn,
                ctx,
                gas,
                policy,
                current_time,
                ledger_chain,
                CallSite::Execution,
            );
            match e {
                ValidationOutcome::Accepted => a == e,
                ValidationOutcome::Rejected(code, _) => if code == StatusCode::SequenceNumberTooNew {
                    true
                } else if code == StatusCode::CodeDeserializationError || code
                    == StatusCode::TypeMismatch || code
                    == StatusCode::ModuleAddressDoesNotMatchSender {
                    a == ValidationOutcome::Accepted
                } else {
                    a == e
                },
            }
        }),
{
}

} // verus!
