//! The prologue validator and its two gates. The validator is one pure,
//! ordered pipeline of checks over an immutable snapshot: the first failing
//! check decides the outcome and nothing after it is evaluated. The
//! admission gate runs it for fast rejection without touching the ledger;
//! the execution gate runs the identical pipeline immediately before a
//! payload would run and reconciles the verdict with the account's effects.

use vstd::prelude::*;
use vstd::arithmetic::mul::lemma_mul_inequality;
use crate::account::{
    AccountContext, AccountRole, debit_balances, spec_balance_in, spec_debit,
};
use crate::bytecode::{
    args_match, module_address, script_signature, spec_args_match, spec_module_address,
    spec_script_signature,
};
use crate::chain::ChainId;
use crate::codec::{serialize_raw, spec_ser_raw};
use crate::crypto::{bytes_eq, ed25519_verifies, ed25519_verify, sha3_256, sha3_256_of};
use crate::gas::{GasConstants, check_size, spec_check_gas_price, spec_check_max_gas_units, spec_check_size};
use crate::policy::{PublishingPolicy, spec_digests_view, spec_whitelist_contains, whitelist_contains};
use crate::status::{
    StatusCode, TransactionStatus, VMStatus, ValidationOutcome, spec_rejected, spec_status_type,
    spec_type_is_discarded,
};
use crate::txn::{AccountAddress, RawTransaction, SignedTransaction, TransactionPayload};

verus! {

/// Which of the two call sites is running the pipeline. The only checks
/// that read it are the ones documented as asymmetric: the too-new sequence
/// number, and the deep payload checks that need deserialization.
#[derive(Clone, Copy, Debug, PartialEq, Eq, Structural)]
pub enum CallSite {
    Admission,
    Execution,
}

/// The payload-specific gating: whitelist and publisher checks at both call
/// sites, deserialization and argument typing at execution only.
pub open spec fn spec_payload_gate(
    payload: TransactionPayload,
    sender: AccountAddress,
    role: AccountRole,
    policy: PublishingPolicy,
    site: CallSite,
) -> Option<StatusCode> {
    match payload {
        TransactionPayload::Script(s) => {
            let unlisted = match policy {
                PublishingPolicy::Locked(wl) => !spec_whitelist_contains(
                    spec_digests_view(wl@),
                    sha3_256_of(s.code@),
                ),
                _ => false,
            };
            if unlisted {
                Some(StatusCode::UnknownScript)
            } else if site == CallSite::Admission {
                None
            } else {
                match spec_script_signature(s.code@) {
                    None => Some(StatusCode::CodeDeserializationError),
                    Some(sig) => if !spec_args_match(s.args@, sig) {
                        Some(StatusCode::TypeMismatch)
                    } else {
                        None
                    },
                }
            }
        },
        TransactionPayload::Module(m) => {
            match policy {
                PublishingPolicy::Locked(_) | PublishingPolicy::CustomScripts => {
                    if role != AccountRole::PrivilegedRoot {
                        Some(StatusCode::InvalidModulePublisher)
                    } else if site == CallSite::Admission {
                        None
                    } else {
                        match spec_module_address(m.code@) {
                            None => Some(StatusCode::CodeDeserializationError),
                            Some(_) => None,
                        }
                    }
                },
                PublishingPolicy::Open => {
                    if site == CallSite::Admission {
                        None
                    } else {
                        match spec_module_address(m.code@) {
                            None => Some(StatusCode::CodeDeserializationError),
                            Some(a) => if a != sender@ {
                                Some(StatusCode::ModuleAddressDoesNotMatchSender)
                            } else {
                                None
                            },
                        }
                    }
                },
            }
        },
    }
}

/// The first failing check of the pipeline, in its fixed order, or `None`
/// where every check passes.
pub open spec fn spec_first_failure(
    txn: SignedTransaction,
    ctx: AccountContext,
    gas: GasConstants,
    policy: PublishingPolicy,
    current_time: u64,
    ledger_chain: ChainId,
    site: CallSite,
) -> Option<StatusCode> {
    if txn.raw.chain_id != ledger_chain {
        Some(StatusCode::BadChainId)
    } else if txn.raw.expiration_time < current_time {
        Some(StatusCode::TransactionExpired)
    } else if !ctx.present {
        Some(StatusCode::SendingAccountDoesNotExist)
    } else if !ed25519_verifies(txn.public_key@, spec_ser_raw(txn.raw), txn.signature@) {
        Some(StatusCode::InvalidSignature)
    } else if sha3_256_of(txn.public_key@) != ctx.authentication_key@ {
        Some(StatusCode::InvalidAuthKey)
    } else if txn.raw.sequence_number < ctx.sequence_number {
        Some(StatusCode::SequenceNumberTooOld)
    } else if site == CallSite::Execution && txn.raw.sequence_number > ctx.sequence_number {
        Some(StatusCode::SequenceNumberTooNew)
    } else if spec_balance_in(ctx.balances@, txn.raw.gas_currency_code@) < txn.raw.max_gas_amount
        * txn.raw.gas_unit_price {
        Some(StatusCode::InsufficientBalanceForTransactionFee)
    } else if spec_check_gas_price(gas, txn.raw.gas_unit_price) is Some {
        spec_check_gas_price(gas, txn.raw.gas_unit_price)
    } else if spec_check_max_gas_units(gas, txn.raw.max_gas_amount) is Some {
        spec_check_max_gas_units(gas, txn.raw.max_gas_amount)
    } else if spec_check_size(spec_ser_raw(txn.raw).len()) is Some {
        spec_check_size(spec_ser_raw(txn.raw).len())
    } else {
        spec_payload_gate(txn.raw.payload, txn.raw.sender, ctx.role, policy, site)
    }
}

/// The verdict of the pipeline: the first failing check's code with its
/// classification, or acceptance.
pub open spec fn spec_prologue(
    txn: SignedTransaction,
    ctx: AccountContext,
    gas: GasConstants,
    policy: PublishingPolicy,
    current_time: u64,
    ledger_chain: ChainId,
    site: CallSite,
) -> ValidationOutcome {
    match spec_first_failure(txn, ctx, gas, policy, current_time, ledger_chain, site) {
        Some(code) => spec_rejected(code),
        None => ValidationOutcome::Accepted,
    }
}

/// Runs the payload-specific gating.
fn payload_gate(
    payload: &TransactionPayload,
    sender: &AccountAddress,
    role: AccountRole,
    policy: &PublishingPolicy,
    site: CallSite,
) -> (r: Option<StatusCode>)
    ensures
        r == spec_payload_gate(*payload, *sender, role, *policy, site),
{
    match payload {
        TransactionPayload::Script(s) => {
            match policy {
                PublishingPolicy::Locked(wl) => {
                    let digest = sha3_256(s.code.as_slice());
                    if !whitelist_contains(wl, digest.as_slice()) {
                        return Some(StatusCode::UnknownScript);
                    }
                },
                _ => {},
            }
            if site == CallSite::Admission {
                return None;
            }
            match script_signature(s.code.as_slice()) {
                None => Some(StatusCode::CodeDeserializationError),
                Some(sig) => if !args_match(&s.args, &sig) {
                    Some(StatusCode::TypeMismatch)
                } else {
                    None
                },
            }
        },
        TransactionPayload::Module(m) => {
            match policy {
                PublishingPolicy::Locked(_) | PublishingPolicy::CustomScripts => {
                    if role != AccountRole::PrivilegedRoot {
                        return Some(StatusCode::InvalidModulePublisher);
                    }
                    if site == CallSite::Admission {
                        return None;
                    }
                    match module_address(m.code.as_slice()) {
                        None => Some(StatusCode::CodeDeserializationError),
                        Some(_) => None,
                    }
                },
                PublishingPolicy::Open => {
                    if site == CallSite::Admission {
                        return None;
                    }
                    match module_address(m.code.as_slice()) {
                        None => Some(StatusCode::CodeDeserializationError),
                        Some(a) => if !bytes_eq(a.as_slice(), sender.bytes.as_slice()) {
                            Some(StatusCode::ModuleAddressDoesNotMatchSender)
                        } else {
                            None
                        },
                    }
                },
            }
        },
    }
}

/// Runs the pipeline at one call site over one immutable snapshot. The
/// result is a pure function of the arguments: the same transaction and
/// snapshot always yield the identical outcome.
pub fn run_prologue(
    txn: &SignedTransaction,
    ctx: &AccountContext,
    gas: &GasConstants,
    policy: &PublishingPolicy,
    current_time: u64,
    ledger_chain: ChainId,
    site: CallSite,
) -> (r: ValidationOutcome)
    ensures
        r == spec_prologue(*txn, *ctx, *gas, *policy, current_time, ledger_chain, site),
{
    if txn.raw.chain_id != ledger_chain {
        return ValidationOutcome::rejected(StatusCode::BadChainId);
    }
    if txn.raw.expiration_time < current_time {
        return ValidationOutcome::rejected(StatusCode::TransactionExpired);
    }
    if !ctx.present {
        return ValidationOutcome::rejected(StatusCode::SendingAccountDoesNotExist);
    }
    let message = serialize_raw(&txn.raw);
    if !ed25519_verify(txn.public_key.as_slice(), message.as_slice(), txn.signature.as_slice()) {
        return ValidationOutcome::rejected(StatusCode::InvalidSignature);
    }
    let key_hash = sha3_256(txn.public_key.as_slice());
    if !bytes_eq(key_hash.as_slice(), ctx.authentication_key.as_slice()) {
        return ValidationOutcome::rejected(StatusCode::InvalidAuthKey);
    }
    if txn.raw.sequence_number < ctx.sequence_number {
        return ValidationOutcome::rejected(StatusCode::SequenceNumberTooOld);
    }
    if site == CallSite::Execution && txn.raw.sequence_number > ctx.sequence_number {
        return ValidationOutcome::rejected(StatusCode::SequenceNumberTooNew);
    }
    let balance = ctx.balance_in(&txn.raw.gas_currency_code);
    proof {
        assert((txn.raw.max_gas_amount as int) * (txn.raw.gas_unit_price as int) <= (
        0xffff_ffff_ffff_ffffu64 as int) * (0xffff_ffff_ffff_ffffu64 as int)) by (nonlinear_arith)
            requires
                txn.raw.max_gas_amount <= 0xffff_ffff_ffff_ffffu64,
                txn.raw.gas_unit_price <= 0xffff_ffff_ffff_ffffu64,
        ;
    }
    let fee_cap: u128 = (txn.raw.max_gas_amount as u128) * (txn.raw.gas_unit_price as u128);
    if (balance as u128) < fee_cap {
        return ValidationOutcome::rejected(StatusCode::InsufficientBalanceForTransactionFee);
    }
    match gas.check_gas_price(txn.raw.gas_unit_price) {
        Some(code) => {
            return ValidationOutcome::rejected(code);
        },
        None => {},
    }
    match gas.check_max_gas_units(txn.raw.max_gas_amount) {
        Some(code) => {
            return ValidationOutcome::rejected(code);
        },
        None => {},
    }
    match check_size(message.len()) {
        Some(code) => {
            return ValidationOutcome::rejected(code);
        },
        None => {},
    }
    match payload_gate(&txn.raw.payload, &txn.raw.sender, ctx.role, policy, site) {
        Some(code) => ValidationOutcome::rejected(code),
        None => ValidationOutcome::Accepted,
    }
}

/// The admission gate: a stateless snapshot read used to reject bad
/// transactions cheaply before they enter a pending pool. It preserves the
/// documented asymmetry: a sequence number ahead of the account's is not
/// detected here but deferred to execution.
pub fn validate_for_admission(
    txn: &SignedTransaction,
    ctx: &AccountContext,
    gas: &GasConstants,
    policy: &PublishingPolicy,
    current_time: u64,
    ledger_chain: ChainId,
) -> (r: ValidationOutcome)
    ensures
        r == spec_prologue(
            *txn,
            *ctx,
            *gas,
            *policy,
            current_time,
            ledger_chain,
            CallSite::Admission,
        ),
{
    run_prologue(txn, ctx, gas, policy, current_time, ledger_chain, CallSite::Admission)
}

/// The execution-embedded prologue: the identical pipeline, re-run over a
/// freshly fetched snapshot immediately before the payload would run.
pub fn validate_for_execution(
    txn: &SignedTransaction,
    ctx: &AccountContext,
    gas: &GasConstants,
    policy: &PublishingPolicy,
    current_time: u64,
    ledger_chain: ChainId,
) -> (r: ValidationOutcome)
    ensures
        r == spec_prologue(
            *txn,
            *ctx,
            *gas,
            *policy,
            current_time,
            ledger_chain,
            CallSite::Execution,
        ),
{
    run_prologue(txn, ctx, gas, policy, current_time, ledger_chain, CallSite::Execution)
}

/// The identity checks of the pipeline: the right chain, not yet expired,
/// an existing sender, a verifying signature, and the matching
/// authentication key. A transaction that passes them is well-formed for
/// its sender, whatever its gas parameters or payload.
pub open spec fn spec_identity_checks_pass(
    txn: SignedTransaction,
    ctx: AccountContext,
    current_time: u64,
    ledger_chain: ChainId,
) -> bool {
    &&& txn.raw.chain_id == ledger_chain
    &&& txn.raw.expiration_time >= current_time
    &&& ctx.present
    &&& ed25519_verifies(txn.public_key@, spec_ser_raw(txn.raw), txn.signature@)
    &&& sha3_256_of(txn.public_key@) == ctx.authentication_key@
}

/// Every check before the payload gating passes: the identity checks, the
/// exact sequence number, an affordable fee, gas parameters in bounds, and
/// a serialized size under the cap.
pub open spec fn spec_core_checks_pass(
    txn: SignedTransaction,
    ctx: AccountContext,
    gas: GasConstants,
    current_time: u64,
    ledger_chain: ChainId,
) -> bool {
    &&& spec_identity_checks_pass(txn, ctx, current_time, ledger_chain)
    &&& txn.raw.sequence_number == ctx.sequence_number
    &&& spec_balance_in(ctx.balances@, txn.raw.gas_currency_code@) >= txn.raw.max_gas_amount
        * txn.raw.gas_unit_price
    &&& spec_check_gas_price(gas, txn.raw.gas_unit_price) is None
    &&& spec_check_max_gas_units(gas, txn.raw.max_gas_amount) is None
    &&& spec_check_size(spec_ser_raw(txn.raw).len()) is None
}

/// Enough balance to cover the whole gas allowance, and the exact sequence
/// number: what holds of every transaction the execution pipeline accepts
/// or keeps.
pub open spec fn spec_prologue_funded(txn: SignedTransaction, ctx: AccountContext) -> bool {
    &&& txn.raw.sequence_number == ctx.sequence_number
    &&& spec_balance_in(ctx.balances@, txn.raw.gas_currency_code@) >= txn.raw.max_gas_amount
        * txn.raw.gas_unit_price
}

/// A transaction the execution pipeline accepts, or rejects with a kept
/// code, has passed the sequence-number and affordability checks: charging
/// it cannot overdraw the account.
pub proof fn lemma_kept_transaction_is_funded(
    txn: SignedTransaction,
    ctx: AccountContext,
    gas: GasConstants,
    policy: PublishingPolicy,
    current_time: u64,
    ledger_chain: ChainId,
)
    ensures
        match spec_first_failure(
            txn,
            ctx,
            gas,
            policy,
            current_time,
            ledger_chain,
            CallSite::Execution,
        ) {
            None => spec_prologue_funded(txn, ctx),
            Some(code) => spec_type_is_discarded(spec_status_type(code)) || spec_prologue_funded(
                txn,
                ctx,
            ),
        },
{
}

/// The effects a kept transaction leaves on its sender's account: the
/// sequence number advances by exactly one, the fee for the work performed
/// leaves the gas currency's balance, and nothing else changes.
pub open spec fn spec_keep_effects(
    old_ctx: AccountContext,
    new_ctx: AccountContext,
    raw: RawTransaction,
    gas_units_used: u64,
) -> bool {
    &&& new_ctx.present == old_ctx.present
    &&& new_ctx.authentication_key@ == old_ctx.authentication_key@
    &&& new_ctx.sequence_number == old_ctx.sequence_number + 1
    &&& new_ctx.role == old_ctx.role
    &&& new_ctx.balances@ == spec_debit(
        old_ctx.balances@,
        raw.gas_currency_code@,
        (gas_units_used * raw.gas_unit_price) as u64,
    )
}

/// Builds the account context a kept transaction leaves behind.
fn apply_keep_effects(ctx: AccountContext, raw: &RawTransaction, gas_units_used: u64) -> (r:
    AccountContext)
    requires
        ctx.sequence_number < u64::MAX,
        gas_units_used * raw.gas_unit_price <= spec_balance_in(
            ctx.balances@,
            raw.gas_currency_code@,
        ),
    ensures
        spec_keep_effects(ctx, r, *raw, gas_units_used),
{
    proof {
        assert((gas_units_used as int) * (raw.gas_unit_price as int) <= (0xffff_ffff_ffff_ffffu64
            as int) * (0xffff_ffff_ffff_ffffu64 as int)) by (nonlinear_arith)
            requires
                gas_units_used <= 0xffff_ffff_ffff_ffffu64,
                raw.gas_unit_price <= 0xffff_ffff_ffff_ffffu64,
        ;
    }
    let fee_wide: u128 = (gas_units_used as u128) * (raw.gas_unit_price as u128);
    let fee: u64 = fee_wide as u64;
    let AccountContext { present, authentication_key, sequence_number, balances, role } = ctx;
    let new_balances = debit_balances(balances, &raw.gas_currency_code, fee);
    AccountContext {
        present,
        authentication_key,
        sequence_number: sequence_number + 1,
        balances: new_balances,
        role,
    }
}

/// The execution gate. It re-runs the pipeline over the current snapshot
/// and reconciles the verdict with the account: a discarded rejection
/// leaves no trace; acceptance or a kept rejection advances the sequence
/// number by one and debits the fee for the gas units the work consumed,
/// which the affordability check has already covered.
pub fn execution_gate(
    txn: &SignedTransaction,
    ctx: AccountContext,
    gas: &GasConstants,
    policy: &PublishingPolicy,
    current_time: u64,
    ledger_chain: ChainId,
    gas_units_used: u64,
) -> (r: (TransactionStatus, AccountContext))
    requires
        gas_units_used <= txn.raw.max_gas_amount,
        ctx.sequence_number < u64::MAX,
    ensures
        ({
            let o = spec_prologue(
                *txn,
                ctx,
                *gas,
                *policy,
                current_time,
                ledger_chain,
                CallSite::Execution,
            );
            match o {
                ValidationOutcome::Accepted => r.0 == TransactionStatus::Keep(VMStatus::Executed)
                    && spec_keep_effects(ctx, r.1, txn.raw, gas_units_used),
                ValidationOutcome::Rejected(code, t) => if spec_type_is_discarded(t) {
                    r.0 == TransactionStatus::Discard(code) && r.1 == ctx
                } else {
                    r.0 == TransactionStatus::Keep(VMStatus::Error(code)) && spec_keep_effects(
                        ctx,
                        r.1,
                        txn.raw,
                        gas_units_used,
                    )
                },
            }
        }),
{
    let outcome = run_prologue(txn, &ctx, gas, policy, current_time, ledger_chain, CallSite::Execution);
    proof {
        lemma_kept_transaction_is_funded(*txn, ctx, *gas, *policy, current_time, ledger_chain);
    }
    match outcome {
        ValidationOutcome::Accepted => {
            proof {
                lemma_mul_inequality(
                    gas_units_used as int,
                    txn.raw.max_gas_amount as int,
                    txn.raw.gas_unit_price as int,
                );
            }
            let new_ctx = apply_keep_effects(ctx, &txn.raw, gas_units_used);
            (TransactionStatus::Keep(VMStatus::Executed), new_ctx)
        },
        ValidationOutcome::Rejected(code, t) => {
            if t.is_discarded() {
                (TransactionStatus::Discard(code), ctx)
            } else {
                proof {
                    lemma_mul_inequality(
                        gas_units_used as int,
                        txn.raw.max_gas_amount as int,
                        txn.raw.gas_unit_price as int,
                    );
                }
                let new_ctx = apply_keep_effects(ctx, &txn.raw, gas_units_used);
                (TransactionStatus::Keep(VMStatus::Error(code)), new_ctx)
            }
        },
    }
}

} // verus!
