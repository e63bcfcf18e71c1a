//! The standard library of transaction scripts that a locked ledger admits.
//! The genesis whitelist is derived from this registry: the content hash of
//! each script's compiled image, compared by exact byte equality.
//!
//! A compiled image here is the script's registry entry in the validator's code
//! image format: the declared parameter signature, then a body byte that
//! names the script. Only the peer-to-peer transfer script declares
//! parameters in this registry; it is the one whose arguments the validation
//! scenarios check.

use vstd::prelude::*;
use vstd::string::StringExecFns;
use crate::crypto::{bytes_eq, sha3_256, sha3_256_of};
use crate::txn::ArgType;

verus! {

/// All of the standard library scripts a locked ledger can run.
#[derive(Clone, Copy, Debug, PartialEq, Eq, Structural)]
pub enum StdlibScript {
    AddCurrencyToAccount,
    AddRecoveryRotationCapability,
    AddValidator,
    Burn,
    BurnTxnFees,
    CancelBurn,
    CreateChildVaspAccount,
    CreateDesignatedDealer,
    CreateParentVaspAccount,
    CreateRecoveryAddress,
    CreateTestingAccount,
    CreateValidatorAccount,
    CreateValidatorOperatorAccount,
    FreezeAccount,
    MintLbr,
    ModifyPublishingOption,
    PeerToPeerWithMetadata,
    Preburn,
    PublishAccountLimitDefinition,
    PublishSharedEd2551PublicKey,
    Reconfigure,
    RemoveValidator,
    RotateAuthenticationKey,
    RotateAuthenticationKeyWithNonce,
    RotateAuthenticationKeyWithRecoveryAddress,
    RotateDualAttestationInfo,
    RotateSharedEd2551PublicKey,
    UpdateAccountLimitWindowInfo,
    SetValidatorConfig,
    SetValidatorOperator,
    TestnetMint,
    TieredMint,
    UnfreezeAccount,
    UnmintLbr,
    UpdateAccountLimitDefinition,
    UpdateExchangeRate,
    UpdateLibraVersion,
    UpdateMintingAbility,
    UpdateDualAttestationLimit,
}

/// The position of each script in the registry. Each script's body byte.
pub open spec fn spec_script_index(s: StdlibScript) -> u8 {
    match s {
        StdlibScript::AddCurrencyToAccount => 0,
        StdlibScript::AddRecoveryRotationCapability => 1,
        StdlibScript::AddValidator => 2,
        StdlibScript::Burn => 3,
        StdlibScript::BurnTxnFees => 4,
        StdlibScript::CancelBurn => 5,
        StdlibScript::CreateChildVaspAccount => 6,
        StdlibScript::CreateDesignatedDealer => 7,
        StdlibScript::CreateParentVaspAccount => 8,
        StdlibScript::CreateRecoveryAddress => 9,
        StdlibScript::CreateTestingAccount => 10,
        StdlibScript::CreateValidatorAccount => 11,
        StdlibScript::CreateValidatorOperatorAccount => 12,
        StdlibScript::FreezeAccount => 13,
        StdlibScript::MintLbr => 14,
        StdlibScript::ModifyPublishingOption => 15,
        StdlibScript::PeerToPeerWithMetadata => 16,
        StdlibScript::Preburn => 17,
        StdlibScript::PublishAccountLimitDefinition => 18,
        StdlibScript::PublishSharedEd2551PublicKey => 19,
        StdlibScript::Reconfigure => 20,
        StdlibScript::RemoveValidator => 21,
        StdlibScript::RotateAuthenticationKey => 22,
        StdlibScript::RotateAuthenticationKeyWithNonce => 23,
        StdlibScript::RotateAuthenticationKeyWithRecoveryAddress => 24,
        StdlibScript::RotateDualAttestationInfo => 25,
        StdlibScript::RotateSharedEd2551PublicKey => 26,
        StdlibScript::UpdateAccountLimitWindowInfo => 27,
        StdlibScript::SetValidatorConfig => 28,
        StdlibScript::SetValidatorOperator => 29,
        StdlibScript::TestnetMint => 30,
        StdlibScript::TieredMint => 31,
        StdlibScript::UnfreezeAccount => 32,
        StdlibScript::UnmintLbr => 33,
        StdlibScript::UpdateAccountLimitDefinition => 34,
        StdlibScript::UpdateExchangeRate => 35,
        StdlibScript::UpdateLibraVersion => 36,
        StdlibScript::UpdateMintingAbility => 37,
        StdlibScript::UpdateDualAttestationLimit => 38,
    }
}

/// The parameter signature a script's image declares. The peer-to-peer
/// transfer takes a payee address, an amount, a metadata byte string and a
/// metadata signature; the remaining scripts declare no parameters in this
/// registry.
pub open spec fn spec_declared_signature(s: StdlibScript) -> Seq<ArgType> {
    if s == StdlibScript::PeerToPeerWithMetadata {
        seq![ArgType::Address, ArgType::U64, ArgType::U8Vector, ArgType::U8Vector]
    } else {
        Seq::<ArgType>::empty()
    }
}

/// The compiled image of a script: its declared signature in the code image
/// format, then its body byte.
pub open spec fn spec_compiled_script(s: StdlibScript) -> Seq<u8> {
    if s == StdlibScript::PeerToPeerWithMetadata {
        seq![4u8, 3u8, 1u8, 4u8, 4u8, spec_script_index(s)]
    } else {
        seq![0u8, spec_script_index(s)]
    }
}

/// Every registry image deserializes, and declares exactly the signature it
/// was built with.
pub proof fn lemma_compiled_script_signature(s: StdlibScript)
    ensures
        crate::bytecode::spec_script_signature(spec_compiled_script(s)) == Some(
            spec_declared_signature(s),
        ),
{
    let code = spec_compiled_script(s);
    if s == StdlibScript::PeerToPeerWithMetadata {
        assert(Seq::new(4nat, |i: int| crate::bytecode::spec_tag_type(code[1 + i]))
            =~= spec_declared_signature(s));
    } else {
        assert(Seq::new(0nat, |i: int| crate::bytecode::spec_tag_type(code[1 + i]))
            =~= spec_declared_signature(s));
    }
}

/// The registry in order: each script at the position its body byte names.
pub open spec fn spec_all_scripts() -> Seq<StdlibScript> {
    seq![
        StdlibScript::AddCurrencyToAccount,
        StdlibScript::AddRecoveryRotationCapability,
        StdlibScript::AddValidator,
        StdlibScript::Burn,
        StdlibScript::BurnTxnFees,
        StdlibScript::CancelBurn,
        StdlibScript::CreateChildVaspAccount,
        StdlibScript::CreateDesignatedDealer,
        StdlibScript::CreateParentVaspAccount,
        StdlibScript::CreateRecoveryAddress,
        StdlibScript::CreateTestingAccount,
        StdlibScript::CreateValidatorAccount,
        StdlibScript::CreateValidatorOperatorAccount,
        StdlibScript::FreezeAccount,
        StdlibScript::MintLbr,
        StdlibScript::ModifyPublishingOption,
        StdlibScript::PeerToPeerWithMetadata,
        StdlibScript::Preburn,
        StdlibScript::PublishAccountLimitDefinition,
        StdlibScript::PublishSharedEd2551PublicKey,
        StdlibScript::Reconfigure,
        StdlibScript::RemoveValidator,
        StdlibScript::RotateAuthenticationKey,
        StdlibScript::RotateAuthenticationKeyWithNonce,
        StdlibScript::RotateAuthenticationKeyWithRecoveryAddress,
        StdlibScript::RotateDualAttestationInfo,
        StdlibScript::RotateSharedEd2551PublicKey,
        StdlibScript::UpdateAccountLimitWindowInfo,
        StdlibScript::SetValidatorConfig,
        StdlibScript::SetValidatorOperator,
        StdlibScript::TestnetMint,
        StdlibScript::TieredMint,
        StdlibScript::UnfreezeAccount,
        StdlibScript::UnmintLbr,
        StdlibScript::UpdateAccountLimitDefinition,
        StdlibScript::UpdateExchangeRate,
        StdlibScript::UpdateLibraVersion,
        StdlibScript::UpdateMintingAbility,
        StdlibScript::UpdateDualAttestationLimit,
    ]
}

/// The lowercase-underscore name of each script.
pub open spec fn spec_script_name(s: StdlibScript) -> Seq<char> {
    match s {
        StdlibScript::AddCurrencyToAccount => "add_currency_to_account"@,
        StdlibScript::AddRecoveryRotationCapability => "add_recovery_rotation_capability"@,
        StdlibScript::AddValidator => "add_validator"@,
        StdlibScript::Burn => "burn"@,
        StdlibScript::BurnTxnFees => "burn_txn_fees"@,
        StdlibScript::CancelBurn => "cancel_burn"@,
        StdlibScript::CreateChildVaspAccount => "create_child_vasp_account"@,
        StdlibScript::CreateDesignatedDealer => "create_designated_dealer"@,
        StdlibScript::CreateParentVaspAccount => "create_parent_vasp_account"@,
        StdlibScript::CreateRecoveryAddress => "create_recovery_address"@,
        StdlibScript::CreateTestingAccount => "create_testing_account"@,
        StdlibScript::CreateValidatorAccount => "create_validator_account"@,
        StdlibScript::CreateValidatorOperatorAccount => "create_validator_operator_account"@,
        StdlibScript::FreezeAccount => "freeze_account"@,
        StdlibScript::MintLbr => "mint_lbr"@,
        StdlibScript::ModifyPublishingOption => "modify_publishing_option"@,
        StdlibScript::PeerToPeerWithMetadata => "peer_to_peer_with_metadata"@,
        StdlibScript::Preburn => "preburn"@,
        StdlibScript::PublishAccountLimitDefinition => "publish_account_limit_definition"@,
        StdlibScript::PublishSharedEd2551PublicKey => "publish_shared_ed25519_public_key"@,
        StdlibScript::Reconfigure => "reconfigure"@,
        StdlibScript::RemoveValidator => "remove_validator"@,
        StdlibScript::RotateAuthenticationKey => "rotate_authentication_key"@,
        StdlibScript::RotateAuthenticationKeyWithNonce => "rotate_authentication_key_with_nonce"@,
        StdlibScript::RotateAuthenticationKeyWithRecoveryAddress
            => "rotate_authentication_key_with_recovery_address"@,
        StdlibScript::RotateDualAttestationInfo => "rotate_dual_attestation_info"@,
        StdlibScript::RotateSharedEd2551PublicKey => "rotate_shared_ed25519_public_key"@,
        StdlibScript::UpdateAccountLimitWindowInfo => "update_account_limit_window_info"@,
        StdlibScript::SetValidatorConfig => "set_validator_config"@,
        StdlibScript::SetValidatorOperator => "set_validator_operator"@,
        StdlibScript::TestnetMint => "testnet_mint"@,
        StdlibScript::TieredMint => "tiered_mint"@,
        StdlibScript::UnfreezeAccount => "unfreeze_account"@,
        StdlibScript::UnmintLbr => "unmint_lbr"@,
        StdlibScript::UpdateAccountLimitDefinition => "update_account_limit_definition"@,
        StdlibScript::UpdateExchangeRate => "update_exchange_rate"@,
        StdlibScript::UpdateLibraVersion => "update_libra_version"@,
        StdlibScript::UpdateMintingAbility => "update_minting_ability"@,
        StdlibScript::UpdateDualAttestationLimit => "update_dual_attestation_limit"@,
    }
}

impl StdlibScript {
    /// A vector of all the standard library scripts, in registry order.
    pub fn all() -> (r: Vec<Self>)
        ensures
            r@ == spec_all_scripts(),
    {
        let mut v: Vec<StdlibScript> = Vec::new();
        v.push(StdlibScript::AddCurrencyToAccount);
        v.push(StdlibScript::AddRecoveryRotationCapability);
        v.push(StdlibScript::AddValidator);
        v.push(StdlibScript::Burn);
        v.push(StdlibScript::BurnTxnFees);
        v.push(StdlibScript::CancelBurn);
        v.push(StdlibScript::CreateChildVaspAccount);
        v.push(StdlibScript::CreateDesignatedDealer);
        v.push(StdlibScript::CreateParentVaspAccount);
        v.push(StdlibScript::CreateRecoveryAddress);
        v.push(StdlibScript::CreateTestingAccount);
        v.push(StdlibScript::CreateValidatorAccount);
        v.push(StdlibScript::CreateValidatorOperatorAccount);
        v.push(StdlibScript::FreezeAccount);
        v.push(StdlibScript::MintLbr);
        v.push(StdlibScript::ModifyPublishingOption);
        v.push(StdlibScript::PeerToPeerWithMetadata);
        v.push(StdlibScript::Preburn);
        v.push(StdlibScript::PublishAccountLimitDefinition);
        v.push(StdlibScript::PublishSharedEd2551PublicKey);
        v.push(StdlibScript::Reconfigure);
        v.push(StdlibScript::RemoveValidator);
        v.push(StdlibScript::RotateAuthenticationKey);
        v.push(StdlibScript::RotateAuthenticationKeyWithNonce);
        v.push(StdlibScript::RotateAuthenticationKeyWithRecoveryAddress);
        v.push(StdlibScript::RotateDualAttestationInfo);
        v.push(StdlibScript::RotateSharedEd2551PublicKey);
        v.push(StdlibScript::UpdateAccountLimitWindowInfo);
        v.push(StdlibScript::SetValidatorConfig);
        v.push(StdlibScript::SetValidatorOperator);
        v.push(StdlibScript::TestnetMint);
        v.push(StdlibScript::TieredMint);
        v.push(StdlibScript::UnfreezeAccount);
        v.push(StdlibScript::UnmintLbr);
        v.push(StdlibScript::UpdateAccountLimitDefinition);
        v.push(StdlibScript::UpdateExchangeRate);
        v.push(StdlibScript::UpdateLibraVersion);
        v.push(StdlibScript::UpdateMintingAbility);
        v.push(StdlibScript::UpdateDualAttestationLimit);
        proof {
            assert(v@ =~= spec_all_scripts());
        }
        v
    }

    /// The script's body byte: its position in the registry.
    pub fn index(self) -> (r: u8)
        ensures
            r == spec_script_index(self),
    {
        match self {
            StdlibScript::AddCurrencyToAccount => 0,
            StdlibScript::AddRecoveryRotationCapability => 1,
            StdlibScript::AddValidator => 2,
            StdlibScript::Burn => 3,
            StdlibScript::BurnTxnFees => 4,
            StdlibScript::CancelBurn => 5,
            StdlibScript::CreateChildVaspAccount => 6,
            StdlibScript::CreateDesignatedDealer => 7,
            StdlibScript::CreateParentVaspAccount => 8,
            StdlibScript::CreateRecoveryAddress => 9,
            StdlibScript::CreateTestingAccount => 10,
            StdlibScript::CreateValidatorAccount => 11,
            StdlibScript::CreateValidatorOperatorAccount => 12,
            StdlibScript::FreezeAccount => 13,
            StdlibScript::MintLbr => 14,
            StdlibScript::ModifyPublishingOption => 15,
            StdlibScript::PeerToPeerWithMetadata => 16,
            StdlibScript::Preburn => 17,
            StdlibScript::PublishAccountLimitDefinition => 18,
            StdlibScript::PublishSharedEd2551PublicKey => 19,
            StdlibScript::Reconfigure => 20,
            StdlibScript::RemoveValidator => 21,
            StdlibScript::RotateAuthenticationKey => 22,
            StdlibScript::RotateAuthenticationKeyWithNonce => 23,
            StdlibScript::RotateAuthenticationKeyWithRecoveryAddress => 24,
            StdlibScript::RotateDualAttestationInfo => 25,
            StdlibScript::RotateSharedEd2551PublicKey => 26,
            StdlibScript::UpdateAccountLimitWindowInfo => 27,
            StdlibScript::SetValidatorConfig => 28,
            StdlibScript::SetValidatorOperator => 29,
            StdlibScript::TestnetMint => 30,
            StdlibScript::TieredMint => 31,
            StdlibScript::UnfreezeAccount => 32,
            StdlibScript::UnmintLbr => 33,
            StdlibScript::UpdateAccountLimitDefinition => 34,
            StdlibScript::UpdateExchangeRate => 35,
            StdlibScript::UpdateLibraVersion => 36,
            StdlibScript::UpdateMintingAbility => 37,
            StdlibScript::UpdateDualAttestationLimit => 38,
        }
    }

    /// The lowercase-underscore name of this script.
    pub fn name(self) -> (r: String)
        ensures
            r@ == spec_script_name(self),
    {
        match self {
            StdlibScript::AddCurrencyToAccount => String::from_str("add_currency_to_account"),
            StdlibScript::AddRecoveryRotationCapability => String::from_str(
                "add_recovery_rotation_capability",
            ),
            StdlibScript::AddValidator => String::from_str("add_validator"),
            StdlibScript::Burn => String::from_str("burn"),
            StdlibScript::BurnTxnFees => String::from_str("burn_txn_fees"),
            StdlibScript::CancelBurn => String::from_str("cancel_burn"),
            StdlibScript::CreateChildVaspAccount => String::from_str("create_child_vasp_account"),
            StdlibScript::CreateDesignatedDealer => String::from_str("create_designated_dealer"),
            StdlibScript::CreateParentVaspAccount => String::from_str(
                "create_parent_vasp_account",
            ),
            StdlibScript::CreateRecoveryAddress => String::from_str("create_recovery_address"),
            StdlibScript::CreateTestingAccount => String::from_str("create_testing_account"),
            StdlibScript::CreateValidatorAccount => String::from_str("create_validator_account"),
            StdlibScript::CreateValidatorOperatorAccount => String::from_str(
                "create_validator_operator_account",
            ),
            StdlibScript::FreezeAccount => String::from_str("freeze_account"),
            StdlibScript::MintLbr => String::from_str("mint_lbr"),
            StdlibScript::ModifyPublishingOption => String::from_str("modify_publishing_option"),
            StdlibScript::PeerToPeerWithMetadata => String::from_str(
                "peer_to_peer_with_metadata",
            ),
            StdlibScript::Preburn => String::from_str("preburn"),
            StdlibScript::PublishAccountLimitDefinition => String::from_str(
                "publish_account_limit_definition",
            ),
            StdlibScript::PublishSharedEd2551PublicKey => String::from_str(
                "publish_shared_ed25519_public_key",
            ),
            StdlibScript::Reconfigure => String::from_str("reconfigure"),
            StdlibScript::RemoveValidator => String::from_str("remove_validator"),
            StdlibScript::RotateAuthenticationKey => String::from_str(
                "rotate_authentication_key",
            ),
            StdlibScript::RotateAuthenticationKeyWithNonce => String::from_str(
                "rotate_authentication_key_with_nonce",
            ),
            StdlibScript::RotateAuthenticationKeyWithRecoveryAddress => String::from_str(
                "rotate_authentication_key_with_recovery_address",
            ),
            StdlibScript::RotateDualAttestationInfo => String::from_str(
                "rotate_dual_attestation_info",
            ),
            StdlibScript::RotateSharedEd2551PublicKey => String::from_str(
                "rotate_shared_ed25519_public_key",
            ),
            StdlibScript::UpdateAccountLimitWindowInfo => String::from_str(
                "update_account_limit_window_info",
            ),
            StdlibScript::SetValidatorConfig => String::from_str("set_validator_config"),
            StdlibScript::SetValidatorOperator => String::from_str("set_validator_operator"),
            StdlibScript::TestnetMint => String::from_str("testnet_mint"),
            StdlibScript::TieredMint => String::from_str("tiered_mint"),
            StdlibScript::UnfreezeAccount => String::from_str("unfreeze_account"),
            StdlibScript::UnmintLbr => String::from_str("unmint_lbr"),
            StdlibScript::UpdateAccountLimitDefinition => String::from_str(
                "update_account_limit_definition",
            ),
            StdlibScript::UpdateExchangeRate => String::from_str("update_exchange_rate"),
            StdlibScript::UpdateLibraVersion => String::from_str("update_libra_version"),
            StdlibScript::UpdateMintingAbility => String::from_str("update_minting_ability"),
            StdlibScript::UpdateDualAttestationLimit => String::from_str(
                "update_dual_attestation_limit",
            ),
        }
    }

    /// The standard library script whose compiled image has the same
    /// content hash as `code_bytes`, or `None` where no script's does.
    pub fn try_from(code_bytes: &[u8]) -> (r: Option<StdlibScript>)
        ensures
            match r {
                Some(s) => spec_all_scripts().contains(s) && sha3_256_of(spec_compiled_script(s))
                    == sha3_256_of(code_bytes@),
                None => forall|i: int|
                    0 <= i < spec_all_scripts().len() ==> sha3_256_of(
                        spec_compiled_script(spec_all_scripts()[i]),
                    ) != sha3_256_of(code_bytes@),
            },
    {
        let target = sha3_256(code_bytes);
        let scripts = Self::all();
        let mut i: usize = 0;
        while i < scripts.len()
            invariant
                i <= scripts@.len(),
                scripts@ == spec_all_scripts(),
                target@ == sha3_256_of(code_bytes@),
                forall|j: int|
                    0 <= j < i ==> sha3_256_of(
                        spec_compiled_script(spec_all_scripts()[j]),
                    ) != sha3_256_of(code_bytes@),
            decreases scripts@.len() - i,
        {
            let h = scripts[i].hash();
            if bytes_eq(h.as_slice(), target.as_slice()) {
                return Some(scripts[i]);
            }
            i = i + 1;
        }
        None
    }

    /// Whether `code_bytes` hashes to the content hash of one of the
    /// standard library scripts.
    pub fn is(code_bytes: &[u8]) -> (r: bool)
        ensures
            r == (exists|i: int|
                0 <= i < spec_all_scripts().len() && sha3_256_of(
                    spec_compiled_script(spec_all_scripts()[i]),
                ) == sha3_256_of(code_bytes@)),
    {
        Self::try_from(code_bytes).is_some()
    }

    /// The compiled image of this script, from the registry.
    pub fn compiled_bytes(self) -> (r: CompiledBytes)
        ensures
            r@ == spec_compiled_script(self),
    {
        let mut v: Vec<u8> = Vec::new();
        if self == StdlibScript::PeerToPeerWithMetadata {
            v.push(4);
            v.push(3);
            v.push(1);
            v.push(4);
            v.push(4);
        } else {
            v.push(0);
        }
        v.push(self.index());
        proof {
            assert(v@ =~= spec_compiled_script(self));
        }
        CompiledBytes(v)
    }

    /// The content hash of this script's compiled image.
    pub fn hash(self) -> (r: Vec<u8>)
        ensures
            r@ == sha3_256_of(spec_compiled_script(self)),
            r@.len() == 32,
    {
        self.compiled_bytes().hash()
    }

    /// The whitelist a locked ledger is configured with: the content hash of
    /// each standard library script's compiled image, in registry order.
    pub fn whitelist() -> (r: Vec<Vec<u8>>)
        ensures
            r@.len() == spec_all_scripts().len(),
            forall|i: int|
                0 <= i < r@.len() ==> r@[i]@ == sha3_256_of(
                    spec_compiled_script(spec_all_scripts()[i]),
                ),
    {
        let scripts = Self::all();
        let mut wl: Vec<Vec<u8>> = Vec::new();
        let mut i: usize = 0;
        while i < scripts.len()
            invariant
                i <= scripts@.len(),
                scripts@ == spec_all_scripts(),
                wl@.len() == i,
                forall|j: int|
                    0 <= j < i ==> wl@[j]@ == sha3_256_of(
                        spec_compiled_script(spec_all_scripts()[j]),
                    ),
            decreases scripts@.len() - i,
        {
            let h = scripts[i].hash();
            wl.push(h);
            i = i + 1;
        }
        wl
    }
}

/// Bytes of a compiled script image.
#[derive(Clone, Debug)]
pub struct CompiledBytes(pub Vec<u8>);

impl View for CompiledBytes {
    type V = Seq<u8>;

    open spec fn view(&self) -> Seq<u8> {
        self.0@
    }
}

impl CompiledBytes {
    /// The sha3-256 content hash of the script bytes.
    pub fn hash(&self) -> (r: Vec<u8>)
        ensures
            r@ == sha3_256_of(self@),
            r@.len() == 32,
    {
        sha3_256(self.0.as_slice())
    }

    /// This wrapper's bytes.
    pub fn into_vec(self) -> (r: Vec<u8>)
        ensures
            r@ == self@,
    {
        self.0
    }
}

} // verus!
