//! The transaction data model: addresses, arguments, payloads, and the raw
//! and signed transaction records. All of them are immutable once
//! constructed.

use vstd::prelude::*;
use crate::chain::ChainId;

verus! {

/// The number of bytes in an account address.
pub const ADDRESS_LENGTH: usize = 16;

/// An on-ledger account address.
#[derive(Clone, Debug)]
pub struct AccountAddress {
    pub bytes: Vec<u8>,
}

impl View for AccountAddress {
    type V = Seq<u8>;

    open spec fn view(&self) -> Seq<u8> {
        self.bytes@
    }
}

/// A well-formed address holds exactly `ADDRESS_LENGTH` bytes.
pub open spec fn spec_address_well_formed(a: AccountAddress) -> bool {
    a.bytes@.len() == ADDRESS_LENGTH
}

impl AccountAddress {
    pub fn new(bytes: Vec<u8>) -> (r: Self)
        requires
            bytes@.len() == ADDRESS_LENGTH,
        ensures
            r@ == bytes@,
            spec_address_well_formed(r),
    {
        AccountAddress { bytes }
    }

    pub fn well_formed(&self) -> (r: bool)
        ensures
            r == spec_address_well_formed(*self),
    {
        self.bytes.len() == ADDRESS_LENGTH
    }
}

/// The types a script argument can take, as declared in a script's
/// parameter signature.
#[derive(Clone, Copy, Debug, PartialEq, Eq, Structural)]
pub enum ArgType {
    U8,
    U64,
    U128,
    Address,
    U8Vector,
    Bool,
}

/// A value supplied as a script argument.
#[derive(Clone, Debug)]
pub enum TransactionArgument {
    U8(u8),
    U64(u64),
    U128(u128),
    Address(AccountAddress),
    U8Vector(Vec<u8>),
    Bool(bool),
}

/// The type a supplied argument has.
pub open spec fn spec_arg_type(a: TransactionArgument) -> ArgType {
    match a {
        TransactionArgument::U8(_) => ArgType::U8,
        TransactionArgument::U64(_) => ArgType::U64,
        TransactionArgument::U128(_) => ArgType::U128,
        TransactionArgument::Address(_) => ArgType::Address,
        TransactionArgument::U8Vector(_) => ArgType::U8Vector,
        TransactionArgument::Bool(_) => ArgType::Bool,
    }
}

impl TransactionArgument {
    pub fn arg_type(&self) -> (r: ArgType)
        ensures
            r == spec_arg_type(*self),
    {
        match self {
            TransactionArgument::U8(_) => ArgType::U8,
            TransactionArgument::U64(_) => ArgType::U64,
            TransactionArgument::U128(_) => ArgType::U128,
            TransactionArgument::Address(_) => ArgType::Address,
            TransactionArgument::U8Vector(_) => ArgType::U8Vector,
            TransactionArgument::Bool(_) => ArgType::Bool,
        }
    }
}

/// A smart-contract script: code bytes, the currency (and other) type
/// arguments it is instantiated with, and the value arguments it is run on.
#[derive(Clone, Debug)]
pub struct Script {
    pub code: Vec<u8>,
    pub ty_args: Vec<String>,
    pub args: Vec<TransactionArgument>,
}

/// A module-publish request: the code image to publish.
#[derive(Clone, Debug)]
pub struct Module {
    pub code: Vec<u8>,
}

/// What a transaction asks the ledger to run.
#[derive(Clone, Debug)]
pub enum TransactionPayload {
    Script(Script),
    Module(Module),
}

/// A transaction as its submitter wrote it, before signing.
#[derive(Clone, Debug)]
pub struct RawTransaction {
    pub sender: AccountAddress,
    pub sequence_number: u64,
    pub payload: TransactionPayload,
    pub max_gas_amount: u64,
    pub gas_unit_price: u64,
    pub gas_currency_code: String,
    pub expiration_time: u64,
    pub chain_id: ChainId,
}

/// A raw transaction together with the public key it claims and the
/// signature over its serialized bytes.
#[derive(Clone, Debug)]
pub struct SignedTransaction {
    pub raw: RawTransaction,
    pub public_key: Vec<u8>,
    pub signature: Vec<u8>,
}

} // verus!
