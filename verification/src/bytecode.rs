//! The code image formats the validator deserializes. A script image opens with
//! its declared parameter signature: a count byte, then one type tag per
//! parameter, then the script body. A module image opens with the sixteen
//! bytes of the address its code declares itself under, then the module
//! body. Anything shorter or carrying an unknown tag does not deserialize.

use vstd::prelude::*;
use crate::txn::{ADDRESS_LENGTH, ArgType, TransactionArgument, spec_arg_type};

verus! {

/// The number of distinct argument type tags.
pub const TAG_COUNT: u8 = 6;

/// Whether a byte is a known type tag.
pub open spec fn spec_valid_tag(t: u8) -> bool {
    t < TAG_COUNT
}

/// The argument type a tag byte names.
pub open spec fn spec_tag_type(t: u8) -> ArgType {
    if t == 0 {
        ArgType::U8
    } else if t == 1 {
        ArgType::U64
    } else if t == 2 {
        ArgType::U128
    } else if t == 3 {
        ArgType::Address
    } else if t == 4 {
        ArgType::U8Vector
    } else {
        ArgType::Bool
    }
}

/// The parameter signature a script image declares, or `None` where the
/// bytes do not deserialize: an empty image, a count that overruns the
/// image, or an unknown tag.
pub open spec fn spec_script_signature(code: Seq<u8>) -> Option<Seq<ArgType>> {
    if code.len() == 0 {
        None
    } else {
        let n = code[0] as int;
        if code.len() < 1 + n {
            None
        } else if exists|i: int| 0 <= i < n && !spec_valid_tag(#[trigger] code[1 + i]) {
            None
        } else {
            Some(Seq::new(n as nat, |i: int| spec_tag_type(code[1 + i])))
        }
    }
}

/// The address a module image declares itself under, or `None` where the
/// image is too short to carry one.
pub open spec fn spec_module_address(code: Seq<u8>) -> Option<Seq<u8>> {
    if code.len() < ADDRESS_LENGTH {
        None
    } else {
        Some(code.subrange(0, ADDRESS_LENGTH as int))
    }
}

/// Whether supplied arguments match a declared signature: the same count,
/// and positionally the same type.
pub open spec fn spec_args_match(args: Seq<TransactionArgument>, sig: Seq<ArgType>) -> bool {
    args.len() == sig.len() && (forall|i: int|
        0 <= i < args.len() ==> spec_arg_type(args[i]) == sig[i])
}

/// Deserializes the parameter signature a script image declares.
pub fn script_signature(code: &[u8]) -> (r: Option<Vec<ArgType>>)
    ensures
        match r {
            Some(sig) => spec_script_signature(code@) == Some(sig@),
            None => spec_script_signature(code@) is None,
        },
{
    if code.len() == 0 {
        return None;
    }
    let n = code[0] as usize;
    if code.len() < 1 + n {
        return None;
    }
    let mut sig: Vec<ArgType> = Vec::new();
    let mut i: usize = 0;
    while i < n
        invariant
            i <= n,
            code@.len() >= 1 + n,
            n == code@[0] as int,
            sig@.len() == i,
            forall|j: int| 0 <= j < i ==> spec_valid_tag(#[trigger] code@[1 + j]),
            forall|j: int| 0 <= j < i ==> sig@[j] == spec_tag_type(code@[1 + j]),
        decreases n - i,
    {
        let tag = code[1 + i];
        if tag >= TAG_COUNT {
            return None;
        }
        let t = if tag == 0 {
            ArgType::U8
        } else if tag == 1 {
            ArgType::U64
        } else if tag == 2 {
            ArgType::U128
        } else if tag == 3 {
            ArgType::Address
        } else if tag == 4 {
            ArgType::U8Vector
        } else {
            ArgType::Bool
        };
        sig.push(t);
        i = i + 1;
    }
    proof {
        assert(sig@ =~= Seq::new(n as nat, |j: int| spec_tag_type(code@[1 + j])));
    }
    Some(sig)
}

/// Deserializes the address a module image declares itself under.
pub fn module_address(code: &[u8]) -> (r: Option<Vec<u8>>)
    ensures
        match r {
            Some(a) => spec_module_address(code@) == Some(a@),
            None => spec_module_address(code@) is None,
        },
{
    if code.len() < ADDRESS_LENGTH {
        return None;
    }
    let mut a: Vec<u8> = Vec::new();
    let mut i: usize = 0;
    while i < ADDRESS_LENGTH
        invariant
            i <= ADDRESS_LENGTH,
            code@.len() >= ADDRESS_LENGTH,
            a@.len() == i,
            forall|j: int| 0 <= j < i ==> a@[j] == code@[j],
        decreases ADDRESS_LENGTH - i,
    {
        a.push(code[i]);
        i = i + 1;
    }
    proof {
        assert(a@ =~= code@.subrange(0, ADDRESS_LENGTH as int));
    }
    Some(a)
}

/// Whether the supplied arguments match the declared signature.
pub fn args_match(args: &Vec<TransactionArgument>, sig: &Vec<ArgType>) -> (r: bool)
    ensures
        r == spec_args_match(args@, sig@),
{
    if args.len() != sig.len() {
        return false;
    }
    let mut i: usize = 0;
    while i < args.len()
        invariant
            i <= args@.len(),
            args@.len() == sig@.len(),
            forall|j: int| 0 <= j < i ==> spec_arg_type(args@[j]) == sig@[j],
        decreases args@.len() - i,
    {
        if args[i].arg_type() != sig[i] {
            return false;
        }
        i = i + 1;
    }
    true
}

/// Builds a module image declaring itself under the given address: the
/// address bytes, then the body.
pub fn module_image(address: &crate::txn::AccountAddress, body: &[u8]) -> (r: Vec<u8>)
    ensures
        r@ == address@ + body@,
{
    let mut out: Vec<u8> = Vec::new();
    crate::codec::push_bytes(&mut out, address.bytes.as_slice());
    crate::codec::push_bytes(&mut out, body);
    proof {
        assert(out@ =~= address@ + body@);
    }
    out
}

/// A well-formed module image declares exactly the address it was built
/// under.
pub proof fn lemma_module_image_address(address: Seq<u8>, body: Seq<u8>)
    requires
        address.len() == ADDRESS_LENGTH,
    ensures
        spec_module_address(address + body) == Some(address),
{
    assert((address + body).subrange(0, ADDRESS_LENGTH as int) =~= address);
}

} // verus!
