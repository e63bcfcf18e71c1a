//! The canonical byte encoding of a raw transaction. The signature a
//! transaction carries is made and checked over exactly these bytes, and the
//! size cap is measured against their length. Every field is written in a
//! fixed order: little-endian integers, length-prefixed byte strings.

use vstd::prelude::*;
use vstd::string::StringSliceAdditionalSpecFns;
use vstd::utf8::encode_utf8;
use crate::txn::{RawTransaction, TransactionArgument, TransactionPayload};

verus! {

/// The eight little-endian bytes of a 64-bit integer.
pub open spec fn spec_u64_le(v: u64) -> Seq<u8> {
    seq![
        (v % 0x100) as u8,
        ((v / 0x100) % 0x100) as u8,
        ((v / 0x1_0000) % 0x100) as u8,
        ((v / 0x100_0000) % 0x100) as u8,
        ((v / 0x1_0000_0000) % 0x100) as u8,
        ((v / 0x100_0000_0000) % 0x100) as u8,
        ((v / 0x1_0000_0000_0000) % 0x100) as u8,
        ((v / 0x100_0000_0000_0000) % 0x100) as u8,
    ]
}

/// The sixteen little-endian bytes of a 128-bit integer.
pub open spec fn spec_u128_le(v: u128) -> Seq<u8> {
    spec_u64_le((v % 0x1_0000_0000_0000_0000) as u64) + spec_u64_le(
        (v / 0x1_0000_0000_0000_0000) as u64,
    )
}

/// A byte string written with its length in front.
pub open spec fn spec_ser_bytes(b: Seq<u8>) -> Seq<u8> {
    spec_u64_le(b.len() as u64) + b
}

/// A string written as its length-prefixed UTF-8 bytes.
pub open spec fn spec_ser_string(s: Seq<char>) -> Seq<u8> {
    spec_ser_bytes(encode_utf8(s))
}

/// One script argument: a type tag byte, then the value.
pub open spec fn spec_ser_arg(a: TransactionArgument) -> Seq<u8> {
    match a {
        TransactionArgument::U8(v) => seq![0u8, v],
        TransactionArgument::U64(v) => seq![1u8] + spec_u64_le(v),
        TransactionArgument::U128(v) => seq![2u8] + spec_u128_le(v),
        TransactionArgument::Address(addr) => seq![3u8] + spec_ser_bytes(addr.bytes@),
        TransactionArgument::U8Vector(v) => seq![4u8] + spec_ser_bytes(v@),
        TransactionArgument::Bool(b) => seq![
            5u8,
            if b {
                1u8
            } else {
                0u8
            },
        ],
    }
}

/// The arguments in order, without a count.
pub open spec fn spec_ser_arg_list(args: Seq<TransactionArgument>) -> Seq<u8>
    decreases args.len(),
{
    if args.len() == 0 {
        Seq::<u8>::empty()
    } else {
        spec_ser_arg_list(args.drop_last()) + spec_ser_arg(args.last())
    }
}

/// The argument list: a count, then each argument.
pub open spec fn spec_ser_args(args: Seq<TransactionArgument>) -> Seq<u8> {
    spec_u64_le(args.len() as u64) + spec_ser_arg_list(args)
}

/// The type-argument strings in order, without a count.
pub open spec fn spec_ser_string_list(ss: Seq<String>) -> Seq<u8>
    decreases ss.len(),
{
    if ss.len() == 0 {
        Seq::<u8>::empty()
    } else {
        spec_ser_string_list(ss.drop_last()) + spec_ser_string(ss.last()@)
    }
}

/// The type-argument list: a count, then each string.
pub open spec fn spec_ser_strings(ss: Seq<String>) -> Seq<u8> {
    spec_u64_le(ss.len() as u64) + spec_ser_string_list(ss)
}

/// A payload: a variant tag, then its fields.
pub open spec fn spec_ser_payload(p: TransactionPayload) -> Seq<u8> {
    match p {
        TransactionPayload::Script(s) => seq![0u8] + spec_ser_bytes(s.code@) + spec_ser_strings(
            s.ty_args@,
        ) + spec_ser_args(s.args@),
        TransactionPayload::Module(m) => seq![1u8] + spec_ser_bytes(m.code@),
    }
}

/// The canonical bytes of a raw transaction: the bytes that are signed, and
/// whose count is held against the size cap.
pub open spec fn spec_ser_raw(t: RawTransaction) -> Seq<u8> {
    spec_ser_bytes(t.sender.bytes@) + spec_u64_le(t.sequence_number) + spec_ser_payload(t.payload)
        + spec_u64_le(t.max_gas_amount) + spec_u64_le(t.gas_unit_price) + spec_ser_string(
        t.gas_currency_code@,
    ) + spec_u64_le(t.expiration_time) + seq![t.chain_id.0]
}

/// Appends the eight little-endian bytes of `v`.
pub fn push_u64_le(out: &mut Vec<u8>, v: u64)
    ensures
        final(out)@ == old(out)@ + spec_u64_le(v),
{
    out.push((v % 0x100) as u8);
    out.push(((v / 0x100) % 0x100) as u8);
    out.push(((v / 0x1_0000) % 0x100) as u8);
    out.push(((v / 0x100_0000) % 0x100) as u8);
    out.push(((v / 0x1_0000_0000) % 0x100) as u8);
    out.push(((v / 0x100_0000_0000) % 0x100) as u8);
    out.push(((v / 0x1_0000_0000_0000) % 0x100) as u8);
    out.push(((v / 0x100_0000_0000_0000) % 0x100) as u8);
    proof {
        assert(out@ =~= old(out)@ + spec_u64_le(v));
    }
}

/// Appends the sixteen little-endian bytes of `v`.
pub fn push_u128_le(out: &mut Vec<u8>, v: u128)
    ensures
        final(out)@ == old(out)@ + spec_u128_le(v),
{
    let lo: u64 = (v % 0x1_0000_0000_0000_0000) as u64;
    let hi: u64 = (v / 0x1_0000_0000_0000_0000) as u64;
    push_u64_le(out, lo);
    push_u64_le(out, hi);
    proof {
        assert(out@ =~= old(out)@ + spec_u128_le(v));
    }
}

/// Appends the bytes of a slice.
pub fn push_bytes(out: &mut Vec<u8>, b: &[u8])
    ensures
        final(out)@ == old(out)@ + b@,
{
    let mut i: usize = 0;
    while i < b.len()
        invariant
            i <= b@.len(),
            out@ == old(out)@ + b@.take(i as int),
        decreases b@.len() - i,
    {
        out.push(b[i]);
        proof {
            assert(b@.take(i as int + 1) =~= b@.take(i as int).push(b@[i as int]));
            assert(out@ =~= old(out)@ + b@.take(i as int + 1));
        }
        i = i + 1;
    }
    proof {
        assert(b@.take(b@.len() as int) =~= b@);
    }
}

/// Appends a byte string with its length in front.
pub fn push_len_prefixed(out: &mut Vec<u8>, b: &[u8])
    ensures
        final(out)@ == old(out)@ + spec_ser_bytes(b@),
{
    push_u64_le(out, b.len() as u64);
    push_bytes(out, b);
    proof {
        assert(out@ =~= old(out)@ + spec_ser_bytes(b@));
    }
}

/// Appends one argument: its type tag byte, then its value.
pub fn push_arg(out: &mut Vec<u8>, a: &TransactionArgument)
    ensures
        final(out)@ == old(out)@ + spec_ser_arg(*a),
{
    match a {
        TransactionArgument::U8(v) => {
            out.push(0);
            out.push(*v);
        },
        TransactionArgument::U64(v) => {
            out.push(1);
            push_u64_le(out, *v);
        },
        TransactionArgument::U128(v) => {
            out.push(2);
            push_u128_le(out, *v);
        },
        TransactionArgument::Address(addr) => {
            out.push(3);
            push_len_prefixed(out, addr.bytes.as_slice());
        },
        TransactionArgument::U8Vector(v) => {
            out.push(4);
            push_len_prefixed(out, v.as_slice());
        },
        TransactionArgument::Bool(b) => {
            out.push(5);
            if *b {
                out.push(1);
            } else {
                out.push(0);
            }
        },
    }
    proof {
        assert(out@ =~= old(out)@ + spec_ser_arg(*a));
    }
}

/// Appends the argument list: a count, then each argument in order.
pub fn push_args(out: &mut Vec<u8>, args: &Vec<TransactionArgument>)
    ensures
        final(out)@ == old(out)@ + spec_ser_args(args@),
{
    push_u64_le(out, args.len() as u64);
    let ghost prefix = out@;
    let mut i: usize = 0;
    while i < args.len()
        invariant
            i <= args@.len(),
            out@ == prefix + spec_ser_arg_list(args@.take(i as int)),
        decreases args@.len() - i,
    {
        push_arg(out, &args[i]);
        proof {
            assert(args@.take(i as int + 1).drop_last() =~= args@.take(i as int));
            assert(args@.take(i as int + 1).last() == args@[i as int]);
            assert(out@ =~= prefix + spec_ser_arg_list(args@.take(i as int + 1)));
        }
        i = i + 1;
    }
    proof {
        assert(args@.take(args@.len() as int) =~= args@);
        assert(out@ =~= old(out)@ + spec_ser_args(args@));
    }
}

/// Appends the type-argument list: a count, then each string.
pub fn push_strings(out: &mut Vec<u8>, ss: &Vec<String>)
    ensures
        final(out)@ == old(out)@ + spec_ser_strings(ss@),
{
    push_u64_le(out, ss.len() as u64);
    let ghost prefix = out@;
    let mut i: usize = 0;
    while i < ss.len()
        invariant
            i <= ss@.len(),
            out@ == prefix + spec_ser_string_list(ss@.take(i as int)),
        decreases ss@.len() - i,
    {
        push_len_prefixed(out, ss[i].as_str().as_bytes());
        proof {
            assert(ss@.take(i as int + 1).drop_last() =~= ss@.take(i as int));
            assert(ss@.take(i as int + 1).last() == ss@[i as int]);
            assert(out@ =~= prefix + spec_ser_string_list(ss@.take(i as int + 1)));
        }
        i = i + 1;
    }
    proof {
        assert(ss@.take(ss@.len() as int) =~= ss@);
        assert(out@ =~= old(out)@ + spec_ser_strings(ss@));
    }
}

/// The canonical bytes of a raw transaction.
pub fn serialize_raw(t: &RawTransaction) -> (r: Vec<u8>)
    ensures
        r@ == spec_ser_raw(*t),
{
    let mut out: Vec<u8> = Vec::new();
    push_len_prefixed(&mut out, t.sender.bytes.as_slice());
    push_u64_le(&mut out, t.sequence_number);
    match &t.payload {
        TransactionPayload::Script(s) => {
            out.push(0);
            push_len_prefixed(&mut out, s.code.as_slice());
            push_strings(&mut out, &s.ty_args);
            push_args(&mut out, &s.args);
        },
        TransactionPayload::Module(m) => {
            out.push(1);
            push_len_prefixed(&mut out, m.code.as_slice());
        },
    }
    push_u64_le(&mut out, t.max_gas_amount);
    push_u64_le(&mut out, t.gas_unit_price);
    push_len_prefixed(&mut out, t.gas_currency_code.as_str().as_bytes());
    push_u64_le(&mut out, t.expiration_time);
    out.push(t.chain_id.0);
    proof {
        assert(out@ =~= spec_ser_raw(*t));
    }
    out
}

} // verus!
