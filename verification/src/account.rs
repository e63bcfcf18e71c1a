//! The account context: the point-in-time snapshot of a sender's on-ledger
//! record that the validator reads. It is re-fetched for every run and never
//! mutated in place; the execution gate builds a fresh context for the
//! effects of a kept transaction.

use vstd::prelude::*;

verus! {

/// The role an account record carries.
#[derive(Clone, Copy, Debug, PartialEq, Eq, Structural)]
pub enum AccountRole {
    Ordinary,
    PrivilegedRoot,
    DesignatedDealer,
    Vasp,
}

/// One per-currency balance of an account.
#[derive(Clone, Debug)]
pub struct BalanceEntry {
    pub currency_code: String,
    pub amount: u64,
}

/// A read-only snapshot of a sender's account record.
#[derive(Clone, Debug)]
pub struct AccountContext {
    /// Whether an account record exists under the address at all. A
    /// privileged or reserved address with no on-ledger record is as
    /// nonexistent as any other.
    pub present: bool,
    /// The hash the sender's claimed public key must match.
    pub authentication_key: Vec<u8>,
    /// The account's current sequence number.
    pub sequence_number: u64,
    /// The per-currency balances.
    pub balances: Vec<BalanceEntry>,
    /// The account's role.
    pub role: AccountRole,
}

/// The balance held in a currency: the first entry under that code, or zero
/// where none is listed.
pub open spec fn spec_balance_in(balances: Seq<BalanceEntry>, currency: Seq<char>) -> u64
    decreases balances.len(),
{
    if balances.len() == 0 {
        0u64
    } else if balances[0].currency_code@ == currency {
        balances[0].amount
    } else {
        spec_balance_in(balances.drop_first(), currency)
    }
}

/// The balances after a fee leaves the given currency: the first entry
/// under that code loses `fee`, every other entry is unchanged.
pub open spec fn spec_debit(balances: Seq<BalanceEntry>, currency: Seq<char>, fee: u64) -> Seq<
    BalanceEntry,
>
    decreases balances.len(),
{
    if balances.len() == 0 {
        balances
    } else if balances[0].currency_code@ == currency {
        seq![
            BalanceEntry { currency_code: balances[0].currency_code, amount: (balances[0].amount - fee) as u64 },
        ] + balances.drop_first()
    } else {
        seq![balances[0]] + spec_debit(balances.drop_first(), currency, fee)
    }
}

/// Debiting leaves the balance in the debited currency smaller by the fee
/// and touches no other entry's amount.
pub proof fn lemma_debit_balance(balances: Seq<BalanceEntry>, currency: Seq<char>, fee: u64)
    requires
        fee <= spec_balance_in(balances, currency),
    ensures
        spec_balance_in(spec_debit(balances, currency, fee), currency) == spec_balance_in(
            balances,
            currency,
        ) - fee,
        spec_debit(balances, currency, fee).len() == balances.len(),
    decreases balances.len(),
{
    if balances.len() == 0 {
    } else if balances[0].currency_code@ == currency {
        assert(spec_debit(balances, currency, fee).drop_first() =~= balances.drop_first());
    } else {
        lemma_debit_balance(balances.drop_first(), currency, fee);
        assert(spec_debit(balances, currency, fee).drop_first() =~= spec_debit(
            balances.drop_first(),
            currency,
            fee,
        ));
    }
}

impl AccountContext {
    /// The balance this account holds in a currency, or zero where it holds
    /// none.
    pub fn balance_in(&self, currency: &String) -> (r: u64)
        ensures
            r == spec_balance_in(self.balances@, currency@),
    {
        proof {
            assert(self.balances@.skip(0) =~= self.balances@);
        }
        balance_from(&self.balances, currency, 0)
    }
}

/// The balance found from position `i` on.
fn balance_from(balances: &Vec<BalanceEntry>, currency: &String, i: usize) -> (r: u64)
    requires
        i <= balances@.len(),
    ensures
        r == spec_balance_in(balances@.skip(i as int), currency@),
    decreases balances@.len() - i,
{
    if i == balances.len() {
        proof {
            assert(balances@.skip(i as int) =~= Seq::<BalanceEntry>::empty());
        }
        0
    } else {
        proof {
            assert(balances@.skip(i as int)[0] == balances@[i as int]);
        }
        if balances[i].currency_code == *currency {
            balances[i].amount
        } else {
            proof {
                assert(balances@.skip(i as int).drop_first() =~= balances@.skip(i as int + 1));
            }
            balance_from(balances, currency, i + 1)
        }
    }
}

/// The account's balances after the fee leaves the given currency.
pub fn debit_balances(balances: Vec<BalanceEntry>, currency: &String, fee: u64) -> (r: Vec<
    BalanceEntry,
>)
    requires
        fee <= spec_balance_in(balances@, currency@),
    ensures
        r@ == spec_debit(balances@, currency@, fee),
{
    debit_from(balances, currency, fee)
}

/// The position of the first entry under the currency, if any.
fn find_currency(balances: &Vec<BalanceEntry>, currency: &String) -> (r: Option<usize>)
    ensures
        match r {
            Some(k) => 0 <= k < balances@.len() && balances@[k as int].currency_code@ == currency@
                && (forall|j: int| 0 <= j < k ==> balances@[j].currency_code@ != currency@),
            None => forall|j: int|
                0 <= j < balances@.len() ==> balances@[j].currency_code@ != currency@,
        },
{
    let mut i: usize = 0;
    while i < balances.len()
        invariant
            i <= balances@.len(),
            forall|j: int| 0 <= j < i ==> balances@[j].currency_code@ != currency@,
        decreases balances@.len() - i,
    {
        if balances[i].currency_code == *currency {
            return Some(i);
        }
        i = i + 1;
    }
    None
}

/// Rebuilds the balance list with the first entry under `currency` debited.
fn debit_from(balances: Vec<BalanceEntry>, currency: &String, fee: u64) -> (r: Vec<BalanceEntry>)
    requires
        fee <= spec_balance_in(balances@, currency@),
    ensures
        r@ == spec_debit(balances@, currency@, fee),
{
    let ghost orig = balances@;
    match find_currency(&balances, currency) {
        None => {
            proof {
                lemma_debit_no_match(orig, currency@, fee);
            }
            balances
        },
        Some(k) => {
            proof {
                lemma_balance_skip_prefix(orig, currency@, k as int);
                assert(orig.skip(k as int)[0] == orig[k as int]);
                assert(spec_balance_in(orig.skip(k as int), currency@) == orig[k as int].amount);
                assert(fee <= orig[k as int].amount);
                lemma_debit_update(orig, currency@, fee, k as int);
            }
            let mut out: Vec<BalanceEntry> = Vec::new();
            let ghost target = spec_debit(orig, currency@, fee);
            let mut i: usize = 0;
            while i < balances.len()
                invariant
                    i <= orig.len(),
                    balances@ == orig,
                    k < orig.len(),
                    fee <= orig[k as int].amount,
                    target == spec_debit(orig, currency@, fee),
                    target =~= orig.update(
                        k as int,
                        BalanceEntry {
                            currency_code: orig[k as int].currency_code,
                            amount: (orig[k as int].amount - fee) as u64,
                        },
                    ),
                    out@ =~= target.take(i as int),
                decreases orig.len() - i,
            {
                let code = clone_string(&balances[i].currency_code);
                if i == k {
                    out.push(BalanceEntry { currency_code: code, amount: balances[i].amount - fee });
                } else {
                    out.push(BalanceEntry { currency_code: code, amount: balances[i].amount });
                }
                proof {
                    assert(out@ =~= target.take(i as int + 1));
                }
                i = i + 1;
            }
            proof {
                assert(out@ =~= target);
            }
            out
        },
    }
}

/// A debit replaces the first matching entry with its debited copy and
/// keeps every other entry.
proof fn lemma_debit_update(balances: Seq<BalanceEntry>, currency: Seq<char>, fee: u64, k: int)
    requires
        0 <= k < balances.len(),
        balances[k].currency_code@ == currency,
        forall|j: int| 0 <= j < k ==> balances[j].currency_code@ != currency,
    ensures
        spec_debit(balances, currency, fee) =~= balances.update(
            k,
            BalanceEntry {
                currency_code: balances[k].currency_code,
                amount: (balances[k].amount - fee) as u64,
            },
        ),
    decreases k,
{
    if k == 0 {
        assert(spec_debit(balances, currency, fee) =~= balances.update(
            0,
            BalanceEntry {
                currency_code: balances[0].currency_code,
                amount: (balances[0].amount - fee) as u64,
            },
        ));
    } else {
        lemma_debit_update(balances.drop_first(), currency, fee, k - 1);
        let e = BalanceEntry {
            currency_code: balances[k].currency_code,
            amount: (balances[k].amount - fee) as u64,
        };
        assert(balances.drop_first()[k - 1] == balances[k]);
        assert(spec_debit(balances, currency, fee) =~= seq![balances[0]] + spec_debit(
            balances.drop_first(),
            currency,
            fee,
        ));
        assert(seq![balances[0]] + balances.drop_first().update(k - 1, e) =~= balances.update(
            k,
            e,
        ));
    }
}

/// A list with no entry under the currency is unchanged by a debit.
proof fn lemma_debit_no_match(balances: Seq<BalanceEntry>, currency: Seq<char>, fee: u64)
    requires
        forall|j: int| 0 <= j < balances.len() ==> balances[j].currency_code@ != currency,
    ensures
        spec_debit(balances, currency, fee) == balances,
    decreases balances.len(),
{
    if balances.len() > 0 {
        lemma_debit_no_match(balances.drop_first(), currency, fee);
        assert(spec_debit(balances, currency, fee) =~= balances);
    }
}

/// Where no entry before position `i` matches, the balance equals the
/// balance of the suffix from `i` on.
proof fn lemma_balance_skip_prefix(balances: Seq<BalanceEntry>, currency: Seq<char>, i: int)
    requires
        0 <= i <= balances.len(),
        forall|j: int| 0 <= j < i ==> balances[j].currency_code@ != currency,
    ensures
        spec_balance_in(balances, currency) == spec_balance_in(balances.skip(i), currency),
    decreases i,
{
    if i == 0 {
        assert(balances.skip(0) =~= balances);
    } else {
        assert(balances[0].currency_code@ != currency);
        assert(forall|j: int|
            0 <= j < i - 1 ==> balances.drop_first()[j] == balances[j + 1]);
        assert(balances.drop_first().skip(i - 1) =~= balances.skip(i));
        lemma_balance_skip_prefix(balances.drop_first(), currency, i - 1);
        assert(spec_balance_in(balances, currency) == spec_balance_in(
            balances.drop_first(),
            currency,
        ));
        assert(spec_balance_in(balances.drop_first(), currency) == spec_balance_in(
            balances.drop_first().skip(i - 1),
            currency,
        ));
    }
}

/// A copy of a string with the very same characters.
fn clone_string(s: &String) -> (r: String)
    ensures
        r == *s,
{
    s.clone()
}

} // verus!
