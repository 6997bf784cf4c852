//! A seeded generator of Smallbank workloads.
use vstd::prelude::*;

use crate::error::PlaylistError;
use crate::record::{create_account, create_account_of, RecordModel, TransactionRecord};

verus! {

#[verifier::external_type_specification]
#[verifier::external_body]
pub struct ExStdRng(rand::StdRng);

/// Relies on `rand::SeedableRng::from_seed` for `StdRng` with a one-word seed.
#[verifier::external_body]
fn seeded_rng(seed: i32) -> (r: rand::StdRng) {
    let v = vec![seed as usize];
    rand::SeedableRng::from_seed(&v[..])
}

/// Relies on `rand::StdRng::new`, which seeds from the operating system and
/// may fail.
#[verifier::external_body]
fn entropy_rng() -> (r: Option<rand::StdRng>) {
    rand::StdRng::new().ok()
}

/// Relies on `rand::Rng::gen_range`: a value in `[low, high)`; it panics
/// unless `low < high`.
#[verifier::external_body]
fn gen_range(rng: &mut rand::StdRng, low: u32, high: u32) -> (r: u32)
    requires
        low < high,
    ensures
        low <= r < high,
{
    rand::Rng::gen_range(rng, low, high)
}

/// Lower bound of generated amounts.
pub const MIN_AMOUNT: u32 = 10;

/// Exclusive upper bound of generated amounts.
pub const MAX_AMOUNT: u32 = 200;

/// Draws of the operation kind lie in `[FIRST_KIND, LAST_KIND)`.
pub const FIRST_KIND: u32 = 2;

pub const LAST_KIND: u32 = 7;

/// Redraws of a destination before falling back to a single shifted draw.
pub const MAX_REDRAWS: u32 = 64;

/// Whether `(num_accounts, num_transactions)` describe a workload that can be
/// generated: ids fit in 32 bits, and transfers can pick two distinct accounts.
pub open spec fn valid_config(num_accounts: usize, num_transactions: usize) -> bool {
    num_accounts <= u32::MAX && (num_transactions > 0 ==> num_accounts >= 2)
}

/// A generated operation record over `num_accounts` accounts: every id is an
/// existing account, amounts lie in `[10, 200)`, and the two parties of a
/// transfer differ.
pub open spec fn valid_operation(r: RecordModel, num_accounts: nat) -> bool {
    match r {
        RecordModel::CreateAccount { .. } => false,
        RecordModel::DepositChecking { customer_id, amount } => customer_id < num_accounts
            && MIN_AMOUNT <= amount < MAX_AMOUNT,
        RecordModel::WriteCheck { customer_id, amount } => customer_id < num_accounts
            && MIN_AMOUNT <= amount < MAX_AMOUNT,
        RecordModel::TransactSavings { customer_id, amount } => customer_id < num_accounts
            && MIN_AMOUNT <= amount < MAX_AMOUNT,
        RecordModel::SendPayment { source_customer_id, dest_customer_id, amount } =>
            source_customer_id < num_accounts && dest_customer_id < num_accounts
                && source_customer_id != dest_customer_id && MIN_AMOUNT <= amount < MAX_AMOUNT,
        RecordModel::Amalgamate { source_customer_id, dest_customer_id } => source_customer_id
            < num_accounts && dest_customer_id < num_accounts && source_customer_id
            != dest_customer_id,
    }
}

/// The operation record that a set of draws selects: `kind` picks the variant
/// (2 deposit, 3 check, 4 savings, 5 payment, 6 amalgamate).
pub open spec fn operation_of(kind: u32, source: u32, dest: u32, amount: u32) -> RecordModel {
    if kind == 2 {
        RecordModel::DepositChecking { customer_id: source, amount }
    } else if kind == 3 {
        RecordModel::WriteCheck { customer_id: source, amount }
    } else if kind == 4 {
        RecordModel::TransactSavings { customer_id: source, amount: amount as i32 }
    } else if kind == 5 {
        RecordModel::SendPayment { source_customer_id: source, dest_customer_id: dest, amount }
    } else {
        RecordModel::Amalgamate { source_customer_id: source, dest_customer_id: dest }
    }
}

/// Builds the operation record that a set of draws selects.
pub fn transaction_from_draws(kind: u32, source: u32, dest: u32, amount: u32) -> (r:
    TransactionRecord)
    requires
        FIRST_KIND <= kind < LAST_KIND,
        amount <= i32::MAX,
    ensures
        r@ == operation_of(kind, source, dest, amount),
{
    if kind == 2 {
        TransactionRecord::DepositChecking { customer_id: source, amount }
    } else if kind == 3 {
        TransactionRecord::WriteCheck { customer_id: source, amount }
    } else if kind == 4 {
        TransactionRecord::TransactSavings { customer_id: source, amount: amount as i32 }
    } else if kind == 5 {
        TransactionRecord::SendPayment { source_customer_id: source, dest_customer_id: dest, amount }
    } else {
        TransactionRecord::Amalgamate { source_customer_id: source, dest_customer_id: dest }
    }
}

/// Draws an account in `[0, max)` other than `exclude`, by rejection
/// sampling. Each draw succeeds with probability `(max - 1) / max`, so the
/// expected number of draws is `max / (max - 1)`. After `MAX_REDRAWS` failed
/// draws one draw from `[0, max - 1)` shifted past `exclude` decides, which is
/// uniform over the same accounts.
pub fn next_non_matching_in_range(rng: &mut rand::StdRng, max: u32, exclude: u32) -> (r: u32)
    requires
        2 <= max,
        exclude < max,
    ensures
        r < max,
        r != exclude,
{
    let mut selected = exclude;
    let mut tries: u32 = 0;
    while selected == exclude && tries < MAX_REDRAWS
        invariant
            selected < max,
            tries <= MAX_REDRAWS,
            2 <= max,
            exclude < max,
        decreases MAX_REDRAWS - tries,
    {
        selected = gen_range(rng, 0, max);
        tries = tries + 1;
    }
    if selected == exclude {
        let drawn = gen_range(rng, 0, max - 1);
        if drawn >= exclude {
            drawn + 1
        } else {
            drawn
        }
    } else {
        selected
    }
}

/// Generates `num_accounts` account creations, then `num_transactions`
/// random operations over those accounts.
pub struct SmallbankGeneratingIter {
    num_accounts: usize,
    current_account: usize,
    num_transactions: usize,
    current_transaction: usize,
    rng: rand::StdRng,
}

impl SmallbankGeneratingIter {
    pub closed spec fn wf(&self) -> bool {
        &&& valid_config(self.num_accounts, self.num_transactions)
        &&& self.current_account <= self.num_accounts
        &&& self.current_transaction <= self.num_transactions
        &&& self.current_transaction > 0 ==> self.current_account == self.num_accounts
    }

    pub closed spec fn accounts(&self) -> nat {
        self.num_accounts as nat
    }

    pub closed spec fn transactions(&self) -> nat {
        self.num_transactions as nat
    }

    /// How many records have been produced so far.
    pub closed spec fn produced(&self) -> nat {
        (self.current_account + self.current_transaction) as nat
    }

    /// How many records the generator produces in all.
    pub open spec fn total(&self) -> nat {
        self.accounts() + self.transactions()
    }

    /// The next record, or `None` once all have been produced. Records at
    /// positions below `num_accounts` create the accounts in order; later
    /// ones are random operations over them.
    pub fn next(&mut self) -> (r: Option<TransactionRecord>)
        requires
            old(self).wf(),
        ensures
            final(self).wf(),
            final(self).accounts() == old(self).accounts(),
            final(self).transactions() == old(self).transactions(),
            old(self).produced() < old(self).total() ==> {
                &&& r is Some
                &&& final(self).produced() == old(self).produced() + 1
                &&& old(self).produced() < old(self).accounts() ==> r->0@ == create_account_of(
                    old(self).produced() as u32,
                )
                &&& old(self).produced() >= old(self).accounts() ==> valid_operation(
                    r->0@,
                    old(self).accounts(),
                )
            },
            old(self).produced() >= old(self).total() ==> r is None && final(self).produced()
                == old(self).produced(),
    {
        if self.current_account < self.num_accounts {
            let rec = create_account(self.current_account as u32);
            self.current_account = self.current_account + 1;
            Some(rec)
        } else if self.current_transaction < self.num_transactions {
            let n = self.num_accounts as u32;
            let kind = gen_range(&mut self.rng, FIRST_KIND, LAST_KIND);
            let source = gen_range(&mut self.rng, 0, n);
            let mut dest = source;
            if kind == 5 || kind == 6 {
                dest = next_non_matching_in_range(&mut self.rng, n, source);
            }
            let mut amount: u32 = 0;
            if kind != 6 {
                amount = gen_range(&mut self.rng, MIN_AMOUNT, MAX_AMOUNT);
            }
            let rec = transaction_from_draws(kind, source, dest, amount);
            self.current_transaction = self.current_transaction + 1;
            Some(rec)
        } else {
            None
        }
    }
}

/// A generator for `num_accounts` accounts and `num_transactions` operations,
/// seeded from `seed` when one is given and from the operating system
/// otherwise.
pub fn create_smallbank_playlist(num_accounts: usize, num_transactions: usize, seed: Option<i32>) -> (r:
    Result<SmallbankGeneratingIter, PlaylistError>)
    ensures
        !valid_config(num_accounts, num_transactions) ==> r == Err::<
            SmallbankGeneratingIter,
            PlaylistError,
        >(PlaylistError::InvalidConfiguration),
        valid_config(num_accounts, num_transactions) && seed is Some ==> r is Ok,
        r is Err ==> r->Err_0 == PlaylistError::InvalidConfiguration || (seed is None
            && r->Err_0 is IoError),
        r matches Ok(g) ==> {
            &&& g.wf()
            &&& g.accounts() == num_accounts
            &&& g.transactions() == num_transactions
            &&& g.produced() == 0
        },
{
    if num_accounts > u32::MAX as usize || (num_transactions > 0 && num_accounts < 2) {
        return Err(PlaylistError::InvalidConfiguration);
    }
    let rng = match seed {
        Some(s) => seeded_rng(s),
        None => match entropy_rng() {
            Some(g) => g,
            None => {
                return Err(
                    PlaylistError::IoError(String::from_str("no operating system randomness")),
                );
            },
        },
    };
    Ok(
        SmallbankGeneratingIter {
            num_accounts,
            current_account: 0,
            num_transactions,
            current_transaction: 0,
            rng,
        },
    )
}

/// A complete playlist for `num_accounts` accounts and `num_transactions`
/// operations: the account creations for ids `0..num_accounts` in order,
/// then valid operations over those accounts.
pub open spec fn valid_playlist(recs: Seq<RecordModel>, num_accounts: nat, num_transactions: nat) -> bool {
    &&& recs.len() == num_accounts + num_transactions
    &&& forall|i: int| 0 <= i < num_accounts ==> #[trigger] recs[i] == create_account_of(i as u32)
    &&& forall|i: int| num_accounts <= i < recs.len() ==> valid_operation(#[trigger] recs[i], num_accounts)
}

pub open spec fn records_view(v: Seq<TransactionRecord>) -> Seq<RecordModel> {
    v.map_values(|r: TransactionRecord| r@)
}

/// Runs a generator to the end and collects its records.
pub fn generate_records(num_accounts: usize, num_transactions: usize, seed: Option<i32>) -> (r:
    Result<Vec<TransactionRecord>, PlaylistError>)
    requires
        num_accounts + num_transactions <= usize::MAX,
    ensures
        !valid_config(num_accounts, num_transactions) ==> r == Err::<
            Vec<TransactionRecord>,
            PlaylistError,
        >(PlaylistError::InvalidConfiguration),
        valid_config(num_accounts, num_transactions) && seed is Some ==> r is Ok,
        r is Err ==> r->Err_0 == PlaylistError::InvalidConfiguration || (seed is None
            && r->Err_0 is IoError),
        r matches Ok(v) ==> valid_playlist(
            records_view(v@),
            num_accounts as nat,
            num_transactions as nat,
        ),
{
    let mut gen = match create_smallbank_playlist(num_accounts, num_transactions, seed) {
        Ok(g) => g,
        Err(e) => {
            return Err(e);
        },
    };
    let total = num_accounts + num_transactions;
    let mut out: Vec<TransactionRecord> = Vec::new();
    let mut k: usize = 0;
    while k < total
        invariant
            gen.wf(),
            gen.accounts() == num_accounts,
            gen.transactions() == num_transactions,
            total == num_accounts + num_transactions,
            gen.produced() == k,
            k <= total,
            out@.len() == k,
            forall|i: int| 0 <= i < k && i < num_accounts ==> #[trigger] out@[i]@ == create_account_of(i as u32),
            forall|i: int| num_accounts <= i < k ==> valid_operation(#[trigger] out@[i]@, num_accounts as nat),
        decreases total - k,
    {
        let rec = gen.next();
        match rec {
            Some(x) => {
                out.push(x);
            },
            None => {
                return Err(PlaylistError::InvalidConfiguration);
            },
        }
        k = k + 1;
    }
    assert(valid_playlist(records_view(out@), num_accounts as nat, num_transactions as nat));
    Ok(out)
}

} // verus!
