//! Smallbank transaction records and their mathematical model.
use vstd::prelude::*;

use crate::address::push_char;

verus! {

/// Initial savings and checking balance of every created account.
pub const INITIAL_BALANCE: u32 = 1000000;

/// Width to which customer numbers are zero-padded in generated names.
pub const NAME_DIGITS: usize = 6;

/// One Smallbank operation, carrying only the fields it needs.
#[derive(Debug, Clone)]
pub enum TransactionRecord {
    CreateAccount {
        customer_id: u32,
        customer_name: String,
        initial_savings_balance: u32,
        initial_checking_balance: u32,
    },
    DepositChecking { customer_id: u32, amount: u32 },
    WriteCheck { customer_id: u32, amount: u32 },
    TransactSavings { customer_id: u32, amount: i32 },
    SendPayment { source_customer_id: u32, dest_customer_id: u32, amount: u32 },
    Amalgamate { source_customer_id: u32, dest_customer_id: u32 },
}

/// The value of a [`TransactionRecord`], with the name as a character sequence.
pub enum RecordModel {
    CreateAccount {
        customer_id: u32,
        customer_name: Seq<char>,
        initial_savings_balance: u32,
        initial_checking_balance: u32,
    },
    DepositChecking { customer_id: u32, amount: u32 },
    WriteCheck { customer_id: u32, amount: u32 },
    TransactSavings { customer_id: u32, amount: i32 },
    SendPayment { source_customer_id: u32, dest_customer_id: u32, amount: u32 },
    Amalgamate { source_customer_id: u32, dest_customer_id: u32 },
}

impl View for TransactionRecord {
    type V = RecordModel;

    open spec fn view(&self) -> RecordModel {
        match self {
            TransactionRecord::CreateAccount {
                customer_id,
                customer_name,
                initial_savings_balance,
                initial_checking_balance,
            } => RecordModel::CreateAccount {
                customer_id: *customer_id,
                customer_name: customer_name@,
                initial_savings_balance: *initial_savings_balance,
                initial_checking_balance: *initial_checking_balance,
            },
            TransactionRecord::DepositChecking { customer_id, amount } => RecordModel::DepositChecking {
                customer_id: *customer_id,
                amount: *amount,
            },
            TransactionRecord::WriteCheck { customer_id, amount } => RecordModel::WriteCheck {
                customer_id: *customer_id,
                amount: *amount,
            },
            TransactionRecord::TransactSavings { customer_id, amount } => RecordModel::TransactSavings {
                customer_id: *customer_id,
                amount: *amount,
            },
            TransactionRecord::SendPayment { source_customer_id, dest_customer_id, amount } =>
                RecordModel::SendPayment {
                source_customer_id: *source_customer_id,
                dest_customer_id: *dest_customer_id,
                amount: *amount,
            },
            TransactionRecord::Amalgamate { source_customer_id, dest_customer_id } =>
                RecordModel::Amalgamate {
                source_customer_id: *source_customer_id,
                dest_customer_id: *dest_customer_id,
            },
        }
    }
}

/// The customer ids a record refers to, source first.
pub open spec fn customer_ids(r: RecordModel) -> Seq<u32> {
    match r {
        RecordModel::CreateAccount { customer_id, .. } => seq![customer_id],
        RecordModel::DepositChecking { customer_id, .. } => seq![customer_id],
        RecordModel::WriteCheck { customer_id, .. } => seq![customer_id],
        RecordModel::TransactSavings { customer_id, .. } => seq![customer_id],
        RecordModel::SendPayment { source_customer_id, dest_customer_id, .. } => seq![
            source_customer_id,
            dest_customer_id,
        ],
        RecordModel::Amalgamate { source_customer_id, dest_customer_id } => seq![
            source_customer_id,
            dest_customer_id,
        ],
    }
}

/// The decimal digits of `n`, without leading zeros.
pub open spec fn decimal_digits(n: nat) -> Seq<char>
    decreases n,
{
    if n < 10 {
        seq![((48 + n) as u8) as char]
    } else {
        decimal_digits(n / 10).push(((48 + n % 10) as u8) as char)
    }
}

/// `s` preceded by enough zeros to make it at least `width` long.
pub open spec fn zero_padded(s: Seq<char>, width: nat) -> Seq<char> {
    if s.len() < width {
        Seq::new((width - s.len()) as nat, |i: int| '0') + s
    } else {
        s
    }
}

pub open spec fn name_prefix() -> Seq<char> {
    seq!['c', 'u', 's', 't', 'o', 'm', 'e', 'r', '_']
}

/// The generated name of a customer: `customer_` and the id, six digits wide.
pub open spec fn customer_name_of(customer_id: u32) -> Seq<char> {
    name_prefix() + zero_padded(decimal_digits(customer_id as nat), NAME_DIGITS as nat)
}

/// The account-creation record the generator emits for a customer.
pub open spec fn create_account_of(customer_id: u32) -> RecordModel {
    RecordModel::CreateAccount {
        customer_id,
        customer_name: customer_name_of(customer_id),
        initial_savings_balance: INITIAL_BALANCE,
        initial_checking_balance: INITIAL_BALANCE,
    }
}

fn decimal_len(n: u32) -> (r: usize)
    ensures
        r == decimal_digits(n as nat).len(),
        r <= n as nat + 1,
    decreases n,
{
    if n < 10 {
        1
    } else {
        1 + decimal_len(n / 10)
    }
}

/// Appends the decimal digits of `n`.
pub(crate) fn push_decimal_digits(s: &mut String, n: u64)
    ensures
        final(s)@ == old(s)@ + decimal_digits(n as nat),
    decreases n,
{
    if n >= 10 {
        push_decimal_digits(s, n / 10);
    }
    push_char(s, ((48 + n % 10) as u8) as char);
    assert(final(s)@ =~= old(s)@ + decimal_digits(n as nat));
}

/// The name given to a generated customer, e.g. `customer_000042`.
pub fn customer_name(customer_id: u32) -> (r: String)
    ensures
        r@ == customer_name_of(customer_id),
{
    let mut s = String::new();
    push_char(&mut s, 'c');
    push_char(&mut s, 'u');
    push_char(&mut s, 's');
    push_char(&mut s, 't');
    push_char(&mut s, 'o');
    push_char(&mut s, 'm');
    push_char(&mut s, 'e');
    push_char(&mut s, 'r');
    push_char(&mut s, '_');
    assert(s@ =~= name_prefix());
    let len = decimal_len(customer_id);
    let mut k: usize = len;
    while k < NAME_DIGITS
        invariant
            len <= k <= NAME_DIGITS || (k == len && len >= NAME_DIGITS),
            len == decimal_digits(customer_id as nat).len(),
            s@ =~= name_prefix() + Seq::new((k - len) as nat, |i: int| '0'),
        decreases NAME_DIGITS - k,
    {
        push_char(&mut s, '0');
        k = k + 1;
    }
    push_decimal_digits(&mut s, customer_id as u64);
    assert(s@ =~= customer_name_of(customer_id));
    s
}

/// Builds the account-creation record for a customer.
pub fn create_account(customer_id: u32) -> (r: TransactionRecord)
    ensures
        r@ == create_account_of(customer_id),
{
    TransactionRecord::CreateAccount {
        customer_id,
        customer_name: customer_name(customer_id),
        initial_savings_balance: INITIAL_BALANCE,
        initial_checking_balance: INITIAL_BALANCE,
    }
}

} // verus!
