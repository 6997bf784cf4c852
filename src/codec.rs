//! The structured-text form of a playlist: an array of maps from field names
//! to integers or strings, one map per record.
use vstd::prelude::*;

use crate::error::DecodeError;
use crate::generator::records_view;
use crate::record::{RecordModel, TransactionRecord};
use vstd::string::StringExecFns;

verus! {

/// A value in a playlist document.
#[derive(Debug, Clone)]
pub enum DocValue {
    Integer(i64),
    Text(String),
    /// Any value that is neither an integer nor a string.
    Other,
}

/// One element of a playlist document.
#[derive(Debug, Clone)]
pub enum DocNode {
    /// A map, as its entries with string keys, in document order.
    Entries(Vec<(String, DocValue)>),
    /// Any element that is not a map.
    Other,
}

pub enum ValueModel {
    Integer(i64),
    Text(Seq<char>),
    Other,
}

pub enum NodeModel {
    Entries(Seq<(Seq<char>, ValueModel)>),
    Other,
}

pub enum DecodeErrorModel {
    NotAMap,
    MissingTransactionType,
    UnknownTransactionType(Seq<char>),
    MissingField(Seq<char>),
    TypeMismatch(Seq<char>),
}

impl View for DocValue {
    type V = ValueModel;

    open spec fn view(&self) -> ValueModel {
        match self {
            DocValue::Integer(i) => ValueModel::Integer(*i),
            DocValue::Text(s) => ValueModel::Text(s@),
            DocValue::Other => ValueModel::Other,
        }
    }
}

pub open spec fn fields_view(f: Seq<(String, DocValue)>) -> Seq<(Seq<char>, ValueModel)> {
    f.map_values(|p: (String, DocValue)| (p.0@, p.1@))
}

impl View for DocNode {
    type V = NodeModel;

    open spec fn view(&self) -> NodeModel {
        match self {
            DocNode::Entries(f) => NodeModel::Entries(fields_view(f@)),
            DocNode::Other => NodeModel::Other,
        }
    }
}

impl View for DecodeError {
    type V = DecodeErrorModel;

    open spec fn view(&self) -> DecodeErrorModel {
        match self {
            DecodeError::NotAMap => DecodeErrorModel::NotAMap,
            DecodeError::MissingTransactionType => DecodeErrorModel::MissingTransactionType,
            DecodeError::UnknownTransactionType(s) => DecodeErrorModel::UnknownTransactionType(s@),
            DecodeError::MissingField(s) => DecodeErrorModel::MissingField(s@),
            DecodeError::TypeMismatch(s) => DecodeErrorModel::TypeMismatch(s@),
        }
    }
}

pub open spec fn nodes_view(v: Seq<DocNode>) -> Seq<NodeModel> {
    v.map_values(|n: DocNode| n@)
}

/// The value of the first entry with key `key`.
pub open spec fn lookup(f: Seq<(Seq<char>, ValueModel)>, key: Seq<char>) -> Option<ValueModel>
    decreases f.len(),
{
    if f.len() == 0 {
        None
    } else if f[0].0 == key {
        Some(f[0].1)
    } else {
        lookup(f.drop_first(), key)
    }
}

pub open spec fn u32_field(f: Seq<(Seq<char>, ValueModel)>, key: Seq<char>) -> Result<u32, DecodeErrorModel> {
    match lookup(f, key) {
        None => Err(DecodeErrorModel::MissingField(key)),
        Some(ValueModel::Integer(v)) => if 0 <= v <= u32::MAX {
            Ok(v as u32)
        } else {
            Err(DecodeErrorModel::TypeMismatch(key))
        },
        Some(_) => Err(DecodeErrorModel::TypeMismatch(key)),
    }
}

pub open spec fn i32_field(f: Seq<(Seq<char>, ValueModel)>, key: Seq<char>) -> Result<i32, DecodeErrorModel> {
    match lookup(f, key) {
        None => Err(DecodeErrorModel::MissingField(key)),
        Some(ValueModel::Integer(v)) => if i32::MIN <= v <= i32::MAX {
            Ok(v as i32)
        } else {
            Err(DecodeErrorModel::TypeMismatch(key))
        },
        Some(_) => Err(DecodeErrorModel::TypeMismatch(key)),
    }
}

pub open spec fn text_field(f: Seq<(Seq<char>, ValueModel)>, key: Seq<char>) -> Result<Seq<char>, DecodeErrorModel> {
    match lookup(f, key) {
        None => Err(DecodeErrorModel::MissingField(key)),
        Some(ValueModel::Text(s)) => Ok(s),
        Some(_) => Err(DecodeErrorModel::TypeMismatch(key)),
    }
}

pub open spec fn decode_fields(f: Seq<(Seq<char>, ValueModel)>) -> Result<RecordModel, DecodeErrorModel> {
    match lookup(f, "transaction_type"@) {
        None => Err(DecodeErrorModel::MissingTransactionType),
        Some(ValueModel::Text(t)) => if t == "create_account"@ {
            match (
                u32_field(f, "customer_id"@),
                text_field(f, "customer_name"@),
                u32_field(f, "initial_savings_balance"@),
                u32_field(f, "initial_checking_balance"@),
            ) {
                (Ok(a), Ok(b), Ok(c), Ok(d)) => Ok(
                    RecordModel::CreateAccount {
                        customer_id: a,
                        customer_name: b,
                        initial_savings_balance: c,
                        initial_checking_balance: d,
                    },
                ),
                (Err(e), _, _, _) => Err(e),
                (_, Err(e), _, _) => Err(e),
                (_, _, Err(e), _) => Err(e),
                (_, _, _, Err(e)) => Err(e),
            }
        } else if t == "deposit_checking"@ {
            match (u32_field(f, "customer_id"@), u32_field(f, "amount"@)) {
                (Ok(a), Ok(b)) => Ok(RecordModel::DepositChecking { customer_id: a, amount: b }),
                (Err(e), _) => Err(e),
                (_, Err(e)) => Err(e),
            }
        } else if t == "write_check"@ {
            match (u32_field(f, "customer_id"@), u32_field(f, "amount"@)) {
                (Ok(a), Ok(b)) => Ok(RecordModel::WriteCheck { customer_id: a, amount: b }),
                (Err(e), _) => Err(e),
                (_, Err(e)) => Err(e),
            }
        } else if t == "transact_savings"@ {
            match (u32_field(f, "customer_id"@), i32_field(f, "amount"@)) {
                (Ok(a), Ok(b)) => Ok(RecordModel::TransactSavings { customer_id: a, amount: b }),
                (Err(e), _) => Err(e),
                (_, Err(e)) => Err(e),
            }
        } else if t == "send_payment"@ {
            match (
                u32_field(f, "source_customer_id"@),
                u32_field(f, "dest_customer_id"@),
                u32_field(f, "amount"@),
            ) {
                (Ok(a), Ok(b), Ok(c)) => Ok(
                    RecordModel::SendPayment {
                        source_customer_id: a,
                        dest_customer_id: b,
                        amount: c,
                    },
                ),
                (Err(e), _, _) => Err(e),
                (_, Err(e), _) => Err(e),
                (_, _, Err(e)) => Err(e),
            }
        } else if t == "amalgamate"@ {
            match (u32_field(f, "source_customer_id"@), u32_field(f, "dest_customer_id"@)) {
                (Ok(a), Ok(b)) => Ok(
                    RecordModel::Amalgamate { source_customer_id: a, dest_customer_id: b },
                ),
                (Err(e), _) => Err(e),
                (_, Err(e)) => Err(e),
            }
        } else {
            Err(DecodeErrorModel::UnknownTransactionType(t))
        },
        Some(_) => Err(DecodeErrorModel::TypeMismatch("transaction_type"@)),
    }
}

/// The record one document element describes, or why it describes none.
pub open spec fn decode_node(n: NodeModel) -> Result<RecordModel, DecodeErrorModel> {
    match n {
        NodeModel::Entries(f) => decode_fields(f),
        NodeModel::Other => Err(DecodeErrorModel::NotAMap),
    }
}

/// The records a document describes, or the error of its first bad element.
pub open spec fn decode_all(s: Seq<NodeModel>) -> Result<Seq<RecordModel>, DecodeErrorModel>
    decreases s.len(),
{
    if s.len() == 0 {
        Ok(Seq::empty())
    } else {
        match decode_all(s.drop_last()) {
            Err(e) => Err(e),
            Ok(rs) => match decode_node(s.last()) {
                Ok(r) => Ok(rs.push(r)),
                Err(e) => Err(e),
            },
        }
    }
}

/// The document element a record is written as: `transaction_type` first,
/// then the record's fields in declaration order.
pub open spec fn encode_record(r: RecordModel) -> NodeModel {
    match r {
        RecordModel::CreateAccount {
            customer_id,
            customer_name,
            initial_savings_balance,
            initial_checking_balance,
        } => NodeModel::Entries(
            seq![
                ("transaction_type"@, ValueModel::Text("create_account"@)),
                ("customer_id"@, ValueModel::Integer(customer_id as i64)),
                ("customer_name"@, ValueModel::Text(customer_name)),
                ("initial_savings_balance"@, ValueModel::Integer(initial_savings_balance as i64)),
                ("initial_checking_balance"@, ValueModel::Integer(initial_checking_balance as i64)),
            ],
        ),
        RecordModel::DepositChecking { customer_id, amount } => NodeModel::Entries(
            seq![
                ("transaction_type"@, ValueModel::Text("deposit_checking"@)),
                ("customer_id"@, ValueModel::Integer(customer_id as i64)),
                ("amount"@, ValueModel::Integer(amount as i64)),
            ],
        ),
        RecordModel::WriteCheck { customer_id, amount } => NodeModel::Entries(
            seq![
                ("transaction_type"@, ValueModel::Text("write_check"@)),
                ("customer_id"@, ValueModel::Integer(customer_id as i64)),
                ("amount"@, ValueModel::Integer(amount as i64)),
            ],
        ),
        RecordModel::TransactSavings { customer_id, amount } => NodeModel::Entries(
            seq![
                ("transaction_type"@, ValueModel::Text("transact_savings"@)),
                ("customer_id"@, ValueModel::Integer(customer_id as i64)),
                ("amount"@, ValueModel::Integer(amount as i64)),
            ],
        ),
        RecordModel::SendPayment { source_customer_id, dest_customer_id, amount } =>
            NodeModel::Entries(
            seq![
                ("transaction_type"@, ValueModel::Text("send_payment"@)),
                ("source_customer_id"@, ValueModel::Integer(source_customer_id as i64)),
                ("dest_customer_id"@, ValueModel::Integer(dest_customer_id as i64)),
                ("amount"@, ValueModel::Integer(amount as i64)),
            ],
        ),
        RecordModel::Amalgamate { source_customer_id, dest_customer_id } => NodeModel::Entries(
            seq![
                ("transaction_type"@, ValueModel::Text("amalgamate"@)),
                ("source_customer_id"@, ValueModel::Integer(source_customer_id as i64)),
                ("dest_customer_id"@, ValueModel::Integer(dest_customer_id as i64)),
            ],
        ),
    }
}

pub open spec fn encode_all(rs: Seq<RecordModel>) -> Seq<NodeModel> {
    rs.map_values(|r: RecordModel| encode_record(r))
}

pub open spec fn result_view<T>(r: Result<T, DecodeError>) -> Result<T, DecodeErrorModel> {
    match r {
        Ok(v) => Ok(v),
        Err(e) => Err(e@),
    }
}

fn text(s: &str) -> (r: String)
    ensures
        r@ == s@,
{
    String::from_str(s)
}

/// The value of the first entry of `fields` whose key is `key`.
fn find_field<'a>(fields: &'a Vec<(String, DocValue)>, key: &str) -> (r: Option<&'a DocValue>)
    ensures
        match lookup(fields_view(fields@), key@) {
            None => r is None,
            Some(v) => r matches Some(x) && x@ == v,
        },
{
    let ghost fv = fields_view(fields@);
    let k = text(key);
    let mut i: usize = 0;
    assert(fv.skip(0) =~= fv);
    while i < fields.len()
        invariant
            fv == fields_view(fields@),
            i <= fields@.len(),
            k@ == key@,
            lookup(fv, key@) == lookup(fv.skip(i as int), key@),
        decreases fields@.len() - i,
    {
        assert(fv.skip(i as int).drop_first() =~= fv.skip(i + 1));
        assert(fv.skip(i as int)[0] == fv[i as int]);
        if fields[i].0 == k {
            return Some(&fields[i].1);
        }
        i = i + 1;
    }
    None
}

fn get_u32(fields: &Vec<(String, DocValue)>, key: &str) -> (r: Result<u32, DecodeError>)
    ensures
        result_view(r) == u32_field(fields_view(fields@), key@),
{
    match find_field(fields, key) {
        None => Err(DecodeError::MissingField(text(key))),
        Some(DocValue::Integer(v)) => {
            if 0 <= *v && *v <= u32::MAX as i64 {
                Ok(*v as u32)
            } else {
                Err(DecodeError::TypeMismatch(text(key)))
            }
        },
        Some(_) => Err(DecodeError::TypeMismatch(text(key))),
    }
}

fn get_i32(fields: &Vec<(String, DocValue)>, key: &str) -> (r: Result<i32, DecodeError>)
    ensures
        result_view(r) == i32_field(fields_view(fields@), key@),
{
    match find_field(fields, key) {
        None => Err(DecodeError::MissingField(text(key))),
        Some(DocValue::Integer(v)) => {
            if i32::MIN as i64 <= *v && *v <= i32::MAX as i64 {
                Ok(*v as i32)
            } else {
                Err(DecodeError::TypeMismatch(text(key)))
            }
        },
        Some(_) => Err(DecodeError::TypeMismatch(text(key))),
    }
}

fn get_text(fields: &Vec<(String, DocValue)>, key: &str) -> (r: Result<String, DecodeError>)
    ensures
        match r {
            Ok(v) => text_field(fields_view(fields@), key@) == Ok::<Seq<char>, DecodeErrorModel>(v@),
            Err(e) => text_field(fields_view(fields@), key@) == Err::<Seq<char>, DecodeErrorModel>(e@),
        },
{
    match find_field(fields, key) {
        None => Err(DecodeError::MissingField(text(key))),
        Some(DocValue::Text(v)) => Ok(v.clone()),
        Some(_) => Err(DecodeError::TypeMismatch(text(key))),
    }
}

/// The record one document element describes, or why it describes none.
pub fn record_from_node(node: &DocNode) -> (r: Result<TransactionRecord, DecodeError>)
    ensures
        match r {
            Ok(x) => decode_node(node@) == Ok::<RecordModel, DecodeErrorModel>(x@),
            Err(e) => decode_node(node@) == Err::<RecordModel, DecodeErrorModel>(e@),
        },
{
    let f = match node {
        DocNode::Entries(f) => f,
        DocNode::Other => {
            return Err(DecodeError::NotAMap);
        },
    };
    let t = match find_field(f, "transaction_type") {
        None => {
            return Err(DecodeError::MissingTransactionType);
        },
        Some(DocValue::Text(t)) => t,
        Some(_) => {
            return Err(DecodeError::TypeMismatch(text("transaction_type")));
        },
    };
    if *t == text("create_account") {
        let customer_id = match get_u32(f, "customer_id") {
            Ok(v) => v,
            Err(e) => return Err(e),
        };
        let customer_name = match get_text(f, "customer_name") {
            Ok(v) => v,
            Err(e) => return Err(e),
        };
        let initial_savings_balance = match get_u32(f, "initial_savings_balance") {
            Ok(v) => v,
            Err(e) => return Err(e),
        };
        let initial_checking_balance = match get_u32(f, "initial_checking_balance") {
            Ok(v) => v,
            Err(e) => return Err(e),
        };
        Ok(
            TransactionRecord::CreateAccount {
                customer_id,
                customer_name,
                initial_savings_balance,
                initial_checking_balance,
            },
        )
    } else if *t == text("deposit_checking") {
        let customer_id = match get_u32(f, "customer_id") {
            Ok(v) => v,
            Err(e) => return Err(e),
        };
        let amount = match get_u32(f, "amount") {
            Ok(v) => v,
            Err(e) => return Err(e),
        };
        Ok(TransactionRecord::DepositChecking { customer_id, amount })
    } else if *t == text("write_check") {
        let customer_id = match get_u32(f, "customer_id") {
            Ok(v) => v,
            Err(e) => return Err(e),
        };
        let amount = match get_u32(f, "amount") {
            Ok(v) => v,
            Err(e) => return Err(e),
        };
        Ok(TransactionRecord::WriteCheck { customer_id, amount })
    } else if *t == text("transact_savings") {
        let customer_id = match get_u32(f, "customer_id") {
            Ok(v) => v,
            Err(e) => return Err(e),
        };
        let amount = match get_i32(f, "amount") {
            Ok(v) => v,
            Err(e) => return Err(e),
        };
        Ok(TransactionRecord::TransactSavings { customer_id, amount })
    } else if *t == text("send_payment") {
        let source_customer_id = match get_u32(f, "source_customer_id") {
            Ok(v) => v,
            Err(e) => return Err(e),
        };
        let dest_customer_id = match get_u32(f, "dest_customer_id") {
            Ok(v) => v,
            Err(e) => return Err(e),
        };
        let amount = match get_u32(f, "amount") {
            Ok(v) => v,
            Err(e) => return Err(e),
        };
        Ok(TransactionRecord::SendPayment { source_customer_id, dest_customer_id, amount })
    } else if *t == text("amalgamate") {
        let source_customer_id = match get_u32(f, "source_customer_id") {
            Ok(v) => v,
            Err(e) => return Err(e),
        };
        let dest_customer_id = match get_u32(f, "dest_customer_id") {
            Ok(v) => v,
            Err(e) => return Err(e),
        };
        Ok(TransactionRecord::Amalgamate { source_customer_id, dest_customer_id })
    } else {
        Err(DecodeError::UnknownTransactionType(t.clone()))
    }
}

/// An error among the first elements of a document is the document's error.
proof fn lemma_decode_prefix_error(s: Seq<NodeModel>, j: int)
    requires
        0 <= j <= s.len(),
        decode_all(s.take(j)) is Err,
    ensures
        decode_all(s) == decode_all(s.take(j)),
    decreases s.len() - j,
{
    if j < s.len() {
        assert(s.take(j + 1).drop_last() =~= s.take(j));
        lemma_decode_prefix_error(s, j + 1);
    } else {
        assert(s.take(j) =~= s);
    }
}

/// Decodes a whole document; fails with the error of its first bad element.
pub fn decode_records(doc: &Vec<DocNode>) -> (r: Result<Vec<TransactionRecord>, DecodeError>)
    ensures
        match r {
            Ok(v) => decode_all(nodes_view(doc@)) == Ok::<Seq<RecordModel>, DecodeErrorModel>(
                records_view(v@),
            ),
            Err(e) => decode_all(nodes_view(doc@)) == Err::<Seq<RecordModel>, DecodeErrorModel>(e@),
        },
{
    let ghost s = nodes_view(doc@);
    let mut out: Vec<TransactionRecord> = Vec::new();
    let mut i: usize = 0;
    assert(s.take(0) =~= Seq::<NodeModel>::empty());
    assert(records_view(out@) =~= Seq::<RecordModel>::empty());
    while i < doc.len()
        invariant
            s == nodes_view(doc@),
            i <= doc@.len(),
            decode_all(s.take(i as int)) == Ok::<Seq<RecordModel>, DecodeErrorModel>(
                records_view(out@),
            ),
        decreases doc@.len() - i,
    {
        assert(s.take(i + 1).drop_last() =~= s.take(i as int));
        assert(s.take(i + 1).last() == doc@[i as int]@);
        match record_from_node(&doc[i]) {
            Ok(x) => {
                let ghost before = out@;
                out.push(x);
                assert(records_view(out@) =~= records_view(before).push(x@));
            },
            Err(e) => {
                proof {
                    lemma_decode_prefix_error(s, i + 1);
                }
                return Err(e);
            },
        }
        i = i + 1;
    }
    assert(s.take(i as int) =~= s);
    Ok(out)
}

fn entry(key: &str, value: DocValue) -> (r: (String, DocValue))
    ensures
        r.0@ == key@,
        r.1 == value,
{
    (text(key), value)
}

/// The document element a record is written as.
pub fn record_to_node(rec: &TransactionRecord) -> (r: DocNode)
    ensures
        r@ == encode_record(rec@),
{
    let mut f: Vec<(String, DocValue)> = Vec::new();
    match rec {
        TransactionRecord::CreateAccount {
            customer_id,
            customer_name,
            initial_savings_balance,
            initial_checking_balance,
        } => {
            f.push(entry("transaction_type", DocValue::Text(text("create_account"))));
            f.push(entry("customer_id", DocValue::Integer(*customer_id as i64)));
            f.push(entry("customer_name", DocValue::Text(customer_name.clone())));
            f.push(
                entry("initial_savings_balance", DocValue::Integer(*initial_savings_balance as i64)),
            );
            f.push(
                entry(
                    "initial_checking_balance",
                    DocValue::Integer(*initial_checking_balance as i64),
                ),
            );
        },
        TransactionRecord::DepositChecking { customer_id, amount } => {
            f.push(entry("transaction_type", DocValue::Text(text("deposit_checking"))));
            f.push(entry("customer_id", DocValue::Integer(*customer_id as i64)));
            f.push(entry("amount", DocValue::Integer(*amount as i64)));
        },
        TransactionRecord::WriteCheck { customer_id, amount } => {
            f.push(entry("transaction_type", DocValue::Text(text("write_check"))));
            f.push(entry("customer_id", DocValue::Integer(*customer_id as i64)));
            f.push(entry("amount", DocValue::Integer(*amount as i64)));
        },
        TransactionRecord::TransactSavings { customer_id, amount } => {
            f.push(entry("transaction_type", DocValue::Text(text("transact_savings"))));
            f.push(entry("customer_id", DocValue::Integer(*customer_id as i64)));
            f.push(entry("amount", DocValue::Integer(*amount as i64)));
        },
        TransactionRecord::SendPayment { source_customer_id, dest_customer_id, amount } => {
            f.push(entry("transaction_type", DocValue::Text(text("send_payment"))));
            f.push(entry("source_customer_id", DocValue::Integer(*source_customer_id as i64)));
            f.push(entry("dest_customer_id", DocValue::Integer(*dest_customer_id as i64)));
            f.push(entry("amount", DocValue::Integer(*amount as i64)));
        },
        TransactionRecord::Amalgamate { source_customer_id, dest_customer_id } => {
            f.push(entry("transaction_type", DocValue::Text(text("amalgamate"))));
            f.push(entry("source_customer_id", DocValue::Integer(*source_customer_id as i64)));
            f.push(entry("dest_customer_id", DocValue::Integer(*dest_customer_id as i64)));
        },
    }
    proof {
        if let NodeModel::Entries(e) = encode_record(rec@) {
            assert(fields_view(f@) =~= e);
        }
    }
    DocNode::Entries(f)
}

/// Writes each record as one document element, in order.
pub fn encode_records(recs: &Vec<TransactionRecord>) -> (r: Vec<DocNode>)
    ensures
        nodes_view(r@) == encode_all(records_view(recs@)),
{
    let mut out: Vec<DocNode> = Vec::new();
    let mut i: usize = 0;
    while i < recs.len()
        invariant
            i <= recs@.len(),
            nodes_view(out@) =~= encode_all(records_view(recs@.take(i as int))),
        decreases recs@.len() - i,
    {
        let n = record_to_node(&recs[i]);
        let ghost before = out@;
        out.push(n);
        assert(recs@.take(i + 1) =~= recs@.take(i as int).push(recs@[i as int]));
        assert(records_view(recs@.take(i + 1)) =~= records_view(recs@.take(i as int)).push(
            recs@[i as int]@,
        ));
        assert(nodes_view(out@) =~= nodes_view(before).push(n@));
        i = i + 1;
    }
    assert(recs@.take(i as int) =~= recs@);
    out
}

proof fn lemma_literals_distinct()
    ensures
        "transaction_type"@ != "customer_id"@,
        "transaction_type"@ != "customer_name"@,
        "transaction_type"@ != "initial_savings_balance"@,
        "transaction_type"@ != "initial_checking_balance"@,
        "transaction_type"@ != "amount"@,
        "transaction_type"@ != "source_customer_id"@,
        "transaction_type"@ != "dest_customer_id"@,
        "customer_id"@ != "customer_name"@,
        "customer_id"@ != "initial_savings_balance"@,
        "customer_id"@ != "initial_checking_balance"@,
        "customer_id"@ != "amount"@,
        "customer_name"@ != "initial_savings_balance"@,
        "customer_name"@ != "initial_checking_balance"@,
        "initial_savings_balance"@ != "initial_checking_balance"@,
        "source_customer_id"@ != "dest_customer_id"@,
        "source_customer_id"@ != "amount"@,
        "dest_customer_id"@ != "amount"@,
        "create_account"@ != "deposit_checking"@,
        "create_account"@ != "write_check"@,
        "create_account"@ != "transact_savings"@,
        "create_account"@ != "send_payment"@,
        "create_account"@ != "amalgamate"@,
        "deposit_checking"@ != "write_check"@,
        "deposit_checking"@ != "transact_savings"@,
        "deposit_checking"@ != "send_payment"@,
        "deposit_checking"@ != "amalgamate"@,
        "write_check"@ != "transact_savings"@,
        "write_check"@ != "send_payment"@,
        "write_check"@ != "amalgamate"@,
        "transact_savings"@ != "send_payment"@,
        "transact_savings"@ != "amalgamate"@,
        "send_payment"@ != "amalgamate"@,
{
    reveal_strlit("transaction_type");
    reveal_strlit("customer_id");
    reveal_strlit("customer_name");
    reveal_strlit("initial_savings_balance");
    reveal_strlit("initial_checking_balance");
    reveal_strlit("amount");
    reveal_strlit("source_customer_id");
    reveal_strlit("dest_customer_id");
    reveal_strlit("create_account");
    reveal_strlit("deposit_checking");
    reveal_strlit("write_check");
    reveal_strlit("transact_savings");
    reveal_strlit("send_payment");
    reveal_strlit("amalgamate");
    assert("transaction_type"@.len() != "customer_id"@.len());
    assert("transaction_type"@.len() != "customer_name"@.len());
    assert("transaction_type"@.len() != "initial_savings_balance"@.len());
    assert("transaction_type"@.len() != "initial_checking_balance"@.len());
    assert("transaction_type"@.len() != "amount"@.len());
    assert("transaction_type"@.len() != "source_customer_id"@.len());
    assert("transaction_type"@[0] != "dest_customer_id"@[0]);
    assert("customer_id"@[9] != "customer_name"@[9]);
    assert("customer_id"@.len() != "initial_savings_balance"@.len());
    assert("customer_id"@.len() != "initial_checking_balance"@.len());
    assert("customer_id"@.len() != "amount"@.len());
    assert("customer_name"@.len() != "initial_savings_balance"@.len());
    assert("customer_name"@.len() != "initial_checking_balance"@.len());
    assert("initial_savings_balance"@.len() != "initial_checking_balance"@.len());
    assert("source_customer_id"@.len() != "dest_customer_id"@.len());
    assert("source_customer_id"@.len() != "amount"@.len());
    assert("dest_customer_id"@.len() != "amount"@.len());
    assert("create_account"@[0] != "deposit_checking"@[0]);
    assert("create_account"@[0] != "write_check"@[0]);
    assert("create_account"@[0] != "transact_savings"@[0]);
    assert("create_account"@[0] != "send_payment"@[0]);
    assert("create_account"@[0] != "amalgamate"@[0]);
    assert("deposit_checking"@[0] != "write_check"@[0]);
    assert("deposit_checking"@[0] != "transact_savings"@[0]);
    assert("deposit_checking"@[0] != "send_payment"@[0]);
    assert("deposit_checking"@[0] != "amalgamate"@[0]);
    assert("write_check"@[0] != "transact_savings"@[0]);
    assert("write_check"@[0] != "send_payment"@[0]);
    assert("write_check"@[0] != "amalgamate"@[0]);
    assert("transact_savings"@[0] != "send_payment"@[0]);
    assert("transact_savings"@[0] != "amalgamate"@[0]);
    assert("send_payment"@[0] != "amalgamate"@[0]);
}

/// Decoding the element a record is written as gives the record back.
pub proof fn lemma_decode_encode_record(r: RecordModel)
    ensures
        decode_node(encode_record(r)) == Ok::<RecordModel, DecodeErrorModel>(r),
{
    lemma_literals_distinct();
    reveal_with_fuel(lookup, 6);
}

/// Decoding the document a sequence of records is written as gives the
/// same records back, in order.
pub proof fn lemma_round_trip(rs: Seq<RecordModel>)
    ensures
        decode_all(encode_all(rs)) == Ok::<Seq<RecordModel>, DecodeErrorModel>(rs),
    decreases rs.len(),
{
    if rs.len() > 0 {
        lemma_round_trip(rs.drop_last());
        lemma_decode_encode_record(rs.last());
        assert(encode_all(rs).drop_last() =~= encode_all(rs.drop_last()));
        assert(rs.drop_last().push(rs.last()) =~= rs);
        assert(encode_all(rs).len() > 0);
        assert(encode_all(rs).last() == encode_record(rs.last()));
    } else {
        assert(encode_all(rs) =~= Seq::<NodeModel>::empty());
        assert(rs =~= Seq::<RecordModel>::empty());
    }
}

} // verus!
