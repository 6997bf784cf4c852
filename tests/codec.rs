use smallbank_workload::codec::{decode_records, encode_records, record_to_node, DocNode, DocValue};
use smallbank_workload::error::{DecodeError, PlaylistError};
use smallbank_workload::generator::generate_records;
use smallbank_workload::playlist::{generate_smallbank_playlist, records_from_document};
use smallbank_workload::record::TransactionRecord;

fn entry(key: &str, value: DocValue) -> (String, DocValue) {
    (key.to_string(), value)
}

fn text(s: &str) -> DocValue {
    DocValue::Text(s.to_string())
}

#[test]
fn decode_deposit_checking_and_reencode() {
    let doc = vec![DocNode::Entries(vec![
        entry("transaction_type", text("deposit_checking")),
        entry("customer_id", DocValue::Integer(5)),
        entry("amount", DocValue::Integer(50)),
    ])];
    let recs = decode_records(&doc).unwrap();
    assert_eq!(recs.len(), 1);
    match &recs[0] {
        TransactionRecord::DepositChecking { customer_id, amount } => {
            assert_eq!(*customer_id, 5);
            assert_eq!(*amount, 50);
        }
        other => panic!("unexpected record {:?}", other),
    }
    assert_eq!(format!("{:?}", encode_records(&recs)), format!("{:?}", doc));
}

#[test]
fn decode_unknown_type() {
    let doc = vec![DocNode::Entries(vec![entry("transaction_type", text("unknown_op"))])];
    assert_eq!(
        decode_records(&doc).unwrap_err(),
        DecodeError::UnknownTransactionType("unknown_op".to_string())
    );
    assert_eq!(
        records_from_document(&doc).unwrap_err(),
        PlaylistError::DecodeError(DecodeError::UnknownTransactionType("unknown_op".to_string()))
    );
}

#[test]
fn decode_missing_type() {
    let doc = vec![DocNode::Entries(vec![entry("customer_id", DocValue::Integer(1))])];
    assert_eq!(decode_records(&doc).unwrap_err(), DecodeError::MissingTransactionType);
}

#[test]
fn decode_missing_field() {
    let doc = vec![DocNode::Entries(vec![
        entry("transaction_type", text("write_check")),
        entry("customer_id", DocValue::Integer(1)),
    ])];
    assert_eq!(decode_records(&doc).unwrap_err(), DecodeError::MissingField("amount".to_string()));
}

#[test]
fn decode_type_mismatch() {
    let doc = vec![DocNode::Entries(vec![
        entry("transaction_type", text("amalgamate")),
        entry("source_customer_id", text("one")),
        entry("dest_customer_id", DocValue::Integer(2)),
    ])];
    assert_eq!(
        decode_records(&doc).unwrap_err(),
        DecodeError::TypeMismatch("source_customer_id".to_string())
    );
    let negative = vec![DocNode::Entries(vec![
        entry("transaction_type", text("deposit_checking")),
        entry("customer_id", DocValue::Integer(-1)),
        entry("amount", DocValue::Integer(2)),
    ])];
    assert_eq!(
        decode_records(&negative).unwrap_err(),
        DecodeError::TypeMismatch("customer_id".to_string())
    );
    let untyped = vec![DocNode::Entries(vec![entry("transaction_type", DocValue::Integer(3))])];
    assert_eq!(
        decode_records(&untyped).unwrap_err(),
        DecodeError::TypeMismatch("transaction_type".to_string())
    );
}

#[test]
fn decode_not_a_map() {
    assert_eq!(decode_records(&vec![DocNode::Other]).unwrap_err(), DecodeError::NotAMap);
}

#[test]
fn first_error_wins() {
    let doc = vec![
        DocNode::Entries(vec![
            entry("transaction_type", text("transact_savings")),
            entry("customer_id", DocValue::Integer(3)),
            entry("amount", DocValue::Integer(-20)),
        ]),
        DocNode::Other,
        DocNode::Entries(vec![entry("transaction_type", text("bogus"))]),
    ];
    assert_eq!(decode_records(&doc).unwrap_err(), DecodeError::NotAMap);
}

#[test]
fn negative_savings_amount_decodes() {
    let doc = vec![DocNode::Entries(vec![
        entry("amount", DocValue::Integer(-20)),
        entry("transaction_type", text("transact_savings")),
        entry("customer_id", DocValue::Integer(3)),
        entry("extra", DocValue::Other),
    ])];
    let recs = decode_records(&doc).unwrap();
    assert_eq!(
        format!("{:?}", recs[0]),
        format!("{:?}", TransactionRecord::TransactSavings { customer_id: 3, amount: -20 })
    );
}

#[test]
fn create_account_document_fields() {
    let node = record_to_node(&TransactionRecord::CreateAccount {
        customer_id: 7,
        customer_name: "customer_000007".to_string(),
        initial_savings_balance: 1000000,
        initial_checking_balance: 1000000,
    });
    let expected = DocNode::Entries(vec![
        entry("transaction_type", text("create_account")),
        entry("customer_id", DocValue::Integer(7)),
        entry("customer_name", text("customer_000007")),
        entry("initial_savings_balance", DocValue::Integer(1000000)),
        entry("initial_checking_balance", DocValue::Integer(1000000)),
    ]);
    assert_eq!(format!("{:?}", node), format!("{:?}", expected));
}

#[test]
fn round_trip_generated_records() {
    let recs = generate_records(6, 80, Some(99)).unwrap();
    let doc = encode_records(&recs);
    let back = decode_records(&doc).unwrap();
    assert_eq!(format!("{:?}", back), format!("{:?}", recs));
}

#[test]
fn generated_document_decodes() {
    let doc = generate_smallbank_playlist(3, 10, Some(5)).unwrap();
    let recs = records_from_document(&doc).unwrap();
    assert_eq!(recs.len(), 13);
    assert_eq!(format!("{:?}", encode_records(&recs)), format!("{:?}", doc));
}

#[test]
fn error_messages() {
    assert_eq!(
        PlaylistError::SigningError("bad key".to_string()).message(),
        "Error occurred signing transactions: bad key"
    );
    assert_eq!(
        PlaylistError::IoError("closed".to_string()).message(),
        "Error occurred writing messages: closed"
    );
    assert_eq!(PlaylistError::YamlInputError.message(), "Error occurred reading YAML input");
    assert_eq!(
        PlaylistError::InvalidConfiguration.message(),
        "Invalid workload configuration"
    );
}
