use smallbank_workload::address::{bytes_to_hex_str, customer_id_address};
use smallbank_workload::envelope::{make_addresses, make_header};
use smallbank_workload::record::{create_account, TransactionRecord};

#[test]
fn address_of_seven() {
    assert_eq!(customer_id_address(7), "332514f05210c5b4263f0ec4c3995bdab458d8");
    assert_eq!(customer_id_address(0), "33251431bca02094eb78126a517b206a88c73c");
}

#[test]
fn addresses_are_lowercase_hex_and_distinct() {
    let mut seen = std::collections::HashSet::new();
    for id in (0u32..200).chain([u32::MAX, 1000000, 4096]) {
        let a = customer_id_address(id);
        assert_eq!(a.len(), 38);
        assert!(a.chars().all(|c| c.is_ascii_digit() || ('a'..='f').contains(&c)));
        assert_eq!(a, customer_id_address(id));
        assert!(seen.insert(a));
    }
}

#[test]
fn hex_encoding() {
    assert_eq!(bytes_to_hex_str(&[0x00, 0xab, 0xff, 0x10]), "00abff10");
    assert_eq!(bytes_to_hex_str(&[]), "");
}

#[test]
fn header_for_create_account() {
    let rec = create_account(7);
    let h = make_header(&rec, b"abc", "02abcdef", 12, 345);
    assert_eq!(h.inputs, vec![customer_id_address(7)]);
    assert_eq!(h.outputs, vec![customer_id_address(7)]);
    assert_eq!(h.family_name, "smallbank");
    assert_eq!(h.family_version, "1.0");
    assert_eq!(h.nonce, "12345");
    assert_eq!(
        h.payload_sha512,
        "ddaf35a193617abacc417349ae20413112e6fa4e89a97ea20a9eeee64b55d39a2192992a274fc1a836ba3c23a3feebbd454d4423643ce80e2a9ac94fa54ca49f"
    );
    assert_eq!(h.signer_pubkey, "02abcdef");
    assert_eq!(h.batcher_pubkey, "02abcdef");
}

#[test]
fn transfer_addresses_source_first() {
    let rec = TransactionRecord::SendPayment { source_customer_id: 7, dest_customer_id: 0, amount: 20 };
    assert_eq!(make_addresses(&rec), vec![customer_id_address(7), customer_id_address(0)]);
    let rec = TransactionRecord::Amalgamate { source_customer_id: 0, dest_customer_id: 7 };
    assert_eq!(make_addresses(&rec), vec![customer_id_address(0), customer_id_address(7)]);
}
