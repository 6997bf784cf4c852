use smallbank_workload::error::PlaylistError;
use smallbank_workload::generator::{
    create_smallbank_playlist, generate_records, next_non_matching_in_range, transaction_from_draws,
};
use smallbank_workload::playlist::generate_smallbank_playlist;
use smallbank_workload::record::{create_account, customer_name, TransactionRecord};

fn check_valid_operation(rec: &TransactionRecord, num_accounts: u32) {
    match rec {
        TransactionRecord::CreateAccount { .. } => panic!("account creation after the first phase"),
        TransactionRecord::DepositChecking { customer_id, amount }
        | TransactionRecord::WriteCheck { customer_id, amount } => {
            assert!(*customer_id < num_accounts);
            assert!(*amount >= 10 && *amount < 200);
        }
        TransactionRecord::TransactSavings { customer_id, amount } => {
            assert!(*customer_id < num_accounts);
            assert!(*amount >= 10 && *amount < 200);
        }
        TransactionRecord::SendPayment { source_customer_id, dest_customer_id, amount } => {
            assert!(*source_customer_id < num_accounts);
            assert!(*dest_customer_id < num_accounts);
            assert_ne!(source_customer_id, dest_customer_id);
            assert!(*amount >= 10 && *amount < 200);
        }
        TransactionRecord::Amalgamate { source_customer_id, dest_customer_id } => {
            assert!(*source_customer_id < num_accounts);
            assert!(*dest_customer_id < num_accounts);
            assert_ne!(source_customer_id, dest_customer_id);
        }
    }
}

#[test]
fn three_accounts_no_transactions() {
    let recs = generate_records(3, 0, Some(42)).unwrap();
    assert_eq!(recs.len(), 3);
    for (i, rec) in recs.iter().enumerate() {
        match rec {
            TransactionRecord::CreateAccount {
                customer_id,
                customer_name,
                initial_savings_balance,
                initial_checking_balance,
            } => {
                assert_eq!(*customer_id, i as u32);
                assert_eq!(customer_name, &format!("customer_00000{}", i));
                assert_eq!(*initial_savings_balance, 1000000);
                assert_eq!(*initial_checking_balance, 1000000);
            }
            other => panic!("unexpected record {:?}", other),
        }
    }
}

#[test]
fn generated_length_and_order() {
    let recs = generate_records(5, 40, Some(7)).unwrap();
    assert_eq!(recs.len(), 45);
    for (i, rec) in recs.iter().enumerate() {
        if i < 5 {
            assert_eq!(format!("{:?}", rec), format!("{:?}", create_account(i as u32)));
        } else {
            check_valid_operation(rec, 5);
        }
    }
}

#[test]
fn transfers_have_distinct_parties() {
    let recs = generate_records(2, 300, Some(-3)).unwrap();
    let mut transfers = 0;
    for rec in recs.iter().skip(2) {
        check_valid_operation(rec, 2);
        match rec {
            TransactionRecord::SendPayment { .. } | TransactionRecord::Amalgamate { .. } => {
                transfers += 1
            }
            _ => {}
        }
    }
    assert!(transfers > 0);
}

#[test]
fn unseeded_generation_is_valid() {
    let recs = generate_records(4, 25, None).unwrap();
    assert_eq!(recs.len(), 29);
    for rec in recs.iter().skip(4) {
        check_valid_operation(rec, 4);
    }
}

#[test]
fn same_seed_same_document() {
    let a = generate_smallbank_playlist(10, 50, Some(1234)).unwrap();
    let b = generate_smallbank_playlist(10, 50, Some(1234)).unwrap();
    assert_eq!(format!("{:?}", a), format!("{:?}", b));
    assert_eq!(a.len(), 60);
}

#[test]
fn no_accounts_with_transactions_is_invalid() {
    assert_eq!(generate_records(0, 5, Some(1)).unwrap_err(), PlaylistError::InvalidConfiguration);
    assert!(create_smallbank_playlist(0, 5, Some(1)).is_err());
}

#[test]
fn single_account_with_transactions_is_invalid() {
    assert_eq!(generate_records(1, 1, Some(1)).unwrap_err(), PlaylistError::InvalidConfiguration);
}

#[test]
fn empty_workload() {
    assert_eq!(generate_records(0, 0, Some(9)).unwrap().len(), 0);
    assert_eq!(generate_records(1, 0, None).unwrap().len(), 1);
}

#[test]
fn generator_stops_after_total() {
    let mut g = create_smallbank_playlist(2, 3, Some(5)).unwrap();
    for _ in 0..5 {
        assert!(g.next().is_some());
    }
    assert!(g.next().is_none());
    assert!(g.next().is_none());
}

#[test]
fn customer_names_are_zero_padded() {
    assert_eq!(customer_name(0), "customer_000000");
    assert_eq!(customer_name(42), "customer_000042");
    assert_eq!(customer_name(999999), "customer_999999");
    assert_eq!(customer_name(1234567), "customer_1234567");
}

#[test]
fn draws_select_the_operation() {
    assert_eq!(
        format!("{:?}", transaction_from_draws(2, 1, 1, 50)),
        format!("{:?}", TransactionRecord::DepositChecking { customer_id: 1, amount: 50 })
    );
    assert_eq!(
        format!("{:?}", transaction_from_draws(4, 3, 3, 11)),
        format!("{:?}", TransactionRecord::TransactSavings { customer_id: 3, amount: 11 })
    );
    assert_eq!(
        format!("{:?}", transaction_from_draws(5, 0, 2, 199)),
        format!(
            "{:?}",
            TransactionRecord::SendPayment { source_customer_id: 0, dest_customer_id: 2, amount: 199 }
        )
    );
    assert_eq!(
        format!("{:?}", transaction_from_draws(6, 4, 1, 0)),
        format!(
            "{:?}",
            TransactionRecord::Amalgamate { source_customer_id: 4, dest_customer_id: 1 }
        )
    );
}

#[test]
fn non_matching_draw_avoids_excluded() {
    let mut rng: rand::StdRng = rand::SeedableRng::from_seed(&[17usize][..]);
    for _ in 0..200 {
        let v = next_non_matching_in_range(&mut rng, 2, 0);
        assert_eq!(v, 1);
        let w = next_non_matching_in_range(&mut rng, 5, 3);
        assert!(w < 5 && w != 3);
    }
}
