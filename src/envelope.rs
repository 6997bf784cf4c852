//! The header of the signed envelope that carries one record.
use vstd::prelude::*;

use crate::address::{address_of, bytes_to_hex_str, customer_id_address, hex_of, sha512, sha512_of};
use crate::record::{customer_ids, decimal_digits, push_decimal_digits, TransactionRecord};
use vstd::string::StringExecFns;

verus! {

/// The addresses of the accounts a record refers to, source first.
pub open spec fn addresses_of(ids: Seq<u32>) -> Seq<Seq<char>> {
    ids.map_values(|id: u32| address_of(id))
}

pub open spec fn strings_view(v: Seq<String>) -> Seq<Seq<char>> {
    v.map_values(|s: String| s@)
}

/// The addresses a record reads and writes: one per customer it refers to.
pub fn make_addresses(rec: &TransactionRecord) -> (r: Vec<String>)
    ensures
        strings_view(r@) == addresses_of(customer_ids(rec@)),
{
    let mut v: Vec<String> = Vec::new();
    match rec {
        TransactionRecord::CreateAccount { customer_id, .. } => {
            v.push(customer_id_address(*customer_id));
        },
        TransactionRecord::DepositChecking { customer_id, .. } => {
            v.push(customer_id_address(*customer_id));
        },
        TransactionRecord::WriteCheck { customer_id, .. } => {
            v.push(customer_id_address(*customer_id));
        },
        TransactionRecord::TransactSavings { customer_id, .. } => {
            v.push(customer_id_address(*customer_id));
        },
        TransactionRecord::SendPayment { source_customer_id, dest_customer_id, .. } => {
            v.push(customer_id_address(*source_customer_id));
            v.push(customer_id_address(*dest_customer_id));
        },
        TransactionRecord::Amalgamate { source_customer_id, dest_customer_id } => {
            v.push(customer_id_address(*source_customer_id));
            v.push(customer_id_address(*dest_customer_id));
        },
    }
    assert(strings_view(v@) =~= addresses_of(customer_ids(rec@)));
    v
}

/// The fields of a transaction header, before canonical encoding.
pub struct HeaderFields {
    pub family_name: String,
    pub family_version: String,
    pub nonce: String,
    pub inputs: Vec<String>,
    pub outputs: Vec<String>,
    pub payload_sha512: String,
    pub signer_pubkey: String,
    pub batcher_pubkey: String,
}

/// The nonce for a time since the start of the run: the seconds and then the
/// sub-second nanoseconds, both in decimal.
pub open spec fn nonce_of(secs: u64, nanos: u32) -> Seq<char> {
    decimal_digits(secs as nat) + decimal_digits(nanos as nat)
}

/// The header of the envelope for `rec`, whose canonical encoding is
/// `payload`, signed by the key whose public half is `pub_key_hex`, at
/// `elapsed_secs` seconds and `elapsed_nanos` nanoseconds into the run.
pub fn make_header(
    rec: &TransactionRecord,
    payload: &[u8],
    pub_key_hex: &str,
    elapsed_secs: u64,
    elapsed_nanos: u32,
) -> (h: HeaderFields)
    ensures
        h.family_name@ == "smallbank"@,
        h.family_version@ == "1.0"@,
        h.nonce@ == nonce_of(elapsed_secs, elapsed_nanos),
        strings_view(h.inputs@) == addresses_of(customer_ids(rec@)),
        strings_view(h.outputs@) == addresses_of(customer_ids(rec@)),
        h.payload_sha512@ == hex_of(sha512_of(payload@)),
        h.signer_pubkey@ == pub_key_hex@,
        h.batcher_pubkey@ == pub_key_hex@,
{
    let mut nonce = String::new();
    push_decimal_digits(&mut nonce, elapsed_secs);
    push_decimal_digits(&mut nonce, elapsed_nanos as u64);
    let digest = sha512(payload);
    HeaderFields {
        family_name: String::from_str("smallbank"),
        family_version: String::from_str("1.0"),
        nonce,
        inputs: make_addresses(rec),
        outputs: make_addresses(rec),
        payload_sha512: bytes_to_hex_str(digest.as_slice()),
        signer_pubkey: String::from_str(pub_key_hex),
        batcher_pubkey: String::from_str(pub_key_hex),
    }
}

} // verus!
