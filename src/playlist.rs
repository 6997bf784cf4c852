//! Playlists: generated workloads in their structured-text document form.
use vstd::prelude::*;

use crate::codec::{
    decode_all, decode_records, encode_all, encode_records, lemma_round_trip, nodes_view, DocNode,
};
use crate::error::PlaylistError;
use crate::generator::{generate_records, records_view, valid_config, valid_playlist};
use crate::record::TransactionRecord;

verus! {

/// Generates a playlist of `num_accounts` account creations followed by
/// `num_transactions` random operations, as a document of one map per
/// record. The same seed gives the same document.
pub fn generate_smallbank_playlist(num_accounts: usize, num_transactions: usize, seed: Option<i32>) -> (r:
    Result<Vec<DocNode>, PlaylistError>)
    requires
        num_accounts + num_transactions <= usize::MAX,
    ensures
        !valid_config(num_accounts, num_transactions) ==> r == Err::<Vec<DocNode>, PlaylistError>(
            PlaylistError::InvalidConfiguration,
        ),
        valid_config(num_accounts, num_transactions) && seed is Some ==> r is Ok,
        r is Err ==> r->Err_0 == PlaylistError::InvalidConfiguration || (seed is None
            && r->Err_0 is IoError),
        r matches Ok(d) ==> decode_all(nodes_view(d@)) matches Ok(rs) && valid_playlist(
            rs,
            num_accounts as nat,
            num_transactions as nat,
        ) && nodes_view(d@) == encode_all(rs),
{
    match generate_records(num_accounts, num_transactions, seed) {
        Ok(recs) => {
            let doc = encode_records(&recs);
            proof {
                lemma_round_trip(records_view(recs@));
            }
            Ok(doc)
        },
        Err(e) => Err(e),
    }
}

/// The records a playlist document describes.
pub fn records_from_document(doc: &Vec<DocNode>) -> (r: Result<Vec<TransactionRecord>, PlaylistError>)
    ensures
        match r {
            Ok(v) => decode_all(nodes_view(doc@)) == Ok::<_, crate::codec::DecodeErrorModel>(
                records_view(v@),
            ),
            Err(e) => e matches PlaylistError::DecodeError(d) && decode_all(nodes_view(doc@))
                == Err::<Seq<crate::record::RecordModel>, _>(d@),
        },
{
    match decode_records(doc) {
        Ok(v) => Ok(v),
        Err(e) => Err(PlaylistError::DecodeError(e)),
    }
}

} // verus!
