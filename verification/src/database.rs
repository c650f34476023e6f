//! The browser client's view of its visits database.

use vstd::prelude::*;
use vstd::string::StringExecFns;

verus! {

/// The version of this library.
pub fn version() -> (v: &'static str)
    ensures
        v@ == "0.1.0"@,
{
    "0.1.0"
}

/// What the client knows about an account's visits database.
pub struct DatabaseInfo {
    pub doc_count: i32,
    pub update_seq: i32,
    pub idb_attachment_format: String,
    pub db_name: String,
    pub auto_compaction: bool,
    pub adapter: String,
}

impl DatabaseInfo {
    /// The record for the account's database, named by the account id
    /// without dashes, before anything is known of it: no documents, no
    /// updates, adapter and attachment format "unknown".
    pub fn new(slim_account_id: String) -> (info: DatabaseInfo)
        ensures
            info.db_name@ == slim_account_id@,
            info.adapter@ == "unknown"@,
            info.idb_attachment_format@ == "unknown"@,
            info.doc_count == 0,
            info.update_seq == 0,
            info.auto_compaction == false,
    {
        DatabaseInfo {
            db_name: slim_account_id,
            adapter: String::from_str("unknown"),
            idb_attachment_format: String::from_str("unknown"),
            doc_count: 0,
            update_seq: 0,
            auto_compaction: false,
        }
    }
}

} // verus!
