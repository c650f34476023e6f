//! Handles of the browser client's PouchDB databases.

use vstd::prelude::*;
use vstd::string::StringExecFns;

verus! {

/// A PouchDB database, local or remote, known by its name or address.
pub struct PouchDB {
    name: String,
}

impl PouchDB {
    /// The database's name or address.
    pub closed spec fn name_view(&self) -> Seq<char> {
        self.name@
    }

    /// Creates (or opens) the database called `name`; an address like
    /// `http://domain.com/dbname` names a remote CouchDB database.
    pub fn new(name: String) -> (db: PouchDB)
        ensures
            db.name_view() == name@,
    {
        PouchDB { name }
    }

    /// The database's name or address.
    pub fn name(&self) -> (n: &str)
        ensures
            n@ == self.name_view(),
    {
        self.name.as_str()
    }

    /// How the database shows in debug output: `PouchDB <name>`.
    pub fn describe(&self) -> (s: String)
        ensures
            s@ == "PouchDB "@ + self.name_view(),
    {
        let mut s = String::from_str("PouchDB ");
        s.append(self.name.as_str());
        s
    }
}

/// Either end of a replication: a database handle or a database name or
/// address.
pub enum PouchDBOrStringRef<'a> {
    PouchDB(&'a PouchDB),
    String(&'a str),
}

impl<'a> From<&'a PouchDB> for PouchDBOrStringRef<'a> {
    fn from(db: &'a PouchDB) -> (r: PouchDBOrStringRef<'a>) {
        PouchDBOrStringRef::PouchDB(db)
    }
}

impl<'a> vstd::std_specs::convert::FromSpecImpl<&'a PouchDB> for PouchDBOrStringRef<'a> {
    open spec fn obeys_from_spec() -> bool {
        true
    }

    open spec fn from_spec(v: &'a PouchDB) -> PouchDBOrStringRef<'a> {
        PouchDBOrStringRef::PouchDB(v)
    }
}

impl<'a> From<&'a str> for PouchDBOrStringRef<'a> {
    fn from(db: &'a str) -> (r: PouchDBOrStringRef<'a>) {
        PouchDBOrStringRef::String(db)
    }
}

impl<'a> vstd::std_specs::convert::FromSpecImpl<&'a str> for PouchDBOrStringRef<'a> {
    open spec fn obeys_from_spec() -> bool {
        true
    }

    open spec fn from_spec(v: &'a str) -> PouchDBOrStringRef<'a> {
        PouchDBOrStringRef::String(v)
    }
}

/// What PouchDB reports about a database.
pub struct DatabaseInfo {
    pub doc_count: i32,
    pub update_seq: i32,
    pub idb_attachment_format: String,
    pub db_name: String,
    pub auto_compaction: bool,
    pub adapter: String,
}

impl DatabaseInfo {
    /// The report for a database called `name` before anything is known of
    /// it: no documents, no updates, empty format and adapter.
    pub fn new(name: String) -> (info: DatabaseInfo)
        ensures
            info.doc_count == 0,
            info.update_seq == 0,
            info.idb_attachment_format@ == Seq::<char>::empty(),
            info.db_name@ == name@,
            info.auto_compaction == false,
            info.adapter@ == Seq::<char>::empty(),
    {
        DatabaseInfo {
            doc_count: 0,
            update_seq: 0,
            idb_attachment_format: String::new(),
            db_name: name,
            auto_compaction: false,
            adapter: String::new(),
        }
    }
}

} // verus!
