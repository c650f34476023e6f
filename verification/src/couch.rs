//! CouchDB documents and addresses: the user and security documents the
//! couch app writes, the credentials of an account's database, and the
//! addresses the campaign server calls the couch app at.

use vstd::prelude::*;
use vstd::string::StringExecFns;
use crate::errors::{ApiError, ApiErrorView};
use crate::params::ParamMap;
use crate::params::{
    free_of, lemma_read_pieces_push, lemma_split_joined, lemma_split_pair, lemma_split_single,
    read_pieces, read_query, split_on, QueryReading,
};
use crate::text::{chars_of, push_char, slim_account_id};

verus! {

/// A CouchDB user document (`_users` database).
pub struct CouchUser {
    pub _id: String,
    pub name: String,
    pub password: String,
    pub roles: Vec<String>,
    pub _type: String,
}

impl CouchUser {
    /// The user document for `name` with `password`: id
    /// `org.couchdb.user:<name>`, no roles, type `user`.
    pub fn new(name: String, password: String) -> (u: CouchUser)
        ensures
            u._id@ == "org.couchdb.user:"@ + name@,
            u.name@ == name@,
            u.password@ == password@,
            u.roles@.len() == 0,
            u._type@ == "user"@,
    {
        let mut id = String::from_str("org.couchdb.user:");
        id.append(name.as_str());
        CouchUser {
            _id: id,
            name,
            password,
            roles: Vec::new(),
            _type: String::from_str("user"),
        }
    }
}

/// The administrators of a database.
pub struct DatabaseAdmins {
    pub names: Vec<String>,
    pub roles: Vec<String>,
}

/// The members of a database.
pub struct DatabaseMembers {
    pub names: Vec<String>,
    pub roles: Vec<String>,
}

/// A database's security document.
pub struct CouchSecurity {
    pub admins: DatabaseAdmins,
    pub members: DatabaseMembers,
}

impl Default for DatabaseAdmins {
    fn default() -> (r: Self)
        ensures
            r.names@.len() == 0,
            r.roles@.len() == 0,
    {
        DatabaseAdmins { names: Vec::new(), roles: Vec::new() }
    }
}

impl Default for DatabaseMembers {
    fn default() -> (r: Self)
        ensures
            r.names@.len() == 0,
            r.roles@.len() == 0,
    {
        DatabaseMembers { names: Vec::new(), roles: Vec::new() }
    }
}

impl Default for CouchSecurity {
    fn default() -> (r: Self)
        ensures
            r.admins.names@.len() == 0,
            r.admins.roles@.len() == 0,
            r.members.names@.len() == 0,
            r.members.roles@.len() == 0,
    {
        CouchSecurity { admins: DatabaseAdmins::default(), members: DatabaseMembers::default() }
    }
}

impl CouchSecurity {
    /// The security document that makes `username` the only member of a
    /// database, with no administrators and no roles.
    pub fn for_user(username: String) -> (r: CouchSecurity)
        ensures
            r.admins.names@.len() == 0,
            r.admins.roles@.len() == 0,
            r.members.names@ == seq![username],
            r.members.roles@.len() == 0,
    {
        let mut members = DatabaseMembers::default();
        members.names.push(username);
        CouchSecurity { admins: DatabaseAdmins::default(), members }
    }
}

/// The CouchDB credentials and database name of an account.
pub struct CouchUserDetails {
    pub username: String,
    pub password: String,
    pub database_name: String,
}

impl CouchUserDetails {
    /// The details for an account: user and database are named after the
    /// account id without its dashes, and the password is `hash` of that name.
    pub fn create<F: Fn(&str) -> String>(account_id: &str, hash: F) -> (r: CouchUserDetails)
        requires
            forall|s: &str| #[trigger] hash.requires((s,)),
        ensures
            r.username@ == crate::text::without_dashes(account_id@),
            r.database_name@ == r.username@,
            exists|s: &str| s@ == r.username@ && #[trigger] hash.ensures((s,), r.password),
    {
        let slim = slim_account_id(account_id);
        let slim_ref = slim.as_str();
        let password_hash = hash(slim_ref);
        let r = CouchUserDetails {
            username: slim.clone(),
            password: password_hash,
            database_name: slim,
        };
        assert(slim_ref@ == r.username@ && hash.ensures((slim_ref,), r.password));
        r
    }
}

/// Where the couch app listens, as the campaign server addresses it.
pub const COUCH_APP_URI: &'static str = "http://couch_app:9000/";

/// The query of the couch app's `new_user` request.
pub open spec fn new_user_query_text(
    username: Seq<char>,
    password: Seq<char>,
    database_name: Seq<char>,
) -> Seq<char> {
    "username="@ + username + "&password="@ + password + "&database_name="@ + database_name
}

/// The couch app's `new_user` request for an account's user and database.
pub open spec fn new_user_url_text(
    username: Seq<char>,
    password: Seq<char>,
    database_name: Seq<char>,
) -> Seq<char> {
    COUCH_APP_URI@ + "new_user?"@ + new_user_query_text(username, password, database_name)
}

/// The address that asks the couch app to create the user and database of
/// `details`.
pub fn new_user_url(details: &CouchUserDetails) -> (url: String)
    ensures
        url@ == new_user_url_text(
            details.username@,
            details.password@,
            details.database_name@,
        ),
{
    let mut url = String::from_str(COUCH_APP_URI);
    url.append("new_user?");
    url.append("username=");
    url.append(details.username.as_str());
    url.append("&password=");
    url.append(details.password.as_str());
    url.append("&database_name=");
    url.append(details.database_name.as_str());
    proof {
        let u = details.username@;
        let p = details.password@;
        let d = details.database_name@;
        assert(url@ =~= new_user_url_text(u, p, d));
    }
    url
}

/// The couch app's address for reading a visit back.
pub fn restore_visit_url(db_name: &str, visit_id: &str) -> (url: String)
    ensures
        url@ == "http://couch_app:9000/restore_visit?db_name="@ + db_name@ + "&visit_id="@
            + visit_id@,
{
    let mut url = String::from_str("http://couch_app:9000/restore_visit?db_name=");
    url.append(db_name);
    url.append("&visit_id=");
    url.append(visit_id);
    url
}

/// The couch app's address for storing a new visit.
pub fn insert_visit_url(db_name: &str) -> (url: String)
    ensures
        url@ == "http://couch_app:9000/insert_visit?db_name="@ + db_name@,
{
    let mut url = String::from_str("http://couch_app:9000/insert_visit?db_name=");
    url.append(db_name);
    url
}

/// The couch app's address for storing or replacing a visit.
pub fn upsert_visit_url(db_name: &str) -> (url: String)
    ensures
        url@ == "http://couch_app:9000/upsert_visit?db_name="@ + db_name@,
{
    let mut url = String::from_str("http://couch_app:9000/upsert_visit?db_name=");
    url.append(db_name);
    url
}

/// The CouchDB path of a user's document.
pub fn user_document_path(username: &str) -> (path: String)
    ensures
        path@ == "/_users/org.couchdb.user:"@ + username@,
{
    let mut path = String::from_str("/_users/org.couchdb.user:");
    path.append(username);
    path
}

/// The CouchDB path of a database's security document.
pub fn security_document_path(database_name: &str) -> (path: String)
    ensures
        path@ == "/"@ + database_name@ + "/_security"@,
{
    let mut path = String::from_str("/");
    path.append(database_name);
    path.append("/_security");
    path
}

/// The address of an account's visits database behind the campaign server's
/// proxy, as the browser client replicates from it.
pub fn remote_visits_url(slim_account_id: &str) -> (url: String)
    ensures
        url@ == "http://127.0.0.1:8081/visits/"@ + slim_account_id@,
{
    let mut url = String::from_str("http://127.0.0.1:8081/visits/");
    url.append(slim_account_id);
    url
}

/// The user document the couch app creates sits at the path it is written
/// to: `/_users/` followed by the document's id.
pub proof fn law_user_document_at_its_path(name: Seq<char>)
    ensures
        "/_users/org.couchdb.user:"@ + name == "/_users/"@ + ("org.couchdb.user:"@ + name),
{
    reveal_strlit("/_users/org.couchdb.user:");
    reveal_strlit("/_users/");
    reveal_strlit("org.couchdb.user:");
    assert("/_users/org.couchdb.user:"@ =~= "/_users/"@ + "org.couchdb.user:"@);
    assert("/_users/org.couchdb.user:"@ + name =~= "/_users/"@ + ("org.couchdb.user:"@ + name));
}

/// The couch app's `new_user` handler finds, in the query the campaign
/// server sends, exactly the user name, password and database name that were
/// put there, as long as none of them holds `&` or `=`.
pub proof fn law_new_user_query_reads_back(
    username: Seq<char>,
    password: Seq<char>,
    database_name: Seq<char>,
)
    requires
        free_of(username, '&'),
        free_of(username, '='),
        free_of(password, '&'),
        free_of(password, '='),
        free_of(database_name, '&'),
        free_of(database_name, '='),
    ensures
        read_query(new_user_query_text(username, password, database_name))
            == QueryReading::Read(
            Map::<Seq<char>, Seq<char>>::empty().insert("username"@, username).insert(
                "password"@,
                password,
            ).insert("database_name"@, database_name),
        ),
{
    reveal_strlit("username=");
    reveal_strlit("&password=");
    reveal_strlit("&database_name=");
    reveal_strlit("username");
    reveal_strlit("password");
    reveal_strlit("database_name");
    let k1 = "username"@;
    let k2 = "password"@;
    let k3 = "database_name"@;
    let p1 = k1.push('=') + username;
    let p2 = k2.push('=') + password;
    let p3 = k3.push('=') + database_name;
    assert("username="@ =~= k1.push('='));
    assert("&password="@ =~= seq!['&'] + k2.push('='));
    assert("&database_name="@ =~= seq!['&'] + k3.push('='));
    let text = new_user_query_text(username, password, database_name);
    assert(text =~= (p1.push('&') + p2).push('&') + p3);
    assert(free_of(p1, '&'));
    assert(free_of(p2, '&')) by {
        assert forall|i: int| 0 <= i < p2.len() implies p2[i] != '&' by {
            if i >= k2.len() + 1 {
                assert(p2[i] == password[i - k2.len() - 1]);
            }
        }
    }
    assert(free_of(p3, '&')) by {
        assert forall|i: int| 0 <= i < p3.len() implies p3[i] != '&' by {
            if i >= k3.len() + 1 {
                assert(p3[i] == database_name[i - k3.len() - 1]);
            }
        }
    }
    assert(free_of(p1, '&')) by {
        assert forall|i: int| 0 <= i < p1.len() implies p1[i] != '&' by {
            if i >= k1.len() + 1 {
                assert(p1[i] == username[i - k1.len() - 1]);
            }
        }
    }
    lemma_split_single(p1, '&');
    lemma_split_joined(p1, p2, '&');
    lemma_split_joined(p1.push('&') + p2, p3, '&');
    let pieces = split_on(text, '&');
    assert(pieces =~= seq![p1].push(p2).push(p3));
    lemma_split_pair(k1, username);
    lemma_split_pair(k2, password);
    lemma_split_pair(k3, database_name);
    lemma_read_pieces_push(Seq::<Seq<char>>::empty(), p1);
    assert(Seq::<Seq<char>>::empty().push(p1) =~= seq![p1]);
    lemma_read_pieces_push(seq![p1], p2);
    lemma_read_pieces_push(seq![p1].push(p2), p3);
    assert(p1.len() > 0 && p2.len() > 0 && p3.len() > 0);
}

/// `s` with every occurrence of `pat` taken out, scanning left to right
/// (`str::replace(pat, "")`).
pub open spec fn remove_all(s: Seq<char>, pat: Seq<char>) -> Seq<char>
    decreases s.len(),
{
    if pat.len() == 0 || s.len() < pat.len() {
        s
    } else if s.take(pat.len() as int) == pat {
        remove_all(s.skip(pat.len() as int), pat)
    } else {
        seq![s[0]] + remove_all(s.skip(1), pat)
    }
}

fn matches_at(cs: &Vec<char>, pat: &Vec<char>, i: usize) -> (r: bool)
    requires
        i + pat@.len() <= cs@.len(),
    ensures
        r == (cs@.subrange(i as int, i + pat@.len()) == pat@),
{
    let n: usize = cs.len();
    let mut j: usize = 0;
    while j < pat.len()
        invariant
            n == cs@.len(),
            j <= pat@.len(),
            i + pat@.len() <= cs@.len(),
            forall|k: int| 0 <= k < j ==> cs@[i + k] == pat@[k],
        decreases pat.len() - j,
    {
        if cs[i + j] != pat[j] {
            assert(cs@.subrange(i as int, i + pat@.len())[j as int] != pat@[j as int]);
            return false;
        }
        j += 1;
    }
    assert(cs@.subrange(i as int, i + pat@.len()) =~= pat@);
    true
}

/// The path of a request to the campaign server's visits proxy, as CouchDB
/// is asked for it: every `/visits` taken out.
pub fn couch_path_of_request(path: &str) -> (r: String)
    ensures
        r@ == remove_all(path@, "/visits"@),
{
    let cs = chars_of(path);
    let pat = chars_of("/visits");
    let ghost s = cs@;
    let ghost p = pat@;
    proof {
        reveal_strlit("/visits");
    }
    let mut out = String::new();
    let mut i: usize = 0;
    assert(s.skip(0) =~= s);
    while i < cs.len()
        invariant
            i <= cs@.len(),
            s == cs@,
            p == pat@,
            s == path@,
            p == "/visits"@,
            p.len() == 7,
            out@ + remove_all(s.skip(i as int), p) == remove_all(s, p),
        decreases cs.len() - i,
    {
        let ghost rest = s.skip(i as int);
        if pat.len() <= cs.len() - i && matches_at(&cs, &pat, i) {
            assert(rest.take(p.len() as int) =~= s.subrange(i as int, i + p.len()));
            assert(rest.skip(p.len() as int) =~= s.skip(i + p.len()));
            i = i + pat.len();
        } else {
            let c = cs[i];
            if pat.len() <= cs.len() - i {
                assert(rest.take(p.len() as int) =~= s.subrange(i as int, i + p.len()));
            }
            assert(rest.skip(1) =~= s.skip(i + 1));
            assert(rest[0] == c);
            let ghost before = out@;
            push_char(&mut out, c);
            assert(out@ + remove_all(s.skip(i + 1), p) =~= before + (seq![c] + remove_all(
                rest.skip(1),
                p,
            )));
            i = i + 1;
        }
    }
    assert(s.skip(i as int) =~= Seq::<char>::empty());
    assert(remove_all(Seq::<char>::empty(), p) == Seq::<char>::empty());
    assert(out@ + Seq::<char>::empty() =~= out@);
    out
}

/// The user name, password and database name of a `new_user` request.
pub fn new_user_fields(params: &ParamMap) -> (r: (String, String, String))
    requires
        params@.contains_key("username"@),
        params@.contains_key("password"@),
        params@.contains_key("database_name"@),
    ensures
        r.0@ == params@["username"@],
        r.1@ == params@["password"@],
        r.2@ == params@["database_name"@],
{
    let username = params.get("username").unwrap().clone();
    let password = params.get("password").unwrap().clone();
    let database_name = params.get("database_name").unwrap().clone();
    (username, password, database_name)
}

/// Whether a CouchDB reply with `status` reports success: a 2xx status.
pub fn reply_succeeded(status: u16) -> (ok: bool)
    ensures
        ok == (200 <= status && status < 300),
{
    200 <= status && status < 300
}

/// The error of a user that CouchDB did not create, given the debug text
/// of the reply's body (or of the failure to read it).
pub fn user_not_created(body_debug: &str) -> (e: String)
    ensures
        e@ == "User Not Created:"@ + body_debug@,
{
    let mut e = String::from_str("User Not Created:");
    e.append(body_debug);
    e
}

/// The answer to storing a new visit through the couch app, given the
/// status of its reply (`None` when the request could not be sent): success
/// only for a 2xx status.
pub fn insert_visit_outcome(status: Option<u16>) -> (r: Result<(), ApiError>)
    ensures
        match status {
            None => r matches Err(e) && e@ == ApiErrorView::ClientSendRequestError("Err :G^$T44"@),
            Some(code) => if 200 <= code < 300 {
                r is Ok
            } else {
                r matches Err(e) && e@ == ApiErrorView::ClientSendRequestError(
                    "Err :G^XXXXXX4"@,
                )
            },
        },
{
    match status {
        None => Err(ApiError::ClientSendRequestError(String::from_str("Err :G^$T44"))),
        Some(code) => if 200 <= code && code < 300 {
            Ok(())
        } else {
            Err(ApiError::ClientSendRequestError(String::from_str("Err :G^XXXXXX4")))
        },
    }
}

/// The answer to storing or replacing a visit through the couch app: any
/// reply counts as success; only a request that could not be sent fails.
pub fn upsert_visit_outcome(status: Option<u16>) -> (r: Result<(), ApiError>)
    ensures
        match status {
            None => r matches Err(e) && e@ == ApiErrorView::ClientSendRequestError("Err :G^$T44"@),
            Some(_) => r is Ok,
        },
{
    match status {
        None => Err(ApiError::ClientSendRequestError(String::from_str("Err :G^$T44"))),
        Some(_) => Ok(()),
    }
}

proof fn lemma_remove_all_keeps_prefix_free_of_slash(s: Seq<char>, t: Seq<char>)
    requires
        free_of(s, '/'),
    ensures
        remove_all(s + t, "/visits"@) == s + remove_all(t, "/visits"@),
    decreases s.len(),
{
    reveal_strlit("/visits");
    let p = "/visits"@;
    if s.len() == 0 {
        assert(s + t =~= t);
        assert(s + remove_all(t, p) =~= remove_all(t, p));
    } else {
        let st = s + t;
        lemma_remove_all_keeps_prefix_free_of_slash(s.skip(1), t);
        assert(st.skip(1) =~= s.skip(1) + t);
        if st.len() >= p.len() {
            assert(st.take(p.len() as int)[0] == s[0]);
            assert(st.take(p.len() as int) != p);
        }
        assert(s =~= seq![s[0]] + s.skip(1));
        assert(seq![s[0]] + (s.skip(1) + remove_all(t, p)) =~= s + remove_all(t, p));
        if st.len() < p.len() {
            assert(remove_all(t, p) == t) by {
                assert(t.len() < p.len());
            }
            assert(st =~= s + t);
        }
    }
}

/// The browser client replicates through the campaign server's visits proxy
/// from the account's own CouchDB database: the proxy turns the request path
/// `/visits/<db><rest>` into `/<db><rest>` (with any `/visits` in the rest
/// taken out too), for a database name that is non-empty, holds no `/` and
/// does not begin with `v` — as every account id without dashes is.
pub proof fn law_proxy_reaches_account_database(db: Seq<char>, rest: Seq<char>)
    requires
        db.len() > 0,
        db[0] != 'v',
        free_of(db, '/'),
    ensures
        remove_all("/visits/"@ + db + rest, "/visits"@) == "/"@ + db + remove_all(
            rest,
            "/visits"@,
        ),
{
    reveal_strlit("/visits/");
    reveal_strlit("/visits");
    reveal_strlit("/");
    let p = "/visits"@;
    let whole = "/visits/"@ + db + rest;
    let after = "/"@ + db + rest;
    assert(whole.take(7) =~= p);
    assert(whole.skip(7) =~= after);
    lemma_remove_all_keeps_prefix_free_of_slash(db, rest);
    assert(after.skip(1) =~= db + rest);
    assert(remove_all(whole, p) == remove_all(after, p));
    if after.len() >= 7 {
        assert(after.take(7)[1] == db[0]);
        assert(after.take(7) != p);
        assert(remove_all(after, p) == seq![after[0]] + remove_all(after.skip(1), p));
        assert("/"@ + db + remove_all(rest, p) =~= seq![after[0]] + (db + remove_all(rest, p)));
    } else {
        assert(remove_all(rest, p) == rest);
        assert(remove_all(after, p) == after);
    }
}

} // verus!
