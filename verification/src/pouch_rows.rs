//! Reading PouchDB's answers: which rows of an `allDocs` or `query` answer
//! are documents, which are deletions and which are missing; when a
//! one-shot changes answer can be read; and which settings are laid over
//! the options of a changes feed, a replication, an `allDocs` request or
//! a query.
//!
//! The JavaScript objects themselves are read by the browser client; it
//! hands over what each field holds, and the decisions are made here.

use vstd::prelude::*;

verus! {

/// What a row's `value` holds.
pub struct RowValue<R> {
    /// Whether `value.deleted` is truthy (an unreadable field counts as not).
    pub deleted: bool,
    /// `value.rev`, when it is defined.
    pub rev: Option<R>,
}

/// What a row of an `allDocs` or `query` answer holds.
pub struct ResultRow<R, D> {
    /// Whether the row has an `error` field; `None` when that could not be
    /// asked.
    pub has_error: Option<bool>,
    /// The row's `value`, when it is defined.
    pub value: Option<RowValue<R>>,
    /// The row's `id` when it is defined: `Some(None)` when it is not a
    /// string.
    pub id: Option<Option<String>>,
    /// The row's `doc`, when it is defined.
    pub doc: Option<D>,
}

/// An entry of an `allDocs` answer.
pub enum RowEntry<R, D> {
    /// Nothing usable: an error row, a key that was not found, or a
    /// deletion whose revision or id cannot be read.
    Missing,
    /// A deleted document, by its id and last revision.
    Deleted { id: String, rev: R },
    /// A document, still to be converted.
    Document(D),
}

/// Whether a row is free of errors, as far as can be told.
pub open spec fn row_is_clean<R, D>(row: ResultRow<R, D>) -> bool {
    row.has_error == Some(false)
}

/// The entry of an `allDocs` row: a clean row with a value is a deletion
/// when its value says deleted (and its revision and string id can be
/// read), otherwise the document it carries.
pub open spec fn entry_of<R, D>(row: ResultRow<R, D>) -> RowEntry<R, D> {
    if !row_is_clean(row) {
        RowEntry::Missing
    } else {
        match row.value {
            None => RowEntry::Missing,
            Some(v) => if v.deleted {
                match (v.rev, row.id) {
                    (Some(rev), Some(Some(id))) => RowEntry::Deleted { id, rev },
                    _ => RowEntry::Missing,
                }
            } else {
                match row.doc {
                    Some(d) => RowEntry::Document(d),
                    None => RowEntry::Missing,
                }
            },
        }
    }
}

/// The entry of one row of an `allDocs` answer.
pub fn all_docs_entry<R, D>(row: ResultRow<R, D>) -> (e: RowEntry<R, D>)
    ensures
        e == entry_of(row),
{
    let ResultRow { has_error, value, id, doc } = row;
    match has_error {
        Some(false) => {},
        _ => return RowEntry::Missing,
    }
    match value {
        None => RowEntry::Missing,
        Some(v) => {
            let RowValue { deleted, rev } = v;
            if deleted {
                match (rev, id) {
                    (Some(rev), Some(Some(id))) => RowEntry::Deleted { id, rev },
                    _ => RowEntry::Missing,
                }
            } else {
                match doc {
                    Some(d) => RowEntry::Document(d),
                    None => RowEntry::Missing,
                }
            }
        },
    }
}

/// The document of one row of a `query` answer: that of a clean row that
/// carries one.
pub fn query_entry<R, D>(row: ResultRow<R, D>) -> (d: Option<D>)
    ensures
        d == (if row_is_clean(row) {
            row.doc
        } else {
            None
        }),
{
    match row.has_error {
        Some(false) => row.doc,
        _ => None,
    }
}

/// A one-shot changes answer, given its `results` (when they form an
/// array) and its `last_seq` (when it is defined): both, or the complaint
/// about the first that is missing.
pub fn changes_answer<T, S>(results: Option<T>, last_seq: Option<S>) -> (r: Result<
    (T, S),
    &'static str,
>)
    ensures
        match (results, last_seq) {
            (Some(t), Some(s)) => r == Ok::<(T, S), &'static str>((t, s)),
            (None, _) => r matches Err(m) && m@ == "Failed reading results array!"@,
            (Some(_), None) => r matches Err(m) && m@ == "Failed reading last_seq!"@,
        },
{
    match results {
        None => Err("Failed reading results array!"),
        Some(t) => match last_seq {
            Some(s) => Ok((t, s)),
            None => Err("Failed reading last_seq!"),
        },
    }
}

/// The kind of request whose options are being prepared.
#[derive(PartialEq, Eq, Structural, Clone, Copy, Debug)]
pub enum FeedKind {
    /// A live changes feed.
    Changes,
    /// A single changes request.
    ChangesOnce,
    /// A live replication.
    Replicate,
    /// A single replication.
    ReplicateOnce,
    /// Fetching many documents (`allDocs`).
    AllDocs,
    /// Querying documents with a filter function.
    Query,
}

/// Whether a request of `kind` reads a feed (changes or replication), whose
/// options may carry query parameters and a starting sequence.
pub open spec fn is_feed(kind: FeedKind) -> bool {
    kind == FeedKind::Changes || kind == FeedKind::ChangesOnce || kind == FeedKind::Replicate
        || kind == FeedKind::ReplicateOnce
}

/// What is laid over the serialized options before the request is made.
pub struct OptionEdits<S> {
    /// Whether the caller's query parameters are merged in.
    pub merge_query_params: bool,
    /// The sequence to start from, set explicitly.
    pub since: Option<S>,
    /// `live: true`.
    pub live: bool,
    /// `retry: true`.
    pub retry: bool,
    /// `binary: true`.
    pub binary: bool,
}

/// The edits for a request of `kind` whose options carry query parameters
/// or not, a starting sequence or not, and ask for retries or not.
///
/// For feeds, query parameters are merged in when there are any, and only
/// then is the starting sequence set. Live requests are marked live; a live
/// replication asks for retries when told to; a live changes feed, an
/// `allDocs` request and a query ask for binary attachments.
pub fn option_edits<S>(kind: FeedKind, has_query_params: bool, since: Option<S>, retry: bool) -> (e:
    OptionEdits<S>)
    ensures
        e.merge_query_params == (is_feed(kind) && has_query_params),
        e.since == (if is_feed(kind) && has_query_params {
            since
        } else {
            None
        }),
        e.live == (kind == FeedKind::Changes || kind == FeedKind::Replicate),
        e.retry == (kind == FeedKind::Replicate && retry),
        e.binary == (kind == FeedKind::Changes || kind == FeedKind::AllDocs || kind
            == FeedKind::Query),
{
    let since = if has_query_params {
        since
    } else {
        None
    };
    match kind {
        FeedKind::Changes => OptionEdits {
            merge_query_params: has_query_params,
            since,
            live: true,
            retry: false,
            binary: true,
        },
        FeedKind::ChangesOnce => OptionEdits {
            merge_query_params: has_query_params,
            since,
            live: false,
            retry: false,
            binary: false,
        },
        FeedKind::Replicate => OptionEdits {
            merge_query_params: has_query_params,
            since,
            live: true,
            retry,
            binary: false,
        },
        FeedKind::ReplicateOnce => OptionEdits {
            merge_query_params: has_query_params,
            since,
            live: false,
            retry: false,
            binary: false,
        },
        FeedKind::AllDocs | FeedKind::Query => OptionEdits {
            merge_query_params: false,
            since: None,
            live: false,
            retry: false,
            binary: true,
        },
    }
}

} // verus!
