//! Request handling of the campaign server that is pure computation: the
//! funnel depth and matrix id carried in query strings, and the depth that a
//! landing page's address carries forward.

use vstd::prelude::*;
use vstd::string::{StrSliceExecFns, StringExecFns};
use crate::decimal::{
    all_digits, decimal_text, law_decimal_round_trip, lemma_decimal_text_digits, parse_usize,
    usize_from_text, usize_to_text,
};
use crate::errors::{ApiError, ApiErrorView};
use crate::matrix::{MatrixData, SequenceType};
use crate::params::{
    lemma_split_extend, read_piece, read_pieces, read_query, read_query_string, split_on, ParamMap,
    QueryError, QueryReading,
};

verus! {

/// The funnel depth `d` among the request parameters, when it is present and
/// reads as a `usize`.
pub fn find_depth(params: &ParamMap) -> (r: Option<usize>)
    ensures
        r == (if params@.contains_key("d"@) {
            usize_from_text(params@["d"@])
        } else {
            None
        }),
{
    match params.get("d") {
        Some(x) => parse_usize(x.as_str()),
        None => None,
    }
}

/// What `Uuid::parse_str` gives for a text, as a 128-bit number.
pub uninterp spec fn uuid_of_text(text: Seq<char>) -> Option<u128>;

/// Parses a UUID (`uuid::Uuid::parse_str`) in any of the forms the `uuid`
/// crate accepts (simple, hyphenated, urn, braced).
///
/// Trusted: the result is `uuid_of_text` of the text; the `uuid` crate's
/// parser is a function of its input alone.
#[verifier::external_body]
fn parse_uuid(text: &str) -> (r: Option<u128>)
    ensures
        r == uuid_of_text(text@),
{
    match uuid::Uuid::parse_str(text) {
        Ok(id) => Some(id.as_u128()),
        Err(_) => None,
    }
}

/// What `url::Url::parse` followed by `Url::query` gives for a text: `None`
/// when the text is not a URL, `Some(None)` when the URL has no query.
pub uninterp spec fn url_query_of(text: Seq<char>) -> Option<Option<Seq<char>>>;

/// The contents of an optional string.
pub open spec fn opt_text(o: Option<String>) -> Option<Seq<char>> {
    match o {
        Some(s) => Some(s@),
        None => None,
    }
}

/// Parses a URL (`url::Url::parse`) and takes its query (`Url::query`).
///
/// Trusted: the result is `url_query_of` of the text; parsing a URL is a
/// function of the text alone.
#[verifier::external_body]
fn url_query(text: &str) -> (r: Option<Option<String>>)
    ensures
        match r {
            None => url_query_of(text@) is None,
            Some(q) => url_query_of(text@) == Some(opt_text(q)),
        },
{
    match url::Url::parse(text) {
        Ok(u) => Some(u.query().map(String::from)),
        Err(_) => None,
    }
}

/// What `url::Url::parse` of a text, then `Url::set_query` with `query`,
/// gives as the URL's text.
pub uninterp spec fn url_with_query_of(text: Seq<char>, query: Seq<char>) -> Seq<char>;

/// Parses a URL (`url::Url::parse`), replaces its query (`Url::set_query`)
/// and gives the URL's text (`Url::as_str`).
///
/// Trusted: `None` exactly when the text is not a URL, which is when
/// `url_query` gives `None` too (both parse the same text the same way);
/// otherwise the text is `url_with_query_of` of the text and the query,
/// a function of the two alone. `Url::set_query` panics when the URL's
/// text outgrows 32-bit offsets; the bound on the lengths (each character
/// is at most twelve bytes once percent-encoded) keeps clear of that.
#[verifier::external_body]
fn url_set_query(text: &str, query: &str) -> (r: Option<String>)
    requires
        text@.len() + query@.len() < 0x1000_0000,
    ensures
        match r {
            None => url_query_of(text@) is None,
            Some(u) => url_query_of(text@) is Some && u@ == url_with_query_of(text@, query@),
        },
{
    match url::Url::parse(text) {
        Ok(mut u) => {
            u.set_query(Some(query));
            Some(String::from(u.as_str()))
        },
        Err(_) => None,
    }
}

/// The matrix id `mid` carried by a query string.
pub open spec fn matrix_id_in_query(query: Seq<char>) -> Result<u128, Seq<char>> {
    match read_query(query) {
        QueryReading::Read(m) => if m.contains_key("mid"@) {
            match uuid_of_text(m["mid"@]) {
                Some(id) => Ok(id),
                None => Err("Uuid parse failed: Y%$G"@),
            }
        } else {
            Err("No extracted matrix id found"@)
        },
        _ => Err("param greater than 3"@),
    }
}

/// The text of an error result.
pub open spec fn result_text(r: Result<u128, String>) -> Result<u128, Seq<char>> {
    match r {
        Ok(id) => Ok(id),
        Err(e) => Err(e@),
    }
}

/// Reads the matrix id `mid` out of a query string.
pub fn matrix_id_from_query(query: &str) -> (r: Result<u128, String>)
    requires
        !(read_query(query@) is NoValue),
    ensures
        result_text(r) == matrix_id_in_query(query@),
{
    match read_query_string(query) {
        Ok(map) => match map.get("mid") {
            Some(text) => match parse_uuid(text.as_str()) {
                Some(id) => Ok(id),
                None => Err(String::from_str("Uuid parse failed: Y%$G")),
            },
            None => Err(String::from_str("No extracted matrix id found")),
        },
        Err(_) => Err(String::from_str("param greater than 3")),
    }
}

/// What reading the matrix id out of a referrer header comes to; `None` where
/// the query holds a non-empty piece without `=` ahead of any failure.
pub open spec fn matrix_id_from_referrer(referrer: Option<Seq<char>>) -> Option<
    Result<u128, Seq<char>>,
> {
    match referrer {
        None => Some(Err("No referrer url found:GHT$%^"@)),
        Some(text) => match url_query_of(text) {
            None => Some(Err("url from str parse failed"@)),
            Some(None) => Some(Err("No query found: $TYHG"@)),
            Some(Some(q)) => if read_query(q) is NoValue {
                None
            } else {
                Some(matrix_id_in_query(q))
            },
        },
    }
}

/// The contents of an optional string slice.
pub open spec fn opt_str_text(o: Option<&str>) -> Option<Seq<char>> {
    match o {
        Some(s) => Some(s@),
        None => None,
    }
}

/// Reads the id of the matrix node a visitor came from out of the query of
/// the referrer URL (parameter `mid`). Gives `None` only for a query holding
/// a non-empty piece without `=` ahead of any failure, which has no reading.
pub fn extract_matrix_id(referrer: Option<&str>) -> (r: Option<Result<u128, String>>)
    ensures
        match r {
            None => matrix_id_from_referrer(opt_str_text(referrer)) is None,
            Some(res) => matrix_id_from_referrer(opt_str_text(referrer)) == Some(result_text(res)),
        },
{
    match referrer {
        None => Some(Err(String::from_str("No referrer url found:GHT$%^"))),
        Some(text) => match url_query(text) {
            None => Some(Err(String::from_str("url from str parse failed"))),
            Some(None) => Some(Err(String::from_str("No query found: $TYHG"))),
            Some(Some(q)) => match read_query_string(q.as_str()) {
                Err(QueryError::NoValue) => None,
                _ => Some(matrix_id_from_query(q.as_str())),
            },
        },
    }
}

/// The query a landing page's address gets when it is placed at `depth`:
/// its own query followed by `&d=<depth>`, or just `d=<depth>`.
pub open spec fn depth_query_text(query: Option<Seq<char>>, depth: nat) -> Seq<char> {
    match query {
        Some(q) => q + "&d="@ + decimal_text(depth),
        None => "d="@ + decimal_text(depth),
    }
}

/// Adds the depth parameter `d` to a landing page's query.
pub fn depth_query(query: Option<&str>, depth: usize) -> (r: String)
    ensures
        r@ == depth_query_text(opt_str_text(query), depth as nat),
{
    let digits = usize_to_text(depth);
    match query {
        Some(q) => {
            let mut s = String::from_str(q);
            s.append("&d=");
            s.append(digits.as_str());
            s
        },
        None => {
            let mut s = String::from_str("d=");
            s.append(digits.as_str());
            s
        },
    }
}

/// The most characters an address and a query may have together to be
/// joined by the `url` crate: its texts use 32-bit offsets, and a character
/// takes up to twelve bytes once percent-encoded.
pub const MAX_URL_CHARS: usize = 0x1000_0000;

/// `url` with its query replaced by `query` followed by `d=<depth>` (see
/// `depth_query`). `None` when the address is not a URL.
pub fn url_with_depth(url: &str, query: Option<&str>, depth: usize) -> (r: Option<String>)
    requires
        url@.len() + depth_query_text(opt_str_text(query), depth as nat).len() < MAX_URL_CHARS,
    ensures
        r is None <==> url_query_of(url@) is None,
        r matches Some(u) ==> u@ == url_with_query_of(
            url@,
            depth_query_text(opt_str_text(query), depth as nat),
        ),
{
    let q = depth_query(query, depth);
    url_set_query(url, q.as_str())
}

/// The address `lander_url_with_depth` gives: the URL with `d=<depth>`
/// added to its query, unless the text is not a URL or the result would be
/// too long for the `url` crate.
pub open spec fn lander_url_text(url: Seq<char>, depth: nat) -> Option<Seq<char>> {
    match url_query_of(url) {
        None => None,
        Some(q) => if url.len() + depth_query_text(q, depth).len() < MAX_URL_CHARS {
            Some(url_with_query_of(url, depth_query_text(q, depth)))
        } else {
            None
        },
    }
}

/// A landing page's address once the page is placed at `depth` in a
/// matrix: its own query gets `d=<depth>` added. `None` when the address is
/// not a URL, or when the address and its new query are too long together
/// for the `url` crate (`MAX_URL_CHARS`): there `Url::set_query` would panic
/// on outgrowing its 32-bit offsets, and this function answers `None`
/// instead.
pub fn lander_url_with_depth(url: &str, depth: usize) -> (r: Option<String>)
    ensures
        opt_text(r) == lander_url_text(url@, depth as nat),
        match url_query_of(url@) {
            None => r is None,
            Some(q) => if url@.len() + depth_query_text(q, depth as nat).len() < MAX_URL_CHARS {
                r matches Some(u) && u@ == url_with_query_of(url@, depth_query_text(q, depth as nat))
            } else {
                r is None
            },
        },
{
    match url_query(url) {
        None => None,
        Some(q) => {
            let query: Option<&str> = match &q {
                Some(text) => Some(text.as_str()),
                None => None,
            };
            let new_query = depth_query(query, depth);
            let n: usize = url.unicode_len();
            let m: usize = new_query.as_str().unicode_len();
            if n < MAX_URL_CHARS && m < MAX_URL_CHARS - n {
                url_with_depth(url, query, depth)
            } else {
                None
            }
        },
    }
}

proof fn lemma_digits_free_of(n: nat, c: char)
    requires
        !('0' <= c && c <= '9'),
    ensures
        forall|i: int| 0 <= i < decimal_text(n).len() ==> decimal_text(n)[i] != c,
{
    lemma_decimal_text_digits(n);
    assert forall|i: int| 0 <= i < decimal_text(n).len() implies decimal_text(n)[i] != c by {
        assert(crate::decimal::is_digit(decimal_text(n)[i]));
    }
}

/// The piece `d=<depth>` reads as the single pair `d` -> `<depth>`.
proof fn lemma_depth_piece(depth: nat)
    ensures
        split_on("d="@ + decimal_text(depth), '=') == seq!["d"@, decimal_text(depth)],
{
    reveal_strlit("d=");
    reveal_strlit("d");
    let dec = decimal_text(depth);
    lemma_digits_free_of(depth, '=');
    let d = "d"@;
    assert(split_on(d.drop_last(), '=') == seq![Seq::<char>::empty()]);
    assert(d.drop_last() + d =~= d);
    assert(split_on(d, '=') =~= seq![d]) by {
        lemma_split_extend(Seq::<char>::empty(), d, '=');
        assert(Seq::<char>::empty() + d =~= d);
        assert(Seq::<char>::empty() + d =~= d);
    }
    assert("d="@.drop_last() =~= d);
    assert(split_on("d="@, '=') =~= seq![d, Seq::<char>::empty()]);
    lemma_split_extend("d="@, dec, '=');
    assert(Seq::<char>::empty() + dec =~= dec);
}

/// The depth a landing page's query is given is what `find_depth` reads back
/// from it: after adding `d=<depth>` to a query that reads, or to no query,
/// the query reads, holds `d`, and `d` reads as `depth`.
pub proof fn law_depth_is_read_back(query: Option<Seq<char>>, depth: usize)
    requires
        query matches Some(q) ==> read_query(q) is Read,
    ensures
        read_query(depth_query_text(query, depth as nat)) matches QueryReading::Read(m) && m.contains_key(
            "d"@,
        ) && usize_from_text(m["d"@]) == Some(depth),
{
    reveal_strlit("&d=");
    reveal_strlit("d=");
    let dec = decimal_text(depth as nat);
    let piece = "d="@ + dec;
    law_decimal_round_trip(depth);
    lemma_depth_piece(depth as nat);
    lemma_digits_free_of(depth as nat, '&');
    assert forall|i: int| 0 <= i < piece.len() implies piece[i] != '&' by {
        if i >= 2 {
            assert(piece[i] == dec[i - 2]);
        }
    }
    match query {
        None => {
            lemma_split_extend(Seq::<char>::empty(), piece, '&');
            assert(Seq::<char>::empty() + piece =~= piece);
            let pieces = split_on(piece, '&');
            assert(pieces =~= seq![piece]);
            assert(pieces.drop_last() =~= Seq::<Seq<char>>::empty());
            assert(read_pieces(Seq::<Seq<char>>::empty()) == QueryReading::Read(
                Map::<Seq<char>, Seq<char>>::empty(),
            ));
            assert(pieces.last() == piece);
            assert(read_pieces(pieces) == read_piece(QueryReading::Read(Map::empty()), piece));
        },
        Some(q) => {
            let text = q + "&d="@ + dec;
            assert(text =~= q.push('&') + piece);
            assert(q.push('&').drop_last() =~= q);
            lemma_split_extend(q.push('&'), piece, '&');
            let base = split_on(q, '&');
            assert(split_on(q.push('&'), '&') == base.push(Seq::<char>::empty()));
            let pieces = split_on(text, '&');
            assert(pieces =~= base.push(piece));
            assert(pieces.drop_last() =~= base);
        },
    }
}

/// The offer a first click links a conversion to: the offer the click
/// map's first node holds, if it holds one.
pub fn initial_click_conversion(data: &MatrixData) -> (r: Option<u128>)
    ensures
        r == (if data is Offer {
            Some(data->Offer_0.offer_id)
        } else {
            None::<u128>
        }),
{
    match data {
        MatrixData::Offer(offer) => Some(offer.offer_id),
        _ => None,
    }
}

/// The element a visitor clicked through to, as recorded in the visit.
pub enum ClickedElement {
    Offer { id: u128, url: Option<String> },
    LandingPage { id: u128, url: Option<String> },
}

/// A recorded click, by its texts.
pub ghost enum ClickRecord {
    Offer(u128, Option<Seq<char>>),
    LandingPage(u128, Option<Seq<char>>),
}

/// The record of an optional click.
pub open spec fn click_record(c: Option<ClickedElement>) -> Option<ClickRecord> {
    match c {
        Some(ClickedElement::Offer { id, url }) => Some(ClickRecord::Offer(id, opt_text(url))),
        Some(ClickedElement::LandingPage { id, url }) => Some(
            ClickRecord::LandingPage(id, opt_text(url)),
        ),
        None => None,
    }
}

/// What the campaign server does for a follow-up click: redirect the visitor,
/// record the clicked element in the visit, and link a conversion to an offer.
pub struct ExtraClickPlan {
    pub redirect_url: String,
    pub click: Option<ClickedElement>,
    pub conversion_offer: Option<u128>,
}

/// How a follow-up click is resolved for a funnel of the given type.
#[derive(PartialEq, Eq, Structural, Clone, Copy, Debug)]
pub enum ExtraRoute {
    /// Through the matrix node the visitor came from (its first child).
    ThroughMatrixNode,
    /// Straight to the funnel's first offer.
    ToFirstOffer,
}

/// A funnel with a matrix resolves follow-up clicks through the visitor's
/// matrix node, every other funnel through its first offer; a click map
/// without a sequence type is an internal error "no sequence found".
pub fn extra_single_route(seq_type: Option<SequenceType>) -> (r: Result<ExtraRoute, ApiError>)
    ensures
        match seq_type {
            None => r matches Err(e) && e@ == ApiErrorView::InternalServerError(
                "no sequence found"@,
            ),
            Some(SequenceType::Matrix) => r == Ok::<ExtraRoute, ApiError>(
                ExtraRoute::ThroughMatrixNode,
            ),
            Some(_) => r == Ok::<ExtraRoute, ApiError>(ExtraRoute::ToFirstOffer),
        },
{
    match seq_type {
        None => Err(ApiError::InternalServerError(String::from_str("no sequence found"))),
        Some(SequenceType::Matrix) => Ok(ExtraRoute::ThroughMatrixNode),
        Some(_) => Ok(ExtraRoute::ToFirstOffer),
    }
}

/// The plan for a click through a matrix node whose selected child has id
/// `selected_id` and holds `selected`: an offer is recorded by the node's id
/// and gets a conversion link; a landing page is recorded with its address;
/// anything else redirects to the empty address and records nothing.
pub fn plan_matrix_click(selected_id: u128, selected: &MatrixData) -> (r: ExtraClickPlan)
    ensures
        match *selected {
            MatrixData::Offer(o) => {
                &&& r.redirect_url@ == o.url@
                &&& click_record(r.click) == Some(ClickRecord::Offer(selected_id, None))
                &&& r.conversion_offer == Some(o.offer_id)
            },
            MatrixData::LandingPage(lp) => {
                &&& r.redirect_url@ == lp.url@
                &&& click_record(r.click) == Some(
                    ClickRecord::LandingPage(selected_id, Some(lp.url@)),
                )
                &&& r.conversion_offer is None
            },
            _ => {
                &&& r.redirect_url@ == Seq::<char>::empty()
                &&& r.click is None
                &&& r.conversion_offer is None
            },
        },
{
    match selected {
        MatrixData::Offer(offer) => ExtraClickPlan {
            redirect_url: offer.url.clone(),
            click: Some(ClickedElement::Offer { id: selected_id, url: None }),
            conversion_offer: Some(offer.offer_id),
        },
        MatrixData::LandingPage(lp) => ExtraClickPlan {
            redirect_url: lp.url.clone(),
            click: Some(ClickedElement::LandingPage { id: selected_id, url: Some(lp.url.clone()) }),
            conversion_offer: None,
        },
        _ => ExtraClickPlan { redirect_url: String::new(), click: None, conversion_offer: None },
    }
}

/// The plan for a click straight to the funnel's first offer: redirect to
/// the offer, record it by the offer's id with its address, link a
/// conversion; when the first step is not an offer, an internal error
/// "not an offer".
pub fn plan_offer_click(first: &MatrixData) -> (r: Result<ExtraClickPlan, ApiError>)
    ensures
        match *first {
            MatrixData::Offer(o) => r matches Ok(p) && p.redirect_url@ == o.url@ && click_record(
                p.click,
            ) == Some(ClickRecord::Offer(o.offer_id, Some(o.url@))) && p.conversion_offer == Some(
                o.offer_id,
            ),
            _ => r matches Err(e) && e@ == ApiErrorView::InternalServerError("not an offer"@),
        },
{
    match first {
        MatrixData::Offer(offer) => Ok(
            ExtraClickPlan {
                redirect_url: offer.url.clone(),
                click: Some(
                    ClickedElement::Offer { id: offer.offer_id, url: Some(offer.url.clone()) },
                ),
                conversion_offer: Some(offer.offer_id),
            },
        ),
        _ => Err(ApiError::InternalServerError(String::from_str("not an offer"))),
    }
}

} // verus!
