use adbuy_core::campaign_api::{
    depth_query, extra_single_route, extract_matrix_id, find_depth, initial_click_conversion,
    lander_url_with_depth,
    matrix_id_from_query, plan_matrix_click, plan_offer_click, url_with_depth, ClickedElement,
    ExtraRoute,
};
use adbuy_core::errors::ApiError;
use adbuy_core::matrix::{LandingPage, MatrixData, Offer, SequenceType};
use adbuy_core::params::to_hashmap_from_str;

const ID_TEXT: &str = "550e8400-e29b-41d4-a716-446655440000";
const ID: u128 = 0x550e8400_e29b_41d4_a716_446655440000;

#[test]
fn matrix_id_read_from_referrer() {
    let referrer = format!("http://lander.example/page?x=1&mid={}", ID_TEXT);
    assert_eq!(extract_matrix_id(Some(&referrer)), Some(Ok(ID)));
    // the simple form of a UUID is accepted too
    let referrer = "http://lander.example/?mid=550e8400e29b41d4a716446655440000";
    assert_eq!(extract_matrix_id(Some(referrer)), Some(Ok(ID)));
}

#[test]
fn matrix_id_errors() {
    assert_eq!(
        extract_matrix_id(None),
        Some(Err("No referrer url found:GHT$%^".to_string()))
    );
    assert_eq!(
        extract_matrix_id(Some("not a url")),
        Some(Err("url from str parse failed".to_string()))
    );
    assert_eq!(
        extract_matrix_id(Some("http://a.example/p")),
        Some(Err("No query found: $TYHG".to_string()))
    );
    assert_eq!(
        extract_matrix_id(Some("http://a.example/p?x=1")),
        Some(Err("No extracted matrix id found".to_string()))
    );
    assert_eq!(
        extract_matrix_id(Some("http://a.example/p?mid=zzz")),
        Some(Err("Uuid parse failed: Y%$G".to_string()))
    );
    assert_eq!(
        extract_matrix_id(Some("http://a.example/p?mid=a=b")),
        Some(Err("param greater than 3".to_string()))
    );
    assert_eq!(extract_matrix_id(Some("http://a.example/p?flag&mid=1")), None);
    assert_eq!(
        matrix_id_from_query(&format!("mid={}", ID_TEXT)),
        Ok(ID)
    );
}

#[test]
fn lander_depth_is_carried_in_query() {
    assert_eq!(depth_query(None, 3), "d=3");
    assert_eq!(depth_query(Some("a=b"), 12), "a=b&d=12");
    let q = depth_query(Some("d=1&x=y"), 4);
    assert_eq!(find_depth(&to_hashmap_from_str(&q).unwrap()), Some(4));
    let q = depth_query(None, usize::MAX);
    assert_eq!(find_depth(&to_hashmap_from_str(&q).unwrap()), Some(usize::MAX));
}

fn offer(id: u128, url: &str) -> Offer {
    Offer { offer_id: id, name: "o".to_string(), url: url.to_string(), weight: 100 }
}

fn lander(url: &str, ctas: u8) -> LandingPage {
    LandingPage {
        landing_page_id: 9,
        name: "lp".to_string(),
        url: url.to_string(),
        weight: 100,
        number_of_calls_to_action: ctas,
    }
}

#[test]
fn routes_by_sequence_type() {
    assert_eq!(extra_single_route(Some(SequenceType::Matrix)).ok(), Some(ExtraRoute::ThroughMatrixNode));
    assert_eq!(extra_single_route(Some(SequenceType::OffersOnly)).ok(), Some(ExtraRoute::ToFirstOffer));
    assert_eq!(
        extra_single_route(Some(SequenceType::LandingPageAndOffers)).ok(),
        Some(ExtraRoute::ToFirstOffer)
    );
    match extra_single_route(None) {
        Err(ApiError::InternalServerError(m)) => assert_eq!(m, "no sequence found"),
        _ => panic!("unexpected"),
    }
}

#[test]
fn matrix_click_plans() {
    let p = plan_matrix_click(77, &MatrixData::Offer(offer(5, "http://offer.example/")));
    assert_eq!(p.redirect_url, "http://offer.example/");
    assert!(matches!(p.click, Some(ClickedElement::Offer { id: 77, url: None })));
    assert_eq!(p.conversion_offer, Some(5));
    let p = plan_matrix_click(78, &MatrixData::LandingPage(lander("http://lp.example/", 1)));
    assert_eq!(p.redirect_url, "http://lp.example/");
    match p.click {
        Some(ClickedElement::LandingPage { id, url }) => {
            assert_eq!(id, 78);
            assert_eq!(url.as_deref(), Some("http://lp.example/"));
        }
        _ => panic!("unexpected"),
    }
    assert_eq!(p.conversion_offer, None);
    let p = plan_matrix_click(79, &MatrixData::Void);
    assert_eq!(p.redirect_url, "");
    assert!(p.click.is_none() && p.conversion_offer.is_none());
}

#[test]
fn first_offer_click_plans() {
    let p = plan_offer_click(&MatrixData::Offer(offer(6, "http://o.example/"))).ok().unwrap();
    assert_eq!(p.redirect_url, "http://o.example/");
    match p.click {
        Some(ClickedElement::Offer { id, url }) => {
            assert_eq!(id, 6);
            assert_eq!(url.as_deref(), Some("http://o.example/"));
        }
        _ => panic!("unexpected"),
    }
    assert_eq!(p.conversion_offer, Some(6));
    match plan_offer_click(&MatrixData::Source) {
        Err(ApiError::InternalServerError(m)) => assert_eq!(m, "not an offer"),
        _ => panic!("unexpected"),
    }
}

#[test]
fn lander_addresses_carry_their_depth() {
    assert_eq!(
        lander_url_with_depth("https://lp.example/page?a=1", 3).as_deref(),
        Some("https://lp.example/page?a=1&d=3")
    );
    assert_eq!(lander_url_with_depth("https://lp.example/page", 2).as_deref(), Some("https://lp.example/page?d=2"));
    assert_eq!(lander_url_with_depth("https://x.example/p#top", 1).as_deref(), Some("https://x.example/p?d=1#top"));
    assert_eq!(lander_url_with_depth("not a url", 1), None);
    assert_eq!(url_with_depth("https://x.example/", Some("k=v"), 10).as_deref(), Some("https://x.example/?k=v&d=10"));
    assert_eq!(url_with_depth("nope", None, 1), None);
}

#[test]
fn first_click_links_a_conversion_to_an_offer() {
    let offer = MatrixData::Offer(Offer { offer_id: 77, name: "o".to_string(), url: "https://o.example".to_string(), weight: 1 });
    assert_eq!(initial_click_conversion(&offer), Some(77));
    assert_eq!(initial_click_conversion(&MatrixData::Source), None);
    assert_eq!(initial_click_conversion(&MatrixData::Void), None);
}
