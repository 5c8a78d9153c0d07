use wf_market::client::catalog::{
    find_order_item, item_request, items_from, items_request, join, order_request, orders_from,
    orders_request, select_top_orders, top_orders_path, top_orders_request,
};
use wf_market::client::http::{
    answer_of, body_of, build_http, decoded, endpoint, transform_method, Exchange, Method, BASE_URL,
    REQUESTS_PER_SECOND, V1_API,
};
use wf_market::client::Order;
use wf_market::error::{ApiError, ApiErrorBody, ErrorResponse};
use wf_market::text::decimal_text;
use wf_market::types::filter::OrdersTopFilters;
use wf_market::types::item::{
    Item as ItemRecord, Order as OrderRecord, OrderType, OrderWithUser, OrdersTopResult,
};
use wf_market::types::user::{MinimalUser, StatusType};

fn order(id: &str, item_id: &str) -> OrderRecord {
    OrderRecord {
        id: id.to_string(),
        order_type: OrderType::Buy,
        platinum: 5,
        quantity: 2,
        per_trade: Some(1),
        subtype: Some("blueprint".to_string()),
        rank: Some(10),
        charges: None,
        amber_stars: None,
        cyan_stars: None,
        visible: false,
        item_id: item_id.to_string(),
        created_at: String::new(),
        updated_at: String::new(),
    }
}

fn by(id: &str, status: StatusType) -> OrderWithUser {
    OrderWithUser {
        order: order(id, "item"),
        user: MinimalUser {
            id: "u".to_string(),
            name: "n".to_string(),
            role: "user".to_string(),
            reputation: 0,
            status_type: status,
        },
    }
}

fn item(id: &str, slug: &str) -> ItemRecord {
    ItemRecord {
        id: id.to_string(),
        tags: Vec::new(),
        slug: slug.to_string(),
        tradable: None,
        rarity: None,
        vaulted: None,
        ducats: None,
        max_rank: None,
        max_charges: None,
        max_amber_stars: None,
        max_cyan_stars: None,
        base_endo: None,
        endo_multiplier_bits: None,
        mastery_rank: None,
        i18n: Vec::new(),
    }
}

fn ids(orders: &[Order]) -> Vec<String> {
    orders.iter().map(|o| o.get_id()).collect()
}

#[test]
fn constants_of_the_interface() {
    assert_eq!(BASE_URL, "https://api.warframe.market/v2");
    assert_eq!(V1_API, "https://api.warframe.market/v1");
    assert_eq!(REQUESTS_PER_SECOND, 3);
    assert_eq!(endpoint("/items"), "https://api.warframe.market/v2/items");
    assert_eq!(endpoint(""), "https://api.warframe.market/v2");
}

#[test]
fn verbs_have_their_names() {
    assert_eq!(transform_method(Method::Get), "GET");
    assert_eq!(transform_method(Method::Post), "POST");
    assert_eq!(transform_method(Method::Patch), "PATCH");
    assert_eq!(transform_method(Method::Put), "PUT");
    assert_eq!(transform_method(Method::Delete), "DELETE");
}

#[test]
fn default_headers_carry_language_and_platform() {
    let pair = |a: &str, b: &str| (a.to_string(), b.to_string());
    assert_eq!(build_http(None), vec![pair("language", "en"), pair("platform", "pc")]);
    assert_eq!(
        build_http(Some("Bearer t".to_string())),
        vec![pair("authorization", "Bearer t"), pair("language", "en"), pair("platform", "pc")]
    );
}

#[test]
fn each_outcome_on_the_wire_has_its_error() {
    assert_eq!(body_of(Exchange::SendFailed), Err(ApiError::RequestError));
    assert_eq!(body_of(Exchange::BodyUnread), Err(ApiError::Unknown("Error".to_string())));
    assert_eq!(body_of(Exchange::Body("{}".to_string())), Ok("{}".to_string()));
    assert_eq!(body_of(Exchange::Body(String::new())), Ok(String::new()));
}

#[test]
fn decoding_failure_is_a_parsing_error_with_detail() {
    assert_eq!(decoded::<u8>(Ok(3)), Ok(3));
    assert_eq!(
        decoded::<u8>(Err("Error(\"EOF\", line: 1, column: 0)".to_string())),
        Err(ApiError::ParsingError("Error Parsing: Error(\"EOF\", line: 1, column: 0)".to_string()))
    );
}

#[test]
fn reported_failure_is_passed_through() {
    let report = || ErrorResponse {
        api_version: "0.13.0".to_string(),
        data: None,
        error: ApiErrorBody { request: Some(vec!["app.errors.forbidden".to_string()]), inputs: None },
    };
    assert_eq!(answer_of::<u8>(Ok(1), None), Ok(1));
    assert_eq!(answer_of::<u8>(Ok(1), Some(report())), Ok(1));
    assert_eq!(answer_of::<u8>(Err("x".to_string()), Some(report())), Err(ApiError::WFMError(report())));
    assert_eq!(
        answer_of::<u8>(Err("x".to_string()), None),
        Err(ApiError::ParsingError("Error Parsing: x".to_string()))
    );
}

#[test]
fn catalog_requests_go_where_they_should() {
    let show = |request: wf_market::client::http::Request| {
        format!("{:?} {}", request.method, request.path)
    };
    assert_eq!(show(items_request()), "Get /items");
    assert_eq!(show(item_request("yareli_prime_set")), "Get /item/yareli_prime_set");
    assert_eq!(show(orders_request("primed_flow")), "Get /orders/item/primed_flow");
    assert_eq!(show(order_request("abc")), "Get /order/abc");
    assert_eq!(join("/a/", "b"), "/a/b");
}

#[test]
fn top_orders_without_filters_has_no_query() {
    let request = top_orders_request("primed_flow", &None).unwrap();
    assert_eq!(request.method, Method::Get);
    assert_eq!(request.path, "/orders/item/primed_flow/top");
}

#[test]
fn top_orders_query_lists_the_present_filters_in_order() {
    let filters = OrdersTopFilters {
        rank: Some(10),
        charges_lt: Some(3),
        cyan_stars: Some(0),
        subtype: Some("a b&c".to_string()),
        user_activity: Some(StatusType::InGame),
        ..Default::default()
    };
    let request = top_orders_request("primed_flow", &Some(filters)).unwrap();
    assert_eq!(
        request.path,
        "/orders/item/primed_flow/top?rank=10&chargesLt=3&cyanStars=0&subtype=a+b%26c"
    );
}

#[test]
fn top_orders_with_empty_filters_has_an_empty_query() {
    let request = top_orders_request("x", &Some(OrdersTopFilters::default())).unwrap();
    assert_eq!(request.path, "/orders/item/x/top?");
}

#[test]
fn filters_become_query_fields() {
    let all = OrdersTopFilters {
        rank: Some(1),
        rank_lt: Some(2),
        charges: Some(3),
        charges_lt: Some(4),
        amber_stars: Some(5),
        amber_stars_lt: Some(6),
        cyan_stars: Some(7),
        cyan_stars_lt: Some(4294967295),
        subtype: Some("s".to_string()),
        user_activity: Some(StatusType::Online),
    };
    let names: Vec<(String, String)> = all.query_pairs();
    let expected = [
        ("rank", "1"),
        ("rankLt", "2"),
        ("charges", "3"),
        ("chargesLt", "4"),
        ("amberStars", "5"),
        ("amberStarsLt", "6"),
        ("cyanStars", "7"),
        ("cyanStarsLt", "4294967295"),
        ("subtype", "s"),
    ];
    assert_eq!(names.len(), expected.len());
    for (got, want) in names.iter().zip(expected.iter()) {
        assert_eq!((got.0.as_str(), got.1.as_str()), *want);
    }
    assert!(OrdersTopFilters::default().query_pairs().is_empty());
}

#[test]
fn top_orders_path_for_each_query() {
    assert_eq!(top_orders_path("s", None), Ok("/orders/item/s/top".to_string()));
    assert_eq!(
        top_orders_path("s", Some(Some("rank=1".to_string()))),
        Ok("/orders/item/s/top?rank=1".to_string())
    );
    assert_eq!(
        top_orders_path("s", Some(None)),
        Err(ApiError::ParsingError("Unable to serialize filters".to_string()))
    );
}

#[test]
fn numbers_are_written_in_decimal() {
    for n in [0u32, 1, 9, 10, 11, 99, 100, 101, 1000, 65535, 1234567890, 4294967295] {
        assert_eq!(decimal_text(n), n.to_string());
    }
}

#[test]
fn orders_lose_their_authors() {
    let orders = orders_from(&vec![by("a", StatusType::Online), by("b", StatusType::Offline)]);
    assert_eq!(ids(&orders), vec!["a".to_string(), "b".to_string()]);
    assert_eq!(orders[0].get_type().subtype, Some("blueprint".to_string()));
    assert_eq!(orders[0].get_type().rank, Some(10));
    assert!(orders_from(&Vec::new()).is_empty());
}

#[test]
fn top_orders_keep_the_authors_with_the_activity_asked_for() {
    let data = OrdersTopResult {
        buy: vec![by("b1", StatusType::InGame), by("b2", StatusType::Online), by("b3", StatusType::InGame)],
        sell: vec![by("s1", StatusType::Offline), by("s2", StatusType::InGame)],
    };
    let in_game = OrdersTopFilters { user_activity: Some(StatusType::InGame), ..Default::default() };
    assert_eq!(
        ids(&select_top_orders(&data, &Some(in_game))),
        vec!["b1".to_string(), "b3".to_string(), "s2".to_string()]
    );
    let offline = OrdersTopFilters { user_activity: Some(StatusType::Offline), rank: Some(1), ..Default::default() };
    assert_eq!(ids(&select_top_orders(&data, &Some(offline))), vec!["s1".to_string()]);
}

#[test]
fn top_orders_without_an_activity_keep_nothing() {
    let data = OrdersTopResult {
        buy: vec![by("b1", StatusType::InGame)],
        sell: vec![by("s1", StatusType::Offline)],
    };
    assert!(select_top_orders(&data, &None).is_empty());
    assert!(select_top_orders(&data, &Some(OrdersTopFilters::default())).is_empty());
}

#[test]
fn order_item_is_the_first_with_its_identifier() {
    let mut second = item("i2", "second");
    second.tags = vec!["x".to_string()];
    let items = items_from(&vec![item("i1", "first"), second, item("i2", "shadowed")]);
    assert_eq!(items.len(), 3);
    let found = find_order_item(&items, &Order::new(&order("o", "i2"))).unwrap();
    assert_eq!(found.get_slug(), "second");
    assert_eq!(found.get_type().tags, vec!["x".to_string()]);
}

#[test]
fn order_item_that_is_not_listed_is_unknown() {
    let items = items_from(&vec![item("i1", "first")]);
    match find_order_item(&items, &Order::new(&order("o", "i9"))) {
        Err(ApiError::Unknown(text)) => assert_eq!(text, "Item not found"),
        _ => panic!("expected Unknown"),
    }
    assert!(find_order_item(&Vec::new(), &Order::new(&order("o", "i1"))).is_err());
}
