use wf_market::client::auth::{
    authorization_value, bearer_token, build_auth_payload, me_request, my_orders_request, owned_from,
};
use wf_market::client::ws::{MessageSender, Route, WsMessage};
use wf_market::client::{Authenticated, Client, Order, PendingLogin, SignIn};
use wf_market::error::{ApiError, AuthError, WsError};
use wf_market::types::item::{Item as ItemRecord, Order as OrderRecord, OrderType};
use wf_market::types::user::{FullUser, StatusType};

type Handler = Box<dyn Fn(&WsMessage, &Route, &MessageSender) -> Result<(), WsError>>;

fn account(name: &str, status: StatusType) -> FullUser {
    FullUser {
        id: format!("id-{}", name),
        name: name.to_string(),
        role: "user".to_string(),
        reputation: 7,
        platform: "pc".to_string(),
        status_type: status,
        banned: None,
        unread_messages: 0,
    }
}

fn order(id: &str, item_id: &str) -> OrderRecord {
    OrderRecord {
        id: id.to_string(),
        order_type: OrderType::Sell,
        platinum: 10,
        quantity: 1,
        per_trade: None,
        subtype: None,
        rank: None,
        charges: None,
        amber_stars: None,
        cyan_stars: None,
        visible: true,
        item_id: item_id.to_string(),
        created_at: "2024-01-01T00:00:00Z".to_string(),
        updated_at: "2024-01-02T00:00:00Z".to_string(),
    }
}

fn item(id: &str, slug: &str) -> ItemRecord {
    ItemRecord {
        id: id.to_string(),
        tags: vec!["tag".to_string()],
        slug: slug.to_string(),
        tradable: Some(true),
        rarity: None,
        vaulted: None,
        ducats: None,
        max_rank: None,
        max_charges: None,
        max_amber_stars: None,
        max_cyan_stars: None,
        base_endo: None,
        endo_multiplier_bits: None,
        mastery_rank: None,
        i18n: Vec::new(),
    }
}

fn answered(user: Option<FullUser>, authorization: Option<&str>) -> SignIn {
    SignIn::Answered { user, authorization: authorization.map(|text| text.to_string()) }
}

fn pending(token_header: &str) -> PendingLogin {
    Client::new()
        .login(answered(Some(account("ann", StatusType::Online)), Some(token_header)), "dev-1")
        .unwrap()
}

fn signed_in(orders: Vec<OrderRecord>) -> Client<Authenticated> {
    pending("JWT token-1").complete(Ok(account("ann", StatusType::Online)), Ok(orders)).unwrap()
}

#[test]
fn new_session_is_anonymous_and_empty() {
    let client = Client::new();
    assert!(client.user.is_none());
    assert!(client.orders.is_empty());
    assert_eq!(client.status, StatusType::Offline);
    assert!(client.cached_items().is_none());
}

#[test]
fn exchange_body_fields_are_in_order() {
    assert_eq!(
        build_auth_payload("ann@example.org", "secret", "d-1"),
        vec![
            ("auth_type".to_string(), "header".to_string()),
            ("email".to_string(), "ann@example.org".to_string()),
            ("password".to_string(), "secret".to_string()),
            ("device_id".to_string(), "d-1".to_string()),
        ]
    );
}

#[test]
fn token_is_what_follows_the_scheme() {
    assert_eq!(bearer_token(Some("JWT abc.def.ghi")), Ok("abc.def.ghi".to_string()));
    assert_eq!(bearer_token(Some("JWT ")), Ok(String::new()));
    assert_eq!(bearer_token(Some("JWT")), Err(AuthError::ParsingError));
    assert_eq!(bearer_token(Some("")), Err(AuthError::ParsingError));
    assert_eq!(bearer_token(None), Err(AuthError::ParsingError));
    assert_eq!(authorization_value("abc"), "Bearer abc");
}

#[test]
fn login_without_answer_is_unknown_with_the_cause() {
    let result = Client::new().login(SignIn::Failed("timed out".to_string()), "dev");
    match result {
        Err(AuthError::Unknown(text)) => assert_eq!(text, "Unknown Error: timed out"),
        _ => panic!("expected Unknown"),
    }
}

#[test]
fn login_with_unreadable_answer_is_parsing_error() {
    let undecoded = Client::new().login(answered(None, Some("JWT token")), "dev");
    assert!(matches!(undecoded, Err(AuthError::ParsingError)));
    let no_header = Client::new().login(answered(Some(account("a", StatusType::Online)), None), "dev");
    assert!(matches!(no_header, Err(AuthError::ParsingError)));
    let short = Client::new().login(answered(Some(account("a", StatusType::Online)), Some("JW")), "dev");
    assert!(matches!(short, Err(AuthError::ParsingError)));
}

#[test]
fn pending_login_authorizes_the_refresh() {
    assert_eq!(pending("JWT token-1").authorization(), "Bearer token-1");
}

#[test]
fn login_succeeds_only_with_both_halves_of_the_refresh() {
    let client = pending("JWT token-1")
        .complete(Ok(account("ann", StatusType::InGame)), Ok(vec![order("o1", "i1"), order("o2", "i2")]))
        .unwrap();
    assert_eq!(client.get_token(), "token-1");
    assert_eq!(client.get_device_id(), "dev-1");
    assert_eq!(client.user.as_ref().unwrap().name, "ann");
    assert_eq!(client.user.as_ref().unwrap().status_type, StatusType::InGame);
    assert_eq!(client.status, StatusType::Online);
    let ids: Vec<String> = client.orders.iter().map(|o| o.get_id()).collect();
    assert_eq!(ids, vec!["o1".to_string(), "o2".to_string()]);
}

#[test]
fn failed_refresh_fails_the_login() {
    let cases: Vec<(Result<FullUser, ApiError>, Result<Vec<OrderRecord>, ApiError>)> = vec![
        (Err(ApiError::RequestError), Ok(Vec::new())),
        (Ok(account("ann", StatusType::Online)), Err(ApiError::RequestError)),
        (Err(ApiError::Unauthorized), Err(ApiError::ParsingError("x".to_string()))),
    ];
    for (user, orders) in cases {
        match pending("JWT token-1").complete(user, orders) {
            Err(AuthError::Unknown(text)) => {
                assert_eq!(text, "Unable to refresh user after authentication")
            }
            _ => panic!("expected a failed login"),
        }
    }
}

#[test]
fn refresh_replaces_account_and_orders_together() {
    let mut client = signed_in(vec![order("old", "i")]);
    let answer = client.refresh(Ok(account("bob", StatusType::Offline)), Ok(vec![order("n1", "i"), order("n2", "i")]));
    assert_eq!(answer.unwrap().name, "bob");
    assert_eq!(client.user.as_ref().unwrap().name, "bob");
    let ids: Vec<String> = client.orders.iter().map(|o| o.get_id()).collect();
    assert_eq!(ids, vec!["n1".to_string(), "n2".to_string()]);
    assert_eq!(client.status, StatusType::Online);
    assert_eq!(client.get_token(), "token-1");
}

#[test]
fn failed_refresh_leaves_the_session_as_it_was() {
    let mut client = signed_in(vec![order("old", "i")]);
    assert_eq!(
        client.refresh(Err(ApiError::RequestError), Ok(vec![order("n1", "i")])),
        Err(ApiError::RequestError)
    );
    assert_eq!(
        client.refresh(Ok(account("bob", StatusType::Offline)), Err(ApiError::Forbidden)),
        Err(ApiError::Forbidden)
    );
    let both = client.refresh(Err(ApiError::RequestError), Err(ApiError::Unauthorized));
    assert_eq!(both, Err(ApiError::Unauthorized));
    assert_eq!(client.user.as_ref().unwrap().name, "ann");
    let ids: Vec<String> = client.orders.iter().map(|o| o.get_id()).collect();
    assert_eq!(ids, vec!["old".to_string()]);
}

#[test]
fn take_order_succeeds_for_a_cached_identifier() {
    let client = signed_in(vec![order("o1", "i1"), order("o2", "i2")]);
    let mut foreign = order("o2", "i2");
    foreign.platinum = 99;
    let owned = client.take_order(Order::new(&foreign)).unwrap();
    assert_eq!(owned.get_id(), "o2");
    assert_eq!(owned.get_platinum(), 99);
}

#[test]
fn take_order_fails_for_an_absent_identifier() {
    let client = signed_in(vec![order("o1", "i1")]);
    assert!(matches!(client.take_order(Order::new(&order("o3", "i1"))), Err(ApiError::Unauthorized)));
    assert!(matches!(client.take_order(Order::new(&order("O1", "i1"))), Err(ApiError::Unauthorized)));
    let empty = signed_in(Vec::new());
    assert!(matches!(empty.take_order(Order::new(&order("o1", "i1"))), Err(ApiError::Unauthorized)));
}

#[test]
fn take_order_goes_by_the_last_refresh() {
    let mut client = signed_in(vec![order("o1", "i1")]);
    client.refresh(Ok(account("ann", StatusType::Online)), Ok(vec![order("o2", "i1")])).unwrap();
    assert!(client.take_order(Order::new(&order("o1", "i1"))).is_err());
    assert!(client.take_order(Order::new(&order("o2", "i1"))).is_ok());
}

#[test]
fn second_listing_is_served_from_the_cache() {
    let mut client = Client::new();
    assert!(client.cached_items().is_none());
    let fetched = client.store_items(&vec![item("1", "a"), item("2", "b")]);
    assert_eq!(fetched.len(), 2);
    let cached = client.cached_items().unwrap();
    let slugs: Vec<String> = cached.iter().map(|i| i.get_slug()).collect();
    assert_eq!(slugs, vec!["a".to_string(), "b".to_string()]);
    assert_eq!(cached[0].get_type().tags, vec!["tag".to_string()]);
}

#[test]
fn cache_is_never_replaced() {
    let mut client = Client::new();
    client.store_items(&vec![item("1", "a")]);
    let handed_out = client.store_items(&vec![item("2", "b"), item("3", "c")]);
    assert_eq!(handed_out.len(), 2);
    let cached = client.cached_items().unwrap();
    assert_eq!(cached.len(), 1);
    assert_eq!(cached[0].get_slug(), "a");
}

#[test]
fn empty_listing_does_not_fill_the_cache() {
    let mut client = Client::new();
    assert!(client.store_items(&Vec::new()).is_empty());
    assert!(client.cached_items().is_none());
    client.store_items(&vec![item("1", "a")]);
    assert_eq!(client.cached_items().unwrap().len(), 1);
}

#[test]
fn cache_survives_the_login() {
    let mut anonymous = Client::new();
    anonymous.store_items(&vec![item("1", "a")]);
    let client = anonymous
        .login(answered(Some(account("ann", StatusType::Online)), Some("JWT t")), "dev")
        .unwrap()
        .complete(Ok(account("ann", StatusType::Online)), Ok(Vec::new()))
        .unwrap();
    assert_eq!(client.cached_items().unwrap()[0].get_slug(), "a");
}

#[test]
fn account_requests_go_where_they_should() {
    let client = signed_in(vec![order("o1", "i1")]);
    let show = |request: wf_market::client::http::Request| {
        format!("{:?} {}", request.method, request.path)
    };
    assert_eq!(show(me_request()), "Get /me");
    assert_eq!(show(my_orders_request()), "Get /orders/my");
    assert_eq!(show(client.create_order_request()), "Post /order");
    assert_eq!(show(client.update_order_request(&client.orders[0])), "Patch /order/o1");
    assert_eq!(show(client.close_order_request("o1")), "Post /order/o1/close");
    assert_eq!(show(client.delete_order_request("o1")), "Delete /order/o1");
    assert_eq!(client.close_order_body(4), serde_json::from_str::<serde_json::Value>(r#"{"quantity":4}"#).unwrap());
    assert_eq!(client.owned_order(&order("o9", "i")).get_id(), "o9");
    assert_eq!(client.my_orders(&vec![order("a", "i"), order("b", "i")]).len(), 2);
    assert_eq!(owned_from(&vec![order("a", "i")])[0].get_id(), "a");
}

#[test]
fn websocket_builder_takes_the_credential() {
    let client = signed_in(Vec::new());
    let (_, token, device) = client.create_websocket::<Handler>().into_parts();
    assert_eq!(token, "token-1");
    assert_eq!(device, "dev-1");
}
