use binance_signing::account::Account;
use binance_signing::client::{Client, Method};
use binance_signing::encode::encode_params;
use binance_signing::model::{Error, OrderResponse, OrderSide, OrderType, TimeInForce};
use binance_signing::request::{OrderCancellation, OrderRequest, OrdersQuery};
use binance_signing::sign::sign_query;
use binance_signing::text::{to_hex, u64_text, Decimal};

const SECRET: &str = "NhqPtmdSJYdKjVHjA7PZj4Mge3R5YNiP1e3UZjInClVN65XAbvqqM6A7H5fATj0j";

fn account(recv_window: u64) -> Account {
    Account {
        client: Client {
            api_key: "key".to_string(),
            secret_key: SECRET.to_string(),
            host: "https://api.binance.com".to_string(),
        },
        recv_window,
    }
}

fn limit_buy(time_in_force: Option<TimeInForce>, iceberg_qty: Option<Decimal>) -> OrderRequest {
    OrderRequest {
        symbol: "BTCUSDT".to_string(),
        side: OrderSide::Buy,
        order_type: OrderType::Limit,
        time_in_force,
        quantity: Some(Decimal::new(10, 0)),
        quote_order_qty: None,
        price: Some(Decimal::new(14, 3)),
        new_client_order_id: None,
        stop_price: None,
        iceberg_qty,
        new_order_resp_type: None,
        recv_window: None,
    }
}

#[test]
fn integers_render_in_decimal() {
    assert_eq!(u64_text(0), "0");
    assert_eq!(u64_text(42), "42");
    assert_eq!(u64_text(1499827319559), "1499827319559");
    assert_eq!(u64_text(u64::MAX), "18446744073709551615");
}

#[test]
fn decimals_render_with_their_scale() {
    assert_eq!(Decimal::new(14, 3).to_text(), "0.014");
    assert_eq!(Decimal::new(10, 0).to_text(), "10");
    assert_eq!(Decimal::new(100, 1).to_text(), "10.0");
    assert_eq!(Decimal::new(5, 2).to_text(), "0.05");
    assert_eq!(Decimal::new(12345, 2).to_text(), "123.45");
    assert_eq!(Decimal::new(0, 1).to_text(), "0.0");
}

#[test]
fn bytes_render_in_lower_case_hex() {
    assert_eq!(to_hex(&vec![0x00, 0xab, 0x0f, 0x90]), "00ab0f90");
    assert_eq!(to_hex(&vec![]), "");
}

#[test]
fn params_join_in_order() {
    let none: Vec<(String, String)> = vec![];
    assert_eq!(encode_params(&none), "");
    let ps = vec![("a".to_string(), "1".to_string()), ("b".to_string(), "x y".to_string())];
    assert_eq!(encode_params(&ps), "a=1&b=x y");
}

#[test]
fn order_encodes_present_fields_in_declaration_order() {
    let o = limit_buy(Some(TimeInForce::FOK), None);
    assert_eq!(
        encode_params(&o.to_params()),
        "symbol=BTCUSDT&side=BUY&type=LIMIT&timeInForce=FOK&quantity=10&price=0.014"
    );
    let mut full = limit_buy(Some(TimeInForce::GTC), Some(Decimal::new(1, 0)));
    full.new_client_order_id = Some("my_id".to_string());
    full.new_order_resp_type = Some(OrderResponse::Full);
    full.recv_window = Some(5000);
    assert_eq!(
        encode_params(&full.to_params()),
        "symbol=BTCUSDT&side=BUY&type=LIMIT&timeInForce=GTC&quantity=10&price=0.014\
         &newClientOrderId=my_id&icebergQty=1&newOrderRespType=FULL"
    );
}

#[test]
fn encoding_is_deterministic() {
    let a = limit_buy(Some(TimeInForce::IOC), None);
    let mut b = limit_buy(Some(TimeInForce::IOC), None);
    b.recv_window = Some(1234);
    let first = encode_params(&a.to_params());
    assert_eq!(first, encode_params(&a.to_params()));
    assert_eq!(first, encode_params(&b.to_params()));
    let c = OrderCancellation {
        symbol: "ETHBTC".to_string(),
        order_id: Some(7),
        orig_client_order_id: None,
        new_client_order_id: Some("n".to_string()),
        recv_window: None,
    };
    assert_eq!(encode_params(&c.to_params()), "symbol=ETHBTC&orderId=7&newClientOrderId=n");
    assert_eq!(encode_params(&c.to_params()), encode_params(&c.clone().to_params()));
}

#[test]
fn signature_matches_known_vector() {
    let q = sign_query(
        "symbol=LTCBTC&side=BUY&type=LIMIT&timeInForce=GTC&quantity=1&price=0.1",
        5000,
        1499827319559,
        SECRET,
    );
    assert_eq!(
        q,
        "symbol=LTCBTC&side=BUY&type=LIMIT&timeInForce=GTC&quantity=1&price=0.1\
         &recvWindow=5000&timestamp=1499827319559\
         &signature=c8db56825ae71d6d79447849e617115f4a920fa2acdcab2b053c4b2838bd6b71"
    );
}

#[test]
fn signature_depends_on_every_input() {
    let base = sign_query("symbol=A", 5000, 100, "s");
    assert_eq!(base, sign_query("symbol=A", 5000, 100, "s"));
    assert_ne!(base, sign_query("symbol=B", 5000, 100, "s"));
    assert_ne!(base, sign_query("symbol=A", 5001, 100, "s"));
    assert_ne!(base, sign_query("symbol=A", 5000, 101, "s"));
    let other_secret = sign_query("symbol=A", 5000, 100, "t");
    assert_ne!(base, other_secret);
    let sig = |q: &str| q.rsplit("&signature=").next().unwrap().to_string();
    assert_ne!(sig(&base), sig(&other_secret));
    assert_eq!(sig(&base).len(), 64);
}

#[test]
fn empty_params_need_no_placeholder() {
    let q = sign_query("", 5000, 7, "s");
    assert!(q.starts_with("recvWindow=5000&timestamp=7&signature="));
    let r = account(6000).get_account(7);
    assert_eq!(r.method, Method::Get);
    assert_eq!(r.path, "/api/v3/account");
    assert!(r.signed);
    assert!(r.query.starts_with("recvWindow=6000&timestamp=7&signature="));
}

#[test]
fn iceberg_without_gtc_fails_before_any_request() {
    let o = limit_buy(Some(TimeInForce::FOK), Some(Decimal::new(1, 0)));
    match account(5000).place_order(&o, 1) {
        Err(Error::InvalidOrder { msg }) => {
            assert_eq!(msg, "Time in force has to be GTC for iceberg orders");
            assert!(msg.contains("GTC"));
        }
        other => panic!("expected a validation error, got {:?}", other),
    }
    let no_tif = limit_buy(None, Some(Decimal::new(1, 0)));
    assert!(matches!(account(5000).place_test_order(&no_tif, 1), Err(Error::InvalidOrder { .. })));
}

#[test]
fn iceberg_with_gtc_passes() {
    let o = limit_buy(Some(TimeInForce::GTC), Some(Decimal::new(1, 0)));
    assert_eq!(o.valid(), Ok(()));
    let r = account(5000).place_order(&o, 1499827319559).unwrap();
    assert_eq!(r.method, Method::Post);
    assert_eq!(r.path, "/api/v3/order");
    assert!(r.query.starts_with(
        "symbol=BTCUSDT&side=BUY&type=LIMIT&timeInForce=GTC&quantity=10&price=0.014&icebergQty=1\
         &recvWindow=5000&timestamp=1499827319559&signature="
    ));
}

#[test]
fn large_recv_window_is_passed_on() {
    let mut o = limit_buy(Some(TimeInForce::GTC), None);
    o.recv_window = Some(70000);
    let r = account(5000).place_order(&o, 3).unwrap();
    assert!(r.query.contains("&recvWindow=70000&timestamp=3&"));
    let q = OrdersQuery {
        symbol: "BTCUSDT".to_string(),
        order_id: None,
        start_time: Some(1),
        end_time: None,
        limit: Some(1000),
        recv_window: None,
    };
    let r = account(90000).get_all_orders(&q, 3);
    assert_eq!(r.path, "/api/v3/allOrders");
    assert!(r.query.starts_with("symbol=BTCUSDT&startTime=1&limit=1000&recvWindow=90000&timestamp=3&signature="));
}
