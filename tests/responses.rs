use binance_signing::client::{Client, Method};
use binance_signing::coin_futures::{CoinFuturesAccount, CoinFuturesGeneral, CoinFuturesMarket};
use binance_signing::model::Error;
use binance_signing::response::{resolve_response, AccountInformation, ApiErrorEnvelope, Balance};

fn balance(asset: &str, free: &str, locked: &str) -> Balance {
    Balance { asset: asset.to_string(), free: free.to_string(), locked: locked.to_string() }
}

fn info() -> AccountInformation {
    AccountInformation {
        can_trade: true,
        can_withdraw: true,
        can_deposit: true,
        update_time: 0,
        balances: vec![balance("BTC", "1.0", "0.0"), balance("ETH", "2.0", "0.0")],
    }
}

fn client() -> Client {
    Client { api_key: "k".to_string(), secret_key: "s".to_string(), host: "https://dapi.binance.com".to_string() }
}

#[test]
fn balance_of_a_listed_asset() {
    let b = info().get_balance("BTC").unwrap();
    assert_eq!(b.asset, "BTC");
    assert_eq!(b.free, "1.0");
    assert_eq!(b.locked, "0.0");
    let e = info().get_balance("ETH").unwrap();
    assert_eq!(e.free, "2.0");
}

#[test]
fn balance_of_an_unlisted_asset_is_not_found() {
    assert_eq!(
        info().get_balance("XRP").unwrap_err(),
        Error::NotFound { msg: "Asset not found".to_string() }
    );
    let empty = AccountInformation { balances: vec![], ..info() };
    assert!(matches!(empty.get_balance("BTC"), Err(Error::NotFound { .. })));
}

#[test]
fn first_listed_balance_wins() {
    let mut i = info();
    i.balances.push(balance("BTC", "9.0", "1.0"));
    assert_eq!(i.get_balance("BTC").unwrap().free, "1.0");
}

#[test]
fn error_envelope_becomes_api_error() {
    let env = ApiErrorEnvelope {
        code: -1021,
        msg: "Timestamp for this request is outside of the recvWindow.".to_string(),
    };
    let r = resolve_response::<u32>(None, Some(env));
    assert_eq!(
        r,
        Err(Error::Api {
            code: -1021,
            msg: "Timestamp for this request is outside of the recvWindow.".to_string()
        })
    );
}

#[test]
fn decoded_body_wins_and_nothing_decoded_is_transport() {
    let env = ApiErrorEnvelope { code: -1, msg: "x".to_string() };
    assert_eq!(resolve_response(Some(5u32), Some(env)), Ok(5));
    assert!(matches!(resolve_response::<u32>(None, None), Err(Error::Transport { .. })));
}

#[test]
fn coin_futures_requests() {
    let m = CoinFuturesMarket { client: client(), recv_window: 5000 };
    let d = m.get_depth("BTCUSD_PERP");
    assert_eq!((d.method, d.path.as_str(), d.query.as_str(), d.signed), (Method::Get, "/dapi/v1/depth", "symbol=BTCUSD_PERP", false));
    assert_eq!(m.get_mark_prices(&None, &Some("BTCUSD".to_string())).query, "pair=BTCUSD");
    assert_eq!(m.get_mark_prices(&Some("A".to_string()), &Some("B".to_string())).query, "symbol=A&pair=B");
    assert_eq!(m.get_mark_prices(&None, &None).query, "");
    let k = m.get_premium_index_klines("BTCUSD_PERP", "1m", 10, None, Some(99));
    assert_eq!(k.path, "/dapi/v1/premiumIndexKlines");
    assert_eq!(k.query, "endTime=99&limit=10&symbol=BTCUSD_PERP&interval=1m");
    let h = m.get_historical_trades("BTCUSD_PERP", Some(3), 500, 8);
    assert!(h.signed);
    assert!(h.query.starts_with("fromId=3&limit=500&symbol=BTCUSD_PERP&recvWindow=5000&timestamp=8&signature="));
    let f = m.get_funding_rate("BTCUSD_PERP", Some(1), Some(2), 100, 8);
    assert_eq!(f.path, "/dapi/v1/fundingRate");
    assert!(f.query.starts_with("startTime=1&endTime=2&limit=100&symbol=BTCUSD_PERP&recvWindow=5000"));
    let a = CoinFuturesAccount { client: client(), recv_window: 5000 }.account_balance(8);
    assert!(a.query.starts_with("recvWindow=5000&timestamp=8&signature="));
    let g = CoinFuturesGeneral { client: client() }.exchange_info();
    assert_eq!((g.path.as_str(), g.query.as_str(), g.signed), ("/dapi/v1/exchangeInfo", "", false));
}
