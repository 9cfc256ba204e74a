use dia_gateway::client::{self, ClientTestContract};
use dia_gateway::delivery::{hex_id, CallbackError};
use dia_gateway::quote::{self, QuoteData, QuoteTestContract, SIGNER_DIA_ORACLES_ACCOUNT_ID};
use dia_gateway::symbols::{self, SymbolsData, SymbolsTestContract};
use dia_gateway::trade_volume::{self, TradeVolumeTestContract};
use near_sdk::json_types::U128;

fn btc_quote() -> QuoteData {
    QuoteData {
        symbol: String::from("BTC"),
        name: String::from("Bitcoin"),
        price: 61234.5f64.to_bits(),
        price_yesterday: 60000.0f64.to_bits(),
        volume_yesterday_usd: 1.5e9f64.to_bits(),
        source: String::from("diadata.org"),
        time: String::from("2021-05-01T00:00:00Z"),
        itin: String::from("DXVPYDQOH"),
    }
}

#[test]
fn test_id() {
    let mut contract = QuoteTestContract::new();
    let id: U128 = 13123123.into();
    contract.set_id(id.0);
    assert_eq!(U128::from(contract.get_id()), id, "Contract id is different from the expected");
}

#[test]
fn lib_test_id() {
    let mut contract = SymbolsTestContract::new();
    let id: U128 = 13123123.into();
    contract.set_id(id.0);
    assert_eq!(U128::from(contract.get_id()), id, "Contract id is different from the expected");
}

#[test]
fn trade_volume_test_id() {
    let mut contract = TradeVolumeTestContract::new();
    let id: U128 = 13123123.into();
    contract.set_id(id.0);
    assert_eq!(U128::from(contract.get_id()), id, "Contract id is different from the expected");
}

#[test]
fn authorized_delivery_is_stored() {
    let mut contract = QuoteTestContract::new();
    let deliverer = String::from(SIGNER_DIA_ORACLES_ACCOUNT_ID);
    assert_eq!(contract.callback(&deliverer, 1, String::new(), quote::ResponseData::Quote(btc_quote())), Ok(()));
    let response = contract.get_callback_response();
    assert_eq!(response.request_id, 1);
    assert_eq!(response.err, "");
    assert_eq!(response.data, quote::ResponseData::Quote(btc_quote()));
}

#[test]
fn unauthorized_delivery_changes_nothing() {
    let mut contract = QuoteTestContract::new();
    let deliverer = String::from(SIGNER_DIA_ORACLES_ACCOUNT_ID);
    contract.callback(&deliverer, 1, String::new(), quote::ResponseData::Quote(btc_quote())).unwrap();
    let before = contract.get_callback_response();
    assert_eq!(
        contract.callback(&String::from("mallory.testnet"), 2, String::new(), quote::ResponseData::NoData),
        Err(CallbackError::UnauthorizedCallback)
    );
    assert_eq!(contract.get_callback_response(), before);
}

#[test]
fn error_deliveries_are_stored_and_clear_keeps_error() {
    let mut contract = QuoteTestContract::with_deliverer(String::from("bridge.testnet"));
    let bridge = String::from("bridge.testnet");
    assert_eq!(
        contract.callback(&String::from(SIGNER_DIA_ORACLES_ACCOUNT_ID), 3, String::new(), quote::ResponseData::NoData),
        Err(CallbackError::UnauthorizedCallback)
    );
    contract.callback(&bridge, 4, String::from("not found"), quote::ResponseData::Quote(btc_quote())).unwrap();
    contract.clear_callback_response();
    let response = contract.get_callback_response();
    assert_eq!(response.request_id, 4);
    assert_eq!(response.err, "not found");
    assert_eq!(response.data, quote::ResponseData::NoData);
}

#[test]
fn requests_take_the_next_id() {
    let mut contract = QuoteTestContract::new();
    assert_eq!(contract.get_id(), 100);
    let args = contract.make_request(String::from("BTC"));
    assert_eq!(args.request_id, 101);
    assert_eq!(args.data_key, "quotation");
    assert_eq!(args.data_item, "BTC");
    assert_eq!(args.callback, "callback");
    assert_eq!(contract.get_id(), 101);

    let mut symbols_contract = SymbolsTestContract::new();
    let args = symbols_contract.make_request(String::from("Binance"));
    assert_eq!((args.request_id, args.data_key.as_str()), (101, "symbols"));

    let mut volume_contract = TradeVolumeTestContract::new();
    let args = volume_contract.make_request(String::from("ETH"));
    assert_eq!((args.request_id, args.data_key.as_str()), (101, "volume"));
}

#[test]
fn symbols_delivery_round_trip() {
    let mut contract = SymbolsTestContract::new();
    let deliverer = String::from(symbols::SIGNER_DIA_ORACLES_ACCOUNT_ID);
    let data = SymbolsData { symbols: vec![String::from("BTC"), String::from("ETH")] };
    contract.callback(&deliverer, 9, String::new(), symbols::ResponseData::Symbols(data)).unwrap();
    let response = contract.get_callback_response();
    assert_eq!(response.request_id, 9);
    assert_eq!(
        response.data,
        symbols::ResponseData::Symbols(SymbolsData { symbols: vec![String::from("BTC"), String::from("ETH")] })
    );
    assert_eq!(
        contract.callback(&String::from("x.testnet"), 10, String::new(), symbols::ResponseData::NoData),
        Err(CallbackError::UnauthorizedCallback)
    );
    assert_eq!(contract.get_callback_response().request_id, 9);
}

#[test]
fn trade_volume_delivery_checks_deliverer() {
    let mut contract = TradeVolumeTestContract::new();
    assert_eq!(contract.authorized_deliverer, "dia-oracles.testnet");
    let volume = 1234.25f64.to_bits();
    assert_eq!(
        contract.callback(&String::from("dia.oracles.testnet"), String::new(), trade_volume::ResponseData::TradeVolume(volume)),
        Err(CallbackError::UnauthorizedCallback)
    );
    assert_eq!(contract.get_callback_response().data, trade_volume::ResponseData::NoData);
    contract.callback(&String::from("dia-oracles.testnet"), String::new(), trade_volume::ResponseData::TradeVolume(volume)).unwrap();
    assert_eq!(contract.get_callback_response().data, trade_volume::ResponseData::TradeVolume(volume));
}

#[test]
fn client_id_is_hex_of_seed() {
    let seed = vec![0u8, 1, 2, 15, 16, 171, 255, 9];
    let contract = ClientTestContract::new(&seed, String::from("dia.oracles.testnet"));
    assert_eq!(contract.get_id(), "012f10abff");
    assert_eq!(hex_id(&[0x3c, 0x07]), "3c7");
    assert_eq!(hex_id(&[]), "");
}

#[test]
fn client_requests_and_deliveries() {
    let seed = vec![1u8; 7];
    let mut contract = ClientTestContract::new(&seed, String::from("dia.oracles.testnet"));
    assert_eq!(contract.set_id(String::from("abc")), "abc");
    let args = contract.make_request(String::from("quotation"), String::from("BTC"));
    assert_eq!(args.request_id, "abc");
    assert_eq!(args.data_key, "quotation");
    assert_eq!(args.callback, "callback");
    assert_eq!(
        contract.callback(&String::from("abc.testnet"), String::new(), client::ResponseData::NoData),
        Err(CallbackError::UnauthorizedCallback)
    );
    contract.callback(&String::from("dia.oracles.testnet"), String::from("late"), client::ResponseData::NoData).unwrap();
    assert_eq!(contract.get_callback_response().err, "late");
}
