use trading_control::common::config::{
    parse_symbols_csv, ConfigError, ExchangeConfig, MarketConfig,
};

fn exchange(id: u32, name: &str, kind: &str, file: &str) -> ExchangeConfig {
    ExchangeConfig {
        id,
        name: name.to_string(),
        exchange_type: kind.to_string(),
        description: format!("{} markets", name),
        symbols_file: file.to_string(),
    }
}

fn six_exchanges() -> Vec<ExchangeConfig> {
    vec![
        exchange(1, "binance_spot", "spot", "binance_spot.csv"),
        exchange(2, "binance_futures", "futures", "binance_futures.csv"),
        exchange(3, "okx_spot", "spot", "okx_spot.csv"),
        exchange(4, "okx_futures", "futures", "okx_futures.csv"),
        exchange(5, "bybit_spot", "spot", "bybit_spot.csv"),
        exchange(6, "bybit_futures", "futures", "bybit_futures.csv"),
    ]
}

fn tables() -> Vec<Option<String>> {
    vec![
        Some("id,symbol\n1,BTCUSDT\n2,ETHUSDT\n3,BTCDOMUSDT\n".to_string()),
        Some("id,symbol,extra\n1, BTCUSDT ,x\n".to_string()),
        None,
        None,
        Some("id,symbol\n".to_string()),
        None,
    ]
}

#[test]
fn test_load_config() {
    let config = MarketConfig::from_parts(six_exchanges(), tables()).unwrap();

    assert_eq!(config.get_exchanges().len(), 6);

    let binance_spot_id = config.get_exchange_id("binance_spot").unwrap();
    assert_eq!(binance_spot_id, 1);

    let symbols = config.get_symbols(binance_spot_id).unwrap();
    assert!(symbols.len() > 0);

    let btc_id = config.find_symbol_id(binance_spot_id, "BTCDOMUSDT");
    assert!(btc_id.is_some());
}

#[test]
fn lookups_answer_by_id_and_name() {
    let config = MarketConfig::from_parts(six_exchanges(), tables()).unwrap();
    assert_eq!(config.get_exchange(2).unwrap().name, "binance_futures");
    assert!(config.get_exchange(7).is_none());
    assert_eq!(config.get_exchange_name(3), Some("okx_spot".to_string()));
    assert_eq!(config.get_exchange_id("nowhere"), None);
    assert_eq!(config.find_symbol_id(1, "BTCDOMUSDT"), Some(3));
    assert_eq!(config.find_symbol_id(1, "DOGEUSDT"), None);
    assert_eq!(config.get_symbol(1, 2).unwrap().symbol, "ETHUSDT");
    assert!(config.get_symbol(1, 9).is_none());
    assert!(config.get_symbols(3).is_none());
    assert_eq!(config.get_symbols(5).unwrap().len(), 0);
    let trimmed = config.get_symbols(2).unwrap();
    assert_eq!(trimmed.len(), 1);
    assert_eq!(trimmed[0].symbol, "BTCUSDT");
    assert_eq!(trimmed[0].exchange_id, 2);
}

#[test]
fn later_exchange_of_same_id_counts() {
    let exchanges = vec![exchange(1, "first", "spot", "a.csv"), exchange(1, "second", "spot", "b.csv")];
    let config = MarketConfig::from_parts(exchanges, vec![None, None]).unwrap();
    assert_eq!(config.get_exchange_name(1), Some("second".to_string()));
}

#[test]
fn table_count_must_match() {
    let r = MarketConfig::from_parts(six_exchanges(), vec![None]);
    assert_eq!(r.err(), Some(ConfigError::TableCountMismatch));
}

#[test]
fn csv_skips_header_blank_lines_and_lines_without_comma() {
    let rows = parse_symbols_csv("id,symbol\n\n  \n7,SOLUSDT\njust one field\n+8 , ADAUSDT \r\n", 4).unwrap();
    assert_eq!(rows.len(), 2);
    assert_eq!((rows[0].id, rows[0].symbol.as_str(), rows[0].exchange_id), (7, "SOLUSDT", 4));
    assert_eq!((rows[1].id, rows[1].symbol.as_str(), rows[1].exchange_id), (8, "ADAUSDT", 4));
}

#[test]
fn csv_without_data_is_empty() {
    assert_eq!(parse_symbols_csv("", 1).unwrap().len(), 0);
    assert_eq!(parse_symbols_csv("id,symbol", 1).unwrap().len(), 0);
}

#[test]
fn csv_rejects_bad_ids() {
    assert_eq!(parse_symbols_csv("h\nx,BTC\n", 1).err(), Some(ConfigError::InvalidSymbolId));
    assert_eq!(parse_symbols_csv("h\n,BTC\n", 1).err(), Some(ConfigError::InvalidSymbolId));
    assert_eq!(parse_symbols_csv("h\n-1,BTC\n", 1).err(), Some(ConfigError::InvalidSymbolId));
    assert_eq!(parse_symbols_csv("h\n4294967296,BTC\n", 1).err(), Some(ConfigError::InvalidSymbolId));
    assert_eq!(parse_symbols_csv("h\n4294967295,BTC\n", 1).unwrap()[0].id, u32::MAX);
    assert_eq!(parse_symbols_csv("h\n007,BTC\n", 1).unwrap()[0].id, 7);
}

#[test]
fn csv_keeps_names_that_are_not_ascii() {
    let rows = parse_symbols_csv("h\n1, 比特币 \n", 1).unwrap();
    assert_eq!(rows[0].symbol, "比特币");
}

#[test]
fn later_exchange_of_an_id_counts_and_the_list_keeps_both() {
    let exchange = |id: u32, name: &str| ExchangeConfig {
        id,
        name: name.to_string(),
        exchange_type: "spot".to_string(),
        description: String::new(),
        symbols_file: String::new(),
    };
    let config = MarketConfig::from_parts(
        vec![exchange(1, "first"), exchange(2, "other"), exchange(1, "second")],
        vec![Some("id,symbol\n7,BTCUSDT\n".to_string()), None, None],
    )
    .unwrap();
    assert!(!config.has_distinct_ids());
    assert_eq!(config.get_exchanges().len(), 3);
    assert_eq!(config.get_exchange(1).unwrap().name, "second");
    assert_eq!(config.get_exchange(2).unwrap().name, "other");
    assert!(config.get_exchange(3).is_none());
    assert_eq!(config.get_exchange_name(1).as_deref(), Some("second"));
    assert_eq!(config.get_symbols(1).unwrap().len(), 1);
    let distinct = MarketConfig::from_parts(vec![exchange(1, "a"), exchange(2, "b")], vec![None, None]).unwrap();
    assert!(distinct.has_distinct_ids());
    let empty = MarketConfig::from_parts(vec![], vec![]).unwrap();
    assert!(empty.has_distinct_ids() && empty.get_exchange(0).is_none());
}
