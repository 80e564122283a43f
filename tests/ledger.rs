use uni::ledger::{ledger_from_members, parse_paid_entries, BuyEntry, Ledger};
use uni::quotes::{load_crypto_prices, CoinApiRecord, Platform, Quote, QuoteTable, Usd, QUOTES_ENDPOINT};
use uni::text::{join, push_decimal};

fn reserialize(ledger: &Ledger) -> String {
    let members: Vec<String> = ledger
        .symbols()
        .iter()
        .map(|s| {
            let n = ledger.entry_count(s).unwrap();
            let entries = vec!["{}"; n].join(",");
            format!("{}:[{}]", serde_json::to_string(s).unwrap(), entries)
        })
        .collect();
    format!("{{{}}}", members.join(","))
}

#[test]
fn round_trip_keeps_symbols_and_counts() {
    let texts = [
        r#"{"BTC":[],"ETH":[]}"#,
        r#"{"BTC":[{"date":"2024-01-01","amount":0.5}],"eth":[{},{},{}]}"#,
        r#"{}"#,
        r#"{"Ünï \"q\"":[{"nested":{"a":[1,2]}}]}"#,
    ];
    for text in texts {
        let first = parse_paid_entries(text).unwrap();
        let second = parse_paid_entries(&reserialize(&first)).unwrap();
        let mut a = first.symbols();
        let mut b = second.symbols();
        a.sort();
        b.sort();
        assert_eq!(a, b);
        for s in &a {
            assert_eq!(first.entry_count(s), second.entry_count(s));
        }
        assert_eq!(first.len(), second.len());
    }
}

#[test]
fn entry_counts() {
    let ledger = parse_paid_entries(r#"{"BTC":[{},{"amount":1}],"ETH":[]}"#).unwrap();
    assert_eq!(ledger.len(), 2);
    assert_eq!(ledger.entry_count("BTC"), Some(2));
    assert_eq!(ledger.entry_count("ETH"), Some(0));
    assert_eq!(ledger.entry_count("btc"), None);
}

#[test]
fn later_member_wins() {
    let ledger = parse_paid_entries(r#"{"A":[],"A":[{}]}"#).unwrap();
    assert_eq!(ledger.len(), 1);
    assert_eq!(ledger.entry_count("A"), Some(1));
}

#[test]
fn malformed_and_misshapen_text_is_refused() {
    for text in ["", "{", "[1]", r#"{"BTC":1}"#, r#"{"BTC":[1]}"#, "{\"SOL\":[]}} "] {
        let err = parse_paid_entries(text).err().expect("refused");
        assert!(!err.is_empty());
        assert!(err.contains("line"));
    }
}

#[test]
fn insert_replaces() {
    let mut ledger = Ledger::new();
    ledger.insert("X".to_string(), Vec::new());
    ledger.insert("Y".to_string(), Vec::new());
    ledger.insert("X".to_string(), parse_entries(3));
    assert_eq!(ledger.len(), 2);
    assert_eq!(ledger.entry_count("X"), Some(3));
    assert_eq!(ledger.symbols(), vec!["X".to_string(), "Y".to_string()]);
}

fn parse_entries(n: usize) -> Vec<BuyEntry> {
    (0..n).map(|_| BuyEntry {}).collect()
}

#[test]
fn decimal_text() {
    for (n, want) in [(0usize, "0"), (7, "7"), (10, "10"), (1234, "1234"), (usize::MAX, &*usize::MAX.to_string())] {
        let mut s = "n=".to_string();
        push_decimal(&mut s, n);
        assert_eq!(s, format!("n={}", want));
    }
}

#[test]
fn join_text() {
    assert_eq!(join(&Vec::new(), ","), "");
    assert_eq!(join(&vec!["a".to_string()], ","), "a");
    assert_eq!(join(&vec!["a".to_string(), "b".to_string(), "c".to_string()], ", "), "a, b, c");
}

#[test]
fn price_request_joins_symbols() {
    let r = load_crypto_prices("key".to_string(), vec!["BTC".to_string(), "ETH".to_string()]);
    assert_eq!(r.url, format!("{}?symbol=BTC,ETH", QUOTES_ENDPOINT));
    assert_eq!(r.url, "https://pro-api.coinmarketcap.com/v2/cryptocurrency/quotes/latest?symbol=BTC,ETH");
    assert_eq!(r.header_name, "X-API-KEY");
    assert_eq!(r.header_value, "key");
}

#[test]
fn quote_table_keeps_each_symbol_once() {
    let record = |id: i32| CoinApiRecord {
        id,
        name: "Bitcoin".to_string(),
        symbol: "BTC".to_string(),
        platform: Some(Platform { id: 1, name: "Ethereum".to_string() }),
        quote: Quote { usd: Usd { price: Some("64000.5".to_string()) } },
    };
    let mut table = QuoteTable::new();
    assert_eq!(table.len(), 0);
    table.insert("BTC".to_string(), vec![record(1)]);
    table.insert("ETH".to_string(), Vec::new());
    table.insert("BTC".to_string(), vec![record(2), record(3)]);
    assert_eq!(table.len(), 2);
    let btc = table.records("BTC").unwrap();
    assert_eq!(btc.iter().map(|r| r.id).collect::<Vec<_>>(), vec![2, 3]);
    assert_eq!(table.records("ETH").unwrap().len(), 0);
    assert!(table.records("SOL").is_none());
}

#[test]
fn ledger_from_decoded_members() {
    let ledger = ledger_from_members(vec![
        ("A".to_string(), vec![BuyEntry {}]),
        ("B".to_string(), Vec::new()),
        ("A".to_string(), vec![BuyEntry {}, BuyEntry {}]),
    ]);
    assert_eq!(ledger.len(), 2);
    assert_eq!(ledger.entry_count("A"), Some(2));
    assert_eq!(ledger.entry_count("B"), Some(0));
    assert_eq!(ledger.symbols(), vec!["A".to_string(), "B".to_string()]);
}
