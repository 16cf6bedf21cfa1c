use cryptix_miner::cli::{decimal_string, parse_devfund_percent, LevelFilter, Opt};

const FORMAT: &str = "devfund-percent should be --devfund-percent=XX.YY up to 2 numbers after the dot";
const TOO_LOW: &str = "devfund-percent must be at least 1%";

fn options() -> Opt {
    Opt {
        debug: false,
        mining_address: String::from("cryptix:abc"),
        cryptixd_address: String::from("127.0.0.1"),
        devfund_address: None,
        devfund_percent: 100,
        port: None,
        testnet: false,
        num_threads: None,
        mine_when_not_synced: false,
        throttle: None,
        altlogs: false,
    }
}

#[test]
fn devfund_percent_accepts_whole_and_hundredths() {
    assert_eq!(parse_devfund_percent("1"), Ok(100));
    assert_eq!(parse_devfund_percent("1.5"), Ok(150));
    assert_eq!(parse_devfund_percent("12.34"), Ok(1234));
    assert_eq!(parse_devfund_percent("1.05"), Ok(105));
    assert_eq!(parse_devfund_percent("1.50"), Ok(150));
    assert_eq!(parse_devfund_percent("1.0"), Ok(100));
    assert_eq!(parse_devfund_percent("99.99"), Ok(9999));
    assert_eq!(parse_devfund_percent("+5"), Ok(500));
    assert_eq!(parse_devfund_percent("1.+5"), Ok(105));
}

#[test]
fn devfund_percent_refuses_below_one_percent() {
    assert_eq!(parse_devfund_percent("0"), Err(TOO_LOW));
    assert_eq!(parse_devfund_percent("0.0"), Err(TOO_LOW));
    assert_eq!(parse_devfund_percent("00.00"), Err(TOO_LOW));
    assert_eq!(parse_devfund_percent("0.01"), Err(TOO_LOW));
    assert_eq!(parse_devfund_percent("0.50"), Err(TOO_LOW));
    assert_eq!(parse_devfund_percent("0.9"), Err(TOO_LOW));
    assert_eq!(parse_devfund_percent("0.99"), Err(TOO_LOW));
}

#[test]
fn devfund_percent_refuses_bad_format() {
    assert_eq!(parse_devfund_percent("100"), Err(FORMAT));
    assert_eq!(parse_devfund_percent("1.123"), Err(FORMAT));
    assert_eq!(parse_devfund_percent("1.2.3"), Err(FORMAT));
    assert_eq!(parse_devfund_percent(""), Err(FORMAT));
    assert_eq!(parse_devfund_percent(".5"), Err(FORMAT));
    assert_eq!(parse_devfund_percent("5."), Err(FORMAT));
    assert_eq!(parse_devfund_percent("a"), Err(FORMAT));
    assert_eq!(parse_devfund_percent("-1"), Err(FORMAT));
    assert_eq!(parse_devfund_percent("é"), Err(FORMAT));
    assert_eq!(parse_devfund_percent("+"), Err(FORMAT));
    assert_eq!(parse_devfund_percent("1.-5"), Err(FORMAT));
}

#[test]
fn decimal_strings() {
    assert_eq!(decimal_string(0), "0");
    assert_eq!(decimal_string(9), "9");
    assert_eq!(decimal_string(10), "10");
    assert_eq!(decimal_string(19201), "19201");
    assert_eq!(decimal_string(65535), "65535");
}

#[test]
fn port_defaults_by_network() {
    let mut o = options();
    assert_eq!(o.port(), 19201);
    assert_eq!(o.port, Some(19201));
    let mut t = options();
    t.testnet = true;
    assert_eq!(t.port(), 19202);
    let mut given = options();
    given.port = Some(5);
    assert_eq!(given.port(), 5);
}

#[test]
fn log_level_follows_debug() {
    let mut o = options();
    assert_eq!(o.log_level(), LevelFilter::Info);
    o.debug = true;
    assert_eq!(o.log_level(), LevelFilter::Debug);
}

#[test]
fn devfund_address_is_fixed() {
    assert_eq!(
        options().devfund_address(),
        "cryptix:qrjefk2r8wp607rmyvxmgjansqcwugjazpu2kk2r7057gltxetdvk8gl9fs0w"
    );
}

#[test]
fn bare_host_becomes_grpc_url() {
    let mut o = options();
    o.cryptixd_address = String::new();
    assert!(o.normalize_address());
    assert_eq!(o.cryptixd_address, "127.0.0.1");
    o.to_grpc_url();
    assert_eq!(o.cryptixd_address, "grpc://127.0.0.1:19201");
    assert_eq!(o.port, Some(19201));

    let mut t = options();
    t.testnet = true;
    t.cryptixd_address = String::from("10.0.0.2");
    assert!(t.normalize_address());
    t.to_grpc_url();
    assert_eq!(t.cryptixd_address, "grpc://10.0.0.2:19202");
}

#[test]
fn grpc_url_is_kept() {
    let mut o = options();
    o.cryptixd_address = String::from("grpc://node:1");
    assert!(!o.normalize_address());
    assert_eq!(o.cryptixd_address, "grpc://node:1");
    let mut short = options();
    short.cryptixd_address = String::from("grpc:/");
    assert!(short.normalize_address());
}
