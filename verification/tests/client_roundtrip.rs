use std::collections::HashMap;
use std::sync::{Arc, Mutex};

use mt5_rs::encode::encode_trade_request;
use mt5_rs::text::encode_string;
use mt5_rs::{Mt5Client, Mt5Error, OrderFilling, OrderType, TradeAction, TradeRequest, Transport};

/// In-memory `Transport` that replays canned terminal payloads and records
/// every request, so tests can check both encoding and decoding end to end.
struct MockPipe {
    responses: Mutex<HashMap<u32, Vec<u8>>>,
    requests: Mutex<Vec<(u32, Vec<u8>)>>,
}

impl MockPipe {
    fn new() -> Self {
        Self {
            responses: Mutex::new(HashMap::new()),
            requests: Mutex::new(Vec::new()),
        }
    }

    fn respond(&self, cmd: u32, payload: &[u8]) -> &Self {
        self.responses.lock().unwrap().insert(cmd, payload.to_vec());
        self
    }

    fn requests_for(&self, cmd: u32) -> Vec<Vec<u8>> {
        self.requests
            .lock()
            .unwrap()
            .iter()
            .filter(|(c, _)| *c == cmd)
            .map(|(_, d)| d.clone())
            .collect()
    }
}

impl Transport for MockPipe {
    fn send(&self, cmd: u32, data: &[u8]) -> Result<Vec<u8>, Mt5Error> {
        self.requests.lock().unwrap().push((cmd, data.to_vec()));
        self.responses
            .lock()
            .unwrap()
            .get(&cmd)
            .cloned()
            .ok_or_else(|| Mt5Error::InvalidResponse(format!("no canned response for cmd {}", cmd)))
    }
}

/// Shared handle on a mock pipe, so a test keeps access to what it recorded.
struct SharedPipe(Arc<MockPipe>);

impl Transport for SharedPipe {
    fn send(&self, cmd: u32, data: &[u8]) -> Result<Vec<u8>, Mt5Error> {
        self.0.send(cmd, data)
    }
}

fn mock_client(pipe: Arc<MockPipe>) -> Mt5Client {
    Mt5Client::from_transport(Box::new(SharedPipe(pipe)))
}

fn utf16_fixed(s: &str, slot_bytes: usize) -> Vec<u8> {
    let mut out = vec![0u8; slot_bytes];
    let enc: Vec<u8> = s.encode_utf16().flat_map(|u| u.to_le_bytes()).collect();
    out[..enc.len().min(slot_bytes)].copy_from_slice(&enc[..enc.len().min(slot_bytes)]);
    out
}

fn put_str16(buf: &mut [u8], offset: usize, s: &str) {
    let enc: Vec<u8> = s.encode_utf16().flat_map(|u| u.to_le_bytes()).collect();
    buf[offset..offset + enc.len()].copy_from_slice(&enc);
}

fn build_order_record(ticket: i64, symbol: &str) -> Vec<u8> {
    let mut b = Vec::new();
    b.extend_from_slice(&ticket.to_le_bytes());
    b.extend_from_slice(&1_700_000_000i64.to_le_bytes()); // time_setup
    b.extend_from_slice(&0i64.to_le_bytes()); // time_setup_msc
    b.extend_from_slice(&0i64.to_le_bytes()); // time_done
    b.extend_from_slice(&0i64.to_le_bytes()); // time_done_msc
    b.extend_from_slice(&0i64.to_le_bytes()); // time_expiration
    b.extend_from_slice(&0u32.to_le_bytes()); // type
    b.extend_from_slice(&0u32.to_le_bytes()); // type_time
    b.extend_from_slice(&0u32.to_le_bytes()); // type_filling
    b.extend_from_slice(&0u32.to_le_bytes()); // state
    b.extend_from_slice(&0i64.to_le_bytes()); // magic
    b.extend_from_slice(&0i64.to_le_bytes()); // position_id
    b.extend_from_slice(&0i64.to_le_bytes()); // position_by_id
    b.extend_from_slice(&0u32.to_le_bytes()); // reason
    b.extend_from_slice(&0.01f64.to_le_bytes()); // volume_initial
    b.extend_from_slice(&0.01f64.to_le_bytes()); // volume_current
    b.extend_from_slice(&1.15f64.to_le_bytes()); // price_open
    b.extend_from_slice(&1.16f64.to_le_bytes()); // price_current
    b.extend_from_slice(&0f64.to_le_bytes()); // price_sl
    b.extend_from_slice(&0f64.to_le_bytes()); // price_tp
    b.extend_from_slice(&0f64.to_le_bytes()); // price_stoplimit
    b.extend_from_slice(&utf16_fixed(symbol, 64)); // symbol
    b.extend_from_slice(&utf16_fixed("", 64)); // comment
    b.extend_from_slice(&utf16_fixed("", 64)); // external_id
    b
}

#[test]
fn last_error_is_local_state_no_cmd3() {
    let pipe = Arc::new(MockPipe::new());
    let client = mock_client(pipe.clone());
    // Trigger a failure: no canned response for cmd 190.
    assert!(client.account_info().is_err());
    let (code, msg) = client.last_error().unwrap();
    assert_eq!(code, -1);
    assert!(!msg.is_empty());
    // The failure itself is the only wire traffic; cmd 3 must never be sent.
    assert!(pipe.requests_for(3).is_empty());
}

#[test]
fn roundtrip_login() {
    let pipe = Arc::new(MockPipe::new());
    pipe.respond(100, &0u32.to_le_bytes());
    let client = mock_client(pipe.clone());
    client.login(12345, "secret", "Server-Demo").unwrap();
    let req = &pipe.requests_for(100)[0];
    assert_eq!(req[0..8], 12345i64.to_le_bytes());
    // password and server travel as length-prefixed UTF-16 strings.
    assert_eq!(
        encode_string("secret"),
        req[8..8 + encode_string("secret").len()]
    );
}

#[test]
fn roundtrip_positions_and_orders_total() {
    let pipe = Arc::new(MockPipe::new());
    pipe.respond(120, &2u32.to_le_bytes());
    pipe.respond(130, &1u32.to_le_bytes());
    let client = mock_client(pipe.clone());
    assert_eq!(client.positions_total().unwrap(), 2);
    assert_eq!(client.orders_total().unwrap(), 1);
    assert!(pipe.requests_for(120)[0].is_empty());
    assert!(pipe.requests_for(130)[0].is_empty());
}

#[test]
fn roundtrip_orders_get() {
    let pipe = Arc::new(MockPipe::new());
    let rec = build_order_record(999001, "EURUSD");
    let mut payload = Vec::new();
    payload.extend_from_slice(&1u32.to_le_bytes());
    payload.extend_from_slice(&rec);
    pipe.respond(131, &payload);
    let client = mock_client(pipe.clone());
    let orders = client.orders_get(None).unwrap();
    assert_eq!(orders.len(), 1);
    assert_eq!(orders[0].ticket, 999001);
    assert_eq!(orders[0].symbol, "EURUSD");
    assert_eq!(f64::from_bits(orders[0].volume_initial), 0.01);
}

#[test]
fn roundtrip_history_orders_get() {
    let pipe = Arc::new(MockPipe::new());
    let rec = build_order_record(555, "GBPUSD");
    let mut payload = Vec::new();
    payload.extend_from_slice(&1u32.to_le_bytes());
    payload.extend_from_slice(&rec);
    pipe.respond(141, &payload);
    let client = mock_client(pipe.clone());
    let orders = client.history_orders_get(0, i64::MAX).unwrap();
    assert_eq!(orders.len(), 1);
    assert_eq!(orders[0].ticket, 555);
    assert_eq!(orders[0].symbol, "GBPUSD");
}

#[test]
fn roundtrip_symbol_select() {
    let pipe = Arc::new(MockPipe::new());
    pipe.respond(171, &[]); // empty payload == success
    let client = mock_client(pipe.clone());
    assert!(client.symbol_select("EURUSD", true).unwrap());
    let req = &pipe.requests_for(171)[0];
    assert_eq!(*req, [encode_string("EURUSD"), vec![1u8]].concat());
}

#[test]
fn roundtrip_market_book() {
    let pipe = Arc::new(MockPipe::new());
    // market_book_add (191) and release (192) return empty payload on success.
    pipe.respond(191, &[]);
    pipe.respond(192, &[]);
    // market_book_get (193): count + 2 records of (type i64, price f64, volume i64, volume_real f64).
    let mut payload = Vec::new();
    payload.extend_from_slice(&2u32.to_le_bytes());
    for _ in 0..2 {
        payload.extend_from_slice(&0i64.to_le_bytes());
        payload.extend_from_slice(&1.23456f64.to_le_bytes());
        payload.extend_from_slice(&5i64.to_le_bytes());
        payload.extend_from_slice(&5.0f64.to_le_bytes());
    }
    pipe.respond(193, &payload);
    let client = mock_client(pipe.clone());
    assert!(client.market_book_add("EURUSD").unwrap());
    assert!(client.market_book_release("EURUSD").unwrap());
    let book = client.market_book_get("EURUSD").unwrap();
    assert_eq!(book.len(), 2);
    assert_eq!(f64::from_bits(book[0].price), 1.23456);
    assert_eq!(book[1].volume, 5);
}

#[test]
fn roundtrip_terminal_info_and_version() {
    let pipe = Arc::new(MockPipe::new());
    // 40-byte numeric block + UTF-16 strings at the fixed offsets.
    let mut payload = vec![0u8; 2800];
    payload[0..2].copy_from_slice(&6090u16.to_le_bytes()); // build
    payload[6] = 1; // connected
    payload[12..16].copy_from_slice(&100_000u32.to_le_bytes()); // max_bars
    payload[21..23].copy_from_slice(&10u16.to_le_bytes()); // ping_last
    payload[24..32].copy_from_slice(&1.5f64.to_le_bytes()); // community_balance
    put_str16(&mut payload, 41, "Company Inc.");
    put_str16(&mut payload, 561, "MetaTrader 5");
    put_str16(&mut payload, 1081, "English");
    put_str16(&mut payload, 1601, "C:\\MT5");
    put_str16(&mut payload, 2121, "C:\\MT5\\Data");
    put_str16(&mut payload, 2641, "C:\\MT5\\Common");
    pipe.respond(180, &payload);
    let client = mock_client(pipe.clone());
    let info = client.terminal_info().unwrap();
    assert!(info.connected);
    assert_eq!(info.build, 6090);
    assert_eq!(info.max_bars, 100_000);
    assert_eq!(info.company, "Company Inc.");
    assert_eq!(info.name, "MetaTrader 5");
    assert_eq!(info.path, "C:\\MT5");
    let ver = client.version().unwrap();
    assert_eq!(ver.version, 500);
    assert_eq!(ver.build, 6090);
}

#[test]
fn roundtrip_order_check_request_is_232_bytes() {
    let pipe = Arc::new(MockPipe::new());
    let mut reply = vec![0u8; 252];
    put_str16(&mut reply, 52, "Done");
    reply[28..36].copy_from_slice(&2.0f64.to_le_bytes());
    pipe.respond(160, &reply);
    let client = mock_client(pipe.clone());
    let req = TradeRequest {
        action: TradeAction::Deal,
        symbol: "EURUSD".into(),
        volume: 0.01f64.to_bits(),
        deviation: 20,
        type_: OrderType::Buy,
        type_filling: OrderFilling::IOC,
        ..Default::default()
    };
    let res = client.order_check(&req).unwrap();
    assert_eq!(res.retcode, 0);
    assert_eq!(f64::from_bits(res.margin), 2.0);
    assert_eq!(res.comment, "Done");
    assert!(res.is_ok());
    assert_eq!(pipe.requests_for(160)[0], encode_trade_request(&req));
    assert_eq!(pipe.requests_for(160)[0].len(), 232);
}

#[test]
fn commands_without_transport_fail_not_initialized() {
    let client = Mt5Client::new();
    assert!(matches!(client.positions_total(), Err(Mt5Error::NotInitialized)));
    assert!(matches!(client.symbol_select("EURUSD", true), Err(Mt5Error::NotInitialized)));
    // A send without a transport fails, and is recorded like any failed send.
    assert_eq!(client.last_error().unwrap(), (-1, "MT5 not initialized".to_string()));
}

#[test]
fn last_error_starts_empty_and_records_transport_errors() {
    let pipe = Arc::new(MockPipe::new());
    pipe.respond(120, &1u32.to_le_bytes());
    let client = mock_client(pipe.clone());
    assert_eq!(client.last_error().unwrap(), (0, String::new()));
    assert_eq!(client.positions_total().unwrap(), 1);
    assert_eq!(client.last_error().unwrap(), (0, String::new()));
    assert!(client.orders_total().is_err());
    assert_eq!(
        client.last_error().unwrap(),
        (-1, "Invalid response: no canned response for cmd 130".to_string())
    );
}

#[test]
fn shutdown_disconnects() {
    let pipe = Arc::new(MockPipe::new());
    pipe.respond(120, &7u32.to_le_bytes());
    let mut client = mock_client(pipe.clone());
    assert_eq!(client.positions_total().unwrap(), 7);
    client.shutdown();
    assert!(matches!(client.positions_total(), Err(Mt5Error::NotInitialized)));
}

#[test]
fn initialize_sends_handshake() {
    let pipe = Arc::new(MockPipe::new());
    pipe.respond(4, &6090u32.to_le_bytes());
    let mut client = Mt5Client::new();
    client.initialize(Box::new(SharedPipe(pipe.clone()))).unwrap();
    let req = &pipe.requests_for(4)[0];
    assert_eq!(*req, [3u32.to_le_bytes().to_vec(), encode_string("Go")].concat());
}

#[test]
fn login_failure_status_is_command_failed() {
    let pipe = Arc::new(MockPipe::new());
    pipe.respond(100, &7u32.to_le_bytes());
    let client = mock_client(pipe.clone());
    match client.login(1, "x", "y") {
        Err(Mt5Error::CommandFailed { cmd, error }) => {
            assert_eq!(cmd, 100);
            assert_eq!(error, "Login failed with status: 7");
        }
        other => panic!("unexpected {:?}", other),
    }
}

#[test]
fn send_raw_command_forwards_payload() {
    let pipe = Arc::new(MockPipe::new());
    pipe.respond(999, &[0xAA, 0xBB, 0xCC, 0xDD]);
    pipe.respond(150, &3u32.to_le_bytes());
    pipe.respond(140, &2u32.to_le_bytes());
    let client = mock_client(pipe.clone());
    let raw = client.send_raw_command(999, &[1, 2, 3]).unwrap();
    assert_eq!(raw, vec![0xAA, 0xBB, 0xCC, 0xDD]);
    assert_eq!(pipe.requests_for(999)[0], vec![1, 2, 3]);
    assert_eq!(client.history_deals_total(0, i64::MAX).unwrap(), 3);
    assert_eq!(client.history_orders_total(0, i64::MAX).unwrap(), 2);
    assert_eq!(pipe.requests_for(150)[0].len(), 16);
}
