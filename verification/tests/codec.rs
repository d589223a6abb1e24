use mt5_rs::decode::{
    decode_login, decode_account_info, decode_check_result, decode_count, decode_symbol_info, decode_symbols,
    decode_terminal_info, decode_tick, decode_trade_result, parse_deals_response,
    parse_positions_response, parse_rates_response, parse_ticks_response,
};
use mt5_rs::encode::encode_trade_request;
use mt5_rs::reader::Reader;
use mt5_rs::retcodes;
use mt5_rs::text::{decode_fixed_string, encode_fixed_string, encode_string, read_string_at_offset};
use mt5_rs::{
    compute_pipe_name, discover_mt5_pipe, Mt5Error, OrderFilling, OrderTime, OrderType,
    TradeAction, TradeCheckResult, TradeRequest, TradeResult,
};

fn utf16_slot(slot: &[u8]) -> String {
    let mut chars = Vec::new();
    let mut i = 0;
    while i + 1 < slot.len() {
        let c = u16::from_le_bytes([slot[i], slot[i + 1]]);
        if c == 0 {
            break;
        }
        chars.push(c);
        i += 2;
    }
    String::from_utf16_lossy(&chars)
}

fn utf16_fixed(s: &str, slot_bytes: usize) -> Vec<u8> {
    let mut out = vec![0u8; slot_bytes];
    let enc: Vec<u8> = s.encode_utf16().flat_map(|u| u.to_le_bytes()).collect();
    out[..enc.len().min(slot_bytes)].copy_from_slice(&enc[..enc.len().min(slot_bytes)]);
    out
}

#[test]
fn encode_trade_request_byte_positions() {
    let req = TradeRequest {
        action: TradeAction::Deal,
        magic: 0,
        order: 0,
        symbol: "EURUSD".into(),
        volume: 0.01f64.to_bits(),
        price: 0.0f64.to_bits(),
        stoplimit: 0.0f64.to_bits(),
        sl: 0.0f64.to_bits(),
        tp: 0.0f64.to_bits(),
        deviation: 20,
        type_: OrderType::Buy,
        type_filling: OrderFilling::IOC,
        type_time: OrderTime::GTC,
        expiration: 0,
        comment: "t".into(),
        position: 0,
        position_by: 0,
    };
    let data = encode_trade_request(&req);
    assert_eq!(data.len(), 232, "request must be 232 bytes");
    assert_eq!(u32::from_le_bytes(data[0..4].try_into().unwrap()), 1, "action @0");
    assert_eq!(utf16_slot(&data[20..84]), "EURUSD", "symbol slot @20");
    assert_eq!(f64::from_le_bytes(data[84..92].try_into().unwrap()), 0.01, "volume @84");
    assert_eq!(u64::from_le_bytes(data[124..132].try_into().unwrap()), 20, "deviation @124");
    assert_eq!(u32::from_le_bytes(data[132..136].try_into().unwrap()), 0, "type @132");
    assert_eq!(u32::from_le_bytes(data[136..140].try_into().unwrap()), 1, "filling @136");
    assert_eq!(u32::from_le_bytes(data[140..144].try_into().unwrap()), 0, "time @140");
    assert_eq!(utf16_slot(&data[152..216]), "t", "comment slot @152");
    assert_eq!(i64::from_le_bytes(data[216..224].try_into().unwrap()), 0, "position @216");
    assert_eq!(i64::from_le_bytes(data[224..232].try_into().unwrap()), 0, "position_by @224");
}

#[test]
fn encode_trade_request_codes_and_signed_fields() {
    let mut req = TradeRequest::new(TradeAction::CloseBy, "GBPJPY", 1.5f64.to_bits(), OrderType::SellStopLimit);
    req.magic = -2;
    req.position_by = 77;
    req.type_time = OrderTime::SpecDay;
    let data = encode_trade_request(&req);
    assert_eq!(u32::from_le_bytes(data[0..4].try_into().unwrap()), 10);
    assert_eq!(i64::from_le_bytes(data[4..12].try_into().unwrap()), -2);
    assert_eq!(u32::from_le_bytes(data[132..136].try_into().unwrap()), 7);
    assert_eq!(u32::from_le_bytes(data[136..140].try_into().unwrap()), 2, "new() fills with Return");
    assert_eq!(u32::from_le_bytes(data[140..144].try_into().unwrap()), 3);
    assert_eq!(i64::from_le_bytes(data[224..232].try_into().unwrap()), 77);
}

#[test]
fn trade_request_new_defaults() {
    let req = TradeRequest::new(TradeAction::Deal, "EURUSD", 0.01f64.to_bits(), OrderType::Buy);
    assert_eq!(req.symbol, "EURUSD");
    assert_eq!(req.type_filling, OrderFilling::Return);
    assert_eq!(req.type_time, OrderTime::GTC);
    assert_eq!(req.price, 0);
    assert!(req.comment.is_empty());
}

#[test]
fn fixed_string_slot_truncates_to_whole_units() {
    let mut slot = vec![0u8; 8];
    encode_fixed_string(&mut slot, "ABCDEFG");
    assert_eq!(slot, vec![b'A', 0, b'B', 0, b'C', 0, b'D', 0]);
    let mut odd = vec![0xFFu8; 5];
    encode_fixed_string(&mut odd, "xyz");
    assert_eq!(odd, vec![b'x', 0, b'y', 0, 0xFF]);
}

#[test]
fn fixed_string_round_trip_with_astral_char() {
    let text = "é€😀";
    let mut slot = vec![0u8; 64];
    encode_fixed_string(&mut slot, text);
    assert_eq!(decode_fixed_string(&slot, 0, 64).unwrap(), text);
    assert!(matches!(decode_fixed_string(&slot, 1, 64), Err(Mt5Error::InvalidResponse(_))));
}

#[test]
fn encode_string_layout() {
    assert_eq!(encode_string("Go"), vec![2, 0, 0, 0, b'G', 0, b'o', 0]);
    assert_eq!(encode_string(""), vec![0, 0, 0, 0]);
    // A character outside the BMP takes two code units.
    assert_eq!(encode_string("😀"), vec![2, 0, 0, 0, 0x3D, 0xD8, 0x00, 0xDE]);
}

#[test]
fn read_string_at_offset_stops_at_nul_or_end() {
    let mut data = vec![0u8; 4];
    data.extend_from_slice(&utf16_fixed("Hi", 4));
    data.extend_from_slice(&[0, 0, b'Z', 0]);
    assert_eq!(read_string_at_offset(&data, 4), "Hi");
    assert_eq!(read_string_at_offset(&data, 10), "Z");
    assert_eq!(read_string_at_offset(&data, 100), "");
}

#[test]
fn decode_trade_result_too_short() {
    assert!(decode_trade_result(&[0u8; 100]).is_err());
    assert!(decode_check_result(&[0u8; 100]).is_err());
}

#[test]
fn trade_result_is_ok_matches_retcodes() {
    let ok = TradeResult {
        retcode: retcodes::DONE,
        ..Default::default()
    };
    assert!(ok.is_ok());
    let placed = TradeResult {
        retcode: retcodes::PLACED,
        ..Default::default()
    };
    assert!(placed.is_ok());
    let reject = TradeResult {
        retcode: retcodes::REJECT,
        ..Default::default()
    };
    assert!(!reject.is_ok());
}

#[test]
fn check_result_is_ok_on_zero_or_done() {
    assert!(TradeCheckResult { retcode: 0, ..Default::default() }.is_ok());
    assert!(TradeCheckResult { retcode: retcodes::DONE, ..Default::default() }.is_ok());
    assert!(!TradeCheckResult { retcode: retcodes::NO_MONEY, ..Default::default() }.is_ok());
    assert!(TradeResult { retcode: retcodes::DONE_PARTIAL, ..Default::default() }.is_ok());
}

fn trade_result_bytes() -> Vec<u8> {
    let mut b = Vec::new();
    b.extend_from_slice(&10009u32.to_le_bytes());
    b.extend_from_slice(&18785220i64.to_le_bytes());
    b.extend_from_slice(&27822128i64.to_le_bytes());
    b.extend_from_slice(&0.01f64.to_le_bytes());
    b.extend_from_slice(&1.16218f64.to_le_bytes());
    b.extend_from_slice(&1.16213f64.to_le_bytes());
    b.extend_from_slice(&1.16218f64.to_le_bytes());
    b.extend_from_slice(&utf16_fixed("Request executed", 200));
    b.extend_from_slice(&2316072679u32.to_le_bytes());
    b.extend_from_slice(&(-5i32).to_le_bytes());
    b
}

#[test]
fn decode_trade_result_fields() {
    let b = trade_result_bytes();
    assert_eq!(b.len(), 260);
    let res = decode_trade_result(&b).unwrap();
    assert_eq!(res.retcode, 10009);
    assert_eq!(res.deal, 18785220);
    assert_eq!(res.order, 27822128);
    assert_eq!(f64::from_bits(res.volume), 0.01);
    assert_eq!(f64::from_bits(res.bid), 1.16213);
    assert_eq!(res.comment, "Request executed");
    assert_eq!(res.request_id, 2316072679);
    assert_eq!(res.retcode_ext, -5);
    assert!(res.is_ok());
    assert!(decode_trade_result(&b[..259]).is_err());
}

#[test]
fn decode_check_result_fields() {
    let mut b = Vec::new();
    b.extend_from_slice(&0u32.to_le_bytes());
    for v in [103000.0f64, 103000.0, 0.0, 2.0, 102998.0, 5150000.0] {
        b.extend_from_slice(&v.to_le_bytes());
    }
    b.extend_from_slice(&utf16_fixed("Done", 200));
    let res = decode_check_result(&b).unwrap();
    assert_eq!(res.retcode, 0);
    assert_eq!(f64::from_bits(res.balance), 103000.0);
    assert_eq!(f64::from_bits(res.margin_free), 102998.0);
    assert_eq!(f64::from_bits(res.margin_level), 5150000.0);
    assert_eq!(res.comment, "Done");
}

fn tick_bytes(time: i64, bid: f64, ask: f64) -> Vec<u8> {
    let mut b = Vec::new();
    b.extend_from_slice(&time.to_le_bytes());
    b.extend_from_slice(&bid.to_le_bytes());
    b.extend_from_slice(&ask.to_le_bytes());
    b.extend_from_slice(&0f64.to_le_bytes());
    b.extend_from_slice(&3u64.to_le_bytes());
    b.extend_from_slice(&(time * 1000 + 301).to_le_bytes());
    b.extend_from_slice(&0x406u32.to_le_bytes());
    b.extend_from_slice(&0f64.to_le_bytes());
    b
}

#[test]
fn decode_tick_fields_and_shortness() {
    let b = tick_bytes(1779194693, 1.16177, 1.16189);
    assert_eq!(b.len(), 60);
    let t = decode_tick(&b).unwrap();
    assert_eq!(t.time_msc, 1779194693301);
    assert_eq!(t.flags, 0x406);
    assert_eq!(t.volume, 3);
    assert_eq!(t.time_msc / 1000, t.time);
    assert_eq!(f64::from_bits(t.ask), 1.16189);
    assert!(matches!(decode_tick(&b[..59]), Err(Mt5Error::InvalidResponse(_))));
}

#[test]
fn parse_ticks_stops_at_last_whole_record() {
    let mut b = Vec::new();
    b.extend_from_slice(&5u32.to_le_bytes());
    for i in 0..3 {
        b.extend_from_slice(&tick_bytes(100 + i, 1.0, 1.1));
    }
    b.extend_from_slice(&[1, 2, 3]);
    let ticks = parse_ticks_response(&b).unwrap();
    assert_eq!(ticks.len(), 3);
    assert_eq!(ticks[2].time, 102);
    // Fewer records announced than sent: only the announced ones.
    b[0..4].copy_from_slice(&1u32.to_le_bytes());
    assert_eq!(parse_ticks_response(&b).unwrap().len(), 1);
    assert!(parse_ticks_response(&[0, 0, 0]).is_err());
    assert_eq!(parse_ticks_response(&[0, 0, 0, 0]).unwrap().len(), 0);
}

#[test]
fn parse_rates_record_layout() {
    let mut b = Vec::new();
    b.extend_from_slice(&1u32.to_le_bytes());
    b.extend_from_slice(&1700000000i64.to_le_bytes());
    for v in [1.1f64, 1.2, 1.0, 1.15] {
        b.extend_from_slice(&v.to_le_bytes());
    }
    b.extend_from_slice(&42u64.to_le_bytes());
    b.extend_from_slice(&(-3i32).to_le_bytes());
    b.extend_from_slice(&9u64.to_le_bytes());
    let rates = parse_rates_response(&b).unwrap();
    assert_eq!(rates.len(), 1);
    assert_eq!(rates[0].time, 1700000000);
    assert_eq!(f64::from_bits(rates[0].high), 1.2);
    assert_eq!(rates[0].tick_volume, 42);
    assert_eq!(rates[0].spread, -3);
    assert_eq!(rates[0].real_volume, 9);
}

#[test]
fn parse_positions_record_layout() {
    let mut b = Vec::new();
    b.extend_from_slice(&1u32.to_le_bytes());
    for v in [27822128i64, 1, 1000, 2, 2000] {
        b.extend_from_slice(&v.to_le_bytes());
    }
    b.extend_from_slice(&0u32.to_le_bytes());
    b.extend_from_slice(&0i64.to_le_bytes());
    b.extend_from_slice(&27822128i64.to_le_bytes());
    b.extend_from_slice(&3u32.to_le_bytes());
    for v in [0.01f64, 1.16218, 0.0, 0.0, 1.1597, 0.0, 0.0, -2.14] {
        b.extend_from_slice(&v.to_le_bytes());
    }
    b.extend_from_slice(&utf16_fixed("EURUSD", 64));
    b.extend_from_slice(&utf16_fixed("test-1", 64));
    b.extend_from_slice(&utf16_fixed("", 64));
    assert_eq!(b.len(), 4 + 320);
    let p = parse_positions_response(&b).unwrap();
    assert_eq!(p.len(), 1);
    assert_eq!(p[0].ticket, 27822128);
    assert_eq!(p[0].identifier, 27822128);
    assert_eq!(p[0].reason, 3);
    assert_eq!(f64::from_bits(p[0].price_open), 1.16218);
    assert_eq!(f64::from_bits(p[0].price_current), 1.1597);
    assert_eq!(f64::from_bits(p[0].profit), -2.14);
    assert_eq!(p[0].symbol, "EURUSD");
    assert_eq!(p[0].comment, "test-1");
    assert_eq!(p[0].external_id, "");
}

#[test]
fn parse_deals_empty_and_short() {
    assert_eq!(parse_deals_response(&3u32.to_le_bytes()).unwrap().len(), 0);
    assert!(matches!(parse_deals_response(&[]), Err(Mt5Error::InvalidResponse(m)) if m == "Response too short"));
}

#[test]
fn decode_count_reads_u32() {
    assert_eq!(decode_count(&[0xFF, 0xFF, 0xFF, 0xFF, 9]).unwrap(), 4294967295);
    assert!(decode_count(&[1, 2]).is_err());
}

fn account_bytes() -> Vec<u8> {
    let mut b = Vec::new();
    b.extend_from_slice(&7395945i64.to_le_bytes());
    b.extend_from_slice(&2i32.to_le_bytes());
    b.extend_from_slice(&500i32.to_le_bytes());
    b.extend_from_slice(&200i32.to_le_bytes());
    b.extend_from_slice(&0i32.to_le_bytes());
    b.push(1);
    b.push(0);
    b.extend_from_slice(&0i32.to_le_bytes());
    b.extend_from_slice(&2i32.to_le_bytes());
    b.push(1);
    for i in 0..14 {
        let v = if i == 0 || i == 3 { 103000.0f64 } else { 0.0 };
        b.extend_from_slice(&v.to_le_bytes());
    }
    assert_eq!(b.len(), 147);
    b.extend_from_slice(&utf16_fixed("Demo User", 256));
    b.extend_from_slice(&utf16_fixed("FPTradingLLC-Demo", 128));
    b.extend_from_slice(&utf16_fixed("EUR", 64));
    b.extend_from_slice(&utf16_fixed("FP Trading LLC", 256));
    b
}

#[test]
fn decode_account_info_layout() {
    let b = account_bytes();
    assert_eq!(b.len(), 851);
    let info = decode_account_info(&b).unwrap();
    assert_eq!(info.login, 7395945);
    assert_eq!(info.leverage, 500);
    assert_eq!(info.limit_orders, 200);
    assert!(info.trade_allowed);
    assert!(!info.trade_expert);
    assert_eq!(info.currency_digits, 2);
    assert!(info.fifo_close);
    assert_eq!(f64::from_bits(info.balance), 103000.0);
    assert_eq!(f64::from_bits(info.equity), 103000.0);
    assert_eq!(info.name, "Demo User");
    assert_eq!(info.server, "FPTradingLLC-Demo");
    assert_eq!(info.currency, "EUR");
    assert_eq!(info.company, "FP Trading LLC");
    assert!(decode_account_info(&b[..850]).is_err());
    assert!(decode_account_info(&b[..147]).is_err());
    assert!(matches!(decode_account_info(&b[..7]), Err(Mt5Error::InvalidResponse(m)) if m == "Response too short"));
}

fn symbol_bytes(name: &str, digits: u32) -> Vec<u8> {
    let mut b = Vec::new();
    b.push(0); // custom
    b.extend_from_slice(&0u32.to_le_bytes()); // chart_mode
    b.push(1); // select
    b.push(1); // visible
    for _ in 0..7 {
        b.extend_from_slice(&0i64.to_le_bytes());
    }
    b.extend_from_slice(&digits.to_le_bytes());
    b.extend_from_slice(&32u32.to_le_bytes()); // spread
    b.push(1); // spread_float
    for v in [10u32, 0, 4] {
        b.extend_from_slice(&v.to_le_bytes());
    }
    b.extend_from_slice(&0i64.to_le_bytes());
    b.extend_from_slice(&0i64.to_le_bytes());
    for _ in 0..5 {
        b.extend_from_slice(&0u32.to_le_bytes());
    }
    b.push(0);
    for v in [15u32, 3, 127, 7, 0, 0] {
        b.extend_from_slice(&v.to_le_bytes());
    }
    assert_eq!(b.len(), 145);
    for i in 0..52 {
        let v = match i {
            0 => 1.14152f64,
            3 => 1.14184,
            13 => 1e-05,
            18 => 100000.0,
            22 => 0.01,
            23 => 100.0,
            24 => 0.01,
            _ => 0.0,
        };
        b.extend_from_slice(&v.to_le_bytes());
    }
    for (s, w) in [
        ("", 64), ("", 128), ("EUR", 32), ("USD", 32), ("EUR", 32), ("", 512),
        ("Euro vs US Dollar", 64), ("", 64), ("", 1024), ("", 32), ("", 128),
        ("Forex\\EURUSD", 256), (name, 64),
    ] {
        b.extend_from_slice(&utf16_fixed(s, w));
    }
    b
}

#[test]
fn decode_symbol_info_layout() {
    let b = symbol_bytes("EURUSD", 5);
    assert_eq!(b.len(), 2993);
    let mut reader = Reader::new(&b);
    let sym = decode_symbol_info(&mut reader).unwrap();
    assert!(!reader.has_error());
    assert_eq!(sym.name, "EURUSD");
    assert_eq!(sym.path, "Forex\\EURUSD");
    assert_eq!(sym.description, "Euro vs US Dollar");
    assert_eq!(sym.currency_base, "EUR");
    assert_eq!(sym.currency_profit, "USD");
    assert_eq!(sym.currency_margin, "EUR");
    assert_eq!(sym.digits, 5);
    assert_eq!(sym.spread, 32);
    assert_eq!(sym.trade_mode, 4);
    assert_eq!(sym.filling_mode, 3);
    assert_eq!(f64::from_bits(sym.point), 1e-05);
    assert_eq!(f64::from_bits(sym.trade_contract_size), 100000.0);
    assert_eq!(f64::from_bits(sym.volume_min), 0.01);
    assert_eq!(f64::from_bits(sym.volume_max), 100.0);
    assert_eq!(f64::from_bits(sym.volume_step), 0.01);
    assert_eq!(f64::from_bits(sym.bid), 1.14152);
    assert_eq!(f64::from_bits(sym.ask), 1.14184);
    assert!(sym.select);
    assert!(sym.visible);
    assert!(sym.spread_float);
    let mut short = Reader::new(&b[..2992]);
    assert!(decode_symbol_info(&mut short).is_err());
    assert!(short.has_error());
}

#[test]
fn decode_symbols_requires_every_record() {
    let rec = symbol_bytes("EURUSD", 5);
    let mut b = 2u32.to_le_bytes().to_vec();
    b.extend_from_slice(&rec);
    b.extend_from_slice(&symbol_bytes("GBPUSD", 5));
    let syms = decode_symbols(&b).unwrap();
    assert_eq!(syms.len(), 2);
    assert_eq!(syms[1].name, "GBPUSD");
    b.pop();
    assert!(decode_symbols(&b).is_err());
}

#[test]
fn decode_terminal_info_short() {
    assert!(decode_terminal_info(&[0u8; 39]).is_err());
    let t = decode_terminal_info(&[0u8; 40]).unwrap();
    assert_eq!(t.company, "");
    assert_eq!(t.build, 0);
}

#[test]
fn reader_failure_is_sticky() {
    let data = [1u8, 0, 0, 0, 2, 0];
    let mut r = Reader::new(&data);
    assert_eq!(r.read_u32(), 1);
    assert_eq!(r.read_u32(), 0);
    assert!(r.has_error());
    assert_eq!(r.read_bool1(), false);
    assert!(r.has_error());
}

#[test]
fn pipe_name_of_terminal_path() {
    assert_eq!(
        compute_pipe_name("C:\\Program Files\\MetaTrader 5\\terminal64.exe"),
        "\\\\.\\pipe\\MT5.Terminal.781AEDD6B227148DB36F632AFAB710BBA441CCEA07ED9EF5BC7B94FAED25BD12"
    );
    assert_eq!(compute_pipe_name("x").chars().count(), 86);
    // The path is lowercased first.
    assert_eq!(
        compute_pipe_name("C:\\PROGRAM FILES\\METATRADER 5\\TERMINAL64.EXE"),
        compute_pipe_name("c:\\program files\\metatrader 5\\terminal64.exe")
    );
}

#[test]
fn discover_picks_first_responding_pipe() {
    let paths = vec![
        "C:\\Program Files\\MetaTrader 5\\terminal64.exe".to_string(),
        "D:\\MT5\\terminal64.exe".to_string(),
    ];
    let second = "\\\\.\\pipe\\MT5.Terminal.37F5906E813059612E85A66845C107DD23C650BEC77C8836691F192E04E56A34";
    let found = discover_mt5_pipe(&paths, |name: &str| name == second);
    assert_eq!(found.as_deref(), Some(second));
    assert_eq!(discover_mt5_pipe(&paths, |_: &str| false), None);
}

#[test]
fn utf16_text_pairs_surrogates_and_replaces_lone_ones() {
    // "a" U+1F600 "b", then NUL and trailing bytes that are not read.
    let paired = [0x61, 0x00, 0x3D, 0xD8, 0x00, 0xDE, 0x62, 0x00, 0x00, 0x00, 0x41, 0x00];
    assert_eq!(read_string_at_offset(&paired, 0), "a\u{1F600}b");
    // A leading surrogate followed by an ordinary unit: U+FFFD, then that unit.
    let lone_high = [0x3D, 0xD8, 0x63, 0x00];
    assert_eq!(read_string_at_offset(&lone_high, 0), "\u{FFFD}c");
    // A trailing surrogate on its own.
    let lone_low = [0x00, 0xDE, 0x64, 0x00];
    assert_eq!(read_string_at_offset(&lone_low, 0), "\u{FFFD}d");
    // A leading surrogate at the end of the text.
    let last_high = [0x65, 0x00, 0x3D, 0xD8];
    assert_eq!(read_string_at_offset(&last_high, 0), "e\u{FFFD}");
    // An odd trailing byte is not a unit.
    assert_eq!(read_string_at_offset(&[0x66, 0x00, 0x67], 0), "f");
    assert_eq!(read_string_at_offset(&paired, 6), "b");
    assert_eq!(read_string_at_offset(&paired, 40), "");
}

fn invalid_message<T: std::fmt::Debug>(r: Result<T, Mt5Error>) -> String {
    match r {
        Err(Mt5Error::InvalidResponse(m)) => m,
        other => panic!("expected InvalidResponse, got {:?}", other),
    }
}

#[test]
fn decoder_error_messages() {
    let zeros = vec![0u8; 900];
    assert_eq!(invalid_message(decode_account_info(&zeros[..7])), "Response too short");
    assert_eq!(
        invalid_message(decode_account_info(&zeros[..100])),
        "Response too short for strings: 100 < 147"
    );
    assert_eq!(
        invalid_message(decode_account_info(&zeros[..147])),
        "Response too short for strings: 147 < 147"
    );
    assert_eq!(invalid_message(decode_account_info(&zeros[..148])), "Failed to read strings");
    assert_eq!(invalid_message(decode_account_info(&zeros[..850])), "Failed to read strings");
    assert_eq!(invalid_message(decode_symbols(&[1, 0])), "Response too short");
    assert_eq!(invalid_message(decode_symbols(&[1, 0, 0, 0, 9])), "Failed to read symbol info");
    assert_eq!(invalid_message(decode_tick(&zeros[..59])), "Failed to read tick");
    assert_eq!(
        invalid_message(decode_check_result(&zeros[..10])),
        "check result too short: 10 bytes (want 252)"
    );
    assert_eq!(
        invalid_message(decode_trade_result(&zeros[..259])),
        "trade result too short: 259 bytes (want 260)"
    );
    assert_eq!(
        invalid_message(decode_fixed_string(&zeros[..10], 4, 8)),
        "string slot out of bounds: start=4 slot=8 len=10"
    );
}

#[test]
fn login_reply_errors() {
    assert_eq!(invalid_message(decode_login(&[0, 0])), "Response too short");
    match decode_login(&[12, 1, 0, 0]) {
        Err(Mt5Error::CommandFailed { cmd, error }) => {
            assert_eq!(cmd, 100);
            assert_eq!(error, "Login failed with status: 268");
        }
        other => panic!("unexpected {:?}", other),
    }
    assert!(decode_login(&[0, 0, 0, 0, 5]).is_ok());
}

#[test]
fn pipe_name_is_prefix_and_uppercase_hex() {
    let name = compute_pipe_name(r"C:\Program Files\MetaTrader 5\terminal64.exe");
    assert_eq!(name.chars().count(), 86);
    assert!(name.starts_with(r"\\.\pipe\MT5.Terminal."));
    assert!(name.chars().skip(22).all(|c| c.is_ascii_digit() || ('A'..='F').contains(&c)));
    assert_eq!(name, compute_pipe_name(r"c:\program files\metatrader 5\terminal64.exe"));
}
