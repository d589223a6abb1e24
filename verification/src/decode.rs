//! Decoding of the terminal's responses.
use vstd::prelude::*;
use vstd::string::StringExecFns;
use crate::error::{Mt5Error, decimal_u32, decimal_usize, invalid_error};
use crate::reader::{
    Reader, bool_at, i32_at, i64_at, le_u16_at, le_u32_at, le_u64_at, u16_at, u32_at, u64_at,
};
use crate::records::{
    BOOK_ENTRY_LEN, DEAL_LEN, ORDER_LEN, POSITION_LEN, RATE_LEN, SYMBOL_INFO_LEN, TICK_LEN,
    book_entry_at, deal_at, order_at, position_at, rate_at, read_book_entry, read_deal, read_order,
    read_position, read_rate, read_symbol_info, read_tick, symbol_info_at, tick_at,
};
use crate::text::{
    decode_fixed_string, read_string_at_offset, slot_text, text_at,
};
use crate::types::{
    AccountInfo, BookInfo, Rate, SymbolInfo, TerminalInfo, Tick, TradeCheckResult, TradeDeal,
    TradeOrder, TradePosition, TradeResult, VersionInfo,
};

verus! {

/// The error for a response shorter than its fixed part.
pub open spec fn too_short_error(e: Mt5Error) -> bool {
    e matches Mt5Error::InvalidResponse(m) && m@ == "Response too short"@
}

fn too_short() -> (e: Mt5Error)
    ensures
        too_short_error(e),
{
    Mt5Error::InvalidResponse(String::from_str("Response too short"))
}

/// An `InvalidResponse` error with message `m`.
fn invalid(m: &str) -> (e: Mt5Error)
    ensures
        e matches Mt5Error::InvalidResponse(s) && s@ == m@,
{
    Mt5Error::InvalidResponse(String::from_str(m))
}

/// The message of a reply of `len` bytes where `want` were needed:
/// "<what> too short: <len> bytes (want <want>)", with `len_text` and
/// `want_text` the decimal texts of the two numbers.
pub open spec fn short_message(what: Seq<char>, len_text: Seq<char>, want_text: Seq<char>) -> Seq<char> {
    what + " too short: "@ + len_text + " bytes (want "@ + want_text + ")"@
}

/// An `InvalidResponse` error for a `len`-byte response that needed the
/// number of bytes written `want_text`.
fn short_result(what: &str, len: usize, want_text: &str) -> (e: Mt5Error)
    ensures
        exists|len_text: Seq<char>| decimal_usize(len, len_text)
            && invalid_error(e, short_message(what@, len_text, want_text@)),
{
    let len_text = len.to_string();
    let mut msg = String::from_str(what);
    msg.append(" too short: ");
    msg.append(len_text.as_str());
    msg.append(" bytes (want ");
    msg.append(want_text);
    msg.append(")");
    assert(decimal_usize(len, len_text@));
    assert(msg@ == short_message(what@, len_text@, want_text@));
    Mt5Error::InvalidResponse(msg)
}

/// How many records of `rec` bytes a count-prefixed list `d` yields: the
/// announced count, cut to the whole records that the data holds.
pub open spec fn listed_count(d: Seq<u8>, rec: int) -> int {
    let avail = (d.len() - 4) / rec;
    if (u32_at(d, 0) as int) < avail {
        u32_at(d, 0) as int
    } else {
        avail
    }
}

/// The count that a total query (`positions_total`, ...) decodes from `d`.
pub open spec fn count_spec(d: Seq<u8>) -> Option<i64> {
    if d.len() < 4 {
        None
    } else {
        Some(u32_at(d, 0) as i64)
    }
}

/// Decodes the reply of a total query: a little-endian `u32`.
pub fn decode_count(resp: &[u8]) -> (r: Result<i64, Mt5Error>)
    ensures
        r is Err <==> resp@.len() < 4,
        r matches Err(e) ==> too_short_error(e),
        r matches Ok(n) ==> count_spec(resp@) == Some(n),
{
    if resp.len() < 4 {
        return Err(too_short());
    }
    Ok(le_u32_at(resp, 0) as i64)
}

/// The error of a login whose reply is `d`: "Response too short" for a
/// reply without a status, else, for a nonzero status, `CommandFailed` for
/// command 100 with "Login failed with status: " and the status in decimal.
/// A reply with status 0 has no error.
pub open spec fn login_error(d: Seq<u8>, e: Mt5Error) -> bool {
    if d.len() < 4 {
        too_short_error(e)
    } else {
        &&& u32_at(d, 0) != 0
        &&& e matches Mt5Error::CommandFailed { cmd, error } && cmd == 100 && exists|t: Seq<char>|
            decimal_u32(u32_at(d, 0), t) && error@ == "Login failed with status: "@ + t
    }
}

/// Decodes the reply of a login: status 0 means success.
pub fn decode_login(resp: &[u8]) -> (r: Result<(), Mt5Error>)
    ensures
        r is Ok <==> resp@.len() >= 4 && u32_at(resp@, 0) == 0,
        r matches Err(e) ==> login_error(resp@, e),
{
    if resp.len() < 4 {
        return Err(too_short());
    }
    let status = le_u32_at(resp, 0);
    if status != 0 {
        let status_text = status.to_string();
        let mut error = String::from_str("Login failed with status: ");
        error.append(status_text.as_str());
        assert(decimal_u32(status, status_text@));
        return Err(Mt5Error::CommandFailed { cmd: 100, error });
    }
    Ok(())
}

/// The flag that a `symbol_select` reply decodes to.
pub open spec fn select_spec(d: Seq<u8>) -> Option<bool> {
    if d.len() == 0 {
        Some(true)
    } else if d.len() < 4 {
        None
    } else {
        Some(i32_at(d, 0) != 0)
    }
}

/// Decodes the reply of `symbol_select`: an empty reply means success,
/// otherwise a little-endian status, nonzero for success.
pub fn decode_select(resp: &[u8]) -> (r: Result<bool, Mt5Error>)
    ensures
        r is Err <==> select_spec(resp@) is None,
        r matches Err(e) ==> too_short_error(e),
        r matches Ok(b) ==> select_spec(resp@) == Some(b),
{
    if resp.len() == 0 {
        return Ok(true);
    }
    if resp.len() < 4 {
        return Err(too_short());
    }
    let status = le_u32_at(resp, 0) as i32;
    Ok(status != 0)
}

/// The flag that a market book subscription reply decodes to.
pub open spec fn book_ack_spec(d: Seq<u8>) -> Option<bool> {
    if d.len() == 0 {
        Some(true)
    } else if d.len() < 4 {
        None
    } else {
        Some(u32_at(d, 0) == 0)
    }
}

/// Decodes the reply of `market_book_add` and `market_book_release`: an
/// empty reply means success, otherwise a little-endian status, 0 for success.
pub fn decode_book_ack(resp: &[u8]) -> (r: Result<bool, Mt5Error>)
    ensures
        r is Err <==> book_ack_spec(resp@) is None,
        r matches Err(e) ==> too_short_error(e),
        r matches Ok(b) ==> book_ack_spec(resp@) == Some(b),
{
    if resp.len() == 0 {
        return Ok(true);
    }
    if resp.len() < 4 {
        return Err(too_short());
    }
    Ok(le_u32_at(resp, 0) == 0)
}

/// The terminal build that the reply of the handshake reports, if it holds one.
pub fn decode_build(resp: &[u8]) -> (r: Option<i32>)
    ensures
        r == (if resp@.len() >= 4 { Some(u32_at(resp@, 0) as i32) } else { None::<i32> }),
{
    if resp.len() >= 4 {
        Some(le_u32_at(resp, 0) as i32)
    } else {
        None
    }
}

/// Size of the fixed part of an account description.
pub const ACCOUNT_NUMBERS_LEN: usize = 147;

/// Size of an account description.
pub const ACCOUNT_INFO_LEN: usize = 851;

/// `a` is the account description decoded from `d`.
pub open spec fn account_info_at(a: AccountInfo, d: Seq<u8>) -> bool {
    &&& a.login == i64_at(d, 0)
    &&& a.trade_mode == i32_at(d, 8) as i64
    &&& a.leverage == i32_at(d, 12) as i64
    &&& a.limit_orders == i32_at(d, 16) as i64
    &&& a.margin_so_mode == i32_at(d, 20) as i64
    &&& a.trade_allowed == bool_at(d, 24)
    &&& a.trade_expert == bool_at(d, 25)
    &&& a.margin_mode == i32_at(d, 26) as i64
    &&& a.currency_digits == i32_at(d, 30) as i64
    &&& a.fifo_close == bool_at(d, 34)
    &&& a.balance == u64_at(d, 35)
    &&& a.credit == u64_at(d, 43)
    &&& a.profit == u64_at(d, 51)
    &&& a.equity == u64_at(d, 59)
    &&& a.margin == u64_at(d, 67)
    &&& a.free_margin == u64_at(d, 75)
    &&& a.margin_level == u64_at(d, 83)
    &&& a.margin_so_call == u64_at(d, 91)
    &&& a.margin_so_so == u64_at(d, 99)
    &&& a.margin_initial == u64_at(d, 107)
    &&& a.margin_maintenance == u64_at(d, 115)
    &&& a.assets == u64_at(d, 123)
    &&& a.liabilities == u64_at(d, 131)
    &&& a.commission_blocked == u64_at(d, 139)
    &&& slot_text(a.name@, d, 147, 256)
    &&& slot_text(a.server@, d, 403, 128)
    &&& slot_text(a.currency@, d, 531, 64)
    &&& slot_text(a.company@, d, 595, 256)
}

/// The error of an `account_info` reply `d` that is too short:
/// "Response too short" below 8 bytes, "Response too short for strings:
/// <len> < 147" up to the end of the numbers, else "Failed to read strings".
pub open spec fn account_info_error(d: Seq<u8>, e: Mt5Error) -> bool {
    if d.len() < 8 {
        too_short_error(e)
    } else if d.len() <= ACCOUNT_NUMBERS_LEN {
        exists|t: Seq<char>| decimal_usize(d.len() as usize, t)
            && invalid_error(e, "Response too short for strings: "@ + t + " < 147"@)
    } else {
        invalid_error(e, "Failed to read strings"@)
    }
}

/// Decodes the reply of `account_info`: a 147-byte block of numbers, then
/// four UTF-16LE slots (name 256, server 128, currency 64, company 256 bytes).
#[verifier::rlimit(50)]
pub fn decode_account_info(data: &[u8]) -> (r: Result<AccountInfo, Mt5Error>)
    ensures
        r is Ok <==> data@.len() >= ACCOUNT_INFO_LEN,
        r matches Err(e) ==> account_info_error(data@, e),
        r matches Ok(a) ==> account_info_at(a, data@),
{
    if data.len() < 8 {
        return Err(too_short());
    }
    if ACCOUNT_NUMBERS_LEN >= data.len() {
        let len_text = data.len().to_string();
        let mut msg = String::from_str("Response too short for strings: ");
        msg.append(len_text.as_str());
        msg.append(" < 147");
        assert(decimal_usize(data@.len() as usize, len_text@));
        return Err(Mt5Error::InvalidResponse(msg));
    }
    let mut reader = Reader::new(data);
    let login = reader.read_i64();
    let trade_mode = reader.read_i32() as i64;
    let leverage = reader.read_i32() as i64;
    let limit_orders = reader.read_i32() as i64;
    let margin_so_mode = reader.read_i32() as i64;
    let trade_allowed = reader.read_bool1();
    let trade_expert = reader.read_bool1();
    let margin_mode = reader.read_i32() as i64;
    let currency_digits = reader.read_i32() as i64;
    let fifo_close = reader.read_bool1();
    let balance = reader.read_f64_bits();
    let credit = reader.read_f64_bits();
    let profit = reader.read_f64_bits();
    let equity = reader.read_f64_bits();
    let margin = reader.read_f64_bits();
    let free_margin = reader.read_f64_bits();
    let margin_level = reader.read_f64_bits();
    let margin_so_call = reader.read_f64_bits();
    let margin_so_so = reader.read_f64_bits();
    let margin_initial = reader.read_f64_bits();
    let margin_maintenance = reader.read_f64_bits();
    let assets = reader.read_f64_bits();
    let liabilities = reader.read_f64_bits();
    let commission_blocked = reader.read_f64_bits();
    let strings = vstd::slice::slice_subrange(data, ACCOUNT_NUMBERS_LEN, data.len());
    let mut sr = Reader::new(strings);
    if !sr.expect(ACCOUNT_INFO_LEN - ACCOUNT_NUMBERS_LEN) {
        return Err(invalid("Failed to read strings"));
    }
    let name = sr.read_fixed_string(256);
    let server = sr.read_fixed_string(128);
    let currency = sr.read_fixed_string(64);
    let company = sr.read_fixed_string(256);
    proof {
        assert(strings@.subrange(0, 256) == data@.subrange(147, 403));
        assert(strings@.subrange(256, 384) == data@.subrange(403, 531));
        assert(strings@.subrange(384, 448) == data@.subrange(531, 595));
        assert(strings@.subrange(448, 704) == data@.subrange(595, 851));
    }
    Ok(AccountInfo {
        login,
        trade_mode,
        leverage,
        limit_orders,
        margin_so_mode,
        trade_allowed,
        trade_expert,
        margin_mode,
        currency_digits,
        fifo_close,
        balance,
        credit,
        profit,
        equity,
        margin,
        free_margin,
        margin_level,
        margin_so_call,
        margin_so_so,
        margin_initial,
        margin_maintenance,
        assets,
        liabilities,
        commission_blocked,
        name,
        server,
        currency,
        company,
    })
}

/// Decodes one symbol description from `reader`.
pub fn decode_symbol_info(reader: &mut Reader) -> (r: Result<SymbolInfo, Mt5Error>)
    ensures
        r is Ok <==> old(reader).fits(SYMBOL_INFO_LEN as int),
        r matches Ok(s) ==> Reader::advanced(*old(reader), *final(reader), SYMBOL_INFO_LEN as int)
            && symbol_info_at(s, old(reader).bytes(), old(reader).offset()),
        r matches Err(e) ==> final(reader).failed() && final(reader).bytes() == old(reader).bytes()
            && invalid_error(e, "Failed to read symbol info"@),
{
    if !reader.expect(SYMBOL_INFO_LEN) {
        return Err(invalid("Failed to read symbol info"));
    }
    Ok(read_symbol_info(reader))
}

/// `v` lists the symbol descriptions of the response `d`.
pub open spec fn symbols_parsed(d: Seq<u8>, v: Seq<SymbolInfo>) -> bool {
    &&& v.len() == u32_at(d, 0)
    &&& forall|i: int| #![trigger v[i]] 0 <= i < v.len() ==> symbol_info_at(v[i], d, 4 + i * SYMBOL_INFO_LEN)
}

/// The error of a `symbols_get` reply `d` that is too short: "Response too
/// short" without a count, else "Failed to read symbol info".
pub open spec fn symbols_error(d: Seq<u8>, e: Mt5Error) -> bool {
    if d.len() < 4 {
        too_short_error(e)
    } else {
        invalid_error(e, "Failed to read symbol info"@)
    }
}

/// Decodes the reply of `symbols_get`: a count, then that many symbol
/// descriptions, all of which must be complete.
pub fn decode_symbols(data: &[u8]) -> (r: Result<Vec<SymbolInfo>, Mt5Error>)
    ensures
        r is Ok <==> data@.len() >= 4 && 4 + u32_at(data@, 0) * SYMBOL_INFO_LEN <= data@.len(),
        r matches Err(e) ==> symbols_error(data@, e),
        r matches Ok(v) ==> symbols_parsed(data@, v@),
{
    if data.len() < 4 {
        return Err(too_short());
    }
    let mut reader = Reader::new(data);
    let count = reader.read_u32();
    let mut symbols: Vec<SymbolInfo> = Vec::new();
    let mut i: u32 = 0;
    while i < count
        invariant
            data@.len() >= 4,
            reader.bytes() == data@,
            count == u32_at(data@, 0),
            i <= count,
            4 + i * SYMBOL_INFO_LEN <= data@.len(),
            !reader.failed(),
            reader.offset() == 4 + i * SYMBOL_INFO_LEN,
            symbols@.len() == i,
            forall|j: int| #![trigger symbols@[j]] 0 <= j < i ==> symbol_info_at(symbols@[j], data@, 4 + j * SYMBOL_INFO_LEN),
        decreases count - i,
    {
        let sym = match decode_symbol_info(&mut reader) {
            Ok(s) => s,
            Err(e) => {
                assert(4 + count * SYMBOL_INFO_LEN > data@.len()) by (nonlinear_arith)
                    requires
                        4 + (i + 1) * SYMBOL_INFO_LEN > data@.len(),
                        i + 1 <= count,
                ;
                return Err(e);
            },
        };
        symbols.push(sym);
        i = i + 1;
    }
    Ok(symbols)
}

/// The reply of `symbol_info`: nothing for an unknown symbol, else one
/// symbol description.
pub fn decode_symbol_info_response(resp: &[u8]) -> (r: Result<Option<SymbolInfo>, Mt5Error>)
    ensures
        resp@.len() == 0 <==> r matches Ok(None),
        resp@.len() > 0 ==> (r is Ok <==> resp@.len() >= SYMBOL_INFO_LEN),
        r matches Ok(Some(s)) ==> resp@.len() > 0 && symbol_info_at(s, resp@, 0),
        r matches Err(e) ==> invalid_error(e, "Failed to read symbol info"@),
{
    if resp.len() == 0 {
        return Ok(None);
    }
    let mut reader = Reader::new(resp);
    let info = decode_symbol_info(&mut reader)?;
    Ok(Some(info))
}

/// Decodes a single tick.
pub fn decode_tick(data: &[u8]) -> (r: Result<Tick, Mt5Error>)
    ensures
        r is Ok <==> data@.len() >= TICK_LEN,
        r matches Ok(t) ==> tick_at(t, data@, 0),
        r matches Err(e) ==> invalid_error(e, "Failed to read tick"@),
{
    let mut reader = Reader::new(data);
    if !reader.expect(TICK_LEN) {
        return Err(invalid("Failed to read tick"));
    }
    Ok(read_tick(&mut reader))
}

/// The reply of `symbol_info_tick`: nothing for an unknown symbol, else a tick.
pub fn decode_tick_response(resp: &[u8]) -> (r: Result<Option<Tick>, Mt5Error>)
    ensures
        resp@.len() == 0 <==> r matches Ok(None),
        resp@.len() > 0 ==> (r is Ok <==> resp@.len() >= TICK_LEN),
        r matches Ok(Some(t)) ==> resp@.len() > 0 && tick_at(t, resp@, 0),
        r matches Err(e) ==> invalid_error(e, "Failed to read tick"@),
{
    if resp.len() == 0 {
        return Ok(None);
    }
    let t = decode_tick(resp)?;
    Ok(Some(t))
}

/// Size of the fixed part of a terminal description.
pub const TERMINAL_NUMBERS_LEN: usize = 40;

/// `t` is the terminal description decoded from `d`.
pub open spec fn terminal_info_at(t: TerminalInfo, d: Seq<u8>) -> bool {
    &&& t.community_account == bool_at(d, 2)
    &&& t.community_connection == bool_at(d, 3)
    &&& t.notifications_enabled == bool_at(d, 4)
    &&& t.mqid == bool_at(d, 5)
    &&& t.connected == bool_at(d, 6)
    &&& t.dlls_allowed == bool_at(d, 7)
    &&& t.trade_allowed == bool_at(d, 8)
    &&& t.trade_api_disabled == bool_at(d, 9)
    &&& t.email_enabled == bool_at(d, 10)
    &&& t.ftp_enabled == bool_at(d, 11)
    &&& t.build == u16_at(d, 0) as i64
    &&& t.max_bars == u32_at(d, 12) as i64
    &&& t.code_page == u16_at(d, 17) as i64
    &&& t.ping_last == u16_at(d, 21) as i64
    &&& t.community_balance == u64_at(d, 24)
    &&& t.retransmission == u64_at(d, 32)
    &&& text_at(t.company@, d, 41)
    &&& text_at(t.name@, d, 561)
    &&& text_at(t.language@, d, 1081)
    &&& text_at(t.path@, d, 1601)
    &&& text_at(t.data_path@, d, 2121)
    &&& text_at(t.common_data_path@, d, 2641)
}

/// Decodes the reply of `terminal_info`: flags and numbers at fixed offsets
/// of a 40-byte block, then UTF-16LE texts at fixed offsets.
pub fn decode_terminal_info(resp: &[u8]) -> (r: Result<TerminalInfo, Mt5Error>)
    ensures
        r is Err <==> resp@.len() < TERMINAL_NUMBERS_LEN,
        r matches Err(e) ==> too_short_error(e),
        r matches Ok(t) ==> terminal_info_at(t, resp@),
{
    if resp.len() < TERMINAL_NUMBERS_LEN {
        return Err(too_short());
    }
    Ok(TerminalInfo {
        community_account: resp[2] != 0,
        community_connection: resp[3] != 0,
        connected: resp[6] != 0,
        dlls_allowed: resp[7] != 0,
        trade_allowed: resp[8] != 0,
        trade_api_disabled: resp[9] != 0,
        email_enabled: resp[10] != 0,
        ftp_enabled: resp[11] != 0,
        notifications_enabled: resp[4] != 0,
        mqid: resp[5] != 0,
        build: le_u16_at(resp, 0) as i64,
        max_bars: le_u32_at(resp, 12) as i64,
        code_page: le_u16_at(resp, 17) as i64,
        ping_last: le_u16_at(resp, 21) as i64,
        community_balance: le_u64_at(resp, 24),
        retransmission: le_u64_at(resp, 32),
        company: read_string_at_offset(resp, 41),
        name: read_string_at_offset(resp, 561),
        language: read_string_at_offset(resp, 1081),
        path: read_string_at_offset(resp, 1601),
        data_path: read_string_at_offset(resp, 2121),
        common_data_path: read_string_at_offset(resp, 2641),
    })
}

/// The API version that `version` reports.
pub const API_VERSION: i32 = 500;

/// The version report derived from a terminal description: API version
/// 500, the terminal's build, and no build date.
pub fn version_from(info: &TerminalInfo) -> (v: VersionInfo)
    ensures
        v.version == API_VERSION,
        v.build == info.build as i32,
        v.build_date@ == Seq::<char>::empty(),
{
    VersionInfo { version: API_VERSION, build: info.build as i32, build_date: String::new() }
}

/// Size of an `order_check` reply.
pub const CHECK_RESULT_TOTAL: usize = 252;

/// Size of the comment slot of a check or trade result.
pub const RESULT_COMMENT_SLOT: usize = 200;

/// `c` is the check result decoded from `d`.
pub open spec fn check_result_at(c: TradeCheckResult, d: Seq<u8>) -> bool {
    &&& c.retcode == u32_at(d, 0)
    &&& c.balance == u64_at(d, 4)
    &&& c.equity == u64_at(d, 12)
    &&& c.profit == u64_at(d, 20)
    &&& c.margin == u64_at(d, 28)
    &&& c.margin_free == u64_at(d, 36)
    &&& c.margin_level == u64_at(d, 44)
    &&& slot_text(c.comment@, d, 52, 200)
}

/// The error of a check result reply `d` that is too short: "check result too
/// short: <len> bytes (want 252)".
pub open spec fn check_result_error(d: Seq<u8>, e: Mt5Error) -> bool {
    exists|len_text: Seq<char>| decimal_usize(d.len() as usize, len_text)
        && invalid_error(e, short_message("check result"@, len_text, "252"@))
}

/// Decodes the 252-byte reply of `order_check`: retcode (4), balance,
/// equity, profit, margin, margin_free, margin_level (8 each), comment (200).
pub fn decode_check_result(data: &[u8]) -> (r: Result<TradeCheckResult, Mt5Error>)
    ensures
        r is Ok <==> data@.len() >= CHECK_RESULT_TOTAL,
        r matches Err(e) ==> check_result_error(data@, e),
        r matches Ok(c) ==> check_result_at(c, data@),
{
    if data.len() < CHECK_RESULT_TOTAL {
        return Err(short_result("check result", data.len(), "252"));
    }
    let retcode = le_u32_at(data, 0);
    let comment = decode_fixed_string(data, 52, RESULT_COMMENT_SLOT)?;
    Ok(TradeCheckResult {
        retcode,
        balance: le_u64_at(data, 4),
        equity: le_u64_at(data, 12),
        profit: le_u64_at(data, 20),
        margin: le_u64_at(data, 28),
        margin_free: le_u64_at(data, 36),
        margin_level: le_u64_at(data, 44),
        comment,
    })
}

/// Size of an `order_send` reply.
pub const TRADE_RESULT_TOTAL: usize = 260;

/// `t` is the trade result decoded from `d`.
pub open spec fn trade_result_at(t: TradeResult, d: Seq<u8>) -> bool {
    &&& t.retcode == u32_at(d, 0)
    &&& t.deal == i64_at(d, 4)
    &&& t.order == i64_at(d, 12)
    &&& t.volume == u64_at(d, 20)
    &&& t.price == u64_at(d, 28)
    &&& t.bid == u64_at(d, 36)
    &&& t.ask == u64_at(d, 44)
    &&& slot_text(t.comment@, d, 52, 200)
    &&& t.request_id == u32_at(d, 252)
    &&& t.retcode_ext == i32_at(d, 256)
}

/// The error of a trade result reply `d` that is too short: "trade result too
/// short: <len> bytes (want 260)".
pub open spec fn trade_result_error(d: Seq<u8>, e: Mt5Error) -> bool {
    exists|len_text: Seq<char>| decimal_usize(d.len() as usize, len_text)
        && invalid_error(e, short_message("trade result"@, len_text, "260"@))
}

/// Decodes the 260-byte reply of `order_send`: retcode (4), deal, order (8
/// each), volume, price, bid, ask (8 each), comment (200), request_id (4),
/// retcode_ext (4).
pub fn decode_trade_result(data: &[u8]) -> (r: Result<TradeResult, Mt5Error>)
    ensures
        r is Ok <==> data@.len() >= TRADE_RESULT_TOTAL,
        r matches Err(e) ==> trade_result_error(data@, e),
        r matches Ok(t) ==> trade_result_at(t, data@),
{
    if data.len() < TRADE_RESULT_TOTAL {
        return Err(short_result("trade result", data.len(), "260"));
    }
    let retcode = le_u32_at(data, 0);
    let deal = le_u64_at(data, 4) as i64;
    let order = le_u64_at(data, 12) as i64;
    let comment = decode_fixed_string(data, 52, RESULT_COMMENT_SLOT)?;
    let request_id = le_u32_at(data, 252);
    let retcode_ext = le_u32_at(data, 256) as i32;
    Ok(TradeResult {
        retcode,
        deal,
        order,
        volume: le_u64_at(data, 20),
        price: le_u64_at(data, 28),
        bid: le_u64_at(data, 36),
        ask: le_u64_at(data, 44),
        comment,
        request_id,
        retcode_ext,
    })
}

/// `v` lists the positions of the response `d`.
pub open spec fn positions_parsed(d: Seq<u8>, v: Seq<TradePosition>) -> bool {
    &&& v.len() == listed_count(d, POSITION_LEN as int)
    &&& forall|i: int| #![trigger v[i]] 0 <= i < v.len() ==> position_at(v[i], d, 4 + i * POSITION_LEN)
}

/// Decodes a count-prefixed list of positions.
pub fn parse_positions_response(data: &[u8]) -> (r: Result<Vec<TradePosition>, Mt5Error>)
    ensures
        r is Err <==> data@.len() < 4,
        r matches Err(e) ==> too_short_error(e),
        r matches Ok(v) ==> positions_parsed(data@, v@),
{
    if data.len() < 4 {
        return Err(too_short());
    }
    let mut reader = Reader::new(data);
    let count = reader.read_u32();
    let mut positions: Vec<TradePosition> = Vec::new();
    let mut i: u32 = 0;
    while i < count
        invariant_except_break
            !reader.failed(),
        invariant
            data@.len() >= 4,
            reader.bytes() == data@,
            count == u32_at(data@, 0),
            i <= count,
            4 + i * POSITION_LEN <= data@.len(),
            !reader.failed() ==> reader.offset() == 4 + i * POSITION_LEN,
            positions@.len() == i,
            forall|j: int| #![trigger positions@[j]] 0 <= j < i ==> position_at(positions@[j], data@, 4 + j * POSITION_LEN),
        ensures
            positions@.len() == listed_count(data@, POSITION_LEN as int),
            forall|j: int| #![trigger positions@[j]] 0 <= j < positions@.len() ==> position_at(positions@[j], data@, 4 + j * POSITION_LEN),
        decreases count - i,
    {
        if !reader.expect(POSITION_LEN) {
            break;
        }
        let v = read_position(&mut reader);
        positions.push(v);
        i = i + 1;
    }
    Ok(positions)
}

/// `v` lists the orders of the response `d`.
pub open spec fn orders_parsed(d: Seq<u8>, v: Seq<TradeOrder>) -> bool {
    &&& v.len() == listed_count(d, ORDER_LEN as int)
    &&& forall|i: int| #![trigger v[i]] 0 <= i < v.len() ==> order_at(v[i], d, 4 + i * ORDER_LEN)
}

/// Decodes a count-prefixed list of orders.
pub fn parse_orders_response(data: &[u8]) -> (r: Result<Vec<TradeOrder>, Mt5Error>)
    ensures
        r is Err <==> data@.len() < 4,
        r matches Err(e) ==> too_short_error(e),
        r matches Ok(v) ==> orders_parsed(data@, v@),
{
    if data.len() < 4 {
        return Err(too_short());
    }
    let mut reader = Reader::new(data);
    let count = reader.read_u32();
    let mut orders: Vec<TradeOrder> = Vec::new();
    let mut i: u32 = 0;
    while i < count
        invariant_except_break
            !reader.failed(),
        invariant
            data@.len() >= 4,
            reader.bytes() == data@,
            count == u32_at(data@, 0),
            i <= count,
            4 + i * ORDER_LEN <= data@.len(),
            !reader.failed() ==> reader.offset() == 4 + i * ORDER_LEN,
            orders@.len() == i,
            forall|j: int| #![trigger orders@[j]] 0 <= j < i ==> order_at(orders@[j], data@, 4 + j * ORDER_LEN),
        ensures
            orders@.len() == listed_count(data@, ORDER_LEN as int),
            forall|j: int| #![trigger orders@[j]] 0 <= j < orders@.len() ==> order_at(orders@[j], data@, 4 + j * ORDER_LEN),
        decreases count - i,
    {
        if !reader.expect(ORDER_LEN) {
            break;
        }
        let v = read_order(&mut reader);
        orders.push(v);
        i = i + 1;
    }
    Ok(orders)
}

/// `v` lists the deals of the response `d`.
pub open spec fn deals_parsed(d: Seq<u8>, v: Seq<TradeDeal>) -> bool {
    &&& v.len() == listed_count(d, DEAL_LEN as int)
    &&& forall|i: int| #![trigger v[i]] 0 <= i < v.len() ==> deal_at(v[i], d, 4 + i * DEAL_LEN)
}

/// Decodes a count-prefixed list of deals.
pub fn parse_deals_response(data: &[u8]) -> (r: Result<Vec<TradeDeal>, Mt5Error>)
    ensures
        r is Err <==> data@.len() < 4,
        r matches Err(e) ==> too_short_error(e),
        r matches Ok(v) ==> deals_parsed(data@, v@),
{
    if data.len() < 4 {
        return Err(too_short());
    }
    let mut reader = Reader::new(data);
    let count = reader.read_u32();
    let mut deals: Vec<TradeDeal> = Vec::new();
    let mut i: u32 = 0;
    while i < count
        invariant_except_break
            !reader.failed(),
        invariant
            data@.len() >= 4,
            reader.bytes() == data@,
            count == u32_at(data@, 0),
            i <= count,
            4 + i * DEAL_LEN <= data@.len(),
            !reader.failed() ==> reader.offset() == 4 + i * DEAL_LEN,
            deals@.len() == i,
            forall|j: int| #![trigger deals@[j]] 0 <= j < i ==> deal_at(deals@[j], data@, 4 + j * DEAL_LEN),
        ensures
            deals@.len() == listed_count(data@, DEAL_LEN as int),
            forall|j: int| #![trigger deals@[j]] 0 <= j < deals@.len() ==> deal_at(deals@[j], data@, 4 + j * DEAL_LEN),
        decreases count - i,
    {
        if !reader.expect(DEAL_LEN) {
            break;
        }
        let v = read_deal(&mut reader);
        deals.push(v);
        i = i + 1;
    }
    Ok(deals)
}

/// `v` lists the bars of the response `d`.
pub open spec fn rates_parsed(d: Seq<u8>, v: Seq<Rate>) -> bool {
    &&& v.len() == listed_count(d, RATE_LEN as int)
    &&& forall|i: int| #![trigger v[i]] 0 <= i < v.len() ==> rate_at(v[i], d, 4 + i * RATE_LEN)
}

/// Decodes a count-prefixed list of bars.
pub fn parse_rates_response(data: &[u8]) -> (r: Result<Vec<Rate>, Mt5Error>)
    ensures
        r is Err <==> data@.len() < 4,
        r matches Err(e) ==> too_short_error(e),
        r matches Ok(v) ==> rates_parsed(data@, v@),
{
    if data.len() < 4 {
        return Err(too_short());
    }
    let mut reader = Reader::new(data);
    let count = reader.read_u32();
    let mut rates: Vec<Rate> = Vec::new();
    let mut i: u32 = 0;
    while i < count
        invariant_except_break
            !reader.failed(),
        invariant
            data@.len() >= 4,
            reader.bytes() == data@,
            count == u32_at(data@, 0),
            i <= count,
            4 + i * RATE_LEN <= data@.len(),
            !reader.failed() ==> reader.offset() == 4 + i * RATE_LEN,
            rates@.len() == i,
            forall|j: int| #![trigger rates@[j]] 0 <= j < i ==> rate_at(rates@[j], data@, 4 + j * RATE_LEN),
        ensures
            rates@.len() == listed_count(data@, RATE_LEN as int),
            forall|j: int| #![trigger rates@[j]] 0 <= j < rates@.len() ==> rate_at(rates@[j], data@, 4 + j * RATE_LEN),
        decreases count - i,
    {
        if !reader.expect(RATE_LEN) {
            break;
        }
        let v = read_rate(&mut reader);
        rates.push(v);
        i = i + 1;
    }
    Ok(rates)
}

/// `v` lists the ticks of the response `d`.
pub open spec fn ticks_parsed(d: Seq<u8>, v: Seq<Tick>) -> bool {
    &&& v.len() == listed_count(d, TICK_LEN as int)
    &&& forall|i: int| #![trigger v[i]] 0 <= i < v.len() ==> tick_at(v[i], d, 4 + i * TICK_LEN)
}

/// Decodes a count-prefixed list of ticks.
pub fn parse_ticks_response(data: &[u8]) -> (r: Result<Vec<Tick>, Mt5Error>)
    ensures
        r is Err <==> data@.len() < 4,
        r matches Err(e) ==> too_short_error(e),
        r matches Ok(v) ==> ticks_parsed(data@, v@),
{
    if data.len() < 4 {
        return Err(too_short());
    }
    let mut reader = Reader::new(data);
    let count = reader.read_u32();
    let mut ticks: Vec<Tick> = Vec::new();
    let mut i: u32 = 0;
    while i < count
        invariant_except_break
            !reader.failed(),
        invariant
            data@.len() >= 4,
            reader.bytes() == data@,
            count == u32_at(data@, 0),
            i <= count,
            4 + i * TICK_LEN <= data@.len(),
            !reader.failed() ==> reader.offset() == 4 + i * TICK_LEN,
            ticks@.len() == i,
            forall|j: int| #![trigger ticks@[j]] 0 <= j < i ==> tick_at(ticks@[j], data@, 4 + j * TICK_LEN),
        ensures
            ticks@.len() == listed_count(data@, TICK_LEN as int),
            forall|j: int| #![trigger ticks@[j]] 0 <= j < ticks@.len() ==> tick_at(ticks@[j], data@, 4 + j * TICK_LEN),
        decreases count - i,
    {
        if !reader.expect(TICK_LEN) {
            break;
        }
        let v = read_tick(&mut reader);
        ticks.push(v);
        i = i + 1;
    }
    Ok(ticks)
}

/// `v` lists the market depth entries of the response `d`.
pub open spec fn book_parsed(d: Seq<u8>, v: Seq<BookInfo>) -> bool {
    &&& v.len() == listed_count(d, BOOK_ENTRY_LEN as int)
    &&& forall|i: int| #![trigger v[i]] 0 <= i < v.len() ==> book_entry_at(v[i], d, 4 + i * BOOK_ENTRY_LEN)
}

/// Decodes a count-prefixed list of market depth entries.
pub fn parse_book_response(data: &[u8]) -> (r: Result<Vec<BookInfo>, Mt5Error>)
    ensures
        r is Err <==> data@.len() < 4,
        r matches Err(e) ==> too_short_error(e),
        r matches Ok(v) ==> book_parsed(data@, v@),
{
    if data.len() < 4 {
        return Err(too_short());
    }
    let mut reader = Reader::new(data);
    let count = reader.read_u32();
    let mut entries: Vec<BookInfo> = Vec::new();
    let mut i: u32 = 0;
    while i < count
        invariant_except_break
            !reader.failed(),
        invariant
            data@.len() >= 4,
            reader.bytes() == data@,
            count == u32_at(data@, 0),
            i <= count,
            4 + i * BOOK_ENTRY_LEN <= data@.len(),
            !reader.failed() ==> reader.offset() == 4 + i * BOOK_ENTRY_LEN,
            entries@.len() == i,
            forall|j: int| #![trigger entries@[j]] 0 <= j < i ==> book_entry_at(entries@[j], data@, 4 + j * BOOK_ENTRY_LEN),
        ensures
            entries@.len() == listed_count(data@, BOOK_ENTRY_LEN as int),
            forall|j: int| #![trigger entries@[j]] 0 <= j < entries@.len() ==> book_entry_at(entries@[j], data@, 4 + j * BOOK_ENTRY_LEN),
        decreases count - i,
    {
        if !reader.expect(BOOK_ENTRY_LEN) {
            break;
        }
        let v = read_book_entry(&mut reader);
        entries.push(v);
        i = i + 1;
    }
    Ok(entries)
}

/// A list reply that holds at least as many whole records as it announces
/// decodes to exactly the announced number.
pub proof fn lemma_complete_list(d: Seq<u8>, rec: int)
    requires
        rec > 0,
        d.len() >= 4 + u32_at(d, 0) * rec,
    ensures
        listed_count(d, rec) == u32_at(d, 0),
{
    let c = u32_at(d, 0) as int;
    assert(c <= (d.len() - 4) / rec) by (nonlinear_arith)
        requires
            rec > 0,
            c >= 0,
            d.len() - 4 >= c * rec,
    ;
}

}
