//! Encoding of the commands sent to the terminal.
use vstd::prelude::*;
use vstd::bytes::{spec_u32_to_le_bytes, spec_u64_to_le_bytes, u32_to_le_bytes, u64_to_le_bytes};
use crate::text::{encode_fixed_string, encode_string, encoded_string, slot_with_units, utf16_encode};
use crate::reader::{i64_at, u32_at, u64_at};
use crate::types::TradeRequest;

verus! {

pub const CMD_HANDSHAKE: u32 = 4;
pub const CMD_LOGIN: u32 = 100;
pub const CMD_TICKS_FROM: u32 = 104;
pub const CMD_TICKS_RANGE: u32 = 105;
pub const CMD_RATES_FROM: u32 = 106;
pub const CMD_RATES_RANGE: u32 = 107;
pub const CMD_RATES_FROM_POS: u32 = 108;
pub const CMD_POSITIONS_TOTAL: u32 = 120;
pub const CMD_POSITIONS_GET: u32 = 121;
pub const CMD_ORDERS_TOTAL: u32 = 130;
pub const CMD_ORDERS_GET: u32 = 131;
pub const CMD_HISTORY_ORDERS_TOTAL: u32 = 140;
pub const CMD_HISTORY_ORDERS_GET: u32 = 141;
pub const CMD_HISTORY_DEALS_TOTAL: u32 = 150;
pub const CMD_HISTORY_DEALS_GET: u32 = 151;
pub const CMD_ORDER_CHECK: u32 = 160;
pub const CMD_ORDER_SEND: u32 = 161;
pub const CMD_SYMBOL_INFO: u32 = 170;
pub const CMD_SYMBOL_SELECT: u32 = 171;
pub const CMD_SYMBOL_INFO_TICK: u32 = 172;
pub const CMD_SYMBOLS_TOTAL: u32 = 173;
pub const CMD_SYMBOLS_GET: u32 = 174;
pub const CMD_TERMINAL_INFO: u32 = 180;
pub const CMD_ACCOUNT_INFO: u32 = 190;
pub const CMD_MARKET_BOOK_ADD: u32 = 191;
pub const CMD_MARKET_BOOK_RELEASE: u32 = 192;
pub const CMD_MARKET_BOOK_GET: u32 = 193;

/// Size of an encoded trade request.
pub const TRADE_REQUEST_TOTAL: usize = 232;

/// Size of the symbol slot of a trade request.
pub const TRADE_REQUEST_SYMBOL_SLOT: usize = 64;

/// Size of the comment slot of a trade request.
pub const TRADE_REQUEST_COMMENT_SLOT: usize = 64;

/// Little-endian bytes of `x`.
pub open spec fn le32(x: u32) -> Seq<u8> {
    spec_u32_to_le_bytes(x)
}

/// Little-endian bytes of `x`.
pub open spec fn le64(x: u64) -> Seq<u8> {
    spec_u64_to_le_bytes(x)
}

fn push_u32(out: &mut Vec<u8>, x: u32)
    ensures
        final(out)@ == old(out)@ + le32(x),
{
    let mut b = u32_to_le_bytes(x);
    out.append(&mut b);
}

fn push_u64(out: &mut Vec<u8>, x: u64)
    ensures
        final(out)@ == old(out)@ + le64(x),
{
    let mut b = u64_to_le_bytes(x);
    out.append(&mut b);
}

fn push_bytes(out: &mut Vec<u8>, bytes: Vec<u8>)
    ensures
        final(out)@ == old(out)@ + bytes@,
{
    let mut b = bytes;
    out.append(&mut b);
}

/// A zeroed text slot of `n` bytes holding the UTF-16LE form of `s`.
pub open spec fn text_slot(n: nat, s: Seq<char>) -> Seq<u8> {
    slot_with_units(Seq::new(n, |i: int| 0u8), utf16_encode(s))
}

/// The wire form of a trade request: action (4), magic, order (8 each),
/// symbol (64), volume, price, stoplimit, sl, tp, deviation (8 each), type,
/// filling, time (4 each), expiration (8), comment (64), position,
/// position_by (8 each).
pub open spec fn trade_request_bytes(r: TradeRequest) -> Seq<u8> {
    le32(r.action.code()) + le64(r.magic as u64) + le64(r.order as u64) + text_slot(
        64,
        r.symbol@,
    ) + le64(r.volume) + le64(r.price) + le64(r.stoplimit) + le64(r.sl) + le64(r.tp) + le64(
        r.deviation,
    ) + le32(r.type_.code()) + le32(r.type_filling.code()) + le32(r.type_time.code()) + le64(
        r.expiration as u64,
    ) + text_slot(64, r.comment@) + le64(r.position as u64) + le64(r.position_by as u64)
}

fn zeroed_slot(n: usize) -> (v: Vec<u8>)
    ensures
        v@ == Seq::new(n as nat, |i: int| 0u8),
{
    let v = vec![0u8; n];
    assert(v@ == Seq::new(n as nat, |i: int| 0u8));
    v
}

/// Encodes a trade request into its 232-byte wire form.
pub fn encode_trade_request(request: &TradeRequest) -> (w: Vec<u8>)
    ensures
        w@ == trade_request_bytes(*request),
        w@.len() == TRADE_REQUEST_TOTAL,
{
    proof {
        vstd::bytes::lemma_auto_spec_u32_to_from_le_bytes();
        vstd::bytes::lemma_auto_spec_u64_to_from_le_bytes();
    }
    let mut w: Vec<u8> = Vec::new();
    push_u32(&mut w, request.action.code());
    push_u64(&mut w, request.magic as u64);
    push_u64(&mut w, request.order as u64);
    let mut sym = zeroed_slot(TRADE_REQUEST_SYMBOL_SLOT);
    encode_fixed_string(&mut sym, request.symbol.as_str());
    push_bytes(&mut w, sym);
    push_u64(&mut w, request.volume);
    push_u64(&mut w, request.price);
    push_u64(&mut w, request.stoplimit);
    push_u64(&mut w, request.sl);
    push_u64(&mut w, request.tp);
    push_u64(&mut w, request.deviation);
    push_u32(&mut w, request.type_.code());
    push_u32(&mut w, request.type_filling.code());
    push_u32(&mut w, request.type_time.code());
    push_u64(&mut w, request.expiration as u64);
    let mut cmt = zeroed_slot(TRADE_REQUEST_COMMENT_SLOT);
    encode_fixed_string(&mut cmt, request.comment.as_str());
    push_bytes(&mut w, cmt);
    push_u64(&mut w, request.position as u64);
    push_u64(&mut w, request.position_by as u64);
    w
}

/// Payload of the handshake: protocol version 3 and the client name "Go".
pub open spec fn handshake_bytes() -> Seq<u8> {
    le32(3) + encoded_string("Go"@)
}

pub fn handshake_request() -> (data: Vec<u8>)
    ensures
        data@ == handshake_bytes(),
{
    let mut data: Vec<u8> = Vec::new();
    push_u32(&mut data, 3);
    push_bytes(&mut data, encode_string("Go"));
    data
}

/// Payload of a login: the account number, then password and server.
pub open spec fn login_bytes(login: i64, password: Seq<char>, server: Seq<char>) -> Seq<u8> {
    le64(login as u64) + encoded_string(password) + encoded_string(server)
}

pub fn login_request(login: i64, password: &str, server: &str) -> (data: Vec<u8>)
    ensures
        data@ == login_bytes(login, password@, server@),
{
    let mut data: Vec<u8> = Vec::new();
    push_u64(&mut data, login as u64);
    push_bytes(&mut data, encode_string(password));
    push_bytes(&mut data, encode_string(server));
    data
}

/// Payload of `symbol_select`: the symbol, then 1 to select or 0 to deselect.
pub open spec fn select_bytes(symbol: Seq<char>, enable: bool) -> Seq<u8> {
    encoded_string(symbol) + seq![if enable { 1u8 } else { 0u8 }]
}

pub fn select_request(symbol: &str, enable: bool) -> (data: Vec<u8>)
    ensures
        data@ == select_bytes(symbol@, enable),
{
    let mut data = encode_string(symbol);
    data.push(if enable { 1u8 } else { 0u8 });
    data
}

/// Payload of a query filtered by an optional symbol: the symbol, or nothing.
pub open spec fn symbol_filter_bytes(symbol: Option<Seq<char>>) -> Seq<u8> {
    match symbol {
        Some(s) => encoded_string(s),
        None => Seq::empty(),
    }
}

/// The text of an optional symbol.
pub open spec fn symbol_view(symbol: Option<&str>) -> Option<Seq<char>> {
    match symbol {
        Some(s) => Some(s@),
        None => None,
    }
}

pub fn symbol_filter_request(symbol: Option<&str>) -> (data: Vec<u8>)
    ensures
        data@ == symbol_filter_bytes(symbol_view(symbol)),
{
    match symbol {
        Some(s) => encode_string(s),
        None => Vec::new(),
    }
}

/// Payload of `copy_rates_from_pos`: symbol, timeframe, start position and
/// count, each number as a little-endian `u32`.
pub open spec fn rates_from_pos_bytes(symbol: Seq<char>, timeframe: i32, start_pos: i64, count: i32) -> Seq<u8> {
    encoded_string(symbol) + le32(timeframe as u32) + le32(start_pos as u32) + le32(count as u32)
}

pub fn rates_from_pos_request(symbol: &str, timeframe: i32, start_pos: i64, count: i32) -> (data: Vec<u8>)
    ensures
        data@ == rates_from_pos_bytes(symbol@, timeframe, start_pos, count),
{
    let mut data = encode_string(symbol);
    push_u32(&mut data, timeframe as u32);
    push_u32(&mut data, start_pos as u32);
    push_u32(&mut data, count as u32);
    data
}

/// Payload of `copy_rates_from`: symbol, timeframe (4), start date (8), count (4).
pub open spec fn rates_from_bytes(symbol: Seq<char>, timeframe: i32, date_from: i64, count: i32) -> Seq<u8> {
    encoded_string(symbol) + le32(timeframe as u32) + le64(date_from as u64) + le32(count as u32)
}

pub fn rates_from_request(symbol: &str, timeframe: i32, date_from: i64, count: i32) -> (data: Vec<u8>)
    ensures
        data@ == rates_from_bytes(symbol@, timeframe, date_from, count),
{
    let mut data = encode_string(symbol);
    push_u32(&mut data, timeframe as u32);
    push_u64(&mut data, date_from as u64);
    push_u32(&mut data, count as u32);
    data
}

/// Payload of `copy_rates_range`: symbol, timeframe (4), first and last date (8 each).
pub open spec fn rates_range_bytes(symbol: Seq<char>, timeframe: i32, date_from: i64, date_to: i64) -> Seq<u8> {
    encoded_string(symbol) + le32(timeframe as u32) + le64(date_from as u64) + le64(date_to as u64)
}

pub fn rates_range_request(symbol: &str, timeframe: i32, date_from: i64, date_to: i64) -> (data: Vec<u8>)
    ensures
        data@ == rates_range_bytes(symbol@, timeframe, date_from, date_to),
{
    let mut data = encode_string(symbol);
    push_u32(&mut data, timeframe as u32);
    push_u64(&mut data, date_from as u64);
    push_u64(&mut data, date_to as u64);
    data
}

/// Payload of `copy_ticks_from`: symbol, start date (8), count (4), flags (4).
pub open spec fn ticks_from_bytes(symbol: Seq<char>, from: i64, count: i32, flags: i32) -> Seq<u8> {
    encoded_string(symbol) + le64(from as u64) + le32(count as u32) + le32(flags as u32)
}

pub fn ticks_from_request(symbol: &str, from: i64, count: i32, flags: i32) -> (data: Vec<u8>)
    ensures
        data@ == ticks_from_bytes(symbol@, from, count, flags),
{
    let mut data = encode_string(symbol);
    push_u64(&mut data, from as u64);
    push_u32(&mut data, count as u32);
    push_u32(&mut data, flags as u32);
    data
}

/// Payload of `copy_ticks_range`: symbol, first and last date (8 each), flags (4).
pub open spec fn ticks_range_bytes(symbol: Seq<char>, from: i64, to: i64, flags: i32) -> Seq<u8> {
    encoded_string(symbol) + le64(from as u64) + le64(to as u64) + le32(flags as u32)
}

pub fn ticks_range_request(symbol: &str, from: i64, to: i64, flags: i32) -> (data: Vec<u8>)
    ensures
        data@ == ticks_range_bytes(symbol@, from, to, flags),
{
    let mut data = encode_string(symbol);
    push_u64(&mut data, from as u64);
    push_u64(&mut data, to as u64);
    push_u32(&mut data, flags as u32);
    data
}

/// Payload of a history query: first and last date (8 each).
pub open spec fn history_range_bytes(from: i64, to: i64) -> Seq<u8> {
    le64(from as u64) + le64(to as u64)
}

pub fn history_range_request(from: i64, to: i64) -> (data: Vec<u8>)
    ensures
        data@ == history_range_bytes(from, to),
{
    let mut data: Vec<u8> = Vec::new();
    push_u64(&mut data, from as u64);
    push_u64(&mut data, to as u64);
    data
}


/// Each field of a trade request sits at its fixed offset of the wire form:
/// the bytes there decode back to the field.
pub proof fn lemma_trade_request_fields(r: TradeRequest)
    ensures
        trade_request_bytes(r).len() == TRADE_REQUEST_TOTAL,
        u32_at(trade_request_bytes(r), 0) == r.action.code(),
        i64_at(trade_request_bytes(r), 4) == r.magic,
        i64_at(trade_request_bytes(r), 12) == r.order,
        trade_request_bytes(r).subrange(20, 84) == text_slot(64, r.symbol@),
        u64_at(trade_request_bytes(r), 84) == r.volume,
        u64_at(trade_request_bytes(r), 92) == r.price,
        u64_at(trade_request_bytes(r), 100) == r.stoplimit,
        u64_at(trade_request_bytes(r), 108) == r.sl,
        u64_at(trade_request_bytes(r), 116) == r.tp,
        u64_at(trade_request_bytes(r), 124) == r.deviation,
        u32_at(trade_request_bytes(r), 132) == r.type_.code(),
        u32_at(trade_request_bytes(r), 136) == r.type_filling.code(),
        u32_at(trade_request_bytes(r), 140) == r.type_time.code(),
        i64_at(trade_request_bytes(r), 144) == r.expiration,
        trade_request_bytes(r).subrange(152, 216) == text_slot(64, r.comment@),
        i64_at(trade_request_bytes(r), 216) == r.position,
        i64_at(trade_request_bytes(r), 224) == r.position_by,
{
    vstd::bytes::lemma_auto_spec_u32_to_from_le_bytes();
    vstd::bytes::lemma_auto_spec_u64_to_from_le_bytes();
    let b = trade_request_bytes(r);
    let sym = text_slot(64, r.symbol@);
    let cmt = text_slot(64, r.comment@);
    assert(b.subrange(0, 4) == le32(r.action.code()));
    assert(b.subrange(4, 12) == le64(r.magic as u64));
    assert(b.subrange(12, 20) == le64(r.order as u64));
    assert(b.subrange(20, 84) == sym);
    assert(b.subrange(84, 92) == le64(r.volume));
    assert(b.subrange(92, 100) == le64(r.price));
    assert(b.subrange(100, 108) == le64(r.stoplimit));
    assert(b.subrange(108, 116) == le64(r.sl));
    assert(b.subrange(116, 124) == le64(r.tp));
    assert(b.subrange(124, 132) == le64(r.deviation));
    assert(b.subrange(132, 136) == le32(r.type_.code()));
    assert(b.subrange(136, 140) == le32(r.type_filling.code()));
    assert(b.subrange(140, 144) == le32(r.type_time.code()));
    assert(b.subrange(144, 152) == le64(r.expiration as u64));
    assert(b.subrange(152, 216) == cmt);
    assert(b.subrange(216, 224) == le64(r.position as u64));
    assert(b.subrange(224, 232) == le64(r.position_by as u64));
    let (m, o, e, p, q) = (r.magic, r.order, r.expiration, r.position, r.position_by);
    assert(((m as u64) as i64) == m && ((o as u64) as i64) == o && ((e as u64) as i64) == e
        && ((p as u64) as i64) == p && ((q as u64) as i64) == q) by (bit_vector);
}

}
