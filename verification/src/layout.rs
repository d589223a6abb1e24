//! Where each field of the terminal's records sits on the wire, stated with
//! the byte offsets of the protocol and the little-endian encodings of vstd.
use vstd::prelude::*;
use vstd::bytes::{
    lemma_auto_spec_u16_to_from_le_bytes, lemma_auto_spec_u32_to_from_le_bytes,
    lemma_auto_spec_u64_to_from_le_bytes, spec_u16_to_le_bytes, spec_u32_to_le_bytes,
    spec_u64_to_le_bytes,
};
use crate::decode::{
    ACCOUNT_INFO_LEN, CHECK_RESULT_TOTAL, TERMINAL_NUMBERS_LEN, TRADE_RESULT_TOTAL,
    account_info_at, check_result_at, terminal_info_at, trade_result_at,
};
use crate::encode::{
    history_range_bytes, lemma_trade_request_fields, login_bytes, rates_from_bytes,
    rates_from_pos_bytes, rates_range_bytes, select_bytes, ticks_from_bytes, ticks_range_bytes,
    trade_request_bytes,
};
use crate::reader::{u16_at, u32_at, u64_at};
use crate::records::{
    BOOK_ENTRY_LEN, DEAL_LEN, ORDER_LEN, POSITION_LEN, RATE_LEN, SYMBOL_INFO_LEN, TICK_LEN,
    book_entry_at, deal_at, order_at, position_at, rate_at, symbol_info_at, tick_at,
};
use crate::text::{encoded_string, slot_text, text_at};
use crate::types::{
    AccountInfo, BookInfo, OrderFilling, OrderTime, OrderType, Rate, SymbolInfo, TerminalInfo,
    Tick, TradeAction, TradeCheckResult, TradeDeal, TradeOrder, TradePosition, TradeRequest,
    TradeResult,
};

verus! {

/// The bits of an `i64` read back as a `u64` are the bits it was read from.
proof fn lemma_i64_bits(x: u64)
    by (bit_vector)
    ensures
        ((x as i64) as u64) == x,
{
}

/// The bits of an `i32` read back as a `u32` are the bits it was read from.
proof fn lemma_i32_bits(x: u32)
    by (bit_vector)
    ensures
        ((x as i32) as u32) == x,
{
}

/// An `i32` widened to `i64` narrows back to the same bits.
proof fn lemma_i32_widened(x: u32)
    by (bit_vector)
    ensures
        ((((x as i32) as i64) as i32) as u32) == x,
{
}

/// A `u32` widened to `i64` narrows back to itself.
proof fn lemma_u32_widened(x: u32)
    by (bit_vector)
    ensures
        ((x as i64) as u32) == x,
{
}

/// A `u16` widened to `i64` narrows back to itself.
proof fn lemma_u16_widened(x: u16)
    by (bit_vector)
    ensures
        ((x as i64) as u16) == x,
{
}

/// The action, order type, filling mode and expiration mode of a trade
/// request go on the wire (at bytes 0, 132, 136 and 140) as the MetaTrader
/// numbers TRADE_ACTION_*, ORDER_TYPE_*, ORDER_FILLING_* and ORDER_TIME_*.
pub proof fn lemma_trade_request_codes(r: TradeRequest)
    ensures
        r.action is Deal ==> trade_request_bytes(r).subrange(0, 4) == spec_u32_to_le_bytes(1),
        r.action is Pending ==> trade_request_bytes(r).subrange(0, 4) == spec_u32_to_le_bytes(5),
        r.action is SLTP ==> trade_request_bytes(r).subrange(0, 4) == spec_u32_to_le_bytes(6),
        r.action is Modify ==> trade_request_bytes(r).subrange(0, 4) == spec_u32_to_le_bytes(7),
        r.action is Remove ==> trade_request_bytes(r).subrange(0, 4) == spec_u32_to_le_bytes(8),
        r.action is CloseBy ==> trade_request_bytes(r).subrange(0, 4) == spec_u32_to_le_bytes(10),
        r.type_ is Buy ==> trade_request_bytes(r).subrange(132, 136) == spec_u32_to_le_bytes(0),
        r.type_ is Sell ==> trade_request_bytes(r).subrange(132, 136) == spec_u32_to_le_bytes(1),
        r.type_ is BuyLimit ==> trade_request_bytes(r).subrange(132, 136) == spec_u32_to_le_bytes(2),
        r.type_ is SellLimit ==> trade_request_bytes(r).subrange(132, 136) == spec_u32_to_le_bytes(3),
        r.type_ is BuyStop ==> trade_request_bytes(r).subrange(132, 136) == spec_u32_to_le_bytes(4),
        r.type_ is SellStop ==> trade_request_bytes(r).subrange(132, 136) == spec_u32_to_le_bytes(5),
        r.type_ is BuyStopLimit ==> trade_request_bytes(r).subrange(132, 136) == spec_u32_to_le_bytes(6),
        r.type_ is SellStopLimit ==> trade_request_bytes(r).subrange(132, 136) == spec_u32_to_le_bytes(7),
        r.type_ is CloseBy ==> trade_request_bytes(r).subrange(132, 136) == spec_u32_to_le_bytes(8),
        r.type_filling is FOK ==> trade_request_bytes(r).subrange(136, 140) == spec_u32_to_le_bytes(0),
        r.type_filling is IOC ==> trade_request_bytes(r).subrange(136, 140) == spec_u32_to_le_bytes(1),
        r.type_filling is Return ==> trade_request_bytes(r).subrange(136, 140) == spec_u32_to_le_bytes(2),
        r.type_filling is BOC ==> trade_request_bytes(r).subrange(136, 140) == spec_u32_to_le_bytes(3),
        r.type_time is GTC ==> trade_request_bytes(r).subrange(140, 144) == spec_u32_to_le_bytes(0),
        r.type_time is Day ==> trade_request_bytes(r).subrange(140, 144) == spec_u32_to_le_bytes(1),
        r.type_time is Specified ==> trade_request_bytes(r).subrange(140, 144) == spec_u32_to_le_bytes(2),
        r.type_time is SpecDay ==> trade_request_bytes(r).subrange(140, 144) == spec_u32_to_le_bytes(3),
{
    lemma_auto_spec_u32_to_from_le_bytes();
    lemma_trade_request_fields(r);
    let b = trade_request_bytes(r);
    assert(spec_u32_to_le_bytes(u32_at(b, 0)) == b.subrange(0, 4));
    assert(spec_u32_to_le_bytes(u32_at(b, 132)) == b.subrange(132, 136));
    assert(spec_u32_to_le_bytes(u32_at(b, 136)) == b.subrange(136, 140));
    assert(spec_u32_to_le_bytes(u32_at(b, 140)) == b.subrange(140, 144));
}

/// Different order types go on the wire as different numbers.
pub proof fn lemma_order_types_distinct(a: TradeRequest, b: TradeRequest)
    requires
        a.type_ != b.type_,
    ensures
        trade_request_bytes(a).subrange(132, 136) != trade_request_bytes(b).subrange(132, 136),
{
    lemma_auto_spec_u32_to_from_le_bytes();
    lemma_trade_request_fields(a);
    lemma_trade_request_fields(b);
    let x = trade_request_bytes(a).subrange(132, 136);
    let y = trade_request_bytes(b).subrange(132, 136);
    if x == y {
        assert(u32_at(trade_request_bytes(a), 132) == u32_at(trade_request_bytes(b), 132));
    }
}

/// A tick record at offset `p` holds, in order: time (i64), bid, ask, last (f64 bits), volume (u64), time_msc (i64), flags (u32), volume_real (f64 bits), each little-endian.
pub proof fn lemma_tick_layout(v: Tick, d: Seq<u8>, p: int)
    requires
        tick_at(v, d, p),
        0 <= p,
        p + TICK_LEN <= d.len(),
    ensures
        spec_u64_to_le_bytes(v.time as u64) == d.subrange(p, p + 8),
        spec_u64_to_le_bytes(v.bid) == d.subrange(p + 8, p + 16),
        spec_u64_to_le_bytes(v.ask) == d.subrange(p + 16, p + 24),
        spec_u64_to_le_bytes(v.last) == d.subrange(p + 24, p + 32),
        spec_u64_to_le_bytes(v.volume) == d.subrange(p + 32, p + 40),
        spec_u64_to_le_bytes(v.time_msc as u64) == d.subrange(p + 40, p + 48),
        spec_u32_to_le_bytes(v.flags) == d.subrange(p + 48, p + 52),
        spec_u64_to_le_bytes(v.volume_real) == d.subrange(p + 52, p + 60),
{
    lemma_auto_spec_u64_to_from_le_bytes();
    lemma_auto_spec_u32_to_from_le_bytes();
    lemma_auto_spec_u16_to_from_le_bytes();
    lemma_i64_bits(u64_at(d, p));
    lemma_i64_bits(u64_at(d, p + 40));
}

/// A bar record at offset `p` holds, in order: time (i64), open, high, low, close (f64 bits), tick_volume (u64), spread (i32), real_volume (u64), each little-endian.
pub proof fn lemma_rate_layout(v: Rate, d: Seq<u8>, p: int)
    requires
        rate_at(v, d, p),
        0 <= p,
        p + RATE_LEN <= d.len(),
    ensures
        spec_u64_to_le_bytes(v.time as u64) == d.subrange(p, p + 8),
        spec_u64_to_le_bytes(v.open) == d.subrange(p + 8, p + 16),
        spec_u64_to_le_bytes(v.high) == d.subrange(p + 16, p + 24),
        spec_u64_to_le_bytes(v.low) == d.subrange(p + 24, p + 32),
        spec_u64_to_le_bytes(v.close) == d.subrange(p + 32, p + 40),
        spec_u64_to_le_bytes(v.tick_volume) == d.subrange(p + 40, p + 48),
        spec_u32_to_le_bytes(v.spread as u32) == d.subrange(p + 48, p + 52),
        spec_u64_to_le_bytes(v.real_volume) == d.subrange(p + 52, p + 60),
{
    lemma_auto_spec_u64_to_from_le_bytes();
    lemma_auto_spec_u32_to_from_le_bytes();
    lemma_auto_spec_u16_to_from_le_bytes();
    lemma_i64_bits(u64_at(d, p));
    lemma_i32_bits(u32_at(d, p + 48));
}

/// A market-depth entry at offset `p` holds, in order: type (i64), price (f64 bits), volume (i64), volume_real (f64 bits).
pub proof fn lemma_book_entry_layout(v: BookInfo, d: Seq<u8>, p: int)
    requires
        book_entry_at(v, d, p),
        0 <= p,
        p + BOOK_ENTRY_LEN <= d.len(),
    ensures
        spec_u64_to_le_bytes(v.type_ as u64) == d.subrange(p, p + 8),
        spec_u64_to_le_bytes(v.price) == d.subrange(p + 8, p + 16),
        spec_u64_to_le_bytes(v.volume as u64) == d.subrange(p + 16, p + 24),
        spec_u64_to_le_bytes(v.volume_real) == d.subrange(p + 24, p + 32),
{
    lemma_auto_spec_u64_to_from_le_bytes();
    lemma_auto_spec_u32_to_from_le_bytes();
    lemma_auto_spec_u16_to_from_le_bytes();
    lemma_i64_bits(u64_at(d, p));
    lemma_i64_bits(u64_at(d, p + 16));
}

/// A position record at offset `p` holds its fields at fixed offsets: ticket 0, times 8..40, type 40, magic 44, identifier 52, reason 60, volume 64, price_open 72, price_sl 80, price_tp 88, price_current 96, commission 104, swap 112, profit 120, then the symbol, comment and external id slots.
pub proof fn lemma_position_layout(v: TradePosition, d: Seq<u8>, p: int)
    requires
        position_at(v, d, p),
        0 <= p,
        p + POSITION_LEN <= d.len(),
    ensures
        spec_u64_to_le_bytes(v.ticket as u64) == d.subrange(p, p + 8),
        spec_u64_to_le_bytes(v.time as u64) == d.subrange(p + 8, p + 16),
        spec_u64_to_le_bytes(v.time_msc as u64) == d.subrange(p + 16, p + 24),
        spec_u64_to_le_bytes(v.time_update as u64) == d.subrange(p + 24, p + 32),
        spec_u64_to_le_bytes(v.time_update_msc as u64) == d.subrange(p + 32, p + 40),
        spec_u32_to_le_bytes(v.type_ as u32) == d.subrange(p + 40, p + 44),
        spec_u64_to_le_bytes(v.magic as u64) == d.subrange(p + 44, p + 52),
        spec_u64_to_le_bytes(v.identifier as u64) == d.subrange(p + 52, p + 60),
        spec_u32_to_le_bytes(v.reason as u32) == d.subrange(p + 60, p + 64),
        spec_u64_to_le_bytes(v.volume) == d.subrange(p + 64, p + 72),
        spec_u64_to_le_bytes(v.price_open) == d.subrange(p + 72, p + 80),
        spec_u64_to_le_bytes(v.price_sl) == d.subrange(p + 80, p + 88),
        spec_u64_to_le_bytes(v.price_tp) == d.subrange(p + 88, p + 96),
        spec_u64_to_le_bytes(v.price_current) == d.subrange(p + 96, p + 104),
        spec_u64_to_le_bytes(v.commission) == d.subrange(p + 104, p + 112),
        spec_u64_to_le_bytes(v.swap) == d.subrange(p + 112, p + 120),
        spec_u64_to_le_bytes(v.profit) == d.subrange(p + 120, p + 128),
        slot_text(v.symbol@, d, p + 128, 64),
        slot_text(v.comment@, d, p + 192, 64),
        slot_text(v.external_id@, d, p + 256, 64),
{
    lemma_auto_spec_u64_to_from_le_bytes();
    lemma_auto_spec_u32_to_from_le_bytes();
    lemma_auto_spec_u16_to_from_le_bytes();
    lemma_i64_bits(u64_at(d, p));
    lemma_i64_bits(u64_at(d, p + 8));
    lemma_i64_bits(u64_at(d, p + 16));
    lemma_i64_bits(u64_at(d, p + 24));
    lemma_i64_bits(u64_at(d, p + 32));
    lemma_i32_bits(u32_at(d, p + 40));
    lemma_i64_bits(u64_at(d, p + 44));
    lemma_i64_bits(u64_at(d, p + 52));
    lemma_i32_bits(u32_at(d, p + 60));
}

/// An order record at offset `p` holds its fields at fixed offsets, prices from 108 (open, current, sl, tp, stoplimit) and the text slots from 148.
pub proof fn lemma_order_layout(v: TradeOrder, d: Seq<u8>, p: int)
    requires
        order_at(v, d, p),
        0 <= p,
        p + ORDER_LEN <= d.len(),
    ensures
        spec_u64_to_le_bytes(v.ticket as u64) == d.subrange(p, p + 8),
        spec_u64_to_le_bytes(v.time_setup as u64) == d.subrange(p + 8, p + 16),
        spec_u64_to_le_bytes(v.time_setup_msc as u64) == d.subrange(p + 16, p + 24),
        spec_u64_to_le_bytes(v.time_done as u64) == d.subrange(p + 24, p + 32),
        spec_u64_to_le_bytes(v.time_done_msc as u64) == d.subrange(p + 32, p + 40),
        spec_u64_to_le_bytes(v.time_expiration as u64) == d.subrange(p + 40, p + 48),
        spec_u32_to_le_bytes(v.type_ as u32) == d.subrange(p + 48, p + 52),
        spec_u32_to_le_bytes(v.type_time as u32) == d.subrange(p + 52, p + 56),
        spec_u32_to_le_bytes(v.type_filling as u32) == d.subrange(p + 56, p + 60),
        spec_u32_to_le_bytes(v.state as u32) == d.subrange(p + 60, p + 64),
        spec_u64_to_le_bytes(v.magic as u64) == d.subrange(p + 64, p + 72),
        spec_u64_to_le_bytes(v.position_id as u64) == d.subrange(p + 72, p + 80),
        spec_u64_to_le_bytes(v.position_by_id as u64) == d.subrange(p + 80, p + 88),
        spec_u32_to_le_bytes(v.reason as u32) == d.subrange(p + 88, p + 92),
        spec_u64_to_le_bytes(v.volume_initial) == d.subrange(p + 92, p + 100),
        spec_u64_to_le_bytes(v.volume_current) == d.subrange(p + 100, p + 108),
        spec_u64_to_le_bytes(v.price_open) == d.subrange(p + 108, p + 116),
        spec_u64_to_le_bytes(v.price_current) == d.subrange(p + 116, p + 124),
        spec_u64_to_le_bytes(v.price_sl) == d.subrange(p + 124, p + 132),
        spec_u64_to_le_bytes(v.price_tp) == d.subrange(p + 132, p + 140),
        spec_u64_to_le_bytes(v.price_stoplimit) == d.subrange(p + 140, p + 148),
        slot_text(v.symbol@, d, p + 148, 64),
        slot_text(v.comment@, d, p + 212, 64),
        slot_text(v.external_id@, d, p + 276, 64),
{
    lemma_auto_spec_u64_to_from_le_bytes();
    lemma_auto_spec_u32_to_from_le_bytes();
    lemma_auto_spec_u16_to_from_le_bytes();
    lemma_i64_bits(u64_at(d, p));
    lemma_i64_bits(u64_at(d, p + 8));
    lemma_i64_bits(u64_at(d, p + 16));
    lemma_i64_bits(u64_at(d, p + 24));
    lemma_i64_bits(u64_at(d, p + 32));
    lemma_i64_bits(u64_at(d, p + 40));
    lemma_i32_bits(u32_at(d, p + 48));
    lemma_i32_bits(u32_at(d, p + 52));
    lemma_i32_bits(u32_at(d, p + 56));
    lemma_i32_bits(u32_at(d, p + 60));
    lemma_i64_bits(u64_at(d, p + 64));
    lemma_i64_bits(u64_at(d, p + 72));
    lemma_i64_bits(u64_at(d, p + 80));
    lemma_i32_bits(u32_at(d, p + 88));
}

/// A deal record at offset `p` holds its fields at fixed offsets, amounts from 60 (volume, price, commission, swap, profit, fee) and the text slots from 108.
pub proof fn lemma_deal_layout(v: TradeDeal, d: Seq<u8>, p: int)
    requires
        deal_at(v, d, p),
        0 <= p,
        p + DEAL_LEN <= d.len(),
    ensures
        spec_u64_to_le_bytes(v.ticket as u64) == d.subrange(p, p + 8),
        spec_u64_to_le_bytes(v.order as u64) == d.subrange(p + 8, p + 16),
        spec_u64_to_le_bytes(v.time as u64) == d.subrange(p + 16, p + 24),
        spec_u64_to_le_bytes(v.time_msc as u64) == d.subrange(p + 24, p + 32),
        spec_u32_to_le_bytes(v.type_ as u32) == d.subrange(p + 32, p + 36),
        spec_u32_to_le_bytes(v.entry as u32) == d.subrange(p + 36, p + 40),
        spec_u64_to_le_bytes(v.magic as u64) == d.subrange(p + 40, p + 48),
        spec_u64_to_le_bytes(v.position_id as u64) == d.subrange(p + 48, p + 56),
        spec_u32_to_le_bytes(v.reason as u32) == d.subrange(p + 56, p + 60),
        spec_u64_to_le_bytes(v.volume) == d.subrange(p + 60, p + 68),
        spec_u64_to_le_bytes(v.price) == d.subrange(p + 68, p + 76),
        spec_u64_to_le_bytes(v.commission) == d.subrange(p + 76, p + 84),
        spec_u64_to_le_bytes(v.swap) == d.subrange(p + 84, p + 92),
        spec_u64_to_le_bytes(v.profit) == d.subrange(p + 92, p + 100),
        spec_u64_to_le_bytes(v.fee) == d.subrange(p + 100, p + 108),
        slot_text(v.symbol@, d, p + 108, 64),
        slot_text(v.comment@, d, p + 172, 64),
        slot_text(v.external_id@, d, p + 236, 64),
{
    lemma_auto_spec_u64_to_from_le_bytes();
    lemma_auto_spec_u32_to_from_le_bytes();
    lemma_auto_spec_u16_to_from_le_bytes();
    lemma_i64_bits(u64_at(d, p));
    lemma_i64_bits(u64_at(d, p + 8));
    lemma_i64_bits(u64_at(d, p + 16));
    lemma_i64_bits(u64_at(d, p + 24));
    lemma_i32_bits(u32_at(d, p + 32));
    lemma_i32_bits(u32_at(d, p + 36));
    lemma_i64_bits(u64_at(d, p + 40));
    lemma_i64_bits(u64_at(d, p + 48));
    lemma_i32_bits(u32_at(d, p + 56));
}

/// A symbol description at offset `p` holds its fields at fixed offsets (digits at 63, bid at 145, ask at 169, point at 249, the name slot at 2929).
pub proof fn lemma_symbol_info_layout(v: SymbolInfo, d: Seq<u8>, p: int)
    requires
        symbol_info_at(v, d, p),
        0 <= p,
        p + SYMBOL_INFO_LEN <= d.len(),
    ensures
        v.custom == (d[p] != 0),
        spec_u32_to_le_bytes(v.chart_mode as u32) == d.subrange(p + 1, p + 5),
        v.select == (d[p + 5] != 0),
        v.visible == (d[p + 6] != 0),
        spec_u64_to_le_bytes(v.session_deals as u64) == d.subrange(p + 7, p + 15),
        spec_u64_to_le_bytes(v.session_buy_orders as u64) == d.subrange(p + 15, p + 23),
        spec_u64_to_le_bytes(v.session_sell_orders as u64) == d.subrange(p + 23, p + 31),
        spec_u64_to_le_bytes(v.volume as u64) == d.subrange(p + 31, p + 39),
        spec_u64_to_le_bytes(v.volume_high as u64) == d.subrange(p + 39, p + 47),
        spec_u64_to_le_bytes(v.volume_low as u64) == d.subrange(p + 47, p + 55),
        spec_u64_to_le_bytes(v.time as u64) == d.subrange(p + 55, p + 63),
        spec_u32_to_le_bytes(v.digits as u32) == d.subrange(p + 63, p + 67),
        spec_u32_to_le_bytes(v.spread as u32) == d.subrange(p + 67, p + 71),
        v.spread_float == (d[p + 71] != 0),
        spec_u32_to_le_bytes(v.ticks_book_depth as u32) == d.subrange(p + 72, p + 76),
        spec_u32_to_le_bytes(v.trade_calc_mode as u32) == d.subrange(p + 76, p + 80),
        spec_u32_to_le_bytes(v.trade_mode as u32) == d.subrange(p + 80, p + 84),
        spec_u64_to_le_bytes(v.start_time as u64) == d.subrange(p + 84, p + 92),
        spec_u64_to_le_bytes(v.expiration_time as u64) == d.subrange(p + 92, p + 100),
        spec_u32_to_le_bytes(v.trade_stops_level as u32) == d.subrange(p + 100, p + 104),
        spec_u32_to_le_bytes(v.trade_freeze_level as u32) == d.subrange(p + 104, p + 108),
        spec_u32_to_le_bytes(v.trade_exe_mode as u32) == d.subrange(p + 108, p + 112),
        spec_u32_to_le_bytes(v.swap_mode as u32) == d.subrange(p + 112, p + 116),
        spec_u32_to_le_bytes(v.swap_rollover3days as u32) == d.subrange(p + 116, p + 120),
        v.margin_hedged_use_leg == (d[p + 120] != 0),
        spec_u32_to_le_bytes(v.expiration_mode as u32) == d.subrange(p + 121, p + 125),
        spec_u32_to_le_bytes(v.filling_mode as u32) == d.subrange(p + 125, p + 129),
        spec_u32_to_le_bytes(v.order_mode as u32) == d.subrange(p + 129, p + 133),
        spec_u32_to_le_bytes(v.order_gtc_mode as u32) == d.subrange(p + 133, p + 137),
        spec_u32_to_le_bytes(v.option_mode as u32) == d.subrange(p + 137, p + 141),
        spec_u32_to_le_bytes(v.option_right as u32) == d.subrange(p + 141, p + 145),
        spec_u64_to_le_bytes(v.bid) == d.subrange(p + 145, p + 153),
        spec_u64_to_le_bytes(v.bidhigh) == d.subrange(p + 153, p + 161),
        spec_u64_to_le_bytes(v.bidlow) == d.subrange(p + 161, p + 169),
        spec_u64_to_le_bytes(v.ask) == d.subrange(p + 169, p + 177),
        spec_u64_to_le_bytes(v.askhigh) == d.subrange(p + 177, p + 185),
        spec_u64_to_le_bytes(v.asklow) == d.subrange(p + 185, p + 193),
        spec_u64_to_le_bytes(v.last) == d.subrange(p + 193, p + 201),
        spec_u64_to_le_bytes(v.lasthigh) == d.subrange(p + 201, p + 209),
        spec_u64_to_le_bytes(v.lastlow) == d.subrange(p + 209, p + 217),
        spec_u64_to_le_bytes(v.volume_real) == d.subrange(p + 217, p + 225),
        spec_u64_to_le_bytes(v.volumehigh_real) == d.subrange(p + 225, p + 233),
        spec_u64_to_le_bytes(v.volumelow_real) == d.subrange(p + 233, p + 241),
        spec_u64_to_le_bytes(v.option_strike) == d.subrange(p + 241, p + 249),
        spec_u64_to_le_bytes(v.point) == d.subrange(p + 249, p + 257),
        spec_u64_to_le_bytes(v.trade_tick_value) == d.subrange(p + 257, p + 265),
        spec_u64_to_le_bytes(v.trade_tick_value_profit) == d.subrange(p + 265, p + 273),
        spec_u64_to_le_bytes(v.trade_tick_value_loss) == d.subrange(p + 273, p + 281),
        spec_u64_to_le_bytes(v.trade_tick_size) == d.subrange(p + 281, p + 289),
        spec_u64_to_le_bytes(v.trade_contract_size) == d.subrange(p + 289, p + 297),
        spec_u64_to_le_bytes(v.trade_accrued_interest) == d.subrange(p + 297, p + 305),
        spec_u64_to_le_bytes(v.trade_face_value) == d.subrange(p + 305, p + 313),
        spec_u64_to_le_bytes(v.trade_liquidity_rate) == d.subrange(p + 313, p + 321),
        spec_u64_to_le_bytes(v.volume_min) == d.subrange(p + 321, p + 329),
        spec_u64_to_le_bytes(v.volume_max) == d.subrange(p + 329, p + 337),
        spec_u64_to_le_bytes(v.volume_step) == d.subrange(p + 337, p + 345),
        spec_u64_to_le_bytes(v.volume_limit) == d.subrange(p + 345, p + 353),
        spec_u64_to_le_bytes(v.swap_long) == d.subrange(p + 353, p + 361),
        spec_u64_to_le_bytes(v.swap_short) == d.subrange(p + 361, p + 369),
        spec_u64_to_le_bytes(v.margin_initial) == d.subrange(p + 369, p + 377),
        spec_u64_to_le_bytes(v.margin_maintenance) == d.subrange(p + 377, p + 385),
        spec_u64_to_le_bytes(v.session_volume) == d.subrange(p + 385, p + 393),
        spec_u64_to_le_bytes(v.session_turnover) == d.subrange(p + 393, p + 401),
        spec_u64_to_le_bytes(v.session_interest) == d.subrange(p + 401, p + 409),
        spec_u64_to_le_bytes(v.session_buy_orders_volume) == d.subrange(p + 409, p + 417),
        spec_u64_to_le_bytes(v.session_sell_orders_volume) == d.subrange(p + 417, p + 425),
        spec_u64_to_le_bytes(v.session_open) == d.subrange(p + 425, p + 433),
        spec_u64_to_le_bytes(v.session_close) == d.subrange(p + 433, p + 441),
        spec_u64_to_le_bytes(v.session_aw) == d.subrange(p + 441, p + 449),
        spec_u64_to_le_bytes(v.session_price_settlement) == d.subrange(p + 449, p + 457),
        spec_u64_to_le_bytes(v.session_price_limit_min) == d.subrange(p + 457, p + 465),
        spec_u64_to_le_bytes(v.session_price_limit_max) == d.subrange(p + 465, p + 473),
        spec_u64_to_le_bytes(v.margin_hedged) == d.subrange(p + 473, p + 481),
        spec_u64_to_le_bytes(v.price_change) == d.subrange(p + 481, p + 489),
        spec_u64_to_le_bytes(v.price_volatility) == d.subrange(p + 489, p + 497),
        spec_u64_to_le_bytes(v.price_theoretical) == d.subrange(p + 497, p + 505),
        spec_u64_to_le_bytes(v.price_greeks_delta) == d.subrange(p + 505, p + 513),
        spec_u64_to_le_bytes(v.price_greeks_theta) == d.subrange(p + 513, p + 521),
        spec_u64_to_le_bytes(v.price_greeks_gamma) == d.subrange(p + 521, p + 529),
        spec_u64_to_le_bytes(v.price_greeks_vega) == d.subrange(p + 529, p + 537),
        spec_u64_to_le_bytes(v.price_greeks_rho) == d.subrange(p + 537, p + 545),
        spec_u64_to_le_bytes(v.price_greeks_omega) == d.subrange(p + 545, p + 553),
        spec_u64_to_le_bytes(v.price_sensitivity) == d.subrange(p + 553, p + 561),
        slot_text(v.basis@, d, p + 561, 64),
        slot_text(v.category@, d, p + 625, 128),
        slot_text(v.currency_base@, d, p + 753, 32),
        slot_text(v.currency_profit@, d, p + 785, 32),
        slot_text(v.currency_margin@, d, p + 817, 32),
        slot_text(v.bank@, d, p + 849, 512),
        slot_text(v.description@, d, p + 1361, 64),
        slot_text(v.exchange@, d, p + 1425, 64),
        slot_text(v.formula@, d, p + 1489, 1024),
        slot_text(v.isin@, d, p + 2513, 32),
        slot_text(v.page@, d, p + 2545, 128),
        slot_text(v.path@, d, p + 2673, 256),
        slot_text(v.name@, d, p + 2929, 64),
{
    lemma_auto_spec_u64_to_from_le_bytes();
    lemma_auto_spec_u32_to_from_le_bytes();
    lemma_auto_spec_u16_to_from_le_bytes();
    lemma_u32_widened(u32_at(d, p + 1));
    lemma_i64_bits(u64_at(d, p + 7));
    lemma_i64_bits(u64_at(d, p + 15));
    lemma_i64_bits(u64_at(d, p + 23));
    lemma_i64_bits(u64_at(d, p + 31));
    lemma_i64_bits(u64_at(d, p + 39));
    lemma_i64_bits(u64_at(d, p + 47));
    lemma_i64_bits(u64_at(d, p + 55));
    lemma_u32_widened(u32_at(d, p + 63));
    lemma_u32_widened(u32_at(d, p + 67));
    lemma_u32_widened(u32_at(d, p + 72));
    lemma_u32_widened(u32_at(d, p + 76));
    lemma_u32_widened(u32_at(d, p + 80));
    lemma_i64_bits(u64_at(d, p + 84));
    lemma_i64_bits(u64_at(d, p + 92));
    lemma_u32_widened(u32_at(d, p + 100));
    lemma_u32_widened(u32_at(d, p + 104));
    lemma_u32_widened(u32_at(d, p + 108));
    lemma_u32_widened(u32_at(d, p + 112));
    lemma_u32_widened(u32_at(d, p + 116));
    lemma_u32_widened(u32_at(d, p + 121));
    lemma_u32_widened(u32_at(d, p + 125));
    lemma_u32_widened(u32_at(d, p + 129));
    lemma_u32_widened(u32_at(d, p + 133));
    lemma_u32_widened(u32_at(d, p + 137));
    lemma_u32_widened(u32_at(d, p + 141));
}

/// An account reply holds login at 0, the mode numbers from 8, balance 35, credit 43, profit 51, equity 59, margin 67, free_margin 75, margin_level 83 and the later amounts, then the text slots from 147.
pub proof fn lemma_account_info_layout(a: AccountInfo, d: Seq<u8>)
    requires
        account_info_at(a, d),
        ACCOUNT_INFO_LEN <= d.len(),
    ensures
        spec_u64_to_le_bytes(a.login as u64) == d.subrange(0, 8),
        spec_u32_to_le_bytes((a.trade_mode as i32) as u32) == d.subrange(8, 12),
        spec_u32_to_le_bytes((a.leverage as i32) as u32) == d.subrange(12, 16),
        spec_u32_to_le_bytes((a.limit_orders as i32) as u32) == d.subrange(16, 20),
        spec_u32_to_le_bytes((a.margin_so_mode as i32) as u32) == d.subrange(20, 24),
        a.trade_allowed == (d[24] != 0),
        a.trade_expert == (d[25] != 0),
        spec_u32_to_le_bytes((a.margin_mode as i32) as u32) == d.subrange(26, 30),
        spec_u32_to_le_bytes((a.currency_digits as i32) as u32) == d.subrange(30, 34),
        a.fifo_close == (d[34] != 0),
        spec_u64_to_le_bytes(a.balance) == d.subrange(35, 43),
        spec_u64_to_le_bytes(a.credit) == d.subrange(43, 51),
        spec_u64_to_le_bytes(a.profit) == d.subrange(51, 59),
        spec_u64_to_le_bytes(a.equity) == d.subrange(59, 67),
        spec_u64_to_le_bytes(a.margin) == d.subrange(67, 75),
        spec_u64_to_le_bytes(a.free_margin) == d.subrange(75, 83),
        spec_u64_to_le_bytes(a.margin_level) == d.subrange(83, 91),
        spec_u64_to_le_bytes(a.margin_so_call) == d.subrange(91, 99),
        spec_u64_to_le_bytes(a.margin_so_so) == d.subrange(99, 107),
        spec_u64_to_le_bytes(a.margin_initial) == d.subrange(107, 115),
        spec_u64_to_le_bytes(a.margin_maintenance) == d.subrange(115, 123),
        spec_u64_to_le_bytes(a.assets) == d.subrange(123, 131),
        spec_u64_to_le_bytes(a.liabilities) == d.subrange(131, 139),
        spec_u64_to_le_bytes(a.commission_blocked) == d.subrange(139, 147),
        slot_text(a.name@, d, 147, 256),
        slot_text(a.server@, d, 403, 128),
        slot_text(a.currency@, d, 531, 64),
        slot_text(a.company@, d, 595, 256),
{
    lemma_auto_spec_u64_to_from_le_bytes();
    lemma_auto_spec_u32_to_from_le_bytes();
    lemma_auto_spec_u16_to_from_le_bytes();
    lemma_i64_bits(u64_at(d, 0));
    lemma_i32_widened(u32_at(d, 8));
    lemma_i32_widened(u32_at(d, 12));
    lemma_i32_widened(u32_at(d, 16));
    lemma_i32_widened(u32_at(d, 20));
    lemma_i32_widened(u32_at(d, 26));
    lemma_i32_widened(u32_at(d, 30));
}

/// A terminal reply holds the build at 0, flags at 2..12, max_bars at 12, code_page 17, ping_last 21, community_balance 24, retransmission 32, then texts from 41.
pub proof fn lemma_terminal_info_layout(t: TerminalInfo, d: Seq<u8>)
    requires
        terminal_info_at(t, d),
        TERMINAL_NUMBERS_LEN <= d.len(),
    ensures
        t.community_account == (d[2] != 0),
        t.community_connection == (d[3] != 0),
        t.notifications_enabled == (d[4] != 0),
        t.mqid == (d[5] != 0),
        t.connected == (d[6] != 0),
        t.dlls_allowed == (d[7] != 0),
        t.trade_allowed == (d[8] != 0),
        t.trade_api_disabled == (d[9] != 0),
        t.email_enabled == (d[10] != 0),
        t.ftp_enabled == (d[11] != 0),
        spec_u16_to_le_bytes(t.build as u16) == d.subrange(0, 2),
        spec_u32_to_le_bytes(t.max_bars as u32) == d.subrange(12, 16),
        spec_u16_to_le_bytes(t.code_page as u16) == d.subrange(17, 19),
        spec_u16_to_le_bytes(t.ping_last as u16) == d.subrange(21, 23),
        spec_u64_to_le_bytes(t.community_balance) == d.subrange(24, 32),
        spec_u64_to_le_bytes(t.retransmission) == d.subrange(32, 40),
        text_at(t.company@, d, 41),
        text_at(t.name@, d, 561),
        text_at(t.language@, d, 1081),
        text_at(t.path@, d, 1601),
        text_at(t.data_path@, d, 2121),
        text_at(t.common_data_path@, d, 2641),
{
    lemma_auto_spec_u64_to_from_le_bytes();
    lemma_auto_spec_u32_to_from_le_bytes();
    lemma_auto_spec_u16_to_from_le_bytes();
    lemma_u16_widened(u16_at(d, 0));
    lemma_u32_widened(u32_at(d, 12));
    lemma_u16_widened(u16_at(d, 17));
    lemma_u16_widened(u16_at(d, 21));
}

/// An order-check reply holds retcode at 0, balance 4, equity 12, profit 20, margin 28, margin_free 36, margin_level 44 and the comment slot at 52.
pub proof fn lemma_check_result_layout(c: TradeCheckResult, d: Seq<u8>)
    requires
        check_result_at(c, d),
        CHECK_RESULT_TOTAL <= d.len(),
    ensures
        spec_u32_to_le_bytes(c.retcode) == d.subrange(0, 4),
        spec_u64_to_le_bytes(c.balance) == d.subrange(4, 12),
        spec_u64_to_le_bytes(c.equity) == d.subrange(12, 20),
        spec_u64_to_le_bytes(c.profit) == d.subrange(20, 28),
        spec_u64_to_le_bytes(c.margin) == d.subrange(28, 36),
        spec_u64_to_le_bytes(c.margin_free) == d.subrange(36, 44),
        spec_u64_to_le_bytes(c.margin_level) == d.subrange(44, 52),
        slot_text(c.comment@, d, 52, 200),
{
    lemma_auto_spec_u64_to_from_le_bytes();
    lemma_auto_spec_u32_to_from_le_bytes();
    lemma_auto_spec_u16_to_from_le_bytes();
}

/// An order-send reply holds retcode at 0, deal 4, order 12, volume 20, price 28, bid 36, ask 44, the comment slot at 52, request_id 252, retcode_ext 256.
pub proof fn lemma_trade_result_layout(t: TradeResult, d: Seq<u8>)
    requires
        trade_result_at(t, d),
        TRADE_RESULT_TOTAL <= d.len(),
    ensures
        spec_u32_to_le_bytes(t.retcode) == d.subrange(0, 4),
        spec_u64_to_le_bytes(t.deal as u64) == d.subrange(4, 12),
        spec_u64_to_le_bytes(t.order as u64) == d.subrange(12, 20),
        spec_u64_to_le_bytes(t.volume) == d.subrange(20, 28),
        spec_u64_to_le_bytes(t.price) == d.subrange(28, 36),
        spec_u64_to_le_bytes(t.bid) == d.subrange(36, 44),
        spec_u64_to_le_bytes(t.ask) == d.subrange(44, 52),
        slot_text(t.comment@, d, 52, 200),
        spec_u32_to_le_bytes(t.request_id) == d.subrange(252, 256),
        spec_u32_to_le_bytes(t.retcode_ext as u32) == d.subrange(256, 260),
{
    lemma_auto_spec_u64_to_from_le_bytes();
    lemma_auto_spec_u32_to_from_le_bytes();
    lemma_auto_spec_u16_to_from_le_bytes();
    lemma_i64_bits(u64_at(d, 4));
    lemma_i64_bits(u64_at(d, 12));
    lemma_i32_bits(u32_at(d, 256));
}


/// A login payload is the account number (8 bytes), then the password and
/// the server, each as a count-prefixed UTF-16LE string.
pub proof fn lemma_login_layout(login: i64, password: Seq<char>, server: Seq<char>)
    ensures
        ({
            let b = login_bytes(login, password, server);
            let k = encoded_string(password).len() as int;
            &&& b.subrange(0, 8) == spec_u64_to_le_bytes(login as u64)
            &&& b.subrange(8, 8 + k) == encoded_string(password)
            &&& b.subrange(8 + k, b.len() as int) == encoded_string(server)
        }),
{
    lemma_auto_spec_u64_to_from_le_bytes();
    let b = login_bytes(login, password, server);
    let k = encoded_string(password).len() as int;
    assert(b.subrange(0, 8) =~= spec_u64_to_le_bytes(login as u64));
    assert(b.subrange(8, 8 + k) =~= encoded_string(password));
    assert(b.subrange(8 + k, b.len() as int) =~= encoded_string(server));
}

/// A `symbol_select` payload is the symbol, then one byte: 1 to show it, 0 to hide it.
pub proof fn lemma_select_layout(symbol: Seq<char>, enable: bool)
    ensures
        ({
            let b = select_bytes(symbol, enable);
            let k = encoded_string(symbol).len() as int;
            &&& b.len() == k + 1
            &&& b.subrange(0, k) == encoded_string(symbol)
            &&& b[k] == (if enable { 1u8 } else { 0u8 })
        }),
{
    let b = select_bytes(symbol, enable);
    let k = encoded_string(symbol).len() as int;
    assert(b.subrange(0, k) =~= encoded_string(symbol));
}

/// A history query is the start date, then the end date (8 bytes each).
pub proof fn lemma_history_range_layout(from: i64, to: i64)
    ensures
        history_range_bytes(from, to).len() == 16,
        history_range_bytes(from, to).subrange(0, 8) == spec_u64_to_le_bytes(from as u64),
        history_range_bytes(from, to).subrange(8, 16) == spec_u64_to_le_bytes(to as u64),
{
    lemma_auto_spec_u64_to_from_le_bytes();
    let b = history_range_bytes(from, to);
    assert(b.subrange(0, 8) =~= spec_u64_to_le_bytes(from as u64));
    assert(b.subrange(8, 16) =~= spec_u64_to_le_bytes(to as u64));
}

/// A bars-from-position query is the symbol, then timeframe, start
/// position and count (4 bytes each).
pub proof fn lemma_rates_from_pos_layout(symbol: Seq<char>, timeframe: i32, start_pos: i64, count: i32)
    ensures
        ({
            let b = rates_from_pos_bytes(symbol, timeframe, start_pos, count);
            let k = encoded_string(symbol).len() as int;
            &&& b.len() == k + 12
            &&& b.subrange(0, k) == encoded_string(symbol)
            &&& b.subrange(k, k + 4) == spec_u32_to_le_bytes(timeframe as u32)
            &&& b.subrange(k + 4, k + 8) == spec_u32_to_le_bytes(start_pos as u32)
            &&& b.subrange(k + 8, k + 12) == spec_u32_to_le_bytes(count as u32)
        }),
{
    lemma_auto_spec_u32_to_from_le_bytes();
    let b = rates_from_pos_bytes(symbol, timeframe, start_pos, count);
    let k = encoded_string(symbol).len() as int;
    assert(b.subrange(0, k) =~= encoded_string(symbol));
    assert(b.subrange(k, k + 4) =~= spec_u32_to_le_bytes(timeframe as u32));
    assert(b.subrange(k + 4, k + 8) =~= spec_u32_to_le_bytes(start_pos as u32));
    assert(b.subrange(k + 8, k + 12) =~= spec_u32_to_le_bytes(count as u32));
}

/// A bars-from-date query is the symbol, then timeframe (4 bytes), start
/// date (8) and count (4).
pub proof fn lemma_rates_from_layout(symbol: Seq<char>, timeframe: i32, date_from: i64, count: i32)
    ensures
        ({
            let b = rates_from_bytes(symbol, timeframe, date_from, count);
            let k = encoded_string(symbol).len() as int;
            &&& b.len() == k + 16
            &&& b.subrange(0, k) == encoded_string(symbol)
            &&& b.subrange(k, k + 4) == spec_u32_to_le_bytes(timeframe as u32)
            &&& b.subrange(k + 4, k + 12) == spec_u64_to_le_bytes(date_from as u64)
            &&& b.subrange(k + 12, k + 16) == spec_u32_to_le_bytes(count as u32)
        }),
{
    lemma_auto_spec_u32_to_from_le_bytes();
    lemma_auto_spec_u64_to_from_le_bytes();
    let b = rates_from_bytes(symbol, timeframe, date_from, count);
    let k = encoded_string(symbol).len() as int;
    assert(b.subrange(0, k) =~= encoded_string(symbol));
    assert(b.subrange(k, k + 4) =~= spec_u32_to_le_bytes(timeframe as u32));
    assert(b.subrange(k + 4, k + 12) =~= spec_u64_to_le_bytes(date_from as u64));
    assert(b.subrange(k + 12, k + 16) =~= spec_u32_to_le_bytes(count as u32));
}

/// A bars-in-range query is the symbol, then timeframe (4 bytes), start
/// date and end date (8 each).
pub proof fn lemma_rates_range_layout(symbol: Seq<char>, timeframe: i32, date_from: i64, date_to: i64)
    ensures
        ({
            let b = rates_range_bytes(symbol, timeframe, date_from, date_to);
            let k = encoded_string(symbol).len() as int;
            &&& b.len() == k + 20
            &&& b.subrange(0, k) == encoded_string(symbol)
            &&& b.subrange(k, k + 4) == spec_u32_to_le_bytes(timeframe as u32)
            &&& b.subrange(k + 4, k + 12) == spec_u64_to_le_bytes(date_from as u64)
            &&& b.subrange(k + 12, k + 20) == spec_u64_to_le_bytes(date_to as u64)
        }),
{
    lemma_auto_spec_u32_to_from_le_bytes();
    lemma_auto_spec_u64_to_from_le_bytes();
    let b = rates_range_bytes(symbol, timeframe, date_from, date_to);
    let k = encoded_string(symbol).len() as int;
    assert(b.subrange(0, k) =~= encoded_string(symbol));
    assert(b.subrange(k, k + 4) =~= spec_u32_to_le_bytes(timeframe as u32));
    assert(b.subrange(k + 4, k + 12) =~= spec_u64_to_le_bytes(date_from as u64));
    assert(b.subrange(k + 12, k + 20) =~= spec_u64_to_le_bytes(date_to as u64));
}

/// A ticks-from-date query is the symbol, then start date (8 bytes), count
/// and flags (4 each).
pub proof fn lemma_ticks_from_layout(symbol: Seq<char>, from: i64, count: i32, flags: i32)
    ensures
        ({
            let b = ticks_from_bytes(symbol, from, count, flags);
            let k = encoded_string(symbol).len() as int;
            &&& b.len() == k + 16
            &&& b.subrange(0, k) == encoded_string(symbol)
            &&& b.subrange(k, k + 8) == spec_u64_to_le_bytes(from as u64)
            &&& b.subrange(k + 8, k + 12) == spec_u32_to_le_bytes(count as u32)
            &&& b.subrange(k + 12, k + 16) == spec_u32_to_le_bytes(flags as u32)
        }),
{
    lemma_auto_spec_u32_to_from_le_bytes();
    lemma_auto_spec_u64_to_from_le_bytes();
    let b = ticks_from_bytes(symbol, from, count, flags);
    let k = encoded_string(symbol).len() as int;
    assert(b.subrange(0, k) =~= encoded_string(symbol));
    assert(b.subrange(k, k + 8) =~= spec_u64_to_le_bytes(from as u64));
    assert(b.subrange(k + 8, k + 12) =~= spec_u32_to_le_bytes(count as u32));
    assert(b.subrange(k + 12, k + 16) =~= spec_u32_to_le_bytes(flags as u32));
}

/// A ticks-in-range query is the symbol, then start and end dates (8 bytes
/// each) and flags (4).
pub proof fn lemma_ticks_range_layout(symbol: Seq<char>, from: i64, to: i64, flags: i32)
    ensures
        ({
            let b = ticks_range_bytes(symbol, from, to, flags);
            let k = encoded_string(symbol).len() as int;
            &&& b.len() == k + 20
            &&& b.subrange(0, k) == encoded_string(symbol)
            &&& b.subrange(k, k + 8) == spec_u64_to_le_bytes(from as u64)
            &&& b.subrange(k + 8, k + 16) == spec_u64_to_le_bytes(to as u64)
            &&& b.subrange(k + 16, k + 20) == spec_u32_to_le_bytes(flags as u32)
        }),
{
    lemma_auto_spec_u32_to_from_le_bytes();
    lemma_auto_spec_u64_to_from_le_bytes();
    let b = ticks_range_bytes(symbol, from, to, flags);
    let k = encoded_string(symbol).len() as int;
    assert(b.subrange(0, k) =~= encoded_string(symbol));
    assert(b.subrange(k, k + 8) =~= spec_u64_to_le_bytes(from as u64));
    assert(b.subrange(k + 8, k + 16) =~= spec_u64_to_le_bytes(to as u64));
    assert(b.subrange(k + 16, k + 20) =~= spec_u32_to_le_bytes(flags as u32));
}

}
