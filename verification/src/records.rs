//! Fixed-layout records of the terminal's responses.
use vstd::prelude::*;
use crate::reader::{Reader, bool_at, i32_at, i64_at, u32_at, u64_at};
use crate::text::slot_text;
use crate::types::{BookInfo, Rate, SymbolInfo, Tick, TradeDeal, TradeOrder, TradePosition};

verus! {

/// Wire size of a tick.
pub const TICK_LEN: usize = 60;

/// `v` is a tick decoded from the 60 bytes at offset `p` of `d`.
pub open spec fn tick_at(v: Tick, d: Seq<u8>, p: int) -> bool {
    &&& v.time == i64_at(d, p)
    &&& v.bid == u64_at(d, p + 8)
    &&& v.ask == u64_at(d, p + 16)
    &&& v.last == u64_at(d, p + 24)
    &&& v.volume == u64_at(d, p + 32)
    &&& v.time_msc == i64_at(d, p + 40)
    &&& v.flags == u32_at(d, p + 48)
    &&& v.volume_real == u64_at(d, p + 52)
}

/// Reads a tick.
#[verifier::rlimit(50)]
pub fn read_tick(r: &mut Reader) -> (v: Tick)
    requires
        old(r).fits(TICK_LEN as int),
    ensures
        Reader::advanced(*old(r), *final(r), TICK_LEN as int),
        tick_at(v, old(r).bytes(), old(r).offset()),
{
    let time = r.read_i64();
    let bid = r.read_f64_bits();
    let ask = r.read_f64_bits();
    let last = r.read_f64_bits();
    let volume = r.read_u64();
    let time_msc = r.read_i64();
    let flags = r.read_u32();
    let volume_real = r.read_f64_bits();
    Tick { time, bid, ask, last, volume, time_msc, flags, volume_real }
}

/// Wire size of a bar.
pub const RATE_LEN: usize = 60;

/// `v` is a bar decoded from the 60 bytes at offset `p` of `d`.
pub open spec fn rate_at(v: Rate, d: Seq<u8>, p: int) -> bool {
    &&& v.time == i64_at(d, p)
    &&& v.open == u64_at(d, p + 8)
    &&& v.high == u64_at(d, p + 16)
    &&& v.low == u64_at(d, p + 24)
    &&& v.close == u64_at(d, p + 32)
    &&& v.tick_volume == u64_at(d, p + 40)
    &&& v.spread == i32_at(d, p + 48)
    &&& v.real_volume == u64_at(d, p + 52)
}

/// Reads a bar.
#[verifier::rlimit(50)]
pub fn read_rate(r: &mut Reader) -> (v: Rate)
    requires
        old(r).fits(RATE_LEN as int),
    ensures
        Reader::advanced(*old(r), *final(r), RATE_LEN as int),
        rate_at(v, old(r).bytes(), old(r).offset()),
{
    let time = r.read_i64();
    let open = r.read_f64_bits();
    let high = r.read_f64_bits();
    let low = r.read_f64_bits();
    let close = r.read_f64_bits();
    let tick_volume = r.read_u64();
    let spread = r.read_i32();
    let real_volume = r.read_u64();
    Rate { time, open, high, low, close, tick_volume, spread, real_volume }
}

/// Wire size of a market depth entry.
pub const BOOK_ENTRY_LEN: usize = 32;

/// `v` is a market depth entry decoded from the 32 bytes at offset `p` of `d`.
pub open spec fn book_entry_at(v: BookInfo, d: Seq<u8>, p: int) -> bool {
    &&& v.type_ == i64_at(d, p)
    &&& v.price == u64_at(d, p + 8)
    &&& v.volume == i64_at(d, p + 16)
    &&& v.volume_real == u64_at(d, p + 24)
}

/// Reads a market depth entry.
#[verifier::rlimit(50)]
pub fn read_book_entry(r: &mut Reader) -> (v: BookInfo)
    requires
        old(r).fits(BOOK_ENTRY_LEN as int),
    ensures
        Reader::advanced(*old(r), *final(r), BOOK_ENTRY_LEN as int),
        book_entry_at(v, old(r).bytes(), old(r).offset()),
{
    let type_ = r.read_i64();
    let price = r.read_f64_bits();
    let volume = r.read_i64();
    let volume_real = r.read_f64_bits();
    BookInfo { type_, price, volume, volume_real }
}

/// Wire size of a position.
pub const POSITION_LEN: usize = 320;

/// `v` is a position decoded from the 320 bytes at offset `p` of `d`.
pub open spec fn position_at(v: TradePosition, d: Seq<u8>, p: int) -> bool {
    &&& v.ticket == i64_at(d, p)
    &&& v.time == i64_at(d, p + 8)
    &&& v.time_msc == i64_at(d, p + 16)
    &&& v.time_update == i64_at(d, p + 24)
    &&& v.time_update_msc == i64_at(d, p + 32)
    &&& v.type_ == u32_at(d, p + 40) as i32
    &&& v.magic == i64_at(d, p + 44)
    &&& v.identifier == i64_at(d, p + 52)
    &&& v.reason == u32_at(d, p + 60) as i32
    &&& v.volume == u64_at(d, p + 64)
    &&& v.price_open == u64_at(d, p + 72)
    &&& v.price_sl == u64_at(d, p + 80)
    &&& v.price_tp == u64_at(d, p + 88)
    &&& v.price_current == u64_at(d, p + 96)
    &&& v.commission == u64_at(d, p + 104)
    &&& v.swap == u64_at(d, p + 112)
    &&& v.profit == u64_at(d, p + 120)
    &&& slot_text(v.symbol@, d, p + 128, 64)
    &&& slot_text(v.comment@, d, p + 192, 64)
    &&& slot_text(v.external_id@, d, p + 256, 64)
}

/// Reads a position.
#[verifier::rlimit(50)]
pub fn read_position(r: &mut Reader) -> (v: TradePosition)
    requires
        old(r).fits(POSITION_LEN as int),
    ensures
        Reader::advanced(*old(r), *final(r), POSITION_LEN as int),
        position_at(v, old(r).bytes(), old(r).offset()),
{
    let ticket = r.read_i64();
    let time = r.read_i64();
    let time_msc = r.read_i64();
    let time_update = r.read_i64();
    let time_update_msc = r.read_i64();
    let type_ = r.read_u32() as i32;
    let magic = r.read_i64();
    let identifier = r.read_i64();
    let reason = r.read_u32() as i32;
    let volume = r.read_f64_bits();
    let price_open = r.read_f64_bits();
    let price_sl = r.read_f64_bits();
    let price_tp = r.read_f64_bits();
    let price_current = r.read_f64_bits();
    let commission = r.read_f64_bits();
    let swap = r.read_f64_bits();
    let profit = r.read_f64_bits();
    let symbol = r.read_fixed_string(64);
    let comment = r.read_fixed_string(64);
    let external_id = r.read_fixed_string(64);
    TradePosition { ticket, time, time_msc, time_update, time_update_msc, type_, magic, identifier, reason, volume, price_open, price_sl, price_tp, price_current, commission, swap, profit, symbol, comment, external_id }
}

/// Wire size of an order.
pub const ORDER_LEN: usize = 340;

/// `v` is an order decoded from the 340 bytes at offset `p` of `d`.
pub open spec fn order_at(v: TradeOrder, d: Seq<u8>, p: int) -> bool {
    &&& v.ticket == i64_at(d, p)
    &&& v.time_setup == i64_at(d, p + 8)
    &&& v.time_setup_msc == i64_at(d, p + 16)
    &&& v.time_done == i64_at(d, p + 24)
    &&& v.time_done_msc == i64_at(d, p + 32)
    &&& v.time_expiration == i64_at(d, p + 40)
    &&& v.type_ == u32_at(d, p + 48) as i32
    &&& v.type_time == u32_at(d, p + 52) as i32
    &&& v.type_filling == u32_at(d, p + 56) as i32
    &&& v.state == u32_at(d, p + 60) as i32
    &&& v.magic == i64_at(d, p + 64)
    &&& v.position_id == i64_at(d, p + 72)
    &&& v.position_by_id == i64_at(d, p + 80)
    &&& v.reason == u32_at(d, p + 88) as i32
    &&& v.volume_initial == u64_at(d, p + 92)
    &&& v.volume_current == u64_at(d, p + 100)
    &&& v.price_open == u64_at(d, p + 108)
    &&& v.price_current == u64_at(d, p + 116)
    &&& v.price_sl == u64_at(d, p + 124)
    &&& v.price_tp == u64_at(d, p + 132)
    &&& v.price_stoplimit == u64_at(d, p + 140)
    &&& slot_text(v.symbol@, d, p + 148, 64)
    &&& slot_text(v.comment@, d, p + 212, 64)
    &&& slot_text(v.external_id@, d, p + 276, 64)
}

/// Reads an order.
#[verifier::rlimit(50)]
pub fn read_order(r: &mut Reader) -> (v: TradeOrder)
    requires
        old(r).fits(ORDER_LEN as int),
    ensures
        Reader::advanced(*old(r), *final(r), ORDER_LEN as int),
        order_at(v, old(r).bytes(), old(r).offset()),
{
    let ticket = r.read_i64();
    let time_setup = r.read_i64();
    let time_setup_msc = r.read_i64();
    let time_done = r.read_i64();
    let time_done_msc = r.read_i64();
    let time_expiration = r.read_i64();
    let type_ = r.read_u32() as i32;
    let type_time = r.read_u32() as i32;
    let type_filling = r.read_u32() as i32;
    let state = r.read_u32() as i32;
    let magic = r.read_i64();
    let position_id = r.read_i64();
    let position_by_id = r.read_i64();
    let reason = r.read_u32() as i32;
    let volume_initial = r.read_f64_bits();
    let volume_current = r.read_f64_bits();
    let price_open = r.read_f64_bits();
    let price_current = r.read_f64_bits();
    let price_sl = r.read_f64_bits();
    let price_tp = r.read_f64_bits();
    let price_stoplimit = r.read_f64_bits();
    let symbol = r.read_fixed_string(64);
    let comment = r.read_fixed_string(64);
    let external_id = r.read_fixed_string(64);
    TradeOrder { ticket, time_setup, time_setup_msc, time_done, time_done_msc, time_expiration, type_, type_time, type_filling, state, magic, position_id, position_by_id, reason, volume_initial, volume_current, price_open, price_current, price_sl, price_tp, price_stoplimit, symbol, comment, external_id }
}

/// Wire size of a deal.
pub const DEAL_LEN: usize = 300;

/// `v` is a deal decoded from the 300 bytes at offset `p` of `d`.
pub open spec fn deal_at(v: TradeDeal, d: Seq<u8>, p: int) -> bool {
    &&& v.ticket == i64_at(d, p)
    &&& v.order == i64_at(d, p + 8)
    &&& v.time == i64_at(d, p + 16)
    &&& v.time_msc == i64_at(d, p + 24)
    &&& v.type_ == u32_at(d, p + 32) as i32
    &&& v.entry == u32_at(d, p + 36) as i32
    &&& v.magic == i64_at(d, p + 40)
    &&& v.position_id == i64_at(d, p + 48)
    &&& v.reason == u32_at(d, p + 56) as i32
    &&& v.volume == u64_at(d, p + 60)
    &&& v.price == u64_at(d, p + 68)
    &&& v.commission == u64_at(d, p + 76)
    &&& v.swap == u64_at(d, p + 84)
    &&& v.profit == u64_at(d, p + 92)
    &&& v.fee == u64_at(d, p + 100)
    &&& slot_text(v.symbol@, d, p + 108, 64)
    &&& slot_text(v.comment@, d, p + 172, 64)
    &&& slot_text(v.external_id@, d, p + 236, 64)
}

/// Reads a deal.
#[verifier::rlimit(50)]
pub fn read_deal(r: &mut Reader) -> (v: TradeDeal)
    requires
        old(r).fits(DEAL_LEN as int),
    ensures
        Reader::advanced(*old(r), *final(r), DEAL_LEN as int),
        deal_at(v, old(r).bytes(), old(r).offset()),
{
    let ticket = r.read_i64();
    let order = r.read_i64();
    let time = r.read_i64();
    let time_msc = r.read_i64();
    let type_ = r.read_u32() as i32;
    let entry = r.read_u32() as i32;
    let magic = r.read_i64();
    let position_id = r.read_i64();
    let reason = r.read_u32() as i32;
    let volume = r.read_f64_bits();
    let price = r.read_f64_bits();
    let commission = r.read_f64_bits();
    let swap = r.read_f64_bits();
    let profit = r.read_f64_bits();
    let fee = r.read_f64_bits();
    let symbol = r.read_fixed_string(64);
    let comment = r.read_fixed_string(64);
    let external_id = r.read_fixed_string(64);
    TradeDeal { ticket, order, time, time_msc, type_, entry, magic, position_id, reason, volume, price, commission, swap, profit, fee, symbol, comment, external_id }
}

/// Wire size of a symbol description.
pub const SYMBOL_INFO_LEN: usize = 2993;

/// `v` is a symbol description decoded from the 2993 bytes at offset `p` of `d`.
pub open spec fn symbol_info_at(v: SymbolInfo, d: Seq<u8>, p: int) -> bool {
    &&& v.custom == bool_at(d, p)
    &&& v.chart_mode == u32_at(d, p + 1) as i64
    &&& v.select == bool_at(d, p + 5)
    &&& v.visible == bool_at(d, p + 6)
    &&& v.session_deals == i64_at(d, p + 7)
    &&& v.session_buy_orders == i64_at(d, p + 15)
    &&& v.session_sell_orders == i64_at(d, p + 23)
    &&& v.volume == i64_at(d, p + 31)
    &&& v.volume_high == i64_at(d, p + 39)
    &&& v.volume_low == i64_at(d, p + 47)
    &&& v.time == i64_at(d, p + 55)
    &&& v.digits == u32_at(d, p + 63) as i64
    &&& v.spread == u32_at(d, p + 67) as i64
    &&& v.spread_float == bool_at(d, p + 71)
    &&& v.ticks_book_depth == u32_at(d, p + 72) as i64
    &&& v.trade_calc_mode == u32_at(d, p + 76) as i64
    &&& v.trade_mode == u32_at(d, p + 80) as i64
    &&& v.start_time == i64_at(d, p + 84)
    &&& v.expiration_time == i64_at(d, p + 92)
    &&& v.trade_stops_level == u32_at(d, p + 100) as i64
    &&& v.trade_freeze_level == u32_at(d, p + 104) as i64
    &&& v.trade_exe_mode == u32_at(d, p + 108) as i64
    &&& v.swap_mode == u32_at(d, p + 112) as i64
    &&& v.swap_rollover3days == u32_at(d, p + 116) as i64
    &&& v.margin_hedged_use_leg == bool_at(d, p + 120)
    &&& v.expiration_mode == u32_at(d, p + 121) as i64
    &&& v.filling_mode == u32_at(d, p + 125) as i64
    &&& v.order_mode == u32_at(d, p + 129) as i64
    &&& v.order_gtc_mode == u32_at(d, p + 133) as i64
    &&& v.option_mode == u32_at(d, p + 137) as i64
    &&& v.option_right == u32_at(d, p + 141) as i64
    &&& v.bid == u64_at(d, p + 145)
    &&& v.bidhigh == u64_at(d, p + 153)
    &&& v.bidlow == u64_at(d, p + 161)
    &&& v.ask == u64_at(d, p + 169)
    &&& v.askhigh == u64_at(d, p + 177)
    &&& v.asklow == u64_at(d, p + 185)
    &&& v.last == u64_at(d, p + 193)
    &&& v.lasthigh == u64_at(d, p + 201)
    &&& v.lastlow == u64_at(d, p + 209)
    &&& v.volume_real == u64_at(d, p + 217)
    &&& v.volumehigh_real == u64_at(d, p + 225)
    &&& v.volumelow_real == u64_at(d, p + 233)
    &&& v.option_strike == u64_at(d, p + 241)
    &&& v.point == u64_at(d, p + 249)
    &&& v.trade_tick_value == u64_at(d, p + 257)
    &&& v.trade_tick_value_profit == u64_at(d, p + 265)
    &&& v.trade_tick_value_loss == u64_at(d, p + 273)
    &&& v.trade_tick_size == u64_at(d, p + 281)
    &&& v.trade_contract_size == u64_at(d, p + 289)
    &&& v.trade_accrued_interest == u64_at(d, p + 297)
    &&& v.trade_face_value == u64_at(d, p + 305)
    &&& v.trade_liquidity_rate == u64_at(d, p + 313)
    &&& v.volume_min == u64_at(d, p + 321)
    &&& v.volume_max == u64_at(d, p + 329)
    &&& v.volume_step == u64_at(d, p + 337)
    &&& v.volume_limit == u64_at(d, p + 345)
    &&& v.swap_long == u64_at(d, p + 353)
    &&& v.swap_short == u64_at(d, p + 361)
    &&& v.margin_initial == u64_at(d, p + 369)
    &&& v.margin_maintenance == u64_at(d, p + 377)
    &&& v.session_volume == u64_at(d, p + 385)
    &&& v.session_turnover == u64_at(d, p + 393)
    &&& v.session_interest == u64_at(d, p + 401)
    &&& v.session_buy_orders_volume == u64_at(d, p + 409)
    &&& v.session_sell_orders_volume == u64_at(d, p + 417)
    &&& v.session_open == u64_at(d, p + 425)
    &&& v.session_close == u64_at(d, p + 433)
    &&& v.session_aw == u64_at(d, p + 441)
    &&& v.session_price_settlement == u64_at(d, p + 449)
    &&& v.session_price_limit_min == u64_at(d, p + 457)
    &&& v.session_price_limit_max == u64_at(d, p + 465)
    &&& v.margin_hedged == u64_at(d, p + 473)
    &&& v.price_change == u64_at(d, p + 481)
    &&& v.price_volatility == u64_at(d, p + 489)
    &&& v.price_theoretical == u64_at(d, p + 497)
    &&& v.price_greeks_delta == u64_at(d, p + 505)
    &&& v.price_greeks_theta == u64_at(d, p + 513)
    &&& v.price_greeks_gamma == u64_at(d, p + 521)
    &&& v.price_greeks_vega == u64_at(d, p + 529)
    &&& v.price_greeks_rho == u64_at(d, p + 537)
    &&& v.price_greeks_omega == u64_at(d, p + 545)
    &&& v.price_sensitivity == u64_at(d, p + 553)
    &&& slot_text(v.basis@, d, p + 561, 64)
    &&& slot_text(v.category@, d, p + 625, 128)
    &&& slot_text(v.currency_base@, d, p + 753, 32)
    &&& slot_text(v.currency_profit@, d, p + 785, 32)
    &&& slot_text(v.currency_margin@, d, p + 817, 32)
    &&& slot_text(v.bank@, d, p + 849, 512)
    &&& slot_text(v.description@, d, p + 1361, 64)
    &&& slot_text(v.exchange@, d, p + 1425, 64)
    &&& slot_text(v.formula@, d, p + 1489, 1024)
    &&& slot_text(v.isin@, d, p + 2513, 32)
    &&& slot_text(v.page@, d, p + 2545, 128)
    &&& slot_text(v.path@, d, p + 2673, 256)
    &&& slot_text(v.name@, d, p + 2929, 64)
}

/// Reads a symbol description.
#[verifier::rlimit(50)]
pub fn read_symbol_info(r: &mut Reader) -> (v: SymbolInfo)
    requires
        old(r).fits(SYMBOL_INFO_LEN as int),
    ensures
        Reader::advanced(*old(r), *final(r), SYMBOL_INFO_LEN as int),
        symbol_info_at(v, old(r).bytes(), old(r).offset()),
{
    let custom = r.read_bool1();
    let chart_mode = r.read_u32() as i64;
    let select = r.read_bool1();
    let visible = r.read_bool1();
    let session_deals = r.read_i64();
    let session_buy_orders = r.read_i64();
    let session_sell_orders = r.read_i64();
    let volume = r.read_i64();
    let volume_high = r.read_i64();
    let volume_low = r.read_i64();
    let time = r.read_i64();
    let digits = r.read_u32() as i64;
    let spread = r.read_u32() as i64;
    let spread_float = r.read_bool1();
    let ticks_book_depth = r.read_u32() as i64;
    let trade_calc_mode = r.read_u32() as i64;
    let trade_mode = r.read_u32() as i64;
    let start_time = r.read_i64();
    let expiration_time = r.read_i64();
    let trade_stops_level = r.read_u32() as i64;
    let trade_freeze_level = r.read_u32() as i64;
    let trade_exe_mode = r.read_u32() as i64;
    let swap_mode = r.read_u32() as i64;
    let swap_rollover3days = r.read_u32() as i64;
    let margin_hedged_use_leg = r.read_bool1();
    let expiration_mode = r.read_u32() as i64;
    let filling_mode = r.read_u32() as i64;
    let order_mode = r.read_u32() as i64;
    let order_gtc_mode = r.read_u32() as i64;
    let option_mode = r.read_u32() as i64;
    let option_right = r.read_u32() as i64;
    let bid = r.read_f64_bits();
    let bidhigh = r.read_f64_bits();
    let bidlow = r.read_f64_bits();
    let ask = r.read_f64_bits();
    let askhigh = r.read_f64_bits();
    let asklow = r.read_f64_bits();
    let last = r.read_f64_bits();
    let lasthigh = r.read_f64_bits();
    let lastlow = r.read_f64_bits();
    let volume_real = r.read_f64_bits();
    let volumehigh_real = r.read_f64_bits();
    let volumelow_real = r.read_f64_bits();
    let option_strike = r.read_f64_bits();
    let point = r.read_f64_bits();
    let trade_tick_value = r.read_f64_bits();
    let trade_tick_value_profit = r.read_f64_bits();
    let trade_tick_value_loss = r.read_f64_bits();
    let trade_tick_size = r.read_f64_bits();
    let trade_contract_size = r.read_f64_bits();
    let trade_accrued_interest = r.read_f64_bits();
    let trade_face_value = r.read_f64_bits();
    let trade_liquidity_rate = r.read_f64_bits();
    let volume_min = r.read_f64_bits();
    let volume_max = r.read_f64_bits();
    let volume_step = r.read_f64_bits();
    let volume_limit = r.read_f64_bits();
    let swap_long = r.read_f64_bits();
    let swap_short = r.read_f64_bits();
    let margin_initial = r.read_f64_bits();
    let margin_maintenance = r.read_f64_bits();
    let session_volume = r.read_f64_bits();
    let session_turnover = r.read_f64_bits();
    let session_interest = r.read_f64_bits();
    let session_buy_orders_volume = r.read_f64_bits();
    let session_sell_orders_volume = r.read_f64_bits();
    let session_open = r.read_f64_bits();
    let session_close = r.read_f64_bits();
    let session_aw = r.read_f64_bits();
    let session_price_settlement = r.read_f64_bits();
    let session_price_limit_min = r.read_f64_bits();
    let session_price_limit_max = r.read_f64_bits();
    let margin_hedged = r.read_f64_bits();
    let price_change = r.read_f64_bits();
    let price_volatility = r.read_f64_bits();
    let price_theoretical = r.read_f64_bits();
    let price_greeks_delta = r.read_f64_bits();
    let price_greeks_theta = r.read_f64_bits();
    let price_greeks_gamma = r.read_f64_bits();
    let price_greeks_vega = r.read_f64_bits();
    let price_greeks_rho = r.read_f64_bits();
    let price_greeks_omega = r.read_f64_bits();
    let price_sensitivity = r.read_f64_bits();
    let basis = r.read_fixed_string(64);
    let category = r.read_fixed_string(128);
    let currency_base = r.read_fixed_string(32);
    let currency_profit = r.read_fixed_string(32);
    let currency_margin = r.read_fixed_string(32);
    let bank = r.read_fixed_string(512);
    let description = r.read_fixed_string(64);
    let exchange = r.read_fixed_string(64);
    let formula = r.read_fixed_string(1024);
    let isin = r.read_fixed_string(32);
    let page = r.read_fixed_string(128);
    let path = r.read_fixed_string(256);
    let name = r.read_fixed_string(64);
    SymbolInfo { custom, chart_mode, select, visible, session_deals, session_buy_orders, session_sell_orders, volume, volume_high, volume_low, time, digits, spread, spread_float, ticks_book_depth, trade_calc_mode, trade_mode, start_time, expiration_time, trade_stops_level, trade_freeze_level, trade_exe_mode, swap_mode, swap_rollover3days, margin_hedged_use_leg, expiration_mode, filling_mode, order_mode, order_gtc_mode, option_mode, option_right, bid, bidhigh, bidlow, ask, askhigh, asklow, last, lasthigh, lastlow, volume_real, volumehigh_real, volumelow_real, option_strike, point, trade_tick_value, trade_tick_value_profit, trade_tick_value_loss, trade_tick_size, trade_contract_size, trade_accrued_interest, trade_face_value, trade_liquidity_rate, volume_min, volume_max, volume_step, volume_limit, swap_long, swap_short, margin_initial, margin_maintenance, session_volume, session_turnover, session_interest, session_buy_orders_volume, session_sell_orders_volume, session_open, session_close, session_aw, session_price_settlement, session_price_limit_min, session_price_limit_max, margin_hedged, price_change, price_volatility, price_theoretical, price_greeks_delta, price_greeks_theta, price_greeks_gamma, price_greeks_vega, price_greeks_rho, price_greeks_omega, price_sensitivity, basis, category, currency_base, currency_profit, currency_margin, bank, description, exchange, formula, isin, page, path, name }
}

}
