use vstd::prelude::*;
use vstd::string::StringExecFns;
pub use crate::retcodes;

verus! {

/// Trading account state (`account_info`).
///
/// Every field that the terminal sends as a double holds the value's IEEE-754
/// bit pattern (`f64::from_bits` gives the number back).
#[derive(Debug, Clone)]
pub struct AccountInfo {
    pub login: i64,
    pub trade_mode: i64,
    pub leverage: i64,
    pub limit_orders: i64,
    pub margin_so_mode: i64,
    pub trade_allowed: bool,
    pub trade_expert: bool,
    pub margin_mode: i64,
    pub currency_digits: i64,
    pub fifo_close: bool,
    pub balance: u64,
    pub credit: u64,
    pub profit: u64,
    pub equity: u64,
    pub margin: u64,
    pub free_margin: u64,
    pub margin_level: u64,
    pub margin_so_call: u64,
    pub margin_so_so: u64,
    pub margin_initial: u64,
    pub margin_maintenance: u64,
    pub assets: u64,
    pub liabilities: u64,
    pub commission_blocked: u64,
    pub name: String,
    pub server: String,
    pub currency: String,
    pub company: String,
}

/// Terminal state and paths (`terminal_info`).
///
/// Every field that the terminal sends as a double holds the value's IEEE-754
/// bit pattern (`f64::from_bits` gives the number back).
#[derive(Debug, Clone)]
pub struct TerminalInfo {
    pub community_account: bool,
    pub community_connection: bool,
    pub connected: bool,
    pub dlls_allowed: bool,
    pub trade_allowed: bool,
    pub trade_api_disabled: bool,
    pub email_enabled: bool,
    pub ftp_enabled: bool,
    pub notifications_enabled: bool,
    pub mqid: bool,
    pub build: i64,
    pub max_bars: i64,
    pub code_page: i64,
    pub ping_last: i64,
    pub community_balance: u64,
    pub retransmission: u64,
    pub company: String,
    pub name: String,
    pub language: String,
    pub path: String,
    pub data_path: String,
    pub common_data_path: String,
}

/// Terminal version (`version`).
#[derive(Debug, Clone)]
pub struct VersionInfo {
    pub version: i32,
    pub build: i32,
    pub build_date: String,
}

/// Full description of a symbol (`symbol_info`, `symbols_get`).
///
/// Every field that the terminal sends as a double holds the value's IEEE-754
/// bit pattern (`f64::from_bits` gives the number back).
#[derive(Debug, Clone)]
pub struct SymbolInfo {
    pub custom: bool,
    pub chart_mode: i64,
    pub select: bool,
    pub visible: bool,
    pub session_deals: i64,
    pub session_buy_orders: i64,
    pub session_sell_orders: i64,
    pub volume: i64,
    pub volume_high: i64,
    pub volume_low: i64,
    pub time: i64,
    pub digits: i64,
    pub spread: i64,
    pub spread_float: bool,
    pub ticks_book_depth: i64,
    pub trade_calc_mode: i64,
    pub trade_mode: i64,
    pub start_time: i64,
    pub expiration_time: i64,
    pub trade_stops_level: i64,
    pub trade_freeze_level: i64,
    pub trade_exe_mode: i64,
    pub swap_mode: i64,
    pub swap_rollover3days: i64,
    pub margin_hedged_use_leg: bool,
    pub expiration_mode: i64,
    pub filling_mode: i64,
    pub order_mode: i64,
    pub order_gtc_mode: i64,
    pub option_mode: i64,
    pub option_right: i64,
    pub bid: u64,
    pub bidhigh: u64,
    pub bidlow: u64,
    pub ask: u64,
    pub askhigh: u64,
    pub asklow: u64,
    pub last: u64,
    pub lasthigh: u64,
    pub lastlow: u64,
    pub volume_real: u64,
    pub volumehigh_real: u64,
    pub volumelow_real: u64,
    pub option_strike: u64,
    pub point: u64,
    pub trade_tick_value: u64,
    pub trade_tick_value_profit: u64,
    pub trade_tick_value_loss: u64,
    pub trade_tick_size: u64,
    pub trade_contract_size: u64,
    pub trade_accrued_interest: u64,
    pub trade_face_value: u64,
    pub trade_liquidity_rate: u64,
    pub volume_min: u64,
    pub volume_max: u64,
    pub volume_step: u64,
    pub volume_limit: u64,
    pub swap_long: u64,
    pub swap_short: u64,
    pub margin_initial: u64,
    pub margin_maintenance: u64,
    pub session_volume: u64,
    pub session_turnover: u64,
    pub session_interest: u64,
    pub session_buy_orders_volume: u64,
    pub session_sell_orders_volume: u64,
    pub session_open: u64,
    pub session_close: u64,
    pub session_aw: u64,
    pub session_price_settlement: u64,
    pub session_price_limit_min: u64,
    pub session_price_limit_max: u64,
    pub margin_hedged: u64,
    pub price_change: u64,
    pub price_volatility: u64,
    pub price_theoretical: u64,
    pub price_greeks_delta: u64,
    pub price_greeks_theta: u64,
    pub price_greeks_gamma: u64,
    pub price_greeks_vega: u64,
    pub price_greeks_rho: u64,
    pub price_greeks_omega: u64,
    pub price_sensitivity: u64,
    pub basis: String,
    pub category: String,
    pub currency_base: String,
    pub currency_profit: String,
    pub currency_margin: String,
    pub bank: String,
    pub description: String,
    pub exchange: String,
    pub formula: String,
    pub isin: String,
    pub name: String,
    pub page: String,
    pub path: String,
}

/// One price tick.
///
/// Every field that the terminal sends as a double holds the value's IEEE-754
/// bit pattern (`f64::from_bits` gives the number back).
#[derive(Debug, Clone)]
pub struct Tick {
    pub time: i64,
    pub bid: u64,
    pub ask: u64,
    pub last: u64,
    pub volume: u64,
    pub time_msc: i64,
    pub flags: u32,
    pub volume_real: u64,
}

/// One bar of price history.
///
/// Every field that the terminal sends as a double holds the value's IEEE-754
/// bit pattern (`f64::from_bits` gives the number back).
#[derive(Debug, Clone)]
pub struct Rate {
    pub time: i64,
    pub open: u64,
    pub high: u64,
    pub low: u64,
    pub close: u64,
    pub tick_volume: u64,
    pub spread: i32,
    pub real_volume: u64,
}

/// An open position.
///
/// Every field that the terminal sends as a double holds the value's IEEE-754
/// bit pattern (`f64::from_bits` gives the number back).
#[derive(Debug, Clone)]
pub struct TradePosition {
    pub ticket: i64,
    pub time: i64,
    pub time_msc: i64,
    pub time_update: i64,
    pub time_update_msc: i64,
    pub type_: i32,
    pub magic: i64,
    pub identifier: i64,
    pub reason: i32,
    pub volume: u64,
    pub price_open: u64,
    pub price_current: u64,
    pub price_sl: u64,
    pub price_tp: u64,
    pub commission: u64,
    pub swap: u64,
    pub profit: u64,
    pub symbol: String,
    pub comment: String,
    pub external_id: String,
}

/// A pending or historical order.
///
/// Every field that the terminal sends as a double holds the value's IEEE-754
/// bit pattern (`f64::from_bits` gives the number back).
#[derive(Debug, Clone)]
pub struct TradeOrder {
    pub ticket: i64,
    pub time_setup: i64,
    pub time_setup_msc: i64,
    pub time_done: i64,
    pub time_done_msc: i64,
    pub time_expiration: i64,
    pub type_: i32,
    pub type_time: i32,
    pub type_filling: i32,
    pub state: i32,
    pub magic: i64,
    pub position_id: i64,
    pub position_by_id: i64,
    pub reason: i32,
    pub volume_initial: u64,
    pub volume_current: u64,
    pub price_open: u64,
    pub price_current: u64,
    pub price_sl: u64,
    pub price_tp: u64,
    pub price_stoplimit: u64,
    pub symbol: String,
    pub comment: String,
    pub external_id: String,
}

/// A historical deal.
///
/// Every field that the terminal sends as a double holds the value's IEEE-754
/// bit pattern (`f64::from_bits` gives the number back).
#[derive(Debug, Clone)]
pub struct TradeDeal {
    pub ticket: i64,
    pub order: i64,
    pub time: i64,
    pub time_msc: i64,
    pub type_: i32,
    pub entry: i32,
    pub magic: i64,
    pub position_id: i64,
    pub reason: i32,
    pub volume: u64,
    pub price: u64,
    pub commission: u64,
    pub swap: u64,
    pub profit: u64,
    pub fee: u64,
    pub symbol: String,
    pub comment: String,
    pub external_id: String,
}

/// One entry of the market depth.
///
/// Every field that the terminal sends as a double holds the value's IEEE-754
/// bit pattern (`f64::from_bits` gives the number back).
#[derive(Debug, Clone)]
pub struct BookInfo {
    pub type_: i64,
    pub price: u64,
    pub volume: i64,
    pub volume_real: u64,
}

/// Trading request, mirroring Python `mt5.TradeRequest`.
///
/// Every field that the terminal sends as a double holds the value's IEEE-754
/// bit pattern (`f64::from_bits` gives the number back).
#[derive(Debug, Clone, Default)]
pub struct TradeRequest {
    pub action: TradeAction,
    pub magic: i64,
    pub order: i64,
    pub symbol: String,
    pub volume: u64,
    pub price: u64,
    pub stoplimit: u64,
    pub sl: u64,
    pub tp: u64,
    pub deviation: u64,
    pub type_: OrderType,
    pub type_filling: OrderFilling,
    pub type_time: OrderTime,
    pub expiration: i64,
    pub comment: String,
    pub position: i64,
    pub position_by: i64,
}

/// Result of `order_check`, mirroring Python `mt5.TradeCheckResult`.
///
/// Every field that the terminal sends as a double holds the value's IEEE-754
/// bit pattern (`f64::from_bits` gives the number back).
#[derive(Debug, Clone, Default)]
pub struct TradeCheckResult {
    pub retcode: u32,
    pub balance: u64,
    pub equity: u64,
    pub profit: u64,
    pub margin: u64,
    pub margin_free: u64,
    pub margin_level: u64,
    pub comment: String,
}

/// Result of `order_send`, mirroring Python `mt5.TradeResult`.
///
/// Every field that the terminal sends as a double holds the value's IEEE-754
/// bit pattern (`f64::from_bits` gives the number back).
#[derive(Debug, Clone, Default)]
pub struct TradeResult {
    pub retcode: u32,
    pub deal: i64,
    pub order: i64,
    pub volume: u64,
    pub price: u64,
    pub bid: u64,
    pub ask: u64,
    pub comment: String,
    pub request_id: u32,
    pub retcode_ext: i32,
}

/// Trade operation type (Python `mt5.TRADE_ACTION_*`).
#[derive(Debug, Clone, Copy, PartialEq, Eq, Structural, Default)]
pub enum TradeAction {
    #[default]
    Deal,
    Pending,
    SLTP,
    Modify,
    Remove,
    CloseBy,
}

/// Order type (Python `mt5.ORDER_TYPE_*`).
#[derive(Debug, Clone, Copy, PartialEq, Eq, Structural, Default)]
pub enum OrderType {
    #[default]
    Buy,
    Sell,
    BuyLimit,
    SellLimit,
    BuyStop,
    SellStop,
    BuyStopLimit,
    SellStopLimit,
    CloseBy,
}

/// Order filling mode (Python `mt5.ORDER_FILLING_*`).
#[derive(Debug, Clone, Copy, PartialEq, Eq, Structural, Default)]
pub enum OrderFilling {
    #[default]
    FOK,
    IOC,
    Return,
    BOC,
}

/// Order expiration mode (Python `mt5.ORDER_TIME_*`).
#[derive(Debug, Clone, Copy, PartialEq, Eq, Structural, Default)]
pub enum OrderTime {
    #[default]
    GTC,
    Day,
    Specified,
    SpecDay,
}

impl TradeAction {
    /// The terminal's numeric code for the action.
    pub open spec fn spec_code(self) -> u32 {
        match self {
            TradeAction::Deal => 1,
            TradeAction::Pending => 5,
            TradeAction::SLTP => 6,
            TradeAction::Modify => 7,
            TradeAction::Remove => 8,
            TradeAction::CloseBy => 10,
        }
    }

    #[verifier::when_used_as_spec(spec_code)]
    pub fn code(self) -> (r: u32)
        ensures
            r == self.spec_code(),
    {
        match self {
            TradeAction::Deal => 1,
            TradeAction::Pending => 5,
            TradeAction::SLTP => 6,
            TradeAction::Modify => 7,
            TradeAction::Remove => 8,
            TradeAction::CloseBy => 10,
        }
    }
}

impl OrderType {
    /// The terminal's numeric code for the order type.
    pub open spec fn spec_code(self) -> u32 {
        match self {
            OrderType::Buy => 0,
            OrderType::Sell => 1,
            OrderType::BuyLimit => 2,
            OrderType::SellLimit => 3,
            OrderType::BuyStop => 4,
            OrderType::SellStop => 5,
            OrderType::BuyStopLimit => 6,
            OrderType::SellStopLimit => 7,
            OrderType::CloseBy => 8,
        }
    }

    #[verifier::when_used_as_spec(spec_code)]
    pub fn code(self) -> (r: u32)
        ensures
            r == self.spec_code(),
    {
        match self {
            OrderType::Buy => 0,
            OrderType::Sell => 1,
            OrderType::BuyLimit => 2,
            OrderType::SellLimit => 3,
            OrderType::BuyStop => 4,
            OrderType::SellStop => 5,
            OrderType::BuyStopLimit => 6,
            OrderType::SellStopLimit => 7,
            OrderType::CloseBy => 8,
        }
    }
}

impl OrderFilling {
    /// The terminal's numeric code for the filling mode.
    pub open spec fn spec_code(self) -> u32 {
        match self {
            OrderFilling::FOK => 0,
            OrderFilling::IOC => 1,
            OrderFilling::Return => 2,
            OrderFilling::BOC => 3,
        }
    }

    #[verifier::when_used_as_spec(spec_code)]
    pub fn code(self) -> (r: u32)
        ensures
            r == self.spec_code(),
    {
        match self {
            OrderFilling::FOK => 0,
            OrderFilling::IOC => 1,
            OrderFilling::Return => 2,
            OrderFilling::BOC => 3,
        }
    }
}

impl OrderTime {
    /// The terminal's numeric code for the expiration mode.
    pub open spec fn spec_code(self) -> u32 {
        match self {
            OrderTime::GTC => 0,
            OrderTime::Day => 1,
            OrderTime::Specified => 2,
            OrderTime::SpecDay => 3,
        }
    }

    #[verifier::when_used_as_spec(spec_code)]
    pub fn code(self) -> (r: u32)
        ensures
            r == self.spec_code(),
    {
        match self {
            OrderTime::GTC => 0,
            OrderTime::Day => 1,
            OrderTime::Specified => 2,
            OrderTime::SpecDay => 3,
        }
    }
}

impl TradeRequest {
    /// A market request for `volume` (bit pattern of a double) lots of `symbol`,
    /// filled with `OrderFilling::Return`, good till cancelled, every other
    /// field zero or empty.
    pub fn new(action: TradeAction, symbol: &str, volume: u64, type_: OrderType) -> (r: Self)
        ensures
            r.action == action,
            r.magic == 0,
            r.order == 0,
            r.symbol@ == symbol@,
            r.volume == volume,
            r.price == 0,
            r.stoplimit == 0,
            r.sl == 0,
            r.tp == 0,
            r.deviation == 0,
            r.type_ == type_,
            r.type_filling == OrderFilling::Return,
            r.type_time == OrderTime::GTC,
            r.expiration == 0,
            r.comment@ == Seq::<char>::empty(),
            r.position == 0,
            r.position_by == 0,
    {
        TradeRequest {
            action,
            magic: 0,
            order: 0,
            symbol: String::from_str(symbol),
            volume,
            price: 0,
            stoplimit: 0,
            sl: 0,
            tp: 0,
            deviation: 0,
            type_,
            type_filling: OrderFilling::Return,
            type_time: OrderTime::GTC,
            expiration: 0,
            comment: String::new(),
            position: 0,
            position_by: 0,
        }
    }
}

impl TradeCheckResult {
    /// Whether the terminal accepted the checked request.
    pub fn is_ok(&self) -> (r: bool)
        ensures
            r == (self.retcode == 0 || self.retcode == retcodes::DONE),
    {
        self.retcode == 0 || self.retcode == retcodes::DONE
    }
}

impl TradeResult {
    /// Whether the terminal placed or executed (fully or partly) the request.
    pub fn is_ok(&self) -> (r: bool)
        ensures
            r == (self.retcode == retcodes::PLACED || self.retcode == retcodes::DONE
                || self.retcode == retcodes::DONE_PARTIAL),
    {
        self.retcode == retcodes::PLACED || self.retcode == retcodes::DONE
            || self.retcode == retcodes::DONE_PARTIAL
    }
}

}
