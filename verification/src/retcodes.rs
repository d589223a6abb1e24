//! Trade server return codes.
use vstd::prelude::*;

verus! {

pub const REQUOTE: u32 = 10004;
pub const REJECT: u32 = 10006;
pub const CANCEL: u32 = 10007;
pub const PLACED: u32 = 10008;
pub const DONE: u32 = 10009;
pub const DONE_PARTIAL: u32 = 10010;
pub const ERROR: u32 = 10011;
pub const TIMEOUT: u32 = 10012;
pub const INVALID: u32 = 10013;
pub const INVALID_VOLUME: u32 = 10014;
pub const INVALID_PRICE: u32 = 10015;
pub const INVALID_STOPS: u32 = 10016;
pub const TRADE_DISABLED: u32 = 10017;
pub const MARKET_CLOSED: u32 = 10018;
pub const NO_MONEY: u32 = 10019;
pub const PRICE_CHANGED: u32 = 10020;
pub const PRICE_OFF: u32 = 10021;
pub const INVALID_EXPIRATION: u32 = 10022;
pub const ORDER_CHANGED: u32 = 10023;
pub const TOO_MANY_REQUESTS: u32 = 10024;
pub const NO_CHANGES: u32 = 10025;
pub const SERVER_DISABLES_AT: u32 = 10026;
pub const CLIENT_DISABLES_AT: u32 = 10027;
pub const LOCKED: u32 = 10028;
pub const FROZEN: u32 = 10029;
pub const INVALID_FILL: u32 = 10030;
pub const CONNECTION: u32 = 10031;
pub const ONLY_REAL: u32 = 10032;
pub const LIMIT_ORDERS: u32 = 10033;
pub const INVALID_VOLUME2: u32 = 10034;
pub const INVALID_PRICE2: u32 = 10035;
pub const INVALID_STOPS2: u32 = 10036;
pub const INVALID_TRADE_VOLUME: u32 = 10037;
pub const MARKET_CLOSED2: u32 = 10038;
pub const TRADE_DISABLED2: u32 = 10039;
pub const NOT_ENOUGH_MARGIN: u32 = 10040;
pub const NOT_ENOUGH_MONEY: u32 = 10041;
pub const VIDEO_CARD_ERR: u32 = 10042;
pub const ORDER_LOCKED: u32 = 10043;
pub const LONG_ONLY: u32 = 10044;
pub const SHORT_ONLY: u32 = 10045;
pub const CLOSE_ONLY: u32 = 10046;
pub const INVALID_STATE: u32 = 10047;
pub const LIMIT_ORDERS2: u32 = 10048;
pub const INVALID_FILL2: u32 = 10049;
pub const INVALID_EXPIRATION2: u32 = 10050;
pub const NO_EXPERT: u32 = 10051;
pub const ONLY_REAL2: u32 = 10052;
pub const TRADE_HEDGE_PROHIBITED: u32 = 10053;
pub const TRADE_EXPERT_DISABLED: u32 = 10054;

}
