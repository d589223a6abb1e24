//! Client library for MetaTrader 5 terminals over their IPC pipe.
//!
//! The library encodes the terminal's commands, decodes its replies and
//! derives the name of a terminal's pipe; the transport that carries the
//! bytes is supplied by the caller (see [`Transport`]).
pub mod client;
pub mod decode;
pub mod encode;
pub mod error;
pub mod layout;
pub mod protocol;
pub mod reader;
pub mod records;
pub mod retcodes;
pub mod text;
pub mod types;

pub use client::Mt5Client;
pub use error::{Mt5Error, Result};
pub use protocol::{Transport, compute_pipe_name, discover_mt5_pipe};
pub use types::{
    AccountInfo, BookInfo, OrderFilling, OrderTime, OrderType, Rate, SymbolInfo, TerminalInfo,
    Tick, TradeAction, TradeCheckResult, TradeDeal, TradeOrder, TradePosition, TradeRequest,
    TradeResult, VersionInfo,
};
