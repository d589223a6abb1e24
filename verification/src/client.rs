//! The client: commands sent over a transport, and their replies decoded.
use vstd::prelude::*;
use vstd::cell::invcell::InvCell;
use crate::decode::{
    ACCOUNT_INFO_LEN, CHECK_RESULT_TOTAL, account_info_error, check_result_error, login_error,
    symbols_error, trade_result_error, TERMINAL_NUMBERS_LEN, TRADE_RESULT_TOTAL,
    account_info_at, book_ack_spec, book_parsed, check_result_at, count_spec, deals_parsed,
    decode_account_info, decode_book_ack, decode_build, decode_check_result, decode_count,
    decode_login, decode_select, decode_symbol_info_response, decode_symbols,
    decode_terminal_info, decode_tick_response, decode_trade_result, orders_parsed,
    parse_book_response, parse_deals_response, parse_orders_response, parse_positions_response,
    parse_rates_response, parse_ticks_response, positions_parsed, rates_parsed, select_spec,
    symbols_parsed, terminal_info_at, ticks_parsed, too_short_error, trade_result_at, version_from,
    API_VERSION,
};
use crate::encode::{
    CMD_ACCOUNT_INFO, CMD_HANDSHAKE, CMD_HISTORY_DEALS_GET, CMD_HISTORY_DEALS_TOTAL,
    CMD_HISTORY_ORDERS_GET, CMD_HISTORY_ORDERS_TOTAL, CMD_LOGIN, CMD_MARKET_BOOK_ADD,
    CMD_MARKET_BOOK_GET, CMD_MARKET_BOOK_RELEASE, CMD_ORDERS_GET, CMD_ORDERS_TOTAL,
    CMD_ORDER_CHECK, CMD_ORDER_SEND, CMD_POSITIONS_GET, CMD_POSITIONS_TOTAL, CMD_RATES_FROM,
    CMD_RATES_FROM_POS, CMD_RATES_RANGE, CMD_SYMBOLS_GET, CMD_SYMBOLS_TOTAL, CMD_SYMBOL_INFO,
    CMD_SYMBOL_INFO_TICK, CMD_SYMBOL_SELECT, CMD_TERMINAL_INFO, CMD_TICKS_FROM, CMD_TICKS_RANGE,
    encode_trade_request, handshake_bytes, handshake_request, history_range_bytes,
    history_range_request, login_bytes, login_request, rates_from_bytes, rates_from_pos_bytes,
    rates_from_pos_request, rates_from_request, rates_range_bytes, rates_range_request,
    select_bytes, select_request, symbol_filter_bytes, symbol_filter_request, symbol_view, ticks_from_bytes,
    ticks_from_request, ticks_range_bytes, ticks_range_request, trade_request_bytes,
};
use crate::error::{Mt5Error, invalid_error};
use crate::protocol::Transport;
use crate::reader::{u16_at, u32_at};
use crate::records::{SYMBOL_INFO_LEN, TICK_LEN, symbol_info_at, tick_at};
use crate::text::{encode_string, encoded_string};
use crate::types::{
    AccountInfo, BookInfo, Rate, SymbolInfo, TerminalInfo, Tick, TradeCheckResult, TradeDeal,
    TradeOrder, TradePosition, TradeRequest, TradeResult, VersionInfo,
};

verus! {

/// What the last-error slot may hold: no error yet (code 0, no message), or
/// code -1 with the message of the failed command.
pub struct LastErrorSlot;

impl vstd::predicate::Predicate<(i32, String)> for LastErrorSlot {
    open spec fn predicate(&self, v: (i32, String)) -> bool {
        (v.0 == 0 && v.1@.len() == 0) || (v.0 == -1 && v.1@.len() > 0)
    }
}

/// Client of a MetaTrader 5 terminal.
pub struct Mt5Client {
    transport: Option<Box<dyn Transport>>,
    build: i32,
    last_error: InvCell<(i32, String), LastErrorSlot>,
}

impl Mt5Client {
    /// The transport the client sends its commands over, if any.
    pub closed spec fn link(&self) -> Option<Box<dyn Transport>> {
        self.transport
    }

    /// Whether the client has a transport.
    pub open spec fn connected(&self) -> bool {
        self.link() is Some
    }

    /// `resp` is a reply that the client's transport may give to command
    /// `cmd` with payload `data`.
    pub open spec fn answers(&self, cmd: u32, data: Seq<u8>, resp: Seq<u8>) -> bool {
        match self.link() {
            Some(t) => t.replies(cmd, data, resp),
            None => false,
        }
    }

    /// `e` is an error that the client's transport may report for command
    /// `cmd` with payload `data`.
    pub open spec fn refused(&self, cmd: u32, data: Seq<u8>, e: Mt5Error) -> bool {
        match self.link() {
            Some(t) => t.refuses(cmd, data, e),
            None => false,
        }
    }

    /// The terminal build reported by the last handshake (0 before any).
    pub closed spec fn build_number(&self) -> i32 {
        self.build
    }

    #[verifier::type_invariant]
    closed spec fn slot_ok(&self) -> bool {
        self.last_error.predicate() == LastErrorSlot
    }

    /// A client without a transport.
    pub fn new() -> (c: Self)
        ensures
            c.link() is None,
            c.build_number() == 0,
    {
        Mt5Client {
            transport: None,
            build: 0,
            last_error: InvCell::new((0, String::new()), Ghost(LastErrorSlot)),
        }
    }

    /// A client over the given transport, for instance an in-memory mock.
    pub fn from_transport(transport: Box<dyn Transport>) -> (c: Self)
        ensures
            c.link() matches Some(t) && t == transport,
            c.build_number() == 0,
    {
        let ghost given = transport;
        let link = Some(transport);
        assert(link == Some(given));
        Mt5Client {
            transport: link,
            build: 0,
            last_error: InvCell::new((0, String::new()), Ghost(LastErrorSlot)),
        }
    }

    /// Takes `transport` as the connection to the terminal and performs the
    /// handshake: command 4 with protocol version 3 and the name "Go". The
    /// transport is kept whatever the outcome; the handshake succeeds exactly
    /// when the transport delivers a reply, and a reply of at least four
    /// bytes carries the terminal build, which is kept.
    pub fn initialize(&mut self, transport: Box<dyn Transport>) -> (r: Result<(), Mt5Error>)
        ensures
            final(self).link() == Some(transport),
            r matches Err(e) ==> transport.refuses(CMD_HANDSHAKE, handshake_bytes(), e)
                && final(self).build_number() == old(self).build_number(),
            r is Ok ==> exists|resp: Seq<u8>|
                #[trigger] transport.replies(CMD_HANDSHAKE, handshake_bytes(), resp)
                    && final(self).build_number() == (if resp.len() >= 4 {
                    u32_at(resp, 0) as i32
                } else {
                    old(self).build_number()
                }),
    {
        let ghost given = transport;
        let link = Some(transport);
        assert(link == Some(given));
        self.transport = link;
        let data = handshake_request();
        let resp = match &self.transport {
            Some(t) => t.send(CMD_HANDSHAKE, data.as_slice()),
            None => Err(Mt5Error::NotInitialized),
        };
        let resp = resp?;
        let ghost resp_view = resp@;
        match decode_build(resp.as_slice()) {
            Some(b) => {
                self.build = b;
            },
            None => {},
        }
        assert(transport.replies(CMD_HANDSHAKE, handshake_bytes(), resp_view));
        Ok(())
    }

    /// Drops the transport.
    pub fn shutdown(&mut self)
        ensures
            final(self).link() is None,
            final(self).build_number() == old(self).build_number(),
    {
        self.transport = None;
    }

    /// Sends a command over the transport and hands back its result; every
    /// failure, also that of a client without transport, is recorded for
    /// `last_error`.
    fn send(&self, cmd: u32, data: &[u8]) -> (r: Result<Vec<u8>, Mt5Error>)
        ensures
            !self.connected() ==> r matches Err(Mt5Error::NotInitialized),
            self.connected() ==> (r matches Ok(v) ==> self.answers(cmd, data@, v@)),
            self.connected() ==> (r matches Err(e) ==> self.refused(cmd, data@, e)),
    {
        proof {
            use_type_invariant(self);
        }
        match &self.transport {
            None => {
                let e = Mt5Error::NotInitialized;
                let msg = e.message();
                let _previous = self.last_error.replace((-1, msg));
                Err(e)
            },
            Some(t) => match t.send(cmd, data) {
                Ok(resp) => Ok(resp),
                Err(e) => {
                    let msg = e.message();
                    let _previous = self.last_error.replace((-1, msg));
                    Err(e)
                },
            },
        }
    }

    /// Sends `data` as command `cmd` and returns the transport's result untouched.
    pub fn send_raw_command(&self, cmd: u32, data: &[u8]) -> (r: Result<Vec<u8>, Mt5Error>)
        ensures
            !self.connected() ==> r matches Err(Mt5Error::NotInitialized),
            self.connected() ==> (r matches Ok(v) ==> self.answers(cmd, data@, v@)),
            self.connected() ==> (r matches Err(e) ==> self.refused(cmd, data@, e)),
    {
        self.send(cmd, data)
    }

    /// The version report: API version 500, the terminal build from the
    /// reply to `terminal_info` (command 180, empty payload), and no build date.
    pub fn version(&self) -> (r: Result<VersionInfo, Mt5Error>)
        ensures
            !self.connected() ==> r matches Err(Mt5Error::NotInitialized),
            self.connected() ==> (r matches Ok(v) ==> v.version == API_VERSION && v.build_date@.len() == 0
                && exists|resp: Seq<u8>|
                #[trigger] self.answers(CMD_TERMINAL_INFO, Seq::empty(), resp) && resp.len()
                    >= TERMINAL_NUMBERS_LEN && v.build == (u16_at(resp, 0) as i64) as i32),
            self.connected() ==> (r matches Err(e) ==> self.refused(CMD_TERMINAL_INFO, Seq::empty(), e)
                || exists|resp: Seq<u8>|
                #[trigger] self.answers(CMD_TERMINAL_INFO, Seq::empty(), resp) && resp.len()
                    < TERMINAL_NUMBERS_LEN && too_short_error(e)),
    {
        let info = self.terminal_info()?;
        let v = version_from(&info);
        proof {
            if self.connected() {
                let resp = choose|resp: Seq<u8>|
                    #[trigger] self.answers(CMD_TERMINAL_INFO, Seq::empty(), resp) && resp.len()
                        >= TERMINAL_NUMBERS_LEN && terminal_info_at(info, resp);
                assert(v.build == (u16_at(resp, 0) as i64) as i32);
            }
        }
        Ok(v)
    }

    /// Logs in to account `login` (command 100 with the account number, password and server); a reply status of 0 means success.
    ///
    /// The result is the decoding of the reply that the transport gives to
    /// that request, or the transport's own error.
    pub fn login(&self, login: i64, password: &str, server: &str) -> (r: Result<(), Mt5Error>)
        ensures
            !self.connected() ==> r matches Err(Mt5Error::NotInitialized),
            self.connected() ==> (r matches Ok(v) ==> exists|resp: Seq<u8>|
                #[trigger] self.answers(CMD_LOGIN, login_bytes(login, password@, server@), resp) && resp.len() >= 4 && u32_at(resp, 0) == 0),
            self.connected() ==> (r matches Err(e) ==> self.refused(CMD_LOGIN, login_bytes(login, password@, server@), e)
                || exists|resp: Seq<u8>|
                #[trigger] self.answers(CMD_LOGIN, login_bytes(login, password@, server@), resp) && login_error(resp, e)),
    {
        let data = login_request(login, password, server);
        let resp = self.send(CMD_LOGIN, data.as_slice())?;
        let r = decode_login(resp.as_slice());
        proof {
            let resp_view = resp@;
            assert(r matches Ok(v) ==> resp_view.len() >= 4 && u32_at(resp_view, 0) == 0);
            assert(r matches Err(e) ==> login_error(resp_view, e));
        }
        r
    }

    /// The state of the trading account (command 190, empty payload).
    ///
    /// The result is the decoding of the reply that the transport gives to
    /// that request, or the transport's own error.
    pub fn account_info(&self) -> (r: Result<AccountInfo, Mt5Error>)
        ensures
            !self.connected() ==> r matches Err(Mt5Error::NotInitialized),
            self.connected() ==> (r matches Ok(v) ==> exists|resp: Seq<u8>|
                #[trigger] self.answers(CMD_ACCOUNT_INFO, Seq::<u8>::empty(), resp) && resp.len() >= ACCOUNT_INFO_LEN && account_info_at(v, resp)),
            self.connected() ==> (r matches Err(e) ==> self.refused(CMD_ACCOUNT_INFO, Seq::<u8>::empty(), e)
                || exists|resp: Seq<u8>|
                #[trigger] self.answers(CMD_ACCOUNT_INFO, Seq::<u8>::empty(), resp) && resp.len() < ACCOUNT_INFO_LEN && account_info_error(resp, e)),
    {
        let data: Vec<u8> = Vec::new();
        let resp = self.send(CMD_ACCOUNT_INFO, data.as_slice())?;
        let r = decode_account_info(resp.as_slice());
        proof {
            let resp_view = resp@;
            assert(r matches Ok(v) ==> resp_view.len() >= ACCOUNT_INFO_LEN && account_info_at(v, resp_view));
            assert(r matches Err(e) ==> resp_view.len() < ACCOUNT_INFO_LEN && account_info_error(resp_view, e));
        }
        r
    }

    /// The state of the terminal (command 180, empty payload).
    ///
    /// The result is the decoding of the reply that the transport gives to
    /// that request, or the transport's own error.
    pub fn terminal_info(&self) -> (r: Result<TerminalInfo, Mt5Error>)
        ensures
            !self.connected() ==> r matches Err(Mt5Error::NotInitialized),
            self.connected() ==> (r matches Ok(v) ==> exists|resp: Seq<u8>|
                #[trigger] self.answers(CMD_TERMINAL_INFO, Seq::<u8>::empty(), resp) && resp.len() >= TERMINAL_NUMBERS_LEN && terminal_info_at(v, resp)),
            self.connected() ==> (r matches Err(e) ==> self.refused(CMD_TERMINAL_INFO, Seq::<u8>::empty(), e)
                || exists|resp: Seq<u8>|
                #[trigger] self.answers(CMD_TERMINAL_INFO, Seq::<u8>::empty(), resp) && resp.len() < TERMINAL_NUMBERS_LEN && too_short_error(e)),
    {
        let data: Vec<u8> = Vec::new();
        let resp = self.send(CMD_TERMINAL_INFO, data.as_slice())?;
        let r = decode_terminal_info(resp.as_slice());
        proof {
            let resp_view = resp@;
            assert(r matches Ok(v) ==> resp_view.len() >= TERMINAL_NUMBERS_LEN && terminal_info_at(v, resp_view));
            assert(r matches Err(e) ==> resp_view.len() < TERMINAL_NUMBERS_LEN && too_short_error(e));
        }
        r
    }

    /// The number of symbols the terminal knows (command 173, empty payload).
    ///
    /// The result is the decoding of the reply that the transport gives to
    /// that request, or the transport's own error.
    pub fn symbols_total(&self) -> (r: Result<i64, Mt5Error>)
        ensures
            !self.connected() ==> r matches Err(Mt5Error::NotInitialized),
            self.connected() ==> (r matches Ok(v) ==> exists|resp: Seq<u8>|
                #[trigger] self.answers(CMD_SYMBOLS_TOTAL, Seq::<u8>::empty(), resp) && count_spec(resp) == Some(v)),
            self.connected() ==> (r matches Err(e) ==> self.refused(CMD_SYMBOLS_TOTAL, Seq::<u8>::empty(), e)
                || exists|resp: Seq<u8>|
                #[trigger] self.answers(CMD_SYMBOLS_TOTAL, Seq::<u8>::empty(), resp) && resp.len() < 4 && too_short_error(e)),
    {
        let data: Vec<u8> = Vec::new();
        let resp = self.send(CMD_SYMBOLS_TOTAL, data.as_slice())?;
        let r = decode_count(resp.as_slice());
        proof {
            let resp_view = resp@;
            assert(r matches Ok(v) ==> count_spec(resp_view) == Some(v));
            assert(r matches Err(e) ==> resp_view.len() < 4 && too_short_error(e));
        }
        r
    }

    /// Descriptions of all symbols (command 174, empty payload).
    ///
    /// The result is the decoding of the reply that the transport gives to
    /// that request, or the transport's own error.
    pub fn symbols_get(&self) -> (r: Result<Vec<SymbolInfo>, Mt5Error>)
        ensures
            !self.connected() ==> r matches Err(Mt5Error::NotInitialized),
            self.connected() ==> (r matches Ok(v) ==> exists|resp: Seq<u8>|
                #[trigger] self.answers(CMD_SYMBOLS_GET, Seq::<u8>::empty(), resp) && symbols_parsed(resp, v@)),
            self.connected() ==> (r matches Err(e) ==> self.refused(CMD_SYMBOLS_GET, Seq::<u8>::empty(), e)
                || exists|resp: Seq<u8>|
                #[trigger] self.answers(CMD_SYMBOLS_GET, Seq::<u8>::empty(), resp) && !(resp.len() >= 4 && 4 + u32_at(resp, 0) * SYMBOL_INFO_LEN <= resp.len()) && symbols_error(resp, e)),
    {
        let data: Vec<u8> = Vec::new();
        let resp = self.send(CMD_SYMBOLS_GET, data.as_slice())?;
        let r = decode_symbols(resp.as_slice());
        proof {
            let resp_view = resp@;
            assert(r matches Ok(v) ==> symbols_parsed(resp_view, v@));
            assert(r matches Err(e) ==> !(resp_view.len() >= 4 && 4 + u32_at(resp_view, 0) * SYMBOL_INFO_LEN <= resp_view.len()) && symbols_error(resp_view, e));
        }
        r
    }

    /// Description of `symbol` (command 170 with the symbol), or `None` if the terminal does not know it.
    ///
    /// The result is the decoding of the reply that the transport gives to
    /// that request, or the transport's own error.
    pub fn symbol_info(&self, symbol: &str) -> (r: Result<Option<SymbolInfo>, Mt5Error>)
        ensures
            !self.connected() ==> r matches Err(Mt5Error::NotInitialized),
            self.connected() ==> (r matches Ok(v) ==> exists|resp: Seq<u8>|
                #[trigger] self.answers(CMD_SYMBOL_INFO, encoded_string(symbol@), resp) && (v is None <==> resp.len() == 0) && (v matches Some(s) ==> symbol_info_at(s, resp, 0))),
            self.connected() ==> (r matches Err(e) ==> self.refused(CMD_SYMBOL_INFO, encoded_string(symbol@), e)
                || exists|resp: Seq<u8>|
                #[trigger] self.answers(CMD_SYMBOL_INFO, encoded_string(symbol@), resp) && 0 < resp.len() < SYMBOL_INFO_LEN && invalid_error(e, "Failed to read symbol info"@)),
    {
        let data = encode_string(symbol);
        let resp = self.send(CMD_SYMBOL_INFO, data.as_slice())?;
        let r = decode_symbol_info_response(resp.as_slice());
        proof {
            let resp_view = resp@;
            assert(r matches Ok(v) ==> (v is None <==> resp_view.len() == 0) && (v matches Some(s) ==> symbol_info_at(s, resp_view, 0)));
            assert(r matches Err(e) ==> 0 < resp_view.len() < SYMBOL_INFO_LEN && invalid_error(e, "Failed to read symbol info"@));
        }
        r
    }

    /// The last tick of `symbol` (command 172 with the symbol), or `None` if the terminal does not know it.
    ///
    /// The result is the decoding of the reply that the transport gives to
    /// that request, or the transport's own error.
    pub fn symbol_info_tick(&self, symbol: &str) -> (r: Result<Option<Tick>, Mt5Error>)
        ensures
            !self.connected() ==> r matches Err(Mt5Error::NotInitialized),
            self.connected() ==> (r matches Ok(v) ==> exists|resp: Seq<u8>|
                #[trigger] self.answers(CMD_SYMBOL_INFO_TICK, encoded_string(symbol@), resp) && (v is None <==> resp.len() == 0) && (v matches Some(t) ==> tick_at(t, resp, 0))),
            self.connected() ==> (r matches Err(e) ==> self.refused(CMD_SYMBOL_INFO_TICK, encoded_string(symbol@), e)
                || exists|resp: Seq<u8>|
                #[trigger] self.answers(CMD_SYMBOL_INFO_TICK, encoded_string(symbol@), resp) && 0 < resp.len() < TICK_LEN && invalid_error(e, "Failed to read tick"@)),
    {
        let data = encode_string(symbol);
        let resp = self.send(CMD_SYMBOL_INFO_TICK, data.as_slice())?;
        let r = decode_tick_response(resp.as_slice());
        proof {
            let resp_view = resp@;
            assert(r matches Ok(v) ==> (v is None <==> resp_view.len() == 0) && (v matches Some(t) ==> tick_at(t, resp_view, 0)));
            assert(r matches Err(e) ==> 0 < resp_view.len() < TICK_LEN && invalid_error(e, "Failed to read tick"@));
        }
        r
    }

    /// Shows (`enable`) or hides `symbol` in Market Watch (command 171 with the symbol and a 1 or 0 byte).
    ///
    /// The result is the decoding of the reply that the transport gives to
    /// that request, or the transport's own error.
    pub fn symbol_select(&self, symbol: &str, enable: bool) -> (r: Result<bool, Mt5Error>)
        ensures
            !self.connected() ==> r matches Err(Mt5Error::NotInitialized),
            self.connected() ==> (r matches Ok(v) ==> exists|resp: Seq<u8>|
                #[trigger] self.answers(CMD_SYMBOL_SELECT, select_bytes(symbol@, enable), resp) && select_spec(resp) == Some(v)),
            self.connected() ==> (r matches Err(e) ==> self.refused(CMD_SYMBOL_SELECT, select_bytes(symbol@, enable), e)
                || exists|resp: Seq<u8>|
                #[trigger] self.answers(CMD_SYMBOL_SELECT, select_bytes(symbol@, enable), resp) && select_spec(resp) is None && too_short_error(e)),
    {
        let data = select_request(symbol, enable);
        let resp = self.send(CMD_SYMBOL_SELECT, data.as_slice())?;
        let r = decode_select(resp.as_slice());
        proof {
            let resp_view = resp@;
            assert(r matches Ok(v) ==> select_spec(resp_view) == Some(v));
            assert(r matches Err(e) ==> select_spec(resp_view) is None && too_short_error(e));
        }
        r
    }

    /// The number of open positions (command 120, empty payload).
    ///
    /// The result is the decoding of the reply that the transport gives to
    /// that request, or the transport's own error.
    pub fn positions_total(&self) -> (r: Result<i64, Mt5Error>)
        ensures
            !self.connected() ==> r matches Err(Mt5Error::NotInitialized),
            self.connected() ==> (r matches Ok(v) ==> exists|resp: Seq<u8>|
                #[trigger] self.answers(CMD_POSITIONS_TOTAL, Seq::<u8>::empty(), resp) && count_spec(resp) == Some(v)),
            self.connected() ==> (r matches Err(e) ==> self.refused(CMD_POSITIONS_TOTAL, Seq::<u8>::empty(), e)
                || exists|resp: Seq<u8>|
                #[trigger] self.answers(CMD_POSITIONS_TOTAL, Seq::<u8>::empty(), resp) && resp.len() < 4 && too_short_error(e)),
    {
        let data: Vec<u8> = Vec::new();
        let resp = self.send(CMD_POSITIONS_TOTAL, data.as_slice())?;
        let r = decode_count(resp.as_slice());
        proof {
            let resp_view = resp@;
            assert(r matches Ok(v) ==> count_spec(resp_view) == Some(v));
            assert(r matches Err(e) ==> resp_view.len() < 4 && too_short_error(e));
        }
        r
    }

    /// The number of pending orders (command 130, empty payload).
    ///
    /// The result is the decoding of the reply that the transport gives to
    /// that request, or the transport's own error.
    pub fn orders_total(&self) -> (r: Result<i64, Mt5Error>)
        ensures
            !self.connected() ==> r matches Err(Mt5Error::NotInitialized),
            self.connected() ==> (r matches Ok(v) ==> exists|resp: Seq<u8>|
                #[trigger] self.answers(CMD_ORDERS_TOTAL, Seq::<u8>::empty(), resp) && count_spec(resp) == Some(v)),
            self.connected() ==> (r matches Err(e) ==> self.refused(CMD_ORDERS_TOTAL, Seq::<u8>::empty(), e)
                || exists|resp: Seq<u8>|
                #[trigger] self.answers(CMD_ORDERS_TOTAL, Seq::<u8>::empty(), resp) && resp.len() < 4 && too_short_error(e)),
    {
        let data: Vec<u8> = Vec::new();
        let resp = self.send(CMD_ORDERS_TOTAL, data.as_slice())?;
        let r = decode_count(resp.as_slice());
        proof {
            let resp_view = resp@;
            assert(r matches Ok(v) ==> count_spec(resp_view) == Some(v));
            assert(r matches Err(e) ==> resp_view.len() < 4 && too_short_error(e));
        }
        r
    }

    /// Open positions, of `symbol` if one is given (command 121).
    ///
    /// The result is the decoding of the reply that the transport gives to
    /// that request, or the transport's own error.
    pub fn positions_get(&self, symbol: Option<&str>) -> (r: Result<Vec<TradePosition>, Mt5Error>)
        ensures
            !self.connected() ==> r matches Err(Mt5Error::NotInitialized),
            self.connected() ==> (r matches Ok(v) ==> exists|resp: Seq<u8>|
                #[trigger] self.answers(CMD_POSITIONS_GET, symbol_filter_bytes(symbol_view(symbol)), resp) && positions_parsed(resp, v@)),
            self.connected() ==> (r matches Err(e) ==> self.refused(CMD_POSITIONS_GET, symbol_filter_bytes(symbol_view(symbol)), e)
                || exists|resp: Seq<u8>|
                #[trigger] self.answers(CMD_POSITIONS_GET, symbol_filter_bytes(symbol_view(symbol)), resp) && resp.len() < 4 && too_short_error(e)),
    {
        let data = symbol_filter_request(symbol);
        let resp = self.send(CMD_POSITIONS_GET, data.as_slice())?;
        let r = parse_positions_response(resp.as_slice());
        proof {
            let resp_view = resp@;
            assert(r matches Ok(v) ==> positions_parsed(resp_view, v@));
            assert(r matches Err(e) ==> resp_view.len() < 4 && too_short_error(e));
        }
        r
    }

    /// Pending orders, of `symbol` if one is given (command 131).
    ///
    /// The result is the decoding of the reply that the transport gives to
    /// that request, or the transport's own error.
    pub fn orders_get(&self, symbol: Option<&str>) -> (r: Result<Vec<TradeOrder>, Mt5Error>)
        ensures
            !self.connected() ==> r matches Err(Mt5Error::NotInitialized),
            self.connected() ==> (r matches Ok(v) ==> exists|resp: Seq<u8>|
                #[trigger] self.answers(CMD_ORDERS_GET, symbol_filter_bytes(symbol_view(symbol)), resp) && orders_parsed(resp, v@)),
            self.connected() ==> (r matches Err(e) ==> self.refused(CMD_ORDERS_GET, symbol_filter_bytes(symbol_view(symbol)), e)
                || exists|resp: Seq<u8>|
                #[trigger] self.answers(CMD_ORDERS_GET, symbol_filter_bytes(symbol_view(symbol)), resp) && resp.len() < 4 && too_short_error(e)),
    {
        let data = symbol_filter_request(symbol);
        let resp = self.send(CMD_ORDERS_GET, data.as_slice())?;
        let r = parse_orders_response(resp.as_slice());
        proof {
            let resp_view = resp@;
            assert(r matches Ok(v) ==> orders_parsed(resp_view, v@));
            assert(r matches Err(e) ==> resp_view.len() < 4 && too_short_error(e));
        }
        r
    }

    /// Bars of `symbol` from bar index `start_pos` (command 108).
    ///
    /// The result is the decoding of the reply that the transport gives to
    /// that request, or the transport's own error.
    pub fn copy_rates_from_pos(&self, symbol: &str, timeframe: i32, start_pos: i64, count: i32) -> (r: Result<Vec<Rate>, Mt5Error>)
        ensures
            !self.connected() ==> r matches Err(Mt5Error::NotInitialized),
            self.connected() ==> (r matches Ok(v) ==> exists|resp: Seq<u8>|
                #[trigger] self.answers(CMD_RATES_FROM_POS, rates_from_pos_bytes(symbol@, timeframe, start_pos, count), resp) && rates_parsed(resp, v@)),
            self.connected() ==> (r matches Err(e) ==> self.refused(CMD_RATES_FROM_POS, rates_from_pos_bytes(symbol@, timeframe, start_pos, count), e)
                || exists|resp: Seq<u8>|
                #[trigger] self.answers(CMD_RATES_FROM_POS, rates_from_pos_bytes(symbol@, timeframe, start_pos, count), resp) && resp.len() < 4 && too_short_error(e)),
    {
        let data = rates_from_pos_request(symbol, timeframe, start_pos, count);
        let resp = self.send(CMD_RATES_FROM_POS, data.as_slice())?;
        let r = parse_rates_response(resp.as_slice());
        proof {
            let resp_view = resp@;
            assert(r matches Ok(v) ==> rates_parsed(resp_view, v@));
            assert(r matches Err(e) ==> resp_view.len() < 4 && too_short_error(e));
        }
        r
    }

    /// Bars of `symbol` from date `date_from` (command 106).
    ///
    /// The result is the decoding of the reply that the transport gives to
    /// that request, or the transport's own error.
    pub fn copy_rates_from(&self, symbol: &str, timeframe: i32, date_from: i64, count: i32) -> (r: Result<Vec<Rate>, Mt5Error>)
        ensures
            !self.connected() ==> r matches Err(Mt5Error::NotInitialized),
            self.connected() ==> (r matches Ok(v) ==> exists|resp: Seq<u8>|
                #[trigger] self.answers(CMD_RATES_FROM, rates_from_bytes(symbol@, timeframe, date_from, count), resp) && rates_parsed(resp, v@)),
            self.connected() ==> (r matches Err(e) ==> self.refused(CMD_RATES_FROM, rates_from_bytes(symbol@, timeframe, date_from, count), e)
                || exists|resp: Seq<u8>|
                #[trigger] self.answers(CMD_RATES_FROM, rates_from_bytes(symbol@, timeframe, date_from, count), resp) && resp.len() < 4 && too_short_error(e)),
    {
        let data = rates_from_request(symbol, timeframe, date_from, count);
        let resp = self.send(CMD_RATES_FROM, data.as_slice())?;
        let r = parse_rates_response(resp.as_slice());
        proof {
            let resp_view = resp@;
            assert(r matches Ok(v) ==> rates_parsed(resp_view, v@));
            assert(r matches Err(e) ==> resp_view.len() < 4 && too_short_error(e));
        }
        r
    }

    /// Bars of `symbol` between two dates (command 107).
    ///
    /// The result is the decoding of the reply that the transport gives to
    /// that request, or the transport's own error.
    pub fn copy_rates_range(&self, symbol: &str, timeframe: i32, date_from: i64, date_to: i64) -> (r: Result<Vec<Rate>, Mt5Error>)
        ensures
            !self.connected() ==> r matches Err(Mt5Error::NotInitialized),
            self.connected() ==> (r matches Ok(v) ==> exists|resp: Seq<u8>|
                #[trigger] self.answers(CMD_RATES_RANGE, rates_range_bytes(symbol@, timeframe, date_from, date_to), resp) && rates_parsed(resp, v@)),
            self.connected() ==> (r matches Err(e) ==> self.refused(CMD_RATES_RANGE, rates_range_bytes(symbol@, timeframe, date_from, date_to), e)
                || exists|resp: Seq<u8>|
                #[trigger] self.answers(CMD_RATES_RANGE, rates_range_bytes(symbol@, timeframe, date_from, date_to), resp) && resp.len() < 4 && too_short_error(e)),
    {
        let data = rates_range_request(symbol, timeframe, date_from, date_to);
        let resp = self.send(CMD_RATES_RANGE, data.as_slice())?;
        let r = parse_rates_response(resp.as_slice());
        proof {
            let resp_view = resp@;
            assert(r matches Ok(v) ==> rates_parsed(resp_view, v@));
            assert(r matches Err(e) ==> resp_view.len() < 4 && too_short_error(e));
        }
        r
    }

    /// Ticks of `symbol` from date `from` (command 104).
    ///
    /// The result is the decoding of the reply that the transport gives to
    /// that request, or the transport's own error.
    pub fn copy_ticks_from(&self, symbol: &str, from: i64, count: i32, flags: i32) -> (r: Result<Vec<Tick>, Mt5Error>)
        ensures
            !self.connected() ==> r matches Err(Mt5Error::NotInitialized),
            self.connected() ==> (r matches Ok(v) ==> exists|resp: Seq<u8>|
                #[trigger] self.answers(CMD_TICKS_FROM, ticks_from_bytes(symbol@, from, count, flags), resp) && ticks_parsed(resp, v@)),
            self.connected() ==> (r matches Err(e) ==> self.refused(CMD_TICKS_FROM, ticks_from_bytes(symbol@, from, count, flags), e)
                || exists|resp: Seq<u8>|
                #[trigger] self.answers(CMD_TICKS_FROM, ticks_from_bytes(symbol@, from, count, flags), resp) && resp.len() < 4 && too_short_error(e)),
    {
        let data = ticks_from_request(symbol, from, count, flags);
        let resp = self.send(CMD_TICKS_FROM, data.as_slice())?;
        let r = parse_ticks_response(resp.as_slice());
        proof {
            let resp_view = resp@;
            assert(r matches Ok(v) ==> ticks_parsed(resp_view, v@));
            assert(r matches Err(e) ==> resp_view.len() < 4 && too_short_error(e));
        }
        r
    }

    /// Ticks of `symbol` between two dates (command 105).
    ///
    /// The result is the decoding of the reply that the transport gives to
    /// that request, or the transport's own error.
    pub fn copy_ticks_range(&self, symbol: &str, from: i64, to: i64, flags: i32) -> (r: Result<Vec<Tick>, Mt5Error>)
        ensures
            !self.connected() ==> r matches Err(Mt5Error::NotInitialized),
            self.connected() ==> (r matches Ok(v) ==> exists|resp: Seq<u8>|
                #[trigger] self.answers(CMD_TICKS_RANGE, ticks_range_bytes(symbol@, from, to, flags), resp) && ticks_parsed(resp, v@)),
            self.connected() ==> (r matches Err(e) ==> self.refused(CMD_TICKS_RANGE, ticks_range_bytes(symbol@, from, to, flags), e)
                || exists|resp: Seq<u8>|
                #[trigger] self.answers(CMD_TICKS_RANGE, ticks_range_bytes(symbol@, from, to, flags), resp) && resp.len() < 4 && too_short_error(e)),
    {
        let data = ticks_range_request(symbol, from, to, flags);
        let resp = self.send(CMD_TICKS_RANGE, data.as_slice())?;
        let r = parse_ticks_response(resp.as_slice());
        proof {
            let resp_view = resp@;
            assert(r matches Ok(v) ==> ticks_parsed(resp_view, v@));
            assert(r matches Err(e) ==> resp_view.len() < 4 && too_short_error(e));
        }
        r
    }

    /// The number of deals between two dates (command 150).
    ///
    /// The result is the decoding of the reply that the transport gives to
    /// that request, or the transport's own error.
    pub fn history_deals_total(&self, from: i64, to: i64) -> (r: Result<i64, Mt5Error>)
        ensures
            !self.connected() ==> r matches Err(Mt5Error::NotInitialized),
            self.connected() ==> (r matches Ok(v) ==> exists|resp: Seq<u8>|
                #[trigger] self.answers(CMD_HISTORY_DEALS_TOTAL, history_range_bytes(from, to), resp) && count_spec(resp) == Some(v)),
            self.connected() ==> (r matches Err(e) ==> self.refused(CMD_HISTORY_DEALS_TOTAL, history_range_bytes(from, to), e)
                || exists|resp: Seq<u8>|
                #[trigger] self.answers(CMD_HISTORY_DEALS_TOTAL, history_range_bytes(from, to), resp) && resp.len() < 4 && too_short_error(e)),
    {
        let data = history_range_request(from, to);
        let resp = self.send(CMD_HISTORY_DEALS_TOTAL, data.as_slice())?;
        let r = decode_count(resp.as_slice());
        proof {
            let resp_view = resp@;
            assert(r matches Ok(v) ==> count_spec(resp_view) == Some(v));
            assert(r matches Err(e) ==> resp_view.len() < 4 && too_short_error(e));
        }
        r
    }

    /// Deals between two dates (command 151).
    ///
    /// The result is the decoding of the reply that the transport gives to
    /// that request, or the transport's own error.
    pub fn history_deals_get(&self, from: i64, to: i64) -> (r: Result<Vec<TradeDeal>, Mt5Error>)
        ensures
            !self.connected() ==> r matches Err(Mt5Error::NotInitialized),
            self.connected() ==> (r matches Ok(v) ==> exists|resp: Seq<u8>|
                #[trigger] self.answers(CMD_HISTORY_DEALS_GET, history_range_bytes(from, to), resp) && deals_parsed(resp, v@)),
            self.connected() ==> (r matches Err(e) ==> self.refused(CMD_HISTORY_DEALS_GET, history_range_bytes(from, to), e)
                || exists|resp: Seq<u8>|
                #[trigger] self.answers(CMD_HISTORY_DEALS_GET, history_range_bytes(from, to), resp) && resp.len() < 4 && too_short_error(e)),
    {
        let data = history_range_request(from, to);
        let resp = self.send(CMD_HISTORY_DEALS_GET, data.as_slice())?;
        let r = parse_deals_response(resp.as_slice());
        proof {
            let resp_view = resp@;
            assert(r matches Ok(v) ==> deals_parsed(resp_view, v@));
            assert(r matches Err(e) ==> resp_view.len() < 4 && too_short_error(e));
        }
        r
    }

    /// The number of historical orders between two dates (command 140).
    ///
    /// The result is the decoding of the reply that the transport gives to
    /// that request, or the transport's own error.
    pub fn history_orders_total(&self, from: i64, to: i64) -> (r: Result<i64, Mt5Error>)
        ensures
            !self.connected() ==> r matches Err(Mt5Error::NotInitialized),
            self.connected() ==> (r matches Ok(v) ==> exists|resp: Seq<u8>|
                #[trigger] self.answers(CMD_HISTORY_ORDERS_TOTAL, history_range_bytes(from, to), resp) && count_spec(resp) == Some(v)),
            self.connected() ==> (r matches Err(e) ==> self.refused(CMD_HISTORY_ORDERS_TOTAL, history_range_bytes(from, to), e)
                || exists|resp: Seq<u8>|
                #[trigger] self.answers(CMD_HISTORY_ORDERS_TOTAL, history_range_bytes(from, to), resp) && resp.len() < 4 && too_short_error(e)),
    {
        let data = history_range_request(from, to);
        let resp = self.send(CMD_HISTORY_ORDERS_TOTAL, data.as_slice())?;
        let r = decode_count(resp.as_slice());
        proof {
            let resp_view = resp@;
            assert(r matches Ok(v) ==> count_spec(resp_view) == Some(v));
            assert(r matches Err(e) ==> resp_view.len() < 4 && too_short_error(e));
        }
        r
    }

    /// Historical orders between two dates (command 141).
    ///
    /// The result is the decoding of the reply that the transport gives to
    /// that request, or the transport's own error.
    pub fn history_orders_get(&self, from: i64, to: i64) -> (r: Result<Vec<TradeOrder>, Mt5Error>)
        ensures
            !self.connected() ==> r matches Err(Mt5Error::NotInitialized),
            self.connected() ==> (r matches Ok(v) ==> exists|resp: Seq<u8>|
                #[trigger] self.answers(CMD_HISTORY_ORDERS_GET, history_range_bytes(from, to), resp) && orders_parsed(resp, v@)),
            self.connected() ==> (r matches Err(e) ==> self.refused(CMD_HISTORY_ORDERS_GET, history_range_bytes(from, to), e)
                || exists|resp: Seq<u8>|
                #[trigger] self.answers(CMD_HISTORY_ORDERS_GET, history_range_bytes(from, to), resp) && resp.len() < 4 && too_short_error(e)),
    {
        let data = history_range_request(from, to);
        let resp = self.send(CMD_HISTORY_ORDERS_GET, data.as_slice())?;
        let r = parse_orders_response(resp.as_slice());
        proof {
            let resp_view = resp@;
            assert(r matches Ok(v) ==> orders_parsed(resp_view, v@));
            assert(r matches Err(e) ==> resp_view.len() < 4 && too_short_error(e));
        }
        r
    }

    /// Subscribes to the market depth of `symbol` (command 191 with the symbol).
    ///
    /// The result is the decoding of the reply that the transport gives to
    /// that request, or the transport's own error.
    pub fn market_book_add(&self, symbol: &str) -> (r: Result<bool, Mt5Error>)
        ensures
            !self.connected() ==> r matches Err(Mt5Error::NotInitialized),
            self.connected() ==> (r matches Ok(v) ==> exists|resp: Seq<u8>|
                #[trigger] self.answers(CMD_MARKET_BOOK_ADD, encoded_string(symbol@), resp) && book_ack_spec(resp) == Some(v)),
            self.connected() ==> (r matches Err(e) ==> self.refused(CMD_MARKET_BOOK_ADD, encoded_string(symbol@), e)
                || exists|resp: Seq<u8>|
                #[trigger] self.answers(CMD_MARKET_BOOK_ADD, encoded_string(symbol@), resp) && book_ack_spec(resp) is None && too_short_error(e)),
    {
        let data = encode_string(symbol);
        let resp = self.send(CMD_MARKET_BOOK_ADD, data.as_slice())?;
        let r = decode_book_ack(resp.as_slice());
        proof {
            let resp_view = resp@;
            assert(r matches Ok(v) ==> book_ack_spec(resp_view) == Some(v));
            assert(r matches Err(e) ==> book_ack_spec(resp_view) is None && too_short_error(e));
        }
        r
    }

    /// The market depth of `symbol` (command 193 with the symbol).
    ///
    /// The result is the decoding of the reply that the transport gives to
    /// that request, or the transport's own error.
    pub fn market_book_get(&self, symbol: &str) -> (r: Result<Vec<BookInfo>, Mt5Error>)
        ensures
            !self.connected() ==> r matches Err(Mt5Error::NotInitialized),
            self.connected() ==> (r matches Ok(v) ==> exists|resp: Seq<u8>|
                #[trigger] self.answers(CMD_MARKET_BOOK_GET, encoded_string(symbol@), resp) && book_parsed(resp, v@)),
            self.connected() ==> (r matches Err(e) ==> self.refused(CMD_MARKET_BOOK_GET, encoded_string(symbol@), e)
                || exists|resp: Seq<u8>|
                #[trigger] self.answers(CMD_MARKET_BOOK_GET, encoded_string(symbol@), resp) && resp.len() < 4 && too_short_error(e)),
    {
        let data = encode_string(symbol);
        let resp = self.send(CMD_MARKET_BOOK_GET, data.as_slice())?;
        let r = parse_book_response(resp.as_slice());
        proof {
            let resp_view = resp@;
            assert(r matches Ok(v) ==> book_parsed(resp_view, v@));
            assert(r matches Err(e) ==> resp_view.len() < 4 && too_short_error(e));
        }
        r
    }

    /// Cancels the market depth subscription of `symbol` (command 192 with the symbol).
    ///
    /// The result is the decoding of the reply that the transport gives to
    /// that request, or the transport's own error.
    pub fn market_book_release(&self, symbol: &str) -> (r: Result<bool, Mt5Error>)
        ensures
            !self.connected() ==> r matches Err(Mt5Error::NotInitialized),
            self.connected() ==> (r matches Ok(v) ==> exists|resp: Seq<u8>|
                #[trigger] self.answers(CMD_MARKET_BOOK_RELEASE, encoded_string(symbol@), resp) && book_ack_spec(resp) == Some(v)),
            self.connected() ==> (r matches Err(e) ==> self.refused(CMD_MARKET_BOOK_RELEASE, encoded_string(symbol@), e)
                || exists|resp: Seq<u8>|
                #[trigger] self.answers(CMD_MARKET_BOOK_RELEASE, encoded_string(symbol@), resp) && book_ack_spec(resp) is None && too_short_error(e)),
    {
        let data = encode_string(symbol);
        let resp = self.send(CMD_MARKET_BOOK_RELEASE, data.as_slice())?;
        let r = decode_book_ack(resp.as_slice());
        proof {
            let resp_view = resp@;
            assert(r matches Ok(v) ==> book_ack_spec(resp_view) == Some(v));
            assert(r matches Err(e) ==> book_ack_spec(resp_view) is None && too_short_error(e));
        }
        r
    }

    /// Checks whether a trade request is valid, without placing it (command 160 with the encoded request; Python `mt5.order_check`).
    ///
    /// The result is the decoding of the reply that the transport gives to
    /// that request, or the transport's own error.
    pub fn order_check(&self, request: &TradeRequest) -> (r: Result<TradeCheckResult, Mt5Error>)
        ensures
            !self.connected() ==> r matches Err(Mt5Error::NotInitialized),
            self.connected() ==> (r matches Ok(v) ==> exists|resp: Seq<u8>|
                #[trigger] self.answers(CMD_ORDER_CHECK, trade_request_bytes(*request), resp) && resp.len() >= CHECK_RESULT_TOTAL && check_result_at(v, resp)),
            self.connected() ==> (r matches Err(e) ==> self.refused(CMD_ORDER_CHECK, trade_request_bytes(*request), e)
                || exists|resp: Seq<u8>|
                #[trigger] self.answers(CMD_ORDER_CHECK, trade_request_bytes(*request), resp) && resp.len() < CHECK_RESULT_TOTAL && check_result_error(resp, e)),
    {
        let data = encode_trade_request(request);
        let resp = self.send(CMD_ORDER_CHECK, data.as_slice())?;
        let r = decode_check_result(resp.as_slice());
        proof {
            let resp_view = resp@;
            assert(r matches Ok(v) ==> resp_view.len() >= CHECK_RESULT_TOTAL && check_result_at(v, resp_view));
            assert(r matches Err(e) ==> resp_view.len() < CHECK_RESULT_TOTAL && check_result_error(resp_view, e));
        }
        r
    }

    /// Sends a trade request to the terminal for execution (command 161 with the encoded request; Python `mt5.order_send`).
    ///
    /// The result is the decoding of the reply that the transport gives to
    /// that request, or the transport's own error.
    pub fn order_send(&self, request: &TradeRequest) -> (r: Result<TradeResult, Mt5Error>)
        ensures
            !self.connected() ==> r matches Err(Mt5Error::NotInitialized),
            self.connected() ==> (r matches Ok(v) ==> exists|resp: Seq<u8>|
                #[trigger] self.answers(CMD_ORDER_SEND, trade_request_bytes(*request), resp) && resp.len() >= TRADE_RESULT_TOTAL && trade_result_at(v, resp)),
            self.connected() ==> (r matches Err(e) ==> self.refused(CMD_ORDER_SEND, trade_request_bytes(*request), e)
                || exists|resp: Seq<u8>|
                #[trigger] self.answers(CMD_ORDER_SEND, trade_request_bytes(*request), resp) && resp.len() < TRADE_RESULT_TOTAL && trade_result_error(resp, e)),
    {
        let data = encode_trade_request(request);
        let resp = self.send(CMD_ORDER_SEND, data.as_slice())?;
        let r = decode_trade_result(resp.as_slice());
        proof {
            let resp_view = resp@;
            assert(r matches Ok(v) ==> resp_view.len() >= TRADE_RESULT_TOTAL && trade_result_at(v, resp_view));
            assert(r matches Err(e) ==> resp_view.len() < TRADE_RESULT_TOTAL && trade_result_error(resp_view, e));
        }
        r
    }

    /// The last command error as `(code, message)`: `(0, "")` before any
    /// failure, `(-1, message)` after one. It reads client state only and
    /// sends nothing.
    pub fn last_error(&self) -> (r: Result<(i32, String), Mt5Error>)
        ensures
            r matches Ok((code, msg)) && ((code == 0 && msg@.len() == 0) || (code == -1 && msg@.len() > 0)),
    {
        proof {
            use_type_invariant(self);
        }
        let current = self.last_error.replace((0, String::new()));
        let copy = (current.0, current.1.clone());
        let _emptied = self.last_error.replace(current);
        Ok(copy)
    }
}

impl Default for Mt5Client {
    fn default() -> (c: Self)
        ensures
            !c.connected(),
    {
        Self::new()
    }
}

}
