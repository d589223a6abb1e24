use vstd::prelude::*;
use vstd::string::{StringExecFns, to_string_from_display_ensures};

verus! {

#[verifier::external_type_specification]
#[verifier::external_body]
pub struct ExIoError(std::io::Error);

/// Errors of the client and of the wire codec.
#[derive(Debug)]
pub enum Mt5Error {
    IoError(std::io::Error),
    ConnectionFailed(String),
    ProtocolError(String),
    InvalidResponse(String),
    NotInitialized,
    CommandFailed { cmd: u32, error: String },
    NotSupported(String),
}

/// `e` is an `InvalidResponse` error whose message is `m`.
pub open spec fn invalid_error(e: Mt5Error, m: Seq<char>) -> bool {
    e matches Mt5Error::InvalidResponse(s) && s@ == m
}

/// `t` is the text that `to_string` gives for `n`.
pub open spec fn decimal_u32(n: u32, t: Seq<char>) -> bool {
    exists|s: String| #[trigger] to_string_from_display_ensures::<u32>(&n, s) && s@ == t
}

/// `t` is the text that `to_string` gives for `n`.
pub open spec fn decimal_usize(n: usize, t: Seq<char>) -> bool {
    exists|s: String| #[trigger] to_string_from_display_ensures::<usize>(&n, s) && s@ == t
}

/// `Result` with the library's error type.
pub type Result<T> = core::result::Result<T, Mt5Error>;

impl Mt5Error {
    /// The human-readable description of the error.
    pub fn message(&self) -> (r: String)
        ensures
            r@.len() > 0,
            self matches Mt5Error::ConnectionFailed(s) ==> r@ == "Connection failed: "@ + s@,
            self matches Mt5Error::ProtocolError(s) ==> r@ == "Protocol error: "@ + s@,
            self matches Mt5Error::InvalidResponse(s) ==> r@ == "Invalid response: "@ + s@,
            self matches Mt5Error::NotInitialized ==> r@ == "MT5 not initialized"@,
            self matches Mt5Error::NotSupported(s) ==> r@ == "Not supported: "@ + s@,
            self matches Mt5Error::IoError(e) ==> exists|detail: String|
                to_string_from_display_ensures::<std::io::Error>(&e, detail) && r@ == "IO error: "@
                    + #[trigger] detail@,
            self matches Mt5Error::CommandFailed { cmd, error } ==> exists|code: String|
                to_string_from_display_ensures::<u32>(&cmd, code) && r@ == "Command failed: cmd="@
                    + #[trigger] code@ + ", error="@ + error@,
    {
        proof {
            reveal_strlit("Connection failed: ");
            reveal_strlit("Protocol error: ");
            reveal_strlit("Invalid response: ");
            reveal_strlit("MT5 not initialized");
            reveal_strlit("Not supported: ");
            reveal_strlit("IO error: ");
            reveal_strlit("Command failed: cmd=");
            reveal_strlit(", error=");
        }
        match self {
            Mt5Error::IoError(e) => {
                let detail = e.to_string();
                String::from_str("IO error: ").concat(detail.as_str())
            },
            Mt5Error::ConnectionFailed(s) => String::from_str("Connection failed: ").concat(s.as_str()),
            Mt5Error::ProtocolError(s) => String::from_str("Protocol error: ").concat(s.as_str()),
            Mt5Error::InvalidResponse(s) => String::from_str("Invalid response: ").concat(s.as_str()),
            Mt5Error::NotInitialized => String::from_str("MT5 not initialized"),
            Mt5Error::CommandFailed { cmd, error } => {
                let code = cmd.to_string();
                let head = String::from_str("Command failed: cmd=").concat(code.as_str());
                let r = head.concat(", error=").concat(error.as_str());
                r
            },
            Mt5Error::NotSupported(s) => String::from_str("Not supported: ").concat(s.as_str()),
        }
    }
}

}
