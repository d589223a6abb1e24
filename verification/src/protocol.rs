//! The transport to a terminal, and the names of the terminals' pipes.
use vstd::prelude::*;
use vstd::string::StringExecFns;
use sha2::Digest;
use vstd::bytes::{spec_u32_to_le_bytes, u32_from_le_bytes, u32_to_le_bytes};
use vstd::string::StrSliceExecFns;
use crate::error::{Mt5Error, decimal_u32, invalid_error};
use crate::reader::u32_at;
use crate::text::{encode_utf16, push_units_le, units_le, utf16_encode};

verus! {

/// Transport over the terminal's IPC pipe.
///
/// The named pipe of the application is the real implementation; tests
/// can put an in-memory mock in its place.
pub trait Transport: Send {
    /// `reply` is reply data that the terminal behind this transport may
    /// give to command `cmd` with payload `data`. A transport that does not
    /// describe its terminal may give any reply.
    open spec fn replies(&self, cmd: u32, data: Seq<u8>, reply: Seq<u8>) -> bool {
        true
    }

    /// `e` is an error that this transport may report when it sends command
    /// `cmd` with payload `data`. A transport that does not describe itself
    /// may report any error.
    open spec fn refuses(&self, cmd: u32, data: Seq<u8>, e: Mt5Error) -> bool {
        true
    }

    /// Sends command `cmd` with payload `data` and returns the reply data
    /// (after the 8-byte command echo and status header).
    fn send(&self, cmd: u32, data: &[u8]) -> (r: Result<Vec<u8>, Mt5Error>)
        ensures
            r matches Ok(v) ==> self.replies(cmd, data@, v@),
            r matches Err(e) ==> self.refuses(cmd, data@, e),
    ;
}

/// The text that `str::to_lowercase` makes of `s` (Unicode lowercase mapping).
pub uninterp spec fn lowercase(s: Seq<char>) -> Seq<char>;

/// Calls `str::to_lowercase`; trusted to return `lowercase(s)`.
#[verifier::external_body]
fn str_to_lowercase(s: &str) -> (r: String)
    ensures
        r@ == lowercase(s@),
{
    s.to_lowercase()
}

/// The SHA-256 digest of `data`.
pub uninterp spec fn sha256(data: Seq<u8>) -> Seq<u8>;

/// Calls `sha2::Sha256::digest`; trusted to return `sha256(data)`, which is
/// 32 bytes long.
#[verifier::external_body]
fn sha256_digest(data: &[u8]) -> (d: Vec<u8>)
    ensures
        d@ == sha256(data@),
        d@.len() == 32,
{
    sha2::Sha256::digest(data).to_vec()
}

/// The uppercase hexadecimal digit for `n` (below 16).
pub open spec fn hex_digit_upper(n: u8) -> char {
    if n < 10 {
        (48 + n) as char
    } else {
        (55 + n) as char
    }
}

/// Uppercase hexadecimal text of `b`: two digits per byte, high nibble first.
pub open spec fn hex_upper(b: Seq<u8>) -> Seq<char>
    decreases b.len(),
{
    if b.len() == 0 {
        Seq::empty()
    } else {
        hex_upper(b.drop_last()) + seq![hex_digit_upper(b.last() / 16), hex_digit_upper(b.last() % 16)]
    }
}

/// Hexadecimal text has two digits per byte.
pub proof fn lemma_hex_upper_len(b: Seq<u8>)
    ensures
        hex_upper(b).len() == 2 * b.len(),
    decreases b.len(),
{
    if b.len() > 0 {
        lemma_hex_upper_len(b.drop_last());
    }
}

/// Whether `c` is an uppercase hexadecimal digit (`0`-`9`, `A`-`F`).
pub open spec fn is_hex_digit_upper(c: char) -> bool {
    ('0' <= c && c <= '9') || ('A' <= c && c <= 'F')
}

/// Hexadecimal text holds only the digits `0`-`9` and `A`-`F`.
pub proof fn lemma_hex_upper_digits(b: Seq<u8>)
    ensures
        forall|i: int| 0 <= i < hex_upper(b).len() ==> is_hex_digit_upper(#[trigger] hex_upper(b)[i]),
    decreases b.len(),
{
    if b.len() > 0 {
        lemma_hex_upper_digits(b.drop_last());
        lemma_hex_upper_len(b.drop_last());
        let hi = hex_digit_upper(b.last() / 16);
        let lo = hex_digit_upper(b.last() % 16);
        assert(is_hex_digit_upper(hi));
        assert(is_hex_digit_upper(lo));
        let h = hex_upper(b);
        assert forall|i: int| 0 <= i < h.len() implies is_hex_digit_upper(#[trigger] h[i]) by {
            if i < hex_upper(b.drop_last()).len() {
                assert(h[i] == hex_upper(b.drop_last())[i]);
            }
        }
    }
}

/// Calls `hex::encode_upper`; trusted to return `hex_upper(data)`, as its
/// source (a table lookup of each nibble, high nibble first) shows.
#[verifier::external_body]
fn hex_encode_upper(data: &[u8]) -> (s: String)
    ensures
        s@ == hex_upper(data@),
{
    hex::encode_upper(data)
}

/// The prefix that the terminal puts before its lowercased path when it
/// names its pipe.
pub open spec fn long_path_prefix() -> Seq<char> {
    seq!['\\', '\\', '?', '\\']
}

/// The prefix of every terminal pipe name.
pub open spec fn pipe_prefix() -> Seq<char> {
    "\\\\.\\pipe\\MT5.Terminal."@
}

/// The pipe of the terminal installed at `path`: the prefix, then the
/// uppercase hex SHA-256 of the UTF-16LE bytes of `\\?\` and the lowercased path.
pub open spec fn pipe_name_spec(path: Seq<char>) -> Seq<char> {
    pipe_prefix() + hex_upper(
        sha256(units_le(utf16_encode(long_path_prefix() + lowercase(path)))),
    )
}

/// Paths that differ only in case name the same pipe.
pub proof fn lemma_pipe_name_ignores_case(a: Seq<char>, b: Seq<char>)
    requires
        lowercase(a) == lowercase(b),
    ensures
        pipe_name_spec(a) == pipe_name_spec(b),
{
}

/// The pipe name of the terminal whose executable is at `terminal_path`;
/// it is 86 characters long (the 22-character prefix and 64 hex digits).
pub fn compute_pipe_name(terminal_path: &str) -> (name: String)
    ensures
        name@ == pipe_name_spec(terminal_path@),
        name@.len() == 86,
        name@.subrange(0, 22) == pipe_prefix(),
        forall|i: int| 22 <= i < 86 ==> is_hex_digit_upper(#[trigger] name@[i]),
{
    proof {
        reveal_strlit("\\\\?\\");
        reveal_strlit("\\\\.\\pipe\\MT5.Terminal.");
    }
    let lower = str_to_lowercase(terminal_path);
    let input = String::from_str("\\\\?\\").concat(lower.as_str());
    assert(input@ == long_path_prefix() + lowercase(terminal_path@));
    let units = encode_utf16(input.as_str());
    let mut buf: Vec<u8> = Vec::new();
    push_units_le(&mut buf, &units);
    assert(buf@ == units_le(utf16_encode(input@)));
    let digest = sha256_digest(buf.as_slice());
    let hex = hex_encode_upper(digest.as_slice());
    proof {
        lemma_hex_upper_len(digest@);
        lemma_hex_upper_digits(digest@);
    }
    let name = String::from_str("\\\\.\\pipe\\MT5.Terminal.").concat(hex.as_str());
    proof {
        assert(name@.subrange(0, 22) == pipe_prefix());
        assert forall|i: int| 22 <= i < 86 implies is_hex_digit_upper(#[trigger] name@[i]) by {
            assert(name@[i] == hex@[i - 22]);
        }
    }
    name
}

/// `probe` may answer `answer` for a pipe named `name`.
pub open spec fn probe_may_answer<F: Fn(&str) -> bool>(probe: F, name: Seq<char>, answer: bool) -> bool {
    exists|s: &str| s@ == name && #[trigger] call_ensures(probe, (s,), answer)
}

/// Of the terminals installed at `paths`, in order, the pipe name of the
/// first whose pipe `responds` (a probe that tries to connect to it);
/// `None` when no pipe responds.
pub fn discover_mt5_pipe<F: Fn(&str) -> bool>(paths: &Vec<String>, responds: F) -> (r: Option<String>)
    requires
        forall|s: &str| call_requires(responds, (s,)),
    ensures
        r matches Some(n) ==> n@.len() == 86,
        r matches Some(n) ==> exists|i: int|
            0 <= i < paths@.len() && n@ == pipe_name_spec(#[trigger] paths@[i]@)
                && probe_may_answer(responds, n@, true)
                && forall|j: int| 0 <= j < i ==> probe_may_answer(responds, pipe_name_spec(#[trigger] paths@[j]@), false),
        r is None ==> forall|j: int|
            0 <= j < paths@.len() ==> probe_may_answer(responds, pipe_name_spec(#[trigger] paths@[j]@), false),
{
    let mut i: usize = 0;
    while i < paths.len()
        invariant
            i <= paths@.len(),
            forall|s: &str| call_requires(responds, (s,)),
            forall|j: int| 0 <= j < i ==> probe_may_answer(responds, pipe_name_spec(#[trigger] paths@[j]@), false),
        decreases paths@.len() - i,
    {
        let name = compute_pipe_name(paths[i].as_str());
        let answer = responds(name.as_str());
        assert(probe_may_answer(responds, name@, answer));
        if answer {
            assert(name@ == pipe_name_spec(paths@[i as int]@));
            return Some(name);
        }
        i = i + 1;
    }
    None
}


/// A request frame on the pipe: the length of what follows (4 + payload) as
/// a little-endian `u32`, the command as a little-endian `u32`, the payload.
pub open spec fn frame_bytes(cmd: u32, data: Seq<u8>) -> Seq<u8> {
    spec_u32_to_le_bytes((4 + data.len()) as u32) + spec_u32_to_le_bytes(cmd) + data
}

/// Frames command `cmd` with payload `data` for the pipe.
pub fn frame_request(cmd: u32, data: &[u8]) -> (frame: Vec<u8>)
    requires
        data@.len() + 4 <= usize::MAX,
    ensures
        frame@ == frame_bytes(cmd, data@),
{
    let total_len = (data.len() + 4) as u32;
    let mut frame = u32_to_le_bytes(total_len);
    let mut c = u32_to_le_bytes(cmd);
    frame.append(&mut c);
    let mut rest = vstd::slice::slice_to_vec(data);
    frame.append(&mut rest);
    frame
}

/// Size of the header (command echo and status) that opens every reply.
pub const REPLY_HEADER_LEN: usize = 8;

/// The payload length announced by the 4-byte prefix of a reply; a payload
/// too small for the reply header is refused.
pub fn reply_payload_len(len_buf: &[u8]) -> (r: Result<usize, Mt5Error>)
    requires
        len_buf@.len() == 4,
    ensures
        r is Ok <==> u32_at(len_buf@, 0) >= REPLY_HEADER_LEN,
        r matches Ok(n) ==> n == u32_at(len_buf@, 0),
        r matches Err(e) ==> exists|t: Seq<char>| decimal_u32(u32_at(len_buf@, 0), t)
            && invalid_error(e, "Payload too small: "@ + t + " bytes"@),
{
    assert(len_buf@.subrange(0, 4) == len_buf@);
    let n = u32_from_le_bytes(len_buf);
    if (n as u64) < (REPLY_HEADER_LEN as u64) {
        let n_text = n.to_string();
        let mut msg = String::from_str("Payload too small: ");
        msg.append(n_text.as_str());
        msg.append(" bytes");
        assert(decimal_u32(n, n_text@));
        return Err(Mt5Error::InvalidResponse(msg));
    }
    Ok(n as usize)
}

/// The data of a reply payload: what follows its 8-byte header.
pub fn reply_data(payload: &[u8]) -> (data: Vec<u8>)
    ensures
        data@ == (if payload@.len() > REPLY_HEADER_LEN {
            payload@.subrange(REPLY_HEADER_LEN as int, payload@.len() as int)
        } else {
            Seq::<u8>::empty()
        }),
{
    if payload.len() > REPLY_HEADER_LEN {
        vstd::slice::slice_to_vec(vstd::slice::slice_subrange(payload, REPLY_HEADER_LEN, payload.len()))
    } else {
        Vec::new()
    }
}

/// `s` without its trailing NUL characters.
pub open spec fn trim_trailing_nuls(s: Seq<char>) -> Seq<char>
    decreases s.len(),
{
    if s.len() > 0 && s.last() == '\0' {
        trim_trailing_nuls(s.drop_last())
    } else {
        s
    }
}

/// Whether a process whose executable file name (NUL-padded) is `exe_name`
/// is a 64-bit terminal: the name, without trailing NULs and lowercased, is
/// `terminal64.exe`.
pub fn is_terminal_exe(exe_name: &str) -> (r: bool)
    ensures
        r == (lowercase(trim_trailing_nuls(exe_name@)) == "terminal64.exe"@),
{
    let n = exe_name.unicode_len();
    let mut end: usize = n;
    assert(exe_name@.subrange(0, n as int) == exe_name@);
    while end > 0 && exe_name.get_char(end - 1) == '\0'
        invariant
            end <= n,
            n == exe_name@.len(),
            trim_trailing_nuls(exe_name@.subrange(0, end as int)) == trim_trailing_nuls(exe_name@),
        decreases end,
    {
        assert(exe_name@.subrange(0, end as int).drop_last() == exe_name@.subrange(0, end - 1));
        end = end - 1;
    }
    let trimmed = exe_name.substring_char(0, end);
    assert(trimmed@ == trim_trailing_nuls(exe_name@)) by {
        assert(trim_trailing_nuls(exe_name@.subrange(0, end as int)) == exe_name@.subrange(0, end as int));
    }
    let lower = str_to_lowercase(trimmed);
    let expected = String::from_str("terminal64.exe");
    lower == expected
}

/// Whether one of `paths` is the text `p`.
pub open spec fn holds_path(paths: Seq<String>, p: Seq<char>) -> bool {
    exists|j: int| 0 <= j < paths.len() && (#[trigger] paths[j])@ == p
}

/// Adds `path` to `paths` unless it is already there, so that the list keeps
/// each path once, in order of first sight. The list itself is searched:
/// vstd specifies hash-set membership only for integer and `bool` keys, not
/// for `String`.
pub fn add_unique_path(paths: &mut Vec<String>, path: String)
    ensures
        holds_path(old(paths)@, path@) ==> final(paths)@ == old(paths)@,
        !holds_path(old(paths)@, path@) ==> final(paths)@ == old(paths)@.push(path),
{
    let mut i: usize = 0;
    while i < paths.len()
        invariant
            i <= paths@.len(),
            paths@ == old(paths)@,
            forall|j: int| 0 <= j < i ==> (#[trigger] paths@[j])@ != path@,
        decreases paths@.len() - i,
    {
        if paths[i] == path {
            assert(paths@[i as int]@ == path@);
            return;
        }
        i = i + 1;
    }
    paths.push(path);
}

}
