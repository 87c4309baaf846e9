//! The bytes of the push protocol: what the client writes, and how what
//! it reads is taken apart.

use crate::clock::{
    chrono_format_utc, chrono_parse_datetime, datetime_from_text, instant_text,
};
use crate::text::digit_char;
use crate::wni::WniError;
use rand::seq::SliceRandom;
use vstd::prelude::*;
use vstd::slice::{slice_subrange, slice_to_vec};
use vstd::utf8::encode_utf8;

verus! {

/// Start of the payload of a data block.
pub const STX: u8 = 0x02;

/// End of the payload of a data block.
pub const ETX: u8 = 0x03;

pub const LF: u8 = 0x0a;

pub const BACKSLASH: u8 = 0x5c;

/// Read and write timeout of a connection.
pub const CONNECTION_TIMEOUT_SECS: u64 = 180;

/// The longest delay, in milliseconds, after which a connection still counts as fast.
pub const DELAY_THRESHOLD_MS: i64 = 2000;

// ---------------------------------------------------------------------------
// Bytes
// ---------------------------------------------------------------------------
pub fn bytes_eq(a: &[u8], b: &[u8]) -> (r: bool)
    ensures
        r == (a@ == b@),
{
    if a.len() != b.len() {
        return false;
    }
    let mut i: usize = 0;
    while i < a.len()
        invariant
            i <= a.len(),
            a.len() == b.len(),
            forall|k: int| 0 <= k < i ==> a@[k] == b@[k],
        decreases a.len() - i,
    {
        if a[i] != b[i] {
            return false;
        }
        i = i + 1;
    }
    assert(a@ =~= b@);
    true
}

pub open spec fn starts_with(line: Seq<u8>, prefix: Seq<u8>) -> bool {
    line.len() >= prefix.len() && line.subrange(0, prefix.len() as int) == prefix
}

fn has_prefix(line: &[u8], prefix: &[u8]) -> (r: bool)
    ensures
        r == starts_with(line@, prefix@),
{
    if line.len() < prefix.len() {
        return false;
    }
    bytes_eq(slice_subrange(line, 0, prefix.len()), prefix)
}

// ---------------------------------------------------------------------------
// Server discovery
// ---------------------------------------------------------------------------
/// Length of the first line of `s`: the number of bytes in front of the
/// first line feed, or all of them.
pub open spec fn line_end(s: Seq<u8>) -> int
    decreases s.len(),
{
    if s.len() == 0 || s[0] == LF {
        0
    } else {
        1 + line_end(s.drop_first())
    }
}

proof fn lemma_line_end(s: Seq<u8>, k: int)
    requires
        0 <= k <= s.len(),
        forall|i: int| 0 <= i < k ==> s[i] != LF,
        k == s.len() || s[k] == LF,
    ensures
        line_end(s) == k,
    decreases s.len(),
{
    if k > 0 {
        lemma_line_end(s.drop_first(), k - 1);
    }
}

proof fn lemma_line_end_bound(s: Seq<u8>)
    ensures
        0 <= line_end(s) <= s.len(),
    decreases s.len(),
{
    if !(s.len() == 0 || s[0] == LF) {
        lemma_line_end_bound(s.drop_first());
    }
}

/// The entries of a server list: its lines, separated by line feeds,
/// without the empty ones.
pub open spec fn server_entries(s: Seq<u8>) -> Seq<Seq<u8>>
    decreases s.len(),
    via server_entries_decreases
{
    if s.len() == 0 {
        Seq::empty()
    } else {
        let n = line_end(s);
        let rest = if n < s.len() {
            s.subrange(n + 1, s.len() as int)
        } else {
            Seq::empty()
        };
        if n > 0 {
            seq![s.subrange(0, n)] + server_entries(rest)
        } else {
            server_entries(rest)
        }
    }
}

#[via_fn]
proof fn server_entries_decreases(s: Seq<u8>) {
    lemma_line_end_bound(s);
}

/// Splits the body of a server list into its entries.
pub fn split_server_list(body: &[u8]) -> (r: Vec<Vec<u8>>)
    ensures
        r@.map_values(|e: Vec<u8>| e@) == server_entries(body@),
{
    let mut out: Vec<Vec<u8>> = Vec::new();
    let n = body.len();
    let mut start: usize = 0;
    let mut i: usize = 0;
    let ghost views = |e: Vec<u8>| e@;
    assert(out@.map_values(views) =~= Seq::<Seq<u8>>::empty());
    assert(body@.subrange(0, n as int) =~= body@);
    while start < n
        invariant
            start <= i <= n,
            n == body.len(),
            forall|k: int| start <= k < i ==> body@[k] != LF,
            server_entries(body@) == out@.map_values(|e: Vec<u8>| e@) + server_entries(
                body@.subrange(start as int, n as int),
            ),
        decreases n - start, n - i,
    {
        if i < n && body[i] != LF {
            i = i + 1;
        } else {
            let ghost tail = body@.subrange(start as int, n as int);
            proof {
                assert forall|k: int| 0 <= k < i - start implies tail[k] != LF by {
                    assert(tail[k] == body@[start + k]);
                }
                lemma_line_end(tail, i - start);
            }
            let next: usize = if i < n {
                i + 1
            } else {
                n
            };
            proof {
                if i < n {
                    assert(tail.subrange(i - start + 1, tail.len() as int) =~= body@.subrange(
                        next as int,
                        n as int,
                    ));
                } else {
                    assert(body@.subrange(next as int, n as int) =~= Seq::<u8>::empty());
                    assert(server_entries(Seq::<u8>::empty()) =~= Seq::<Seq<u8>>::empty());
                }
            }
            if i > start {
                let entry = slice_to_vec(slice_subrange(body, start, i));
                proof {
                    assert(tail.subrange(0, i - start) =~= body@.subrange(start as int, i as int));
                    assert(out@.push(entry).map_values(|e: Vec<u8>| e@) =~= out@.map_values(
                        |e: Vec<u8>| e@,
                    ).push(entry@));
                    let rest = server_entries(body@.subrange(next as int, n as int));
                    assert(out@.map_values(|e: Vec<u8>| e@) + (seq![entry@] + rest)
                        =~= out@.map_values(|e: Vec<u8>| e@).push(entry@) + rest);
                }
                out.push(entry);
            }
            start = next;
            i = next;
        }
    }
    proof {
        assert(body@.subrange(n as int, n as int) =~= Seq::<u8>::empty());
        assert(out@.map_values(|e: Vec<u8>| e@) + Seq::<Seq<u8>>::empty() =~= out@.map_values(
            |e: Vec<u8>| e@,
        ));
    }
    out
}

/// Draws one entry with rand's `SliceRandom::choose` and the thread's
/// generator. Trusted: nothing comes back for an empty list, and what comes
/// back for any other list is one of its entries; which one is left open.
#[verifier::external_body]
fn choose_entry(servers: &Vec<Vec<u8>>) -> (r: Option<&Vec<u8>>)
    ensures
        servers@.len() == 0 ==> r is None,
        servers@.len() > 0 ==> r is Some,
        r matches Some(s) ==> exists|i: int| 0 <= i < servers@.len() && servers@[i] == *s,
{
    servers.choose(&mut rand::thread_rng())
}

/// What server discovery returns for a drawn entry: the entry, or a
/// network error where nothing could be drawn.
pub fn chosen_server(choice: Option<&Vec<u8>>) -> (r: Result<Vec<u8>, WniError>)
    ensures
        match choice {
            Some(s) => r matches Ok(v) && v@ == s@,
            None => r == Err::<Vec<u8>, WniError>(WniError::Network),
        },
{
    match choice {
        Some(s) => Ok(slice_to_vec(s.as_slice())),
        None => Err(WniError::Network),
    }
}

/// Picks a server from the body of a server list, any of its entries with
/// equal chance. A list without entries gives a network error.
pub fn select_server(body: &[u8]) -> (r: Result<Vec<u8>, WniError>)
    ensures
        match r {
            Ok(server) => exists|i: int|
                0 <= i < server_entries(body@).len() && server_entries(body@)[i] == server@,
            Err(e) => e == WniError::Network && server_entries(body@).len() == 0,
        },
{
    let servers = split_server_list(body);
    let choice = choose_entry(&servers);
    proof {
        let views = servers@.map_values(|e: Vec<u8>| e@);
        assert(views.len() == servers@.len());
        if let Some(s) = choice {
            let i = choose|i: int| 0 <= i < servers@.len() && servers@[i] == *s;
            assert(views[i] == s@);
        }
    }
    chosen_server(choice)
}

// ---------------------------------------------------------------------------
// What the client sends
// ---------------------------------------------------------------------------
pub open spec fn hex_char(d: int) -> char
    recommends
        0 <= d < 16,
{
    if d < 10 {
        digit_char(d)
    } else if d == 10 {
        'a'
    } else if d == 11 {
        'b'
    } else if d == 12 {
        'c'
    } else if d == 13 {
        'd'
    } else if d == 14 {
        'e'
    } else {
        'f'
    }
}

fn char_of_hex(d: u8) -> (c: char)
    requires
        d < 16,
    ensures
        c == hex_char(d as int),
{
    if d == 0 {
        '0'
    } else if d == 1 {
        '1'
    } else if d == 2 {
        '2'
    } else if d == 3 {
        '3'
    } else if d == 4 {
        '4'
    } else if d == 5 {
        '5'
    } else if d == 6 {
        '6'
    } else if d == 7 {
        '7'
    } else if d == 8 {
        '8'
    } else if d == 9 {
        '9'
    } else if d == 10 {
        'a'
    } else if d == 11 {
        'b'
    } else if d == 12 {
        'c'
    } else if d == 13 {
        'd'
    } else if d == 14 {
        'e'
    } else {
        'f'
    }
}

/// A byte as two lower-case hexadecimal digits.
pub open spec fn hex_pair(b: u8) -> Seq<char> {
    seq![hex_char(b as int / 16), hex_char(b as int % 16)]
}

/// Bytes in lower-case hexadecimal notation.
pub open spec fn hex_text(data: Seq<u8>) -> Seq<char>
    decreases data.len(),
{
    if data.len() == 0 {
        Seq::empty()
    } else {
        hex_text(data.drop_last()) + hex_pair(data.last())
    }
}

pub fn to_hex(data: &[u8]) -> (r: String)
    ensures
        r@ == hex_text(data@),
{
    let mut out = String::new();
    let mut i: usize = 0;
    assert(data@.subrange(0, 0) =~= Seq::<u8>::empty());
    while i < data.len()
        invariant
            i <= data.len(),
            out@ == hex_text(data@.subrange(0, i as int)),
        decreases data.len() - i,
    {
        let b = data[i];
        out.push(char_of_hex(b / 16));
        out.push(char_of_hex(b % 16));
        proof {
            let p = data@.subrange(0, i + 1);
            assert(p.drop_last() =~= data@.subrange(0, i as int));
            assert(out@ =~= hex_text(p.drop_last()) + hex_pair(p.last()));
        }
        i = i + 1;
    }
    assert(data@.subrange(0, data.len() as int) =~= data@);
    out
}

/// The MD5 digest of a message.
pub uninterp spec fn md5_digest(data: Seq<u8>) -> Seq<u8>;

/// Computes the digest with the md5 crate's `compute`. Trusted: the result
/// depends on the message alone and is sixteen bytes long.
#[verifier::external_body]
fn md5_of(data: &[u8]) -> (r: [u8; 16])
    ensures
        r@ == md5_digest(data@),
{
    md5::compute(data).0
}

/// The form in which a password goes over the wire: the MD5 digest of its
/// bytes in lower-case hexadecimal notation.
pub open spec fn hashed_password_text(password: Seq<char>) -> Seq<char> {
    hex_text(md5_digest(encode_utf8(password)))
}

pub fn hash_password(password: &str) -> (r: String)
    ensures
        r@ == hashed_password_text(password@),
{
    let digest = md5_of(password.as_bytes());
    to_hex(digest.as_slice())
}

/// The text of an instant in the `Date` header.
pub open spec fn header_date_text(secs: i64, nanos: u32) -> Option<Seq<char>> {
    instant_text(secs, nanos, "%a, %d %b %Y %T%.6f UTC"@)
}

pub fn to_header_date(secs: i64, nanos: u32) -> (r: Option<String>)
    ensures
        match r {
            Some(s) => header_date_text(secs, nanos) == Some(s@),
            None => header_date_text(secs, nanos) is None,
        },
{
    chrono_format_utc(secs, nanos, "%a, %d %b %Y %T%.6f UTC")
}

/// The text of an instant in the `X-WNI-Time` header.
pub open spec fn wni_time_text(secs: i64, nanos: u32) -> Option<Seq<char>> {
    instant_text(secs, nanos, "%Y/%m/%d %T%.6f"@)
}

pub fn to_wni_time(secs: i64, nanos: u32) -> (r: Option<String>)
    ensures
        match r {
            Some(s) => wni_time_text(secs, nanos) == Some(s@),
            None => wni_time_text(secs, nanos) is None,
        },
{
    chrono_format_utc(secs, nanos, "%Y/%m/%d %T%.6f")
}

/// The instant that a `Date` header names.
pub open spec fn spec_from_header_date(txt: Seq<u8>) -> Option<(i64, u32)> {
    datetime_from_text(txt, 0, "%a, %d %b %Y %T%.6f UTC"@)
}

pub fn from_header_date(txt: &[u8]) -> (r: Option<(i64, u32)>)
    ensures
        r == spec_from_header_date(txt@),
{
    chrono_parse_datetime(txt, 0, "%a, %d %b %Y %T%.6f UTC")
}

/// The instant that an `X-WNI-Time` header names.
pub open spec fn spec_from_wni_time(txt: Seq<u8>) -> Option<(i64, u32)> {
    datetime_from_text(txt, 0, "%Y/%m/%d %T%.6f"@)
}

pub fn from_wni_time(txt: &[u8]) -> (r: Option<(i64, u32)>)
    ensures
        r == spec_from_wni_time(txt@),
{
    chrono_parse_datetime(txt, 0, "%Y/%m/%d %T%.6f")
}

/// The block that opens a session.
pub open spec fn login_request_text(
    wni_id: Seq<char>,
    wni_terminal_id: Seq<char>,
    hashed_password: Seq<char>,
    date: Seq<char>,
    time: Seq<char>,
) -> Seq<char> {
    "GET /login HTTP/1.0\nAccept: */*\nAccept-Language: ja\nCache-Control: no-cache\nDate: "@ + date
        + "\nUser-Agent: FastCaster/1.0 powered by Weathernews.\nX-WNI-Account: "@ + wni_id
        + "\nX-WNI-Application-Version: 2.4.2\nX-WNI-Authentication-Method: MDB_MWS\nX-WNI-ID: Login\nX-WNI-Password: "@
        + hashed_password + "\nX-WNI-Protocol-Version: 2.1\nX-WNI-Terminal-ID: "@ + wni_terminal_id
        + "\nX-WNI-Time: "@ + time + "\n\n"@
}

pub fn build_login_request(
    wni_id: &str,
    wni_terminal_id: &str,
    hashed_password: &str,
    date: &str,
    time: &str,
) -> (r: String)
    ensures
        r@ == login_request_text(wni_id@, wni_terminal_id@, hashed_password@, date@, time@),
{
    let mut out = String::from_str(
        "GET /login HTTP/1.0\nAccept: */*\nAccept-Language: ja\nCache-Control: no-cache\nDate: ",
    );
    out.append(date);
    out.append("\nUser-Agent: FastCaster/1.0 powered by Weathernews.\nX-WNI-Account: ");
    out.append(wni_id);
    out.append(
        "\nX-WNI-Application-Version: 2.4.2\nX-WNI-Authentication-Method: MDB_MWS\nX-WNI-ID: Login\nX-WNI-Password: ",
    );
    out.append(hashed_password);
    out.append("\nX-WNI-Protocol-Version: 2.1\nX-WNI-Terminal-ID: ");
    out.append(wni_terminal_id);
    out.append("\nX-WNI-Time: ");
    out.append(time);
    out.append("\n\n");
    out
}

/// The block with which the client answers a keep-alive or a data block.
pub open spec fn response_text(date: Seq<char>, time: Seq<char>) -> Seq<char> {
    "HTTP/1.0 200 OK\nContent-Type: application/fast-cast\nDate: "@ + date
        + "\nServer: FastCaster/1.0.0 (Unix)\nX-WNI-ID: Response\nX-WNI-Protocol-Version: 2.1\nX-WNI-Result: OK\nX-WNI-Time: "@
        + time + "\n\n"@
}

pub fn build_response(date: &str, time: &str) -> (r: String)
    ensures
        r@ == response_text(date@, time@),
{
    let mut out = String::from_str(
        "HTTP/1.0 200 OK\nContent-Type: application/fast-cast\nDate: ",
    );
    out.append(date);
    out.append(
        "\nServer: FastCaster/1.0.0 (Unix)\nX-WNI-ID: Response\nX-WNI-Protocol-Version: 2.1\nX-WNI-Result: OK\nX-WNI-Time: ",
    );
    out.append(time);
    out.append("\n\n");
    out
}

/// The login request for the given account at the given instant; nothing
/// where the instant cannot be written.
pub fn login_request_at(
    wni_id: &str,
    wni_terminal_id: &str,
    wni_password: &str,
    secs: i64,
    nanos: u32,
) -> (r: Option<String>)
    ensures
        match (header_date_text(secs, nanos), wni_time_text(secs, nanos)) {
            (Some(date), Some(time)) => r matches Some(s) && s@ == login_request_text(
                wni_id@,
                wni_terminal_id@,
                hashed_password_text(wni_password@),
                date,
                time,
            ),
            _ => r is None,
        },
{
    let date = match to_header_date(secs, nanos) {
        Some(d) => d,
        None => return None,
    };
    let time = match to_wni_time(secs, nanos) {
        Some(t) => t,
        None => return None,
    };
    let hashed = hash_password(wni_password);
    Some(
        build_login_request(
            wni_id,
            wni_terminal_id,
            hashed.as_str(),
            date.as_str(),
            time.as_str(),
        ),
    )
}

/// The response block at the given instant; nothing where the instant
/// cannot be written.
pub fn response_at(secs: i64, nanos: u32) -> (r: Option<String>)
    ensures
        match (header_date_text(secs, nanos), wni_time_text(secs, nanos)) {
            (Some(date), Some(time)) => r matches Some(s) && s@ == response_text(date, time),
            _ => r is None,
        },
{
    let date = match to_header_date(secs, nanos) {
        Some(d) => d,
        None => return None,
    };
    let time = match to_wni_time(secs, nanos) {
        Some(t) => t,
        None => return None,
    };
    Some(build_response(date.as_str(), time.as_str()))
}

// ---------------------------------------------------------------------------
// The wire log
// ---------------------------------------------------------------------------
pub open spec fn is_plain(b: u8) -> bool {
    b < 0x80 && b != BACKSLASH
}

/// One byte as it is shown in the wire log: itself where it is ASCII and no
/// backslash, and `\xNN` otherwise.
pub open spec fn escaped_byte(b: u8) -> Seq<char> {
    if is_plain(b) {
        seq![b as char]
    } else {
        seq!['\\', 'x'] + hex_pair(b)
    }
}

pub open spec fn escaped_text(data: Seq<u8>) -> Seq<char>
    decreases data.len(),
{
    if data.len() == 0 {
        Seq::empty()
    } else {
        escaped_text(data.drop_last()) + escaped_byte(data.last())
    }
}

/// A line without the line feed at its end, if it has one.
pub open spec fn without_final_lf(data: Seq<u8>) -> Seq<u8> {
    if data.len() > 0 && data.last() == LF {
        data.drop_last()
    } else {
        data
    }
}

pub fn from_data_to_string(raw: &[u8]) -> (r: String)
    ensures
        r@ == escaped_text(raw@),
{
    let mut out = String::new();
    let mut i: usize = 0;
    assert(raw@.subrange(0, 0) =~= Seq::<u8>::empty());
    while i < raw.len()
        invariant
            i <= raw.len(),
            out@ == escaped_text(raw@.subrange(0, i as int)),
        decreases raw.len() - i,
    {
        let b = raw[i];
        let ghost before = out@;
        if b < 0x80 && b != BACKSLASH {
            out.push(b as char);
            assert(out@ =~= before + escaped_byte(b));
        } else {
            out.push('\\');
            out.push('x');
            out.push(char_of_hex(b / 16));
            out.push(char_of_hex(b % 16));
            assert(out@ =~= before + escaped_byte(b));
        }
        proof {
            let p = raw@.subrange(0, i + 1);
            assert(p.drop_last() =~= raw@.subrange(0, i as int));
        }
        i = i + 1;
    }
    assert(raw@.subrange(0, raw.len() as int) =~= raw@);
    out
}

/// The entry of the wire log for one piece of received data.
pub fn log_line(data: &[u8]) -> (r: String)
    ensures
        r@ == escaped_text(without_final_lf(data@)),
{
    let n = data.len();
    let right: usize = if n > 0 && data[n - 1] == LF {
        n - 1
    } else {
        n
    };
    let shown = slice_subrange(data, 0, right);
    assert(shown@ =~= without_final_lf(data@));
    from_data_to_string(shown)
}

// ---------------------------------------------------------------------------
// What the client receives
// ---------------------------------------------------------------------------
/// How a read up to a marker byte ended.
#[derive(Copy, Clone, Eq, PartialEq, Debug, Structural)]
pub enum ReadOutcome {
    /// The read failed.
    Failed,
    /// The read returned this many bytes.
    Got(usize),
}

/// The verdict on a read up to `marker`: a failure is a network error, and
/// data that is empty or does not end in the marker means that the peer
/// closed the connection.
pub open spec fn spec_check_read(outcome: ReadOutcome, buf: Seq<u8>, marker: u8) -> Result<(), WniError> {
    match outcome {
        ReadOutcome::Failed => Err(WniError::Network),
        ReadOutcome::Got(n) => if n == 0 || buf.len() == 0 || buf.last() != marker {
            Err(WniError::ConnectionClosed)
        } else {
            Ok(())
        },
    }
}

pub fn check_read(outcome: ReadOutcome, buf: &[u8], marker: u8) -> (r: Result<(), WniError>)
    ensures
        r == spec_check_read(outcome, buf@, marker),
{
    match outcome {
        ReadOutcome::Failed => Err(WniError::Network),
        ReadOutcome::Got(n) => if n == 0 || buf.len() == 0 || buf[buf.len() - 1] != marker {
            Err(WniError::ConnectionClosed)
        } else {
            Ok(())
        },
    }
}

/// What a line that was read up to its line feed adds to a header block:
/// the line without the line feed, or nothing where the line is empty,
/// which ends the block.
pub open spec fn spec_header_line(buf: Seq<u8>) -> Option<Seq<u8>> {
    if buf.len() <= 1 {
        None
    } else {
        Some(buf.drop_last())
    }
}

pub fn header_line(buf: Vec<u8>) -> (r: Option<Vec<u8>>)
    ensures
        match r {
            Some(line) => spec_header_line(buf@) == Some(line@),
            None => spec_header_line(buf@) is None,
        },
{
    let mut line = buf;
    if line.len() <= 1 {
        return None;
    }
    line.pop();
    assert(line@ =~= buf@.drop_last());
    Some(line)
}

pub open spec fn lines_of(headers: Seq<Vec<u8>>) -> Seq<Seq<u8>> {
    headers.map_values(|h: Vec<u8>| h@)
}

/// Some line of the block is exactly `line`.
pub open spec fn has_line(headers: Seq<Seq<u8>>, line: Seq<u8>) -> bool {
    exists|i: int| 0 <= i < headers.len() && #[trigger] headers[i] == line
}

fn contains_line(headers: &Vec<Vec<u8>>, line: &[u8]) -> (r: bool)
    ensures
        r == has_line(lines_of(headers@), line@),
{
    let mut i: usize = 0;
    while i < headers.len()
        invariant
            i <= headers@.len(),
            forall|k: int| 0 <= k < i ==> lines_of(headers@)[k] != line@,
        decreases headers@.len() - i,
    {
        if bytes_eq(headers[i].as_slice(), line) {
            assert(lines_of(headers@)[i as int] == line@);
            return true;
        }
        i = i + 1;
    }
    false
}

/// What follows `prefix` in the first line that starts with it.
pub open spec fn header_value(headers: Seq<Seq<u8>>, prefix: Seq<u8>) -> Option<Seq<u8>>
    decreases headers.len(),
{
    if headers.len() == 0 {
        None
    } else if starts_with(headers[0], prefix) {
        Some(headers[0].subrange(prefix.len() as int, headers[0].len() as int))
    } else {
        header_value(headers.drop_first(), prefix)
    }
}

fn find_header<'a>(headers: &'a Vec<Vec<u8>>, prefix: &[u8]) -> (r: Option<&'a [u8]>)
    ensures
        match r {
            Some(v) => header_value(lines_of(headers@), prefix@) == Some(v@),
            None => header_value(lines_of(headers@), prefix@) is None,
        },
{
    let mut i: usize = 0;
    let ghost all = lines_of(headers@);
    assert(all.subrange(0, all.len() as int) =~= all);
    while i < headers.len()
        invariant
            i <= headers@.len(),
            all == lines_of(headers@),
            header_value(all, prefix@) == header_value(all.subrange(i as int, all.len() as int), prefix@),
        decreases headers@.len() - i,
    {
        let line = headers[i].as_slice();
        let ghost rest = all.subrange(i as int, all.len() as int);
        assert(rest[0] == line@);
        if has_prefix(line, prefix) {
            return Some(slice_subrange(line, prefix.len(), line.len()));
        }
        assert(rest.drop_first() =~= all.subrange(i + 1, all.len() as int));
        i = i + 1;
    }
    None
}

/// The login succeeded: the answer holds the line `X-WNI-Result: OK`.
pub open spec fn spec_is_authenticated(headers: Seq<Seq<u8>>) -> bool {
    has_line(headers, encode_utf8("X-WNI-Result: OK"@))
}

pub fn is_authenticated(headers: &Vec<Vec<u8>>) -> (r: bool)
    ensures
        r == spec_is_authenticated(lines_of(headers@)),
{
    contains_line(headers, "X-WNI-Result: OK".as_bytes())
}

/// What kind of block a header block announces.
#[derive(Copy, Clone, Eq, PartialEq, Debug, Structural)]
pub enum BlockKind {
    Data,
    KeepAlive,
    Other,
}

pub open spec fn spec_block_kind(headers: Seq<Seq<u8>>) -> BlockKind {
    if has_line(headers, encode_utf8("X-WNI-ID: Data"@)) {
        BlockKind::Data
    } else if has_line(headers, encode_utf8("X-WNI-ID: Keep-Alive"@)) {
        BlockKind::KeepAlive
    } else {
        BlockKind::Other
    }
}

pub fn block_kind(headers: &Vec<Vec<u8>>) -> (r: BlockKind)
    ensures
        r == spec_block_kind(lines_of(headers@)),
{
    if contains_line(headers, "X-WNI-ID: Data".as_bytes()) {
        BlockKind::Data
    } else if contains_line(headers, "X-WNI-ID: Keep-Alive".as_bytes()) {
        BlockKind::KeepAlive
    } else {
        BlockKind::Other
    }
}

/// The instant of sending according to the `Date` header of a block.
pub open spec fn date_of(headers: Seq<Seq<u8>>) -> Option<(i64, u32)> {
    match header_value(headers, encode_utf8("Date: "@)) {
        Some(v) => spec_from_header_date(v),
        None => None,
    }
}

/// The instant of issue according to the `X-WNI-Time` header of a block.
pub open spec fn wni_time_of(headers: Seq<Seq<u8>>) -> Option<(i64, u32)> {
    match header_value(headers, encode_utf8("X-WNI-Time: "@)) {
        Some(v) => spec_from_wni_time(v),
        None => None,
    }
}

/// Milliseconds from `time` to `date`, rounded towards zero.
pub open spec fn delay_ms(date: (i64, u32), time: (i64, u32)) -> int {
    let ns = (date.0 - time.0) * 1_000_000_000 + (date.1 - time.1);
    if ns >= 0 {
        ns / 1_000_000
    } else {
        -((-ns) / 1_000_000)
    }
}

/// The delay of a block: the time from its issue to its sending, where both
/// headers can be read.
pub open spec fn spec_block_delay(date: Option<(i64, u32)>, time: Option<(i64, u32)>) -> Option<int> {
    match (date, time) {
        (Some(d), Some(t)) => Some(delay_ms(d, t)),
        _ => None,
    }
}

/// The delay is known and above the threshold.
pub open spec fn is_too_slow(delay: Option<int>) -> bool {
    match delay {
        Some(x) => x > DELAY_THRESHOLD_MS,
        None => false,
    }
}

pub fn block_delay(date: Option<(i64, u32)>, time: Option<(i64, u32)>) -> (r: Option<i128>)
    ensures
        match r {
            Some(x) => spec_block_delay(date, time) == Some(x as int),
            None => spec_block_delay(date, time) is None,
        },
{
    match (date, time) {
        (Some(d), Some(t)) => {
            let ns: i128 = (d.0 as i128 - t.0 as i128) * 1_000_000_000 + (d.1 as i128 - t.1 as i128);
            if ns >= 0 {
                Some(ns / 1_000_000)
            } else {
                Some(-((-ns) / 1_000_000))
            }
        },
        _ => None,
    }
}

/// Reads the two time headers of a block and computes its delay.
pub fn delay_of(headers: &Vec<Vec<u8>>) -> (r: Option<i128>)
    ensures
        match r {
            Some(x) => spec_block_delay(
                date_of(lines_of(headers@)),
                wni_time_of(lines_of(headers@)),
            ) == Some(x as int),
            None => spec_block_delay(date_of(lines_of(headers@)), wni_time_of(lines_of(headers@)))
                is None,
        },
{
    let date = match find_header(headers, "Date: ".as_bytes()) {
        Some(v) => from_header_date(v),
        None => None,
    };
    let time = match find_header(headers, "X-WNI-Time: ".as_bytes()) {
        Some(v) => from_wni_time(v),
        None => None,
    };
    block_delay(date, time)
}

/// Index of the last occurrence of `b` in `s`, if there is one.
pub open spec fn last_index_of(s: Seq<u8>, b: u8) -> Option<int>
    decreases s.len(),
{
    if s.len() == 0 {
        None
    } else if s.last() == b {
        Some(s.len() - 1)
    } else {
        last_index_of(s.drop_last(), b)
    }
}

/// Where the telegram lies in the body of a data block: it starts two
/// bytes behind the last STX and ends two bytes in front of the end of the
/// body. A body without STX or without anything in between is invalid.
pub open spec fn spec_payload_range(buffer: Seq<u8>) -> Result<(int, int), WniError> {
    match last_index_of(buffer, STX) {
        None => Err(WniError::InvalidData),
        Some(i) => if i + 2 >= buffer.len() - 2 {
            Err(WniError::InvalidData)
        } else {
            Ok((i + 2, buffer.len() - 2))
        },
    }
}

pub fn payload_range(buffer: &[u8]) -> (r: Result<(usize, usize), WniError>)
    ensures
        match r {
            Ok((left, right)) => spec_payload_range(buffer@) == Ok::<(int, int), WniError>(
                (left as int, right as int),
            ) && left < right <= buffer@.len(),
            Err(e) => spec_payload_range(buffer@) == Err::<(int, int), WniError>(e),
        },
{
    let mut i: usize = buffer.len();
    assert(buffer@.subrange(0, buffer.len() as int) =~= buffer@);
    while i > 0
        invariant
            i <= buffer.len(),
            last_index_of(buffer@, STX) == last_index_of(buffer@.subrange(0, i as int), STX),
        decreases i,
    {
        if buffer[i - 1] == STX {
            let stx = i - 1;
            if buffer.len() - stx <= 4 {
                return Err(WniError::InvalidData);
            }
            return Ok((stx + 2, buffer.len() - 2));
        }
        assert(buffer@.subrange(0, i as int).drop_last() =~= buffer@.subrange(0, i - 1));
        i = i - 1;
    }
    Err(WniError::InvalidData)
}

} // verus!
