//! A connection to the upstream service: where it stands and what its
//! owner has to do next.

use crate::code_dict::CodeDict;
use crate::eew::{EEWView, EEW};
use crate::parser::{parse_jma_format, spec_parse_jma_format, JMAFormatParseError};
use crate::wire::{
    block_kind, date_of, delay_of, is_authenticated, is_too_slow, lines_of, payload_range,
    spec_block_delay, spec_block_kind, spec_is_authenticated, spec_payload_range, wni_time_of,
    BlockKind, DELAY_THRESHOLD_MS,
};
use vstd::prelude::*;
use vstd::slice::slice_subrange;

verus! {

#[derive(Copy, Clone, Eq, PartialEq, Hash, Debug, Structural)]
pub enum WniError {
    Authentication,
    Network,
    ConnectionClosed,
    InvalidData,
    TooSlow,
    ParseError(JMAFormatParseError),
}

/// Where a connection stands.
#[derive(Copy, Clone, Eq, PartialEq, Debug, Structural)]
pub enum ConnectionState {
    /// No server is chosen yet.
    Disconnected,
    /// A server is chosen; the login request is not out yet.
    ServerPicked,
    /// The login request is out and its answer is awaited.
    Authenticating,
    /// The next header block is awaited.
    Ready,
    /// A data block was announced and its body is awaited; `slow` tells
    /// whether the block came with too much delay.
    ExpectingBody { slow: bool },
    /// A block came with too much delay; the connection serves no more.
    TooSlow,
    /// The peer closed the connection, or it was given up.
    Closed,
    /// The network failed.
    NetworkError,
}

/// What the owner of the socket has to do next.
#[derive(Copy, Clone, Eq, PartialEq, Debug, Structural)]
pub enum Step {
    /// Read the body of the data block, up to ETX.
    ReadBody,
    /// Write a response block, then read the next header block.
    Respond,
    /// Give the connection up with this error.
    Fail(WniError),
}

/// The error with which a connection in `state` refuses to take data.
pub open spec fn refusal(state: ConnectionState) -> WniError {
    match state {
        ConnectionState::TooSlow => WniError::TooSlow,
        ConnectionState::NetworkError => WniError::Network,
        _ => WniError::ConnectionClosed,
    }
}

/// A state that serves no more.
pub open spec fn is_terminal(state: ConnectionState) -> bool {
    state == ConnectionState::TooSlow || state == ConnectionState::Closed || state
        == ConnectionState::NetworkError
}

/// The state in which a refusal leaves the connection: a terminal state
/// stays, any other state is closed.
pub open spec fn refused(state: ConnectionState) -> ConnectionState {
    if is_terminal(state) {
        state
    } else {
        ConnectionState::Closed
    }
}

/// The state after the server list was read.
pub open spec fn after_server_list(state: ConnectionState, found: bool) -> ConnectionState {
    if state == ConnectionState::Disconnected {
        if found {
            ConnectionState::ServerPicked
        } else {
            ConnectionState::NetworkError
        }
    } else {
        refused(state)
    }
}

/// The state after the login request was written.
pub open spec fn after_login_sent(state: ConnectionState) -> ConnectionState {
    if state == ConnectionState::ServerPicked {
        ConnectionState::Authenticating
    } else {
        refused(state)
    }
}

/// The state after a read or write failed with `error`.
pub open spec fn after_failure(state: ConnectionState, error: WniError) -> ConnectionState {
    if is_terminal(state) {
        state
    } else if error == WniError::Network {
        ConnectionState::NetworkError
    } else if error == WniError::TooSlow {
        ConnectionState::TooSlow
    } else {
        ConnectionState::Closed
    }
}

/// The state after the answer to the login.
pub open spec fn after_login(state: ConnectionState, headers: Seq<Seq<u8>>) -> ConnectionState {
    if state == ConnectionState::Authenticating && spec_is_authenticated(headers) {
        ConnectionState::Ready
    } else {
        refused(state)
    }
}

/// The state and the next step after a header block with the given delay.
pub open spec fn after_headers(state: ConnectionState, kind: BlockKind, delay: Option<int>) -> (
    ConnectionState,
    Step,
) {
    match state {
        ConnectionState::Ready => match kind {
            BlockKind::Data => (
                ConnectionState::ExpectingBody { slow: is_too_slow(delay) },
                Step::ReadBody,
            ),
            BlockKind::KeepAlive => (ConnectionState::Ready, Step::Respond),
            BlockKind::Other => (ConnectionState::Closed, Step::Fail(WniError::InvalidData)),
        },
        _ => (refused(state), Step::Fail(refusal(state))),
    }
}

/// The report in the body of a data block.
pub open spec fn spec_telegram(
    buffer: Seq<u8>,
    epicenters: Map<Seq<u8>, Seq<char>>,
    areas: Map<Seq<u8>, Seq<char>>,
) -> Result<EEWView, WniError> {
    match spec_payload_range(buffer) {
        Err(e) => Err(e),
        Ok(range) => match spec_parse_jma_format(buffer.subrange(range.0, range.1), epicenters, areas) {
            Ok(e) => Ok(e),
            Err(e) => Err(WniError::ParseError(e)),
        },
    }
}

/// The body of a data block could be taken apart: it held a report, or a
/// telegram that could not be read. Such a body leaves the connection up.
pub open spec fn is_framed(outcome: Result<EEWView, WniError>) -> bool {
    match outcome {
        Ok(_) => true,
        Err(WniError::ParseError(_)) => true,
        Err(_) => false,
    }
}

/// The state after the body of a data block was handled, where `framed`
/// tells whether the body could be taken apart.
pub open spec fn after_body(state: ConnectionState, framed: bool) -> ConnectionState {
    match state {
        ConnectionState::ExpectingBody { slow } => if !framed {
            ConnectionState::Closed
        } else if slow {
            ConnectionState::TooSlow
        } else {
            ConnectionState::Ready
        },
        _ => refused(state),
    }
}

/// The report that the body of a data block holds.
pub fn read_telegram(buffer: &[u8], epicenter_dict: &CodeDict, area_dict: &CodeDict) -> (r: Result<
    EEW,
    WniError,
>)
    ensures
        match r {
            Ok(e) => spec_telegram(buffer@, epicenter_dict@, area_dict@) == Ok::<EEWView, WniError>(
                e@,
            ),
            Err(e) => spec_telegram(buffer@, epicenter_dict@, area_dict@) == Err::<
                EEWView,
                WniError,
            >(e),
        },
{
    let (left, right) = match payload_range(buffer) {
        Ok(range) => range,
        Err(e) => return Err(e),
    };
    match parse_jma_format(slice_subrange(buffer, left, right), epicenter_dict, area_dict) {
        Ok(eew) => Ok(eew),
        Err(e) => Err(WniError::ParseError(e)),
    }
}

/// One connection to the upstream service, without its socket.
#[derive(Debug, Clone)]
pub struct WniConnection {
    server: String,
    state: ConnectionState,
}

impl WniConnection {
    pub closed spec fn state(&self) -> ConnectionState {
        self.state
    }

    pub closed spec fn spec_server(&self) -> Seq<char> {
        self.server@
    }

    /// A connection for which no server is chosen yet.
    pub fn new() -> (r: WniConnection)
        ensures
            r.state() == ConnectionState::Disconnected,
            r.spec_server() == Seq::<char>::empty(),
    {
        WniConnection { server: String::new(), state: ConnectionState::Disconnected }
    }

    /// A connection to `server` on which the login request was just sent.
    pub fn open(server: String) -> (r: WniConnection)
        ensures
            r.state() == ConnectionState::Authenticating,
            r.spec_server() == server@,
    {
        WniConnection { server: server, state: ConnectionState::Authenticating }
    }

    pub fn server(&self) -> (r: &str)
        ensures
            r@ == self.spec_server(),
    {
        self.server.as_str()
    }

    pub fn current_state(&self) -> (r: ConnectionState)
        ensures
            r == self.state(),
    {
        self.state
    }

    fn refuse(&mut self) -> (e: WniError)
        ensures
            final(self).spec_server() == old(self).spec_server(),
            final(self).state() == refused(old(self).state()),
            e == refusal(old(self).state()),
    {
        match self.state {
            ConnectionState::TooSlow => WniError::TooSlow,
            ConnectionState::NetworkError => WniError::Network,
            ConnectionState::Closed => WniError::ConnectionClosed,
            _ => {
                self.state = ConnectionState::Closed;
                WniError::ConnectionClosed
            },
        }
    }

    /// Takes the outcome of server discovery: the chosen server, or nothing
    /// where the list could not be had or was empty, which is a network error.
    pub fn server_chosen(&mut self, server: Option<String>) -> (r: Result<(), WniError>)
        ensures
            final(self).state() == after_server_list(old(self).state(), server is Some),
            final(self).spec_server() == if old(self).state() == ConnectionState::Disconnected
                && server is Some {
                server.unwrap()@
            } else {
                old(self).spec_server()
            },
            r is Ok <==> final(self).state() == ConnectionState::ServerPicked,
            r matches Err(e) ==> e == if old(self).state() == ConnectionState::Disconnected {
                WniError::Network
            } else {
                refusal(old(self).state())
            },
    {
        match self.state {
            ConnectionState::Disconnected => match server {
                Some(s) => {
                    self.server = s;
                    self.state = ConnectionState::ServerPicked;
                    Ok(())
                },
                None => {
                    self.state = ConnectionState::NetworkError;
                    Err(WniError::Network)
                },
            },
            _ => Err(self.refuse()),
        }
    }

    /// Notes that the socket is open and the login request is written.
    pub fn login_sent(&mut self) -> (r: Result<(), WniError>)
        ensures
            final(self).spec_server() == old(self).spec_server(),
            final(self).state() == after_login_sent(old(self).state()),
            r is Ok <==> final(self).state() == ConnectionState::Authenticating,
            r matches Err(e) ==> e == refusal(old(self).state()),
    {
        match self.state {
            ConnectionState::ServerPicked => {
                self.state = ConnectionState::Authenticating;
                Ok(())
            },
            _ => Err(self.refuse()),
        }
    }

    /// Takes the answer to the login. Only the line `X-WNI-Result: OK`
    /// makes the connection ready; anything else is an authentication error.
    pub fn login_answered(&mut self, headers: &Vec<Vec<u8>>) -> (r: Result<(), WniError>)
        ensures
            final(self).spec_server() == old(self).spec_server(),
            final(self).state() == after_login(old(self).state(), lines_of(headers@)),
            r is Ok <==> final(self).state() == ConnectionState::Ready,
            r matches Err(e) ==> e == if old(self).state() == ConnectionState::Authenticating {
                WniError::Authentication
            } else {
                refusal(old(self).state())
            },
    {
        match self.state {
            ConnectionState::Authenticating => {
                if is_authenticated(headers) {
                    self.state = ConnectionState::Ready;
                    Ok(())
                } else {
                    self.state = ConnectionState::Closed;
                    Err(WniError::Authentication)
                }
            },
            _ => Err(self.refuse()),
        }
    }

    /// Whether the connection may wait for a telegram: only a ready one may.
    pub fn wait_for_telegram(&self) -> (r: Result<(), WniError>)
        ensures
            r == if self.state() == ConnectionState::Ready {
                Ok::<(), WniError>(())
            } else {
                Err::<(), WniError>(refusal(self.state()))
            },
    {
        match self.state {
            ConnectionState::Ready => Ok(()),
            ConnectionState::TooSlow => Err(WniError::TooSlow),
            ConnectionState::NetworkError => Err(WniError::Network),
            _ => Err(WniError::ConnectionClosed),
        }
    }

    /// Takes a header block and says what to do next.
    pub fn headers_received(&mut self, headers: &Vec<Vec<u8>>) -> (r: Step)
        ensures
            final(self).spec_server() == old(self).spec_server(),
            (final(self).state(), r) == after_headers(
                old(self).state(),
                spec_block_kind(lines_of(headers@)),
                spec_block_delay(date_of(lines_of(headers@)), wni_time_of(lines_of(headers@))),
            ),
    {
        match self.state {
            ConnectionState::Ready => match block_kind(headers) {
                BlockKind::Data => {
                    let slow = match delay_of(headers) {
                        Some(x) => x > DELAY_THRESHOLD_MS as i128,
                        None => false,
                    };
                    self.state = ConnectionState::ExpectingBody { slow: slow };
                    Step::ReadBody
                },
                BlockKind::KeepAlive => Step::Respond,
                BlockKind::Other => {
                    self.state = ConnectionState::Closed;
                    Step::Fail(WniError::InvalidData)
                },
            },
            _ => Step::Fail(self.refuse()),
        }
    }

    /// Takes the body of a data block, up to and with its ETX, and hands
    /// out the report in it. After a report the owner of the socket writes
    /// a response block. A telegram that cannot be read is an error that
    /// leaves the connection up; a body without a telegram closes it.
    pub fn body_received(&mut self, buffer: &[u8], epicenter_dict: &CodeDict, area_dict: &CodeDict) -> (r:
        Result<EEW, WniError>)
        ensures
            final(self).spec_server() == old(self).spec_server(),
            final(self).state() == after_body(
                old(self).state(),
                is_framed(spec_telegram(buffer@, epicenter_dict@, area_dict@)),
            ),
            match old(self).state() {
                ConnectionState::ExpectingBody { slow } => match r {
                    Ok(e) => spec_telegram(buffer@, epicenter_dict@, area_dict@) == Ok::<
                        EEWView,
                        WniError,
                    >(e@),
                    Err(e) => spec_telegram(buffer@, epicenter_dict@, area_dict@) == Err::<
                        EEWView,
                        WniError,
                    >(e),
                },
                _ => r matches Err(e) && e == refusal(old(self).state()),
            },
    {
        match self.state {
            ConnectionState::ExpectingBody { slow } => {
                match read_telegram(buffer, epicenter_dict, area_dict) {
                    Ok(eew) => {
                        self.state = if slow {
                            ConnectionState::TooSlow
                        } else {
                            ConnectionState::Ready
                        };
                        Ok(eew)
                    },
                    Err(WniError::ParseError(e)) => {
                        self.state = if slow {
                            ConnectionState::TooSlow
                        } else {
                            ConnectionState::Ready
                        };
                        Err(WniError::ParseError(e))
                    },
                    Err(e) => {
                        self.state = ConnectionState::Closed;
                        Err(e)
                    },
                }
            },
            _ => Err(self.refuse()),
        }
    }

    /// Gives the connection up after a read or write failed with `error`.
    pub fn failed(&mut self, error: WniError)
        ensures
            final(self).spec_server() == old(self).spec_server(),
            final(self).state() == after_failure(old(self).state(), error),
    {
        match self.state {
            ConnectionState::TooSlow | ConnectionState::Closed | ConnectionState::NetworkError => {},
            _ => {
                self.state = match error {
                    WniError::Network => ConnectionState::NetworkError,
                    WniError::TooSlow => ConnectionState::TooSlow,
                    _ => ConnectionState::Closed,
                };
            },
        }
    }
}

/// A connection that was found too slow, was closed or lost its network
/// stays so, whatever arrives, and takes no more data.
pub proof fn lemma_terminal_states_stay(
    state: ConnectionState,
    headers: Seq<Seq<u8>>,
    kind: BlockKind,
    delay: Option<int>,
    readable: bool,
    error: WniError,
)
    requires
        is_terminal(state),
    ensures
        after_server_list(state, readable) == state,
        after_login_sent(state) == state,
        after_login(state, headers) == state,
        after_headers(state, kind, delay).0 == state,
        after_headers(state, kind, delay).1 == Step::Fail(refusal(state)),
        after_body(state, readable) == state,
        after_failure(state, error) == state,
{
}

/// Only a ready connection takes a header block without failing.
pub proof fn lemma_only_ready_accepts(state: ConnectionState, kind: BlockKind, delay: Option<int>)
    ensures
        !(after_headers(state, kind, delay).1 is Fail) ==> state == ConnectionState::Ready,
{
}

} // verus!
