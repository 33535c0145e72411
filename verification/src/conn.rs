//! The connection state machine and dispatcher. It owns the settings store
//! and the protocol state of one client connection and never touches a
//! socket: the transport layer feeds it events (the preface bytes, a fully
//! read frame, a confirmed write, a transport failure) and writes out the
//! bytes each step returns. Every transition is stated by `next_spec` and
//! `output_spec`.

use vstd::prelude::*;

use crate::codec::FLAG_ACK;
use crate::codec::FrameHeader;
use crate::codec::GOAWAY_FRAME_TYPE;
use crate::codec::HEADERS_FRAME_TYPE;
use crate::codec::Http2Frame;
use crate::codec::SETTINGS_FRAME_TYPE;
use crate::codec::WINDOW_UPDATE_FRAME_TYPE;
use crate::headers::decode_header_block;
use crate::headers::header_block_decoding;
use crate::preface::preface_spec;
use crate::preface::validate;
use crate::response::build_response;
use crate::response::response_bytes_spec;
use crate::settings::ServerSettings;
use crate::settings::apply_entries_spec;

verus! {

/// The protocol state of one connection. `Closed` is terminal: once there,
/// no event changes anything and nothing more is written.
#[derive(Clone, Copy, Debug, PartialEq, Eq, Structural)]
pub enum State {
    /// Nothing received yet; the 24-byte client preface must come first.
    AwaitingPreface,
    /// Preface validated; the server's own SETTINGS frame must be written
    /// and flushed next.
    AwaitingServerSettingsSent,
    /// Server SETTINGS sent; the next frame read must be the client's
    /// SETTINGS frame.
    AwaitingClientSettings,
    /// Handshake complete; frames are dispatched by type.
    Established,
    /// The socket is released; no further reads or writes occur.
    Closed,
}

/// What a GOAWAY payload carries: the peer's last processed stream id (31
/// bits, reserved top bit masked) and its error code.
#[derive(Clone, Copy, Debug, PartialEq, Eq, Structural)]
pub struct GoawayData {
    pub last_stream_id: u32,
    pub error_code: u32,
}

/// One observation the transport layer hands to the state machine.
pub enum Event {
    /// Exactly 24 preface bytes were read.
    PrefaceBytes(Vec<u8>),
    /// The pending output (the server's SETTINGS frame) was written and
    /// flushed.
    SettingsSent,
    /// A frame header was read and decoded, and its whole payload read.
    Frame(Http2Frame),
    /// A read or write failed or came up short; always fatal.
    Transport,
}

/// The aggregate state for one client connection: its protocol state, its
/// settings store, and the last window increment and GOAWAY data it
/// recorded.
pub struct Connection {
    pub state: State,
    pub settings: ServerSettings,
    /// The increment of the last WINDOW_UPDATE frame; recorded only, since
    /// flow-control accounting is outside this core.
    pub last_window_increment: Option<u32>,
    /// What the last GOAWAY frame with a full 8-byte payload carried.
    pub last_goaway: Option<GoawayData>,
}

/// The 31-bit window increment of a WINDOW_UPDATE payload: the first 4
/// bytes, big-endian, reserved top bit masked.
pub open spec fn window_increment_spec(p: Seq<u8>) -> u32
    recommends
        p.len() >= 4,
{
    ((p[0] % 0x80) * 0x1000000 + p[1] * 0x10000 + p[2] * 0x100 + p[3]) as u32
}

/// The last stream id and error code of a GOAWAY payload: two big-endian
/// 32-bit fields, the first with its reserved top bit masked.
pub open spec fn goaway_data_spec(p: Seq<u8>) -> GoawayData
    recommends
        p.len() >= 8,
{
    GoawayData {
        last_stream_id: ((p[0] % 0x80) * 0x1000000 + p[1] * 0x10000 + p[2] * 0x100 + p[3]) as u32,
        error_code: (p[4] * 0x1000000 + p[5] * 0x10000 + p[6] * 0x100 + p[7]) as u32,
    }
}

/// The empty SETTINGS frame the server sends once the preface is valid.
pub open spec fn server_settings_frame_spec() -> Seq<u8> {
    FrameHeader { length: 0, type_: SETTINGS_FRAME_TYPE, flags: 0, stream_id: 0 }.encode_spec()
}

/// The empty SETTINGS frame with the ACK flag set that acknowledges a
/// client SETTINGS frame.
pub open spec fn settings_ack_frame_spec() -> Seq<u8> {
    FrameHeader { length: 0, type_: SETTINGS_FRAME_TYPE, flags: FLAG_ACK, stream_id: 0 }.encode_spec()
}

/// The given connection with only its protocol state replaced.
pub open spec fn with_state(pre: Connection, state: State) -> Connection {
    Connection { state, ..pre }
}

/// A SETTINGS frame read in `AwaitingClientSettings` or `Established`. The
/// ACK flag makes it a no-op acknowledgment of the server's own settings;
/// otherwise a payload of 6-byte entries is applied and acknowledged, and
/// any other payload length is a protocol violation.
pub open spec fn next_on_settings_spec(pre: Connection, f: Http2Frame) -> Connection {
    if pre.state is Established && f.header.flags % 2 == 1 {
        pre
    } else if f.payload@.len() % 6 == 0 {
        Connection {
            state: State::Established,
            settings: apply_entries_spec(pre.settings, f.payload@),
            ..pre
        }
    } else {
        with_state(pre, State::Closed)
    }
}

/// The connection a frame read in `Established` leaves behind.
pub open spec fn next_on_established_frame_spec(pre: Connection, f: Http2Frame) -> Connection {
    if f.header.type_ == SETTINGS_FRAME_TYPE {
        next_on_settings_spec(pre, f)
    } else if f.header.type_ == WINDOW_UPDATE_FRAME_TYPE {
        if f.payload@.len() == 0 {
            pre
        } else if f.payload@.len() >= 4 {
            Connection { last_window_increment: Some(window_increment_spec(f.payload@)), ..pre }
        } else {
            with_state(pre, State::Closed)
        }
    } else if f.header.type_ == HEADERS_FRAME_TYPE {
        if header_block_decoding(f.payload@) is Some {
            pre
        } else {
            with_state(pre, State::Closed)
        }
    } else if f.header.type_ == GOAWAY_FRAME_TYPE {
        if f.payload@.len() >= 8 {
            Connection {
                state: State::Closed,
                last_goaway: Some(goaway_data_spec(f.payload@)),
                ..pre
            }
        } else {
            with_state(pre, State::Closed)
        }
    } else {
        with_state(pre, State::Closed)
    }
}

/// The connection one event leaves behind. A transport failure, an event
/// the current state does not expect, or a frame whose payload does not
/// match its header's `length` is fatal; `Closed` absorbs everything.
pub open spec fn next_spec(pre: Connection, ev: Event) -> Connection {
    if pre.state is Closed {
        pre
    } else {
        match ev {
            Event::Transport => with_state(pre, State::Closed),
            Event::PrefaceBytes(b) => {
                if pre.state is AwaitingPreface && b@ == preface_spec() {
                    with_state(pre, State::AwaitingServerSettingsSent)
                } else {
                    with_state(pre, State::Closed)
                }
            },
            Event::SettingsSent => {
                if pre.state is AwaitingServerSettingsSent {
                    with_state(pre, State::AwaitingClientSettings)
                } else {
                    with_state(pre, State::Closed)
                }
            },
            Event::Frame(f) => {
                if !f.wf() {
                    with_state(pre, State::Closed)
                } else if pre.state is AwaitingClientSettings {
                    if f.header.type_ == SETTINGS_FRAME_TYPE {
                        next_on_settings_spec(pre, f)
                    } else {
                        with_state(pre, State::Closed)
                    }
                } else if pre.state is Established {
                    next_on_established_frame_spec(pre, f)
                } else {
                    with_state(pre, State::Closed)
                }
            },
        }
    }
}

/// The bytes one event makes the connection write, in wire order: the
/// server's SETTINGS frame after a valid preface, an ACK after an accepted
/// client SETTINGS frame, the canned response after a HEADERS frame that
/// decodes, and nothing otherwise.
pub open spec fn output_spec(pre: Connection, ev: Event) -> Seq<u8> {
    if pre.state is Closed {
        Seq::empty()
    } else {
        match ev {
            Event::PrefaceBytes(b) => {
                if pre.state is AwaitingPreface && b@ == preface_spec() {
                    server_settings_frame_spec()
                } else {
                    Seq::empty()
                }
            },
            Event::Frame(f) => {
                if !f.wf() {
                    Seq::empty()
                } else if (pre.state is AwaitingClientSettings || pre.state is Established)
                    && f.header.type_ == SETTINGS_FRAME_TYPE && !(pre.state is Established
                    && f.header.flags % 2 == 1) && f.payload@.len() % 6 == 0 {
                    settings_ack_frame_spec()
                } else if pre.state is Established && f.header.type_ == HEADERS_FRAME_TYPE
                    && header_block_decoding(f.payload@) is Some {
                    response_bytes_spec(f.header.stream_id)
                } else {
                    Seq::empty()
                }
            },
            _ => Seq::empty(),
        }
    }
}

impl Connection {
    /// A fresh connection: awaiting the preface, default settings, nothing
    /// recorded yet.
    pub fn new() -> (r: Self)
        ensures
            r.state is AwaitingPreface,
            r.settings == ServerSettings::default_spec(),
            r.last_window_increment is None,
            r.last_goaway is None,
    {
        Connection {
            state: State::AwaitingPreface,
            settings: ServerSettings::new(),
            last_window_increment: None,
            last_goaway: None,
        }
    }

    /// Consumes one event: moves to the state `next_spec` gives and returns
    /// exactly the bytes `output_spec` gives, to be written before the next
    /// event is gathered.
    pub fn step(&mut self, ev: Event) -> (out: Vec<u8>)
        ensures
            *final(self) == next_spec(*old(self), ev),
            out@ == output_spec(*old(self), ev),
    {
        match self.state {
            State::Closed => Vec::new(),
            _ => {
                match ev {
                    Event::Transport => {
                        self.state = State::Closed;
                        Vec::new()
                    },
                    Event::PrefaceBytes(b) => {
                        if matches!(self.state, State::AwaitingPreface) && validate(&b) {
                            self.state = State::AwaitingServerSettingsSent;
                            let frame = FrameHeader {
                                length: 0,
                                type_: SETTINGS_FRAME_TYPE,
                                flags: 0,
                                stream_id: 0,
                            };
                            frame.encode()
                        } else {
                            self.state = State::Closed;
                            Vec::new()
                        }
                    },
                    Event::SettingsSent => {
                        if matches!(self.state, State::AwaitingServerSettingsSent) {
                            self.state = State::AwaitingClientSettings;
                        } else {
                            self.state = State::Closed;
                        }
                        Vec::new()
                    },
                    Event::Frame(f) => self.step_frame(f),
                }
            },
        }
    }

    /// Dispatches one fully read frame; `self.state` is neither
    /// `AwaitingPreface`-with-a-frame nor `Closed` when the transport layer
    /// is honest, but every combination is handled.
    fn step_frame(&mut self, f: Http2Frame) -> (out: Vec<u8>)
        requires
            !(old(self).state is Closed),
        ensures
            *final(self) == next_spec(*old(self), Event::Frame(f)),
            out@ == output_spec(*old(self), Event::Frame(f)),
    {
        let frame_ok = f.header.length < 0x1000000 && f.header.stream_id < 0x80000000
            && f.payload.len() == f.header.length as usize;
        if !frame_ok {
            self.state = State::Closed;
            return Vec::new();
        }
        match self.state {
            State::AwaitingClientSettings => {
                if f.header.type_ == SETTINGS_FRAME_TYPE {
                    self.handle_settings(f)
                } else {
                    self.state = State::Closed;
                    Vec::new()
                }
            },
            State::Established => {
                if f.header.type_ == SETTINGS_FRAME_TYPE {
                    self.handle_settings(f)
                } else if f.header.type_ == WINDOW_UPDATE_FRAME_TYPE {
                    if f.payload.len() == 0 {
                    } else if f.payload.len() >= 4 {
                        let inc: u32 = ((f.payload[0] % 0x80) as u32) * 0x1000000 + (
                        f.payload[1] as u32) * 0x10000 + (f.payload[2] as u32) * 0x100 + (
                        f.payload[3] as u32);
                        self.last_window_increment = Some(inc);
                    } else {
                        self.state = State::Closed;
                    }
                    Vec::new()
                } else if f.header.type_ == HEADERS_FRAME_TYPE {
                    match decode_header_block(&f.payload) {
                        // the decoded fields are transient in this core's
                        // scope; success alone gates the response
                        Ok(_) => build_response(f.header.stream_id, &self.settings),
                        Err(_) => {
                            self.state = State::Closed;
                            Vec::new()
                        },
                    }
                } else if f.header.type_ == GOAWAY_FRAME_TYPE {
                    if f.payload.len() >= 8 {
                        let last_stream_id: u32 = ((f.payload[0] % 0x80) as u32) * 0x1000000 + (
                        f.payload[1] as u32) * 0x10000 + (f.payload[2] as u32) * 0x100 + (
                        f.payload[3] as u32);
                        let error_code: u32 = (f.payload[4] as u32) * 0x1000000 + (
                        f.payload[5] as u32) * 0x10000 + (f.payload[6] as u32) * 0x100 + (
                        f.payload[7] as u32);
                        self.last_goaway = Some(GoawayData { last_stream_id, error_code });
                    }
                    self.state = State::Closed;
                    Vec::new()
                } else {
                    self.state = State::Closed;
                    Vec::new()
                }
            },
            _ => {
                self.state = State::Closed;
                Vec::new()
            },
        }
    }

    /// A SETTINGS frame in `AwaitingClientSettings` or `Established`: an
    /// ACK from the peer is a no-op; otherwise the payload is applied and
    /// an ACK is emitted, and a payload that is not whole 6-byte entries
    /// closes the connection.
    fn handle_settings(&mut self, f: Http2Frame) -> (out: Vec<u8>)
        requires
            old(self).state is AwaitingClientSettings || old(self).state is Established,
            f.header.type_ == SETTINGS_FRAME_TYPE,
        ensures
            *final(self) == next_on_settings_spec(*old(self), f),
            out@ == (if final(self).state is Established && !(old(self).state is Established
                && f.header.flags % 2 == 1) {
                settings_ack_frame_spec()
            } else {
                Seq::<u8>::empty()
            }),
    {
        if matches!(self.state, State::Established) && f.header.flags % 2 == 1 {
            return Vec::new();
        }
        if self.settings.apply_payload(&f.payload) {
            self.state = State::Established;
            let ack = FrameHeader {
                length: 0,
                type_: SETTINGS_FRAME_TYPE,
                flags: FLAG_ACK,
                stream_id: 0,
            };
            ack.encode()
        } else {
            self.state = State::Closed;
            Vec::new()
        }
    }
}

/// `Closed` is terminal: no event moves a closed connection, changes its
/// stores, or makes it write anything.
pub proof fn lemma_closed_is_terminal(pre: Connection, ev: Event)
    requires
        pre.state is Closed,
    ensures
        next_spec(pre, ev) == pre,
        output_spec(pre, ev) == Seq::<u8>::empty(),
{
}

/// A connection still awaiting the client's SETTINGS frame that receives a
/// frame of any other type (a DATA frame, say) closes, writing nothing.
pub proof fn lemma_non_settings_during_handshake_closes(pre: Connection, f: Http2Frame)
    requires
        pre.state is AwaitingClientSettings,
        f.header.type_ != SETTINGS_FRAME_TYPE,
    ensures
        next_spec(pre, Event::Frame(f)).state is Closed,
        output_spec(pre, Event::Frame(f)) == Seq::<u8>::empty(),
{
}

/// A GOAWAY frame at any point in `Established` closes the connection at
/// once, with nothing written, so no further frame is read.
pub proof fn lemma_goaway_closes(pre: Connection, f: Http2Frame)
    requires
        pre.state is Established,
        f.header.type_ == GOAWAY_FRAME_TYPE,
    ensures
        next_spec(pre, Event::Frame(f)).state is Closed,
        output_spec(pre, Event::Frame(f)) == Seq::<u8>::empty(),
{
}

/// A frame of a type the dispatcher does not recognize, received in
/// `Established`, closes the connection with no response written.
pub proof fn lemma_unrecognized_type_closes(pre: Connection, f: Http2Frame)
    requires
        pre.state is Established,
        f.header.type_ != SETTINGS_FRAME_TYPE,
        f.header.type_ != WINDOW_UPDATE_FRAME_TYPE,
        f.header.type_ != HEADERS_FRAME_TYPE,
        f.header.type_ != GOAWAY_FRAME_TYPE,
    ensures
        next_spec(pre, Event::Frame(f)).state is Closed,
        output_spec(pre, Event::Frame(f)) == Seq::<u8>::empty(),
{
}

} // verus!
