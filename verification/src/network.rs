//! The network session: one connection at a time, as a state machine.
//!
//! The session owns the transport but never drives it. The caller starts
//! the handshake, writes and reads on the handle that [`NetworkManager::transport`]
//! lends out, and reports each outcome here; the session decides what state
//! follows and what the caller is told.

use crate::config::Connection;
use vstd::arithmetic::div_mod::lemma_mod_add_multiples_vanish;
use vstd::prelude::*;
use vstd::string::StringExecFns;

verus! {

/// The number of glyphs in the spinner's cycle.
pub const SPINNER_FRAME_COUNT: u64 = 10;

/// The state of a session. The transport handle is a field of `Connected`
/// and of no other state.
pub enum SessionState<T> {
    Disconnected,
    Connecting { target_name: String, started_at: u64 },
    Connected { target_name: String, peer_address: String, transport: T },
    Failed { reason: String },
}

/// The state of a session as the contracts see it: everything but the
/// transport handle itself.
pub ghost enum SessionView {
    Disconnected,
    Connecting { target_name: Seq<char>, started_at: nat },
    Connected { target_name: Seq<char>, peer_address: Seq<char> },
    Failed { reason: Seq<char> },
}

impl<T> View for SessionState<T> {
    type V = SessionView;

    open spec fn view(&self) -> SessionView {
        match *self {
            SessionState::Disconnected => SessionView::Disconnected,
            SessionState::Connecting { target_name, started_at } => SessionView::Connecting {
                target_name: target_name@,
                started_at: started_at as nat,
            },
            SessionState::Connected { target_name, peer_address, .. } => SessionView::Connected {
                target_name: target_name@,
                peer_address: peer_address@,
            },
            SessionState::Failed { reason } => SessionView::Failed { reason: reason@ },
        }
    }
}

impl<T> SessionState<T> {
    /// The transport handle that the state holds.
    pub open spec fn handle(&self) -> Option<T> {
        match *self {
            SessionState::Connected { transport, .. } => Some(transport),
            _ => None,
        }
    }
}

/// A summary of the session's state.
#[derive(Debug, PartialEq, Eq)]
pub enum NetworkStatus {
    Connected,
    Disconnected,
    Connecting,
    Error(String),
}

impl Clone for NetworkStatus {
    fn clone(&self) -> (copy: Self)
        ensures
            copy == *self,
    {
        match self {
            NetworkStatus::Connected => NetworkStatus::Connected,
            NetworkStatus::Disconnected => NetworkStatus::Disconnected,
            NetworkStatus::Connecting => NetworkStatus::Connecting,
            NetworkStatus::Error(reason) => NetworkStatus::Error(reason.clone()),
        }
    }
}

/// Why the session refused a request or gave up a connection.
#[derive(Debug, PartialEq, Eq)]
pub enum SessionError {
    /// `connect` was called while connecting or connected.
    AlreadyActive,
    /// A handshake outcome arrived while no handshake was under way.
    NotConnecting,
    /// The request needs a live connection and there is none.
    NotConnected,
    /// The peer closed the connection.
    ConnectionClosed,
    /// The transport failed; the text says how.
    Transport(String),
}

impl Clone for SessionError {
    fn clone(&self) -> (copy: Self)
        ensures
            copy == *self,
    {
        match self {
            SessionError::AlreadyActive => SessionError::AlreadyActive,
            SessionError::NotConnecting => SessionError::NotConnecting,
            SessionError::NotConnected => SessionError::NotConnected,
            SessionError::ConnectionClosed => SessionError::ConnectionClosed,
            SessionError::Transport(cause) => SessionError::Transport(cause.clone()),
        }
    }
}

impl SessionError {
    /// The line that reports the error to the operator.
    pub open spec fn text(&self) -> Seq<char> {
        match *self {
            SessionError::AlreadyActive => "Already connecting or connected"@,
            SessionError::NotConnecting => "No connection attempt is under way"@,
            SessionError::NotConnected => "Socket is not connected"@,
            SessionError::ConnectionClosed => "Connection closed"@,
            SessionError::Transport(cause) => cause@,
        }
    }

    /// The line that reports the error to the operator.
    pub fn message(&self) -> (line: String)
        ensures
            line@ == self.text(),
    {
        match self {
            SessionError::AlreadyActive => String::from_str("Already connecting or connected"),
            SessionError::NotConnecting => String::from_str("No connection attempt is under way"),
            SessionError::NotConnected => String::from_str("Socket is not connected"),
            SessionError::ConnectionClosed => String::from_str("Connection closed"),
            SessionError::Transport(cause) => cause.clone(),
        }
    }
}

/// What came of one bounded attempt to read from the transport.
pub enum ReadOutcome {
    /// Nothing has arrived yet.
    Pending,
    /// These bytes arrived.
    Data(Vec<u8>),
    /// The peer closed the connection.
    Closed,
    /// The read failed; the text says how.
    Failed(String),
}

/// What one attempt to read came to, as the contracts see it.
pub ghost enum ReadView {
    Pending,
    Data(Seq<u8>),
    Closed,
    Failed(Seq<char>),
}

impl View for ReadOutcome {
    type V = ReadView;

    open spec fn view(&self) -> ReadView {
        match *self {
            ReadOutcome::Pending => ReadView::Pending,
            ReadOutcome::Data(bytes) => ReadView::Data(bytes@),
            ReadOutcome::Closed => ReadView::Closed,
            ReadOutcome::Failed(cause) => ReadView::Failed(cause@),
        }
    }
}

/// The spinner's glyph number `i`.
pub open spec fn spinner_frame(i: int) -> Seq<char> {
    if i == 0 {
        "\u{280b}"@
    } else if i == 1 {
        "\u{2819}"@
    } else if i == 2 {
        "\u{2839}"@
    } else if i == 3 {
        "\u{2838}"@
    } else if i == 4 {
        "\u{283c}"@
    } else if i == 5 {
        "\u{2834}"@
    } else if i == 6 {
        "\u{2826}"@
    } else if i == 7 {
        "\u{2827}"@
    } else if i == 8 {
        "\u{2807}"@
    } else {
        "\u{280f}"@
    }
}

/// The glyph shown at animation tick `tick`.
pub open spec fn spinner_glyph(tick: nat) -> Seq<char> {
    spinner_frame(tick as int % SPINNER_FRAME_COUNT as int)
}

/// The line that describes a session in state `state` at tick `tick`. A
/// failed session reads as a disconnected one: why it failed is for the log.
pub open spec fn status_text(state: SessionView, tick: nat) -> Seq<char> {
    match state {
        SessionView::Disconnected => "Disconnected"@,
        SessionView::Connecting { target_name, .. } => spinner_glyph(tick) + "Connecting to "@
            + target_name + "..."@,
        SessionView::Connected { target_name, peer_address } => target_name + " / "@
            + peer_address,
        SessionView::Failed { .. } => "Disconnected"@,
    }
}

/// Whether `connect` is accepted in `state`.
pub open spec fn accepts_connect(state: SessionView) -> bool {
    state is Disconnected || state is Failed
}

/// The state after `connect` to the target called `name` at tick `tick`.
pub open spec fn after_connect(state: SessionView, name: Seq<char>, tick: nat) -> SessionView {
    if accepts_connect(state) {
        SessionView::Connecting { target_name: name, started_at: tick }
    } else {
        state
    }
}

/// The state after a handshake ended: with the peer's address, or with the
/// reason for which it failed.
pub open spec fn after_handshake(
    state: SessionView,
    outcome: Result<Seq<char>, Seq<char>>,
) -> SessionView {
    match state {
        SessionView::Connecting { target_name, .. } => match outcome {
            Ok(peer_address) => SessionView::Connected { target_name, peer_address },
            Err(reason) => SessionView::Failed { reason },
        },
        _ => state,
    }
}

/// What a failed write is reported as.
pub open spec fn send_failure(cause: Seq<char>) -> Seq<char> {
    "Failed to send data: "@ + cause
}

/// What a failed read is reported as.
pub open spec fn receive_failure(cause: Seq<char>) -> Seq<char> {
    "Failed to read data: "@ + cause
}

/// What a failed shutdown is reported as.
pub open spec fn disconnect_failure(cause: Seq<char>) -> Seq<char> {
    "Failed to disconnect: "@ + cause
}

/// The state after a write ended.
pub open spec fn after_send(state: SessionView, written: Result<(), Seq<char>>) -> SessionView {
    match (state, written) {
        (SessionView::Connected { .. }, Err(cause)) => SessionView::Failed {
            reason: send_failure(cause),
        },
        _ => state,
    }
}

/// The state after an attempt to read.
pub open spec fn after_receive(state: SessionView, outcome: ReadView) -> SessionView {
    match (state, outcome) {
        (SessionView::Connected { .. }, ReadView::Closed) => SessionView::Disconnected,
        (SessionView::Connected { .. }, ReadView::Failed(cause)) => SessionView::Failed {
            reason: receive_failure(cause),
        },
        _ => state,
    }
}

/// The state after `disconnect`.
pub open spec fn after_disconnect(state: SessionView) -> SessionView {
    if state is Connected {
        SessionView::Disconnected
    } else {
        state
    }
}

/// What the session answers to a handshake outcome: nothing on success,
/// else the line that reports the failure.
pub open spec fn handshake_complaint(
    state: SessionView,
    outcome: Result<Seq<char>, Seq<char>>,
) -> Option<Seq<char>> {
    if !(state is Connecting) {
        Some(SessionError::NotConnecting.text())
    } else {
        match outcome {
            Ok(_) => None,
            Err(reason) => Some(reason),
        }
    }
}

/// What the session answers to the outcome of a write: nothing on success,
/// else the line that reports the failure.
pub open spec fn send_complaint(state: SessionView, written: Result<(), Seq<char>>) -> Option<
    Seq<char>,
> {
    if !(state is Connected) {
        Some(SessionError::NotConnected.text())
    } else {
        match written {
            Ok(_) => None,
            Err(cause) => Some(send_failure(cause)),
        }
    }
}

/// What the session answers to an attempt to read: the text that arrived,
/// or the line that reports why none did.
pub open spec fn receive_answer(state: SessionView, outcome: ReadView) -> Result<
    Seq<char>,
    Seq<char>,
> {
    if !(state is Connected) {
        Err(SessionError::NotConnected.text())
    } else {
        match outcome {
            ReadView::Pending => Ok(Seq::empty()),
            ReadView::Data(bytes) => Ok(utf8_lossy(bytes)),
            ReadView::Closed => Err(SessionError::ConnectionClosed.text()),
            ReadView::Failed(cause) => Err(receive_failure(cause)),
        }
    }
}

/// The spinner shows the same glyph again after `SPINNER_FRAME_COUNT`
/// ticks, and with it the status line of every state reads the same.
pub proof fn lemma_status_text_periodic(state: SessionView, tick: nat)
    ensures
        spinner_glyph(tick + SPINNER_FRAME_COUNT as nat) == spinner_glyph(tick),
        status_text(state, tick + SPINNER_FRAME_COUNT as nat) == status_text(state, tick),
{
    lemma_mod_add_multiples_vanish(tick as int, SPINNER_FRAME_COUNT as int);
}

/// The text that `String::from_utf8_lossy` makes of `bytes`.
pub uninterp spec fn utf8_lossy(bytes: Seq<u8>) -> Seq<char>;

/// Calls `String::from_utf8_lossy` and takes the text it gives as an owned
/// string. Nothing is claimed of the text but that it is the one that
/// function makes of these bytes.
#[verifier::external_body]
fn decode_lossy(bytes: &Vec<u8>) -> (text: String)
    ensures
        text@ == utf8_lossy(bytes@),
{
    String::from_utf8_lossy(bytes.as_slice()).into_owned()
}

/// The network session.
pub struct NetworkManager<T> {
    state: SessionState<T>,
}

impl<T> View for NetworkManager<T> {
    type V = SessionView;

    closed spec fn view(&self) -> SessionView {
        self.state@
    }
}

/// The spinner's glyph number `i`.
fn spinner_frame_text(i: u64) -> (glyph: &'static str)
    requires
        i < SPINNER_FRAME_COUNT,
    ensures
        glyph@ == spinner_frame(i as int),
{
    if i == 0 {
        "\u{280b}"
    } else if i == 1 {
        "\u{2819}"
    } else if i == 2 {
        "\u{2839}"
    } else if i == 3 {
        "\u{2838}"
    } else if i == 4 {
        "\u{283c}"
    } else if i == 5 {
        "\u{2834}"
    } else if i == 6 {
        "\u{2826}"
    } else if i == 7 {
        "\u{2827}"
    } else if i == 8 {
        "\u{2807}"
    } else {
        "\u{280f}"
    }
}

impl<T> NetworkManager<T> {
    /// The transport handle that the session holds.
    pub closed spec fn handle(&self) -> Option<T> {
        self.state.handle()
    }

    /// A transport handle is held in the connected state and in no other.
    pub proof fn lemma_handle_iff_connected(&self)
        ensures
            self.handle() is Some <==> self@ is Connected,
    {
    }

    /// A session with no connection.
    pub fn new() -> (session: Self)
        ensures
            session@ == SessionView::Disconnected,
            session.handle() is None,
    {
        NetworkManager { state: SessionState::Disconnected }
    }

    /// The state the session is in.
    pub fn state(&self) -> (state: &SessionState<T>)
        ensures
            state@ == self@,
            state.handle() == self.handle(),
    {
        &self.state
    }

    /// Whether a connection is live.
    pub fn is_connected(&self) -> (connected: bool)
        ensures
            connected == (self@ is Connected),
            connected == (self.handle() is Some),
    {
        match &self.state {
            SessionState::Connected { .. } => true,
            _ => false,
        }
    }

    /// The transport handle, lent out while a connection is live.
    pub fn transport(&self) -> (handle: Option<&T>)
        ensures
            match handle {
                Some(transport) => self.handle() == Some(*transport),
                None => self.handle() is None,
            },
    {
        match &self.state {
            SessionState::Connected { transport, .. } => Some(transport),
            _ => None,
        }
    }

    /// A summary of the state: its kind, and the reason where it failed.
    pub fn status(&self) -> (status: NetworkStatus)
        ensures
            match self@ {
                SessionView::Disconnected => status == NetworkStatus::Disconnected,
                SessionView::Connecting { .. } => status == NetworkStatus::Connecting,
                SessionView::Connected { .. } => status == NetworkStatus::Connected,
                SessionView::Failed { reason } => status matches NetworkStatus::Error(text)
                    && text@ == reason,
            },
    {
        match &self.state {
            SessionState::Disconnected => NetworkStatus::Disconnected,
            SessionState::Connecting { .. } => NetworkStatus::Connecting,
            SessionState::Connected { .. } => NetworkStatus::Connected,
            SessionState::Failed { reason } => NetworkStatus::Error(reason.clone()),
        }
    }

    /// Begins a connection to `connection` at tick `tick`.
    ///
    /// Accepted when the session is disconnected or has failed: the session
    /// is then connecting, and the caller starts the handshake. Refused with
    /// `AlreadyActive` otherwise, and nothing changes.
    pub fn connect(&mut self, connection: &Connection, tick: u64) -> (result: Result<
        (),
        SessionError,
    >)
        ensures
            final(self)@ == after_connect(old(self)@, connection.name@, tick as nat),
            final(self).handle() == old(self).handle(),
            accepts_connect(old(self)@) ==> result is Ok,
            !accepts_connect(old(self)@) ==> result == Err::<(), SessionError>(
                SessionError::AlreadyActive,
            ) && *final(self) == *old(self),
    {
        match &self.state {
            SessionState::Connecting { .. } => Err(SessionError::AlreadyActive),
            SessionState::Connected { .. } => Err(SessionError::AlreadyActive),
            _ => {
                self.state =
                SessionState::Connecting {
                    target_name: connection.name.clone(),
                    started_at: tick,
                };
                Ok(())
            },
        }
    }

    /// Takes in how the handshake ended: with the peer's address and the
    /// transport, or with the reason for which it failed.
    ///
    /// While connecting, success makes the session connected and failure
    /// makes it failed, which is reported as `Transport` with the reason.
    /// In any other state the outcome is dropped and `NotConnecting` returned.
    pub fn complete_connect(&mut self, outcome: Result<(String, T), String>) -> (result: Result<
        (),
        SessionError,
    >)
        ensures
            final(self)@ == after_handshake(
                old(self)@,
                match outcome {
                    Ok(pair) => Ok(pair.0@),
                    Err(reason) => Err(reason@),
                },
            ),
            old(self)@ is Connecting ==> match outcome {
                Ok(pair) => result is Ok && final(self).handle() == Some(pair.1),
                Err(reason) => result == Err::<(), SessionError>(SessionError::Transport(reason))
                    && final(self).handle() is None,
            },
            !(old(self)@ is Connecting) ==> result == Err::<(), SessionError>(
                SessionError::NotConnecting,
            ) && *final(self) == *old(self),
    {
        let mut prior = SessionState::Disconnected;
        core::mem::swap(&mut self.state, &mut prior);
        match prior {
            SessionState::Connecting { target_name, started_at } => match outcome {
                Ok((peer_address, transport)) => {
                    self.state = SessionState::Connected { target_name, peer_address, transport };
                    Ok(())
                },
                Err(reason) => {
                    self.state = SessionState::Failed { reason: reason.clone() };
                    Err(SessionError::Transport(reason))
                },
            },
            other => {
                self.state = other;
                Err(SessionError::NotConnecting)
            },
        }
    }

    /// Takes in how a write of a whole line ended.
    ///
    /// A failed write makes the session failed, and the same text is
    /// returned in `Transport`. Outside a live connection nothing changes
    /// and `NotConnected` is returned.
    pub fn send(&mut self, written: Result<(), String>) -> (result: Result<(), SessionError>)
        ensures
            final(self)@ == after_send(
                old(self)@,
                match written {
                    Ok(_) => Ok(()),
                    Err(cause) => Err(cause@),
                },
            ),
            !(old(self)@ is Connected) ==> result == Err::<(), SessionError>(
                SessionError::NotConnected,
            ) && *final(self) == *old(self),
            old(self)@ is Connected ==> match written {
                Ok(_) => result is Ok && *final(self) == *old(self),
                Err(cause) => result matches Err(SessionError::Transport(text)) && text@
                    == send_failure(cause@) && final(self).handle() is None,
            },
    {
        if !self.is_connected() {
            return Err(SessionError::NotConnected);
        }
        match written {
            Ok(_) => Ok(()),
            Err(cause) => {
                let mut text = String::from_str("Failed to send data: ");
                text.append(cause.as_str());
                self.state = SessionState::Failed { reason: text.clone() };
                Err(SessionError::Transport(text))
            },
        }
    }

    /// Takes in what one bounded attempt to read came to.
    ///
    /// Nothing pending is the empty text; bytes are returned as text; a
    /// closed connection makes the session disconnected and is reported as
    /// `ConnectionClosed`; a failed read makes the session failed and the
    /// same text is returned in `Transport`. Outside a live connection
    /// nothing changes and `NotConnected` is returned.
    pub fn receive(&mut self, outcome: ReadOutcome) -> (result: Result<String, SessionError>)
        ensures
            final(self)@ == after_receive(old(self)@, outcome@),
            !(old(self)@ is Connected) ==> result == Err::<String, SessionError>(
                SessionError::NotConnected,
            ) && *final(self) == *old(self),
            old(self)@ is Connected ==> match outcome {
                ReadOutcome::Pending => result matches Ok(text) && text@ == Seq::<char>::empty()
                    && *final(self) == *old(self),
                ReadOutcome::Data(bytes) => result matches Ok(text) && text@ == utf8_lossy(bytes@)
                    && *final(self) == *old(self),
                ReadOutcome::Closed => result == Err::<String, SessionError>(
                    SessionError::ConnectionClosed,
                ) && final(self).handle() is None,
                ReadOutcome::Failed(cause) => result matches Err(SessionError::Transport(text))
                    && text@ == receive_failure(cause@) && final(self).handle() is None,
            },
    {
        if !self.is_connected() {
            return Err(SessionError::NotConnected);
        }
        match outcome {
            ReadOutcome::Pending => Ok(String::new()),
            ReadOutcome::Data(bytes) => Ok(decode_lossy(&bytes)),
            ReadOutcome::Closed => {
                self.state = SessionState::Disconnected;
                Err(SessionError::ConnectionClosed)
            },
            ReadOutcome::Failed(cause) => {
                let mut text = String::from_str("Failed to read data: ");
                text.append(cause.as_str());
                self.state = SessionState::Failed { reason: text.clone() };
                Err(SessionError::Transport(text))
            },
        }
    }

    /// Gives up the connection: the session is disconnected and the
    /// transport is handed to the caller, who shuts it down.
    ///
    /// Outside a live connection nothing changes and `NotConnected` is
    /// returned.
    pub fn disconnect(&mut self) -> (result: Result<T, SessionError>)
        ensures
            final(self)@ == after_disconnect(old(self)@),
            final(self).handle() is None,
            result is Ok ==> final(self)@ is Disconnected,
            old(self)@ is Connected ==> (result matches Ok(transport) && old(self).handle()
                == Some(transport)),
            !(old(self)@ is Connected) ==> result == Err::<T, SessionError>(
                SessionError::NotConnected,
            ) && *final(self) == *old(self),
    {
        let mut prior = SessionState::Disconnected;
        core::mem::swap(&mut self.state, &mut prior);
        match prior {
            SessionState::Connected { transport, .. } => Ok(transport),
            other => {
                self.state = other;
                Err(SessionError::NotConnected)
            },
        }
    }

    /// What `disconnect` comes to once the caller has shut the transport
    /// down: a failed shutdown is reported, and changes nothing else.
    pub fn finish_disconnect(shutdown: Result<(), String>) -> (result: Result<(), SessionError>)
        ensures
            match shutdown {
                Ok(_) => result is Ok,
                Err(cause) => result matches Err(SessionError::Transport(text)) && text@
                    == disconnect_failure(cause@),
            },
    {
        match shutdown {
            Ok(_) => Ok(()),
            Err(cause) => {
                let mut text = String::from_str("Failed to disconnect: ");
                text.append(cause.as_str());
                Err(SessionError::Transport(text))
            },
        }
    }

    /// The status line for animation tick `tick`.
    pub fn get_address(&self, tick: u64) -> (text: String)
        ensures
            text@ == status_text(self@, tick as nat),
    {
        match &self.state {
            SessionState::Connected { target_name, peer_address, .. } => {
                let mut text = target_name.clone();
                text.append(" / ");
                text.append(peer_address.as_str());
                text
            },
            SessionState::Connecting { target_name, .. } => {
                let mut text = String::from_str(spinner_frame_text(tick % SPINNER_FRAME_COUNT));
                text.append("Connecting to ");
                text.append(target_name.as_str());
                text.append("...");
                text
            },
            SessionState::Disconnected => String::from_str("Disconnected"),
            SessionState::Failed { .. } => String::from_str("Disconnected"),
        }
    }
}

} // verus!
