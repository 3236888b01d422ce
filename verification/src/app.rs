//! The state of the application, owned by the event loop.

use crate::config::{resolved, ConnectionConfig, ConnectionView, Ipv4Address};
use crate::network::{
    after_handshake,
    after_receive,
    after_send,
    handshake_complaint,
    receive_answer,
    send_complaint,
    NetworkManager,
    ReadOutcome,
    ReadView,
    SessionState,
    SessionView,
};
use crate::text::texts;
use vstd::prelude::*;

verus! {

/// Everything the event loop keeps between two iterations.
pub struct Application<T> {
    /// The line being typed.
    pub input: String,
    /// What was submitted, received and reported so far, oldest first.
    pub log: Vec<String>,
    pub globals: Vec<String>,
    /// Whether the connection picker is shown.
    pub show_popup: bool,
    /// The saved targets that the picker lists.
    pub config: ConnectionConfig,
    pub network_manager: NetworkManager<T>,
    /// The picker's highlighted row.
    pub selected_connection: usize,
    /// The animation tick: the number of frames rendered so far.
    pub tick: u64,
}

/// The application's state as the contracts see it.
pub ghost struct ApplicationView {
    pub session: SessionView,
    pub input: Seq<char>,
    pub log: Seq<Seq<char>>,
    pub globals: Seq<Seq<char>>,
    pub show_popup: bool,
    pub registry: Seq<ConnectionView>,
    pub selected: nat,
    pub tick: nat,
}

impl<T> View for Application<T> {
    type V = ApplicationView;

    open spec fn view(&self) -> ApplicationView {
        ApplicationView {
            session: self.network_manager@,
            input: self.input@,
            log: texts(self.log@),
            globals: texts(self.globals@),
            show_popup: self.show_popup,
            registry: self.config@,
            selected: self.selected_connection as nat,
            tick: self.tick as nat,
        }
    }
}

/// The state after the typed line was submitted: the line stands at the end
/// of the log and the input is empty.
pub open spec fn after_submit(app: ApplicationView) -> ApplicationView {
    ApplicationView { log: app.log.push(app.input), input: Seq::empty(), ..app }
}

/// The state with `line` written to the end of the log.
pub open spec fn logged(app: ApplicationView, line: Seq<char>) -> ApplicationView {
    ApplicationView { log: app.log.push(line), ..app }
}

/// The state with the line of `complaint`, if there is one, written to the
/// end of the log.
pub open spec fn with_complaint(app: ApplicationView, complaint: Option<Seq<char>>) -> ApplicationView {
    match complaint {
        Some(line) => logged(app, line),
        None => app,
    }
}

/// The state after the handshake ended: the session takes the outcome in,
/// and a failure is written to the log.
pub open spec fn after_handshake_report(
    app: ApplicationView,
    outcome: Result<Seq<char>, Seq<char>>,
) -> ApplicationView {
    with_complaint(
        ApplicationView { session: after_handshake(app.session, outcome), ..app },
        handshake_complaint(app.session, outcome),
    )
}

/// The state after a write ended: the session takes the outcome in, and a
/// failure is written to the log.
pub open spec fn after_send_report(
    app: ApplicationView,
    written: Result<(), Seq<char>>,
) -> ApplicationView {
    with_complaint(
        ApplicationView { session: after_send(app.session, written), ..app },
        send_complaint(app.session, written),
    )
}

/// The state after an attempt to read: the session takes the outcome in;
/// text that arrived is written to the log as it is, and so is the line that
/// reports a closed or failed connection.
pub open spec fn after_receive_report(app: ApplicationView, outcome: ReadView) -> ApplicationView {
    let next = ApplicationView { session: after_receive(app.session, outcome), ..app };
    match receive_answer(app.session, outcome) {
        Ok(text) => if text.len() > 0 {
            logged(next, text)
        } else {
            next
        },
        Err(line) => logged(next, line),
    }
}

/// The address that a handshake is owed to: while the session is
/// connecting, the one saved under the target's name.
pub open spec fn dial_address(app: ApplicationView) -> Option<(Ipv4Address, u16)> {
    match app.session {
        SessionView::Connecting { target_name, .. } => resolved(app.registry, target_name, None),
        _ => None,
    }
}

/// The state one tick later. The tick stops at the largest `u64`.
pub open spec fn after_tick(app: ApplicationView) -> ApplicationView {
    ApplicationView {
        tick: if app.tick < u64::MAX {
            app.tick + 1
        } else {
            app.tick
        },
        ..app
    }
}

impl<T> Application<T> {
    /// The state at startup: nothing typed or logged, no connection, the
    /// picker hidden on its first row.
    pub fn new(config: ConnectionConfig) -> (app: Self)
        ensures
            app@ == (ApplicationView {
                session: SessionView::Disconnected,
                input: Seq::empty(),
                log: Seq::empty(),
                globals: Seq::empty(),
                show_popup: false,
                registry: config@,
                selected: 0,
                tick: 0,
            }),
            app.network_manager.handle() is None,
    {
        let app = Application {
            input: String::new(),
            log: Vec::new(),
            globals: Vec::new(),
            show_popup: false,
            config,
            network_manager: NetworkManager::new(),
            selected_connection: 0,
            tick: 0,
        };
        assert(texts(app.log@) =~= Seq::empty());
        assert(texts(app.globals@) =~= Seq::empty());
        app
    }

    /// Submits the typed line unless it is empty.
    pub fn send_input(&mut self)
        ensures
            final(self)@ == (if old(self)@.input.len() > 0 {
                after_submit(old(self)@)
            } else {
                old(self)@
            }),
            final(self).network_manager == old(self).network_manager,
    {
        if !self.input.as_str().is_empty() {
            let _ = self.submit();
        }
    }

    /// Moves the typed line to the end of the log and returns a copy of it.
    pub fn submit(&mut self) -> (line: String)
        ensures
            final(self)@ == after_submit(old(self)@),
            line@ == old(self)@.input,
            final(self).network_manager == old(self).network_manager,
    {
        let mut line = String::new();
        core::mem::swap(&mut self.input, &mut line);
        let copy = line.clone();
        self.log.push(line);
        assert(texts(self.log@) =~= texts(old(self).log@).push(old(self).input@));
        copy
    }

    /// Shows the picker if it is hidden and hides it if it is shown.
    pub fn toggle_popup(&mut self)
        ensures
            final(self)@ == (ApplicationView { show_popup: !old(self)@.show_popup, ..old(self)@ }),
            final(self).network_manager == old(self).network_manager,
    {
        self.show_popup = !self.show_popup;
    }

    /// Writes `line` to the end of the log.
    pub fn log_line(&mut self, line: String)
        ensures
            final(self)@ == logged(old(self)@, line@),
            final(self).network_manager == old(self).network_manager,
    {
        self.log.push(line);
        assert(texts(self.log@) =~= texts(old(self).log@).push(line@));
    }

    /// The address to open a connection to, while the session is connecting
    /// and the registry holds its target.
    pub fn dial_target(&self) -> (target: Option<(Ipv4Address, u16)>)
        ensures
            target == dial_address(self@),
    {
        match self.network_manager.state() {
            SessionState::Connecting { target_name, .. } => self.config.resolve_target(
                target_name.as_str(),
                None,
            ),
            _ => None,
        }
    }

    /// Takes in how the handshake ended and writes a failure to the log.
    pub fn handshake_finished(&mut self, outcome: Result<(String, T), String>)
        ensures
            final(self)@ == after_handshake_report(
                old(self)@,
                match outcome {
                    Ok(pair) => Ok(pair.0@),
                    Err(reason) => Err(reason@),
                },
            ),
            old(self)@.session is Connecting ==> final(self).network_manager.handle() == (match outcome {
                Ok(pair) => Some(pair.1),
                Err(_) => None,
            }),
            !(old(self)@.session is Connecting) ==> final(self).network_manager == old(self).network_manager,
    {
        match self.network_manager.complete_connect(outcome) {
            Ok(_) => {},
            Err(error) => {
                self.log_line(error.message());
            },
        }
    }

    /// Takes in how the write of a submitted line ended and writes a failure
    /// to the log.
    pub fn line_sent(&mut self, written: Result<(), String>)
        ensures
            final(self)@ == after_send_report(
                old(self)@,
                match written {
                    Ok(_) => Ok(()),
                    Err(cause) => Err(cause@),
                },
            ),
            written is Ok || !(old(self)@.session is Connected) ==> final(self).network_manager
                == old(self).network_manager,
            written is Err && old(self)@.session is Connected ==> final(self).network_manager.handle() is None,
    {
        match self.network_manager.send(written) {
            Ok(_) => {},
            Err(error) => {
                self.log_line(error.message());
            },
        }
    }

    /// Takes in what one attempt to read came to: text that arrived goes to
    /// the log, and so does the report of a closed or failed connection.
    pub fn data_received(&mut self, outcome: ReadOutcome)
        ensures
            final(self)@ == after_receive_report(old(self)@, outcome@),
            outcome is Pending || outcome is Data || !(old(self)@.session is Connected) ==> final(self).network_manager == old(self).network_manager,
            (outcome is Closed || outcome is Failed) && old(self)@.session is Connected ==> final(self).network_manager.handle() is None,
    {
        match self.network_manager.receive(outcome) {
            Ok(text) => {
                if !text.as_str().is_empty() {
                    self.log_line(text);
                }
            },
            Err(error) => {
                self.log_line(error.message());
            },
        }
    }

    /// Counts one rendered frame.
    pub fn advance_tick(&mut self)
        ensures
            final(self)@ == after_tick(old(self)@),
            final(self).network_manager == old(self).network_manager,
    {
        if self.tick < u64::MAX {
            self.tick = self.tick + 1;
        }
    }

    /// Empties the log.
    pub fn clear_log(&mut self)
        ensures
            final(self)@ == (ApplicationView { log: Seq::empty(), ..old(self)@ }),
            final(self).network_manager == old(self).network_manager,
    {
        self.log.clear();
        assert(texts(self.log@) =~= Seq::empty());
    }
}

} // verus!
