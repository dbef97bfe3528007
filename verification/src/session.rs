//! The session state machine: from the current state and an event to the
//! next state and the actions that the embedding application must perform.
//!
//! The machine does no input or output of its own. The application opens the
//! transport, hands every inbound payload, timer tick and transport fault to
//! the session, and carries out the actions that come back, in their order.

use crate::codec::{
    attach_text, decode_device_list, decoded_device_list, encode_attach, encode_list_devices,
    encode_read, list_devices_text, read_text, string_views,
};
use crate::error::{DecodeError, ProtocolViolation, TrackerError};
use crate::evaluator::{evaluate, evaluation, LocationCheckEvent};
use crate::json::json_string_literal;
use crate::memory_layout::{standard_table, MemoryLayoutTable, TableView, SNAPSHOT_WINDOW};
use crate::snapshot::{padded, zeros, AssemblerView, Snapshot, SnapshotAssembler};
use vstd::prelude::*;

verus! {

/// Address of the byte that holds the game mode.
pub const GAMEMODE_ADDRESS: u32 = 0xF5_0010;

/// Address at which save memory starts.
pub const SAVEDATA_START: u32 = 0xF5_F000;

/// Size of the first read of a snapshot.
pub const FIRST_READ_SIZE: u32 = 0x400;

/// Offset into save memory of the second read of a snapshot. The first
/// chunk is padded up to it.
pub const SECOND_READ_OFFSET: u32 = 0x410;

/// Size of the second read of a snapshot.
pub const SECOND_READ_SIZE: u32 = 2;

/// Number of timer ticks without a chunk after which a snapshot under
/// assembly is given up as a transport fault.
pub const ASSEMBLY_TIMEOUT_TICKS: u32 = 5;

/// The address of the bridge.
pub open spec fn bridge_url_text() -> Seq<char> {
    "ws://localhost:8080"@
}

/// The address of the bridge, to which the transport connects.
pub fn bridge_url() -> (url: &'static str)
    ensures
        url@ == bridge_url_text(),
{
    "ws://localhost:8080"
}

/// Whether a game mode byte says that the game is being played.
pub open spec fn is_gameplay_mode(mode: u8) -> bool {
    mode == 0x07 || mode == 0x09 || mode == 0x0b
}

/// Whether a game mode byte says that the game is being played.
pub fn gameplay_mode(mode: u8) -> (playing: bool)
    ensures
        playing == is_gameplay_mode(mode),
{
    mode == 0x07 || mode == 0x09 || mode == 0x0b
}

/// The request that polls the game mode.
pub open spec fn poll_text() -> Seq<char> {
    read_text(GAMEMODE_ADDRESS, 1)
}

/// The first request of a snapshot read sequence.
pub open spec fn first_read_text() -> Seq<char> {
    read_text(SAVEDATA_START, FIRST_READ_SIZE)
}

/// The second request of a snapshot read sequence.
pub open spec fn second_read_text() -> Seq<char> {
    read_text((SAVEDATA_START + SECOND_READ_OFFSET) as u32, SECOND_READ_SIZE)
}

/// Where the session stands in the life of a connection.
#[derive(Debug, Clone, Copy, PartialEq, Eq, Structural)]
pub enum SessionState {
    /// No connection.
    Disconnected,
    /// The device list was requested.
    Connecting,
    /// A device is attached; the game has not been seen in play yet.
    Attached,
    /// Polling the game mode on every tick.
    Tracking,
    /// In the middle of the reads of one snapshot.
    Assembling,
}

/// What can happen to a session.
#[derive(Debug, Clone, PartialEq, Eq)]
pub enum SessionEvent {
    /// The caller asks for a connection; the transport is open.
    Connect,
    /// The caller asks to end the connection.
    Disconnect,
    /// A payload arrived.
    Message(Vec<u8>),
    /// The periodic timer fired.
    TimerTick,
    /// The transport was closed.
    TransportClosed,
    /// The transport could not connect or send.
    TransportFailed,
}

/// Mathematical model of a [`SessionEvent`].
pub enum EventView {
    Connect,
    Disconnect,
    Message(Seq<u8>),
    TimerTick,
    TransportClosed,
    TransportFailed,
}

impl View for SessionEvent {
    type V = EventView;

    open spec fn view(&self) -> EventView {
        match self {
            SessionEvent::Connect => EventView::Connect,
            SessionEvent::Disconnect => EventView::Disconnect,
            SessionEvent::Message(bytes) => EventView::Message(bytes@),
            SessionEvent::TimerTick => EventView::TimerTick,
            SessionEvent::TransportClosed => EventView::TransportClosed,
            SessionEvent::TransportFailed => EventView::TransportFailed,
        }
    }
}

/// What the embedding application must do for the session.
#[derive(Debug, Clone, PartialEq, Eq)]
pub enum SessionAction {
    /// Send this text over the transport.
    Send(String),
    /// Start the periodic timer.
    StartTimer,
    /// Pause the periodic timer: no poll is due until it is resumed.
    /// Ticks that are delivered meanwhile send nothing; they measure for
    /// how long the snapshot under assembly has been stalled.
    PauseTimer,
    /// Resume the periodic timer: ticks are polls again.
    ResumeTimer,
    /// Stop the periodic timer.
    StopTimer,
    /// Close the transport.
    Close,
    /// Hand these events to whoever displays them.
    Report(Vec<LocationCheckEvent>),
    /// Log this error; the session goes on.
    Log(TrackerError),
    /// Report this error to the caller; the session is disconnected.
    Fail(TrackerError),
}

/// Mathematical model of a [`SessionAction`].
pub enum ActionView {
    Send(Seq<char>),
    StartTimer,
    PauseTimer,
    ResumeTimer,
    StopTimer,
    Close,
    Report(Seq<LocationCheckEvent>),
    Log(TrackerError),
    Fail(TrackerError),
}

impl View for SessionAction {
    type V = ActionView;

    open spec fn view(&self) -> ActionView {
        match self {
            SessionAction::Send(text) => ActionView::Send(text@),
            SessionAction::StartTimer => ActionView::StartTimer,
            SessionAction::PauseTimer => ActionView::PauseTimer,
            SessionAction::ResumeTimer => ActionView::ResumeTimer,
            SessionAction::StopTimer => ActionView::StopTimer,
            SessionAction::Close => ActionView::Close,
            SessionAction::Report(events) => ActionView::Report(events@),
            SessionAction::Log(error) => ActionView::Log(*error),
            SessionAction::Fail(error) => ActionView::Fail(*error),
        }
    }
}

/// Model of a vector of actions: the model of each, in order.
pub open spec fn action_views(actions: Seq<SessionAction>) -> Seq<ActionView> {
    Seq::new(actions.len(), |i: int| actions[i]@)
}

/// Mathematical model of a [`Session`].
pub struct SessionView {
    pub state: SessionState,
    pub table: TableView,
    /// The snapshot under assembly.
    pub assembler: AssemblerView,
    /// The last complete snapshot, if there has been one since the
    /// connection was made.
    pub previous: Option<Seq<u8>>,
    /// The game mode last seen, if any since the connection was made.
    pub gameplay_signal: Option<u8>,
    /// Ticks since the last chunk of the snapshot under assembly.
    pub stalled_ticks: nat,
}

/// The outcome of one step: the next state of the session and the actions
/// to perform, in order.
pub struct StepView {
    pub next: SessionView,
    pub actions: Seq<ActionView>,
}

impl SessionView {
    /// A session that has never been connected.
    pub open spec fn initial(table: TableView) -> Self {
        SessionView {
            state: SessionState::Disconnected,
            table,
            assembler: AssemblerView::idle(SECOND_READ_OFFSET as nat),
            previous: None,
            gameplay_signal: None,
            stalled_ticks: 0,
        }
    }

    /// The invariant of a session.
    pub open spec fn well_formed(self) -> bool {
        &&& self.assembler.pad_to == SECOND_READ_OFFSET
        &&& self.assembler.active <==> self.state == SessionState::Assembling
        &&& self.assembler.active ==> self.assembler.expected == SNAPSHOT_WINDOW
            && !self.assembler.is_complete()
        &&& !self.assembler.active ==> self.assembler == AssemblerView::idle(
            SECOND_READ_OFFSET as nat,
        )
        &&& self.previous matches Some(bytes) ==> bytes.len() >= SNAPSHOT_WINDOW
        &&& self.stalled_ticks < ASSEMBLY_TIMEOUT_TICKS
        &&& self.state == SessionState::Disconnected ==> self.previous is None
            && self.gameplay_signal is None && self.stalled_ticks == 0
    }

    /// The session after its connection is gone: disconnected, with no
    /// snapshot, partial or complete, and no game mode.
    pub open spec fn torn_down(self) -> Self {
        SessionView {
            state: SessionState::Disconnected,
            table: self.table,
            assembler: self.assembler.cleared(),
            previous: None,
            gameplay_signal: None,
            stalled_ticks: 0,
        }
    }

    /// Nothing changes and nothing is to be done.
    pub open spec fn stay(self) -> StepView {
        StepView { next: self, actions: Seq::empty() }
    }

    /// The current sequence is aborted with `error`.
    pub open spec fn abort(self, error: TrackerError) -> StepView {
        StepView {
            next: self.torn_down(),
            actions: seq![ActionView::StopTimer, ActionView::Close, ActionView::Fail(error)],
        }
    }

    /// The caller asks for a connection. Only a disconnected session
    /// reacts: it requests the device list.
    pub open spec fn connect(self) -> StepView {
        if self.state == SessionState::Disconnected {
            StepView {
                next: SessionView { state: SessionState::Connecting, ..self },
                actions: seq![ActionView::Send(list_devices_text())],
            }
        } else {
            self.stay()
        }
    }

    /// The caller ends the connection.
    pub open spec fn disconnect(self) -> StepView {
        if self.state == SessionState::Disconnected {
            self.stay()
        } else {
            StepView {
                next: self.torn_down(),
                actions: seq![ActionView::StopTimer, ActionView::Close],
            }
        }
    }

    /// The transport was closed.
    pub open spec fn transport_closed(self) -> StepView {
        StepView { next: self.torn_down(), actions: seq![ActionView::StopTimer] }
    }

    /// The transport could not connect or send.
    pub open spec fn transport_failed(self) -> StepView {
        StepView {
            next: self.torn_down(),
            actions: seq![ActionView::StopTimer, ActionView::Fail(TrackerError::Transport)],
        }
    }

    /// The periodic timer fired. With a device attached the game mode is
    /// polled. During an assembly no request is sent: the tick counts as
    /// stalled, and the last one allowed gives the read up.
    pub open spec fn timer_tick(self) -> StepView {
        match self.state {
            SessionState::Attached | SessionState::Tracking => StepView {
                next: self,
                actions: seq![ActionView::Send(poll_text())],
            },
            SessionState::Assembling => if self.stalled_ticks + 1 >= ASSEMBLY_TIMEOUT_TICKS {
                self.abort(TrackerError::Transport)
            } else {
                StepView {
                    next: SessionView { stalled_ticks: self.stalled_ticks + 1, ..self },
                    actions: Seq::empty(),
                }
            },
            _ => self.stay(),
        }
    }

    /// A device list response was decoded while connecting. A malformed
    /// response is logged and dropped. A list without devices aborts the
    /// connection. Otherwise the first device is attached, the game mode
    /// is polled once and the timer starts.
    pub open spec fn device_list(self, decoded: Result<Seq<Seq<char>>, DecodeError>) -> StepView {
        if self.state != SessionState::Connecting {
            self.stay()
        } else {
            match decoded {
                Err(error) => StepView {
                    next: self,
                    actions: seq![ActionView::Log(TrackerError::Decode(error))],
                },
                Ok(devices) => if devices.len() == 0 {
                    self.abort(TrackerError::Protocol(ProtocolViolation::NoDevices))
                } else {
                    StepView {
                        next: SessionView { state: SessionState::Attached, ..self },
                        actions: seq![
                            ActionView::Send(attach_text(json_string_literal(devices[0]))),
                            ActionView::Send(poll_text()),
                            ActionView::StartTimer,
                        ],
                    }
                },
            }
        }
    }

    /// A poll response arrived with a device attached. Its first byte is
    /// the game mode. Where it says that the game is being played, the
    /// timer is paused and a snapshot is begun and requested.
    pub open spec fn poll_response(self, bytes: Seq<u8>) -> StepView {
        if self.state != SessionState::Attached && self.state != SessionState::Tracking {
            self.stay()
        } else if bytes.len() == 0 {
            self.stay()
        } else if is_gameplay_mode(bytes[0]) {
            StepView {
                next: SessionView {
                    state: SessionState::Assembling,
                    assembler: self.assembler.begin(SNAPSHOT_WINDOW as nat),
                    gameplay_signal: Some(bytes[0]),
                    stalled_ticks: 0,
                    ..self
                },
                actions: seq![
                    ActionView::PauseTimer,
                    ActionView::Send(first_read_text()),
                    ActionView::Send(second_read_text()),
                ],
            }
        } else {
            StepView {
                next: SessionView { gameplay_signal: Some(bytes[0]), ..self },
                actions: Seq::empty(),
            }
        }
    }

    /// The snapshot against which a new one is diffed: the last complete
    /// one, or as many zero bytes where there has been none.
    pub open spec fn baseline(self, current: Seq<u8>) -> Seq<u8> {
        match self.previous {
            Some(bytes) => bytes,
            None => zeros(current.len()),
        }
    }

    /// A chunk of the snapshot under assembly arrived. Once the snapshot
    /// is complete it is diffed against the baseline, the events are
    /// reported, the timer resumes and the snapshot becomes the baseline
    /// of the next one. A chunk that the assembler refuses aborts the
    /// connection.
    pub open spec fn chunk(self, bytes: Seq<u8>) -> StepView {
        if self.state != SessionState::Assembling {
            self.stay()
        } else {
            match self.assembler.append_error() {
                Some(violation) => self.abort(TrackerError::Protocol(violation)),
                None => {
                    let fed = self.assembler.append(bytes);
                    if fed.is_complete() {
                        StepView {
                            next: SessionView {
                                state: SessionState::Tracking,
                                assembler: fed.cleared(),
                                previous: Some(fed.bytes),
                                stalled_ticks: 0,
                                ..self
                            },
                            actions: seq![
                                ActionView::Report(
                                    evaluation(self.baseline(fed.bytes), fed.bytes, self.table),
                                ),
                                ActionView::ResumeTimer,
                            ],
                        }
                    } else {
                        StepView {
                            next: SessionView { assembler: fed, stalled_ticks: 0, ..self },
                            actions: Seq::empty(),
                        }
                    }
                },
            }
        }
    }

    /// A payload arrived. What it means depends on the state alone: a
    /// device list while connecting, a poll response with a device
    /// attached, a chunk during an assembly. A disconnected session drops
    /// it.
    pub open spec fn message(self, bytes: Seq<u8>) -> StepView {
        match self.state {
            SessionState::Disconnected => self.stay(),
            SessionState::Connecting => self.device_list(decoded_device_list(bytes)),
            SessionState::Attached | SessionState::Tracking => self.poll_response(bytes),
            SessionState::Assembling => self.chunk(bytes),
        }
    }

    /// The outcome of `event`.
    pub open spec fn step(self, event: EventView) -> StepView {
        match event {
            EventView::Connect => self.connect(),
            EventView::Disconnect => self.disconnect(),
            EventView::Message(bytes) => self.message(bytes),
            EventView::TimerTick => self.timer_tick(),
            EventView::TransportClosed => self.transport_closed(),
            EventView::TransportFailed => self.transport_failed(),
        }
    }
}

/// Model of an optional snapshot.
pub open spec fn snapshot_view(snapshot: Option<Snapshot>) -> Option<Seq<u8>> {
    match snapshot {
        Some(s) => Some(s@),
        None => None,
    }
}

/// The session: the single owner of the connection state, the snapshot
/// under assembly and the previous snapshot.
pub struct Session {
    state: SessionState,
    table: MemoryLayoutTable,
    assembler: SnapshotAssembler,
    previous: Option<Snapshot>,
    gameplay_signal: Option<u8>,
    stalled_ticks: u32,
}

impl View for Session {
    type V = SessionView;

    closed spec fn view(&self) -> SessionView {
        SessionView {
            state: self.state,
            table: self.table@,
            assembler: self.assembler@,
            previous: snapshot_view(self.previous),
            gameplay_signal: self.gameplay_signal,
            stalled_ticks: self.stalled_ticks as nat,
        }
    }
}

impl Session {
    /// A disconnected session over the standard table.
    pub fn new() -> (session: Self)
        ensures
            session@ == SessionView::initial(standard_table()),
            session@.well_formed(),
    {
        Session::with_table(MemoryLayoutTable::standard())
    }

    /// A disconnected session over `table`.
    pub fn with_table(table: MemoryLayoutTable) -> (session: Self)
        ensures
            session@ == SessionView::initial(table@),
            session@.well_formed(),
    {
        Session {
            state: SessionState::Disconnected,
            table,
            assembler: SnapshotAssembler::new(SECOND_READ_OFFSET),
            previous: None,
            gameplay_signal: None,
            stalled_ticks: 0,
        }
    }

    /// The current state.
    pub fn state(&self) -> (state: SessionState)
        ensures
            state == self@.state,
    {
        self.state
    }

    /// The table that the session evaluates against.
    pub fn table(&self) -> (table: &MemoryLayoutTable)
        ensures
            table@ == self@.table,
    {
        &self.table
    }

    /// The game mode last seen, if any since the connection was made.
    pub fn gameplay_signal(&self) -> (signal: Option<u8>)
        ensures
            signal == self@.gameplay_signal,
    {
        self.gameplay_signal
    }

    /// Drops everything that belongs to the connection.
    fn tear_down(&mut self)
        ensures
            final(self)@ == old(self)@.torn_down(),
    {
        self.state = SessionState::Disconnected;
        self.assembler.clear();
        self.previous = None;
        self.gameplay_signal = None;
        self.stalled_ticks = 0;
    }

    /// Aborts the current sequence with `error`.
    fn abort(&mut self, error: TrackerError) -> (actions: Vec<SessionAction>)
        ensures
            final(self)@ == old(self)@.abort(error).next,
            action_views(actions@) == old(self)@.abort(error).actions,
    {
        self.tear_down();
        let mut actions: Vec<SessionAction> = Vec::new();
        actions.push(SessionAction::StopTimer);
        actions.push(SessionAction::Close);
        actions.push(SessionAction::Fail(error));
        actions
    }

    /// The caller asks for a connection, the transport being open. A
    /// session that is not disconnected ignores the call.
    pub fn connect(&mut self) -> (actions: Vec<SessionAction>)
        ensures
            final(self)@ == old(self)@.connect().next,
            action_views(actions@) == old(self)@.connect().actions,
            old(self)@.well_formed() ==> final(self)@.well_formed(),
    {
        let mut actions: Vec<SessionAction> = Vec::new();
        match self.state {
            SessionState::Disconnected => {
                self.state = SessionState::Connecting;
                actions.push(SessionAction::Send(encode_list_devices()));
            },
            _ => {},
        }
        actions
    }

    /// The caller ends the connection.
    pub fn disconnect(&mut self) -> (actions: Vec<SessionAction>)
        ensures
            final(self)@ == old(self)@.disconnect().next,
            action_views(actions@) == old(self)@.disconnect().actions,
            old(self)@.well_formed() ==> final(self)@.well_formed(),
    {
        let mut actions: Vec<SessionAction> = Vec::new();
        match self.state {
            SessionState::Disconnected => {},
            _ => {
                self.tear_down();
                actions.push(SessionAction::StopTimer);
                actions.push(SessionAction::Close);
            },
        }
        actions
    }

    /// The transport was closed.
    pub fn on_transport_closed(&mut self) -> (actions: Vec<SessionAction>)
        ensures
            final(self)@ == old(self)@.transport_closed().next,
            action_views(actions@) == old(self)@.transport_closed().actions,
            old(self)@.well_formed() ==> final(self)@.well_formed(),
    {
        self.tear_down();
        let mut actions: Vec<SessionAction> = Vec::new();
        actions.push(SessionAction::StopTimer);
        actions
    }

    /// The transport could not connect or send.
    pub fn on_transport_failed(&mut self) -> (actions: Vec<SessionAction>)
        ensures
            final(self)@ == old(self)@.transport_failed().next,
            action_views(actions@) == old(self)@.transport_failed().actions,
            old(self)@.well_formed() ==> final(self)@.well_formed(),
    {
        self.tear_down();
        let mut actions: Vec<SessionAction> = Vec::new();
        actions.push(SessionAction::StopTimer);
        actions.push(SessionAction::Fail(TrackerError::Transport));
        actions
    }

    /// The periodic timer fired.
    pub fn on_timer_tick(&mut self) -> (actions: Vec<SessionAction>)
        ensures
            final(self)@ == old(self)@.timer_tick().next,
            action_views(actions@) == old(self)@.timer_tick().actions,
            old(self)@.well_formed() ==> final(self)@.well_formed(),
    {
        match self.state {
            SessionState::Attached | SessionState::Tracking => {
                let mut actions: Vec<SessionAction> = Vec::new();
                actions.push(SessionAction::Send(encode_read(GAMEMODE_ADDRESS, 1)));
                actions
            },
            SessionState::Assembling => {
                if self.stalled_ticks >= ASSEMBLY_TIMEOUT_TICKS - 1 {
                    self.abort(TrackerError::Transport)
                } else {
                    self.stalled_ticks = self.stalled_ticks + 1;
                    let actions: Vec<SessionAction> = Vec::new();
                    actions
                }
            },
            _ => {
                let actions: Vec<SessionAction> = Vec::new();
                actions
            },
        }
    }

    /// A device list response was decoded. Only a connecting session
    /// reacts.
    pub fn on_device_list(&mut self, decoded: Result<Vec<String>, DecodeError>) -> (actions: Vec<
        SessionAction,
    >)
        ensures
            final(self)@ == old(self)@.device_list(device_list_view(decoded)).next,
            action_views(actions@) == old(self)@.device_list(device_list_view(decoded)).actions,
            old(self)@.well_formed() ==> final(self)@.well_formed(),
    {
        match self.state {
            SessionState::Connecting => {},
            _ => {
                let actions: Vec<SessionAction> = Vec::new();
                return actions;
            },
        }
        match decoded {
            Err(error) => {
                let mut actions: Vec<SessionAction> = Vec::new();
                actions.push(SessionAction::Log(TrackerError::Decode(error)));
                actions
            },
            Ok(devices) => {
                if devices.len() == 0 {
                    self.abort(TrackerError::Protocol(ProtocolViolation::NoDevices))
                } else {
                    self.state = SessionState::Attached;
                    let mut actions: Vec<SessionAction> = Vec::new();
                    actions.push(SessionAction::Send(encode_attach(devices[0].as_str())));
                    actions.push(SessionAction::Send(encode_read(GAMEMODE_ADDRESS, 1)));
                    actions.push(SessionAction::StartTimer);
                    actions
                }
            },
        }
    }

    /// A poll response arrived. Only a session with a device attached
    /// reacts.
    pub fn on_poll_response(&mut self, bytes: &[u8]) -> (actions: Vec<SessionAction>)
        ensures
            final(self)@ == old(self)@.poll_response(bytes@).next,
            action_views(actions@) == old(self)@.poll_response(bytes@).actions,
            old(self)@.well_formed() ==> final(self)@.well_formed(),
    {
        let mut actions: Vec<SessionAction> = Vec::new();
        match self.state {
            SessionState::Attached | SessionState::Tracking => {
                if bytes.len() > 0 {
                    let mode: u8 = bytes[0];
                    self.gameplay_signal = Some(mode);
                    if gameplay_mode(mode) {
                        self.state = SessionState::Assembling;
                        self.assembler.begin(SNAPSHOT_WINDOW);
                        self.stalled_ticks = 0;
                        actions.push(SessionAction::PauseTimer);
                        actions.push(
                            SessionAction::Send(encode_read(SAVEDATA_START, FIRST_READ_SIZE)),
                        );
                        actions.push(
                            SessionAction::Send(
                                encode_read(SAVEDATA_START + SECOND_READ_OFFSET, SECOND_READ_SIZE),
                            ),
                        );
                    }
                }
            },
            _ => {},
        }
        actions
    }

    /// A chunk of the snapshot under assembly arrived. Only an assembling
    /// session reacts.
    pub fn on_chunk(&mut self, bytes: &[u8]) -> (actions: Vec<SessionAction>)
        ensures
            final(self)@ == old(self)@.chunk(bytes@).next,
            action_views(actions@) == old(self)@.chunk(bytes@).actions,
            old(self)@.well_formed() ==> final(self)@.well_formed(),
    {
        match self.state {
            SessionState::Assembling => {},
            _ => {
                let actions: Vec<SessionAction> = Vec::new();
                return actions;
            },
        }
        match self.assembler.append(bytes) {
            Err(violation) => {
                return self.abort(TrackerError::Protocol(violation));
            },
            Ok(_) => {},
        }
        self.stalled_ticks = 0;
        let mut actions: Vec<SessionAction> = Vec::new();
        match self.assembler.take() {
            Ok(current) => {
                let events = match &self.previous {
                    Some(previous) => evaluate(previous, &current, &self.table),
                    None => {
                        let baseline = Snapshot::zeroed(current.len());
                        evaluate(&baseline, &current, &self.table)
                    },
                };
                self.previous = Some(current);
                self.state = SessionState::Tracking;
                actions.push(SessionAction::Report(events));
                actions.push(SessionAction::ResumeTimer);
            },
            Err(_) => {},
        }
        actions
    }

    /// A payload arrived. The state decides what it is taken for.
    pub fn on_message(&mut self, bytes: &[u8]) -> (actions: Vec<SessionAction>)
        ensures
            final(self)@ == old(self)@.message(bytes@).next,
            action_views(actions@) == old(self)@.message(bytes@).actions,
            old(self)@.well_formed() ==> final(self)@.well_formed(),
    {
        match self.state {
            SessionState::Disconnected => {
                let actions: Vec<SessionAction> = Vec::new();
                actions
            },
            SessionState::Connecting => {
                let decoded = decode_device_list(bytes);
                self.on_device_list(decoded)
            },
            SessionState::Attached | SessionState::Tracking => self.on_poll_response(bytes),
            SessionState::Assembling => self.on_chunk(bytes),
        }
    }

    /// Takes one event and returns the actions to perform, in order.
    pub fn step(&mut self, event: SessionEvent) -> (actions: Vec<SessionAction>)
        ensures
            final(self)@ == old(self)@.step(event@).next,
            action_views(actions@) == old(self)@.step(event@).actions,
            old(self)@.well_formed() ==> final(self)@.well_formed(),
    {
        match event {
            SessionEvent::Connect => self.connect(),
            SessionEvent::Disconnect => self.disconnect(),
            SessionEvent::Message(bytes) => self.on_message(bytes.as_slice()),
            SessionEvent::TimerTick => self.on_timer_tick(),
            SessionEvent::TransportClosed => self.on_transport_closed(),
            SessionEvent::TransportFailed => self.on_transport_failed(),
        }
    }
}

/// Model of a decoded device list.
pub open spec fn device_list_view(decoded: Result<Vec<String>, DecodeError>) -> Result<
    Seq<Seq<char>>,
    DecodeError,
> {
    match decoded {
        Ok(devices) => Ok(string_views(devices@)),
        Err(error) => Err(error),
    }
}

/// Every step keeps the invariant of the session.
pub proof fn lemma_step_keeps_well_formed(session: SessionView, event: EventView)
    requires
        session.well_formed(),
    ensures
        session.step(event).next.well_formed(),
{
}

/// A call for a connection changes nothing and sends nothing unless the
/// session is disconnected: while connecting, the state and the pending
/// device list request stay as they are.
pub proof fn lemma_connect_only_when_disconnected(session: SessionView)
    requires
        session.state != SessionState::Disconnected,
    ensures
        session.connect().next == session,
        session.connect().actions == Seq::<ActionView>::empty(),
{
}

/// A disconnected session stays disconnected, and sends nothing, until the
/// caller asks for a connection: the session never reconnects by itself.
pub proof fn lemma_only_connect_leaves_disconnected(session: SessionView, event: EventView)
    requires
        session.state == SessionState::Disconnected,
        event != EventView::Connect,
    ensures
        session.step(event).next.state == SessionState::Disconnected,
        forall|i: int|
            0 <= i < session.step(event).actions.len() ==> !(
            #[trigger] session.step(event).actions[i] is Send),
{
}

/// No request is sent on a tick while a snapshot is under assembly, so two
/// read sequences are never in flight at once.
pub proof fn lemma_no_request_while_assembling(session: SessionView)
    requires
        session.state == SessionState::Assembling,
    ensures
        forall|i: int|
            0 <= i < session.timer_tick().actions.len() ==> !(
            #[trigger] session.timer_tick().actions[i] is Send),
{
}

/// The session after `n` timer ticks in a row, with nothing in between.
pub open spec fn after_ticks(session: SessionView, n: nat) -> SessionView
    decreases n,
{
    if n == 0 {
        session
    } else {
        after_ticks(session, (n - 1) as nat).timer_tick().next
    }
}

proof fn lemma_ticks_count_up(session: SessionView, n: nat)
    requires
        session.well_formed(),
        session.state == SessionState::Assembling,
    ensures
        after_ticks(session, n) == if session.stalled_ticks + n >= ASSEMBLY_TIMEOUT_TICKS {
            session.torn_down()
        } else {
            SessionView { stalled_ticks: session.stalled_ticks + n, ..session }
        },
    decreases n,
{
    if n > 0 {
        lemma_ticks_count_up(session, (n - 1) as nat);
    }
}

/// An assembly does not wait forever: when no chunk arrives for
/// `ASSEMBLY_TIMEOUT_TICKS` ticks, the session has given the snapshot up
/// and is disconnected, with nothing of the partial snapshot left.
pub proof fn lemma_stalled_assembly_ends(session: SessionView)
    requires
        session.well_formed(),
        session.state == SessionState::Assembling,
    ensures
        after_ticks(session, ASSEMBLY_TIMEOUT_TICKS as nat) == session.torn_down(),
        after_ticks(session, ASSEMBLY_TIMEOUT_TICKS as nat).state == SessionState::Disconnected,
{
    lemma_ticks_count_up(session, ASSEMBLY_TIMEOUT_TICKS as nat);
}

/// Once the transport is closed nothing of the old connection is left: the
/// session is disconnected, the assembler is at rest with an empty buffer,
/// and there is no previous snapshot and no game mode.
pub proof fn lemma_closure_clears_snapshots(session: SessionView)
    requires
        session.well_formed(),
    ensures
        session.transport_closed().next.state == SessionState::Disconnected,
        session.transport_closed().next.assembler == AssemblerView::idle(SECOND_READ_OFFSET as nat),
        session.transport_closed().next.assembler.bytes == Seq::<u8>::empty(),
        session.transport_closed().next.previous is None,
        session.transport_closed().next.gameplay_signal is None,
        session.transport_closed().next == SessionView::initial(session.table),
{
}

/// A connection made after a closure starts afresh. Whatever the session
/// held when the transport was closed, be it a partial snapshot or a
/// previous one, the first snapshot of the next connection is made of the
/// chunks of that connection alone, and it is diffed against zero bytes.
pub proof fn lemma_reconnect_starts_afresh(
    session: SessionView,
    devices: Seq<Seq<char>>,
    mode: u8,
    chunk1: Seq<u8>,
    chunk2: Seq<u8>,
)
    requires
        session.well_formed(),
        devices.len() > 0,
        is_gameplay_mode(mode),
        padded(chunk1, SECOND_READ_OFFSET as nat).len() < SNAPSHOT_WINDOW,
        padded(chunk1, SECOND_READ_OFFSET as nat).len() + chunk2.len() >= SNAPSHOT_WINDOW,
    ensures
        ({
            let closed = session.transport_closed().next;
            let connecting = closed.connect().next;
            let attached = connecting.device_list(Ok(devices)).next;
            let assembling = attached.message(seq![mode]).next;
            let fed = assembling.message(chunk1).next;
            let done = fed.message(chunk2);
            let snapshot = padded(chunk1, SECOND_READ_OFFSET as nat) + chunk2;
            &&& connecting.state == SessionState::Connecting
            &&& attached.state == SessionState::Attached
            &&& assembling.state == SessionState::Assembling
            &&& assembling.assembler.bytes == Seq::<u8>::empty()
            &&& fed.state == SessionState::Assembling
            &&& fed.assembler.bytes == padded(chunk1, SECOND_READ_OFFSET as nat)
            &&& done.next.state == SessionState::Tracking
            &&& done.next.previous == Some(snapshot)
            &&& done.actions == seq![
                ActionView::Report(evaluation(zeros(snapshot.len()), snapshot, session.table)),
                ActionView::ResumeTimer,
            ]
        }),
{
}

} // verus!
