//! The host interface: the transmit queues, the receive assembly buffer and
//! the connection and session state machine.

use crate::codec::{RxCommand, TxCommand};
use crate::context::Context;
use crate::critical::CriticalSection;
use crate::cycling::{self, CycleData};
use crate::machine::Model;
use crate::offline::{self, BulkCycleData};
use crate::state::{self, ProgramState};
use crate::queue::{
    rx_as_slice, rx_bytes, rx_clear, rx_is_empty, rx_len, rx_new, rx_push, tx_clear, tx_drain,
    tx_items, tx_new, tx_try_push, TX_CMD_BUF_SIZE,
};
use arrayvec::ArrayVec;
use postcard::Error as PostcardError;
use vstd::prelude::*;

verus! {

/// Why the host interface did not do what it was asked.
#[derive(Debug, PartialEq, Eq)]
pub enum Error {
    /// The payload encoder failed.
    PostcardError(PostcardError),
    /// There is a connection, but no session on it.
    NotStarted,
    /// There is no connection.
    NoConnection,
    /// The transmit queue is full.
    BufferFull,
}

impl From<PostcardError> for Error {
    fn from(val: PostcardError) -> (e: Self) {
        Self::PostcardError(val)
    }
}

impl vstd::std_specs::convert::FromSpecImpl<PostcardError> for Error {
    open spec fn obeys_from_spec() -> bool {
        true
    }

    open spec fn from_spec(val: PostcardError) -> Self {
        Error::PostcardError(val)
    }
}

/// The hardware alarm that times the reconnect window.
pub const CONNECTION_ALARM_NUM: u32 = 1;

/// Length of the reconnect window, in microseconds.
pub const RECONNECT_TIMEOUT_US: u64 = 10_000_000;

/// Status hue beside a host, no session started.
pub const CONNECTED_HUE: u8 = 160;

/// Status hue while a session runs.
pub const STARTED_HUE: u8 = 130;

/// Status hue while the link is down and the reconnect window is open.
pub const RECONNECTING_HUE: u8 = 0;

/// What the caller is to do to the hardware after the link changed.
#[derive(Clone, Copy, Debug, PartialEq, Eq, Structural)]
pub enum LinkAction {
    /// Nothing.
    Nothing,
    /// Install the serial-receive handler and enable its interrupt.
    EnableReceive,
    /// Claim the reconnect alarm and set it to fire `timeout_us`
    /// microseconds from now.
    ArmReconnectAlarm { timeout_us: u64 },
    /// Unclaim and cancel the reconnect alarm; harmless where it was not
    /// armed.
    CancelReconnectAlarm,
}

/// What the caller is to do to the hardware after an alarm fired.
#[derive(Clone, Copy, Debug, PartialEq, Eq, Structural)]
pub struct AlarmAction {
    /// Disable the serial-receive interrupt.
    pub disable_receive: bool,
    /// Unclaim the alarm.
    pub unclaim_alarm: bool,
}

/// A host link. It exists from the moment the link comes up until it is
/// torn down; a link that is only lost for a while keeps its connection.
#[derive(Clone, Copy, Debug, PartialEq, Eq)]
pub struct Connection {
    /// The link is down and the reconnect window is open.
    pub connection_lost: bool,
    /// The session in progress, from the moment it is started.
    pub session: Option<BulkCycleData>,
}

impl Connection {
    /// Whether a session has been started on this connection.
    pub open spec fn started(self) -> bool {
        self.session is Some
    }
}

/// The host interface as a mathematical value.
#[verifier::ext_equal]
pub struct HostView {
    /// The connection, while there is one.
    pub connection: Option<Connection>,
    /// The queue that producers append to, oldest command first.
    pub pending: Seq<TxCommand>,
    /// The other queue, which the consumer empties.
    pub draining: Seq<TxCommand>,
    /// The bytes received of the frame in flight.
    pub received: Seq<u8>,
}

impl HostView {
    /// No connection, nothing queued, nothing received.
    pub open spec fn idle() -> HostView {
        HostView {
            connection: None,
            pending: Seq::empty(),
            draining: Seq::empty(),
            received: Seq::empty(),
        }
    }

    /// A partial frame starts with a command id and is shorter than the
    /// frame of that command; a lost link belongs to a started session; and
    /// nothing is queued on a connection without session.
    pub open spec fn wf(self) -> bool {
        &&& self.received.len() > 0 ==> (RxCommand::spec_expected_len(self.received[0]) matches Some(
            expected,
        ) && self.received.len() < expected)
        &&& self.connection matches Some(c) ==> {
            &&& c.connection_lost ==> c.started()
            &&& !c.started() ==> self.pending.len() == 0 && self.draining.len() == 0
        }
    }

    /// There is a connection and its link is up.
    pub open spec fn link_up(self) -> bool {
        self.connection matches Some(c) && !c.connection_lost
    }

    /// There is a connection with a session on it.
    pub open spec fn started(self) -> bool {
        self.connection matches Some(c) && c.started()
    }

    /// The interface after a producer offered `cmd`: appended to the
    /// pending queue where that has room, dropped where it is full.
    pub open spec fn enqueue(self, cmd: TxCommand) -> HostView {
        if self.pending.len() < TX_CMD_BUF_SIZE {
            HostView { pending: self.pending.push(cmd), ..self }
        } else {
            self
        }
    }

    /// The interface after the consumer exchanged the two queues.
    pub open spec fn swap(self) -> HostView {
        HostView { pending: self.draining, draining: self.pending, ..self }
    }

    /// The interface after the consumer emptied its queue.
    pub open spec fn drained(self) -> HostView {
        HostView { draining: Seq::empty(), ..self }
    }

    /// There is a connection with a session on it and its link is up: the
    /// one state in which cycles go to the host as live data.
    pub open spec fn live(self) -> bool {
        self.connection matches Some(c) && c.started() && !c.connection_lost
    }

    /// The interface after a cycle was handed to it, and what the caller is
    /// told. On a started session the cycle is queued as live data, whether
    /// the link is up or lost; the connection itself does not change.
    pub open spec fn push_cycle(self, data: CycleData) -> (HostView, Result<(), Error>) {
        match self.connection {
            None => (self, Err(Error::NoConnection)),
            Some(c) => if !c.started() {
                (self, Err(Error::NotStarted))
            } else if self.pending.len() < TX_CMD_BUF_SIZE {
                (self.enqueue(TxCommand::LiveData(data)), Ok(()))
            } else {
                (self, Err(Error::BufferFull))
            },
        }
    }
}

/// The frames of `cmds`, in order.
pub open spec fn frames_of(cmds: Seq<TxCommand>) -> Seq<Seq<u8>> {
    Seq::new(cmds.len(), |i: int| cmds[i].spec_serialize())
}

/// The frames that `frames` holds, as values.
pub open spec fn frame_bytes(frames: Seq<Vec<u8>>) -> Seq<Seq<u8>> {
    Seq::new(frames.len(), |i: int| frames[i]@)
}

/// Talks to the paired host: queues commands for it, assembles the frames
/// it sends, and follows the link through connection, session, loss and
/// reconnection.
pub struct HostInterface {
    tx_cmd_buf0: ArrayVec<TxCommand, 64>,
    tx_cmd_buf1: ArrayVec<TxCommand, 64>,
    cur_tx_cmd_buf: usize,
    expected_cmd_len: usize,
    cmd_receive_buffer: ArrayVec<u8, 3>,
    connection: Option<Connection>,
}

impl View for HostInterface {
    type V = HostView;

    closed spec fn view(&self) -> HostView {
        HostView {
            connection: self.connection,
            pending: if self.cur_tx_cmd_buf == 0 {
                tx_items(self.tx_cmd_buf0)
            } else {
                tx_items(self.tx_cmd_buf1)
            },
            draining: if self.cur_tx_cmd_buf == 0 {
                tx_items(self.tx_cmd_buf1)
            } else {
                tx_items(self.tx_cmd_buf0)
            },
            received: rx_bytes(self.cmd_receive_buffer),
        }
    }
}

impl HostInterface {
    /// The representation is sound and the value it stands for is too.
    pub closed spec fn wf(&self) -> bool {
        &&& self.cur_tx_cmd_buf < 2
        &&& self@.wf()
        &&& self@.received.len() > 0 ==> RxCommand::spec_expected_len(self@.received[0]) == Some(
            self.expected_cmd_len,
        )
    }

    /// An interface with no connection and nothing queued or received.
    pub fn create() -> (host: Self)
        ensures
            host.wf(),
            host@ == HostView::idle(),
    {
        Self {
            tx_cmd_buf0: tx_new(),
            tx_cmd_buf1: tx_new(),
            cur_tx_cmd_buf: 0,
            expected_cmd_len: 0,
            cmd_receive_buffer: rx_new(),
            connection: None,
        }
    }

    /// Whether there is a connection, its link up or down.
    pub fn has_connection(&self, _cs: &CriticalSection) -> (connected: bool)
        ensures
            connected == self@.connection is Some,
    {
        self.connection.is_some()
    }

    /// A copy of the connection.
    pub fn connection(&self, _cs: &CriticalSection) -> (connection: Option<Connection>)
        ensures
            connection == self@.connection,
    {
        self.connection
    }

    /// Hands one cycle to the host side: on a started session it is queued
    /// as live data. A cycle that cannot be taken is dropped, and the error
    /// says why.
    pub fn push_cycle(&mut self, cs: &CriticalSection, data: CycleData) -> (pushed: Result<
        (),
        Error,
    >)
        requires
            old(self).wf(),
        ensures
            final(self).wf(),
            (final(self)@, pushed) == old(self)@.push_cycle(data),
    {
        match self.connection {
            Some(Connection { session: Some(_), .. }) => self.queue_cmd(
                cs,
                TxCommand::LiveData(data),
            ),
            Some(Connection { session: None, .. }) => Err(Error::NotStarted),
            None => Err(Error::NoConnection),
        }
    }

    /// Appends `cmd` to the pending queue.
    fn queue_cmd(&mut self, _cs: &CriticalSection, cmd: TxCommand) -> (queued: Result<(), Error>)
        requires
            old(self).cur_tx_cmd_buf < 2,
        ensures
            final(self)@ == old(self)@.enqueue(cmd),
            final(self).cur_tx_cmd_buf == old(self).cur_tx_cmd_buf,
            final(self).expected_cmd_len == old(self).expected_cmd_len,
            queued == if old(self)@.pending.len() < TX_CMD_BUF_SIZE {
                Ok::<(), Error>(())
            } else {
                Err::<(), Error>(Error::BufferFull)
            },
    {
        let pushed = if self.cur_tx_cmd_buf == 0 {
            tx_try_push(&mut self.tx_cmd_buf0, cmd)
        } else {
            tx_try_push(&mut self.tx_cmd_buf1, cmd)
        };
        match pushed {
            Ok(()) => Ok(()),
            Err(_) => Err(Error::BufferFull),
        }
    }

    /// Exchanges the two transmit queues: what was pending is now the
    /// consumer's to drain, and producers append to the other queue.
    pub fn swap_tx_buffers(&mut self, _cs: &CriticalSection)
        requires
            old(self).wf(),
        ensures
            final(self).wf(),
            final(self)@ == old(self)@.swap(),
    {
        self.cur_tx_cmd_buf = (self.cur_tx_cmd_buf + 1) % 2;
    }

    /// Empties the consumer's queue and returns the frames of its
    /// commands, oldest first. The pending queue is not touched.
    pub fn drain_tx_buffer(&mut self) -> (frames: Vec<Vec<u8>>)
        requires
            old(self).wf(),
        ensures
            final(self).wf(),
            final(self)@ == old(self)@.drained(),
            frame_bytes(frames@) == frames_of(old(self)@.draining),
    {
        let cmds = if self.cur_tx_cmd_buf == 0 {
            tx_drain(&mut self.tx_cmd_buf1)
        } else {
            tx_drain(&mut self.tx_cmd_buf0)
        };
        let mut frames: Vec<Vec<u8>> = Vec::new();
        let mut i: usize = 0;
        while i < cmds.len()
            invariant
                i <= cmds.len(),
                frames@.len() == i,
                forall|j: int| 0 <= j < i ==> (#[trigger] frames@[j])@ == cmds@[j].spec_serialize(),
            decreases cmds.len() - i,
        {
            // `serialize` always succeeds, so no command is skipped here.
            if let Ok(frame) = cmds[i].serialize() {
                frames.push(frame);
            }
            i = i + 1;
        }
        assert(frame_bytes(frames@) =~= frames_of(cmds@));
        frames
    }

    /// Opens one round of the main loop. With the link up, exchanges the
    /// queues and says so; without a link, or with the link down, does
    /// nothing: commands keep accumulating. This is the one step of a round
    /// that has to run with interrupts masked.
    pub fn begin_update(&mut self, cs: &CriticalSection) -> (exchanged: bool)
        requires
            old(self).wf(),
        ensures
            final(self).wf(),
            exchanged == old(self)@.link_up(),
            old(self)@.link_up() ==> final(self)@ == old(self)@.swap(),
            !old(self)@.link_up() ==> final(self)@ == old(self)@,
    {
        match self.connection {
            Some(Connection { connection_lost: false, .. }) => {
                self.swap_tx_buffers(cs);
                true
            },
            _ => false,
        }
    }

    /// One round of the main loop. With the link up, exchanges the queues
    /// and returns the frames of everything that was pending, for the
    /// caller to write to the serial port. Without a link, or with the link
    /// down, does nothing: commands keep accumulating.
    pub fn update(&mut self, cs: &CriticalSection) -> (frames: Vec<Vec<u8>>)
        requires
            old(self).wf(),
        ensures
            final(self).wf(),
            old(self)@.link_up() ==> final(self)@ == old(self)@.swap().drained() && frame_bytes(
                frames@,
            ) == frames_of(old(self)@.pending),
            !old(self)@.link_up() ==> final(self)@ == old(self)@ && frames@.len() == 0,
    {
        if self.begin_update(cs) {
            self.drain_tx_buffer()
        } else {
            Vec::new()
        }
    }

    /// Shows the reconnecting hue and asks for the reconnect alarm.
    fn start_reconnecting(cs: &CriticalSection, ctx: &mut Context) -> (action: LinkAction)
        ensures
            final(ctx)@.state == (ProgramState::Running { status_hue: RECONNECTING_HUE }),
            final(ctx)@.last_cycle_time == old(ctx)@.last_cycle_time,
            final(ctx)@.offline == old(ctx)@.offline,
            action == (LinkAction::ArmReconnectAlarm { timeout_us: RECONNECT_TIMEOUT_US }),
    {
        state::store(ctx, cs, ProgramState::Running { status_hue: RECONNECTING_HUE });
        LinkAction::ArmReconnectAlarm { timeout_us: RECONNECT_TIMEOUT_US }
    }

    /// Follows a change of the link pin: `value` tells whether the link is
    /// now asserted. The result is what the caller is to do to the
    /// hardware.
    pub fn connection_changed(
        &mut self,
        cs: &CriticalSection,
        ctx: &mut Context,
        value: bool,
    ) -> (action: LinkAction)
        requires
            old(self).wf(),
        ensures
            final(self).wf(),
            ((Model { host: final(self)@, ctx: final(ctx)@ }), action) == (Model {
                host: old(self)@,
                ctx: old(ctx)@,
            }).link_changed(value),
    {
        match self.connection {
            Some(connection) => {
                let connection_lost = !value;
                if connection_lost {
                    if connection.session.is_some() {
                        self.connection = Some(
                            Connection { connection_lost: true, session: connection.session },
                        );
                        Self::start_reconnecting(cs, ctx)
                    } else {
                        // no session was active, return to mode select
                        self.connection = None;
                        state::store(ctx, cs, ProgramState::AwaitingModeSelect);
                        LinkAction::Nothing
                    }
                } else {
                    let hue = if connection.session.is_some() {
                        STARTED_HUE
                    } else {
                        CONNECTED_HUE
                    };
                    self.connection = Some(
                        Connection { connection_lost: false, session: connection.session },
                    );
                    state::store(ctx, cs, ProgramState::Running { status_hue: hue });
                    LinkAction::CancelReconnectAlarm
                }
            },
            None => {
                if value {
                    tx_clear(&mut self.tx_cmd_buf0);
                    tx_clear(&mut self.tx_cmd_buf1);
                    self.start_online(cs, ctx)
                } else {
                    LinkAction::Nothing
                }
            },
        }
    }

    /// Makes the connection of a link that just came up.
    fn start_online(&mut self, cs: &CriticalSection, ctx: &mut Context) -> (action: LinkAction)
        ensures
            final(self)@ == (HostView {
                connection: Some(Connection { connection_lost: false, session: None }),
                ..old(self)@
            }),
            final(self).cur_tx_cmd_buf == old(self).cur_tx_cmd_buf,
            final(self).expected_cmd_len == old(self).expected_cmd_len,
            final(ctx)@.state == (ProgramState::Running { status_hue: CONNECTED_HUE }),
            final(ctx)@.last_cycle_time == old(ctx)@.last_cycle_time,
            final(ctx)@.offline == old(ctx)@.offline,
            action == LinkAction::EnableReceive,
    {
        self.connection = Some(Connection { connection_lost: false, session: None });
        state::store(ctx, cs, ProgramState::Running { status_hue: CONNECTED_HUE });
        LinkAction::EnableReceive
    }

    /// Carries out a command of the host, decoded at `now_us`.
    pub fn execute_rx_cmd(
        &mut self,
        cs: &CriticalSection,
        ctx: &mut Context,
        cmd: RxCommand,
        now_us: u64,
    )
        requires
            old(self).wf(),
        ensures
            final(self).wf(),
            (Model { host: final(self)@, ctx: final(ctx)@ }) == (Model {
                host: old(self)@,
                ctx: old(ctx)@,
            }).execute(cmd, now_us),
    {
        match cmd {
            RxCommand::StartSession => self.cmd_start_session(cs, ctx, now_us),
            RxCommand::StopSession => self.cmd_stop_session(cs),
            RxCommand::Handshake { session_active } => self.cmd_handshake(
                cs,
                ctx,
                session_active,
                now_us,
            ),
        }
    }

    /// Answers a handshake of the host, received at `now_us`.
    pub fn cmd_handshake(
        &mut self,
        cs: &CriticalSection,
        ctx: &mut Context,
        session_active: bool,
        now_us: u64,
    )
        requires
            old(self).wf(),
        ensures
            final(self).wf(),
            (Model { host: final(self)@, ctx: final(ctx)@ }) == (Model {
                host: old(self)@,
                ctx: old(ctx)@,
            }).handshake(session_active, now_us),
    {
        if let Some(Connection { connection_lost: false, session: None }) = self.connection {
            if session_active {
                if let Some(session) = offline::take_session(ctx, cs) {
                    // Both queues are empty while no session is started, so
                    // the record is always taken.
                    let _ = self.queue_cmd(cs, TxCommand::BulkData(session));
                }
                self.open_session(cs, ctx, now_us);
            }
        }
    }

    /// Answers the host's request for a session, received at `now_us`.
    pub fn cmd_start_session(&mut self, cs: &CriticalSection, ctx: &mut Context, now_us: u64)
        requires
            old(self).wf(),
        ensures
            final(self).wf(),
            (Model { host: final(self)@, ctx: final(ctx)@ }) == (Model {
                host: old(self)@,
                ctx: old(ctx)@,
            }).start_session(now_us),
    {
        self.open_session(cs, ctx, now_us);
    }

    /// Starts a session on a connection whose link is up. It does not ask
    /// for a sound interface, so that the handshake can queue its record
    /// first.
    fn open_session(&mut self, cs: &CriticalSection, ctx: &mut Context, now_us: u64)
        ensures
            (Model { host: final(self)@, ctx: final(ctx)@ }) == (Model {
                host: old(self)@,
                ctx: old(ctx)@,
            }).start_session(now_us),
            final(self).cur_tx_cmd_buf == old(self).cur_tx_cmd_buf,
            final(self).expected_cmd_len == old(self).expected_cmd_len,
    {
        if let Some(Connection { connection_lost: false, session }) = self.connection {
            cycling::reset(ctx, cs, now_us);
            let session = match session {
                Some(session) => session,
                None => BulkCycleData::new(),
            };
            self.connection = Some(Connection { connection_lost: false, session: Some(session) });
            state::store(ctx, cs, ProgramState::Running { status_hue: STARTED_HUE });
        }
    }

    /// What stopping a session does is not settled; the command is
    /// accepted and changes nothing.
    pub fn cmd_stop_session(&mut self, _cs: &CriticalSection)
        ensures
            *final(self) == *old(self),
    {
    }

    /// Takes one byte from the serial port, read at `now_us`.
    pub fn on_uart0_rx(
        &mut self,
        cs: &CriticalSection,
        ctx: &mut Context,
        byte: u8,
        now_us: u64,
    )
        requires
            old(self).wf(),
        ensures
            final(self).wf(),
            (Model { host: final(self)@, ctx: final(ctx)@ }) == (Model {
                host: old(self)@,
                ctx: old(ctx)@,
            }).receive(byte, now_us),
    {
        // start receiving new command, discarding the byte if it is not a valid command
        if rx_is_empty(&self.cmd_receive_buffer) {
            match RxCommand::expected_len(byte) {
                Some(expected) => {
                    self.expected_cmd_len = expected;
                },
                None => {
                    return ;
                },
            }
        }
        // record the current command until we got the expected amount of bytes
        rx_push(&mut self.cmd_receive_buffer, byte);
        if rx_len(&self.cmd_receive_buffer) == self.expected_cmd_len {
            let cmd = RxCommand::deserialize(rx_as_slice(&self.cmd_receive_buffer));
            // ready to receive a new command
            rx_clear(&mut self.cmd_receive_buffer);
            if let Some(cmd) = cmd {
                self.execute_rx_cmd(cs, ctx, cmd, now_us);
            }
        }
    }

    /// Answers hardware alarm `alarm_num`, which fired at `now_us`. The
    /// result is what the caller is to do to the hardware.
    pub fn on_connection_alarm(
        &mut self,
        cs: &CriticalSection,
        ctx: &mut Context,
        alarm_num: u32,
        now_us: u64,
    ) -> (action: AlarmAction)
        requires
            old(self).wf(),
        ensures
            final(self).wf(),
            ((Model { host: final(self)@, ctx: final(ctx)@ }), action) == (Model {
                host: old(self)@,
                ctx: old(ctx)@,
            }).alarm(alarm_num, now_us),
    {
        if alarm_num != CONNECTION_ALARM_NUM {
            return AlarmAction { disable_receive: false, unclaim_alarm: false };
        }
        match self.connection {
            Some(Connection { connection_lost: true, session: Some(session) }) => {
                self.connection = None;
                offline::start_with(ctx, cs, session, now_us);
                AlarmAction { disable_receive: true, unclaim_alarm: true }
            },
            _ => AlarmAction { disable_receive: false, unclaim_alarm: true },
        }
    }
}

} // verus!
