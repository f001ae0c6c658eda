//! The connection and session state machine as a mathematical object:
//! what each event does to the host interface and to the shared state,
//! and which hardware action it asks for.

use crate::codec::{lemma_rx_round_trip, RxCommand, TxCommand};
use crate::context::ContextView;
use crate::cycling::spec_debounce;
use crate::host::{
    AlarmAction, Connection, HostView, LinkAction, CONNECTED_HUE, CONNECTION_ALARM_NUM,
    RECONNECTING_HUE, RECONNECT_TIMEOUT_US, STARTED_HUE,
};
use crate::interrupt::{
    GPIO_IRQ_EDGE_FALL, GPIO_IRQ_EDGE_RISE, PIN_CONNECTION_STATE, PIN_MAGNET_SENSOR,
};
use crate::offline::{spec_add_cycle, spec_start_with, BulkCycleData, OFFLINE_MODE_HUE};
use crate::queue::TX_CMD_BUF_SIZE;
use crate::state::ProgramState;
use vstd::prelude::*;

verus! {

/// The whole device: the host interface and the shared state.
#[verifier::ext_equal]
pub struct Model {
    pub host: HostView,
    pub ctx: ContextView,
}

impl Model {
    /// The device at boot.
    pub open spec fn boot() -> Model {
        Model {
            host: HostView::idle(),
            ctx: ContextView {
                state: ProgramState::AwaitingModeSelect,
                last_cycle_time: 0,
                offline: None,
            },
        }
    }

    /// The same device showing `hue`.
    pub open spec fn showing(self, hue: u8) -> Model {
        Model {
            ctx: ContextView { state: ProgramState::Running { status_hue: hue }, ..self.ctx },
            ..self
        }
    }

    /// The same device with its connection replaced.
    pub open spec fn with_connection(self, connection: Option<Connection>) -> Model {
        Model { host: HostView { connection, ..self.host }, ..self }
    }

    /// The link changed: `value` tells whether it is now asserted.
    ///
    /// Asserted with no connection: both queues are emptied, a connection
    /// without session is made, the receive path is to be enabled. Asserted
    /// with a connection: the link is up again, the reconnect alarm is to
    /// be cancelled. Deasserted on a started session: the link is lost, the
    /// connection and its session stay, the reconnect alarm is to be armed.
    /// Deasserted without session: the connection is dropped.
    pub open spec fn link_changed(self, value: bool) -> (Model, LinkAction) {
        match self.host.connection {
            Some(c) => if !value {
                if c.started() {
                    (
                        self.with_connection(Some(Connection { connection_lost: true, ..c })).showing(
                            RECONNECTING_HUE,
                        ),
                        LinkAction::ArmReconnectAlarm { timeout_us: RECONNECT_TIMEOUT_US },
                    )
                } else {
                    (
                        Model {
                            host: HostView { connection: None, ..self.host },
                            ctx: ContextView {
                                state: ProgramState::AwaitingModeSelect,
                                ..self.ctx
                            },
                        },
                        LinkAction::Nothing,
                    )
                }
            } else {
                (
                    self.with_connection(Some(Connection { connection_lost: false, ..c })).showing(
                        if c.started() {
                            STARTED_HUE
                        } else {
                            CONNECTED_HUE
                        },
                    ),
                    LinkAction::CancelReconnectAlarm,
                )
            },
            None => if value {
                (
                    Model {
                        host: HostView {
                            connection: Some(Connection { connection_lost: false, session: None }),
                            pending: Seq::empty(),
                            draining: Seq::empty(),
                            ..self.host
                        },
                        ..self
                    }.showing(CONNECTED_HUE),
                    LinkAction::EnableReceive,
                )
            } else {
                (self, LinkAction::Nothing)
            },
        }
    }

    /// The host asked for a session at `now_us`. With the link up, the
    /// connection gets a session, a fresh one unless it has one already,
    /// and the debouncer restarts; in every other state the command is
    /// ignored.
    pub open spec fn start_session(self, now_us: u64) -> Model {
        match self.host.connection {
            Some(c) => if !c.connection_lost {
                Model {
                    host: HostView {
                        connection: Some(
                            Connection {
                                connection_lost: false,
                                session: Some(
                                    match c.session {
                                        Some(session) => session,
                                        None => BulkCycleData { millis: 0, cycle_count: 0 },
                                    },
                                ),
                            },
                        ),
                        ..self.host
                    },
                    ctx: ContextView { last_cycle_time: now_us, ..self.ctx },
                }.showing(STARTED_HUE)
            } else {
                self
            },
            None => self,
        }
    }

    /// The host shook hands at `now_us`. With the link up, no session
    /// started and the host expecting one, the session that the offline
    /// aggregator holds, if any, is taken from it and queued as bulk data,
    /// and a session is started; otherwise nothing happens.
    pub open spec fn handshake(self, session_active: bool, now_us: u64) -> Model {
        if self.host.link_up() && !self.host.started() && session_active {
            (match self.ctx.offline {
                Some(session) => Model {
                    host: self.host.enqueue(TxCommand::BulkData(session)),
                    ctx: ContextView { offline: None, ..self.ctx },
                },
                None => self,
            }).start_session(now_us)
        } else {
            self
        }
    }

    /// The host sent `cmd`, decoded at `now_us`.
    pub open spec fn execute(self, cmd: RxCommand, now_us: u64) -> Model {
        match cmd {
            RxCommand::StartSession => self.start_session(now_us),
            RxCommand::StopSession => self,
            RxCommand::Handshake { session_active } => self.handshake(session_active, now_us),
        }
    }

    /// The serial port delivered `byte` at `now_us`. A byte that starts no
    /// frame is dropped. A byte that completes a frame empties the receive
    /// buffer, and the command of a valid frame is executed.
    pub open spec fn receive(self, byte: u8, now_us: u64) -> Model {
        if self.host.received.len() == 0 && RxCommand::spec_expected_len(byte) is None {
            self
        } else {
            let frame = self.host.received.push(byte);
            if RxCommand::spec_expected_len(frame[0]) == Some(frame.len() as usize) {
                let cleared = Model {
                    host: HostView { received: Seq::empty(), ..self.host },
                    ..self
                };
                match RxCommand::spec_deserialize(frame) {
                    Some(cmd) => cleared.execute(cmd, now_us),
                    None => cleared,
                }
            } else {
                Model { host: HostView { received: frame, ..self.host }, ..self }
            }
        }
    }

    /// The serial port delivered `bytes`, one after the other, all read at
    /// `now_us`.
    pub open spec fn receive_all(self, bytes: Seq<u8>, now_us: u64) -> Model
        decreases bytes.len(),
    {
        if bytes.len() == 0 {
            self
        } else {
            self.receive_all(bytes.drop_last(), now_us).receive(bytes.last(), now_us)
        }
    }

    /// Hardware alarm `alarm_num` fired at `now_us`. If it is the reconnect
    /// alarm and the link of a started session is still lost, the
    /// connection is destroyed and its session goes to the offline
    /// aggregator as it is.
    pub open spec fn alarm(self, alarm_num: u32, now_us: u64) -> (Model, AlarmAction) {
        if alarm_num != CONNECTION_ALARM_NUM {
            (self, AlarmAction { disable_receive: false, unclaim_alarm: false })
        } else {
            match self.host.connection {
                Some(Connection { connection_lost: true, session: Some(session) }) => (
                    Model {
                        host: HostView { connection: None, ..self.host },
                        ctx: spec_start_with(self.ctx, session, now_us),
                    },
                    AlarmAction { disable_receive: true, unclaim_alarm: true },
                ),
                _ => (self, AlarmAction { disable_receive: false, unclaim_alarm: true }),
            }
        }
    }

    /// The wheel sensor gave an edge at `now_us`. A debounced cycle goes to
    /// the host interface, as live data, while a session is started on a
    /// connection whose link is up; in every other state it goes to the
    /// offline aggregator.
    pub open spec fn cycle(self, now_us: u64) -> Model {
        match spec_debounce(self.ctx.last_cycle_time, now_us).1 {
            None => self,
            Some(data) => {
                let ctx = ContextView { last_cycle_time: now_us, ..self.ctx };
                if self.host.live() {
                    Model { host: self.host.push_cycle(data).0, ctx }
                } else {
                    Model { host: self.host, ctx: spec_add_cycle(ctx, data) }
                }
            },
        }
    }

    /// Pin `pin` raised an interrupt with the event bits `events` at
    /// `now_us`. The sensor pin gives a cycle; on the link pin a falling
    /// edge asserts the link and a rising edge deasserts it; other pins do
    /// nothing.
    pub open spec fn gpio(self, pin: u32, events: u32, now_us: u64) -> (Model, LinkAction) {
        if pin == PIN_MAGNET_SENSOR {
            (self.cycle(now_us), LinkAction::Nothing)
        } else if pin == PIN_CONNECTION_STATE {
            if events & GPIO_IRQ_EDGE_FALL != 0 {
                self.link_changed(true)
            } else if events & GPIO_IRQ_EDGE_RISE != 0 {
                self.link_changed(false)
            } else {
                (self, LinkAction::Nothing)
            }
        } else {
            (self, LinkAction::Nothing)
        }
    }
}

/// A command that a producer queues after the consumer exchanged the
/// queues, while the consumer is still draining: the queue being drained
/// holds exactly what was pending at the exchange, the command waits in the
/// other queue behind whatever that held, and the next exchange hands it to
/// the consumer in that place.
pub proof fn lemma_enqueue_during_drain(host: HostView, cmd: TxCommand)
    requires
        host.draining.len() < TX_CMD_BUF_SIZE,
    ensures
        ({
            let exchanged = host.swap();
            let during = exchanged.enqueue(cmd);
            &&& during.draining == host.pending
            &&& during.pending == host.draining.push(cmd)
            &&& during.drained().swap().draining == host.draining.push(cmd)
            &&& during.drained().swap().pending.len() == 0
        }),
{
}

/// A command queued while the other queue is drained is neither lost nor
/// moved by the draining, whenever the draining ends.
pub proof fn lemma_drain_and_enqueue_commute(host: HostView, cmd: TxCommand)
    ensures
        host.enqueue(cmd).drained() == host.drained().enqueue(cmd),
{
}

/// A link that drops during a session and comes back before the reconnect
/// alarm fires: the alarm is armed and then cancelled, and the device is
/// as it was, session included, but for the hue, which shows a started
/// session.
pub proof fn lemma_link_flap_keeps_session(m: Model, session: BulkCycleData)
    requires
        m.host.connection == Some(Connection { connection_lost: false, session: Some(session) }),
    ensures
        ({
            let (lost, arm) = m.link_changed(false);
            let (back, cancel) = lost.link_changed(true);
            &&& arm == (LinkAction::ArmReconnectAlarm { timeout_us: RECONNECT_TIMEOUT_US })
            &&& lost.host.connection == Some(
                Connection { connection_lost: true, session: Some(session) },
            )
            &&& lost.ctx.state == (ProgramState::Running { status_hue: RECONNECTING_HUE })
            &&& cancel == LinkAction::CancelReconnectAlarm
            &&& back.host == m.host
            &&& back.ctx == (ContextView {
                state: ProgramState::Running { status_hue: STARTED_HUE },
                ..m.ctx
            })
        }),
{
}

/// A link that drops during a session and stays down until the reconnect
/// alarm fires: the connection is destroyed, the receive path is to be
/// disabled, and the offline aggregator holds the session of the
/// connection with the count and the duration it had.
pub proof fn lemma_timeout_hands_session_over(m: Model, session: BulkCycleData, now_us: u64)
    requires
        m.host.connection == Some(Connection { connection_lost: false, session: Some(session) }),
    ensures
        ({
            let (lost, _) = m.link_changed(false);
            let (offline, action) = lost.alarm(CONNECTION_ALARM_NUM, now_us);
            &&& action == (AlarmAction { disable_receive: true, unclaim_alarm: true })
            &&& offline.host == (HostView { connection: None, ..m.host })
            &&& offline.ctx == (ContextView {
                state: ProgramState::Running { status_hue: OFFLINE_MODE_HUE },
                last_cycle_time: now_us,
                offline: Some(session),
            })
        }),
{
}

/// A debounced cycle is consumed once. On a started session with the link
/// up it is queued as live data, or dropped where the queue is full, and
/// the offline aggregator is not touched. In every other state, a lost link
/// included, nothing is queued and the host interface is not touched: the
/// session of the offline aggregator, where it holds one, takes the cycle
/// if it fits.
pub proof fn lemma_cycle_is_routed_once(m: Model, now_us: u64)
    requires
        spec_debounce(m.ctx.last_cycle_time, now_us).1 is Some,
    ensures
        ({
            let data = spec_debounce(m.ctx.last_cycle_time, now_us).1->Some_0;
            let after = m.cycle(now_us);
            &&& after.ctx.last_cycle_time == now_us
            &&& after.ctx.state == m.ctx.state
            &&& after.host.connection == m.host.connection
            &&& after.host.draining == m.host.draining
            &&& after.host.received == m.host.received
            &&& m.host.live() ==> after.ctx.offline == m.ctx.offline && after.host.pending == (
            if m.host.pending.len() < TX_CMD_BUF_SIZE {
                m.host.pending.push(TxCommand::LiveData(data))
            } else {
                m.host.pending
            })
            &&& !m.host.live() ==> after.host.pending == m.host.pending && after.ctx.offline
                == match m.ctx.offline {
                Some(bulk) => Some(bulk.spec_add_cycle(data)),
                None => None,
            }
        }),
{
}

/// The start command on a connection without session, link up: the
/// connection has a fresh session, the debouncer counts from the time of
/// the command, and the hue shows a started session. Nothing else changes.
pub proof fn lemma_start_on_idle_link(m: Model, now_us: u64)
    requires
        m.host.connection == Some(Connection { connection_lost: false, session: None }),
    ensures
        ({
            let after = m.execute(RxCommand::StartSession, now_us);
            &&& after.host == (HostView {
                connection: Some(
                    Connection {
                        connection_lost: false,
                        session: Some(BulkCycleData { millis: 0, cycle_count: 0 }),
                    },
                ),
                ..m.host
            })
            &&& after.ctx == (ContextView {
                state: ProgramState::Running { status_hue: STARTED_HUE },
                last_cycle_time: now_us,
                ..m.ctx
            })
        }),
{
}

/// Receiving one more byte is receiving the bytes before it and then that
/// byte.
proof fn lemma_receive_all_push(m: Model, bytes: Seq<u8>, byte: u8, now_us: u64)
    ensures
        m.receive_all(bytes.push(byte), now_us) == m.receive_all(bytes, now_us).receive(
            byte,
            now_us,
        ),
{
    assert(bytes.push(byte).drop_last() =~= bytes);
}

/// A receiver between two frames that is sent the frame of a command
/// carries that command out, and stands between two frames again.
pub proof fn lemma_frame_is_executed(m: Model, cmd: RxCommand, now_us: u64)
    requires
        m.host.received.len() == 0,
    ensures
        m.receive_all(cmd.spec_serialize(), now_us) == m.execute(cmd, now_us),
{
    let frame = cmd.spec_serialize();
    lemma_rx_round_trip(cmd);
    let empty = Seq::<u8>::empty();
    assert(m.host.received =~= empty);
    lemma_receive_all_push(m, empty, frame[0], now_us);
    lemma_receive_all_push(m, empty.push(frame[0]), frame[1], now_us);
    let first = m.receive(frame[0], now_us);
    assert(first.host.received =~= empty.push(frame[0]));
    match cmd {
        RxCommand::Handshake { .. } => {
            lemma_receive_all_push(m, empty.push(frame[0]).push(frame[1]), frame[2], now_us);
            let second = first.receive(frame[1], now_us);
            assert(second.host.received =~= empty.push(frame[0]).push(frame[1]));
            assert(empty.push(frame[0]).push(frame[1]).push(frame[2]) =~= frame);
        },
        _ => {
            assert(empty.push(frame[0]).push(frame[1]) =~= frame);
        },
    }
}

/// Every event leaves a sound host interface sound.
pub proof fn lemma_events_keep_soundness(m: Model, byte: u8, value: bool, num: u32, now_us: u64)
    requires
        m.host.wf(),
    ensures
        m.link_changed(value).0.host.wf(),
        m.receive(byte, now_us).host.wf(),
        m.alarm(num, now_us).0.host.wf(),
        m.cycle(now_us).host.wf(),
        m.host.swap().wf(),
        m.host.drained().wf(),
{
}

} // verus!
