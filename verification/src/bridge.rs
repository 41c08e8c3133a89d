//! The decisions of the bridge between the two serial sides: which state
//! the mode lines select, where an arriving byte goes, when a buffered run
//! is sent on, and how a command is answered. The control loop around it
//! reads the lines, the serial ports and the timers, hands in what it saw,
//! and carries out what comes back.

use crate::e32_module::{
    air_data_rate_of,
    default_params,
    ok_text,
    params_after,
    response_to,
    uart_bps_of,
    E32Module,
    E32State,
    READ_BYTE,
    WRITE_HEAD,
};
use crate::framing::{frame_complete, frame_of, read_frame, scratch_after, CommandScratch};
use crate::hex::hex_dump;
use crate::lane::{
    lane_after_byte,
    lane_after_tick,
    lane_step,
    lane_valid,
    Lane,
    LaneModel,
    LanePoll,
};
use crate::timing::{Idle, IdleStep, BYTE_TIME_19200, BYTE_TIME_57600};
use vstd::prelude::*;

verus! {

/// Bytes that each direction can buffer.
pub const BUFF_SIZE: usize = 256;

/// Serial speed of the host side when the bridge starts, in bits per second.
pub const HOST_BAUD: u32 = 57600;

/// Serial speed of the air side when the bridge starts, in bits per second.
pub const AIR_BAUD: u32 = 19200;

/// Serial speed of the host side while the module sleeps and takes commands,
/// in bits per second.
pub const BOOTSTRAP_BAUD: u32 = 9600;

/// The two serial sides of the bridge.
#[derive(Clone, Copy, Debug, PartialEq, Eq, Structural)]
pub enum Side {
    /// The controller that drives the module and configures it.
    Host,
    /// The far end, which stands for the radio link.
    Air,
}

/// The serial speeds to set after a look at the mode lines, in bits per
/// second; `None` leaves a side as it is.
#[derive(Clone, Copy, Debug, PartialEq, Eq, Structural)]
pub struct SpeedChange {
    pub host: Option<u32>,
    pub air: Option<u32>,
}

/// What the control loop has to do after an event.
#[derive(Debug, PartialEq, Eq)]
pub enum Outcome {
    /// Nothing.
    Nothing,
    /// Start the idle timer of this side, with its expiry flag cleared.
    ArmTimer(Side),
    /// Stop the idle timer of the side opposite to `to`, and write `burst`
    /// to side `to` as one burst, with the status line low while writing.
    Flush { to: Side, burst: Vec<u8> },
    /// Write this answer to the host side, with the status line low while
    /// writing.
    Reply(String),
    /// The module is in a state for which no behaviour is defined.
    Unimplemented,
}

/// An `Outcome` as plain values.
pub enum OutcomeModel {
    Nothing,
    ArmTimer(Side),
    Flush { to: Side, burst: Seq<u8> },
    Reply(Seq<char>),
    Unimplemented,
}

impl Outcome {
    /// This outcome as plain values.
    pub open spec fn view(&self) -> OutcomeModel {
        match self {
            Outcome::Nothing => OutcomeModel::Nothing,
            Outcome::ArmTimer(side) => OutcomeModel::ArmTimer(*side),
            Outcome::Flush { to, burst } => OutcomeModel::Flush { to: *to, burst: burst@ },
            Outcome::Reply(text) => OutcomeModel::Reply(text@),
            Outcome::Unimplemented => OutcomeModel::Unimplemented,
        }
    }
}

/// The bridge as plain values.
pub struct BridgeModel {
    /// The state that the mode lines selected at the last look.
    pub state: E32State,
    /// The bytes that arrived on the host side and wait to go to the air side.
    pub host: LaneModel,
    /// The bytes that arrived on the air side and wait to go to the host side.
    pub air: LaneModel,
    /// The stored parameter record.
    pub params: Seq<u8>,
    /// The bytes of a command collected so far.
    pub scratch: Seq<u8>,
}

/// The state that the two mode lines select.
pub open spec fn state_of_lines(m0: bool, m1: bool) -> E32State {
    if m0 {
        if m1 {
            E32State::Sleep
        } else {
            E32State::WakeUp
        }
    } else {
        if m1 {
            E32State::PowerSaving
        } else {
            E32State::Normal
        }
    }
}

/// The speeds to set when the state goes from `before` to `after`: on the
/// way into sleep the host side goes to the bootstrap speed, on the way out
/// both sides go to the speeds that the speed byte `sped` selects.
pub open spec fn speed_change(before: E32State, after: E32State, sped: u8) -> SpeedChange {
    if before != E32State::Sleep && after == E32State::Sleep {
        SpeedChange { host: Some(BOOTSTRAP_BAUD), air: None }
    } else if before == E32State::Sleep && after != E32State::Sleep {
        SpeedChange {
            host: Some(uart_bps_of(sped).spec_hertz()),
            air: Some(air_data_rate_of(sped).spec_hertz()),
        }
    } else {
        SpeedChange { host: None, air: None }
    }
}

/// The bridge after a look at the mode lines: the state is the one they
/// select, and a command begun before the module went to sleep is forgotten.
pub open spec fn bridge_after_lines(b: BridgeModel, m0: bool, m1: bool) -> BridgeModel {
    let after = state_of_lines(m0, m1);
    BridgeModel {
        state: after,
        scratch: if b.state != E32State::Sleep && after == E32State::Sleep {
            Seq::<u8>::empty()
        } else {
            b.scratch
        },
        ..b
    }
}

/// The bridge after a byte arrived on side `from`.
pub open spec fn bridge_after_byte(b: BridgeModel, from: Side, byte: u8) -> BridgeModel {
    match b.state {
        E32State::Normal => match from {
            Side::Host => BridgeModel { host: lane_after_byte(b.host, byte), ..b },
            Side::Air => BridgeModel { air: lane_after_byte(b.air, byte), ..b },
        },
        E32State::Sleep => match from {
            Side::Host => BridgeModel {
                scratch: scratch_after(b.scratch, byte),
                params: match frame_of(b.scratch, byte) {
                    Some(frame) => params_after(b.params, frame, frame.len() as usize),
                    None => b.params,
                },
                ..b
            },
            Side::Air => b,
        },
        E32State::WakeUp | E32State::PowerSaving => b,
    }
}

/// What a byte that arrived on side `from` asks of the control loop.
pub open spec fn outcome_of_byte(b: BridgeModel, from: Side, byte: u8) -> OutcomeModel {
    match b.state {
        E32State::Normal => OutcomeModel::Nothing,
        E32State::Sleep => match from {
            Side::Host => match frame_of(b.scratch, byte) {
                Some(frame) => OutcomeModel::Reply(
                    response_to(b.params, frame, frame.len() as usize),
                ),
                None => OutcomeModel::Nothing,
            },
            Side::Air => OutcomeModel::Nothing,
        },
        E32State::WakeUp | E32State::PowerSaving => OutcomeModel::Unimplemented,
    }
}

/// The bridge after a look at the lane that buffers the bytes of `side`.
pub open spec fn bridge_after_tick(b: BridgeModel, side: Side, expired: bool) -> BridgeModel {
    match b.state {
        E32State::Normal => match side {
            Side::Host => BridgeModel { host: lane_after_tick(b.host, expired), ..b },
            Side::Air => BridgeModel { air: lane_after_tick(b.air, expired), ..b },
        },
        E32State::Sleep | E32State::WakeUp | E32State::PowerSaving => b,
    }
}

/// What a look at the lane `m`, which buffers the bytes of `side`, asks of
/// the control loop: the timer is that side's, and a burst goes to the
/// other side.
pub open spec fn outcome_of_lane(m: LaneModel, side: Side, expired: bool) -> OutcomeModel {
    match lane_step(m, expired) {
        IdleStep::Wait => OutcomeModel::Nothing,
        IdleStep::Restart => OutcomeModel::ArmTimer(side),
        IdleStep::Rearm => OutcomeModel::ArmTimer(side),
        IdleStep::Flush => OutcomeModel::Flush { to: side.spec_opposite(), burst: m.pending },
    }
}

/// What a look at the lane that buffers the bytes of `side` asks of the
/// control loop.
pub open spec fn outcome_of_tick(b: BridgeModel, side: Side, expired: bool) -> OutcomeModel {
    match b.state {
        E32State::Normal => match side {
            Side::Host => outcome_of_lane(b.host, side, expired),
            Side::Air => outcome_of_lane(b.air, side, expired),
        },
        E32State::Sleep => OutcomeModel::Nothing,
        E32State::WakeUp | E32State::PowerSaving => OutcomeModel::Unimplemented,
    }
}

/// The bridge after the bytes of `bytes` arrived on side `from`, one after
/// another.
pub open spec fn bridge_after_bytes(b: BridgeModel, from: Side, bytes: Seq<u8>) -> BridgeModel
    decreases bytes.len(),
{
    if bytes.len() == 0 {
        b
    } else {
        bridge_after_byte(bridge_after_bytes(b, from, bytes.drop_last()), from, bytes.last())
    }
}

/// What the last byte of `bytes` asks of the control loop, after the bytes
/// before it arrived on the same side.
pub open spec fn outcome_of_last(b: BridgeModel, from: Side, bytes: Seq<u8>) -> OutcomeModel {
    outcome_of_byte(bridge_after_bytes(b, from, bytes.drop_last()), from, bytes.last())
}

/// No beginning of `bytes` is a whole frame.
pub open spec fn no_frame_in(bytes: Seq<u8>) -> bool {
    forall|k: int| 0 < k <= bytes.len() ==> !frame_complete(#[trigger] bytes.take(k))
}

/// A lane at rest with nothing buffered.
pub open spec fn empty_lane(cap: nat, threshold: nat) -> LaneModel {
    LaneModel {
        pending: Seq::<u8>::empty(),
        idle: Idle { wait: 0, last_size: 0 },
        dropped: 0,
        cap,
        threshold,
    }
}

/// What holds of a bridge from its making on: both lanes are valid, and a
/// command in the making is short of a whole frame.
pub open spec fn bridge_valid(b: BridgeModel) -> bool {
    &&& lane_valid(b.host)
    &&& lane_valid(b.air)
    &&& b.params.len() == 6
    &&& b.scratch.len() < 6
}

impl Side {
    /// The other side.
    pub open spec fn spec_opposite(self) -> Side {
        match self {
            Side::Host => Side::Air,
            Side::Air => Side::Host,
        }
    }

    /// The serial speed of this side when the bridge starts, in bits per
    /// second.
    pub fn start_baud(self) -> (hz: u32)
        ensures
            hz == (match self {
                Side::Host => HOST_BAUD,
                Side::Air => AIR_BAUD,
            }),
    {
        match self {
            Side::Host => HOST_BAUD,
            Side::Air => AIR_BAUD,
        }
    }

    /// The period of this side's idle timer in microseconds: the time of one
    /// byte at the speed at which the side starts.
    pub fn byte_time(self) -> (us: u64)
        ensures
            us == (match self {
                Side::Host => BYTE_TIME_57600,
                Side::Air => BYTE_TIME_19200,
            }),
    {
        match self {
            Side::Host => BYTE_TIME_57600,
            Side::Air => BYTE_TIME_19200,
        }
    }

    /// The other side: the one that a burst from this side is written to.
    #[verifier::when_used_as_spec(spec_opposite)]
    pub fn opposite(self) -> (other: Side)
        ensures
            other == self.spec_opposite(),
    {
        match self {
            Side::Host => Side::Air,
            Side::Air => Side::Host,
        }
    }
}

impl E32State {
    /// The state that the two mode lines select.
    pub fn from_lines(m0: bool, m1: bool) -> (state: E32State)
        ensures
            state == state_of_lines(m0, m1),
    {
        match (m0, m1) {
            (false, false) => E32State::Normal,
            (true, false) => E32State::WakeUp,
            (false, true) => E32State::PowerSaving,
            (true, true) => E32State::Sleep,
        }
    }
}

/// The text written to the host side once, when the bridge starts.
pub fn banner() -> (text: &'static str)
    ensures
        text@ == "ESP32 E32 Module Bridge\n"@,
{
    "ESP32 E32 Module Bridge\n"
}

/// The bridge: one lane per direction, the parameter store, the state
/// selected at the last look at the mode lines, and the command in the
/// making.
pub struct Bridge {
    host: Lane,
    air: Lane,
    module: E32Module,
    state: E32State,
    scratch: CommandScratch,
}

impl Bridge {
    /// The bridge as plain values.
    pub closed spec fn view(&self) -> BridgeModel {
        BridgeModel {
            state: self.state,
            host: self.host@,
            air: self.air@,
            params: self.module@,
            scratch: self.scratch@,
        }
    }

    /// A bridge in the normal state with empty lanes of `capacity` bytes
    /// each, which send a run on after `threshold` silent periods, and with
    /// the factory parameters.
    pub fn new(capacity: usize, threshold: u8) -> (bridge: Bridge)
        ensures
            bridge_valid(bridge@),
            bridge@ == (BridgeModel {
                state: E32State::Normal,
                host: empty_lane(capacity as nat, threshold as nat),
                air: empty_lane(capacity as nat, threshold as nat),
                params: default_params(),
                scratch: Seq::<u8>::empty(),
            }),
    {
        Bridge {
            host: Lane::new(capacity, threshold),
            air: Lane::new(capacity, threshold),
            module: E32Module::new(),
            state: E32State::Normal,
            scratch: CommandScratch::new(),
        }
    }

    /// The state selected at the last look at the mode lines.
    pub fn state(&self) -> (state: E32State)
        ensures
            state == self@.state,
    {
        self.state
    }

    /// The parameter store.
    pub fn module(&self) -> (module: &E32Module)
        ensures
            module@ == self@.params,
    {
        &self.module
    }

    /// The lane that buffers the bytes that arrive on `side`.
    pub fn lane(&self, side: Side) -> (lane: &Lane)
        ensures
            lane@ == (match side {
                Side::Host => self@.host,
                Side::Air => self@.air,
            }),
    {
        match side {
            Side::Host => &self.host,
            Side::Air => &self.air,
        }
    }

    /// Takes in a reading of the two mode lines. The state follows the
    /// lines whatever it was before; the result says which serial speeds to
    /// set on the way into sleep and out of it.
    pub fn on_lines(&mut self, m0: bool, m1: bool) -> (speeds: SpeedChange)
        ensures
            final(self)@ == bridge_after_lines(old(self)@, m0, m1),
            speeds == speed_change(old(self)@.state, state_of_lines(m0, m1), old(self)@.params[3]),
    {
        let before = self.state;
        let after = E32State::from_lines(m0, m1);
        self.state = after;
        let was_asleep = matches!(before, E32State::Sleep);
        let is_asleep = matches!(after, E32State::Sleep);
        if !was_asleep && is_asleep {
            self.scratch.clear();
            SpeedChange { host: Some(BOOTSTRAP_BAUD), air: None }
        } else if was_asleep && !is_asleep {
            SpeedChange {
                host: Some(self.module.uart_bps().hertz()),
                air: Some(self.module.air_data_rate().hertz()),
            }
        } else {
            SpeedChange { host: None, air: None }
        }
    }

    /// Takes in one byte that arrived on side `from`. In the normal state it
    /// is buffered for the other side. While the module sleeps, a byte from
    /// the host side goes to the command in the making; the byte that
    /// completes a frame has the command carried out and answered.
    pub fn on_byte(&mut self, from: Side, byte: u8) -> (out: Outcome)
        ensures
            final(self)@ == bridge_after_byte(old(self)@, from, byte),
            out@ == outcome_of_byte(old(self)@, from, byte),
    {
        match self.state {
            E32State::Normal => {
                match from {
                    Side::Host => {
                        self.host.accept(byte);
                    },
                    Side::Air => {
                        self.air.accept(byte);
                    },
                }
                Outcome::Nothing
            },
            E32State::Sleep => match from {
                Side::Host => match self.scratch.push(byte) {
                    Some(frame) => {
                        let response = self.module.input_command(frame.as_slice(), frame.len());
                        Outcome::Reply(response)
                    },
                    None => Outcome::Nothing,
                },
                Side::Air => Outcome::Nothing,
            },
            E32State::WakeUp | E32State::PowerSaving => Outcome::Unimplemented,
        }
    }

    /// Takes one look at the lane that buffers the bytes of `side`, with
    /// `expired` telling whether that lane's timer period has ended since
    /// the last look. In the normal state the lane's timer is started when
    /// its buffered count has changed, and the buffered run is handed back
    /// as one burst for the other side once it has seen enough silent periods
    /// in a row. No run is sent on while the module sleeps.
    pub fn on_tick(&mut self, side: Side, expired: bool) -> (out: Outcome)
        ensures
            final(self)@ == bridge_after_tick(old(self)@, side, expired),
            out@ == outcome_of_tick(old(self)@, side, expired),
    {
        match self.state {
            E32State::Normal => {
                let polled = match side {
                    Side::Host => self.host.poll(expired),
                    Side::Air => self.air.poll(expired),
                };
                match polled {
                    LanePoll::Wait => Outcome::Nothing,
                    LanePoll::Restart => Outcome::ArmTimer(side),
                    LanePoll::Rearm => Outcome::ArmTimer(side),
                    LanePoll::Flush(burst) => Outcome::Flush { to: side.opposite(), burst },
                }
            },
            E32State::Sleep => Outcome::Nothing,
            E32State::WakeUp | E32State::PowerSaving => Outcome::Unimplemented,
        }
    }
}

/// The state follows the mode lines alone: whatever the bridge was doing,
/// after a look at the lines its state is the one that they select.
pub proof fn lemma_state_has_no_memory(b: BridgeModel, m0: bool, m1: bool)
    ensures
        bridge_after_lines(b, m0, m1).state == state_of_lines(m0, m1),
        state_of_lines(false, false) == E32State::Normal,
        state_of_lines(true, false) == E32State::WakeUp,
        state_of_lines(false, true) == E32State::PowerSaving,
        state_of_lines(true, true) == E32State::Sleep,
{
}

/// A valid bridge stays valid whatever event it takes in.
pub proof fn lemma_bridge_stays_valid(
    b: BridgeModel,
    side: Side,
    byte: u8,
    expired: bool,
    m0: bool,
    m1: bool,
)
    requires
        bridge_valid(b),
    ensures
        bridge_valid(bridge_after_lines(b, m0, m1)),
        bridge_valid(bridge_after_byte(b, side, byte)),
        bridge_valid(bridge_after_tick(b, side, expired)),
{
}

/// Outside the normal state and sleep nothing is done: every event leaves
/// the bridge as it was and is answered as not implemented.
pub proof fn lemma_other_states_do_nothing(b: BridgeModel, side: Side, byte: u8, expired: bool)
    requires
        b.state == E32State::WakeUp || b.state == E32State::PowerSaving,
    ensures
        bridge_after_byte(b, side, byte) == b,
        bridge_after_tick(b, side, expired) == b,
        outcome_of_byte(b, side, byte) == OutcomeModel::Unimplemented,
        outcome_of_tick(b, side, expired) == OutcomeModel::Unimplemented,
{
}

/// While the module sleeps, the bytes from the host side that do not yet
/// make a frame are collected, and nothing else changes.
pub proof fn lemma_sleep_collects(b: BridgeModel, bytes: Seq<u8>)
    requires
        b.state == E32State::Sleep,
        b.scratch.len() == 0,
        no_frame_in(bytes),
    ensures
        bridge_after_bytes(b, Side::Host, bytes) == (BridgeModel { scratch: bytes, ..b }),
        bytes.len() > 0 ==> outcome_of_last(b, Side::Host, bytes) == OutcomeModel::Nothing,
    decreases bytes.len(),
{
    if bytes.len() > 0 {
        let head = bytes.drop_last();
        assert forall|k: int| 0 < k <= head.len() implies !frame_complete(
            #[trigger] head.take(k),
        ) by {
            assert(head.take(k) =~= bytes.take(k));
        }
        lemma_sleep_collects(b, head);
        assert(head.push(bytes.last()) =~= bytes);
        assert(bytes.take(bytes.len() as int) =~= bytes);
    } else {
        assert(b.scratch =~= bytes);
    }
}

/// While the module sleeps, the byte from the host side that makes a frame
/// whole has the frame answered as the parameter store answers it, and
/// leaves the store as that command leaves it, with nothing collected.
pub proof fn lemma_sleep_answers_whole_frame(b: BridgeModel, frame: Seq<u8>)
    requires
        b.state == E32State::Sleep,
        b.scratch.len() == 0,
        frame.len() > 0,
        no_frame_in(frame.drop_last()),
        frame_complete(frame),
    ensures
        outcome_of_last(b, Side::Host, frame) == OutcomeModel::Reply(
            response_to(b.params, frame, frame.len() as usize),
        ),
        bridge_after_bytes(b, Side::Host, frame) == (BridgeModel {
            params: params_after(b.params, frame, frame.len() as usize),
            scratch: Seq::<u8>::empty(),
            ..b
        }),
{
    lemma_sleep_collects(b, frame.drop_last());
    assert(frame.drop_last().push(frame.last()) =~= frame);
}

/// A write frame sent to the sleeping module byte by byte is answered once,
/// at its sixth byte, with the accepting text, and is then the stored
/// record.
pub proof fn lemma_sleep_write_exchange(b: BridgeModel, addh: u8, addl: u8, sped: u8, chan: u8, option: u8)
    requires
        b.state == E32State::Sleep,
        b.scratch.len() == 0,
    ensures
        ({
            let frame = seq![WRITE_HEAD, addh, addl, sped, chan, option];
            &&& forall|k: int|
                0 < k < 6 ==> outcome_of_last(b, Side::Host, #[trigger] frame.take(k))
                    == OutcomeModel::Nothing
            &&& outcome_of_last(b, Side::Host, frame) == OutcomeModel::Reply(ok_text())
            &&& bridge_after_bytes(b, Side::Host, frame) == (BridgeModel {
                params: frame,
                scratch: Seq::<u8>::empty(),
                ..b
            })
        }),
{
    let frame = seq![WRITE_HEAD, addh, addl, sped, chan, option];
    assert forall|k: int| 0 < k < 6 implies no_frame_in(#[trigger] frame.take(k)) by {
        let part = frame.take(k);
        assert forall|j: int| 0 < j <= part.len() implies !frame_complete(
            #[trigger] part.take(j),
        ) by {
            assert(part.take(j)[0] == WRITE_HEAD);
            assert(read_frame()[0] == READ_BYTE);
        }
    }
    assert forall|k: int| 0 < k < 6 implies outcome_of_last(b, Side::Host, #[trigger] frame.take(k))
        == OutcomeModel::Nothing by {
        lemma_sleep_collects(b, frame.take(k));
    }
    assert(frame.drop_last() =~= frame.take(5));
    lemma_sleep_answers_whole_frame(b, frame);
}

/// The read frame sent to the sleeping module byte by byte is answered once,
/// at its third byte, with the stored record in hexadecimal, and changes
/// nothing.
pub proof fn lemma_sleep_read_exchange(b: BridgeModel)
    requires
        b.state == E32State::Sleep,
        b.scratch.len() == 0,
    ensures
        forall|k: int|
            0 < k < 3 ==> outcome_of_last(b, Side::Host, #[trigger] read_frame().take(k))
                == OutcomeModel::Nothing,
        outcome_of_last(b, Side::Host, read_frame()) == OutcomeModel::Reply(hex_dump(b.params)),
        bridge_after_bytes(b, Side::Host, read_frame()) == b,
{
    let frame = read_frame();
    assert forall|k: int| 0 < k < 3 implies no_frame_in(#[trigger] frame.take(k)) by {
        let part = frame.take(k);
        assert forall|j: int| 0 < j <= part.len() implies !frame_complete(
            #[trigger] part.take(j),
        ) by {
            assert(part.take(j).len() < 3);
        }
    }
    assert forall|k: int| 0 < k < 3 implies outcome_of_last(b, Side::Host, #[trigger] frame.take(k))
        == OutcomeModel::Nothing by {
        lemma_sleep_collects(b, frame.take(k));
    }
    assert(frame.drop_last() =~= frame.take(2));
    lemma_sleep_answers_whole_frame(b, frame);
    assert(b.scratch =~= Seq::<u8>::empty());
}

} // verus!
