use vstd::prelude::*;

use crate::registers::{
    voice_base, FILTER_REG_START, NUM_VOICES, VOICE_REG_OFFSET, VOICE_REG_START,
};
use crate::state::{Payload, SidState};

verus! {

/// One step on the chip's interface.
#[derive(Clone, Copy, Debug, PartialEq, Eq, Structural)]
pub enum BusOp {
    /// Drive chip-select low.
    SelectLow,
    /// Drive chip-select high.
    SelectHigh,
    /// Send the two bytes of a frame: address byte, then data byte.
    Transfer(u8, u8),
    /// Drive the dedicated reset line low.
    ResetLow,
    /// Drive the dedicated reset line high.
    ResetHigh,
    /// Block for this many microseconds.
    DelayUs(u16),
    /// Block for this many milliseconds.
    DelayMs(u16),
}

/// How a device is addressed and reset; one driver keeps one convention.
#[derive(Clone, Copy, Debug, PartialEq, Eq, Structural)]
pub enum Addressing {
    /// The address byte is the register index; reset uses a dedicated line,
    /// held low for milliseconds.
    Linear,
    /// The address byte is the register index shifted left by one, bit 0 being
    /// the reset bit; every write settles for 2 microseconds, and reset is a
    /// frame with the reset bit set, held for microseconds.
    Shifted,
}

/// Where the driver's steps go: a bus remembers, as its history, every step
/// it was asked to perform.
pub trait Bus {
    /// Every step performed on this bus so far, in order.
    spec fn history(&self) -> Seq<BusOp>;

    /// Performs one step, which is then the last of the history.
    fn perform(&mut self, op: BusOp)
        ensures
            final(self).history() == old(self).history().push(op),
    ;
}

/// A bus that only records the steps it is asked to perform.
pub struct BusLog {
    ops: Vec<BusOp>,
}

impl BusLog {
    /// A log with nothing recorded.
    pub fn new() -> (r: BusLog)
        ensures
            r.history() == Seq::<BusOp>::empty(),
    {
        BusLog { ops: Vec::new() }
    }

    /// Hands out the steps recorded so far, in order, and starts a new log.
    pub fn take(&mut self) -> (r: Vec<BusOp>)
        ensures
            r@ == old(self).history(),
            final(self).history() == Seq::<BusOp>::empty(),
    {
        let mut r: Vec<BusOp> = Vec::new();
        core::mem::swap(&mut r, &mut self.ops);
        r
    }

    /// The steps recorded so far, in order.
    pub fn ops(&self) -> (r: &Vec<BusOp>)
        ensures
            r@ == self.history(),
    {
        &self.ops
    }
}

impl Bus for BusLog {
    closed spec fn history(&self) -> Seq<BusOp> {
        self.ops@
    }

    fn perform(&mut self, op: BusOp) {
        self.ops.push(op);
    }
}

/// Least hold time, in delay units, of the reset condition.
pub const RESET_MIN_HOLD: u16 = 10;

/// Hold time, in delay units, that `reset` uses with shifted addressing; a
/// margin over the minimum, so that a clock edge cannot be missed.
pub const SHIFTED_RESET_HOLD: u16 = 12;

/// Settle time, in microseconds, after each write with shifted addressing.
pub const SHIFTED_SETTLE_US: u16 = 2;

/// The address byte sent for register `addr`.
pub open spec fn wire_addr(a: Addressing, addr: nat) -> u8 {
    match a {
        Addressing::Linear => addr as u8,
        Addressing::Shifted => (addr * 2) as u8,
    }
}

/// The steps of one register write.
pub open spec fn frame(a: Addressing, addr: nat, data: u8) -> Seq<BusOp> {
    match a {
        Addressing::Linear => seq![
            BusOp::SelectLow,
            BusOp::Transfer(wire_addr(a, addr), data),
            BusOp::SelectHigh,
        ],
        Addressing::Shifted => seq![
            BusOp::SelectLow,
            BusOp::Transfer(wire_addr(a, addr), data),
            BusOp::SelectHigh,
            BusOp::DelayUs(SHIFTED_SETTLE_US),
        ],
    }
}

/// Number of steps in one register write.
pub open spec fn frame_len(a: Addressing) -> nat {
    match a {
        Addressing::Linear => 3,
        Addressing::Shifted => 4,
    }
}

/// The steps that write `vals` to the registers from `start` on, one register
/// per byte, the address going up by one each time.
pub open spec fn burst(a: Addressing, start: nat, vals: Seq<u8>) -> Seq<BusOp>
    decreases vals.len(),
{
    if vals.len() == 0 {
        seq![]
    } else {
        burst(a, start, vals.drop_last()) + frame(a, (start + vals.len() - 1) as nat, vals.last())
    }
}

/// The steps of a reset.
pub open spec fn reset_ops(a: Addressing) -> Seq<BusOp> {
    match a {
        Addressing::Linear => seq![
            BusOp::ResetLow,
            BusOp::DelayMs(RESET_MIN_HOLD),
            BusOp::ResetHigh,
        ],
        Addressing::Shifted => seq![
            BusOp::SelectLow,
            BusOp::Transfer(1, 0),
            BusOp::DelayUs(SHIFTED_RESET_HOLD),
            BusOp::SelectHigh,
        ],
    }
}

/// The steps that write voice `i` of `st`.
pub open spec fn voice_ops(a: Addressing, st: SidState, i: nat) -> Seq<BusOp> {
    burst(a, voice_base(i), st.voices[i as int].spec_payload())
}

/// The steps that write the filter of `st`.
pub open spec fn filter_ops(a: Addressing, st: SidState) -> Seq<BusOp> {
    burst(a, FILTER_REG_START as nat, st.filter.spec_payload())
}

/// The steps that write the three voices, in order.
pub open spec fn voices_ops(a: Addressing, st: SidState) -> Seq<BusOp> {
    voice_ops(a, st, 0) + voice_ops(a, st, 1) + voice_ops(a, st, 2)
}

/// A burst has one frame per value.
pub proof fn lemma_burst_len(a: Addressing, start: nat, vals: Seq<u8>)
    ensures
        burst(a, start, vals).len() == vals.len() * frame_len(a),
    decreases vals.len(),
{
    if vals.len() > 0 {
        lemma_burst_len(a, start, vals.drop_last());
        assert((vals.len() - 1) * frame_len(a) + frame_len(a) == vals.len() * frame_len(a))
            by (nonlinear_arith);
    }
}

/// Frame `k` of a burst writes value `k` to register `start + k`.
pub proof fn lemma_burst_frame(a: Addressing, start: nat, vals: Seq<u8>, k: nat)
    requires
        k < vals.len(),
    ensures
        burst(a, start, vals).subrange(
            (k * frame_len(a)) as int,
            ((k + 1) * frame_len(a)) as int,
        ) == frame(a, start + k, vals[k as int]),
    decreases vals.len(),
{
    let fl = frame_len(a);
    let prefix = burst(a, start, vals.drop_last());
    lemma_burst_len(a, start, vals.drop_last());
    assert((k + 1) * fl == k * fl + fl) by (nonlinear_arith);
    if k + 1 == vals.len() {
        assert(burst(a, start, vals).subrange((k * fl) as int, ((k + 1) * fl) as int)
            =~= frame(a, start + k, vals[k as int]));
    } else {
        lemma_burst_frame(a, start, vals.drop_last(), k);
        assert(k + 1 <= vals.len() - 1);
        assert((k + 1) * fl <= (vals.len() - 1) * fl) by (nonlinear_arith)
            requires
                k + 1 <= vals.len() - 1,
        ;
        assert(burst(a, start, vals).subrange((k * fl) as int, ((k + 1) * fl) as int)
            =~= prefix.subrange((k * fl) as int, ((k + 1) * fl) as int));
    }
}

/// Writing `x` then `y` from the register after `x` is one burst of `x + y`.
pub proof fn lemma_burst_append(a: Addressing, start: nat, x: Seq<u8>, y: Seq<u8>)
    ensures
        burst(a, start, x + y) == burst(a, start, x) + burst(a, start + x.len(), y),
    decreases y.len(),
{
    if y.len() == 0 {
        assert(x + y =~= x);
        assert(burst(a, start, x) + burst(a, start + x.len(), y) =~= burst(a, start, x));
    } else {
        lemma_burst_append(a, start, x, y.drop_last());
        assert((x + y).drop_last() =~= x + y.drop_last());
        assert(burst(a, start, x + y) =~= burst(a, start, x) + burst(a, start + x.len(), y));
    }
}

/// Writing voice `i` sends byte `k` of its payload to register `7 * i + k`;
/// writing the filter sends byte `k` of its payload to register `21 + k`, the
/// group right after the voice block.
pub proof fn lemma_group_addresses(a: Addressing, st: SidState, i: nat, k: nat)
    requires
        i < NUM_VOICES,
        k < 7,
    ensures
        voice_base(i) == 7 * i,
        FILTER_REG_START as nat == voice_base(NUM_VOICES as nat),
        voice_ops(a, st, i).len() == 7 * frame_len(a),
        voice_ops(a, st, i).subrange((k * frame_len(a)) as int, ((k + 1) * frame_len(a)) as int)
            == frame(a, 7 * i + k, st.voices[i as int].spec_payload()[k as int]),
        filter_ops(a, st).len() == 4 * frame_len(a),
        k < 4 ==> filter_ops(a, st).subrange(
            (k * frame_len(a)) as int,
            ((k + 1) * frame_len(a)) as int,
        ) == frame(a, 21 + k, st.filter.spec_payload()[k as int]),
{
    lemma_burst_len(a, voice_base(i), st.voices[i as int].spec_payload());
    lemma_burst_frame(a, voice_base(i), st.voices[i as int].spec_payload(), k);
    lemma_burst_len(a, 21, st.filter.spec_payload());
    if k < 4 {
        lemma_burst_frame(a, 21, st.filter.spec_payload(), k);
    }
}

/// The bytes of every register, from address 0 up: the three voices, then the
/// filter.
pub open spec fn state_payload(st: SidState) -> Seq<u8> {
    st.voices[0].spec_payload() + st.voices[1].spec_payload() + st.voices[2].spec_payload()
        + st.filter.spec_payload()
}

/// `initialize` writes the three voices and then the filter: 25 register
/// writes, to addresses 0 to 24 in order, each in its own chip-select frame.
pub proof fn lemma_initialize_order(a: Addressing, st: SidState)
    ensures
        voices_ops(a, st) + filter_ops(a, st) == burst(a, 0, state_payload(st)),
        state_payload(st).len() == 25,
        (voices_ops(a, st) + filter_ops(a, st)).len() == 25 * frame_len(a),
        forall|k: nat|
            k < 25 ==> (voices_ops(a, st) + filter_ops(a, st)).subrange(
                (k * frame_len(a)) as int,
                ((k + 1) * frame_len(a)) as int,
            ) == frame(a, k, #[trigger] state_payload(st)[k as int]),
{
    let p0 = st.voices[0].spec_payload();
    let p1 = st.voices[1].spec_payload();
    let p2 = st.voices[2].spec_payload();
    let pf = st.filter.spec_payload();
    lemma_burst_append(a, 0, p0, p1);
    lemma_burst_append(a, 0, p0 + p1, p2);
    lemma_burst_append(a, 0, p0 + p1 + p2, pf);
    assert(voices_ops(a, st) + filter_ops(a, st) =~= burst(a, 0, state_payload(st)));
    lemma_burst_len(a, 0, state_payload(st));
    assert forall|k: nat| k < 25 implies (voices_ops(a, st) + filter_ops(a, st)).subrange(
        (k * frame_len(a)) as int,
        ((k + 1) * frame_len(a)) as int,
    ) == frame(a, k, #[trigger] state_payload(st)[k as int]) by {
        lemma_burst_frame(a, 0, state_payload(st), k);
    }
}

/// The step that holds the reset condition for `units` delay units.
pub open spec fn hold_op(a: Addressing, units: u16) -> BusOp {
    match a {
        Addressing::Linear => BusOp::DelayMs(units),
        Addressing::Shifted => BusOp::DelayUs(units),
    }
}

/// The step that releases the reset condition.
pub open spec fn release_op(a: Addressing) -> BusOp {
    match a {
        Addressing::Linear => BusOp::ResetHigh,
        Addressing::Shifted => BusOp::SelectHigh,
    }
}

/// Either way, a reset first asserts its condition (the reset line low, or a
/// frame whose address byte has the reset bit set), then blocks for at least
/// the minimum hold time, and only then releases it.
pub proof fn lemma_reset_hold(a: Addressing)
    ensures
        ({
            let ops = reset_ops(a);
            let n = ops.len();
            &&& n >= 3
            &&& ops[n - 1] == release_op(a)
            &&& forall|j: int| 0 <= j < n - 1 ==> ops[j] != release_op(a)
            &&& exists|h: u16| h >= RESET_MIN_HOLD && ops[n - 2] == hold_op(a, h)
            &&& a == Addressing::Linear ==> ops[0] == BusOp::ResetLow
            &&& a == Addressing::Shifted ==> ops[0] == BusOp::SelectLow && ops[1] == BusOp::Transfer(1, 0)
        }),
{
    match a {
        Addressing::Linear => {
            assert(reset_ops(a)[1] == hold_op(a, RESET_MIN_HOLD));
        },
        Addressing::Shifted => {
            assert(reset_ops(a)[2] == hold_op(a, SHIFTED_RESET_HOLD));
        },
    }
}

/// The driver: the chip's state and the capabilities to write it.
pub struct Sid<B> {
    bus: B,
    addressing: Addressing,
    state: SidState,
}

impl<B: Bus> Sid<B> {
    /// Every step performed on the driver's bus, in order.
    pub closed spec fn bus_history(&self) -> Seq<BusOp> {
        self.bus.history()
    }

    /// The capabilities the driver holds.
    pub closed spec fn spec_bus(&self) -> B {
        self.bus
    }

    /// The state that the next writes send.
    pub closed spec fn spec_state(&self) -> SidState {
        self.state
    }

    /// The addressing convention of this driver.
    pub closed spec fn spec_addressing(&self) -> Addressing {
        self.addressing
    }

    /// A driver with shifted addressing and the default state; it does not
    /// touch the bus.
    pub fn new(bus: B) -> (r: Sid<B>)
        ensures
            r.spec_addressing() == Addressing::Shifted,
            r.spec_state().is_default(),
            r.spec_bus() == bus,
            r.bus_history() == bus.history(),
    {
        Sid::with_addressing(bus, Addressing::Shifted)
    }

    /// A driver with the given addressing and the default state; it does not
    /// touch the bus.
    pub fn with_addressing(bus: B, addressing: Addressing) -> (r: Sid<B>)
        ensures
            r.spec_addressing() == addressing,
            r.spec_state().is_default(),
            r.spec_bus() == bus,
            r.bus_history() == bus.history(),
    {
        Sid { bus, addressing, state: SidState::new() }
    }

    pub fn addressing(&self) -> (r: Addressing)
        ensures
            r == self.spec_addressing(),
    {
        self.addressing
    }

    /// The state that the next writes send.
    pub fn state(&self) -> (r: &SidState)
        ensures
            *r == self.spec_state(),
    {
        &self.state
    }

    /// Replaces the held state; it reaches the chip only through an explicit
    /// write, never by itself.
    pub fn set_state(&mut self, st: SidState)
        ensures
            final(self).spec_state() == st,
            final(self).bus_history() == old(self).bus_history(),
            final(self).spec_addressing() == old(self).spec_addressing(),
    {
        self.state = st;
    }

    /// The capabilities the driver works through.
    pub fn bus(&self) -> (r: &B)
        ensures
            *r == self.spec_bus(),
    {
        &self.bus
    }

    fn perform(&mut self, op: BusOp)
        ensures
            final(self).bus_history() == old(self).bus_history().push(op),
            final(self).spec_state() == old(self).spec_state(),
            final(self).addressing == old(self).addressing,
    {
        self.bus.perform(op);
    }

    fn write_reg(&mut self, addr: u8, value: u8)
        requires
            addr < 128,
        ensures
            final(self).bus_history() == old(self).bus_history() + frame(
                old(self).spec_addressing(),
                addr as nat,
                value,
            ),
            final(self).spec_state() == old(self).spec_state(),
            final(self).addressing == old(self).addressing,
    {
        let wire = match self.addressing {
            Addressing::Linear => addr,
            Addressing::Shifted => addr * 2,
        };
        self.perform(BusOp::SelectLow);
        self.perform(BusOp::Transfer(wire, value));
        self.perform(BusOp::SelectHigh);
        if self.addressing == Addressing::Shifted {
            self.perform(BusOp::DelayUs(SHIFTED_SETTLE_US));
        }
        assert(self.bus_history() =~= old(self).bus_history() + frame(
            old(self).spec_addressing(),
            addr as nat,
            value,
        ));
    }

    fn write_regs(&mut self, start: u8, values: &[u8])
        requires
            start + values@.len() <= 128,
        ensures
            final(self).bus_history() == old(self).bus_history() + burst(
                old(self).spec_addressing(),
                start as nat,
                values@,
            ),
            final(self).spec_state() == old(self).spec_state(),
            final(self).addressing == old(self).addressing,
    {
        let mut i: usize = 0;
        while i < values.len()
            invariant
                i <= values@.len(),
                start + values@.len() <= 128,
                self.bus_history() == old(self).bus_history() + burst(
                    old(self).spec_addressing(),
                    start as nat,
                    values@.take(i as int),
                ),
                self.spec_state() == old(self).spec_state(),
                self.addressing == old(self).addressing,
            decreases values@.len() - i,
        {
            self.write_reg(start + i as u8, values[i]);
            proof {
                let next = values@.take(i + 1);
                assert(next.drop_last() =~= values@.take(i as int));
                assert(next.last() == values@[i as int]);
                assert(self.bus_history() =~= old(self).bus_history() + burst(
                    old(self).spec_addressing(),
                    start as nat,
                    next,
                ));
            }
            i = i + 1;
        }
        assert(values@.take(values@.len() as int) =~= values@);
    }

    /// Resets the chip and holds the reset condition for the mandated time
    /// before releasing it.
    pub fn reset(&mut self)
        ensures
            final(self).bus_history() == old(self).bus_history() + reset_ops(old(self).spec_addressing()),
            final(self).spec_state() == old(self).spec_state(),
            final(self).spec_addressing() == old(self).spec_addressing(),
    {
        match self.addressing {
            Addressing::Linear => {
                self.perform(BusOp::ResetLow);
                self.perform(BusOp::DelayMs(RESET_MIN_HOLD));
                self.perform(BusOp::ResetHigh);
            },
            Addressing::Shifted => {
                self.perform(BusOp::SelectLow);
                self.perform(BusOp::Transfer(1, 0));
                self.perform(BusOp::DelayUs(SHIFTED_RESET_HOLD));
                self.perform(BusOp::SelectHigh);
            },
        }
        assert(self.bus_history() =~= old(self).bus_history() + reset_ops(old(self).spec_addressing()));
    }

    /// Writes the filter's registers from the held state.
    pub fn write_filter(&mut self)
        ensures
            final(self).bus_history() == old(self).bus_history() + filter_ops(
                old(self).spec_addressing(),
                old(self).spec_state(),
            ),
            final(self).spec_state() == old(self).spec_state(),
            final(self).spec_addressing() == old(self).spec_addressing(),
    {
        let mut buf = [0u8; 4];
        self.state.filter.payload(&mut buf);
        self.write_regs(FILTER_REG_START, &buf);
    }

    /// Writes the registers of voice `voice` from the held state.
    pub fn write_voice(&mut self, voice: usize)
        requires
            voice < NUM_VOICES,
        ensures
            final(self).bus_history() == old(self).bus_history() + voice_ops(
                old(self).spec_addressing(),
                old(self).spec_state(),
                voice as nat,
            ),
            final(self).spec_state() == old(self).spec_state(),
            final(self).spec_addressing() == old(self).spec_addressing(),
    {
        let mut buf = [0u8; 7];
        self.state.voices[voice].payload(&mut buf);
        self.write_regs(VOICE_REG_START + voice as u8 * VOICE_REG_OFFSET, &buf);
    }

    /// Writes the three voices, first to last.
    pub fn write_voices(&mut self)
        ensures
            final(self).bus_history() == old(self).bus_history() + voices_ops(
                old(self).spec_addressing(),
                old(self).spec_state(),
            ),
            final(self).spec_state() == old(self).spec_state(),
            final(self).spec_addressing() == old(self).spec_addressing(),
    {
        let mut i: usize = 0;
        while i < NUM_VOICES
            invariant
                i <= NUM_VOICES,
                self.spec_state() == old(self).spec_state(),
                self.addressing == old(self).addressing,
                i == 0 ==> self.bus_history() == old(self).bus_history(),
                i == 1 ==> self.bus_history() == old(self).bus_history() + voice_ops(
                    old(self).spec_addressing(),
                    old(self).spec_state(),
                    0,
                ),
                i == 2 ==> self.bus_history() == old(self).bus_history() + voice_ops(
                    old(self).spec_addressing(),
                    old(self).spec_state(),
                    0,
                ) + voice_ops(old(self).spec_addressing(), old(self).spec_state(), 1),
                i == 3 ==> self.bus_history() == old(self).bus_history() + voices_ops(
                    old(self).spec_addressing(),
                    old(self).spec_state(),
                ),
            decreases NUM_VOICES - i,
        {
            self.write_voice(i);
            proof {
                let a = old(self).spec_addressing();
                let st = old(self).spec_state();
                if i == 0 {
                    assert(self.bus_history() =~= old(self).bus_history() + voice_ops(a, st, 0));
                } else if i == 1 {
                    assert(self.bus_history() =~= old(self).bus_history() + voice_ops(a, st, 0) + voice_ops(a, st, 1));
                } else {
                    assert(self.bus_history() =~= old(self).bus_history() + voices_ops(a, st));
                }
            }
            i = i + 1;
        }
    }

    /// Brings the chip's registers to the held state: the three voices, then
    /// the filter.
    pub fn initialize(&mut self)
        ensures
            final(self).bus_history() == old(self).bus_history() + voices_ops(
                old(self).spec_addressing(),
                old(self).spec_state(),
            ) + filter_ops(old(self).spec_addressing(), old(self).spec_state()),
            final(self).spec_state() == old(self).spec_state(),
            final(self).spec_addressing() == old(self).spec_addressing(),
    {
        self.write_voices();
        self.write_filter();
        assert(self.bus_history() =~= old(self).bus_history() + voices_ops(
            old(self).spec_addressing(),
            old(self).spec_state(),
        ) + filter_ops(old(self).spec_addressing(), old(self).spec_state()));
    }
}

impl Sid<BusLog> {
    /// Hands out the steps performed since the last call, in order, for the
    /// caller to carry out on the hardware; the driver's state and
    /// addressing stay as they were.
    pub fn take_ops(&mut self) -> (r: Vec<BusOp>)
        ensures
            r@ == old(self).bus_history(),
            final(self).bus_history() == Seq::<BusOp>::empty(),
            final(self).spec_state() == old(self).spec_state(),
            final(self).spec_addressing() == old(self).spec_addressing(),
    {
        self.bus.take()
    }
}

} // verus!
