use vstd::prelude::*;

use crate::command::{
    BufCommand, Command, DataEntryMode, DeepSleepMode, DisplayUpdateSequenceOption,
    IncrementAxis, RamOption, SourceOption, TemperatureSensor, WRITE_BLACK_DATA,
};
use crate::config::Config;
use crate::error::Ssd1680Error;
use crate::interface::{Call, CallRecord, DisplayInterface, Transport};

verus! {

/// The maximum number of rows supported by the controller
pub const MAX_GATE_OUTPUTS: u16 = 296;

/// The maximum number of columns supported by the controller
pub const MAX_SOURCE_OUTPUTS: u8 = 176;

/// Border waveform set by the standard initialisation.
pub const BORDER_WAVEFORM_INIT: u8 = 0x05;

/// Border waveform that holds the border still during a partial update.
pub const BORDER_WAVEFORM_LOCKED: u8 = 0x80;

/// Temperature register value loaded before the fast-refresh waveform.
pub const FAST_INIT_TEMPERATURE: u16 = 0x6400;

/// Represents the dimensions of the display.
#[derive(Clone, Copy, Debug, PartialEq, Eq, Structural)]
pub struct Dimensions {
    /// The number of rows the display has; at most `MAX_GATE_OUTPUTS`.
    pub rows: u16,
    /// The number of columns the display has; a multiple of 8, at most `MAX_SOURCE_OUTPUTS`.
    pub cols: u8,
}

impl Dimensions {
    /// Within the controller's limits, with byte-aligned columns.
    pub open spec fn valid(self) -> bool {
        &&& self.cols % 8 == 0
        &&& self.cols <= MAX_SOURCE_OUTPUTS
        &&& self.rows <= MAX_GATE_OUTPUTS
    }

    /// Bytes in one row of the framebuffer.
    pub open spec fn row_bytes(self) -> nat {
        (self.cols / 8) as nat
    }

    /// Bytes in the framebuffer: ceil(rows * cols / 8), which is
    /// `rows * row_bytes()` for byte-aligned columns.
    pub open spec fn buffer_len(self) -> nat {
        ((self.rows * self.cols + 7) / 8) as nat
    }

    /// Bytes in the framebuffer.
    pub fn buffer_size(&self) -> (n: usize)
        ensures
            n == self.buffer_len(),
    {
        proof {
            let (a, b) = (self.rows as int, self.cols as int);
            assert(a * b <= 65535 * 255) by (nonlinear_arith)
                requires
                    0 <= a <= 65535,
                    0 <= b <= 255,
            ;
        }
        (self.rows as usize * self.cols as usize + 7) / 8
    }

    /// Whether the dimensions are within the controller's limits.
    pub fn is_valid(&self) -> (r: bool)
        ensures
            r == self.valid(),
    {
        self.cols % 8 == 0 && self.cols <= MAX_SOURCE_OUTPUTS && self.rows <= MAX_GATE_OUTPUTS
    }
}

/// Represents the physical rotation of the display relative to the native orientation.
///
/// For example the native orientation of the Inky pHAT display is a tall (portrait) 104x212
/// display. `Rotate270` can be used to make it the right way up when attached to a Raspberry Pi
/// Zero with the ports on the top.
#[derive(Clone, Copy, Debug, PartialEq, Eq, Structural)]
pub enum Rotation {
    Rotate0,
    Rotate90,
    Rotate180,
    Rotate270,
}

impl Default for Rotation {
    /// Default is no rotation (`Rotate0`).
    fn default() -> (r: Self)
        ensures
            r == Rotation::Rotate0,
    {
        Rotation::Rotate0
    }
}

/// Where the controller stands in its lifecycle.
#[derive(Clone, Copy, Debug, PartialEq, Eq, Structural)]
pub enum State {
    /// Not reset since creation, or a sequence failed part way.
    Uninitialized,
    /// Initialised and idle.
    Ready,
    /// An update is being sent.
    Busy,
    /// In deep sleep; only a reset wakes it.
    Sleeping,
}

/// The operations that drive the controller.
#[derive(Clone, Copy, Debug, PartialEq, Eq, Structural)]
pub enum Operation {
    Reset,
    Update,
    PartialUpdate,
    DeepSleep,
}

/// Whether `op` may be started in `state`: reset always, the others only
/// when the controller is ready.
pub open spec fn admits(state: State, op: Operation) -> bool {
    op == Operation::Reset || state == State::Ready
}

/// Deep sleep is left only through a reset: once `deep_sleep` has succeeded
/// the controller is `Sleeping`, where every operation other than `reset` is
/// refused with `NotReady` before any interface call; a reset is admitted in every
/// state.
pub proof fn lemma_sleeping_admits_only_reset(state: State, op: Operation)
    ensures
        state == State::Sleeping ==> (admits(state, op) <==> op == Operation::Reset),
        admits(state, Operation::Reset),
{
}

/// The interface calls that load and select the fast-refresh waveform.
pub open spec fn fast_init_calls() -> Seq<Call> {
    Command::TemperatureSensorSelection(TemperatureSensor::Internal).calls()
        + Command::UpdateDisplayOption2(
        DisplayUpdateSequenceOption::EnableClockSignal_LoadTemp_LoadLutMode1_DisableClockSignal,
    ).calls() + Command::UpdateDisplay.calls() + seq![Call::BusyWait]
        + Command::WriteTemperatureSensor(FAST_INIT_TEMPERATURE).calls()
        + Command::UpdateDisplayOption2(
        DisplayUpdateSequenceOption::EnableClockSignal_LoadLutMode1_DisableClockSignal,
    ).calls() + Command::UpdateDisplay.calls() + seq![Call::BusyWait]
}

/// The interface calls of the standard initialisation for `d`.
pub open spec fn init_calls(d: Dimensions) -> Seq<Call> {
    seq![Call::BusyWait] + Command::DriverOutputControl(
        (d.rows - 1) as u16,
        0x00,
    ).calls() + Command::DataEntryMode(
        DataEntryMode::IncrementYIncrementX,
        IncrementAxis::Horizontal,
    ).calls() + Command::TemperatureSensorSelection(TemperatureSensor::Internal).calls()
        + Command::StartEndXPosition(0, (d.cols / 8 - 1) as u8).calls()
        + Command::StartEndYPosition(0, (d.rows - 1) as u16).calls() + Command::BorderWaveform(
        BORDER_WAVEFORM_INIT,
    ).calls() + Command::UpdateDisplayOption1(
        RamOption::Normal,
        RamOption::Normal,
        SourceOption::SourceFromS8ToS167,
    ).calls() + Command::XAddress(0x00).calls() + Command::YAddress(
        (d.rows - 1) as u16,
    ).calls()
}

/// The framebuffer length of byte-aligned dimensions is `rows * row_bytes()`.
pub proof fn lemma_buffer_len(d: Dimensions)
    requires
        d.cols % 8 == 0,
    ensures
        d.buffer_len() == d.rows * d.row_bytes(),
{
    let k = d.cols / 8;
    assert(d.rows * d.cols == 8 * (d.rows * k)) by (nonlinear_arith)
        requires
            d.cols == 8 * k,
    ;
}

/// The interface calls of a reset for configuration `c`: the
/// hardware reset, the soft reset, the optional fast-refresh waveform, and
/// the standard initialisation.
pub open spec fn reset_calls(c: Config) -> Seq<Call> {
    seq![Call::Reset, Call::BusyWait] + Command::SoftReset.calls() + seq![
        Call::BusyWait,
    ] + (if c.spec_fast_init() {
        fast_init_calls()
    } else {
        Seq::empty()
    }) + init_calls(c.spec_dimensions())
}

/// The interface calls of a full update of `frame`: the whole-frame
/// window, the first `buffer_len()` bytes of the frame, and the full refresh.
pub open spec fn update_calls(d: Dimensions, frame: Seq<u8>) -> Seq<Call> {
    seq![Call::BusyWait] + Command::StartEndXPosition(0, (d.cols / 8 - 1) as u8).calls()
        + Command::StartEndYPosition(0, (d.rows - 1) as u16).calls() + Command::XAddress(
        0x00,
    ).calls() + Command::YAddress((d.rows - 1) as u16).calls() + crate::command::command_calls(WRITE_BLACK_DATA, 
        frame.take(d.buffer_len() as int),
    ) + Command::UpdateDisplayOption2(
        DisplayUpdateSequenceOption::EnableClockSignal_EnableAnalog_DisplayMode1_DisableAnalog_DisableOscillator,
    ).calls() + Command::UpdateDisplay.calls() + seq![Call::BusyWait]
}

/// Whether the window [x, x + w) x [y, y + h) is a non-empty, byte-aligned
/// part of a display of dimensions `d`.
pub open spec fn window_fits(d: Dimensions, x: u16, y: u16, w: u16, h: u16) -> bool {
    &&& x % 8 == 0
    &&& w % 8 == 0
    &&& w > 0
    &&& h > 0
    &&& x + w <= d.cols
    &&& y + h <= d.rows
}

/// Bytes of the image of a w x h window.
pub open spec fn window_len(w: u16, h: u16) -> nat {
    ((w / 8) * h) as nat
}

/// The interface calls of a partial update of `image` in the window: a
/// hardware reset, the locked border, the window, the image, and the
/// partial refresh.
pub open spec fn partial_update_calls(
    image: Seq<u8>,
    x: u16,
    y: u16,
    w: u16,
    h: u16,
) -> Seq<Call> {
    seq![Call::Reset] + Command::BorderWaveform(BORDER_WAVEFORM_LOCKED).calls()
        + Command::StartEndXPosition((x / 8) as u8, (x / 8 + w / 8 - 1) as u8).calls()
        + Command::StartEndYPosition(y, (y + h - 1) as u16).calls() + Command::XAddress(
        (x / 8) as u8,
    ).calls() + Command::YAddress(y).calls() + crate::command::command_calls(WRITE_BLACK_DATA, image)
        + Command::UpdateDisplayOption2(
        DisplayUpdateSequenceOption::EnableClockSignal_EnableAnalog_DisplayMode2_DisableAnalog_DisableOscillator,
    ).calls() + Command::UpdateDisplay.calls()
}

/// The interface calls of a deep sleep.
pub open spec fn deep_sleep_calls() -> Seq<Call> {
    seq![Call::BusyWait] + Command::DeepSleepMode(DeepSleepMode::PreserveRAM).calls()
}

/// One step of a controller sequence.
enum Step<'a> {
    HardwareReset,
    BusyWait,
    Send(Command),
    Write(BufCommand<'a>),
}

impl<'a> Step<'a> {
    spec fn calls(&self) -> Seq<Call> {
        match *self {
            Step::HardwareReset => seq![Call::Reset],
            Step::BusyWait => seq![Call::BusyWait],
            Step::Send(command) => command.calls(),
            Step::Write(command) => command.calls(),
        }
    }

    spec fn sendable(&self) -> bool {
        match *self {
            Step::Send(command) => command.is_sendable(),
            _ => true,
        }
    }
}

/// The interface calls of running `steps` to completion.
spec fn steps_calls<'a>(steps: Seq<Step<'a>>) -> Seq<Call>
    decreases steps.len(),
{
    if steps.len() == 0 {
        Seq::empty()
    } else {
        steps_calls(steps.drop_last()) + steps.last().calls()
    }
}

spec fn all_sendable<'a>(steps: Seq<Step<'a>>) -> bool {
    forall|i: int| 0 <= i < steps.len() ==> #[trigger] steps[i].sendable()
}

proof fn lemma_steps_concat<'a>(a: Seq<Step<'a>>, b: Seq<Step<'a>>)
    ensures
        steps_calls(a + b) == steps_calls(a) + steps_calls(b),
    decreases b.len(),
{
    if b.len() == 0 {
        assert(a + b =~= a);
        assert(steps_calls(a) + steps_calls(b) =~= steps_calls(a));
    } else {
        lemma_steps_concat(a, b.drop_last());
        assert((a + b).drop_last() =~= a + b.drop_last());
        assert(steps_calls(a) + steps_calls(b.drop_last()) + b.last().calls()
            =~= steps_calls(a) + steps_calls(b));
    }
}

fn push_step<'a>(steps: &mut Vec<Step<'a>>, step: Step<'a>)
    requires
        all_sendable(old(steps)@),
        step.sendable(),
    ensures
        final(steps)@ == old(steps)@.push(step),
        all_sendable(final(steps)@),
        steps_calls(final(steps)@) == steps_calls(old(steps)@) + step.calls(),
{
    let ghost before = steps@;
    steps.push(step);
    assert(steps@.drop_last() =~= before);
}

fn push_fast_init_steps<'a>(steps: &mut Vec<Step<'a>>)
    requires
        all_sendable(old(steps)@),
    ensures
        all_sendable(final(steps)@),
        steps_calls(final(steps)@) == steps_calls(old(steps)@) + fast_init_calls(),
{
    let ghost t0 = steps_calls(steps@);
    push_step(steps, Step::Send(Command::TemperatureSensorSelection(TemperatureSensor::Internal)));
    push_step(
        steps,
        Step::Send(
            Command::UpdateDisplayOption2(
                DisplayUpdateSequenceOption::EnableClockSignal_LoadTemp_LoadLutMode1_DisableClockSignal,
            ),
        ),
    );
    push_step(steps, Step::Send(Command::UpdateDisplay));
    push_step(steps, Step::BusyWait);
    push_step(steps, Step::Send(Command::WriteTemperatureSensor(FAST_INIT_TEMPERATURE)));
    push_step(
        steps,
        Step::Send(
            Command::UpdateDisplayOption2(
                DisplayUpdateSequenceOption::EnableClockSignal_LoadLutMode1_DisableClockSignal,
            ),
        ),
    );
    push_step(steps, Step::Send(Command::UpdateDisplay));
    push_step(steps, Step::BusyWait);
    assert(steps_calls(steps@) =~= t0 + fast_init_calls());
}

/// The standard initialisation, following the controller's typical
/// operating sequence.
fn push_init_steps<'a>(steps: &mut Vec<Step<'a>>, d: Dimensions)
    requires
        all_sendable(old(steps)@),
        d.valid(),
        d.rows > 0,
        d.cols > 0,
    ensures
        all_sendable(final(steps)@),
        steps_calls(final(steps)@) == steps_calls(old(steps)@) + init_calls(d),
{
    let ghost t0 = steps_calls(steps@);
    let last_row = d.rows - 1;
    let last_col_byte = d.cols / 8 - 1;
    push_step(steps, Step::BusyWait);
    push_step(steps, Step::Send(Command::DriverOutputControl(last_row, 0x00)));
    push_step(
        steps,
        Step::Send(
            Command::DataEntryMode(DataEntryMode::IncrementYIncrementX, IncrementAxis::Horizontal),
        ),
    );
    push_step(steps, Step::Send(Command::TemperatureSensorSelection(TemperatureSensor::Internal)));
    push_step(steps, Step::Send(Command::StartEndXPosition(0, last_col_byte)));
    push_step(steps, Step::Send(Command::StartEndYPosition(0, last_row)));
    push_step(steps, Step::Send(Command::BorderWaveform(BORDER_WAVEFORM_INIT)));
    push_step(
        steps,
        Step::Send(
            Command::UpdateDisplayOption1(
                RamOption::Normal,
                RamOption::Normal,
                SourceOption::SourceFromS8ToS167,
            ),
        ),
    );
    push_step(steps, Step::Send(Command::XAddress(0x00)));
    push_step(steps, Step::Send(Command::YAddress(last_row)));
    assert(steps_calls(steps@) =~= t0 + init_calls(d));
}

/// The configuration of a display and where its controller stands.
struct Lifecycle {
    config: Config,
    state: State,
}

impl Lifecycle {
    /// Only a reset on dimensions with rows and columns leaves `Uninitialized`.
    #[verifier::type_invariant]
    spec fn inv(self) -> bool {
        self.state != State::Uninitialized ==> self.config.spec_dimensions().rows > 0
            && self.config.spec_dimensions().cols > 0
    }

    fn set_state(&mut self, state: State)
        requires
            state != State::Uninitialized ==> old(self).config.spec_dimensions().rows > 0
                && old(self).config.spec_dimensions().cols > 0,
        ensures
            final(self).config == old(self).config,
            final(self).state == state,
    {
        self.state = state;
    }

    /// The dimensions, which have rows and columns unless the state is `Uninitialized`.
    fn dimensions(&self) -> (d: Dimensions)
        ensures
            d == self.config.spec_dimensions(),
            d.valid(),
            self.state != State::Uninitialized ==> d.rows > 0 && d.cols > 0,
    {
        proof {
            use_type_invariant(self);
        }
        self.config.dimensions()
    }
}

/// A configured display with a hardware interface.
///
/// The controller starts `Uninitialized`; `reset` brings it to `Ready` from
/// any state. `update`, `partial_update` and `deep_sleep` run only when it is
/// `Ready` and are otherwise refused with `NotReady`, before any interface
/// call. Every sequence stops at the first interface call that fails, returns
/// its error and leaves the controller `Uninitialized`; nothing is retried.
pub struct Display<I: DisplayInterface> {
    transport: Transport<I>,
    lifecycle: Lifecycle,
}

impl<I: DisplayInterface> Display<I> {
    pub closed spec fn spec_interface(&self) -> I {
        self.transport.spec_interface()
    }

    pub closed spec fn spec_config(&self) -> Config {
        self.lifecycle.config
    }

    pub closed spec fn spec_state(&self) -> State {
        self.lifecycle.state
    }

    /// Every call made to the interface so far, in order, with what it returned.
    pub closed spec fn calls(&self) -> Seq<CallRecord> {
        self.transport.calls()
    }

    /// The dimensions the display was configured with.
    pub open spec fn spec_dimensions(&self) -> Dimensions {
        self.spec_config().spec_dimensions()
    }

    /// The state after a sequence that returned `r`: `Ready` when it
    /// succeeded, `Uninitialized` when it stopped part way.
    pub open spec fn settled(r: Result<(), Ssd1680Error>) -> State {
        if r is Ok {
            State::Ready
        } else {
            State::Uninitialized
        }
    }

    /// The call was refused with `e` before any interface call.
    pub open spec fn refused(self, after: Self, r: Result<(), Ssd1680Error>, e: Ssd1680Error) -> bool {
        &&& r == Err::<(), Ssd1680Error>(e)
        &&& after.calls() == self.calls()
        &&& after.spec_state() == self.spec_state()
    }

    /// Create a new display instance from a DisplayInterface and Config.
    /// The controller is uninitialised until `reset` succeeds.
    pub fn new(interface: I, config: Config) -> (d: Self)
        ensures
            d.spec_interface() == interface,
            d.spec_config() == config,
            d.spec_state() == State::Uninitialized,
            d.calls() == Seq::<CallRecord>::empty(),
    {
        Display {
            transport: Transport::new(interface),
            lifecycle: Lifecycle { config, state: State::Uninitialized },
        }
    }

    fn run_step(&mut self, step: &Step) -> (r: Result<(), Ssd1680Error>)
        requires
            step.sendable(),
        ensures
            final(self).spec_config() == old(self).spec_config(),
            final(self).spec_state() == old(self).spec_state(),
            crate::interface::follows(old(self).calls(), step.calls(), final(self).calls(), r),
    {
        let ghost before = self.calls();
        match step {
            Step::HardwareReset => {
                let r = self.transport.reset();
                proof {
                    crate::interface::lemma_follows_single(before, Call::Reset, r);
                }
                r
            },
            Step::BusyWait => {
                let r = self.transport.busy_wait();
                proof {
                    crate::interface::lemma_follows_single(before, Call::BusyWait, r);
                }
                r
            },
            Step::Send(command) => command.execute(&mut self.transport),
            Step::Write(command) => command.execute(&mut self.transport),
        }
    }

    /// Run `steps` in order, stopping at the first that fails.
    fn run(&mut self, steps: &Vec<Step>) -> (r: Result<(), Ssd1680Error>)
        requires
            all_sendable(steps@),
        ensures
            final(self).spec_config() == old(self).spec_config(),
            final(self).spec_state() == old(self).spec_state(),
            crate::interface::follows(old(self).calls(), steps_calls(steps@), final(self).calls(), r),
    {
        let ghost before = self.calls();
        proof {
            assert(steps@.take(0) =~= Seq::<Step>::empty());
            assert(crate::interface::succeeded(Seq::<Call>::empty()) =~= Seq::<CallRecord>::empty());
            assert(before + Seq::<CallRecord>::empty() =~= before);
        }
        let mut i: usize = 0;
        while i < steps.len()
            invariant
                i <= steps@.len(),
                all_sendable(steps@),
                self.spec_config() == old(self).spec_config(),
                self.spec_state() == old(self).spec_state(),
                before == old(self).calls(),
                self.calls() == before + crate::interface::succeeded(
                    steps_calls(steps@.take(i as int)),
                ),
            decreases steps@.len() - i,
        {
            let ghost done = steps@.take(i as int);
            let ghost rest = steps@.skip(i as int + 1);
            let ghost step_calls = steps@[i as int].calls();
            proof {
                assert(steps@ =~= done.push(steps@[i as int]) + rest);
                assert(steps@.take(i as int + 1) =~= done.push(steps@[i as int]));
                assert(done.push(steps@[i as int]).drop_last() =~= done);
                lemma_steps_concat(done.push(steps@[i as int]), rest);
                assert(steps@[i as int].sendable());
            }
            let r = self.run_step(&steps[i]);
            proof {
                crate::interface::lemma_follows_then(
                    before,
                    steps_calls(done),
                    step_calls,
                    self.calls(),
                    r,
                );
            }
            if r.is_err() {
                proof {
                    crate::interface::lemma_follows_stopped(
                        before,
                        steps_calls(done) + step_calls,
                        steps_calls(rest),
                        self.calls(),
                        r,
                    );
                }
                return r;
            }
            i = i + 1;
        }
        assert(steps@.take(steps@.len() as int) =~= steps@);
        Ok(())
    }

    fn reset_sequence(&mut self, d: Dimensions) -> (r: Result<(), Ssd1680Error>)
        requires
            d == old(self).spec_dimensions(),
            d.valid(),
            d.rows > 0,
            d.cols > 0,
        ensures
            final(self).spec_config() == old(self).spec_config(),
            final(self).spec_state() == old(self).spec_state(),
            crate::interface::follows(
                old(self).calls(),
                reset_calls(old(self).spec_config()),
                final(self).calls(),
                r,
            ),
    {
        let mut steps: Vec<Step> = Vec::new();
        push_step(&mut steps, Step::HardwareReset);
        push_step(&mut steps, Step::BusyWait);
        push_step(&mut steps, Step::Send(Command::SoftReset));
        push_step(&mut steps, Step::BusyWait);
        if self.lifecycle.config.fast_init() {
            push_fast_init_steps(&mut steps);
        }
        push_init_steps(&mut steps, d);
        assert(steps_calls(steps@) =~= reset_calls(self.lifecycle.config));
        self.run(&steps)
    }

    /// Perform a hardware reset followed by a software reset and the
    /// initialisation sequence, stopping at the first failing call. Allowed
    /// in every state; this is what wakes a controller from deep sleep.
    /// Dimensions with no rows or no columns are refused with `Configuration`
    /// before any hardware access.
    pub fn reset(&mut self) -> (r: Result<(), Ssd1680Error>)
        ensures
            final(self).spec_config() == old(self).spec_config(),
            old(self).spec_dimensions().rows == 0 || old(self).spec_dimensions().cols == 0
                ==> old(self).refused(*final(self), r, Ssd1680Error::Configuration),
            old(self).spec_dimensions().rows > 0 && old(self).spec_dimensions().cols > 0 ==> {
                &&& crate::interface::follows(
                    old(self).calls(),
                    reset_calls(old(self).spec_config()),
                    final(self).calls(),
                    r,
                )
                &&& final(self).spec_state() == Self::settled(r)
            },
    {
        let d = self.lifecycle.dimensions();
        if d.rows == 0 || d.cols == 0 {
            return Err(Ssd1680Error::Configuration);
        }
        self.lifecycle.set_state(State::Uninitialized);
        let r = self.reset_sequence(d);
        if r.is_ok() {
            self.lifecycle.set_state(State::Ready);
        }
        r
    }

    fn update_sequence(&mut self, d: Dimensions, black: &[u8]) -> (r: Result<(), Ssd1680Error>)
        requires
            d == old(self).spec_dimensions(),
            d.valid(),
            d.rows > 0,
            d.cols > 0,
            black@.len() >= d.buffer_len(),
        ensures
            final(self).spec_config() == old(self).spec_config(),
            final(self).spec_state() == old(self).spec_state(),
            crate::interface::follows(old(self).calls(), update_calls(d, black@), final(self).calls(), r),
    {
        let last_row = d.rows - 1;
        let len = d.buffer_size();
        let frame = vstd::slice::slice_subrange(black, 0, len);
        let mut steps: Vec<Step> = Vec::new();
        push_step(&mut steps, Step::BusyWait);
        push_step(&mut steps, Step::Send(Command::StartEndXPosition(0, d.cols / 8 - 1)));
        push_step(&mut steps, Step::Send(Command::StartEndYPosition(0, last_row)));
        push_step(&mut steps, Step::Send(Command::XAddress(0x00)));
        push_step(&mut steps, Step::Send(Command::YAddress(last_row)));
        push_step(&mut steps, Step::Write(BufCommand::WriteBlackData(frame)));
        push_step(
            &mut steps,
            Step::Send(
                Command::UpdateDisplayOption2(
                    DisplayUpdateSequenceOption::EnableClockSignal_EnableAnalog_DisplayMode1_DisableAnalog_DisableOscillator,
                ),
            ),
        );
        push_step(&mut steps, Step::Send(Command::UpdateDisplay));
        push_step(&mut steps, Step::BusyWait);
        assert(steps_calls(steps@) =~= update_calls(d, black@));
        self.run(&steps)
    }

    /// Update the display by writing the supplied black/white frame to the
    /// controller, starting a full refresh and waiting for it to complete,
    /// stopping at the first failing call. Only the first `buffer_len()`
    /// bytes of `black` are sent; a shorter buffer is refused with
    /// `Configuration`.
    pub fn update(&mut self, black: &[u8]) -> (r: Result<(), Ssd1680Error>)
        ensures
            final(self).spec_config() == old(self).spec_config(),
            !admits(old(self).spec_state(), Operation::Update) ==> old(self).refused(
                *final(self),
                r,
                Ssd1680Error::NotReady,
            ),
            admits(old(self).spec_state(), Operation::Update) && black@.len() < old(self).spec_dimensions().buffer_len()
                ==> old(self).refused(*final(self), r, Ssd1680Error::Configuration),
            admits(old(self).spec_state(), Operation::Update) && black@.len() >= old(self).spec_dimensions().buffer_len()
                ==> {
                &&& crate::interface::follows(
                    old(self).calls(),
                    update_calls(old(self).spec_dimensions(), black@),
                    final(self).calls(),
                    r,
                )
                &&& final(self).spec_state() == Self::settled(r)
            },
    {
        if self.lifecycle.state != State::Ready {
            return Err(Ssd1680Error::NotReady);
        }
        let d = self.lifecycle.dimensions();
        if black.len() < d.buffer_size() {
            return Err(Ssd1680Error::Configuration);
        }
        self.lifecycle.set_state(State::Busy);
        let r = self.update_sequence(d, black);
        if r.is_ok() {
            self.lifecycle.set_state(State::Ready);
        } else {
            self.lifecycle.set_state(State::Uninitialized);
        }
        r
    }

    fn partial_update_sequence(
        &mut self,
        image: &[u8],
        x: u16,
        y: u16,
        w: u16,
        h: u16,
    ) -> (r: Result<(), Ssd1680Error>)
        requires
            window_fits(old(self).spec_dimensions(), x, y, w, h),
            old(self).spec_dimensions().valid(),
        ensures
            final(self).spec_config() == old(self).spec_config(),
            final(self).spec_state() == old(self).spec_state(),
            crate::interface::follows(
                old(self).calls(),
                partial_update_calls(image@, x, y, w, h),
                final(self).calls(),
                r,
            ),
    {
        let start_x_byte = (x / 8) as u8;
        let end_x_byte = (x / 8 + w / 8 - 1) as u8;
        let end_y = y + h - 1;
        let mut steps: Vec<Step> = Vec::new();
        push_step(&mut steps, Step::HardwareReset);
        push_step(&mut steps, Step::Send(Command::BorderWaveform(BORDER_WAVEFORM_LOCKED)));
        push_step(&mut steps, Step::Send(Command::StartEndXPosition(start_x_byte, end_x_byte)));
        push_step(&mut steps, Step::Send(Command::StartEndYPosition(y, end_y)));
        push_step(&mut steps, Step::Send(Command::XAddress(start_x_byte)));
        push_step(&mut steps, Step::Send(Command::YAddress(y)));
        push_step(&mut steps, Step::Write(BufCommand::WriteBlackData(image)));
        push_step(
            &mut steps,
            Step::Send(
                Command::UpdateDisplayOption2(
                    DisplayUpdateSequenceOption::EnableClockSignal_EnableAnalog_DisplayMode2_DisableAnalog_DisableOscillator,
                ),
            ),
        );
        push_step(&mut steps, Step::Send(Command::UpdateDisplay));
        assert(steps_calls(steps@) =~= partial_update_calls(image@, x, y, w, h));
        self.run(&steps)
    }

    /// Refresh only the window [x, x + w) x [y, y + h) with `image`, its
    /// (w / 8) * h bytes in row-major order, stopping at the first failing
    /// call. The controller is reset first and the border locked, and the
    /// refresh uses the partial-update waveform. A window that is empty, not
    /// byte-aligned, or outside the display, or an image of another length,
    /// is refused with `Configuration`.
    pub fn partial_update(
        &mut self,
        image: &[u8],
        start_x_px: u16,
        start_y_px: u16,
        width_px: u16,
        height_px: u16,
    ) -> (r: Result<(), Ssd1680Error>)
        ensures
            final(self).spec_config() == old(self).spec_config(),
            !admits(old(self).spec_state(), Operation::PartialUpdate) ==> old(self).refused(
                *final(self),
                r,
                Ssd1680Error::NotReady,
            ),
            admits(old(self).spec_state(), Operation::PartialUpdate) && !(window_fits(
                old(self).spec_dimensions(),
                start_x_px,
                start_y_px,
                width_px,
                height_px,
            ) && image@.len() == window_len(width_px, height_px)) ==> old(self).refused(
                *final(self),
                r,
                Ssd1680Error::Configuration,
            ),
            admits(old(self).spec_state(), Operation::PartialUpdate) && window_fits(
                old(self).spec_dimensions(),
                start_x_px,
                start_y_px,
                width_px,
                height_px,
            ) && image@.len() == window_len(width_px, height_px) ==> {
                &&& crate::interface::follows(
                    old(self).calls(),
                    partial_update_calls(image@, start_x_px, start_y_px, width_px, height_px),
                    final(self).calls(),
                    r,
                )
                &&& final(self).spec_state() == Self::settled(r)
            },
    {
        if self.lifecycle.state != State::Ready {
            return Err(Ssd1680Error::NotReady);
        }
        let d = self.lifecycle.dimensions();
        if !(start_x_px % 8 == 0 && width_px % 8 == 0 && width_px > 0 && height_px > 0
            && start_x_px as u32 + width_px as u32 <= d.cols as u32 && start_y_px as u32
            + height_px as u32 <= d.rows as u32) {
            return Err(Ssd1680Error::Configuration);
        }
        proof {
            let (a, b) = ((width_px / 8) as int, height_px as int);
            assert(a * b <= 8192 * 65535) by (nonlinear_arith)
                requires
                    0 <= a <= 8192,
                    0 <= b <= 65535,
            ;
        }
        if image.len() != (width_px / 8) as usize * height_px as usize {
            return Err(Ssd1680Error::Configuration);
        }
        self.lifecycle.set_state(State::Busy);
        let r = self.partial_update_sequence(image, start_x_px, start_y_px, width_px, height_px);
        if r.is_ok() {
            self.lifecycle.set_state(State::Ready);
        } else {
            self.lifecycle.set_state(State::Uninitialized);
        }
        r
    }

    /// Enter deep sleep mode, keeping the controller's RAM, stopping at the
    /// first failing call. Only a `reset` wakes the controller afterwards.
    pub fn deep_sleep(&mut self) -> (r: Result<(), Ssd1680Error>)
        ensures
            final(self).spec_config() == old(self).spec_config(),
            !admits(old(self).spec_state(), Operation::DeepSleep) ==> old(self).refused(
                *final(self),
                r,
                Ssd1680Error::NotReady,
            ),
            admits(old(self).spec_state(), Operation::DeepSleep) ==> {
                &&& crate::interface::follows(old(self).calls(), deep_sleep_calls(), final(self).calls(), r)
                &&& final(self).spec_state() == (if r is Ok {
                    State::Sleeping
                } else {
                    State::Uninitialized
                })
            },
            r is Ok ==> final(self).spec_dimensions().rows > 0 && final(self).spec_dimensions().cols > 0,
    {
        if self.lifecycle.state != State::Ready {
            return Err(Ssd1680Error::NotReady);
        }
        proof {
            use_type_invariant(&self.lifecycle);
        }
        let mut steps: Vec<Step> = Vec::new();
        push_step(&mut steps, Step::BusyWait);
        push_step(&mut steps, Step::Send(Command::DeepSleepMode(DeepSleepMode::PreserveRAM)));
        assert(steps_calls(steps@) =~= deep_sleep_calls());
        let r = self.run(&steps);
        if r.is_ok() {
            self.lifecycle.set_state(State::Sleeping);
        } else {
            self.lifecycle.set_state(State::Uninitialized);
        }
        r
    }

    /// Returns the number of rows the display has.
    pub fn rows(&self) -> (r: u16)
        ensures
            r == self.spec_dimensions().rows,
    {
        self.lifecycle.config.dimensions().rows
    }

    /// Returns the number of columns the display has.
    pub fn cols(&self) -> (c: u8)
        ensures
            c == self.spec_dimensions().cols,
    {
        self.lifecycle.config.dimensions().cols
    }

    /// Returns the number of bytes in one row of the framebuffer.
    pub fn cols_as_bytes(&self) -> (b: u8)
        ensures
            b == self.spec_dimensions().row_bytes(),
    {
        self.lifecycle.config.dimensions().cols / 8
    }

    /// Returns the rotation the display was configured with.
    pub fn rotation(&self) -> (r: Rotation)
        ensures
            r == self.spec_config().spec_rotation(),
    {
        self.lifecycle.config.rotation()
    }

    /// Returns the configuration the display was created with.
    pub fn config(&self) -> (c: Config)
        ensures
            c == self.spec_config(),
    {
        self.lifecycle.config
    }

    /// Returns where the controller stands in its lifecycle. Every state
    /// but `Uninitialized` was reached through a reset, so the display then
    /// has rows and columns.
    pub fn state(&self) -> (s: State)
        ensures
            s == self.spec_state(),
            s != State::Uninitialized ==> self.spec_dimensions().rows > 0
                && self.spec_dimensions().cols > 0,
    {
        proof {
            use_type_invariant(&self.lifecycle);
        }
        self.lifecycle.state
    }

    /// Returns the hardware interface.
    pub fn interface(&self) -> (i: &I)
        ensures
            *i == self.spec_interface(),
    {
        self.transport.interface()
    }
}

} // verus!
