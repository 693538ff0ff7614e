//! Stepper motors: the microstep curve, the phase counter and its step rules,
//! and the duty values that drive the four coil terminals.
use vstd::prelude::*;

use crate::pwm::{apply_writes, lemma_apply_writes_twice, performs, send_writes, PwmController, PwmWrite, Register, FULL_OFF};
use crate::{Motor, MotorError};

verus! {

/// The resolution used when none is given.
pub const DEFAULT_MICROSTEPS: u32 = 16;

/// The amount by which the phase counter is pulled back once it leaves
/// the band of four full steps on either side of zero.
pub const WRAP_CORRECTION: i64 = 40;

/// The largest magnitude of the phase counter from which a step can still be
/// taken without leaving the range of `i64`.
pub const STEP_ROOM: i64 = 0x4000_0000_0000_0000;

/// The direction of one step.
#[derive(Debug, Clone, Copy, PartialEq, Eq, Structural)]
pub enum StepDirection {
    Forward,
    Backward,
}

/// How one step energizes the coils.
#[derive(Debug, Clone, Copy, PartialEq, Eq, Structural)]
pub enum StepStyle {
    Single,
    Double,
    Interleave,
    Microstep,
}

/// The six channels wired to one stepper motor.
#[derive(Debug, Clone, Copy, PartialEq, Eq, Structural)]
pub struct StepChannels {
    pub ref_channel1: u8,
    pub ref_channel2: u8,
    pub ain1: u8,
    pub ain2: u8,
    pub bin1: u8,
    pub bin2: u8,
}

impl Motor {
    /// The wiring of a stepper motor; `None` for a DC motor.
    pub open spec fn step_channels_spec(self) -> Option<StepChannels> {
        match self {
            Motor::Stepper1 => Some(
                StepChannels { ref_channel1: 8, ref_channel2: 13, ain1: 10, ain2: 9, bin1: 11, bin2: 12 },
            ),
            Motor::Stepper2 => Some(
                StepChannels { ref_channel1: 2, ref_channel2: 7, ain1: 4, ain2: 3, bin1: 5, bin2: 6 },
            ),
            _ => None,
        }
    }

    /// The channels wired to this stepper motor, or `InvalidMotorError` for a
    /// DC motor.
    pub fn to_step_channels(self) -> (r: Result<StepChannels, MotorError>)
        ensures
            self.step_channels_spec() is Some ==> r == Ok::<StepChannels, MotorError>(
                self.step_channels_spec().unwrap(),
            ),
            self.step_channels_spec() is None ==> r == Err::<StepChannels, MotorError>(
                MotorError::InvalidMotorError,
            ),
    {
        match self {
            Motor::Stepper1 => Ok(
                StepChannels { ref_channel1: 8, ref_channel2: 13, ain1: 10, ain2: 9, bin1: 11, bin2: 12 },
            ),
            Motor::Stepper2 => Ok(
                StepChannels { ref_channel1: 2, ref_channel2: 7, ain1: 4, ain2: 3, bin1: 5, bin2: 6 },
            ),
            _ => Err(MotorError::InvalidMotorError),
        }
    }
}

/// One entry of the curve from a quarter-sine sample `s`, which stands for
/// `round(65535 * sin(x))`: add one, drop the low four bits, cap at 4095.
pub open spec fn curve_value(s: u16) -> u16 {
    if (s + 1) / 16 > 4095 {
        4095
    } else {
        ((s + 1) / 16) as u16
    }
}

/// The microstep curve built from quarter-sine samples.
pub open spec fn curve_spec(samples: Seq<u16>) -> Seq<u16> {
    samples.map_values(|s: u16| curve_value(s))
}

/// Builds the microstep curve from quarter-sine samples, one entry per sample.
pub fn microstep_curve(samples: &Vec<u16>) -> (curve: Vec<u16>)
    ensures
        curve@ == curve_spec(samples@),
{
    let mut curve: Vec<u16> = Vec::new();
    let mut i: usize = 0;
    while i < samples.len()
        invariant
            0 <= i <= samples@.len(),
            curve@ == curve_spec(samples@.subrange(0, i as int)),
        decreases samples@.len() - i,
    {
        let scaled: u32 = (samples[i] as u32 + 1) / 16;
        let value: u16 = if scaled > 4095 {
            4095
        } else {
            scaled as u16
        };
        curve.push(value);
        proof {
            assert(samples@.subrange(0, i + 1) =~= samples@.subrange(0, i as int).push(samples@[i as int]));
        }
        i = i + 1;
    }
    proof {
        assert(samples@.subrange(0, i as int) =~= samples@);
    }
    curve
}

/// Whether a sequence never decreases.
pub open spec fn non_decreasing(s: Seq<u16>) -> bool {
    forall|i: int, j: int| 0 <= i <= j < s.len() ==> s[i] <= s[j]
}

/// The curve has one entry per sample, each entry lies in `[0, 4095]`, and
/// the curve never decreases when the samples never decrease (as those of
/// a quarter sine do), so that its first entry is at most its last.
pub proof fn lemma_curve_shape(samples: Seq<u16>)
    requires
        non_decreasing(samples),
    ensures
        curve_spec(samples).len() == samples.len(),
        forall|i: int| 0 <= i < samples.len() ==> 0 <= #[trigger] curve_spec(samples)[i] <= 4095,
        non_decreasing(curve_spec(samples)),
        samples.len() > 0 ==> curve_spec(samples)[0] <= curve_spec(samples)[samples.len() - 1],
{
    let c = curve_spec(samples);
    assert forall|i: int, j: int| 0 <= i <= j < c.len() implies c[i] <= c[j] by {
        assert(samples[i] <= samples[j]);
        vstd::arithmetic::div_mod::lemma_div_is_ordered(samples[i] + 1, samples[j] + 1, 16);
    }
}

} // verus!

verus! {

/// Half of a full step, in microsteps.
pub open spec fn half_step(m: int) -> int {
    m / 2
}

/// The counter after a non-microstep style moves it onto a half-step
/// boundary: the next boundary ahead going forward, the previous one going
/// backward; unchanged when it already stands on one.
pub open spec fn aligned(cs: int, m: int, dir: StepDirection) -> int {
    let r = cs % half_step(m);
    if r == 0 {
        cs
    } else if dir is Forward {
        cs + half_step(m) - r
    } else {
        cs - r
    }
}

/// How far one call moves the counter once it is aligned. A call that had
/// to align the counter moves it no further.
pub open spec fn step_size(cs: int, m: int, style: StepStyle) -> int {
    let h = half_step(m);
    if style is Microstep {
        1
    } else if cs % h != 0 {
        0
    } else if style is Interleave {
        h
    } else {
        let odd = (cs / h) % 2 == 1;
        if (style is Single && odd) || (style is Double && !odd) {
            h
        } else {
            m
        }
    }
}

/// The counter once the step size has been applied, before the correction.
pub open spec fn moved(cs: int, m: int, dir: StepDirection, style: StepStyle) -> int {
    let start = if style is Microstep {
        cs
    } else {
        aligned(cs, m, dir)
    };
    if dir is Forward {
        start + step_size(cs, m, style)
    } else {
        start - step_size(cs, m, style)
    }
}

/// The correction applied after each step: a counter beyond four full steps
/// on either side of zero is pulled back by a fixed 40, not reduced modulo.
pub open spec fn corrected(c: int, m: int) -> int {
    if c > 4 * m {
        c - 40
    } else if c < -4 * m {
        c + 40
    } else {
        c
    }
}

/// The counter after one step.
pub open spec fn next_step(cs: int, m: int, dir: StepDirection, style: StepStyle) -> int {
    corrected(moved(cs, m, dir, style), m)
}

/// The index, in `0..4`, of the coil terminal that the curve's falling half
/// drives at counter `cs`.
pub open spec fn trailing_coil(cs: int, m: int) -> int {
    (cs / m) % 4
}

/// The terminal after the trailing one, which the rising half drives.
pub open spec fn leading_coil(cs: int, m: int) -> int {
    (trailing_coil(cs, m) + 1) % 4
}

/// The four duty values at counter `cs`, indexed ain2, bin1, ain1, bin2.
/// Divisions round towards negative infinity, so a negative counter selects
/// terminals and curve entries as the same counter shifted by a multiple of
/// four full steps would.
pub open spec fn duty_spec(cs: int, m: int, style: StepStyle, curve: Seq<u16>) -> Seq<u16> {
    let t = trailing_coil(cs, m);
    let l = leading_coil(cs, m);
    let lead = curve[cs % m];
    let trail = curve[m - cs % m];
    let full = !(style is Microstep) && lead == trail && lead > 0;
    Seq::new(
        4,
        |k: int|
            if k == l {
                if full { 4095 } else { lead }
            } else if k == t {
                if full { 4095 } else { trail }
            } else {
                0
            },
    )
}

/// `a` divided by `b`, rounding towards negative infinity.
fn div_floor(a: i64, b: i64) -> (r: i64)
    requires
        b >= 1,
    ensures
        r == a / b,
{
    proof {
        let (x, d) = (a as int, b as int);
        vstd::arithmetic::div_mod::lemma_fundamental_div_mod(x, d);
        let q = x / d;
        let r = x % d;
        assert(q <= x || x < 0) by (nonlinear_arith)
            requires x == d * q + r, 0 <= r < d, d >= 1;
        assert(q >= x || x >= 0) by (nonlinear_arith)
            requires x == d * q + r, 0 <= r < d, d >= 1;
        assert(q >= 0 || x < 0) by (nonlinear_arith)
            requires x == d * q + r, 0 <= r < d, d >= 1;
        assert(q <= 0 || x >= 0) by (nonlinear_arith)
            requires x == d * q + r, 0 <= r < d, d >= 1;
    }
    match a.checked_div_euclid(b) {
        Some(q) => q,
        None => 0,
    }
}

/// The remainder of `a` divided by `b`, in `0..b`.
fn rem_floor(a: i64, b: i64) -> (r: i64)
    requires
        b >= 1,
    ensures
        r == a % b,
        0 <= r < b,
{
    match a.checked_rem_euclid(b) {
        Some(r) => r,
        None => 0,
    }
}

} // verus!

verus! {

impl StepChannels {
    /// Every channel exists on the controller.
    pub open spec fn is_valid(self) -> bool {
        &&& self.ref_channel1 < 16
        &&& self.ref_channel2 < 16
        &&& self.ain1 < 16
        &&& self.ain2 < 16
        &&& self.bin1 < 16
        &&& self.bin2 < 16
    }

    /// Turn all six channels on at the start of the period, then let both
    /// reference channels run to the end of it.
    pub open spec fn start_writes_spec(self) -> Seq<PwmWrite> {
        seq![
            PwmWrite::On { channel: self.ref_channel1, count: 0 },
            PwmWrite::On { channel: self.ref_channel2, count: 0 },
            PwmWrite::On { channel: self.ain1, count: 0 },
            PwmWrite::On { channel: self.ain2, count: 0 },
            PwmWrite::On { channel: self.bin1, count: 0 },
            PwmWrite::On { channel: self.bin2, count: 0 },
            PwmWrite::Off { channel: self.ref_channel1, count: 4095 },
            PwmWrite::Off { channel: self.ref_channel2, count: 4095 },
        ]
    }

    /// One OFF count per coil terminal, in the order ain2, bin1, ain1, bin2.
    pub open spec fn coil_writes_spec(self, duty: Seq<u16>) -> Seq<PwmWrite> {
        seq![
            PwmWrite::Off { channel: self.ain2, count: duty[0] },
            PwmWrite::Off { channel: self.bin1, count: duty[1] },
            PwmWrite::Off { channel: self.ain1, count: duty[2] },
            PwmWrite::Off { channel: self.bin2, count: duty[3] },
        ]
    }

    /// Hold all six channels fully off.
    pub open spec fn stop_writes_spec(self) -> Seq<PwmWrite> {
        seq![
            PwmWrite::FullOff { channel: self.ref_channel1 },
            PwmWrite::FullOff { channel: self.ref_channel2 },
            PwmWrite::FullOff { channel: self.ain1 },
            PwmWrite::FullOff { channel: self.ain2 },
            PwmWrite::FullOff { channel: self.bin1 },
            PwmWrite::FullOff { channel: self.bin2 },
        ]
    }

    /// The writes that start a motor: `start_writes_spec`, then all four coil
    /// terminals at a duty of zero.
    pub open spec fn init_writes_spec(self) -> Seq<PwmWrite> {
        self.start_writes_spec() + self.coil_writes_spec(seq![0u16, 0u16, 0u16, 0u16])
    }

    pub fn init_writes(&self) -> (r: Vec<PwmWrite>)
        ensures
            r@ == self.init_writes_spec(),
    {
        let r = vec![
            PwmWrite::On { channel: self.ref_channel1, count: 0 },
            PwmWrite::On { channel: self.ref_channel2, count: 0 },
            PwmWrite::On { channel: self.ain1, count: 0 },
            PwmWrite::On { channel: self.ain2, count: 0 },
            PwmWrite::On { channel: self.bin1, count: 0 },
            PwmWrite::On { channel: self.bin2, count: 0 },
            PwmWrite::Off { channel: self.ref_channel1, count: 4095 },
            PwmWrite::Off { channel: self.ref_channel2, count: 4095 },
            PwmWrite::Off { channel: self.ain2, count: 0 },
            PwmWrite::Off { channel: self.bin1, count: 0 },
            PwmWrite::Off { channel: self.ain1, count: 0 },
            PwmWrite::Off { channel: self.bin2, count: 0 },
        ];
        proof {
            assert(r@ =~= self.init_writes_spec());
        }
        r
    }

    pub fn start_writes(&self) -> (r: Vec<PwmWrite>)
        ensures
            r@ == self.start_writes_spec(),
    {
        let r = vec![
            PwmWrite::On { channel: self.ref_channel1, count: 0 },
            PwmWrite::On { channel: self.ref_channel2, count: 0 },
            PwmWrite::On { channel: self.ain1, count: 0 },
            PwmWrite::On { channel: self.ain2, count: 0 },
            PwmWrite::On { channel: self.bin1, count: 0 },
            PwmWrite::On { channel: self.bin2, count: 0 },
            PwmWrite::Off { channel: self.ref_channel1, count: 4095 },
            PwmWrite::Off { channel: self.ref_channel2, count: 4095 },
        ];
        proof {
            assert(r@ =~= self.start_writes_spec());
        }
        r
    }

    pub fn coil_writes(&self, duty: &Vec<u16>) -> (r: Vec<PwmWrite>)
        requires
            duty@.len() == 4,
        ensures
            r@ == self.coil_writes_spec(duty@),
    {
        let r = vec![
            PwmWrite::Off { channel: self.ain2, count: duty[0] },
            PwmWrite::Off { channel: self.bin1, count: duty[1] },
            PwmWrite::Off { channel: self.ain1, count: duty[2] },
            PwmWrite::Off { channel: self.bin2, count: duty[3] },
        ];
        proof {
            assert(r@ =~= self.coil_writes_spec(duty@));
        }
        r
    }

    pub fn stop_writes(&self) -> (r: Vec<PwmWrite>)
        ensures
            r@ == self.stop_writes_spec(),
    {
        let r = vec![
            PwmWrite::FullOff { channel: self.ref_channel1 },
            PwmWrite::FullOff { channel: self.ref_channel2 },
            PwmWrite::FullOff { channel: self.ain1 },
            PwmWrite::FullOff { channel: self.ain2 },
            PwmWrite::FullOff { channel: self.bin1 },
            PwmWrite::FullOff { channel: self.bin2 },
        ];
        proof {
            assert(r@ =~= self.stop_writes_spec());
        }
        r
    }
}

} // verus!

verus! {

/// A stepper motor: its wiring, its microstep curve and its phase counter.
pub struct StepperMotor {
    microsteps: i64,
    channels: StepChannels,
    curve: Vec<u16>,
    current_step: i64,
}

/// What a stepper motor is: its resolution, phase counter, curve and wiring.
pub struct StepperView {
    pub microsteps: int,
    pub current_step: int,
    pub curve: Seq<u16>,
    pub channels: StepChannels,
}

impl View for StepperMotor {
    type V = StepperView;

    closed spec fn view(&self) -> StepperView {
        StepperView {
            microsteps: self.microsteps as int,
            current_step: self.current_step as int,
            curve: self.curve@,
            channels: self.channels,
        }
    }
}

impl StepperView {
    /// The counter is far enough from the ends of `i64` to take one more step.
    pub open spec fn has_room(self) -> bool {
        -STEP_ROOM <= self.current_step <= STEP_ROOM
    }

    /// The same motor with the counter set to `cs`.
    pub open spec fn with_step(self, cs: int) -> StepperView {
        StepperView { current_step: cs, ..self }
    }
}

impl StepperMotor {
    /// A positive resolution, one curve entry per microstep and one more,
    /// 12-bit curve entries and existing channels.
    pub open spec fn wf(&self) -> bool {
        &&& 1 <= self@.microsteps <= u32::MAX
        &&& self@.curve.len() == self@.microsteps + 1
        &&& forall|i: int| 0 <= i < self@.curve.len() ==> #[trigger] self@.curve[i] <= 4095
        &&& self@.channels.is_valid()
        &&& i64::MIN <= self@.current_step <= i64::MAX
    }

    /// Builds a stepper motor with its counter at zero, without touching the
    /// controller. `samples[i]` stands for `round(65535 * sin(pi * i / (2 * m)))`
    /// for `i` in `0..=m`, where `m` is `microsteps`, or 16 when it is `None`.
    /// A DC motor is refused with `InvalidMotorError`; a resolution of zero, or
    /// a sample count other than `m + 1`, with
    /// `InvalidConfiguration`.
    pub fn with_curve(step_motor: Motor, microsteps: Option<u32>, samples: &Vec<u16>) -> (r: Result<
        StepperMotor,
        MotorError,
    >)
        ensures
            ({
                let m = match microsteps {
                    Some(m) => m as int,
                    None => DEFAULT_MICROSTEPS as int,
                };
                if step_motor.step_channels_spec() is None {
                    r == Err::<StepperMotor, MotorError>(MotorError::InvalidMotorError)
                } else if m < 1 || samples@.len() != m + 1 {
                    r == Err::<StepperMotor, MotorError>(MotorError::InvalidConfiguration)
                } else {
                    &&& r is Ok
                    &&& r.unwrap().wf()
                    &&& r.unwrap()@ == (StepperView {
                        microsteps: m,
                        current_step: 0,
                        curve: curve_spec(samples@),
                        channels: step_motor.step_channels_spec().unwrap(),
                    })
                }
            }),
    {
        let channels = match step_motor.to_step_channels() {
            Ok(c) => c,
            Err(e) => return Err(e),
        };
        let m: u32 = match microsteps {
            Some(m) => m,
            None => DEFAULT_MICROSTEPS,
        };
        if m < 1 || samples.len() as u64 != m as u64 + 1 {
            return Err(MotorError::InvalidConfiguration);
        }
        let curve = microstep_curve(samples);
        Ok(StepperMotor { microsteps: m as i64, channels, curve, current_step: 0 })
    }

    /// The resolution: microsteps per full step.
    pub fn microsteps(&self) -> (r: i64)
        ensures
            r == self@.microsteps,
    {
        self.microsteps
    }

    /// The phase counter, in microsteps.
    pub fn current_step(&self) -> (r: i64)
        ensures
            r == self@.current_step,
    {
        self.current_step
    }

    /// A copy of the microstep curve.
    pub fn curve(&self) -> (r: Vec<u16>)
        ensures
            r@ == self@.curve,
    {
        self.curve.clone()
    }

    /// The channels wired to this motor.
    pub fn channels(&self) -> (r: StepChannels)
        ensures
            r == self@.channels,
    {
        self.channels
    }

    /// Aligns the counter for the non-microstep styles and returns how far
    /// the step then moves it.
    fn calc_step_size(&mut self, step_dir: StepDirection, step_style: StepStyle) -> (size: i64)
        requires
            old(self).wf(),
            old(self)@.has_room(),
            step_style is Microstep || old(self)@.microsteps >= 2,
        ensures
            final(self)@ == old(self)@.with_step(
                if step_style is Microstep {
                    old(self)@.current_step
                } else {
                    aligned(old(self)@.current_step, old(self)@.microsteps, step_dir)
                },
            ),
            size == step_size(old(self)@.current_step, old(self)@.microsteps, step_style),
    {
        if step_style == StepStyle::Microstep {
            return 1;
        }
        let half_step = self.microsteps / 2;
        let additional_microsteps = rem_floor(self.current_step, half_step);
        if additional_microsteps != 0 {
            if step_dir == StepDirection::Forward {
                self.current_step = self.current_step + (half_step - additional_microsteps);
            } else {
                self.current_step = self.current_step - additional_microsteps;
            }
            0
        } else if step_style == StepStyle::Interleave {
            half_step
        } else {
            let curr_interleave = div_floor(self.current_step, half_step);
            let odd = rem_floor(curr_interleave, 2) == 1;
            if (step_style == StepStyle::Single && odd) || (step_style == StepStyle::Double && !odd) {
                half_step
            } else {
                self.microsteps
            }
        }
    }

    /// The four duty values for the current counter, indexed ain2, bin1, ain1,
    /// bin2.
    pub fn calc_duty_cycle(&self, step_style: StepStyle) -> (duty: Vec<u16>)
        requires
            self.wf(),
        ensures
            duty@ == duty_spec(self@.current_step, self@.microsteps, step_style, self@.curve),
            forall|k: int| 0 <= k < 4 ==> #[trigger] duty@[k] <= 4095,
    {
        let trailing_coil = rem_floor(div_floor(self.current_step, self.microsteps), 4) as usize;
        let leading_coil = (trailing_coil + 1) % 4;
        let microstep = rem_floor(self.current_step, self.microsteps) as usize;
        let mut lead = self.curve[microstep];
        let mut trail = self.curve[self.microsteps as usize - microstep];
        if step_style != StepStyle::Microstep && lead == trail && lead > 0 {
            lead = 4095;
            trail = 4095;
        }
        let mut duty: Vec<u16> = vec![0, 0, 0, 0];
        duty.set(leading_coil, lead);
        duty.set(trailing_coil, trail);
        proof {
            assert(duty@ =~= duty_spec(self@.current_step, self@.microsteps, step_style, self@.curve));
        }
        duty
    }

    /// Moves the counter by one step and returns the duty values for its new
    /// position.
    pub fn calc_step(&mut self, step_dir: StepDirection, step_style: StepStyle) -> (duty: Vec<u16>)
        requires
            old(self).wf(),
            old(self)@.has_room(),
            step_style is Microstep || old(self)@.microsteps >= 2,
        ensures
            final(self).wf(),
            final(self)@ == old(self)@.with_step(
                next_step(old(self)@.current_step, old(self)@.microsteps, step_dir, step_style),
            ),
            duty@ == duty_spec(final(self)@.current_step, final(self)@.microsteps, step_style, final(self)@.curve),
    {
        let step_size = self.calc_step_size(step_dir, step_style);
        match step_dir {
            StepDirection::Forward => self.current_step = self.current_step + step_size,
            StepDirection::Backward => self.current_step = self.current_step - step_size,
        }
        if self.current_step > self.microsteps * 4 {
            self.current_step = self.current_step - WRAP_CORRECTION;
        } else if self.current_step < -(self.microsteps * 4) {
            self.current_step = self.current_step + WRAP_CORRECTION;
        }
        self.calc_duty_cycle(step_style)
    }
}

} // verus!

verus! {

impl StepperMotor {
    /// Builds a stepper motor as `with_curve` does, then starts its channels
    /// with the writes of `init_writes`. Nothing is written when `with_curve`
    /// refuses the arguments; a failed write gives `ChannelError`, and no write
    /// follows it.
    pub fn try_new(
        pwm: &mut PwmController,
        step_motor: Motor,
        microsteps: Option<u32>,
        samples: &Vec<u16>,
    ) -> (r: Result<StepperMotor, MotorError>)
        ensures
            ({
                let m = match microsteps {
                    Some(m) => m as int,
                    None => DEFAULT_MICROSTEPS as int,
                };
                if step_motor.step_channels_spec() is None {
                    &&& r == Err::<StepperMotor, MotorError>(MotorError::InvalidMotorError)
                    &&& *final(pwm) == *old(pwm)
                } else if m < 1 || samples@.len() != m + 1 {
                    &&& r == Err::<StepperMotor, MotorError>(MotorError::InvalidConfiguration)
                    &&& *final(pwm) == *old(pwm)
                } else {
                    let ws = step_motor.step_channels_spec().unwrap().init_writes_spec();
                    match r {
                        Ok(s) => {
                            &&& s.wf()
                            &&& s@ == (StepperView {
                                microsteps: m,
                                current_step: 0,
                                curve: curve_spec(samples@),
                                channels: step_motor.step_channels_spec().unwrap(),
                            })
                            &&& performs(old(pwm).log(), final(pwm).log(), ws, Ok(()))
                        },
                        Err(e) => performs(old(pwm).log(), final(pwm).log(), ws, Err(e)),
                    }
                }
            }),
    {
        let stepper = match StepperMotor::with_curve(step_motor, microsteps, samples) {
            Ok(s) => s,
            Err(e) => return Err(e),
        };
        match send_writes(pwm, &stepper.channels.init_writes()) {
            Ok(()) => Ok(stepper),
            Err(e) => Err(e),
        }
    }

    /// Takes one step: moves the counter as `calc_step` does and writes the
    /// new duty values to the four coil terminals with `coil_writes`. The
    /// counter moves whether or not the writes succeed; a failed write gives
    /// `ChannelError`, and no write follows it. With a resolution of one a
    /// half step is no microstep at all, so only the microstep style can run:
    /// the others give `InvalidConfiguration` and change nothing.
    pub fn step_once(
        &mut self,
        pwm: &mut PwmController,
        step_dir: StepDirection,
        step_style: StepStyle,
    ) -> (r: Result<(), MotorError>)
        requires
            old(self).wf(),
            old(self)@.has_room(),
        ensures
            final(self).wf(),
            !(step_style is Microstep) && old(self)@.microsteps < 2 ==> {
                &&& r == Err::<(), MotorError>(MotorError::InvalidConfiguration)
                &&& *final(self) == *old(self)
                &&& *final(pwm) == *old(pwm)
            },
            step_style is Microstep || old(self)@.microsteps >= 2 ==> {
                &&& final(self)@ == old(self)@.with_step(
                    next_step(old(self)@.current_step, old(self)@.microsteps, step_dir, step_style),
                )
                &&& performs(
                    old(pwm).log(),
                    final(pwm).log(),
                    final(self)@.channels.coil_writes_spec(
                        duty_spec(final(self)@.current_step, final(self)@.microsteps, step_style, final(self)@.curve),
                    ),
                    r,
                )
            },
    {
        if step_style != StepStyle::Microstep && self.microsteps < 2 {
            return Err(MotorError::InvalidConfiguration);
        }
        let duty_cycle = self.calc_step(step_dir, step_style);
        send_writes(pwm, &self.channels.coil_writes(&duty_cycle))
    }

    /// Holds all six channels of this motor fully off with `stop_writes`,
    /// whatever the phase. The motor itself is left as it was; a failed write
    /// gives `ChannelError`, and no write follows it.
    pub fn stop(&mut self, pwm: &mut PwmController) -> (r: Result<(), MotorError>)
        ensures
            *final(self) == *old(self),
            performs(old(pwm).log(), final(pwm).log(), old(self)@.channels.stop_writes_spec(), r),
    {
        send_writes(pwm, &self.channels.stop_writes())
    }
}

} // verus!

verus! {

/// The counter after `k` steps in one direction with one style.
pub open spec fn steps(cs: int, m: int, dir: StepDirection, style: StepStyle, k: nat) -> int
    decreases k,
{
    if k == 0 {
        cs
    } else {
        next_step(steps(cs, m, dir, style, (k - 1) as nat), m, dir, style)
    }
}

/// The counters from which a style moves by the same stride in both
/// directions: any counter for microsteps; a half-step boundary for
/// interleaving; a full-step boundary for single-coil steps; a half-step
/// boundary between two full steps for two-coil steps.
pub open spec fn is_rest(cs: int, m: int, style: StepStyle) -> bool {
    let h = half_step(m);
    match style {
        StepStyle::Microstep => true,
        StepStyle::Interleave => cs % h == 0,
        StepStyle::Single => cs % h == 0 && (cs / h) % 2 == 0,
        StepStyle::Double => cs % h == 0 && (cs / h) % 2 == 1,
    }
}

/// How far one step moves the counter from a rest counter of the style.
pub open spec fn stride(m: int, style: StepStyle) -> int {
    match style {
        StepStyle::Microstep => 1,
        StepStyle::Interleave => half_step(m),
        _ => m,
    }
}

proof fn lemma_multiple(h: int, q: int)
    requires
        h > 0,
    ensures
        (h * q) % h == 0,
        (h * q) / h == q,
{
    vstd::arithmetic::div_mod::lemma_mod_multiples_basic(q, h);
    vstd::arithmetic::mul::lemma_mul_is_commutative(q, h);
    vstd::arithmetic::div_mod::lemma_div_multiples_vanish(q, h);
}

/// From a rest counter one step, before the correction, moves the counter by
/// the style's stride and lands on a rest counter again.
proof fn lemma_rest_step(cs: int, m: int, dir: StepDirection, style: StepStyle)
    requires
        1 <= m,
        !(style is Microstep) ==> 2 <= m,
        style is Single || style is Double ==> m % 2 == 0,
        is_rest(cs, m, style),
    ensures
        moved(cs, m, dir, style) == if dir is Forward {
            cs + stride(m, style)
        } else {
            cs - stride(m, style)
        },
        is_rest(moved(cs, m, dir, style), m, style),
{
    let h = half_step(m);
    if !(style is Microstep) {
        vstd::arithmetic::div_mod::lemma_fundamental_div_mod(cs, h);
        let q = cs / h;
        assert(cs == h * q);
        let d: int = if style is Interleave { 1 } else { 2 };
        let q2 = if dir is Forward { q + d } else { q - d };
        assert(h * q2 == if dir is Forward { cs + d * h } else { cs - d * h }) by (nonlinear_arith)
            requires cs == h * q, q2 == if dir is Forward { q + d } else { q - d };
        lemma_multiple(h, q2);
        if !(style is Interleave) {
            assert(m == 2 * h);
            assert(q2 % 2 == q % 2);
        }
    }
}

/// Stepping forward `k` times and then backward `k` times with one style
/// brings the counter back to where it started, when it starts on a rest
/// counter of the style and the steps stay within four full steps of zero,
/// so that the correction never applies.
pub proof fn lemma_round_trip(cs: int, m: int, style: StepStyle, k: nat)
    requires
        1 <= m,
        !(style is Microstep) ==> 2 <= m,
        style is Single || style is Double ==> m % 2 == 0,
        is_rest(cs, m, style),
        -4 * m <= cs,
        cs + k * stride(m, style) <= 4 * m,
    ensures
        steps(cs, m, StepDirection::Forward, style, k) == cs + k * stride(m, style),
        steps(steps(cs, m, StepDirection::Forward, style, k), m, StepDirection::Backward, style, k) == cs,
{
    lemma_forward_run(cs, m, style, k);
    lemma_backward_run(cs + k * stride(m, style), m, style, k);
}

proof fn lemma_forward_run(cs: int, m: int, style: StepStyle, k: nat)
    requires
        1 <= m,
        !(style is Microstep) ==> 2 <= m,
        style is Single || style is Double ==> m % 2 == 0,
        is_rest(cs, m, style),
        -4 * m <= cs,
        cs + k * stride(m, style) <= 4 * m,
    ensures
        steps(cs, m, StepDirection::Forward, style, k) == cs + k * stride(m, style),
        is_rest(steps(cs, m, StepDirection::Forward, style, k), m, style),
    decreases k,
{
    let s = stride(m, style);
    assert(s >= 1);
    if k > 0 {
        assert(cs + (k - 1) * s <= 4 * m) by (nonlinear_arith)
            requires cs + k * s <= 4 * m, s >= 1, k >= 1;
        lemma_forward_run(cs, m, style, (k - 1) as nat);
        let p = cs + (k - 1) * s;
        lemma_rest_step(p, m, StepDirection::Forward, style);
        assert(p + s == cs + k * s) by (nonlinear_arith)
            requires p == cs + (k - 1) * s;
        assert(p >= cs) by (nonlinear_arith)
            requires p == cs + (k - 1) * s, s >= 1, k >= 1;
        assert(steps(cs, m, StepDirection::Forward, style, k) == next_step(p, m, StepDirection::Forward, style));
        assert(corrected(p + s, m) == p + s);
    } else {
        assert(k * s == 0) by (nonlinear_arith)
            requires k == 0;
    }
}

proof fn lemma_backward_run(top: int, m: int, style: StepStyle, k: nat)
    requires
        1 <= m,
        !(style is Microstep) ==> 2 <= m,
        style is Single || style is Double ==> m % 2 == 0,
        is_rest(top, m, style),
        top <= 4 * m,
        -4 * m <= top - k * stride(m, style),
    ensures
        steps(top, m, StepDirection::Backward, style, k) == top - k * stride(m, style),
        is_rest(steps(top, m, StepDirection::Backward, style, k), m, style),
    decreases k,
{
    let s = stride(m, style);
    assert(s >= 1);
    if k > 0 {
        assert(-4 * m <= top - (k - 1) * s) by (nonlinear_arith)
            requires -4 * m <= top - k * s, s >= 1, k >= 1;
        lemma_backward_run(top, m, style, (k - 1) as nat);
        let p = top - (k - 1) * s;
        lemma_rest_step(p, m, StepDirection::Backward, style);
        assert(p - s == top - k * s) by (nonlinear_arith)
            requires p == top - (k - 1) * s;
        assert(p <= top) by (nonlinear_arith)
            requires p == top - (k - 1) * s, s >= 1, k >= 1;
        assert(steps(top, m, StepDirection::Backward, style, k) == next_step(p, m, StepDirection::Backward, style));
        assert(corrected(p - s, m) == p - s);
    } else {
        assert(k * s == 0) by (nonlinear_arith)
            requires k == 0;
    }
}

} // verus!

verus! {

/// A step that carries the counter past four full steps ahead of zero ends
/// exactly 40 below where it would have stood, and one that carries it past
/// four full steps behind zero ends exactly 40 above; the counter is not
/// reset to zero.
pub proof fn lemma_wrap_by_forty(cs: int, m: int, dir: StepDirection, style: StepStyle)
    requires
        m >= 1,
    ensures
        moved(cs, m, dir, style) > 4 * m ==> next_step(cs, m, dir, style) == moved(cs, m, dir, style) - 40,
        moved(cs, m, dir, style) < -4 * m ==> next_step(cs, m, dir, style) == moved(cs, m, dir, style) + 40,
        -4 * m <= moved(cs, m, dir, style) <= 4 * m ==> next_step(cs, m, dir, style) == moved(cs, m, dir, style),
{
}

/// With at most 40 microsteps per full step, a counter within `4 * m + 40`
/// of zero stays there after any step, so a motor that starts at zero never
/// runs out of room.
pub proof fn lemma_phase_bounded(cs: int, m: int, dir: StepDirection, style: StepStyle)
    requires
        2 <= m <= 40,
        -(4 * m + 40) <= cs <= 4 * m + 40,
    ensures
        -(4 * m + 40) <= next_step(cs, m, dir, style) <= 4 * m + 40,
{
    let h = half_step(m);
    let r = cs % h;
    assert(0 <= r < h);
    assert(cs - m <= moved(cs, m, dir, style) <= cs + m);
}

/// Stopping a stepper motor holds its six channels fully off, and stopping
/// it a second time leaves every register as the first stop left it.
pub proof fn lemma_stepper_stop_idempotent(channels: StepChannels, regs: Map<Register, u16>)
    ensures
        ({
            let once = apply_writes(regs, channels.stop_writes_spec());
            &&& apply_writes(once, channels.stop_writes_spec()) == once
            &&& once[(channels.ref_channel1, true)] == FULL_OFF
            &&& once[(channels.ref_channel2, true)] == FULL_OFF
            &&& once[(channels.ain1, true)] == FULL_OFF
            &&& once[(channels.ain2, true)] == FULL_OFF
            &&& once[(channels.bin1, true)] == FULL_OFF
            &&& once[(channels.bin2, true)] == FULL_OFF
        }),
{
    let ws = channels.stop_writes_spec();
    lemma_apply_writes_twice(regs, ws);
    reveal_with_fuel(apply_writes, 7);
}

} // verus!
