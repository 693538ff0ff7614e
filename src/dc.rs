//! Brushed DC motors: one reference channel and two direction channels each.
use vstd::prelude::*;

use crate::pwm::{apply_writes, lemma_apply_writes_twice, performs, send_writes, PwmController, PwmWrite, Register, FULL_OFF};
use crate::{Motor, MotorError};

verus! {

/// The three channels wired to one DC motor.
#[derive(Debug, Clone, Copy, PartialEq, Eq, Structural)]
pub struct DcChannels {
    pub ref_channel: u8,
    pub forward_channel: u8,
    pub backward_channel: u8,
}

/// What a throttle asks of a DC motor: a duty on one of the two direction
/// channels, or both direction channels off.
#[derive(Debug, Clone, Copy, PartialEq, Eq, Structural)]
pub enum Throttle {
    Forward(u16),
    Backward(u16),
    Release,
}

impl Throttle {
    /// A duty fits the 12-bit counter.
    pub open spec fn is_valid(self) -> bool {
        match self {
            Throttle::Forward(d) => d <= 4095,
            Throttle::Backward(d) => d <= 4095,
            Throttle::Release => true,
        }
    }
}

impl Motor {
    /// The wiring of a DC motor; `None` for a stepper motor.
    pub open spec fn dc_channels_spec(self) -> Option<DcChannels> {
        match self {
            Motor::Motor1 => Some(DcChannels { ref_channel: 8, forward_channel: 9, backward_channel: 10 }),
            Motor::Motor2 => Some(DcChannels { ref_channel: 13, forward_channel: 11, backward_channel: 12 }),
            Motor::Motor3 => Some(DcChannels { ref_channel: 2, forward_channel: 3, backward_channel: 4 }),
            Motor::Motor4 => Some(DcChannels { ref_channel: 7, forward_channel: 5, backward_channel: 6 }),
            _ => None,
        }
    }

    /// The channels wired to this DC motor, or `InvalidMotorError` for a
    /// stepper motor.
    pub fn to_dc_channels(self) -> (r: Result<DcChannels, MotorError>)
        ensures
            self.dc_channels_spec() is Some ==> r == Ok::<DcChannels, MotorError>(
                self.dc_channels_spec().unwrap(),
            ),
            self.dc_channels_spec() is None ==> r == Err::<DcChannels, MotorError>(
                MotorError::InvalidMotorError,
            ),
    {
        match self {
            Motor::Motor1 => Ok(DcChannels { ref_channel: 8, forward_channel: 9, backward_channel: 10 }),
            Motor::Motor2 => Ok(DcChannels { ref_channel: 13, forward_channel: 11, backward_channel: 12 }),
            Motor::Motor3 => Ok(DcChannels { ref_channel: 2, forward_channel: 3, backward_channel: 4 }),
            Motor::Motor4 => Ok(DcChannels { ref_channel: 7, forward_channel: 5, backward_channel: 6 }),
            _ => Err(MotorError::InvalidMotorError),
        }
    }
}

impl DcChannels {
    pub open spec fn is_valid(self) -> bool {
        self.ref_channel < 16 && self.forward_channel < 16 && self.backward_channel < 16
    }

    /// Turn the three channels on at the start of the period, then let the
    /// reference channel run to the end of it.
    pub open spec fn start_writes_spec(self) -> Seq<PwmWrite> {
        seq![
            PwmWrite::On { channel: self.ref_channel, count: 0 },
            PwmWrite::On { channel: self.forward_channel, count: 0 },
            PwmWrite::On { channel: self.backward_channel, count: 0 },
            PwmWrite::Off { channel: self.ref_channel, count: 4095 },
        ]
    }

    /// A duty goes to the OFF count of its direction channel and leaves the
    /// other one as it was; a release holds both direction channels off.
    pub open spec fn throttle_writes_spec(self, t: Throttle) -> Seq<PwmWrite> {
        match t {
            Throttle::Forward(d) => seq![PwmWrite::Off { channel: self.forward_channel, count: d }],
            Throttle::Backward(d) => seq![PwmWrite::Off { channel: self.backward_channel, count: d }],
            Throttle::Release => seq![
                PwmWrite::FullOff { channel: self.forward_channel },
                PwmWrite::FullOff { channel: self.backward_channel },
            ],
        }
    }

    /// Hold all three channels fully off.
    pub open spec fn stop_writes_spec(self) -> Seq<PwmWrite> {
        seq![
            PwmWrite::FullOff { channel: self.ref_channel },
            PwmWrite::FullOff { channel: self.forward_channel },
            PwmWrite::FullOff { channel: self.backward_channel },
        ]
    }

    pub fn start_writes(&self) -> (r: Vec<PwmWrite>)
        ensures
            r@ == self.start_writes_spec(),
    {
        let r = vec![
            PwmWrite::On { channel: self.ref_channel, count: 0 },
            PwmWrite::On { channel: self.forward_channel, count: 0 },
            PwmWrite::On { channel: self.backward_channel, count: 0 },
            PwmWrite::Off { channel: self.ref_channel, count: 4095 },
        ];
        proof {
            assert(r@ =~= self.start_writes_spec());
        }
        r
    }

    /// The writes for a throttle, or `ThrottleError` for a duty above 4095.
    pub fn throttle_writes(&self, t: Throttle) -> (r: Result<Vec<PwmWrite>, MotorError>)
        ensures
            !t.is_valid() ==> r == Err::<Vec<PwmWrite>, MotorError>(MotorError::ThrottleError),
            t.is_valid() ==> r is Ok && r.unwrap()@ == self.throttle_writes_spec(t),
    {
        match t {
            Throttle::Forward(d) => {
                if d > 4095 {
                    return Err(MotorError::ThrottleError);
                }
                let r = vec![PwmWrite::Off { channel: self.forward_channel, count: d }];
                proof {
                    assert(r@ =~= self.throttle_writes_spec(t));
                }
                Ok(r)
            },
            Throttle::Backward(d) => {
                if d > 4095 {
                    return Err(MotorError::ThrottleError);
                }
                let r = vec![PwmWrite::Off { channel: self.backward_channel, count: d }];
                proof {
                    assert(r@ =~= self.throttle_writes_spec(t));
                }
                Ok(r)
            },
            Throttle::Release => {
                let r = vec![
                    PwmWrite::FullOff { channel: self.forward_channel },
                    PwmWrite::FullOff { channel: self.backward_channel },
                ];
                proof {
                    assert(r@ =~= self.throttle_writes_spec(t));
                }
                Ok(r)
            },
        }
    }

    pub fn stop_writes(&self) -> (r: Vec<PwmWrite>)
        ensures
            r@ == self.stop_writes_spec(),
    {
        let r = vec![
            PwmWrite::FullOff { channel: self.ref_channel },
            PwmWrite::FullOff { channel: self.forward_channel },
            PwmWrite::FullOff { channel: self.backward_channel },
        ];
        proof {
            assert(r@ =~= self.stop_writes_spec());
        }
        r
    }
}

/// A DC motor bound to its channels.
pub struct DcMotor {
    channels: DcChannels,
}

impl DcMotor {
    pub closed spec fn channels_spec(&self) -> DcChannels {
        self.channels
    }

    /// Binds a DC motor and starts its channels with `start_writes`: all
    /// three on at the start of the period, the reference channel running to
    /// the end of it. A stepper motor is refused with `InvalidMotorError`
    /// before any write; a failed write gives `ChannelError`, and no write
    /// follows it.
    pub fn try_new(pwm: &mut PwmController, motor: Motor) -> (r: Result<DcMotor, MotorError>)
        ensures
            motor.dc_channels_spec() is None ==> {
                &&& r == Err::<DcMotor, MotorError>(MotorError::InvalidMotorError)
                &&& *final(pwm) == *old(pwm)
            },
            motor.dc_channels_spec() is Some ==> {
                let ws = motor.dc_channels_spec().unwrap().start_writes_spec();
                match r {
                    Ok(m) => m.channels_spec() == motor.dc_channels_spec().unwrap()
                        && performs(old(pwm).log(), final(pwm).log(), ws, Ok(())),
                    Err(e) => performs(old(pwm).log(), final(pwm).log(), ws, Err(e)),
                }
            },
    {
        let channels = match motor.to_dc_channels() {
            Ok(c) => c,
            Err(e) => return Err(e),
        };
        match send_writes(pwm, &channels.start_writes()) {
            Ok(()) => Ok(DcMotor { channels }),
            Err(e) => Err(e),
        }
    }

    /// The channels wired to this motor.
    pub fn channels(&self) -> (r: DcChannels)
        ensures
            r == self.channels_spec(),
    {
        self.channels
    }

    /// Applies a throttle: the writes of `throttle_writes`, or
    /// `ThrottleError` with no write for a duty above 4095. A failed write
    /// gives `ChannelError`, and no write follows it.
    pub fn drive(&mut self, pwm: &mut PwmController, t: Throttle) -> (r: Result<(), MotorError>)
        ensures
            *final(self) == *old(self),
            !t.is_valid() ==> r == Err::<(), MotorError>(MotorError::ThrottleError) && *final(pwm) == *old(pwm),
            t.is_valid() ==> performs(
                old(pwm).log(),
                final(pwm).log(),
                old(self).channels_spec().throttle_writes_spec(t),
                r,
            ),
    {
        match self.channels.throttle_writes(t) {
            Ok(ws) => send_writes(pwm, &ws),
            Err(e) => Err(e),
        }
    }

    /// Holds all three channels of this motor fully off with `stop_writes`; a
    /// failed write gives `ChannelError`, and no write follows it.
    pub fn stop(&mut self, pwm: &mut PwmController) -> (r: Result<(), MotorError>)
        ensures
            *final(self) == *old(self),
            performs(old(pwm).log(), final(pwm).log(), old(self).channels_spec().stop_writes_spec(), r),
    {
        send_writes(pwm, &self.channels.stop_writes())
    }
}

/// Stopping a DC motor holds its three channels fully off, and stopping it a
/// second time leaves every register as the first stop left it.
pub proof fn lemma_dc_stop_idempotent(channels: DcChannels, regs: Map<Register, u16>)
    ensures
        ({
            let once = apply_writes(regs, channels.stop_writes_spec());
            &&& apply_writes(once, channels.stop_writes_spec()) == once
            &&& once[(channels.ref_channel, true)] == FULL_OFF
            &&& once[(channels.forward_channel, true)] == FULL_OFF
            &&& once[(channels.backward_channel, true)] == FULL_OFF
        }),
{
    let ws = channels.stop_writes_spec();
    lemma_apply_writes_twice(regs, ws);
    reveal_with_fuel(apply_writes, 4);
}

} // verus!
