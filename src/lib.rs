//! Driver logic for a motor board built around a 16-channel, 12-bit PWM
//! controller: brushed DC motors and bipolar stepper motors with
//! microstepping.
use vstd::prelude::*;

pub mod dc;
pub mod pwm;
pub mod stepper;

verus! {

/// The errors that the driver reports.
#[derive(Debug, Clone, Copy, PartialEq, Eq, Structural)]
pub enum MotorError {
    /// The two-wire bus could not be opened.
    I2cError,
    /// The PWM controller could not be configured.
    PwmError,
    /// A register write to one channel failed.
    ChannelError,
    /// A throttle outside of [-1.0, 1.0] was requested.
    ThrottleError,
    /// A motor of the wrong kind was handed to a constructor.
    InvalidMotorError,
    /// A stepper resolution or curve that the driver cannot run with.
    InvalidConfiguration,
}

/// The six motors that the board can drive: four DC motors and two steppers.
#[derive(Debug, Clone, Copy, PartialEq, Eq, Hash, Structural)]
pub enum Motor {
    Motor1,
    Motor2,
    Motor3,
    Motor4,
    Stepper1,
    Stepper2,
}

} // verus!
