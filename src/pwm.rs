//! Channel writes to the PWM controller, as values and as calls.
use vstd::prelude::*;
use linux_embedded_hal::{I2CError, I2cdev};
use pwm_pca9685::{Channel, Pca9685};

use crate::MotorError;

verus! {

#[verifier::external_type_specification]
#[verifier::external_body]
pub struct ExI2cdev(I2cdev);

#[verifier::external_type_specification]
#[verifier::external_body]
pub struct ExI2CError(I2CError);

#[verifier::external_type_specification]
#[verifier::external_body]
#[verifier::reject_recursive_types(I2C)]
pub struct ExPca9685<I2C>(Pca9685<I2C>);

#[verifier::external_type_specification]
#[verifier::external_body]
#[verifier::reject_recursive_types(E)]
pub struct ExPwmError<E>(pwm_pca9685::Error<E>);

} // verus!

verus! {

/// The count written to an OFF register to hold a channel fully off.
pub const FULL_OFF: u16 = 0x1000;

/// One register write to the PWM controller.
#[derive(Debug, Clone, Copy, PartialEq, Eq, Structural)]
pub enum PwmWrite {
    /// Set the point in the period at which the channel turns on.
    On { channel: u8, count: u16 },
    /// Set the point in the period at which the channel turns off.
    Off { channel: u8, count: u16 },
    /// Hold the channel off for the whole period.
    FullOff { channel: u8 },
}

/// A register of the controller: a channel and whether it is the OFF register.
pub type Register = (u8, bool);

impl PwmWrite {
    pub open spec fn channel(self) -> u8 {
        match self {
            PwmWrite::On { channel, .. } => channel,
            PwmWrite::Off { channel, .. } => channel,
            PwmWrite::FullOff { channel } => channel,
        }
    }

    /// The register that this write sets.
    pub open spec fn register(self) -> Register {
        (self.channel(), !(self is On))
    }

    /// The value that this write leaves in its register.
    pub open spec fn value(self) -> u16 {
        match self {
            PwmWrite::On { count, .. } => count,
            PwmWrite::Off { count, .. } => count,
            PwmWrite::FullOff { .. } => FULL_OFF,
        }
    }

    /// A write that the controller accepts: an existing channel and a 12-bit count.
    pub open spec fn is_valid(self) -> bool {
        &&& self.channel() < 16
        &&& match self {
            PwmWrite::On { count, .. } => count <= 4095,
            PwmWrite::Off { count, .. } => count <= 4095,
            PwmWrite::FullOff { .. } => true,
        }
    }
}

/// The registers after a sequence of writes, performed in order, to `regs`.
pub open spec fn apply_writes(regs: Map<Register, u16>, ws: Seq<PwmWrite>) -> Map<Register, u16>
    decreases ws.len(),
{
    if ws.len() == 0 {
        regs
    } else {
        let w = ws.last();
        apply_writes(regs, ws.drop_last()).insert(w.register(), w.value())
    }
}

/// Whether one of the writes sets register `k`.
pub open spec fn writes_to(ws: Seq<PwmWrite>, k: Register) -> bool {
    exists|i: int| 0 <= i < ws.len() && #[trigger] ws[i].register() == k
}

/// A register that the writes set ends with the same value whatever it held
/// before; one that they do not set keeps its value.
pub proof fn lemma_apply_writes_at(r1: Map<Register, u16>, r2: Map<Register, u16>, ws: Seq<PwmWrite>, k: Register)
    ensures
        writes_to(ws, k) ==> apply_writes(r1, ws).contains_key(k) && apply_writes(r2, ws).contains_key(k)
            && apply_writes(r1, ws)[k] == apply_writes(r2, ws)[k],
        !writes_to(ws, k) ==> apply_writes(r1, ws).contains_key(k) == r1.contains_key(k)
            && apply_writes(r1, ws)[k] == r1[k],
    decreases ws.len(),
{
    if ws.len() > 0 {
        let init = ws.drop_last();
        lemma_apply_writes_at(r1, r2, init, k);
        if ws.last().register() != k {
            if writes_to(ws, k) {
                let i = choose|i: int| 0 <= i < ws.len() && #[trigger] ws[i].register() == k;
                assert(init[i].register() == k);
            }
            if writes_to(init, k) {
                let i = choose|i: int| 0 <= i < init.len() && #[trigger] init[i].register() == k;
                assert(ws[i].register() == k);
            }
        } else {
            assert(ws[ws.len() - 1].register() == k);
        }
    }
}

/// Performing the same sequence of writes a second time changes no register.
pub proof fn lemma_apply_writes_twice(regs: Map<Register, u16>, ws: Seq<PwmWrite>)
    ensures
        apply_writes(apply_writes(regs, ws), ws) == apply_writes(regs, ws),
{
    let once = apply_writes(regs, ws);
    let twice = apply_writes(once, ws);
    assert forall|k: Register| #[trigger] twice.contains_key(k) == once.contains_key(k)
        && (once.contains_key(k) ==> twice[k] == once[k]) by {
        lemma_apply_writes_at(once, regs, ws, k);
    }
    assert(twice =~= once);
}

/// One entry of a controller's write log: a write for which the controller
/// was called with an existing channel and a 12-bit count, and whether that
/// call reported success.
pub type LogEntry = (PwmWrite, bool);

/// The log entries of writes that all succeeded.
pub open spec fn succeeded(ws: Seq<PwmWrite>) -> Seq<LogEntry> {
    ws.map_values(|w: PwmWrite| (w, true))
}

/// The log entries of a run of writes that failed at write `k`: the writes
/// before it succeeded, and write `k` is logged as failed if the controller
/// was called for it at all.
pub open spec fn failed_at(ws: Seq<PwmWrite>, k: int) -> Seq<LogEntry> {
    succeeded(ws.take(k)) + if ws[k].is_valid() {
        seq![(ws[k], false)]
    } else {
        Seq::<LogEntry>::empty()
    }
}

/// Performing `ws` in order, stopping at the first failure, took the log from
/// `before` to `after` with result `r`: on success every write succeeded; on
/// `ChannelError` some write failed and none after it was attempted.
pub open spec fn performs(
    before: Seq<LogEntry>,
    after: Seq<LogEntry>,
    ws: Seq<PwmWrite>,
    r: Result<(), MotorError>,
) -> bool {
    match r {
        Ok(()) => after == before + succeeded(ws),
        Err(e) => e == MotorError::ChannelError && exists|k: int|
            0 <= k < ws.len() && after == before + #[trigger] failed_at(ws, k),
    }
}

/// The PWM controller, with a log of the writes made to it through this
/// library.
pub struct PwmController {
    pwm: Pca9685<I2cdev>,
    log: Ghost<Seq<LogEntry>>,
}

impl PwmController {
    /// The writes made so far, in order, with their outcomes.
    pub closed spec fn log(&self) -> Seq<LogEntry> {
        self.log@
    }

    /// Takes charge of a configured controller, with an empty log.
    pub fn new(pwm: Pca9685<I2cdev>) -> (r: PwmController)
        ensures
            r.log() == Seq::<LogEntry>::empty(),
    {
        PwmController { pwm, log: Ghost(Seq::empty()) }
    }

    /// Hands the controller back.
    pub fn into_inner(self) -> Pca9685<I2cdev> {
        self.pwm
    }
}

/// Relies on `Channel::try_from(u8)` (the numbers 0 to 15 name a channel) and
/// on `Pca9685::set_channel_on`, which refuses a count above 4095 before any
/// bus traffic. A call made with a valid channel and count is logged with its
/// outcome.
#[verifier::external_body]
fn set_channel_on(ctl: &mut PwmController, index: u8, count: u16) -> (r: Result<(), pwm_pca9685::Error<I2CError>>)
    ensures
        !(index < 16 && count <= 4095) ==> r is Err && final(ctl).log() == old(ctl).log(),
        index < 16 && count <= 4095 ==> final(ctl).log() == old(ctl).log().push(
            (PwmWrite::On { channel: index, count }, r is Ok),
        ),
{
    match Channel::try_from(index) {
        Ok(channel) => ctl.pwm.set_channel_on(channel, count),
        Err(()) => Err(pwm_pca9685::Error::InvalidInputData),
    }
}

/// Relies on `Channel::try_from(u8)` (the numbers 0 to 15 name a channel) and
/// on `Pca9685::set_channel_off`, which refuses a count above 4095 before any
/// bus traffic. A call made with a valid channel and count is logged with its
/// outcome.
#[verifier::external_body]
fn set_channel_off(ctl: &mut PwmController, index: u8, count: u16) -> (r: Result<(), pwm_pca9685::Error<I2CError>>)
    ensures
        !(index < 16 && count <= 4095) ==> r is Err && final(ctl).log() == old(ctl).log(),
        index < 16 && count <= 4095 ==> final(ctl).log() == old(ctl).log().push(
            (PwmWrite::Off { channel: index, count }, r is Ok),
        ),
{
    match Channel::try_from(index) {
        Ok(channel) => ctl.pwm.set_channel_off(channel, count),
        Err(()) => Err(pwm_pca9685::Error::InvalidInputData),
    }
}

/// Relies on `Channel::try_from(u8)` (the numbers 0 to 15 name a channel) and
/// on `Pca9685::set_channel_full_off`, which writes the full-off bit of the
/// channel's OFF register. A call made with a valid channel is logged with
/// its outcome.
#[verifier::external_body]
fn set_channel_full_off(ctl: &mut PwmController, index: u8) -> (r: Result<(), pwm_pca9685::Error<I2CError>>)
    ensures
        index >= 16 ==> r is Err && final(ctl).log() == old(ctl).log(),
        index < 16 ==> final(ctl).log() == old(ctl).log().push((PwmWrite::FullOff { channel: index }, r is Ok)),
{
    match Channel::try_from(index) {
        Ok(channel) => ctl.pwm.set_channel_full_off(channel),
        Err(()) => Err(pwm_pca9685::Error::InvalidInputData),
    }
}

/// Performs one write on the controller.
pub fn send_write(ctl: &mut PwmController, w: PwmWrite) -> (r: Result<(), MotorError>)
    ensures
        r is Err ==> r == Err::<(), MotorError>(MotorError::ChannelError),
        w.is_valid() ==> final(ctl).log() == old(ctl).log().push((w, r is Ok)),
        !w.is_valid() ==> r is Err && final(ctl).log() == old(ctl).log(),
{
    let done = match w {
        PwmWrite::On { channel, count } => set_channel_on(ctl, channel, count),
        PwmWrite::Off { channel, count } => set_channel_off(ctl, channel, count),
        PwmWrite::FullOff { channel } => set_channel_full_off(ctl, channel),
    };
    match done {
        Ok(()) => Ok(()),
        Err(_) => Err(MotorError::ChannelError),
    }
}

/// Performs the writes in order, and stops at the first one that fails.
pub fn send_writes(ctl: &mut PwmController, ws: &Vec<PwmWrite>) -> (r: Result<(), MotorError>)
    ensures
        performs(old(ctl).log(), final(ctl).log(), ws@, r),
        (exists|i: int| 0 <= i < ws@.len() && !(#[trigger] ws@[i]).is_valid()) ==> r is Err,
{
    let ghost start = ctl.log();
    let mut i: usize = 0;
    while i < ws.len()
        invariant
            0 <= i <= ws@.len(),
            forall|j: int| 0 <= j < i ==> (#[trigger] ws@[j]).is_valid(),
            start == old(ctl).log(),
            ctl.log() == start + succeeded(ws@.take(i as int)),
        decreases ws@.len() - i,
    {
        let w = ws[i];
        let ghost before = ctl.log();
        let r = send_write(ctl, w);
        proof {
            assert(ws@.take(i as int + 1) =~= ws@.take(i as int).push(w));
            assert(succeeded(ws@.take(i as int + 1)) =~= succeeded(ws@.take(i as int)).push((w, true)));
        }
        match r {
            Ok(()) => {
                proof {
                    assert(ctl.log() =~= start + succeeded(ws@.take(i as int + 1)));
                }
            },
            Err(e) => {
                proof {
                    assert(ctl.log() =~= start + failed_at(ws@, i as int));
                    assert(e == MotorError::ChannelError);
                    assert(performs(start, ctl.log(), ws@, Err(e)));
                }
                return Err(e);
            },
        }
        i = i + 1;
    }
    proof {
        assert(ws@.take(i as int) =~= ws@);
    }
    Ok(())
}

} // verus!
