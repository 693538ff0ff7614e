use motor_hat::dc::Throttle;
use motor_hat::pwm::PwmWrite;
use motor_hat::{Motor, MotorError};

#[test]
fn half_throttle_writes_forward_channel_only() {
    let c = Motor::Motor1.to_dc_channels().unwrap();
    let duty = (4095.0f32 * 0.5f32) as u16;
    assert_eq!(duty, 2047);
    let ws = c.throttle_writes(Throttle::Forward(duty)).unwrap();
    assert_eq!(ws, vec![PwmWrite::Off { channel: 9, count: 2047 }]);
}

#[test]
fn backward_throttle_writes_backward_channel_only() {
    let c = Motor::Motor2.to_dc_channels().unwrap();
    let ws = c.throttle_writes(Throttle::Backward(4095)).unwrap();
    assert_eq!(ws, vec![PwmWrite::Off { channel: 12, count: 4095 }]);
}

#[test]
fn release_holds_both_direction_channels_off() {
    let c = Motor::Motor3.to_dc_channels().unwrap();
    let ws = c.throttle_writes(Throttle::Release).unwrap();
    assert_eq!(ws, vec![PwmWrite::FullOff { channel: 3 }, PwmWrite::FullOff { channel: 4 }]);
}

#[test]
fn oversized_duty_is_a_throttle_error() {
    let c = Motor::Motor4.to_dc_channels().unwrap();
    assert_eq!(c.throttle_writes(Throttle::Forward(4096)).err(), Some(MotorError::ThrottleError));
    assert_eq!(c.throttle_writes(Throttle::Backward(65535)).err(), Some(MotorError::ThrottleError));
}

#[test]
fn dc_wiring_and_wrong_kind() {
    let c = Motor::Motor4.to_dc_channels().unwrap();
    assert_eq!((c.ref_channel, c.forward_channel, c.backward_channel), (7, 5, 6));
    assert_eq!(Motor::Stepper1.to_dc_channels().err(), Some(MotorError::InvalidMotorError));
    assert_eq!(Motor::Motor1.to_step_channels().err(), Some(MotorError::InvalidMotorError));
}

#[test]
fn dc_start_and_stop_writes() {
    let c = Motor::Motor1.to_dc_channels().unwrap();
    assert_eq!(
        c.start_writes(),
        vec![
            PwmWrite::On { channel: 8, count: 0 },
            PwmWrite::On { channel: 9, count: 0 },
            PwmWrite::On { channel: 10, count: 0 },
            PwmWrite::Off { channel: 8, count: 4095 },
        ]
    );
    let once = c.stop_writes();
    assert_eq!(once, c.stop_writes());
    assert_eq!(
        once,
        vec![
            PwmWrite::FullOff { channel: 8 },
            PwmWrite::FullOff { channel: 9 },
            PwmWrite::FullOff { channel: 10 },
        ]
    );
}
