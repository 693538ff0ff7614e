use motor_hat::pwm::PwmWrite;
use motor_hat::stepper::{microstep_curve, StepDirection, StepStyle, StepperMotor};
use motor_hat::{Motor, MotorError};

fn quarter_sine(m: u32) -> Vec<u16> {
    (0..=m)
        .map(|i| {
            (65535.0f32 * (std::f32::consts::PI / (2.0 * m as f32) * i as f32).sin()).round() as u16
        })
        .collect()
}

fn stepper(m: u32) -> StepperMotor {
    StepperMotor::with_curve(Motor::Stepper1, Some(m), &quarter_sine(m)).unwrap()
}

#[test]
fn curve_has_one_entry_more_than_microsteps_and_never_falls() {
    for m in [2u32, 3, 8, 16, 32, 100] {
        let curve = microstep_curve(&quarter_sine(m));
        assert_eq!(curve.len(), m as usize + 1);
        assert!(curve[0] <= curve[m as usize]);
        for w in curve.windows(2) {
            assert!(w[0] <= w[1]);
        }
        assert!(curve.iter().all(|&v| v <= 4095));
    }
}

#[test]
fn curve_endpoints_for_sixteen_microsteps() {
    let curve = stepper(16).curve();
    assert_eq!(curve.len(), 17);
    assert_eq!(curve[0], 0);
    assert_eq!(curve[16], 4095);
}

#[test]
fn curve_entries_add_one_shift_and_cap() {
    let curve = microstep_curve(&vec![0, 14, 15, 31, 65519, 65534, 65535]);
    assert_eq!(curve, vec![0, 0, 1, 2, 4095, 4095, 4095]);
}

#[test]
fn stop_writes_are_the_same_each_time_and_all_full_off() {
    let s = stepper(16);
    let first = s.channels().stop_writes();
    let second = s.channels().stop_writes();
    assert_eq!(first, second);
    assert_eq!(first.len(), 6);
    let mut seen: Vec<u8> = first
        .iter()
        .map(|w| match w {
            PwmWrite::FullOff { channel } => *channel,
            other => panic!("unexpected write {:?}", other),
        })
        .collect();
    seen.sort();
    assert_eq!(seen, vec![8, 9, 10, 11, 12, 13]);
}

fn round_trip(mut s: StepperMotor, style: StepStyle, k: usize) {
    let start = s.current_step();
    for _ in 0..k {
        s.calc_step(StepDirection::Forward, style);
    }
    for _ in 0..k {
        s.calc_step(StepDirection::Backward, style);
    }
    assert_eq!(s.current_step(), start);
}

#[test]
fn forward_then_backward_returns_to_start() {
    round_trip(stepper(16), StepStyle::Microstep, 5);
    round_trip(stepper(16), StepStyle::Interleave, 3);
    round_trip(stepper(16), StepStyle::Single, 3);
    let mut s = stepper(16);
    s.calc_step(StepDirection::Forward, StepStyle::Double);
    assert_eq!(s.current_step(), 8);
    round_trip(s, StepStyle::Double, 2);
}

#[test]
fn passing_four_full_steps_subtracts_forty() {
    let mut s = stepper(16);
    for _ in 0..64 {
        s.calc_step(StepDirection::Forward, StepStyle::Microstep);
    }
    assert_eq!(s.current_step(), 64);
    s.calc_step(StepDirection::Forward, StepStyle::Microstep);
    assert_eq!(s.current_step(), 25);
}

#[test]
fn passing_four_full_steps_backward_adds_forty() {
    let mut s = stepper(16);
    for _ in 0..65 {
        s.calc_step(StepDirection::Backward, StepStyle::Microstep);
    }
    assert_eq!(s.current_step(), -25);
}

#[test]
fn double_step_from_zero_moves_half_a_step_and_energizes_two_coils_fully() {
    let mut s = stepper(16);
    let duty = s.calc_step(StepDirection::Forward, StepStyle::Double);
    assert_ne!(s.current_step(), 16);
    assert_eq!(s.current_step(), 8);
    assert_eq!(duty, vec![4095, 4095, 0, 0]);
}

#[test]
fn unaligned_counter_snaps_without_moving_further() {
    let mut s = stepper(16);
    for _ in 0..3 {
        s.calc_step(StepDirection::Forward, StepStyle::Microstep);
    }
    s.calc_step(StepDirection::Forward, StepStyle::Single);
    assert_eq!(s.current_step(), 8);
    for _ in 0..3 {
        s.calc_step(StepDirection::Forward, StepStyle::Microstep);
    }
    s.calc_step(StepDirection::Backward, StepStyle::Interleave);
    assert_eq!(s.current_step(), 8);
}

#[test]
fn single_and_double_alternate_step_sizes() {
    let mut s = stepper(16);
    s.calc_step(StepDirection::Forward, StepStyle::Single);
    assert_eq!(s.current_step(), 16);
    s.calc_step(StepDirection::Forward, StepStyle::Interleave);
    assert_eq!(s.current_step(), 24);
    s.calc_step(StepDirection::Forward, StepStyle::Single);
    assert_eq!(s.current_step(), 32);
    s.calc_step(StepDirection::Forward, StepStyle::Double);
    assert_eq!(s.current_step(), 40);
    s.calc_step(StepDirection::Forward, StepStyle::Double);
    assert_eq!(s.current_step(), 56);
}

#[test]
fn microstep_duty_follows_the_curve() {
    let mut s = stepper(16);
    let curve = s.curve();
    let duty = s.calc_step(StepDirection::Forward, StepStyle::Microstep);
    assert_eq!(duty, vec![curve[15], curve[1], 0, 0]);
    for _ in 0..16 {
        s.calc_step(StepDirection::Forward, StepStyle::Microstep);
    }
    assert_eq!(s.calc_duty_cycle(StepStyle::Microstep), vec![0, curve[15], curve[1], 0]);
}

#[test]
fn negative_counter_selects_coils_as_a_positive_one() {
    let mut s = stepper(16);
    let curve = s.curve();
    let duty = s.calc_step(StepDirection::Backward, StepStyle::Microstep);
    assert_eq!(s.current_step(), -1);
    assert_eq!(duty, vec![curve[15], 0, 0, curve[1]]);
}

#[test]
fn stepper_constructor_refuses_dc_motor() {
    let r = StepperMotor::with_curve(Motor::Motor2, None, &quarter_sine(16));
    assert_eq!(r.err(), Some(MotorError::InvalidMotorError));
}

#[test]
fn stepper_constructor_refuses_bad_resolution() {
    let r = StepperMotor::with_curve(Motor::Stepper2, Some(0), &quarter_sine(1));
    assert_eq!(r.err(), Some(MotorError::InvalidConfiguration));
    let r = StepperMotor::with_curve(Motor::Stepper2, Some(8), &quarter_sine(16));
    assert_eq!(r.err(), Some(MotorError::InvalidConfiguration));
    let r = StepperMotor::with_curve(Motor::Stepper2, Some(70000), &Vec::new());
    assert_eq!(r.err(), Some(MotorError::InvalidConfiguration));
}

#[test]
fn stepper_constructor_defaults_to_sixteen() {
    let s = StepperMotor::with_curve(Motor::Stepper2, None, &quarter_sine(16)).unwrap();
    assert_eq!(s.microsteps(), 16);
    assert_eq!(s.current_step(), 0);
    let c = s.channels();
    assert_eq!((c.ref_channel1, c.ref_channel2, c.ain1, c.ain2, c.bin1, c.bin2), (2, 7, 4, 3, 5, 6));
}

#[test]
fn start_and_coil_writes_follow_the_wiring() {
    let c = stepper(16).channels();
    let start = c.start_writes();
    assert_eq!(start.len(), 8);
    assert_eq!(start[1], PwmWrite::On { channel: 13, count: 0 });
    assert_eq!(start[7], PwmWrite::Off { channel: 13, count: 4095 });
    let coils = c.coil_writes(&vec![1, 2, 3, 4]);
    assert_eq!(
        coils,
        vec![
            PwmWrite::Off { channel: 9, count: 1 },
            PwmWrite::Off { channel: 11, count: 2 },
            PwmWrite::Off { channel: 10, count: 3 },
            PwmWrite::Off { channel: 12, count: 4 },
        ]
    );
}

#[test]
fn resolution_of_one_is_accepted_and_microsteps() {
    let mut s = StepperMotor::with_curve(Motor::Stepper1, Some(1), &quarter_sine(1)).unwrap();
    assert_eq!(s.microsteps(), 1);
    assert_eq!(s.curve(), vec![0, 4095]);
    let duty = s.calc_step(StepDirection::Forward, StepStyle::Microstep);
    assert_eq!(s.current_step(), 1);
    assert_eq!(duty, vec![0, 4095, 0, 0]);
}

#[test]
fn init_writes_start_channels_then_zero_coils() {
    let c = stepper(16).channels();
    let mut expected = c.start_writes();
    expected.extend(c.coil_writes(&vec![0, 0, 0, 0]));
    assert_eq!(c.init_writes(), expected);
    assert_eq!(c.init_writes().len(), 12);
}

#[test]
fn large_resolution_is_accepted() {
    let m: u32 = 70000;
    let s = StepperMotor::with_curve(Motor::Stepper1, Some(m), &quarter_sine(m)).unwrap();
    let curve = s.curve();
    assert_eq!(curve.len(), 70001);
    assert_eq!(curve[0], 0);
    assert_eq!(curve[70000], 4095);
    for w in curve.windows(2) {
        assert!(w[0] <= w[1]);
    }
}
