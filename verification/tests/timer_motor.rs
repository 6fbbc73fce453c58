//! The timer driver's period programming and bounded wait, the
//! pulse-width-modulation channel setup, and the motor bookkeeping.

use l552ze_hal::axis::MotorControl;
use l552ze_hal::axis::MotorDirection;
use l552ze_hal::axis::MotorState;
use l552ze_hal::axis::Motors;
use l552ze_hal::board;
use l552ze_hal::timer::Direction;
use l552ze_hal::timer::Timer;
use l552ze_hal::timer::TimerType;
use l552ze_hal::w5200;

#[test]
fn timer_open_modes() {
    let mut tim = Timer::init(board::TIMER2_BASE);
    tim.open(TimerType::Ons, Direction::Downcount);
    assert_ne!(tim.regs.cr1 & 0x8, 0); // one-shot
    assert_ne!(tim.regs.cr1 & 0x10, 0); // counting down
    tim.open(TimerType::Cont, Direction::Upcount);
    assert_eq!(tim.regs.cr1 & 0x8, 0);
    assert_eq!(tim.regs.cr1 & 0x10, 0);
    assert_eq!(tim.regs.cr1 & 0x2, 0); // update events enabled
    assert_eq!((tim.regs.cr1 >> 5) & 0x3, 0); // edge-aligned
}

#[test]
fn timer_period_programming() {
    let mut tim = Timer::init(board::TIMER2_BASE);
    // A thousand ticks at 16000 kHz, prescaled by 16000: one millisecond
    // steps counted a thousand times.
    tim.set_scl(1000, 16000, 16000);
    assert_eq!(tim.regs.psc, 15999);
    assert_eq!(tim.regs.arr, 999);

    tim.set_scl(10, 8000, 0);
    assert_eq!(tim.regs.psc, 0);
    assert_eq!(tim.regs.arr, 79999);
}

#[test]
fn timer_start_stop_count_flag() {
    let mut tim = Timer::init(board::TIMER3_BASE);
    tim.start();
    assert_ne!(tim.regs.cr1 & 0x1, 0);
    tim.stop();
    assert_eq!(tim.regs.cr1 & 0x1, 0);

    tim.regs.cnt = 55;
    assert_eq!(tim.get_cnt(), 55);
    tim.clr_cnt();
    assert_eq!(tim.get_cnt(), 0);

    tim.set_interrupt();
    assert_ne!(tim.regs.dier & 0x1, 0);

    assert!(!tim.get_flag());
    tim.regs.sr |= 0x1;
    assert!(tim.get_flag());
    tim.clr_flag();
    assert!(!tim.get_flag());
}

#[test]
fn timer_wait_is_bounded() {
    let mut tim = Timer::init(board::TIMER3_BASE);
    // No tick pending: the wait gives up instead of hanging.
    assert!(!tim.wait());
    tim.regs.sr |= 0x1;
    assert!(tim.wait());
    // A successful wait consumes the flag.
    assert_eq!(tim.regs.sr & 0x1, 0);
}

#[test]
fn pwm_channel_setup() {
    let mut tim = Timer::init(board::TIMER3_BASE);
    tim.set_pwm_ch1();
    assert_eq!(tim.regs.ccmr1 & 0x3, 0); // channel as output
    assert_eq!((tim.regs.ccmr1 >> 4) & 0x7, 6); // compare mode one
    assert_ne!(tim.regs.ccer & 0x1, 0); // output enabled
    assert_eq!(tim.regs.ccer & 0x2, 0); // active high
    tim.set_pwm_ch2();
    assert_eq!((tim.regs.ccmr1 >> 12) & 0x7, 6);
    assert_ne!(tim.regs.ccer & 0x10, 0);
    tim.set_pwm_ch3();
    assert_eq!((tim.regs.ccmr2 >> 4) & 0x7, 6);
    assert_ne!(tim.regs.ccer & 0x100, 0);
    tim.set_pwm_ch4();
    assert_eq!((tim.regs.ccmr2 >> 12) & 0x7, 6);
    assert_ne!(tim.regs.ccer & 0x1000, 0);

    tim.set_pwm_ccr1(100);
    tim.set_pwm_ccr2(200);
    tim.set_pwm_ccr3(300);
    tim.set_pwm_ccr4(400);
    assert_eq!(
        (tim.regs.ccr1, tim.regs.ccr2, tim.regs.ccr3, tim.regs.ccr4),
        (100, 200, 300, 400)
    );
}

#[test]
fn motor_control_initial_state() {
    let ctl = MotorControl::init();
    assert_eq!(ctl.get_state(), MotorState::BootUp);
    assert_eq!(ctl.get_count(), 0);
    assert!(!ctl.get_toggle());
    for m in [Motors::Motor1, Motors::Motor2, Motors::Motor3, Motors::Motor4] {
        assert_eq!(ctl.get_motor_direction(m), MotorDirection::Reverse);
        assert_eq!(ctl.get_motor_state(m), MotorState::BootUp);
        assert_eq!(ctl.get_motor_count(m), 0);
    }
}

#[test]
fn motor_control_per_motor_updates() {
    let mut ctl = MotorControl::init();
    ctl.set_motor_direction(Motors::Motor2, MotorDirection::Forward);
    assert_eq!(ctl.get_motor_direction(Motors::Motor2), MotorDirection::Forward);
    assert_eq!(ctl.get_motor_direction(Motors::Motor1), MotorDirection::Reverse);

    ctl.set_motor_state(Motors::Motor3, MotorState::Operational);
    assert_eq!(ctl.get_motor_state(Motors::Motor3), MotorState::Operational);
    assert_eq!(ctl.get_motor_state(Motors::Motor4), MotorState::BootUp);

    ctl.set_motor_count(Motors::Motor1, 500);
    assert_eq!(ctl.get_motor_count(Motors::Motor1), 500);
    ctl.clr_motor_count(Motors::Motor1);
    assert_eq!(ctl.get_motor_count(Motors::Motor1), 0);
}

#[test]
fn motor_control_machine_state() {
    let mut ctl = MotorControl::init();
    ctl.set_state(MotorState::Homing);
    assert_eq!(ctl.get_state(), MotorState::Homing);

    ctl.add_count();
    ctl.add_count();
    assert_eq!(ctl.get_count(), 2);
    ctl.clr_count();
    assert_eq!(ctl.get_count(), 0);

    ctl.set_toggle();
    assert!(ctl.get_toggle());
    ctl.clr_toggle();
    assert!(!ctl.get_toggle());

    assert!(ctl.check_stopped(MotorState::Stopped));
    assert!(!ctl.check_stopped(MotorState::Homing));
}

#[test]
fn network_controller_bus_policy() {
    assert!(matches!(w5200::CLK_SETUP, l552ze_hal::spi::ClockSetup::RisingEdgeClockLow));
    assert!(matches!(w5200::BIT_SETUP, l552ze_hal::spi::BitFirst::Msb));
    assert!(matches!(w5200::WORD_SETUP, l552ze_hal::spi::DataSize::Bits8));
}
