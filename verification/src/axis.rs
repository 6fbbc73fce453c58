//! Motor-axis bookkeeping shared between the sequencing loop and the
//! tick interrupt: per-motor direction, state and pulse count, a machine
//! state, a pulse counter and a heartbeat toggle.  Pure data with exact
//! accessor contracts; one designated owner at a time mutates it.

use vstd::prelude::*;

verus! {

/// Which way a motor is told to move.
#[derive(Clone, Copy, PartialEq, Eq, Structural, Debug)]
pub enum MotorDirection {
    Reverse,
    Forward,
}

/// The states a motor or the whole machine can be in.
#[derive(Clone, Copy, PartialEq, Eq, Structural, Debug)]
pub enum MotorState {
    BootUp,
    Stopped,
    Operational,
    PreOperational,
    Faulted,
    Homing,
}

/// The four motor slots.
#[derive(Clone, Copy, PartialEq, Eq, Structural, Debug)]
pub enum Motors {
    Motor1,
    Motor2,
    Motor3,
    Motor4,
}

/// One motor's bookkeeping.
#[derive(Clone, Copy, PartialEq, Eq, Structural, Debug)]
pub struct MotorType {
    pub direction: MotorDirection,
    pub state: MotorState,
    pub count: u32,
}

const ZERO: u32 = 0;

impl MotorType {
    /// A motor fresh out of reset: reverse, booting, count cleared.
    pub fn init() -> (r: MotorType)
        ensures
            r.direction == MotorDirection::Reverse,
            r.state == MotorState::BootUp,
            r.count == 0,
    {
        MotorType { direction: MotorDirection::Reverse, state: MotorState::BootUp, count: ZERO }
    }
}

/// Bookkeeping for the whole four-motor machine.
#[derive(Clone, Copy, PartialEq, Eq, Structural, Debug)]
pub struct MotorControl {
    pub motor1: MotorType,
    pub motor2: MotorType,
    pub motor3: MotorType,
    pub motor4: MotorType,
    pub state: MotorState,
    pub count: u32,
    pub toggle: bool,
}

impl MotorControl {
    /// The bookkeeping of the chosen motor slot.
    pub open spec fn motor(self, motor: Motors) -> MotorType {
        match motor {
            Motors::Motor1 => self.motor1,
            Motors::Motor2 => self.motor2,
            Motors::Motor3 => self.motor3,
            Motors::Motor4 => self.motor4,
        }
    }

    /// The machine fresh out of reset: every motor as `MotorType::init`
    /// leaves it, the machine booting, count cleared, heartbeat low.
    pub fn init() -> (r: MotorControl)
        ensures
            r.motor1 == (MotorType {
                direction: MotorDirection::Reverse,
                state: MotorState::BootUp,
                count: 0,
            }),
            r.motor2 == r.motor1,
            r.motor3 == r.motor1,
            r.motor4 == r.motor1,
            r.state == MotorState::BootUp,
            r.count == 0,
            !r.toggle,
    {
        MotorControl {
            motor1: MotorType::init(),
            motor2: MotorType::init(),
            motor3: MotorType::init(),
            motor4: MotorType::init(),
            state: MotorState::BootUp,
            count: 0,
            toggle: false,
        }
    }

    /// The chosen motor's direction.
    pub fn get_motor_direction(&self, motor: Motors) -> (r: MotorDirection)
        ensures
            r == self.motor(motor).direction,
    {
        match motor {
            Motors::Motor1 => self.motor1.direction,
            Motors::Motor2 => self.motor2.direction,
            Motors::Motor3 => self.motor3.direction,
            Motors::Motor4 => self.motor4.direction,
        }
    }

    /// Point the chosen motor the given way; nothing else moves.
    pub fn set_motor_direction(&mut self, motor: Motors, motor_dir: MotorDirection)
        ensures
            final(self).motor(motor) == (MotorType {
                direction: motor_dir,
                ..old(self).motor(motor)
            }),
            forall|m: Motors| m != motor ==> final(self).motor(m) == old(self).motor(m),
            final(self).state == old(self).state,
            final(self).count == old(self).count,
            final(self).toggle == old(self).toggle,
    {
        match motor {
            Motors::Motor1 => self.motor1.direction = motor_dir,
            Motors::Motor2 => self.motor2.direction = motor_dir,
            Motors::Motor3 => self.motor3.direction = motor_dir,
            Motors::Motor4 => self.motor4.direction = motor_dir,
        }
    }

    /// The chosen motor's state.
    pub fn get_motor_state(&self, motor: Motors) -> (r: MotorState)
        ensures
            r == self.motor(motor).state,
    {
        match motor {
            Motors::Motor1 => self.motor1.state,
            Motors::Motor2 => self.motor2.state,
            Motors::Motor3 => self.motor3.state,
            Motors::Motor4 => self.motor4.state,
        }
    }

    /// Put the chosen motor in the given state; nothing else moves.
    pub fn set_motor_state(&mut self, motor: Motors, motor_state: MotorState)
        ensures
            final(self).motor(motor) == (MotorType {
                state: motor_state,
                ..old(self).motor(motor)
            }),
            forall|m: Motors| m != motor ==> final(self).motor(m) == old(self).motor(m),
            final(self).state == old(self).state,
            final(self).count == old(self).count,
            final(self).toggle == old(self).toggle,
    {
        match motor {
            Motors::Motor1 => self.motor1.state = motor_state,
            Motors::Motor2 => self.motor2.state = motor_state,
            Motors::Motor3 => self.motor3.state = motor_state,
            Motors::Motor4 => self.motor4.state = motor_state,
        }
    }

    /// The chosen motor's pulse count.
    pub fn get_motor_count(&self, motor: Motors) -> (r: u32)
        ensures
            r == self.motor(motor).count,
    {
        match motor {
            Motors::Motor1 => self.motor1.count,
            Motors::Motor2 => self.motor2.count,
            Motors::Motor3 => self.motor3.count,
            Motors::Motor4 => self.motor4.count,
        }
    }

    /// Clear the chosen motor's pulse count; nothing else moves.
    pub fn clr_motor_count(&mut self, motor: Motors)
        ensures
            final(self).motor(motor) == (MotorType { count: 0, ..old(self).motor(motor) }),
            forall|m: Motors| m != motor ==> final(self).motor(m) == old(self).motor(m),
            final(self).state == old(self).state,
            final(self).count == old(self).count,
            final(self).toggle == old(self).toggle,
    {
        match motor {
            Motors::Motor1 => self.motor1.count = ZERO,
            Motors::Motor2 => self.motor2.count = ZERO,
            Motors::Motor3 => self.motor3.count = ZERO,
            Motors::Motor4 => self.motor4.count = ZERO,
        }
    }

    /// Give the chosen motor a pulse count to count to; nothing else
    /// moves.
    pub fn set_motor_count(&mut self, motor: Motors, cnt: u32)
        ensures
            final(self).motor(motor) == (MotorType { count: cnt, ..old(self).motor(motor) }),
            forall|m: Motors| m != motor ==> final(self).motor(m) == old(self).motor(m),
            final(self).state == old(self).state,
            final(self).count == old(self).count,
            final(self).toggle == old(self).toggle,
    {
        match motor {
            Motors::Motor1 => self.motor1.count = cnt,
            Motors::Motor2 => self.motor2.count = cnt,
            Motors::Motor3 => self.motor3.count = cnt,
            Motors::Motor4 => self.motor4.count = cnt,
        }
    }

    /// The machine state.
    pub fn get_state(&self) -> (r: MotorState)
        ensures
            r == self.state,
    {
        self.state
    }

    /// Put the machine in the given state; nothing else moves.
    pub fn set_state(&mut self, motor_state: MotorState)
        ensures
            *final(self) == (MotorControl { state: motor_state, ..*old(self) }),
    {
        self.state = motor_state;
    }

    /// The pulse counter.
    pub fn get_count(&self) -> (r: u32)
        ensures
            r == self.count,
    {
        self.count
    }

    /// Clear the pulse counter; nothing else moves.
    pub fn clr_count(&mut self)
        ensures
            *final(self) == (MotorControl { count: 0, ..*old(self) }),
    {
        self.count = ZERO;
    }

    /// Count one pulse; nothing else moves.
    pub fn add_count(&mut self)
        requires
            old(self).count < u32::MAX,
        ensures
            *final(self) == (MotorControl { count: (old(self).count + 1) as u32, ..*old(self) }),
    {
        self.count += 1;
    }

    /// The heartbeat toggle.
    pub fn get_toggle(&self) -> (r: bool)
        ensures
            r == self.toggle,
    {
        self.toggle
    }

    /// Take the heartbeat low; nothing else moves.
    pub fn clr_toggle(&mut self)
        ensures
            *final(self) == (MotorControl { toggle: false, ..*old(self) }),
    {
        self.toggle = false;
    }

    /// Take the heartbeat high; nothing else moves.
    pub fn set_toggle(&mut self)
        ensures
            *final(self) == (MotorControl { toggle: true, ..*old(self) }),
    {
        self.toggle = true;
    }

    /// Whether the given state is the stopped state.
    pub fn check_stopped(&self, motor_state: MotorState) -> (r: bool)
        ensures
            r == (motor_state is Stopped),
    {
        match motor_state {
            MotorState::Stopped => true,
            _ => false,
        }
    }
}

} // verus!
