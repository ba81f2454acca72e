use vstd::prelude::*;
use crate::config::MotorSpec;
use crate::frame::{Frame, FrameId};
use crate::motor::{extended_command_raw, zero_payload, Motor, MotorRS, COMM_ENABLE};

verus! {

/// The motors of one leg, all on one CAN bus.
pub struct LegControl {
    motors: Vec<MotorRS>,
}

impl View for LegControl {
    type V = Seq<MotorRS>;

    closed spec fn view(&self) -> Seq<MotorRS> {
        self.motors@
    }
}

/// The host id that a feedback identifier is addressed to: its low byte.
pub open spec fn feedback_master(raw: u32) -> u32 {
    raw & 0xFF
}

impl LegControl {
    /// Creates the leg's motors from their specs, in order; every motor speaks the
    /// extended-identifier protocol.
    pub fn new(motor_specs: Vec<MotorSpec>) -> (leg: LegControl)
        ensures
            leg@.len() == motor_specs@.len(),
            forall|i: int|
                0 <= i < motor_specs@.len() ==> #[trigger] leg@[i].motor == (Motor {
                    joint_name: motor_specs@[i].joint_name,
                    model: motor_specs@[i].model,
                    slave_id: motor_specs@[i].slave_id,
                    master_id: motor_specs@[i].master_id,
                    use_extended_id: true,
                }),
    {
        let mut motors: Vec<MotorRS> = Vec::new();
        let n = motor_specs.len();
        for i in 0..n
            invariant
                n == motor_specs@.len(),
                motors@.len() == i,
                forall|j: int|
                    0 <= j < i ==> #[trigger] motors@[j].motor == (Motor {
                        joint_name: motor_specs@[j].joint_name,
                        model: motor_specs@[j].model,
                        slave_id: motor_specs@[j].slave_id,
                        master_id: motor_specs@[j].master_id,
                        use_extended_id: true,
                    }),
        {
            let spec = &motor_specs[i];
            let motor = Motor::new(
                spec.joint_name.clone(),
                spec.model,
                spec.slave_id,
                spec.master_id,
                true,
            );
            motors.push(MotorRS { motor });
        }
        LegControl { motors }
    }

    /// The motor at `index`.
    pub fn motor(&self, index: usize) -> (m: &MotorRS)
        requires
            index < self@.len(),
        ensures
            *m == self@[index as int],
    {
        &self.motors[index]
    }

    /// The number of motors.
    pub fn motor_count(&self) -> (n: usize)
        ensures
            n == self@.len(),
    {
        self.motors.len()
    }

    /// All motors, in order.
    pub fn motors(&self) -> (ms: &[MotorRS])
        ensures
            ms@ == self@,
    {
        self.motors.as_slice()
    }

    /// The enable frames of all motors, in motor order.
    pub fn enable_all_motors(&self) -> (frames: Vec<Frame>)
        requires
            forall|i: int|
                0 <= i < self@.len() ==> (#[trigger] self@[i]).motor.command_id_fits(
                    COMM_ENABLE,
                    self@[i].motor.master_id,
                ),
        ensures
            frames@.len() == self@.len(),
            forall|i: int|
                0 <= i < self@.len() ==> self@[i].is_command(
                    #[trigger] frames@[i],
                    COMM_ENABLE,
                    self@[i].motor.master_id,
                    zero_payload(),
                ),
            forall|i: int|
                0 <= i < self@.len() ==> {
                    &&& (#[trigger] frames@[i]).id == self@[i].motor.spec_command_id(
                        3u32,
                        self@[i].motor.master_id,
                    )
                    &&& frames@[i].data@.len() == 8
                    &&& forall|b: int| 0 <= b < 8 ==> #[trigger] frames@[i].data@[b] == 0
                },
    {
        proof {
            crate::motor::lemma_zero_payload();
        }
        let mut frames: Vec<Frame> = Vec::new();
        let n = self.motors.len();
        for i in 0..n
            invariant
                n == self@.len(),
                forall|k: int|
                    0 <= k < self@.len() ==> (#[trigger] self@[k]).motor.command_id_fits(
                        COMM_ENABLE,
                        self@[k].motor.master_id,
                    ),
                frames@.len() == i,
                forall|k: int|
                    0 <= k < i ==> self@[k].is_command(
                        #[trigger] frames@[k],
                        COMM_ENABLE,
                        self@[k].motor.master_id,
                        zero_payload(),
                    ),
        {
            let f = self.motors[i].enable();
            frames.push(f);
        }
        frames
    }

    /// The motors that a received frame is delivered to, in increasing order: for an
    /// extended identifier, every motor whose host id equals the identifier's low
    /// byte; a standard identifier is delivered to none.
    pub fn feedback_targets(&self, frame: &Frame) -> (targets: Vec<usize>)
        ensures
            forall|k: int|
                0 <= k < targets@.len() ==> {
                    &&& (#[trigger] targets@[k]) < self@.len()
                    &&& frame.id matches FrameId::Extended(raw)
                    &&& self@[targets@[k] as int].motor.master_id == raw & 0xFF
                },
            forall|k1: int, k2: int|
                0 <= k1 < k2 < targets@.len() ==> #[trigger] targets@[k1] < #[trigger] targets@[k2],
            forall|i: int|
                0 <= i < self@.len() && (frame.id matches FrameId::Extended(raw)
                    && (#[trigger] self@[i]).motor.master_id == raw & 0xFF) ==> exists|
                    k: int,
                | 0 <= k < targets@.len() && targets@[k] == i,
    {
        let mut targets: Vec<usize> = Vec::new();
        match frame.id {
            FrameId::Standard(_) => targets,
            FrameId::Extended(raw) => {
                let frame_master = raw & 0xFF;
                let n = self.motors.len();
                for i in 0..n
                    invariant
                        n == self@.len(),
                        frame.id == FrameId::Extended(raw),
                        frame_master == feedback_master(raw),
                        forall|k: int|
                            0 <= k < targets@.len() ==> {
                                &&& (#[trigger] targets@[k]) < i
                                &&& self@[targets@[k] as int].motor.master_id == frame_master
                            },
                        forall|k1: int, k2: int|
                            0 <= k1 < k2 < targets@.len() ==> #[trigger] targets@[k1]
                                < #[trigger] targets@[k2],
                        forall|j: int|
                            0 <= j < i && (#[trigger] self@[j]).motor.master_id == frame_master
                                ==> exists|k: int| 0 <= k < targets@.len() && targets@[k] == j,
                {
                    if self.motors[i].motor.master_id == frame_master {
                        let ghost old_targets = targets@;
                        targets.push(i);
                        assert forall|j: int|
                            0 <= j <= i && (#[trigger] self@[j]).motor.master_id == frame_master
                                implies exists|k: int|
                            0 <= k < targets@.len() && targets@[k] == j by {
                            if j < i {
                                let k = choose|k: int|
                                    0 <= k < old_targets.len() && old_targets[k] == j;
                                assert(targets@[k] == j);
                            } else {
                                assert(targets@[old_targets.len() as int] == j);
                            }
                        }
                    }
                }
                targets
            },
        }
    }
}

/// Feedback is addressed by the low byte of its identifier: a frame whose identifier
/// is built as `comm << 24 | motor_id << 8 | host` goes to `host`, whatever motor id
/// (up to 16 bits) and type it carries.
pub proof fn lemma_feedback_reaches_host(comm: u32, motor_id: u32, host: u32)
    requires
        comm <= 0x1F,
        motor_id <= 0xFFFF,
        host <= 0xFF,
    ensures
        feedback_master(extended_command_raw(comm, motor_id, host)) == host,
        forall|raw: u32| #[trigger] feedback_master(raw) == raw % 0x100,
{
    crate::motor::lemma_command_id_fields(comm, motor_id, host);
    assert forall|raw: u32| #[trigger] feedback_master(raw) == raw % 0x100 by {
        assert(raw & 0xFF == raw % 0x100) by (bit_vector);
    }
}

} // verus!
