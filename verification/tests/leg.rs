use leg_motors::config::MotorSpec;
use leg_motors::frame::{Frame, FrameId};
use leg_motors::leg::LegControl;
use leg_motors::model::MotorModel;

fn spec(name: &str, slave_id: u32, master_id: u32) -> MotorSpec {
    MotorSpec { joint_name: name.to_string(), model: MotorModel::RS03, slave_id, master_id }
}

fn four_motor_leg() -> LegControl {
    LegControl::new(vec![
        spec("hip", 1, 0xFD),
        spec("thigh", 2, 0xFE),
        spec("knee", 3, 0xFD),
        spec("foot", 4, 0x01),
    ])
}

#[test]
fn leg_motors_keep_their_specs() {
    let l = four_motor_leg();
    assert_eq!(l.motor_count(), 4);
    assert_eq!(l.motors().len(), 4);
    let knee = &l.motor(2).motor;
    assert_eq!(knee.joint_name, "knee");
    assert_eq!((knee.slave_id, knee.master_id), (3, 0xFD));
    assert!(l.motors().iter().all(|m| m.motor.use_extended_id));
}

#[test]
fn enable_all_motors_in_order() {
    let l = four_motor_leg();
    let frames = l.enable_all_motors();
    let ids: Vec<FrameId> = frames.iter().map(|f| f.id).collect();
    assert_eq!(
        ids,
        vec![
            FrameId::Extended(0x0300_FD01),
            FrameId::Extended(0x0300_FE02),
            FrameId::Extended(0x0300_FD03),
            FrameId::Extended(0x0300_0104),
        ]
    );
    assert!(frames.iter().all(|f| f.data == vec![0u8; 8]));
}

#[test]
fn feedback_goes_to_motors_of_its_host() {
    let l = four_motor_leg();
    let frame = Frame { id: FrameId::Extended(0x0280_03FD), data: vec![0; 8] };
    assert_eq!(l.feedback_targets(&frame), vec![0, 2]);
    let other = Frame { id: FrameId::Extended(0x0280_0401), data: vec![0; 8] };
    assert_eq!(l.feedback_targets(&other), vec![3]);
    let nobody = Frame { id: FrameId::Extended(0x0280_0477), data: vec![0; 8] };
    assert_eq!(l.feedback_targets(&nobody), Vec::<usize>::new());
}

#[test]
fn standard_frames_are_not_routed() {
    let l = four_motor_leg();
    let frame = Frame { id: FrameId::Standard(0xFD), data: vec![0; 8] };
    assert_eq!(l.feedback_targets(&frame), Vec::<usize>::new());
}

#[test]
fn empty_leg() {
    let l = LegControl::new(vec![]);
    assert_eq!(l.motor_count(), 0);
    assert!(l.enable_all_motors().is_empty());
}
