use leg_motors::frame::{Frame, FrameId};
use leg_motors::model::MotorModel;
use leg_motors::motor::{Motor, MotorRS, RawMotorState, RunMode};

fn robstride(slave_id: u32, master_id: u32, use_extended_id: bool) -> MotorRS {
    MotorRS {
        motor: Motor::new("knee".to_string(), MotorModel::RS03, slave_id, master_id, use_extended_id),
    }
}

#[test]
fn enable_frame_layout() {
    let m = robstride(0x7F, 0xFD, true);
    let f = m.enable();
    assert_eq!(f.id, FrameId::Extended(0x0300_FD7F));
    assert_eq!(f.data, vec![0u8; 8]);
}

#[test]
fn disable_frame_layout() {
    let m = robstride(0x05, 0x01, true);
    let f = m.disable();
    assert_eq!(f.id, FrameId::Extended(0x0400_0105));
    assert_eq!(f.data, vec![0u8; 8]);
}

#[test]
fn standard_id_commands_use_the_motor_id() {
    let m = robstride(0x23, 0xFD, false);
    assert_eq!(m.enable().id, FrameId::Standard(0x23));
    assert_eq!(m.control_mit(1, 2, 3, 4, 5).id, FrameId::Standard(0x23));
}

#[test]
fn set_param_is_little_endian() {
    let m = robstride(0x01, 0xFD, true);
    let f = m.set_param(0x7005, 0x1234_5678);
    assert_eq!(f.id, FrameId::Extended(0x1200_FD01));
    assert_eq!(f.data, vec![0x05, 0x70, 0, 0, 0x78, 0x56, 0x34, 0x12]);
}

#[test]
fn set_run_mode_selects_move_control() {
    let m = robstride(0x01, 0xFD, true);
    let f = m.set_run_mode();
    assert_eq!(f.id, FrameId::Extended(0x1200_FD01));
    assert_eq!(f.data, vec![0x05, 0x70, 0, 0, 0, 0, 0, 0]);
}

#[test]
fn run_mode_codes() {
    assert_eq!(RunMode::MoveControl.code(), 0);
    assert_eq!(RunMode::PPMode.code(), 1);
    assert_eq!(RunMode::VelMode.code(), 2);
    assert_eq!(RunMode::TauMode.code(), 3);
    assert_eq!(RunMode::SetZeroMode.code(), 4);
    assert_eq!(RunMode::CSPMode.code(), 5);
}

#[test]
fn control_mit_frame_layout() {
    let m = robstride(0x01, 0xFD, true);
    let f = m.control_mit(0x0102, 0x0304, 0x1234, 0x5678, 0xABCD);
    assert_eq!(f.id, FrameId::Extended(0x01AB_CD01));
    assert_eq!(f.data, vec![0x12, 0x34, 0x56, 0x78, 0x01, 0x02, 0x03, 0x04]);
}

#[test]
fn command_id_rejects_out_of_range_identifiers() {
    let wide = robstride(0x2000_0000, 0x01, true);
    assert_eq!(wide.motor.command_id(0x3, 0x01), None);
    let narrow = robstride(0x0800, 0x01, false);
    assert_eq!(narrow.motor.command_id(0x3, 0x01), None);
    let ok = robstride(0x07FF, 0x01, false);
    assert_eq!(ok.motor.command_id(0x3, 0x01), Some(FrameId::Standard(0x7FF)));
    let ext = robstride(0x10, 0x20, true);
    assert_eq!(ext.motor.command_id(0x1F, 0xFFFF), Some(FrameId::Extended(0x1FFF_FF10)));
}

#[test]
fn parse_feedback_frame() {
    let m = robstride(0x01, 0xFD, true);
    let frame = Frame {
        id: FrameId::Extended(0x02C1_01FD),
        data: vec![0x80, 0x00, 0x7F, 0xFF, 0x12, 0x34, 0x01, 0x2C],
    };
    assert_eq!(
        m.parse_frame(&frame),
        Some(RawMotorState { q: 0x8000, dq: 0x7FFF, tau: 0x1234, temp: 300, error: 0x0001_01FD })
    );
}

#[test]
fn parse_feedback_with_standard_id() {
    let m = robstride(0x01, 0xFD, false);
    let frame = Frame { id: FrameId::Standard(0x7FF), data: vec![0, 1, 0, 2, 0, 3, 0, 4, 9] };
    assert_eq!(
        m.parse_frame(&frame),
        Some(RawMotorState { q: 1, dq: 2, tau: 3, temp: 4, error: 0x7FF })
    );
}

#[test]
fn parse_feedback_needs_eight_bytes() {
    let m = robstride(0x01, 0xFD, true);
    let frame = Frame { id: FrameId::Extended(0x0200_01FD), data: vec![1, 2, 3, 4, 5, 6, 7] };
    assert_eq!(m.parse_frame(&frame), None);
}

#[test]
fn mit_command_read_back_by_feedback_decoder() {
    let m = robstride(0x01, 0xFD, true);
    let f = m.control_mit(7, 9, 0xBEEF, 0x0102, 3);
    let state = m.parse_frame(&f).unwrap();
    assert_eq!(state.q, 0xBEEF);
    assert_eq!(state.dq, 0x0102);
    assert_eq!(state.tau, 7);
    assert_eq!(state.temp, 9);
}
