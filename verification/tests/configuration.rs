use leg_motors::config::{
    find_motor, joint_transforms, resolve_motor_specs, ConfigError, LegDef, MotorDef, MotorEntry,
};
use leg_motors::model::{string_to_motor_type, MotorModel};

fn entry(name: &str, motor_type: &str, slave_id: u32, master_id: u32) -> MotorEntry {
    MotorEntry {
        name: name.to_string(),
        def: MotorDef { motor_type: motor_type.to_string(), slave_id, master_id },
    }
}

fn leg(motors: &[&str], directions: Vec<i32>, zero: usize, sign: i32) -> LegDef {
    LegDef {
        name: "front_left".to_string(),
        can_port: "can0".to_string(),
        motors: motors.iter().map(|s| s.to_string()).collect(),
        directions,
        zero_position_indices: zero,
        zero_position_sign: sign,
    }
}

#[test]
fn every_motor_type_name_is_read() {
    let table = [
        ("DM4310", MotorModel::DM4310),
        ("DM4310_48V", MotorModel::DM4310_48V),
        ("DM4340", MotorModel::DM4340),
        ("DM4340_48V", MotorModel::DM4340_48V),
        ("DM6006", MotorModel::DM6006),
        ("DM8006", MotorModel::DM8006),
        ("DM8009", MotorModel::DM8009),
        ("DM10010L", MotorModel::DM10010L),
        ("DM10010", MotorModel::DM10010),
        ("DMH3510", MotorModel::DMH3510),
        ("DMH6215", MotorModel::DMH6215),
        ("DMG6220", MotorModel::DMG6220),
        ("RS00", MotorModel::RS00),
        ("RS01", MotorModel::RS01),
        ("RS02", MotorModel::RS02),
        ("RS03", MotorModel::RS03),
        ("RS04", MotorModel::RS04),
        ("RS05", MotorModel::RS05),
        ("RS06", MotorModel::RS06),
    ];
    for (name, model) in table {
        assert_eq!(string_to_motor_type(name), Ok(model));
    }
}

#[test]
fn unknown_motor_type_is_reported() {
    assert_eq!(string_to_motor_type("RS07"), Err("RS07".to_string()));
    assert_eq!(string_to_motor_type("dm4310"), Err("dm4310".to_string()));
    assert_eq!(string_to_motor_type(""), Err(String::new()));
}

#[test]
fn find_motor_takes_the_first_match() {
    let entries = vec![entry("hip", "RS03", 1, 0xFD), entry("knee", "RS04", 2, 0xFD), entry("hip", "RS00", 9, 9)];
    assert_eq!(find_motor(&entries, &"hip".to_string()), Some(0));
    assert_eq!(find_motor(&entries, &"knee".to_string()), Some(1));
    assert_eq!(find_motor(&entries, &"ankle".to_string()), None);
}

#[test]
fn resolve_leg_motors_in_order() {
    let entries = vec![entry("hip", "RS03", 1, 0xFD), entry("knee", "DM8009", 2, 0xFE)];
    let l = leg(&["knee", "hip"], vec![1, -1], 0, 1);
    let specs = resolve_motor_specs(&l, &entries).unwrap();
    assert_eq!(specs.len(), 2);
    assert_eq!(specs[0].joint_name, "knee");
    assert_eq!(specs[0].model, MotorModel::DM8009);
    assert_eq!((specs[0].slave_id, specs[0].master_id), (2, 0xFE));
    assert_eq!(specs[1].joint_name, "hip");
    assert_eq!(specs[1].model, MotorModel::RS03);
    assert_eq!((specs[1].slave_id, specs[1].master_id), (1, 0xFD));
}

#[test]
fn resolve_reports_missing_motor() {
    let entries = vec![entry("hip", "RS03", 1, 0xFD)];
    let l = leg(&["hip", "ankle"], vec![1, 1], 0, 1);
    match resolve_motor_specs(&l, &entries) {
        Err(ConfigError::MotorNotFound(name)) => assert_eq!(name, "ankle"),
        other => panic!("unexpected {:?}", other),
    }
}

#[test]
fn resolve_reports_unknown_type() {
    let entries = vec![entry("hip", "XX99", 1, 0xFD), entry("knee", "RS03", 2, 0xFD)];
    let l = leg(&["knee", "hip"], vec![1, 1], 0, 1);
    match resolve_motor_specs(&l, &entries) {
        Err(ConfigError::UnknownMotorType(t)) => assert_eq!(t, "XX99"),
        other => panic!("unexpected {:?}", other),
    }
}

#[test]
fn resolve_reports_the_first_failure() {
    let entries = vec![entry("hip", "XX99", 1, 0xFD)];
    let l = leg(&["ankle", "hip"], vec![1, 1], 0, 1);
    match resolve_motor_specs(&l, &entries) {
        Err(ConfigError::MotorNotFound(name)) => assert_eq!(name, "ankle"),
        other => panic!("unexpected {:?}", other),
    }
}

#[test]
fn resolve_empty_leg() {
    let l = leg(&[], vec![], 0, 1);
    assert_eq!(resolve_motor_specs(&l, &vec![]).unwrap().len(), 0);
}

#[test]
fn joint_transforms_mark_the_zero_joint() {
    let l = leg(&["hip", "thigh", "knee"], vec![1, -1, 1, 7], 1, -1);
    let t = joint_transforms(&l);
    assert_eq!(t.len(), 3);
    assert_eq!(t[0].joint_name, "hip");
    assert_eq!(t[1].joint_name, "thigh");
    assert_eq!(t[2].joint_name, "knee");
    assert_eq!(t.iter().map(|j| j.direction).collect::<Vec<_>>(), vec![1, -1, 1]);
    assert_eq!(t.iter().map(|j| j.is_zero_index).collect::<Vec<_>>(), vec![false, true, false]);
    assert!(t.iter().all(|j| j.zero_position_sign == -1));
}

#[test]
fn joint_transforms_without_zero_joint() {
    let l = leg(&["hip", "knee"], vec![1, 1], 5, 1);
    let t = joint_transforms(&l);
    assert!(t.iter().all(|j| !j.is_zero_index));
}
