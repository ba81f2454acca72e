use vstd::prelude::*;
use crate::frame::{
    extended_id_checked, frame_id_raw, standard_id_checked, Frame, FrameId, EXTENDED_ID_MAX,
    STANDARD_ID_MAX,
};
use crate::model::MotorModel;

verus! {

/// Communication type of the enable command.
pub const COMM_ENABLE: u32 = 0x3;

/// Communication type of the disable command.
pub const COMM_DISABLE: u32 = 0x4;

/// Communication type of the parameter-write command.
pub const COMM_SET_PARAM: u32 = 0x12;

/// Communication type of the MIT (impedance) control command.
pub const COMM_CONTROL_MIT: u32 = 0x1;

/// Parameter register that selects the run mode.
pub const RUN_MODE_REGISTER: u16 = 0x7005;

/// Mask of the identifier bits that carry the motor's fault and mode report.
pub const FEEDBACK_STATUS_MASK: u32 = 0x3F_FFFF;

/// Run modes a motor can be switched to through the run-mode register.
#[derive(Clone, Copy, Debug, PartialEq, Eq, Structural)]
pub enum RunMode {
    MoveControl,
    PPMode,
    VelMode,
    TauMode,
    SetZeroMode,
    CSPMode,
}

impl RunMode {
    /// The value written to the run-mode register for this mode.
    pub open spec fn spec_code(self) -> u32 {
        match self {
            RunMode::MoveControl => 0,
            RunMode::PPMode => 1,
            RunMode::VelMode => 2,
            RunMode::TauMode => 3,
            RunMode::SetZeroMode => 4,
            RunMode::CSPMode => 5,
        }
    }

    /// The value written to the run-mode register for this mode.
    pub fn code(self) -> (r: u32)
        ensures
            r == self.spec_code(),
    {
        match self {
            RunMode::MoveControl => 0,
            RunMode::PPMode => 1,
            RunMode::VelMode => 2,
            RunMode::TauMode => 3,
            RunMode::SetZeroMode => 4,
            RunMode::CSPMode => 5,
        }
    }
}

/// The raw extended identifier of a command: the target's CAN id in the low bits,
/// a 16-bit data field from bit 8, and the communication type from bit 24.
pub open spec fn extended_command_raw(comm: u32, field: u32, slave: u32) -> u32 {
    slave | (field << 8u32) | (comm << 24u32)
}

/// Two bytes read as a big-endian 16-bit number.
pub open spec fn be16(hi: u8, lo: u8) -> u16 {
    ((hi as u16) << 8u16) | (lo as u16)
}

/// The payload of the enable and disable commands.
pub open spec fn zero_payload() -> Seq<u8> {
    seq![0u8, 0u8, 0u8, 0u8, 0u8, 0u8, 0u8, 0u8]
}

/// The payload of a parameter write: the register little-endian in bytes 0..2,
/// two zero bytes, then the value little-endian in bytes 4..8.
pub open spec fn param_payload(reg: u16, value: u32) -> Seq<u8> {
    seq![
        (reg & 0xFF) as u8,
        ((reg >> 8u16) & 0xFF) as u8,
        0u8,
        0u8,
        (value & 0xFF) as u8,
        ((value >> 8u32) & 0xFF) as u8,
        ((value >> 16u32) & 0xFF) as u8,
        ((value >> 24u32) & 0xFF) as u8,
    ]
}

/// The payload of an MIT command: position, velocity, stiffness and damping,
/// each as a big-endian 16-bit number, in that order.
pub open spec fn mit_payload(q: u16, dq: u16, kp: u16, kd: u16) -> Seq<u8> {
    seq![
        ((q >> 8u16) & 0xFF) as u8,
        (q & 0xFF) as u8,
        ((dq >> 8u16) & 0xFF) as u8,
        (dq & 0xFF) as u8,
        ((kp >> 8u16) & 0xFF) as u8,
        (kp & 0xFF) as u8,
        ((kd >> 8u16) & 0xFF) as u8,
        (kd & 0xFF) as u8,
    ]
}

/// A motor's feedback as it arrives on the bus, before scaling to physical units:
/// the quantized position, velocity, torque and temperature, and the status bits
/// of the identifier.
#[derive(Clone, Copy, Debug, PartialEq, Eq, Structural)]
pub struct RawMotorState {
    pub q: u16,
    pub dq: u16,
    pub tau: u16,
    pub temp: u16,
    pub error: u32,
}

/// What a feedback frame with the given identifier and (at least 8) payload bytes reports.
pub open spec fn spec_feedback(id: FrameId, data: Seq<u8>) -> RawMotorState {
    RawMotorState {
        q: be16(data[0], data[1]),
        dq: be16(data[2], data[3]),
        tau: be16(data[4], data[5]),
        temp: be16(data[6], data[7]),
        error: frame_id_raw(id) & FEEDBACK_STATUS_MASK,
    }
}

/// A joint motor on a CAN bus: its joint, model and bus addresses.
#[derive(Debug)]
pub struct Motor {
    pub joint_name: String,
    pub model: MotorModel,
    /// The motor's own CAN id.
    pub slave_id: u32,
    /// The host id the motor answers to.
    pub master_id: u32,
    pub use_extended_id: bool,
}

impl Motor {
    pub fn new(
        joint_name: String,
        model: MotorModel,
        slave_id: u32,
        master_id: u32,
        use_extended_id: bool,
    ) -> (m: Motor)
        ensures
            m.joint_name == joint_name,
            m.model == model,
            m.slave_id == slave_id,
            m.master_id == master_id,
            m.use_extended_id == use_extended_id,
    {
        Motor { joint_name, model, slave_id, master_id, use_extended_id }
    }

    /// Whether a command of type `comm` with data field `field` has a valid
    /// identifier for this motor.
    pub open spec fn command_id_fits(self, comm: u32, field: u32) -> bool {
        if self.use_extended_id {
            extended_command_raw(comm, field, self.slave_id) <= EXTENDED_ID_MAX
        } else {
            (self.slave_id as u16) <= STANDARD_ID_MAX
        }
    }

    /// The identifier of a command of type `comm` with data field `field`: an
    /// extended identifier built from the type, the field and the motor's id, or
    /// the motor's id as a standard identifier.
    pub open spec fn spec_command_id(self, comm: u32, field: u32) -> FrameId {
        if self.use_extended_id {
            FrameId::Extended(extended_command_raw(comm, field, self.slave_id))
        } else {
            FrameId::Standard(self.slave_id as u16)
        }
    }

    /// Builds the identifier of a command; `None` where it is no valid CAN identifier.
    pub fn command_id(&self, comm: u32, field: u32) -> (r: Option<FrameId>)
        ensures
            r == (if self.command_id_fits(comm, field) {
                Some(self.spec_command_id(comm, field))
            } else {
                None::<FrameId>
            }),
    {
        if self.use_extended_id {
            let raw = self.slave_id | (field << 8u32) | (comm << 24u32);
            match extended_id_checked(raw) {
                Some(checked) => Some(FrameId::Extended(checked)),
                None => None,
            }
        } else {
            match standard_id_checked(self.slave_id as u16) {
                Some(checked) => Some(FrameId::Standard(checked)),
                None => None,
            }
        }
    }
}

/// A RobStride motor: builds the frames of its private protocol and reads its feedback.
/// Each command method returns the frame that the caller sends on the bus.
#[derive(Debug)]
pub struct MotorRS {
    pub motor: Motor,
}

impl MotorRS {
    /// Whether `f` is the command of type `comm`, data field `field` and payload
    /// `payload` addressed to this motor.
    pub open spec fn is_command(self, f: Frame, comm: u32, field: u32, payload: Seq<u8>) -> bool {
        &&& f.id == self.motor.spec_command_id(comm, field)
        &&& f.data@ == payload
    }

    fn command_frame(&self, comm: u32, field: u32, data: Vec<u8>) -> (f: Frame)
        requires
            self.motor.command_id_fits(comm, field),
        ensures
            f.id == self.motor.spec_command_id(comm, field),
            f.data == data,
    {
        match self.motor.command_id(comm, field) {
            Some(id) => Frame { id, data },
            // Unreachable: the identifier fits, so `command_id` gives `Some`.
            None => Frame { id: FrameId::Standard(0), data },
        }
    }

    /// The frame that enables the motor.
    pub fn enable(&self) -> (f: Frame)
        requires
            self.motor.command_id_fits(COMM_ENABLE, self.motor.master_id),
        ensures
            self.is_command(f, COMM_ENABLE, self.motor.master_id, zero_payload()),
            self.motor.use_extended_id ==> f.id == FrameId::Extended(
                self.motor.slave_id | (self.motor.master_id << 8u32) | (3u32 << 24u32),
            ),
            self.motor.use_extended_id && self.motor.slave_id <= 0xFF && self.motor.master_id <= 0xFFFF ==> f.id
                == FrameId::Extended((self.motor.slave_id + 0x100 * self.motor.master_id + 0x300_0000) as u32),
            !self.motor.use_extended_id ==> f.id == FrameId::Standard(self.motor.slave_id as u16),
            f.data@.len() == 8,
            forall|i: int| 0 <= i < 8 ==> #[trigger] f.data@[i] == 0,
    {
        proof {
            lemma_zero_payload();
            lemma_command_id_numeric(self.motor, COMM_ENABLE, self.motor.master_id);
        }
        let data: Vec<u8> = vec![0u8, 0u8, 0u8, 0u8, 0u8, 0u8, 0u8, 0u8];
        self.command_frame(COMM_ENABLE, self.motor.master_id, data)
    }

    /// The frame that disables the motor.
    pub fn disable(&self) -> (f: Frame)
        requires
            self.motor.command_id_fits(COMM_DISABLE, self.motor.master_id),
        ensures
            self.is_command(f, COMM_DISABLE, self.motor.master_id, zero_payload()),
            self.motor.use_extended_id ==> f.id == FrameId::Extended(
                self.motor.slave_id | (self.motor.master_id << 8u32) | (4u32 << 24u32),
            ),
            self.motor.use_extended_id && self.motor.slave_id <= 0xFF && self.motor.master_id <= 0xFFFF ==> f.id
                == FrameId::Extended((self.motor.slave_id + 0x100 * self.motor.master_id + 0x400_0000) as u32),
            !self.motor.use_extended_id ==> f.id == FrameId::Standard(self.motor.slave_id as u16),
            f.data@.len() == 8,
            forall|i: int| 0 <= i < 8 ==> #[trigger] f.data@[i] == 0,
    {
        proof {
            lemma_zero_payload();
            lemma_command_id_numeric(self.motor, COMM_DISABLE, self.motor.master_id);
        }
        let data: Vec<u8> = vec![0u8, 0u8, 0u8, 0u8, 0u8, 0u8, 0u8, 0u8];
        self.command_frame(COMM_DISABLE, self.motor.master_id, data)
    }

    /// The frame that writes `value` to parameter register `reg`.
    pub fn set_param(&self, reg: u16, value: u32) -> (f: Frame)
        requires
            self.motor.command_id_fits(COMM_SET_PARAM, self.motor.master_id),
        ensures
            self.is_command(f, COMM_SET_PARAM, self.motor.master_id, param_payload(reg, value)),
            f.data@[0] + 256 * f.data@[1] == reg,
            f.data@[4] + 0x100 * f.data@[5] + 0x1_0000 * f.data@[6] + 0x100_0000 * f.data@[7]
                == value,
            f.data@.len() == 8,
            f.data@[2] == 0,
            f.data@[3] == 0,
            self.motor.use_extended_id ==> f.id == FrameId::Extended(
                self.motor.slave_id | (self.motor.master_id << 8u32) | (0x12u32 << 24u32),
            ),
            self.motor.use_extended_id && self.motor.slave_id <= 0xFF && self.motor.master_id <= 0xFFFF ==> f.id
                == FrameId::Extended((self.motor.slave_id + 0x100 * self.motor.master_id + 0x1200_0000) as u32),
            !self.motor.use_extended_id ==> f.id == FrameId::Standard(self.motor.slave_id as u16),
    {
        proof {
            lemma_command_id_numeric(self.motor, COMM_SET_PARAM, self.motor.master_id);
        }
        let data: Vec<u8> = vec![
            (reg & 0xFF) as u8,
            ((reg >> 8u16) & 0xFF) as u8,
            0u8,
            0u8,
            (value & 0xFF) as u8,
            ((value >> 8u32) & 0xFF) as u8,
            ((value >> 16u32) & 0xFF) as u8,
            ((value >> 24u32) & 0xFF) as u8,
        ];
        proof {
            lemma_param_payload_decodes(reg, value);
        }
        self.command_frame(COMM_SET_PARAM, self.motor.master_id, data)
    }

    /// The frame that puts the motor into MIT (move control) mode.
    pub fn set_run_mode(&self) -> (f: Frame)
        requires
            self.motor.command_id_fits(COMM_SET_PARAM, self.motor.master_id),
        ensures
            self.is_command(
                f,
                COMM_SET_PARAM,
                self.motor.master_id,
                param_payload(RUN_MODE_REGISTER, RunMode::MoveControl.spec_code()),
            ),
            f.data@ == seq![0x05u8, 0x70u8, 0u8, 0u8, 0u8, 0u8, 0u8, 0u8],
            self.motor.use_extended_id ==> f.id == FrameId::Extended(
                self.motor.slave_id | (self.motor.master_id << 8u32) | (0x12u32 << 24u32),
            ),
    {
        self.set_param(RUN_MODE_REGISTER, RunMode::MoveControl.code())
    }

    /// The MIT control frame for quantized stiffness `kp`, damping `kd`, position `q`,
    /// velocity `dq` and feed-forward torque `tau`: the torque travels in the
    /// identifier's data field, the rest in the payload.
    pub fn control_mit(&self, kp: u16, kd: u16, q: u16, dq: u16, tau: u16) -> (f: Frame)
        requires
            self.motor.command_id_fits(COMM_CONTROL_MIT, tau as u32),
        ensures
            self.is_command(f, COMM_CONTROL_MIT, tau as u32, mit_payload(q, dq, kp, kd)),
            f.data@[0] * 256 + f.data@[1] == q,
            f.data@[2] * 256 + f.data@[3] == dq,
            f.data@[4] * 256 + f.data@[5] == kp,
            f.data@[6] * 256 + f.data@[7] == kd,
            f.data@.len() == 8,
            self.motor.use_extended_id ==> f.id == FrameId::Extended(
                self.motor.slave_id | ((tau as u32) << 8u32) | (1u32 << 24u32),
            ),
            self.motor.use_extended_id && self.motor.slave_id <= 0xFF ==> f.id
                == FrameId::Extended((self.motor.slave_id + 0x100 * tau + 0x100_0000) as u32),
            !self.motor.use_extended_id ==> f.id == FrameId::Standard(self.motor.slave_id as u16),
    {
        proof {
            lemma_command_id_numeric(self.motor, COMM_CONTROL_MIT, tau as u32);
        }
        let data: Vec<u8> = vec![
            ((q >> 8u16) & 0xFF) as u8,
            (q & 0xFF) as u8,
            ((dq >> 8u16) & 0xFF) as u8,
            (dq & 0xFF) as u8,
            ((kp >> 8u16) & 0xFF) as u8,
            (kp & 0xFF) as u8,
            ((kd >> 8u16) & 0xFF) as u8,
            (kd & 0xFF) as u8,
        ];
        proof {
            lemma_mit_payload_feedback_slots(q, dq, kp, kd);
        }
        self.command_frame(COMM_CONTROL_MIT, tau as u32, data)
    }

    /// Reads a feedback frame: `None` when the payload is shorter than 8 bytes,
    /// otherwise the four big-endian quantities and the identifier's status bits.
    pub fn parse_frame(&self, frame: &Frame) -> (r: Option<RawMotorState>)
        ensures
            r == (if frame.data@.len() < 8 {
                None::<RawMotorState>
            } else {
                Some(spec_feedback(frame.id, frame.data@))
            }),
            r matches Some(st) ==> {
                &&& st.q == frame.data@[0] * 256 + frame.data@[1]
                &&& st.dq == frame.data@[2] * 256 + frame.data@[3]
                &&& st.tau == frame.data@[4] * 256 + frame.data@[5]
                &&& st.temp == frame.data@[6] * 256 + frame.data@[7]
            },
            r is Some <==> frame.data@.len() >= 8,
            r matches Some(st) ==> (frame.id matches FrameId::Extended(raw) ==> st.error == raw
                % 0x40_0000),
            r matches Some(st) ==> (frame.id matches FrameId::Standard(raw) ==> st.error == raw),
    {
        let data = &frame.data;
        let raw_id: u32 = match frame.id {
            FrameId::Standard(raw) => match extended_id_checked(raw as u32) {
                Some(checked) => checked,
                // Unreachable: every standard identifier is a valid extended one.
                None => 0,
            },
            FrameId::Extended(raw) => raw,
        };
        if data.len() < 8 {
            return None;
        }
        proof {
            lemma_feedback_layout(frame.id, data@);
            lemma_be16_value(data@[0], data@[1]);
            lemma_be16_value(data@[2], data@[3]);
            lemma_be16_value(data@[4], data@[5]);
            lemma_be16_value(data@[6], data@[7]);
        }
        let q = ((data[0] as u16) << 8u16) | (data[1] as u16);
        let dq = ((data[2] as u16) << 8u16) | (data[3] as u16);
        let tau = ((data[4] as u16) << 8u16) | (data[5] as u16);
        let temp = ((data[6] as u16) << 8u16) | (data[7] as u16);
        Some(RawMotorState { q, dq, tau, temp, error: raw_id & FEEDBACK_STATUS_MASK })
    }
}

/// A parameter write carries its register and value losslessly: the little-endian
/// bytes of the payload add up to them again.
pub proof fn lemma_param_payload_decodes(reg: u16, value: u32)
    ensures
        param_payload(reg, value).len() == 8,
        param_payload(reg, value)[2] == 0,
        param_payload(reg, value)[3] == 0,
        param_payload(reg, value)[0] + 256 * param_payload(reg, value)[1] == reg,
        param_payload(reg, value)[4] + 0x100 * param_payload(reg, value)[5] + 0x1_0000
            * param_payload(reg, value)[6] + 0x100_0000 * param_payload(reg, value)[7] == value,
{
    let p = param_payload(reg, value);
    assert(((reg & 0xFF) as u8) + 256 * (((reg >> 8u16) & 0xFF) as u8) == reg) by (bit_vector);
    assert(((value & 0xFF) as u8) + 0x100 * (((value >> 8u32) & 0xFF) as u8) + 0x1_0000 * ((
    (value >> 16u32) & 0xFF) as u8) + 0x100_0000 * (((value >> 24u32) & 0xFF) as u8) == value)
        by (bit_vector);
}

/// The MIT command and the feedback decoder share their byte layout: each 16-bit
/// quantity packed into an MIT payload is read back unchanged from the same two
/// bytes, so `q` and `dq` return in the feedback's position and velocity slots.
pub proof fn lemma_mit_payload_feedback_slots(q: u16, dq: u16, kp: u16, kd: u16)
    ensures
        mit_payload(q, dq, kp, kd).len() == 8,
        be16(mit_payload(q, dq, kp, kd)[0], mit_payload(q, dq, kp, kd)[1]) == q,
        be16(mit_payload(q, dq, kp, kd)[2], mit_payload(q, dq, kp, kd)[3]) == dq,
        be16(mit_payload(q, dq, kp, kd)[4], mit_payload(q, dq, kp, kd)[5]) == kp,
        be16(mit_payload(q, dq, kp, kd)[6], mit_payload(q, dq, kp, kd)[7]) == kd,
        mit_payload(q, dq, kp, kd)[0] * 256 + mit_payload(q, dq, kp, kd)[1] == q,
        mit_payload(q, dq, kp, kd)[2] * 256 + mit_payload(q, dq, kp, kd)[3] == dq,
        mit_payload(q, dq, kp, kd)[4] * 256 + mit_payload(q, dq, kp, kd)[5] == kp,
        mit_payload(q, dq, kp, kd)[6] * 256 + mit_payload(q, dq, kp, kd)[7] == kd,
{
    lemma_be16_split(q);
    lemma_be16_split(dq);
    lemma_be16_split(kp);
    lemma_be16_split(kd);
}

/// Splitting a 16-bit number into its high and low byte and joining them again
/// gives the number back.
pub proof fn lemma_be16_split(x: u16)
    ensures
        be16(((x >> 8u16) & 0xFF) as u8, (x & 0xFF) as u8) == x,
        (((x >> 8u16) & 0xFF) as u8) * 256 + ((x & 0xFF) as u8) == x,
{
    assert(((((((x >> 8u16) & 0xFF) as u8) as u16) << 8u16) | ((((x & 0xFF) as u8) as u16)))
        == x) by (bit_vector);
    assert((((x >> 8u16) & 0xFF) as u8) * 256 + ((x & 0xFF) as u8) == x) by (bit_vector);
}

/// Two bytes joined big-endian give `256 * hi + lo`.
pub proof fn lemma_be16_value(hi: u8, lo: u8)
    ensures
        be16(hi, lo) == hi * 256 + lo,
{
    assert((((hi as u16) << 8u16) | (lo as u16)) == hi * 256 + lo) by (bit_vector);
}

/// With a one-byte motor id, a 16-bit data field and a 5-bit communication type, a
/// command's extended identifier is valid and carries each part in its own bits:
/// the motor id in bits 0..8, the data field in bits 8..24, the type from bit 24.
pub proof fn lemma_command_id_fields(comm: u32, field: u32, slave: u32)
    requires
        comm <= 0x1F,
        field <= 0xFFFF,
        slave <= 0xFF,
    ensures
        extended_command_raw(comm, field, slave) <= EXTENDED_ID_MAX,
        extended_command_raw(comm, field, slave) == slave + 0x100 * field + 0x100_0000 * comm,
        extended_command_raw(comm, field, slave) & 0xFF == slave,
        (extended_command_raw(comm, field, slave) >> 8u32) & 0xFFFF == field,
        extended_command_raw(comm, field, slave) >> 24u32 == comm,
{
    assert(comm <= 0x1F && field <= 0xFFFF && slave <= 0xFF ==> {
        &&& (slave | (field << 8u32) | (comm << 24u32)) <= 0x1FFF_FFFF
        &&& (slave | (field << 8u32) | (comm << 24u32)) == slave + 0x100 * field + 0x100_0000 * comm
        &&& (slave | (field << 8u32) | (comm << 24u32)) & 0xFF == slave
        &&& ((slave | (field << 8u32) | (comm << 24u32)) >> 8u32) & 0xFFFF == field
        &&& (slave | (field << 8u32) | (comm << 24u32)) >> 24u32 == comm
    }) by (bit_vector);
}

/// The enable and disable payloads are eight zero bytes.
pub proof fn lemma_zero_payload()
    ensures
        zero_payload().len() == 8,
        forall|i: int| 0 <= i < 8 ==> #[trigger] zero_payload()[i] == 0,
{
}

/// A feedback frame reports the low 22 bits of its identifier (the host id, the
/// motor id and the fault bits 16..22) as its status, and each quantity as the
/// big-endian number of its two bytes.
pub proof fn lemma_feedback_layout(id: FrameId, data: Seq<u8>)
    requires
        data.len() >= 8,
    ensures
        spec_feedback(id, data).q == data[0] * 256 + data[1],
        spec_feedback(id, data).dq == data[2] * 256 + data[3],
        spec_feedback(id, data).tau == data[4] * 256 + data[5],
        spec_feedback(id, data).temp == data[6] * 256 + data[7],
        id matches FrameId::Extended(raw) ==> spec_feedback(id, data).error == raw % 0x40_0000,
        id matches FrameId::Standard(raw) ==> spec_feedback(id, data).error == raw,
{
    lemma_be16_value(data[0], data[1]);
    lemma_be16_value(data[2], data[3]);
    lemma_be16_value(data[4], data[5]);
    lemma_be16_value(data[6], data[7]);
    match id {
        FrameId::Extended(raw) => {
            assert(raw & 0x3F_FFFF == raw % 0x40_0000) by (bit_vector);
        },
        FrameId::Standard(raw) => {
            assert((raw as u32) & 0x3F_FFFF == raw) by (bit_vector);
        },
    }
}

/// With extended identifiers, every command of type `comm` and data field `field`
/// to a motor with a one-byte id is addressed by the number
/// `slave_id + 0x100 * field + 0x100_0000 * comm`, for every 16-bit field and 5-bit
/// type; with standard identifiers, by the motor's id itself.
pub proof fn lemma_command_id_numeric(m: Motor, comm: u32, field: u32)
    ensures
        m.use_extended_id ==> m.spec_command_id(comm, field) == FrameId::Extended(
            m.slave_id | (field << 8u32) | (comm << 24u32),
        ),
        m.use_extended_id && m.slave_id <= 0xFF && field <= 0xFFFF && comm <= 0x1F ==> {
            &&& m.command_id_fits(comm, field)
            &&& m.spec_command_id(comm, field) == FrameId::Extended(
                (m.slave_id + 0x100 * field + 0x100_0000 * comm) as u32,
            )
        },
        !m.use_extended_id ==> m.spec_command_id(comm, field) == FrameId::Standard(
            m.slave_id as u16,
        ),
        !m.use_extended_id && m.slave_id <= 0x7FF ==> {
            &&& m.command_id_fits(comm, field)
            &&& m.spec_command_id(comm, field) matches FrameId::Standard(raw)
            &&& raw == m.slave_id
        },
{
    if m.use_extended_id && m.slave_id <= 0xFF && field <= 0xFFFF && comm <= 0x1F {
        lemma_command_id_fields(comm, field, m.slave_id);
    }
    let slave = m.slave_id;
    assert(slave <= 0x7FF ==> (slave as u16) == slave && (slave as u16) <= 0x7FF) by (bit_vector);
}

} // verus!
