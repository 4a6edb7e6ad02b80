use vstd::prelude::*;

verus! {

/// Bus address of the ICM20608 on I2C3.
pub const ICM20608_ADDR: u8 = 0x68;
/// Identity register.
pub const ICM20608_WHO_AM_I_REG: u8 = 0x75;
/// What the identity register of an ICM20608-D holds.
pub const ICM20608D_WHO_AM_I: u8 = 0xAE;
/// Power management 1: clock source and sleep.
pub const ICM20608_PWR_MGMT1_REG: u8 = 0x6B;
/// Power management 2: per-axis standby.
pub const ICM20608_PWR_MGMT2_REG: u8 = 0x6C;
/// Gyroscope configuration: full-scale range in bits 4..3.
pub const ICM20608_GYRO_CONFIG_REG: u8 = 0x1B;
/// Accelerometer configuration: full-scale range in bits 4..3.
pub const ICM20608_ACCEL_CONFIG1_REG: u8 = 0x1C;
/// Accelerometer configuration 2: filtering.
pub const ICM20608_ACCEL_CONFIG2_REG: u8 = 0x1D;
/// First of the six gyroscope output registers.
pub const MPU6XXX_RA_GYRO_XOUT_H: u8 = 0x43;
/// First of the six accelerometer output registers.
pub const MPU6XXX_RA_ACCEL_XOUT_H: u8 = 0x3B;
/// Pause between two motion samples.
pub const SAMPLE_PERIOD_MS: u32 = 300;
/// Number of bus operations that configure the sensor.
pub const SETUP_LEN: u8 = 16;

/// How a register value that was read is changed before it is written back.
#[derive(Clone, Copy, Debug, PartialEq, Eq, Structural)]
pub enum Edit {
    /// The value as read.
    Keep,
    /// The value with the bits of the mask set.
    SetBits(u8),
    /// The value with only the bits of the mask kept.
    KeepBits(u8),
}

/// What a configuring write puts into its register.
#[derive(Clone, Copy, Debug, PartialEq, Eq, Structural)]
pub enum WriteValue {
    /// The value read just before, after its edit.
    Edited,
    /// Zero.
    Zero,
}

/// One bus operation of the configuration sequence.
#[derive(Clone, Copy, Debug, PartialEq, Eq, Structural)]
pub enum SetupOp {
    /// Read the identity register and report it.
    CheckId,
    /// Read a register, report it, and keep its edited value for a later write.
    Read { reg: u8, edit: Edit },
    /// Write a register.
    Write { reg: u8, value: WriteValue },
}

/// The configuration sequence: wake the sensor with the PLL as clock,
/// enable all six axes, select the smallest full-scale ranges, clear the
/// accelerometer filter settings and leave sleep mode, reading back each
/// register that is changed.
pub open spec fn setup_op(k: int) -> SetupOp {
    if k == 0 {
        SetupOp::CheckId
    } else if k == 1 {
        SetupOp::Read { reg: ICM20608_PWR_MGMT1_REG, edit: Edit::SetBits(0x04) }
    } else if k == 2 {
        SetupOp::Write { reg: ICM20608_PWR_MGMT1_REG, value: WriteValue::Edited }
    } else if k == 3 {
        SetupOp::Read { reg: ICM20608_PWR_MGMT1_REG, edit: Edit::Keep }
    } else if k == 4 {
        SetupOp::Read { reg: ICM20608_PWR_MGMT2_REG, edit: Edit::Keep }
    } else if k == 5 {
        SetupOp::Write { reg: ICM20608_PWR_MGMT2_REG, value: WriteValue::Zero }
    } else if k == 6 {
        SetupOp::Read { reg: ICM20608_PWR_MGMT2_REG, edit: Edit::Keep }
    } else if k == 7 {
        SetupOp::Read { reg: ICM20608_GYRO_CONFIG_REG, edit: Edit::KeepBits(0xE7) }
    } else if k == 8 {
        SetupOp::Write { reg: ICM20608_GYRO_CONFIG_REG, value: WriteValue::Edited }
    } else if k == 9 {
        SetupOp::Read { reg: ICM20608_ACCEL_CONFIG1_REG, edit: Edit::KeepBits(0xE7) }
    } else if k == 10 {
        SetupOp::Write { reg: ICM20608_ACCEL_CONFIG1_REG, value: WriteValue::Edited }
    } else if k == 11 {
        SetupOp::Read { reg: ICM20608_ACCEL_CONFIG2_REG, edit: Edit::Keep }
    } else if k == 12 {
        SetupOp::Write { reg: ICM20608_ACCEL_CONFIG2_REG, value: WriteValue::Zero }
    } else if k == 13 {
        SetupOp::Read { reg: ICM20608_PWR_MGMT1_REG, edit: Edit::KeepBits(0xBF) }
    } else if k == 14 {
        SetupOp::Write { reg: ICM20608_PWR_MGMT1_REG, value: WriteValue::Edited }
    } else {
        SetupOp::Read { reg: ICM20608_PWR_MGMT1_REG, edit: Edit::Keep }
    }
}

/// The configuration operation number `k`.
pub fn setup_op_at(k: u8) -> (op: SetupOp)
    requires
        k < SETUP_LEN,
    ensures
        op == setup_op(k as int),
{
    let pwr1: u8 = ICM20608_PWR_MGMT1_REG;
    let pwr2: u8 = ICM20608_PWR_MGMT2_REG;
    match k {
        0 => SetupOp::CheckId,
        1 => SetupOp::Read { reg: pwr1, edit: Edit::SetBits(0x04) },
        2 => SetupOp::Write { reg: pwr1, value: WriteValue::Edited },
        3 => SetupOp::Read { reg: pwr1, edit: Edit::Keep },
        4 => SetupOp::Read { reg: pwr2, edit: Edit::Keep },
        5 => SetupOp::Write { reg: pwr2, value: WriteValue::Zero },
        6 => SetupOp::Read { reg: pwr2, edit: Edit::Keep },
        7 => SetupOp::Read { reg: ICM20608_GYRO_CONFIG_REG, edit: Edit::KeepBits(0xE7) },
        8 => SetupOp::Write { reg: ICM20608_GYRO_CONFIG_REG, value: WriteValue::Edited },
        9 => SetupOp::Read { reg: ICM20608_ACCEL_CONFIG1_REG, edit: Edit::KeepBits(0xE7) },
        10 => SetupOp::Write { reg: ICM20608_ACCEL_CONFIG1_REG, value: WriteValue::Edited },
        11 => SetupOp::Read { reg: ICM20608_ACCEL_CONFIG2_REG, edit: Edit::Keep },
        12 => SetupOp::Write { reg: ICM20608_ACCEL_CONFIG2_REG, value: WriteValue::Zero },
        13 => SetupOp::Read { reg: pwr1, edit: Edit::KeepBits(0xBF) },
        14 => SetupOp::Write { reg: pwr1, value: WriteValue::Edited },
        _ => SetupOp::Read { reg: pwr1, edit: Edit::Keep },
    }
}

/// The value `v` after `edit`.
pub open spec fn edited(edit: Edit, v: u8) -> u8 {
    match edit {
        Edit::Keep => v,
        Edit::SetBits(m) => v | m,
        Edit::KeepBits(m) => v & m,
    }
}

/// Applies `edit` to the register value `v`.
pub fn apply_edit(edit: Edit, v: u8) -> (r: u8)
    ensures
        r == edited(edit, v),
{
    match edit {
        Edit::Keep => v,
        Edit::SetBits(m) => v | m,
        Edit::KeepBits(m) => v & m,
    }
}

/// The value of a big-endian two's complement 16-bit word.
pub open spec fn be_value(hi: u8, lo: u8) -> int {
    if hi < 128 {
        hi * 256 + lo
    } else {
        hi * 256 + lo - 65536
    }
}

/// Decodes the big-endian signed 16-bit word `hi`, `lo`.
pub fn be_i16(hi: u8, lo: u8) -> (v: i16)
    ensures
        v as int == be_value(hi, lo),
{
    let raw: u16 = ((hi as u16) << 8u16) | (lo as u16);
    assert(raw == hi as u16 * 256 + lo as u16) by (bit_vector)
        requires
            raw == ((hi as u16) << 8u16) | (lo as u16),
    ;
    let v: i16 = raw as i16;
    assert(v as int == (if raw < 0x8000 { raw as int } else { raw as int - 0x10000 })) by (bit_vector)
        requires
            v == raw as i16,
    ;
    v
}

} // verus!

verus! {

/// Three signed axis readings.
#[derive(Clone, Copy, Debug, PartialEq, Eq, Structural)]
pub struct Axes {
    pub x: i16,
    pub y: i16,
    pub z: i16,
}

/// One reading of the accelerometer and the gyroscope.
#[derive(Clone, Copy, Debug, PartialEq, Eq, Structural)]
pub struct MotionSample {
    pub accel: Axes,
    pub gyro: Axes,
}

/// The axes held by six output registers, each axis a big-endian word.
pub open spec fn axes_of(d: Seq<u8>) -> Axes {
    Axes {
        x: be_value(d[0], d[1]) as i16,
        y: be_value(d[2], d[3]) as i16,
        z: be_value(d[4], d[5]) as i16,
    }
}

/// Decodes the six output registers `d` into three axes.
pub fn decode_axes(d: &[u8]) -> (a: Axes)
    requires
        d@.len() == 6,
    ensures
        a == axes_of(d@),
{
    Axes { x: be_i16(d[0], d[1]), y: be_i16(d[2], d[3]), z: be_i16(d[4], d[5]) }
}

/// Where the driver stands.
#[derive(Clone, Copy, Debug, PartialEq, Eq, Structural)]
pub enum Phase {
    /// About to run configuration operation number `k`.
    Setup(u8),
    /// About to read the accelerometer outputs.
    ReadAccel,
    /// About to read the gyroscope outputs.
    ReadGyro,
    /// Waiting before the next sample.
    Pause,
    /// Stopped after a failed transaction.
    Halted,
}

/// The state of the driver as the contracts see it.
#[derive(Clone, Copy, Debug, PartialEq, Eq, Structural)]
pub struct IcmState {
    pub phase: Phase,
    /// The edited value of the register read last during configuration.
    pub edited: u8,
    /// The accelerometer reading of the sample under way.
    pub accel: Axes,
}

impl IcmState {
    pub open spec fn wf(self) -> bool {
        self.phase matches Phase::Setup(k) ==> k < SETUP_LEN
    }
}

/// What the driver asks the firmware to do next.
#[derive(Clone, Copy, Debug, PartialEq, Eq, Structural)]
pub enum I2cRequest {
    /// Write `reg` to the device at `addr`, then read `len` bytes.
    Read { addr: u8, reg: u8, len: usize },
    /// Write `reg` and then `value` to the device at `addr`.
    Write { addr: u8, reg: u8, value: u8 },
    /// Wait `ms` milliseconds.
    Delay { ms: u32 },
    /// Stop: a transaction failed.
    Halt,
}

/// How the last request went.
#[derive(Debug, PartialEq, Eq)]
pub enum I2cReply {
    /// A read completed with these bytes.
    Data(Vec<u8>),
    /// A write completed.
    Written,
    /// A delay ran out.
    Elapsed,
    /// The bus reported an error.
    Failed,
}

/// What the driver has to report.
#[derive(Clone, Copy, Debug, PartialEq, Eq, Structural)]
pub enum IcmReport {
    /// The identity register, and whether it is that of an ICM20608-D.
    ChipId { id: u8, expected: bool },
    /// A register read during configuration.
    Register { reg: u8, value: u8 },
    /// A motion sample.
    Motion(MotionSample),
}

/// The phase after configuration operation `k`.
pub open spec fn after_setup(k: u8) -> Phase {
    if k + 1 < SETUP_LEN {
        Phase::Setup((k + 1) as u8)
    } else {
        Phase::ReadAccel
    }
}

/// What a configuring write puts into its register when `edited` is the kept value.
pub open spec fn written_value(value: WriteValue, edited: u8) -> u8 {
    match value {
        WriteValue::Edited => edited,
        WriteValue::Zero => 0,
    }
}

/// The request that the driver makes in state `s`.
pub open spec fn request_of(s: IcmState) -> I2cRequest {
    match s.phase {
        Phase::Setup(k) => match setup_op(k as int) {
            SetupOp::CheckId => I2cRequest::Read { addr: ICM20608_ADDR, reg: ICM20608_WHO_AM_I_REG, len: 1 },
            SetupOp::Read { reg, edit } => I2cRequest::Read { addr: ICM20608_ADDR, reg: reg, len: 1 },
            SetupOp::Write { reg, value } => I2cRequest::Write {
                addr: ICM20608_ADDR,
                reg: reg,
                value: written_value(value, s.edited),
            },
        },
        Phase::ReadAccel => I2cRequest::Read { addr: ICM20608_ADDR, reg: MPU6XXX_RA_ACCEL_XOUT_H, len: 6 },
        Phase::ReadGyro => I2cRequest::Read { addr: ICM20608_ADDR, reg: MPU6XXX_RA_GYRO_XOUT_H, len: 6 },
        Phase::Pause => I2cRequest::Delay { ms: SAMPLE_PERIOD_MS },
        Phase::Halted => I2cRequest::Halt,
    }
}

/// Whether `reply` is a read of exactly `len` bytes.
pub open spec fn is_data(reply: I2cReply, len: nat) -> bool {
    reply matches I2cReply::Data(d) && d@.len() == len
}

/// The bytes of a read reply.
pub open spec fn data_of(reply: I2cReply) -> Seq<u8> {
    match reply {
        I2cReply::Data(d) => d@,
        _ => Seq::empty(),
    }
}

/// State `s` stopped after a failed or unexpected reply.
pub open spec fn halted(s: IcmState) -> (IcmState, Seq<IcmReport>) {
    (IcmState { phase: Phase::Halted, ..s }, Seq::empty())
}

/// The next state and the reports when the request of state `s` is answered by `reply`.
/// A reply of another kind than the request, or a read of another length, counts as a failure.
pub open spec fn transition(s: IcmState, reply: I2cReply) -> (IcmState, Seq<IcmReport>) {
    match s.phase {
        Phase::Setup(k) => match setup_op(k as int) {
            SetupOp::CheckId => if is_data(reply, 1) {
                let id: u8 = data_of(reply)[0];
                (
                    IcmState { phase: after_setup(k), ..s },
                    seq![IcmReport::ChipId { id: id, expected: id == ICM20608D_WHO_AM_I }],
                )
            } else {
                halted(s)
            },
            SetupOp::Read { reg, edit } => if is_data(reply, 1) {
                let v: u8 = data_of(reply)[0];
                (
                    IcmState { phase: after_setup(k), edited: edited(edit, v), ..s },
                    seq![IcmReport::Register { reg: reg, value: v }],
                )
            } else {
                halted(s)
            },
            SetupOp::Write { reg, value } => if reply is Written {
                (IcmState { phase: after_setup(k), ..s }, Seq::empty())
            } else {
                halted(s)
            },
        },
        Phase::ReadAccel => if is_data(reply, 6) {
            (IcmState { phase: Phase::ReadGyro, accel: axes_of(data_of(reply)), ..s }, Seq::empty())
        } else {
            halted(s)
        },
        Phase::ReadGyro => if is_data(reply, 6) {
            (
                IcmState { phase: Phase::Pause, ..s },
                seq![IcmReport::Motion(MotionSample { accel: s.accel, gyro: axes_of(data_of(reply)) })],
            )
        } else {
            halted(s)
        },
        Phase::Pause => if reply is Elapsed {
            (IcmState { phase: Phase::ReadAccel, ..s }, Seq::empty())
        } else {
            halted(s)
        },
        Phase::Halted => (s, Seq::empty()),
    }
}

/// The ICM20608 driver: configures the sensor, then samples it every
/// `SAMPLE_PERIOD_MS` milliseconds.
pub struct Icm20608 {
    state: IcmState,
}

impl View for Icm20608 {
    type V = IcmState;

    closed spec fn view(&self) -> IcmState {
        self.state
    }
}

impl Icm20608 {
    #[verifier::type_invariant]
    spec fn state_wf(&self) -> bool {
        self.state.wf()
    }

    /// A driver about to read the identity register.
    pub fn new() -> (d: Icm20608)
        ensures
            d@.wf(),
            d@.phase == Phase::Setup(0),
            d@.edited == 0,
            d@.accel == (Axes { x: 0, y: 0, z: 0 }),
    {
        Icm20608 { state: IcmState { phase: Phase::Setup(0), edited: 0, accel: Axes { x: 0, y: 0, z: 0 } } }
    }

    /// Where the driver stands.
    pub fn phase(&self) -> (p: Phase)
        ensures
            p == self@.phase,
    {
        self.state.phase
    }

    /// The request that the firmware is to carry out next.
    pub fn request(&self) -> (r: I2cRequest)
        ensures
            self@.wf(),
            r == request_of(self@),
    {
        proof { use_type_invariant(self); }
        match self.state.phase {
            Phase::Setup(k) => match setup_op_at(k) {
                SetupOp::CheckId => I2cRequest::Read { addr: ICM20608_ADDR, reg: ICM20608_WHO_AM_I_REG, len: 1 },
                SetupOp::Read { reg, edit } => I2cRequest::Read { addr: ICM20608_ADDR, reg: reg, len: 1 },
                SetupOp::Write { reg, value } => {
                    let v: u8 = match value {
                        WriteValue::Edited => self.state.edited,
                        WriteValue::Zero => 0,
                    };
                    I2cRequest::Write { addr: ICM20608_ADDR, reg: reg, value: v }
                },
            },
            Phase::ReadAccel => I2cRequest::Read { addr: ICM20608_ADDR, reg: MPU6XXX_RA_ACCEL_XOUT_H, len: 6 },
            Phase::ReadGyro => I2cRequest::Read { addr: ICM20608_ADDR, reg: MPU6XXX_RA_GYRO_XOUT_H, len: 6 },
            Phase::Pause => I2cRequest::Delay { ms: SAMPLE_PERIOD_MS },
            Phase::Halted => I2cRequest::Halt,
        }
    }

    fn halt(&mut self) -> (reports: Vec<IcmReport>)
        ensures
            final(self)@.wf(),
            final(self)@ == halted(old(self)@).0,
            reports@ == halted(old(self)@).1,
    {
        self.state = IcmState { phase: Phase::Halted, ..self.state };
        Vec::new()
    }

    fn next_setup_phase(k: u8) -> (p: Phase)
        requires
            k < SETUP_LEN,
        ensures
            p == after_setup(k),
    {
        if k + 1 < SETUP_LEN {
            Phase::Setup(k + 1)
        } else {
            Phase::ReadAccel
        }
    }

    /// Takes the outcome of the last request and returns what is to be reported.
    pub fn on_reply(&mut self, reply: I2cReply) -> (reports: Vec<IcmReport>)
        ensures
            old(self)@.wf(),
            final(self)@.wf(),
            final(self)@ == transition(old(self)@, reply).0,
            reports@ == transition(old(self)@, reply).1,
    {
        proof { use_type_invariant(&*self); }
        match self.state.phase {
            Phase::Setup(k) => {
                let next = Self::next_setup_phase(k);
                match setup_op_at(k) {
                    SetupOp::CheckId => match reply {
                        I2cReply::Data(d) if d.len() == 1 => {
                            let id: u8 = d[0];
                            self.state = IcmState { phase: next, ..self.state };
                            let mut reports = Vec::new();
                            reports.push(IcmReport::ChipId { id: id, expected: id == ICM20608D_WHO_AM_I });
                            reports
                        },
                        _ => self.halt(),
                    },
                    SetupOp::Read { reg, edit } => match reply {
                        I2cReply::Data(d) if d.len() == 1 => {
                            let v: u8 = d[0];
                            self.state = IcmState { phase: next, edited: apply_edit(edit, v), ..self.state };
                            let mut reports = Vec::new();
                            reports.push(IcmReport::Register { reg: reg, value: v });
                            reports
                        },
                        _ => self.halt(),
                    },
                    SetupOp::Write { .. } => match reply {
                        I2cReply::Written => {
                            self.state = IcmState { phase: next, ..self.state };
                            Vec::new()
                        },
                        _ => self.halt(),
                    },
                }
            },
            Phase::ReadAccel => match reply {
                I2cReply::Data(d) if d.len() == 6 => {
                    let a = decode_axes(d.as_slice());
                    self.state = IcmState { phase: Phase::ReadGyro, accel: a, ..self.state };
                    Vec::new()
                },
                _ => self.halt(),
            },
            Phase::ReadGyro => match reply {
                I2cReply::Data(d) if d.len() == 6 => {
                    let g = decode_axes(d.as_slice());
                    let sample = MotionSample { accel: self.state.accel, gyro: g };
                    self.state = IcmState { phase: Phase::Pause, ..self.state };
                    let mut reports = Vec::new();
                    reports.push(IcmReport::Motion(sample));
                    reports
                },
                _ => self.halt(),
            },
            Phase::Pause => match reply {
                I2cReply::Elapsed => {
                    self.state = IcmState { phase: Phase::ReadAccel, ..self.state };
                    Vec::new()
                },
                _ => self.halt(),
            },
            Phase::Halted => Vec::new(),
        }
    }
}

} // verus!

verus! {

/// The big-endian bytes of `v` in two's complement.
pub open spec fn be_bytes(v: i16) -> (u8, u8) {
    let u: int = if v < 0 { v + 65536 } else { v as int };
    ((u / 256) as u8, (u % 256) as u8)
}

/// Decoding gives back every 16-bit value from its two bytes.
pub proof fn lemma_be_roundtrip(v: i16)
    ensures
        be_value(be_bytes(v).0, be_bytes(v).1) == v,
{
    let u: int = if v < 0 { v + 65536 } else { v as int };
    assert(0 <= u < 65536);
    assert(u == (u / 256) * 256 + u % 256);
}

/// The bytes of a 16-bit word are determined by its value: distinct byte
/// pairs decode to distinct values.
pub proof fn lemma_be_injective(h1: u8, l1: u8, h2: u8, l2: u8)
    requires
        be_value(h1, l1) == be_value(h2, l2),
    ensures
        h1 == h2,
        l1 == l2,
{
}

/// Every write-back of an edited value writes the register that the
/// operation just before it read, and that read changes the value.
pub proof fn lemma_write_back_follows_its_read(k: int)
    requires
        0 <= k < SETUP_LEN,
        setup_op(k) matches SetupOp::Write { value: WriteValue::Edited, .. },
    ensures
        k > 0,
        setup_op(k - 1) matches SetupOp::Read { reg, edit } && edit != Edit::Keep
            && setup_op(k) == (SetupOp::Write { reg: reg, value: WriteValue::Edited }),
{
}


/// The edits of the configuration: setting bit 2 of power management 1
/// selects the PLL clock source, keeping the mask 0xE7 of a configuration
/// register clears its full-scale bits 4..3 (the smallest range), and keeping
/// the mask 0xBF of power management 1 clears its sleep bit 6. Every other
/// bit keeps the value that was read.
pub proof fn lemma_configuration_edits(v: u8)
    ensures
        edited(Edit::SetBits(0x04), v) & 0x04 == 0x04,
        edited(Edit::SetBits(0x04), v) & !0x04u8 == v & !0x04u8,
        edited(Edit::KeepBits(0xE7), v) & 0x18 == 0,
        edited(Edit::KeepBits(0xE7), v) & !0x18u8 == v & !0x18u8,
        edited(Edit::KeepBits(0xBF), v) & 0x40 == 0,
        edited(Edit::KeepBits(0xBF), v) & !0x40u8 == v & !0x40u8,
{
    assert((v | 0x04) & 0x04 == 0x04) by (bit_vector);
    assert((v | 0x04) & !0x04u8 == v & !0x04u8) by (bit_vector);
    assert((v & 0xE7) & 0x18 == 0) by (bit_vector);
    assert((v & 0xE7) & !0x18u8 == v & !0x18u8) by (bit_vector);
    assert((v & 0xBF) & 0x40 == 0) by (bit_vector);
    assert((v & 0xBF) & !0x40u8 == v & !0x40u8) by (bit_vector);
}

/// The value that a write-back puts into its register is the value read just
/// before, with the read's edit applied.
pub proof fn lemma_write_back_value(s: IcmState, reply: I2cReply)
    requires
        s.wf(),
        s.phase matches Phase::Setup(k) && setup_op(k as int) matches SetupOp::Read { .. }
            && k + 1 < SETUP_LEN && setup_op(k + 1) matches SetupOp::Write { value: WriteValue::Edited, .. },
        is_data(reply, 1),
    ensures
        s.phase matches Phase::Setup(k) && setup_op(k as int) matches SetupOp::Read { reg, edit }
            && request_of(transition(s, reply).0) == (I2cRequest::Write {
                addr: ICM20608_ADDR,
                reg: reg,
                value: edited(edit, data_of(reply)[0]),
            }),
{
    if let Phase::Setup(k) = s.phase {
        lemma_write_back_follows_its_read(k + 1);
    }
}

/// A failed transaction stops the driver, and a stopped driver asks for
/// nothing but to stay stopped, whatever it is told.
pub proof fn lemma_failure_halts(s: IcmState, reply: I2cReply)
    ensures
        transition(s, I2cReply::Failed).0.phase == Phase::Halted,
        transition(s, I2cReply::Failed).1 == Seq::<IcmReport>::empty(),
        s.phase == Phase::Halted ==> transition(s, reply) == (s, Seq::<IcmReport>::empty()),
        s.phase == Phase::Halted ==> request_of(s) == I2cRequest::Halt,
{
}

/// Once sampling has started the driver never configures the sensor again.
pub proof fn lemma_sampling_never_reconfigures(s: IcmState, reply: I2cReply)
    requires
        !(s.phase is Setup),
    ensures
        !(transition(s, reply).0.phase is Setup),
{
}

/// The configuration runs its operations in order: each answered operation
/// leads to the next, and the last one to sampling.
pub proof fn lemma_setup_in_order(s: IcmState, reply: I2cReply)
    requires
        s.wf(),
        s.phase matches Phase::Setup(k) && (match setup_op(k as int) {
            SetupOp::Write { .. } => reply is Written,
            _ => is_data(reply, 1),
        }),
    ensures
        s.phase matches Phase::Setup(k) && (if k + 1 < SETUP_LEN {
            transition(s, reply).0.phase == Phase::Setup((k + 1) as u8)
        } else {
            transition(s, reply).0.phase == Phase::ReadAccel
        }),
        transition(s, reply).0.wf(),
{
}

/// One sampling round: reading the accelerometer, then the gyroscope, then
/// waiting, reports exactly one motion sample decoded from the two reads and
/// comes back to reading the accelerometer.
pub proof fn lemma_sampling_round(s: IcmState, accel: I2cReply, gyro: I2cReply)
    requires
        s.phase == Phase::ReadAccel,
        is_data(accel, 6),
        is_data(gyro, 6),
    ensures
        ({
            let (s1, r1) = transition(s, accel);
            let (s2, r2) = transition(s1, gyro);
            let (s3, r3) = transition(s2, I2cReply::Elapsed);
            &&& request_of(s) == (I2cRequest::Read { addr: 0x68, reg: 0x3B, len: 6 })
            &&& request_of(s1) == (I2cRequest::Read { addr: 0x68, reg: 0x43, len: 6 })
            &&& request_of(s2) == (I2cRequest::Delay { ms: 300 })
            &&& r1 + r2 + r3 == seq![IcmReport::Motion(MotionSample {
                accel: axes_of(data_of(accel)),
                gyro: axes_of(data_of(gyro)),
            })]
            &&& s3.phase == Phase::ReadAccel
        }),
{
    let (s1, r1) = transition(s, accel);
    let (s2, r2) = transition(s1, gyro);
    let (s3, r3) = transition(s2, I2cReply::Elapsed);
    assert(r1 + r2 + r3 =~= r2);
}


/// The identity check: the first operation reads the identity register, and
/// a one-byte answer `id` is reported as that byte, flagged as an ICM20608-D
/// exactly when it is 0xAE.
pub proof fn lemma_chip_id_check(s: IcmState, reply: I2cReply, id: u8)
    requires
        s.phase == Phase::Setup(0),
        reply matches I2cReply::Data(d) && d@ == seq![id],
    ensures
        request_of(s) == (I2cRequest::Read { addr: 0x68, reg: 0x75, len: 1 }),
        transition(s, reply).1 == seq![IcmReport::ChipId { id: id, expected: id == 0xAE }],
        transition(s, reply).1[0] matches IcmReport::ChipId { expected, .. } && (expected <==> id == 0xAE),
{
}

/// Every configuration read reports the register it asked for and the byte
/// that the register held, whatever edit is kept for the write-back.
pub proof fn lemma_configuration_reports_value_read(s: IcmState, reply: I2cReply, v: u8)
    requires
        s.wf(),
        s.phase matches Phase::Setup(k) && setup_op(k as int) matches SetupOp::Read { .. },
        reply matches I2cReply::Data(d) && d@ == seq![v],
    ensures
        request_of(s) matches I2cRequest::Read { addr, reg, len } && addr == 0x68 && len == 1
            && transition(s, reply).1 == seq![IcmReport::Register { reg: reg, value: v }],
{
}

/// What the configuration writes, in terms of what it read just before:
/// power management 1 gets the value read with bit 2 set, power management 2
/// gets zero, the gyroscope and accelerometer configurations get the values
/// read with bits 4..3 cleared, accelerometer configuration 2 gets zero, and
/// power management 1 finally gets the value read with bit 6 cleared.
pub proof fn lemma_configuration_writes(s: IcmState, reply: I2cReply, v: u8)
    requires
        s.wf(),
        reply matches I2cReply::Data(d) && d@ == seq![v],
    ensures
        s.phase == Phase::Setup(1) ==> request_of(transition(s, reply).0) == (I2cRequest::Write {
            addr: 0x68,
            reg: 0x6B,
            value: v | 0x04,
        }),
        s.phase == Phase::Setup(4) ==> request_of(transition(transition(s, reply).0, I2cReply::Written).0)
            == (I2cRequest::Read { addr: 0x68, reg: 0x6C, len: 1 }) && request_of(transition(s, reply).0)
            == (I2cRequest::Write { addr: 0x68, reg: 0x6C, value: 0 }),
        s.phase == Phase::Setup(7) ==> request_of(transition(s, reply).0) == (I2cRequest::Write {
            addr: 0x68,
            reg: 0x1B,
            value: v & 0xE7,
        }),
        s.phase == Phase::Setup(9) ==> request_of(transition(s, reply).0) == (I2cRequest::Write {
            addr: 0x68,
            reg: 0x1C,
            value: v & 0xE7,
        }),
        s.phase == Phase::Setup(11) ==> request_of(transition(s, reply).0) == (I2cRequest::Write {
            addr: 0x68,
            reg: 0x1D,
            value: 0,
        }),
        s.phase == Phase::Setup(13) ==> request_of(transition(s, reply).0) == (I2cRequest::Write {
            addr: 0x68,
            reg: 0x6B,
            value: v & 0xBF,
        }),
{
}

/// Six output registers holding the big-endian words of three values decode
/// back to those values, in the order x, y, z.
pub proof fn lemma_axes_roundtrip(x: i16, y: i16, z: i16)
    ensures
        axes_of(seq![be_bytes(x).0, be_bytes(x).1, be_bytes(y).0, be_bytes(y).1, be_bytes(z).0, be_bytes(z).1])
            == (Axes { x: x, y: y, z: z }),
{
    lemma_be_roundtrip(x);
    lemma_be_roundtrip(y);
    lemma_be_roundtrip(z);
}
} // verus!
