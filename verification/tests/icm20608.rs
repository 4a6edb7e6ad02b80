use pandora::icm20608::{
    apply_edit, be_i16, decode_axes, setup_op_at, Axes, Edit, I2cReply, I2cRequest, Icm20608, IcmReport,
    MotionSample, Phase, SetupOp, ICM20608_ACCEL_CONFIG1_REG, ICM20608_ACCEL_CONFIG2_REG, ICM20608_ADDR,
    ICM20608_GYRO_CONFIG_REG, ICM20608_PWR_MGMT1_REG, ICM20608_PWR_MGMT2_REG, ICM20608_WHO_AM_I_REG,
    MPU6XXX_RA_ACCEL_XOUT_H, MPU6XXX_RA_GYRO_XOUT_H, SAMPLE_PERIOD_MS, SETUP_LEN,
};

fn read(reg: u8, len: usize) -> I2cRequest {
    I2cRequest::Read { addr: ICM20608_ADDR, reg, len }
}

fn write(reg: u8, value: u8) -> I2cRequest {
    I2cRequest::Write { addr: ICM20608_ADDR, reg, value }
}

/// Runs the configuration answering each read with the given register values;
/// returns the requests made and the reports.
fn configure(drv: &mut Icm20608, reads: &[u8]) -> (Vec<I2cRequest>, Vec<IcmReport>) {
    let mut requests = Vec::new();
    let mut reports = Vec::new();
    let mut next_read = 0;
    for _ in 0..SETUP_LEN {
        let req = drv.request();
        requests.push(req);
        let reply = match req {
            I2cRequest::Read { .. } => {
                let v = reads[next_read];
                next_read += 1;
                I2cReply::Data(vec![v])
            }
            I2cRequest::Write { .. } => I2cReply::Written,
            _ => panic!("unexpected request during configuration"),
        };
        reports.extend(drv.on_reply(reply));
    }
    (requests, reports)
}

#[test]
fn configuration_sequence_edits_and_writes_registers() {
    let mut drv = Icm20608::new();
    // who_am_i, pwr1, pwr1, pwr2, pwr2, gyro, accel1, accel2, pwr1, pwr1
    let reads = [0xAE, 0x41, 0x45, 0x3F, 0x00, 0xFF, 0x18, 0x07, 0x45, 0x05];
    let (requests, reports) = configure(&mut drv, &reads);
    assert_eq!(
        requests,
        vec![
            read(ICM20608_WHO_AM_I_REG, 1),
            read(ICM20608_PWR_MGMT1_REG, 1),
            write(ICM20608_PWR_MGMT1_REG, 0x45),
            read(ICM20608_PWR_MGMT1_REG, 1),
            read(ICM20608_PWR_MGMT2_REG, 1),
            write(ICM20608_PWR_MGMT2_REG, 0),
            read(ICM20608_PWR_MGMT2_REG, 1),
            read(ICM20608_GYRO_CONFIG_REG, 1),
            write(ICM20608_GYRO_CONFIG_REG, 0xE7),
            read(ICM20608_ACCEL_CONFIG1_REG, 1),
            write(ICM20608_ACCEL_CONFIG1_REG, 0x00),
            read(ICM20608_ACCEL_CONFIG2_REG, 1),
            write(ICM20608_ACCEL_CONFIG2_REG, 0),
            read(ICM20608_PWR_MGMT1_REG, 1),
            write(ICM20608_PWR_MGMT1_REG, 0x05),
            read(ICM20608_PWR_MGMT1_REG, 1),
        ]
    );
    assert_eq!(reports[0], IcmReport::ChipId { id: 0xAE, expected: true });
    assert_eq!(reports[1], IcmReport::Register { reg: ICM20608_PWR_MGMT1_REG, value: 0x41 });
    assert_eq!(reports.len(), reads.len());
    assert_eq!(reports[9], IcmReport::Register { reg: ICM20608_PWR_MGMT1_REG, value: 0x05 });
    assert_eq!(drv.phase(), Phase::ReadAccel);
}

#[test]
fn unexpected_chip_id_is_reported_but_configuration_goes_on() {
    let mut drv = Icm20608::new();
    let reports = drv.on_reply(I2cReply::Data(vec![0x12]));
    assert_eq!(reports, vec![IcmReport::ChipId { id: 0x12, expected: false }]);
    assert_eq!(drv.phase(), Phase::Setup(1));
    assert_eq!(drv.request(), read(ICM20608_PWR_MGMT1_REG, 1));
}

#[test]
fn sampling_round_reports_decoded_axes() {
    let mut drv = Icm20608::new();
    configure(&mut drv, &[0xAE, 0, 0, 0, 0, 0, 0, 0, 0, 0]);
    assert_eq!(drv.request(), read(MPU6XXX_RA_ACCEL_XOUT_H, 6));
    assert!(drv.on_reply(I2cReply::Data(vec![0x00, 0x10, 0xFF, 0xFF, 0x80, 0x00])).is_empty());
    assert_eq!(drv.request(), read(MPU6XXX_RA_GYRO_XOUT_H, 6));
    let reports = drv.on_reply(I2cReply::Data(vec![0x7F, 0xFF, 0x01, 0x00, 0xFE, 0x0C]));
    assert_eq!(
        reports,
        vec![IcmReport::Motion(MotionSample {
            accel: Axes { x: 16, y: -1, z: -32768 },
            gyro: Axes { x: 32767, y: 256, z: -500 },
        })]
    );
    assert_eq!(drv.request(), I2cRequest::Delay { ms: SAMPLE_PERIOD_MS });
    assert!(drv.on_reply(I2cReply::Elapsed).is_empty());
    assert_eq!(drv.phase(), Phase::ReadAccel);
}

#[test]
fn failed_transaction_halts_for_good() {
    let mut drv = Icm20608::new();
    drv.on_reply(I2cReply::Data(vec![0xAE]));
    assert!(drv.on_reply(I2cReply::Failed).is_empty());
    assert_eq!(drv.phase(), Phase::Halted);
    assert_eq!(drv.request(), I2cRequest::Halt);
    assert!(drv.on_reply(I2cReply::Data(vec![1])).is_empty());
    assert_eq!(drv.request(), I2cRequest::Halt);
}

#[test]
fn reply_of_wrong_shape_halts() {
    let mut drv = Icm20608::new();
    assert!(drv.on_reply(I2cReply::Data(vec![0xAE, 0x00])).is_empty());
    assert_eq!(drv.phase(), Phase::Halted);

    let mut drv = Icm20608::new();
    drv.on_reply(I2cReply::Data(vec![0xAE]));
    drv.on_reply(I2cReply::Data(vec![0x40]));
    assert_eq!(drv.request(), write(ICM20608_PWR_MGMT1_REG, 0x44));
    drv.on_reply(I2cReply::Elapsed);
    assert_eq!(drv.phase(), Phase::Halted);
}

#[test]
fn big_endian_words_decode_with_sign() {
    assert_eq!(be_i16(0x00, 0x00), 0);
    assert_eq!(be_i16(0x7F, 0xFF), 32767);
    assert_eq!(be_i16(0x80, 0x00), -32768);
    assert_eq!(be_i16(0xFF, 0xFF), -1);
    assert_eq!(be_i16(0x12, 0x34), 0x1234);
}

#[test]
fn big_endian_roundtrip_over_all_values() {
    for v in i16::MIN..=i16::MAX {
        let [hi, lo] = v.to_be_bytes();
        assert_eq!(be_i16(hi, lo), v);
    }
}

#[test]
fn decode_axes_takes_three_words() {
    let a = decode_axes(&[0x01, 0x02, 0xFF, 0xFE, 0x00, 0x00]);
    assert_eq!(a, Axes { x: 0x0102, y: -2, z: 0 });
}

#[test]
fn configuration_edits_touch_only_their_bits() {
    assert_eq!(apply_edit(Edit::SetBits(0x04), 0x40), 0x44);
    assert_eq!(apply_edit(Edit::KeepBits(0xE7), 0xFF), 0xE7);
    assert_eq!(apply_edit(Edit::KeepBits(0xBF), 0x41), 0x01);
    assert_eq!(apply_edit(Edit::Keep, 0x5A), 0x5A);
}

#[test]
fn setup_script_starts_with_id_check_and_ends_with_read_back() {
    assert_eq!(setup_op_at(0), SetupOp::CheckId);
    assert_eq!(setup_op_at(SETUP_LEN - 1), SetupOp::Read { reg: ICM20608_PWR_MGMT1_REG, edit: Edit::Keep });
}
