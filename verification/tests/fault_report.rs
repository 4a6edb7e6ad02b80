use pandora::{FaultFrame, HardFault};

#[test]
fn hard_fault_report_lists_registers_in_hex() {
    let frame = FaultFrame {
        r0: 0,
        r1: 1,
        r2: 0xdeadbeef,
        r3: 0x10,
        r12: 0xffffffff,
        lr: 0x0800_1235,
        pc: 0x0800_0abc,
        xpsr: 0x6100_0000,
    };
    let expected = "ExceptionFrame {\n    r0: 0x00000000,\n    r1: 0x00000001,\n    r2: 0xdeadbeef,\n    r3: 0x00000010,\n    r12: 0xffffffff,\n    lr: 0x08001235,\n    pc: 0x08000abc,\n    xpsr: 0x61000000,\n}";
    assert_eq!(HardFault(&frame), expected);
}

#[test]
fn hard_fault_report_matches_pretty_debug_layout() {
    let frame = FaultFrame { r0: 7, r1: 8, r2: 9, r3: 10, r12: 11, lr: 12, pc: 13, xpsr: 14 };
    let report = HardFault(&frame);
    let mut expected = String::from("ExceptionFrame {\n");
    for (name, v) in [("r0", 7u32), ("r1", 8), ("r2", 9), ("r3", 10), ("r12", 11), ("lr", 12), ("pc", 13), ("xpsr", 14)] {
        expected.push_str(&format!("    {}: 0x{:08x},\n", name, v));
    }
    expected.push('}');
    assert_eq!(report, expected);
}
