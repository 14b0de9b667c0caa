use gba_emu::cpu::{evaluate_condition, ConditionFlags, CPU};

fn expected(code: u32, n: bool, z: bool, c: bool, v: bool) -> bool {
    match code {
        0x0 => z,
        0x1 => !z,
        0x2 => c,
        0x3 => !c,
        0x4 => n,
        0x5 => !n,
        0x6 => v,
        0x7 => !v,
        0x8 => c && !z,
        0x9 => !c || z,
        0xA => n == v,
        0xB => n != v,
        0xC => !z && n == v,
        0xD => z || n != v,
        0xE => true,
        _ => false,
    }
}

#[test]
fn condition_codes_follow_the_standard_table() {
    for code in 0..16u32 {
        for flags in 0..16u32 {
            let n = flags & 8 != 0;
            let z = flags & 4 != 0;
            let c = flags & 2 != 0;
            let v = flags & 1 != 0;
            assert_eq!(
                evaluate_condition(code, n, z, c, v),
                expected(code, n, z, c, v),
                "code {code:#x} flags {flags:#06b}"
            );
            let mut cpu = CPU::new();
            cpu.set_condition_flag(ConditionFlags::N, n);
            cpu.set_condition_flag(ConditionFlags::Z, z);
            cpu.set_condition_flag(ConditionFlags::C, c);
            cpu.set_condition_flag(ConditionFlags::V, v);
            for rest in [0u32, 0x03A0_0001, 0x0FFF_FFFF] {
                assert_eq!(cpu.check_condition((code << 28) | rest), expected(code, n, z, c, v));
            }
        }
    }
}

#[test]
fn always_and_never() {
    let cpu = CPU::new();
    assert!(cpu.check_condition(0xE000_0000));
    assert!(!cpu.check_condition(0xF000_0000));
    // on a fresh machine all flags are clear
    assert!(!cpu.check_condition(0x0000_0000));
    assert!(cpu.check_condition(0x1000_0000));
    assert!(cpu.check_condition(0xA000_0000));
}
