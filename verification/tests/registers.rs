use nes::cpu::{new, Flag};

#[test]
fn test_flags() {
    let mut cpu = new();
    assert_eq!(cpu.flag_is_set(Flag::N), false);
    assert_eq!(cpu.flag_is_set(Flag::V), false);

    cpu.set_flag(Flag::V);
    assert_eq!(cpu.flag_is_set(Flag::N), false);
    assert_eq!(cpu.flag_is_set(Flag::V), true);

    cpu.clear_flag(Flag::N);
    assert_eq!(cpu.flag_is_set(Flag::N), false);
    assert_eq!(cpu.flag_is_set(Flag::V), true);

    cpu.set_flag(Flag::N);
    assert_eq!(cpu.flag_is_set(Flag::N), true);
    assert_eq!(cpu.flag_is_set(Flag::V), true);

    cpu.clear_flag(Flag::V);
    assert_eq!(cpu.flag_is_set(Flag::N), true);
    assert_eq!(cpu.flag_is_set(Flag::V), false);

    cpu.clear_flag(Flag::N);
    assert_eq!(cpu.flag_is_set(Flag::N), false);
    assert_eq!(cpu.flag_is_set(Flag::V), false);
}

#[test]
fn test_flag_bits_of_status_byte() {
    let mut cpu = new();
    cpu.set_flag(Flag::C);
    cpu.set_flag(Flag::D);
    assert_eq!(cpu.p, 0b0000_1001);
    cpu.clear_flag(Flag::C);
    assert_eq!(cpu.p, 0b0000_1000);
}
