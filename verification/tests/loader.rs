use emu8080::loader::{load_diag, load_space_invaders};

#[test]
fn the_arcade_program_lies_at_address_zero() {
    let state = load_space_invaders(vec![0xc3, 0xd4, 0x18]);
    assert_eq!(state.memory.len(), 0x10000);
    assert_eq!(&state.memory[..4], &[0xc3, 0xd4, 0x18, 0x00]);
    assert!(state.memory[3..].iter().all(|&byte| byte == 0));
    assert_eq!(state.program_counter(), 0);
    assert_eq!(state.sp, 0);
    assert_eq!(state.a, 0);
    assert!(!state.interrupt_enabled());
}

#[test]
fn an_empty_program_gives_an_empty_memory_of_full_size() {
    let state = load_space_invaders(Vec::new());
    assert_eq!(state.memory.len(), 0x10000);
    assert!(state.memory.iter().all(|&byte| byte == 0));
}

#[test]
fn a_program_longer_than_the_address_space_is_kept() {
    let state = load_space_invaders(vec![0x11; 0x10002]);
    assert_eq!(state.memory.len(), 0x10002);
    assert!(state.memory.iter().all(|&byte| byte == 0x11));
}

#[test]
fn the_diagnostic_program_lies_at_0x100_and_is_patched() {
    let rom: Vec<u8> = (0..0x600usize).map(|i| (i % 251) as u8 | 1).collect();
    let state = load_diag(&rom);
    assert_eq!(state.memory.len(), 0x10000);
    assert_eq!(state.program_counter(), 0x100);
    assert_eq!(state.sp, 0);
    for address in 0..0x10000usize {
        let expected = match address {
            0x5 => 0xc9,
            368 => 0x7,
            0x59c => 0xc3,
            0x59d => 0xc2,
            0x59e => 0x05,
            _ if address < 0x100 => 0,
            _ if address < 0x700 => rom[address - 0x100],
            _ => 0,
        };
        assert_eq!(state.memory[address], expected, "address {:04x}", address);
    }
}

#[test]
fn the_patches_are_made_in_an_empty_memory_too() {
    let state = load_diag(&Vec::new());
    assert_eq!(state.memory.len(), 0x10000);
    assert_eq!(state.memory[0x5], 0xc9);
    assert_eq!(state.memory[368], 0x7);
    assert_eq!(&state.memory[0x59c..0x59f], &[0xc3, 0xc2, 0x05]);
    assert_eq!(state.memory.iter().filter(|&&byte| byte != 0).count(), 5);
}
