use crate::state_8080::{Machine, State8080};
use vstd::prelude::*;

verus! {

/// The size of the processor's address space.
pub const MEMORY_SIZE: usize = 0x10000;

/// Where the diagnostic program is loaded and started.
pub const DIAG_ORIGIN: u16 = 0x100;

/// `bytes` followed by as many zeros as it takes to reach `size` bytes; a
/// longer sequence stays as it is.
pub open spec fn padded(bytes: Seq<u8>, size: int) -> Seq<u8> {
    Seq::new(
        if bytes.len() >= size {
            bytes.len()
        } else {
            size as nat
        },
        |i: int|
            if i < bytes.len() {
                bytes[i]
            } else {
                0u8
            },
    )
}

/// The memory that the diagnostic program runs in: 256 zeros, the program,
/// zeros up to the size of the address space, and on top of that a RET at
/// address 5, where the program calls the operating system, the byte 7 at
/// address 368, which corrects the stack pointer that the program loads, and a
/// jump at 0x59c to 0x5c2, which passes over the test of decimal adjust.
pub open spec fn diag_image(rom: Seq<u8>) -> Seq<u8> {
    padded(Seq::new(0x100, |i: int| 0u8) + rom, 0x10000).update(0x5, 0xc9).update(368, 0x7).update(
        0x59c,
        0xc3,
    ).update(0x59d, 0xc2).update(0x59e, 0x05)
}

/// Appends zeros to `buffer` until it holds `size` bytes.
fn pad(buffer: &mut Vec<u8>, size: usize)
    ensures
        final(buffer)@ == padded(old(buffer)@, size as int),
{
    while buffer.len() < size
        invariant
            buffer@.len() >= old(buffer)@.len(),
            buffer@.len() <= size || buffer@.len() == old(buffer)@.len(),
            forall|i: int| 0 <= i < old(buffer)@.len() ==> buffer@[i] == old(buffer)@[i],
            forall|i: int| old(buffer)@.len() <= i < buffer@.len() ==> buffer@[i] == 0,
        decreases size - buffer.len(),
    {
        buffer.push(0);
    }
    assert(buffer@ =~= padded(old(buffer)@, size as int));
}

/// The processor as it starts the arcade program: `rom` at address 0, zeros
/// behind it up to the size of the address space, and every register and
/// flag cleared.
pub fn load_space_invaders(rom: Vec<u8>) -> (state: State8080)
    ensures
        state@ == (Machine { mem: padded(rom@, 0x10000), ..State8080::empty_machine() }),
{
    let mut buffer = rom;
    pad(&mut buffer, MEMORY_SIZE);
    let mut state = State8080::empty_state();
    state.memory = buffer;
    state
}

/// The processor as it starts the diagnostic program: `rom` at address
/// 0x100, the program counter there, and the memory patched as `diag_image`
/// says.
pub fn load_diag(rom: &Vec<u8>) -> (state: State8080)
    requires
        rom@.len() + 0x100 <= usize::MAX,
    ensures
        state@ == (Machine {
            mem: diag_image(rom@),
            pc: DIAG_ORIGIN,
            ..State8080::empty_machine()
        }),
{
    let mut buffer: Vec<u8> = Vec::new();
    pad(&mut buffer, 0x100);
    assert(buffer@ =~= Seq::new(0x100, |i: int| 0u8));
    let mut i: usize = 0;
    while i < rom.len()
        invariant
            i <= rom@.len(),
            rom@.len() + 0x100 <= usize::MAX,
            buffer@ == Seq::new(0x100, |i: int| 0u8) + rom@.subrange(0, i as int),
        decreases rom@.len() - i,
    {
        buffer.push(rom[i]);
        i += 1;
        assert(buffer@ =~= Seq::new(0x100, |i: int| 0u8) + rom@.subrange(0, i as int));
    }
    assert(rom@.subrange(0, i as int) =~= rom@);
    pad(&mut buffer, MEMORY_SIZE);

    let mut state = State8080::empty_state();
    state.memory = buffer;

    state.set_program_counter(DIAG_ORIGIN);

    state.memory.set(0x5, 0xc9);

    state.memory.set(368, 0x7);

    state.memory.set(0x59c, 0xc3);
    state.memory.set(0x59d, 0xc2);
    state.memory.set(0x59e, 0x05);
    state
}

} // verus!
