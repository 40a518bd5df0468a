use emu8080::semantics::StepError;
use emu8080::space_invaders::{
    execute_instruction, handle_event, handle_in, handle_out, machine_key_down, machine_key_up,
    render, run_frame, service_clock, service_interrupt, ColorScheme, Event, FrameError, Key,
    PixelColor, SpaceInvadersMachine, CYCLES_PER_FRAME,
};
use emu8080::state_8080::State8080;

fn cabinet(program: &[u8]) -> SpaceInvadersMachine {
    let mut state = State8080::empty_state();
    state.memory = vec![0; 0x10000];
    state.memory[..program.len()].copy_from_slice(program);
    SpaceInvadersMachine::new(state)
}

#[test]
fn a_new_cabinet_is_cleared() {
    let machine = cabinet(&[]);
    assert_eq!(machine.shift_low, 0);
    assert_eq!(machine.shift_high, 0);
    assert_eq!(machine.shift_offset, 0);
    assert_eq!(machine.in_port1, 0);
    assert_eq!(machine.in_port2, 0);
    assert_eq!(machine.out_port3, 0);
    assert_eq!(machine.out_port5, 0);
    assert_eq!(machine.which_interrupt, 2);
    assert_eq!(machine.last_timer, 0);
    assert!(!machine.paused);
    assert_eq!(machine.color_scheme, ColorScheme::CLASSIC);
}

#[test]
fn shifter_shows_the_window_at_the_offset() {
    let mut machine = cabinet(&[]);
    handle_out(&mut machine, 4, 0xab);
    assert_eq!((machine.shift_high, machine.shift_low), (0xab, 0x00));
    handle_out(&mut machine, 4, 0xcd);
    assert_eq!((machine.shift_high, machine.shift_low), (0xcd, 0xab));
    handle_out(&mut machine, 2, 0x02);
    assert_eq!(machine.shift_offset, 2);
    assert_eq!(handle_in(&machine, 3), ((0xcdabu16 >> 6) & 0xff) as u8);
    assert_eq!(handle_in(&machine, 3), 0x36);
}

#[test]
fn shifter_at_every_offset() {
    let mut machine = cabinet(&[]);
    handle_out(&mut machine, 4, 0x5a);
    handle_out(&mut machine, 4, 0xc3);
    let expected = [0xc3u8, 0x86, 0x0d, 0x1a, 0x35, 0x6b, 0xd6, 0xad];
    for offset in 0..8u8 {
        handle_out(&mut machine, 2, 0xf8 | offset);
        assert_eq!(machine.shift_offset, offset);
        assert_eq!(handle_in(&machine, 3), expected[offset as usize]);
    }
}

#[test]
fn input_ports() {
    let mut machine = cabinet(&[]);
    machine.in_port1 = 0x15;
    machine.in_port2 = 0x2a;
    assert_eq!(handle_in(&machine, 0), 0x0f);
    assert_eq!(handle_in(&machine, 1), 0x15);
    assert_eq!(handle_in(&machine, 2), 0x2a);
}

#[test]
fn output_ports() {
    let mut machine = cabinet(&[]);
    handle_out(&mut machine, 3, 0x11);
    handle_out(&mut machine, 5, 0x22);
    assert_eq!(machine.out_port3, 0x11);
    assert_eq!(machine.out_port5, 0x22);
    handle_out(&mut machine, 6, 0x33);
    handle_out(&mut machine, 0, 0x44);
    handle_out(&mut machine, 200, 0x55);
    assert_eq!(machine.out_port3, 0x11);
    assert_eq!(machine.out_port5, 0x22);
    assert_eq!((machine.shift_high, machine.shift_low, machine.shift_offset), (0, 0, 0));
}

#[test]
fn keys_drive_their_bits() {
    let keys = [
        (Key::C, 0x01u8),
        (Key::T, 0x04),
        (Key::Z, 0x10),
        (Key::Left, 0x20),
        (Key::Right, 0x40),
        (Key::O, 0x00),
        (Key::P, 0x00),
        (Key::Q, 0x00),
        (Key::Escape, 0x00),
        (Key::Other, 0x00),
    ];
    for (key, bit) in keys {
        let mut machine = cabinet(&[]);
        machine_key_down(&mut machine, &key);
        assert_eq!(machine.in_port1, bit);
        machine.in_port1 = 0xff;
        machine_key_up(&mut machine, &key);
        assert_eq!(machine.in_port1, 0xff & !bit);
    }
    let mut machine = cabinet(&[]);
    machine_key_down(&mut machine, &Key::Left);
    machine_key_down(&mut machine, &Key::Z);
    assert_eq!(machine.in_port1, 0x30);
    machine_key_up(&mut machine, &Key::Left);
    assert_eq!(machine.in_port1, 0x10);
}

#[test]
fn events() {
    let mut machine = cabinet(&[]);
    assert!(!handle_event(&mut machine, Event::Quit));
    assert!(!handle_event(&mut machine, Event::KeyDown(Key::Q)));
    assert!(!handle_event(&mut machine, Event::KeyDown(Key::Escape)));
    assert_eq!(machine.in_port1, 0);
    assert!(handle_event(&mut machine, Event::KeyUp(Key::Q)));
    assert!(handle_event(&mut machine, Event::Other));

    assert!(handle_event(&mut machine, Event::KeyDown(Key::P)));
    assert!(machine.paused);
    assert!(handle_event(&mut machine, Event::KeyUp(Key::P)));
    assert!(machine.paused);
    assert!(handle_event(&mut machine, Event::KeyDown(Key::P)));
    assert!(!machine.paused);

    assert!(handle_event(&mut machine, Event::KeyDown(Key::O)));
    assert_eq!(machine.color_scheme, ColorScheme::MONOCHROME);
    assert!(handle_event(&mut machine, Event::KeyDown(Key::O)));
    assert_eq!(machine.color_scheme, ColorScheme::CLASSIC);

    assert!(handle_event(&mut machine, Event::KeyDown(Key::C)));
    assert!(handle_event(&mut machine, Event::KeyDown(Key::Right)));
    assert_eq!(machine.in_port1, 0x41);
    assert!(handle_event(&mut machine, Event::KeyUp(Key::C)));
    assert_eq!(machine.in_port1, 0x40);
}

#[test]
fn in_and_out_go_to_the_ports() {
    // OUT 4; OUT 4; OUT 2; IN 3; IN 1
    let mut machine = cabinet(&[0xd3, 0x04, 0xd3, 0x04, 0xd3, 0x02, 0xdb, 0x03, 0xdb, 0x01]);
    machine.in_port1 = 0x44;
    machine.state.a = 0xab;
    assert_eq!(execute_instruction(&mut machine), Ok(3));
    assert_eq!(machine.state.program_counter(), 2);
    machine.state.a = 0xcd;
    assert_eq!(execute_instruction(&mut machine), Ok(3));
    machine.state.a = 0x02;
    assert_eq!(execute_instruction(&mut machine), Ok(3));
    assert_eq!(execute_instruction(&mut machine), Ok(3));
    assert_eq!(machine.state.a, 0x36);
    assert_eq!(machine.state.program_counter(), 8);
    assert_eq!(execute_instruction(&mut machine), Ok(3));
    assert_eq!(machine.state.a, 0x44);
    assert_eq!(machine.state.program_counter(), 10);
}

#[test]
fn an_input_port_that_does_not_exist_is_an_error() {
    let mut machine = cabinet(&[0xdb, 0x07]);
    machine.state.a = 0x99;
    assert_eq!(execute_instruction(&mut machine), Err(FrameError::InputPort(7)));
    assert_eq!(machine.state.a, 0x99);
    assert_eq!(machine.state.program_counter(), 0);
}

#[test]
fn other_instructions_go_to_the_processor() {
    let mut machine = cabinet(&[0x3e, 0x12, 0x76, 0xed]);
    assert_eq!(execute_instruction(&mut machine), Ok(7));
    assert_eq!(machine.state.a, 0x12);
    assert_eq!(execute_instruction(&mut machine), Err(FrameError::Cpu(StepError::Halt)));
    assert_eq!(
        execute_instruction(&mut machine),
        Err(FrameError::Cpu(StepError::Unimplemented(0xed)))
    );
}

#[test]
fn the_interrupt_waits_for_a_sixtieth_of_a_second() {
    let mut machine = cabinet(&[]);
    machine.state.sp = 0x2400;
    machine.state.set_program_counter(0x1234);
    machine.state.enable_interrupt();
    assert!(!service_interrupt(&mut machine, 0));
    assert!(!service_interrupt(&mut machine, 16_666_666));
    assert_eq!(machine.state.program_counter(), 0x1234);
    assert!(service_interrupt(&mut machine, 16_666_667));
    assert_eq!(machine.state.program_counter(), 0x0010);
    assert_eq!(machine.state.sp, 0x23fe);
    assert_eq!(machine.state.read_memory(0x23ff), 0x12);
    assert_eq!(machine.state.read_memory(0x23fe), 0x34);
}

#[test]
fn no_interrupt_while_interrupts_are_disabled() {
    let mut machine = cabinet(&[]);
    machine.state.sp = 0x2400;
    machine.state.set_program_counter(0x1234);
    assert!(!service_interrupt(&mut machine, 1_000_000_000));
    assert_eq!(machine.state.program_counter(), 0x1234);
    assert_eq!(machine.state.sp, 0x2400);
}

#[test]
fn the_clock_fires_the_interrupt_and_becomes_the_time_of_the_last_one() {
    let mut machine = cabinet(&[]);
    machine.state.sp = 0x2400;
    machine.state.set_program_counter(0x1234);
    machine.state.enable_interrupt();
    machine.last_timer = 1_000;
    assert!(!service_clock(&mut machine, 1_000));
    assert!(!service_clock(&mut machine, 1_000 + 16_666_666));
    assert_eq!(machine.last_timer, 1_000);
    assert_eq!(machine.state.program_counter(), 0x1234);
    assert!(service_clock(&mut machine, 1_000 + 16_666_667));
    assert_eq!(machine.last_timer, 16_667_667);
    assert_eq!(machine.state.program_counter(), 0x0010);
    assert_eq!(machine.state.sp, 0x23fe);
    // measured from the new time of the last interrupt
    assert!(!service_clock(&mut machine, 16_667_667 + 16_666_666));
    assert_eq!(machine.last_timer, 16_667_667);
    assert!(service_clock(&mut machine, 16_667_667 + 16_666_667));
    assert_eq!(machine.last_timer, 33_334_334);
    assert_eq!(machine.state.sp, 0x23fc);
}

#[test]
fn a_reading_before_the_last_interrupt_counts_as_no_time() {
    let mut machine = cabinet(&[]);
    machine.state.sp = 0x2400;
    machine.state.enable_interrupt();
    machine.last_timer = 1_000_000_000;
    assert!(!service_clock(&mut machine, 0));
    assert!(!service_clock(&mut machine, 999_999_999));
    assert_eq!(machine.last_timer, 1_000_000_000);
    assert_eq!(machine.state.sp, 0x2400);
}

#[test]
fn the_timer_stays_while_interrupts_are_disabled() {
    let mut machine = cabinet(&[]);
    machine.state.sp = 0x2400;
    machine.last_timer = 7;
    assert!(!service_clock(&mut machine, 5_000_000_000));
    assert_eq!(machine.last_timer, 7);
    assert_eq!(machine.state.sp, 0x2400);
    assert_eq!(machine.state.program_counter(), 0);
}

#[test]
fn ports_keys_and_events_leave_the_timer() {
    let mut machine = cabinet(&[0xd3, 0x04, 0xdb, 0x01, 0x3e, 0x01]);
    machine.last_timer = 42;
    handle_out(&mut machine, 4, 0x12);
    handle_out(&mut machine, 2, 0x03);
    machine_key_down(&mut machine, &Key::C);
    machine_key_up(&mut machine, &Key::C);
    handle_event(&mut machine, Event::KeyDown(Key::Z));
    assert_eq!(execute_instruction(&mut machine), Ok(3));
    assert_eq!(execute_instruction(&mut machine), Ok(3));
    assert_eq!(execute_instruction(&mut machine), Ok(7));
    assert!(!service_interrupt(&mut machine, 1_000_000_000));
    assert_eq!(machine.last_timer, 42);
    machine.paused = true;
    assert_eq!(run_frame(&mut machine), Ok(0));
    assert_eq!(machine.last_timer, 42);
}

#[test]
fn a_frame_runs_its_cycles() {
    assert_eq!(CYCLES_PER_FRAME, 33_333);
    // a memory of NOPs, four cycles each, with interrupts disabled
    let mut machine = cabinet(&[]);
    assert_eq!(run_frame(&mut machine), Ok(33_336));
    assert_eq!(machine.state.program_counter(), 8334);
}

#[test]
fn a_paused_cabinet_runs_nothing() {
    let mut machine = cabinet(&[0x3e, 0x12]);
    machine.paused = true;
    assert_eq!(run_frame(&mut machine), Ok(0));
    assert_eq!(machine.state.program_counter(), 0);
    assert_eq!(machine.state.a, 0);
}

#[test]
fn a_frame_stops_at_an_error() {
    let mut machine = cabinet(&[0x00, 0x00, 0x76]);
    assert_eq!(run_frame(&mut machine), Err(FrameError::Cpu(StepError::Halt)));
    assert_eq!(machine.state.program_counter(), 3);
}

#[test]
fn pixel_colors() {
    let classic = ColorScheme::CLASSIC;
    let mono = ColorScheme::MONOCHROME;
    assert_eq!(classic.get_pixel_color(0, 0, 0), PixelColor::BLACK);
    assert_eq!(mono.get_pixel_color(0, 0, 0), PixelColor::BLACK);
    assert_eq!(mono.get_pixel_color(100, 40, 1), PixelColor::WHITE);
    assert_eq!(mono.get_pixel_color(100, 200, 1), PixelColor::WHITE);
    assert_eq!(classic.get_pixel_color(100, 0, 1), PixelColor::WHITE);
    assert_eq!(classic.get_pixel_color(100, 31, 1), PixelColor::WHITE);
    assert_eq!(classic.get_pixel_color(100, 32, 1), PixelColor::RED);
    assert_eq!(classic.get_pixel_color(100, 63, 1), PixelColor::RED);
    assert_eq!(classic.get_pixel_color(100, 64, 1), PixelColor::WHITE);
    assert_eq!(classic.get_pixel_color(100, 183, 1), PixelColor::WHITE);
    assert_eq!(classic.get_pixel_color(100, 184, 1), PixelColor::GREEN);
    assert_eq!(classic.get_pixel_color(100, 239, 1), PixelColor::GREEN);
    assert_eq!(classic.get_pixel_color(15, 240, 1), PixelColor::WHITE);
    assert_eq!(classic.get_pixel_color(16, 240, 1), PixelColor::GREEN);
    assert_eq!(classic.get_pixel_color(134, 255, 1), PixelColor::GREEN);
    assert_eq!(classic.get_pixel_color(135, 255, 1), PixelColor::WHITE);
    assert_eq!(PixelColor::BLACK.value(), 0x00);
    assert_eq!(PixelColor::RED.value(), 0xe0);
    assert_eq!(PixelColor::GREEN.value(), 0x1c);
    assert_eq!(PixelColor::WHITE.value(), 0xff);
}

#[test]
fn a_dark_screen_is_black() {
    let machine = cabinet(&[]);
    let pixels = render(&machine.state, ColorScheme::CLASSIC);
    assert_eq!(pixels.len(), 224 * 256);
    assert!(pixels.iter().all(|&pixel| pixel == 0));
}

#[test]
fn the_picture_is_turned_by_a_quarter() {
    let mut machine = cabinet(&[]);
    // bit 0 of the first byte is the bottom left pixel
    machine.state.memory[0x2400] = 0x01;
    // bit 7 of the last byte of the first line of memory is the top left one
    machine.state.memory[0x2400 + 31] = 0x80;
    // byte 5 of memory line 100, bit 3: column 100, row 255 - 43
    machine.state.memory[0x2400 + 100 * 32 + 5] = 0x08;
    // the last byte: column 223, rows 0 to 7
    machine.state.memory[0x3fff] = 0xff;
    let pixels = render(&machine.state, ColorScheme::MONOCHROME);
    let lit: Vec<usize> = (0..pixels.len()).filter(|&i| pixels[i] != 0).collect();
    let mut expected = vec![255 * 224, 0, 212 * 224 + 100];
    for row in 0..8 {
        expected.push(row * 224 + 223);
    }
    expected.sort();
    assert_eq!(lit, expected);
    assert!(lit.iter().all(|&i| pixels[i] == 0xff));
}

#[test]
fn the_classic_scheme_colours_the_bands() {
    let mut machine = cabinet(&[]);
    for i in 0..7168 {
        machine.state.memory[0x2400 + i] = 0xff;
    }
    let pixels = render(&machine.state, ColorScheme::CLASSIC);
    for y in 0..256usize {
        for x in 0..224usize {
            let expected = if (32..64).contains(&y) {
                0xe0
            } else if y < 184 {
                0xff
            } else if y < 240 {
                0x1c
            } else if (16..=134).contains(&x) {
                0x1c
            } else {
                0xff
            };
            assert_eq!(pixels[y * 224 + x], expected);
        }
    }
    let pixels = render(&machine.state, ColorScheme::MONOCHROME);
    assert!(pixels.iter().all(|&pixel| pixel == 0xff));
}
