//! The virtual machine: scenarios over small bytecode programs.

use another_world::error::FatalError;
use another_world::input::InputState;
use another_world::video::VideoCommand;
use another_world::resources::PolygonSource;
use another_world::vm::{FrameResult, ProgramCounter, Vm, Yield};

fn no_input() -> InputState {
    InputState { up: false, left: false, right: false, down: false, action: false, turbo: false }
}

#[test]
fn program_counter_reads_big_endian() {
    let mem = [0x12u8, 0x34, 0xFF, 0xFE];
    let mut pc = ProgramCounter { mem: &mem, address: 0 };
    assert_eq!(pc.read_u8(), Ok(0x12));
    assert_eq!(pc.read_u8(), Ok(0x34));
    assert_eq!(pc.read_u16(), Ok(0xFFFE));
    assert_eq!(pc.read_u8(), Err(FatalError::OutOfRangeRead));
    let mut pc = ProgramCounter { mem: &mem, address: 2 };
    assert_eq!(pc.read_i16(), Ok(-2));
}

#[test]
fn init_part_single_runnable_thread() {
    let mut vm = Vm::new(false);
    assert_eq!(vm.thread_pc(0), 0);
    for t in 1..64 {
        assert_eq!(vm.thread_pc(t), 0xFFFF);
    }
    vm.init_part();
    assert_eq!(vm.thread_pc(0), 0);
    assert_eq!(vm.get_var(0xE4), 0x14);
}

#[test]
fn new_vm_presets() {
    let vm = Vm::new(false);
    assert_eq!(vm.get_var(0x54), 0x81);
    assert_eq!(vm.get_var(0x3C), 0x1234);
    assert_eq!(vm.get_var(0xBC), 0);
    let vm = Vm::new(true);
    assert_eq!(vm.get_var(0xBC), 0x10);
    assert_eq!(vm.get_var(0xC6), 0x80);
    assert_eq!(vm.get_var(0xF2), 4000);
    assert_eq!(vm.get_var(0xDC), 33);
}

#[test]
fn mov_const_then_wrapping_add() {
    let mut vm = Vm::new(false);
    let bytecode = [0x00, 0x10, 0x12, 0x34, 0x03, 0x10, 0x00, 0x01];
    let r = vm.execute_frame(&bytecode, no_input());
    // The program runs off the end of the buffer once its work is done.
    assert_eq!(r, Err(FatalError::OutOfRangeRead));
    assert_eq!(vm.get_var(0x10), 0x1235);
}

#[test]
fn call_to_end_of_buffer_reads_out_of_range() {
    let mut vm = Vm::new(false);
    let bytecode = [0x04, 0x00, 0x05, 0x05];
    let r = vm.execute_frame(&bytecode, no_input());
    assert_eq!(r, Err(FatalError::OutOfRangeRead));
    assert_eq!(vm.thread_pc(0), 5);
}

#[test]
fn ret_with_empty_stack_underflows() {
    let mut vm = Vm::new(false);
    // Call 0x0003 jumps straight at a return; the second return underflows.
    let bytecode = [0x04, 0x00, 0x03, 0x05];
    let r = vm.execute_frame(&bytecode, no_input());
    assert_eq!(r, Err(FatalError::StackUnderflow));
}

#[test]
fn call_and_ret_balance() {
    let mut vm = Vm::new(false);
    let bytecode = [0x04, 0x00, 0x08, 0x00, 0x00, 0x00, 0x00, 0x00, 0x05];
    let r = vm.execute_frame(&bytecode, no_input());
    // The return pops the pushed continuation; no underflow occurs, and
    // the program then runs off the end of the buffer.
    assert_ne!(r, Err(FatalError::StackUnderflow));
    assert_eq!(r, Err(FatalError::OutOfRangeRead));
    assert_eq!(vm.stack_ptr, 0);
}

#[test]
fn recursive_call_overflows_stack() {
    let mut vm = Vm::new(false);
    let bytecode = [0x04, 0x00, 0x00];
    let r = vm.execute_frame(&bytecode, no_input());
    assert_eq!(r, Err(FatalError::StackOverflow));
}

#[test]
fn cond_jmp_equal_takes_jump() {
    let mut vm = Vm::new(false);
    // V[0] = 5, then jump to 0x0010 when V[0] equals the literal 5.
    let bytecode = [0x00, 0x00, 0x00, 0x05, 0x0A, 0x00, 0x00, 0x05, 0x00, 0x10];
    let r = vm.execute_frame(&bytecode, no_input());
    assert_eq!(r, Err(FatalError::OutOfRangeRead));
    assert_eq!(vm.thread_pc(0), 0x0010);
}

#[test]
fn cond_jmp_not_taken_falls_through() {
    let mut vm = Vm::new(false);
    // V[0] = 6 differs from 5: no jump, the pause ends the frame.
    let bytecode = [0x00, 0x00, 0x00, 0x06, 0x0A, 0x00, 0x00, 0x05, 0x00, 0x10, 0x06];
    let r = vm.execute_frame(&bytecode, no_input());
    assert_eq!(r, Ok(FrameResult::Complete));
    assert_eq!(vm.thread_pc(0), 11);
}

#[test]
fn blit_yields_sleep_budget() {
    let mut vm = Vm::new(false);
    // V[0xFF] = 3 sleep ticks, then a blit of page 0.
    let bytecode = [0x00, 0xFF, 0x00, 0x03, 0x10, 0x00];
    let r = vm.execute_frame(&bytecode, no_input());
    assert_eq!(r, Ok(FrameResult::Yield(Yield::Blit(60))));
    assert!(vm.resume_pending);
    let cmds = vm.video_commands();
    assert_eq!(cmds.len(), 1);
    assert!(matches!(cmds[0], VideoCommand::Blit(b) if b.page_id == 0));
    // The queue was drained.
    assert_eq!(vm.video_commands().len(), 0);
}

#[test]
fn load_res_yields_resource_request() {
    let mut vm = Vm::new(false);
    let bytecode = [0x19, 0x3E, 0x81];
    let r = vm.execute_frame(&bytecode, no_input());
    assert_eq!(r, Ok(FrameResult::Yield(Yield::ReqResource(0x3E81))));
}

#[test]
fn pause_completes_frame() {
    let mut vm = Vm::new(false);
    let bytecode = [0x06];
    let r = vm.execute_frame(&bytecode, no_input());
    assert_eq!(r, Ok(FrameResult::Complete));
    // Idle threads stayed idle across the frame.
    for t in 1..64 {
        assert_eq!(vm.thread_pc(t), 0xFFFF);
    }
}

#[test]
fn set_vec_kill_parks_thread_at_frame_boundary() {
    let mut vm = Vm::new(false);
    let bytecode = [
        0x08, 0x01, 0x00, 0x0B, // wire thread 1 to offset 11
        0x06, // pause: frame 1 ends
        0x08, 0x01, 0xFF, 0xFE, // request the kill of thread 1
        0x06, // pause: frame 2 ends
        0x00, 0x06, // offset 11: thread 1 pauses
    ];
    assert_eq!(vm.execute_frame(&bytecode, no_input()), Ok(FrameResult::Complete));
    assert_eq!(vm.thread_pc(1), 0xFFFF);
    assert_eq!(vm.execute_frame(&bytecode, no_input()), Ok(FrameResult::Complete));
    // The rewiring committed at the frame boundary; thread 1 ran.
    assert_eq!(vm.thread_pc(1), 12);
    let r = vm.execute_frame(&bytecode, no_input());
    // The kill committed at this frame boundary, before any thread ran.
    assert_eq!(vm.thread_pc(1), 0xFFFF);
    // Thread 0 then ran off the end of the buffer.
    assert_eq!(r, Err(FatalError::OutOfRangeRead));
}

#[test]
fn treset_backwards_range_is_fatal() {
    let mut vm = Vm::new(false);
    let bytecode = [0x0C, 0x05, 0x01, 0x02];
    assert_eq!(vm.execute_frame(&bytecode, no_input()), Err(FatalError::InvalidThreadRange));
}

#[test]
fn set_vec_bad_thread_id_is_fatal() {
    let mut vm = Vm::new(false);
    let bytecode = [0x08, 0x40, 0x00, 0x00];
    assert_eq!(vm.execute_frame(&bytecode, no_input()), Err(FatalError::InvalidThreadId(0x40)));
}

#[test]
fn unknown_opcode_is_fatal() {
    let mut vm = Vm::new(false);
    let bytecode = [0x3F];
    assert_eq!(vm.execute_frame(&bytecode, no_input()), Err(FatalError::InvalidOpcode(0x3F)));
}

#[test]
fn bitwise_and_shift_ops() {
    let mut vm = Vm::new(false);
    let bytecode = [
        0x00, 0x01, 0x00, 0xFF, // V[1] = 0x00FF
        0x14, 0x01, 0x00, 0x0F, // V[1] &= 0x000F
        0x16, 0x01, 0x00, 0x04, // V[1] <<= 4
        0x15, 0x01, 0x00, 0x01, // V[1] |= 1
        0x17, 0x01, 0x00, 0x04, // V[1] >>= 4
        0x06,
    ];
    let r = vm.execute_frame(&bytecode, no_input());
    assert_eq!(r, Ok(FrameResult::Complete));
    assert_eq!(vm.get_var(1), 0x000F);
}

#[test]
fn jnz_counts_down() {
    let mut vm = Vm::new(false);
    let bytecode = [
        0x00, 0x02, 0x00, 0x03, // V[2] = 3
        0x02, 0x03, 0x02, // V[3] += V[2] (wrapping add)
        0x09, 0x02, 0x00, 0x04, // V[2] -= 1, loop while nonzero
        0x06,
    ];
    let r = vm.execute_frame(&bytecode, no_input());
    assert_eq!(r, Ok(FrameResult::Complete));
    // 3 + 2 + 1 accumulated before the counter hit zero.
    assert_eq!(vm.get_var(3), 6);
    assert_eq!(vm.get_var(2), 0);
}

#[test]
fn input_packs_hero_variables() {
    let mut vm = Vm::new(false);
    let input = InputState {
        up: false,
        left: false,
        right: true,
        down: true,
        action: true,
        turbo: false,
    };
    let r = vm.execute_frame(&[0x06], input);
    assert_eq!(r, Ok(FrameResult::Complete));
    assert_eq!(vm.get_var(0xFC), 1); // left/right
    assert_eq!(vm.get_var(0xE5), 1); // up/down: down held, up not
    assert_eq!(vm.get_var(0xFB), 1); // jump/down copy
    assert_eq!(vm.get_var(0xFD), 1 | 4); // mask: right and down
    assert_eq!(vm.get_var(0xFA), 1); // action
    assert_eq!(vm.get_var(0xFE), (1 | 4 | 0x80) as i16);

    // Up wins over down, and the action flag is not cleared.
    let input2 = InputState {
        up: true,
        left: true,
        right: false,
        down: true,
        action: false,
        turbo: false,
    };
    let mut vm2 = Vm::new(false);
    vm2.execute_frame(&[0x06], input2).unwrap();
    assert_eq!(vm2.get_var(0xFC), -1);
    assert_eq!(vm2.get_var(0xE5), -1);
    assert_eq!(vm2.get_var(0xFD), 2 | 4 | 8);
    assert_eq!(vm2.get_var(0xFA), 0);
}

#[test]
fn short_draw_opcode_builds_command() {
    let mut vm = Vm::new(false);
    // Opcode 0x80 extends into the offset; the doubled offset wraps to
    // 0x0020 and the position is absolute.
    let bytecode = [0x80, 0x10, 0x28, 0x30];
    let r = vm.execute_frame(&bytecode, no_input());
    assert_eq!(r, Err(FatalError::OutOfRangeRead));
    let cmds = vm.video_commands();
    assert_eq!(cmds.len(), 1);
    match cmds[0] {
        VideoCommand::Draw(d) => {
            assert_eq!(d.polygon.buffer_offset, 0x20);
            assert_eq!(d.polygon.source, PolygonSource::Cinematic);
            assert_eq!(d.x, 40);
            assert_eq!(d.y, 48);
            assert_eq!(d.zoom, 0x40);
        }
        other => panic!("expected a draw, got {:?}", other),
    }
}

#[test]
fn short_draw_opcode_clamps_bottom_edge() {
    let mut vm = Vm::new(false);
    // A y past the bottom edge is clamped to 199, the overshoot going
    // into x.
    let bytecode = [0x80, 0x00, 0x28, 0xFF];
    let r = vm.execute_frame(&bytecode, no_input());
    assert_eq!(r, Err(FatalError::OutOfRangeRead));
    let cmds = vm.video_commands();
    match cmds[0] {
        VideoCommand::Draw(d) => {
            assert_eq!(d.y, 199);
            assert_eq!(d.x, 40 + (255 - 199));
        }
        other => panic!("expected a draw, got {:?}", other),
    }
}

#[test]
fn long_draw_opcode_variable_position() {
    let mut vm = Vm::new(false);
    // Opcode bits pick variable-sourced x and y; the position comes from
    // V[5] and V[6].
    let bytecode = [
        0x00, 0x05, 0x00, 0x64, // V[5] = 100
        0x00, 0x06, 0x00, 0x32, // V[6] = 50
        0x54, 0x00, 0x10, 0x05, 0x06, // draw at offset word 0x10, x V[5], y V[6]
    ];
    let r = vm.execute_frame(&bytecode, no_input());
    assert_eq!(r, Err(FatalError::OutOfRangeRead));
    let cmds = vm.video_commands();
    assert_eq!(cmds.len(), 1);
    match cmds[0] {
        VideoCommand::Draw(d) => {
            assert_eq!(d.polygon.buffer_offset, 0x20);
            assert_eq!(d.polygon.source, PolygonSource::Cinematic);
            assert_eq!(d.x, 100);
            assert_eq!(d.y, 50);
            assert_eq!(d.zoom, 0x40);
        }
        other => panic!("expected a draw, got {:?}", other),
    }
}

#[test]
fn long_draw_opcode_alt_video_source() {
    let mut vm = Vm::new(false);
    // Zoom bits 0b11 select the alternate video buffer with default zoom.
    let bytecode = [0x43, 0x00, 0x08, 0x00, 0x64, 0x00, 0x32];
    let r = vm.execute_frame(&bytecode, no_input());
    assert_eq!(r, Err(FatalError::OutOfRangeRead));
    let cmds = vm.video_commands();
    match cmds[0] {
        VideoCommand::Draw(d) => {
            assert_eq!(d.polygon.buffer_offset, 0x10);
            assert_eq!(d.polygon.source, PolygonSource::AltVideo);
            assert_eq!(d.x, 100);
            assert_eq!(d.y, 50);
            assert_eq!(d.zoom, 0x40);
        }
        other => panic!("expected a draw, got {:?}", other),
    }
}

#[test]
fn set_palette_uses_high_byte_only() {
    let mut vm = Vm::new(false);
    let bytecode = [0x0B, 0x12, 0x34, 0x06];
    let r = vm.execute_frame(&bytecode, no_input());
    assert_eq!(r, Ok(FrameResult::Complete));
    let cmds = vm.video_commands();
    assert!(matches!(cmds[0], VideoCommand::Palette(p) if p.palette_id == 0x12));
}

#[test]
fn mov_const_add_const_completes_with_kill() {
    let mut vm = Vm::new(false);
    // The move/add program with a thread kill appended so the frame ends
    // cleanly at the boundary.
    let bytecode = [0x00, 0x10, 0x12, 0x34, 0x03, 0x10, 0x00, 0x01, 0x11];
    let r = vm.execute_frame(&bytecode, no_input());
    assert_eq!(r, Ok(FrameResult::Complete));
    assert_eq!(vm.get_var(0x10), 0x1235);
    assert_eq!(vm.thread_pc(0), 0xFFFF);
}
