//! The executor driving the whole engine over in-memory banks, with a
//! recording rasterizer.

use another_world::error::Error;
use another_world::executor::Executor;
use another_world::gfx::Gfx;
use another_world::input::{Input, InputState};
use another_world::resources::{GamePart, Io};
use another_world::video::{Page, Polygon};

fn record(state: u8, bank_id: u8, bank_offset: u32, packed_size: u16, size: u16) -> Vec<u8> {
    let mut r = vec![0u8; 20];
    r[0] = state;
    r[7] = bank_id;
    r[8..12].copy_from_slice(&bank_offset.to_be_bytes());
    r[14..16].copy_from_slice(&packed_size.to_be_bytes());
    r[18..20].copy_from_slice(&size.to_be_bytes());
    r
}

/// In-memory banks holding a bytecode program for part two (the part the
/// bypass opens at) along with a palette and an empty cinematic buffer.
struct MemoryIo {
    bytecode: Vec<u8>,
}

impl Io for MemoryIo {
    fn load_memlist(&mut self) -> Result<Vec<u8>, Error> {
        let mut data = Vec::new();
        for i in 0..0x1au32 {
            let (off, size) = match i {
                0x17 => (1, 64),  // part two palette
                0x18 => (2, self.bytecode.len() as u16),
                0x19 => (3, 32),  // part two cinematic
                _ => (0, 4),
            };
            data.extend_from_slice(&record(0, 1, off, size, size));
        }
        data.push(0xFF);
        Ok(data)
    }

    fn read_bank(&mut self, _bank_id: u8, offset: u32, packed_size: u16) -> Result<Vec<u8>, Error> {
        let mut v = vec![0u8; packed_size as usize];
        match offset {
            1 => {
                for (i, b) in v.iter_mut().enumerate() {
                    *b = i as u8;
                }
            }
            2 => {
                let n = self.bytecode.len().min(v.len());
                v[..n].copy_from_slice(&self.bytecode[..n]);
            }
            _ => {}
        }
        Ok(v)
    }
}

/// A rasterizer that records what it was asked to do.
#[derive(Default)]
struct RecordingGfx {
    events: Vec<String>,
}

impl Gfx for RecordingGfx {
    fn blit(&mut self, page: Page) {
        self.events.push(format!("blit {:?}", page));
    }

    fn draw_polygon(&mut self, polygon: Polygon) {
        self.events.push(format!("polygon {} points", polygon.points().len()));
    }

    fn fill_page(&mut self, page: Page, color: u8) {
        self.events.push(format!("fill {:?} {}", page, color));
    }

    fn select_page(&mut self, page: Page) {
        self.events.push(format!("select {:?}", page));
    }

    fn copy_page(&mut self, src: Page, dest: Page, scroll: i16) {
        self.events.push(format!("copy {:?} {:?} {}", src, dest, scroll));
    }

    fn set_palette(&mut self, palette: Vec<(u8, u8, u8)>) {
        self.events.push(format!("palette {}", palette.len()));
    }

    fn draw_string(&mut self, string_id: u16, color: u8, x: i16, y: i16) {
        self.events.push(format!("string {:#x} {} {} {}", string_id, color, x, y));
    }
}

struct NoInput;

impl Input for NoInput {
    fn get_input(&self) -> InputState {
        InputState {
            up: false,
            left: false,
            right: false,
            down: false,
            action: false,
            turbo: false,
        }
    }
}

#[test]
fn executor_runs_a_frame_to_the_blit() {
    // Sleep three ticks, latch palette 0, fill the second working page,
    // blit it in; the run returns the 60 millisecond budget.
    let bytecode = vec![
        0x00, 0xFF, 0x00, 0x03, // V[sleep ticks] = 3
        0x0B, 0x00, 0x00, // latch palette 0
        0x0E, 0xFF, 0x02, // fill working page b with color 2
        0x10, 0xFF, // blit with a page swap
    ];
    let io = MemoryIo { bytecode };
    let executor = Executor::new(io, RecordingGfx::default(), NoInput, true);
    let mut executor = executor.unwrap();
    assert_eq!(executor.resources.loaded_part, Some(GamePart::Two));

    let ms = executor.run().unwrap();
    assert_eq!(ms, 60);
    assert_eq!(
        executor.gfx.events,
        vec![
            "fill Two 2".to_string(),
            "palette 16".to_string(),
            "blit Two".to_string(),
        ]
    );
}

#[test]
fn executor_switches_parts_between_frames() {
    // Request part three, pause; the executor prepares the new part
    // between frames and reinitializes the machine, which then fails to
    // find part three's entries in this tiny catalog and reports the
    // missing bytecode.
    let bytecode = vec![
        0x19, 0x3E, 0x82, // request part three
        0x06, // pause: the frame completes
    ];
    let io = MemoryIo { bytecode };
    let mut executor = Executor::new(io, RecordingGfx::default(), NoInput, true).unwrap();
    let r = executor.run();
    assert_eq!(r, Err(another_world::error::FatalError::MissingResource));
    assert_eq!(executor.resources.loaded_part, Some(GamePart::Three));
    // The machine was reset for the new part.
    assert_eq!(executor.vm.thread_pc(0), 0);
}
