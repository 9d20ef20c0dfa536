//! The video sequencer: page mapping, the palette latch, page swaps, and
//! polygon decoding with culling.

use another_world::error::{Error, FatalError};
use another_world::resources::{GamePart, Io, PolygonResource, PolygonSource, Resources};
use another_world::video::{
    BlitCommand, CopyVideoPageCommand, DrawCommand, DrawStringCommand, FillVideoPageCommand,
    Page, PaletteCommand, RasterCommand, SelectVideoPageCommand, Video, VideoCommand,
};

/// A bank reader with fixed payloads for the entries of part one: a
/// palette of ramping bytes, empty-ish bytecode, and a polygon buffer the
/// tests overwrite per scenario.
struct FixtureIo {
    cinematic: Vec<u8>,
}

fn record(state: u8, bank_id: u8, bank_offset: u32, packed_size: u16, size: u16) -> Vec<u8> {
    let mut r = vec![0u8; 20];
    r[0] = state;
    r[7] = bank_id;
    r[8..12].copy_from_slice(&bank_offset.to_be_bytes());
    r[14..16].copy_from_slice(&packed_size.to_be_bytes());
    r[18..20].copy_from_slice(&size.to_be_bytes());
    r
}

impl FixtureIo {
    /// Entries 0x14 (palette, 64 bytes), 0x15 (bytecode), 0x16 (cinematic,
    /// this fixture's buffer), addressed by bank offsets 1, 2 and 3.
    fn memlist() -> Vec<u8> {
        let mut data = Vec::new();
        for i in 0..0x17u32 {
            let (off, size) = match i {
                0x14 => (1, 64),
                0x15 => (2, 16),
                0x16 => (3, 128),
                _ => (0, 4),
            };
            data.extend_from_slice(&record(0, 1, off, size, size));
        }
        data.push(0xFF);
        data
    }
}

impl Io for FixtureIo {
    fn load_memlist(&mut self) -> Result<Vec<u8>, Error> {
        Ok(FixtureIo::memlist())
    }

    fn read_bank(&mut self, _bank_id: u8, offset: u32, packed_size: u16) -> Result<Vec<u8>, Error> {
        let mut v = vec![0u8; packed_size as usize];
        match offset {
            1 => {
                for (i, b) in v.iter_mut().enumerate() {
                    *b = i as u8;
                }
            }
            3 => {
                let n = self.cinematic.len().min(v.len());
                v[..n].copy_from_slice(&self.cinematic[..n]);
            }
            _ => {}
        }
        Ok(v)
    }
}

fn fixture(cinematic: Vec<u8>) -> Resources<FixtureIo> {
    let mut res = Resources::load(FixtureIo { cinematic }).unwrap();
    res.prepare_part(GamePart::One);
    res
}

#[test]
fn blit_ff_swaps_working_pages() {
    let res = fixture(Vec::new());
    let mut video = Video::new();
    assert_eq!(video.working_page_a, Page::One);
    assert_eq!(video.working_page_b, Page::Two);

    video
        .push_command(VideoCommand::Blit(BlitCommand { page_id: 0xFF }), &res)
        .unwrap();
    assert_eq!(video.working_page_a, Page::Two);
    assert_eq!(video.working_page_b, Page::One);
    assert_eq!(video.raster, vec![RasterCommand::Blit(Page::Two)]);
}

#[test]
fn blit_fe_keeps_pages_and_literal_id_remaps() {
    let res = fixture(Vec::new());
    let mut video = Video::new();
    video
        .push_command(VideoCommand::Blit(BlitCommand { page_id: 0xFE }), &res)
        .unwrap();
    assert_eq!(video.working_page_a, Page::One);
    assert_eq!(video.working_page_b, Page::Two);

    video
        .push_command(VideoCommand::Blit(BlitCommand { page_id: 3 }), &res)
        .unwrap();
    assert_eq!(video.working_page_a, Page::Three);
    assert_eq!(video.working_page_b, Page::Two);
}

#[test]
fn palette_latch_applies_once() {
    let res = fixture(Vec::new());
    let mut video = Video::new();
    video
        .push_command(VideoCommand::Palette(PaletteCommand { palette_id: 0 }), &res)
        .unwrap();
    // Latched, not yet emitted.
    assert!(video.raster.is_empty());

    video
        .push_command(VideoCommand::Blit(BlitCommand { page_id: 0xFE }), &res)
        .unwrap();
    video
        .push_command(VideoCommand::Blit(BlitCommand { page_id: 0xFE }), &res)
        .unwrap();

    let palettes = video
        .raster
        .iter()
        .filter(|c| matches!(c, RasterCommand::SetPalette(_)))
        .count();
    assert_eq!(palettes, 1);
    assert!(matches!(video.raster[0], RasterCommand::SetPalette(_)));
    assert!(matches!(video.raster[1], RasterCommand::Blit(Page::One)));
    assert!(matches!(video.raster[2], RasterCommand::Blit(Page::One)));
}

#[test]
fn palette_colors_widened_from_nibbles() {
    let res = fixture(Vec::new());
    let mut video = Video::new();
    video
        .push_command(VideoCommand::Palette(PaletteCommand { palette_id: 1 }), &res)
        .unwrap();
    // Color n of palette 1 reads bytes 32 + 2n and 33 + 2n of the ramp.
    let palette = video.requested_palette.as_ref().unwrap();
    assert_eq!(palette.len(), 16);
    let c0 = 32u8;
    let c1 = 33u8;
    let r = (((c0 & 0x0f) << 2) | ((c0 & 0x0f) >> 2)) << 2;
    let g = (((c1 & 0xf0) >> 2) | ((c1 & 0xf0) >> 6)) << 2;
    let b = (((c1 & 0x0f) >> 2) | ((c1 & 0x0f) << 2)) << 2;
    assert_eq!(palette[0], (r, g, b));
}

#[test]
fn palette_missing_resource_is_fatal() {
    let mut res = Resources::load(FixtureIo { cinematic: Vec::new() }).unwrap();
    // No part prepared: the palette buffer is absent.
    let mut video = Video::new();
    let r = res.palette();
    assert!(r.is_none());
    let out = video.push_command(VideoCommand::Palette(PaletteCommand { palette_id: 0 }), &res);
    assert_eq!(out, Err(FatalError::MissingResource));
}

#[test]
fn select_fill_copy_and_string_commands() {
    let res = fixture(Vec::new());
    let mut video = Video::new();
    video
        .push_command(
            VideoCommand::SelectVideoPage(SelectVideoPageCommand { page_id: 2 }),
            &res,
        )
        .unwrap();
    assert_eq!(video.current_page, Page::Two);

    video
        .push_command(
            VideoCommand::FillVideoPage(FillVideoPageCommand { page_id: 0xFF, color: 7 }),
            &res,
        )
        .unwrap();

    // A copy onto itself is dropped.
    video
        .push_command(
            VideoCommand::CopyVideoPage(CopyVideoPageCommand {
                src_page_id: 1,
                dest_page_id: 1,
                scroll: 5,
            }),
            &res,
        )
        .unwrap();

    // A low source id copies without scroll.
    video
        .push_command(
            VideoCommand::CopyVideoPage(CopyVideoPageCommand {
                src_page_id: 0x81,
                dest_page_id: 2,
                scroll: 5,
            }),
            &res,
        )
        .unwrap();

    video
        .push_command(
            VideoCommand::DrawString(DrawStringCommand {
                string_id: 0x190,
                x: 3,
                y: 20,
                color: 6,
            }),
            &res,
        )
        .unwrap();

    assert_eq!(
        video.raster,
        vec![
            RasterCommand::Select(Page::Two),
            RasterCommand::Fill(Page::Two, 7),
            RasterCommand::Copy(Page::One, Page::Two, 5),
            RasterCommand::DrawString(0x190, 6, 16, 20),
        ]
    );
}

fn draw_cmd(offset: usize, x: i16, y: i16, zoom: i16) -> VideoCommand {
    VideoCommand::Draw(DrawCommand {
        polygon: PolygonResource { buffer_offset: offset, source: PolygonSource::Cinematic },
        x,
        y,
        zoom,
    })
}

#[test]
fn polygon_leaf_decodes_points() {
    // A leaf: mode 0xC4, bounds 8 by 4, four vertices.
    let cinematic = vec![0xC4, 8, 4, 4, 8, 0, 8, 4, 0, 4, 0, 0];
    let res = fixture(cinematic);
    let mut video = Video::new();
    video.push_command(draw_cmd(0, 160, 100, 64), &res).unwrap();
    assert_eq!(video.raster.len(), 1);
    match &video.raster[0] {
        RasterCommand::DrawPolygon(p) => {
            let pts = p.points().clone();
            // Vertices offset by (x - 8/2, y - 4/2) = (156, 98).
            assert_eq!(pts, vec![(164, 98), (164, 102), (156, 102), (156, 98)]);
        }
        other => panic!("expected a polygon, got {:?}", other),
    }
}

#[test]
fn polygon_offscreen_is_culled() {
    let cinematic = vec![0xC4, 8, 4, 4, 8, 0, 8, 4, 0, 4, 0, 0];
    let res = fixture(cinematic);
    let mut video = Video::new();
    // Far off the left edge: nothing is emitted.
    video.push_command(draw_cmd(0, -1000, 100, 64), &res).unwrap();
    assert!(video.raster.is_empty());
    // Far below the bottom edge.
    video.push_command(draw_cmd(0, 160, 1000, 64), &res).unwrap();
    assert!(video.raster.is_empty());
}

#[test]
fn polygon_group_recurses_with_color_override() {
    // A group at 0: offsets are halved words, so the leaf at byte 10 has
    // the offset word 5. The child carries a color override.
    let cinematic = vec![
        0x02, 0, 0, 0, // group, no offset shift, one child
        0x80, 0x05, 10, 10, 0x05, 0x00, // child: leaf at 5 * 2, color 5
        0xC0, 0, 1, 4, // offset 10: a degenerate vertical line leaf
    ];
    let res = fixture(cinematic);
    let mut video = Video::new();
    video.push_command(draw_cmd(0, 100, 100, 64), &res).unwrap();
    assert_eq!(video.raster.len(), 1);
    match &video.raster[0] {
        RasterCommand::DrawPolygon(p) => {
            assert!(matches!(p.blend, another_world::video::BlendMode::Solid(5)));
            // The degenerate rectangle around the shifted position.
            let pts = p.points().clone();
            assert_eq!(pts, vec![(110, 110), (109, 110), (109, 111), (110, 111)]);
        }
        other => panic!("expected a polygon, got {:?}", other),
    }
}

#[test]
fn polygon_blend_modes_from_color() {
    // Mask: color byte 0x10 exactly.
    let cinematic = vec![0xD0, 0, 1, 4];
    let res = fixture(cinematic);
    let mut video = Video::new();
    video.push_command(draw_cmd(0, 100, 100, 64), &res).unwrap();
    match &video.raster[0] {
        RasterCommand::DrawPolygon(p) => {
            assert!(matches!(p.blend, another_world::video::BlendMode::Mask(8)));
        }
        other => panic!("expected a polygon, got {:?}", other),
    }
    // Blend: color above 0x10.
    let cinematic = vec![0xD1, 0, 1, 4];
    let res = fixture(cinematic);
    let mut video = Video::new();
    video.push_command(draw_cmd(0, 100, 100, 64), &res).unwrap();
    match &video.raster[0] {
        RasterCommand::DrawPolygon(p) => {
            assert!(matches!(p.blend, another_world::video::BlendMode::Blend));
        }
        other => panic!("expected a polygon, got {:?}", other),
    }
}

#[test]
fn polygon_invalid_mode_is_fatal() {
    let cinematic = vec![0x00, 0, 0, 0];
    let res = fixture(cinematic);
    let mut video = Video::new();
    let r = video.push_command(draw_cmd(0, 100, 100, 64), &res);
    assert_eq!(r, Err(FatalError::InvalidPolygonMode(0)));
}

#[test]
fn polygon_too_many_vertices_is_fatal() {
    let cinematic = vec![0xC0, 0, 0, 60];
    let res = fixture(cinematic);
    let mut video = Video::new();
    let r = video.push_command(draw_cmd(0, 100, 100, 64), &res);
    assert_eq!(r, Err(FatalError::TooManyVertices));
}

#[test]
fn polygon_self_referencing_group_is_fatal() {
    // A group whose single child is the group itself.
    let cinematic = vec![0x02, 0, 0, 0, 0x00, 0x00, 0, 0];
    let res = fixture(cinematic);
    let mut video = Video::new();
    let r = video.push_command(draw_cmd(0, 100, 100, 64), &res);
    assert_eq!(r, Err(FatalError::PolygonTreeTooDeep));
}

#[test]
fn draw_without_resident_buffer_is_fatal() {
    let res = Resources::load(FixtureIo { cinematic: Vec::new() }).unwrap();
    let mut video = Video::new();
    let r = video.push_command(draw_cmd(0, 0, 0, 64), &res);
    assert_eq!(r, Err(FatalError::MissingResource));
}
