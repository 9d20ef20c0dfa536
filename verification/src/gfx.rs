//! The rasterizer capability: whoever draws the frames implements this
//! over the emitted raster commands.

use vstd::prelude::*;

use crate::video::{Page, Polygon};

verus! {

/// A rasterizer over the logical 320 by 200 indexed-color screen. The
/// executor drains the sequencer's raster commands into these calls, in
/// order; a blit is a frame barrier.
pub trait Gfx {
    /// Present a page.
    fn blit(&mut self, page: Page);

    /// Draw one polygon on the current target page.
    fn draw_polygon(&mut self, polygon: Polygon);

    /// Fill a page with one color.
    fn fill_page(&mut self, page: Page, color: u8);

    /// Make a page the target of subsequent draws.
    fn select_page(&mut self, page: Page);

    /// Copy one page onto another with a vertical scroll.
    fn copy_page(&mut self, src: Page, dest: Page, scroll: i16);

    /// Apply a 16-color palette.
    fn set_palette(&mut self, palette: Vec<(u8, u8, u8)>);

    /// Draw the string table entry with this id. The engine forwards the
    /// id and the computed pixel position; the host owns the fixed string
    /// table and resolves the text, dropping ids it does not know.
    fn draw_string(&mut self, string_id: u16, color: u8, x: i16, y: i16);
}

} // verus!
