//! The video sequencer: four indexed-color pages, a latched palette, and
//! the translation of the virtual machine's video commands into abstract
//! raster commands for a pluggable rasterizer.

use vstd::prelude::*;

use crate::error::FatalError;
use crate::resources::{Io, PolygonResource, PolygonSource, Resources};
use crate::vm::ProgramCounter;

verus! {

/// Draw one polygon tree rooted at an offset of a polygon buffer.
#[derive(Debug, Copy, Clone, PartialEq, Eq, Structural)]
pub struct DrawCommand {
    pub polygon: PolygonResource,
    pub x: i16,
    pub y: i16,
    pub zoom: i16,
}

/// Latch a palette; it takes effect on the next blit.
#[derive(Debug, Copy, Clone, PartialEq, Eq, Structural)]
pub struct PaletteCommand {
    pub palette_id: u8,
}

/// Select the page that subsequent draws target.
#[derive(Debug, Copy, Clone, PartialEq, Eq, Structural)]
pub struct SelectVideoPageCommand {
    pub page_id: u8,
}

/// Fill a whole page with one color.
#[derive(Debug, Copy, Clone, PartialEq, Eq, Structural)]
pub struct FillVideoPageCommand {
    pub page_id: u8,
    pub color: u8,
}

/// Copy one page onto another, optionally scrolled.
#[derive(Debug, Copy, Clone, PartialEq, Eq, Structural)]
pub struct CopyVideoPageCommand {
    pub src_page_id: u8,
    pub dest_page_id: u8,
    pub scroll: i16,
}

/// Draw a string of the fixed string table.
#[derive(Debug, Copy, Clone, PartialEq, Eq, Structural)]
pub struct DrawStringCommand {
    pub string_id: u16,
    pub x: u8,
    pub y: u8,
    pub color: u8,
}

/// Present a page; the frame barrier.
#[derive(Debug, Copy, Clone, PartialEq, Eq, Structural)]
pub struct BlitCommand {
    pub page_id: u8,
}

/// A command of the virtual machine to the video sequencer.
#[derive(Debug, Copy, Clone, PartialEq, Eq, Structural)]
pub enum VideoCommand {
    Draw(DrawCommand),
    Palette(PaletteCommand),
    SelectVideoPage(SelectVideoPageCommand),
    FillVideoPage(FillVideoPageCommand),
    CopyVideoPage(CopyVideoPageCommand),
    DrawString(DrawStringCommand),
    Blit(BlitCommand),
}

/// One of the four work pages.
#[derive(Debug, Copy, Clone, Hash, Eq, PartialEq, Structural)]
pub enum Page {
    Zero,
    One,
    Two,
    Three,
}

/// How a polygon's color combines with the destination page.
#[derive(Debug, Copy, Clone, PartialEq, Eq, Structural)]
pub enum BlendMode {
    /// Write a fixed indexed color.
    Solid(u8),
    /// OR the mask into the destination.
    Mask(u8),
    /// Sample from page zero.
    Blend,
}

/// A decoded polygon, ready for tessellation.
#[derive(Debug, Clone, PartialEq, Eq)]
pub struct Polygon {
    pub points: Vec<(i16, i16)>,
    pub blend: BlendMode,
}

impl Polygon {
    /// A polygon carries at most 50 vertices.
    pub open spec fn wf(self) -> bool {
        self.spec_points().len() <= 50
    }

    pub open spec fn spec_points(self) -> Seq<(i16, i16)> {
        self.points@
    }

    pub fn new(points: Vec<(i16, i16)>, blend: BlendMode) -> (r: Polygon)
        requires
            points@.len() <= 50,
        ensures
            r.spec_points() == points@,
            r.blend == blend,
            r.wf(),
    {
        Polygon { points, blend }
    }

    /// The vertices, in drawing order.
    pub fn points(&self) -> (r: &Vec<(i16, i16)>)
        ensures
            r@ == self.spec_points(),
    {
        &self.points
    }
}

/// What the sequencer hands to the rasterizer. The drawing surface is a
/// logical 320 by 200 indexed-color screen with a 16-color palette.
#[derive(Debug, Clone, PartialEq, Eq)]
pub enum RasterCommand {
    /// Present this page.
    Blit(Page),
    /// Fill this page with a color.
    Fill(Page, u8),
    /// Copy one page to another with a vertical scroll.
    Copy(Page, Page, i16),
    /// Make this page the draw target.
    Select(Page),
    /// Draw the string with this table id, color and pixel position.
    DrawString(u16, u8, i16, i16),
    /// Draw one polygon on the current target.
    DrawPolygon(Polygon),
    /// Apply the 16 RGB triples of a latched palette.
    SetPalette(Vec<(u8, u8, u8)>),
}


/// The page a command's page id names: the four pages literally, the two
/// working-page aliases, and page zero as the fallback.
pub open spec fn spec_get_page(a: Page, b: Page, id: u8) -> Page {
    if id == 0 {
        Page::Zero
    } else if id == 1 {
        Page::One
    } else if id == 2 {
        Page::Two
    } else if id == 3 {
        Page::Three
    } else if id == 0xff {
        b
    } else if id == 0xfe {
        a
    } else {
        Page::Zero
    }
}

/// The first working page after a blit: swapped on 0xff, kept on 0xfe,
/// otherwise remapped.
pub open spec fn spec_blit_a(a: Page, b: Page, id: u8) -> Page {
    if id == 0xff {
        b
    } else if id == 0xfe {
        a
    } else {
        spec_get_page(a, b, id)
    }
}

/// The second working page after a blit: swapped on 0xff, kept otherwise.
pub open spec fn spec_blit_b(a: Page, b: Page, id: u8) -> Page {
    if id == 0xff {
        a
    } else {
        b
    }
}

/// The source page of a page copy.
pub open spec fn spec_copy_src(a: Page, b: Page, src: u8) -> Page {
    if src >= 0xfe {
        spec_get_page(a, b, src)
    } else if src & 0x80 == 0 {
        spec_get_page(a, b, src & 0xbf)
    } else {
        spec_get_page(a, b, src & 3)
    }
}

/// The scroll of a page copy: kept only for the high-bit source form.
pub open spec fn spec_copy_scroll(src: u8, scroll: i16) -> i16 {
    if src >= 0xfe {
        0i16
    } else if src & 0x80 == 0 {
        0i16
    } else {
        scroll
    }
}

/// One palette color from its two bytes: each 4-bit channel widened by
/// replication.
pub open spec fn spec_color(c0: u8, c1: u8) -> (u8, u8, u8) {
    ((((c0 & 0x0f) << 2) | ((c0 & 0x0f) >> 2)) << 2, (((c1 & 0xf0) >> 2) | ((c1 & 0xf0) >> 6))
        << 2, (((c1 & 0x0f) >> 2) | ((c1 & 0x0f) << 2)) << 2)
}

/// The 16 colors a palette id selects from the palette buffer.
pub open spec fn spec_palette_colors(s: Seq<u8>, id: u8) -> Seq<(u8, u8, u8)> {
    Seq::new(16, |n: int| spec_color(s[id * 32 + 2 * n], s[id * 32 + 2 * n + 1]))
}

/// `b` holds everything `a` held, in order, followed only by polygon draws.
pub open spec fn raster_draws_extended(a: Seq<RasterCommand>, b: Seq<RasterCommand>) -> bool {
    &&& b.len() >= a.len()
    &&& (forall|i: int| 0 <= i < a.len() ==> b[i] == a[i])
    &&& (forall|i: int| a.len() <= i < b.len() ==> (#[trigger] b[i]) is DrawPolygon)
}

/// Whether the polygon node at an offset is a leaf whose bounding box,
/// centered on the draw position, lies entirely off the 320 by 200 screen.
/// Stated for non-negative zoom, where exec and mathematical division
/// agree.
pub open spec fn spec_leaf_offscreen(m: Seq<u8>, off: int, x: i16, y: i16, zoom: int) -> bool {
    &&& zoom >= 0
    &&& 0 <= off
    &&& off + 4 <= m.len()
    &&& m[off] >= 0xc0
    &&& {
        let xb = m[off + 1] * zoom;
        let yb = m[off + 2] * zoom;
        x - xb / 2 > 319 || x + xb / 2 < 0 || y - yb / 2 > 199 || y + yb / 2 < 0
    }
}


/// The polygon a leaf node yields, decoded for non-negative zoom: the
/// vertex list, scaled and placed against the bounding box, and the blend
/// mode chosen by the effective color. `None` where the node is not a
/// leaf, is culled off-screen, declares too many vertices, or runs out of
/// buffer.
pub open spec fn sp_leaf(m: Seq<u8>, off: int, color: u8, x: i16, y: i16, zoom: i16) -> Option<
    (Seq<(i16, i16)>, BlendMode),
> {
    if !(zoom >= 0 && 0 <= off && off + 4 <= m.len() && m[off] >= 0xc0) {
        None
    } else {
        let xb = m[off + 1] * zoom;
        let yb = m[off + 2] * zoom;
        let n = m[off + 3] as int;
        let x_min = x - xb / 2;
        let x_max = x + xb / 2;
        let y_min = y - yb / 2;
        let y_max = y + yb / 2;
        if x_min > 319 || x_max < 0 || y_min > 199 || y_max < 0 {
            None
        } else if n > 50 {
            None
        } else {
            let c = if color & 0x80 != 0 {
                m[off] & 0x3f
            } else {
                color
            };
            let blend = if c < 0x10 {
                BlendMode::Solid(c)
            } else if c > 0x10 {
                BlendMode::Blend
            } else {
                BlendMode::Mask(0x8)
            };
            if xb == 0 && yb == 1 && n == 4 {
                Some(
                    (
                        seq![
                            (x, y),
                            (((x - 1) as i16), y),
                            (((x - 1) as i16), ((y + 1) as i16)),
                            (x, ((y + 1) as i16)),
                        ],
                        blend,
                    ),
                )
            } else if off + 4 + 2 * n <= m.len() {
                Some(
                    (
                        Seq::new(
                            n as nat,
                            |i: int|
                                {
                                    let px = m[off + 4 + 2 * i] * zoom + x_min - (if xb == 0 && n
                                        == 4 && i >= 2 {
                                        1int
                                    } else {
                                        0int
                                    });
                                    let py = m[off + 5 + 2 * i] * zoom + y_min;
                                    ((px as i16), (py as i16))
                                },
                        ),
                        blend,
                    ),
                )
            } else {
                None
            }
        }
    }
}


/// The polygons a whole tree yields, in draw order, as vertex lists with
/// their blend modes — for non-negative zoom. A culled leaf yields
/// nothing; `None` is a fatal condition: an unknown mode, a tree nested
/// past the depth bound, too many vertices, or a read past the buffer.
pub open spec fn sp_draw(
    m: Seq<u8>,
    color: u8,
    x: i16,
    y: i16,
    zoom: i16,
    off: int,
    depth: u8,
) -> Option<Seq<(Seq<(i16, i16)>, BlendMode)>>
    decreases depth, 300int,
{
    if !(zoom >= 0 && 0 <= off < m.len()) {
        None
    } else {
        let mode = m[off];
        if mode >= 0xc0 {
            if spec_leaf_offscreen(m, off, x, y, zoom as int) {
                Some(Seq::empty())
            } else {
                match sp_leaf(m, off, color, x, y, zoom) {
                    Some(pb) => Some(seq![pb]),
                    None => None,
                }
            }
        } else if mode & 0x3f == 2 {
            if depth == 0 || off + 4 > m.len() {
                None
            } else {
                sp_children(
                    m,
                    x - m[off + 1] * zoom,
                    y - m[off + 2] * zoom,
                    zoom,
                    off + 4,
                    0,
                    m[off + 3] as int,
                    depth,
                )
            }
        } else {
            None
        }
    }
}

/// The polygons of a group's children `k` through `n`, read from the
/// cursor onward: each child names an offset, its position bytes, and an
/// optional color override; its subtree is drawn one level deeper.
pub open spec fn sp_children(
    m: Seq<u8>,
    bx: int,
    by: int,
    zoom: i16,
    cur: int,
    k: int,
    n: int,
    depth: u8,
) -> Option<Seq<(Seq<(i16, i16)>, BlendMode)>>
    decreases depth, n + 2 - k,
{
    if k > n {
        Some(Seq::empty())
    } else if depth == 0 || cur + 4 > m.len() {
        None
    } else {
        let off_w = crate::be_u16(m[cur], m[cur + 1]);
        let child_x = ((bx + m[cur + 2] * zoom) as i16);
        let child_y = ((by + m[cur + 3] * zoom) as i16);
        let has_color = off_w & 0x8000 != 0;
        if has_color && cur + 6 > m.len() {
            None
        } else {
            let child_color = if has_color {
                m[cur + 4]
            } else {
                0xffu8
            };
            let next_cur = if has_color {
                cur + 6
            } else {
                cur + 4
            };
            match sp_draw(
                m,
                child_color,
                child_x,
                child_y,
                zoom,
                ((off_w & 0x7fff) * 2) as int,
                (depth - 1) as u8,
            ) {
                None => None,
                Some(es) => match sp_children(m, bx, by, zoom, next_cur, k + 1, n, depth) {
                    None => None,
                    Some(rest) => Some(es + rest),
                },
            }
        }
    }
}


/// The sequencer's page-and-latch state, abstracted.
pub struct VideoSt {
    pub latch: Option<Seq<(u8, u8, u8)>>,
    pub cur: Page,
    pub a: Page,
    pub b: Page,
}

/// The sequencer's abstract state.
pub open spec fn video_st(v: Video) -> VideoSt {
    VideoSt {
        latch: match v.requested_palette {
            Some(p) => Some(p@),
            None => None,
        },
        cur: v.current_page,
        a: v.working_page_a,
        b: v.working_page_b,
    }
}

/// What one command does to the sequencer's state, against the current
/// palette buffer: a palette command latches its colors, a page select or
/// a blit remaps the pages, a blit also consumes the latch; fills, copies,
/// string draws and polygon draws only emit. `None` where a palette
/// command finds no resident buffer or reaches past it.
pub open spec fn sp_video_step(s: VideoSt, cmd: VideoCommand, pal: Option<Seq<u8>>) -> Option<
    VideoSt,
> {
    match cmd {
        VideoCommand::Draw(_) => Some(s),
        VideoCommand::Palette(p) => match pal {
            Some(buf) => if (p.palette_id as int) * 32 + 32 <= buf.len() {
                Some((VideoSt { latch: Some(spec_palette_colors(buf, p.palette_id)), ..s }))
            } else {
                None
            },
            None => None,
        },
        VideoCommand::SelectVideoPage(sel) => Some(
            (VideoSt { cur: spec_get_page(s.a, s.b, sel.page_id), ..s }),
        ),
        VideoCommand::FillVideoPage(_) => Some(s),
        VideoCommand::CopyVideoPage(_) => Some(s),
        VideoCommand::DrawString(_) => Some(s),
        VideoCommand::Blit(bl) => Some(
            (VideoSt {
                latch: None,
                a: spec_blit_a(s.a, s.b, bl.page_id),
                b: spec_blit_b(s.a, s.b, bl.page_id),
                ..s
            }),
        ),
    }
}

/// The sequencer's state after a whole command sequence, in order.
pub open spec fn sp_video_run(s: VideoSt, cmds: Seq<VideoCommand>, pal: Option<Seq<u8>>) -> Option<
    VideoSt,
>
    decreases cmds.len(),
{
    if cmds.len() == 0 {
        Some(s)
    } else {
        match sp_video_step(s, cmds[0], pal) {
            None => None,
            Some(s2) => sp_video_run(s2, cmds.skip(1), pal),
        }
    }
}


/// The sequencer untouched: state and queue as they were.
pub open spec fn sp_video_unchanged(pre: Video, post: Video) -> bool {
    video_st(post) == video_st(pre) && post.raster@ == pre.raster@
}

/// How many palette applications a raster sequence carries.
pub open spec fn count_set_palette(s: Seq<RasterCommand>) -> int
    decreases s.len(),
{
    if s.len() == 0 {
        0
    } else {
        count_set_palette(s.drop_last()) + (if s.last() is SetPalette {
            1int
        } else {
            0int
        })
    }
}

/// Counting palette applications distributes over appending.
pub proof fn lemma_count_set_palette_add(a: Seq<RasterCommand>, b: Seq<RasterCommand>)
    ensures
        count_set_palette(a + b) == count_set_palette(a) + count_set_palette(b),
    decreases b.len(),
{
    if b.len() == 0 {
        assert(a + b =~= a);
    } else {
        lemma_count_set_palette_add(a, b.drop_last());
        assert((a + b).drop_last() =~= a + b.drop_last());
    }
}

/// A palette latched before two blits is applied exactly once, on the
/// first: its blit emits the palette and one presentation; the next blit,
/// with nothing latched, emits the presentation alone.
pub proof fn lemma_palette_latch(
    r0: Seq<RasterCommand>,
    r1: Seq<RasterCommand>,
    r2: Seq<RasterCommand>,
    p: Vec<(u8, u8, u8)>,
    a1: Page,
    a2: Page,
)
    requires
        r1 == r0 + seq![RasterCommand::SetPalette(p), RasterCommand::Blit(a1)],
        r2 == r1 + seq![RasterCommand::Blit(a2)],
    ensures
        count_set_palette(r2) == count_set_palette(r0) + 1,
{
    let s1 = seq![RasterCommand::SetPalette(p), RasterCommand::Blit(a1)];
    let s2 = seq![RasterCommand::Blit(a2)];
    let sp = seq![RasterCommand::SetPalette(p)];
    let e = Seq::<RasterCommand>::empty();
    lemma_count_set_palette_add(r0, s1);
    lemma_count_set_palette_add(r1, s2);
    assert(count_set_palette(e) == 0);
    assert(sp.drop_last() =~= e);
    assert(sp.last() == RasterCommand::SetPalette(p));
    assert(count_set_palette(sp) == count_set_palette(e) + 1);
    assert(s1.drop_last() =~= sp);
    assert(s1.last() == RasterCommand::Blit(a1));
    assert(count_set_palette(s1) == count_set_palette(sp));
    assert(s2.drop_last() =~= e);
    assert(s2.last() == RasterCommand::Blit(a2));
    assert(count_set_palette(s2) == count_set_palette(e));
}

/// How deep a polygon tree may nest before the decoder treats it as
/// malformed; the authored trees are a few levels deep.
pub const MAX_POLYGON_DEPTH: u8 = 16;

/// One coordinate byte scaled by the zoom factor, wide enough never to
/// overflow.
fn scale(b: u8, zoom: i16) -> (r: i32)
    ensures
        r == b as int * zoom as int,
        -0x7f8000 <= r <= 0x7f8000,
{
    proof {
        assert(-0x7f8000 <= (b as int) * (zoom as int) <= 0x7f8000) by (nonlinear_arith)
            requires
                0 <= b as int <= 255,
                -0x8000 <= zoom as int <= 0x7fff,
        ;
    }
    (b as i32) * (zoom as i32)
}

pub open spec fn eq_pages(a: Video, b: Video) -> bool {
    b.current_page == a.current_page && b.working_page_a == a.working_page_a && b.working_page_b
        == a.working_page_b
}

pub open spec fn eq_palette(a: Video, b: Video) -> bool {
    b.requested_palette == a.requested_palette
}

pub open spec fn eq_raster(a: Video, b: Video) -> bool {
    b.raster@ == a.raster@
}

/// The video sequencer: the current and working pages, the latched
/// palette, and the raster commands of the frame so far.
pub struct Video {
    pub requested_palette: Option<Vec<(u8, u8, u8)>>,
    pub current_page: Page,
    pub working_page_a: Page,
    pub working_page_b: Page,
    pub raster: Vec<RasterCommand>,
}

impl Video {
    /// A latched palette always holds 16 colors.
    pub open spec fn wf(self) -> bool {
        match self.requested_palette {
            Some(p) => p@.len() == 16,
            None => true,
        }
    }

    /// A fresh sequencer: nothing latched, the current page and the first
    /// working page both at page one.
    pub fn new() -> (r: Video)
        ensures
            r.wf(),
            r.requested_palette is None,
            r.current_page == Page::One,
            r.working_page_a == Page::One,
            r.working_page_b == Page::Two,
            r.raster@ == Seq::<RasterCommand>::empty(),
    {
        Video {
            requested_palette: None,
            current_page: Page::One,
            working_page_a: Page::One,
            working_page_b: Page::Two,
            raster: Vec::new(),
        }
    }

    /// Hand out the frame's raster commands and clear the queue.
    pub fn take_raster_commands(&mut self) -> (r: Vec<RasterCommand>)
        ensures
            r@ == old(self).raster@,
            final(self).raster@ == Seq::<RasterCommand>::empty(),
            eq_pages(*old(self), *final(self)),
            eq_palette(*old(self), *final(self)),
    {
        let mut out: Vec<RasterCommand> = Vec::new();
        std::mem::swap(&mut out, &mut self.raster);
        out
    }

    /// The page a command's page id names under the current working pages.
    fn get_page(&self, page_id: u8) -> (r: Page)
        ensures
            r == spec_get_page(self.working_page_a, self.working_page_b, page_id),
    {
        match page_id {
            0 => Page::Zero,
            1 => Page::One,
            2 => Page::Two,
            3 => Page::Three,
            0xff => self.working_page_b,
            0xfe => self.working_page_a,
            _ => Page::Zero,
        }
    }

    /// Dispatch one video command of the virtual machine against the
    /// current part's buffers, appending raster commands. Page selection,
    /// fills, copies, string draws and blits are pinned exactly; a polygon
    /// draw appends only polygon commands and an off-screen leaf appends
    /// nothing.
    pub fn push_command<I: Io>(&mut self, command: VideoCommand, resources: &Resources<I>) -> (r:
        Result<(), FatalError>)
        requires
            old(self).wf(),
        ensures
            final(self).wf(),
            r is Ok ==> sp_video_step(
                video_st(*old(self)),
                command,
                resources.spec_palette(),
            ) == Some(video_st(*final(self))),
            match command {
                VideoCommand::Draw(draw) => eq_pages(*old(self), *final(self)) && eq_palette(
                    *old(self),
                    *final(self),
                ) && raster_draws_extended(old(self).raster@, final(self).raster@) && ((
                match draw.polygon.source {
                    PolygonSource::Cinematic => resources.spec_cinematic(),
                    PolygonSource::AltVideo => resources.spec_alt_video(),
                }) matches Some(b) && spec_leaf_offscreen(
                    b,
                    draw.polygon.buffer_offset as int,
                    draw.x,
                    draw.y,
                    draw.zoom as int / 64,
                ) ==> final(self).raster@ == old(self).raster@) && (match (
                match draw.polygon.source {
                    PolygonSource::Cinematic => resources.spec_cinematic(),
                    PolygonSource::AltVideo => resources.spec_alt_video(),
                }) {
                    Some(b) => (match sp_leaf(
                        b,
                        draw.polygon.buffer_offset as int,
                        0xff,
                        draw.x,
                        draw.y,
                        ((draw.zoom / 64) as i16),
                    ) {
                        Some(pb) => final(self).raster@.len() == old(self).raster@.len() + 1 && (
                        final(self).raster@.last() matches RasterCommand::DrawPolygon(p)
                            && p.points@ == pb.0 && p.blend == pb.1),
                        None => true,
                    }),
                    None => true,
                }) && (match (match draw.polygon.source {
                    PolygonSource::Cinematic => resources.spec_cinematic(),
                    PolygonSource::AltVideo => resources.spec_alt_video(),
                }) {
                    Some(b) => (match sp_draw(
                        b,
                        0xff,
                        draw.x,
                        draw.y,
                        ((draw.zoom / 64) as i16),
                        draw.polygon.buffer_offset as int,
                        MAX_POLYGON_DEPTH,
                    ) {
                        Some(es) => r == Ok::<(), FatalError>(()) && final(self).raster@.len()
                            == old(self).raster@.len() + es.len() && (forall|j: int|
                            0 <= j < es.len() ==> (#[trigger] final(self).raster@[old(
                                self,
                            ).raster@.len() + j] matches RasterCommand::DrawPolygon(p)
                                && p.points@ == es[j].0 && p.blend == es[j].1)),
                        None => ((draw.zoom / 64) as i16) >= 0 ==> r is Err,
                    }),
                    None => r is Err,
                }),
                VideoCommand::Palette(pal) => match resources.spec_palette() {
                    Some(s) => if (pal.palette_id as int) * 32 + 32 <= s.len() {
                        r == Ok::<(), FatalError>(()) && (final(self).requested_palette matches Some(
                            p,
                        ) && p@ == spec_palette_colors(s, pal.palette_id)) && eq_pages(
                            *old(self),
                            *final(self),
                        ) && eq_raster(*old(self), *final(self))
                    } else {
                        r == Err::<(), FatalError>(FatalError::OutOfRangeRead) && eq_pages(
                            *old(self),
                            *final(self),
                        ) && eq_palette(*old(self), *final(self)) && eq_raster(
                            *old(self),
                            *final(self),
                        )
                    },
                    None => r == Err::<(), FatalError>(FatalError::MissingResource) && eq_pages(
                        *old(self),
                        *final(self),
                    ) && eq_palette(*old(self), *final(self)) && eq_raster(
                        *old(self),
                        *final(self),
                    ),
                },
                VideoCommand::SelectVideoPage(sel) => r == Ok::<(), FatalError>(()) && final(self).current_page == spec_get_page(
                    old(self).working_page_a,
                    old(self).working_page_b,
                    sel.page_id,
                ) && final(self).working_page_a == old(self).working_page_a && final(self).working_page_b == old(self).working_page_b && eq_palette(*old(self), *final(self))
                    && final(self).raster@ == old(self).raster@.push(
                    RasterCommand::Select(
                        spec_get_page(
                            old(self).working_page_a,
                            old(self).working_page_b,
                            sel.page_id,
                        ),
                    ),
                ),
                VideoCommand::FillVideoPage(fill) => r == Ok::<(), FatalError>(()) && eq_pages(
                    *old(self),
                    *final(self),
                ) && eq_palette(*old(self), *final(self)) && final(self).raster@ == old(
                    self,
                ).raster@.push(
                    RasterCommand::Fill(
                        spec_get_page(
                            old(self).working_page_a,
                            old(self).working_page_b,
                            fill.page_id,
                        ),
                        fill.color,
                    ),
                ),
                VideoCommand::CopyVideoPage(copy) => r == Ok::<(), FatalError>(()) && eq_pages(
                    *old(self),
                    *final(self),
                ) && eq_palette(*old(self), *final(self)) && final(self).raster@ == (if copy.src_page_id
                    == copy.dest_page_id {
                    old(self).raster@
                } else {
                    old(self).raster@.push(
                        RasterCommand::Copy(
                            spec_copy_src(
                                old(self).working_page_a,
                                old(self).working_page_b,
                                copy.src_page_id,
                            ),
                            spec_get_page(
                                old(self).working_page_a,
                                old(self).working_page_b,
                                copy.dest_page_id,
                            ),
                            spec_copy_scroll(copy.src_page_id, copy.scroll),
                        ),
                    )
                }),
                VideoCommand::DrawString(s) => r == Ok::<(), FatalError>(()) && eq_pages(
                    *old(self),
                    *final(self),
                ) && eq_palette(*old(self), *final(self)) && final(self).raster@ == old(
                    self,
                ).raster@.push(
                    RasterCommand::DrawString(
                        s.string_id,
                        s.color,
                        ((s.x - 1) * 8) as i16,
                        s.y as i16,
                    ),
                ),
                VideoCommand::Blit(blit) => r == Ok::<(), FatalError>(()) && final(self).working_page_a == spec_blit_a(
                    old(self).working_page_a,
                    old(self).working_page_b,
                    blit.page_id,
                ) && final(self).working_page_b == spec_blit_b(
                    old(self).working_page_a,
                    old(self).working_page_b,
                    blit.page_id,
                ) && final(self).current_page == old(self).current_page && final(self).requested_palette is None && final(self).raster@ == old(self).raster@ + (
                match old(self).requested_palette {
                    Some(p) => seq![
                        RasterCommand::SetPalette(p),
                        RasterCommand::Blit(
                            spec_blit_a(
                                old(self).working_page_a,
                                old(self).working_page_b,
                                blit.page_id,
                            ),
                        ),
                    ],
                    None => seq![
                        RasterCommand::Blit(
                            spec_blit_a(
                                old(self).working_page_a,
                                old(self).working_page_b,
                                blit.page_id,
                            ),
                        ),
                    ],
                }),
            },
    {
        match command {
            VideoCommand::Draw(draw) => self.draw(draw, resources),
            VideoCommand::Palette(pal) => {
                let buffer = match resources.palette() {
                    Some(b) => b,
                    None => {
                        return Err(FatalError::MissingResource);
                    },
                };
                let offset = (pal.palette_id as usize) * 32;
                if buffer.len() < offset + 32 {
                    return Err(FatalError::OutOfRangeRead);
                }
                let mut new_palette: Vec<(u8, u8, u8)> = Vec::new();
                let mut n: usize = 0;
                while n < 16
                    invariant
                        n <= 16,
                        new_palette@.len() == n,
                        buffer@.len() >= offset + 32,
                        offset == (pal.palette_id as int) * 32,
                        forall|j: int|
                            0 <= j < n ==> new_palette@[j] == spec_color(
                                buffer@[offset + 2 * j],
                                buffer@[offset + 2 * j + 1],
                            ),
                    decreases 16 - n,
                {
                    let c0 = buffer[offset + n * 2];
                    let c1 = buffer[offset + n * 2 + 1];
                    let r = (((c0 & 0x0f) << 2) | ((c0 & 0x0f) >> 2)) << 2;
                    let g = (((c1 & 0xf0) >> 2) | ((c1 & 0xf0) >> 6)) << 2;
                    let b = (((c1 & 0x0f) >> 2) | ((c1 & 0x0f) << 2)) << 2;
                    new_palette.push((r, g, b));
                    n = n + 1;
                }
                proof {
                    assert(new_palette@ =~= spec_palette_colors(
                        resources.spec_palette().unwrap(),
                        pal.palette_id,
                    ));
                }
                self.requested_palette = Some(new_palette);
                Ok(())
            },
            VideoCommand::FillVideoPage(fill) => {
                let page = self.get_page(fill.page_id);
                self.raster.push(RasterCommand::Fill(page, fill.color));
                Ok(())
            },
            VideoCommand::SelectVideoPage(select) => {
                self.current_page = self.get_page(select.page_id);
                self.raster.push(RasterCommand::Select(self.current_page));
                Ok(())
            },
            VideoCommand::CopyVideoPage(copy) => {
                if copy.src_page_id == copy.dest_page_id {
                    return Ok(());
                }
                let dest = self.get_page(copy.dest_page_id);
                let (src, scroll) = if copy.src_page_id >= 0xfe {
                    (self.get_page(copy.src_page_id), 0)
                } else if copy.src_page_id & 0x80 == 0 {
                    (self.get_page(copy.src_page_id & 0xbf), 0)
                } else {
                    (self.get_page(copy.src_page_id & 3), copy.scroll)
                };
                self.raster.push(RasterCommand::Copy(src, dest, scroll));
                Ok(())
            },
            VideoCommand::DrawString(string) => {
                let x = ((string.x as i16) - 1) * 8;
                self.raster.push(
                    RasterCommand::DrawString(string.string_id, string.color, x, string.y as i16),
                );
                Ok(())
            },
            VideoCommand::Blit(blit) => {
                match blit.page_id {
                    0xff => {
                        let temp = self.working_page_a;
                        self.working_page_a = self.working_page_b;
                        self.working_page_b = temp;
                    },
                    0xfe => (),
                    _ => {
                        self.working_page_a = self.get_page(blit.page_id);
                    },
                }
                match self.requested_palette.take() {
                    Some(palette) => {
                        self.raster.push(RasterCommand::SetPalette(palette));
                    },
                    None => (),
                }
                self.raster.push(RasterCommand::Blit(self.working_page_a));
                Ok(())
            },
        }
    }

    /// Draw one polygon tree out of the part's cinematic or alternate
    /// video buffer.
    fn draw<I: Io>(&mut self, command: DrawCommand, resources: &Resources<I>) -> (r: Result<
        (),
        FatalError,
    >)
        requires
            old(self).wf(),
        ensures
            final(self).wf(),
            eq_pages(*old(self), *final(self)),
            eq_palette(*old(self), *final(self)),
            raster_draws_extended(old(self).raster@, final(self).raster@),
            (match command.polygon.source {
                PolygonSource::Cinematic => resources.spec_cinematic(),
                PolygonSource::AltVideo => resources.spec_alt_video(),
            }) matches Some(b) && spec_leaf_offscreen(
                b,
                command.polygon.buffer_offset as int,
                command.x,
                command.y,
                command.zoom as int / 64,
            ) ==> final(self).raster@ == old(self).raster@,
            (match (match command.polygon.source {
                PolygonSource::Cinematic => resources.spec_cinematic(),
                PolygonSource::AltVideo => resources.spec_alt_video(),
            }) {
                Some(b) => (match sp_leaf(
                    b,
                    command.polygon.buffer_offset as int,
                    0xff,
                    command.x,
                    command.y,
                    ((command.zoom / 64) as i16),
                ) {
                    Some(pb) => final(self).raster@.len() == old(self).raster@.len() + 1 && (
                    final(self).raster@.last() matches RasterCommand::DrawPolygon(p) && p.points@
                        == pb.0 && p.blend == pb.1),
                    None => true,
                }),
                None => true,
            }),
            (match (match command.polygon.source {
                PolygonSource::Cinematic => resources.spec_cinematic(),
                PolygonSource::AltVideo => resources.spec_alt_video(),
            }) {
                Some(b) => (match sp_draw(
                    b,
                    0xff,
                    command.x,
                    command.y,
                    ((command.zoom / 64) as i16),
                    command.polygon.buffer_offset as int,
                    MAX_POLYGON_DEPTH,
                ) {
                    Some(es) => r == Ok::<(), FatalError>(()) && final(self).raster@.len() == old(
                        self,
                    ).raster@.len() + es.len() && (forall|j: int|
                        0 <= j < es.len() ==> (#[trigger] final(self).raster@[old(
                            self,
                        ).raster@.len() + j] matches RasterCommand::DrawPolygon(p) && p.points@
                            == es[j].0 && p.blend == es[j].1)),
                    None => ((command.zoom / 64) as i16) >= 0 ==> r is Err,
                }),
                None => r is Err,
            }),
    {
        let buffer = match command.polygon.source {
            PolygonSource::Cinematic => resources.cinematic(),
            PolygonSource::AltVideo => resources.alt_video(),
        };
        let buffer = match buffer {
            Some(b) => b,
            None => {
                return Err(FatalError::MissingResource);
            },
        };
        self.do_draw(
            0xff,
            command.x,
            command.y,
            command.zoom / 64,
            command.polygon.buffer_offset,
            buffer,
            MAX_POLYGON_DEPTH,
        )
    }

    /// Walk one polygon node: a leaf is decoded, culled against the screen
    /// and emitted; a group node recurses into its children, each with its
    /// own offset, position and optional color override.
    fn do_draw(
        &mut self,
        color: u8,
        x: i16,
        y: i16,
        zoom: i16,
        offset: usize,
        buffer: &[u8],
        depth: u8,
    ) -> (r: Result<(), FatalError>)
        requires
            old(self).wf(),
        ensures
            final(self).wf(),
            eq_pages(*old(self), *final(self)),
            eq_palette(*old(self), *final(self)),
            raster_draws_extended(old(self).raster@, final(self).raster@),
            spec_leaf_offscreen(buffer@, offset as int, x, y, zoom as int) ==> final(self).raster@
                == old(self).raster@,
            sp_leaf(buffer@, offset as int, color, x, y, zoom) matches Some(pb) ==> final(self).raster@.len() == old(self).raster@.len() + 1 && (final(self).raster@.last() matches
                RasterCommand::DrawPolygon(p) && p.points@ == pb.0 && p.blend == pb.1),
            sp_draw(buffer@, color, x, y, zoom, offset as int, depth) matches Some(es) ==> r
                == Ok::<(), FatalError>(()) && final(self).raster@.len() == old(
                self,
            ).raster@.len() + es.len() && (forall|j: int|
                0 <= j < es.len() ==> (#[trigger] final(self).raster@[old(self).raster@.len() + j]
                    matches RasterCommand::DrawPolygon(p) && p.points@ == es[j].0 && p.blend
                    == es[j].1)),
            (zoom >= 0 && sp_draw(buffer@, color, x, y, zoom, offset as int, depth) is None) ==> r
                is Err,
        decreases depth,
    {
        let mut pc = ProgramCounter { mem: buffer, address: offset };
        let mode = pc.read_u8()?;

        if mode >= 0xc0 {
            let zoom32 = zoom as i32;
            let x32 = x as i32;
            let y32 = y as i32;
            let x_bound = scale(pc.read_u8()?, zoom);
            let y_bound = scale(pc.read_u8()?, zoom);
            let num_points = pc.read_u8()? as usize;

            let x_min = x32 - x_bound / 2;
            let x_max = x32 + x_bound / 2;
            let y_min = y32 - y_bound / 2;
            let y_max = y32 + y_bound / 2;

            if x_min > 319 || x_max < 0 || y_min > 199 || y_max < 0 {
                return Ok(());
            }

            if num_points > 50 {
                return Err(FatalError::TooManyVertices);
            }

            let color = if color & 0x80 != 0 {
                mode & 0x3f
            } else {
                color
            };

            let blend = if color < 0x10 {
                BlendMode::Solid(color)
            } else if color > 0x10 {
                BlendMode::Blend
            } else {
                BlendMode::Mask(0x8)
            };

            let mut points: Vec<(i16, i16)> = Vec::new();
            if x_bound == 0 && y_bound == 1 && num_points == 4 {
                points.push((x, y));
                points.push((x - 1, y));
                points.push((x - 1, y + 1));
                points.push((x, y + 1));
            } else {
                let mut n: usize = 0;
                while n < num_points
                    invariant
                        self.wf(),
                        n <= num_points,
                        num_points <= 50,
                        points@.len() == n,
                        pc.mem@ == buffer@,
                        pc.address == offset + 4 + 2 * n,
                        pc.address <= buffer@.len(),
                        match sp_leaf(buffer@, offset as int, color, x, y, zoom) {
                            Some(_) => offset + 4 + 2 * (num_points as int) <= buffer@.len(),
                            None => true,
                        },
                        match sp_draw(buffer@, color, x, y, zoom, offset as int, depth) {
                            Some(_) => offset + 4 + 2 * (num_points as int) <= buffer@.len(),
                            None => true,
                        },
                        eq_pages(*old(self), *self),
                        eq_palette(*old(self), *self),
                        self.raster@ == old(self).raster@,
                        !spec_leaf_offscreen(buffer@, offset as int, x, y, zoom as int),
                        -0x800000 <= x_min <= 0x800000,
                        -0x800000 <= y_min <= 0x800000,
                        zoom >= 0 && (offset + 4 + 2 * num_points <= buffer@.len()) ==> forall|
                            j: int,
                        |
                            0 <= j < n ==> points@[j] == {
                                let px = buffer@[offset + 4 + 2 * j] * zoom + (x_min as int) - (
                                if x_bound == 0 && num_points == 4 && j >= 2 {
                                    1int
                                } else {
                                    0int
                                });
                                let py = buffer@[offset + 5 + 2 * j] * zoom + (y_min as int);
                                ((px as i16), (py as i16))
                            },
                    decreases num_points - n,
                {
                    let px = scale(pc.read_u8()?, zoom);
                    let py = scale(pc.read_u8()?, zoom);

                    let x_off: i32 = if x_bound == 0 && num_points == 4 && n >= 2 {
                        1
                    } else {
                        0
                    };

                    let fx = px + x_min - x_off;
                    let fy = py + y_min;
                    points.push((#[verifier::truncate] (fx as i16), #[verifier::truncate] (fy as i16)));
                    n = n + 1;
                }
            }

            let poly = Polygon::new(points, blend);
            self.raster.push(RasterCommand::DrawPolygon(poly));
            Ok(())
        } else if mode & 0x3f == 2 {
            if depth == 0 {
                return Err(FatalError::PolygonTreeTooDeep);
            }
            let x32 = x as i32 - scale(pc.read_u8()?, zoom);
            let y32 = y as i32 - scale(pc.read_u8()?, zoom);

            let num_children = pc.read_u8()?;
            let mut i: u16 = 0;
            while i <= num_children as u16
                invariant
                    self.wf(),
                    i <= num_children + 1,
                    eq_pages(*old(self), *self),
                    eq_palette(*old(self), *self),
                    raster_draws_extended(old(self).raster@, self.raster@),
                    pc.mem@ == buffer@,
                    !spec_leaf_offscreen(buffer@, offset as int, x, y, zoom as int),
                    sp_leaf(buffer@, offset as int, color, x, y, zoom) is None,
                    zoom >= 0 ==> ((sp_children(
                        buffer@,
                        x32 as int,
                        y32 as int,
                        zoom,
                        pc.address as int,
                        i as int,
                        num_children as int,
                        depth,
                    ) is Some) ==> sp_draw(
                        buffer@,
                        color,
                        x,
                        y,
                        zoom,
                        offset as int,
                        depth,
                    ) is Some),
                    depth >= 1,
                    -0x808000 <= x32 <= 0x808000,
                    -0x808000 <= y32 <= 0x808000,
                    match sp_draw(buffer@, color, x, y, zoom, offset as int, depth) {
                        Some(es) => (match sp_children(
                            buffer@,
                            x32 as int,
                            y32 as int,
                            zoom,
                            pc.address as int,
                            i as int,
                            num_children as int,
                            depth,
                        ) {
                            Some(rest) => es.len() == (self.raster@.len() - old(
                                self,
                            ).raster@.len()) + rest.len() && (forall|j: int|
                                0 <= j < self.raster@.len() - old(self).raster@.len() ==> (
                                #[trigger] self.raster@[old(self).raster@.len() + j] matches
                                    RasterCommand::DrawPolygon(p) && p.points@ == es[j].0
                                    && p.blend == es[j].1)) && (forall|j: int|
                                0 <= j < rest.len() ==> es[(self.raster@.len() - old(
                                    self,
                                ).raster@.len()) + j] == rest[j]),
                            None => false,
                        }),
                        None => true,
                    },
                decreases num_children + 1 - i,
            {
                let ghost root = sp_draw(buffer@, color, x, y, zoom, offset as int, depth);
                let ghost cur0 = pc.address as int;
                let ghost base = self.raster@;
                let ghost old_len = old(self).raster@.len() as int;

                let child_offset = pc.read_u16()?;

                let child_x = x32 + scale(pc.read_u8()?, zoom);
                let child_y = y32 + scale(pc.read_u8()?, zoom);

                let child_color = if child_offset & 0x8000 != 0 {
                    let c = pc.read_u8()?;
                    let _pad = pc.read_u8()?;
                    c
                } else {
                    0xff
                };

                proof {
                    assert(child_offset & 0x7fff <= 0x7fff) by (bit_vector);
                }
                let next_offset = (child_offset & 0x7fff) * 2;

                let r_child = self.do_draw(
                    child_color,
                    #[verifier::truncate] (child_x as i16),
                    #[verifier::truncate] (child_y as i16),
                    zoom,
                    next_offset as usize,
                    buffer,
                    depth - 1,
                );
                proof {
                    match root {
                        Some(es) => {
                            let suffix = sp_children(
                                buffer@,
                                x32 as int,
                                y32 as int,
                                zoom,
                                cur0,
                                i as int,
                                num_children as int,
                                depth,
                            );
                            let rest = suffix->Some_0;
                            let child = sp_draw(
                                buffer@,
                                child_color,
                                ((x32 + (buffer@[cur0 + 2] * zoom)) as i16),
                                ((y32 + (buffer@[cur0 + 3] * zoom)) as i16),
                                zoom,
                                ((child_offset & 0x7fff) * 2) as int,
                                (depth - 1) as u8,
                            );
                            assert(child is Some);
                            let es_c = child->Some_0;
                            let suffix2 = sp_children(
                                buffer@,
                                x32 as int,
                                y32 as int,
                                zoom,
                                pc.address as int,
                                i as int + 1,
                                num_children as int,
                                depth,
                            );
                            assert(suffix2 is Some);
                            let rest2 = suffix2->Some_0;
                            assert(rest == es_c + rest2);
                            let d0 = base.len() - old_len;
                            let dc = es_c.len() as int;
                            assert(self.raster@.len() - old_len == d0 + dc);
                            assert forall|j: int| 0 <= j < d0 + dc implies (
                            #[trigger] self.raster@[old_len + j] matches
                                RasterCommand::DrawPolygon(p) && p.points@ == es[j].0 && p.blend
                                == es[j].1) by {
                                if j < d0 {
                                    assert(self.raster@[old_len + j] == base[old_len + j]);
                                } else {
                                    assert(es[j] == rest[j - d0]);
                                    assert(rest[j - d0] == es_c[j - d0]);
                                    assert(self.raster@[base.len() + (j - d0)] matches
                                        RasterCommand::DrawPolygon(p) && p.points@ == es_c[j
                                        - d0].0 && p.blend == es_c[j - d0].1);
                                }
                            }
                            assert forall|j: int| 0 <= j < rest2.len() implies es[(
                            self.raster@.len() - old_len) + j] == rest2[j] by {
                                assert(es[d0 + dc + j] == rest[dc + j]);
                                assert(rest[dc + j] == rest2[j]);
                            }
                        },
                        None => {},
                    }
                }
                match r_child {
                    Ok(()) => {},
                    Err(e) => {
                        return Err(e);
                    },
                }
                i = i + 1;
            }
            Ok(())
        } else {
            Err(FatalError::InvalidPolygonMode(mode))
        }
    }
}

} // verus!
