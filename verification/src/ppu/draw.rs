//! Scanline rendering: background, window and objects.
use vstd::prelude::*;
use super::{Mode, Ppu, PX_WIDTH, LCDC_BG_B, LCDC_OBJ_B, LCDC_OBJL_B, LCDC_BG_AREA, LCDC_BG_SIGNED,
    LCDC_WIN_B, LCDC_WIN_AREA, VRAM_SIZE, OAM_SIZE};
use super::color_palette::{ColorPalette, spec_scale_channel};
use super::rgba_buf::RgbaBuf;
use crate::CompatMode;

verus! {

/// Background attribute: palette number.
pub const BG_PAL_B: u8 = 0x7;
/// Background attribute: tile data bank.
pub const BG_VBK_B: u8 = 0x8;
/// Background attribute: horizontal flip.
pub const BG_X_FLIP_B: u8 = 0x20;
/// Background attribute: vertical flip.
pub const BG_Y_FLIP_B: u8 = 0x40;
/// Background attribute: priority over objects.
pub const BG_PR_B: u8 = 0x80;

/// Object attribute: CGB palette number.
pub const SPR_CGB_PAL: u8 = 0x7;
/// Object attribute: tile data bank.
pub const SPR_TILE_BANK: u8 = 0x8;
/// Object attribute: DMG palette number.
pub const SPR_PAL: u8 = 0x10;
/// Object attribute: horizontal flip.
pub const SPR_FLIP_X: u8 = 0x20;
/// Object attribute: vertical flip.
pub const SPR_FLIP_Y: u8 = 0x40;
/// Object attribute: background colors 1-3 over the object.
pub const SPR_BG_FIRST: u8 = 0x80;

/// How a background pixel ranks against objects.
#[derive(Clone, Copy, PartialEq, Eq, Structural, Debug)]
pub enum Priority {
    /// Color 0: objects always show.
    Sprites,
    /// The tile has priority over objects.
    Bg,
    /// Objects show unless they ask to go behind.
    Normal,
}

/// An object of the current line.
#[derive(Clone, Copy)]
pub struct Obj {
    pub x: u8,
    pub y: u8,
    pub tile_index: u8,
    pub attr: u8,
}

/// OAM entry `k` (of 40) as an object of a line: Y and X are moved back by
/// their screen offsets.
pub open spec fn spec_oam_obj(oam: Seq<u8>, k: int) -> Obj {
    Obj {
        y: oam[4 * k].wrapping_sub(16),
        x: oam[4 * k + 1].wrapping_sub(8),
        tile_index: oam[4 * k + 2],
        attr: oam[4 * k + 3],
    }
}

/// Whether an object `height` lines high covers line `ly`.
pub open spec fn obj_on_line(o: Obj, ly: u8, height: u8) -> bool {
    ly.wrapping_sub(o.y) < height
}

/// The objects covering line `ly` among the first `k` OAM entries, in OAM
/// order.
pub open spec fn spec_line_objs(oam: Seq<u8>, ly: u8, height: u8, k: nat) -> Seq<Obj>
    decreases k,
{
    if k == 0 {
        Seq::empty()
    } else {
        let prev = spec_line_objs(oam, ly, height, (k - 1) as nat);
        let o = spec_oam_obj(oam, k - 1);
        if obj_on_line(o, ly, height) { prev.push(o) } else { prev }
    }
}

/// `e` inserted into `s` from the right: it moves left past every object
/// whose X is not greater than its own (on CGB past every object).
pub open spec fn spec_insert_obj(s: Seq<Obj>, e: Obj, by_x: bool) -> Seq<Obj>
    decreases s.len(),
{
    if s.len() == 0 {
        seq![e]
    } else if !by_x || s.last().x <= e.x {
        spec_insert_obj(s.drop_last(), e, by_x).push(s.last())
    } else {
        s.push(e)
    }
}

/// The drawing order of objects found in OAM order: by decreasing X, later
/// found first among equal X (DMG), or reversed (CGB); the last drawn wins.
pub open spec fn spec_draw_order(found: Seq<Obj>, by_x: bool) -> Seq<Obj>
    decreases found.len(),
{
    if found.len() == 0 {
        Seq::empty()
    } else {
        spec_insert_obj(spec_draw_order(found.drop_last(), by_x), found.last(), by_x)
    }
}

/// What objects draw depends on the display registers, video RAM and
/// palettes, not on the frame being built.
proof fn lemma_objs_pixel_frame(a: Ppu, b: Ppu, objs: Seq<Obj>, px: int, bgp: Seq<Priority>, mode: CompatMode, large: bool)
    requires
        a.lcdc == b.lcdc,
        a.ly == b.ly,
        a.vram == b.vram,
        a.obp0 == b.obp0,
        a.obp1 == b.obp1,
        a.ocp == b.ocp,
    ensures
        a.spec_objs_pixel(objs, px, bgp, mode, large) == b.spec_objs_pixel(objs, px, bgp, mode, large),
    decreases objs.len(),
{
    if objs.len() > 0 {
        lemma_objs_pixel_frame(a, b, objs.drop_last(), px, bgp, mode, large);
    }
}

/// The finished pixel does not depend on the mode's cycle counter.
#[verifier::rlimit(50)]
pub proof fn lemma_line_px_ignores_cycles(a: Ppu, b: Ppu, mode: CompatMode, i: int, under: (u8, u8, u8))
    requires
        a == (Ppu { ppu_cycles: a.ppu_cycles, ..b }),
    ensures
        a.spec_line_px(mode, i, under) == b.spec_line_px(mode, i, under),
{
    let large = a.lcdc & LCDC_OBJL_B != 0;
    lemma_objs_pixel_frame(a, b, a.spec_line_order(mode, large), i, Seq::new(160, |j: int| a.spec_line_prio(mode, j)), mode, large);
    assert(Seq::new(160, |j: int| a.spec_line_prio(mode, j)) =~= Seq::new(160, |j: int| b.spec_line_prio(mode, j)));
}

/// Objects found among fewer entries are a prefix of those found among more.
proof fn lemma_line_objs_prefix(oam: Seq<u8>, ly: u8, height: u8, k: nat, m: nat)
    requires
        k <= m,
    ensures
        spec_line_objs(oam, ly, height, k).len() <= spec_line_objs(oam, ly, height, m).len(),
        spec_line_objs(oam, ly, height, m).take(spec_line_objs(oam, ly, height, k).len() as int)
            == spec_line_objs(oam, ly, height, k),
    decreases m - k,
{
    if k < m {
        lemma_line_objs_prefix(oam, ly, height, k, (m - 1) as nat);
        let a = spec_line_objs(oam, ly, height, k);
        let b = spec_line_objs(oam, ly, height, (m - 1) as nat);
        let c = spec_line_objs(oam, ly, height, m);
        assert(c.take(a.len() as int) =~= b.take(a.len() as int));
    } else {
        let a = spec_line_objs(oam, ly, height, k);
        assert(a.take(a.len() as int) =~= a);
    }
}

/// Inserting keeps the length: one more than before.
proof fn lemma_insert_len(s: Seq<Obj>, e: Obj, by_x: bool)
    ensures
        spec_insert_obj(s, e, by_x).len() == s.len() + 1,
    decreases s.len(),
{
    if s.len() > 0 && (!by_x || s.last().x <= e.x) {
        lemma_insert_len(s.drop_last(), e, by_x);
    }
}

/// The drawing order has as many objects as were found.
proof fn lemma_draw_order_len(found: Seq<Obj>, by_x: bool)
    ensures
        spec_draw_order(found, by_x).len() == found.len(),
    decreases found.len(),
{
    if found.len() > 0 {
        lemma_draw_order_len(found.drop_last(), by_x);
        lemma_insert_len(spec_draw_order(found.drop_last(), by_x), found.last(), by_x);
    }
}

/// The shade (0 to 3) that DMG palette `palette` gives color `color`.
pub open spec fn spec_shade_index(palette: u8, color: u8) -> u8 {
    (palette >> (color * 2) as u8) & 3
}

/// The shade that DMG palette `palette` gives color `color` (0 to 3).
pub fn shade_index(palette: u8, color: u8) -> (r: u8)
    requires
        color < 4,
    ensures
        r == spec_shade_index(palette, color),
        r < 4,
{
    let r = (palette >> (color * 2)) & 0x3;
    assert(r < 4) by (bit_vector)
        requires r == (palette >> (color * 2)) & 3u8;
    r
}

/// The gray levels of the monochrome display, from white to black.
pub open spec fn spec_mono_rgb(index: u8) -> (u8, u8, u8) {
    if index == 0 {
        (0xFF, 0xFF, 0xFF)
    } else if index == 1 {
        (0xCC, 0xCC, 0xCC)
    } else if index == 2 {
        (0x77, 0x77, 0x77)
    } else {
        (0x00, 0x00, 0x00)
    }
}

fn mono_rgb(index: u8) -> (r: (u8, u8, u8))
    ensures
        r == spec_mono_rgb(index),
{
    if index == 0 {
        (0xFF, 0xFF, 0xFF)
    } else if index == 1 {
        (0xCC, 0xCC, 0xCC)
    } else if index == 2 {
        (0x77, 0x77, 0x77)
    } else {
        (0x00, 0x00, 0x00)
    }
}

/// The 2-bit color of pixel `x` (0 leftmost) of a tile row given by its two
/// bit planes, optionally mirrored.
pub open spec fn spec_tile_color(lo: u8, hi: u8, x: u8, flip: bool) -> u8 {
    let bit: u8 = if flip { x & 7 } else { (7 - (x & 7)) as u8 };
    let mask: u8 = 1u8 << bit;
    (if hi & mask != 0 { 2u8 } else { 0u8 }) | (if lo & mask != 0 { 1u8 } else { 0u8 })
}

fn tile_color(lo: u8, hi: u8, x: u8, flip: bool) -> (r: u8)
    ensures
        r == spec_tile_color(lo, hi, x, flip),
        r < 4,
{
    proof { crate::bits::lemma_and_u8(x, 7); }
    let mut bit = x & 7;
    if !flip {
        bit = 7 - bit;
    }
    let mask: u8 = 1u8 << bit;
    let a: u8 = if hi & mask != 0 { 2u8 } else { 0u8 };
    let b: u8 = if lo & mask != 0 { 1u8 } else { 0u8 };
    assert((a == 0 || a == 2) && (b == 0 || b == 1) ==> a | b < 4) by (bit_vector);
    a | b
}

/// The colour of a background or window pixel with shade or color `c`.
pub open spec fn spec_bg_rgb(pal: ColorPalette, bgp: u8, mode: CompatMode, attr: u8, color: u8) -> (u8, u8, u8) {
    match mode {
        CompatMode::Dmg => spec_mono_rgb(spec_shade_index(bgp, color)),
        CompatMode::Compat => {
            let i = ((attr & BG_PAL_B) * 4 + spec_shade_index(bgp, color)) * 3;
            (spec_scale_channel(pal.col[i]), spec_scale_channel(pal.col[i + 1]), spec_scale_channel(pal.col[i + 2]))
        },
        CompatMode::Cgb => {
            let i = ((attr & BG_PAL_B) * 4 + color) * 3;
            (spec_scale_channel(pal.col[i]), spec_scale_channel(pal.col[i + 1]), spec_scale_channel(pal.col[i + 2]))
        },
    }
}

/// Priority of a background pixel of color `color` with attributes `attr`.
pub open spec fn spec_priority(color: u8, attr: u8) -> Priority {
    if color == 0 { Priority::Sprites } else if attr & BG_PR_B != 0 { Priority::Bg } else { Priority::Normal }
}

/// The red, green and blue bytes of pixel `i` of a frame.
pub open spec fn spec_px(buf: Seq<u8>, i: int) -> (u8, u8, u8) {
    (buf[4 * i], buf[4 * i + 1], buf[4 * i + 2])
}

/// The 24-bit color `color` of CGB palette `palette`.
pub open spec fn spec_cgb_rgb(p: ColorPalette, palette: u8, color: u8) -> (u8, u8, u8) {
    let i = (palette * 4 + color) * 3;
    (spec_scale_channel(p.col[i]), spec_scale_channel(p.col[i + 1]), spec_scale_channel(p.col[i + 2]))
}

/// `c` drawn over `under`: an object pixel, or what was there.
pub open spec fn spec_over(c: Option<(u8, u8, u8)>, under: (u8, u8, u8)) -> (u8, u8, u8) {
    match c {
        Some(v) => v,
        None => under,
    }
}

/// Whether `a` and `b` hold the same bytes outside the `n` pixels from pixel `base`.
pub open spec fn same_outside(a: Seq<u8>, b: Seq<u8>, base: int, n: int) -> bool {
    &&& a.len() == b.len()
    &&& forall|k: int| 0 <= k < a.len() && !(4 * base <= k < 4 * (base + n)) ==> #[trigger] a[k] == b[k]
}

/// Background and window tile data: with LCDC bit 4 clear tile number `n`
/// is signed and addresses 0x9000 + 16 * n (so tile 0 is at 0x9000 and
/// tile 0x80 at 0x8800); with it set, 0x8000 + 16 * n.
pub proof fn law_tile_data_address(p: Ppu, n: u8)
    ensures
        p.lcdc & LCDC_BG_SIGNED == 0 ==> p.spec_tile_addr(n) == 0x9000 + 16 * (n as i8),
        p.lcdc & LCDC_BG_SIGNED != 0 ==> p.spec_tile_addr(n) == 0x8000 + 16 * n,
{
}

impl Ppu {
    /// Byte `addr` of video RAM bank `bank`.
    pub open spec fn spec_vram_at_bank(&self, addr: u16, bank: u8) -> u8 {
        self.vram[(addr & 0x1FFF) + bank * 0x2000]
    }

    /// Address of the first row of tile `tile_num` in the tile data area
    /// that LCDC selects.
    pub open spec fn spec_tile_addr(&self, tile_num: u8) -> u16 {
        if self.lcdc & LCDC_BG_SIGNED == 0 {
            (0x8800 + (((tile_num as i8) as int + 0x80) * 16)) as u16
        } else {
            (0x8000 + tile_num * 16) as u16
        }
    }

    /// Address of the background tile map.
    pub open spec fn spec_bg_tile_map(&self) -> u16 {
        if self.lcdc & LCDC_BG_AREA != 0 { 0x9C00 } else { 0x9800 }
    }

    /// Address of the window tile map.
    pub open spec fn spec_win_tile_map(&self) -> u16 {
        if self.lcdc & LCDC_WIN_AREA != 0 { 0x9C00 } else { 0x9800 }
    }

    /// Whether the background is drawn.
    pub open spec fn spec_bg_enabled(&self, mode: CompatMode) -> bool {
        match mode {
            CompatMode::Dmg | CompatMode::Compat => self.lcdc & LCDC_BG_B != 0,
            CompatMode::Cgb => true,
        }
    }

    /// Color and priority of pixel `i` of the current line for the tile map at
    /// `map` scrolled to pixel `x` of row `y` of the map.
    pub open spec fn spec_map_pixel(&self, mode: CompatMode, map: u16, x: u8, y: u8) -> ((u8, u8, u8), Priority) {
        let row = (y / 8) as u16 * 32;
        let line = ((y & 7) * 2) as u16;
        let tile_map = (map + row + (x / 8)) as u16;
        let attr = if mode == CompatMode::Cgb { self.spec_vram_at_bank(tile_map, 1) } else { 0u8 };
        let tile_num = self.spec_vram_at_bank(tile_map, 0);
        let addr = (self.spec_tile_addr(tile_num) + (if attr & BG_Y_FLIP_B == 0 { line } else { (14 - line) as u16 })) as u16;
        let bank: u8 = if attr & BG_VBK_B != 0 { 1 } else { 0 };
        let lo = self.spec_vram_at_bank(addr, bank);
        let hi = self.spec_vram_at_bank((addr + 1) as u16, bank);
        let color = spec_tile_color(lo, hi, x, attr & BG_X_FLIP_B != 0);
        (spec_bg_rgb(self.bcp, self.bgp, mode, attr, color), spec_priority(color, attr))
    }

    /// Background pixel `i` of the current line.
    pub open spec fn spec_bg_pixel(&self, mode: CompatMode, i: u8) -> ((u8, u8, u8), Priority) {
        self.spec_map_pixel(mode, self.spec_bg_tile_map(), i.wrapping_add(self.scx), self.ly.wrapping_add(self.scy))
    }

    /// The two bytes of the row of object `o` on the current line.
    pub open spec fn spec_obj_row(&self, o: Obj, large: bool) -> (u8, u8) {
        let height: u8 = if large { 16 } else { 8 };
        let tile_number = if large { o.tile_index & !1u8 } else { o.tile_index };
        let dy = self.ly.wrapping_sub(o.y) as u16;
        let offset: u16 = if o.attr & SPR_FLIP_Y == 0 {
            dy.wrapping_mul(2)
        } else {
            ((height - 1) as u16).wrapping_sub(dy).wrapping_mul(2)
        };
        let tile_addr = (((tile_number as u16) * 16) as u16).wrapping_add(offset);
        let bank: u8 = if o.attr & SPR_TILE_BANK != 0 { 1 } else { 0 };
        (self.spec_vram_at_bank(tile_addr, bank), self.spec_vram_at_bank(tile_addr.wrapping_add(1), bank))
    }

    /// The 24-bit color of color `color` of object `o`.
    pub open spec fn spec_obj_rgb(&self, o: Obj, color: u8, mode: CompatMode) -> (u8, u8, u8) {
        let palette = if o.attr & SPR_PAL == 0 { self.obp0 } else { self.obp1 };
        match mode {
            CompatMode::Dmg => spec_mono_rgb(spec_shade_index(palette, color)),
            CompatMode::Compat => spec_cgb_rgb(self.ocp, 0, spec_shade_index(palette, color)),
            CompatMode::Cgb => spec_cgb_rgb(self.ocp, o.attr & SPR_CGB_PAL, color),
        }
    }

    /// What object `o` draws at screen column `px` of the current line:
    /// nothing where it does not reach, where the background has priority
    /// (unless CGB master priority is off), or where its color is 0.
    pub open spec fn spec_obj_pixel(&self, o: Obj, px: int, bgp: Seq<Priority>, mode: CompatMode, large: bool) -> Option<(u8, u8, u8)> {
        let col = (px - o.x) % 256;
        let master = mode == CompatMode::Cgb && self.lcdc & LCDC_BG_B == 0;
        if col >= 8 {
            None
        } else if !master && (bgp[px] == Priority::Bg || (o.attr & SPR_BG_FIRST != 0 && bgp[px] == Priority::Normal)) {
            None
        } else {
            let (lo, hi) = self.spec_obj_row(o, large);
            let color = spec_tile_color(lo, hi, col as u8, o.attr & SPR_FLIP_X != 0);
            if color == 0 { None } else { Some(self.spec_obj_rgb(o, color, mode)) }
        }
    }

    /// What the objects draw at screen column `px`, drawn in order: the
    /// last one that draws there wins.
    pub open spec fn spec_objs_pixel(&self, objs: Seq<Obj>, px: int, bgp: Seq<Priority>, mode: CompatMode, large: bool) -> Option<(u8, u8, u8)>
        decreases objs.len(),
    {
        if objs.len() == 0 {
            None
        } else {
            match self.spec_obj_pixel(objs.last(), px, bgp, mode, large) {
                Some(c) => Some(c),
                None => self.spec_objs_pixel(objs.drop_last(), px, bgp, mode, large),
            }
        }
    }

    /// The objects of the current line in drawing order.
    pub open spec fn spec_line_order(&self, mode: CompatMode, large: bool) -> Seq<Obj> {
        let height: u8 = if large { 16 } else { 8 };
        let all = spec_line_objs(self.oam@, self.ly, height, 64);
        let found = if all.len() > 10 { all.take(10) } else { all };
        spec_draw_order(found, mode != CompatMode::Cgb)
    }

    /// Whether the window is enabled: on DMG it also needs the background.
    pub open spec fn spec_win_enabled(&self, mode: CompatMode) -> bool {
        match mode {
            CompatMode::Dmg | CompatMode::Compat => self.lcdc & (LCDC_BG_B | LCDC_WIN_B) == (LCDC_BG_B | LCDC_WIN_B),
            CompatMode::Cgb => self.lcdc & LCDC_WIN_B != 0,
        }
    }

    /// Whether the window shows on the current line.
    pub open spec fn spec_win_shown(&self, mode: CompatMode) -> bool {
        self.spec_win_enabled(mode) && self.wy <= self.ly && self.wx < 160
    }

    /// The first screen column of the window.
    pub open spec fn spec_win_x(&self) -> u8 {
        if self.wx >= 7 { (self.wx - 7) as u8 } else { 0 }
    }

    /// Window pixel at screen column `i` (at least the window's first
    /// column) of the current line: the window's own line counter skips the
    /// lines on which it was hidden.
    pub open spec fn spec_win_pixel(&self, mode: CompatMode, i: u8) -> ((u8, u8, u8), Priority) {
        let y = ((self.ly - self.wy) as u8).wrapping_sub(self.ppu_win_skipped);
        self.spec_map_pixel(mode, self.spec_win_tile_map(), (i - self.spec_win_x()) as u8, y)
    }

    fn win_enabled(&self, mode: CompatMode) -> (r: bool)
        ensures
            r == self.spec_win_enabled(mode),
    {
        match mode {
            CompatMode::Dmg | CompatMode::Compat => self.lcdc & (LCDC_BG_B | LCDC_WIN_B) == (
            LCDC_BG_B | LCDC_WIN_B),
            CompatMode::Cgb => self.lcdc & LCDC_WIN_B != 0,
        }
    }

    fn bg_enabled(&self, mode: CompatMode) -> (r: bool)
        ensures
            r == self.spec_bg_enabled(mode),
    {
        match mode {
            CompatMode::Dmg | CompatMode::Compat => self.lcdc & LCDC_BG_B != 0,
            CompatMode::Cgb => true,
        }
    }

    /// On CGB, a cleared LCDC bit 0 gives objects priority over everything.
    fn cgb_master_priority(&self, mode: CompatMode) -> (r: bool)
        ensures
            r == (mode == CompatMode::Cgb && self.lcdc & LCDC_BG_B == 0),
    {
        match mode {
            CompatMode::Dmg | CompatMode::Compat => false,
            CompatMode::Cgb => self.lcdc & LCDC_BG_B == 0,
        }
    }

    fn bg_tile_map(&self) -> (r: u16)
        ensures
            r == self.spec_bg_tile_map(),
    {
        let b: u16 = if self.lcdc & LCDC_BG_AREA != 0 { 1 } else { 0 };
        let r = 0x9800 | b << 10u16;
        assert(b <= 1 ==> 0x9800u16 | b << 10u16 == if b == 1 { 0x9C00u16 } else { 0x9800u16 }) by (bit_vector);
        r
    }

    fn win_tile_map(&self) -> (r: u16)
        ensures
            r == self.spec_win_tile_map(),
    {
        let b: u16 = if self.lcdc & LCDC_WIN_AREA != 0 { 1 } else { 0 };
        let r = 0x9800 | b << 10u16;
        assert(b <= 1 ==> 0x9800u16 | b << 10u16 == if b == 1 { 0x9C00u16 } else { 0x9800u16 }) by (bit_vector);
        r
    }

    fn tile_addr(&self, tile_num: u8) -> (r: u16)
        ensures
            r == self.spec_tile_addr(tile_num),
            0x8000 <= r <= 0x97F0,
    {
        let signed = self.lcdc & LCDC_BG_SIGNED == 0;
        let base: u16 = if signed { 0x8800 } else { 0x8000 };
        let offset: u16 = if signed {
            let t = tile_num as i8;
            assert(-128 <= t <= 127);
            ((t as i16) + 0x80) as u16
        } else {
            tile_num as u16
        };
        base + offset * 16
    }

    fn vram_at_bank(&self, addr: u16, bank: u8) -> (r: u8)
        requires
            bank <= 1,
        ensures
            r == self.spec_vram_at_bank(addr, bank),
    {
        assert(addr & 0x1FFF <= 0x1FFF) by (bit_vector);
        self.vram[((addr & 0x1FFF) + (bank as u16) * VRAM_SIZE) as usize]
    }

    fn bg_tile(&self, tile_addr: u16, attr: u8) -> (r: (u8, u8))
        requires
            tile_addr < 0xFFFF,
        ensures
            ({
                let bank: u8 = if attr & BG_VBK_B != 0 { 1 } else { 0 };
                r == (self.spec_vram_at_bank(tile_addr, bank), self.spec_vram_at_bank((tile_addr + 1) as u16, bank))
            }),
    {
        let bank: u8 = if attr & BG_VBK_B != 0 { 1 } else { 0 };
        let lo = self.vram_at_bank(tile_addr, bank);
        let hi = self.vram_at_bank(tile_addr + 1, bank);
        (lo, hi)
    }

    fn obj_tile(&self, tile_addr: u16, obj: &Obj) -> (r: (u8, u8))
        ensures
            ({
                let bank: u8 = if obj.attr & SPR_TILE_BANK != 0 { 1 } else { 0 };
                r == (self.spec_vram_at_bank(tile_addr, bank), self.spec_vram_at_bank(tile_addr.wrapping_add(1), bank))
            }),
    {
        let bank: u8 = if obj.attr & SPR_TILE_BANK != 0 { 1 } else { 0 };
        let lo = self.vram_at_bank(tile_addr, bank);
        let hi = self.vram_at_bank(tile_addr.wrapping_add(1), bank);
        (lo, hi)
    }

    /// Color and priority of pixel `x` of row `y` of the tile map at `map`.
    fn map_pixel(&self, mode: CompatMode, map: u16, x: u8, y: u8) -> (r: ((u8, u8, u8), Priority))
        requires
            self.wf(),
            map == 0x9800 || map == 0x9C00,
        ensures
            r == self.spec_map_pixel(mode, map, x, y),
    {
        let row = (y / 8) as u16 * 32;
        proof { crate::bits::lemma_and_u8(y, 7); }
        let line = ((y & 7) * 2) as u16;
        let tile_map = map + row + (x / 8) as u16;
        let attr = if mode == CompatMode::Cgb { self.vram_at_bank(tile_map, 1) } else { 0u8 };
        let tile_num = self.vram_at_bank(tile_map, 0);
        let addr = self.tile_addr(tile_num) + if attr & BG_Y_FLIP_B == 0 { line } else { 14 - line };
        let (lo, hi) = self.bg_tile(addr, attr);
        let color = tile_color(lo, hi, x, attr & BG_X_FLIP_B != 0);
        proof { crate::bits::lemma_and_u8(attr, 7); }
        let rgb = match mode {
            CompatMode::Dmg => mono_rgb(shade_index(self.bgp, color)),
            CompatMode::Compat => self.bcp.rgb(attr & BG_PAL_B, shade_index(self.bgp, color)),
            CompatMode::Cgb => self.bcp.rgb(attr & BG_PAL_B, color),
        };
        let prio = if color == 0 {
            Priority::Sprites
        } else if attr & BG_PR_B != 0 {
            Priority::Bg
        } else {
            Priority::Normal
        };
        (rgb, prio)
    }

    /// Renders line `ly` into the frame being built: background, then
    /// window, then objects.
    pub(crate) fn draw_scanline(&mut self, mode: CompatMode)
        requires
            old(self).wf(),
            old(self).ly < 144,
        ensures
            final(self).wf(),
            same_outside(final(self).rgb_buf.data@, old(self).rgb_buf.data@, 160 * old(self).ly, 160),
            final(self).same_but_frame(*old(self)),
            forall|i: int| 0 <= i < 160 ==> #[trigger] spec_px(final(self).rgb_buf.data@, 160 * old(self).ly + i)
                == old(self).spec_line_px(mode, i, spec_px(old(self).rgb_buf.data@, 160 * old(self).ly + i)),
    {
        let ghost o = *self;
        let mut bg_priority = [Priority::Normal; 160];
        let base_idx = 160 * self.ly as u32;
        self.draw_bg(&mut bg_priority, base_idx, mode);
        let ghost after_bg = self.rgb_buf.data@;
        let ghost prio_bg = bg_priority@;
        let ghost s1 = *self;
        self.draw_win(&mut bg_priority, base_idx, mode);
        let ghost after_win = self.rgb_buf.data@;
        proof {
            assert(s1.spec_win_shown(mode) == o.spec_win_shown(mode));
            assert(s1.spec_win_x() == o.spec_win_x());
            assert forall|j: int| 0 <= j < 160 implies #[trigger] bg_priority@[j] == o.spec_line_prio(mode, j) && spec_px(
                after_win,
                base_idx + j,
            ) == o.spec_line_under(mode, j, spec_px(o.rgb_buf.data@, base_idx + j)) by {
                assert(s1.spec_win_pixel(mode, j as u8) == o.spec_win_pixel(mode, j as u8));
                let pa = spec_px(after_bg, base_idx + j);
                let pw = spec_px(after_win, base_idx + j);
                if !o.spec_bg_enabled(mode) {
                    assert(prio_bg[j] == Priority::Normal);
                    assert(pa == spec_px(o.rgb_buf.data@, base_idx + j));
                }
            }
            assert(bg_priority@ =~= Seq::new(160, |j: int| o.spec_line_prio(mode, j)));
        }
        let ghost mid = *self;
        self.draw_obj(&bg_priority, base_idx, mode);
        proof {
            assert(mid.spec_line_order(mode, mid.lcdc & LCDC_OBJL_B != 0) == o.spec_line_order(mode, o.lcdc & LCDC_OBJL_B != 0));
            let large = o.lcdc & LCDC_OBJL_B != 0;
            assert forall|i: int| 0 <= i < 160 implies #[trigger] spec_px(self.rgb_buf.data@, base_idx + i)
                == o.spec_line_px(mode, i, spec_px(o.rgb_buf.data@, base_idx + i)) by {
                lemma_objs_pixel_frame(mid, o, o.spec_line_order(mode, large), i, bg_priority@, mode, large);
                assert(spec_px(mid.rgb_buf.data@, base_idx + i) == o.spec_line_under(mode, i, spec_px(o.rgb_buf.data@, base_idx + i)));
            }
        }
    }

    /// Priority of the background or window pixel at screen column `i` of
    /// the current line, as objects see it.
    pub open spec fn spec_line_prio(&self, mode: CompatMode, i: int) -> Priority {
        if self.spec_win_shown(mode) && i >= self.spec_win_x() {
            self.spec_win_pixel(mode, i as u8).1
        } else if self.spec_bg_enabled(mode) {
            self.spec_bg_pixel(mode, i as u8).1
        } else {
            Priority::Normal
        }
    }

    /// The background or window pixel at screen column `i` of the current
    /// line; `under` where neither is drawn.
    pub open spec fn spec_line_under(&self, mode: CompatMode, i: int, under: (u8, u8, u8)) -> (u8, u8, u8) {
        if self.spec_win_shown(mode) && i >= self.spec_win_x() {
            self.spec_win_pixel(mode, i as u8).0
        } else if self.spec_bg_enabled(mode) {
            self.spec_bg_pixel(mode, i as u8).0
        } else {
            under
        }
    }

    /// The finished pixel at screen column `i` of the current line:
    /// objects over the window over the background; `under` where nothing is
    /// drawn.
    pub open spec fn spec_line_px(&self, mode: CompatMode, i: int, under: (u8, u8, u8)) -> (u8, u8, u8) {
        let large = self.lcdc & LCDC_OBJL_B != 0;
        let bg = self.spec_line_under(mode, i, under);
        if self.lcdc & LCDC_OBJ_B == 0 {
            bg
        } else {
            spec_over(
                self.spec_objs_pixel(
                    self.spec_line_order(mode, large),
                    i,
                    Seq::new(160, |j: int| self.spec_line_prio(mode, j)),
                    mode,
                    large,
                ),
                bg,
            )
        }
    }

    /// Whether `self` equals `o` except for the frame being built and the
    /// window line bookkeeping.
    pub open spec fn same_but_frame(&self, o: Ppu) -> bool {
        *self == (Ppu {
            rgb_buf: self.rgb_buf,
            ppu_win_in_frame: self.ppu_win_in_frame,
            ppu_win_in_ly: self.ppu_win_in_ly,
            ppu_win_skipped: self.ppu_win_skipped,
            ..o
        })
    }

    /// Draws the background part of the current line.
    fn draw_bg(&mut self, bg_priority: &mut [Priority; 160], base_idx: u32, mode: CompatMode)
        requires
            old(self).wf(),
            old(self).ly < 144,
            base_idx == 160 * old(self).ly,
        ensures
            final(self).wf(),
            *final(self) == (Ppu { rgb_buf: final(self).rgb_buf, ..*old(self) }),
            same_outside(final(self).rgb_buf.data@, old(self).rgb_buf.data@, base_idx as int, 160),
            !old(self).spec_bg_enabled(mode) ==> final(self).rgb_buf == old(self).rgb_buf
                && *final(bg_priority) == *old(bg_priority),
            old(self).spec_bg_enabled(mode) ==> forall|i: int| 0 <= i < 160 ==> {
                &&& #[trigger] spec_px(final(self).rgb_buf.data@, base_idx + i) == old(self).spec_bg_pixel(mode, i as u8).0
                &&& final(bg_priority)[i] == old(self).spec_bg_pixel(mode, i as u8).1
            },
    {
        if !self.bg_enabled(mode) {
            return;
        }
        let ghost o = *self;
        let map = self.bg_tile_map();
        let y = self.ly.wrapping_add(self.scy);
        let mut i: u8 = 0;
        while i < PX_WIDTH
            invariant
                o.wf(),
                o.spec_bg_enabled(mode),
                *self == (Ppu { rgb_buf: self.rgb_buf, ..o }),
                base_idx == 160 * o.ly,
                o.ly < 144,
                map == o.spec_bg_tile_map(),
                y == o.ly.wrapping_add(o.scy),
                i <= 160,
                same_outside(self.rgb_buf.data@, o.rgb_buf.data@, base_idx as int, i as int),
                forall|j: int| 0 <= j < i ==> {
                    &&& #[trigger] spec_px(self.rgb_buf.data@, base_idx + j) == o.spec_bg_pixel(mode, j as u8).0
                    &&& bg_priority[j] == o.spec_bg_pixel(mode, j as u8).1
                },
            decreases 160 - i,
        {
            let x = i.wrapping_add(self.scx);
            let (rgb, prio) = self.map_pixel(mode, map, x, y);
            let ghost before = self.rgb_buf.data@;
            self.rgb_buf.set_px(base_idx + i as u32, rgb);
            bg_priority[i as usize] = prio;
            proof {
                assert(o.spec_bg_pixel(mode, i) == (rgb, prio));
                assert forall|j: int| 0 <= j < i + 1 implies {
                    &&& #[trigger] spec_px(self.rgb_buf.data@, base_idx + j) == o.spec_bg_pixel(mode, j as u8).0
                    &&& bg_priority[j] == o.spec_bg_pixel(mode, j as u8).1
                } by {
                    if j < i {
                        assert(spec_px(before, base_idx + j) == o.spec_bg_pixel(mode, j as u8).0);
                    }
                }
            }
            i += 1;
        }
    }

    /// Draws the window part of the current line.
    fn draw_win(&mut self, bg_priority: &mut [Priority; 160], base_idx: u32, mode: CompatMode)
        requires
            old(self).wf(),
            old(self).ly < 144,
            base_idx == 160 * old(self).ly,
        ensures
            final(self).wf(),
            final(self).same_but_frame(*old(self)),
            same_outside(final(self).rgb_buf.data@, old(self).rgb_buf.data@, base_idx as int, 160),
            !old(self).spec_win_shown(mode) ==> *final(bg_priority) == *old(bg_priority) && *final(self) == (Ppu {
                ppu_win_skipped: if old(self).ppu_win_in_frame {
                    old(self).ppu_win_skipped.wrapping_add(1)
                } else {
                    old(self).ppu_win_skipped
                },
                ..*old(self)
            }),
            old(self).spec_win_shown(mode) ==> {
                &&& final(self).ppu_win_in_frame
                &&& final(self).ppu_win_in_ly
                &&& final(self).ppu_win_skipped == old(self).ppu_win_skipped
                &&& forall|i: int| 0 <= i < 160 ==> {
                    &&& i < old(self).spec_win_x() ==> #[trigger] spec_px(final(self).rgb_buf.data@, base_idx + i)
                        == spec_px(old(self).rgb_buf.data@, base_idx + i) && final(bg_priority)[i] == old(bg_priority)[i]
                    &&& i >= old(self).spec_win_x() ==> spec_px(final(self).rgb_buf.data@, base_idx + i)
                        == old(self).spec_win_pixel(mode, i as u8).0 && final(bg_priority)[i]
                        == old(self).spec_win_pixel(mode, i as u8).1
                }
            },
    {
        if !(self.win_enabled(mode) && self.wy <= self.ly && self.wx < PX_WIDTH) {
            if self.ppu_win_in_frame {
                self.ppu_win_skipped = self.ppu_win_skipped.wrapping_add(1);
            }
            return;
        }
        let ghost o = *self;
        let ghost bp0 = *bg_priority;
        let wx = self.wx.saturating_sub(7);
        let y = (self.ly - self.wy).wrapping_sub(self.ppu_win_skipped);
        let map = self.win_tile_map();
        let mut i: u8 = wx;
        while i < PX_WIDTH
            invariant
                o.wf(),
                self.same_but_frame(o),
                self.ppu_win_skipped == o.ppu_win_skipped,
                i > wx ==> self.ppu_win_in_frame && self.ppu_win_in_ly,
                base_idx == 160 * o.ly,
                o.ly < 144,
                o.spec_win_shown(mode),
                map == o.spec_win_tile_map(),
                wx == o.spec_win_x(),
                y == ((o.ly - o.wy) as u8).wrapping_sub(o.ppu_win_skipped),
                wx <= i <= 160,
                same_outside(self.rgb_buf.data@, o.rgb_buf.data@, base_idx as int, 160),
                forall|j: int| 0 <= j < 160 ==> {
                    &&& (j < wx || j >= i) ==> #[trigger] spec_px(self.rgb_buf.data@, base_idx + j)
                        == spec_px(o.rgb_buf.data@, base_idx + j) && bg_priority[j] == bp0[j]
                    &&& wx <= j < i ==> spec_px(self.rgb_buf.data@, base_idx + j) == o.spec_win_pixel(mode, j as u8).0
                        && bg_priority[j] == o.spec_win_pixel(mode, j as u8).1
                },
            decreases 160 - i,
        {
            self.ppu_win_in_frame = true;
            self.ppu_win_in_ly = true;
            let x = i - wx;
            let (rgb, prio) = self.map_pixel(mode, map, x, y);
            let ghost before = self.rgb_buf.data@;
            let ghost bpb = *bg_priority;
            bg_priority[i as usize] = prio;
            self.rgb_buf.set_px(base_idx + i as u32, rgb);
            proof {
                assert(o.spec_win_pixel(mode, i) == (rgb, prio));
                assert forall|j: int| 0 <= j < 160 implies {
                    &&& (j < wx || j >= i + 1) ==> #[trigger] spec_px(self.rgb_buf.data@, base_idx + j)
                        == spec_px(o.rgb_buf.data@, base_idx + j) && bg_priority[j] == bp0[j]
                    &&& wx <= j < i + 1 ==> spec_px(self.rgb_buf.data@, base_idx + j) == o.spec_win_pixel(mode, j as u8).0
                        && bg_priority[j] == o.spec_win_pixel(mode, j as u8).1
                } by {
                    if j != i {
                        assert(spec_px(self.rgb_buf.data@, base_idx + j) == spec_px(before, base_idx + j));
                        assert(bg_priority[j] == bpb[j]);
                    }
                }
            }
            i += 1;
        }
    }

    /// The objects on the current line, at most ten (the first found in OAM
    /// order), in drawing order: by decreasing X, later found first among
    /// equal X (DMG), or the reverse of OAM order (CGB).
    fn objs_in_ly(&self, height: u8, mode: CompatMode) -> (r: ([Obj; 10], usize))
        ensures
            ({
                let all = spec_line_objs(self.oam@, self.ly, height, 64);
                let found = if all.len() > 10 { all.take(10) } else { all };
                &&& r.1 == found.len()
                &&& r.0@.take(r.1 as int) == spec_draw_order(found, mode != CompatMode::Cgb)
            }),
    {
        let ghost oam = self.oam@;
        let ghost ly = self.ly;
        let mut len: usize = 0;
        let blank = Obj { x: 0, y: 0, tile_index: 0, attr: 0 };
        let mut obj = [blank; 10];
        let mut i: usize = 0;
        while i < OAM_SIZE as usize && len < 10
            invariant
                oam == self.oam@,
                ly == self.ly,
                len <= 10,
                i <= 0x100,
                i % 4 == 0,
                len == spec_line_objs(oam, ly, height, (i / 4) as nat).len(),
                obj@.take(len as int) == spec_line_objs(oam, ly, height, (i / 4) as nat),
            decreases 0x100 - i,
        {
            let y = self.oam[i].wrapping_sub(16);
            let ghost k = (i / 4) as int;
            assert(4 * k == i);
            if self.ly.wrapping_sub(y) < height {
                let o = Obj {
                    y,
                    x: self.oam[i + 1].wrapping_sub(8),
                    tile_index: self.oam[i + 2],
                    attr: self.oam[i + 3],
                };
                assert(o == spec_oam_obj(oam, k));
                obj[len] = o;
                len += 1;
                assert(obj@.take(len as int) =~= spec_line_objs(oam, ly, height, (k + 1) as nat));
            } else {
                assert(!obj_on_line(spec_oam_obj(oam, k), ly, height));
            }
            i += 4;
            assert((i / 4) as nat == (k + 1) as nat);
        }
        let ghost all = spec_line_objs(oam, ly, height, 64);
        proof {
            lemma_line_objs_prefix(oam, ly, height, (i / 4) as nat, 64);
            if i >= 0x100 {
                assert((i / 4) as nat == 64);
            }
        }
        let ghost found = if all.len() > 10 { all.take(10) } else { all };
        assert(obj@.take(len as int) =~= found);
        let ghost by_x = mode != CompatMode::Cgb;
        proof {
            lemma_draw_order_len(found, by_x);
        }
        if len == 0 {
            assert(obj@.take(0) =~= spec_draw_order(found, by_x));
            return (obj, len);
        }
        proof {
            let f1 = found.take(1);
            assert(f1.drop_last() =~= Seq::<Obj>::empty());
            assert(spec_draw_order(f1.drop_last(), by_x) =~= Seq::<Obj>::empty());
            assert(f1.last() == found[0]);
            assert(spec_insert_obj(Seq::<Obj>::empty(), found[0], by_x) =~= seq![found[0]]);
            assert(obj@.take(len as int)[0] == obj@[0]);
            assert(obj@.take(1) =~= seq![found[0]]);
            assert(spec_draw_order(f1, by_x) =~= seq![found[0]]);
        }
        let mut i: usize = 1;
        while i < len
            invariant
                1 <= i <= len <= 10,
                len == found.len(),
                by_x == (mode != CompatMode::Cgb),
                obj@.take(i as int) == spec_draw_order(found.take(i as int), by_x),
                forall|k: int| i <= k < len ==> #[trigger] obj@[k] == found[k],
            decreases len - i,
        {
            let ghost sorted = obj@.take(i as int);
            let ghost e = found[i as int];
            let mut j = i;
            proof {
                assert(obj@.take(i + 1) =~= sorted.take(i as int) + seq![e] + sorted.skip(i as int));
                assert(sorted.take(i as int) =~= sorted);
                assert(sorted.skip(i as int) =~= Seq::<Obj>::empty());
                assert(spec_insert_obj(sorted, e, by_x) =~= spec_insert_obj(sorted.take(i as int), e, by_x) + sorted.skip(i as int));
            }
            while j > 0 && (mode == CompatMode::Cgb || obj[j - 1].x <= obj[j].x)
                invariant
                    j <= i < len <= 10,
                    sorted.len() == i,
                    by_x == (mode != CompatMode::Cgb),
                    len == found.len(),
                    obj@.take(i + 1) == sorted.take(j as int) + seq![e] + sorted.skip(j as int),
                    spec_insert_obj(sorted, e, by_x) == spec_insert_obj(sorted.take(j as int), e, by_x) + sorted.skip(j as int),
                    forall|k: int| i < k < len ==> #[trigger] obj@[k] == found[k],
                decreases j,
            {
                let ghost before = obj@;
                proof {
                    let w = sorted.take(j as int) + seq![e] + sorted.skip(j as int);
                    assert(before.take(i + 1)[j as int] == before[j as int]);
                    assert(before.take(i + 1)[j - 1] == before[j - 1]);
                    assert(w[j as int] == e);
                    assert(w[j - 1] == sorted[j - 1]);
                }
                let t = obj[j - 1];
                obj[j - 1] = obj[j];
                obj[j] = t;
                proof {
                    let tj = sorted.take(j as int);
                    assert(tj.drop_last() =~= sorted.take(j - 1));
                    assert(tj.last() == sorted[j - 1]);
                    assert(spec_insert_obj(tj, e, by_x) == spec_insert_obj(sorted.take(j - 1), e, by_x).push(sorted[j - 1]));
                    assert(spec_insert_obj(sorted.take(j - 1), e, by_x).push(sorted[j - 1]) + sorted.skip(j as int)
                        =~= spec_insert_obj(sorted.take(j - 1), e, by_x) + sorted.skip(j - 1));
                    let w = sorted.take(j as int) + seq![e] + sorted.skip(j as int);
                    let w2 = sorted.take(j - 1) + seq![e] + sorted.skip(j - 1);
                    assert(obj@ == before.update(j - 1, e).update(j as int, sorted[j - 1]));
                    assert forall|x: int| 0 <= x < i + 1 implies #[trigger] obj@.take(i + 1)[x] == w2[x] by {
                        assert(before.take(i + 1)[x] == w[x]);
                        if x < j - 1 {
                        } else if x == j - 1 {
                        } else if x == j {
                        } else {
                            assert(w[x] == sorted[x - 1]);
                            assert(w2[x] == sorted[x - 1]);
                        }
                    }
                    assert(obj@.take(i + 1) =~= w2);
                    assert forall|k: int| i < k < len implies #[trigger] obj@[k] == found[k] by {
                        assert(obj@[k] == before[k]);
                    }
                }
                j -= 1;
            }
            proof {
                let tj = sorted.take(j as int);
                let w = sorted.take(j as int) + seq![e] + sorted.skip(j as int);
                if j == 0 {
                    assert(tj =~= Seq::<Obj>::empty());
                    assert(spec_insert_obj(tj, e, by_x) == seq![e]);
                } else {
                    assert(obj@.take(i + 1)[j as int] == obj@[j as int]);
                    assert(obj@.take(i + 1)[j - 1] == obj@[j - 1]);
                    assert(w[j as int] == e);
                    assert(w[j - 1] == sorted[j - 1]);
                    assert(tj.last() == sorted[j - 1]);
                    assert(spec_insert_obj(tj, e, by_x) == tj.push(e));
                }
                assert(obj@.take(i + 1) =~= spec_insert_obj(sorted, e, by_x));
                assert(found.take(i + 1).drop_last() =~= found.take(i as int));
                assert(found.take(i + 1).last() == e);
            }
            i += 1;
        }
        assert(found.take(len as int) =~= found);
        (obj, len)
    }

    /// Draws the objects of the current line.
    /// Draws column `col` of object `obj` (row bytes `lo`, `hi`), at screen
    /// column `obj.x + col` when it is on screen.
    fn draw_obj_col(
        &mut self,
        obj: Obj,
        col: u8,
        lo: u8,
        hi: u8,
        bg_priority: &[Priority; 160],
        base_idx: u32,
        mode: CompatMode,
        master: bool,
        large: bool,
    )
        requires
            old(self).wf(),
            old(self).ly < 144,
            base_idx == 160 * old(self).ly,
            col < 8,
            (lo, hi) == old(self).spec_obj_row(obj, large),
            master == (mode == CompatMode::Cgb && old(self).lcdc & LCDC_BG_B == 0),
        ensures
            *final(self) == (Ppu { rgb_buf: final(self).rgb_buf, ..*old(self) }),
            same_outside(final(self).rgb_buf.data@, old(self).rgb_buf.data@, base_idx as int, 160),
            forall|i: int| 0 <= i < 160 ==> #[trigger] spec_px(final(self).rgb_buf.data@, base_idx + i)
                == (if i == obj.x.wrapping_add(col) {
                    spec_over(old(self).spec_obj_pixel(obj, i, bg_priority@, mode, large), spec_px(old(self).rgb_buf.data@, base_idx + i))
                } else {
                    spec_px(old(self).rgb_buf.data@, base_idx + i)
                }),
    {
        let x = obj.x.wrapping_add(col);
        proof {
            if x < 160 {
                assert((x - obj.x) % 256 == col);
            }
        }
        if x < PX_WIDTH && !(!master && (bg_priority[x as usize] == Priority::Bg || obj.attr
            & SPR_BG_FIRST != 0 && bg_priority[x as usize] == Priority::Normal)) {
            let color = tile_color(lo, hi, col, obj.attr & SPR_FLIP_X != 0);
            if color != 0 {
                let rgb = match mode {
                    CompatMode::Dmg => {
                        let palette = if obj.attr & SPR_PAL == 0 { self.obp0 } else { self.obp1 };
                        mono_rgb(shade_index(palette, color))
                    },
                    CompatMode::Compat => {
                        let palette = if obj.attr & SPR_PAL == 0 { self.obp0 } else { self.obp1 };
                        self.ocp.rgb(0, shade_index(palette, color))
                    },
                    CompatMode::Cgb => {
                        let a = obj.attr;
                        proof { crate::bits::lemma_and_u8(a, 7); }
                        self.ocp.rgb(a & SPR_CGB_PAL, color)
                    },
                };
                assert(self.spec_obj_pixel(obj, x as int, bg_priority@, mode, large) == Some(rgb));
                let ghost before = self.rgb_buf.data@;
                self.rgb_buf.set_px(base_idx + x as u32, rgb);
                proof {
                    assert forall|i: int| 0 <= i < 160 && i != x implies #[trigger] spec_px(self.rgb_buf.data@, base_idx + i)
                        == spec_px(before, base_idx + i) by {}
                }
            } else {
                assert(self.spec_obj_pixel(obj, x as int, bg_priority@, mode, large) is None);
            }
        } else if x < PX_WIDTH {
            assert(self.spec_obj_pixel(obj, x as int, bg_priority@, mode, large) is None);
        }
    }

    fn draw_obj(&mut self, bg_priority: &[Priority; 160], base_idx: u32, mode: CompatMode)
        requires
            old(self).wf(),
            old(self).ly < 144,
            base_idx == 160 * old(self).ly,
        ensures
            final(self).wf(),
            *final(self) == (Ppu { rgb_buf: final(self).rgb_buf, ..*old(self) }),
            same_outside(final(self).rgb_buf.data@, old(self).rgb_buf.data@, base_idx as int, 160),
            old(self).lcdc & LCDC_OBJ_B == 0 ==> final(self).rgb_buf == old(self).rgb_buf,
            old(self).lcdc & LCDC_OBJ_B != 0 ==> forall|i: int| 0 <= i < 160 ==> #[trigger] spec_px(final(self).rgb_buf.data@, base_idx + i)
                == spec_over(
                    old(self).spec_objs_pixel(
                        old(self).spec_line_order(mode, old(self).lcdc & LCDC_OBJL_B != 0),
                        i,
                        bg_priority@,
                        mode,
                        old(self).lcdc & LCDC_OBJL_B != 0,
                    ),
                    spec_px(old(self).rgb_buf.data@, base_idx + i),
                ),
    {
        if self.lcdc & LCDC_OBJ_B == 0 {
            return;
        }
        let ghost o = *self;
        let large = self.lcdc & LCDC_OBJL_B != 0;
        let height: u8 = if large { 16 } else { 8 };
        let (objs, len) = self.objs_in_ly(height, mode);
        let ghost order = o.spec_line_order(mode, large);
        let ghost bgp = bg_priority@;
        assert(objs@.take(len as int) == order);
        assert(height == 8 || height == 16);
        let master = self.cgb_master_priority(mode);
        let mut k: usize = 0;
        proof {
            assert forall|i: int| 0 <= i < 160 implies #[trigger] spec_px(self.rgb_buf.data@, base_idx + i)
                == spec_over(o.spec_objs_pixel(order.take(0), i, bgp, mode, large), spec_px(o.rgb_buf.data@, base_idx + i)) by {
                assert(order.take(0).len() == 0);
            }
        }
        while k < len
            invariant
                o.wf(),
                *self == (Ppu { rgb_buf: self.rgb_buf, ..o }),
                base_idx == 160 * o.ly,
                o.ly < 144,
                len <= 10,
                k <= len,
                height == (if large { 16u8 } else { 8u8 }),
                large == (o.lcdc & LCDC_OBJL_B != 0),
                master == (mode == CompatMode::Cgb && o.lcdc & LCDC_BG_B == 0),
                objs@.take(len as int) == order,
                bgp == bg_priority@,
                same_outside(self.rgb_buf.data@, o.rgb_buf.data@, base_idx as int, 160),
                forall|i: int| 0 <= i < 160 ==> #[trigger] spec_px(self.rgb_buf.data@, base_idx + i)
                    == spec_over(o.spec_objs_pixel(order.take(k as int), i, bgp, mode, large), spec_px(o.rgb_buf.data@, base_idx + i)),
            decreases len - k,
        {
            let obj = objs[k];
            assert(obj == order[k as int]);
            let ghost prev = self.rgb_buf.data@;
            let tile_number = if large { obj.tile_index & !1u8 } else { obj.tile_index };
            let dy = self.ly.wrapping_sub(obj.y) as u16;
            let offset: u16 = if obj.attr & SPR_FLIP_Y == 0 {
                dy.wrapping_mul(2)
            } else {
                ((height as u16) - 1).wrapping_sub(dy).wrapping_mul(2)
            };
            let tile_addr = ((tile_number as u16) * 16).wrapping_add(offset);
            let (lo, hi) = self.obj_tile(tile_addr, &obj);
            assert((lo, hi) == o.spec_obj_row(obj, large));
            let mut xi: u8 = 8;
            while xi > 0
                invariant
                    o.wf(),
                    *self == (Ppu { rgb_buf: self.rgb_buf, ..o }),
                    base_idx == 160 * o.ly,
                    o.ly < 144,
                    xi <= 8,
                    large == (o.lcdc & LCDC_OBJL_B != 0),
                    master == (mode == CompatMode::Cgb && o.lcdc & LCDC_BG_B == 0),
                    bgp == bg_priority@,
                    (lo, hi) == o.spec_obj_row(obj, large),
                    same_outside(self.rgb_buf.data@, o.rgb_buf.data@, base_idx as int, 160),
                    forall|i: int| 0 <= i < 160 ==> #[trigger] spec_px(self.rgb_buf.data@, base_idx + i)
                        == (if (i - obj.x) % 256 < 8 - xi {
                            spec_over(o.spec_obj_pixel(obj, i, bgp, mode, large), spec_px(prev, base_idx + i))
                        } else {
                            spec_px(prev, base_idx + i)
                        }),
                decreases xi,
            {
                xi -= 1;
                let col: u8 = 7 - xi;
                let ghost before = self.rgb_buf.data@;
                self.draw_obj_col(obj, col, lo, hi, bg_priority, base_idx, mode, master, large);
                proof {
                    let x = obj.x.wrapping_add(col);
                    assert forall|i: int| 0 <= i < 160 implies #[trigger] spec_px(self.rgb_buf.data@, base_idx + i)
                        == (if (i - obj.x) % 256 < 8 - xi {
                            spec_over(o.spec_obj_pixel(obj, i, bgp, mode, large), spec_px(prev, base_idx + i))
                        } else {
                            spec_px(prev, base_idx + i)
                        }) by {
                        if i == x {
                            assert((i - obj.x) % 256 == col);
                        } else {
                            assert(spec_px(self.rgb_buf.data@, base_idx + i) == spec_px(before, base_idx + i));
                            if (i - obj.x) % 256 == col {
                                assert(i == x);
                            }
                        }
                    }
                }
            }
            proof {
                let t1 = order.take(k + 1);
                assert(t1.drop_last() =~= order.take(k as int));
                assert(t1.last() == obj);
                assert forall|i: int| 0 <= i < 160 implies #[trigger] spec_px(self.rgb_buf.data@, base_idx + i)
                    == spec_over(o.spec_objs_pixel(order.take(k + 1), i, bgp, mode, large), spec_px(o.rgb_buf.data@, base_idx + i)) by {
                    if (i - obj.x) % 256 >= 8 {
                        assert(o.spec_obj_pixel(obj, i, bgp, mode, large) is None);
                    }
                }
            }
            k += 1;
        }
        assert(order.take(len as int) =~= order);
    }
}

} // verus!
