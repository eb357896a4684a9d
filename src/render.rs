use vstd::prelude::*;

use crate::mirroring;
use crate::palette::{nes_palette, palette_rgb};
use crate::ppu::Ppu;

verus! {

/// Bit `k` of `b`, as 0 or 1.
fn bit_at(b: u8, k: u8) -> (r: u8)
    requires
        k < 8,
    ensures
        r == (b >> k) & 1u8,
        r <= 1,
{
    let r = (b >> k) & 1u8;
    assert(((b >> k) & 1u8) <= 1u8) by (bit_vector);
    r
}

/// The name-table base that the left part of a background row reads when the
/// scrolled row lies below the screen, for the base that the control register set.
pub open spec fn vertical_neighbour(base: usize) -> usize {
    if base == 0x2000 {
        0x2800
    } else if base == 0x2400 {
        0x2c00
    } else if base == 0x2800 {
        0x2000
    } else {
        0x2400
    }
}

/// The name-table base of the right part of a row that lies below the screen.
pub open spec fn diagonal_neighbour(base: usize) -> usize {
    if base == 0x2000 {
        0x2c00
    } else if base == 0x2400 {
        0x2800
    } else if base == 0x2800 {
        0x2400
    } else {
        0x2000
    }
}

/// The name-table base of the right part of a row on the screen.
pub open spec fn horizontal_neighbour(base: usize) -> usize {
    if base == 0x2000 {
        0x2400
    } else if base == 0x2400 {
        0x2000
    } else if base == 0x2800 {
        0x2c00
    } else {
        0x2800
    }
}

/// A name-table base folded onto the storage that the mirroring mode gives it.
pub open spec fn mirrored_base(mode: u8, one_screen_base: usize, base: usize) -> usize {
    if mode == mirroring::HORIZONTAL {
        if base == 0x2400 {
            0x2000
        } else if base == 0x2800 || base == 0x2c00 {
            0x2400
        } else {
            base
        }
    } else if mode == mirroring::VERTICAL {
        if base == 0x2800 {
            0x2000
        } else if base == 0x2c00 {
            0x2400
        } else {
            base
        }
    } else if mode == mirroring::ONE_SCREEN && (one_screen_base == 0x2000 || one_screen_base
        == 0x2400 || one_screen_base == 0x2800 || one_screen_base == 0x2c00) {
        one_screen_base
    } else {
        base
    }
}

fn vertical_neighbour_of(base: usize) -> (r: usize)
    ensures
        r == vertical_neighbour(base),
{
    if base == 0x2000 {
        0x2800
    } else if base == 0x2400 {
        0x2c00
    } else if base == 0x2800 {
        0x2000
    } else {
        0x2400
    }
}

fn diagonal_neighbour_of(base: usize) -> (r: usize)
    ensures
        r == diagonal_neighbour(base),
{
    if base == 0x2000 {
        0x2c00
    } else if base == 0x2400 {
        0x2800
    } else if base == 0x2800 {
        0x2400
    } else {
        0x2000
    }
}

fn horizontal_neighbour_of(base: usize) -> (r: usize)
    ensures
        r == horizontal_neighbour(base),
{
    if base == 0x2000 {
        0x2400
    } else if base == 0x2400 {
        0x2000
    } else if base == 0x2800 {
        0x2c00
    } else {
        0x2800
    }
}

fn mirrored_base_of(mode: u8, one_screen_base: usize, base: usize) -> (r: usize)
    requires
        base == 0x2000 || base == 0x2400 || base == 0x2800 || base == 0x2c00,
    ensures
        r == mirrored_base(mode, one_screen_base, base),
        r == 0x2000 || r == 0x2400 || r == 0x2800 || r == 0x2c00,
{
    if mode == mirroring::HORIZONTAL {
        if base == 0x2400 {
            0x2000
        } else if base == 0x2800 || base == 0x2c00 {
            0x2400
        } else {
            base
        }
    } else if mode == mirroring::VERTICAL {
        if base == 0x2800 {
            0x2000
        } else if base == 0x2c00 {
            0x2400
        } else {
            base
        }
    } else if mode == mirroring::ONE_SCREEN && (one_screen_base == 0x2000 || one_screen_base
        == 0x2400 || one_screen_base == 0x2800 || one_screen_base == 0x2c00) {
        one_screen_base
    } else {
        base
    }
}

/// The palette group (0 to 3) that an attribute byte gives the tile at `tile_row`,
/// `col`: two bits picked by the tile's quadrant of its 4x4-tile block.
pub open spec fn attribute_group(attr: u8, tile_row: int, col: int) -> u8 {
    let shift = 4 * ((tile_row % 4) / 2) + ((col % 4) / 2) * 2;
    if shift == 0 {
        attr % 4
    } else if shift == 2 {
        (attr / 4) % 4
    } else if shift == 4 {
        (attr / 16) % 4
    } else {
        (attr / 64) % 4
    }
}

/// The 4-bit colour of a pattern pixel: palette group, then the bits of the two
/// planes at bit position `bit`.
pub open spec fn pattern_colour(group: int, d1: u8, d2: u8, bit: u8) -> u8 {
    (group * 4 + ((d2 >> bit) & 1u8) * 2 + ((d1 >> bit) & 1u8)) as u8
}

/// The name-table base that background pixel `x` of the current scanline reads:
/// the part of the row left of the horizontal scroll's wrap comes from the
/// selected table, the part right of it from the neighbouring one; rows scrolled
/// below the screen come from the table below.
pub open spec fn bg_base(p: &Ppu, x: int) -> usize {
    let left = x + p.scroll_v < 256;
    let below = p.current_scanline + p.scroll_h >= 240;
    let nta = p.name_table_address;
    let b = if left {
        if below { vertical_neighbour(nta) } else { nta }
    } else {
        if below { diagonal_neighbour(nta) } else { horizontal_neighbour(nta) }
    };
    mirrored_base(p.mirroring, p.mirroring_base, b)
}

/// The row of the name table that the current scanline shows, after scrolling.
pub open spec fn bg_line(p: &Ppu) -> int {
    let vs = p.current_scanline + p.scroll_h;
    if vs >= 240 { vs - 240 } else { vs }
}

/// The 4-bit colour of background pixel `x` on the current scanline: tile from the
/// name table, palette group from its attribute byte, bits from the tile's two
/// pattern planes.
pub open spec fn bg_colour(p: &Ppu, x: int) -> u8 {
    let q = (x + p.scroll_v) % 256;
    let col = q / 8;
    let tile_row = bg_line(p) / 8;
    let off = bg_line(p) % 8;
    let nt = bg_base(p, x) - 0x2000;
    let tile_num = p.name_tables@[nt + tile_row * 32 + col];
    let td = p.background_address + tile_num * 16;
    let attr = p.name_tables@[nt + 0x3c0 + (tile_row / 4) * 8 + col / 4];
    pattern_colour(
        attribute_group(attr, tile_row, col) as int,
        p.chr_byte(td + off),
        p.chr_byte(td + off + 8),
        (7 - q % 8) as u8,
    )
}

/// The colour that palette entry `base + c` holds.
pub open spec fn palette_entry(p: &Ppu, base: int, c: u8) -> u32 {
    nes_palette((p.name_tables@[base + c] % 64) as int)
}

/// A row after the background pass: opaque background pixels (colour not a
/// multiple of 4) take their palette colour.
pub open spec fn bg_row(p: &Ppu, row: Seq<u32>) -> Seq<u32> {
    Seq::new(
        256,
        |x: int|
            if bg_colour(p, x) % 4 != 0 {
                palette_entry(p, 0x1f00, bg_colour(p, x))
            } else {
                row[x]
            },
    )
}

/// The sprite-zero counts after the background pass: 4 more at each opaque
/// background pixel while sprite zero has not hit yet.
pub open spec fn bg_hits(p: &Ppu, hits: Seq<u8>) -> Seq<u8> {
    Seq::new(
        256,
        |x: int|
            if !p.sprite_0_hit && bg_colour(p, x) % 4 != 0 {
                (hits[x] + 4) as u8
            } else {
                hits[x]
            },
    )
}

/// Whether sprite `k` has priority `behind` and covers the current scanline.
pub open spec fn spr_covers(p: &Ppu, k: int, behind: u8) -> bool {
    let y = p.sprite_ram@[4 * k] + 1;
    p.sprite_ram@[4 * k + 2] & 0x20 == behind && y <= p.current_scanline && y + p.sprite_size
        > p.current_scanline
}

/// The pattern address of sprite `k`'s tile and the line of it that the current
/// scanline shows (vertical flip and 8x16 sprites included).
pub open spec fn spr_pattern(p: &Ppu, k: int) -> (int, int) {
    let y = p.sprite_ram@[4 * k] + 1;
    let sl = p.current_scanline as int;
    let tile = p.sprite_ram@[4 * k + 1] as int;
    let flip_v = p.sprite_ram@[4 * k + 2] & 0x80 == 0x80;
    if p.sprite_size == 8 {
        (p.sprite_address + tile * 16, if !flip_v { sl - y } else { y + 7 - sl })
    } else {
        let l = if !flip_v { sl - y } else { y + 16 - sl };
        if l < 8 {
            (if tile % 2 == 0 { tile * 16 } else { 0x1000 + (tile - 1) * 16 }, l)
        } else {
            (if tile % 2 == 0 { (tile + 1) * 16 } else { 0x1000 + tile * 16 }, l - 8)
        }
    }
}

/// The 4-bit colour of pixel `j` (0 to 7, left to right) of sprite `k` on the
/// current scanline (horizontal flip included).
pub open spec fn spr_colour(p: &Ppu, k: int, j: int) -> u8 {
    let attr = p.sprite_ram@[4 * k + 2];
    let (o, l) = spr_pattern(p, k);
    let bit = if attr & 0x40 == 0x40 { j as u8 } else { (7 - j) as u8 };
    pattern_colour((attr % 4) as int, p.chr_byte(o + l), p.chr_byte(o + l + 8), bit)
}

/// Whether sprite `k` has an opaque pixel at column `x`.
pub open spec fn spr_opaque_at(p: &Ppu, k: int, x: int) -> bool {
    let xp = p.sprite_ram@[4 * k + 3] as int;
    xp <= x < xp + 8 && spr_colour(p, k, x - xp) % 4 != 0
}

/// A row with sprite `k` drawn over it.
pub open spec fn spr_draw(p: &Ppu, k: int, row: Seq<u32>) -> Seq<u32> {
    Seq::new(
        256,
        |x: int|
            if spr_opaque_at(p, k, x) {
                palette_entry(p, 0x1f10, spr_colour(p, k, x - p.sprite_ram@[4 * k + 3]))
            } else {
                row[x]
            },
    )
}

/// A row with the sprites of priority `behind` that cover the scanline drawn,
/// from sprite 63 down to sprite `n` (so lower sprites end on top).
pub open spec fn spr_fold(p: &Ppu, behind: u8, row: Seq<u32>, n: int) -> Seq<u32>
    decreases 64 - n,
{
    if n >= 64 {
        row
    } else {
        let after = spr_fold(p, behind, row, n + 1);
        if spr_covers(p, n, behind) {
            spr_draw(p, n, after)
        } else {
            after
        }
    }
}

/// How many of sprites `n` to 63 have priority `behind` and cover the scanline.
pub open spec fn spr_count(p: &Ppu, behind: u8, n: int) -> int
    decreases 64 - n,
{
    if n >= 64 {
        0
    } else {
        spr_count(p, behind, n + 1) + if spr_covers(p, n, behind) { 1int } else { 0 }
    }
}

/// The sprite-zero counts after a sprite pass: 1 more at each opaque pixel of
/// sprite zero, when it is drawn in this pass.
pub open spec fn spr_hits(p: &Ppu, behind: u8, hits: Seq<u8>) -> Seq<u8> {
    if spr_covers(p, 0, behind) {
        Seq::new(
            256,
            |x: int|
                if spr_opaque_at(p, 0, x) {
                    (hits[x] + 1) as u8
                } else {
                    hits[x]
                },
        )
    } else {
        hits
    }
}

impl Ppu {
    /// The 4-bit colour of background pixel `x` (see `bg_colour`).
    fn bg_colour_at(&self, x: usize) -> (r: u8)
        requires
            self.wf(),
            self.current_scanline < 234,
            x < 256,
        ensures
            r == bg_colour(self, x as int),
    {
        let sv = self.scroll_v as usize;
        let q = (x + sv) % 256;
        let vs0 = self.current_scanline + self.scroll_h as usize;
        let below = vs0 >= 240;
        let vs = if below { vs0 - 240 } else { vs0 };
        let nta = self.name_table_address;
        let b = if x + sv < 256 {
            if below { vertical_neighbour_of(nta) } else { nta }
        } else {
            if below { diagonal_neighbour_of(nta) } else { horizontal_neighbour_of(nta) }
        };
        let base = mirrored_base_of(self.mirroring, self.mirroring_base, b);
        let col = q / 8;
        let tile_row = vs / 8;
        let off = vs % 8;
        let nt = base - 0x2000;
        let tile_num = self.name_tables[nt + tile_row * 32 + col];
        let td = self.background_address + (tile_num as usize) * 16;
        let d1 = self.read_chr_rom(td + off);
        let d2 = self.read_chr_rom(td + off + 8);
        let attr = self.name_tables[nt + 0x3c0 + (tile_row / 4) * 8 + col / 4];
        let shift = 4 * ((tile_row % 4) / 2) + ((col % 4) / 2) * 2;
        let group: u8 = if shift == 0 {
            attr % 4
        } else if shift == 2 {
            (attr / 4) % 4
        } else if shift == 4 {
            (attr / 16) % 4
        } else {
            (attr / 64) % 4
        };
        let bit = (7 - q % 8) as u8;
        group * 4 + bit_at(d2, bit) * 2 + bit_at(d1, bit)
    }

    /// Draws the background of the current scanline into `row` and counts its
    /// opaque pixels in `hits` while sprite zero has not hit yet.
    fn render_background(&self, row: &mut Vec<u32>, hits: &mut Vec<u8>)
        requires
            self.wf(),
            self.current_scanline < 234,
            old(row)@.len() == 256,
            old(hits)@.len() == 256,
            forall|x: int| 0 <= x < 256 ==> #[trigger] old(hits)@[x] <= 250,
        ensures
            final(row)@.len() == 256,
            final(hits)@.len() == 256,
            final(row)@ == bg_row(self, old(row)@),
            final(hits)@ == bg_hits(self, old(hits)@),
            forall|x: int| 0 <= x < 256 ==> #[trigger] final(hits)@[x] <= old(hits)@[x] + 4,
    {
        let mut x: usize = 0;
        while x < 256
            invariant
                self.wf(),
                self.current_scanline < 234,
                x <= 256,
                row@.len() == 256,
                hits@.len() == 256,
                forall|k: int| 0 <= k < 256 ==> #[trigger] old(hits)@[k] <= 250,
                forall|k: int|
                    0 <= k < 256 ==> #[trigger] row@[k] == if k < x {
                        bg_row(self, old(row)@)[k]
                    } else {
                        old(row)@[k]
                    },
                forall|k: int|
                    0 <= k < 256 ==> #[trigger] hits@[k] == if k < x {
                        bg_hits(self, old(hits)@)[k]
                    } else {
                        old(hits)@[k]
                    },
            decreases 256 - x,
        {
            let c = self.bg_colour_at(x);
            if c % 4 != 0 {
                let rgb = palette_rgb(self.name_tables[0x1f00 + c as usize] % 64);
                row.set(x, rgb);
                if !self.sprite_0_hit {
                    let h = hits[x];
                    hits.set(x, h + 4);
                }
            }
            x = x + 1;
        }
        assert(row@ =~= bg_row(self, old(row)@));
        assert(hits@ =~= bg_hits(self, old(hits)@));
    }

    /// The two pattern bytes of the line of sprite `k` on the current scanline.
    fn sprite_pattern_bytes(&self, k: usize) -> (r: (u8, u8))
        requires
            self.wf(),
            k < 64,
            self.sprite_ram@[4 * k as int] + 1 <= self.current_scanline < self.sprite_ram@[4
                * k as int] + 1 + self.sprite_size,
        ensures
            r.0 == self.chr_byte(spr_pattern(self, k as int).0 + spr_pattern(self, k as int).1),
            r.1 == self.chr_byte(spr_pattern(self, k as int).0 + spr_pattern(self, k as int).1 + 8),
    {
        let i = k * 4;
        let sl = self.current_scanline;
        let y = self.sprite_ram[i] as usize + 1;
        let tile = self.sprite_ram[i + 1] as usize;
        let flip_v = (self.sprite_ram[i + 2] & 0x80) == 0x80;
        let offset: usize;
        let line: usize;
        if self.sprite_size == 8 {
            line = if !flip_v { sl - y } else { y + 7 - sl };
            offset = self.sprite_address + tile * 16;
        } else {
            let l = if !flip_v { sl - y } else { y + 16 - sl };
            if l < 8 {
                line = l;
                offset = if tile % 2 == 0 { tile * 16 } else { 0x1000 + (tile - 1) * 16 };
            } else {
                line = l - 8;
                offset = if tile % 2 == 0 { (tile + 1) * 16 } else { 0x1000 + tile * 16 };
            }
        }
        (self.read_chr_rom(offset + line), self.read_chr_rom(offset + line + 8))
    }

    /// Draws sprite `k` (which covers the scanline) into `row`; counts its opaque
    /// pixels in `hits` when it is sprite zero.
    fn draw_sprite(&self, k: usize, row: &mut Vec<u32>, hits: &mut Vec<u8>)
        requires
            self.wf(),
            self.current_scanline < 234,
            k < 64,
            self.sprite_ram@[4 * k as int] + 1 <= self.current_scanline < self.sprite_ram@[4
                * k as int] + 1 + self.sprite_size,
            old(row)@.len() == 256,
            old(hits)@.len() == 256,
            forall|x: int| 0 <= x < 256 ==> #[trigger] old(hits)@[x] <= 250,
        ensures
            final(row)@.len() == 256,
            final(hits)@.len() == 256,
            final(row)@ == spr_draw(self, k as int, old(row)@),
            k == 0 ==> final(hits)@ == Seq::new(
                256,
                |x: int|
                    if spr_opaque_at(self, 0, x) {
                        (old(hits)@[x] + 1) as u8
                    } else {
                        old(hits)@[x]
                    },
            ),
            k != 0 ==> final(hits)@ == old(hits)@,
            forall|x: int| 0 <= x < 256 ==> #[trigger] final(hits)@[x] <= old(hits)@[x] + 1,
    {
        let i = k * 4;
        let attr = self.sprite_ram[i + 2];
        let xpos = self.sprite_ram[i + 3] as usize;
        let (d1, d2) = self.sprite_pattern_bytes(k);
        let high = (attr % 4) * 4;
        let flip_h = (attr & 0x40) == 0x40;
        let ghost kk = k as int;
        let ghost drawn = spr_draw(self, kk, old(row)@);
        let ghost counted = Seq::new(
            256,
            |x: int|
                if kk == 0 && spr_opaque_at(self, 0, x) {
                    (old(hits)@[x] + 1) as u8
                } else {
                    old(hits)@[x]
                },
        );
        let mut j: usize = 0;
        while j < 8
            invariant
                self.wf(),
                j <= 8,
                k < 64,
                kk == k,
                i == 4 * k,
                attr == self.sprite_ram@[4 * kk + 2],
                xpos == self.sprite_ram@[4 * kk + 3],
                d1 == self.chr_byte(spr_pattern(self, kk).0 + spr_pattern(self, kk).1),
                d2 == self.chr_byte(spr_pattern(self, kk).0 + spr_pattern(self, kk).1 + 8),
                high == (attr % 4) * 4,
                flip_h == (attr & 0x40 == 0x40),
                drawn == spr_draw(self, kk, old(row)@),
                counted == Seq::new(
                    256,
                    |x: int|
                        if kk == 0 && spr_opaque_at(self, 0, x) {
                            (old(hits)@[x] + 1) as u8
                        } else {
                            old(hits)@[x]
                        },
                ),
                row@.len() == 256,
                hits@.len() == 256,
                forall|x: int| 0 <= x < 256 ==> #[trigger] old(hits)@[x] <= 250,
                forall|x: int|
                    0 <= x < 256 ==> #[trigger] row@[x] == if x < xpos + j {
                        drawn[x]
                    } else {
                        old(row)@[x]
                    },
                forall|x: int|
                    0 <= x < 256 ==> #[trigger] hits@[x] == if x < xpos + j {
                        counted[x]
                    } else {
                        old(hits)@[x]
                    },
            decreases 8 - j,
        {
            let ghost jj = j as int;
            let ghost before = row@;
            let ghost hits_before = hits@;
            let bit = if flip_h { j as u8 } else { (7 - j) as u8 };
            let color = high + bit_at(d2, bit) * 2 + bit_at(d1, bit);
            assert(color == spr_colour(self, kk, j as int));
            assert(forall|x: int| x == xpos + j ==> (spr_opaque_at(self, kk, x) <==> color % 4 != 0));
            if color % 4 != 0 && xpos + j < 256 {
                let rgb = palette_rgb(self.name_tables[0x1f10 + color as usize] % 64);
                row.set(xpos + j, rgb);
                if k == 0 {
                    let h = hits[xpos + j];
                    hits.set(xpos + j, h + 1);
                }
            }
            proof {
                assert forall|x: int| 0 <= x < 256 implies #[trigger] row@[x] == (if x < xpos + jj
                    + 1 {
                    drawn[x]
                } else {
                    old(row)@[x]
                }) by {
                    if x == xpos + jj {
                        if spr_opaque_at(self, kk, x) {
                            assert(row@[x] == drawn[x]);
                        } else {
                            assert(row@[x] == before[x]);
                        }
                    } else {
                        assert(row@[x] == before[x]);
                    }
                }
                assert forall|x: int| 0 <= x < 256 implies #[trigger] hits@[x] == (if x < xpos + jj
                    + 1 {
                    counted[x]
                } else {
                    old(hits)@[x]
                }) by {
                    if x == xpos + jj {
                        if kk == 0 && spr_opaque_at(self, kk, x) {
                            assert(hits@[x] == counted[x]);
                        } else {
                            assert(hits@[x] == hits_before[x]);
                        }
                    } else {
                        assert(hits@[x] == hits_before[x]);
                    }
                }
            }
            j = j + 1;
        }
        assert(row@ =~= drawn);
        assert(hits@ =~= counted);
    }

    /// Draws the sprites of one priority (`behind`: 0x20 for those behind the
    /// background, 0 for those in front) that cover the current scanline into
    /// `row`, from sprite 63 down to sprite 0, counting sprite zero's opaque
    /// pixels in `hits`; returns how many sprites cover the scanline.
    fn render_sprites(&self, behind: u8, row: &mut Vec<u32>, hits: &mut Vec<u8>) -> (n: i32)
        requires
            self.wf(),
            self.current_scanline < 234,
            old(row)@.len() == 256,
            old(hits)@.len() == 256,
            forall|x: int| 0 <= x < 256 ==> #[trigger] old(hits)@[x] <= 250,
        ensures
            final(row)@.len() == 256,
            final(hits)@.len() == 256,
            final(row)@ == spr_fold(self, behind, old(row)@, 0),
            final(hits)@ == spr_hits(self, behind, old(hits)@),
            n == spr_count(self, behind, 0),
            0 <= n <= 64,
            forall|x: int| 0 <= x < 256 ==> #[trigger] final(hits)@[x] <= old(hits)@[x] + 1,
    {
        let sl = self.current_scanline;
        let mut crossed: i32 = 0;
        let mut idx: usize = 64;
        while idx > 0
            invariant
                self.wf(),
                sl == self.current_scanline,
                sl < 234,
                row@.len() == 256,
                hits@.len() == 256,
                idx <= 64,
                forall|x: int| 0 <= x < 256 ==> #[trigger] old(hits)@[x] <= 250,
                row@ == spr_fold(self, behind, old(row)@, idx as int),
                hits@ == (if idx == 0 { spr_hits(self, behind, old(hits)@) } else { old(hits)@ }),
                crossed == spr_count(self, behind, idx as int),
                0 <= crossed <= 64 - idx,
            decreases idx,
        {
            idx = idx - 1;
            let i = idx * 4;
            let y = self.sprite_ram[i] as usize + 1;
            let attr = self.sprite_ram[i + 2];
            if (attr & 0x20) == behind && y <= sl && y + self.sprite_size > sl {
                crossed = crossed + 1;
                self.draw_sprite(idx, row, hits);
            }
            proof {
                if idx == 0 && spr_covers(self, 0, behind) {
                    assert(hits@ =~= spr_hits(self, behind, old(hits)@));
                }
            }
        }
        crossed
    }
}

/// Whether a scanline is drawn (the lines from 234 on are not).
pub open spec fn is_drawn(scanline: usize) -> bool {
    scanline < 234
}

/// The scanline after `s`: the count wraps from 262 to 0.
pub open spec fn next_scanline(s: usize) -> usize {
    if s + 1 > 262 { 0 } else { (s + 1) as usize }
}

/// The colour a drawn row starts from: the backdrop palette entry, or black
/// where the entry is not a colour.
pub open spec fn backdrop(p: &Ppu) -> u32 {
    let b = p.name_tables@[0x1f00];
    if b > 63 { 0 } else { nes_palette(b as int) }
}

/// A drawn row before any pass: the backdrop colour throughout.
pub open spec fn blank_row(p: &Ppu) -> Seq<u32> {
    Seq::new(256, |x: int| backdrop(p))
}

/// The row after the pass of sprites behind the background.
pub open spec fn behind_row(p: &Ppu) -> Seq<u32> {
    if p.sprites_visible { spr_fold(p, 0x20, blank_row(p), 0) } else { blank_row(p) }
}

/// The row after the background pass.
pub open spec fn background_row(p: &Ppu) -> Seq<u32> {
    if p.background_visible { bg_row(p, behind_row(p)) } else { behind_row(p) }
}

/// The row after the pass of sprites in front of the background.
pub open spec fn front_row(p: &Ppu) -> Seq<u32> {
    if p.sprites_visible { spr_fold(p, 0, background_row(p), 0) } else { background_row(p) }
}

/// The finished row of the current scanline: backdrop, sprites behind, background,
/// sprites in front, and the leftmost 8 pixels blanked unless clipping is off.
pub open spec fn line_row(p: &Ppu) -> Seq<u32> {
    Seq::new(
        256,
        |x: int|
            if !p.no_background_clipping && x < 8 {
                0u32
            } else {
                front_row(p)[x]
            },
    )
}

/// Sprite-zero counts of zero at every column.
pub open spec fn zero_hits() -> Seq<u8> {
    Seq::new(256, |x: int| 0u8)
}

/// The sprite-zero counts of the current scanline: 4 for each opaque background
/// pixel (while sprite zero has not hit yet) plus 1 for each opaque pixel of
/// sprite zero.
pub open spec fn line_hits(p: &Ppu) -> Seq<u8> {
    let h1 = if p.sprites_visible { spr_hits(p, 0x20, zero_hits()) } else { zero_hits() };
    let h2 = if p.background_visible { bg_hits(p, h1) } else { h1 };
    if p.sprites_visible { spr_hits(p, 0, h2) } else { h2 }
}

/// How many sprites the two sprite passes of the current scanline draw.
pub open spec fn line_sprites(p: &Ppu) -> int {
    if p.sprites_visible { spr_count(p, 0x20, 0) + spr_count(p, 0, 0) } else { 0 }
}

/// What rendering a scanline does to the PPU (see `Ppu::render_scanline`): the
/// scanline count advances (wrapping after 262, which clears the sprite-zero hit);
/// on a drawn line the row, the sprite-zero counts, the sprite count and the hit
/// flag are those of the line's passes, and nothing else changes.
#[verifier::opaque]
pub open spec fn render_rel(p: &Ppu, q: &Ppu) -> bool {
    let sl = p.current_scanline;
    &&& q.current_scanline == next_scanline(sl)
    &&& sl >= 262 ==> *q == (Ppu {
        current_scanline: 0,
        sprite_0_hit: false,
        name_table_address: if p.fix_scroll_reset { 0x2000 } else { p.name_table_address },
        ..*p
    })
    &&& !is_drawn(sl) && sl < 262 ==> *q == (Ppu { current_scanline: (sl + 1) as usize, ..*p })
    &&& is_drawn(sl) ==> *q == (Ppu {
        offscreen_buffer: q.offscreen_buffer,
        sprite_0_buffer: q.sprite_0_buffer,
        sprites_crossed: q.sprites_crossed,
        sprite_0_hit: q.sprite_0_hit,
        current_scanline: q.current_scanline,
        ..*p
    })
    &&& is_drawn(sl) ==> q.sprite_0_buffer@ == line_hits(p)
    &&& is_drawn(sl) ==> q.sprites_crossed == line_sprites(p)
    &&& is_drawn(sl) ==> q.sprite_0_hit == (p.sprite_0_hit || exists|i: int|
        0 <= i < 256 && #[trigger] line_hits(p)[i] > 4)
    &&& is_drawn(sl) ==> forall|x: int|
        0 <= x < 256 ==> #[trigger] q.offscreen_buffer@[sl * 256 + x] == line_row(p)[x]
    &&& is_drawn(sl) ==> forall|k: int|
        0 <= k < 256 * 240 && !(sl * 256 <= k < sl * 256 + 256) ==> #[trigger] q.offscreen_buffer@[k]
            == p.offscreen_buffer@[k]
}

impl Ppu {
    /// Commits a drawn row: the framebuffer row of the current scanline, the
    /// sprite-zero counts, the sprite count and the hit flag.
    fn store_row(&mut self, row: Vec<u32>, hits: Vec<u8>, crossed: i32, hit: bool)
        requires
            old(self).wf(),
            old(self).current_scanline < 240,
            row@.len() == 256,
            hits@.len() == 256,
        ensures
            final(self).wf(),
            *final(self) == (Ppu {
                offscreen_buffer: final(self).offscreen_buffer,
                sprite_0_buffer: hits,
                sprites_crossed: crossed,
                sprite_0_hit: hit,
                ..*old(self)
            }),
            forall|k: int|
                0 <= k < 256 * 240 ==> #[trigger] final(self).offscreen_buffer@[k] == if old(self).current_scanline * 256 <= k < old(self).current_scanline * 256 + 256 {
                    row@[k - old(self).current_scanline * 256]
                } else {
                    old(self).offscreen_buffer@[k]
                },
    {
        let base = self.current_scanline * 256;
        let mut buf: Vec<u32> = Vec::new();
        std::mem::swap(&mut buf, &mut self.offscreen_buffer);
        let ghost before = buf@;
        let mut x: usize = 0;
        while x < 256
            invariant
                base == old(self).current_scanline * 256,
                base + 256 <= 256 * 240,
                buf@.len() == 256 * 240,
                row@.len() == 256,
                x <= 256,
                forall|k: int|
                    0 <= k < 256 * 240 ==> #[trigger] buf@[k] == if base <= k < base + x {
                        row@[k - base]
                    } else {
                        before[k]
                    },
            decreases 256 - x,
        {
            buf.set(base + x, row[x]);
            x = x + 1;
        }
        self.offscreen_buffer = buf;
        self.sprite_0_buffer = hits;
        self.sprites_crossed = crossed;
        self.sprite_0_hit = hit;
    }
}


impl Ppu {
    /// Moves to the next scanline; at the wrap from 262 to 0 the sprite-zero
    /// hit clears (and, for titles that need it, the name-table base resets).
    /// Returns whether the vertical-blank interrupt is due.
    #[verifier::spinoff_prover]
    #[verifier::rlimit(60)]
    fn advance_scanline(&mut self) -> (r: bool)
        requires
            old(self).wf(),
        ensures
            final(self).wf(),
            *final(self) == (Ppu {
                current_scanline: next_scanline(old(self).current_scanline),
                sprite_0_hit: old(self).current_scanline + 1 <= 262 && old(self).sprite_0_hit,
                name_table_address: if old(self).current_scanline + 1 > 262
                    && old(self).fix_scroll_reset {
                    0x2000
                } else {
                    old(self).name_table_address
                },
                ..*old(self)
            }),
            r == (final(self).current_scanline == 240 && old(self).execute_nmi_on_vblank),
    {
        let wrap = self.current_scanline + 1 > 262;
        let next = if wrap { 0 } else { self.current_scanline + 1 };
        let hit = !wrap && self.sprite_0_hit;
        let nta = if wrap && self.fix_scroll_reset { 0x2000 } else { self.name_table_address };
        self.current_scanline = next;
        self.sprite_0_hit = hit;
        self.name_table_address = nta;
        self.current_scanline == 240 && self.execute_nmi_on_vblank
    }

    /// Renders the current scanline (on a drawn line: backdrop, sprites behind
    /// the background, background, sprites in front, sprite-zero hit detection,
    /// left-column clipping) and moves to the next one. Returns whether the
    /// vertical-blank interrupt is due.
    #[verifier::spinoff_prover]
    #[verifier::rlimit(100)]
    pub fn render_scanline(&mut self) -> (r: bool)
        requires
            old(self).wf(),
        ensures
            final(self).wf(),
            final(self).current_scanline == next_scanline(old(self).current_scanline),
            final(self).mapper == old(self).mapper,
            final(self).num_chr_pages == old(self).num_chr_pages,
            final(self).execute_nmi_on_vblank == old(self).execute_nmi_on_vblank,
            r == (final(self).current_scanline == 240 && old(self).execute_nmi_on_vblank),
            render_rel(old(self), final(self)),
    {
        reveal(render_rel);
        if self.current_scanline < 234 {
            let b = self.name_tables[0x1f00];
            let fill: u32 = if b > 63 { 0 } else { palette_rgb(b) };
            let mut row: Vec<u32> = Vec::new();
            let mut hits: Vec<u8> = Vec::new();
            let mut k: usize = 0;
            while k < 256
                invariant
                    k <= 256,
                    fill == backdrop(self),
                    row@.len() == k,
                    hits@.len() == k,
                    forall|j: int| 0 <= j < k ==> #[trigger] row@[j] == fill,
                    forall|j: int| 0 <= j < k ==> #[trigger] hits@[j] == 0,
                decreases 256 - k,
            {
                row.push(fill);
                hits.push(0);
                k = k + 1;
            }
            assert(row@ =~= blank_row(self));
            assert(hits@ =~= zero_hits());
            let mut crossed: i32 = 0;
            if self.sprites_visible {
                crossed = self.render_sprites(0x20, &mut row, &mut hits);
            }
            assert(row@ == behind_row(self));
            if self.background_visible {
                self.render_background(&mut row, &mut hits);
            }
            assert(row@ == background_row(self));
            if self.sprites_visible {
                crossed = crossed + self.render_sprites(0, &mut row, &mut hits);
            }
            assert(row@ == front_row(self));
            assert(hits@ == line_hits(self));
            let mut hit = self.sprite_0_hit;
            let mut i: usize = 0;
            while i < 256
                invariant
                    hits@.len() == 256,
                    i <= 256,
                    hit == (self.sprite_0_hit || exists|j: int|
                        0 <= j < i && #[trigger] hits@[j] > 4),
                decreases 256 - i,
            {
                if hits[i] > 4 {
                    hit = true;
                }
                i = i + 1;
            }
            let ghost drawn = row@;
            if !self.no_background_clipping {
                let mut x: usize = 0;
                while x < 8
                    invariant
                        row@.len() == 256,
                        x <= 8,
                        forall|k: int| 0 <= k < x ==> #[trigger] row@[k] == 0,
                        forall|k: int| x <= k < 256 ==> #[trigger] row@[k] == drawn[k],
                    decreases 8 - x,
                {
                    row.set(x, 0);
                    x = x + 1;
                }
            }
            assert(row@ =~= line_row(self));
            self.store_row(row, hits, crossed, hit);
        }
        self.advance_scanline()
    }
}

} // verus!
