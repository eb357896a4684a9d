use vstd::prelude::*;

use crate::mirroring;
use crate::mapper::{last_bank_start, prg_start, set_run};
use crate::mmu::Mmu;
use crate::ppu::Ppu;

verus! {

/// What a cartridge's header says.
#[derive(Clone, Copy, Debug, PartialEq, Eq, Structural)]
pub struct CartHeader {
    pub num_prg_pages: u8,
    pub num_chr_pages: u8,
    pub mirroring: u8,
    pub save_ram_present: bool,
    pub mapper: u8,
}

/// Why a cartridge image cannot be loaded.
#[derive(Clone, Copy, Debug, PartialEq, Eq, Structural)]
pub enum LoadError {
    /// The image does not start with the cartridge signature.
    BadMagic,
    /// The header names a mapper outside 0 to 4.
    UnsupportedMapper(u8),
}

/// The byte at `i` of an image; images read as zero past their end.
pub open spec fn byte_at(bytes: Seq<u8>, i: int) -> u8 {
    if 0 <= i < bytes.len() { bytes[i] } else { 0 }
}

/// Whether an image starts with the signature "NES" and 0x1a.
pub open spec fn has_magic(bytes: Seq<u8>) -> bool {
    byte_at(bytes, 0) == 0x4e && byte_at(bytes, 1) == 0x45 && byte_at(bytes, 2) == 0x53
        && byte_at(bytes, 3) == 0x1a
}

/// The mapper number of a header's flag bytes, with the repairs for images
/// whose upper flag byte holds garbage.
pub open spec fn mapper_of(info: u8, mapper_part: u8) -> u8 {
    if mapper_part == 0x44 {
        info / 16
    } else if info == 0x23 && mapper_part == 0x64 {
        2
    } else {
        (info / 16 + (mapper_part / 16) * 16) as u8
    }
}

/// The mirroring mode of a header's first flag byte.
pub open spec fn mirroring_of(info: u8) -> u8 {
    if info & 0x8 == 0x8 {
        mirroring::FOUR_SCREEN
    } else if info & 0x1 == 0x1 {
        mirroring::VERTICAL
    } else {
        mirroring::HORIZONTAL
    }
}

/// The header an image carries, or why it is refused.
pub open spec fn header_of(bytes: Seq<u8>) -> Result<CartHeader, LoadError> {
    let info = byte_at(bytes, 6);
    let mapper = mapper_of(info, byte_at(bytes, 7));
    if !has_magic(bytes) {
        Err(LoadError::BadMagic)
    } else if mapper > 4 {
        Err(LoadError::UnsupportedMapper(mapper))
    } else {
        Ok(
            CartHeader {
                num_prg_pages: byte_at(bytes, 4),
                num_chr_pages: byte_at(bytes, 5),
                mirroring: mirroring_of(info),
                save_ram_present: info & 0x2 == 0x2,
                mapper: mapper,
            },
        )
    }
}

fn byte_of(bytes: &Vec<u8>, i: usize) -> (r: u8)
    ensures
        r == byte_at(bytes@, i as int),
{
    if i < bytes.len() {
        bytes[i]
    } else {
        0
    }
}

/// Reads a cartridge image's 16-byte header.
pub fn parse_header(bytes: &Vec<u8>) -> (r: Result<CartHeader, LoadError>)
    ensures
        r == header_of(bytes@),
{
    if !(byte_of(bytes, 0) == 0x4e && byte_of(bytes, 1) == 0x45 && byte_of(bytes, 2) == 0x53
        && byte_of(bytes, 3) == 0x1a) {
        return Err(LoadError::BadMagic);
    }
    let info = byte_of(bytes, 6);
    let mapper_part = byte_of(bytes, 7);
    let mapper: u8 = if mapper_part == 0x44 {
        info / 16
    } else if info == 0x23 && mapper_part == 0x64 {
        2
    } else {
        info / 16 + (mapper_part / 16) * 16
    };
    if mapper > 4 {
        return Err(LoadError::UnsupportedMapper(mapper));
    }
    let mirroring = if info & 0x8 == 0x8 {
        mirroring::FOUR_SCREEN
    } else if info & 0x1 == 0x1 {
        mirroring::VERTICAL
    } else {
        mirroring::HORIZONTAL
    };
    Ok(
        CartHeader {
            num_prg_pages: byte_of(bytes, 4),
            num_chr_pages: byte_of(bytes, 5),
            mirroring: mirroring,
            save_ram_present: info & 0x2 == 0x2,
            mapper: mapper,
        },
    )
}

/// The `size` bytes of an image from `start` on, zero past its end.
pub fn page_of(bytes: &Vec<u8>, start: usize, size: usize) -> (r: Vec<u8>)
    requires
        start + size <= usize::MAX,
    ensures
        r@ == Seq::new(size as nat, |j: int| byte_at(bytes@, start + j)),
{
    let mut page: Vec<u8> = Vec::new();
    let mut j: usize = 0;
    while j < size
        invariant
            j <= size,
            start + size <= usize::MAX,
            page@ == Seq::new(j as nat, |k: int| byte_at(bytes@, start + k)),
        decreases size - j,
    {
        page.push(byte_of(bytes, start + j));
        j = j + 1;
        assert(page@ =~= Seq::new(j as nat, |k: int| byte_at(bytes@, start + k)));
    }
    page
}

/// Whether the image-specific corrections for a title apply, from byte patterns
/// in the program ROM: (background change, scroll offsets 1 to 3, scroll reset).
pub open spec fn quirks_of(m: &Mmu) -> (bool, bool, bool, bool, bool) {
    let last = m.num_prg_pages as int - 1;
    (
        m.num_prg_pages > 0
            && m.prg_byte(last, 0xfeb) == 0x5a
            && m.prg_byte(last, 0xfec) == 0x45
            && m.prg_byte(last, 0xfed) == 0x4c
            && m.prg_byte(last, 0xfee) == 0x44
            && m.prg_byte(last, 0xfef) == 0x41,
        m.num_prg_pages > 0
            && m.prg_byte(last, 0xfe0) == 0x42
            && m.prg_byte(last, 0xfe1) == 0x42
            && m.prg_byte(last, 0xfe2) == 0x34
            && m.prg_byte(last, 0xfe3) == 0x37
            && m.prg_byte(last, 0xfe4) == 0x39
            && m.prg_byte(last, 0xfe5) == 0x35
            && m.prg_byte(last, 0xfe6) == 0x36
            && m.prg_byte(last, 0xfe7) == 0x2d
            && m.prg_byte(last, 0xfe8) == 0x31
            && m.prg_byte(last, 0xfe9) == 0x35
            && m.prg_byte(last, 0xfea) == 0x34
            && m.prg_byte(last, 0xfeb) == 0x34
            && m.prg_byte(last, 0xfec) == 0x30,
        m.prg_byte(0, 0x9) == 0xfc
            && m.prg_byte(0, 0xa) == 0xfc
            && m.prg_byte(0, 0xb) == 0xfc
            && m.prg_byte(0, 0xc) == 0x40
            && m.prg_byte(0, 0xd) == 0x40
            && m.prg_byte(0, 0xe) == 0x40
            && m.prg_byte(0, 0xf) == 0x40,
        m.prg_byte(0, 0x75) == 0x11
            && m.prg_byte(0, 0x76) == 0x12
            && m.prg_byte(0, 0x77) == 0x13
            && m.prg_byte(0, 0x78) == 0x14
            && m.prg_byte(0, 0x79) == 0x07
            && m.prg_byte(0, 0x7a) == 0x03
            && m.prg_byte(0, 0x7b) == 0x03
            && m.prg_byte(0, 0x7c) == 0x03
            && m.prg_byte(0, 0x7d) == 0x03,
        m.prg_byte(0, 0xfdb) == 0xfa
            && m.prg_byte(0, 0xfdc) == 0xa9
            && m.prg_byte(0, 0xfdd) == 0x18,
    )
}

impl Mmu {
    /// The byte at `off` of 4K program page `page`; zero where there is none.
    pub fn prg_byte_at(&self, page: usize, off: usize) -> (r: u8)
        ensures
            r == self.prg_byte(page as int, off as int),
    {
        if page < self.prg_rom.len() && off < self.prg_rom[page].len() {
            self.prg_rom[page][off]
        } else {
            0
        }
    }
}

/// Detects the titles that need rendering corrections, by byte patterns near the
/// end of the program page numbered like the last 16K page and at the start of
/// the first, and sets the PPU's correction flags.
pub fn configure_ppu_for_cart(mmu: &mut Mmu)
    requires
        old(mmu).wf(),
    ensures
        final(mmu).wf(),
        quirks_of(old(mmu)) == (
            final(mmu).ppu.fix_bg_change,
            final(mmu).ppu.fix_scroll_offset_1,
            final(mmu).ppu.fix_scroll_offset_2,
            final(mmu).ppu.fix_scroll_offset_3,
            final(mmu).ppu.fix_scroll_reset,
        ),
        *final(mmu) == (Mmu {
            ppu: Ppu {
                fix_bg_change: final(mmu).ppu.fix_bg_change,
                fix_scroll_offset_1: final(mmu).ppu.fix_scroll_offset_1,
                fix_scroll_offset_2: final(mmu).ppu.fix_scroll_offset_2,
                fix_scroll_offset_3: final(mmu).ppu.fix_scroll_offset_3,
                fix_scroll_reset: final(mmu).ppu.fix_scroll_reset,
                ..old(mmu).ppu
            },
            ..*old(mmu)
        }),
{
    let has_pages = mmu.num_prg_pages > 0;
    let last: usize = if has_pages { mmu.num_prg_pages - 1 } else { 0 };
    let bg = has_pages
        && mmu.prg_byte_at(last, 0xfeb) == 0x5a
        && mmu.prg_byte_at(last, 0xfec) == 0x45
        && mmu.prg_byte_at(last, 0xfed) == 0x4c
        && mmu.prg_byte_at(last, 0xfee) == 0x44
        && mmu.prg_byte_at(last, 0xfef) == 0x41;
    let s1 = has_pages
        && mmu.prg_byte_at(last, 0xfe0) == 0x42
        && mmu.prg_byte_at(last, 0xfe1) == 0x42
        && mmu.prg_byte_at(last, 0xfe2) == 0x34
        && mmu.prg_byte_at(last, 0xfe3) == 0x37
        && mmu.prg_byte_at(last, 0xfe4) == 0x39
        && mmu.prg_byte_at(last, 0xfe5) == 0x35
        && mmu.prg_byte_at(last, 0xfe6) == 0x36
        && mmu.prg_byte_at(last, 0xfe7) == 0x2d
        && mmu.prg_byte_at(last, 0xfe8) == 0x31
        && mmu.prg_byte_at(last, 0xfe9) == 0x35
        && mmu.prg_byte_at(last, 0xfea) == 0x34
        && mmu.prg_byte_at(last, 0xfeb) == 0x34
        && mmu.prg_byte_at(last, 0xfec) == 0x30;
    let s2 = mmu.prg_byte_at(0, 0x9) == 0xfc
        && mmu.prg_byte_at(0, 0xa) == 0xfc
        && mmu.prg_byte_at(0, 0xb) == 0xfc
        && mmu.prg_byte_at(0, 0xc) == 0x40
        && mmu.prg_byte_at(0, 0xd) == 0x40
        && mmu.prg_byte_at(0, 0xe) == 0x40
        && mmu.prg_byte_at(0, 0xf) == 0x40;
    let s3 = mmu.prg_byte_at(0, 0x75) == 0x11
        && mmu.prg_byte_at(0, 0x76) == 0x12
        && mmu.prg_byte_at(0, 0x77) == 0x13
        && mmu.prg_byte_at(0, 0x78) == 0x14
        && mmu.prg_byte_at(0, 0x79) == 0x07
        && mmu.prg_byte_at(0, 0x7a) == 0x03
        && mmu.prg_byte_at(0, 0x7b) == 0x03
        && mmu.prg_byte_at(0, 0x7c) == 0x03
        && mmu.prg_byte_at(0, 0x7d) == 0x03;
    let sr = mmu.prg_byte_at(0, 0xfdb) == 0xfa
        && mmu.prg_byte_at(0, 0xfdc) == 0xa9
        && mmu.prg_byte_at(0, 0xfdd) == 0x18;
    mmu.ppu.set_quirks(bg, s1, s2, s3, sr);
}


/// The `count` pages of `size` bytes of an image from `start` on.
pub open spec fn pages_of(bytes: Seq<u8>, start: int, count: int, size: int) -> Seq<Seq<u8>> {
    Seq::new(
        count as nat,
        |k: int| Seq::new(size as nat, |j: int| byte_at(bytes, start + k * size + j)),
    )
}

/// Where the pattern pages of an image with `num_prg_pages` 16K program pages start.
pub open spec fn chr_start_offset(num_prg_pages: u8) -> int {
    16 + num_prg_pages as int * 0x4000
}

fn pages_from(bytes: &Vec<u8>, start: usize, count: usize, size: usize) -> (r: Vec<Vec<u8>>)
    requires
        size <= 0x1000,
        count <= 0x800,
        start <= 0x400000,
    ensures
        r@.map_values(|p: Vec<u8>| p@) == pages_of(bytes@, start as int, count as int, size as int),
{
    let mut pages: Vec<Vec<u8>> = Vec::new();
    let mut k: usize = 0;
    while k < count
        invariant
            k <= count,
            size <= 0x1000,
            count <= 0x800,
            start <= 0x400000,
            pages@.len() == k,
            forall|i: int| 0 <= i < k ==> #[trigger] pages@[i]@ == Seq::new(
                size as nat,
                |j: int| byte_at(bytes@, start + i * size + j),
            ),
        decreases count - k,
    {
        assert(k * size <= 0x800 * 0x1000) by (nonlinear_arith)
            requires
                k <= 0x800,
                size <= 0x1000,
        ;
        let page = page_of(bytes, start + k * size, size);
        assert(page@ =~= Seq::new(size as nat, |j: int| byte_at(bytes@, start + k * size + j)));
        pages.push(page);
        k = k + 1;
    }
    assert(pages@.map_values(|p: Vec<u8>| p@) =~= pages_of(
        bytes@,
        start as int,
        count as int,
        size as int,
    ));
    pages
}

/// Puts a cartridge's pages and header fields on the bus.
fn install(mmu: &mut Mmu, prg: Vec<Vec<u8>>, chr: Vec<Vec<u8>>, h: CartHeader)
    requires
        old(mmu).wf(),
    ensures
        final(mmu).wf(),
        final(mmu).prg_rom == prg,
        final(mmu).num_prg_pages == h.num_prg_pages,
        final(mmu).save_ram_present == h.save_ram_present,
        final(mmu).active_prg_page == old(mmu).active_prg_page,
        final(mmu).ppu.chr_rom == chr,
        final(mmu).ppu.mirroring == h.mirroring,
        final(mmu).ppu.is_vram == (h.num_chr_pages == 0),
        final(mmu).ppu.mapper == h.mapper,
        final(mmu).ppu.num_chr_pages == h.num_chr_pages,
{
    mmu.prg_rom = prg;
    mmu.num_prg_pages = h.num_prg_pages as usize;
    mmu.save_ram_present = h.save_ram_present;
    mmu.ppu.load_cart_info(
        chr,
        h.mirroring,
        h.num_chr_pages == 0,
        h.mapper,
        h.num_chr_pages as usize,
    );
}

/// Loads a cartridge image onto the bus: the header decides the mapper, the
/// mirroring and the save-RAM flag; the program pages (4K each) follow the header,
/// then the pattern pages (1K each), or eight pages of writable pattern memory
/// where the image has none. Then the mapper's power-on layout and the per-title
/// corrections are set up. A refused image leaves the bus as it was.
#[verifier::spinoff_prover]
#[verifier::rlimit(80)]
pub fn load_rom(bytes: &Vec<u8>, mmu: &mut Mmu) -> (r: Result<CartHeader, LoadError>)
    requires
        old(mmu).wf(),
    ensures
        final(mmu).wf(),
        r matches Err(e) ==> header_of(bytes@) == Err::<CartHeader, LoadError>(e) && *final(mmu)
            == *old(mmu),
        r matches Ok(h) ==> {
            &&& header_of(bytes@) == Ok::<CartHeader, LoadError>(h)
            &&& final(mmu).num_prg_pages == h.num_prg_pages
            &&& final(mmu).prg_rom@.map_values(|p: Vec<u8>| p@) == pages_of(
                bytes@,
                16,
                4 * h.num_prg_pages,
                0x1000,
            )
            &&& final(mmu).ppu.chr_view() == (if h.num_chr_pages > 0 {
                pages_of(bytes@, chr_start_offset(h.num_prg_pages), 8 * h.num_chr_pages, 0x400)
            } else {
                Seq::new(8, |k: int| Seq::new(0x400, |j: int| 0u8))
            })
            &&& final(mmu).ppu.num_chr_pages == h.num_chr_pages
            &&& final(mmu).ppu.is_vram == (h.num_chr_pages == 0)
            &&& final(mmu).ppu.mapper == h.mapper
            &&& final(mmu).ppu.mirroring == h.mirroring
            &&& final(mmu).save_ram_present == h.save_ram_present
            &&& final(mmu).active_prg_page@ == (if h.mapper == 1 || h.mapper == 2 || h.mapper
                == 4 {
                set_run(
                    old(mmu).active_prg_page@,
                    4,
                    4,
                    prg_start(
                        h.num_prg_pages as usize,
                        last_bank_start(h.num_prg_pages as usize),
                    ) as int,
                )
            } else {
                old(mmu).active_prg_page@
            })
            &&& quirks_of(final(mmu)) == (
                final(mmu).ppu.fix_bg_change,
                final(mmu).ppu.fix_scroll_offset_1,
                final(mmu).ppu.fix_scroll_offset_2,
                final(mmu).ppu.fix_scroll_offset_3,
                final(mmu).ppu.fix_scroll_reset,
            )
        },
{
    let h = match parse_header(bytes) {
        Ok(h) => h,
        Err(e) => {
            return Err(e);
        },
    };
    let n = h.num_prg_pages as usize;
    let c = h.num_chr_pages as usize;
    let prg = pages_from(bytes, 16, 4 * n, 0x1000);
    let chr = if c > 0 {
        pages_from(bytes, 16 + n * 0x4000, 8 * c, 0x400)
    } else {
        let empty: Vec<u8> = Vec::new();
        pages_from(&empty, 0, 8, 0x400)
    };
    proof {
        if c == 0 {
            let v = chr@.map_values(|p: Vec<u8>| p@);
            assert forall|k: int| 0 <= k < 8 implies #[trigger] v[k] =~= Seq::new(
                0x400,
                |j: int| 0u8,
            ) by {}
            assert(v =~= Seq::new(8, |k: int| Seq::new(0x400, |j: int| 0u8)));
        }
    }
    install(mmu, prg, chr, h);
    mmu.setup_defaults();
    configure_ppu_for_cart(mmu);
    Ok(h)
}

/// The name of the save file of a cartridge file: its ".nes" extension replaced
/// by ".sav", or ".sav" appended where it has none.
pub open spec fn save_name_of(name: Seq<u8>) -> Seq<u8> {
    let n = name.len();
    let ext = seq![0x6eu8, 0x65u8, 0x73u8];
    let sav = seq![0x73u8, 0x61u8, 0x76u8];
    if n >= 3 && name.subrange(n - 3, n as int) == ext && (n == 3 || name[n - 4] == 0x2e) {
        name.subrange(0, n - 3) + sav
    } else {
        name + seq![0x2eu8] + sav
    }
}

/// Derives the save file's name from a cartridge file's name (as bytes).
pub fn save_file_name(name: &Vec<u8>) -> (r: Vec<u8>)
    ensures
        r@ == save_name_of(name@),
{
    let n = name.len();
    let is_nes = n >= 3 && name[n - 3] == 0x6e && name[n - 2] == 0x65 && name[n - 1] == 0x73 && (
    n == 3 || name[n - 4] == 0x2e);
    let keep = if is_nes { n - 3 } else { n };
    let mut r: Vec<u8> = Vec::new();
    let mut i: usize = 0;
    while i < keep
        invariant
            keep <= n == name@.len(),
            i <= keep,
            r@ == name@.subrange(0, i as int),
        decreases keep - i,
    {
        r.push(name[i]);
        i = i + 1;
        assert(r@ =~= name@.subrange(0, i as int));
    }
    if !is_nes {
        r.push(0x2e);
    }
    r.push(0x73);
    r.push(0x61);
    r.push(0x76);
    proof {
        let ext = seq![0x6eu8, 0x65u8, 0x73u8];
        if n >= 3 {
            assert(name@.subrange(n - 3, n as int) == ext <==> (name@[n - 3] == 0x6e && name@[n
                - 2] == 0x65 && name@[n - 1] == 0x73)) by {
                if name@[n - 3] == 0x6e && name@[n - 2] == 0x65 && name@[n - 1] == 0x73 {
                    assert(name@.subrange(n - 3, n as int) =~= ext);
                }
            }
        }
        if is_nes {
            assert(r@ =~= save_name_of(name@));
        } else {
            assert(name@.subrange(0, n as int) =~= name@);
            assert(r@ =~= save_name_of(name@));
        }
    }
    r
}

} // verus!
