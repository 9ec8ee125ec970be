use crate::memory::address;
use crate::memory::ioregisters::{IoRegister, IoRegistersView, TileDataRange};
use crate::memory::{AddressSpace, AddressSpaceView};
use crate::ppu::queue::ArrayQueue;
use crate::ppu::{
    transparent_pixel, OamSpriteData, QueuedObjPixel, RenderView, RenderingScanlineStateData,
    SpritePalette, State, StateView, TileData, MAX_SPRITES_PER_SCANLINE,
};
use vstd::prelude::*;

verus! {

broadcast use crate::memory::ioregisters::lemma_io_registers_wf, crate::memory::lemma_address_space_wf;

/// A value taken modulo 256, the way the PPU's 8-bit counters wrap.
pub open spec fn wrap8(v: int) -> u8 {
    (v % 256) as u8
}

/// The frame buffer as 144 rows of 160 colours.
pub open spec fn frame_view(frame_buffer: [[u8; 160]; 144]) -> Seq<Seq<u8>> {
    Seq::new(144, |y: int| frame_buffer@[y]@)
}

// ---------------------------------------------------------------------------------------------
// OAM scanning and sprite lookup
// ---------------------------------------------------------------------------------------------

/// Sprite height in pixels as selected by LCDC bit 2.
pub open spec fn spec_sprite_height(io: IoRegistersView) -> u8 {
    if io.byte(IoRegister::LCDC) & 0x04 != 0 {
        16
    } else {
        8
    }
}

/// The sprites found so far after checking the OAM entry at `dot * 2`: it is added when the
/// scanline crosses it and fewer than 10 sprites have been found.
pub open spec fn spec_scan_oam(
    sprites: Seq<OamSpriteData>,
    mem: AddressSpaceView,
    scanline: u8,
    dot: u32,
) -> Seq<OamSpriteData> {
    if sprites.len() == 10 {
        sprites
    } else {
        let i = dot * 2;
        let y_pos = mem.oam[i];
        let top = y_pos - 16;
        if top <= scanline < top + spec_sprite_height(mem.io) {
            sprites.push(
                OamSpriteData {
                    x_pos: mem.oam[i + 1],
                    y_pos,
                    tile_index: mem.oam[i + 2],
                    flags: mem.oam[i + 3],
                },
            )
        } else {
            sprites
        }
    }
}

/// Check the OAM entry at offset `dot * 2` and record it if it is on the given scanline.
pub fn scan_oam(
    sprites: &mut Vec<OamSpriteData>,
    address_space: &AddressSpace,
    scanline: u8,
    dot: u32,
)
    requires
        dot <= 78,
    ensures
        final(sprites)@ == spec_scan_oam(old(sprites)@, address_space@, scanline, dot),
{
    if sprites.len() == MAX_SPRITES_PER_SCANLINE {
        return ;
    }
    let oam_offset = (dot * 2) as u16;
    let obj_address = address::OAM_START + oam_offset;
    let y_pos = address_space.ppu_read_address_u8(obj_address);
    let sprite_height = address_space.get_io_registers().lcdc().sprite_mode().height();
    let top_scanline = y_pos as i32 - 16;
    let bottom_scanline = top_scanline + sprite_height as i32;
    if top_scanline <= scanline as i32 && (scanline as i32) < bottom_scanline {
        let x_pos = address_space.ppu_read_address_u8(obj_address + 1);
        let tile_index = address_space.ppu_read_address_u8(obj_address + 2);
        let flags = address_space.ppu_read_address_u8(obj_address + 3);
        sprites.push(OamSpriteData { x_pos, y_pos, tile_index, flags });
    }
}

/// The sprites with X position `x` or more, ordered by X position, sprites with equal X
/// position keeping their order.
pub open spec fn sorted_from(sprites: Seq<OamSpriteData>, x: int) -> Seq<OamSpriteData>
    decreases 256 - x,
{
    if x >= 256 {
        Seq::empty()
    } else {
        sprites.filter(|d: OamSpriteData| d.x_pos == x) + sorted_from(sprites, x + 1)
    }
}

/// The sprites stably sorted by X position.
pub open spec fn sorted_by_x(sprites: Seq<OamSpriteData>) -> Seq<OamSpriteData> {
    sorted_from(sprites, 0)
}

/// std's `slice::sort_by_key` keyed on the X position. Its documentation promises a stable
/// sort: the result orders the sprites by X position and keeps sprites with equal X in their
/// original order, and is a permutation of the input.
#[verifier::external_body]
pub(crate) fn sort_sprites_by_x(sprites: &mut Vec<OamSpriteData>)
    ensures
        final(sprites)@ == sorted_by_x(old(sprites)@),
        final(sprites)@.to_multiset() == old(sprites)@.to_multiset(),
{
    sprites.sort_by_key(|data| data.x_pos);
}

/// The row of a sprite's tile that the scanline crosses, honouring vertical flip and 8x16
/// sprites (whose top tile has the tile index with bit 0 cleared).
pub open spec fn spec_sprite_tile_row(sprite: OamSpriteData, mem: AddressSpaceView, scanline: u8) -> TileData {
    let flip_y = sprite.flags & 0x40 != 0;
    let sprite_y = (scanline + 16 - sprite.y_pos) as u8;
    let stacked = mem.io.byte(IoRegister::LCDC) & 0x04 != 0;
    let y: u8 = if stacked {
        if flip_y {
            wrap8(15 - sprite_y)
        } else {
            sprite_y
        }
    } else {
        if flip_y {
            wrap8(7 - sprite_y)
        } else {
            sprite_y
        }
    };
    let tile_index: int = if !stacked {
        sprite.tile_index as int
    } else if y < 8 {
        (sprite.tile_index & 0xFE) as int
    } else {
        (sprite.tile_index & 0xFE) + 1
    };
    let row: int = if stacked {
        (y % 8) as int
    } else {
        y as int
    };
    let offset = 16 * tile_index + 2 * row;
    TileData(mem.vram[offset], mem.vram[offset + 1])
}

/// Each sprite paired with the row of its tile that the scanline crosses.
pub open spec fn spec_lookup_sprite_tiles(
    sprites: Seq<OamSpriteData>,
    mem: AddressSpaceView,
    scanline: u8,
) -> Seq<(OamSpriteData, TileData)> {
    Seq::new(sprites.len(), |i: int| (sprites[i], spec_sprite_tile_row(sprites[i], mem, scanline)))
}

fn sprite_tile_row(sprite: OamSpriteData, address_space: &AddressSpace, scanline: u8) -> (r: TileData)
    requires
        scanline < 144,
        sprite.y_pos <= scanline + 16,
    ensures
        r == spec_sprite_tile_row(sprite, address_space@, scanline),
{
    let flip_y = sprite.flags & 0x40 != 0;
    let sprite_y = scanline + 16 - sprite.y_pos;
    let stacked = address_space.get_io_registers().lcdc().sprite_stacking_enabled();
    let (tile_index, y) = if !stacked {
        let y = if flip_y {
            7u8.wrapping_sub(sprite_y)
        } else {
            sprite_y
        };
        (sprite.tile_index, y)
    } else {
        let y = if flip_y {
            15u8.wrapping_sub(sprite_y)
        } else {
            sprite_y
        };
        let tile_index = sprite.tile_index;
        let top_tile = tile_index & 0xFE;
        assert(top_tile <= 254) by (bit_vector)
            requires
                top_tile == tile_index & 0xFE,
        ;
        let tile_index = if y < 8 {
            top_tile
        } else {
            top_tile + 1
        };
        (tile_index, y % 8)
    };
    let y = y as u16;
    let tile_address = 0x8000 + 16 * tile_index as u16;
    let tile_data_0 = address_space.ppu_read_address_u8(tile_address + 2 * y);
    let tile_data_1 = address_space.ppu_read_address_u8(tile_address + 2 * y + 1);
    TileData(tile_data_0, tile_data_1)
}

/// Look up the tile row of each sprite on the scanline.
pub fn lookup_sprite_tiles(
    sprites: &Vec<OamSpriteData>,
    address_space: &AddressSpace,
    scanline: u8,
) -> (r: Vec<(OamSpriteData, TileData)>)
    requires
        scanline < 144,
        forall|i: int| 0 <= i < sprites@.len() ==> #[trigger] sprites@[i].y_pos <= scanline + 16,
    ensures
        r@ == spec_lookup_sprite_tiles(sprites@, address_space@, scanline),
{
    let mut result: Vec<(OamSpriteData, TileData)> = Vec::new();
    let mut i: usize = 0;
    while i < sprites.len()
        invariant
            scanline < 144,
            forall|i: int| 0 <= i < sprites@.len() ==> #[trigger] sprites@[i].y_pos <= scanline + 16,
            i <= sprites@.len(),
            result@ == spec_lookup_sprite_tiles(sprites@.subrange(0, i as int), address_space@, scanline),
        decreases sprites@.len() - i,
    {
        let sprite = sprites[i];
        let tile_data = sprite_tile_row(sprite, address_space, scanline);
        result.push((sprite, tile_data));
        i += 1;
        assert(result@ =~= spec_lookup_sprite_tiles(sprites@.subrange(0, i as int), address_space@, scanline));
    }
    assert(sprites@.subrange(0, sprites@.len() as int) =~= sprites@);
    result
}

// ---------------------------------------------------------------------------------------------
// Tile data and colours
// ---------------------------------------------------------------------------------------------

/// The 2-bit colour id of pixel `x` (0 = leftmost) in a tile row: bit 7-x of the high byte
/// and of the low byte.
pub open spec fn spec_pixel_color_id(tile_data: TileData, x: u8) -> u8 {
    let bit_mask = 1u8 << ((7 - x) as u8);
    ((if tile_data.1 & bit_mask != 0 {
        2int
    } else {
        0int
    }) + (if tile_data.0 & bit_mask != 0 {
        1int
    } else {
        0int
    })) as u8
}

fn get_pixel_color_id(tile_data: TileData, x: u8) -> (r: u8)
    requires
        x < 8,
    ensures
        r == spec_pixel_color_id(tile_data, x),
        r < 4,
{
    let bit_mask = 1u8 << (7 - x);
    let high: u8 = if tile_data.1 & bit_mask != 0 {
        2
    } else {
        0
    };
    let low: u8 = if tile_data.0 & bit_mask != 0 {
        1
    } else {
        0
    };
    high + low
}

/// The address of a BG/window tile: unsigned indices from 0x8000, or signed indices around
/// 0x9000.
pub open spec fn spec_bg_tile_address(tile_data_range: TileDataRange, tile_index: u8) -> u16 {
    match tile_data_range {
        TileDataRange::Block0 => if tile_index < 128 {
            (0x9000 + 16 * tile_index) as u16
        } else {
            (0x9000 + 16 * (tile_index - 256)) as u16
        },
        TileDataRange::Block1 => (0x8000 + 16 * tile_index) as u16,
    }
}

fn get_bg_tile_address(bg_tile_data_area: TileDataRange, tile_index: u8) -> (r: u16)
    ensures
        r == spec_bg_tile_address(bg_tile_data_area, tile_index),
        0x8000 <= r <= 0x97F0,
{
    match bg_tile_data_area {
        TileDataRange::Block0 => {
            // Indices 128-255 address the tiles below 0x9000
            if tile_index < 128 {
                bg_tile_data_area.start_address() + 16 * tile_index as u16
            } else {
                bg_tile_data_area.start_address() - 16 * (256 - tile_index as u16)
            }
        },
        TileDataRange::Block1 => bg_tile_data_area.start_address() + 16 * tile_index as u16,
    }
}

/// The shade a BG colour id has under a palette.
pub open spec fn spec_bg_pixel_color(pixel: u8, palette: u8) -> u8 {
    (palette >> ((pixel * 2) as u8)) & 0x03
}

/// The shade a sprite colour id has under a palette; colour id 0 is transparent.
pub open spec fn spec_obj_pixel_color(pixel: u8, palette: u8) -> u8 {
    if pixel == 0 {
        0
    } else {
        (palette >> ((pixel * 2) as u8)) & 0x03
    }
}

fn get_bg_pixel_color(pixel: u8, palette: u8) -> (r: u8)
    requires
        pixel < 4,
    ensures
        r == spec_bg_pixel_color(pixel, palette),
{
    (palette >> (pixel * 2)) & 0x03
}

fn get_obj_pixel_color(pixel: u8, palette: u8) -> (r: u8)
    requires
        pixel < 4,
    ensures
        r == spec_obj_pixel_color(pixel, palette),
{
    // 0x00 in OBJ pixels means transparent, ignore palette
    if pixel == 0x00 {
        0x00
    } else {
        (palette >> (pixel * 2)) & 0x03
    }
}

// ---------------------------------------------------------------------------------------------
// Background and window pixel fetching
// ---------------------------------------------------------------------------------------------

/// What the BG/window fetcher reads from the registers for one M-cycle of a scanline.
#[derive(Debug, Clone, Copy, PartialEq, Eq, Structural)]
pub struct BgFetch {
    pub scanline: u8,
    pub window_internal_y: u8,
    pub window_y: u8,
    pub window_x_plus_7: u8,
    pub viewport_y: u8,
    pub viewport_x: u8,
    pub window_enabled: bool,
    pub window_map_start: u16,
    pub bg_map_start: u16,
    pub tile_data_range: TileDataRange,
}

/// The fetcher parameters for a scanline given the registers: WY, WX, SCY, SCX, and the
/// window enable, window tile map, BG tile map and tile data selections of LCDC.
pub open spec fn spec_bg_fetch(io: IoRegistersView, scanline: u8, window_internal_y: u8) -> BgFetch {
    let lcdc = io.byte(IoRegister::LCDC);
    BgFetch {
        scanline,
        window_internal_y,
        window_y: io.read_register(IoRegister::WY),
        window_x_plus_7: io.read_register(IoRegister::WX),
        viewport_y: io.read_register(IoRegister::SCY),
        viewport_x: io.read_register(IoRegister::SCX),
        window_enabled: lcdc & 0x20 != 0,
        window_map_start: if lcdc & 0x40 != 0 {
            0x9C00
        } else {
            0x9800
        },
        bg_map_start: if lcdc & 0x80 != 0 {
            0x9C00
        } else {
            0x8800
        },
        tile_data_range: if lcdc & 0x10 != 0 {
            TileDataRange::Block1
        } else {
            TileDataRange::Block0
        },
    }
}

/// Whether the fetcher at X position `fetcher_x` is inside the window.
pub open spec fn in_window(p: BgFetch, fetcher_x: u8) -> bool {
    p.window_enabled && p.scanline >= p.window_y && wrap8(fetcher_x + 7) >= p.window_x_plus_7
}

/// A row of a BG/window tile read from VRAM bank 0.
pub open spec fn spec_tile_row(mem: AddressSpaceView, tile_address: u16, y: int) -> TileData {
    TileData(mem.vram[tile_address - 0x8000 + 2 * y], mem.vram[tile_address - 0x8000 + 2 * y + 1])
}

/// How many BG pixels the fetcher queues from tile column `x` on before the row ends or the
/// window starts.
pub open spec fn bg_run(p: BgFetch, fetcher_x: u8, x: u8) -> nat
    decreases 8 - x,
{
    if x >= 8 || in_window(p, fetcher_x) {
        0
    } else {
        1 + bg_run(p, wrap8(fetcher_x + 1), (x + 1) as u8)
    }
}

/// Colour ids of pixels `x0`, `x0 + 1`, ... of a tile row.
pub open spec fn tile_pixels(tile_data: TileData, x0: int, count: nat) -> Seq<u8> {
    Seq::new(count, |i: int| spec_pixel_color_id(tile_data, (x0 + i) as u8))
}

/// One fetch of the BG/window fetcher: the rest of a window tile row (dropping queued BG pixels
/// when the window starts exactly here), or the rest of a BG tile row up to the window. Returns
/// the new fetcher X position, whether the last fetch was in the window, and the queue.
pub open spec fn bg_step(p: BgFetch, mem: AddressSpaceView, fetcher_x: u8, queue: Seq<u8>) -> (
    u8,
    bool,
    Seq<u8>,
) {
    if in_window(p, fetcher_x) {
        let window_x = wrap8(fetcher_x + 7) - p.window_x_plus_7;
        let kept = if wrap8(fetcher_x + 7) == p.window_x_plus_7 {
            Seq::empty()
        } else {
            queue
        };
        let tile_index = mem.vram[p.window_map_start - 0x8000 + 32 * (p.window_internal_y / 8)
            + window_x / 8];
        let tile_data = spec_tile_row(
            mem,
            spec_bg_tile_address(p.tile_data_range, tile_index),
            (p.window_internal_y % 8) as int,
        );
        let x0 = window_x % 8;
        let count = (8 - x0) as nat;
        (wrap8(fetcher_x + count), true, kept + tile_pixels(tile_data, x0, count))
    } else {
        let bg_y = wrap8(p.viewport_y + p.scanline);
        let bg_x = wrap8(p.viewport_x + fetcher_x);
        let tile_index = mem.vram[p.bg_map_start - 0x8000 + 32 * (bg_y / 8) + bg_x / 8];
        let tile_data = spec_tile_row(
            mem,
            spec_bg_tile_address(p.tile_data_range, tile_index),
            (bg_y % 8) as int,
        );
        let x0 = bg_x % 8;
        let count = bg_run(p, fetcher_x, x0);
        (wrap8(fetcher_x + count), false, queue + tile_pixels(tile_data, x0 as int, count))
    }
}

/// The fetcher run until at least 8 BG pixels are queued (within `fuel` fetches).
pub open spec fn bg_fill(
    p: BgFetch,
    mem: AddressSpaceView,
    fetcher_x: u8,
    window_ends_line: bool,
    queue: Seq<u8>,
    fuel: nat,
) -> (u8, bool, Seq<u8>)
    decreases fuel,
{
    if queue.len() >= 8 || fuel == 0 {
        (fetcher_x, window_ends_line, queue)
    } else {
        let (x, w, q) = bg_step(p, mem, fetcher_x, queue);
        bg_fill(p, mem, x, w, q, (fuel - 1) as nat)
    }
}

/// The rendering state after the BG pixel queue is filled to at least 8 pixels.
pub open spec fn spec_populate_bg(d: RenderView, mem: AddressSpaceView) -> RenderView {
    let p = spec_bg_fetch(mem.io, d.scanline, d.window_internal_y);
    let (x, w, q) = bg_fill(p, mem, d.bg_fetcher_x, d.window_ends_line, d.bg_pixel_queue, 32);
    RenderView { bg_fetcher_x: x, window_ends_line: w, bg_pixel_queue: q, ..d }
}

fn read_bg_fetch(address_space: &AddressSpace, scanline: u8, window_internal_y: u8) -> (r: BgFetch)
    ensures
        r == spec_bg_fetch(address_space@.io, scanline, window_internal_y),
{
    let io_registers = address_space.get_io_registers();
    let lcdc = io_registers.lcdc();
    BgFetch {
        scanline,
        window_internal_y,
        window_y: io_registers.read_register(IoRegister::WY),
        window_x_plus_7: io_registers.read_register(IoRegister::WX),
        viewport_y: io_registers.read_register(IoRegister::SCY),
        viewport_x: io_registers.read_register(IoRegister::SCX),
        window_enabled: lcdc.window_enabled(),
        window_map_start: lcdc.window_tile_map_area().start,
        bg_map_start: lcdc.bg_tile_map_area().start,
        tile_data_range: lcdc.bg_tile_data_range(),
    }
}

fn fetcher_in_window(p: &BgFetch, fetcher_x: u8) -> (r: bool)
    ensures
        r == in_window(*p, fetcher_x),
{
    p.window_enabled && p.scanline >= p.window_y && fetcher_x.wrapping_add(7) >= p.window_x_plus_7
}

fn read_tile_row(address_space: &AddressSpace, tile_address: u16, y: u8) -> (r: TileData)
    requires
        0x8000 <= tile_address <= 0x97F0,
        y < 8,
    ensures
        r == spec_tile_row(address_space@, tile_address, y as int),
{
    let y = y as u16;
    let tile_data_0 = address_space.ppu_read_address_u8(tile_address + 2 * y);
    let tile_data_1 = address_space.ppu_read_address_u8(tile_address + 2 * y + 1);
    TileData(tile_data_0, tile_data_1)
}

/// Queue pixels `x`.. of a tile row; with `stop_at_window` the run stops where the window
/// starts. Returns the new fetcher position.
fn queue_tile_pixels(
    p: &BgFetch,
    tile_data: TileData,
    x0: u8,
    fetcher_x0: u8,
    stop_at_window: bool,
    queue: &mut ArrayQueue<u8>,
) -> (r: u8)
    requires
        x0 < 8,
        old(queue)@.len() + 8 - x0 <= 16,
    ensures
        ({
            let count: nat = if stop_at_window {
                bg_run(*p, fetcher_x0, x0)
            } else {
                (8 - x0) as nat
            };
            &&& final(queue)@ == old(queue)@ + tile_pixels(tile_data, x0 as int, count)
            &&& r == wrap8(fetcher_x0 + count)
            &&& count <= 8 - x0
        }),
{
    let mut x = x0;
    let mut fetcher_x = fetcher_x0;
    let ghost start = queue@;
    let ghost total: nat = if stop_at_window {
        bg_run(*p, fetcher_x0, x0)
    } else {
        (8 - x0) as nat
    };
    while x < 8 && (!stop_at_window || !fetcher_in_window(p, fetcher_x))
        invariant
            x0 <= x <= 8,
            start.len() + 8 - x0 <= 16,
            queue@ == start + tile_pixels(tile_data, x0 as int, (x - x0) as nat),
            fetcher_x == wrap8(fetcher_x0 + (x - x0)),
            total == if stop_at_window {
                bg_run(*p, fetcher_x0, x0)
            } else {
                (8 - x0) as nat
            },
            stop_at_window ==> total == (x - x0) + bg_run(*p, fetcher_x, x),
        decreases 8 - x,
    {
        let pixel_color_id = get_pixel_color_id(tile_data, x);
        queue.push_back(pixel_color_id);
        x += 1;
        fetcher_x = fetcher_x.wrapping_add(1);
        assert(queue@ =~= start + tile_pixels(tile_data, x0 as int, (x - x0) as nat));
    }
    proof {
        if stop_at_window {
            assert(bg_run(*p, fetcher_x, x) == 0);
        }
    }
    fetcher_x
}

/// The tile map and tile data selections of a fetch lie in VRAM.
pub open spec fn bg_fetch_in_vram(p: BgFetch) -> bool {
    &&& (p.window_map_start == 0x9800 || p.window_map_start == 0x9C00)
    &&& (p.bg_map_start == 0x9C00 || p.bg_map_start == 0x8800)
}

/// Fetch the rest of a window tile row (see `bg_step`).
fn fetch_window_row(
    p: &BgFetch,
    address_space: &AddressSpace,
    fetcher_x: u8,
    queue: &mut ArrayQueue<u8>,
) -> (r: u8)
    requires
        bg_fetch_in_vram(*p),
        in_window(*p, fetcher_x),
        old(queue)@.len() <= 8,
        forall|i: int| 0 <= i < old(queue)@.len() ==> #[trigger] old(queue)@[i] < 4,
    ensures
        (r, true, final(queue)@) == bg_step(*p, address_space@, fetcher_x, old(queue)@),
        forall|i: int| 0 <= i < final(queue)@.len() ==> #[trigger] final(queue)@[i] < 4,
        wrap8(fetcher_x + 7) == p.window_x_plus_7 ==> final(queue)@.len() == 8,
        wrap8(fetcher_x + 7) != p.window_x_plus_7 ==> old(queue)@.len() < final(queue)@.len()
            <= old(queue)@.len() + 8,
{
    let window_x = fetcher_x.wrapping_add(7) - p.window_x_plus_7;
    // Clear any existing BG pixels if we just entered the window
    if fetcher_x.wrapping_add(7) == p.window_x_plus_7 {
        queue.clear();
    }
    let window_tile_x = (window_x / 8) as u16;
    let window_tile_y = (p.window_internal_y / 8) as u16;
    let tile_map_offset = 32 * window_tile_y + window_tile_x;
    let tile_index = address_space.ppu_read_address_u8(p.window_map_start + tile_map_offset);
    let tile_address = get_bg_tile_address(p.tile_data_range, tile_index);
    let tile_data = read_tile_row(address_space, tile_address, p.window_internal_y % 8);
    let next_x = queue_tile_pixels(p, tile_data, window_x % 8, fetcher_x, false, queue);
    proof {
        lemma_tile_pixels_small(tile_data, (window_x % 8) as int, (8 - window_x % 8) as nat);
    }
    next_x
}

/// Fetch the rest of a background tile row up to the window (see `bg_step`).
#[verifier::rlimit(30)]
fn fetch_background_row(
    p: &BgFetch,
    address_space: &AddressSpace,
    fetcher_x: u8,
    queue: &mut ArrayQueue<u8>,
) -> (r: u8)
    requires
        bg_fetch_in_vram(*p),
        !in_window(*p, fetcher_x),
        old(queue)@.len() <= 8,
        forall|i: int| 0 <= i < old(queue)@.len() ==> #[trigger] old(queue)@[i] < 4,
    ensures
        (r, false, final(queue)@) == bg_step(*p, address_space@, fetcher_x, old(queue)@),
        forall|i: int| 0 <= i < final(queue)@.len() ==> #[trigger] final(queue)@[i] < 4,
        old(queue)@.len() < final(queue)@.len() <= old(queue)@.len() + 8,
{
    let bg_y = p.viewport_y.wrapping_add(p.scanline);
    let bg_x = p.viewport_x.wrapping_add(fetcher_x);
    let bg_tile_y = (bg_y / 8) as u16;
    let bg_tile_x = (bg_x / 8) as u16;
    let tile_map_offset = 32 * bg_tile_y + bg_tile_x;
    let tile_index = address_space.ppu_read_address_u8(p.bg_map_start + tile_map_offset);
    let tile_address = get_bg_tile_address(p.tile_data_range, tile_index);
    let tile_data = read_tile_row(address_space, tile_address, bg_y % 8);
    let ghost start = queue@;
    let next_x = queue_tile_pixels(p, tile_data, bg_x % 8, fetcher_x, true, queue);
    proof {
        let count = bg_run(*p, fetcher_x, bg_x % 8);
        assert(count >= 1);
        lemma_tile_pixels_small(tile_data, (bg_x % 8) as int, count);
        assert forall|i: int| 0 <= i < queue@.len() implies #[trigger] queue@[i] < 4 by {
            if i >= start.len() {
                assert(queue@[i] == tile_pixels(tile_data, (bg_x % 8) as int, count)[i - start.len()]);
            }
        }
    }
    next_x
}

/// Fetching after the window was entered at `clear_x` cannot enter it again before 8 more
/// pixels are queued.
proof fn lemma_no_second_window_entry(clear_x: u8, queued: int, window_x_plus_7: u8)
    requires
        wrap8(clear_x + 7) == window_x_plus_7,
        1 <= queued <= 15,
    ensures
        wrap8(wrap8(clear_x + queued) + 7) != window_x_plus_7,
{
}

/// Advancing a wrapped counter twice is advancing it once by the sum.
proof fn lemma_wrap8_add(x: u8, a: int, b: int)
    requires
        0 <= a <= 16,
        0 <= b <= 16,
    ensures
        wrap8(wrap8(x + a) + b) == wrap8(x + a + b),
{
}

/// One more fetch unfolds `bg_fill` one step.
proof fn lemma_bg_fill_unfold(
    p: BgFetch,
    mem: AddressSpaceView,
    fetcher_x: u8,
    window_ends_line: bool,
    queue: Seq<u8>,
    fuel: nat,
)
    requires
        queue.len() < 8,
        fuel > 0,
    ensures
        bg_fill(p, mem, fetcher_x, window_ends_line, queue, fuel) == bg_fill(
            p,
            mem,
            bg_step(p, mem, fetcher_x, queue).0,
            bg_step(p, mem, fetcher_x, queue).1,
            bg_step(p, mem, fetcher_x, queue).2,
            (fuel - 1) as nat,
        ),
{
}

/// Tile colour ids are 2-bit values.
proof fn lemma_tile_pixels_small(tile_data: TileData, x0: int, count: nat)
    ensures
        forall|i: int| 0 <= i < count ==> #[trigger] tile_pixels(tile_data, x0, count)[i] < 4,
{
}

/// Fill the BG pixel queue to at least 8 pixels from the window or the background.
fn populate_bg_pixel_queue(
    state_data: RenderingScanlineStateData,
    address_space: &AddressSpace,
) -> (r: RenderingScanlineStateData)
    requires
        state_data@.bg_pixel_queue.len() <= 15,
        forall|i: int|
            0 <= i < state_data@.bg_pixel_queue.len() ==> #[trigger] state_data@.bg_pixel_queue[i] < 4,
    ensures
        r@ == spec_populate_bg(state_data@, address_space@),
        8 <= r@.bg_pixel_queue.len() <= 15,
        forall|i: int| 0 <= i < r@.bg_pixel_queue.len() ==> #[trigger] r@.bg_pixel_queue[i] < 4,
{
    let RenderingScanlineStateData {
        scanline,
        pixel,
        mut bg_fetcher_x,
        sprite_fetcher_x,
        dot,
        window_internal_y,
        mut window_ends_line,
        sprites,
        mut bg_pixel_queue,
        sprite_pixel_queue,
    } = state_data;
    let p = read_bg_fetch(address_space, scanline, window_internal_y);
    let ghost mem = address_space@;
    let ghost mut fuel: nat = 32;
    let ghost mut cleared = false;
    let ghost mut fetcher_x_at_clear: u8 = 0;
    while bg_pixel_queue.len() < 8
        invariant
            bg_fill(p, mem, bg_fetcher_x, window_ends_line, bg_pixel_queue@, fuel) == bg_fill(
                p,
                mem,
                state_data@.bg_fetcher_x,
                state_data@.window_ends_line,
                state_data@.bg_pixel_queue,
                32,
            ),
            mem == address_space@,
            p == spec_bg_fetch(mem.io, scanline, window_internal_y),
            bg_pixel_queue@.len() <= 15,
            forall|i: int| 0 <= i < bg_pixel_queue@.len() ==> #[trigger] bg_pixel_queue@[i] < 4,
            fuel >= (if cleared {
                0int
            } else {
                16int
            }) + 16 - bg_pixel_queue@.len(),
            cleared ==> 1 <= bg_pixel_queue@.len() && wrap8(fetcher_x_at_clear + 7)
                == p.window_x_plus_7 && bg_fetcher_x == wrap8(
                fetcher_x_at_clear + bg_pixel_queue@.len(),
            ),
        decreases (if cleared {
            0int
        } else {
            16int
        }) + 16 - bg_pixel_queue@.len(),
    {
        let ghost queue_before = bg_pixel_queue@;
        let ghost fetcher_x_before = bg_fetcher_x;
        proof {
            lemma_bg_fill_unfold(p, mem, bg_fetcher_x, window_ends_line, bg_pixel_queue@, fuel);
            if cleared {
                lemma_no_second_window_entry(
                    fetcher_x_at_clear,
                    bg_pixel_queue@.len() as int,
                    p.window_x_plus_7,
                );
            }
        }
        // If the window is enabled and we're inside it, populate the BG pixel queue with window pixels
        if fetcher_in_window(&p, bg_fetcher_x) {
            bg_fetcher_x = fetch_window_row(&p, address_space, bg_fetcher_x, &mut bg_pixel_queue);
            window_ends_line = true;
            proof {
                if wrap8(fetcher_x_before + 7) == p.window_x_plus_7 {
                    cleared = true;
                    fetcher_x_at_clear = fetcher_x_before;
                } else if cleared {
                    lemma_wrap8_add(
                        fetcher_x_at_clear,
                        queue_before.len() as int,
                        bg_pixel_queue@.len() - queue_before.len(),
                    );
                }
            }
        } else {
            bg_fetcher_x = fetch_background_row(&p, address_space, bg_fetcher_x, &mut bg_pixel_queue);
            window_ends_line = false;
            proof {
                if cleared {
                    lemma_wrap8_add(
                        fetcher_x_at_clear,
                        queue_before.len() as int,
                        bg_pixel_queue@.len() - queue_before.len(),
                    );
                }
            }
        }
        proof {
            fuel = (fuel - 1) as nat;
        }
    }
    RenderingScanlineStateData {
        scanline,
        pixel,
        bg_fetcher_x,
        sprite_fetcher_x,
        dot,
        window_internal_y,
        window_ends_line,
        sprites,
        bg_pixel_queue,
        sprite_pixel_queue,
    }
}

// ---------------------------------------------------------------------------------------------
// Sprite pixel fetching
// ---------------------------------------------------------------------------------------------

/// Whether a sprite covers the column whose X position plus 8 is `x_plus_8` (a sprite's X
/// position is one past its right edge minus 8... i.e. it covers `x_pos - 8 .. x_pos`).
pub open spec fn sprite_covers(sprite: OamSpriteData, x_plus_8: int) -> bool {
    let end: int = if sprite.x_pos + 8 > 255 {
        255
    } else {
        sprite.x_pos + 8
    };
    sprite.x_pos <= x_plus_8 < end
}

/// The pixel a sprite covering column `x` would queue, honouring horizontal flip, the palette
/// bit and the BG-over-OBJ bit.
pub open spec fn spec_sprite_pixel(sprite: OamSpriteData, tile_data: TileData, x: u8) -> QueuedObjPixel {
    let offset = x + 8 - sprite.x_pos;
    let tile_x = if sprite.flags & 0x20 != 0 {
        7 - offset
    } else {
        offset
    };
    QueuedObjPixel {
        color_id: spec_pixel_color_id(tile_data, tile_x as u8),
        obj_palette: if sprite.flags & 0x10 != 0 {
            SpritePalette::ObjPalette1
        } else {
            SpritePalette::ObjPalette0
        },
        bg_over_obj: sprite.flags & 0x80 != 0,
    }
}

/// The colour id of tile pixel `bit` counted from the right of a tile row (bit 7 is the
/// leftmost pixel): that bit of the high byte counts 2 and that bit of the low byte counts 1.
pub open spec fn tile_row_bits(tile_data: TileData, bit: u8) -> int {
    2 * ((tile_data.1 >> bit) & 1) as int + ((tile_data.0 >> bit) & 1) as int
}

/// Bit `s` of a byte, tested with a one-bit mask, is the bit shifted down to position 0.
proof fn lemma_mask_bit(t: u8, s: u8)
    requires
        s < 8,
    ensures
        (t & (1u8 << s) != 0) == ((t >> s) & 1 == 1),
        (t >> s) & 1 <= 1,
{
    assert((t & (1u8 << s) != 0) == ((t >> s) & 1 == 1)) by (bit_vector)
        requires
            s < 8,
    ;
    assert((t >> s) & 1 <= 1) by (bit_vector);
}

/// A sprite's tile row is drawn across the eight columns it covers from its left edge: without
/// horizontal flip (attribute bit 5 clear) the column `k` places right of the sprite's left
/// edge shows tile pixel `k`, so the leftmost tile pixel (bit 7 of the tile bytes) lands on the
/// leftmost column; with the flip it shows tile pixel `7 - k`. Attribute bit 4 picks OBP1 over
/// OBP0 and bit 7 puts the sprite behind background colours 1-3.
pub proof fn law_sprite_pixel(sprite: OamSpriteData, tile_data: TileData, x: u8)
    requires
        sprite_covers(sprite, x + 8),
    ensures
        ({
            let k = x + 8 - sprite.x_pos;
            let pixel = spec_sprite_pixel(sprite, tile_data, x);
            &&& 0 <= k < 8
            &&& sprite.flags & 0x20 == 0 ==> pixel.color_id == tile_row_bits(
                tile_data,
                (7 - k) as u8,
            )
            &&& sprite.flags & 0x20 != 0 ==> pixel.color_id == tile_row_bits(tile_data, k as u8)
            &&& (pixel.obj_palette == SpritePalette::ObjPalette1) == (sprite.flags & 0x10 != 0)
            &&& pixel.bg_over_obj == (sprite.flags & 0x80 != 0)
        }),
{
    let k = x + 8 - sprite.x_pos;
    lemma_mask_bit(tile_data.0, (7 - k) as u8);
    lemma_mask_bit(tile_data.1, (7 - k) as u8);
    lemma_mask_bit(tile_data.0, k as u8);
    lemma_mask_bit(tile_data.1, k as u8);
}

/// The first non-transparent pixel at column `x` among the sprites from index `i` on, or a
/// transparent pixel.
pub open spec fn first_sprite_pixel(sprites: Seq<(OamSpriteData, TileData)>, x: u8, i: int) -> QueuedObjPixel
    decreases sprites.len() - i,
{
    if i < 0 || i >= sprites.len() {
        transparent_pixel()
    } else if sprite_covers(sprites[i].0, x + 8) && spec_sprite_pixel(sprites[i].0, sprites[i].1, x).color_id
        != 0 {
        spec_sprite_pixel(sprites[i].0, sprites[i].1, x)
    } else {
        first_sprite_pixel(sprites, x, i + 1)
    }
}

/// The rendering state after the sprite pixel queue is filled to 8 pixels: the first visible
/// sprite pixel of each column, or transparent pixels when sprites are disabled.
pub open spec fn spec_populate_sprites(d: RenderView, io: IoRegistersView) -> RenderView {
    let enabled = io.byte(IoRegister::LCDC) & 0x02 != 0;
    let count: nat = if d.sprite_pixel_queue.len() < 8 {
        (8 - d.sprite_pixel_queue.len()) as nat
    } else {
        0
    };
    RenderView {
        sprite_pixel_queue: d.sprite_pixel_queue + Seq::new(
            count,
            |i: int|
                if enabled {
                    first_sprite_pixel(d.sprites, (d.sprite_fetcher_x + i) as u8, 0)
                } else {
                    transparent_pixel()
                },
        ),
        sprite_fetcher_x: (d.sprite_fetcher_x + count) as u8,
        ..d
    }
}

fn sprite_pixel_at(sprites: &Vec<(OamSpriteData, TileData)>, x: u8) -> (r: QueuedObjPixel)
    requires
        x <= 247,
    ensures
        r == first_sprite_pixel(sprites@, x, 0),
        r.color_id < 4,
{
    // Queue the first non-transparent pixel from the sprites in this coordinate, assuming that
    // the sprites are already sorted by X position.
    let x_plus_8 = x + 8;
    let mut i: usize = 0;
    while i < sprites.len()
        invariant
            x <= 247,
            x_plus_8 == x + 8,
            i <= sprites@.len(),
            first_sprite_pixel(sprites@, x, 0) == first_sprite_pixel(sprites@, x, i as int),
        decreases sprites@.len() - i,
    {
        let (sprite_data, tile_data) = sprites[i];
        if sprite_data.x_pos <= x_plus_8 && x_plus_8 < sprite_data.x_pos.saturating_add(8) {
            let offset = x_plus_8 - sprite_data.x_pos;
            let tile_x = if sprite_data.flags & 0x20 != 0 {
                7 - offset
            } else {
                offset
            };
            let pixel_color_id = get_pixel_color_id(tile_data, tile_x);
            if pixel_color_id != 0x00 {
                let obj_palette = if sprite_data.flags & 0x10 != 0 {
                    SpritePalette::ObjPalette1
                } else {
                    SpritePalette::ObjPalette0
                };
                let bg_over_obj = sprite_data.flags & 0x80 != 0;
                return QueuedObjPixel { color_id: pixel_color_id, obj_palette, bg_over_obj };
            }
        }
        i += 1;
    }
    QueuedObjPixel::transparent()
}

/// Fill the sprite pixel queue to 8 pixels.
fn populate_sprite_pixel_queue(
    state_data: RenderingScanlineStateData,
    address_space: &AddressSpace,
) -> (r: RenderingScanlineStateData)
    requires
        state_data@.sprite_fetcher_x + 8 <= 247,
        state_data@.sprite_pixel_queue.len() <= 8,
        forall|i: int|
            0 <= i < state_data@.sprite_pixel_queue.len()
                ==> #[trigger] state_data@.sprite_pixel_queue[i].color_id < 4,
    ensures
        r@ == spec_populate_sprites(state_data@, address_space@.io),
        r@.sprite_pixel_queue.len() == 8,
        forall|i: int|
            0 <= i < r@.sprite_pixel_queue.len() ==> #[trigger] r@.sprite_pixel_queue[i].color_id < 4,
{
    let RenderingScanlineStateData {
        scanline,
        pixel,
        bg_fetcher_x,
        mut sprite_fetcher_x,
        dot,
        window_internal_y,
        window_ends_line,
        sprites,
        bg_pixel_queue,
        mut sprite_pixel_queue,
    } = state_data;
    let sprites_enabled = address_space.get_io_registers().lcdc().sprites_enabled();
    let ghost d = state_data@;
    let ghost count: nat = (8 - d.sprite_pixel_queue.len()) as nat;
    let ghost fill = Seq::new(
        count,
        |i: int|
            if sprites_enabled {
                first_sprite_pixel(d.sprites, (d.sprite_fetcher_x + i) as u8, 0)
            } else {
                transparent_pixel()
            },
    );
    while sprite_pixel_queue.len() < 8
        invariant
            d.sprite_pixel_queue.len() <= sprite_pixel_queue@.len() <= 8,
            d.sprite_fetcher_x + 8 <= 247,
            sprites@ == d.sprites,
            sprite_fetcher_x == d.sprite_fetcher_x + (sprite_pixel_queue@.len()
                - d.sprite_pixel_queue.len()),
            sprite_pixel_queue@ == d.sprite_pixel_queue + fill.subrange(
                0,
                sprite_pixel_queue@.len() - d.sprite_pixel_queue.len(),
            ),
            count == 8 - d.sprite_pixel_queue.len(),
            fill == Seq::new(
                count,
                |i: int|
                    if sprites_enabled {
                        first_sprite_pixel(d.sprites, (d.sprite_fetcher_x + i) as u8, 0)
                    } else {
                        transparent_pixel()
                    },
            ),
            forall|i: int|
                0 <= i < sprite_pixel_queue@.len() ==> #[trigger] sprite_pixel_queue@[i].color_id < 4,
        decreases 8 - sprite_pixel_queue@.len(),
    {
        let pixel_to_queue = if sprites_enabled {
            sprite_pixel_at(&sprites, sprite_fetcher_x)
        } else {
            // If sprites are disabled, push transparent pixels onto the queue
            QueuedObjPixel::transparent()
        };
        sprite_pixel_queue.push_back(pixel_to_queue);
        sprite_fetcher_x += 1;
        assert(sprite_pixel_queue@ =~= d.sprite_pixel_queue + fill.subrange(
            0,
            sprite_pixel_queue@.len() - d.sprite_pixel_queue.len(),
        ));
    }
    assert(fill.subrange(0, count as int) =~= fill);
    let r = RenderingScanlineStateData {
        scanline,
        pixel,
        bg_fetcher_x,
        sprite_fetcher_x,
        dot,
        window_internal_y,
        window_ends_line,
        sprites,
        bg_pixel_queue,
        sprite_pixel_queue,
    };
    assert(r@ =~= spec_populate_sprites(state_data@, address_space@.io));
    r
}

// ---------------------------------------------------------------------------------------------
// Drawing
// ---------------------------------------------------------------------------------------------

/// The shade drawn for a BG pixel and a sprite pixel: the sprite wins unless it is transparent
/// or is behind a non-zero BG pixel; a disabled BG draws colour id 0.
pub open spec fn spec_frame_color(bg_pixel: u8, sprite_pixel: QueuedObjPixel, io: IoRegistersView) -> u8 {
    let bg = if io.byte(IoRegister::LCDC) & 0x01 != 0 {
        bg_pixel
    } else {
        0
    };
    if sprite_pixel.color_id == 0 || (sprite_pixel.bg_over_obj && bg != 0) {
        spec_bg_pixel_color(bg, io.read_register(IoRegister::BGP))
    } else {
        spec_obj_pixel_color(
            sprite_pixel.color_id,
            match sprite_pixel.obj_palette {
                SpritePalette::ObjPalette0 => io.read_register(IoRegister::OBP0),
                SpritePalette::ObjPalette1 => io.read_register(IoRegister::OBP1),
            },
        )
    }
}

/// How many pixels are drawn at once: until a queue runs out or the scanline is complete.
pub open spec fn draw_count(d: RenderView) -> int {
    let a = d.bg_pixel_queue.len() as int;
    let b = d.sprite_pixel_queue.len() as int;
    let c = 160 - d.pixel;
    if a <= b && a <= c {
        a
    } else if b <= c {
        b
    } else {
        c
    }
}

/// The state and frame after drawing from the pixel queues.
pub open spec fn spec_render_to_frame_buffer(
    d: RenderView,
    io: IoRegistersView,
    frame_buffer: Seq<Seq<u8>>,
) -> (StateView, Seq<Seq<u8>>) {
    let k = draw_count(d);
    let row = frame_buffer[d.scanline as int];
    let new_row = Seq::new(
        row.len(),
        |x: int|
            if d.pixel <= x < d.pixel + k {
                spec_frame_color(
                    d.bg_pixel_queue[x - d.pixel],
                    d.sprite_pixel_queue[x - d.pixel],
                    io,
                )
            } else {
                row[x]
            },
    );
    (
        StateView::RenderingScanline(
            RenderView {
                pixel: (d.pixel + k) as u8,
                dot: (d.dot + 4) as u32,
                bg_pixel_queue: d.bg_pixel_queue.subrange(k, d.bg_pixel_queue.len() as int),
                sprite_pixel_queue: d.sprite_pixel_queue.subrange(
                    k,
                    d.sprite_pixel_queue.len() as int,
                ),
                ..d
            },
        ),
        frame_buffer.update(d.scanline as int, new_row),
    )
}

fn render_to_frame_buffer(
    state_data: RenderingScanlineStateData,
    address_space: &AddressSpace,
    frame_buffer: &mut [[u8; 160]; 144],
) -> (r: State)
    requires
        state_data@.wf(),
        state_data@.pixel < 160,
        state_data@.bg_pixel_queue.len() >= 8,
        state_data@.sprite_pixel_queue.len() >= 8,
    ensures
        r@.wf(),
        (r@, frame_view(*final(frame_buffer))) == spec_render_to_frame_buffer(
            state_data@,
            address_space@.io,
            frame_view(*old(frame_buffer)),
        ),
{
    let RenderingScanlineStateData {
        scanline,
        mut pixel,
        bg_fetcher_x,
        sprite_fetcher_x,
        dot,
        window_internal_y,
        window_ends_line,
        sprites,
        mut bg_pixel_queue,
        mut sprite_pixel_queue,
    } = state_data;
    let ghost d = state_data@;
    let io_registers = address_space.get_io_registers();
    let bg_palette = io_registers.read_register(IoRegister::BGP);
    let obj_palette_0 = io_registers.read_register(IoRegister::OBP0);
    let obj_palette_1 = io_registers.read_register(IoRegister::OBP1);
    let bg_enabled = io_registers.lcdc().bg_enabled();
    let mut row = frame_buffer[scanline as usize];
    let ghost old_row = row@;
    while !bg_pixel_queue.is_empty() && !sprite_pixel_queue.is_empty() && pixel < 160
        invariant
            d.wf(),
            d.pixel <= pixel <= 160,
            pixel - d.pixel <= draw_count(d),
            bg_pixel_queue@ == d.bg_pixel_queue.subrange(pixel - d.pixel, d.bg_pixel_queue.len() as int),
            sprite_pixel_queue@ == d.sprite_pixel_queue.subrange(
                pixel - d.pixel,
                d.sprite_pixel_queue.len() as int,
            ),
            bg_palette == address_space@.io.read_register(IoRegister::BGP),
            obj_palette_0 == address_space@.io.read_register(IoRegister::OBP0),
            obj_palette_1 == address_space@.io.read_register(IoRegister::OBP1),
            bg_enabled == (address_space@.io.byte(IoRegister::LCDC) & 0x01 != 0),
            row@.len() == 160,
            forall|x: int|
                0 <= x < 160 ==> #[trigger] row@[x] == if d.pixel <= x < pixel {
                    spec_frame_color(
                        d.bg_pixel_queue[x - d.pixel],
                        d.sprite_pixel_queue[x - d.pixel],
                        address_space@.io,
                    )
                } else {
                    old_row[x]
                },
        decreases 160 - pixel,
    {
        let bg_pixel = match bg_pixel_queue.pop_front() {
            Some(p) => p,
            None => 0,
        };
        let sprite_pixel = match sprite_pixel_queue.pop_front() {
            Some(p) => p,
            None => QueuedObjPixel::transparent(),
        };
        // Discard BG pixel if BG is disabled
        let bg_pixel = if bg_enabled {
            bg_pixel
        } else {
            0x00
        };
        // BG pixel takes priority if the sprite pixel is transparent, or if the sprite's
        // BG-over-OBJ flag is set and the BG color id is not 0
        let pixel_color = if sprite_pixel.color_id == 0x00 || (sprite_pixel.bg_over_obj && bg_pixel
            != 0x00) {
            get_bg_pixel_color(bg_pixel, bg_palette)
        } else {
            let sprite_palette = match sprite_pixel.obj_palette {
                SpritePalette::ObjPalette0 => obj_palette_0,
                SpritePalette::ObjPalette1 => obj_palette_1,
            };
            get_obj_pixel_color(sprite_pixel.color_id, sprite_palette)
        };
        row[pixel as usize] = pixel_color;
        pixel += 1;
    }
    frame_buffer[scanline as usize] = row;
    let r = State::RenderingScanline(
        RenderingScanlineStateData {
            scanline,
            pixel,
            bg_fetcher_x,
            sprite_fetcher_x,
            dot: dot + 4,
            window_internal_y,
            window_ends_line,
            sprites,
            bg_pixel_queue,
            sprite_pixel_queue,
        },
    );
    proof {
        let k = draw_count(d);
        assert(pixel - d.pixel == k);
        let (expected_state, expected_frame) = spec_render_to_frame_buffer(
            d,
            address_space@.io,
            frame_view(*old(frame_buffer)),
        );
        assert(frame_view(*old(frame_buffer))[scanline as int] == old_row);
        assert forall|y: int| 0 <= y < 144 implies #[trigger] frame_view(*frame_buffer)[y]
            =~= expected_frame[y] by {
            if y == scanline as int {
                assert(frame_view(*frame_buffer)[y] == row@);
            }
        }
        assert(frame_view(*frame_buffer) =~= expected_frame);
        assert(r@ =~= expected_state);
    }
    r
}

/// The state and frame one M-cycle into rendering: once the 160 pixels are drawn, HBlank from
/// dot 172 on; otherwise draw when both queues hold 8 pixels, else fill both queues.
pub open spec fn spec_process_render(d: RenderView, mem: AddressSpaceView, frame_buffer: Seq<Seq<u8>>) -> (
    StateView,
    Seq<Seq<u8>>,
) {
    if d.pixel == 160 {
        if d.dot >= 172 {
            (
                StateView::HBlank {
                    scanline: d.scanline,
                    dot: (d.dot + 4) as u32,
                    window_internal_y: if d.window_ends_line {
                        (d.window_internal_y + 1) as u8
                    } else {
                        d.window_internal_y
                    },
                },
                frame_buffer,
            )
        } else {
            (StateView::RenderingScanline(RenderView { dot: (d.dot + 4) as u32, ..d }), frame_buffer)
        }
    } else if d.bg_pixel_queue.len() >= 8 && d.sprite_pixel_queue.len() >= 8 {
        spec_render_to_frame_buffer(d, mem.io, frame_buffer)
    } else {
        let filled = spec_populate_sprites(spec_populate_bg(d, mem), mem.io);
        (StateView::RenderingScanline(RenderView { dot: (filled.dot + 4) as u32, ..filled }), frame_buffer)
    }
}

// This function is not even remotely cycle-accurate but it attempts to approximate the pixel queue
// behavior of actual hardware
pub(crate) fn process_render_state(
    state_data: RenderingScanlineStateData,
    address_space: &AddressSpace,
    frame_buffer: &mut [[u8; 160]; 144],
) -> (r: State)
    requires
        state_data@.wf(),
    ensures
        r@.wf(),
        (r@, frame_view(*final(frame_buffer))) == spec_process_render(
            state_data@,
            address_space@,
            frame_view(*old(frame_buffer)),
        ),
{
    let scanline = state_data.scanline;
    let pixel = state_data.pixel;
    let dot = state_data.dot;
    let window_internal_y = state_data.window_internal_y;
    let window_ends_line = state_data.window_ends_line;
    // If we've finished this scanline, do nothing and simply advance to HBlank (if possible)
    if pixel == 160 {
        if dot >= 172 {
            return State::HBlank {
                scanline,
                dot: dot + 4,
                window_internal_y: if window_ends_line {
                    window_internal_y + 1
                } else {
                    window_internal_y
                },
            };
        }
        let RenderingScanlineStateData {
            scanline,
            pixel,
            bg_fetcher_x,
            sprite_fetcher_x,
            dot,
            window_internal_y,
            window_ends_line,
            sprites,
            bg_pixel_queue,
            sprite_pixel_queue,
        } = state_data;
        return State::RenderingScanline(
            RenderingScanlineStateData {
                scanline,
                pixel,
                bg_fetcher_x,
                sprite_fetcher_x,
                dot: dot + 4,
                window_internal_y,
                window_ends_line,
                sprites,
                bg_pixel_queue,
                sprite_pixel_queue,
            },
        );
    }
    // If both pixel queues are full enough, render pixels to the frame buffer until one of the
    // queues is empty or we've finished this scanline
    if state_data.bg_pixel_queue.len() >= 8 && state_data.sprite_pixel_queue.len() >= 8 {
        return render_to_frame_buffer(state_data, address_space, frame_buffer);
    }
    let ghost d = state_data@;
    let state_data = populate_bg_pixel_queue(state_data, address_space);
    let state_data = populate_sprite_pixel_queue(state_data, address_space);
    let RenderingScanlineStateData {
        scanline,
        pixel,
        bg_fetcher_x,
        sprite_fetcher_x,
        dot,
        window_internal_y,
        window_ends_line,
        sprites,
        bg_pixel_queue,
        sprite_pixel_queue,
    } = state_data;
    State::RenderingScanline(
        RenderingScanlineStateData {
            scanline,
            pixel,
            bg_fetcher_x,
            sprite_fetcher_x,
            dot: dot + 4,
            window_internal_y,
            window_ends_line,
            sprites,
            bg_pixel_queue,
            sprite_pixel_queue,
        },
    )
}

} // verus!
