pub mod queue;
pub mod render;

use crate::cpu::InterruptType;
use crate::memory::address;
use crate::memory::ioregisters::{IoRegister, IoRegisters, IoRegistersView};
use crate::memory::{AddressSpace, AddressSpaceView};
use crate::ppu::queue::ArrayQueue;
use crate::ppu::render::{process_render_state, scan_oam, lookup_sprite_tiles, sort_sprites_by_x, spec_lookup_sprite_tiles, spec_process_render, spec_scan_oam, sorted_by_x};
use vstd::prelude::*;

verus! {

broadcast use crate::memory::ioregisters::lemma_io_registers_wf, crate::memory::lemma_address_space_wf;

pub const SCREEN_WIDTH: u8 = 160;

pub const SCREEN_HEIGHT: u8 = 144;

pub const DOTS_PER_M_CYCLE: u32 = 4;

pub const DOTS_PER_SCANLINE: u32 = 456;

pub const OAM_SCAN_DOTS: u32 = 80;

pub const MIN_RENDER_DOTS: u32 = 172;

pub const LAST_VBLANK_SCANLINE: u8 = 153;

pub const MAX_SPRITES_PER_SCANLINE: usize = 10;

/// The PPU's current activity, as reported in STAT bits 0-1.
#[derive(Debug, Clone, Copy, PartialEq, Eq, Structural)]
pub enum Mode {
    HBlank,
    VBlank,
    ScanningOAM,
    RenderingScanline,
}

impl Mode {
    pub open spec fn spec_flag_bits(self) -> u8 {
        match self {
            Mode::HBlank => 0x00,
            Mode::VBlank => 0x01,
            Mode::ScanningOAM => 0x02,
            Mode::RenderingScanline => 0x03,
        }
    }

    /// The mode's value in STAT bits 0-1.
    pub fn flag_bits(self) -> (r: u8)
        ensures
            r == self.spec_flag_bits(),
    {
        match self {
            Self::HBlank => 0x00,
            Self::VBlank => 0x01,
            Self::ScanningOAM => 0x02,
            Self::RenderingScanline => 0x03,
        }
    }
}

/// The part of the PPU state that decides which memory the CPU may access.
pub struct PpuAccess {
    pub oam_dma_active: bool,
    pub enabled: bool,
    pub mode: Mode,
}

/// One sprite's attributes as stored in OAM.
#[derive(Debug, Clone, Copy, PartialEq, Eq, Default, Structural)]
pub struct OamSpriteData {
    pub x_pos: u8,
    pub y_pos: u8,
    pub tile_index: u8,
    pub flags: u8,
}

/// Which OBJ palette a sprite pixel uses.
#[derive(Debug, Clone, Copy, PartialEq, Eq, Structural)]
pub enum SpritePalette {
    ObjPalette0,
    ObjPalette1,
}

/// A sprite pixel waiting in the pixel queue.
#[derive(Debug, Clone, Copy, PartialEq, Eq, Structural)]
pub struct QueuedObjPixel {
    pub color_id: u8,
    pub obj_palette: SpritePalette,
    pub bg_over_obj: bool,
}

pub open spec fn transparent_pixel() -> QueuedObjPixel {
    QueuedObjPixel { color_id: 0x00, obj_palette: SpritePalette::ObjPalette0, bg_over_obj: true }
}

impl QueuedObjPixel {
    /// The transparent sprite pixel.
    pub fn transparent() -> (r: Self)
        ensures
            r == transparent_pixel(),
    {
        Self { color_id: 0x00, obj_palette: SpritePalette::ObjPalette0, bg_over_obj: true }
    }
}

impl Default for QueuedObjPixel {
    fn default() -> (r: Self)
        ensures
            r == transparent_pixel(),
    {
        Self::transparent()
    }
}

/// The two bytes of one row of a tile: low bit planes then high bit planes.
#[derive(Debug, Clone, Copy, PartialEq, Eq, Structural)]
pub struct TileData(pub u8, pub u8);

/// The PPU state while it scans OAM for sprites on a scanline.
#[derive(Debug, Clone)]
pub struct ScanningOAMStateData {
    pub scanline: u8,
    pub dot: u32,
    pub window_internal_y: u8,
    pub sprites: Vec<OamSpriteData>,
}

/// The PPU state while it renders a scanline.
#[derive(Debug, Clone)]
pub struct RenderingScanlineStateData {
    pub scanline: u8,
    pub pixel: u8,
    pub bg_fetcher_x: u8,
    pub sprite_fetcher_x: u8,
    pub dot: u32,
    pub window_internal_y: u8,
    pub window_ends_line: bool,
    pub sprites: Vec<(OamSpriteData, TileData)>,
    pub bg_pixel_queue: ArrayQueue<u8>,
    pub sprite_pixel_queue: ArrayQueue<QueuedObjPixel>,
}

/// The PPU's position in the frame and the data of its current mode.
#[derive(Debug, Clone)]
pub enum State {
    HBlank { scanline: u8, dot: u32, window_internal_y: u8 },
    VBlank { scanline: u8, dot: u32 },
    ScanningOAM(ScanningOAMStateData),
    RenderingScanline(RenderingScanlineStateData),
}

/// The abstract state of OAM scanning.
pub struct ScanView {
    pub scanline: u8,
    pub dot: u32,
    pub window_internal_y: u8,
    pub sprites: Seq<OamSpriteData>,
}

impl ScanView {
    /// Scanning happens on a visible scanline, in the first 80 dots, two sprites per M-cycle,
    /// keeping at most 10 sprites, each of which starts at or above the scanline.
    pub open spec fn wf(self) -> bool {
        &&& self.scanline < 144
        &&& self.window_internal_y <= self.scanline
        &&& self.dot < 80
        &&& self.dot % 4 == 0
        &&& self.sprites.len() <= 10
        &&& forall|i: int| 0 <= i < self.sprites.len() ==> #[trigger] self.sprites[i].y_pos <= self.scanline + 16
    }
}

/// The abstract state of scanline rendering.
pub struct RenderView {
    pub scanline: u8,
    pub pixel: u8,
    pub bg_fetcher_x: u8,
    pub sprite_fetcher_x: u8,
    pub dot: u32,
    pub window_internal_y: u8,
    pub window_ends_line: bool,
    pub sprites: Seq<(OamSpriteData, TileData)>,
    pub bg_pixel_queue: Seq<u8>,
    pub sprite_pixel_queue: Seq<QueuedObjPixel>,
}

impl RenderView {
    /// Rendering alternates between filling both pixel queues (to at least 8 BG pixels and
    /// exactly 8 sprite pixels) and drawing 8 pixels, one M-cycle each, so a scanline's 160
    /// pixels are done at dot 240. Queued colour ids are 2-bit values.
    pub open spec fn wf(self) -> bool {
        let bg_len = self.bg_pixel_queue.len();
        let sprite_len = self.sprite_pixel_queue.len();
        &&& self.scanline < 144
        &&& self.window_internal_y <= self.scanline
        &&& self.sprites.len() <= 10
        &&& self.pixel % 8 == 0
        &&& self.pixel <= 160
        &&& self.sprite_fetcher_x == self.pixel + sprite_len
        &&& forall|i: int| 0 <= i < bg_len ==> #[trigger] self.bg_pixel_queue[i] < 4
        &&& forall|i: int| 0 <= i < sprite_len ==> #[trigger] self.sprite_pixel_queue[i].color_id < 4
        &&& ((sprite_len == 0 && bg_len <= 7 && self.dot == 80 + self.pixel) || (self.pixel < 160
            && sprite_len == 8 && 8 <= bg_len <= 15 && self.dot == 84 + self.pixel))
    }
}

/// The abstract PPU position and mode data.
pub enum StateView {
    HBlank { scanline: u8, dot: u32, window_internal_y: u8 },
    VBlank { scanline: u8, dot: u32 },
    ScanningOAM(ScanView),
    RenderingScanline(RenderView),
}

impl StateView {
    pub open spec fn spec_scanline(self) -> u8 {
        match self {
            StateView::VBlank { scanline, .. } => scanline,
            StateView::HBlank { scanline, .. } => scanline,
            StateView::ScanningOAM(d) => d.scanline,
            StateView::RenderingScanline(d) => d.scanline,
        }
    }

    pub open spec fn spec_dot(self) -> u32 {
        match self {
            StateView::VBlank { dot, .. } => dot,
            StateView::HBlank { dot, .. } => dot,
            StateView::ScanningOAM(d) => d.dot,
            StateView::RenderingScanline(d) => d.dot,
        }
    }

    pub open spec fn spec_mode(self) -> Mode {
        match self {
            StateView::HBlank { .. } => Mode::HBlank,
            StateView::VBlank { .. } => Mode::VBlank,
            StateView::ScanningOAM(..) => Mode::ScanningOAM,
            StateView::RenderingScanline(..) => Mode::RenderingScanline,
        }
    }

    /// Scanlines 0-143 are drawn (OAM scan, rendering, HBlank) and 144-153 are VBlank; each
    /// scanline lasts 456 dots, advanced 4 dots per M-cycle.
    pub open spec fn wf(self) -> bool {
        match self {
            StateView::VBlank { scanline, dot } => 144 <= scanline <= 153 && dot < 456 && dot % 4
                == 0,
            StateView::HBlank { scanline, dot, window_internal_y } => scanline < 144
                && window_internal_y <= scanline + 1 && dot < 456 && dot % 4 == 0,
            StateView::ScanningOAM(d) => d.wf(),
            StateView::RenderingScanline(d) => d.wf(),
        }
    }
}

impl View for ScanningOAMStateData {
    type V = ScanView;

    open spec fn view(&self) -> ScanView {
        ScanView {
            scanline: self.scanline,
            dot: self.dot,
            window_internal_y: self.window_internal_y,
            sprites: self.sprites@,
        }
    }
}

impl View for RenderingScanlineStateData {
    type V = RenderView;

    open spec fn view(&self) -> RenderView {
        RenderView {
            scanline: self.scanline,
            pixel: self.pixel,
            bg_fetcher_x: self.bg_fetcher_x,
            sprite_fetcher_x: self.sprite_fetcher_x,
            dot: self.dot,
            window_internal_y: self.window_internal_y,
            window_ends_line: self.window_ends_line,
            sprites: self.sprites@,
            bg_pixel_queue: self.bg_pixel_queue@,
            sprite_pixel_queue: self.sprite_pixel_queue@,
        }
    }
}

impl View for State {
    type V = StateView;

    open spec fn view(&self) -> StateView {
        match self {
            State::HBlank { scanline, dot, window_internal_y } => StateView::HBlank {
                scanline: *scanline,
                dot: *dot,
                window_internal_y: *window_internal_y,
            },
            State::VBlank { scanline, dot } => StateView::VBlank { scanline: *scanline, dot: *dot },
            State::ScanningOAM(d) => StateView::ScanningOAM(d@),
            State::RenderingScanline(d) => StateView::RenderingScanline(d@),
        }
    }
}

impl State {
    pub fn scanline(&self) -> (r: u8)
        ensures
            r == self@.spec_scanline(),
    {
        match self {
            Self::VBlank { scanline, .. } => *scanline,
            Self::HBlank { scanline, .. } => *scanline,
            Self::ScanningOAM(d) => d.scanline,
            Self::RenderingScanline(d) => d.scanline,
        }
    }

    pub fn dot(&self) -> (r: u32)
        ensures
            r == self@.spec_dot(),
    {
        match self {
            Self::VBlank { dot, .. } => *dot,
            Self::HBlank { dot, .. } => *dot,
            Self::ScanningOAM(d) => d.dot,
            Self::RenderingScanline(d) => d.dot,
        }
    }

    pub fn mode(&self) -> (r: Mode)
        ensures
            r == self@.spec_mode(),
    {
        match self {
            State::HBlank { .. } => Mode::HBlank,
            State::VBlank { .. } => Mode::VBlank,
            State::ScanningOAM(..) => Mode::ScanningOAM,
            State::RenderingScanline(..) => Mode::RenderingScanline,
        }
    }
}

/// Progress of an OAM DMA transfer: the source page and the offset of the next byte.
#[derive(Debug, Clone, Copy, PartialEq, Eq, Structural)]
pub struct OamDmaStatus {
    pub source_high_bits: u16,
    pub current_low_bits: u16,
}

impl OamDmaStatus {
    /// A transfer from page `source_high_bits` starting at offset 0.
    pub fn new(source_high_bits: u8) -> (r: Self)
        ensures
            r == (OamDmaStatus { source_high_bits: (source_high_bits as u16 * 256) as u16, current_low_bits: 0 }),
    {
        Self { source_high_bits: (source_high_bits as u16) * 256, current_low_bits: 0x00 }
    }

    pub open spec fn spec_source(self) -> u16 {
        self.source_high_bits | self.current_low_bits
    }

    pub open spec fn spec_dest(self) -> u16 {
        0xFE00u16 | self.current_low_bits
    }

    /// The address of the next byte to copy.
    pub fn current_source_address(self) -> (r: u16)
        ensures
            r == self.spec_source(),
    {
        self.source_high_bits | self.current_low_bits
    }

    /// The OAM address the next byte is copied to.
    pub fn current_dest_address(self) -> (r: u16)
        ensures
            r == self.spec_dest(),
    {
        address::OAM_START | self.current_low_bits
    }

    pub open spec fn spec_increment(self) -> Option<OamDmaStatus> {
        if self.current_low_bits == 0x009F {
            None
        } else {
            Some(OamDmaStatus { current_low_bits: (self.current_low_bits + 1) as u16, ..self })
        }
    }

    /// The status after one byte is copied; None once the 160th byte is done.
    pub fn increment(self) -> (r: Option<Self>)
        requires
            self.current_low_bits <= 0x9F,
        ensures
            r == self.spec_increment(),
    {
        if self.current_low_bits == 0x009F {
            None
        } else {
            Some(Self { source_high_bits: self.source_high_bits, current_low_bits: self.current_low_bits + 1 })
        }
    }
}

/// The abstract PPU state.
pub struct PpuView {
    pub enabled: bool,
    pub state: StateView,
    pub oam_dma_status: Option<OamDmaStatus>,
    pub frame_buffer: Seq<Seq<u8>>,
    pub last_stat_interrupt_line: bool,
}

impl PpuView {
    pub open spec fn access(self) -> PpuAccess {
        PpuAccess {
            oam_dma_active: self.oam_dma_status is Some,
            enabled: self.enabled,
            mode: self.state.spec_mode(),
        }
    }

    /// An OAM DMA transfer copies from a page start and has at most 160 bytes to go, and the
    /// position and mode data are consistent.
    pub open spec fn wf(self) -> bool {
        &&& match self.oam_dma_status {
            Some(s) => s.current_low_bits <= 0x9F && s.source_high_bits % 256 == 0,
            None => true,
        }
        &&& self.state.wf()
    }
}

/// The state at power-on: VBlank, scanline 145, dot 0.
pub open spec fn power_on_state() -> StateView {
    StateView::VBlank { scanline: 145, dot: 0 }
}

/// A frame of 144 rows of 160 colour-0 pixels.
pub open spec fn blank_frame() -> Seq<Seq<u8>> {
    Seq::new(144, |y: int| Seq::new(160, |x: int| 0u8))
}

/// The PPU: its mode state machine, OAM DMA progress and the frame being drawn.
#[derive(Debug)]
pub struct PpuState {
    enabled: bool,
    state: State,
    oam_dma_status: Option<OamDmaStatus>,
    frame_buffer: [[u8; 160]; 144],
    last_stat_interrupt_line: bool,
}

impl View for PpuState {
    type V = PpuView;

    closed spec fn view(&self) -> PpuView {
        PpuView {
            enabled: self.enabled,
            state: self.state@,
            oam_dma_status: self.oam_dma_status,
            frame_buffer: Seq::new(144, |y: int| self.frame_buffer@[y]@),
            last_stat_interrupt_line: self.last_stat_interrupt_line,
        }
    }
}

impl PpuState {
    /// The PPU at power-on: enabled, in VBlank, no OAM DMA transfer, blank frame.
    pub fn new() -> (r: Self)
        ensures
            r@.wf(),
            r@.enabled,
            r@.state == power_on_state(),
            r@.oam_dma_status is None,
            r@.frame_buffer == blank_frame(),
            !r@.last_stat_interrupt_line,
    {
        let r = Self {
            enabled: true,
            state: State::VBlank { scanline: 145, dot: 0 },
            oam_dma_status: None,
            frame_buffer: [[0; 160]; 144],
            last_stat_interrupt_line: false,
        };
        assert(r@.frame_buffer =~~= blank_frame());
        r
    }

    pub fn enabled(&self) -> (r: bool)
        ensures
            r == self@.enabled,
    {
        self.enabled
    }

    pub fn mode(&self) -> (r: Mode)
        ensures
            r == self@.state.spec_mode(),
    {
        self.state.mode()
    }

    pub fn oam_dma_status(&self) -> (r: Option<OamDmaStatus>)
        ensures
            r == self@.oam_dma_status,
    {
        self.oam_dma_status
    }

    /// The frame being drawn: 144 rows of 160 2-bit colours.
    pub fn frame_buffer(&self) -> (r: &[[u8; 160]; 144])
        ensures
            forall|y: int| 0 <= y < 144 ==> #[trigger] r@[y]@ == self@.frame_buffer[y],
    {
        &self.frame_buffer
    }
}

/// The memory after one step of OAM DMA: when no transfer runs and DMA was written, the DMA
/// dirty bit is cleared; then one byte is copied if a transfer runs.
pub open spec fn dma_step_memory(
    status: Option<OamDmaStatus>,
    mem: AddressSpaceView,
) -> (Option<OamDmaStatus>, AddressSpaceView) {
    let (status, mem) = if status is None && mem.io.dirty_bits & 0x4000 != 0 {
        let io = IoRegistersView { dirty_bits: mem.io.dirty_bits & !0x4000u16, ..mem.io };
        let source = io.read_register(IoRegister::DMA);
        (
            if source <= 0xDF {
                Some(OamDmaStatus { source_high_bits: (source as u16 * 256) as u16, current_low_bits: 0 })
            } else {
                None
            },
            mem.with_io(io),
        )
    } else {
        (status, mem)
    };
    match status {
        Some(s) => (
            s.spec_increment(),
            mem.write_unchecked(s.spec_dest(), mem.read_unchecked(s.spec_source())),
        ),
        None => (None, mem),
    }
}

/// If an OAM DMA transfer is in progress, progress it by 1 M-cycle (4 clock cycles) which means
/// copying one byte and incrementing the OAM DMA status. If the transfer has completed then the
/// OAM DMA status will be set to None.
///
/// If an OAM DMA transfer is not in progress but has been requested, the transfer will be
/// initialized and the first byte will be copied.
pub fn progress_oam_dma_transfer(ppu_state: &mut PpuState, address_space: &mut AddressSpace)
    requires
        old(ppu_state)@.wf(),
    ensures
        final(ppu_state)@.wf(),
        (final(ppu_state)@.oam_dma_status, final(address_space)@) == dma_step_memory(
            old(ppu_state)@.oam_dma_status,
            old(address_space)@,
        ),
        final(ppu_state)@.enabled == old(ppu_state)@.enabled,
        final(ppu_state)@.state == old(ppu_state)@.state,
        final(ppu_state)@.frame_buffer == old(ppu_state)@.frame_buffer,
        final(ppu_state)@.last_stat_interrupt_line == old(ppu_state)@.last_stat_interrupt_line,
{
    if ppu_state.oam_dma_status.is_none() && address_space.get_io_registers().get_dirty_bit(
        IoRegister::DMA,
    ) {
        address_space.get_io_registers_mut().clear_dirty_bit(IoRegister::DMA);
        let source_high_bits = address_space.get_io_registers().read_register(IoRegister::DMA);
        if source_high_bits <= 0xDF {
            ppu_state.oam_dma_status = Some(OamDmaStatus::new(source_high_bits));
        }
    }
    let oam_dma_status = match ppu_state.oam_dma_status {
        Some(s) => s,
        None => {
            return;
        },
    };
    address_space.copy_byte(
        oam_dma_status.current_source_address(),
        oam_dma_status.current_dest_address(),
    );
    ppu_state.oam_dma_status = oam_dma_status.increment();
}

/// The VBlank state one M-cycle later: the next scanline after 456 dots, and OAM scanning of
/// scanline 0 after the last VBlank scanline.
pub open spec fn spec_vblank_next(scanline: u8, dot: u32) -> StateView {
    if dot + 4 == 456 {
        if scanline == 153 {
            StateView::ScanningOAM(
                ScanView { scanline: 0, dot: 0, window_internal_y: 0, sprites: Seq::empty() },
            )
        } else {
            StateView::VBlank { scanline: (scanline + 1) as u8, dot: 0 }
        }
    } else {
        StateView::VBlank { scanline, dot: (dot + 4) as u32 }
    }
}

/// The HBlank state one M-cycle later: after 456 dots, OAM scanning of the next scanline, or
/// VBlank after the last visible scanline.
pub open spec fn spec_hblank_next(scanline: u8, dot: u32, window_internal_y: u8) -> StateView {
    if dot + 4 == 456 {
        if scanline == 143 {
            StateView::VBlank { scanline: 144, dot: 0 }
        } else {
            StateView::ScanningOAM(
                ScanView {
                    scanline: (scanline + 1) as u8,
                    dot: 0,
                    window_internal_y,
                    sprites: Seq::empty(),
                },
            )
        }
    } else {
        StateView::HBlank { scanline, dot: (dot + 4) as u32, window_internal_y }
    }
}

/// OAM scanning one M-cycle later: two OAM entries are checked (unless an OAM DMA transfer
/// blocks OAM), and after 80 dots the sprites found are sorted by X, their tile rows are
/// looked up and rendering starts.
pub open spec fn spec_process_scanning_oam(d: ScanView, mem: AddressSpaceView, dma_active: bool) -> StateView {
    let sprites = if dma_active {
        d.sprites
    } else {
        spec_scan_oam(
            spec_scan_oam(d.sprites, mem, d.scanline, d.dot),
            mem,
            d.scanline,
            (d.dot + 2) as u32,
        )
    };
    if d.dot + 4 == 80 {
        StateView::RenderingScanline(
            RenderView {
                scanline: d.scanline,
                pixel: 0,
                bg_fetcher_x: 0,
                sprite_fetcher_x: 0,
                dot: 80,
                window_internal_y: d.window_internal_y,
                window_ends_line: false,
                sprites: spec_lookup_sprite_tiles(sorted_by_x(sprites), mem, d.scanline),
                bg_pixel_queue: Seq::empty(),
                sprite_pixel_queue: Seq::empty(),
            },
        )
    } else {
        StateView::ScanningOAM(ScanView { dot: (d.dot + 4) as u32, sprites, ..d })
    }
}

/// The state and frame buffer one M-cycle later.
pub open spec fn spec_process_state(
    state: StateView,
    mem: AddressSpaceView,
    dma_active: bool,
    frame_buffer: Seq<Seq<u8>>,
) -> (StateView, Seq<Seq<u8>>) {
    match state {
        StateView::VBlank { scanline, dot } => (spec_vblank_next(scanline, dot), frame_buffer),
        StateView::HBlank { scanline, dot, window_internal_y } => (
            spec_hblank_next(scanline, dot, window_internal_y),
            frame_buffer,
        ),
        StateView::ScanningOAM(d) => (spec_process_scanning_oam(d, mem, dma_active), frame_buffer),
        StateView::RenderingScanline(d) => spec_process_render(d, mem, frame_buffer),
    }
}

fn vblank_next_state(scanline: u8, dot: u32) -> (r: State)
    requires
        (StateView::VBlank { scanline, dot }).wf(),
    ensures
        r@ == spec_vblank_next(scanline, dot),
{
    let new_dot = dot + DOTS_PER_M_CYCLE;
    if new_dot == DOTS_PER_SCANLINE {
        if scanline == LAST_VBLANK_SCANLINE {
            let r = State::ScanningOAM(
                ScanningOAMStateData {
                    scanline: 0,
                    dot: 0,
                    window_internal_y: 0,
                    sprites: Vec::new(),
                },
            );
            assert(r@ =~= spec_vblank_next(scanline, dot));
            r
        } else {
            State::VBlank { scanline: scanline + 1, dot: 0 }
        }
    } else {
        State::VBlank { scanline, dot: new_dot }
    }
}

fn hblank_next_state(scanline: u8, dot: u32, window_internal_y: u8) -> (r: State)
    requires
        (StateView::HBlank { scanline, dot, window_internal_y }).wf(),
    ensures
        r@ == spec_hblank_next(scanline, dot, window_internal_y),
{
    let new_dot = dot + DOTS_PER_M_CYCLE;
    if new_dot == DOTS_PER_SCANLINE {
        if scanline == SCREEN_HEIGHT - 1 {
            State::VBlank { scanline: scanline + 1, dot: 0 }
        } else {
            let r = State::ScanningOAM(
                ScanningOAMStateData {
                    scanline: scanline + 1,
                    dot: 0,
                    window_internal_y,
                    sprites: Vec::new(),
                },
            );
            assert(r@ =~= spec_hblank_next(scanline, dot, window_internal_y));
            r
        }
    } else {
        State::HBlank { scanline, dot: new_dot, window_internal_y }
    }
}

fn process_scanning_oam_state(
    state_data: ScanningOAMStateData,
    address_space: &AddressSpace,
    oam_dma_status: Option<OamDmaStatus>,
) -> (r: State)
    requires
        state_data@.wf(),
    ensures
        r@ == spec_process_scanning_oam(state_data@, address_space@, oam_dma_status is Some),
        r@.wf(),
{
    let ScanningOAMStateData { scanline, dot, mut sprites, window_internal_y } = state_data;
    // PPU effectively can't read OAM while an OAM DMA transfer is in progress
    if oam_dma_status.is_none() {
        // PPU reads 2 OAM entries every M-cycle (4 dots)
        scan_oam(&mut sprites, address_space, scanline, dot);
        scan_oam(&mut sprites, address_space, scanline, dot + 2);
    }
    let new_dot = dot + DOTS_PER_M_CYCLE;
    if new_dot == OAM_SCAN_DOTS {
        let ghost found = sprites@;
        sort_sprites_by_x(&mut sprites);
        proof {
            broadcast use vstd::seq_lib::group_to_multiset_ensures;

            assert forall|i: int| 0 <= i < sprites@.len() implies #[trigger] sprites@[i].y_pos
                <= scanline + 16 by {
                assert(sprites@.contains(sprites@[i]));
                assert(sprites@.to_multiset().count(sprites@[i]) > 0);
                assert(found.contains(sprites@[i]));
            }
            assert(sprites@.to_multiset().len() == found.to_multiset().len());
            assert(sprites@.len() == found.len());
        }
        let sprites_with_tiles = lookup_sprite_tiles(&sprites, address_space, scanline);
        let r = State::RenderingScanline(
            RenderingScanlineStateData {
                scanline,
                pixel: 0,
                bg_fetcher_x: 0,
                sprite_fetcher_x: 0,
                dot: new_dot,
                window_internal_y,
                window_ends_line: false,
                sprites: sprites_with_tiles,
                bg_pixel_queue: ArrayQueue::new(),
                sprite_pixel_queue: ArrayQueue::new(),
            },
        );
        assert(r@ =~= spec_process_scanning_oam(state_data@, address_space@, oam_dma_status is Some));
        r
    } else {
        let r = State::ScanningOAM(ScanningOAMStateData { scanline, dot: new_dot, sprites, window_internal_y });
        assert(r@ =~= spec_process_scanning_oam(state_data@, address_space@, oam_dma_status is Some));
        r
    }
}

fn process_state(
    state: State,
    address_space: &AddressSpace,
    oam_dma_status: Option<OamDmaStatus>,
    frame_buffer: &mut [[u8; 160]; 144],
) -> (r: State)
    requires
        state@.wf(),
    ensures
        r@.wf(),
        (r@, Seq::new(144, |y: int| final(frame_buffer)@[y]@)) == spec_process_state(
            state@,
            address_space@,
            oam_dma_status is Some,
            Seq::new(144, |y: int| old(frame_buffer)@[y]@),
        ),
{
    match state {
        State::VBlank { scanline, dot } => vblank_next_state(scanline, dot),
        State::HBlank { scanline, dot, window_internal_y } => hblank_next_state(
            scanline,
            dot,
            window_internal_y,
        ),
        State::ScanningOAM(data) => process_scanning_oam_state(data, address_space, oam_dma_status),
        State::RenderingScanline(data) => process_render_state(data, address_space, frame_buffer),
    }
}

/// STAT with bits 0-2 replaced by the mode and the LY=LYC flag.
pub open spec fn stat_after_update(stat: u8, lyc_match: bool, mode: Mode) -> u8 {
    (stat & 0xF8) | (if lyc_match { 0x04u8 } else { 0u8 }) | mode.spec_flag_bits()
}

/// Whether the STAT interrupt line is high: an enabled source (LY=LYC, OAM scan, VBlank or
/// HBlank) is active.
pub open spec fn spec_stat_interrupt_line(stat: u8, lyc_match: bool, mode: Mode) -> bool {
    (stat & 0x40 != 0 && lyc_match) || (stat & 0x20 != 0 && mode == Mode::ScanningOAM) || (stat
        & 0x10 != 0 && mode == Mode::VBlank) || (stat & 0x08 != 0 && mode == Mode::HBlank)
}

fn update_stat_register(io_registers: &mut IoRegisters, lyc_match: bool, mode: Mode)
    ensures
        final(io_registers)@ == old(io_registers)@.with_byte(
            IoRegister::STAT,
            stat_after_update(old(io_registers)@.read_register(IoRegister::STAT), lyc_match, mode)
                & 0x7F,
        ),
{
    let mode_bits = mode.flag_bits();
    let existing_stat = io_registers.read_register(IoRegister::STAT) & 0xF8;
    let lyc_bit: u8 = if lyc_match {
        0x04
    } else {
        0x00
    };
    let new_stat = existing_stat | lyc_bit | mode_bits;
    io_registers.ppu_set_stat(new_stat);
}

fn compute_stat_interrupt_line(io_registers: &IoRegisters, lyc_match: bool, mode: Mode) -> (r: bool)
    ensures
        r == spec_stat_interrupt_line(io_registers@.read_register(IoRegister::STAT), lyc_match, mode),
{
    let stat = io_registers.read_register(IoRegister::STAT);
    let lyc_source = stat & 0x40 != 0;
    let scanning_oam_source = stat & 0x20 != 0;
    let vblank_source = stat & 0x10 != 0;
    let hblank_source = stat & 0x08 != 0;
    (lyc_source && lyc_match) || (scanning_oam_source && mode == Mode::ScanningOAM) || (
    vblank_source && mode == Mode::VBlank) || (hblank_source && mode == Mode::HBlank)
}

/// The LY value shown for a position: scanline 153 reads as 0 from its 5th dot on.
pub open spec fn spec_ly(state: StateView) -> u8 {
    if state.spec_scanline() == 153 && state.spec_dot() >= 4 {
        0
    } else {
        state.spec_scanline()
    }
}

/// The registers after the PPU reports a new state: LY, STAT's mode and LY=LYC bits, a VBlank
/// interrupt request on entering VBlank, a STAT interrupt request on a rising STAT line, and
/// the mode used for palette access. Also returns the new STAT line.
pub open spec fn spec_report_state(io: IoRegistersView, state: StateView, last_line: bool) -> (
    IoRegistersView,
    bool,
) {
    let mode = state.spec_mode();
    let ly = spec_ly(state);
    let io1 = io.with_byte(IoRegister::LY, ly);
    let lyc_match = ly == io1.read_register(IoRegister::LYC);
    let io2 = io1.with_byte(
        IoRegister::STAT,
        stat_after_update(io1.read_register(IoRegister::STAT), lyc_match, mode) & 0x7F,
    );
    let io3 = if state == (StateView::VBlank { scanline: 144, dot: 0 }) {
        io2.with_byte(IoRegister::IF, io2.byte(IoRegister::IF) | InterruptType::VBlank.spec_bit())
    } else {
        io2
    };
    let line = spec_stat_interrupt_line(io3.read_register(IoRegister::STAT), lyc_match, mode);
    let io4 = if !last_line && line {
        io3.with_byte(IoRegister::IF, io3.byte(IoRegister::IF) | InterruptType::LcdStatus.spec_bit())
    } else {
        io3
    };
    (IoRegistersView { ppu_mode: mode, ..io4 }, line)
}

/// One M-cycle of the PPU: follow LCDC's enable bit (restarting at the power-on state with a
/// blank frame when switched on), advance the state machine and report the new state in the
/// registers.
#[verifier::opaque]
pub open spec fn spec_tick_m_cycle(ppu: PpuView, mem: AddressSpaceView) -> (PpuView, AddressSpaceView) {
    let enabled = mem.io.byte(IoRegister::LCDC) & 0x80 != 0;
    if !enabled {
        (PpuView { enabled: false, ..ppu }, mem)
    } else {
        let ppu1 = if !ppu.enabled {
            PpuView {
                enabled: true,
                state: power_on_state(),
                last_stat_interrupt_line: true,
                frame_buffer: blank_frame(),
                ..ppu
            }
        } else {
            ppu
        };
        let (state, frame_buffer) = spec_process_state(
            ppu1.state,
            mem,
            ppu1.oam_dma_status is Some,
            ppu1.frame_buffer,
        );
        let (io, line) = spec_report_state(mem.io, state, ppu1.last_stat_interrupt_line);
        (
            PpuView { state, frame_buffer, last_stat_interrupt_line: line, ..ppu1 },
            mem.with_io(io),
        )
    }
}

/// Advance the PPU by one M-cycle (4 dots).
pub fn tick_m_cycle(ppu_state: &mut PpuState, address_space: &mut AddressSpace)
    requires
        old(ppu_state)@.wf(),
    ensures
        final(ppu_state)@.wf(),
        (final(ppu_state)@, final(address_space)@) == spec_tick_m_cycle(
            old(ppu_state)@,
            old(address_space)@,
        ),
{
    reveal(spec_tick_m_cycle);
    let prev_enabled = ppu_state.enabled;
    let enabled = address_space.get_io_registers().lcdc().lcd_enabled();
    ppu_state.enabled = enabled;
    if !enabled {
        return ;
    }
    if enabled && !prev_enabled {
        // When PPU is powered on, reset state to the beginning of LY=0 VBlank and clear frame
        // buffer. Set the STAT interrupt line high so that interrupts won't trigger immediately
        // after powering on.
        ppu_state.state = State::VBlank { scanline: 145, dot: 0 };
        ppu_state.last_stat_interrupt_line = true;
        ppu_state.frame_buffer = [[0; 160]; 144];
        assert(ppu_state@.frame_buffer =~~= blank_frame());
    }
    let mut old_state = State::VBlank { scanline: 144, dot: 0 };
    std::mem::swap(&mut old_state, &mut ppu_state.state);
    let new_state = process_state(
        old_state,
        address_space,
        ppu_state.oam_dma_status,
        &mut ppu_state.frame_buffer,
    );
    let new_mode = new_state.mode();
    let scanline = new_state.scanline();
    let ly_value = if scanline == LAST_VBLANK_SCANLINE && new_state.dot() >= 4 {
        // The LY=0 period begins at the 5th dot of the final VBlank scanline. Yes, LY=153 only
        // lasts for 4 dots.
        0
    } else {
        scanline
    };
    address_space.get_io_registers_mut().ppu_set_ly(ly_value);
    let lyc_match = ly_value == address_space.get_io_registers().read_register(IoRegister::LYC);
    update_stat_register(address_space.get_io_registers_mut(), lyc_match, new_mode);
    if matches!(new_state, State::VBlank { scanline: 144, dot: 0 }) {
        address_space.get_io_registers_mut().request_interrupt(InterruptType::VBlank);
    }
    let stat_interrupt_line = compute_stat_interrupt_line(
        address_space.get_io_registers(),
        lyc_match,
        new_mode,
    );
    if !ppu_state.last_stat_interrupt_line && stat_interrupt_line {
        address_space.get_io_registers_mut().request_interrupt(InterruptType::LcdStatus);
    }
    address_space.get_io_registers_mut().update_ppu_mode(new_mode);
    ppu_state.state = new_state;
    ppu_state.last_stat_interrupt_line = stat_interrupt_line;
}

/// The transfer and memory after `n` more steps of OAM DMA.
pub open spec fn dma_steps(status: Option<OamDmaStatus>, mem: AddressSpaceView, n: nat) -> (
    Option<OamDmaStatus>,
    AddressSpaceView,
)
    decreases n,
{
    if n == 0 {
        (status, mem)
    } else {
        let (status1, mem1) = dma_step_memory(status, mem);
        dma_steps(status1, mem1, (n - 1) as nat)
    }
}

/// An address of a page plus an offset within it.
proof fn lemma_page_address(page_base: u16, offset: u16)
    requires
        page_base % 256 == 0,
        offset < 256,
    ensures
        page_base | offset == page_base + offset,
{
    assert(page_base % 256 == 0 && offset < 256 ==> page_base | offset == page_base + offset)
        by (bit_vector);
}

/// The rest of a transfer from working RAM, from byte `k` on: OAM ends up holding the whole
/// page, and the transfer is over.
proof fn lemma_dma_rest(page: u8, start: AddressSpaceView, mem: AddressSpaceView, k: nat)
    requires
        start.wf(),
        0xC0 <= page <= 0xDF,
        k < 160,
        mem.wf(),
        mem.execution_mode == start.execution_mode,
        mem.working_ram == start.working_ram,
        mem.io == start.io,
        forall|j: int| 0 <= j < k ==> #[trigger] mem.oam[j] == start.read_unchecked(
            (page as int * 256 + j) as u16,
        ),
    ensures
        ({
            let (status, after) = dma_steps(
                Some(OamDmaStatus { source_high_bits: (page as int * 256) as u16, current_low_bits: k as u16 }),
                mem,
                (160 - k) as nat,
            );
            &&& status is None
            &&& forall|j: int| 0 <= j < 160 ==> #[trigger] after.oam[j] == start.read_unchecked(
                (page as int * 256 + j) as u16,
            )
        }),
    decreases 160 - k,
{
    let s = OamDmaStatus { source_high_bits: (page as int * 256) as u16, current_low_bits: k as u16 };
    let base = (page as int * 256) as u16;
    lemma_page_address(base, k as u16);
    lemma_page_address(0xFE00u16, k as u16);
    let source = s.spec_source();
    assert(source == page as int * 256 + k);
    assert(s.spec_dest() == 0xFE00 + k);
    let value = mem.read_unchecked(source);
    assert(value == start.read_unchecked(source));
    let mem1 = mem.write_unchecked(s.spec_dest(), value);
    assert(mem1.oam == mem.oam.update(k as int, value));
    assert(dma_step_memory(Some(s), mem) == (s.spec_increment(), mem1));
    if k == 159 {
        assert(dma_steps(None, mem1, 0) == (None::<OamDmaStatus>, mem1));
    } else {
        lemma_dma_rest(page, start, mem1, k + 1);
    }
}

/// An OAM DMA transfer from a page of working RAM copies the page's 160 bytes to OAM, one byte
/// per step, and is over after the 160th.
pub proof fn law_oam_dma_copies_page(page: u8, mem: AddressSpaceView)
    requires
        mem.wf(),
        0xC0 <= page <= 0xDF,
    ensures
        ({
            let (status, after) = dma_steps(
                Some(OamDmaStatus { source_high_bits: (page as int * 256) as u16, current_low_bits: 0 }),
                mem,
                160,
            );
            &&& status is None
            &&& forall|j: int| 0 <= j < 160 ==> #[trigger] after.oam[j] == mem.read_unchecked(
                (page as int * 256 + j) as u16,
            )
        }),
{
    lemma_dma_rest(page, mem, mem, 0);
}

/// With the LCD on, every PPU tick leaves LY holding the current line (0 for the tail of line
/// 153), STAT bits 0-1 holding the current mode and STAT bit 2 telling whether LY equals LYC.
pub proof fn law_tick_reports_state(ppu: PpuView, mem: AddressSpaceView)
    requires
        mem.wf(),
        mem.io.byte(IoRegister::LCDC) & 0x80 != 0,
    ensures
        ({
            let (after, mem1) = spec_tick_m_cycle(ppu, mem);
            let ly = spec_ly(after.state);
            &&& mem1.io.byte(IoRegister::LY) == ly
            &&& mem1.io.byte(IoRegister::STAT) & 0x03 == after.state.spec_mode().spec_flag_bits()
            &&& (mem1.io.byte(IoRegister::STAT) & 0x04 != 0) == (ly == mem.io.read_register(
                IoRegister::LYC,
            ))
            &&& mem1.io.ppu_mode == after.state.spec_mode()
        }),
{
    reveal(spec_tick_m_cycle);
    let (after, mem1) = spec_tick_m_cycle(ppu, mem);
    let ly = spec_ly(after.state);
    let io1 = mem.io.with_byte(IoRegister::LY, ly);
    let lyc_match = ly == io1.read_register(IoRegister::LYC);
    let stat = io1.read_register(IoRegister::STAT);
    let flags = after.state.spec_mode().spec_flag_bits();
    let lyc_bit: u8 = if lyc_match {
        0x04
    } else {
        0
    };
    assert(flags <= 3);
    assert(((stat & 0xF8) | lyc_bit | flags) & 0x7F & 0x03 == flags && ((((stat & 0xF8) | lyc_bit
        | flags) & 0x7F & 0x04 != 0) == (lyc_bit == 0x04))) by (bit_vector)
        requires
            flags <= 3,
            lyc_bit == 0x04 || lyc_bit == 0,
    ;
}

} // verus!
