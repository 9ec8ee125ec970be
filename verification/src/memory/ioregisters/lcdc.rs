use vstd::prelude::*;

verus! {

/// An inclusive range of addresses.
#[derive(Debug, Clone, Copy, PartialEq, Eq, Structural)]
pub struct AddressRange {
    pub start: u16,
    pub end_inclusive: u16,
}

pub open spec fn bg_tile_map_area_0() -> AddressRange {
    AddressRange { start: 0x9800, end_inclusive: 0x9BFF }
}

pub open spec fn bg_tile_map_area_1() -> AddressRange {
    AddressRange { start: 0x9C00, end_inclusive: 0x9FFF }
}

pub open spec fn bg_tile_data_area_0() -> AddressRange {
    AddressRange { start: 0x8800, end_inclusive: 0x97FF }
}

pub open spec fn bg_tile_data_area_1() -> AddressRange {
    AddressRange { start: 0x8000, end_inclusive: 0x8FFF }
}

/// Which block of VRAM BG and window tile data is read from, and how tile indices address it.
#[derive(Debug, Clone, Copy, PartialEq, Eq, Structural)]
pub enum TileDataRange {
    /// Signed tile indices relative to 0x9000.
    Block0,
    /// Unsigned tile indices relative to 0x8000.
    Block1,
}

impl TileDataRange {
    pub open spec fn spec_start_address(self) -> u16 {
        match self {
            TileDataRange::Block0 => 0x9000,
            TileDataRange::Block1 => 0x8000,
        }
    }

    /// The address of tile index 0.
    pub fn start_address(self) -> (r: u16)
        ensures
            r == self.spec_start_address(),
    {
        match self {
            Self::Block0 => 0x9000,
            Self::Block1 => 0x8000,
        }
    }
}

/// Whether sprites are 8x8 or 8x16 pixels.
#[derive(Debug, Clone, Copy, PartialEq, Eq, Structural)]
pub enum SpriteMode {
    Single,
    Stacked,
}

impl SpriteMode {
    pub open spec fn spec_height(self) -> u8 {
        match self {
            SpriteMode::Single => 8,
            SpriteMode::Stacked => 16,
        }
    }

    /// The sprite height in pixels.
    pub fn height(self) -> (r: u8)
        ensures
            r == self.spec_height(),
    {
        match self {
            Self::Single => 8,
            Self::Stacked => 16,
        }
    }
}

/// A copy of the LCDC register (LCD control) with accessors for its bits.
#[derive(Debug, Clone, Copy, PartialEq, Eq, Structural)]
pub struct Lcdc(pub u8);

impl Lcdc {
    pub fn lcd_enabled(self) -> (r: bool)
        ensures
            r == (self.0 & 0x80 != 0),
    {
        self.0 & 0x80 != 0
    }

    pub fn window_tile_map_area(self) -> (r: AddressRange)
        ensures
            r == (if self.0 & 0x40 != 0 { bg_tile_map_area_1() } else { bg_tile_map_area_0() }),
    {
        if self.0 & 0x40 != 0 {
            AddressRange { start: 0x9C00, end_inclusive: 0x9FFF }
        } else {
            AddressRange { start: 0x9800, end_inclusive: 0x9BFF }
        }
    }

    pub fn window_enabled(self) -> (r: bool)
        ensures
            r == (self.0 & 0x20 != 0),
    {
        self.0 & 0x20 != 0
    }

    pub fn bg_tile_data_area(self) -> (r: AddressRange)
        ensures
            r == (if self.0 & 0x10 != 0 { bg_tile_data_area_1() } else { bg_tile_data_area_0() }),
    {
        if self.0 & 0x10 != 0 {
            AddressRange { start: 0x8000, end_inclusive: 0x8FFF }
        } else {
            AddressRange { start: 0x8800, end_inclusive: 0x97FF }
        }
    }

    /// The tile data block selected by bit 4.
    pub fn bg_tile_data_range(self) -> (r: TileDataRange)
        ensures
            r == (if self.0 & 0x10 != 0 { TileDataRange::Block1 } else { TileDataRange::Block0 }),
    {
        if self.0 & 0x10 != 0 {
            TileDataRange::Block1
        } else {
            TileDataRange::Block0
        }
    }

    pub fn bg_tile_map_area(self) -> (r: AddressRange)
        ensures
            r == (if self.0 & 0x80 != 0 { bg_tile_map_area_1() } else { bg_tile_data_area_0() }),
    {
        if self.0 & 0x80 != 0 {
            AddressRange { start: 0x9C00, end_inclusive: 0x9FFF }
        } else {
            AddressRange { start: 0x8800, end_inclusive: 0x97FF }
        }
    }

    pub fn sprite_stacking_enabled(self) -> (r: bool)
        ensures
            r == (self.0 & 0x04 != 0),
    {
        self.0 & 0x04 != 0
    }

    /// The sprite size selected by bit 2.
    pub fn sprite_mode(self) -> (r: SpriteMode)
        ensures
            r == (if self.0 & 0x04 != 0 { SpriteMode::Stacked } else { SpriteMode::Single }),
    {
        if self.0 & 0x04 != 0 {
            SpriteMode::Stacked
        } else {
            SpriteMode::Single
        }
    }

    pub fn sprites_enabled(self) -> (r: bool)
        ensures
            r == (self.0 & 0x02 != 0),
    {
        self.0 & 0x02 != 0
    }

    pub fn bg_enabled(self) -> (r: bool)
        ensures
            r == (self.0 & 0x01 != 0),
    {
        self.0 & 0x01 != 0
    }
}

} // verus!
