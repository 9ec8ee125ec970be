use crate::config::ColorScheme;
use crate::memory::mapper::current_time_nanos;
use vstd::prelude::*;

verus! {

/// A message shown over the emulator's display until its end time (nanoseconds since the Unix
/// epoch).
#[derive(Debug, Clone)]
pub struct Modal {
    pub text: String,
    pub end_time: u64,
}

/// The end time of a message shown from `now` for `duration` nanoseconds: their sum, or the
/// end of the `u64` range if that is smaller.
pub open spec fn end_time_from(now: u64, duration: u64) -> u64 {
    if now + duration > u64::MAX {
        u64::MAX
    } else {
        (now + duration) as u64
    }
}

impl Modal {
    /// A message shown from time `now` for `duration` nanoseconds (until the end of the `u64`
    /// range at most).
    pub fn new_at(text: String, now: u64, duration: u64) -> (r: Self)
        ensures
            r.text@ == text@,
            r.end_time == end_time_from(now, duration),
    {
        Self { text, end_time: now.saturating_add(duration) }
    }

    /// A message shown from now for `duration` nanoseconds.
    pub fn new(text: String, duration: u64) -> (r: Self)
        ensures
            r.text@ == text@,
            exists|now: u64| r.end_time == #[trigger] end_time_from(now, duration),
    {
        let now = current_time_nanos();
        let r = Self::new_at(text, now, duration);
        assert(r.end_time == end_time_from(now, duration));
        r
    }

    /// Whether the message's time is up at time `now`.
    pub fn is_finished_at(&self, now: u64) -> (r: bool)
        ensures
            r == (self.end_time <= now),
    {
        self.end_time <= now
    }

    /// Whether the message's time is up now.
    pub fn is_finished(&self) -> (r: bool)
        ensures
            self.end_time == 0 ==> r,
    {
        self.is_finished_at(current_time_nanos())
    }
}

/// The RGB color of each of the four GB shades (0 lightest, 3 darkest) in a color scheme.
pub open spec fn spec_palette(color_scheme: ColorScheme) -> Seq<Seq<u8>> {
    match color_scheme {
        // 0/0/0 = black and 255/255/255 = white, so linearly map [0,3] to [255,0]
        ColorScheme::BlackAndWhite => seq![
            seq![255u8, 255, 255],
            seq![170u8, 170, 170],
            seq![85u8, 85, 85],
            seq![0u8, 0, 0],
        ],
        // Render with a light green tint
        ColorScheme::GreenTint => seq![
            seq![0xAEu8, 0xD2, 0x8D],
            seq![0x75u8, 0x9C, 0x68],
            seq![0x40u8, 0x5E, 0x2D],
            seq![0x0Cu8, 0x1E, 0x09],
        ],
    }
}

/// The RGB colors of the four GB shades in a color scheme.
pub fn palette_for(color_scheme: ColorScheme) -> (r: [[u8; 3]; 4])
    ensures
        forall|i: int| 0 <= i < 4 ==> #[trigger] r@[i]@ == spec_palette(color_scheme)[i],
{
    let r = match color_scheme {
        ColorScheme::BlackAndWhite => [[255, 255, 255], [170, 170, 170], [85, 85, 85], [0, 0, 0]],
        ColorScheme::GreenTint => [
            [0xAE, 0xD2, 0x8D],
            [0x75, 0x9C, 0x68],
            [0x40, 0x5E, 0x2D],
            [0x0C, 0x1E, 0x09],
        ],
    };
    assert forall|i: int| 0 <= i < 4 implies #[trigger] r@[i]@ == spec_palette(color_scheme)[i] by {
        assert(r@[i]@ =~= spec_palette(color_scheme)[i]);
    }
    r
}

/// Bytes per row of an RGB frame: 3 per pixel.
pub const RGB_PITCH: usize = 480;

/// The RGB bytes of a frame of GB shades, row by row with `RGB_PITCH` bytes per row: byte `k` of
/// pixel `(x, y)` is component `k` of the palette color of the pixel's shade.
pub open spec fn rgb_frame_matches(
    pixels: Seq<u8>,
    frame: Seq<Seq<u8>>,
    palette: Seq<Seq<u8>>,
) -> bool {
    &&& pixels.len() == 144 * RGB_PITCH
    &&& forall|y: int, x: int, k: int|
        0 <= y < 144 && 0 <= x < 160 && 0 <= k < 3 ==> #[trigger] pixels[y * 480 + 3 * x + k]
            == palette[frame[y][x] as int][k]
}

/// Turn a frame of GB shades (each 0-3) into RGB bytes with the given palette.
pub fn frame_to_rgb(frame_buffer: &[[u8; 160]; 144], palette: &[[u8; 3]; 4]) -> (r: Vec<u8>)
    requires
        forall|y: int, x: int| 0 <= y < 144 && 0 <= x < 160 ==> #[trigger] frame_buffer@[y]@[x] < 4,
    ensures
        rgb_frame_matches(
            r@,
            Seq::new(144, |y: int| frame_buffer@[y]@),
            Seq::new(4, |i: int| palette@[i]@),
        ),
{
    let mut pixels: Vec<u8> = Vec::new();
    let mut y: usize = 0;
    while y < 144
        invariant
            y <= 144,
            pixels@.len() == y * 480,
            forall|yy: int, x: int| 0 <= yy < 144 && 0 <= x < 160 ==> #[trigger] frame_buffer@[yy]@[x] < 4,
            forall|yy: int, x: int, k: int|
                0 <= yy < y && 0 <= x < 160 && 0 <= k < 3 ==> #[trigger] pixels@[yy * 480 + 3 * x + k]
                    == palette@[frame_buffer@[yy]@[x] as int]@[k],
        decreases 144 - y,
    {
        let mut x: usize = 0;
        while x < 160
            invariant
                y < 144,
                x <= 160,
                pixels@.len() == y * 480 + 3 * x,
                forall|yy: int, xx: int| 0 <= yy < 144 && 0 <= xx < 160 ==> #[trigger] frame_buffer@[yy]@[xx] < 4,
                forall|yy: int, xx: int, k: int|
                    0 <= yy < y && 0 <= xx < 160 && 0 <= k < 3 ==> #[trigger] pixels@[yy * 480 + 3 * xx + k]
                        == palette@[frame_buffer@[yy]@[xx] as int]@[k],
                forall|xx: int, k: int|
                    0 <= xx < x && 0 <= k < 3 ==> #[trigger] pixels@[y * 480 + 3 * xx + k]
                        == palette@[frame_buffer@[y as int]@[xx] as int]@[k],
            decreases 160 - x,
        {
            let shade = frame_buffer[y][x];
            assert(shade < 4);
            let color = palette[shade as usize];
            pixels.push(color[0]);
            pixels.push(color[1]);
            pixels.push(color[2]);
            x += 1;
        }
        y += 1;
    }
    pixels
}

/// The largest whole-number scale at which the 160x144 screen fits in a `w` by `h` display.
pub open spec fn integer_scale(w: u32, h: u32) -> u32 {
    if w / 160 <= h / 144 {
        w / 160
    } else {
        h / 144
    }
}

/// The centred rectangle (x, y, width, height) showing the screen at the largest whole-number
/// scale that fits a `w` by `h` display, or `None` if not even 1x fits.
pub fn determine_integer_scale_rect(w: u32, h: u32) -> (r: Option<(u32, u32, u32, u32)>)
    ensures
        integer_scale(w, h) == 0 ==> r is None,
        integer_scale(w, h) > 0 ==> r == Some(
            (
                ((w - 160 * integer_scale(w, h)) / 2) as u32,
                ((h - 144 * integer_scale(w, h)) / 2) as u32,
                (160 * integer_scale(w, h)) as u32,
                (144 * integer_scale(w, h)) as u32,
            ),
        ),
{
    let scale = if w / 160 <= h / 144 {
        w / 160
    } else {
        h / 144
    };
    if scale == 0 {
        // Give up, display area is too small for 1x scale
        return None;
    }
    assert(160 * scale <= w && 144 * scale <= h) by (nonlinear_arith)
        requires
            scale <= w / 160,
            scale <= h / 144,
    ;
    let scaled_width = 160 * scale;
    let scaled_height = 144 * scale;
    Some(((w - scaled_width) / 2, (h - scaled_height) / 2, scaled_width, scaled_height))
}

} // verus!
