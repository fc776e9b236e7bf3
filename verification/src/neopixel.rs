//! The NeoPixel side of the LED chapters: packing a colour into the 24-bit
//! word the LED expects (green, red, blue; most significant bit first), the
//! pulse timing of each bit, the hue-sector logic of the HSV conversion and
//! the hue sweep of the rainbow loop.
use vstd::prelude::*;

verus! {

/// A colour with one byte per channel.
#[derive(PartialEq, Eq, Structural, Clone, Copy, Debug)]
pub struct RGB {
    pub r: u8,
    pub g: u8,
    pub b: u8,
}

/// The 24-bit word sent to the LED: green in the high byte, then red, then blue.
pub open spec fn spec_grb(rgb: RGB) -> int {
    rgb.g as int * 65536 + rgb.r as int * 256 + rgb.b as int
}

/// Bit `i` of a word.
pub open spec fn word_bit(word: u32, i: u32) -> bool {
    (word >> i) & 1 == 1
}

/// The bit sent in slot `k` (0 first): bit `7 - k % 8` of green, red or blue
/// for the first, second and third group of eight slots.
pub open spec fn channel_bit(rgb: RGB, k: int) -> bool {
    let byte = if k < 8 { rgb.g } else if k < 16 { rgb.r } else { rgb.b };
    let shift = (7 - k % 8) as u8;
    (byte >> shift) & 1 == 1
}

/// Packs a colour into the word the LED expects.
pub fn grb_color(rgb: &RGB) -> (color: u32)
    ensures
        color as int == spec_grb(*rgb),
{
    let g = rgb.g as u32;
    let r = rgb.r as u32;
    let b = rgb.b as u32;
    let color: u32 = (g << 16) | (r << 8) | b;
    assert(color == g * 65536 + r * 256 + b) by (bit_vector)
        requires
            color == (g << 16) | (r << 8) | b,
            g < 256,
            r < 256,
            b < 256,
    ;
    color
}

proof fn lemma_slot_bit(g: u8, r: u8, b: u8, color: u32, k: u32)
    requires
        color == (g as u32) * 65536 + (r as u32) * 256 + (b as u32),
        k < 24,
    ensures
        word_bit(color, (23 - k) as u32) == channel_bit(RGB { r, g, b }, k as int),
{
    let i: u32 = (23 - k) as u32;
    if k < 8 {
        let s: u8 = (7 - k) as u8;
        assert(((color >> i) & 1 == 1) == ((g >> s) & 1 == 1)) by (bit_vector)
            requires
                color == (g as u32) * 65536 + (r as u32) * 256 + (b as u32),
                i == 23 - k,
                s == 7 - k,
                k < 8,
        ;
    } else if k < 16 {
        let s: u8 = (15 - k) as u8;
        assert(((color >> i) & 1 == 1) == ((r >> s) & 1 == 1)) by (bit_vector)
            requires
                color == (g as u32) * 65536 + (r as u32) * 256 + (b as u32),
                i == 23 - k,
                s == 15 - k,
                8 <= k < 16,
        ;
    } else {
        let s: u8 = (23 - k) as u8;
        assert(((color >> i) & 1 == 1) == ((b >> s) & 1 == 1)) by (bit_vector)
            requires
                color == (g as u32) * 65536 + (r as u32) * 256 + (b as u32),
                i == 23 - k,
                s == 23 - k,
                16 <= k < 24,
        ;
    }
}

/// The 24 bits sent for a colour, in the order they go on the wire: slot
/// `k` carries bit `23 - k` of the packed word, so green goes first and
/// every channel goes most significant bit first.
pub fn signal_bits(rgb: &RGB) -> (bits: Vec<bool>)
    ensures
        bits@.len() == 24,
        forall|k: int| 0 <= k < 24 ==> #[trigger] bits@[k] == word_bit(spec_grb(*rgb) as u32, (23 - k) as u32),
        forall|k: int| 0 <= k < 24 ==> #[trigger] bits@[k] == channel_bit(*rgb, k),
{
    let color = grb_color(rgb);
    let mut bits: Vec<bool> = Vec::new();
    let mut k: u32 = 0;
    while k < 24
        invariant
            k <= 24,
            color as int == spec_grb(*rgb),
            bits@.len() == k,
            forall|j: int| 0 <= j < k ==> #[trigger] bits@[j] == word_bit(color, (23 - j) as u32),
            forall|j: int| 0 <= j < k ==> #[trigger] bits@[j] == channel_bit(*rgb, j),
        decreases 24 - k,
    {
        let i: u32 = 23 - k;
        let p: u32 = 1u32 << i;
        let bit = p & color != 0;
        assert(bit == ((color >> i) & 1 == 1)) by (bit_vector)
            requires
                p == 1u32 << i,
                bit == (p & color != 0),
                i < 32,
        ;
        proof {
            lemma_slot_bit(rgb.g, rgb.r, rgb.b, color, k);
        }
        bits.push(bit);
        k = k + 1;
    }
    bits
}

/// How long the line stays high, then low, to send one bit (nanoseconds).
#[derive(PartialEq, Eq, Structural, Clone, Copy, Debug)]
pub struct PulseTiming {
    pub high_ns: u64,
    pub low_ns: u64,
}

/// The pulse that sends a bit: 700 ns high and 600 ns low for a one, 350 ns
/// high and 800 ns low for a zero.
pub fn bit_pulse(bit: bool) -> (t: PulseTiming)
    ensures
        bit ==> t == (PulseTiming { high_ns: 700, low_ns: 600 }),
        !bit ==> t == (PulseTiming { high_ns: 350, low_ns: 800 }),
{
    if bit {
        PulseTiming { high_ns: 700, low_ns: 600 }
    } else {
        PulseTiming { high_ns: 350, low_ns: 800 }
    }
}

/// The signal that shows a colour: one pulse per bit, in wire order.
pub fn neopixel(rgb: &RGB) -> (signal: Vec<PulseTiming>)
    ensures
        signal@.len() == 24,
        forall|k: int|
            0 <= k < 24 ==> #[trigger] signal@[k] == if channel_bit(*rgb, k) {
                PulseTiming { high_ns: 700, low_ns: 600 }
            } else {
                PulseTiming { high_ns: 350, low_ns: 800 }
            },
{
    let bits = signal_bits(rgb);
    let mut signal: Vec<PulseTiming> = Vec::new();
    let mut k: usize = 0;
    while k < 24
        invariant
            bits@.len() == 24,
            forall|j: int| 0 <= j < 24 ==> #[trigger] bits@[j] == channel_bit(*rgb, j),
            k <= 24,
            signal@.len() == k,
            forall|j: int|
                0 <= j < k ==> #[trigger] signal@[j] == if channel_bit(*rgb, j) {
                    PulseTiming { high_ns: 700, low_ns: 600 }
                } else {
                    PulseTiming { high_ns: 350, low_ns: 800 }
                },
        decreases 24 - k,
    {
        signal.push(bit_pulse(bits[k]));
        k = k + 1;
    }
    signal
}

/// Why an HSV colour was refused.
#[derive(PartialEq, Eq, Structural, Clone, Copy, Debug)]
pub enum HsvError {
    /// Hue above 360, or saturation or value above 100.
    OutOfRange,
}

/// Which share of the colour a channel gets: the chroma `c`, the
/// intermediate `x`, or nothing.
#[derive(PartialEq, Eq, Structural, Clone, Copy, Debug)]
pub enum Share {
    Chroma,
    Intermediate,
    Zero,
}

/// The share of red, green and blue in each 60-degree sector of the hue.
pub open spec fn spec_sector_shares(h: u32) -> (Share, Share, Share) {
    if h < 60 {
        (Share::Chroma, Share::Intermediate, Share::Zero)
    } else if h < 120 {
        (Share::Intermediate, Share::Chroma, Share::Zero)
    } else if h < 180 {
        (Share::Zero, Share::Chroma, Share::Intermediate)
    } else if h < 240 {
        (Share::Zero, Share::Intermediate, Share::Chroma)
    } else if h < 300 {
        (Share::Intermediate, Share::Zero, Share::Chroma)
    } else {
        (Share::Chroma, Share::Zero, Share::Intermediate)
    }
}

/// The HSV triple is in range: hue at most 360, saturation and value at most 100.
pub open spec fn hsv_in_range(h: u32, s: u32, v: u32) -> bool {
    h <= 360 && s <= 100 && v <= 100
}

/// Checks an HSV triple and picks, from the hue's sector, which share of the
/// colour each of red, green and blue receives.
pub fn hsv_shares(h: u32, s: u32, v: u32) -> (r: Result<(Share, Share, Share), HsvError>)
    ensures
        r is Err <==> !hsv_in_range(h, s, v),
        r matches Ok(shares) ==> shares == spec_sector_shares(h),
{
    if h > 360 || s > 100 || v > 100 {
        return Err(HsvError::OutOfRange);
    }
    let shares = if h < 60 {
        (Share::Chroma, Share::Intermediate, Share::Zero)
    } else if h >= 60 && h < 120 {
        (Share::Intermediate, Share::Chroma, Share::Zero)
    } else if h >= 120 && h < 180 {
        (Share::Zero, Share::Chroma, Share::Intermediate)
    } else if h >= 180 && h < 240 {
        (Share::Zero, Share::Intermediate, Share::Chroma)
    } else if h >= 240 && h < 300 {
        (Share::Intermediate, Share::Zero, Share::Chroma)
    } else {
        (Share::Chroma, Share::Zero, Share::Intermediate)
    };
    Ok(shares)
}

/// In every sector the three channels get the three shares, one each.
pub proof fn lemma_sector_shares_distinct(h: u32)
    ensures
        spec_sector_shares(h).0 != spec_sector_shares(h).1,
        spec_sector_shares(h).1 != spec_sector_shares(h).2,
        spec_sector_shares(h).0 != spec_sector_shares(h).2,
{
}

/// The hue after `i` in the rainbow sweep: it counts up to 360 and then
/// starts again at 1.
pub fn next_hue(i: u32) -> (n: u32)
    requires
        i < u32::MAX,
    ensures
        n == if i == 360 { 1 } else { i + 1 },
{
    let mut i = i;
    if i == 360 {
        i = 0;
    }
    i + 1
}

/// A sweep that starts within 0..=360 stays there, so every hue it produces
/// is accepted by the HSV conversion.
pub proof fn lemma_sweep_stays_in_range(i: u32)
    requires
        i <= 360,
    ensures
        1 <= (if i == 360 { 1 } else { i + 1 }) <= 360,
{
}


/// The standard hue-sector table, channel by channel: red takes the chroma
/// exactly for hues below 60 or from 300 on, green from 60 to below 180, blue
/// from 180 to below 300; blue gets nothing below 120, red nothing from 120
/// to below 240, green nothing from 240 on; the intermediate share goes to
/// the remaining channel.
pub proof fn lemma_hue_sector_table(h: u32)
    requires
        h <= 360,
    ensures
        (spec_sector_shares(h).0 == Share::Chroma) <==> (h < 60 || h >= 300),
        (spec_sector_shares(h).1 == Share::Chroma) <==> (60 <= h && h < 180),
        (spec_sector_shares(h).2 == Share::Chroma) <==> (180 <= h && h < 300),
        (spec_sector_shares(h).0 == Share::Zero) <==> (120 <= h && h < 240),
        (spec_sector_shares(h).1 == Share::Zero) <==> (240 <= h),
        (spec_sector_shares(h).2 == Share::Zero) <==> (h < 120),
        300 <= h ==> spec_sector_shares(h) == (Share::Chroma, Share::Zero, Share::Intermediate),
{
}

} // verus!
