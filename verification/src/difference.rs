use crate::raster::{lemma_offset_in_range, Raster, RasterView, Rgb};
use crate::statistic::{denominator, Statistic};
use vstd::arithmetic::div_mod::{lemma_add_mod_noop, lemma_mod_mod};
use vstd::prelude::*;

verus! {

/// Channel deltas below this are taken for sensor noise and count as no change.
pub const NOISE_FLOOR: u8 = 30;

/// Factor by which a channel delta is amplified in the difference image.
pub const AMPLIFICATION: u8 = 3;

/// Absolute difference of two samples.
pub open spec fn raw_delta(a: u8, b: u8) -> int {
    if a >= b {
        a - b
    } else {
        b - a
    }
}

/// Absolute difference of two samples, zero where it is below the noise floor.
pub open spec fn channel_delta(a: u8, b: u8) -> int {
    if raw_delta(a, b) < NOISE_FLOOR {
        0
    } else {
        raw_delta(a, b)
    }
}

/// A channel delta as the difference image shows it: tripled, held to 255.
pub open spec fn amplified(delta: int) -> int {
    if delta * AMPLIFICATION > 255 {
        255
    } else {
        delta * AMPLIFICATION
    }
}

/// Sample of the difference image for the samples `a` and `b`.
pub open spec fn visual_sample(a: u8, b: u8) -> u8 {
    amplified(channel_delta(a, b)) as u8
}

/// Pixel of the difference image for the pixels `a` and `b`.
pub open spec fn visual_pixel(a: Rgb, b: Rgb) -> Rgb {
    Rgb {
        red: visual_sample(a.red, b.red),
        green: visual_sample(a.green, b.green),
        blue: visual_sample(a.blue, b.blue),
    }
}

/// The three channel deltas of a pixel pair read as one base-256 number,
/// red first.
pub open spec fn channel_weight(a: Rgb, b: Rgb) -> int {
    channel_delta(a.red, b.red) * 0x1_0000 + channel_delta(a.green, b.green) * 0x100
        + channel_delta(a.blue, b.blue)
}

/// The difference image of two rasters of one size: sample by sample.
pub open spec fn difference_view(current: RasterView, previous: RasterView) -> RasterView {
    RasterView {
        width: current.width,
        height: current.height,
        samples: Seq::new(
            current.samples.len(),
            |i: int| visual_sample(current.samples[i], previous.samples[i]),
        ),
    }
}

/// Weight of every pixel in column `x`: `x * width + height`. It depends on
/// the raster's height and not on the pixel's row.
pub open spec fn position_weight(view: RasterView, x: int) -> int {
    x * view.width + view.height
}

/// What the pixel in column `x` of row `y` adds to the motion sum.
pub open spec fn pixel_term(current: RasterView, previous: RasterView, x: int, y: int) -> int {
    channel_weight(current.pixel(x, y), previous.pixel(x, y)) * position_weight(current, x)
}

/// Sum of the terms of the first `rows` pixels of column `x`.
pub open spec fn column_total(current: RasterView, previous: RasterView, x: int, rows: nat) -> int
    decreases rows,
{
    if rows == 0 {
        0
    } else {
        column_total(current, previous, x, (rows - 1) as nat) + pixel_term(
            current,
            previous,
            x,
            rows - 1,
        )
    }
}

/// Sum of the terms of all pixels in the first `columns` columns.
pub open spec fn motion_total(current: RasterView, previous: RasterView, columns: nat) -> int
    decreases columns,
{
    if columns == 0 {
        0
    } else {
        motion_total(current, previous, (columns - 1) as nat) + column_total(
            current,
            previous,
            columns - 1,
            current.height,
        )
    }
}

/// Numerator of the motion statistic: the motion sum over all pixels,
/// reduced modulo 2^32.
pub open spec fn statistic_numerator(current: RasterView, previous: RasterView) -> int {
    motion_total(current, previous, current.width) % denominator()
}

pub open spec fn same_size(current: RasterView, previous: RasterView) -> bool {
    current.width == previous.width && current.height == previous.height
}

/// One channel of one pixel pair: the sample of the difference image and
/// the delta that enters the statistic.
pub fn channel_difference(a: u8, b: u8) -> (result: (u8, u8))
    ensures
        result.0 == visual_sample(a, b),
        result.1 == channel_delta(a, b),
        raw_delta(a, b) < NOISE_FLOOR ==> result.0 == 0 && result.1 == 0,
        raw_delta(a, b) >= NOISE_FLOOR ==> result.1 == raw_delta(a, b) && result.0 == (if raw_delta(
            a,
            b,
        ) * 3 > 255 {
            255
        } else {
            raw_delta(a, b) * 3
        }),
{
    let distance: u8 = if a >= b {
        a - b
    } else {
        b - a
    };
    let delta: u8 = if distance < NOISE_FLOOR {
        0
    } else {
        distance
    };
    let visual: u8 = if delta > 255 / AMPLIFICATION {
        255
    } else {
        delta * AMPLIFICATION
    };
    (visual, delta)
}

/// One pixel pair: the pixel of the difference image, and the channel
/// deltas weighted by 2^16 (red), 2^8 (green) and 1 (blue).
pub fn color_difference(a: Rgb, b: Rgb) -> (result: (Rgb, u64))
    ensures
        result.0 == visual_pixel(a, b),
        result.1 == channel_weight(a, b),
        result.1 < 0x100_0000,
{
    let (red, red_delta) = channel_difference(a.red, b.red);
    let (green, green_delta) = channel_difference(a.green, b.green);
    let (blue, blue_delta) = channel_difference(a.blue, b.blue);
    assert((red_delta as u64) << 16 == red_delta as u64 * 0x1_0000) by (bit_vector);
    assert((green_delta as u64) << 8 == green_delta as u64 * 0x100) by (bit_vector);
    let weight: u64 = ((red_delta as u64) << 16) + ((green_delta as u64) << 8) + blue_delta as u64;
    (Rgb { red, green, blue }, weight)
}

/// The difference image of two rasters of one size.
pub fn difference_raster(current: &Raster, previous: &Raster) -> (image: Raster)
    requires
        current.wf(),
        previous.wf(),
        same_size(current@, previous@),
    ensures
        image.wf(),
        image@ == difference_view(current@, previous@),
{
    let fresh = current.as_raw();
    let stale = previous.as_raw();
    let count: usize = fresh.len();
    let mut samples: Vec<u8> = Vec::new();
    let mut at: usize = 0;
    while at < count
        invariant
            at <= count,
            count == fresh@.len(),
            count == stale@.len(),
            samples@.len() == at,
            forall|i: int| 0 <= i < at ==> samples@[i] == visual_sample(fresh@[i], stale@[i]),
        decreases count - at,
    {
        let (visual, _) = channel_difference(fresh[at], stale[at]);
        samples.push(visual);
        at = at + 1;
    }
    assert(samples@ =~= difference_view(current@, previous@).samples);
    Raster::from_raw(current.width(), current.height(), samples).unwrap()
}

/// The motion statistic of two rasters of one size.
pub fn motion_statistic(current: &Raster, previous: &Raster) -> (statistic: Statistic)
    requires
        current.wf(),
        previous.wf(),
        same_size(current@, previous@),
    ensures
        statistic.numerator == statistic_numerator(current@, previous@),
{
    let width: u32 = current.width();
    let height: u32 = current.height();
    let mut sum: u64 = 0;
    let mut x: u32 = 0;
    while x < width
        invariant
            x <= width,
            width == current@.width,
            height == current@.height,
            current.wf(),
            previous.wf(),
            same_size(current@, previous@),
            sum == motion_total(current@, previous@, x as nat) % 0x1_0000_0000_0000_0000,
        decreases width - x,
    {
        assert(x * width + height <= 0xFFFF_FFFF_0000_0000) by (nonlinear_arith)
            requires
                x < width,
                width <= 0xFFFF_FFFF,
                height <= 0xFFFF_FFFF,
        ;
        let weight: u64 = x as u64 * width as u64 + height as u64;
        let mut y: u32 = 0;
        while y < height
            invariant
                y <= height,
                x < width,
                width == current@.width,
                height == current@.height,
                current.wf(),
                previous.wf(),
                same_size(current@, previous@),
                weight == position_weight(current@, x as int),
                sum == (motion_total(current@, previous@, x as nat) + column_total(
                    current@,
                    previous@,
                    x as int,
                    y as nat,
                )) % 0x1_0000_0000_0000_0000,
            decreases height - y,
        {
            let (_, value) = color_difference(current.get_pixel(x, y), previous.get_pixel(x, y));
            proof {
                let before = motion_total(current@, previous@, x as nat) + column_total(
                    current@,
                    previous@,
                    x as int,
                    y as nat,
                );
                let term = pixel_term(current@, previous@, x as int, y as int);
                assert(term == value * weight);
                assert(0 <= term) by (nonlinear_arith)
                    requires
                        term == value * weight,
                ;
                lemma_add_mod_noop(before, term, 0x1_0000_0000_0000_0000);
            }
            sum = sum.wrapping_add(value.wrapping_mul(weight));
            y = y + 1;
        }
        x = x + 1;
    }
    proof {
        lemma_mod_mod(
            motion_total(current@, previous@, width as nat),
            0x1_0000_0000,
            0x1_0000_0000,
        );
    }
    Statistic::new((sum % 0x1_0000_0000) as u32)
}

/// Why two rasters cannot be compared.
#[derive(Clone, Copy, Debug, PartialEq, Eq, Structural)]
pub enum DiffError {
    /// The rasters differ in width or in height.
    DimensionMismatch,
}

/// Compares a frame with the one before it: the difference image and the
/// motion statistic, or an error where the two differ in size.
pub fn diff(current: &Raster, previous: &Raster) -> (result: Result<(Raster, Statistic), DiffError>)
    requires
        current.wf(),
        previous.wf(),
    ensures
        result is Err <==> !same_size(current@, previous@),
        result matches Ok((image, statistic)) ==> {
            &&& image.wf()
            &&& image@ == difference_view(current@, previous@)
            &&& statistic.numerator == statistic_numerator(current@, previous@)
        },
{
    if current.width() != previous.width() || current.height() != previous.height() {
        return Err(DiffError::DimensionMismatch);
    }
    let image = difference_raster(current, previous);
    let statistic = motion_statistic(current, previous);
    Ok((image, statistic))
}

/// A channel delta below the noise floor adds nothing to the difference
/// image nor to the statistic; one at or above it enters the statistic as
/// it is and the image tripled, held to 255.
pub proof fn lemma_noise_floor(a: u8, b: u8)
    ensures
        raw_delta(a, b) < 30 ==> channel_delta(a, b) == 0 && visual_sample(a, b) == 0,
        raw_delta(a, b) >= 30 ==> channel_delta(a, b) == raw_delta(a, b) && visual_sample(a, b)
            == (if raw_delta(a, b) * 3 < 255 {
            raw_delta(a, b) * 3
        } else {
            255
        }),
{
}

/// Each pixel of the difference image is made from the two pixels at the
/// same place.
pub proof fn lemma_difference_pixel(current: RasterView, previous: RasterView, x: int, y: int)
    requires
        current.wf(),
        previous.wf(),
        same_size(current, previous),
        current.in_bounds(x, y),
    ensures
        difference_view(current, previous).wf(),
        difference_view(current, previous).pixel(x, y) == visual_pixel(
            current.pixel(x, y),
            previous.pixel(x, y),
        ),
{
    lemma_offset_in_range(current, x, y);
}

/// Between a raster and itself no column shows motion.
proof fn lemma_still_column(view: RasterView, x: int, rows: nat)
    ensures
        column_total(view, view, x, rows) == 0,
    decreases rows,
{
    if rows > 0 {
        lemma_still_column(view, x, (rows - 1) as nat);
        assert(channel_weight(view.pixel(x, rows - 1), view.pixel(x, rows - 1)) == 0);
    }
}

/// Between a raster and itself the motion sum is zero.
proof fn lemma_still_total(view: RasterView, columns: nat)
    ensures
        motion_total(view, view, columns) == 0,
    decreases columns,
{
    if columns > 0 {
        lemma_still_total(view, (columns - 1) as nat);
        lemma_still_column(view, columns - 1, view.height);
    }
}

/// Two equal rasters show no motion: the statistic is zero and the
/// difference image is black.
pub proof fn lemma_equal_rasters_show_no_motion(view: RasterView)
    requires
        view.wf(),
    ensures
        statistic_numerator(view, view) == 0,
        difference_view(view, view) == RasterView::black(view.width, view.height),
{
    lemma_still_total(view, view.width);
    assert(difference_view(view, view).samples =~= RasterView::black(
        view.width,
        view.height,
    ).samples);
}

/// The statistic of any two rasters lies in [0, 1): its numerator is at
/// least zero and below 2^32.
pub proof fn lemma_statistic_in_unit_interval(current: RasterView, previous: RasterView)
    ensures
        0 <= statistic_numerator(current, previous) < denominator(),
{
}

} // verus!
