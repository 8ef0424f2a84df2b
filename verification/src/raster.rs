use vstd::prelude::*;

verus! {

/// A colour with three 8-bit channels.
#[derive(Clone, Copy, Debug, PartialEq, Eq, Structural)]
pub struct Rgb {
    pub red: u8,
    pub green: u8,
    pub blue: u8,
}

/// What a raster is, mathematically: its dimensions and its samples in
/// row-major order, three per pixel (red, green, blue).
pub struct RasterView {
    pub width: nat,
    pub height: nat,
    pub samples: Seq<u8>,
}

impl RasterView {
    /// The dimensions fit the machine representation and there are exactly
    /// three samples per pixel.
    pub open spec fn wf(self) -> bool {
        &&& self.width <= u32::MAX
        &&& self.height <= u32::MAX
        &&& self.samples.len() == self.width * self.height * 3
    }

    pub open spec fn in_bounds(self, x: int, y: int) -> bool {
        0 <= x < self.width && 0 <= y < self.height
    }

    /// Index of the red sample of the pixel in column `x` of row `y`.
    pub open spec fn offset(self, x: int, y: int) -> int {
        (y * self.width + x) * 3
    }

    pub open spec fn pixel(self, x: int, y: int) -> Rgb {
        let at = self.offset(x, y);
        Rgb { red: self.samples[at], green: self.samples[at + 1], blue: self.samples[at + 2] }
    }

    /// The raster of the given size whose every pixel is `color`.
    pub open spec fn uniform(width: nat, height: nat, color: Rgb) -> RasterView {
        RasterView {
            width,
            height,
            samples: Seq::new(
                width * height * 3,
                |i: int|
                    if i % 3 == 0 {
                        color.red
                    } else if i % 3 == 1 {
                        color.green
                    } else {
                        color.blue
                    },
            ),
        }
    }

    pub open spec fn black(width: nat, height: nat) -> RasterView {
        Self::uniform(width, height, Rgb { red: 0, green: 0, blue: 0 })
    }
}

/// The three samples of an in-bounds pixel lie inside the sample sequence.
pub proof fn lemma_offset_in_range(view: RasterView, x: int, y: int)
    requires
        view.wf(),
        view.in_bounds(x, y),
    ensures
        0 <= view.offset(x, y),
        view.offset(x, y) + 3 <= view.samples.len(),
        view.offset(x, y) % 3 == 0,
{
    let w = view.width as int;
    let h = view.height as int;
    assert(y * w + x <= h * w - 1 && 0 <= y * w + x && h * w == w * h) by (nonlinear_arith)
        requires
            0 <= x < w,
            0 <= y < h,
    ;
}

/// A fixed-size grid of RGB pixels.
pub struct Raster {
    width: u32,
    height: u32,
    samples: Vec<u8>,
}

impl View for Raster {
    type V = RasterView;

    closed spec fn view(&self) -> RasterView {
        RasterView {
            width: self.width as nat,
            height: self.height as nat,
            samples: self.samples@,
        }
    }
}

/// Number of samples of a `width` by `height` raster, where a `Vec` can hold that many.
fn sample_count(width: u32, height: u32) -> (count: Option<usize>)
    ensures
        count is Some <==> width * height * 3 <= usize::MAX,
        count matches Some(n) ==> n == width * height * 3,
{
    assert(width * height <= 0xFFFF_FFFE_0000_0001) by (nonlinear_arith)
        requires
            width <= 0xFFFF_FFFF,
            height <= 0xFFFF_FFFF,
    ;
    let pixels: u64 = width as u64 * height as u64;
    let most: u64 = usize::MAX as u64 / 3;
    if pixels > most {
        None
    } else {
        Some((pixels * 3) as usize)
    }
}

impl Raster {
    pub open spec fn wf(&self) -> bool {
        self@.wf()
    }

    /// A raster of the given size with every pixel set to `color`; `None`
    /// where that many samples cannot be addressed.
    pub fn filled(width: u32, height: u32, color: Rgb) -> (result: Option<Raster>)
        ensures
            result is Some <==> width * height * 3 <= usize::MAX,
            result matches Some(raster) ==> raster.wf() && raster@ == RasterView::uniform(
                width as nat,
                height as nat,
                color,
            ),
    {
        match sample_count(width, height) {
            None => None,
            Some(count) => {
                let mut samples: Vec<u8> = Vec::new();
                let mut pixels: usize = 0;
                let total: usize = count / 3;
                let ghost target = RasterView::uniform(width as nat, height as nat, color).samples;
                while pixels < total
                    invariant
                        pixels <= total,
                        total * 3 == count,
                        count == width * height * 3,
                        target == RasterView::uniform(width as nat, height as nat, color).samples,
                        samples@.len() == pixels * 3,
                        forall|i: int| 0 <= i < samples@.len() ==> samples@[i] == target[i],
                    decreases total - pixels,
                {
                    samples.push(color.red);
                    samples.push(color.green);
                    samples.push(color.blue);
                    pixels = pixels + 1;
                }
                assert(samples@ =~= target);
                Some(Raster { width, height, samples })
            },
        }
    }

    /// An all-black raster of the given size; `None` where that many samples
    /// cannot be addressed.
    pub fn new(width: u32, height: u32) -> (result: Option<Raster>)
        ensures
            result is Some <==> width * height * 3 <= usize::MAX,
            result matches Some(raster) ==> raster.wf() && raster@ == RasterView::black(
                width as nat,
                height as nat,
            ),
    {
        Raster::filled(width, height, Rgb { red: 0, green: 0, blue: 0 })
    }

    /// Takes ownership of row-major RGB samples; `None` unless there are
    /// exactly three samples per pixel.
    pub fn from_raw(width: u32, height: u32, samples: Vec<u8>) -> (result: Option<Raster>)
        ensures
            result is Some <==> samples@.len() == width * height * 3,
            result matches Some(raster) ==> raster.wf() && raster@ == (RasterView {
                width: width as nat,
                height: height as nat,
                samples: samples@,
            }),
    {
        let given: usize = samples.len();
        match sample_count(width, height) {
            None => None,
            Some(count) => {
                if given == count {
                    Some(Raster { width, height, samples })
                } else {
                    None
                }
            },
        }
    }

    pub fn width(&self) -> (width: u32)
        ensures
            width == self@.width,
    {
        self.width
    }

    pub fn height(&self) -> (height: u32)
        ensures
            height == self@.height,
    {
        self.height
    }

    /// The samples in row-major order, three per pixel.
    pub fn as_raw(&self) -> (samples: &Vec<u8>)
        ensures
            samples@ == self@.samples,
    {
        &self.samples
    }

    /// Gives the samples back, in row-major order, three per pixel.
    pub fn into_raw(self) -> (samples: Vec<u8>)
        ensures
            samples@ == self@.samples,
    {
        self.samples
    }

    /// The pixel in column `x` of row `y`.
    pub fn get_pixel(&self, x: u32, y: u32) -> (pixel: Rgb)
        requires
            self.wf(),
            self@.in_bounds(x as int, y as int),
        ensures
            pixel == self@.pixel(x as int, y as int),
    {
        proof {
            lemma_offset_in_range(self@, x as int, y as int);
            assert(0 <= y * self.width) by (nonlinear_arith);
            assert((y * self.width + x) * 3 + 3 <= self.samples.len());
        }
        let row: usize = y as usize * self.width as usize;
        let at: usize = (row + x as usize) * 3;
        Rgb { red: self.samples[at], green: self.samples[at + 1], blue: self.samples[at + 2] }
    }
}

} // verus!
