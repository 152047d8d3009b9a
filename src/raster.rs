use vstd::prelude::*;

verus! {

/// One RGBA sample of a picture, as the model sees it.
pub struct Pixel {
    pub r: u8,
    pub g: u8,
    pub b: u8,
    pub a: u8,
}

/// The mathematical picture: `rows[y][x]` is the pixel in column `x` of row `y`.
pub struct Raster {
    pub width: nat,
    pub height: nat,
    pub rows: Seq<Seq<Pixel>>,
}

impl Raster {
    pub open spec fn wf(self) -> bool {
        &&& self.rows.len() == self.height
        &&& forall|y: int| 0 <= y < self.height ==> #[trigger] self.rows[y].len() == self.width
    }

    pub open spec fn at(self, x: int, y: int) -> Pixel {
        self.rows[y][x]
    }
}

/// Quarter turn clockwise: the pixel at `(x, y)` comes from `(y, height - 1 - x)`.
pub open spec fn rotate90_of(m: Raster) -> Raster {
    Raster {
        width: m.height,
        height: m.width,
        rows: Seq::new(m.width, |y: int| Seq::new(m.height, |x: int| m.at(y, m.height - 1 - x))),
    }
}

/// Half turn: the pixel at `(x, y)` comes from `(width - 1 - x, height - 1 - y)`.
pub open spec fn rotate180_of(m: Raster) -> Raster {
    Raster {
        width: m.width,
        height: m.height,
        rows: Seq::new(
            m.height,
            |y: int| Seq::new(m.width, |x: int| m.at(m.width - 1 - x, m.height - 1 - y)),
        ),
    }
}

/// Three quarter turns clockwise: the pixel at `(x, y)` comes from `(width - 1 - y, x)`.
pub open spec fn rotate270_of(m: Raster) -> Raster {
    Raster {
        width: m.height,
        height: m.width,
        rows: Seq::new(m.width, |y: int| Seq::new(m.height, |x: int| m.at(m.width - 1 - y, x))),
    }
}

/// Mirror left to right.
pub open spec fn flip_horizontal_of(m: Raster) -> Raster {
    Raster {
        width: m.width,
        height: m.height,
        rows: Seq::new(m.height, |y: int| Seq::new(m.width, |x: int| m.at(m.width - 1 - x, y))),
    }
}

/// Mirror top to bottom.
pub open spec fn flip_vertical_of(m: Raster) -> Raster {
    Raster {
        width: m.width,
        height: m.height,
        rows: Seq::new(m.height, |y: int| Seq::new(m.width, |x: int| m.at(x, m.height - 1 - y))),
    }
}

/// The `w` by `h` rectangle whose top left corner is `(x0, y0)`.
pub open spec fn crop_of(m: Raster, x0: nat, y0: nat, w: nat, h: nat) -> Raster {
    Raster {
        width: w,
        height: h,
        rows: Seq::new(h, |y: int| Seq::new(w, |x: int| m.at(x0 + x, y0 + y))),
    }
}

pub open spec fn saturate(v: int) -> u8 {
    if v < 0 {
        0u8
    } else if v > 255 {
        255u8
    } else {
        v as u8
    }
}

/// Adds `delta` to the three colour channels, saturating; alpha is kept.
pub open spec fn brighten_pixel(p: Pixel, delta: int) -> Pixel {
    Pixel {
        r: saturate(p.r + delta),
        g: saturate(p.g + delta),
        b: saturate(p.b + delta),
        a: p.a,
    }
}

pub open spec fn brighten_of(m: Raster, delta: int) -> Raster {
    Raster {
        width: m.width,
        height: m.height,
        rows: Seq::new(
            m.height,
            |y: int| Seq::new(m.width, |x: int| brighten_pixel(m.at(x, y), delta)),
        ),
    }
}

pub open spec fn pixel_at(bytes: Seq<u8>, i: int) -> Pixel {
    Pixel { r: bytes[i], g: bytes[i + 1], b: bytes[i + 2], a: bytes[i + 3] }
}

/// The picture held by `bytes`: four samples per pixel, row after row, red first.
pub open spec fn raster_of(w: nat, h: nat, bytes: Seq<u8>) -> Raster {
    Raster {
        width: w,
        height: h,
        rows: Seq::new(h, |y: int| Seq::new(w, |x: int| pixel_at(bytes, (y * w + x) * 4))),
    }
}

/// An owned RGBA8 picture of at least one pixel.
#[derive(Clone, Debug, PartialEq, Eq)]
pub struct PixelBuffer {
    pub(crate) width: u32,
    pub(crate) height: u32,
    pub(crate) data: Vec<u8>,
}

impl View for PixelBuffer {
    type V = Raster;

    closed spec fn view(&self) -> Raster {
        raster_of(self.width as nat, self.height as nat, self.data@)
    }
}

impl PixelBuffer {
    pub closed spec fn wf(&self) -> bool {
        &&& self.width >= 1
        &&& self.height >= 1
        &&& self.data@.len() == self.width * self.height * 4
    }

    /// Takes `data` as the samples of a `width` by `height` picture, or `None` where the
    /// sizes disagree or the picture would be empty.
    pub fn from_raw(width: u32, height: u32, data: Vec<u8>) -> (r: Option<PixelBuffer>)
        ensures
            r is Some <==> (width >= 1 && height >= 1 && data@.len() == width * height * 4),
            r matches Some(b) ==> b.wf() && b@ == raster_of(width as nat, height as nat, data@),
    {
        if width == 0 || height == 0 {
            return None;
        }
        proof {
            assert((width as int) * (height as int) * 4 <= u32::MAX * u32::MAX * 4) by (nonlinear_arith)
                requires
                    width <= u32::MAX,
                    height <= u32::MAX,
            ;
        }
        let samples: u128 = (width as u128) * (height as u128) * 4;
        if samples == data.len() as u128 {
            Some(PixelBuffer { width, height, data })
        } else {
            None
        }
    }

    pub fn width(&self) -> (r: u32)
        ensures
            r as nat == self@.width,
    {
        self.width
    }

    pub fn height(&self) -> (r: u32)
        ensures
            r as nat == self@.height,
    {
        self.height
    }

    /// The samples, four per pixel, row after row.
    pub fn as_bytes(&self) -> (r: &[u8])
        requires
            self.wf(),
        ensures
            r@.len() == self@.width * self@.height * 4,
            raster_of(self@.width, self@.height, r@) == self@,
    {
        self.data.as_slice()
    }
}

/// Four quarter turns give the picture back.
pub proof fn lemma_rotate90_four_times(m: Raster)
    requires
        m.wf(),
    ensures
        rotate90_of(rotate90_of(rotate90_of(rotate90_of(m)))) == m,
{
    let r4 = rotate90_of(rotate90_of(rotate90_of(rotate90_of(m))));
    assert forall|y: int| 0 <= y < m.height implies #[trigger] r4.rows[y] =~= m.rows[y] by {
        assert(m.rows[y].len() == m.width);
    }
    assert(r4.rows =~= m.rows);
}

/// Flipping top to bottom twice gives the picture back.
pub proof fn lemma_flip_vertical_twice(m: Raster)
    requires
        m.wf(),
    ensures
        flip_vertical_of(flip_vertical_of(m)) == m,
{
    let f2 = flip_vertical_of(flip_vertical_of(m));
    assert forall|y: int| 0 <= y < m.height implies #[trigger] f2.rows[y] =~= m.rows[y] by {
        assert(m.rows[y].len() == m.width);
    }
    assert(f2.rows =~= m.rows);
}

/// Cropping the whole picture from the origin gives the picture back.
pub proof fn lemma_crop_whole(m: Raster)
    requires
        m.wf(),
    ensures
        crop_of(m, 0, 0, m.width, m.height) == m,
{
    let c = crop_of(m, 0, 0, m.width, m.height);
    assert forall|y: int| 0 <= y < m.height implies #[trigger] c.rows[y] =~= m.rows[y] by {
        assert(m.rows[y].len() == m.width);
    }
    assert(c.rows =~= m.rows);
}

} // verus!
