//! Image buffers: written by one owner, then frozen and shared.

use crate::convert::MAX_RASTER_DIMENSION;
use std::sync::Arc;
use vstd::prelude::*;

verus! {

/// One sample of an image: red, green, blue and alpha, eight bits each. The
/// colour samples are stored premultiplied by the alpha.
#[derive(Clone, Copy, Debug, PartialEq, Eq, Structural)]
pub struct Pixel {
    pub r: u8,
    pub g: u8,
    pub b: u8,
    pub a: u8,
}

/// The pixel of a buffer that was not written to: all samples zero.
pub open spec fn transparent() -> Pixel {
    Pixel { r: 0, g: 0, b: 0, a: 0 }
}

/// The position of column `x` of row `y` in the row-by-row order of a grid of
/// the given width.
pub open spec fn grid_index(width: int, x: int, y: int) -> int {
    y * width + x
}

/// An image as a grid: its pixels row by row, from the top row down.
pub struct Image {
    pub width: nat,
    pub height: nat,
    pub pixels: Seq<Pixel>,
}

impl Image {
    /// Whether column `x` of row `y` is a place of the image.
    pub open spec fn in_bounds(self, x: int, y: int) -> bool {
        0 <= x < self.width && 0 <= y < self.height
    }

    /// The pixel in column `x` of row `y`.
    pub open spec fn pixel_at(self, x: int, y: int) -> Pixel
        recommends
            self.in_bounds(x, y),
    {
        self.pixels[grid_index(self.width as int, x, y)]
    }

    /// Whether the image is a full grid within the size limit.
    pub open spec fn wf(self) -> bool {
        &&& self.width <= MAX_RASTER_DIMENSION
        &&& self.height <= MAX_RASTER_DIMENSION
        &&& self.pixels.len() == self.width * self.height
    }
}

/// The places of a grid have distinct positions in its row-by-row order, all
/// before its end.
pub proof fn lemma_grid_index(width: int, height: int, x: int, y: int)
    requires
        0 <= x < width,
        0 <= y < height,
    ensures
        0 <= grid_index(width, x, y) < width * height,
        forall|x2: int, y2: int|
            0 <= x2 < width && 0 <= y2 < height && (x2 != x || y2 != y) ==> #[trigger] grid_index(
                width,
                x2,
                y2,
            ) != grid_index(width, x, y),
{
    assert(y * width + x < width * height) by (nonlinear_arith)
        requires
            0 <= x < width,
            0 <= y < height,
    ;
    assert(0 <= y * width) by (nonlinear_arith)
        requires
            0 <= y,
            0 < width,
    ;
    assert((y + 1) * width == y * width + width) by (nonlinear_arith);
    assert forall|x2: int, y2: int|
        0 <= x2 < width && 0 <= y2 < height && (x2 != x || y2 != y) implies #[trigger] grid_index(
        width,
        x2,
        y2,
    ) != grid_index(width, x, y) by {
        if y2 < y {
            assert((y2 + 1) * width <= y * width) by (nonlinear_arith)
                requires
                    y2 + 1 <= y,
                    0 < width,
            ;
            assert((y2 + 1) * width == y2 * width + width) by (nonlinear_arith);
        } else if y2 > y {
            assert((y + 1) * width <= y2 * width) by (nonlinear_arith)
                requires
                    y + 1 <= y2,
                    0 < width,
            ;
        }
    }
}

struct ImageData {
    width: u32,
    height: u32,
    pixels: Vec<Pixel>,
}

impl ImageData {
    #[verifier::type_invariant]
    spec fn inv(self) -> bool {
        self.image().wf()
    }

    spec fn image(self) -> Image {
        Image { width: self.width as nat, height: self.height as nat, pixels: self.pixels@ }
    }

    fn index(&self, x: u32, y: u32) -> (i: usize)
        requires
            self.image().in_bounds(x as int, y as int),
        ensures
            i == y * self.width + x,
            i < self.pixels@.len(),
    {
        proof {
            use_type_invariant(self);
            lemma_grid_index(self.width as int, self.height as int, x as int, y as int);
            assert(self.width * self.height <= 32767 * 32767) by (nonlinear_arith)
                requires
                    self.width <= 32767,
                    self.height <= 32767,
            ;
        }
        (y as usize) * (self.width as usize) + (x as usize)
    }

    fn get(&self, x: u32, y: u32) -> (pixel: Pixel)
        requires
            self.image().in_bounds(x as int, y as int),
        ensures
            pixel == self.image().pixel_at(x as int, y as int),
    {
        let i: usize = self.index(x, y);
        self.pixels[i]
    }
}

/// An image buffer in its first state: owned by the one who writes it, and
/// seen by nobody else.
pub struct ExclusiveImageBuffer {
    data: ImageData,
}

/// An image buffer in its second state: frozen, and free to be read through
/// any number of handles. It has no operation that writes.
pub struct SharedImageBuffer {
    data: Arc<ImageData>,
}

/// Calls `Arc::clone`.
///
/// Believed without proof: the new handle refers to the image that the given
/// one refers to.
#[verifier::external_body]
fn clone_handle(data: &Arc<ImageData>) -> (handle: Arc<ImageData>)
    ensures
        handle == *data,
{
    Arc::clone(data)
}

impl View for ExclusiveImageBuffer {
    type V = Image;

    closed spec fn view(&self) -> Image {
        self.data.image()
    }
}

impl View for SharedImageBuffer {
    type V = Image;

    closed spec fn view(&self) -> Image {
        self.data.image()
    }
}

impl ExclusiveImageBuffer {
    /// A buffer of the given size with every pixel transparent, or `None`
    /// where the width or the height is above the size limit.
    pub fn new(width: u32, height: u32) -> (buffer: Option<ExclusiveImageBuffer>)
        ensures
            buffer is Some <==> width <= MAX_RASTER_DIMENSION && height <= MAX_RASTER_DIMENSION,
            buffer matches Some(b) ==> {
                &&& b@.wf()
                &&& b@.width == width
                &&& b@.height == height
                &&& forall|x: int, y: int|
                    b@.in_bounds(x, y) ==> #[trigger] b@.pixel_at(x, y) == transparent()
            },
    {
        if width > MAX_RASTER_DIMENSION || height > MAX_RASTER_DIMENSION {
            return None;
        }
        assert(width * height <= 32767 * 32767) by (nonlinear_arith)
            requires
                width <= 32767,
                height <= 32767,
        ;
        let count: usize = (width as usize) * (height as usize);
        let mut pixels: Vec<Pixel> = Vec::new();
        let mut i: usize = 0;
        while i < count
            invariant
                i <= count,
                pixels@.len() == i,
                forall|j: int| 0 <= j < i ==> pixels@[j] == transparent(),
            decreases count - i,
        {
            pixels.push(Pixel { r: 0, g: 0, b: 0, a: 0 });
            i += 1;
        }
        let buffer = ExclusiveImageBuffer { data: ImageData { width, height, pixels } };
        proof {
            assert forall|x: int, y: int| buffer@.in_bounds(x, y) implies #[trigger] buffer@
                .pixel_at(x, y) == transparent() by {
                lemma_grid_index(width as int, height as int, x, y);
            }
        }
        Some(buffer)
    }

    /// A buffer of the given size that holds the given pixels, row by row, or
    /// `None` where the width or the height is above the size limit or the
    /// pixels do not fill the grid.
    pub fn from_pixels(width: u32, height: u32, pixels: Vec<Pixel>) -> (buffer: Option<
        ExclusiveImageBuffer,
    >)
        ensures
            buffer is Some <==> width <= MAX_RASTER_DIMENSION && height <= MAX_RASTER_DIMENSION
                && pixels@.len() == width * height,
            buffer matches Some(b) ==> b@ == (Image {
                width: width as nat,
                height: height as nat,
                pixels: pixels@,
            }),
    {
        if width > MAX_RASTER_DIMENSION || height > MAX_RASTER_DIMENSION {
            return None;
        }
        assert(width * height <= 32767 * 32767) by (nonlinear_arith)
            requires
                width <= 32767,
                height <= 32767,
        ;
        let count: usize = (width as usize) * (height as usize);
        if pixels.len() != count {
            return None;
        }
        Some(ExclusiveImageBuffer { data: ImageData { width, height, pixels } })
    }

    /// The number of columns.
    pub fn width(&self) -> (width: u32)
        ensures
            width == self@.width,
            self@.wf(),
    {
        proof {
            use_type_invariant(&self.data);
        }
        self.data.width
    }

    /// The number of rows.
    pub fn height(&self) -> (height: u32)
        ensures
            height == self@.height,
            self@.wf(),
    {
        proof {
            use_type_invariant(&self.data);
        }
        self.data.height
    }

    /// The number of pixels from the start of one row to the start of the
    /// next. Rows are stored without padding.
    pub fn stride(&self) -> (stride: usize)
        ensures
            stride == self@.width,
    {
        self.data.width as usize
    }

    /// The pixel in column `x` of row `y`.
    pub fn get_pixel(&self, x: u32, y: u32) -> (pixel: Pixel)
        requires
            self@.in_bounds(x as int, y as int),
        ensures
            pixel == self@.pixel_at(x as int, y as int),
    {
        self.data.get(x, y)
    }

    /// Writes the pixel in column `x` of row `y`. Every other pixel stays as
    /// it was.
    pub fn set_pixel(&mut self, pixel: Pixel, x: u32, y: u32)
        requires
            old(self)@.in_bounds(x as int, y as int),
        ensures
            final(self)@.width == old(self)@.width,
            final(self)@.height == old(self)@.height,
            final(self)@.pixels.len() == old(self)@.pixels.len(),
            final(self)@.pixels == old(self)@.pixels.update(
                grid_index(old(self)@.width as int, x as int, y as int),
                pixel,
            ),
            final(self)@.pixel_at(x as int, y as int) == pixel,
            forall|x2: int, y2: int|
                old(self)@.in_bounds(x2, y2) && (x2 != x || y2 != y) ==> #[trigger] final(self)@
                    .pixel_at(x2, y2) == old(self)@.pixel_at(x2, y2),
    {
        proof {
            use_type_invariant(&self.data);
            lemma_grid_index(
                self.data.width as int,
                self.data.height as int,
                x as int,
                y as int,
            );
        }
        let i: usize = self.data.index(x, y);
        self.data.pixels[i] = pixel;
        proof {
            assert forall|x2: int, y2: int|
                old(self)@.in_bounds(x2, y2) && (x2 != x || y2 != y) implies #[trigger] self@
                    .pixel_at(x2, y2) == old(self)@.pixel_at(x2, y2) by {
                lemma_grid_index(old(self)@.width as int, old(self)@.height as int, x2, y2);
            }
        }
    }

    /// Freezes the buffer. From here on it can be read through any number of
    /// handles and is never written again.
    pub fn share(self) -> (shared: SharedImageBuffer)
        ensures
            shared@ == self@,
    {
        SharedImageBuffer { data: Arc::new(self.data) }
    }
}

impl SharedImageBuffer {
    /// The number of columns.
    pub fn width(&self) -> (width: u32)
        ensures
            width == self@.width,
            self@.wf(),
    {
        proof {
            use_type_invariant(&*self.data);
        }
        self.data.width
    }

    /// The number of rows.
    pub fn height(&self) -> (height: u32)
        ensures
            height == self@.height,
            self@.wf(),
    {
        proof {
            use_type_invariant(&*self.data);
        }
        self.data.height
    }

    /// The number of pixels from the start of one row to the start of the
    /// next. Rows are stored without padding.
    pub fn stride(&self) -> (stride: usize)
        ensures
            stride == self@.width,
    {
        self.data.width as usize
    }

    /// The pixel in column `x` of row `y`.
    pub fn get_pixel(&self, x: u32, y: u32) -> (pixel: Pixel)
        requires
            self@.in_bounds(x as int, y as int),
        ensures
            pixel == self@.pixel_at(x as int, y as int),
    {
        self.data.get(x, y)
    }

    /// Another handle to the same image.
    pub fn clone_handle(&self) -> (handle: SharedImageBuffer)
        ensures
            handle == *self,
    {
        SharedImageBuffer { data: clone_handle(&self.data) }
    }
}

} // verus!
