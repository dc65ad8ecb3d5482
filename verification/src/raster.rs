use crate::color::{black, Color, ColorTable};
use crate::grid::{cell_index, CountGrid};
use vstd::prelude::*;

verus! {

/// A pixel buffer: a grid of 8-bit RGB pixels, kept in an `image::RgbImage`
/// that `image::RgbImage::new` made.
#[verifier::external_body]
pub struct Canvas {
    image: image::RgbImage,
}

/// What `ImageBuffer::width` returns for the canvas's image.
pub uninterp spec fn canvas_width(canvas: Canvas) -> nat;

/// What `ImageBuffer::height` returns for the canvas's image.
pub uninterp spec fn canvas_height(canvas: Canvas) -> nat;

/// The pixels that the canvas's image holds, by column and row.
pub uninterp spec fn canvas_pixels(canvas: Canvas) -> Map<(int, int), Color>;

/// Whether `bytes` hold `pixels` in raster order: three bytes for each pixel,
/// red, green, blue, the pixels row by row from the top, each row from the
/// left.
pub open spec fn is_raster_of(
    bytes: Seq<u8>,
    width: nat,
    height: nat,
    pixels: Map<(int, int), Color>,
) -> bool {
    &&& bytes.len() == 3 * (width * height)
    &&& forall|x: int, y: int|
        0 <= x < width && 0 <= y < height ==> {
            let at = #[trigger] cell_index(x, y, width as int);
            &&& bytes[3 * at] == pixels[(x, y)].red
            &&& bytes[3 * at + 1] == pixels[(x, y)].green
            &&& bytes[3 * at + 2] == pixels[(x, y)].blue
        }
}

/// Calls `image::RgbImage::new`, which allocates three zero bytes for each
/// pixel and panics where that many bytes cannot be allocated. Claims that
/// the image has the sides asked for and that its pixels, one for each
/// column and row, are black.
#[verifier::external_body]
fn blank(width: u32, height: u32) -> (canvas: Canvas)
    requires
        3 * (width * height) <= isize::MAX,
    ensures
        canvas_width(canvas) == width,
        canvas_height(canvas) == height,
        canvas_pixels(canvas) == Map::new(
            |p: (int, int)| 0 <= p.0 < width && 0 <= p.1 < height,
            |p: (int, int)| black(),
        ),
{
    Canvas { image: image::RgbImage::new(width, height) }
}

/// Calls `ImageBuffer::put_pixel`, which panics for a pixel outside the
/// image. Claims that it replaces that one pixel and keeps the sides.
#[verifier::external_body]
fn put(canvas: &mut Canvas, x: u32, y: u32, color: Color)
    requires
        x < canvas_width(*old(canvas)),
        y < canvas_height(*old(canvas)),
    ensures
        canvas_width(*final(canvas)) == canvas_width(*old(canvas)),
        canvas_height(*final(canvas)) == canvas_height(*old(canvas)),
        canvas_pixels(*final(canvas)) == canvas_pixels(*old(canvas)).insert(
            (x as int, y as int),
            color,
        ),
{
    canvas.image.put_pixel(x, y, image::Rgb([color.red, color.green, color.blue]));
}

/// Calls `ImageBuffer::get_pixel`, which panics for a pixel outside the
/// image. Claims that it hands out the pixel held for that column and row.
#[verifier::external_body]
fn get(canvas: &Canvas, x: u32, y: u32) -> (color: Color)
    requires
        x < canvas_width(*canvas),
        y < canvas_height(*canvas),
    ensures
        color == canvas_pixels(*canvas)[(x as int, y as int)],
{
    let pixel = canvas.image.get_pixel(x, y);
    Color { red: pixel.0[0], green: pixel.0[1], blue: pixel.0[2] }
}

/// Calls `ImageBuffer::width`.
#[verifier::external_body]
fn width_of(canvas: &Canvas) -> (width: u32)
    ensures
        width == canvas_width(*canvas),
{
    canvas.image.width()
}

/// Calls `ImageBuffer::height`.
#[verifier::external_body]
fn height_of(canvas: &Canvas) -> (height: u32)
    ensures
        height == canvas_height(*canvas),
{
    canvas.image.height()
}

/// Calls `ImageBuffer::into_raw`, which hands out the image's bytes. Claims
/// that they hold the pixels in raster order and nothing more, as in an image
/// that `image::RgbImage::new` made.
#[verifier::external_body]
fn raw_of(canvas: Canvas) -> (bytes: Vec<u8>)
    ensures
        is_raster_of(bytes@, canvas_width(canvas), canvas_height(canvas), canvas_pixels(canvas)),
{
    canvas.image.into_raw()
}

impl Canvas {
    /// Width in pixels.
    pub fn width(&self) -> (width: u32)
        ensures
            width == canvas_width(*self),
    {
        width_of(self)
    }

    /// Height in pixels.
    pub fn height(&self) -> (height: u32)
        ensures
            height == canvas_height(*self),
    {
        height_of(self)
    }

    /// The pixel at column `x` and row `y`, or `None` outside the canvas.
    pub fn pixel(&self, x: u32, y: u32) -> (found: Option<Color>)
        ensures
            found == if x < canvas_width(*self) && y < canvas_height(*self) {
                Some(canvas_pixels(*self)[(x as int, y as int)])
            } else {
                None
            },
    {
        if x < width_of(self) && y < height_of(self) {
            Some(get(self, x, y))
        } else {
            None
        }
    }

    /// The canvas as bytes in raster order.
    pub fn into_raw(self) -> (bytes: Vec<u8>)
        ensures
            is_raster_of(bytes@, canvas_width(self), canvas_height(self), canvas_pixels(self)),
    {
        raw_of(self)
    }
}

/// The pixels of the frame that `table` makes of `grid`: the pixel in column
/// `x` and row `y` has the colour of the count held for it.
pub open spec fn frame_pixels(grid: CountGrid, table: ColorTable) -> Map<(int, int), Color> {
    Map::new(
        |p: (int, int)| 0 <= p.0 < grid.cols() && 0 <= p.1 < grid.rows(),
        |p: (int, int)| table.color(grid.at(p.0, p.1) as nat),
    )
}

/// Renders one frame: a canvas of the grid's sides in which every pixel has
/// the colour that `table` gives to its count.
pub fn rasterize(grid: &CountGrid, table: &ColorTable) -> (canvas: Canvas)
    requires
        grid.wf(),
    ensures
        canvas_width(canvas) == grid.cols(),
        canvas_height(canvas) == grid.rows(),
        canvas_pixels(canvas) == frame_pixels(*grid, *table),
{
    let width = grid.width();
    let height = grid.height();
    proof {
        grid.lemma_fits();
    }
    let mut canvas = blank(width, height);
    let mut x: u32 = 0;
    while x < width
        invariant
            grid.wf(),
            width == grid.cols(),
            height == grid.rows(),
            x <= width,
            canvas_width(canvas) == width,
            canvas_height(canvas) == height,
            canvas_pixels(canvas) == Map::new(
                |p: (int, int)| 0 <= p.0 < width && 0 <= p.1 < height,
                |p: (int, int)|
                    if p.0 < x {
                        table.color(grid.at(p.0, p.1) as nat)
                    } else {
                        black()
                    },
            ),
        decreases width - x,
    {
        let mut y: u32 = 0;
        while y < height
            invariant
                grid.wf(),
                width == grid.cols(),
                height == grid.rows(),
                x < width,
                y <= height,
                canvas_width(canvas) == width,
                canvas_height(canvas) == height,
                canvas_pixels(canvas) == Map::new(
                    |p: (int, int)| 0 <= p.0 < width && 0 <= p.1 < height,
                    |p: (int, int)|
                        if p.0 < x || (p.0 == x && p.1 < y) {
                            table.color(grid.at(p.0, p.1) as nat)
                        } else {
                            black()
                        },
                ),
            decreases height - y,
        {
            let color = table.color_of(grid.get(x, y));
            put(&mut canvas, x, y, color);
            y = y + 1;
        }
        x = x + 1;
    }
    canvas
}

} // verus!
