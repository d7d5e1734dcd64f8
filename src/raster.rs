//! The per-pixel render loop over a row-major grayscale buffer.
use vstd::prelude::*;

verus! {

/// Position of pixel `(x, y)` in a row-major buffer whose rows are `width`
/// pixels long, origin at the top left.
pub open spec fn linear_index(x: int, y: int, width: int) -> int {
    y * width + x
}

proof fn lemma_index_in_bounds(x: int, y: int, width: int, height: int)
    requires
        0 <= x < width,
        0 <= y < height,
    ensures
        0 <= linear_index(x, y, width) < width * height,
        linear_index(x, y, width) + 1 <= (y + 1) * width,
{
    assert(y * width + x < width * height) by (nonlinear_arith)
        requires
            0 <= x < width,
            0 <= y < height,
    ;
    assert(0 <= y * width) by (nonlinear_arith)
        requires
            0 <= y,
            0 <= width,
    ;
    assert((y + 1) * width == y * width + width) by (nonlinear_arith);
}

/// Buffer index of pixel `(x, y)` of a `width` × `height` image.
pub fn pixel_index(x: u32, y: u32, width: u32, height: u32) -> (r: usize)
    requires
        x < width,
        y < height,
        width as int * height as int <= usize::MAX,
    ensures
        r == linear_index(x as int, y as int, width as int),
        r < width as int * height as int,
{
    proof {
        lemma_index_in_bounds(x as int, y as int, width as int, height as int);
    }
    y as usize * width as usize + x as usize
}

/// Renders a `width` × `height` image by asking `shade_pixel` for the
/// intensity of each pixel and storing it at that pixel's row-major index.
pub fn render<F: Fn(u32, u32) -> u8>(width: u32, height: u32, shade_pixel: F) -> (r: Vec<u8>)
    requires
        width as int * height as int <= usize::MAX,
        forall|x: u32, y: u32| x < width && y < height ==> shade_pixel.requires((x, y)),
    ensures
        r.len() == width as int * height as int,
        forall|x: u32, y: u32|
            x < width && y < height ==> shade_pixel.ensures(
                (x, y),
                #[trigger] r@[linear_index(x as int, y as int, width as int)],
            ),
{
    let mut pixels: Vec<u8> = Vec::new();
    let mut y: u32 = 0;
    while y < height
        invariant
            y <= height,
            width as int * height as int <= usize::MAX,
            forall|x: u32, y: u32| x < width && y < height ==> shade_pixel.requires((x, y)),
            pixels.len() == y as int * width as int,
            forall|px: u32, py: u32|
                px < width && py < y ==> shade_pixel.ensures(
                    (px, py),
                    #[trigger] pixels@[linear_index(px as int, py as int, width as int)],
                ),
        decreases height - y,
    {
        let mut x: u32 = 0;
        while x < width
            invariant
                x <= width,
                y < height,
                width as int * height as int <= usize::MAX,
                forall|x: u32, y: u32| x < width && y < height ==> shade_pixel.requires((x, y)),
                pixels.len() == y as int * width as int + x,
                forall|px: u32, py: u32|
                    px < width && py < y ==> shade_pixel.ensures(
                        (px, py),
                        #[trigger] pixels@[linear_index(px as int, py as int, width as int)],
                    ),
                forall|px: u32|
                    px < x ==> shade_pixel.ensures(
                        (px, y),
                        #[trigger] pixels@[linear_index(px as int, y as int, width as int)],
                    ),
            decreases width - x,
        {
            proof {
                lemma_index_in_bounds(x as int, y as int, width as int, height as int);
            }
            let v = shade_pixel(x, y);
            let ghost before = pixels@;
            pixels.push(v);
            assert forall|px: u32, py: u32|
                px < width && py < y implies shade_pixel.ensures(
                    (px, py),
                    #[trigger] pixels@[linear_index(px as int, py as int, width as int)],
                ) by {
                lemma_index_in_bounds(px as int, py as int, width as int, y as int);
                assert(pixels@[linear_index(px as int, py as int, width as int)]
                    == before[linear_index(px as int, py as int, width as int)]);
            }
            x += 1;
        }
        proof {
            assert((y as int + 1) * width as int == y as int * width as int + width as int)
                by (nonlinear_arith);
            assert forall|px: u32, py: u32|
                px < width && py < y + 1 implies shade_pixel.ensures(
                    (px, py),
                    #[trigger] pixels@[linear_index(px as int, py as int, width as int)],
                ) by {
                if py == y {
                    assert(px < x);
                }
            }
        }
        y += 1;
    }
    assert(y as int * width as int == width as int * height as int) by (nonlinear_arith)
        requires
            y == height,
    ;
    pixels
}

} // verus!
