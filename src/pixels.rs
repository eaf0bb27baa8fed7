use vstd::prelude::*;

verus! {

/// A raw pixel value: red, green, blue.
pub type Raw = (u8, u8, u8);

/// The number of bytes of a buffer of `width` by `height` pixels.
pub open spec fn buffer_len(width: int, height: int) -> int {
    width * height * 3
}

/// A buffer of `width` by `height` pixels with every byte zero.
pub open spec fn blank(width: int, height: int) -> Seq<u8> {
    Seq::new(buffer_len(width, height) as nat, |i: int| 0u8)
}

/// Where the three bytes of the pixel at storage coordinate `(x, y)` start.
pub open spec fn offset(x: int, y: int, width: int) -> int {
    (y * width + x) * 3
}

pub open spec fn in_bounds(x: int, y: int, width: int, height: int) -> bool {
    0 <= x < width && 0 <= y < height
}

/// The value stored for the pixel at storage coordinate `(x, y)`.
pub open spec fn pixel_at(s: Seq<u8>, x: int, y: int, width: int) -> Raw {
    let o = offset(x, y, width);
    (s[o], s[o + 1], s[o + 2])
}

/// The buffer `s` after writing `c` at `(x, y)`: the pixel's three bytes are
/// replaced when `(x, y)` lies inside the buffer, and nothing changes otherwise.
pub open spec fn with_pixel(s: Seq<u8>, x: int, y: int, width: int, height: int, c: Raw) -> Seq<u8> {
    if in_bounds(x, y, width, height) {
        let o = offset(x, y, width);
        s.update(o, c.0).update(o + 1, c.1).update(o + 2, c.2)
    } else {
        s
    }
}

proof fn lemma_offset_bound(x: int, y: int, width: int, height: int)
    requires
        in_bounds(x, y, width, height),
    ensures
        0 <= y * width <= y * width + x,
        0 <= offset(x, y, width),
        offset(x, y, width) + 3 <= buffer_len(width, height),
{
    assert(0 <= y * width) by (nonlinear_arith)
        requires
            0 <= y,
            0 <= width,
    ;
    assert(y * width + x + 1 <= width * height) by (nonlinear_arith)
        requires
            0 <= x < width,
            0 <= y < height,
    ;
}

proof fn lemma_offsets_apart(x: int, y: int, x2: int, y2: int, width: int)
    requires
        0 <= x < width,
        0 <= x2 < width,
        0 <= y,
        0 <= y2,
        x != x2 || y != y2,
    ensures
        offset(x, y, width) + 3 <= offset(x2, y2, width) || offset(x2, y2, width) + 3 <= offset(
            x,
            y,
            width,
        ),
{
    if y < y2 {
        assert(y * width + x < y2 * width + x2) by (nonlinear_arith)
            requires
                0 <= x < width,
                0 <= x2,
                y < y2,
        ;
    } else if y2 < y {
        assert(y2 * width + x2 < y * width + x) by (nonlinear_arith)
            requires
                0 <= x2 < width,
                0 <= x,
                y2 < y,
        ;
    }
}

/// Writing a pixel sets that pixel and leaves every other pixel of the buffer as it was.
pub proof fn lemma_with_pixel(s: Seq<u8>, x: int, y: int, width: int, height: int, c: Raw)
    requires
        s.len() == buffer_len(width, height),
        in_bounds(x, y, width, height),
    ensures
        with_pixel(s, x, y, width, height, c).len() == s.len(),
        forall|x2: int, y2: int|
            #![trigger pixel_at(with_pixel(s, x, y, width, height, c), x2, y2, width)]
            in_bounds(x2, y2, width, height) ==> pixel_at(
                with_pixel(s, x, y, width, height, c),
                x2,
                y2,
                width,
            ) == if x2 == x && y2 == y {
                c
            } else {
                pixel_at(s, x2, y2, width)
            },
{
    lemma_offset_bound(x, y, width, height);
    assert forall|x2: int, y2: int| in_bounds(x2, y2, width, height) implies pixel_at(
        with_pixel(s, x, y, width, height, c),
        x2,
        y2,
        width,
    ) == if x2 == x && y2 == y {
        c
    } else {
        pixel_at(s, x2, y2, width)
    } by {
        lemma_offset_bound(x2, y2, width, height);
        if x2 != x || y2 != y {
            lemma_offsets_apart(x, y, x2, y2, width);
        }
    }
}

/// A blank buffer has one zero byte per channel of each pixel, so every pixel
/// reads as black.
pub proof fn lemma_blank(width: int, height: int)
    requires
        0 <= width,
        0 <= height,
    ensures
        blank(width, height).len() == buffer_len(width, height),
        forall|i: int| 0 <= i < blank(width, height).len() ==> blank(width, height)[i] == 0u8,
        forall|x: int, y: int|
            #![trigger pixel_at(blank(width, height), x, y, width)]
            in_bounds(x, y, width, height) ==> pixel_at(blank(width, height), x, y, width) == (
                0u8,
                0u8,
                0u8,
            ),
{
    lemma_len_parts(width, height);
    assert forall|x: int, y: int| in_bounds(x, y, width, height) implies #[trigger] pixel_at(
        blank(width, height),
        x,
        y,
        width,
    ) == (0u8, 0u8, 0u8) by {
        lemma_offset_bound(x, y, width, height);
    }
}

/// Writes `colour` at storage coordinate `(x, y)`; a coordinate outside the
/// buffer leaves it unchanged.
pub fn set_pixel(pixels: &mut Vec<u8>, x: usize, y: usize, width: usize, height: usize, colour: Raw)
    requires
        x < width && y < height ==> old(pixels)@.len() >= buffer_len(width as int, height as int),
    ensures
        final(pixels)@ == with_pixel(old(pixels)@, x as int, y as int, width as int, height as int, colour),
{
    if x >= width || y >= height {
        return ;
    }
    // The buffer's length is a usize, and the pixel lies inside it, so the
    // offset arithmetic below cannot overflow.
    let len = pixels.len();
    proof {
        lemma_offset_bound(x as int, y as int, width as int, height as int);
        assert(buffer_len(width as int, height as int) <= len);
    }
    let pixel_offset = (y * width + x) * 3;
    pixels.set(pixel_offset, colour.0);
    pixels.set(pixel_offset + 1, colour.1);
    pixels.set(pixel_offset + 2, colour.2);
}

/// A buffer of `width` by `height` pixels with every byte zero.
pub fn empty_pixels(width: usize, height: usize) -> (r: Vec<u8>)
    requires
        buffer_len(width as int, height as int) <= usize::MAX,
    ensures
        r@ == blank(width as int, height as int),
{
    proof {
        lemma_len_parts(width as int, height as int);
    }
    let r = vec![0u8; width * height * 3];
    assert(r@ =~= blank(width as int, height as int));
    r
}

proof fn lemma_len_parts(width: int, height: int)
    requires
        0 <= width,
        0 <= height,
    ensures
        0 <= width * height <= buffer_len(width, height),
{
    assert(0 <= width * height) by (nonlinear_arith)
        requires
            0 <= width,
            0 <= height,
    ;
}

/// A buffer of `width` by `height` pixels with every pixel set to `colour`.
pub fn clear_pixels(width: usize, height: usize, colour: Raw) -> (r: Vec<u8>)
    requires
        buffer_len(width as int, height as int) <= usize::MAX,
    ensures
        r@.len() == buffer_len(width as int, height as int),
        forall|x: int, y: int|
            #![trigger pixel_at(r@, x, y, width as int)]
            in_bounds(x, y, width as int, height as int) ==> pixel_at(r@, x, y, width as int)
                == colour,
{
    let mut pixels = empty_pixels(width, height);
    for x in 0..width
        invariant
            pixels@.len() == buffer_len(width as int, height as int),
            forall|x2: int, y2: int|
                #![trigger pixel_at(pixels@, x2, y2, width as int)]
                in_bounds(x2, y2, width as int, height as int) && x2 < x ==> pixel_at(
                    pixels@,
                    x2,
                    y2,
                    width as int,
                ) == colour,
    {
        for y in 0..height
            invariant
                0 <= x < width,
                pixels@.len() == buffer_len(width as int, height as int),
                forall|x2: int, y2: int|
                    #![trigger pixel_at(pixels@, x2, y2, width as int)]
                    in_bounds(x2, y2, width as int, height as int) && (x2 < x || (x2 == x && y2
                        < y)) ==> pixel_at(pixels@, x2, y2, width as int) == colour,
        {
            proof {
                lemma_with_pixel(pixels@, x as int, y as int, width as int, height as int, colour);
            }
            set_pixel(&mut pixels, x, y, width, height, colour);
        }
    }
    pixels
}

} // verus!
