//! The whole-number side of taking in a photo: which way up it is stored,
//! how large its copies are, and how it is turned upright.

use vstd::prelude::*;

verus! {

/// The widest that a stored photo is.
pub const LARGE_WIDTH: u32 = 2560;

/// The width of a thumbnail.
pub const THUMB_WIDTH: u32 = 160;

/// The orientation of a photo, counted from 0, for the value of its EXIF
/// orientation tag, which counts from 1; a photo without the tag is upright.
pub open spec fn orientation_of_tag(tag: Option<u32>) -> u32 {
    match tag {
        Some(v) => if v >= 1 {
            (v - 1) as u32
        } else {
            0u32
        },
        None => 0u32,
    }
}

/// The orientation of a photo, counted from 0, for the value of its EXIF
/// orientation tag.
pub fn orientation_index(tag: Option<u32>) -> (o: u32)
    ensures
        o == orientation_of_tag(tag),
{
    match tag {
        Some(v) => if v >= 1 {
            v - 1
        } else {
            0
        },
        None => 0,
    }
}

/// The height that goes with the width `nwidth` for a picture of `width` by
/// `height`: the picture keeps its shape, and the height is rounded down. A
/// height beyond the largest number of 32 bits is that number.
pub open spec fn scaled(nwidth: u32, width: u32, height: u32) -> int {
    if nwidth * height / (width as int) > u32::MAX {
        u32::MAX as int
    } else {
        nwidth * height / (width as int)
    }
}

/// The height that goes with the width `nwidth` for a picture of `width` by
/// `height`.
pub fn scaled_height(nwidth: u32, width: u32, height: u32) -> (nheight: u32)
    requires
        width > 0,
    ensures
        nheight == scaled(nwidth, width, height),
{
    assert(nwidth * height <= 0xFFFF_FFFF * 0xFFFF_FFFF) by (nonlinear_arith)
        requires
            nwidth <= 0xFFFF_FFFF,
            height <= 0xFFFF_FFFF,
    ;
    let product: u64 = (nwidth as u64) * (height as u64);
    let quotient: u64 = product / (width as u64);
    if quotient > 0xFFFF_FFFF {
        0xFFFF_FFFF
    } else {
        quotient as u32
    }
}

/// The size at which a photo of `width` by `height` is stored: its own, or,
/// where it is wider than `LARGE_WIDTH`, that width with the height that goes
/// with it.
pub fn large_size(width: u32, height: u32) -> (size: (u32, u32))
    requires
        width > 0,
    ensures
        size == (if width > LARGE_WIDTH {
            (LARGE_WIDTH, scaled(LARGE_WIDTH, width, height) as u32)
        } else {
            (width, height)
        }),
{
    if width > LARGE_WIDTH {
        (LARGE_WIDTH, scaled_height(LARGE_WIDTH, width, height))
    } else {
        (width, height)
    }
}

/// The size of the thumbnail of a picture of `width` by `height`.
pub fn thumb_size(width: u32, height: u32) -> (size: (u32, u32))
    requires
        width > 0,
    ensures
        size == (THUMB_WIDTH, scaled(THUMB_WIDTH, width, height) as u32),
{
    (THUMB_WIDTH, scaled_height(THUMB_WIDTH, width, height))
}

/// A colour as one number: red, green and blue, eight bits each, red on top.
pub fn pack_color(red: u8, green: u8, blue: u8) -> (color: i32)
    ensures
        color == red * 65536 + green * 256 + blue,
        0 <= color <= 0xFF_FFFF,
{
    (red as i32) * 65536 + (green as i32) * 256 + (blue as i32)
}

/// A picture in three bytes a point, red, green and blue, row after row from
/// the top.
#[derive(Clone, Debug, PartialEq, Eq)]
pub struct Picture {
    pub width: u32,
    pub height: u32,
    pub pixels: Vec<u8>,
}

impl Picture {
    /// Whether the picture holds three bytes for each of its points.
    pub open spec fn well_formed(self) -> bool {
        self.pixels@.len() == 3 * (self.width * self.height)
    }
}

/// Whether an orientation swaps the axes.
pub open spec fn transposed(orientation: u32) -> bool {
    (orientation / 4) % 2 == 1
}

/// Whether an orientation turns the picture by half a turn.
pub open spec fn turned(orientation: u32) -> bool {
    (orientation / 2) % 2 == 1
}

/// Whether an orientation mirrors the picture from left to right.
pub open spec fn mirrored(orientation: u32) -> bool {
    orientation % 2 == 1
}

/// How a picture is turned upright: whether its axes are swapped, and
/// whether its columns and its rows are then counted from the far end.
pub struct Turn {
    pub swap: bool,
    pub flip_x: bool,
    pub flip_y: bool,
}

/// How a picture of the given orientation is turned upright. A half turn
/// flips both ways, and mirroring flips the columns once more.
pub open spec fn turn_of(orientation: u32) -> Turn {
    Turn {
        swap: transposed(orientation),
        flip_x: turned(orientation) != mirrored(orientation),
        flip_y: turned(orientation),
    }
}

/// The width of a picture of `width` by `height` once it is upright.
pub open spec fn upright_width(width: int, height: int, turn: Turn) -> int {
    if turn.swap {
        height
    } else {
        width
    }
}

/// The height of a picture of `width` by `height` once it is upright.
pub open spec fn upright_height(width: int, height: int, turn: Turn) -> int {
    if turn.swap {
        width
    } else {
        height
    }
}

/// The column at which the point (`x`, `y`) of a stored picture stands once
/// the picture is upright.
pub open spec fn upright_x(x: int, y: int, width: int, height: int, turn: Turn) -> int {
    let p = if turn.swap {
        y
    } else {
        x
    };
    if turn.flip_x {
        upright_width(width, height, turn) - 1 - p
    } else {
        p
    }
}

/// The row at which the point (`x`, `y`) of a stored picture stands once the
/// picture is upright.
pub open spec fn upright_y(x: int, y: int, width: int, height: int, turn: Turn) -> int {
    let q = if turn.swap {
        x
    } else {
        y
    };
    if turn.flip_y {
        upright_height(width, height, turn) - 1 - q
    } else {
        q
    }
}

/// Where the three bytes of the point (`x`, `y`) begin in a picture that is
/// `width` points wide.
pub open spec fn offset(x: int, y: int, width: int) -> int {
    3 * (y * width + x)
}

/// Where the three bytes of the point (`x`, `y`) of a stored picture begin in
/// the upright picture.
pub open spec fn upright_offset(x: int, y: int, width: int, height: int, turn: Turn) -> int {
    offset(
        upright_x(x, y, width, height, turn),
        upright_y(x, y, width, height, turn),
        upright_width(width, height, turn),
    )
}

/// Whether the three bytes of `a` from `i` on are those of `b` from `j` on.
pub open spec fn same_point(a: Seq<u8>, i: int, b: Seq<u8>, j: int) -> bool {
    a[i] == b[j] && a[i + 1] == b[j + 1] && a[i + 2] == b[j + 2]
}

/// Whether `upright` is `stored` turned upright: it has the size of the
/// upright picture, and the three bytes of each point of `stored` stand at
/// the point's upright place.
pub open spec fn is_upright(stored: Picture, orientation: u32, upright: Picture) -> bool {
    let w = stored.width as int;
    let h = stored.height as int;
    let turn = turn_of(orientation);
    &&& upright.width == upright_width(w, h, turn)
    &&& upright.height == upright_height(w, h, turn)
    &&& upright.well_formed()
    &&& forall|x: int, y: int|
        0 <= x < w && 0 <= y < h ==> same_point(
            upright.pixels@,
            #[trigger] upright_offset(x, y, w, h, turn),
            stored.pixels@,
            offset(x, y, w),
        )
}

/// A point of a picture has its own three bytes, within the picture's bytes.
pub proof fn lemma_offset(x: int, y: int, width: int, height: int)
    by (nonlinear_arith)
    requires
        0 <= x < width,
        0 <= y < height,
    ensures
        0 <= 3 * (y * width + x),
        3 * (y * width + x) + 3 <= 3 * (width * height),
{
}

/// Two points of a picture of which the bytes begin at one place are one
/// point.
pub proof fn lemma_offset_unique(x: int, y: int, x2: int, y2: int, width: int)
    by (nonlinear_arith)
    requires
        0 <= x < width,
        0 <= x2 < width,
        3 * (y * width + x) == 3 * (y2 * width + x2),
    ensures
        x == x2,
        y == y2,
{
}

/// A picture has as many points upright as stored.
pub proof fn lemma_upright_size(width: int, height: int, turn: Turn)
    by (nonlinear_arith)
    ensures
        upright_width(width, height, turn) * upright_height(width, height, turn) == width * height,
{
}

/// Each point of a stored picture has a place of its own in the upright
/// picture: the place is within the picture, and no other point shares it.
pub proof fn lemma_upright_place(x: int, y: int, x2: int, y2: int, width: int, height: int, turn: Turn)
    requires
        0 <= x < width,
        0 <= y < height,
        0 <= x2 < width,
        0 <= y2 < height,
    ensures
        0 <= upright_offset(x, y, width, height, turn),
        upright_offset(x, y, width, height, turn) + 3 <= 3 * (width * height),
        upright_offset(x, y, width, height, turn) == upright_offset(x2, y2, width, height, turn)
            ==> x == x2 && y == y2,
{
    let nw = upright_width(width, height, turn);
    let nh = upright_height(width, height, turn);
    let ux = upright_x(x, y, width, height, turn);
    let uy = upright_y(x, y, width, height, turn);
    let ux2 = upright_x(x2, y2, width, height, turn);
    let uy2 = upright_y(x2, y2, width, height, turn);
    lemma_upright_size(width, height, turn);
    lemma_offset(ux, uy, nw, nh);
    if upright_offset(x, y, width, height, turn) == upright_offset(x2, y2, width, height, turn) {
        lemma_offset_unique(ux, uy, ux2, uy2, nw);
    }
}

/// Writes the three bytes of the point (`x`, `y`) of a stored picture to
/// their upright place.
fn place(out: &mut Vec<u8>, pixels: &Vec<u8>, x: usize, y: usize, w: usize, h: usize, turn: Ghost<Turn>, swap: bool, flip_x: bool, flip_y: bool)
    requires
        x < w,
        y < h,
        pixels@.len() == 3 * (w * h),
        old(out)@.len() == 3 * (w * h),
        turn@ == (Turn { swap, flip_x, flip_y }),
    ensures
        final(out)@.len() == old(out)@.len(),
        same_point(
            final(out)@,
            upright_offset(x as int, y as int, w as int, h as int, turn@),
            pixels@,
            offset(x as int, y as int, w as int),
        ),
        forall|i: int|
            0 <= i < old(out)@.len() && !(upright_offset(
                x as int,
                y as int,
                w as int,
                h as int,
                turn@,
            ) <= i < upright_offset(x as int, y as int, w as int, h as int, turn@) + 3)
                ==> final(out)@[i] == old(out)@[i],
{
    let nw: usize = if swap {
        h
    } else {
        w
    };
    let nh: usize = if swap {
        w
    } else {
        h
    };
    let p: usize = if swap {
        y
    } else {
        x
    };
    let q: usize = if swap {
        x
    } else {
        y
    };
    let nx: usize = if flip_x {
        nw - 1 - p
    } else {
        p
    };
    let ny: usize = if flip_y {
        nh - 1 - q
    } else {
        q
    };
    proof {
        lemma_offset(x as int, y as int, w as int, h as int);
        lemma_upright_place(x as int, y as int, x as int, y as int, w as int, h as int, turn@);
        lemma_upright_size(w as int, h as int, turn@);
        lemma_offset(nx as int, ny as int, nw as int, nh as int);
        assert(nx * nw >= 0 && ny * nw >= 0) by (nonlinear_arith)
            requires
                nx >= 0,
                ny >= 0,
                nw >= 0,
        ;
        assert(y * w >= 0) by (nonlinear_arith)
            requires
                y >= 0,
                w >= 0,
        ;
    }
    let len: usize = pixels.len();
    assert(3 * (y * w + x) + 3 <= len && 3 * (ny * nw + nx) + 3 <= len);
    let src: usize = 3 * (y * w + x);
    let dst: usize = 3 * (ny * nw + nx);
    assert(dst == upright_offset(x as int, y as int, w as int, h as int, turn@));
    let b0 = pixels[src];
    let b1 = pixels[src + 1];
    let b2 = pixels[src + 2];
    out.set(dst, b0);
    out.set(dst + 1, b1);
    out.set(dst + 2, b2);
}

/// Turns a stored picture upright. The orientation counts from 0; of it only
/// the three low bits count: the first mirrors, the second turns by half a
/// turn, the third swaps the axes.
pub fn transform_by_orientation(img: Picture, orientation: u32) -> (r: Picture)
    requires
        img.well_formed(),
    ensures
        is_upright(img, orientation, r),
{
    let swap = orientation & 4 != 0;
    let turn_half = orientation & 2 != 0;
    let mirror = orientation & 1 != 0;
    assert(swap == transposed(orientation) && turn_half == turned(orientation) && mirror
        == mirrored(orientation)) by (bit_vector)
        requires
            swap == (orientation & 4 != 0),
            turn_half == (orientation & 2 != 0),
            mirror == (orientation & 1 != 0),
    ;
    let flip_x = turn_half != mirror;
    let ghost turn = turn_of(orientation);
    let w: usize = img.width as usize;
    let h: usize = img.height as usize;
    let len: usize = img.pixels.len();
    let mut out: Vec<u8> = Vec::new();
    let mut k: usize = 0;
    while k < len
        invariant
            k <= len,
            out@.len() == k,
        decreases len - k,
    {
        out.push(127);
        k += 1;
    }
    let mut y: usize = 0;
    while y < h
        invariant
            y <= h,
            out@.len() == len,
            img.pixels@.len() == len,
            len == 3 * (w * h),
            turn == (Turn { swap, flip_x, flip_y: turn_half }),
            forall|x1: int, y1: int|
                0 <= x1 < w && 0 <= y1 < y ==> same_point(
                    out@,
                    #[trigger] upright_offset(x1, y1, w as int, h as int, turn),
                    img.pixels@,
                    offset(x1, y1, w as int),
                ),
        decreases h - y,
    {
        let mut x: usize = 0;
        while x < w
            invariant
                x <= w,
                y < h,
                out@.len() == len,
                img.pixels@.len() == len,
                len == 3 * (w * h),
                turn == (Turn { swap, flip_x, flip_y: turn_half }),
                forall|x1: int, y1: int|
                    0 <= x1 < w && (0 <= y1 < y || (y1 == y && x1 < x)) ==> same_point(
                        out@,
                        #[trigger] upright_offset(x1, y1, w as int, h as int, turn),
                        img.pixels@,
                        offset(x1, y1, w as int),
                    ),
            decreases w - x,
        {
            let ghost before = out@;
            place(&mut out, &img.pixels, x, y, w, h, Ghost(turn), swap, flip_x, turn_half);
            proof {
                assert forall|x1: int, y1: int|
                    0 <= x1 < w && (0 <= y1 < y || (y1 == y && x1 < x + 1)) implies same_point(
                        out@,
                        #[trigger] upright_offset(x1, y1, w as int, h as int, turn),
                        img.pixels@,
                        offset(x1, y1, w as int),
                    ) by {
                    if !(x1 == x && y1 == y) {
                        lemma_upright_place(x1, y1, x as int, y as int, w as int, h as int, turn);
                        lemma_upright_place(x as int, y as int, x1, y1, w as int, h as int, turn);
                        let at = upright_offset(x1, y1, w as int, h as int, turn);
                        let here = upright_offset(x as int, y as int, w as int, h as int, turn);
                        assert(at != here);
                        assert(at % 3 == 0 && here % 3 == 0);
                        assert(at + 3 <= here || here + 3 <= at);
                        assert(out@[at] == before[at]);
                        assert(out@[at + 1] == before[at + 1]);
                        assert(out@[at + 2] == before[at + 2]);
                        assert(same_point(before, at, img.pixels@, offset(x1, y1, w as int)));
                    }
                }
            }
            x += 1;
        }
        y += 1;
    }
    proof {
        lemma_upright_size(w as int, h as int, turn);
    }
    let nw: usize = if swap {
        h
    } else {
        w
    };
    let nh: usize = if swap {
        w
    } else {
        h
    };
    Picture { width: nw as u32, height: nh as u32, pixels: out }
}

} // verus!
