//! Video frames as rows of RGBA pixels, and the slide and wipe
//! transitions between two frames.

use vstd::prelude::*;

verus! {

/// One pixel: red, green, blue and alpha channels.
#[derive(Debug, Clone, Copy, PartialEq, Eq, Structural)]
pub struct Rgba {
    pub r: u8,
    pub g: u8,
    pub b: u8,
    pub a: u8,
}

/// A frame of `width` x `height` pixels, stored row by row from the top.
#[derive(Debug)]
pub struct Frame {
    pub width: u32,
    pub height: u32,
    pub rows: Vec<Vec<Rgba>>,
}

impl Frame {
    /// `height` rows of `width` pixels each.
    pub open spec fn wf(&self) -> bool {
        &&& self.rows@.len() == self.height
        &&& forall|y: int| 0 <= y < self.height ==> #[trigger] self.rows@[y]@.len() == self.width
    }

    /// The pixel in column `x` of row `y`.
    pub open spec fn px(&self, x: int, y: int) -> Rgba {
        self.rows@[y]@[x]
    }
}

/// The direction in which the old frame slides out.
#[derive(Debug, Clone, Copy, PartialEq, Eq, Structural)]
pub enum SlideDirection {
    Left,
    Right,
    Up,
    Down,
}

/// The pixel at (`x`, `y`) while `from` slides out in direction `dir` by
/// `o` pixels: the part of `from` still in view, else the part of `to`
/// that slides in behind it.
pub open spec fn slide_pixel(dir: SlideDirection, from: &Frame, to: &Frame, o: int, x: int, y: int) -> Rgba {
    let w = from.width as int;
    let h = from.height as int;
    match dir {
        SlideDirection::Left => if x + o < w {
            from.px(x + o, y)
        } else {
            to.px(x + o - w, y)
        },
        SlideDirection::Right => if x - o >= 0 {
            from.px(x - o, y)
        } else {
            to.px(x - o + w, y)
        },
        SlideDirection::Up => if y + o < h {
            from.px(x, y + o)
        } else {
            to.px(x, y + o - h)
        },
        SlideDirection::Down => if y - o >= 0 {
            from.px(x, y - o)
        } else {
            to.px(x, y - o + h)
        },
    }
}

/// The slide can be drawn: every pixel it reads lies inside `from` or
/// `to`, and positions stay within 32-bit signed range.
pub open spec fn slide_defined(dir: SlideDirection, from: &Frame, to: &Frame, o: int) -> bool {
    let w = from.width as int;
    let h = from.height as int;
    &&& w <= i32::MAX
    &&& h <= i32::MAX
    &&& (w == 0 || h == 0 || match dir {
        SlideDirection::Left => o >= 0 && w - 1 + o <= i32::MAX && (o == 0 || (o <= to.width
            && h <= to.height)),
        SlideDirection::Right => o == 0 || (0 < o <= w && w <= to.width && h <= to.height),
        SlideDirection::Up => o >= 0 && h - 1 + o <= i32::MAX && (o == 0 || (o <= to.height
            && w <= to.width)),
        SlideDirection::Down => o == 0 || (0 < o <= h && h <= to.height && w <= to.width),
    })
}

/// Whether a slide by `offset` in direction `dir` reads only pixels that
/// lie inside the two frames, so that `blend_slide` may be called.
pub fn slide_fits(dir: SlideDirection, from: &Frame, to: &Frame, offset: i32) -> (r: bool)
    ensures
        r == slide_defined(dir, from, to, offset as int),
{
    let w = from.width as u64;
    let h = from.height as u64;
    let tw = to.width as u64;
    let th = to.height as u64;
    let max: u64 = 0x7fff_ffff;
    if w > max || h > max {
        return false;
    }
    if w == 0 || h == 0 {
        return true;
    }
    if offset == 0 {
        return match dir {
            SlideDirection::Left => w - 1 <= max,
            SlideDirection::Up => h - 1 <= max,
            _ => true,
        };
    }
    if offset < 0 {
        return false;
    }
    let o = offset as u64;
    match dir {
        SlideDirection::Left => w - 1 + o <= max && o <= tw && h <= th,
        SlideDirection::Right => o <= w && w <= tw && h <= th,
        SlideDirection::Up => h - 1 + o <= max && o <= th && w <= tw,
        SlideDirection::Down => o <= h && h <= th && w <= tw,
    }
}

/// The frame of a slide transition: `from` moved `offset` pixels in
/// direction `dir`, with `to` filling the uncovered part. The result has
/// the size of `from`.
pub fn blend_slide(from: &Frame, to: &Frame, dir: SlideDirection, offset: i32) -> (out: Frame)
    requires
        from.wf(),
        to.wf(),
        slide_defined(dir, from, to, offset as int),
    ensures
        out.wf(),
        out.width == from.width,
        out.height == from.height,
        forall|x: int, y: int|
            0 <= x < out.width && 0 <= y < out.height ==> #[trigger] out.px(x, y) == slide_pixel(
                dir,
                from,
                to,
                offset as int,
                x,
                y,
            ),
{
    let w = from.width;
    let h = from.height;
    let o = offset as i64;
    let mut rows: Vec<Vec<Rgba>> = Vec::new();
    let mut y: u32 = 0;
    while y < h
        invariant
            from.wf(),
            to.wf(),
            w == from.width,
            h == from.height,
            o == offset as int,
            slide_defined(dir, from, to, o as int),
            y <= h,
            rows@.len() == y,
            forall|yy: int| 0 <= yy < y ==> #[trigger] rows@[yy]@.len() == w,
            forall|xx: int, yy: int|
                0 <= xx < w && 0 <= yy < y ==> #[trigger] rows@[yy]@[xx] == slide_pixel(
                    dir,
                    from,
                    to,
                    o as int,
                    xx,
                    yy,
                ),
        decreases h - y,
    {
        let mut row: Vec<Rgba> = Vec::new();
        let mut x: u32 = 0;
        while x < w
            invariant
                from.wf(),
                to.wf(),
                w == from.width,
                h == from.height,
                o == offset as int,
                slide_defined(dir, from, to, o as int),
                y < h,
                x <= w,
                row@.len() == x,
                forall|xx: int|
                    0 <= xx < x ==> #[trigger] row@[xx] == slide_pixel(
                        dir,
                        from,
                        to,
                        o as int,
                        xx,
                        y as int,
                    ),
            decreases w - x,
        {
            let xi = x as i64;
            let yi = y as i64;
            let wi = w as i64;
            let hi = h as i64;
            let p = match dir {
                SlideDirection::Left => {
                    let t = xi + o;
                    if t < wi {
                        from.rows[y as usize][t as usize]
                    } else {
                        to.rows[y as usize][(t - wi) as usize]
                    }
                },
                SlideDirection::Right => {
                    let t = xi - o;
                    if t >= 0 {
                        from.rows[y as usize][t as usize]
                    } else {
                        to.rows[y as usize][(t + wi) as usize]
                    }
                },
                SlideDirection::Up => {
                    let t = yi + o;
                    if t < hi {
                        from.rows[t as usize][x as usize]
                    } else {
                        to.rows[(t - hi) as usize][x as usize]
                    }
                },
                SlideDirection::Down => {
                    let t = yi - o;
                    if t >= 0 {
                        from.rows[t as usize][x as usize]
                    } else {
                        to.rows[(t + hi) as usize][x as usize]
                    }
                },
            };
            row.push(p);
            x = x + 1;
        }
        rows.push(row);
        y = y + 1;
    }
    Frame { width: w, height: h, rows }
}

/// The direction in which a wipe uncovers the new frame.
#[derive(Debug, Clone, Copy, PartialEq, Eq, Structural)]
pub enum WipeDirection {
    /// The new frame appears from the right: columns left of the boundary
    /// still show the old frame.
    Left,
    /// The new frame appears from the left: columns left of the boundary
    /// already show the new frame.
    Right,
}

/// The pixel at (`x`, `y`) of a wipe whose boundary is column `b`.
pub open spec fn wipe_pixel(dir: WipeDirection, from: &Frame, to: &Frame, b: int, x: int, y: int) -> Rgba {
    match dir {
        WipeDirection::Left => if x < b {
            from.px(x, y)
        } else {
            to.px(x, y)
        },
        WipeDirection::Right => if x < b {
            to.px(x, y)
        } else {
            from.px(x, y)
        },
    }
}

/// The wipe can be drawn: every pixel it reads from `to` lies inside it.
pub open spec fn wipe_defined(dir: WipeDirection, from: &Frame, to: &Frame, b: int) -> bool {
    let w = from.width as int;
    let h = from.height as int;
    w == 0 || h == 0 || match dir {
        WipeDirection::Left => b >= w || (w <= to.width && h <= to.height),
        WipeDirection::Right => b == 0 || ((if b < w { b } else { w }) <= to.width && h
            <= to.height),
    }
}

/// Whether a wipe at column `boundary` in direction `dir` reads only
/// pixels that lie inside the two frames, so that `blend_wipe` may be
/// called.
pub fn wipe_fits(dir: WipeDirection, from: &Frame, to: &Frame, boundary: u32) -> (r: bool)
    ensures
        r == wipe_defined(dir, from, to, boundary as int),
{
    let w = from.width;
    let h = from.height;
    if w == 0 || h == 0 {
        return true;
    }
    match dir {
        WipeDirection::Left => boundary >= w || (w <= to.width && h <= to.height),
        WipeDirection::Right => {
            let covered = if boundary < w {
                boundary
            } else {
                w
            };
            boundary == 0 || (covered <= to.width && h <= to.height)
        },
    }
}

/// The frame of a wipe transition whose boundary is column `boundary`.
/// The result has the size of `from`.
pub fn blend_wipe(from: &Frame, to: &Frame, dir: WipeDirection, boundary: u32) -> (out: Frame)
    requires
        from.wf(),
        to.wf(),
        wipe_defined(dir, from, to, boundary as int),
    ensures
        out.wf(),
        out.width == from.width,
        out.height == from.height,
        forall|x: int, y: int|
            0 <= x < out.width && 0 <= y < out.height ==> #[trigger] out.px(x, y) == wipe_pixel(
                dir,
                from,
                to,
                boundary as int,
                x,
                y,
            ),
{
    let w = from.width;
    let h = from.height;
    let mut rows: Vec<Vec<Rgba>> = Vec::new();
    let mut y: u32 = 0;
    while y < h
        invariant
            from.wf(),
            to.wf(),
            w == from.width,
            h == from.height,
            wipe_defined(dir, from, to, boundary as int),
            y <= h,
            rows@.len() == y,
            forall|yy: int| 0 <= yy < y ==> #[trigger] rows@[yy]@.len() == w,
            forall|xx: int, yy: int|
                0 <= xx < w && 0 <= yy < y ==> #[trigger] rows@[yy]@[xx] == wipe_pixel(
                    dir,
                    from,
                    to,
                    boundary as int,
                    xx,
                    yy,
                ),
        decreases h - y,
    {
        let mut row: Vec<Rgba> = Vec::new();
        let mut x: u32 = 0;
        while x < w
            invariant
                from.wf(),
                to.wf(),
                w == from.width,
                h == from.height,
                wipe_defined(dir, from, to, boundary as int),
                y < h,
                x <= w,
                row@.len() == x,
                forall|xx: int|
                    0 <= xx < x ==> #[trigger] row@[xx] == wipe_pixel(
                        dir,
                        from,
                        to,
                        boundary as int,
                        xx,
                        y as int,
                    ),
            decreases w - x,
        {
            let p = match dir {
                WipeDirection::Left => if x < boundary {
                    from.rows[y as usize][x as usize]
                } else {
                    to.rows[y as usize][x as usize]
                },
                WipeDirection::Right => if x < boundary {
                    to.rows[y as usize][x as usize]
                } else {
                    from.rows[y as usize][x as usize]
                },
            };
            row.push(p);
            x = x + 1;
        }
        rows.push(row);
        y = y + 1;
    }
    Frame { width: w, height: h, rows }
}


/// A slide that has not moved yet shows the old frame unchanged.
pub proof fn lemma_slide_at_rest_shows_old_frame(
    dir: SlideDirection,
    from: &Frame,
    to: &Frame,
    x: int,
    y: int,
)
    requires
        from.wf(),
        0 <= x < from.width,
        0 <= y < from.height,
    ensures
        slide_pixel(dir, from, to, 0, x, y) == from.px(x, y),
{
}

/// A slide moved by a whole frame (its width when sliding sideways, its
/// height when sliding up or down) shows only the new frame.
pub proof fn lemma_full_slide_shows_new_frame(
    dir: SlideDirection,
    from: &Frame,
    to: &Frame,
    x: int,
    y: int,
)
    requires
        from.wf(),
        0 <= x < from.width,
        0 <= y < from.height,
    ensures
        slide_pixel(
            dir,
            from,
            to,
            if dir == SlideDirection::Left || dir == SlideDirection::Right {
                from.width as int
            } else {
                from.height as int
            },
            x,
            y,
        ) == to.px(x, y),
{
}

/// A wipe shows the old frame before its boundary has moved (left wipe
/// at the right edge or beyond, right wipe at column 0), and the new
/// frame once it has crossed the whole frame.
pub proof fn lemma_wipe_ends(dir: WipeDirection, from: &Frame, to: &Frame, x: int, y: int)
    requires
        from.wf(),
        0 <= x < from.width,
        0 <= y < from.height,
    ensures
        wipe_pixel(
            dir,
            from,
            to,
            if dir == WipeDirection::Left { from.width as int } else { 0 },
            x,
            y,
        ) == from.px(x, y),
        wipe_pixel(
            dir,
            from,
            to,
            if dir == WipeDirection::Left { 0 } else { from.width as int },
            x,
            y,
        ) == to.px(x, y),
{
}

} // verus!
