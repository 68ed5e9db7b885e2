use crate::error::ChipError;
use vstd::prelude::*;

verus! {

/// A rectangle in display coordinates.
#[derive(Debug, Clone, Copy, PartialEq, Eq, Structural)]
pub struct Rect {
    pub x: i32,
    pub y: i32,
    pub w: u32,
    pub h: u32,
}

/// The unit square at `(x, y)`.
pub open spec fn pixel(x: int, y: int) -> Rect {
    Rect { x: x as i32, y: y as i32, w: 1, h: 1 }
}

/// Bit `k` of `b`, counting from the most significant bit (`k == 0`).
pub open spec fn bit_at(b: u8, k: u8) -> bool {
    (b >> ((7 - k) as u8)) & 1u8 == 1u8
}

/// The unit squares for the set bits among the first `n` bits of a sprite row `b`
/// drawn at `(x, y)`, left to right.
pub open spec fn row_rects(b: u8, x: int, y: int, n: nat) -> Seq<Rect>
    decreases n,
{
    if n == 0 {
        seq![]
    } else {
        let before = row_rects(b, x, y, (n - 1) as nat);
        if bit_at(b, (n - 1) as u8) {
            before.push(pixel(x + n - 1, y))
        } else {
            before
        }
    }
}

/// The unit squares of a sprite with rows `bytes` drawn at `(x, y)`: row by row from
/// the top, each row left to right.
pub open spec fn sprite_rects(bytes: Seq<u8>, x: int, y: int) -> Seq<Rect>
    decreases bytes.len(),
{
    if bytes.len() == 0 {
        seq![]
    } else {
        sprite_rects(bytes.drop_last(), x, y) + row_rects(bytes.last(), x, y + bytes.len() - 1, 8)
    }
}

/// What a sprite is: its rows and its origin.
pub struct SpriteView {
    pub bytes: Seq<u8>,
    pub x: u8,
    pub y: u8,
}

/// A sprite placed on the display: up to fifteen rows of eight pixels, with its origin
/// and its vertical extent.
pub struct Sprite {
    raw_bytes: Vec<u8>,
    x: u8,
    y: u8,
    y_max: u16,
}

impl View for Sprite {
    type V = SpriteView;

    closed spec fn view(&self) -> SpriteView {
        SpriteView { bytes: self.raw_bytes@, x: self.x, y: self.y }
    }
}

impl Sprite {
    /// At most fifteen rows, and the extent is the origin's row plus the height.
    pub closed spec fn wf(&self) -> bool {
        self.raw_bytes@.len() <= 15 && self.y_max == self.y + self.raw_bytes@.len()
    }

    /// The unit squares that this sprite covers.
    pub open spec fn rects(&self) -> Seq<Rect> {
        sprite_rects(self@.bytes, self@.x as int, self@.y as int)
    }

    /// Builds the sprite with rows `buff` at `(x, y)`; fails on more than fifteen rows.
    pub fn new(buff: Vec<u8>, x: u8, y: u8) -> (r: Result<Sprite, ChipError>)
        ensures
            buff@.len() > 15 ==> r == Err::<Sprite, ChipError>(ChipError::InvalidSpriteSize),
            buff@.len() <= 15 ==> (r matches Ok(s) && s.wf() && s@ == (SpriteView { bytes: buff@, x, y })),
    {
        if buff.len() > 15 {
            return Err(ChipError::InvalidSpriteSize);
        }
        let y_max: u16 = y as u16 + buff.len() as u16;
        Ok(Sprite { raw_bytes: buff, x, y, y_max })
    }

    /// The row below the sprite's last row.
    pub fn y_max(&self) -> (r: u16)
        requires
            self.wf(),
        ensures
            r == self@.y + self@.bytes.len(),
    {
        self.y_max
    }

    /// One unit square for each set bit, most significant bit leftmost, rows from the
    /// top.
    pub fn into_rects(&self) -> (r: Vec<Rect>)
        requires
            self.wf(),
        ensures
            r@ == self.rects(),
    {
        let x_start: i32 = self.x as i32;
        let y_start: i32 = self.y as i32;
        let mut rects: Vec<Rect> = Vec::new();
        let len = self.raw_bytes.len();
        let mut row: usize = 0;
        while row < len
            invariant
                len == self.raw_bytes@.len(),
                len <= 15,
                row <= len,
                x_start == self.x,
                y_start == self.y,
                rects@ == sprite_rects(self.raw_bytes@.subrange(0, row as int), x_start as int, y_start as int),
            decreases len - row,
        {
            let byte = self.raw_bytes[row];
            let y: i32 = y_start + row as i32;
            let mut k: u8 = 0;
            while k < 8
                invariant
                    k <= 8,
                    x_start == self.x,
                    0 <= y <= 255 + 15,
                    rects@ == sprite_rects(self.raw_bytes@.subrange(0, row as int), x_start as int, y_start as int)
                        + row_rects(byte, x_start as int, y as int, k as nat),
                decreases 8 - k,
            {
                if (byte >> (7 - k)) & 1u8 == 1u8 {
                    rects.push(Rect { x: x_start + k as i32, y, w: 1, h: 1 });
                }
                k += 1;
            }
            proof {
                let next = self.raw_bytes@.subrange(0, row + 1);
                assert(next.drop_last() =~= self.raw_bytes@.subrange(0, row as int));
                assert(next.last() == byte);
            }
            row += 1;
        }
        proof {
            assert(self.raw_bytes@.subrange(0, len as int) =~= self.raw_bytes@);
        }
        rects
    }
}

/// What the host applies after a step.
pub enum DirectiveView {
    Draw(Seq<Rect>),
    ClearScreen,
    NoOp,
}

/// The display directive that a step hands to the host.
pub enum SDLDo {
    /// Paint these unit squares.
    Draw(Vec<Rect>),
    /// Clear the surface.
    ClearScreen,
    /// Nothing to paint.
    NoOp,
}

impl View for SDLDo {
    type V = DirectiveView;

    open spec fn view(&self) -> DirectiveView {
        match self {
            SDLDo::Draw(v) => DirectiveView::Draw(v@),
            SDLDo::ClearScreen => DirectiveView::ClearScreen,
            SDLDo::NoOp => DirectiveView::NoOp,
        }
    }
}

} // verus!
