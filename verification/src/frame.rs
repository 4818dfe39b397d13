use vstd::prelude::*;

use crate::pixel::Px;
use crate::pixel::px_opaque;

verus! {

/// A `width` x `height` grid of pixels stored row-major: the pixel of
/// column `x` and row `y` sits at index `y * width + x`.
///
/// The engine uses this one shape for decoded input frames, for the
/// persistent canvas, and for produced output frames.
#[derive(Debug)]
pub struct Frame {
    pub width: usize,
    pub height: usize,
    pub pixels: Vec<Px>,
}

/// True when the two frames have the same dimensions.
pub open spec fn same_dims(a: Frame, b: Frame) -> bool {
    a.width == b.width && a.height == b.height
}

/// True when every pixel of the frame is fully opaque.
pub open spec fn frame_opaque(f: Frame) -> bool {
    forall|i: int| 0 <= i < f.pixels@.len() ==> px_opaque(#[trigger] f.pixels@[i])
}

/// A row-major grid index stays inside the pixel store.
pub proof fn lemma_grid_index(w: int, h: int, x: int, y: int)
    by (nonlinear_arith)
    requires
        0 <= x < w,
        0 <= y < h,
    ensures
        0 <= y * w + x < w * h,
{
}

impl Frame {
    /// Well-formed: the pixel store holds exactly one entry per grid cell.
    pub open spec fn wf(self) -> bool {
        self.pixels@.len() == self.width * self.height
    }

    /// The pixel of column `x` and row `y`.
    pub open spec fn at(self, x: int, y: int) -> Px {
        self.pixels@[y * self.width + x]
    }

    /// A frame of the given dimensions with every pixel set to `fill`;
    /// `None` only when the pixel count cannot be addressed.
    pub fn filled(width: usize, height: usize, fill: Px) -> (r: Option<Frame>)
        ensures
            match r {
                Some(f) => {
                    &&& f.wf()
                    &&& f.width == width
                    &&& f.height == height
                    &&& forall|i: int| 0 <= i < f.pixels@.len() ==> f.pixels@[i] == fill
                },
                None => width * height > usize::MAX,
            },
    {
        match width.checked_mul(height) {
            None => None,
            Some(n) => {
                let mut pixels: Vec<Px> = Vec::new();
                let mut i: usize = 0;
                while i < n
                    invariant
                        i <= n,
                        pixels@.len() == i,
                        forall|j: int| 0 <= j < i ==> pixels@[j] == fill,
                    decreases n - i,
                {
                    pixels.push(fill);
                    i = i + 1;
                }
                Some(Frame { width, height, pixels })
            },
        }
    }

    /// A frame over an existing row-major pixel store; `None` exactly when
    /// the store does not hold one entry per grid cell.
    pub fn from_pixels(width: usize, height: usize, pixels: Vec<Px>) -> (r: Option<Frame>)
        ensures
            match r {
                Some(f) => {
                    &&& f.wf()
                    &&& f.width == width
                    &&& f.height == height
                    &&& f.pixels@ == pixels@
                },
                None => pixels@.len() != width * height,
            },
    {
        let stored: usize = pixels.len();
        match width.checked_mul(height) {
            None => None,
            Some(n) => {
                if stored == n {
                    Some(Frame { width, height, pixels })
                } else {
                    None
                }
            },
        }
    }

    /// The pixel of column `x` and row `y`.
    pub fn get_pixel(&self, x: usize, y: usize) -> (p: Px)
        requires
            self.wf(),
            x < self.width,
            y < self.height,
        ensures
            p == self.at(x as int, y as int),
    {
        let stored: usize = self.pixels.len();
        proof {
            lemma_grid_index(self.width as int, self.height as int, x as int, y as int);
            assert(y * self.width + x < stored);
        }
        self.pixels[y * self.width + x]
    }

    /// An exact copy of the frame.
    pub fn duplicate(&self) -> (r: Frame)
        ensures
            r.width == self.width,
            r.height == self.height,
            r.pixels@ == self.pixels@,
    {
        let mut pixels: Vec<Px> = Vec::new();
        let n: usize = self.pixels.len();
        let mut i: usize = 0;
        while i < n
            invariant
                i <= n,
                n == self.pixels@.len(),
                pixels@.len() == i,
                forall|j: int| 0 <= j < i ==> pixels@[j] == self.pixels@[j],
            decreases n - i,
        {
            pixels.push(self.pixels[i]);
            i = i + 1;
        }
        assert(pixels@ =~= self.pixels@);
        Frame { width: self.width, height: self.height, pixels }
    }
}

} // verus!
