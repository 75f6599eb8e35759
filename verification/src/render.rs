//! The order of the work of a render: which step comes after which.
//!
//! A render writes a header, then for each scanline from the top a progress
//! note followed by its pixels from the left, and for each pixel its samples
//! followed by the pixel itself; then it is done. The cursor hands these
//! steps out one at a time, so that whoever traces the rays and writes the
//! output need not know the order.
use vstd::prelude::*;

verus! {

/// The size of the image and the number of samples taken for each pixel.
#[derive(Debug, Clone, Copy, PartialEq, Eq, Structural)]
pub struct Raster {
    pub width: usize,
    pub height: usize,
    pub samples: usize,
}

/// One step of a render.
#[derive(Debug, Clone, Copy, PartialEq, Eq, Structural)]
pub enum Step {
    /// Write the image header.
    Header { width: usize, height: usize },
    /// Report that `remaining` scanlines are left, the one about to start included.
    Scanline { remaining: usize },
    /// Trace one more ray through the pixel and add its colour to the pixel's sum.
    Sample { col: usize, row: usize },
    /// Write the pixel from the sum of its samples, and clear the sum.
    Pixel { col: usize, row: usize },
    /// Report that the image is complete.
    Done,
}

/// Where a render stands: at the step that is due next.
#[derive(Debug, Clone, Copy, PartialEq, Eq, Structural)]
pub enum Position {
    Start,
    Row { row: usize },
    Sample { row: usize, col: usize, sample: usize },
    Emit { row: usize, col: usize },
    End,
    Finished,
}

impl Raster {
    /// The number of steps that one pixel takes.
    pub open spec fn per_pixel(self) -> int {
        self.samples + 1
    }

    /// The number of steps that one scanline takes.
    pub open spec fn per_row(self) -> int {
        1 + self.width * self.per_pixel()
    }

    /// The number of steps of the whole render.
    pub open spec fn total(self) -> int {
        2 + self.height * self.per_row()
    }

    /// Whether the position lies inside the image.
    pub open spec fn admits(self, at: Position) -> bool {
        match at {
            Position::Row { row } => row < self.height,
            Position::Sample { row, col, sample } => row < self.height && col < self.width && sample
                < self.samples,
            Position::Emit { row, col } => row < self.height && col < self.width,
            _ => true,
        }
    }

    /// The number of steps that come before the one due at `at`.
    pub open spec fn index(self, at: Position) -> int {
        match at {
            Position::Start => 0,
            Position::Row { row } => 1 + row * self.per_row(),
            Position::Sample { row, col, sample } => 2 + row * self.per_row() + col
                * self.per_pixel() + sample,
            Position::Emit { row, col } => 2 + row * self.per_row() + col * self.per_pixel()
                + self.samples,
            Position::End => 1 + self.height * self.per_row(),
            Position::Finished => self.total(),
        }
    }

    /// The step that is due at `at`.
    pub open spec fn due(self, at: Position) -> Option<Step> {
        match at {
            Position::Start => Some(Step::Header { width: self.width, height: self.height }),
            Position::Row { row } => Some(Step::Scanline { remaining: (self.height - row) as usize }),
            Position::Sample { row, col, .. } => Some(Step::Sample { col, row }),
            Position::Emit { row, col } => Some(Step::Pixel { col, row }),
            Position::End => Some(Step::Done),
            Position::Finished => None,
        }
    }

    /// Where the pixel at `col` of `row` begins: at its first sample, or at
    /// once at its output where no samples are taken.
    pub open spec fn pixel_start(self, row: usize, col: usize) -> Position {
        if self.samples == 0 {
            Position::Emit { row, col }
        } else {
            Position::Sample { row, col, sample: 0 }
        }
    }

    /// Where the scanline `row` begins, or the end after the last one.
    pub open spec fn row_start(self, row: usize) -> Position {
        if row < self.height {
            Position::Row { row }
        } else {
            Position::End
        }
    }

    /// The position after the step due at `at`.
    pub open spec fn after(self, at: Position) -> Position {
        match at {
            Position::Start => self.row_start(0),
            Position::Row { row } => if self.width == 0 {
                self.row_start((row + 1) as usize)
            } else {
                self.pixel_start(row, 0)
            },
            Position::Sample { row, col, sample } => if sample + 1 < self.samples {
                Position::Sample { row, col, sample: (sample + 1) as usize }
            } else {
                Position::Emit { row, col }
            },
            Position::Emit { row, col } => if col + 1 < self.width {
                self.pixel_start(row, (col + 1) as usize)
            } else {
                self.row_start((row + 1) as usize)
            },
            Position::End => Position::Finished,
            Position::Finished => Position::Finished,
        }
    }
}

/// Each step leads to a position inside the image, exactly one step further
/// on; so a render takes `total()` steps, scanline by scanline from the top,
/// pixel by pixel from the left, and with every sample of a pixel before
/// its output.
pub proof fn lemma_after_advances(raster: Raster, at: Position)
    requires
        raster.admits(at),
        at != Position::Finished,
    ensures
        raster.admits(raster.after(at)),
        raster.index(raster.after(at)) == raster.index(at) + 1,
        0 <= raster.index(at) < raster.total(),
{
    let r = raster.per_row();
    let p = raster.per_pixel();
    let w = raster.width as int;
    let h = raster.height as int;
    match at {
        Position::Start => {
            assert(0 * r == 0);
        },
        Position::Row { row } => {
            assert((row + 1) * r == row * r + r) by (nonlinear_arith);
            assert(0 * p == 0);
            assert(row * r + r <= h * r) by (nonlinear_arith)
                requires
                    row + 1 <= h,
                    r >= 0,
            ;
        },
        Position::Sample { row, col, sample } => {
            assert((row + 1) * r == row * r + r) by (nonlinear_arith);
            assert((col + 1) * p == col * p + p) by (nonlinear_arith);
            assert(col * p + p <= w * p) by (nonlinear_arith)
                requires
                    col + 1 <= w,
                    p >= 0,
            ;
            assert(row * r + r <= h * r) by (nonlinear_arith)
                requires
                    row + 1 <= h,
                    r >= 0,
            ;
        },
        Position::Emit { row, col } => {
            assert((row + 1) * r == row * r + r) by (nonlinear_arith);
            assert((col + 1) * p == col * p + p) by (nonlinear_arith);
            assert(col * p + p <= w * p) by (nonlinear_arith)
                requires
                    col + 1 <= w,
                    p >= 0,
            ;
            assert(row * r + r <= h * r) by (nonlinear_arith)
                requires
                    row + 1 <= h,
                    r >= 0,
            ;
        },
        _ => {},
    }
}

/// A render in progress.
#[derive(Debug, Clone, Copy)]
pub struct Cursor {
    raster: Raster,
    at: Position,
}

impl Cursor {
    #[verifier::type_invariant]
    spec fn inside(self) -> bool {
        self.raster.admits(self.at)
    }

    pub closed spec fn spec_raster(&self) -> Raster {
        self.raster
    }

    pub closed spec fn spec_position(&self) -> Position {
        self.at
    }

    /// The number of steps handed out so far.
    pub open spec fn taken(&self) -> int {
        self.raster().index(self.position())
    }

    /// A render of `width` by `height` pixels with `samples` samples each,
    /// before its first step.
    pub fn new(width: usize, height: usize, samples: usize) -> (c: Cursor)
        ensures
            c.raster() == (Raster { width, height, samples }),
            c.position() == Position::Start,
            c.taken() == 0,
    {
        Cursor { raster: Raster { width, height, samples }, at: Position::Start }
    }

    #[verifier::when_used_as_spec(spec_raster)]
    pub fn raster(&self) -> (r: Raster)
        ensures
            r == self.raster(),
    {
        self.raster
    }

    #[verifier::when_used_as_spec(spec_position)]
    pub fn position(&self) -> (at: Position)
        ensures
            at == self.position(),
            self.raster().admits(at),
    {
        proof {
            use_type_invariant(self);
        }
        self.at
    }

    fn pixel_start(&self, row: usize, col: usize) -> (at: Position)
        ensures
            at == self.raster.pixel_start(row, col),
    {
        if self.raster.samples == 0 {
            Position::Emit { row, col }
        } else {
            Position::Sample { row, col, sample: 0 }
        }
    }

    fn row_start(&self, row: usize) -> (at: Position)
        ensures
            at == self.raster.row_start(row),
    {
        if row < self.raster.height {
            Position::Row { row }
        } else {
            Position::End
        }
    }

    /// Hands out the step that is due and moves on; `None` once the render
    /// is finished.
    pub fn next(&mut self) -> (step: Option<Step>)
        ensures
            final(self).raster() == old(self).raster(),
            step == old(self).raster().due(old(self).position()),
            final(self).position() == old(self).raster().after(old(self).position()),
            step is Some ==> final(self).taken() == old(self).taken() + 1,
            step is None <==> old(self).taken() == old(self).raster().total(),
    {
        proof {
            use_type_invariant(&*self);
            if self.at != Position::Finished {
                lemma_after_advances(self.raster, self.at);
            }
        }
        let raster = self.raster;
        let (step, at) = match self.at {
            Position::Start => (
                Some(Step::Header { width: raster.width, height: raster.height }),
                self.row_start(0),
            ),
            Position::Row { row } => (
                Some(Step::Scanline { remaining: raster.height - row }),
                if raster.width == 0 {
                    self.row_start(row + 1)
                } else {
                    self.pixel_start(row, 0)
                },
            ),
            Position::Sample { row, col, sample } => (
                Some(Step::Sample { col, row }),
                if sample + 1 < raster.samples {
                    Position::Sample { row, col, sample: sample + 1 }
                } else {
                    Position::Emit { row, col }
                },
            ),
            Position::Emit { row, col } => (
                Some(Step::Pixel { col, row }),
                if col + 1 < raster.width {
                    self.pixel_start(row, col + 1)
                } else {
                    self.row_start(row + 1)
                },
            ),
            Position::End => (Some(Step::Done), Position::Finished),
            Position::Finished => (None, Position::Finished),
        };
        self.at = at;
        step
    }
}

} // verus!
