//! The order of work of the render loop: every pixel in row-major order, top
//! row first and each row left to right, and for each pixel its samples, then
//! the emission of the averaged pixel.
use vstd::prelude::*;
use vstd::arithmetic::div_mod::lemma_fundamental_div_mod_converse;
use crate::settings::RenderSettings;

verus! {

/// What the render loop does next.
#[derive(Debug, Clone, Copy, PartialEq, Eq, Structural)]
pub enum RenderStep {
    /// Trace one more jittered sample through pixel column `i`, row `j`.
    Sample { i: i32, j: i32 },
    /// All samples of pixel column `i`, row `j` are in: average and emit it.
    Emit { i: i32, j: i32 },
    /// Every pixel has been emitted.
    Finished,
}

/// The `n`-th step (from 0) of rendering a `width` by `height` image with
/// `samples` samples per pixel: each pixel takes `samples` sample steps and
/// one emit step, and pixel `p` of the row-major order is column
/// `p % width` of row `p / width`.
pub open spec fn step_at(width: int, height: int, samples: int, n: int) -> RenderStep {
    let p = n / (samples + 1);
    let k = n % (samples + 1);
    if p >= width * height {
        RenderStep::Finished
    } else if k < samples {
        RenderStep::Sample { i: (p % width) as i32, j: (p / width) as i32 }
    } else {
        RenderStep::Emit { i: (p % width) as i32, j: (p / width) as i32 }
    }
}

/// Where the render loop stands: at column `i` of row `j`, with `taken`
/// samples of that pixel done.
pub struct RenderCursor {
    width: i32,
    height: i32,
    samples: i32,
    i: i32,
    j: i32,
    taken: i32,
}

impl RenderCursor {
    /// The image width, in pixels.
    pub closed spec fn spec_width(&self) -> int {
        self.width as int
    }

    /// The image height, in pixels.
    pub closed spec fn spec_height(&self) -> int {
        self.height as int
    }

    /// The number of samples per pixel.
    pub closed spec fn spec_samples(&self) -> int {
        self.samples as int
    }

    /// The number of steps other than `Finished` handed out so far.
    pub closed spec fn position(&self) -> int {
        (self.j * self.width + self.i) * (self.samples + 1) + self.taken
    }

    /// The dimensions are positive and the cursor stands inside the image,
    /// or just past its last row once every pixel is emitted.
    pub closed spec fn wf(&self) -> bool {
        &&& 0 < self.width
        &&& 0 < self.height
        &&& 0 < self.samples
        &&& 0 <= self.i < self.width
        &&& 0 <= self.j <= self.height
        &&& 0 <= self.taken <= self.samples
        &&& self.j == self.height ==> self.i == 0 && self.taken == 0
    }

    /// A cursor before the first step of rendering with `settings`.
    pub fn new(settings: &RenderSettings) -> (r: RenderCursor)
        requires
            settings.is_valid(),
        ensures
            r.wf(),
            r.spec_width() == settings.image_width,
            r.spec_height() == settings.image_height,
            r.spec_samples() == settings.samples_per_pixel,
            r.position() == 0,
    {
        let r = RenderCursor {
            width: settings.image_width,
            height: settings.image_height,
            samples: settings.samples_per_pixel,
            i: 0,
            j: 0,
            taken: 0,
        };
        assert(r.position() == 0) by (nonlinear_arith)
            requires
                r.position() == (0 * r.width + 0) * (r.samples + 1) + 0,
        ;
        r
    }

    /// Hands out the step at the current position and moves past it; once
    /// every pixel is emitted it stays at `Finished`.
    pub fn next_step(&mut self) -> (r: RenderStep)
        requires
            old(self).wf(),
        ensures
            final(self).wf(),
            final(self).spec_width() == old(self).spec_width(),
            final(self).spec_height() == old(self).spec_height(),
            final(self).spec_samples() == old(self).spec_samples(),
            r == step_at(
                old(self).spec_width(),
                old(self).spec_height(),
                old(self).spec_samples(),
                old(self).position(),
            ),
            final(self).position() == if r is Finished {
                old(self).position()
            } else {
                old(self).position() + 1
            },
    {
        let ghost w = self.width as int;
        let ghost h = self.height as int;
        let ghost per = self.samples + 1;
        let ghost p = self.j * w + self.i;
        proof {
            lemma_fundamental_div_mod_converse(self.position(), per as int, p, self.taken as int);
        }
        if self.j >= self.height {
            assert(p == w * h) by (nonlinear_arith)
                requires
                    p == self.j * w + self.i,
                    self.j == h,
                    self.i == 0,
            ;
            return RenderStep::Finished;
        }
        proof {
            lemma_fundamental_div_mod_converse(p, w, self.j as int, self.i as int);
            assert(p < w * h) by (nonlinear_arith)
                requires
                    p == self.j * w + self.i,
                    0 <= self.j < h,
                    0 <= self.i < w,
            ;
        }
        if self.taken < self.samples {
            self.taken = self.taken + 1;
            RenderStep::Sample { i: self.i, j: self.j }
        } else {
            let step = RenderStep::Emit { i: self.i, j: self.j };
            let ghost before = self.position();
            if self.i + 1 < self.width {
                self.i = self.i + 1;
            } else {
                self.i = 0;
                self.j = self.j + 1;
                assert(self.j * w + self.i == p + 1) by (nonlinear_arith)
                    requires
                        p == (self.j - 1) * w + (w - 1),
                        self.i == 0,
                ;
            }
            self.taken = 0;
            assert(self.position() == before + 1) by (nonlinear_arith)
                requires
                    before == p * per + per - 1,
                    self.position() == (self.j * w + self.i) * per,
                    self.j * w + self.i == p + 1,
            ;
            step
        }
    }
}

} // verus!
