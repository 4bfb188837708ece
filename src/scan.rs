use vstd::arithmetic::div_mod::{
    lemma_fundamental_div_mod_converse_div, lemma_fundamental_div_mod_converse_mod,
};
use vstd::prelude::*;

verus! {

/// One unit of tracing work: trace the view ray through pixel `(x, y)` and
/// write its color into every pixel of the block `[x, end_x) × [y, end_y)`,
/// or add it to the pixel already there when `accumulate` is set.
#[derive(Debug, Clone, Copy, PartialEq, Eq, Structural)]
pub struct PixelTask {
    pub x: u32,
    pub y: u32,
    pub end_x: u32,
    pub end_y: u32,
    pub accumulate: bool,
}

/// The raster scan of a progressive render pass: which pixel comes next,
/// with which parameters the pass was begun, and how many additive passes
/// have been blended into the framebuffer.
///
/// The scan runs row by row, left to right, top to bottom. A pass is in
/// progress from [`RenderScan::begin_render`] until the cursor moves past
/// the last row.
#[derive(Debug)]
pub struct RenderScan {
    pub image_width: u32,
    pub image_height: u32,
    pub cur_x: u32,
    pub cur_y: u32,
    pub max_reflections: u32,
    pub samples: i32,
    pub is_additive: bool,
    pub additive_counter: i32,
    pub in_progress: bool,
    /// Number of pixels the framebuffer holds: it only grows.
    pub framebuffer_len: usize,
}

/// `(x + y * w) % w == x` and `(x + y * w) / w == y` for `x < w`.
pub proof fn lemma_raster_position(x: int, y: int, w: int)
    requires
        0 <= x < w,
    ensures
        (x + y * w) % w == x,
        (x + y * w) / w == y,
{
    assert(x + y * w == y * w + x);
    lemma_fundamental_div_mod_converse_mod(x + y * w, w, y, x);
    lemma_fundamental_div_mod_converse_div(x + y * w, w, y, x);
}

/// A position inside a `w` by `h` raster comes before its end.
pub proof fn lemma_raster_inside(x: int, y: int, w: int, h: int)
    requires
        0 <= x < w,
        0 <= y < h,
    ensures
        x + y * w < w * h,
{
    assert(x + y * w < w * h) by (nonlinear_arith)
        requires
            0 <= x < w,
            0 <= y < h,
    ;
}

/// Two scans of one image with one sampling setup hand out the same work.
pub proof fn lemma_same_tasks(a: RenderScan, b: RenderScan, lo: int, hi: int)
    requires
        a.image_width == b.image_width,
        a.image_height == b.image_height,
        a.samples == b.samples,
        a.additive_counter == b.additive_counter,
    ensures
        a.tasks_between(lo, hi) == b.tasks_between(lo, hi),
    decreases hi - lo,
{
    if hi > lo {
        lemma_same_tasks(a, b, lo, hi - 1);
    }
}

impl RenderScan {
    /// Number of pixels in the image.
    pub open spec fn total(&self) -> int {
        self.image_width * self.image_height
    }

    /// Number of pixels the scan has passed in the current pass.
    pub open spec fn completed(&self) -> int {
        self.cur_x + self.cur_y * self.image_width
    }

    /// Side of the block that one traced pixel covers when downsampling.
    pub open spec fn block_side(&self) -> int {
        -(self.samples as int)
    }

    /// The cursor lies inside the image while a pass is in progress, and at
    /// the start of the first or of the row past the last one otherwise;
    /// the framebuffer holds every pixel.
    pub open spec fn wf(&self) -> bool {
        &&& self.total() <= self.framebuffer_len
        &&& self.total() <= u32::MAX
        &&& self.additive_counter >= 0
        &&& self.cur_y <= self.image_height
        &&& (self.in_progress ==> {
            &&& self.cur_x < self.image_width
            &&& self.cur_y < self.image_height
            &&& self.samples != 0
            &&& self.max_reflections > 0
        })
        &&& (!self.in_progress ==> self.cur_x == 0 && (self.cur_y == 0 || self.cur_y
            == self.image_height))
    }

    /// The work for pixel `(x, y)` of the current pass: with a positive
    /// sample count every pixel is traced (and supersampled) on its own; with
    /// a negative one only the pixels on a grid of spacing `|samples|` are
    /// traced, each standing for the block it starts, clipped to the image.
    pub open spec fn task_at(&self, x: int, y: int) -> Option<PixelTask> {
        if self.samples < 0 {
            let side = self.block_side();
            if x % side == 0 && y % side == 0 {
                Some(
                    PixelTask {
                        x: x as u32,
                        y: y as u32,
                        end_x: (if x + side < self.image_width {
                            x + side
                        } else {
                            self.image_width as int
                        }) as u32,
                        end_y: (if y + side < self.image_height {
                            y + side
                        } else {
                            self.image_height as int
                        }) as u32,
                        accumulate: false,
                    },
                )
            } else {
                None
            }
        } else {
            Some(
                PixelTask {
                    x: x as u32,
                    y: y as u32,
                    end_x: (x + 1) as u32,
                    end_y: (y + 1) as u32,
                    accumulate: self.additive_counter > 1,
                },
            )
        }
    }

    /// The work for the pixels at raster positions `lo` up to (not
    /// including) `hi`, in raster order.
    pub open spec fn tasks_between(&self, lo: int, hi: int) -> Seq<PixelTask>
        decreases hi - lo,
    {
        if hi <= lo {
            Seq::empty()
        } else {
            let prev = self.tasks_between(lo, hi - 1);
            let q = hi - 1;
            match self.task_at(q % self.image_width as int, q / self.image_width as int) {
                Some(t) => prev.push(t),
                None => prev,
            }
        }
    }

    /// An empty scan of an empty image, with no pass in progress.
    pub fn new() -> (r: RenderScan)
        ensures
            r.wf(),
            r.image_width == 0,
            r.image_height == 0,
            r.additive_counter == 0,
            !r.in_progress,
            r.framebuffer_len == 0,
    {
        RenderScan {
            image_width: 0,
            image_height: 0,
            cur_x: 0,
            cur_y: 0,
            max_reflections: 0,
            samples: 0,
            is_additive: false,
            additive_counter: 0,
            in_progress: false,
            framebuffer_len: 0,
        }
    }

    /// Changes the image size: stops any pass, moves the cursor to the start,
    /// forgets blended passes, and grows the framebuffer if it is too small.
    pub fn resize_image(&mut self, width: u32, height: u32)
        requires
            old(self).wf(),
            width > 0,
            height > 0,
            width * height <= u32::MAX,
        ensures
            final(self).wf(),
            final(self).image_width == width,
            final(self).image_height == height,
            final(self).additive_counter == 0,
            !final(self).in_progress,
            final(self).cur_x == 0,
            final(self).cur_y == 0,
            final(self).framebuffer_len == if width * height > old(self).framebuffer_len {
                (width * height) as usize
            } else {
                old(self).framebuffer_len
            },
            final(self).max_reflections == old(self).max_reflections,
            final(self).samples == old(self).samples,
            final(self).is_additive == old(self).is_additive,
    {
        let new_size: usize = (width as u64 * height as u64) as usize;
        if new_size > self.framebuffer_len {
            self.framebuffer_len = new_size;
        }
        self.image_width = width;
        self.image_height = height;
        self.additive_counter = 0;
        self.in_progress = false;
        self.cur_x = 0;
        self.cur_y = 0;
    }

    /// Begins a pass from the first pixel with the given reflection bound and
    /// sample count. An additive pass adds one to the count of blended passes
    /// (saturating at `i32::MAX`); any other pass resets it to zero.
    pub fn begin_render(&mut self, reflect_num: u32, sample_num: i32, additive: bool)
        requires
            old(self).wf(),
            old(self).image_width > 0,
            old(self).image_height > 0,
            reflect_num > 0,
            sample_num != 0,
        ensures
            final(self).wf(),
            final(self).in_progress,
            final(self).cur_x == 0,
            final(self).cur_y == 0,
            final(self).max_reflections == reflect_num,
            final(self).samples == sample_num,
            final(self).is_additive == additive,
            final(self).additive_counter == if !additive {
                0
            } else if old(self).additive_counter < i32::MAX {
                old(self).additive_counter + 1
            } else {
                old(self).additive_counter as int
            },
            final(self).image_width == old(self).image_width,
            final(self).image_height == old(self).image_height,
            final(self).framebuffer_len == old(self).framebuffer_len,
    {
        self.max_reflections = reflect_num;
        self.samples = sample_num;
        self.is_additive = additive;
        self.in_progress = true;
        self.cur_x = 0;
        self.cur_y = 0;
        if additive {
            if self.additive_counter < i32::MAX {
                self.additive_counter = self.additive_counter + 1;
            }
        } else {
            self.additive_counter = 0;
        }
    }

    /// Number of pixels the scan has passed in the current pass.
    pub fn completed_pixels(&self) -> (r: u64)
        requires
            self.wf(),
        ensures
            r == self.completed(),
            r <= self.total(),
    {
        proof {
            let w = self.image_width as int;
            let h = self.image_height as int;
            if self.cur_y < h && self.cur_x < w {
                lemma_raster_inside(self.cur_x as int, self.cur_y as int, w, h);
            }
            assert(self.cur_y * w <= h * w) by (nonlinear_arith)
                requires
                    self.cur_y <= h,
                    w >= 0,
            ;
        }
        self.cur_x as u64 + self.cur_y as u64 * self.image_width as u64
    }

    /// Index in the framebuffer of pixel `(x, y)`.
    pub fn pixel_index(&self, x: u32, y: u32) -> (r: usize)
        requires
            self.wf(),
            x < self.image_width,
            y < self.image_height,
        ensures
            r == x + y * self.image_width,
            r < self.total(),
            r < self.framebuffer_len,
    {
        proof {
            lemma_raster_inside(x as int, y as int, self.image_width as int, self.image_height as int);
        }
        let row: u64 = y as u64 * self.image_width as u64;
        (x as u64 + row) as usize
    }

    /// What a framebuffer pixel is divided by when read: the number of
    /// blended passes when more than one was blended, else one.
    pub fn average_divisor(&self) -> (r: i32)
        ensures
            r == if self.additive_counter > 1 {
                self.additive_counter
            } else {
                1
            },
    {
        if self.additive_counter > 1 {
            self.additive_counter
        } else {
            1
        }
    }

    /// Number of pixels in the image.
    pub fn total_pixels(&self) -> (r: u64)
        requires
            self.wf(),
        ensures
            r == self.total(),
    {
        self.image_width as u64 * self.image_height as u64
    }

    /// The work for pixel `(x, y)`.
    fn task_for(&self, x: u32, y: u32) -> (r: Option<PixelTask>)
        requires
            self.wf(),
            x < self.image_width,
            y < self.image_height,
        ensures
            r == self.task_at(x as int, y as int),
    {
        if self.samples < 0 {
            let side: u64 = (-(self.samples as i64)) as u64;
            if x as u64 % side == 0 && y as u64 % side == 0 {
                let ex: u64 = if x as u64 + side < self.image_width as u64 {
                    x as u64 + side
                } else {
                    self.image_width as u64
                };
                let ey: u64 = if y as u64 + side < self.image_height as u64 {
                    y as u64 + side
                } else {
                    self.image_height as u64
                };
                Some(PixelTask { x, y, end_x: ex as u32, end_y: ey as u32, accumulate: false })
            } else {
                None
            }
        } else {
            Some(
                PixelTask {
                    x,
                    y,
                    end_x: x + 1,
                    end_y: y + 1,
                    accumulate: self.additive_counter > 1,
                },
            )
        }
    }

    /// Moves the pass on by up to `pixels` pixels and returns the work for
    /// the pixels passed, in raster order, and whether the pass is still in
    /// progress. The pass ends (and `false` is returned) exactly on the call
    /// that passes the last pixel; progress never goes back.
    pub fn render(&mut self, pixels: u32) -> (r: (Vec<PixelTask>, bool))
        requires
            old(self).wf(),
            old(self).in_progress,
            pixels > 0,
        ensures
            final(self).wf(),
            old(self).completed() < old(self).total(),
            final(self).completed() == if old(self).completed() + pixels < old(self).total() {
                old(self).completed() + pixels
            } else {
                old(self).total()
            },
            final(self).completed() >= old(self).completed(),
            r.1 == final(self).in_progress,
            r.1 <==> final(self).completed() < final(self).total(),
            r.0@ == old(self).tasks_between(old(self).completed(), final(self).completed()),
            final(self).image_width == old(self).image_width,
            final(self).image_height == old(self).image_height,
            final(self).samples == old(self).samples,
            final(self).max_reflections == old(self).max_reflections,
            final(self).is_additive == old(self).is_additive,
            final(self).additive_counter == old(self).additive_counter,
            final(self).framebuffer_len == old(self).framebuffer_len,
    {
        let ghost start = self.completed();
        let ghost w = self.image_width as int;
        let ghost h = self.image_height as int;
        let mut tasks: Vec<PixelTask> = Vec::new();
        let mut left: u32 = pixels;
        while left > 0
            invariant_except_break
                self.in_progress,
            invariant
                self.wf(),
                self.image_width == old(self).image_width,
                self.image_height == old(self).image_height,
                self.samples == old(self).samples,
                self.max_reflections == old(self).max_reflections,
                self.is_additive == old(self).is_additive,
                self.additive_counter == old(self).additive_counter,
                self.framebuffer_len == old(self).framebuffer_len,
                w == self.image_width,
                h == self.image_height,
                start == old(self).completed(),
                left <= pixels,
                self.completed() == start + (pixels - left),
                tasks@ == old(self).tasks_between(start, self.completed()),
            ensures
                self.wf(),
                !self.in_progress ==> self.completed() == self.total(),
                self.in_progress ==> left == 0,
                self.completed() == start + (pixels - left),
                tasks@ == old(self).tasks_between(start, self.completed()),
                self.image_width == old(self).image_width,
                self.image_height == old(self).image_height,
                self.samples == old(self).samples,
                self.max_reflections == old(self).max_reflections,
                self.is_additive == old(self).is_additive,
                self.additive_counter == old(self).additive_counter,
                self.framebuffer_len == old(self).framebuffer_len,
            decreases left,
        {
            let x = self.cur_x;
            let y = self.cur_y;
            let ghost q = self.completed();
            proof {
                lemma_raster_position(x as int, y as int, w);
            }
            let task = self.task_for(x, y);
            match task {
                Some(t) => tasks.push(t),
                None => {},
            }
            assert(tasks@ == old(self).tasks_between(start, q + 1));
            left = left - 1;
            if x + 1 == self.image_width {
                self.cur_x = 0;
                self.cur_y = y + 1;
                assert(self.completed() == q + 1) by (nonlinear_arith)
                    requires
                        q == x + y * w,
                        x + 1 == w,
                        self.completed() == 0 + (y + 1) * w,
                ;
            } else {
                self.cur_x = x + 1;
            }
            if self.cur_y == self.image_height {
                self.in_progress = false;
                assert(self.completed() == self.total()) by (nonlinear_arith)
                    requires
                        self.completed() == 0 + h * w,
                        self.total() == w * h,
                ;
                break;
            }
        }
        proof {
            if self.in_progress {
                lemma_raster_inside(self.cur_x as int, self.cur_y as int, w, h);
            }
            lemma_raster_inside(old(self).cur_x as int, old(self).cur_y as int, w, h);
        }
        (tasks, self.in_progress)
    }

    /// Begins a pass and runs it to the end at once, returning the work for
    /// every pixel of the image in raster order.
    pub fn render_all(&mut self, reflect_num: u32, sample_num: i32, additive: bool) -> (r: Vec<
        PixelTask,
    >)
        requires
            old(self).wf(),
            old(self).image_width > 0,
            old(self).image_height > 0,
            reflect_num > 0,
            sample_num != 0,
        ensures
            final(self).wf(),
            !final(self).in_progress,
            final(self).completed() == final(self).total(),
            final(self).max_reflections == reflect_num,
            final(self).samples == sample_num,
            final(self).is_additive == additive,
            final(self).image_width == old(self).image_width,
            final(self).image_height == old(self).image_height,
            r@ == final(self).tasks_between(0, final(self).total()),
    {
        self.begin_render(reflect_num, sample_num, additive);
        let ghost begun = *self;
        assert(self.image_width * self.image_height >= 1) by (nonlinear_arith)
            requires
                self.image_width >= 1,
                self.image_height >= 1,
        ;
        let total: u64 = self.image_width as u64 * self.image_height as u64;
        let (tasks, _) = self.render(total as u32);
        proof {
            lemma_same_tasks(begun, *self, 0, self.total());
        }
        tasks
    }
}

} // verus!
