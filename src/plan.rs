use vstd::prelude::*;

verus! {

/// Image height for a given floored `width / aspect_ratio`: never below one row.
pub open spec fn derived_height_spec(floored: int) -> int {
    if floored < 1 {
        1
    } else {
        floored
    }
}

/// The image height used for rendering, from the floored quotient of the image
/// width by the aspect ratio.
pub fn derived_height(floored: i32) -> (r: u32)
    ensures
        r as int == derived_height_spec(floored as int),
        r >= 1,
{
    if floored < 1 {
        1
    } else {
        floored as u32
    }
}

/// What checking the render parameters gives: the first parameter out of
/// range names the error, else the plan with the derived height.
pub open spec fn plan_spec(image_width: int, floored_height: int, samples_per_pixel: int, max_depth: int) -> Result<RenderPlan, ConfigError> {
    if image_width < 1 {
        Err(ConfigError::NonPositiveWidth)
    } else if samples_per_pixel < 1 {
        Err(ConfigError::NonPositiveSamples)
    } else if max_depth < 0 {
        Err(ConfigError::NegativeDepth)
    } else {
        Ok(
            RenderPlan {
                image_width: image_width as u32,
                image_height: derived_height_spec(floored_height) as u32,
                samples_per_pixel: samples_per_pixel as u32,
                max_depth: max_depth as u32,
            },
        )
    }
}

/// Why a set of render parameters was refused before any work began.
#[derive(Debug, Clone, Copy, PartialEq, Eq, Structural)]
pub enum ConfigError {
    /// The image width is zero or negative.
    NonPositiveWidth,
    /// The number of samples per pixel is zero or negative.
    NonPositiveSamples,
    /// The bounce budget is negative.
    NegativeDepth,
}

/// Integer geometry of one render: image size, samples per pixel and the
/// bounce budget of each camera ray.
#[derive(Debug, Clone, Copy, PartialEq, Eq, Structural)]
pub struct RenderPlan {
    pub image_width: u32,
    pub image_height: u32,
    pub samples_per_pixel: u32,
    pub max_depth: u32,
}

impl RenderPlan {
    /// Every dimension is at least one and fits the parameters' `i32` range.
    pub open spec fn wf(&self) -> bool {
        &&& 1 <= self.image_width <= i32::MAX
        &&& 1 <= self.image_height <= i32::MAX
        &&& 1 <= self.samples_per_pixel <= i32::MAX
        &&& self.max_depth <= i32::MAX
    }

    /// Number of pixels of the image.
    pub open spec fn count(&self) -> nat {
        (self.image_width * self.image_height) as nat
    }

    /// Column and row of the pixel at `index` in raster order
    /// (row by row from the top, each row from the left).
    pub open spec fn pixel_spec(&self, index: int) -> (int, int) {
        (index % (self.image_width as int), index / (self.image_width as int))
    }

    /// Position of the pixel at column `i` and row `j` in raster order.
    pub open spec fn index_spec(&self, i: int, j: int) -> int {
        j * self.image_width + i
    }

    /// Checks the render parameters and derives the image height from the
    /// floored quotient of the width by the aspect ratio.
    pub fn new(image_width: i32, floored_height: i32, samples_per_pixel: i32, max_depth: i32) -> (r:
        Result<RenderPlan, ConfigError>)
        ensures
            r == plan_spec(image_width as int, floored_height as int, samples_per_pixel as int, max_depth as int),
            r matches Ok(p) ==> p.wf(),
    {
        if image_width < 1 {
            return Err(ConfigError::NonPositiveWidth);
        }
        if samples_per_pixel < 1 {
            return Err(ConfigError::NonPositiveSamples);
        }
        if max_depth < 0 {
            return Err(ConfigError::NegativeDepth);
        }
        Ok(
            RenderPlan {
                image_width: image_width as u32,
                image_height: derived_height(floored_height),
                samples_per_pixel: samples_per_pixel as u32,
                max_depth: max_depth as u32,
            },
        )
    }

    /// Number of pixels, which is the number of colour triples a render emits.
    pub fn pixel_count(&self) -> (r: u64)
        requires
            self.wf(),
        ensures
            r == self.count(),
    {
        proof {
            lemma_count_fits(self.image_width as int, self.image_height as int);
        }
        self.image_width as u64 * self.image_height as u64
    }

    /// Column and row of the pixel emitted at position `index`.
    pub fn pixel_at(&self, index: u64) -> (r: (u32, u32))
        requires
            self.wf(),
            index < self.count(),
        ensures
            (r.0 as int, r.1 as int) == self.pixel_spec(index as int),
            r.0 < self.image_width,
            r.1 < self.image_height,
    {
        let w = self.image_width as u64;
        let i = index % w;
        let j = index / w;
        proof {
            lemma_row_in_range(index as int, self.image_width as int, self.image_height as int);
        }
        (i as u32, j as u32)
    }

    /// Position in raster order of the pixel at column `i` and row `j`.
    pub fn pixel_index(&self, i: u32, j: u32) -> (r: u64)
        requires
            self.wf(),
            i < self.image_width,
            j < self.image_height,
        ensures
            r == self.index_spec(i as int, j as int),
            r < self.count(),
    {
        proof {
            lemma_count_fits(self.image_width as int, self.image_height as int);
            lemma_index_in_range(i as int, j as int, self.image_width as int, self.image_height as int);
        }
        j as u64 * self.image_width as u64 + i as u64
    }
}

/// Raster order is a one-to-one walk of the image: the position of a pixel's
/// column and row gives back that pixel, and each index is found again from
/// its own column and row.
pub proof fn lemma_raster_round_trip(plan: RenderPlan, index: int, i: int, j: int)
    requires
        plan.wf(),
        0 <= index < plan.count(),
        0 <= i < plan.image_width,
        0 <= j < plan.image_height,
    ensures
        plan.index_spec(plan.pixel_spec(index).0, plan.pixel_spec(index).1) == index,
        plan.pixel_spec(plan.index_spec(i, j)) == (i, j),
{
    let w = plan.image_width as int;
    vstd::arithmetic::div_mod::lemma_fundamental_div_mod(index, w);
    vstd::arithmetic::mul::lemma_mul_is_commutative(w, index / w);
    vstd::arithmetic::div_mod::lemma_fundamental_div_mod_converse(j * w + i, w, j, i);
}

/// Pixels come row by row from the top, and within a row from the left: an
/// earlier index is on an earlier row, or on the same row further left.
pub proof fn lemma_raster_order(plan: RenderPlan, a: int, b: int)
    requires
        plan.wf(),
        0 <= a < b < plan.count(),
    ensures
        plan.pixel_spec(a).1 < plan.pixel_spec(b).1 || (plan.pixel_spec(a).1 == plan.pixel_spec(b).1
            && plan.pixel_spec(a).0 < plan.pixel_spec(b).0),
{
    let w = plan.image_width as int;
    vstd::arithmetic::div_mod::lemma_div_is_ordered(a, b, w);
    vstd::arithmetic::div_mod::lemma_fundamental_div_mod(a, w);
    vstd::arithmetic::div_mod::lemma_fundamental_div_mod(b, w);
}

proof fn lemma_count_fits(w: int, h: int)
    requires
        0 <= w <= i32::MAX,
        0 <= h <= i32::MAX,
    ensures
        0 <= w * h <= i32::MAX * i32::MAX,
{
    assert(0 <= w * h <= i32::MAX * i32::MAX) by (nonlinear_arith)
        requires
            0 <= w <= i32::MAX,
            0 <= h <= i32::MAX,
    ;
}

proof fn lemma_row_in_range(index: int, w: int, h: int)
    requires
        w >= 1,
        h >= 1,
        0 <= index < w * h,
    ensures
        0 <= index / w < h,
{
    assert(0 <= index / w < h) by (nonlinear_arith)
        requires
            w >= 1,
            h >= 1,
            0 <= index < w * h,
    ;
}

proof fn lemma_index_in_range(i: int, j: int, w: int, h: int)
    requires
        0 <= i < w,
        0 <= j < h,
    ensures
        0 <= j * w + i < w * h,
{
    assert(0 <= j * w + i < w * h) by (nonlinear_arith)
        requires
            0 <= i < w,
            0 <= j < h,
    ;
}

} // verus!
