//! The closed set of image transformations and their validity.

use vstd::prelude::*;

verus! {

/// One image transformation, as requested by a single token of a filter
/// expression. Values are validated at construction: a well-formed
/// transformation carries only dimensions the rest of the pipeline accepts.
#[derive(Debug, Clone, Copy, PartialEq, Eq, Structural)]
#[allow(inconsistent_fields)]
pub enum Transformation {
    /// Scale to the given width and height; a missing side is derived from
    /// the source so that the aspect ratio is preserved.
    Resize { height: Option<i32>, width: Option<i32> },
    /// Scale so that the source covers a `width` x `height` box, then cut a
    /// centered window of exactly that size.
    Crop { height: i32, width: i32 },
    /// Cut the absolute pixel rectangle spanned by the two corner points.
    CropCoordinates { x1: i32, y1: i32, x2: i32, y2: i32 },
    /// Rotate clockwise by 90, 180 or 270 degrees.
    Rotate { degrees: i32 },
}

impl Transformation {
    /// What the grammar guarantees of every transformation it constructs.
    pub open spec fn wf(self) -> bool {
        match self {
            Transformation::Resize { height, width } => {
                &&& (height is Some || width is Some)
                &&& (height is Some ==> height->0 > 0)
                &&& (width is Some ==> width->0 > 0)
            },
            Transformation::Crop { height, width } => height > 0 && width > 0,
            Transformation::CropCoordinates { x1, y1, x2, y2 } => {
                0 <= x1 && 0 <= y1 && 0 <= x2 && 0 <= y2
            },
            Transformation::Rotate { degrees } => {
                degrees == 90 || degrees == 180 || degrees == 270
            },
        }
    }

    /// Tests well-formedness at run time, for callers outside the library.
    pub fn is_wf(&self) -> (r: bool)
        ensures
            r == self.wf(),
    {
        match *self {
            Transformation::Resize { height, width } => {
                let h_ok = match height {
                    Some(h) => h > 0,
                    None => false,
                };
                let w_ok = match width {
                    Some(w) => w > 0,
                    None => false,
                };
                (h_ok || w_ok) && (height.is_none() || h_ok) && (width.is_none() || w_ok)
            },
            Transformation::Crop { height, width } => height > 0 && width > 0,
            Transformation::CropCoordinates { x1, y1, x2, y2 } => {
                0 <= x1 && 0 <= y1 && 0 <= x2 && 0 <= y2
            },
            Transformation::Rotate { degrees } => {
                degrees == 90 || degrees == 180 || degrees == 270
            },
        }
    }
}

/// Every transformation of a chain is well formed.
pub open spec fn chain_wf(ops: Seq<Transformation>) -> bool {
    forall|i: int| 0 <= i < ops.len() ==> #[trigger] ops[i].wf()
}

/// Pixel dimensions of an image or of a scale target.
#[derive(Debug, Clone, Copy, PartialEq, Eq, Structural)]
pub struct Size {
    pub width: i32,
    pub height: i32,
}

/// An axis-aligned pixel rectangle, by origin and extent.
#[derive(Debug, Clone, Copy, PartialEq, Eq, Structural)]
pub struct Rect {
    pub x: i32,
    pub y: i32,
    pub width: i32,
    pub height: i32,
}

/// A size an image can actually have: both extents positive.
pub open spec fn size_wf(s: Size) -> bool {
    0 < s.width && 0 < s.height
}

/// The exact pixel work one transformation asks of the image capability,
/// against an input of known dimensions.
#[derive(Debug, Clone, Copy, PartialEq, Eq, Structural)]
pub enum OpPlan {
    /// Scale the image to exactly this size.
    Scale { size: Size },
    /// Scale to `size`, then cut the window `rect` out of the result.
    ScaleThenCut { size: Size, rect: Rect },
    /// Cut the window `rect` out of the image as it is.
    Cut { rect: Rect },
    /// Transpose the image first when asked, then mirror it: a positive flip
    /// code mirrors horizontally, zero vertically, a negative one both ways.
    Orient { transpose: bool, flip_code: i32 },
}

/// Height after scaling to `width` with the aspect ratio kept, rounded down.
pub open spec fn scaled_height(given: Size, width: int) -> int {
    width * (given.height as int) / (given.width as int)
}

/// Width after scaling to `height` with the aspect ratio kept, rounded down.
pub open spec fn scaled_width(given: Size, height: int) -> int {
    height * (given.width as int) / (given.height as int)
}

/// The size reached by scaling to `width`, unless the derived height leaves
/// the pixel range.
pub open spec fn size_for_width(given: Size, width: i32) -> Option<Size> {
    if scaled_height(given, width as int) <= i32::MAX {
        Some(Size { width, height: scaled_height(given, width as int) as i32 })
    } else {
        None
    }
}

/// The size reached by scaling to `height`, unless the derived width leaves
/// the pixel range.
pub open spec fn size_for_height(given: Size, height: i32) -> Option<Size> {
    if scaled_width(given, height as int) <= i32::MAX {
        Some(Size { width: scaled_width(given, height as int) as i32, height })
    } else {
        None
    }
}

/// Half the distance between a target extent and the extent the scale
/// produced: the margin that centers the cut window.
pub open spec fn centered_offset(target: int, actual: int) -> int {
    (vstd::math::abs(target - actual) / 2) as int
}

/// The cut window of a covering crop: the side the scale matched starts at
/// zero, the other is centered.
pub open spec fn crop_plan_spec(given: Size, width: i32, height: i32) -> Option<OpPlan> {
    if width * given.height > given.width * height {
        match size_for_width(given, width) {
            Some(resized) => Some(
                OpPlan::ScaleThenCut {
                    size: resized,
                    rect: Rect {
                        x: 0,
                        y: centered_offset(height as int, resized.height as int) as i32,
                        width,
                        height,
                    },
                },
            ),
            None => None,
        }
    } else {
        match size_for_height(given, height) {
            Some(resized) => Some(
                OpPlan::ScaleThenCut {
                    size: resized,
                    rect: Rect {
                        x: centered_offset(width as int, resized.width as int) as i32,
                        y: 0,
                        width,
                        height,
                    },
                },
            ),
            None => None,
        }
    }
}

/// The rectangle spanned by two corner points: the first point is the origin
/// and the extents are absolute differences, so reversed corners still give a
/// positive-area window.
pub open spec fn crop_coordinates_rect_spec(x1: i32, y1: i32, x2: i32, y2: i32) -> Rect {
    Rect {
        x: x1,
        y: y1,
        width: vstd::math::abs(x2 as int - x1 as int) as i32,
        height: vstd::math::abs(y2 as int - y1 as int) as i32,
    }
}

/// The pixel work one transformation asks for, against an input of the given
/// dimensions; `None` when a derived extent leaves the pixel range.
pub open spec fn plan_operation_spec(op: Transformation, given: Size) -> Option<OpPlan> {
    match op {
        Transformation::Resize { height: h, width: w } => match (w, h) {
            (Some(wv), Some(hv)) => Some(OpPlan::Scale { size: Size { width: wv, height: hv } }),
            (Some(wv), None) => match size_for_width(given, wv) {
                Some(s) => Some(OpPlan::Scale { size: s }),
                None => None,
            },
            (None, Some(hv)) => match size_for_height(given, hv) {
                Some(s) => Some(OpPlan::Scale { size: s }),
                None => None,
            },
            (None, None) => None,
        },
        Transformation::Rotate { degrees } => if degrees == 90 {
            Some(OpPlan::Orient { transpose: true, flip_code: 1 })
        } else if degrees == 180 {
            Some(OpPlan::Orient { transpose: false, flip_code: -1i32 })
        } else if degrees == 270 {
            Some(OpPlan::Orient { transpose: true, flip_code: 0 })
        } else {
            None
        },
        Transformation::Crop { height, width } => crop_plan_spec(given, width, height),
        Transformation::CropCoordinates { x1, y1, x2, y2 } => Some(
            OpPlan::Cut { rect: crop_coordinates_rect_spec(x1, y1, x2, y2) },
        ),
    }
}

/// The dimensions an image has after one plan step.
pub open spec fn plan_output_size(plan: OpPlan, given: Size) -> Size {
    match plan {
        OpPlan::Scale { size } => size,
        OpPlan::ScaleThenCut { rect, .. } => Size { width: rect.width, height: rect.height },
        OpPlan::Cut { rect } => Size { width: rect.width, height: rect.height },
        OpPlan::Orient { transpose, .. } => if transpose {
            Size { width: given.height, height: given.width }
        } else {
            given
        },
    }
}

/// Scales to the requested width, deriving the height so that the aspect
/// ratio is preserved.
pub fn relative_resize_width(given: Size, width: i32) -> (r: Option<Size>)
    requires
        size_wf(given),
        width > 0,
    ensures
        r == size_for_width(given, width),
{
    proof {
        assert((width as int) * (given.height as int) < 0x8000_0000 * 0x8000_0000)
            by (nonlinear_arith)
            requires
                0 < width < 0x8000_0000,
                0 < given.height < 0x8000_0000,
        ;
    }
    let h = (width as u64) * (given.height as u64) / (given.width as u64);
    if h <= i32::MAX as u64 {
        Some(Size { width, height: h as i32 })
    } else {
        None
    }
}

/// Scales to the requested height, deriving the width so that the aspect
/// ratio is preserved.
pub fn relative_resize_height(given: Size, height: i32) -> (r: Option<Size>)
    requires
        size_wf(given),
        height > 0,
    ensures
        r == size_for_height(given, height),
{
    proof {
        assert((height as int) * (given.width as int) < 0x8000_0000 * 0x8000_0000)
            by (nonlinear_arith)
            requires
                0 < height < 0x8000_0000,
                0 < given.width < 0x8000_0000,
        ;
    }
    let w = (height as u64) * (given.width as u64) / (given.height as u64);
    if w <= i32::MAX as u64 {
        Some(Size { width: w as i32, height })
    } else {
        None
    }
}

/// Plans a covering crop: scale so that the target box is covered, then cut a
/// centered window of exactly the requested extent.
pub fn crop_plan(given: Size, width: i32, height: i32) -> (r: Option<OpPlan>)
    requires
        size_wf(given),
        width > 0,
        height > 0,
    ensures
        r == crop_plan_spec(given, width, height),
{
    proof {
        assert((width as int) * (given.height as int) < 0x8000_0000 * 0x8000_0000
            && (given.width as int) * (height as int) < 0x8000_0000 * 0x8000_0000)
            by (nonlinear_arith)
            requires
                0 < width < 0x8000_0000,
                0 < height < 0x8000_0000,
                0 < given.width < 0x8000_0000,
                0 < given.height < 0x8000_0000,
        ;
    }
    let wide = (width as u64) * (given.height as u64) > (given.width as u64) * (height as u64);
    if wide {
        match relative_resize_width(given, width) {
            Some(resized) => {
                let diff = if height >= resized.height {
                    height - resized.height
                } else {
                    resized.height - height
                };
                let off = ((diff as u32) / 2) as i32;
                Some(
                    OpPlan::ScaleThenCut {
                        size: resized,
                        rect: Rect { x: 0, y: off, width, height },
                    },
                )
            },
            None => None,
        }
    } else {
        match relative_resize_height(given, height) {
            Some(resized) => {
                let diff = if width >= resized.width {
                    width - resized.width
                } else {
                    resized.width - width
                };
                let off = ((diff as u32) / 2) as i32;
                Some(
                    OpPlan::ScaleThenCut {
                        size: resized,
                        rect: Rect { x: off, y: 0, width, height },
                    },
                )
            },
            None => None,
        }
    }
}

/// The rectangle spanned by two corner points, extents taken as absolute
/// differences.
pub fn crop_coordinates_rect(x1: i32, y1: i32, x2: i32, y2: i32) -> (r: Rect)
    requires
        0 <= x1,
        0 <= y1,
        0 <= x2,
        0 <= y2,
    ensures
        r == crop_coordinates_rect_spec(x1, y1, x2, y2),
        r.x == x1 && r.y == y1,
        r.width as int == vstd::math::abs(x2 as int - x1 as int),
        r.height as int == vstd::math::abs(y2 as int - y1 as int),
{
    let w = if x2 >= x1 {
        x2 - x1
    } else {
        x1 - x2
    };
    let h = if y2 >= y1 {
        y2 - y1
    } else {
        y1 - y2
    };
    Rect { x: x1, y: y1, width: w, height: h }
}

/// The pixel work one transformation asks for against the given input
/// dimensions.
pub fn plan_operation(op: &Transformation, given: Size) -> (r: Option<OpPlan>)
    requires
        op.wf(),
        size_wf(given),
    ensures
        r == plan_operation_spec(*op, given),
{
    match *op {
        Transformation::Resize { height, width } => match (width, height) {
            (Some(w), Some(h)) => Some(OpPlan::Scale { size: Size { width: w, height: h } }),
            (Some(w), None) => match relative_resize_width(given, w) {
                Some(s) => Some(OpPlan::Scale { size: s }),
                None => None,
            },
            (None, Some(h)) => match relative_resize_height(given, h) {
                Some(s) => Some(OpPlan::Scale { size: s }),
                None => None,
            },
            (None, None) => None,
        },
        Transformation::Rotate { degrees } => {
            if degrees == 90 {
                Some(OpPlan::Orient { transpose: true, flip_code: 1 })
            } else if degrees == 180 {
                Some(OpPlan::Orient { transpose: false, flip_code: -1 })
            } else {
                Some(OpPlan::Orient { transpose: true, flip_code: 0 })
            }
        },
        Transformation::Crop { height, width } => crop_plan(given, width, height),
        Transformation::CropCoordinates { x1, y1, x2, y2 } => Some(
            OpPlan::Cut { rect: crop_coordinates_rect(x1, y1, x2, y2) },
        ),
    }
}

/// The dimensions an image has after one plan step.
pub fn plan_output_size_of(plan: &OpPlan, given: Size) -> (r: Size)
    ensures
        r == plan_output_size(*plan, given),
{
    match *plan {
        OpPlan::Scale { size } => size,
        OpPlan::ScaleThenCut { rect, .. } => Size { width: rect.width, height: rect.height },
        OpPlan::Cut { rect } => Size { width: rect.width, height: rect.height },
        OpPlan::Orient { transpose, .. } => if transpose {
            Size { width: given.height, height: given.width }
        } else {
            given
        },
    }
}

/// The pixel work of a whole chain, each step against the dimensions the
/// previous step leaves behind; `None` as soon as a step cannot be planned or
/// an intermediate image degenerates to an empty extent.
pub open spec fn plan_chain_spec(ops: Seq<Transformation>, given: Size) -> Option<Seq<OpPlan>>
    decreases ops.len(),
{
    if ops.len() == 0 {
        Some(Seq::empty())
    } else if !size_wf(given) {
        None
    } else {
        match plan_operation_spec(ops[0], given) {
            Some(p) => match plan_chain_spec(
                ops.subrange(1, ops.len() as int),
                plan_output_size(p, given),
            ) {
                Some(rest) => Some(seq![p] + rest),
                None => None,
            },
            None => None,
        }
    }
}

/// Plans a whole chain against an image of the given dimensions: the pixel
/// work of each transformation, in chain order, each step against the
/// dimensions the previous one leaves behind.
pub fn plan_operations(operations: &Vec<Transformation>, given: Size) -> (r: Option<Vec<OpPlan>>)
    requires
        chain_wf(operations@),
        size_wf(given),
    ensures
        match r {
            Some(plans) => plan_chain_spec(operations@, given) == Some(plans@),
            None => plan_chain_spec(operations@, given) is None,
        },
{
    let n = operations.len();
    let mut plans: Vec<OpPlan> = Vec::new();
    let mut cur = given;
    let mut i: usize = 0;
    proof {
        assert(operations@.subrange(0, n as int) =~= operations@);
        match plan_chain_spec(operations@, given) {
            Some(rest) => {
                assert(plans@ + rest =~= rest);
            },
            None => {},
        }
    }
    while i < n
        invariant
            i <= n,
            n == operations@.len(),
            chain_wf(operations@),
            plans@.len() == i,
            plan_chain_spec(operations@, given) == (match plan_chain_spec(
                operations@.subrange(i as int, n as int),
                cur,
            ) {
                Some(rest) => Some(plans@ + rest),
                None => None::<Seq<OpPlan>>,
            }),
        decreases n - i,
    {
        let ghost suffix = operations@.subrange(i as int, n as int);
        proof {
            assert(suffix[0] == operations@[i as int]);
            assert(suffix.subrange(1, suffix.len() as int) =~= operations@.subrange(
                i + 1 as int,
                n as int,
            ));
        }
        if cur.width <= 0 || cur.height <= 0 {
            return None;
        }
        match plan_operation(&operations[i], cur) {
            Some(p) => {
                let next = plan_output_size_of(&p, cur);
                plans.push(p);
                proof {
                    match plan_chain_spec(operations@.subrange(i + 1 as int, n as int), next) {
                        Some(rest) => {
                            assert(plans@ + rest =~= plans@.drop_last() + (seq![p] + rest));
                        },
                        None => {},
                    }
                }
                cur = next;
                i = i + 1;
            },
            None => {
                return None;
            },
        }
    }
    proof {
        assert(operations@.subrange(n as int, n as int) =~= Seq::<Transformation>::empty());
        assert(plans@ + Seq::<OpPlan>::empty() =~= plans@);
    }
    Some(plans)
}

} // verus!
