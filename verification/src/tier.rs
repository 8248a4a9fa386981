//! The resolution-tier selector: given the pixel dimensions of a cached
//! lower-resolution derivative, decide whether the derivative can satisfy a
//! transformation chain or whether the full-resolution original is needed.

use vstd::prelude::*;

use crate::transformation::Transformation;

verus! {

/// What one transformation says about a candidate derivative.
#[derive(Debug, Clone, Copy, PartialEq, Eq, Structural)]
pub enum TierOutcome {
    /// The candidate suffices for this transformation.
    Applicable,
    /// The candidate cannot satisfy this transformation; the original is
    /// needed.
    Insufficient,
    /// This transformation alone says nothing about resolution sufficiency.
    Neutral,
}

/// The tier outcome of one transformation against candidate dimensions.
///
/// A resize is applicable exactly when the candidate covers every requested
/// side (an absent side asks nothing); a crop is applicable when the candidate
/// covers the target box; absolute crop coordinates only make sense against
/// the original's geometry and are never satisfied by a derivative; a rotation
/// does not change resolution sufficiency.
pub open spec fn operation_outcome(op: Transformation, width: int, height: int) -> TierOutcome {
    match op {
        Transformation::Resize { height: h, width: w } => match (h, w) {
            (Some(hv), Some(wv)) => if width >= wv && height >= hv {
                TierOutcome::Applicable
            } else {
                TierOutcome::Insufficient
            },
            (Some(hv), None) => if height >= hv {
                TierOutcome::Applicable
            } else {
                TierOutcome::Insufficient
            },
            (None, Some(wv)) => if width >= wv {
                TierOutcome::Applicable
            } else {
                TierOutcome::Insufficient
            },
            (None, None) => TierOutcome::Insufficient,
        },
        Transformation::Crop { height: h, width: w } => if width >= w && height >= h {
            TierOutcome::Applicable
        } else {
            TierOutcome::Insufficient
        },
        Transformation::CropCoordinates { .. } => TierOutcome::Insufficient,
        Transformation::Rotate { .. } => TierOutcome::Neutral,
    }
}

/// Whether a candidate of the given dimensions satisfies the whole chain: the
/// first transformation whose outcome is not neutral decides, and a chain
/// with no decisive transformation fails closed.
pub open spec fn chain_sufficient(ops: Seq<Transformation>, width: int, height: int) -> bool
    decreases ops.len(),
{
    if ops.len() == 0 {
        false
    } else {
        match operation_outcome(ops[0], width, height) {
            TierOutcome::Applicable => true,
            TierOutcome::Insufficient => false,
            TierOutcome::Neutral => chain_sufficient(
                ops.subrange(1, ops.len() as int),
                width,
                height,
            ),
        }
    }
}

/// The first transformation of a chain, when decisive, alone determines the
/// selector's answer; later transformations are not consulted.
pub proof fn lemma_first_decisive(ops: Seq<Transformation>, width: int, height: int)
    requires
        ops.len() > 0,
        operation_outcome(ops[0], width, height) != TierOutcome::Neutral,
    ensures
        chain_sufficient(ops, width, height) == (operation_outcome(ops[0], width, height)
            == TierOutcome::Applicable),
{
}

/// A chain of only neutral transformations never lets a derivative serve.
pub proof fn lemma_all_neutral_insufficient(ops: Seq<Transformation>, width: int, height: int)
    requires
        forall|i: int|
            0 <= i < ops.len() ==> operation_outcome(#[trigger] ops[i], width, height)
                == TierOutcome::Neutral,
    ensures
        !chain_sufficient(ops, width, height),
    decreases ops.len(),
{
    if ops.len() > 0 {
        let tail = ops.subrange(1, ops.len() as int);
        assert(forall|i: int| 0 <= i < tail.len() ==> tail[i] == ops[i + 1]);
        lemma_all_neutral_insufficient(tail, width, height);
    }
}

/// The tier outcome of one transformation against a candidate's dimensions.
pub fn check_operation_for_using_regular(
    operation: &Transformation,
    regular_width: i32,
    regular_height: i32,
) -> (r: TierOutcome)
    ensures
        r == operation_outcome(*operation, regular_width as int, regular_height as int),
{
    match *operation {
        Transformation::Resize { height, width } => {
            let condition: bool = match (height, width) {
                (Some(h), Some(w)) => regular_width >= w && regular_height >= h,
                (Some(h), None) => regular_height >= h,
                (None, Some(w)) => regular_width >= w,
                (None, None) => false,
            };
            if condition {
                TierOutcome::Applicable
            } else {
                TierOutcome::Insufficient
            }
        },
        Transformation::CropCoordinates { .. } => TierOutcome::Insufficient,
        Transformation::Crop { height, width } => {
            if regular_width >= width && regular_height >= height {
                TierOutcome::Applicable
            } else {
                TierOutcome::Insufficient
            }
        },
        Transformation::Rotate { .. } => TierOutcome::Neutral,
    }
}

/// Whether a candidate derivative of the given dimensions can satisfy the
/// whole chain; the first decisive transformation settles the answer.
pub fn check_image_for_using_regular(
    width: i32,
    height: i32,
    operations: &Vec<Transformation>,
) -> (r: bool)
    ensures
        r == chain_sufficient(operations@, width as int, height as int),
{
    let n = operations.len();
    let mut i: usize = 0;
    proof {
        assert(operations@.subrange(0, n as int) =~= operations@);
    }
    while i < n
        invariant
            i <= n,
            n == operations@.len(),
            chain_sufficient(operations@, width as int, height as int) == chain_sufficient(
                operations@.subrange(i as int, n as int),
                width as int,
                height as int,
            ),
        decreases n - i,
    {
        let outcome = check_operation_for_using_regular(&operations[i], width, height);
        proof {
            let suffix = operations@.subrange(i as int, n as int);
            assert(suffix[0] == operations@[i as int]);
            assert(suffix.subrange(1, suffix.len() as int) =~= operations@.subrange(
                i + 1 as int,
                n as int,
            ));
        }
        match outcome {
            TierOutcome::Neutral => {
                i = i + 1;
            },
            TierOutcome::Insufficient => {
                return false;
            },
            TierOutcome::Applicable => {
                return true;
            },
        }
    }
    proof {
        assert(operations@.subrange(n as int, n as int) =~= Seq::<Transformation>::empty());
    }
    false
}

} // verus!
