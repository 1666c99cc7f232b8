use vstd::prelude::*;

verus! {

/// A sizing rule turning an available extent into an allocated extent.
///
/// Every rule allocates at most the available extent:
/// - `Max(v)`: the smaller of `v` and the available extent.
/// - `Min(v)`: the whole available extent when at least `v` is available,
///   otherwise nothing.
/// - `Length(v)`: exactly `v` when it fits, otherwise nothing.
/// - `Percentage(v)`: `v` percent of the available extent, rounded to the
///   nearest whole cell (half rounds up), clamped to the available extent.
#[derive(Clone, Copy, Debug, PartialEq, Eq, Structural)]
pub enum ConstraintVariant {
    Max { value: u32 },
    Min { value: u32 },
    Length { value: u32 },
    Percentage { value: u32 },
}

/// What a sizing rule allocates out of `length` available cells.
/// Always within `[0, length]`.
pub open spec fn variant_eval(v: ConstraintVariant, length: u32) -> int {
    match v {
        ConstraintVariant::Max { value } => if value <= length {
            value as int
        } else {
            length as int
        },
        ConstraintVariant::Min { value } => if value <= length {
            length as int
        } else {
            0
        },
        ConstraintVariant::Length { value } => if value <= length {
            value as int
        } else {
            0
        },
        ConstraintVariant::Percentage { value } => {
            let rounded = (length * value + 50) / 100;
            if rounded <= length {
                rounded
            } else {
                length as int
            }
        },
    }
}

/// A sizing rule evaluates to at most the available extent, and never to
/// a negative extent.
pub proof fn lemma_variant_eval_in_range(v: ConstraintVariant, length: u32)
    ensures
        0 <= variant_eval(v, length) <= length,
{
}

impl ConstraintVariant {
    pub fn max(value: u32) -> (r: Self)
        ensures
            r == (ConstraintVariant::Max { value }),
    {
        Self::Max { value }
    }

    pub fn min(value: u32) -> (r: Self)
        ensures
            r == (ConstraintVariant::Min { value }),
    {
        Self::Min { value }
    }

    pub fn length(value: u32) -> (r: Self)
        ensures
            r == (ConstraintVariant::Length { value }),
    {
        Self::Length { value }
    }

    pub fn percentage(value: u32) -> (r: Self)
        ensures
            r == (ConstraintVariant::Percentage { value }),
    {
        Self::Percentage { value }
    }

    /// Allocate out of `length` available cells. The result never exceeds
    /// what is available.
    pub fn eval(&self, length: u32) -> (r: u32)
        ensures
            r as int == variant_eval(*self, length),
            r <= length,
    {
        match self {
            Self::Max { value } => if *value <= length {
                *value
            } else {
                length
            },
            Self::Min { value } => if *value <= length {
                length
            } else {
                0
            },
            Self::Length { value } => if *value <= length {
                *value
            } else {
                0
            },
            Self::Percentage { value } => {
                proof {
                    assert((length as u64) * (*value as u64) <= (u32::MAX as u64) * (u32::MAX
                        as u64)) by (nonlinear_arith)
                        requires
                            length <= u32::MAX,
                            *value <= u32::MAX,
                    ;
                }
                let prod: u64 = (length as u64) * (*value as u64);
                let rounded: u64 = (prod + 50) / 100;
                if rounded <= length as u64 {
                    rounded as u32
                } else {
                    length
                }
            },
        }
    }
}

/// A full sizing rule: a base rule plus optional chained adjustments,
/// each itself a full rule evaluated against the base's own result.
pub struct Constraint {
    pub base: ConstraintVariant,
    pub offset_pos: Option<Box<Constraint>>,
    pub offset_neg: Option<Box<Constraint>>,
}

/// What a full rule allocates out of `length` available cells: the base
/// allocation, enlarged by `offset_pos` and shrunk by `offset_neg`, both
/// evaluated against the base's result. The sum saturates at `u32::MAX`
/// and the subtraction saturates at zero, so the result is never
/// negative.
pub open spec fn constraint_eval(c: Constraint, length: u32) -> int
    decreases c,
{
    let base = variant_eval(c.base, length);
    let pos = match c.offset_pos {
        Some(p) => constraint_eval(*p, base as u32),
        None => 0,
    };
    let neg = match c.offset_neg {
        Some(n) => constraint_eval(*n, base as u32),
        None => 0,
    };
    let sum = if base + pos > u32::MAX {
        u32::MAX as int
    } else {
        base + pos
    };
    if sum - neg < 0 {
        0
    } else {
        sum - neg
    }
}

/// A full rule always evaluates to a representable, non-negative extent.
pub proof fn lemma_constraint_eval_in_range(c: Constraint, length: u32)
    ensures
        0 <= constraint_eval(c, length) <= u32::MAX,
    decreases c,
{
    let base = variant_eval(c.base, length);
    match c.offset_pos {
        Some(p) => lemma_constraint_eval_in_range(*p, base as u32),
        None => (),
    }
    match c.offset_neg {
        Some(n) => lemma_constraint_eval_in_range(*n, base as u32),
        None => (),
    }
}

impl Constraint {
    pub fn new(base: ConstraintVariant, offset_pos: Option<Constraint>, offset_neg: Option<
        Constraint,
    >) -> (r: Constraint)
        ensures
            r.base == base,
            (match (offset_pos, r.offset_pos) {
                (Some(given), Some(held)) => *held == given,
                (None, None) => true,
                _ => false,
            }),
            (match (offset_neg, r.offset_neg) {
                (Some(given), Some(held)) => *held == given,
                (None, None) => true,
                _ => false,
            }),
    {
        let pos: Option<Box<Constraint>> = match offset_pos {
            Some(c) => Some(Box::new(c)),
            None => None,
        };
        let neg: Option<Box<Constraint>> = match offset_neg {
            Some(c) => Some(Box::new(c)),
            None => None,
        };
        Constraint { base, offset_pos: pos, offset_neg: neg }
    }

    /// Allocate out of `length` available cells, applying the chained
    /// adjustments against the base's own result.
    pub fn eval(&self, length: u32) -> (r: u32)
        ensures
            r as int == constraint_eval(*self, length),
        decreases *self,
    {
        let base: u32 = self.base.eval(length);
        let pos: u32 = match &self.offset_pos {
            Some(p) => p.eval(base),
            None => 0,
        };
        let neg: u32 = match &self.offset_neg {
            Some(n) => n.eval(base),
            None => 0,
        };
        base.saturating_add(pos).saturating_sub(neg)
    }
}

} // verus!
