//! Column kinds, statistics, and the table of which statistic applies to
//! which kind of column.
use vstd::prelude::*;

verus! {

/// The category of a column's data type that the planner dispatches on.
#[derive(Clone, Copy, Debug, PartialEq, Eq, Structural)]
pub enum ColumnKind {
    Numeric,
    Temporal,
    Boolean,
    /// Nested or composite types, and categorical-like types.
    CategoricalOrNested,
    NullOrUnknown,
    /// Everything else, for example text.
    Other,
}

/// One row of the summary table. `Percentile(j)` stands for the `j`-th
/// requested fraction.
#[derive(Clone, Copy, Debug, PartialEq, Eq, Structural)]
pub enum Stat {
    Count,
    NullCount,
    Mean,
    Std,
    Min,
    Percentile(usize),
    Max,
}

/// What the engine is asked to compute for one (column, statistic) pair.
#[derive(Clone, Copy, Debug, PartialEq, Eq, Structural)]
pub enum Aggregation {
    /// Number of non-null values.
    Count,
    /// Number of null values.
    NullCount,
    /// Arithmetic mean of the column as it is.
    Mean,
    /// Arithmetic mean after widening the column to floating point.
    MeanAsFloat,
    /// Sample standard deviation, one degree of freedom.
    Std,
    Min,
    Max,
    /// Linearly interpolated quantile at the `j`-th requested fraction.
    Quantile(usize),
    /// A floating-point null that stands where the statistic does not apply.
    NullPlaceholder,
}

/// Columns whose min and max are not computed.
pub open spec fn skips_min_max(k: ColumnKind) -> bool {
    k == ColumnKind::CategoricalOrNested || k == ColumnKind::NullOrUnknown
}

/// Whether statistic `s` applies to a column of kind `k`.
pub open spec fn stat_applies(k: ColumnKind, s: Stat) -> bool {
    match s {
        Stat::Count | Stat::NullCount => true,
        Stat::Mean => k == ColumnKind::Numeric || k == ColumnKind::Temporal
            || k == ColumnKind::Boolean,
        Stat::Std | Stat::Percentile(_) => k == ColumnKind::Numeric,
        Stat::Min | Stat::Max => !skips_min_max(k),
    }
}

/// The aggregation requested for statistic `s` on a column of kind `k`.
pub open spec fn aggregation_of(k: ColumnKind, s: Stat) -> Aggregation {
    if !stat_applies(k, s) {
        Aggregation::NullPlaceholder
    } else {
        match s {
            Stat::Count => Aggregation::Count,
            Stat::NullCount => Aggregation::NullCount,
            Stat::Mean => if k == ColumnKind::Boolean {
                Aggregation::MeanAsFloat
            } else {
                Aggregation::Mean
            },
            Stat::Std => Aggregation::Std,
            Stat::Min => Aggregation::Min,
            Stat::Percentile(j) => Aggregation::Quantile(j),
            Stat::Max => Aggregation::Max,
        }
    }
}

/// Whether mean and std of a column of kind `k` are shown with six decimals.
pub open spec fn has_numeric_result(k: ColumnKind) -> bool {
    k == ColumnKind::Numeric || k == ColumnKind::Boolean || k == ColumnKind::NullOrUnknown
}

impl ColumnKind {
    pub fn skips_min_max(self) -> (r: bool)
        ensures
            r == skips_min_max(self),
    {
        match self {
            ColumnKind::CategoricalOrNested | ColumnKind::NullOrUnknown => true,
            _ => false,
        }
    }

    pub fn has_numeric_result(self) -> (r: bool)
        ensures
            r == has_numeric_result(self),
    {
        match self {
            ColumnKind::Numeric | ColumnKind::Boolean | ColumnKind::NullOrUnknown => true,
            _ => false,
        }
    }
}

/// Whether statistic `s` applies to a column of kind `k`.
pub fn applies(k: ColumnKind, s: Stat) -> (r: bool)
    ensures
        r == stat_applies(k, s),
{
    match s {
        Stat::Count | Stat::NullCount => true,
        Stat::Mean => match k {
            ColumnKind::Numeric | ColumnKind::Temporal | ColumnKind::Boolean => true,
            _ => false,
        },
        Stat::Std | Stat::Percentile(_) => match k {
            ColumnKind::Numeric => true,
            _ => false,
        },
        Stat::Min | Stat::Max => !k.skips_min_max(),
    }
}

/// The aggregation to request for statistic `s` on a column of kind `k`.
pub fn aggregation(k: ColumnKind, s: Stat) -> (r: Aggregation)
    ensures
        r == aggregation_of(k, s),
{
    if !applies(k, s) {
        return Aggregation::NullPlaceholder;
    }
    match s {
        Stat::Count => Aggregation::Count,
        Stat::NullCount => Aggregation::NullCount,
        Stat::Mean => match k {
            ColumnKind::Boolean => Aggregation::MeanAsFloat,
            _ => Aggregation::Mean,
        },
        Stat::Std => Aggregation::Std,
        Stat::Min => Aggregation::Min,
        Stat::Percentile(j) => Aggregation::Quantile(j),
        Stat::Max => Aggregation::Max,
    }
}

} // verus!
