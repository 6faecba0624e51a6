//! The statistic planner: row labels, result keys, and the flat list of
//! aggregation requests for a schema.
use vstd::prelude::*;
use vstd::arithmetic::div_mod::lemma_fundamental_div_mod_converse;
use crate::kind::{aggregation, aggregation_of, Aggregation, ColumnKind, Stat};
use crate::text::{decimal, decimal_text, signed_decimal, signed_decimal_text};

verus! {

/// One requested quantile fraction, as the two texts the library needs of
/// it: `fraction` is how the fraction itself is displayed (it is part of the
/// result keys), `percent` is the fraction times one hundred, truncated.
pub struct Percentile {
    pub fraction: String,
    pub percent: i32,
}

/// A named, typed column of the input schema.
pub struct Column {
    pub name: String,
    pub kind: ColumnKind,
}

/// One aggregation to be computed by the engine, and the key under which
/// its result is read back.
pub struct Request {
    /// Position of the column in the schema.
    pub column: usize,
    pub stat: Stat,
    pub aggregation: Aggregation,
    pub key: String,
}

#[derive(Clone, Copy, Debug, PartialEq, Eq, Structural)]
pub enum DescribeError {
    /// The schema has no columns, so there is nothing to describe.
    EmptySchema,
}

/// Number of rows of a summary for `n` percentiles.
pub open spec fn row_count(n: nat) -> nat {
    n + 6
}

/// The statistic shown in row `i` of a summary with `n` percentiles.
pub open spec fn stat_at(i: int, n: int) -> Stat {
    if i == 0 {
        Stat::Count
    } else if i == 1 {
        Stat::NullCount
    } else if i == 2 {
        Stat::Mean
    } else if i == 3 {
        Stat::Std
    } else if i == 4 {
        Stat::Min
    } else if i < n + 5 {
        Stat::Percentile((i - 5) as usize)
    } else {
        Stat::Max
    }
}

/// The label of a statistic's row.
pub open spec fn label_of(s: Stat, pcts: Seq<Percentile>) -> Seq<char> {
    match s {
        Stat::Count => "count"@,
        Stat::NullCount => "null_count"@,
        Stat::Mean => "mean"@,
        Stat::Std => "std"@,
        Stat::Min => "min"@,
        Stat::Percentile(j) => signed_decimal(pcts[j as int].percent as int) + "%"@,
        Stat::Max => "max"@,
    }
}

/// The labels of all rows, in order.
pub open spec fn labels(pcts: Seq<Percentile>) -> Seq<Seq<char>> {
    Seq::new(row_count(pcts.len()), |i: int| label_of(stat_at(i, pcts.len() as int), pcts))
}

/// The key of the result of statistic `s` on the column called `name`.
pub open spec fn key_of(name: Seq<char>, s: Stat, pcts: Seq<Percentile>) -> Seq<char> {
    match s {
        Stat::Count => "count:"@ + name,
        Stat::NullCount => "null_count:"@ + name,
        Stat::Mean => "mean:"@ + name,
        Stat::Std => "std:"@ + name,
        Stat::Min => "min:"@ + name,
        Stat::Percentile(j) => pcts[j as int].fraction@ + ":"@ + decimal(j as nat) + ":"@ + name,
        Stat::Max => "max:"@ + name,
    }
}

/// Whether `r` is the request for row `i` of column `c` of the schema.
pub open spec fn is_request(
    r: Request,
    schema: Seq<Column>,
    pcts: Seq<Percentile>,
    c: int,
    i: int,
) -> bool {
    let s = stat_at(i, pcts.len() as int);
    &&& r.column == c
    &&& r.stat == s
    &&& r.aggregation == aggregation_of(schema[c].kind, s)
    &&& r.key@ == key_of(schema[c].name@, s, pcts)
}

/// The statistic of row `i`, for `n` percentiles.
pub fn stat_at_row(i: usize, n: usize) -> (r: Stat)
    requires
        i < n + 6,
    ensures
        r == stat_at(i as int, n as int),
{
    if i == 0 {
        Stat::Count
    } else if i == 1 {
        Stat::NullCount
    } else if i == 2 {
        Stat::Mean
    } else if i == 3 {
        Stat::Std
    } else if i == 4 {
        Stat::Min
    } else if i - 5 < n {
        Stat::Percentile(i - 5)
    } else {
        Stat::Max
    }
}

fn concat(a: &str, b: &str) -> (r: String)
    ensures
        r@ == a@ + b@,
{
    let mut s = String::from_str(a);
    s.append(b);
    s
}

/// The label of a statistic's row.
pub fn label(s: Stat, pcts: &Vec<Percentile>) -> (r: String)
    requires
        s matches Stat::Percentile(j) ==> j < pcts.len(),
    ensures
        r@ == label_of(s, pcts@),
{
    match s {
        Stat::Count => String::from_str("count"),
        Stat::NullCount => String::from_str("null_count"),
        Stat::Mean => String::from_str("mean"),
        Stat::Std => String::from_str("std"),
        Stat::Min => String::from_str("min"),
        Stat::Percentile(j) => {
            let mut t = signed_decimal_text(pcts[j].percent as i64);
            t.append("%");
            t
        },
        Stat::Max => String::from_str("max"),
    }
}

/// The labels of all rows: `count`, `null_count`, `mean`, `std`, `min`, one
/// `"{percent}%"` per requested fraction in request order, and `max`.
pub fn metric_labels(pcts: &Vec<Percentile>) -> (r: Vec<String>)
    requires
        pcts.len() + 6 <= usize::MAX,
    ensures
        r@.len() == row_count(pcts@.len()),
        forall|i: int| 0 <= i < r@.len() ==> #[trigger] r@[i]@ == labels(pcts@)[i],
{
    let n = pcts.len();
    let mut r: Vec<String> = Vec::new();
    let mut i: usize = 0;
    while i < n + 6
        invariant
            n == pcts.len(),
            n + 6 <= usize::MAX,
            i <= n + 6,
            r@.len() == i,
            forall|k: int| 0 <= k < i ==> #[trigger] r@[k]@ == labels(pcts@)[k],
        decreases n + 6 - i,
    {
        let s = stat_at_row(i, n);
        let l = label(s, pcts);
        r.push(l);
        i = i + 1;
    }
    r
}

/// The key under which the result of statistic `s` on the column called
/// `name` is read back: `"{statistic}:{column}"`, or
/// `"{fraction}:{index}:{column}"` for a percentile.
pub fn key(name: &String, s: Stat, pcts: &Vec<Percentile>) -> (r: String)
    requires
        s matches Stat::Percentile(j) ==> j < pcts.len(),
    ensures
        r@ == key_of(name@, s, pcts@),
{
    match s {
        Stat::Count => concat("count:", name.as_str()),
        Stat::NullCount => concat("null_count:", name.as_str()),
        Stat::Mean => concat("mean:", name.as_str()),
        Stat::Std => concat("std:", name.as_str()),
        Stat::Min => concat("min:", name.as_str()),
        Stat::Percentile(j) => {
            let mut t = pcts[j].fraction.clone();
            t.append(":");
            let d = decimal_text(j as u64);
            t.append(d.as_str());
            t.append(":");
            t.append(name.as_str());
            t
        },
        Stat::Max => concat("max:", name.as_str()),
    }
}

/// The fractions used when none are given: a quarter, a half and three
/// quarters.
pub fn default_percentiles() -> (r: Vec<Percentile>)
    ensures
        r@.len() == 3,
        r@[0].fraction@ == "0.25"@ && r@[0].percent == 25,
        r@[1].fraction@ == "0.5"@ && r@[1].percent == 50,
        r@[2].fraction@ == "0.75"@ && r@[2].percent == 75,
{
    let mut r: Vec<Percentile> = Vec::new();
    r.push(Percentile { fraction: String::from_str("0.25"), percent: 25 });
    r.push(Percentile { fraction: String::from_str("0.5"), percent: 50 });
    r.push(Percentile { fraction: String::from_str("0.75"), percent: 75 });
    r
}

/// The requested fractions, or the default ones where none were given.
pub fn percentiles_or_default(pcts: Option<Vec<Percentile>>) -> (r: Vec<Percentile>)
    ensures
        pcts matches Some(p) ==> r == p,
        pcts is None ==> r@.len() == 3 && r@[0].percent == 25 && r@[1].percent == 50
            && r@[2].percent == 75 && r@[0].fraction@ == "0.25"@ && r@[1].fraction@ == "0.5"@
            && r@[2].fraction@ == "0.75"@,
{
    match pcts {
        Some(p) => p,
        None => default_percentiles(),
    }
}

/// The aggregation requests for every column of `schema`: for each column in
/// schema order, one request per row of the summary, in row order. Fails on
/// an empty schema.
pub fn plan(schema: &Vec<Column>, pcts: &Vec<Percentile>) -> (r: Result<Vec<Request>, DescribeError>)
    requires
        schema.len() * (pcts.len() + 6) <= usize::MAX,
    ensures
        r is Err <==> schema@.len() == 0,
        r matches Err(e) ==> e == DescribeError::EmptySchema,
        r matches Ok(reqs) ==> {
            &&& reqs@.len() == schema@.len() * row_count(pcts@.len())
            &&& forall|k: int|
                0 <= k < reqs@.len() ==> is_request(
                    #[trigger] reqs@[k],
                    schema@,
                    pcts@,
                    k / row_count(pcts@.len()) as int,
                    k % row_count(pcts@.len()) as int,
                )
        },
{
    if schema.len() == 0 {
        return Err(DescribeError::EmptySchema);
    }
    let n = pcts.len();
    proof {
        assert(schema.len() * (n + 6) >= n + 6) by (nonlinear_arith)
            requires schema.len() >= 1;
    }
    let m = n + 6;
    let mut reqs: Vec<Request> = Vec::new();
    let mut c: usize = 0;
    while c < schema.len()
        invariant
            n == pcts.len(),
            m == n + 6,
            schema.len() * m <= usize::MAX,
            c <= schema.len(),
            reqs@.len() == c * m,
            forall|k: int|
                0 <= k < reqs@.len() ==> is_request(
                    #[trigger] reqs@[k],
                    schema@,
                    pcts@,
                    k / m as int,
                    k % m as int,
                ),
        decreases schema.len() - c,
    {
        let mut i: usize = 0;
        proof {
            assert(c * m + m == (c + 1) * m) by (nonlinear_arith);
            assert((c + 1) * m <= schema.len() * m) by (nonlinear_arith)
                requires c + 1 <= schema.len(), m >= 0;
        }
        while i < m
            invariant
                n == pcts.len(),
                m == n + 6,
                c < schema.len(),
                (c + 1) * m <= usize::MAX,
                c * m + m == (c + 1) * m,
                i <= m,
                reqs@.len() == c * m + i,
                forall|k: int|
                    0 <= k < reqs@.len() ==> is_request(
                        #[trigger] reqs@[k],
                        schema@,
                        pcts@,
                        k / m as int,
                        k % m as int,
                    ),
            decreases m - i,
        {
            let col = &schema[c];
            let s = stat_at_row(i, n);
            let req = Request {
                column: c,
                stat: s,
                aggregation: aggregation(col.kind, s),
                key: key(&col.name, s, pcts),
            };
            proof {
                lemma_fundamental_div_mod_converse((c * m + i) as int, m as int, c as int, i as int);
            }
            reqs.push(req);
            i = i + 1;
        }
        c = c + 1;
    }
    Ok(reqs)
}

/// The rows always come in the order `count`, `null_count`, `mean`, `std`,
/// `min`, one row per requested fraction in request order, then `max`,
/// whatever the columns hold.
pub proof fn lemma_row_order(pcts: Seq<Percentile>)
    requires
        pcts.len() + 6 <= usize::MAX,
    ensures
        labels(pcts) == seq!["count"@, "null_count"@, "mean"@, "std"@, "min"@]
            + Seq::new(pcts.len(), |j: int| signed_decimal(pcts[j].percent as int) + "%"@)
            + seq!["max"@],
{
    let lhs = labels(pcts);
    let a = seq!["count"@, "null_count"@, "mean"@, "std"@, "min"@];
    let b = Seq::new(pcts.len(), |j: int| signed_decimal(pcts[j].percent as int) + "%"@);
    let c = seq!["max"@];
    let rhs = a + b + c;
    assert forall|i: int| 0 <= i < lhs.len() implies lhs[i] == rhs[i] by {
        assert(lhs[i] == label_of(stat_at(i, pcts.len() as int), pcts));
        if i < 5 {
            assert(rhs[i] == a[i]);
            if i == 0 {
                assert(a[0] == "count"@);
            } else if i == 1 {
                assert(a[1] == "null_count"@);
            } else if i == 2 {
                assert(a[2] == "mean"@);
            } else if i == 3 {
                assert(a[3] == "std"@);
            } else {
                assert(a[4] == "min"@);
            }
        } else if i < pcts.len() + 5 {
            assert(rhs[i] == (a + b)[i]);
            assert((a + b)[i] == b[i - 5]);
        } else {
            assert(rhs[i] == c[0]);
        }
    }
    assert(lhs =~= rhs);
}

} // verus!
