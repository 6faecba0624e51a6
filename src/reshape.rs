//! The result reshaper: reads each (column, statistic) result out of the
//! engine's wide single-row result by its key, formats it, and lays the
//! cells out as one row per statistic and one column per input column.
use vstd::prelude::*;
use crate::kind::{has_numeric_result, ColumnKind, Stat};
use crate::plan::{
    is_request, key, key_of, labels, metric_labels, row_count, stat_at, stat_at_row, Column,
    DescribeError, Percentile, Request,
};
use crate::text::{
    decimal, decimal_text, is_digit, lemma_decimal_digits, padded, signed_decimal,
    signed_decimal_text, six_digit_text,
};

verus! {

/// One scalar of the engine's wide result.
pub enum Scalar {
    /// A missing value.
    Null,
    /// An integer value, such as a count.
    Whole(i64),
    /// A finite real number: `plain` is its natural display; `negative`,
    /// `units` and `micros` are the number rounded to six decimals, as
    /// sign, integer part and millionths.
    Real { plain: String, negative: bool, units: u64, micros: u64 },
    /// Any other value, in its natural display.
    Text(String),
}

/// A keyed scalar of the wide result.
pub struct Entry {
    pub key: String,
    pub value: Scalar,
}

/// One column of the summary table.
pub struct TableColumn {
    pub name: String,
    pub values: Vec<String>,
}

/// The summary: a `statistic` label column followed by one column per input
/// column, every cell a display string.
pub struct Table {
    pub columns: Vec<TableColumn>,
}

pub open spec fn scalar_wf(s: Scalar) -> bool {
    s matches Scalar::Real { micros, .. } ==> micros < 1000000
}

/// Whether every scalar of the wide result is well formed.
pub open spec fn wide_wf(wide: Seq<Entry>) -> bool {
    forall|i: int| 0 <= i < wide.len() ==> scalar_wf(#[trigger] wide[i].value)
}

/// The value stored under `key`: that of the first entry with this key.
pub open spec fn lookup_of(wide: Seq<Entry>, key: Seq<char>) -> Option<Scalar>
    decreases wide.len(),
{
    if wide.len() == 0 {
        None
    } else if wide[0].key@ == key {
        Some(wide[0].value)
    } else {
        lookup_of(wide.drop_first(), key)
    }
}

/// The natural display of a scalar.
pub open spec fn plain_of(s: Scalar) -> Seq<char> {
    match s {
        Scalar::Null => "null"@,
        Scalar::Whole(v) => signed_decimal(v as int),
        Scalar::Real { plain, .. } => plain@,
        Scalar::Text(t) => t@,
    }
}

/// A scalar with exactly six digits after the decimal point, where it is a
/// number.
pub open spec fn fixed_of(s: Scalar) -> Seq<char> {
    match s {
        Scalar::Whole(v) => signed_decimal(v as int) + "."@ + "000000"@,
        Scalar::Real { negative, units, micros, .. } => (if negative {
            "-"@
        } else {
            Seq::empty()
        }) + decimal(units as nat) + "."@ + padded(micros as nat, 6),
        _ => plain_of(s),
    }
}

/// The text of the cell of statistic `s` on a column of kind `k`, whose
/// result is `v`.
pub open spec fn cell_of(v: Option<Scalar>, k: ColumnKind, s: Stat) -> Seq<char> {
    match v {
        None => "null"@,
        Some(Scalar::Null) => "null"@,
        Some(x) => if s == Stat::Count || s == Stat::NullCount {
            plain_of(x)
        } else if has_numeric_result(k) && (s == Stat::Mean || s == Stat::Std) {
            fixed_of(x)
        } else if k == ColumnKind::Boolean && s == Stat::Min {
            "false"@
        } else if k == ColumnKind::Boolean && s == Stat::Max {
            "true"@
        } else {
            plain_of(x)
        },
    }
}

/// The cell of row `i` of the summary column for `col`.
pub open spec fn cell_at(wide: Seq<Entry>, col: Column, pcts: Seq<Percentile>, i: int) -> Seq<char> {
    let s = stat_at(i, pcts.len() as int);
    cell_of(lookup_of(wide, key_of(col.name@, s, pcts)), col.kind, s)
}

/// Whether `t` is the summary of the wide result `wide` for `schema`.
pub open spec fn is_summary(t: Table, schema: Seq<Column>, pcts: Seq<Percentile>, wide: Seq<Entry>) -> bool {
    let rows = row_count(pcts.len()) as int;
    &&& t.columns@.len() == schema.len() + 1
    &&& t.columns@[0].name@ == "statistic"@
    &&& t.columns@[0].values@.len() == rows
    &&& forall|i: int| 0 <= i < rows ==> #[trigger] t.columns@[0].values@[i]@ == labels(pcts)[i]
    &&& forall|c: int| 0 <= c < schema.len() ==> {
        &&& #[trigger] t.columns@[c + 1].name@ == schema[c].name@
        &&& t.columns@[c + 1].values@.len() == rows
        &&& forall|i: int| 0 <= i < rows ==>
            #[trigger] t.columns@[c + 1].values@[i]@ == cell_at(wide, schema[c], pcts, i)
    }
}

/// The value stored under `key`, if any.
pub fn lookup<'a>(wide: &'a Vec<Entry>, key: &String) -> (r: Option<&'a Scalar>)
    ensures
        r matches Some(v) ==> lookup_of(wide@, key@) == Some(*v),
        r is None ==> lookup_of(wide@, key@) is None,
{
    let mut i: usize = 0;
    assert(wide@.subrange(0, wide@.len() as int) =~= wide@);
    while i < wide.len()
        invariant
            i <= wide.len(),
            lookup_of(wide@, key@) == lookup_of(wide@.subrange(i as int, wide@.len() as int), key@),
        decreases wide.len() - i,
    {
        let ghost rest = wide@.subrange(i as int, wide@.len() as int);
        assert(rest.drop_first() =~= wide@.subrange(i + 1, wide@.len() as int));
        if wide[i].key == *key {
            return Some(&wide[i].value);
        }
        i = i + 1;
    }
    None
}

fn plain(v: &Scalar) -> (r: String)
    ensures
        r@ == plain_of(*v),
{
    match v {
        Scalar::Null => String::from_str("null"),
        Scalar::Whole(x) => signed_decimal_text(*x),
        Scalar::Real { plain, .. } => plain.clone(),
        Scalar::Text(t) => t.clone(),
    }
}

fn fixed(v: &Scalar) -> (r: String)
    requires
        scalar_wf(*v),
    ensures
        r@ == fixed_of(*v),
{
    match v {
        Scalar::Whole(x) => {
            let mut t = signed_decimal_text(*x);
            t.append(".");
            t.append("000000");
            t
        },
        Scalar::Real { negative, units, micros, .. } => {
            let mut t = if *negative {
                String::from_str("-")
            } else {
                String::new()
            };
            let u = decimal_text(*units);
            t.append(u.as_str());
            t.append(".");
            let f = six_digit_text(*micros);
            t.append(f.as_str());
            t
        },
        _ => plain(v),
    }
}

/// Formats the result `v` of statistic `s` on a column of kind `k`.
pub fn render_cell(v: Option<&Scalar>, k: ColumnKind, s: Stat) -> (r: String)
    requires
        v matches Some(x) ==> scalar_wf(*x),
    ensures
        r@ == cell_of(
            match v {
                Some(x) => Some(*x),
                None => None,
            },
            k,
            s,
        ),
{
    match v {
        None => String::from_str("null"),
        Some(Scalar::Null) => String::from_str("null"),
        Some(x) => {
            let is_count = match s {
                Stat::Count | Stat::NullCount => true,
                _ => false,
            };
            let is_spread = match s {
                Stat::Mean | Stat::Std => true,
                _ => false,
            };
            let is_bool = match k {
                ColumnKind::Boolean => true,
                _ => false,
            };
            if is_count {
                plain(x)
            } else if k.has_numeric_result() && is_spread {
                fixed(x)
            } else if is_bool && s == Stat::Min {
                String::from_str("false")
            } else if is_bool && s == Stat::Max {
                String::from_str("true")
            } else {
                plain(x)
            }
        },
    }
}

/// The summary column for `col`: one formatted cell per row.
pub fn column_cells(wide: &Vec<Entry>, col: &Column, pcts: &Vec<Percentile>) -> (r: Vec<String>)
    requires
        pcts.len() + 6 <= usize::MAX,
        wide_wf(wide@),
    ensures
        r@.len() == row_count(pcts@.len()),
        forall|i: int| 0 <= i < r@.len() ==> #[trigger] r@[i]@ == cell_at(wide@, *col, pcts@, i),
{
    let n = pcts.len();
    let mut r: Vec<String> = Vec::new();
    let mut i: usize = 0;
    while i < n + 6
        invariant
            n == pcts.len(),
            n + 6 <= usize::MAX,
            wide_wf(wide@),
            i <= n + 6,
            r@.len() == i,
            forall|k: int| 0 <= k < i ==> #[trigger] r@[k]@ == cell_at(wide@, *col, pcts@, k),
        decreases n + 6 - i,
    {
        let s = stat_at_row(i, n);
        let k = key(&col.name, s, pcts);
        let v = lookup(wide, &k);
        proof {
            lemma_lookup_wf(wide@, k@);
        }
        let cell = render_cell(v, col.kind, s);
        r.push(cell);
        i = i + 1;
    }
    r
}

proof fn lemma_lookup_wf(wide: Seq<Entry>, key: Seq<char>)
    requires
        wide_wf(wide),
    ensures
        lookup_of(wide, key) matches Some(v) ==> scalar_wf(v),
    decreases wide.len(),
{
    if wide.len() > 0 {
        assert(wide_wf(wide.drop_first())) by {
            assert forall|i: int| 0 <= i < wide.drop_first().len() implies scalar_wf(
                #[trigger] wide.drop_first()[i].value,
            ) by {
                assert(wide.drop_first()[i] == wide[i + 1]);
            }
        }
        lemma_lookup_wf(wide.drop_first(), key);
    }
}

/// Lays the wide result out as the summary table: the `statistic` column of
/// row labels, then one column per schema column, in schema order.
pub fn reshape(schema: &Vec<Column>, pcts: &Vec<Percentile>, wide: &Vec<Entry>) -> (t: Table)
    requires
        pcts.len() + 6 <= usize::MAX,
        wide_wf(wide@),
    ensures
        is_summary(t, schema@, pcts@, wide@),
{
    let mut columns: Vec<TableColumn> = Vec::new();
    let label_cells = metric_labels(pcts);
    columns.push(TableColumn { name: String::from_str("statistic"), values: label_cells });
    let mut c: usize = 0;
    while c < schema.len()
        invariant
            pcts.len() + 6 <= usize::MAX,
            wide_wf(wide@),
            c <= schema.len(),
            columns@.len() == c + 1,
            columns@[0].name@ == "statistic"@,
            columns@[0].values@.len() == row_count(pcts@.len()),
            forall|i: int| 0 <= i < row_count(pcts@.len()) ==>
                #[trigger] columns@[0].values@[i]@ == labels(pcts@)[i],
            forall|d: int| 0 <= d < c ==> {
                &&& #[trigger] columns@[d + 1].name@ == schema@[d].name@
                &&& columns@[d + 1].values@.len() == row_count(pcts@.len())
                &&& forall|i: int| 0 <= i < row_count(pcts@.len()) ==>
                    #[trigger] columns@[d + 1].values@[i]@ == cell_at(wide@, schema@[d], pcts@, i)
            },
        decreases schema.len() - c,
    {
        let col = &schema[c];
        let values = column_cells(wide, col, pcts);
        columns.push(TableColumn { name: col.name.clone(), values });
        c = c + 1;
    }
    Table { columns }
}

/// The summary of the wide result `wide` for `schema`, or `EmptySchema`
/// where the schema has no columns.
pub fn summarize(schema: &Vec<Column>, pcts: &Vec<Percentile>, wide: &Vec<Entry>) -> (r: Result<Table, DescribeError>)
    requires
        pcts.len() + 6 <= usize::MAX,
        wide_wf(wide@),
    ensures
        r is Err <==> schema@.len() == 0,
        r matches Err(e) ==> e == DescribeError::EmptySchema,
        r matches Ok(t) ==> is_summary(t, schema@, pcts@, wide@),
{
    if schema.len() == 0 {
        Err(DescribeError::EmptySchema)
    } else {
        Ok(reshape(schema, pcts, wide))
    }
}

impl View for Table {
    type V = Seq<(Seq<char>, Seq<Seq<char>>)>;

    open spec fn view(&self) -> Seq<(Seq<char>, Seq<Seq<char>>)> {
        Seq::new(
            self.columns@.len(),
            |c: int|
                (
                    self.columns@[c].name@,
                    Seq::new(self.columns@[c].values@.len(), |i: int| self.columns@[c].values@[i]@),
                ),
        )
    }
}

impl Table {
    /// Number of columns, the `statistic` column included.
    pub fn width(&self) -> (r: usize)
        ensures
            r == self@.len(),
    {
        self.columns.len()
    }

    /// Number of rows: the length of the first column, zero when there is
    /// no column.
    pub fn height(&self) -> (r: usize)
        ensures
            self@.len() == 0 ==> r == 0,
            self@.len() > 0 ==> r == self@[0].1.len(),
    {
        if self.columns.len() == 0 {
            0
        } else {
            self.columns[0].values.len()
        }
    }

    /// `(height, width)`.
    pub fn shape(&self) -> (r: (usize, usize))
        ensures
            r.0 == (if self@.len() == 0 { 0 } else { self@[0].1.len() }),
            r.1 == self@.len(),
    {
        (self.height(), self.width())
    }

    /// The first column called `name`, if any.
    pub fn column(&self, name: &str) -> (r: Option<&TableColumn>)
        ensures
            r matches Some(col) ==> exists|c: int|
                0 <= c < self@.len() && self.columns@[c] == *col && col.name@ == name@ && forall|
                    d: int,
                | 0 <= d < c ==> self@[d].0 != name@,
            r is None ==> forall|c: int| 0 <= c < self@.len() ==> self@[c].0 != name@,
    {
        let target = String::from_str(name);
        let mut c: usize = 0;
        while c < self.columns.len()
            invariant
                c <= self.columns@.len(),
                target@ == name@,
                forall|d: int| 0 <= d < c ==> self@[d].0 != name@,
            decreases self.columns@.len() - c,
        {
            if self.columns[c].name == target {
                assert(self.columns@[c as int].name@ == name@);
                return Some(&self.columns[c]);
            }
            c = c + 1;
        }
        None
    }
}

/// The summary has one row per statistic, `6 + |percentiles|` in all, and
/// one column per schema column besides the `statistic` column.
pub proof fn lemma_summary_shape(t: Table, schema: Seq<Column>, pcts: Seq<Percentile>, wide: Seq<Entry>)
    requires
        is_summary(t, schema, pcts, wide),
    ensures
        t@.len() == schema.len() + 1,
        forall|c: int| 0 <= c < t@.len() ==> (#[trigger] t@[c]).1.len() == pcts.len() + 6,
{
    assert forall|c: int| 0 <= c < t@.len() implies (#[trigger] t@[c]).1.len() == pcts.len() + 6 by {
        if c > 0 {
            let d = c - 1;
            assert(t.columns@[d + 1].name@ == schema[d].name@);
            assert(t.columns@[d + 1].values@.len() == row_count(pcts.len()));
        }
    }
}

/// The summary is a function of the schema, the fractions and the wide
/// result: two summaries of the same inputs are the same table.
pub proof fn lemma_summary_deterministic(
    t1: Table,
    t2: Table,
    schema: Seq<Column>,
    pcts: Seq<Percentile>,
    wide: Seq<Entry>,
)
    requires
        is_summary(t1, schema, pcts, wide),
        is_summary(t2, schema, pcts, wide),
    ensures
        t1@ == t2@,
{
    assert forall|c: int| 0 <= c < t1@.len() implies t1@[c] == t2@[c] by {
        if c == 0 {
            assert(t1@[0].1 =~= t2@[0].1);
        } else {
            let d = c - 1;
            assert(t1.columns@[d + 1].name@ == t2.columns@[d + 1].name@);
            assert(t1@[c].1 =~= t2@[c].1);
        }
    }
    assert(t1@ =~= t2@);
}

/// The `min` cell of a boolean column is `false` and its `max` cell is
/// `true`, whatever non-null value the engine returned.
pub proof fn lemma_boolean_min_max(v: Scalar)
    requires
        !(v is Null),
    ensures
        cell_of(Some(v), ColumnKind::Boolean, Stat::Min) == "false"@,
        cell_of(Some(v), ColumnKind::Boolean, Stat::Max) == "true"@,
{
}

/// On a numeric column, a numeric `mean` or `std` cell ends in a decimal
/// point followed by exactly six digits, and holds no other point.
pub proof fn lemma_mean_std_six_decimals(v: Scalar, s: Stat)
    requires
        v is Whole || v is Real,
        scalar_wf(v),
        s == Stat::Mean || s == Stat::Std,
    ensures
        ({
            let t = cell_of(Some(v), ColumnKind::Numeric, s);
            &&& t.len() >= 8
            &&& t[t.len() - 7] == '.'
            &&& forall|i: int| t.len() - 6 <= i < t.len() ==> is_digit(#[trigger] t[i])
            &&& forall|i: int| 0 <= i < t.len() - 7 ==> #[trigger] t[i] != '.'
        }),
{
    reveal_strlit(".");
    reveal_strlit("-");
    reveal_strlit("000000");
    let t = cell_of(Some(v), ColumnKind::Numeric, s);
    assert(t == fixed_of(v));
    match v {
        Scalar::Whole(x) => {
            let head = signed_decimal(x as int);
            if x < 0 {
                lemma_decimal_digits((-x) as nat);
            } else {
                lemma_decimal_digits(x as nat);
            }
            assert(forall|i: int| 0 <= i < head.len() ==> #[trigger] head[i] != '.');
            assert(t == head + "."@ + "000000"@);
            assert forall|i: int| t.len() - 6 <= i < t.len() implies is_digit(#[trigger] t[i]) by {
                assert(t[i] == "000000"@[i - head.len() - 1]);
            }
            assert forall|i: int| 0 <= i < t.len() - 7 implies #[trigger] t[i] != '.' by {
                assert(t[i] == head[i]);
            }
        },
        Scalar::Real { negative, units, micros, .. } => {
            let sign: Seq<char> = if negative { "-"@ } else { Seq::empty() };
            let head = sign + decimal(units as nat);
            let tail = padded(micros as nat, 6);
            lemma_decimal_digits(units as nat);
            lemma_decimal_digits(micros as nat);
            lemma_padded_six(micros as nat);
            assert(t == head + "."@ + tail);
            assert forall|i: int| 0 <= i < head.len() implies #[trigger] head[i] != '.' by {
                if i >= sign.len() {
                    assert(head[i] == decimal(units as nat)[i - sign.len()]);
                }
            }
            assert forall|i: int| t.len() - 6 <= i < t.len() implies is_digit(#[trigger] t[i]) by {
                assert(t[i] == tail[i - head.len() - 1]);
            }
            assert forall|i: int| 0 <= i < t.len() - 7 implies #[trigger] t[i] != '.' by {
                assert(t[i] == head[i]);
            }
        },
        _ => {},
    }
}

proof fn lemma_padded_six(n: nat)
    requires
        n < 1000000,
    ensures
        padded(n, 6).len() == 6,
        forall|i: int| 0 <= i < 6 ==> is_digit(#[trigger] padded(n, 6)[i]),
{
    lemma_decimal_digits(n);
    crate::text::lemma_decimal_len(n);
    let d = decimal(n);
    if d.len() < 6 {
        let z = Seq::new((6 - d.len()) as nat, |i: int| '0');
        assert forall|i: int| 0 <= i < 6 implies is_digit(#[trigger] padded(n, 6)[i]) by {
            if i < z.len() {
                assert(padded(n, 6)[i] == z[i]);
            } else {
                assert(padded(n, 6)[i] == d[i - z.len()]);
            }
        }
    }
}

/// A `count` or `null_count` cell holds no decimal point, for the whole
/// numbers that counts are.
pub proof fn lemma_counts_have_no_point(v: Option<Scalar>, k: ColumnKind, s: Stat)
    requires
        s == Stat::Count || s == Stat::NullCount,
        v matches Some(x) ==> (x is Null || x is Whole),
    ensures
        forall|i: int| 0 <= i < cell_of(v, k, s).len() ==> #[trigger] cell_of(v, k, s)[i] != '.',
{
    reveal_strlit("null");
    reveal_strlit("-");
    let t = cell_of(v, k, s);
    if let Some(Scalar::Whole(x)) = v {
        if x < 0 {
            lemma_decimal_digits((-x) as nat);
            assert forall|i: int| 0 <= i < t.len() implies #[trigger] t[i] != '.' by {
                if i > 0 {
                    assert(t[i] == decimal((-x) as nat)[i - 1]);
                }
            }
        } else {
            lemma_decimal_digits(x as nat);
        }
    }
}

/// The reshaper reads each cell under exactly the key that the planner gave
/// the request for that column and statistic, so the cell is the planned
/// result, formatted.
pub proof fn lemma_cells_read_planned_keys(
    r: Request,
    schema: Seq<Column>,
    pcts: Seq<Percentile>,
    wide: Seq<Entry>,
    c: int,
    i: int,
)
    requires
        is_request(r, schema, pcts, c, i),
    ensures
        cell_at(wide, schema[c], pcts, i) == cell_of(lookup_of(wide, r.key@), schema[c].kind, r.stat),
{
}

} // verus!
