use describe::kind::{aggregation, applies, Aggregation, ColumnKind, Stat};
use describe::plan::{
    default_percentiles, key, metric_labels, percentiles_or_default, plan, Column, DescribeError,
    Percentile,
};
use describe::reshape::{lookup, render_cell, reshape, summarize, Entry, Scalar, Table};
use describe::text::{decimal_text, signed_decimal_text, six_digit_text};

fn col(name: &str, kind: ColumnKind) -> Column {
    Column { name: name.to_string(), kind }
}

fn pct(fraction: &str, percent: i32) -> Percentile {
    Percentile { fraction: fraction.to_string(), percent }
}

fn fixed_real(plain: &str, units: u64, micros: u64) -> Scalar {
    Scalar::Real { plain: plain.to_string(), negative: false, units, micros }
}

/// A wide result with one entry per planned request, its value chosen by
/// `value` from the request's column, statistic and aggregation.
fn wide_for(
    schema: &Vec<Column>,
    pcts: &Vec<Percentile>,
    value: &dyn Fn(&Column, Stat, Aggregation) -> Scalar,
) -> Vec<Entry> {
    let reqs = plan(schema, pcts).ok().unwrap();
    reqs.into_iter()
        .map(|r| Entry {
            value: if r.aggregation == Aggregation::NullPlaceholder {
                Scalar::Null
            } else {
                value(&schema[r.column], r.stat, r.aggregation)
            },
            key: r.key,
        })
        .collect()
}

fn cell(t: &Table, column: &str, statistic: &str) -> String {
    let labels = &t.column("statistic").unwrap().values;
    let row = labels.iter().position(|l| l == statistic).unwrap();
    t.column(column).unwrap().values[row].clone()
}

fn numeric_five(c: &Column, s: Stat, _a: Aggregation) -> Scalar {
    let float = c.name == "floats" || c.name == "b";
    match s {
        Stat::Count => Scalar::Whole(5),
        Stat::NullCount => Scalar::Whole(0),
        Stat::Mean => fixed_real("3.0", 3, 0),
        Stat::Std => fixed_real("1.5811388300841898", 1, 581139),
        Stat::Min => if float { fixed_real("1.0", 1, 0) } else { Scalar::Whole(1) },
        Stat::Max => if float { fixed_real("5.0", 5, 0) } else { Scalar::Whole(5) },
        Stat::Percentile(_) => fixed_real("3.0", 3, 0),
    }
}

#[test]
fn test_describe_numeric() {
    let schema = vec![col("ints", ColumnKind::Numeric), col("floats", ColumnKind::Numeric)];
    let pcts = percentiles_or_default(None);
    let wide = wide_for(&schema, &pcts, &numeric_five);
    let stats = summarize(&schema, &pcts, &wide).ok().unwrap();
    assert_eq!(stats.shape(), (9, 3));
    assert!(stats.column("statistic").is_some());
}

#[test]
fn test_describe_with_custom_percentiles() {
    let schema = vec![col("values", ColumnKind::Numeric)];
    let pcts = percentiles_or_default(Some(vec![pct("0.1", 10), pct("0.5", 50), pct("0.9", 90)]));
    let wide = wide_for(&schema, &pcts, &numeric_five);
    let stats = summarize(&schema, &pcts, &wide).ok().unwrap();
    assert_eq!(stats.height(), 9);
}

#[test]
fn test_describe_mixed_types() {
    let schema = vec![
        col("numbers", ColumnKind::Numeric),
        col("strings", ColumnKind::Other),
        col("bools", ColumnKind::Boolean),
    ];
    let pcts = default_percentiles();
    let wide = wide_for(&schema, &pcts, &mixed_values);
    let stats = summarize(&schema, &pcts, &wide).ok().unwrap();
    assert_eq!(stats.width(), 4);
}

#[test]
fn test_describe_lazy_frame() {
    let schema = vec![col("a", ColumnKind::Numeric), col("b", ColumnKind::Numeric)];
    let pcts = default_percentiles();
    let wide = wide_for(&schema, &pcts, &numeric_five);
    let stats = summarize(&schema, &pcts, &wide).ok().unwrap();
    assert_eq!(stats.shape(), (9, 3));
}

fn mixed_values(c: &Column, s: Stat, _a: Aggregation) -> Scalar {
    match (c.name.as_str(), s) {
        (_, Stat::Count) => Scalar::Whole(3),
        (_, Stat::NullCount) => Scalar::Whole(0),
        ("numbers", Stat::Mean) => fixed_real("2.0", 2, 0),
        ("numbers", Stat::Std) => fixed_real("1.0", 1, 0),
        ("numbers", Stat::Min) => Scalar::Whole(1),
        ("numbers", Stat::Max) => Scalar::Whole(3),
        ("numbers", Stat::Percentile(_)) => fixed_real("2.0", 2, 0),
        ("strings", Stat::Min) => Scalar::Text("\"a\"".to_string()),
        ("strings", Stat::Max) => Scalar::Text("\"c\"".to_string()),
        ("bools", Stat::Mean) => fixed_real("0.6666666666666666", 0, 666667),
        ("bools", Stat::Min) => Scalar::Text("false".to_string()),
        ("bools", Stat::Max) => Scalar::Text("true".to_string()),
        _ => Scalar::Null,
    }
}

#[test]
fn numeric_scenario_mean_has_six_decimals() {
    let schema = vec![col("ints", ColumnKind::Numeric), col("floats", ColumnKind::Numeric)];
    let pcts = default_percentiles();
    let wide = wide_for(&schema, &pcts, &numeric_five);
    let stats = summarize(&schema, &pcts, &wide).ok().unwrap();
    let names: Vec<&str> = stats.columns.iter().map(|c| c.name.as_str()).collect();
    assert_eq!(names, vec!["statistic", "ints", "floats"]);
    assert_eq!(cell(&stats, "ints", "mean"), "3.000000");
    assert_eq!(cell(&stats, "ints", "std"), "1.581139");
    assert_eq!(cell(&stats, "ints", "count"), "5");
    assert_eq!(cell(&stats, "ints", "null_count"), "0");
    assert_eq!(cell(&stats, "ints", "min"), "1");
    assert_eq!(cell(&stats, "floats", "max"), "5.0");
    assert_eq!(cell(&stats, "floats", "50%"), "3.0");
}

#[test]
fn mixed_scenario_cells() {
    let schema = vec![
        col("numbers", ColumnKind::Numeric),
        col("strings", ColumnKind::Other),
        col("bools", ColumnKind::Boolean),
    ];
    let pcts = default_percentiles();
    let wide = wide_for(&schema, &pcts, &mixed_values);
    let stats = summarize(&schema, &pcts, &wide).ok().unwrap();
    assert_eq!(stats.width(), 4);
    assert_eq!(cell(&stats, "strings", "std"), "null");
    assert_eq!(cell(&stats, "strings", "mean"), "null");
    assert_eq!(cell(&stats, "strings", "25%"), "null");
    assert_eq!(cell(&stats, "strings", "min"), "\"a\"");
    assert_eq!(cell(&stats, "bools", "mean"), "0.666667");
    assert_eq!(cell(&stats, "bools", "std"), "null");
    assert_eq!(cell(&stats, "bools", "min"), "false");
    assert_eq!(cell(&stats, "bools", "max"), "true");
}

#[test]
fn custom_percentile_labels_between_min_and_max() {
    let pcts = vec![pct("0.1", 10), pct("0.5", 50), pct("0.9", 90)];
    let labels = metric_labels(&pcts);
    assert_eq!(
        labels,
        vec!["count", "null_count", "mean", "std", "min", "10%", "50%", "90%", "max"]
    );
}

#[test]
fn row_order_without_percentiles() {
    let pcts: Vec<Percentile> = Vec::new();
    assert_eq!(metric_labels(&pcts), vec!["count", "null_count", "mean", "std", "min", "max"]);
    let schema = vec![col("x", ColumnKind::Temporal)];
    let wide = wide_for(&schema, &pcts, &|_, _, _| Scalar::Whole(1));
    let t = reshape(&schema, &pcts, &wide);
    assert_eq!(t.shape(), (6, 2));
}

#[test]
fn row_order_same_for_every_kind() {
    let pcts = default_percentiles();
    let schema = vec![
        col("t", ColumnKind::Temporal),
        col("c", ColumnKind::CategoricalOrNested),
        col("n", ColumnKind::NullOrUnknown),
    ];
    let wide = wide_for(&schema, &pcts, &|_, _, _| Scalar::Whole(0));
    let t = summarize(&schema, &pcts, &wide).ok().unwrap();
    assert_eq!(
        t.columns[0].values,
        vec!["count", "null_count", "mean", "std", "25%", "50%", "75%", "max"]
            .into_iter()
            .take(4)
            .chain(vec!["min", "25%", "50%", "75%", "max"])
            .collect::<Vec<_>>()
    );
    assert_eq!(t.shape(), (9, 4));
}

#[test]
fn empty_schema_is_refused() {
    let schema: Vec<Column> = Vec::new();
    let pcts = default_percentiles();
    assert!(matches!(plan(&schema, &pcts), Err(DescribeError::EmptySchema)));
    let wide: Vec<Entry> = Vec::new();
    assert!(matches!(summarize(&schema, &pcts, &wide), Err(DescribeError::EmptySchema)));
}

#[test]
fn plan_orders_requests_and_keys() {
    let schema = vec![col("a", ColumnKind::Numeric), col("s", ColumnKind::Other)];
    let pcts = vec![pct("0.5", 50), pct("0.5", 50)];
    let reqs = plan(&schema, &pcts).ok().unwrap();
    assert_eq!(reqs.len(), 16);
    let keys: Vec<&str> = reqs.iter().map(|r| r.key.as_str()).collect();
    assert_eq!(
        keys,
        vec![
            "count:a", "null_count:a", "mean:a", "std:a", "min:a", "0.5:0:a", "0.5:1:a", "max:a",
            "count:s", "null_count:s", "mean:s", "std:s", "min:s", "0.5:0:s", "0.5:1:s", "max:s",
        ]
    );
    assert_eq!(reqs[5].aggregation, Aggregation::Quantile(0));
    assert_eq!(reqs[6].aggregation, Aggregation::Quantile(1));
    assert_eq!(reqs[13].aggregation, Aggregation::NullPlaceholder);
    assert_eq!(reqs[12].aggregation, Aggregation::Min);
    assert_eq!(reqs[11].aggregation, Aggregation::NullPlaceholder);
    assert_eq!(reqs[15].column, 1);
}

#[test]
fn dispatch_table() {
    assert_eq!(aggregation(ColumnKind::Boolean, Stat::Mean), Aggregation::MeanAsFloat);
    assert_eq!(aggregation(ColumnKind::Numeric, Stat::Mean), Aggregation::Mean);
    assert_eq!(aggregation(ColumnKind::Temporal, Stat::Mean), Aggregation::Mean);
    assert_eq!(aggregation(ColumnKind::Temporal, Stat::Std), Aggregation::NullPlaceholder);
    assert_eq!(aggregation(ColumnKind::Temporal, Stat::Percentile(0)), Aggregation::NullPlaceholder);
    assert_eq!(aggregation(ColumnKind::Temporal, Stat::Max), Aggregation::Max);
    assert_eq!(aggregation(ColumnKind::Other, Stat::Mean), Aggregation::NullPlaceholder);
    assert_eq!(aggregation(ColumnKind::Other, Stat::Min), Aggregation::Min);
    assert_eq!(aggregation(ColumnKind::CategoricalOrNested, Stat::Min), Aggregation::NullPlaceholder);
    assert_eq!(aggregation(ColumnKind::NullOrUnknown, Stat::Max), Aggregation::NullPlaceholder);
    assert_eq!(aggregation(ColumnKind::NullOrUnknown, Stat::Count), Aggregation::Count);
    assert_eq!(aggregation(ColumnKind::Numeric, Stat::Std), Aggregation::Std);
    assert!(applies(ColumnKind::Boolean, Stat::NullCount));
    assert!(!applies(ColumnKind::Boolean, Stat::Std));
    assert!(applies(ColumnKind::Numeric, Stat::Percentile(3)));
}

#[test]
fn keys_for_each_statistic() {
    let pcts = vec![pct("0.25", 25)];
    let name = "col".to_string();
    assert_eq!(key(&name, Stat::Count, &pcts), "count:col");
    assert_eq!(key(&name, Stat::NullCount, &pcts), "null_count:col");
    assert_eq!(key(&name, Stat::Std, &pcts), "std:col");
    assert_eq!(key(&name, Stat::Percentile(0), &pcts), "0.25:0:col");
    assert_eq!(key(&name, Stat::Max, &pcts), "max:col");
}

#[test]
fn cell_formatting_rules() {
    let whole = Scalar::Whole(-42);
    assert_eq!(render_cell(Some(&whole), ColumnKind::Numeric, Stat::Count), "-42");
    assert_eq!(render_cell(Some(&whole), ColumnKind::Numeric, Stat::Mean), "-42.000000");
    assert_eq!(render_cell(Some(&whole), ColumnKind::Temporal, Stat::Mean), "-42");
    assert_eq!(render_cell(Some(&whole), ColumnKind::NullOrUnknown, Stat::Std), "-42.000000");
    let neg = Scalar::Real { plain: "-1.5".to_string(), negative: true, units: 1, micros: 500000 };
    assert_eq!(render_cell(Some(&neg), ColumnKind::Numeric, Stat::Std), "-1.500000");
    assert_eq!(render_cell(Some(&neg), ColumnKind::Numeric, Stat::Min), "-1.5");
    let small = fixed_real("2.00005", 2, 50);
    assert_eq!(render_cell(Some(&small), ColumnKind::Numeric, Stat::Mean), "2.000050");
    assert_eq!(render_cell(Some(&Scalar::Null), ColumnKind::Numeric, Stat::Mean), "null");
    assert_eq!(render_cell(None, ColumnKind::Numeric, Stat::Count), "null");
    let t = Scalar::Text("true".to_string());
    assert_eq!(render_cell(Some(&t), ColumnKind::Boolean, Stat::Min), "false");
    assert_eq!(render_cell(Some(&t), ColumnKind::Boolean, Stat::Max), "true");
    assert_eq!(render_cell(Some(&Scalar::Null), ColumnKind::Boolean, Stat::Min), "null");
    let date = Scalar::Text("2024-03-01".to_string());
    assert_eq!(render_cell(Some(&date), ColumnKind::Temporal, Stat::Mean), "2024-03-01");
}

#[test]
fn missing_key_reads_as_null() {
    let schema = vec![col("a", ColumnKind::Numeric)];
    let pcts = default_percentiles();
    let wide = vec![Entry { key: "count:a".to_string(), value: Scalar::Whole(7) }];
    let t = reshape(&schema, &pcts, &wide);
    assert_eq!(t.columns[1].values[0], "7");
    assert!(t.columns[1].values[1..].iter().all(|v| v == "null"));
    assert!(lookup(&wide, &"count:b".to_string()).is_none());
}

#[test]
fn counts_have_no_decimal_point() {
    let schema = vec![col("x", ColumnKind::Numeric), col("y", ColumnKind::Boolean)];
    let pcts = default_percentiles();
    let wide = wide_for(&schema, &pcts, &|_, s, _| match s {
        Stat::Count => Scalar::Whole(123456),
        Stat::NullCount => Scalar::Whole(10),
        _ => fixed_real("0.5", 0, 500000),
    });
    let t = reshape(&schema, &pcts, &wide);
    for c in 1..3 {
        assert!(!t.columns[c].values[0].contains('.'));
        assert!(!t.columns[c].values[1].contains('.'));
    }
    assert_eq!(t.columns[1].values[0], "123456");
    assert_eq!(t.columns[2].values[1], "10");
}

#[test]
fn same_inputs_give_same_table() {
    let schema = vec![col("ints", ColumnKind::Numeric), col("s", ColumnKind::Other)];
    let pcts = default_percentiles();
    let wide = wide_for(&schema, &pcts, &numeric_five);
    let a = reshape(&schema, &pcts, &wide);
    let b = reshape(&schema, &pcts, &wide);
    assert_eq!(a.columns.len(), b.columns.len());
    for (x, y) in a.columns.iter().zip(b.columns.iter()) {
        assert_eq!(x.name, y.name);
        assert_eq!(x.values, y.values);
    }
}

#[test]
fn integer_text() {
    assert_eq!(decimal_text(0), "0");
    assert_eq!(decimal_text(1234567890), "1234567890");
    assert_eq!(decimal_text(u64::MAX), "18446744073709551615");
    assert_eq!(signed_decimal_text(i64::MIN), "-9223372036854775808");
    assert_eq!(signed_decimal_text(-7), "-7");
    assert_eq!(six_digit_text(0), "000000");
    assert_eq!(six_digit_text(42), "000042");
    assert_eq!(six_digit_text(999999), "999999");
}

#[test]
fn negative_percent_label() {
    let pcts = vec![pct("-0.5", -50), pct("1", 100)];
    let labels = metric_labels(&pcts);
    assert_eq!(labels[5], "-50%");
    assert_eq!(labels[6], "100%");
}
