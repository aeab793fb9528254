use rollingwins::rolling::calculate_rolling_returns;
use rollingwins::rolling::RollingError;
use rollingwins::table::Column;
use rollingwins::table::ColumnData;
use rollingwins::table::Table;

fn float_column(name: &str, values: &[f64]) -> Column {
    Column {
        name: String::from(name),
        data: ColumnData::Float64 { bits: values.iter().map(|v| v.to_bits()).collect() },
    }
}

fn price_table(values: &[f64]) -> Table {
    Table { columns: vec![float_column("price", values)] }
}

fn expect_float_bits(table: &Table) -> (String, Vec<u64>) {
    assert_eq!(table.columns.len(), 1);
    let col = &table.columns[0];
    match &col.data {
        ColumnData::Float64 { bits } => (col.name.clone(), bits.clone()),
        _ => panic!("output column is not floating-point"),
    }
}

fn hw_return(start: f64, end: f64) -> u64 {
    ((end - start) / start).to_bits()
}

#[test]
fn three_prices_window_two() {
    let table = price_table(&[100.0, 110.0, 121.0]);
    let out = calculate_rolling_returns(&table, "price", 2).unwrap();
    let (name, bits) = expect_float_bits(&out);
    assert_eq!(name, "price_return_2_day");
    assert_eq!(bits, vec![(0.1f64).to_bits(), (0.1f64).to_bits()]);
}

#[test]
fn row_count_is_rows_minus_k_plus_one() {
    let table = price_table(&[1.0, 2.0, 3.0, 4.0, 5.0]);
    let out = calculate_rolling_returns(&table, "price", 3).unwrap();
    let (_, bits) = expect_float_bits(&out);
    assert_eq!(bits.len(), 5 - 3 + 1);
}

#[test]
fn output_values_are_exact_window_returns() {
    let values = [2.0, 3.0, 5.0, 7.0];
    let table = price_table(&values);
    let out = calculate_rolling_returns(&table, "price", 2).unwrap();
    let (_, bits) = expect_float_bits(&out);
    let expected: Vec<u64> = (0..3).map(|i| hw_return(values[i], values[i + 1])).collect();
    assert_eq!(bits, expected);
}

#[test]
fn longer_window_uses_window_ends() {
    let values = [8.0, 1.0, 6.0, 4.0, 10.0];
    let table = price_table(&values);
    let out = calculate_rolling_returns(&table, "price", 4).unwrap();
    let (_, bits) = expect_float_bits(&out);
    assert_eq!(bits, vec![hw_return(8.0, 4.0), hw_return(1.0, 10.0)]);
}

#[test]
fn output_column_name_embeds_column_and_k() {
    let table = Table { columns: vec![float_column("close", &[1.0; 12])] };
    let out = calculate_rolling_returns(&table, "close", 10).unwrap();
    let (name, _) = expect_float_bits(&out);
    assert_eq!(name, "close_return_10_day");
}

#[test]
fn idempotent_bit_identical() {
    let values = [100.0, 0.0, -3.5, 7.25, 1e300];
    let table = price_table(&values);
    let out1 = calculate_rolling_returns(&table, "price", 2).unwrap();
    let out2 = calculate_rolling_returns(&table, "price", 2).unwrap();
    let (name1, bits1) = expect_float_bits(&out1);
    let (name2, bits2) = expect_float_bits(&out2);
    assert_eq!(name1, name2);
    assert_eq!(bits1, bits2);
}

#[test]
fn insufficient_data_reports_both_values() {
    let table = price_table(&[100.0]);
    match calculate_rolling_returns(&table, "price", 2) {
        Err(RollingError::InsufficientData { required, actual }) => {
            assert_eq!(required, 2);
            assert_eq!(actual, 1);
        }
        _ => panic!("expected InsufficientData"),
    }
}

#[test]
fn insufficient_data_message() {
    let table = price_table(&[100.0]);
    let err = calculate_rolling_returns(&table, "price", 2).unwrap_err();
    assert_eq!(err.message(), "Not enough data points. Need at least 2 prices, got 1");
}

#[test]
fn column_not_found_names_column() {
    let table = price_table(&[100.0, 101.0]);
    match calculate_rolling_returns(&table, "volume", 2) {
        Err(RollingError::ColumnNotFound { column }) => assert_eq!(column, "volume"),
        _ => panic!("expected ColumnNotFound"),
    }
}

#[test]
fn column_not_found_message() {
    let table = Table { columns: vec![] };
    let err = calculate_rolling_returns(&table, "price", 1).unwrap_err();
    assert_eq!(err.message(), "Column 'price' not found");
}

#[test]
fn string_column_is_type_mismatch() {
    let table = Table {
        columns: vec![Column {
            name: String::from("price"),
            data: ColumnData::Utf8 {
                strings: vec![String::from("a"), String::from("b"), String::from("c")],
            },
        }],
    };
    match calculate_rolling_returns(&table, "price", 2) {
        Err(RollingError::TypeMismatch { column }) => assert_eq!(column, "price"),
        _ => panic!("expected TypeMismatch"),
    }
}

#[test]
fn integer_column_is_type_mismatch() {
    let table = Table {
        columns: vec![Column {
            name: String::from("price"),
            data: ColumnData::Int64 { ints: vec![100, 110, 121] },
        }],
    };
    let err = calculate_rolling_returns(&table, "price", 2).unwrap_err();
    assert_eq!(err.message(), "Column 'price' must be numeric");
}

#[test]
fn window_equal_to_row_count_gives_one_row() {
    let values = [50.0, 55.0, 66.0];
    let table = price_table(&values);
    let out = calculate_rolling_returns(&table, "price", 3).unwrap();
    let (name, bits) = expect_float_bits(&out);
    assert_eq!(name, "price_return_3_day");
    assert_eq!(bits, vec![hw_return(50.0, 66.0)]);
}

#[test]
fn window_of_one_returns_zero_for_each_row() {
    let values = [4.0, 9.0];
    let table = price_table(&values);
    let out = calculate_rolling_returns(&table, "price", 1).unwrap();
    let (_, bits) = expect_float_bits(&out);
    assert_eq!(bits, vec![hw_return(4.0, 4.0), hw_return(9.0, 9.0)]);
}

#[test]
fn zero_start_price_gives_infinity() {
    let table = price_table(&[0.0, 1.0]);
    let out = calculate_rolling_returns(&table, "price", 2).unwrap();
    let (_, bits) = expect_float_bits(&out);
    assert_eq!(bits, vec![f64::INFINITY.to_bits()]);
}

#[test]
fn zero_over_zero_is_nan() {
    let table = price_table(&[0.0, 0.0]);
    let out = calculate_rolling_returns(&table, "price", 2).unwrap();
    let (_, bits) = expect_float_bits(&out);
    assert_eq!(bits.len(), 1);
    assert!(f64::from_bits(bits[0]).is_nan());
}

#[test]
fn picks_named_column_among_several() {
    let table = Table {
        columns: vec![
            float_column("open", &[1.0, 1.0, 1.0]),
            float_column("close", &[10.0, 20.0, 30.0]),
        ],
    };
    let out = calculate_rolling_returns(&table, "close", 2).unwrap();
    let (name, bits) = expect_float_bits(&out);
    assert_eq!(name, "close_return_2_day");
    assert_eq!(bits, vec![hw_return(10.0, 20.0), hw_return(20.0, 30.0)]);
}

#[test]
fn input_table_is_unchanged() {
    let table = price_table(&[100.0, 110.0]);
    let _ = calculate_rolling_returns(&table, "price", 2).unwrap();
    assert_eq!(table.columns.len(), 1);
    assert_eq!(table.columns[0].name, "price");
    match &table.columns[0].data {
        ColumnData::Float64 { bits } => {
            assert_eq!(bits, &vec![(100.0f64).to_bits(), (110.0f64).to_bits()]);
        }
        _ => panic!("input column changed type"),
    }
}

#[test]
fn percent_return_matches_hardware() {
    let cases: [(f64, f64); 6] = [
        (100.0, 110.0),
        (110.0, 121.0),
        (-2.0, 3.0),
        (1e-300, 1e300),
        (7.0, 7.0),
        (3.0, -4.5),
    ];
    for (start, end) in cases {
        let got = rollingwins::float_bits::percent_return(start.to_bits(), end.to_bits());
        assert_eq!(got, hw_return(start, end), "start {start} end {end}");
    }
}

#[test]
fn column_count_counts_columns() {
    let table = Table {
        columns: vec![float_column("open", &[1.0]), float_column("close", &[2.0])],
    };
    assert_eq!(table.column_count(), 2);
}
