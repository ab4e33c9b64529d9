use chores::daylist::{format_day_range, parse_day_range};

#[test]
fn test_parse_single_day() {
    assert_eq!(parse_day_range("1").unwrap(), vec![1]);
    assert_eq!(parse_day_range("15").unwrap(), vec![15]);
    assert_eq!(parse_day_range("31").unwrap(), vec![31]);
}

#[test]
fn test_parse_multiple_single_days() {
    assert_eq!(parse_day_range("1, 15").unwrap(), vec![1, 15]);
    assert_eq!(parse_day_range("5,10,20").unwrap(), vec![5, 10, 20]);
    assert_eq!(parse_day_range("1,  2,   3").unwrap(), vec![1, 2, 3]);
}

#[test]
fn test_parse_single_range() {
    assert_eq!(parse_day_range("1-5").unwrap(), vec![1, 2, 3, 4, 5]);
    assert_eq!(parse_day_range("10-15").unwrap(), vec![10, 11, 12, 13, 14, 15]);
    assert_eq!(parse_day_range("28-31").unwrap(), vec![28, 29, 30, 31]);
}

#[test]
fn test_parse_single_day_range() {
    assert_eq!(parse_day_range("5-5").unwrap(), vec![5]);
}

#[test]
fn test_parse_mixed_days_and_ranges() {
    assert_eq!(parse_day_range("1, 4-7, 10").unwrap(), vec![1, 4, 5, 6, 7, 10]);
    assert_eq!(
        parse_day_range("1, 2, 4-7, 10, 15-17").unwrap(),
        vec![1, 2, 4, 5, 6, 7, 10, 15, 16, 17]
    );
    assert_eq!(
        parse_day_range("1-3, 10-12, 20").unwrap(),
        vec![1, 2, 3, 10, 11, 12, 20]
    );
}

#[test]
fn test_parse_with_whitespace() {
    assert_eq!(parse_day_range("  1  ").unwrap(), vec![1]);
    assert_eq!(parse_day_range(" 1 - 5 ").unwrap(), vec![1, 2, 3, 4, 5]);
    assert_eq!(parse_day_range("  1  ,  2  ,  3  ").unwrap(), vec![1, 2, 3]);
    assert_eq!(parse_day_range("1 - 3, 5 - 7").unwrap(), vec![1, 2, 3, 5, 6, 7]);
}

#[test]
fn test_parse_trailing_comma() {
    assert_eq!(parse_day_range("1, 2, 3,").unwrap(), vec![1, 2, 3]);
    assert_eq!(parse_day_range("1,").unwrap(), vec![1]);
}

#[test]
fn test_parse_sorts_and_deduplicates() {
    assert_eq!(parse_day_range("15, 1, 10").unwrap(), vec![1, 10, 15]);
    assert_eq!(parse_day_range("1, 1, 2, 2, 3").unwrap(), vec![1, 2, 3]);
    assert_eq!(parse_day_range("1-5, 3-7").unwrap(), vec![1, 2, 3, 4, 5, 6, 7]);
    assert_eq!(parse_day_range("5, 1-5").unwrap(), vec![1, 2, 3, 4, 5]);
}

#[test]
fn test_parse_all_days() {
    let result = parse_day_range("1-31").unwrap();
    assert_eq!(result.len(), 31);
    assert_eq!(result[0], 1);
    assert_eq!(result[30], 31);
}

#[test]
fn test_parse_empty_input() {
    assert!(parse_day_range("").is_err());
    assert!(parse_day_range("   ").is_err());
}

#[test]
fn test_parse_invalid_number() {
    let err = parse_day_range("abc").unwrap_err();
    assert!(err.contains("Invalid number"));

    let err = parse_day_range("1, two, 3").unwrap_err();
    assert!(err.contains("Invalid number"));

    let err = parse_day_range("1-abc").unwrap_err();
    assert!(err.contains("Invalid number"));
}

#[test]
fn test_parse_out_of_range() {
    let err = parse_day_range("0").unwrap_err();
    assert!(err.contains("out of range"));

    let err = parse_day_range("32").unwrap_err();
    assert!(err.contains("out of range"));

    let err = parse_day_range("100").unwrap_err();
    assert!(err.contains("out of range"));

    let err = parse_day_range("28-35").unwrap_err();
    assert!(err.contains("out of range"));

    let err = parse_day_range("0-5").unwrap_err();
    assert!(err.contains("out of range"));
}

#[test]
fn test_parse_reversed_range() {
    let err = parse_day_range("10-5").unwrap_err();
    assert!(err.contains("start must be <= end"));
}

#[test]
fn test_parse_invalid_range_format() {
    let err = parse_day_range("1-2-3").unwrap_err();
    assert!(err.contains("Invalid range format"));
}

#[test]
fn test_format_empty() {
    assert_eq!(format_day_range(&[]), "");
}

#[test]
fn test_format_single_day() {
    assert_eq!(format_day_range(&[1]), "1");
    assert_eq!(format_day_range(&[15]), "15");
    assert_eq!(format_day_range(&[31]), "31");
}

#[test]
fn test_format_non_adjacent_days() {
    assert_eq!(format_day_range(&[1, 15]), "1, 15");
    assert_eq!(format_day_range(&[1, 10, 20]), "1, 10, 20");
    assert_eq!(format_day_range(&[5, 10, 15, 20, 25]), "5, 10, 15, 20, 25");
}

#[test]
fn test_format_adjacent_pair() {
    assert_eq!(format_day_range(&[1, 2]), "1-2");
    assert_eq!(format_day_range(&[15, 16]), "15-16");
}

#[test]
fn test_format_simple_range() {
    assert_eq!(format_day_range(&[1, 2, 3, 4, 5]), "1-5");
    assert_eq!(format_day_range(&[10, 11, 12, 13, 14, 15]), "10-15");
}

#[test]
fn test_format_multiple_ranges() {
    assert_eq!(format_day_range(&[1, 2, 3, 10, 11, 12]), "1-3, 10-12");
    assert_eq!(format_day_range(&[1, 2, 5, 6, 7, 10]), "1-2, 5-7, 10");
}

#[test]
fn test_format_mixed() {
    assert_eq!(format_day_range(&[1, 4, 5, 6, 7, 10]), "1, 4-7, 10");
    assert_eq!(
        format_day_range(&[1, 2, 4, 5, 6, 7, 10, 15, 16, 17]),
        "1-2, 4-7, 10, 15-17"
    );
}

#[test]
fn test_format_unsorted_input() {
    assert_eq!(format_day_range(&[15, 1, 10]), "1, 10, 15");
    assert_eq!(format_day_range(&[5, 3, 1, 2, 4]), "1-5");
}

#[test]
fn test_format_with_duplicates() {
    assert_eq!(format_day_range(&[1, 1, 2, 2, 3]), "1-3");
    assert_eq!(format_day_range(&[5, 5, 5]), "5");
}

#[test]
fn test_format_all_days() {
    let all_days: Vec<i32> = (1..=31).collect();
    assert_eq!(format_day_range(&all_days), "1-31");
}

#[test]
fn test_format_complex_pattern() {
    assert_eq!(
        format_day_range(&[1, 2, 3, 4, 5, 6, 7, 15, 25, 26, 27, 28, 29, 30, 31]),
        "1-7, 15, 25-31"
    );
}

#[test]
fn test_roundtrip_simple() {
    let inputs = vec!["1", "1, 15", "1-5", "1, 4-7, 10", "1-2, 4-7, 10, 15-17"];

    for input in inputs {
        let parsed = parse_day_range(input).unwrap();
        let formatted = format_day_range(&parsed);
        let reparsed = parse_day_range(&formatted).unwrap();
        assert_eq!(parsed, reparsed, "Round-trip failed for: {}", input);
    }
}

#[test]
fn test_roundtrip_normalizes() {
    let parsed = parse_day_range("5, 1-5, 3").unwrap();
    let formatted = format_day_range(&parsed);
    assert_eq!(formatted, "1-5");
}

#[test]
fn test_parse_boundary_days() {
    assert_eq!(parse_day_range("1").unwrap(), vec![1]);
    assert_eq!(parse_day_range("31").unwrap(), vec![31]);
    assert_eq!(parse_day_range("1-31").unwrap().len(), 31);
}

#[test]
fn test_format_preserves_order() {
    assert_eq!(format_day_range(&[31, 1, 15, 10, 5]), "1, 5, 10, 15, 31");
}

#[test]
fn test_parse_long_list() {
    let input = (1..=31).map(|d| d.to_string()).collect::<Vec<_>>().join(", ");
    let result = parse_day_range(&input).unwrap();
    assert_eq!(result.len(), 31);
}

#[test]
fn test_format_efficiency() {
    let days: Vec<i32> = (1..=10).collect();
    let formatted = format_day_range(&days);
    assert_eq!(formatted, "1-10");
    assert!(formatted.len() < 30);
}

#[test]
fn test_parse_exact_error_texts() {
    assert_eq!(parse_day_range("").unwrap_err(), "Please enter at least one day");
    assert_eq!(parse_day_range("32").unwrap_err(), "Day 32 is out of range (1-31)");
    assert_eq!(parse_day_range("abc").unwrap_err(), "Invalid number: 'abc'");
    assert_eq!(
        parse_day_range("10-5").unwrap_err(),
        "Range start must be <= end: '10-5'"
    );
    assert_eq!(
        parse_day_range("1-2-3").unwrap_err(),
        "Invalid range format: '1-2-3'"
    );
}

#[test]
fn test_parse_plus_prefix_and_overflow() {
    assert_eq!(parse_day_range("+5").unwrap(), vec![5]);
    let err = parse_day_range("99999999999999999999").unwrap_err();
    assert!(err.contains("Invalid number"));
}
