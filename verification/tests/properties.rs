use du::decimal::{parse_u64, u64_to_string};
use du::errors::Error;
use du::file_size_formatter::{ComputedSize, FileSize, FileSizeFormatter, SizeAndUnitParsed};
use du::process;
use du::text::{split_whitespace_tokens, str_ieq};

#[test]
fn test_parse_is_case_insensitive() {
    let formatter = FileSizeFormatter;
    let expected = SizeAndUnitParsed(1, FileSize::Megabytes);

    assert_eq!(formatter.parse("1 MB".to_owned()).unwrap(), expected);
    assert_eq!(formatter.parse("1 mb".to_owned()).unwrap(), expected);
    assert_eq!(formatter.parse("1 Megabytes".to_owned()).unwrap(), expected);
    assert_eq!(formatter.parse("1 mB".to_owned()).unwrap(), expected);
    assert_eq!(formatter.parse("1 MEGABYTES".to_owned()).unwrap(), expected);
}

#[test]
fn test_parse_accepts_every_spelling() {
    let formatter = FileSizeFormatter;

    assert_eq!(
        formatter.parse("2 b".to_owned()).unwrap(),
        SizeAndUnitParsed(2, FileSize::Bytes)
    );
    assert_eq!(
        formatter.parse("2 Bytes".to_owned()).unwrap(),
        SizeAndUnitParsed(2, FileSize::Bytes)
    );
    assert_eq!(
        formatter.parse("2 KB".to_owned()).unwrap(),
        SizeAndUnitParsed(2, FileSize::Kilobytes)
    );
    assert_eq!(
        formatter.parse("2 kilobytes".to_owned()).unwrap(),
        SizeAndUnitParsed(2, FileSize::Kilobytes)
    );
    assert_eq!(
        formatter.parse("2 gb".to_owned()).unwrap(),
        SizeAndUnitParsed(2, FileSize::Gigabytes)
    );
    assert_eq!(
        formatter.parse("2 GigaBytes".to_owned()).unwrap(),
        SizeAndUnitParsed(2, FileSize::Gigabytes)
    );
}

#[test]
fn test_parse_rejects_near_misses() {
    let formatter = FileSizeFormatter;

    assert!(matches!(
        formatter.parse("2 megabyte".to_owned()),
        Err(Error::InvalidParsedUnit(_))
    ));
    assert!(matches!(
        formatter.parse("2 m b".to_owned()),
        Err(Error::InvalidParsedSizeAndUnit(_))
    ));
    assert!(matches!(
        formatter.parse("2 tb".to_owned()),
        Err(Error::InvalidParsedUnit(_))
    ));
}

#[test]
fn test_compute_round_trip_on_matching_field() {
    let formatter = FileSizeFormatter;

    let ComputedSize(b, _, _, _) = formatter.compute(1999, FileSize::Bytes).unwrap();
    assert_eq!(b, 1999);
    let ComputedSize(_, kb, _, _) = formatter.compute(1999, FileSize::Kilobytes).unwrap();
    assert_eq!(kb, 1999);
    let ComputedSize(_, _, mb, _) = formatter.compute(1999, FileSize::Megabytes).unwrap();
    assert_eq!(mb, 1999);
    let ComputedSize(_, _, _, gb) = formatter.compute(1999, FileSize::Gigabytes).unwrap();
    assert_eq!(gb, 1999);
}

#[test]
fn test_compute_scales_exactly() {
    let formatter = FileSizeFormatter;

    assert_eq!(
        formatter.compute(1999, FileSize::Bytes).unwrap(),
        ComputedSize(1999, 1, 0, 0)
    );
    assert_eq!(
        formatter.compute(3, FileSize::Megabytes).unwrap(),
        ComputedSize(3000000, 3000, 3, 0)
    );
    assert_eq!(
        formatter.compute(5, FileSize::Gigabytes).unwrap(),
        ComputedSize(5000000000, 5000000, 5000, 5)
    );
    assert!(matches!(
        formatter.compute(u64::MAX, FileSize::Kilobytes),
        Err(Error::Overflow(_))
    ));
    assert!(matches!(
        formatter.compute(u64::MAX, FileSize::Bytes),
        Ok(_)
    ));
}

#[test]
fn test_process_without_argument() {
    let result = process(None);

    if let Err(Error::NotArgumentSizeAndUnitProvided(msg)) = result {
        assert_eq!(msg, "NotArgumentSizeAndUnitProvided");
    } else {
        panic!("Expected NotArgumentSizeAndUnitProvided error");
    }
}

#[test]
fn test_process_with_argument() {
    let size = process(Some("1000 kilobytes".to_owned())).unwrap();
    assert_eq!(size.bytes, "1000000 bytes");
    assert_eq!(size.kilobytes, "1000 kilobytes");
    assert_eq!(size.megabytes, "1 megabytes");
    assert_eq!(size.gigabytes, "0 gigabytes");
}

#[test]
fn test_error_messages_name_the_kind() {
    let e = Error::InvalidParsedSize("InvalidParsedSize : {size}".to_owned());
    assert_eq!(e.message(), "InvalidParsedSize: InvalidParsedSize : {size}");

    let e = Error::NotArgumentSizeAndUnitProvided("NotArgumentSizeAndUnitProvided".to_owned());
    assert_eq!(
        e.message(),
        "NotArgumentSizeAndUnitProvided: NotArgumentSizeAndUnitProvided"
    );

    let e = Error::Overflow("Overflow : {size_and_unit}".to_owned());
    assert_eq!(e.message(), "Overflow: Overflow : {size_and_unit}");
}

#[test]
fn test_split_whitespace_tokens_collapses_runs() {
    let toks = split_whitespace_tokens("  16   mb  ");
    assert_eq!(toks, vec!["16".to_owned(), "mb".to_owned()]);

    let toks = split_whitespace_tokens("");
    assert!(toks.is_empty());

    let toks = split_whitespace_tokens(" \t\n ");
    assert!(toks.is_empty());

    let toks = split_whitespace_tokens("a b\tc");
    assert_eq!(toks, vec!["a".to_owned(), "b".to_owned(), "c".to_owned()]);
}

#[test]
fn test_str_ieq_folds_ascii_case_only() {
    assert!(str_ieq("MB", "mb"));
    assert!(str_ieq("GigaBytes", "gigabytes"));
    assert!(!str_ieq("mb", "mc"));
    assert!(!str_ieq("mb", "mbb"));
    assert!(!str_ieq("", "b"));
    assert!(str_ieq("", ""));
}

#[test]
fn test_u64_rendering_is_canonical() {
    assert_eq!(u64_to_string(0), "0");
    assert_eq!(u64_to_string(7), "7");
    assert_eq!(u64_to_string(1000), "1000");
    assert_eq!(u64_to_string(u64::MAX), "18446744073709551615");
}

#[test]
fn test_parse_u64_accepts_digits_only() {
    assert_eq!(parse_u64("0"), Some(0));
    assert_eq!(parse_u64("1000"), Some(1000));
    assert_eq!(parse_u64("18446744073709551615"), Some(u64::MAX));
    assert_eq!(parse_u64("18446744073709551616"), None);
    assert_eq!(parse_u64(""), None);
    assert_eq!(parse_u64("+1"), None);
    assert_eq!(parse_u64("-1"), None);
    assert_eq!(parse_u64("1.0"), None);
    assert_eq!(parse_u64("1 0"), None);
}
