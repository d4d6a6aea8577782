use rflink_gateway::text::{
    decimal_chars, is_text, parse_i64, same_chars, signed_decimal_text, slice_chars, split_chars,
    text_of, to_chars, to_digit, to_text,
};

fn chars(s: &str) -> Vec<char> {
    s.chars().collect()
}

#[test]
fn chars_and_back() {
    assert_eq!(to_chars("héllo"), vec!['h', 'é', 'l', 'l', 'o']);
    assert_eq!(to_chars(""), Vec::<char>::new());
    assert_eq!(text_of(&chars("héllo")), "héllo");
    assert_eq!(to_text(&chars("héllo"), 1, 3), "él");
    assert_eq!(to_text(&chars("abc"), 2, 2), "");
    assert_eq!(slice_chars(&chars("abcdef"), 2, 5), chars("cde"));
}

#[test]
fn comparing_texts() {
    assert!(same_chars(&chars("abc"), &chars("abc")));
    assert!(!same_chars(&chars("abc"), &chars("abd")));
    assert!(!same_chars(&chars("abc"), &chars("ab")));
    assert!(same_chars(&chars(""), &chars("")));
    assert!(is_text(&chars("DEBUG"), "DEBUG"));
    assert!(!is_text(&chars("DEBUG "), "DEBUG"));
}

#[test]
fn splitting_agrees_with_std() {
    for line in ["", ";", "a", "a;b", ";a;;b;", "20;03;Oregon Temp;ID=0410;TEMP=0153;BAT=OK;"] {
        let expected: Vec<Vec<char>> = line.split(';').map(|f| f.chars().collect()).collect();
        assert_eq!(split_chars(&chars(line), ';'), expected, "{}", line);
    }
    assert_eq!(split_chars(&chars("1,2,,3"), ','), vec![chars("1"), chars("2"), chars(""), chars("3")]);
}

#[test]
fn digits() {
    assert_eq!(to_digit('0', 2), Some(0));
    assert_eq!(to_digit('1', 2), Some(1));
    assert_eq!(to_digit('2', 2), None);
    assert_eq!(to_digit('9', 10), Some(9));
    assert_eq!(to_digit('a', 10), None);
    assert_eq!(to_digit('a', 16), Some(10));
    assert_eq!(to_digit('F', 16), Some(15));
    assert_eq!(to_digit('g', 16), None);
    assert_eq!(to_digit('z', 36), Some(35));
    assert_eq!(to_digit('Z', 36), Some(35));
    assert_eq!(to_digit('-', 36), None);
    assert_eq!(to_digit('é', 36), None);
}

#[test]
fn parsing_agrees_with_std() {
    let samples = [
        "", "+", "-", "0", "-0", "+0", "7", "007", "153", "0153", "-153", "+153", "1 ", " 1", "1_0",
        "ff", "FF", "fg", "101", "102", "zz", "9223372036854775807", "9223372036854775808",
        "-9223372036854775808", "-9223372036854775809", "7fffffffffffffff", "8000000000000000",
        "-8000000000000000", "-8000000000000001", "00000000000000000000000000000000000001",
        "--1", "+-1", "1-", "é",
    ];
    for radix in [2u32, 8, 10, 16, 36] {
        for s in samples {
            assert_eq!(
                parse_i64(&chars(s), radix),
                i64::from_str_radix(s, radix).ok(),
                "{:?} in radix {}",
                s,
                radix
            );
        }
    }
}

#[test]
fn exact_values() {
    assert_eq!(parse_i64(&chars("0153"), 16), Some(339));
    assert_eq!(parse_i64(&chars("11001011"), 2), Some(203));
    assert_eq!(parse_i64(&chars("-12"), 10), Some(-12));
    assert_eq!(parse_i64(&chars("12a"), 10), None);
}

#[test]
fn decimal_notation() {
    assert_eq!(decimal_chars(0), chars("0"));
    assert_eq!(decimal_chars(9), chars("9"));
    assert_eq!(decimal_chars(10), chars("10"));
    assert_eq!(decimal_chars(203), chars("203"));
    assert_eq!(decimal_chars(u64::MAX), chars("18446744073709551615"));
    assert_eq!(signed_decimal_text(0), "0");
    assert_eq!(signed_decimal_text(255), "255");
    assert_eq!(signed_decimal_text(-1), "-1");
    assert_eq!(signed_decimal_text(i64::MIN), i64::MIN.to_string());
    assert_eq!(signed_decimal_text(i64::MAX), i64::MAX.to_string());
}

#[test]
fn decimal_notation_reads_back() {
    for v in [0i64, 1, -1, 9, 10, -10, 203, 255, -256, 4095, i64::MAX, i64::MIN] {
        let text: Vec<char> = signed_decimal_text(v).chars().collect();
        assert_eq!(parse_i64(&text, 10), Some(v));
    }
}
