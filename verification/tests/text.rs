use trunk_config::compression::Compressor;
use trunk_config::text::digit_value;
use trunk_config::text::parse_flag;
use trunk_config::text::parse_port;
use trunk_config::text::split_list;

#[test]
fn flags_are_true_or_false_only() {
    assert_eq!(parse_flag(&"true".to_string()), Some(true));
    assert_eq!(parse_flag(&"false".to_string()), Some(false));
    for other in ["", "True", "TRUE", "1", "0", "yes", " true", "true ", "truee"] {
        assert_eq!(parse_flag(&other.to_string()), None);
    }
}

#[test]
fn digits_have_their_values() {
    assert_eq!(digit_value('0'), Some(0));
    assert_eq!(digit_value('7'), Some(7));
    assert_eq!(digit_value('9'), Some(9));
    assert_eq!(digit_value('a'), None);
    assert_eq!(digit_value('+'), None);
    assert_eq!(digit_value('٣'), None);
}

#[test]
fn ports_are_decimal_numbers_up_to_65535() {
    assert_eq!(parse_port("0"), Some(0));
    assert_eq!(parse_port("80"), Some(80));
    assert_eq!(parse_port("8080"), Some(8080));
    assert_eq!(parse_port("65535"), Some(65535));
    assert_eq!(parse_port("+443"), Some(443));
    assert_eq!(parse_port("0080"), Some(80));
    assert_eq!(parse_port("000000000000000000000065535"), Some(65535));
    assert_eq!(parse_port("65536"), None);
    assert_eq!(parse_port("655350"), None);
    assert_eq!(parse_port("99999999999999999999999999"), None);
    assert_eq!(parse_port(""), None);
    assert_eq!(parse_port("+"), None);
    assert_eq!(parse_port("++1"), None);
    assert_eq!(parse_port("-1"), None);
    assert_eq!(parse_port("-0"), None);
    assert_eq!(parse_port(" 80"), None);
    assert_eq!(parse_port("80 "), None);
    assert_eq!(parse_port("8_0"), None);
    assert_eq!(parse_port("80a"), None);
    assert_eq!(parse_port("0x50"), None);
    assert_eq!(parse_port("８０"), None);
}

#[test]
fn ports_agree_with_the_standard_parser() {
    let samples = [
        "0", "1", "9", "10", "443", "8080", "65535", "65536", "70000", "+1", "+65535", "+65536",
        "", "+", "-", "-5", "00", "007", "1e3", "12 ", " 12", "1,2", "4294967296", "65535x",
    ];
    for text in samples {
        assert_eq!(parse_port(text), text.parse::<u16>().ok(), "for {:?}", text);
    }
    for number in [0u32, 5, 99, 100, 1234, 65534, 65535, 65536, 65537, 100000] {
        let text = number.to_string();
        assert_eq!(parse_port(&text), text.parse::<u16>().ok(), "for {:?}", text);
    }
}

#[test]
fn lists_are_split_at_commas() {
    assert_eq!(split_list(""), Vec::<String>::new());
    assert_eq!(split_list("a"), vec!["a"]);
    assert_eq!(split_list("a,b"), vec!["a", "b"]);
    assert_eq!(split_list("src/a,src/b,c"), vec!["src/a", "src/b", "c"]);
    assert_eq!(split_list(","), vec!["", ""]);
    assert_eq!(split_list("a,"), vec!["a", ""]);
    assert_eq!(split_list(",a"), vec!["", "a"]);
    assert_eq!(split_list("a,,b"), vec!["a", "", "b"]);
    assert_eq!(split_list(" a , b "), vec![" a ", " b "]);
    assert_eq!(split_list("é,ü"), vec!["é", "ü"]);
}

#[test]
fn lists_agree_with_the_standard_split() {
    for text in ["a", "a,b", ",", ",,", "a,,b,", "x y,z", "no commas here"] {
        let expected: Vec<String> = text.split(',').map(|piece| piece.to_string()).collect();
        assert_eq!(split_list(text), expected);
    }
}

#[test]
fn compressors_have_three_names() {
    assert_eq!(Compressor::from_name(&"gzip".to_string()), Some(Compressor::Gzip));
    assert_eq!(Compressor::from_name(&"brotli".to_string()), Some(Compressor::Brotli));
    assert_eq!(Compressor::from_name(&"zstd".to_string()), Some(Compressor::Zstd));
    assert_eq!(Compressor::from_name(&"Gzip".to_string()), None);
    assert_eq!(Compressor::from_name(&"deflate".to_string()), None);
    assert_eq!(Compressor::from_name(&"".to_string()), None);
}
