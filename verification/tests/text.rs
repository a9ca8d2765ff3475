use chess_analysis::text::{
    find_byte, format_u8, has_infix, has_prefix, is_space_byte, literal, matches_at, parse_i32,
    same_bytes, split_tokens,
};

fn tokens_of(line: &[u8]) -> Vec<Vec<u8>> {
    split_tokens(line)
}

#[test]
fn literal_gives_the_bytes_of_the_text() {
    assert_eq!(literal("uciok"), b"uciok");
    assert_eq!(literal(""), b"");
}

#[test]
fn separators_are_the_six_ascii_blanks() {
    for b in [b' ', b'\t', b'\n', 0x0b_u8, 0x0c_u8, b'\r'] {
        assert!(is_space_byte(b));
    }
    for b in [0_u8, 8, 14, 31, 33, b'a', b'0', 0x85, 0xa0, 255] {
        assert!(!is_space_byte(b));
    }
}

#[test]
fn matches_at_compares_in_place() {
    assert!(matches_at(b"readyok", b"ok", 5));
    assert!(!matches_at(b"readyok", b"ok", 4));
    assert!(!matches_at(b"readyok", b"ok", 6));
    assert!(matches_at(b"readyok", b"", 7));
    assert!(!matches_at(b"readyok", b"", 8));
    assert!(!matches_at(b"ok", b"okay", 0));
}

#[test]
fn prefix_and_infix() {
    assert!(has_prefix(b"bestmove e2e4", b"bestmove"));
    assert!(!has_prefix(b" bestmove e2e4", b"bestmove"));
    assert!(!has_prefix(b"best", b"bestmove"));
    assert!(has_prefix(b"", b""));
    assert!(has_infix(b"id name x\nuciok\n", b"uciok"));
    assert!(has_infix(b"uciok", b"uciok"));
    assert!(has_infix(b"xxuciokxx", b"uciok"));
    assert!(!has_infix(b"ucio k", b"uciok"));
    assert!(!has_infix(b"", b"uciok"));
    assert!(has_infix(b"", b""));
    assert!(has_infix(b"abc", b""));
    assert!(has_infix(b"aab", b"ab"));
}

#[test]
fn same_bytes_is_equality() {
    assert!(same_bytes(b"score", b"score"));
    assert!(!same_bytes(b"score", b"scores"));
    assert!(!same_bytes(b"scores", b"score"));
    assert!(!same_bytes(b"score", b"scorf"));
    assert!(same_bytes(b"", b""));
}

#[test]
fn find_byte_gives_the_first_index_or_the_length() {
    assert_eq!(find_byte(b"e2-e4", b'-'), 2);
    assert_eq!(find_byte(b"e2-e4-x", b'-'), 2);
    assert_eq!(find_byte(b"-", b'-'), 0);
    assert_eq!(find_byte(b"e2e4", b'-'), 4);
    assert_eq!(find_byte(b"", b'-'), 0);
}

#[test]
fn tokens_are_the_runs_between_separators() {
    assert_eq!(tokens_of(b"bestmove e2e4 ponder e7e5\n"), vec![
        b"bestmove".to_vec(),
        b"e2e4".to_vec(),
        b"ponder".to_vec(),
        b"e7e5".to_vec(),
    ]);
    assert_eq!(tokens_of(b"  a \t\r\n b  "), vec![b"a".to_vec(), b"b".to_vec()]);
    assert_eq!(tokens_of(b"one"), vec![b"one".to_vec()]);
    assert_eq!(tokens_of(b""), Vec::<Vec<u8>>::new());
    assert_eq!(tokens_of(b" \n\t "), Vec::<Vec<u8>>::new());
}

#[test]
fn tokens_agree_with_split_whitespace_on_ascii() {
    let lines = [
        "info depth 12 seldepth 18 multipv 1 score cp -31 nodes 4021 nps 1000 pv e2e4 e7e5",
        "\tbestmove   e7e8q\r\n",
        "x",
        "",
        " \x0b\x0c ",
    ];
    for line in lines {
        let expected: Vec<Vec<u8>> =
            line.split_whitespace().map(|t| t.as_bytes().to_vec()).collect();
        assert_eq!(tokens_of(line.as_bytes()), expected);
    }
}

#[test]
fn parse_i32_reads_signed_decimals() {
    assert_eq!(parse_i32(b"0"), Some(0));
    assert_eq!(parse_i32(b"35"), Some(35));
    assert_eq!(parse_i32(b"-31"), Some(-31));
    assert_eq!(parse_i32(b"+7"), Some(7));
    assert_eq!(parse_i32(b"-0"), Some(0));
    assert_eq!(parse_i32(b"007"), Some(7));
    assert_eq!(parse_i32(b"2147483647"), Some(i32::MAX));
    assert_eq!(parse_i32(b"-2147483648"), Some(i32::MIN));
    assert_eq!(parse_i32(b"0000000000000000000012"), Some(12));
}

#[test]
fn parse_i32_refuses_what_is_no_i32() {
    for text in [
        &b""[..],
        b"-",
        b"+",
        b"+-1",
        b"--1",
        b"1 ",
        b" 1",
        b"12a",
        b"a12",
        b"1.5",
        b"2147483648",
        b"-2147483649",
        b"99999999999999999999999999",
        b"-99999999999999999999999999",
        b"35\n",
    ] {
        assert_eq!(parse_i32(text), None);
    }
}

#[test]
fn parse_i32_agrees_with_std() {
    let texts = [
        "0", "1", "-1", "+1", "", "-", "+", "12x", "2147483647", "2147483648", "-2147483648",
        "-2147483649", "000", "-000", "+000123", "4294967296", "١٢", "1_000", "0x10",
    ];
    for text in texts {
        assert_eq!(parse_i32(text.as_bytes()), text.parse::<i32>().ok());
    }
}

#[test]
fn format_u8_writes_decimals_without_leading_zeros() {
    assert_eq!(format_u8(0), b"0".to_vec());
    assert_eq!(format_u8(9), b"9".to_vec());
    assert_eq!(format_u8(10), b"10".to_vec());
    assert_eq!(format_u8(15), b"15".to_vec());
    assert_eq!(format_u8(99), b"99".to_vec());
    assert_eq!(format_u8(100), b"100".to_vec());
    assert_eq!(format_u8(109), b"109".to_vec());
    assert_eq!(format_u8(255), b"255".to_vec());
}

#[test]
fn format_u8_reads_back() {
    for n in 0..=255_u8 {
        let digits = format_u8(n);
        assert_eq!(digits, format!("{}", n).into_bytes());
        assert_eq!(parse_i32(&digits), Some(n as i32));
    }
}

#[test]
fn a_written_number_reads_back() {
    for n in 0..=u8::MAX {
        assert_eq!(parse_i32(&format_u8(n)), Some(i32::from(n)));
    }
}
