use sftp_provision::text::{decimal, has_nul, is_blank, parse_number, split};

#[test]
fn decimal_writes_zero() {
    assert_eq!(decimal(0), "0");
}

#[test]
fn decimal_writes_single_digits() {
    assert_eq!(decimal(7), "7");
    assert_eq!(decimal(9), "9");
}

#[test]
fn decimal_writes_several_digits() {
    assert_eq!(decimal(10), "10");
    assert_eq!(decimal(1001), "1001");
    assert_eq!(decimal(65534), "65534");
}

#[test]
fn decimal_writes_largest_number() {
    assert_eq!(decimal(u32::MAX), "4294967295");
}

#[test]
fn decimal_agrees_with_std() {
    for n in [0u32, 1, 9, 10, 11, 99, 100, 101, 12345, 1_000_000, 4_294_967_294] {
        assert_eq!(decimal(n), n.to_string());
    }
}

#[test]
fn parse_number_reads_digits() {
    assert_eq!(parse_number("0"), Some(0));
    assert_eq!(parse_number("1001"), Some(1001));
    assert_eq!(parse_number("4294967295"), Some(u32::MAX));
}

#[test]
fn parse_number_allows_plus_and_leading_zeros() {
    assert_eq!(parse_number("+5"), Some(5));
    assert_eq!(parse_number("0001001"), Some(1001));
    assert_eq!(parse_number("+000"), Some(0));
    assert_eq!(parse_number("00000000000000000000042"), Some(42));
}

#[test]
fn parse_number_refuses_empty_and_bare_sign() {
    assert_eq!(parse_number(""), None);
    assert_eq!(parse_number("+"), None);
    assert_eq!(parse_number("++1"), None);
}

#[test]
fn parse_number_refuses_what_is_no_digit() {
    assert_eq!(parse_number("-1"), None);
    assert_eq!(parse_number(" 1"), None);
    assert_eq!(parse_number("1 "), None);
    assert_eq!(parse_number("1_000"), None);
    assert_eq!(parse_number("12a"), None);
    assert_eq!(parse_number("abc"), None);
    assert_eq!(parse_number("1+"), None);
    assert_eq!(parse_number("\u{0661}"), None);
}

#[test]
fn parse_number_refuses_what_does_not_fit() {
    assert_eq!(parse_number("4294967296"), None);
    assert_eq!(parse_number("99999999999999999999999999"), None);
    assert_eq!(parse_number("42949672950"), None);
}

#[test]
fn parse_number_agrees_with_std() {
    for text in ["", "+", "0", "+0", "-0", "7", "+7", "007", "4294967295", "4294967296", " 7", "7 ", "7x"] {
        assert_eq!(parse_number(text), text.parse::<u32>().ok(), "{:?}", text);
    }
}

#[test]
fn parse_number_reads_back_what_decimal_writes() {
    for n in [0u32, 5, 10, 1001, 65535, u32::MAX] {
        assert_eq!(parse_number(&decimal(n)), Some(n));
    }
}

#[test]
fn split_gives_one_piece_without_separator() {
    assert_eq!(split("alice", ':'), vec!["alice".to_string()]);
    assert_eq!(split("", ':'), vec!["".to_string()]);
}

#[test]
fn split_cuts_at_every_separator() {
    assert_eq!(
        split("alice:x1y2z3:1001:1001", ':'),
        vec!["alice".to_string(), "x1y2z3".to_string(), "1001".to_string(), "1001".to_string()]
    );
}

#[test]
fn split_keeps_empty_pieces() {
    assert_eq!(split(":", ':'), vec!["".to_string(), "".to_string()]);
    assert_eq!(split("a::b", ':'), vec!["a".to_string(), "".to_string(), "b".to_string()]);
    assert_eq!(split("a:", ':'), vec!["a".to_string(), "".to_string()]);
    assert_eq!(split(":a", ':'), vec!["".to_string(), "a".to_string()]);
}

#[test]
fn split_counts_characters_not_bytes() {
    assert_eq!(
        split("zo\u{eb}:p\u{e4}ss:1:2", ':'),
        vec!["zo\u{eb}".to_string(), "p\u{e4}ss".to_string(), "1".to_string(), "2".to_string()]
    );
}

#[test]
fn split_agrees_with_std() {
    for line in ["", ":", "a:b", "a:b:c:d:e", "::::", "no separator", "\u{1F600}:x"] {
        let expected: Vec<String> = line.split(':').map(|piece| piece.to_string()).collect();
        assert_eq!(split(line, ':'), expected);
    }
}

#[test]
fn is_blank_accepts_empty_and_white_space() {
    assert!(is_blank(""));
    assert!(is_blank(" "));
    assert!(is_blank(" \t \r"));
    assert!(is_blank("\u{a0}\u{2003}\u{3000}"));
}

#[test]
fn is_blank_refuses_anything_else() {
    assert!(!is_blank("a"));
    assert!(!is_blank("  a  "));
    assert!(!is_blank(":"));
    assert!(!is_blank(" \u{200b} "));
}

#[test]
fn is_blank_agrees_with_trim() {
    for line in ["", " ", "\t", "x", " x", "x ", "\u{85}", "\u{feff}", " : "] {
        assert_eq!(is_blank(line), line.trim().is_empty(), "{:?}", line);
    }
}

#[test]
fn has_nul_finds_the_character() {
    assert!(has_nul("\0"));
    assert!(has_nul("ali\0ce"));
    assert!(has_nul("alice\0"));
}

#[test]
fn has_nul_passes_ordinary_names() {
    assert!(!has_nul(""));
    assert!(!has_nul("alice"));
    assert!(!has_nul("0"));
}

#[test]
fn split_pieces_join_back_to_the_line() {
    for line in ["", ":", "alice:x1y2z3:1001:1001", "a::b:", ":::", "plain", "\u{e9}:\u{1F600}:"] {
        let pieces = split(line, ':');
        assert!(!pieces.is_empty());
        assert!(pieces.iter().all(|piece| !piece.contains(':')));
        assert_eq!(pieces.join(":"), line);
    }
}

#[test]
fn joined_pieces_split_back_to_the_pieces() {
    for pieces in [vec![""], vec!["a"], vec!["", ""], vec!["alice", "pw", "1001", "1001"], vec!["a", "", "", "b"]] {
        let pieces: Vec<String> = pieces.iter().map(|piece| piece.to_string()).collect();
        assert_eq!(split(&pieces.join(":"), ':'), pieces);
    }
}
