use osrs_cli::chance::{is_white_space, parse_probability, read_chance, ChanceFault};
use osrs_cli::error::OsrsError;
use osrs_cli::ratio::Ratio;

fn value(text: &str) -> f64 {
    let chance = parse_probability(text).unwrap();
    chance.numer() as f64 / chance.denom() as f64
}

fn assert_approx_eq(a: f64, b: f64) {
    assert!((a - b).abs() < 1.0e-6, "{} is not {}", a, b);
}

fn exact(text: &str) -> (u128, u128) {
    let chance = read_chance(text).unwrap();
    (chance.numer(), chance.denom())
}

fn message(text: &str) -> String {
    match parse_probability(text) {
        Err(OsrsError::ArgsError(message)) => message,
        other => panic!("{:?}", other),
    }
}

#[test]
fn test_parse_probability() {
    // basic success cases
    assert_approx_eq(value("0"), 0.0);
    assert_approx_eq(value("1"), 1.0);
    assert_approx_eq(value("0.5"), 0.5);
    assert_approx_eq(value("50%"), 0.5);
    assert_approx_eq(value("1/2"), 0.5);
    assert_approx_eq(value("0.5%"), 0.005);

    // whitespace is ignored
    assert_approx_eq(value(" 0.5 "), 0.5);
    assert_approx_eq(value(" 1 / 2 "), 0.5);
    assert_approx_eq(value(" 50 % "), 0.5);

    // fractions w/ decimals
    assert_approx_eq(value("1 / 25.6"), 0.0390625);
}

#[test]
fn test_parse_probability_errors() {
    assert!(parse_probability("5").is_err());
    assert!(parse_probability("%5").is_err());
    assert!(parse_probability("-5").is_err());
    assert!(parse_probability("1 / 2 / 3").is_err());
    assert!(parse_probability("0.5.5").is_err());
    assert!(parse_probability("5% / 5").is_err());
    assert!(parse_probability("1/2%").is_err());
}

#[test]
fn test_chances_are_read_exactly() {
    assert_eq!(exact("0"), (0, 1));
    assert_eq!(exact("1"), (1, 1));
    assert_eq!(exact("1.000"), (1, 1));
    assert_eq!(exact("0.02"), (1, 50));
    assert_eq!(exact("2%"), (1, 50));
    assert_eq!(exact("1/50"), (1, 50));
    assert_eq!(exact("0.5%"), (1, 200));
    assert_eq!(exact("100%"), (1, 1));
    assert_eq!(exact("1 / 25.6"), (5, 128));
    assert_eq!(exact("1/128"), (1, 128));
    assert_eq!(exact("0.25/0.5"), (1, 2));
    assert_eq!(exact("2.5/10"), (1, 4));
    assert_eq!(exact("0/7"), (0, 1));
    assert_eq!(exact("3/3"), (1, 1));
}

#[test]
fn test_point_may_stand_first_or_last() {
    assert_eq!(exact(".5"), (1, 2));
    assert_eq!(exact("1."), (1, 1));
    assert_eq!(exact("0."), (0, 1));
    assert_eq!(exact(".25 / 1."), (1, 4));
    assert_eq!(read_chance("."), Err(ChanceFault::Unreadable));
    assert_eq!(read_chance(".."), Err(ChanceFault::Unreadable));
    assert_eq!(read_chance("1/."), Err(ChanceFault::Unreadable));
    assert_eq!(read_chance("1..0"), Err(ChanceFault::Unreadable));
}

#[test]
fn test_white_space_around_the_pieces() {
    assert_eq!(exact("\t 1 \u{a0}/\u{2003} 4\n"), (1, 4));
    assert_eq!(exact("\u{3000}25\u{85}%\r\n"), (1, 4));
    assert_eq!(read_chance("1 2"), Err(ChanceFault::Unreadable));
    assert_eq!(read_chance("0. 5"), Err(ChanceFault::Unreadable));
    assert_eq!(read_chance(""), Err(ChanceFault::Unreadable));
    assert_eq!(read_chance("   "), Err(ChanceFault::Unreadable));
    // a zero-width space is no white space
    assert_eq!(read_chance("\u{200b}1"), Err(ChanceFault::Unreadable));
    for c in ['\t', '\n', '\u{b}', '\u{c}', '\r', ' ', '\u{85}', '\u{a0}', '\u{1680}'] {
        assert!(is_white_space(c));
    }
    for c in ['\u{2000}', '\u{200a}', '\u{2028}', '\u{2029}', '\u{202f}', '\u{205f}', '\u{3000}'] {
        assert!(is_white_space(c));
    }
    for c in ['\u{8}', '\u{e}', '0', '.', '\u{200b}', '\u{2027}', '\u{3001}', 'a'] {
        assert!(!is_white_space(c));
    }
    // what the standard library calls white space is the same set
    for code in 0..0x11000u32 {
        if let Some(c) = char::from_u32(code) {
            assert_eq!(is_white_space(c), c.is_whitespace());
        }
    }
}

#[test]
fn test_numbers_that_are_no_chance() {
    assert_eq!(read_chance("5"), Err(ChanceFault::OutOfRange));
    assert_eq!(read_chance("1.001"), Err(ChanceFault::OutOfRange));
    assert_eq!(read_chance("101%"), Err(ChanceFault::OutOfRange));
    assert_eq!(read_chance("3/2"), Err(ChanceFault::OutOfRange));
    assert_eq!(read_chance("1/0"), Err(ChanceFault::OutOfRange));
    assert_eq!(read_chance("0/0"), Err(ChanceFault::OutOfRange));
    assert_eq!(read_chance("0/0.00"), Err(ChanceFault::OutOfRange));
    assert_eq!(read_chance("-5"), Err(ChanceFault::Unreadable));
    assert_eq!(read_chance("%5"), Err(ChanceFault::Unreadable));
    assert_eq!(read_chance("1/2%"), Err(ChanceFault::Unreadable));
    assert_eq!(read_chance("5% / 5"), Err(ChanceFault::Unreadable));
    assert_eq!(read_chance("1/"), Err(ChanceFault::Unreadable));
    assert_eq!(read_chance("/2"), Err(ChanceFault::Unreadable));
    assert_eq!(read_chance("1e-3"), Err(ChanceFault::Unreadable));
    assert_eq!(read_chance("５"), Err(ChanceFault::Unreadable));
}

#[test]
fn test_decimals_of_up_to_19_digits_are_read() {
    assert_eq!(
        exact("0.333333333333333333"),
        (333333333333333333, 1000000000000000000)
    );
    assert_eq!(exact("0000000000000000001"), (1, 1));
    assert_eq!(
        exact("9999999999999999999/9999999999999999999"),
        (1, 1)
    );
    assert_eq!(
        exact(".0000000000000000001/999999999999999999.9"),
        (1, 9999999999999999999000000000000000000)
    );
    assert_eq!(
        read_chance("0.3333333333333333333"),
        Err(ChanceFault::Unreadable)
    );
    assert_eq!(
        read_chance("1/10000000000000000000.0"),
        Err(ChanceFault::Unreadable)
    );
}

#[test]
fn test_what_is_said_of_a_text_that_is_no_chance() {
    assert_eq!(
        message("one in two"),
        "Invalid probability: one in two; Try a decimal, percentage, or fraction."
    );
    assert_eq!(
        message("0.5.5"),
        "Invalid probability: 0.5.5; Try a decimal, percentage, or fraction."
    );
    assert_eq!(
        message(" 7/2 "),
        "Probability must be in range [0, 1], but got:  7/2 "
    );
    assert_eq!(parse_probability("1/4").unwrap(), Ratio::new(1, 4).unwrap());
}
