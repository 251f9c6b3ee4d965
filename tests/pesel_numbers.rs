use pesel_lib::digit_vec::DigitVec;
use pesel_lib::error::PeselError;
use pesel_lib::pesel::{build_record, PersonGender, Pesel};

const WEIGHTS: [u32; 10] = [1, 3, 7, 9, 1, 3, 7, 9, 1, 3];

fn checksum_of(prefix: &str) -> u32 {
    let sum: u32 = prefix
        .chars()
        .zip(WEIGHTS.iter())
        .map(|(c, w)| c.to_digit(10).unwrap() * w)
        .sum();
    sum % 10
}

fn with_control(prefix: &str, control: u32) -> String {
    format!("{}{}", prefix, control)
}

#[test]
fn valid_male_born_1944() {
    let pesel = Pesel::new("44051401458").unwrap();
    assert_eq!(pesel.get_birthday(), [1944, 5, 14]);
    assert_eq!(pesel.get_gender(), PersonGender::Male);
}

#[test]
fn wrong_control_digit_is_checksum_mismatch() {
    assert_eq!(Pesel::new("02200200002").unwrap_err(), PeselError::ChecksumMismatch);
}

#[test]
fn three_digits_are_too_short() {
    assert_eq!(Pesel::new("123").unwrap_err(), PeselError::TooShort);
}

#[test]
fn letter_is_non_digit() {
    assert_eq!(Pesel::new("4405140145X").unwrap_err(), PeselError::NonDigitCharacter);
}

#[test]
fn month_thirteen_is_invalid() {
    assert_eq!(Pesel::new("44131401458").unwrap_err(), PeselError::InvalidMonth);
}

#[test]
fn february_thirtieth_in_common_year_is_invalid() {
    assert_eq!(Pesel::new("01023012345").unwrap_err(), PeselError::InvalidDay);
}

#[test]
fn non_digit_anywhere_is_rejected() {
    for text in ["a4051401458", "44051 01458", "-4405140145", "4405140145٣", "x", " "] {
        assert_eq!(DigitVec::new(text).unwrap_err(), PeselError::NonDigitCharacter);
        assert_eq!(Pesel::new(text).unwrap_err(), PeselError::NonDigitCharacter);
    }
}

#[test]
fn digits_are_read_in_order() {
    let digits = DigitVec::new("0907").unwrap();
    assert_eq!(digits.get(), &[0, 9, 0, 7]);
    assert_eq!(DigitVec::new("").unwrap().get(), &[] as &[u32]);
}

#[test]
fn empty_text_is_too_short() {
    assert_eq!(Pesel::new("").unwrap_err(), PeselError::TooShort);
}

#[test]
fn length_is_checked_before_checksum() {
    assert_eq!(Pesel::new("4405140145").unwrap_err(), PeselError::TooShort);
    assert_eq!(Pesel::new("440514014589").unwrap_err(), PeselError::TooLong);
    assert_eq!(Pesel::new("99999999999999").unwrap_err(), PeselError::TooLong);
    let digits = DigitVec::new("449914").unwrap();
    assert_eq!(build_record(digits).unwrap_err(), PeselError::TooShort);
}

#[test]
fn both_control_digits_are_accepted() {
    let prefix = "4405140145";
    let sum = checksum_of(prefix);
    assert_eq!(sum, 2);
    assert!(Pesel::new(&with_control(prefix, sum)).is_ok());
    assert!(Pesel::new(&with_control(prefix, 10 - sum)).is_ok());
    for other in [0, 1, 3, 4, 5, 6, 7, 9] {
        assert_eq!(
            Pesel::new(&with_control(prefix, other)).unwrap_err(),
            PeselError::ChecksumMismatch
        );
    }
}

#[test]
fn zero_checksum_takes_control_zero() {
    let prefix = "0001010006";
    assert_eq!(checksum_of(prefix), 0);
    assert!(Pesel::new(&with_control(prefix, 0)).is_ok());
    assert_eq!(
        Pesel::new(&with_control(prefix, 5)).unwrap_err(),
        PeselError::ChecksumMismatch
    );
}

#[test]
fn accepted_text_reads_back_unchanged() {
    for text in ["44051401458", "44051401452", "00010100060", "02271409863"] {
        let pesel = Pesel::new(text).unwrap();
        assert_eq!(pesel.to_string(), text);
    }
}

#[test]
fn leap_day_of_year_00_in_every_century() {
    let expected = [(8, 1800), (0, 1900), (2, 2000), (4, 2100), (6, 2200)];
    for (tens, year) in expected {
        let prefix = format!("00{}2290001", tens);
        let text = with_control(&prefix, checksum_of(&prefix));
        let pesel = Pesel::new(&text).unwrap();
        assert_eq!(pesel.get_birthday(), [year, 2, 29]);
    }
}

#[test]
fn leap_day_of_non_leap_two_digit_year_is_invalid() {
    assert_eq!(Pesel::new("01222900000").unwrap_err(), PeselError::InvalidDay);
    assert_eq!(Pesel::new("02022900000").unwrap_err(), PeselError::InvalidDay);
}

#[test]
fn century_bands_decode_year_and_month() {
    let cases = [
        ("9992", 1899, 12),
        ("9901", 1999, 1),
        ("0531", 2005, 11),
        ("1542", 2115, 2),
        ("2370", 2223, 10),
    ];
    for (head, year, month) in cases {
        let prefix = format!("{}010123", head);
        let text = with_control(&prefix, checksum_of(&prefix));
        let pesel = Pesel::new(&text).unwrap();
        assert_eq!(pesel.get_birthday(), [year, month, 1]);
    }
}

#[test]
fn even_tenth_digit_is_female() {
    let pesel = Pesel::new("02271409863").unwrap();
    assert_eq!(pesel.get_birthday(), [2002, 7, 14]);
    assert_eq!(pesel.get_gender(), PersonGender::Female);
}

#[test]
fn month_field_errors() {
    assert_eq!(Pesel::new("44001401458").unwrap_err(), PeselError::InvalidMonth);
    assert_eq!(Pesel::new("44331401458").unwrap_err(), PeselError::InvalidMonth);
    assert_eq!(Pesel::new("44931401458").unwrap_err(), PeselError::InvalidMonth);
}

#[test]
fn day_field_bounds() {
    assert_eq!(Pesel::new("44050001458").unwrap_err(), PeselError::InvalidDay);
    assert_eq!(Pesel::new("44043101458").unwrap_err(), PeselError::InvalidDay);
    assert_eq!(Pesel::new("44013201458").unwrap_err(), PeselError::InvalidDay);
    let prefix = "4403310145";
    let pesel = Pesel::new(&with_control(prefix, checksum_of(prefix))).unwrap();
    assert_eq!(pesel.get_birthday(), [1944, 3, 31]);
}

#[test]
fn every_error_has_a_message() {
    let errors = [
        PeselError::NonDigitCharacter,
        PeselError::TooShort,
        PeselError::TooLong,
        PeselError::InvalidMonth,
        PeselError::InvalidDay,
        PeselError::ChecksumMismatch,
    ];
    for e in errors {
        assert!(!e.message().is_empty());
    }
    assert_eq!(PeselError::TooShort.message(), "Za mało znaków");
}
