use lknpd::functions::{execute, month, name_of_month, Error};
use lknpd::text::{chars_of, decimal_text, signed_decimal_text, text_of};

#[test]
fn unknown_function_is_an_error() {
    assert_eq!(execute("greet"), Err(Error::UnknownFunction("greet".to_owned())));
    assert_eq!(execute(""), Err(Error::UnknownFunction("".to_owned())));
    assert_eq!(execute("Now"), Err(Error::UnknownFunction("Now".to_owned())));
    assert_eq!(execute("now "), Err(Error::UnknownFunction("now ".to_owned())));
    assert_eq!(
        Error::UnknownFunction("greet".to_owned()).message(),
        "unknown function \"greet\""
    );
}

#[test]
fn table_holds_three_functions() {
    let now = execute("now").unwrap();
    assert!(lknpd::model::Date::parse(&now).is_ok());
    let year = execute("year").unwrap();
    assert_eq!(year.len(), 4);
    assert!(year.parse::<i32>().unwrap() >= 2024);
    let name = execute("month").unwrap();
    assert!((0..12).any(|m| name_of_month(m) == name));
    assert!((0..12).any(|m| name_of_month(m) == month()));
}

#[test]
fn month_names() {
    let names: Vec<String> = (0..12).map(name_of_month).collect();
    assert_eq!(
        names,
        vec![
            "Январь", "Февраль", "Март", "Апрель", "Май", "Июнь", "Июль", "Август", "Сентябрь",
            "Октябрь", "Ноябрь", "Декабрь"
        ]
    );
}

#[test]
fn decimal_texts() {
    assert_eq!(decimal_text(0), "0");
    assert_eq!(decimal_text(7), "7");
    assert_eq!(decimal_text(10), "10");
    assert_eq!(decimal_text(4294967295), "4294967295");
    assert_eq!(decimal_text(u64::MAX), "18446744073709551615");
    assert_eq!(signed_decimal_text(2024), "2024");
    assert_eq!(signed_decimal_text(0), "0");
    assert_eq!(signed_decimal_text(-5), "-5");
    assert_eq!(signed_decimal_text(i32::MIN), "-2147483648");
    assert_eq!(signed_decimal_text(i32::MAX), "2147483647");
}

#[test]
fn chars_and_texts() {
    assert_eq!(chars_of("aб€"), vec!['a', 'б', '€']);
    assert_eq!(chars_of(""), Vec::<char>::new());
    let chars = chars_of("hello");
    assert_eq!(text_of(&chars, 1, 4), "ell");
    assert_eq!(text_of(&chars, 2, 2), "");
    assert_eq!(text_of(&chars, 0, 5), "hello");
}
