use lknpd::api::client::{after_answer, build_url, classify, receipt_url, Answer, Step, BASE_URL};
use lknpd::api::models::{
    DeviceInfo, DeviceInfoMetaDetails, IncomeClientRequest, IncomeRequest, IncomeServiceRequest,
    USER_AGENT,
};
use lknpd::cli::{compute_default_value, is_answer, next_variable};
use lknpd::functions::Error;
use lknpd::model::{Instant, Token, TokenNewError};
use lknpd::state::{generate_device_id, State};
use lknpd::template::compiled::{Field, Placeholder, PlaceholderDefault};
use lknpd::template::receipt::build;
use lknpd::template::raw;
use lknpd::text::trim;

#[test]
fn device_info() {
    assert_eq!(
        DeviceInfo::new("abc".to_owned()),
        DeviceInfo {
            app_version: "1.0.0".to_owned(),
            meta_details: DeviceInfoMetaDetails { user_agent: USER_AGENT.to_owned() },
            source_device_id: "abc".to_owned(),
            source_type: "WEB".to_owned(),
        }
    );
}

fn rendered(counterparty: raw::Counterparty) -> raw::Template {
    raw::Template {
        title: "Consulting".to_owned(),
        price: "1500".to_owned(),
        date: "2024-01-02T10:00:00+03:00".to_owned(),
        counterparty,
    }
}

#[test]
fn income_request_for_person() {
    let check = build(rendered(raw::Counterparty::Person)).unwrap();
    assert_eq!(
        IncomeRequest::from(check),
        IncomeRequest {
            client: IncomeClientRequest {
                contact_phone: None,
                display_name: None,
                income_type: "FROM_INDIVIDUAL".to_owned(),
                inn: None,
            },
            ignore_max_total_income_restriction: false,
            operation_time: "2024-01-02T10:00:00+03:00".to_owned(),
            payment_type: "CASH".to_owned(),
            request_time: "2024-01-02T10:00:00+03:00".to_owned(),
            services: vec![IncomeServiceRequest {
                amount: 1500,
                name: "Consulting".to_owned(),
                quantity: 1,
            }],
            total_amount: "1500".to_owned(),
        }
    );
}

#[test]
fn income_request_for_organization() {
    let check = build(rendered(raw::Counterparty::Organization {
        name: "Acme".to_owned(),
        inn: "1234567890".to_owned(),
    }))
    .unwrap();
    let request = IncomeRequest::from(check);
    assert_eq!(
        request.client,
        IncomeClientRequest {
            contact_phone: None,
            display_name: Some("Acme".to_owned()),
            income_type: "FROM_LEGAL_ENTITY".to_owned(),
            inn: Some("1234567890".to_owned()),
        }
    );
}

#[test]
fn urls() {
    assert_eq!(BASE_URL, "https://lknpd.nalog.ru");
    assert_eq!(build_url("/v1/income"), "https://lknpd.nalog.ru/api/v1/income");
    assert_eq!(build_url("v1/income"), "https://lknpd.nalog.ru/api/v1/income");
    assert_eq!(build_url("///v1//x/"), "https://lknpd.nalog.ru/api/v1//x/");
    assert_eq!(build_url(""), "https://lknpd.nalog.ru/api/");
    assert_eq!(build_url("//"), "https://lknpd.nalog.ru/api/");
    assert_eq!(receipt_url("123", "abc"), "https://lknpd.nalog.ru/123/abc/print");
}

#[test]
fn answers_and_steps() {
    assert_eq!(classify(200), Answer::Accepted);
    assert_eq!(classify(401), Answer::Unauthorized);
    assert_eq!(classify(500), Answer::Refused);
    assert_eq!(classify(201), Answer::Refused);
    assert_eq!(after_answer(Answer::Unauthorized, false), Step::RefreshAndRetry);
    assert_eq!(after_answer(Answer::Unauthorized, true), Step::Return);
    assert_eq!(after_answer(Answer::Accepted, false), Step::Return);
    assert_eq!(after_answer(Answer::Refused, false), Step::Return);
}

#[test]
fn trimming() {
    for text in ["", " ", "a", "  a b \t\n", "\u{a0}x\u{3000}", "\u{85}\u{2003}", "x \u{200b} ", "\u{feff}a"] {
        assert_eq!(trim(text), text.trim(), "{:?}", text);
    }
}

#[test]
fn tokens() {
    let early = Instant { seconds: 10, nanos: 5 };
    let late = Instant { seconds: 10, nanos: 6 };
    assert!(early.before(&late));
    assert!(!late.before(&early));
    assert!(!early.before(&early));
    assert!(Instant { seconds: 9, nanos: 999 }.before(&early));

    assert_eq!(Token::new_at("  ".to_owned(), Some(early), late), Err(TokenNewError::EmptyValue));
    assert_eq!(Token::new_at("".to_owned(), None, late), Err(TokenNewError::EmptyValue));
    assert_eq!(
        Token::new_at(" t ".to_owned(), Some(early), late),
        Err(TokenNewError::AlreadyExpired)
    );
    let token = Token::new_at(" t ".to_owned(), Some(late), early).unwrap();
    assert_eq!(token.value(), "t");
    assert_eq!(token.expire_at(), Some(late));
    assert!(!token.is_expired_at(&early));
    assert!(!token.is_expired_at(&late));
    assert!(token.is_expired_at(&Instant { seconds: 11, nanos: 0 }));
    assert_eq!(token.clone(), token);

    let lasting = Token::new("abc".to_owned(), None).unwrap();
    assert!(!lasting.is_expired());
    assert_eq!(
        Token::new("abc".to_owned(), Some(Instant { seconds: 0, nanos: 0 })),
        Err(TokenNewError::AlreadyExpired)
    );
    let future = Token::new("abc".to_owned(), Some(Instant { seconds: i64::MAX, nanos: 0 })).unwrap();
    assert!(!future.is_expired());
    let stored = Token::from_stored(" kept ".to_owned(), Some(early));
    assert_eq!(stored.value(), " kept ");
    assert_eq!(stored.expire_at(), Some(early));
    assert!(stored.is_expired_at(&late));
    assert_eq!(Token::from_stored("".to_owned(), None).value(), "");
    assert_eq!(TokenNewError::EmptyValue.message(), "value is empty");
    assert_eq!(TokenNewError::AlreadyExpired.message(), "already expired");
}

#[test]
fn signing_in_again() {
    let early = Instant { seconds: 10, nanos: 0 };
    let late = Instant { seconds: 20, nanos: 0 };
    let token = |expire_at| Token::from_stored("t".to_owned(), expire_at);
    let state = |access, refresh| State {
        device_id: "d".to_owned(),
        access_token: access,
        refresh_token: refresh,
        taxpayer_identification_number: None,
    };
    assert!(state(None, None).needs_sign_in(&early));
    assert!(state(None, Some(token(None))).needs_sign_in(&early));
    assert!(!state(Some(token(None)), None).needs_sign_in(&early));
    assert!(!state(Some(token(None)), Some(token(None))).needs_sign_in(&late));
    assert!(!state(Some(token(Some(early))), Some(token(Some(late)))).needs_sign_in(&early));
    assert!(!state(Some(token(None)), Some(token(Some(late)))).needs_sign_in(&late));
    assert!(state(Some(token(None)), Some(token(Some(early)))).needs_sign_in(&late));
}

#[test]
fn device_ids() {
    let id = generate_device_id();
    assert_eq!(id.chars().count(), 21);
    assert!(id.chars().all(|c| c.is_ascii_alphanumeric()));
    let state = State::default();
    assert_eq!(state.device_id.len(), 21);
    assert!(state.access_token.is_none());
    assert!(state.refresh_token.is_none());
    assert!(state.taxpayer_identification_number.is_none());
    assert_ne!(generate_device_id(), generate_device_id());
}

#[test]
fn questions() {
    let field = Field {
        placeholders: vec![
            Placeholder::Function { name: "now".to_owned() },
            Placeholder::Variable { name: "a".to_owned(), default: None },
            Placeholder::Function { name: "year".to_owned() },
            Placeholder::Variable { name: "b".to_owned(), default: None },
        ],
    };
    assert_eq!(next_variable(&field, 0), Some(1));
    assert_eq!(next_variable(&field, 1), Some(1));
    assert_eq!(next_variable(&field, 2), Some(3));
    assert_eq!(next_variable(&field, 4), None);
    assert_eq!(next_variable(&field, 9), None);
    assert_eq!(next_variable(&Field { placeholders: vec![] }, 0), None);
    assert!(is_answer("x"));
    assert!(!is_answer(""));
}

#[test]
fn default_values() {
    let plain = Placeholder::Variable { name: "a".to_owned(), default: None };
    assert_eq!(compute_default_value(&plain), Ok("".to_owned()));
    let text = Placeholder::Variable {
        name: "a".to_owned(),
        default: Some(PlaceholderDefault::String("general".to_owned())),
    };
    assert_eq!(compute_default_value(&text), Ok("general".to_owned()));
    let unknown = Placeholder::Variable {
        name: "a".to_owned(),
        default: Some(PlaceholderDefault::Function("greet".to_owned())),
    };
    assert_eq!(compute_default_value(&unknown), Err(Error::UnknownFunction("greet".to_owned())));
    let year = Placeholder::Variable {
        name: "a".to_owned(),
        default: Some(PlaceholderDefault::Function("year".to_owned())),
    };
    assert_eq!(compute_default_value(&year).unwrap().len(), 4);
    let function = Placeholder::Function { name: "greet".to_owned() };
    assert_eq!(compute_default_value(&function), Ok("".to_owned()));
}
