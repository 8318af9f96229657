use lknpd::model::{Check, Counterparty, Invalid, OrganizationINN, OrganizationName, Price, Title};
use lknpd::template::compiled::{Field, Placeholder, PlaceholderDefault, Template};
use lknpd::template::error::Error;
use lknpd::template::fields::{FieldMap, FieldName};
use lknpd::template::grammar::template as parse_template;
use lknpd::template::raw;
use lknpd::template::receipt::build;
use lknpd::template::render::{interleave, join, substitute, Segment};
use lknpd::template::values::{FieldValues, Values};

fn variable(name: &str) -> Placeholder {
    Placeholder::Variable { name: name.to_owned(), default: None }
}

fn person_template(title: &str) -> raw::Template {
    raw::Template {
        title: title.to_owned(),
        price: "100".to_owned(),
        date: "2024-01-02T00:00:00+03:00".to_owned(),
        counterparty: raw::Counterparty::Person,
    }
}

fn values_for(pairs: &[(&str, &str)]) -> FieldValues {
    let mut held = FieldValues::new();
    for (name, value) in pairs {
        held.insert((*name).to_owned(), (*value).to_owned());
    }
    held
}

#[test]
fn create_pattern_for_variable() {
    let ph = Placeholder::Variable {
        name: "foo".to_owned(),
        default: Some(PlaceholderDefault::Function("bar".to_owned())),
    };

    let pattern = Template::create_pattern(&ph);
    assert_eq!(pattern, format!(r"\{{\{{\s*{}.*?\}}\}}", ph.name()))
}

#[test]
fn create_pattern_for_function() {
    let ph = Placeholder::Function { name: "foo".to_owned() };

    let pattern = Template::create_pattern(&ph);
    assert_eq!(pattern, format!(r"\{{\{{\s*{}.*?\}}\}}", ph.name()))
}

#[test]
fn template() {
    assert_eq!(
        parse_template(
            r#"
            some text with variable {{ var1 }},
            variable with default value {{ var2:"123" }},
            variable with default function {{ var3:foo() }}
            and function {{bar()}} end
            "#
        ),
        Ok(vec![
            Placeholder::Variable { name: "var1".to_owned(), default: None },
            Placeholder::Variable {
                name: "var2".to_owned(),
                default: Some(PlaceholderDefault::String("123".to_owned())),
            },
            Placeholder::Variable {
                name: "var3".to_owned(),
                default: Some(PlaceholderDefault::Function("foo".to_owned())),
            },
            Placeholder::Function { name: "bar".to_owned() },
        ])
    );
}

#[test]
fn pattern_is_exact() {
    assert_eq!(Template::create_pattern(&variable("topic")), r"\{\{\s*topic.*?\}\}");
}

#[test]
fn grammar_reads_plain_text() {
    assert_eq!(parse_template(""), Ok(vec![]));
    assert_eq!(parse_template("2024-01-02T00:00:00+03:00"), Ok(vec![]));
    assert_eq!(parse_template("100 %, #, @ and {curly} braces"), Ok(vec![]));
}

#[test]
fn grammar_passes_over_malformed_placeholders() {
    assert_eq!(parse_template("{{ a"), Ok(vec![]));
    assert_eq!(parse_template("{{ }}"), Ok(vec![]));
    assert_eq!(parse_template("{{ 1a }}"), Ok(vec![]));
    assert_eq!(parse_template("{{ a b }}"), Ok(vec![]));
    assert_eq!(parse_template("{{ a: }}"), Ok(vec![]));
    assert_eq!(parse_template("{{ a:\"\" }}"), Ok(vec![]));
    assert_eq!(parse_template("{{ a:\"x-y\" }}"), Ok(vec![]));
    assert_eq!(parse_template("{{ foo () }}"), Ok(vec![]));
    assert_eq!(parse_template("{{ foo()x }}"), Ok(vec![]));
    assert_eq!(parse_template("{ { a } }"), Ok(vec![]));
    assert_eq!(parse_template("{{\ta }}"), Ok(vec![]));
}

#[test]
fn grammar_finds_placeholder_after_malformed_start() {
    assert_eq!(parse_template("{{ x {{ a }} }}"), Ok(vec![variable("a")]));
    assert_eq!(parse_template("{{{ a }}}"), Ok(vec![variable("a")]));
}

#[test]
fn grammar_reads_blanks_and_none() {
    assert_eq!(parse_template("{{a}}"), Ok(vec![variable("a")]));
    assert_eq!(parse_template("{{    a1B2    }}"), Ok(vec![variable("a1B2")]));
    assert_eq!(
        parse_template("{{f()}}{{ g() }}"),
        Ok(vec![
            Placeholder::Function { name: "f".to_owned() },
            Placeholder::Function { name: "g".to_owned() },
        ])
    );
}

#[test]
fn grammar_reads_cyrillic_names_and_defaults() {
    assert_eq!(
        parse_template("Услуга {{ тема:\"общая тема 1\" }} за {{ месяц:month() }} {{ Ёж }}"),
        Ok(vec![
            Placeholder::Variable {
                name: "тема".to_owned(),
                default: Some(PlaceholderDefault::String("общая тема 1".to_owned())),
            },
            Placeholder::Variable {
                name: "месяц".to_owned(),
                default: Some(PlaceholderDefault::Function("month".to_owned())),
            },
            variable("Ёж"),
        ])
    );
}

#[test]
fn placeholder_name_and_default() {
    let with_default = Placeholder::Variable {
        name: "a".to_owned(),
        default: Some(PlaceholderDefault::String("x".to_owned())),
    };
    assert_eq!(with_default.name(), "a");
    assert_eq!(with_default.default(), Some(PlaceholderDefault::String("x".to_owned())));
    assert_eq!(variable("b").default(), None);
    let function = Placeholder::Function { name: "now".to_owned() };
    assert_eq!(function.name(), "now");
    assert_eq!(function.default(), None);
    assert_eq!(function.clone(), function);
}

#[test]
fn field_new_holds_placeholders() {
    assert_eq!(Field::new("a {{ b }} c"), Ok(Field { placeholders: vec![variable("b")] }));
    assert_eq!(Field::new("abc"), Ok(Field { placeholders: vec![] }));
}

#[test]
fn field_names_in_order() {
    assert_eq!(
        FieldName::all(),
        vec![
            FieldName::Title,
            FieldName::Price,
            FieldName::Date,
            FieldName::CounterpartyOrganizationName,
            FieldName::CounterpartyOrganizationINN,
        ]
    );
    assert_eq!(FieldName::Title.label(), "title");
    assert_eq!(FieldName::Price.label(), "price");
    assert_eq!(FieldName::Date.label(), "date");
    assert_eq!(FieldName::CounterpartyOrganizationName.label(), "organization name");
    assert_eq!(FieldName::CounterpartyOrganizationINN.label(), "organization inn");
}

#[test]
fn field_map_holds_what_was_inserted() {
    let mut map: FieldMap<u32> = FieldMap::new();
    assert_eq!(map.get(FieldName::Price), None);
    assert!(!map.contains_key(FieldName::Price));
    map.insert(FieldName::Price, 7);
    map.insert(FieldName::Date, 8);
    map.insert(FieldName::Price, 9);
    assert_eq!(map.get(FieldName::Price), Some(&9));
    assert_eq!(map.get(FieldName::Date), Some(&8));
    assert_eq!(map.get(FieldName::Title), None);
    assert!(map.contains_key(FieldName::Date));
}

#[test]
fn field_values_last_insert_counts() {
    let mut held = FieldValues::new();
    assert_eq!(held.get("a"), None);
    held.insert("a".to_owned(), "1".to_owned());
    held.insert("b".to_owned(), "2".to_owned());
    held.insert("a".to_owned(), "3".to_owned());
    assert_eq!(held.get("a"), Some(&"3".to_owned()));
    assert_eq!(held.get("b"), Some(&"2".to_owned()));
    assert_eq!(held.get("c"), None);
}

#[test]
fn compile_person_template() {
    let compiled = Template::new(person_template("Consulting {{ topic:\"general\" }}")).unwrap();
    let fields = compiled.get_fields();
    assert_eq!(
        fields.get(FieldName::Title),
        Some(&Field {
            placeholders: vec![Placeholder::Variable {
                name: "topic".to_owned(),
                default: Some(PlaceholderDefault::String("general".to_owned())),
            }],
        })
    );
    assert_eq!(fields.get(FieldName::Price), Some(&Field { placeholders: vec![] }));
    assert_eq!(fields.get(FieldName::Date), Some(&Field { placeholders: vec![] }));
    assert_eq!(fields.get(FieldName::CounterpartyOrganizationName), None);
    assert_eq!(fields.get(FieldName::CounterpartyOrganizationINN), None);
    assert_eq!(compiled.get_raw(), &person_template("Consulting {{ topic:\"general\" }}"));
}

#[test]
fn compile_organization_template() {
    let mut raw = person_template("t");
    raw.counterparty = raw::Counterparty::Organization {
        name: "{{ org:\"AB\" }}".to_owned(),
        inn: "{{ taxid }}".to_owned(),
    };
    let parsed = Template::parse(&raw).unwrap();
    assert_eq!(
        parsed.get(FieldName::CounterpartyOrganizationName),
        Some(&Field {
            placeholders: vec![Placeholder::Variable {
                name: "org".to_owned(),
                default: Some(PlaceholderDefault::String("AB".to_owned())),
            }],
        })
    );
    assert_eq!(
        parsed.get(FieldName::CounterpartyOrganizationINN),
        Some(&Field { placeholders: vec![variable("taxid")] })
    );
}

#[test]
fn scenario_consulting_receipt() {
    let compiled = Template::new(person_template("Consulting {{ topic:\"general\" }}")).unwrap();
    let mut values = Values::new();
    values.insert(FieldName::Title, values_for(&[("topic", "billing")]));

    let rendered = compiled.render(&values).unwrap();
    assert_eq!(rendered.title, "Consulting billing");
    assert_eq!(rendered.price, "100");
    assert_eq!(rendered.date, "2024-01-02T00:00:00+03:00");
    assert_eq!(rendered.counterparty, raw::Counterparty::Person);

    let check = compiled.build_check(&values).unwrap();
    assert_eq!(check.title.as_str(), "Consulting billing");
    assert_eq!(check.price.value(), 100);
    assert_eq!(check.date.stamp(), "2024-01-02T00:00:00+03:00");
    assert_eq!(check.date.timestamp(), 1704142800);
    assert_eq!(check.date.subsec_nanos(), 0);
    assert_eq!(check.date.offset_seconds(), 3 * 3600);
    assert_eq!(check.counterparty, Counterparty::Person);
    assert_eq!(check, build(rendered).unwrap());
}

#[test]
fn scenario_missing_field_values() {
    let compiled = Template::new(person_template("Consulting {{ topic:\"general\" }}")).unwrap();
    let values = Values::new();
    assert_eq!(compiled.render(&values), Err(Error::MissingFieldValues(FieldName::Title)));
    assert_eq!(compiled.build_check(&values), Err(Error::MissingFieldValues(FieldName::Title)));
}

#[test]
fn scenario_unknown_function() {
    let compiled = Template::new(person_template("{{ greet() }}")).unwrap();
    let mut values = Values::new();
    values.insert(FieldName::Title, FieldValues::new());
    assert_eq!(compiled.render(&values), Err(Error::UnknownFunction("greet".to_owned())));
}

#[test]
fn scenario_organization_fails_validation() {
    let mut raw = person_template("Consulting");
    raw.counterparty = raw::Counterparty::Organization {
        name: "{{ org:\"AB\" }}".to_owned(),
        inn: "{{ taxid }}".to_owned(),
    };
    let compiled = Template::new(raw).unwrap();
    let mut values = Values::new();
    values.insert(
        FieldName::CounterpartyOrganizationName,
        values_for(&[("org", "AB")]),
    );
    values.insert(
        FieldName::CounterpartyOrganizationINN,
        values_for(&[("taxid", "12345")]),
    );
    let rendered = compiled.render(&values).unwrap();
    assert_eq!(
        rendered.counterparty,
        raw::Counterparty::Organization { name: "AB".to_owned(), inn: "12345".to_owned() }
    );
    assert_eq!(
        compiled.build_check(&values),
        Err(Error::Validation(FieldName::CounterpartyOrganizationName, Invalid::TooShort))
    );
}

#[test]
fn text_without_placeholders_is_unchanged() {
    let compiled = Template::new(person_template("plain {text} with }} and {{ only")).unwrap();
    let mut values = Values::new();
    values.insert(FieldName::Title, values_for(&[("text", "x"), ("only", "y")]));
    values.insert(FieldName::Price, values_for(&[("a", "b")]));
    let rendered = compiled.render(&values).unwrap();
    assert_eq!(rendered.title, "plain {text} with }} and {{ only");
    assert_eq!(rendered.price, "100");
    assert_eq!(compiled.render(&Values::new()).unwrap(), rendered);
}

#[test]
fn missing_variable_is_an_error() {
    let compiled = Template::new(person_template("{{ a }} and {{ b }}")).unwrap();
    let mut values = Values::new();
    values.insert(FieldName::Title, values_for(&[("a", "1")]));
    assert_eq!(
        compiled.render(&values),
        Err(Error::MissingValue(FieldName::Title, "b".to_owned()))
    );
    assert_eq!(
        Template::get_value(&variable("b"), FieldName::Price, &FieldValues::new()),
        Err(Error::MissingValue(FieldName::Price, "b".to_owned()))
    );
}

#[test]
fn first_fault_in_order_is_reported() {
    let compiled = Template::new(person_template("{{ nope() }} {{ a }}")).unwrap();
    let mut values = Values::new();
    values.insert(FieldName::Title, FieldValues::new());
    assert_eq!(compiled.render(&values), Err(Error::UnknownFunction("nope".to_owned())));
    let compiled = Template::new(person_template("{{ a }} {{ nope() }}")).unwrap();
    assert_eq!(
        compiled.render(&values),
        Err(Error::MissingValue(FieldName::Title, "a".to_owned()))
    );
}

#[test]
fn two_renders_agree() {
    let compiled =
        Template::new(person_template("{{ a:\"x\" }}-{{ b }}-{{ a }} and {{ c:now() }}")).unwrap();
    let mut values = Values::new();
    values.insert(
        FieldName::Title,
        values_for(&[("a", "1"), ("b", "2"), ("c", "3")]),
    );
    let first = compiled.render(&values).unwrap();
    let second = compiled.render(&values).unwrap();
    assert_eq!(first, second);
    assert_eq!(first.title, "1-2-1 and 3");
}

#[test]
fn value_is_not_searched_again() {
    let compiled = Template::new(person_template("{{ a }} {{ b }}")).unwrap();
    let mut values = Values::new();
    values.insert(
        FieldName::Title,
        values_for(&[("a", "{{ b }}"), ("b", "$0 {{ a }}")]),
    );
    assert_eq!(compiled.render(&values).unwrap().title, "{{ b }} $0 {{ a }}");
}

#[test]
fn function_values_are_rendered() {
    let compiled = Template::new(person_template("{{ year() }} {{ month() }} {{ now() }}")).unwrap();
    let mut values = Values::new();
    values.insert(FieldName::Title, FieldValues::new());
    let title = compiled.render(&values).unwrap().title;
    let parts: Vec<&str> = title.split(' ').collect();
    assert_eq!(parts.len(), 3);
    assert!(parts[0].parse::<i32>().is_ok());
    assert!(!parts[1].is_empty());
    assert!(lknpd::model::Date::parse(parts[2]).is_ok());
    assert!(!title.contains("{{"));
}

#[test]
fn segments_interleave_substitute_join() {
    let pieces = vec!["a".to_owned(), "".to_owned(), "c".to_owned()];
    let segments = interleave(pieces, "-");
    assert_eq!(
        segments,
        vec![
            Segment { text: "a".to_owned(), literal: true },
            Segment { text: "-".to_owned(), literal: false },
            Segment { text: "".to_owned(), literal: true },
            Segment { text: "-".to_owned(), literal: false },
            Segment { text: "c".to_owned(), literal: true },
        ]
    );
    assert_eq!(join(&segments), "a--c");
    assert_eq!(interleave(vec![], "-"), vec![]);
    assert_eq!(join(&vec![]), "");

    let start = vec![
        Segment { text: "x{{ n }}y".to_owned(), literal: true },
        Segment { text: "{{ n }}".to_owned(), literal: false },
    ];
    let replaced = substitute(start, r"\{\{\s*n.*?\}\}", "V").unwrap();
    assert_eq!(
        replaced,
        vec![
            Segment { text: "x".to_owned(), literal: true },
            Segment { text: "V".to_owned(), literal: false },
            Segment { text: "y".to_owned(), literal: true },
            Segment { text: "{{ n }}".to_owned(), literal: false },
        ]
    );
    assert_eq!(substitute(vec![Segment { text: "x".to_owned(), literal: true }], "(", "V"), None);
}

#[test]
fn values_alone_need_no_pattern() {
    let values = || {
        vec![
            Segment { text: "{{ n }}".to_owned(), literal: false },
            Segment { text: "".to_owned(), literal: false },
        ]
    };
    assert_eq!(substitute(values(), "(", "V"), Some(values()));
    assert_eq!(substitute(values(), r"\{\{\s*n.*?\}\}", "V"), Some(values()));
    assert_eq!(substitute(vec![], "(", "V"), Some(vec![]));
}

#[test]
fn refused_pattern_names_the_first_placeholder() {
    let field = Field { placeholders: vec![variable("a"), variable("("), variable("[")] };
    let mut values = Values::new();
    values.insert(FieldName::Price, values_for(&[("a", "1"), ("(", "2"), ("[", "3")]));
    assert_eq!(
        Template::replace_values(FieldName::Price, &field, "x {{ a }}", &values),
        Err(Error::Pattern(FieldName::Price, "(".to_owned()))
    );
    let field = Field { placeholders: vec![variable("a"), variable("b")] };
    let mut values = Values::new();
    values.insert(FieldName::Price, values_for(&[("a", "1"), ("b", "2")]));
    assert_eq!(
        Template::replace_values(FieldName::Price, &field, "{{ b }} {{ a }}", &values),
        Ok("2 1".to_owned())
    );
}

#[test]
fn refused_pattern_is_reported() {
    let field = Field { placeholders: vec![variable("(")] };
    let mut values = Values::new();
    values.insert(FieldName::Title, values_for(&[("(", "v")]));
    assert_eq!(
        Template::replace_values(FieldName::Title, &field, "text", &values),
        Err(Error::Pattern(FieldName::Title, "(".to_owned()))
    );
}

#[test]
fn validated_values() {
    assert_eq!(Title::new(""), Err(Invalid::Empty));
    assert_eq!(Title::new("t").unwrap().as_str(), "t");
    assert_eq!(OrganizationName::new("AB"), Err(Invalid::TooShort));
    assert_eq!(OrganizationName::new("АБ"), Err(Invalid::TooShort));
    assert_eq!(OrganizationName::new("АБВ").unwrap().as_str(), "АБВ");
    assert_eq!(OrganizationINN::new("12345"), Err(Invalid::WrongLength));
    assert_eq!(OrganizationINN::new("12345678901"), Err(Invalid::WrongLength));
    assert_eq!(OrganizationINN::new("12345a7890"), Err(Invalid::NotDigits));
    assert_eq!(OrganizationINN::new("١٢٣٤٥٦٧٨٩٠"), Err(Invalid::NotDigits));
    assert_eq!(OrganizationINN::new("1234567890").unwrap().as_str(), "1234567890");
    assert_eq!(Price::new(5).value(), 5);
    assert_eq!(Price::parse("100"), Ok(Price::new(100)));
    assert_eq!(Price::parse("+100"), Ok(Price::new(100)));
    assert_eq!(Price::parse("007"), Ok(Price::new(7)));
    assert_eq!(Price::parse("4294967295"), Ok(Price::new(u32::MAX)));
    assert_eq!(Price::parse("4294967296"), Err(Invalid::NotANumber));
    assert_eq!(Price::parse("99999999999999999999999"), Err(Invalid::NotANumber));
    assert_eq!(Price::parse(""), Err(Invalid::NotANumber));
    assert_eq!(Price::parse("+"), Err(Invalid::NotANumber));
    assert_eq!(Price::parse("-1"), Err(Invalid::NotANumber));
    assert_eq!(Price::parse("1 0"), Err(Invalid::NotANumber));
    assert_eq!(Price::parse("10.5"), Err(Invalid::NotANumber));
}

#[test]
fn price_reads_as_std_does() {
    for text in ["0", "+0", "12", "+12", "0012", "4294967295", "4294967296", "", "+", "++1", "-0", "1+", " 1", "１"] {
        assert_eq!(Price::parse(text).ok().map(|p| p.value()), text.parse::<u32>().ok(), "{}", text);
    }
}

#[test]
fn dates() {
    let date = lknpd::model::Date::parse("2024-01-02T10:00:00+03:00").unwrap();
    assert_eq!(date.stamp(), "2024-01-02T10:00:00+03:00");
    assert_eq!(date.timestamp(), 1704178800);
    assert_eq!(date.offset_seconds(), 10800);
    let utc = lknpd::model::Date::parse("1970-01-01T00:00:01.5Z").unwrap();
    assert_eq!(utc.timestamp(), 1);
    assert_eq!(utc.subsec_nanos(), 500_000_000);
    assert_eq!(utc.offset_seconds(), 0);
    assert_eq!(utc.stamp(), "1970-01-01T00:00:01+00:00");
    assert_eq!(lknpd::model::Date::parse("2024-01-02T10:00:00"), Err(Invalid::NotATimestamp));
    assert_eq!(lknpd::model::Date::parse("yesterday"), Err(Invalid::NotATimestamp));
    assert_eq!(lknpd::model::Date::parse(""), Err(Invalid::NotATimestamp));
}

#[test]
fn build_reports_first_invalid_field() {
    let rendered = raw::Template {
        title: "".to_owned(),
        price: "x".to_owned(),
        date: "y".to_owned(),
        counterparty: raw::Counterparty::Person,
    };
    assert_eq!(build(rendered), Err(Error::Validation(FieldName::Title, Invalid::Empty)));
    let rendered = raw::Template {
        title: "t".to_owned(),
        price: "x".to_owned(),
        date: "y".to_owned(),
        counterparty: raw::Counterparty::Person,
    };
    assert_eq!(build(rendered), Err(Error::Validation(FieldName::Price, Invalid::NotANumber)));
    let rendered = raw::Template {
        title: "t".to_owned(),
        price: "1".to_owned(),
        date: "y".to_owned(),
        counterparty: raw::Counterparty::Person,
    };
    assert_eq!(build(rendered), Err(Error::Validation(FieldName::Date, Invalid::NotATimestamp)));
    let rendered = raw::Template {
        title: "t".to_owned(),
        price: "1".to_owned(),
        date: "2024-01-02T10:00:00+03:00".to_owned(),
        counterparty: raw::Counterparty::Organization {
            name: "Acme".to_owned(),
            inn: "123".to_owned(),
        },
    };
    assert_eq!(
        build(rendered),
        Err(Error::Validation(FieldName::CounterpartyOrganizationINN, Invalid::WrongLength))
    );
    let rendered = raw::Template {
        title: "t".to_owned(),
        price: "1".to_owned(),
        date: "2024-01-02T10:00:00+03:00".to_owned(),
        counterparty: raw::Counterparty::Organization {
            name: "Acme".to_owned(),
            inn: "1234567890".to_owned(),
        },
    };
    let check: Check = build(rendered).unwrap();
    assert_eq!(
        check.counterparty,
        Counterparty::Organization {
            name: OrganizationName::new("Acme").unwrap(),
            inn: OrganizationINN::new("1234567890").unwrap(),
        }
    );
}

#[test]
fn invalid_messages() {
    assert_eq!(Invalid::Empty.message(), "shouldn't be empty");
    assert_eq!(Invalid::TooShort.message(), "should be at least 3 chars");
    assert_eq!(Invalid::WrongLength.message(), "should be exactly 10 digits");
    assert_eq!(Invalid::NotDigits.message(), "should contains only ascii digits");
}

#[test]
fn no_pattern_is_left_after_rendering() {
    let mut raw = person_template("{{ a }}, {{ ab:\"x\" }} and {{ a:year() }} in {{ month() }}");
    raw.counterparty = raw::Counterparty::Organization {
        name: "{{ org }} Ltd".to_owned(),
        inn: "{{taxid}}".to_owned(),
    };
    let compiled = Template::new(raw).unwrap();
    let mut values = Values::new();
    values.insert(FieldName::Title, values_for(&[("a", "one"), ("ab", "two")]));
    values.insert(FieldName::CounterpartyOrganizationName, values_for(&[("org", "Acme")]));
    values.insert(FieldName::CounterpartyOrganizationINN, values_for(&[("taxid", "1234567890")]));
    let rendered = compiled.render(&values).unwrap();
    assert!(rendered.title.starts_with("one, one and one in "));
    let texts = [
        (FieldName::Title, rendered.title.clone()),
        (FieldName::CounterpartyOrganizationName, "Acme Ltd".to_owned()),
        (FieldName::CounterpartyOrganizationINN, "1234567890".to_owned()),
    ];
    assert_eq!(
        rendered.counterparty,
        raw::Counterparty::Organization {
            name: "Acme Ltd".to_owned(),
            inn: "1234567890".to_owned(),
        }
    );
    for (name, text) in texts {
        for placeholder in &compiled.get_fields().get(name).unwrap().placeholders {
            let pattern = regex::Regex::new(&Template::create_pattern(placeholder)).unwrap();
            assert!(!pattern.is_match(&text), "{} is left in {}", placeholder.name(), text);
        }
    }
}
