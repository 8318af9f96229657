//! From a compiled template and the values of one build to a receipt: all
//! fields are rendered, then the rendered texts are checked.

use vstd::prelude::*;
use crate::model::{
    moment_of, organization_inn_fault, organization_name_fault, price_of, title_fault, Check,
    CheckView, Counterparty, Date, Invalid, OrganizationINN, OrganizationName, PartyView, Price,
    Title,
};
use crate::template::compiled::Template;
use crate::template::error::{Error, ErrorView};
use crate::template::fields::FieldName;
use crate::template::grammar::placeholders_in;
use crate::template::raw;
use crate::template::render::{outcome_of, renders_to};
use crate::template::values::Values;

verus! {

/// The rendered texts of a template: its slots without placeholders.
pub type Rendered = raw::Template;

/// The place of a field in the order in which fields are worked through.
pub open spec fn rank(name: FieldName) -> int {
    match name {
        FieldName::Title => 0,
        FieldName::Price => 1,
        FieldName::Date => 2,
        FieldName::CounterpartyOrganizationName => 3,
        FieldName::CounterpartyOrganizationINN => 4,
    }
}

/// Whether `rendered` is what rendering `raw` with `values` can give: the
/// same slots, each with a text that its raw text renders to.
pub open spec fn renders(raw: raw::Template, values: Values, rendered: Rendered) -> bool {
    forall|name: FieldName|
        match #[trigger] raw.slot(name) {
            Some(text) => rendered.slot(name) is Some && renders_to(
                placeholders_in(text),
                name,
                text,
                values,
                Ok(rendered.slot(name)->0),
            ),
            None => rendered.slot(name) is None,
        }
}

/// Whether rendering `raw` with `values` can fail with `error` at the field
/// `name`: the field fails with it, and every field before it renders to a
/// text.
pub open spec fn failing(raw: raw::Template, values: Values, error: ErrorView, name: FieldName) -> bool {
    &&& raw.slot(name) is Some
    &&& renders_to(
        placeholders_in(raw.slot(name)->0),
        name,
        raw.slot(name)->0,
        values,
        Err(error),
    )
    &&& forall|before: FieldName|
        rank(before) < rank(name) ==> renders_before(#[trigger] raw.slot(before), before, values)
}

/// Whether rendering `raw` with `values` can fail with `error`: the first
/// field that does not render to a text fails with it.
pub open spec fn fails(raw: raw::Template, values: Values, error: ErrorView) -> bool {
    exists|name: FieldName| failing(raw, values, error, name)
}

/// Whether the slot of the field `name`, where the template has it, renders
/// to a text.
pub open spec fn renders_before(slot: Option<Seq<char>>, name: FieldName, values: Values) -> bool {
    match slot {
        Some(text) => exists|output: Seq<char>| renders_text(text, name, values, output),
        None => true,
    }
}

/// Whether the text `text` of the field `name` renders to `output`.
pub open spec fn renders_text(
    text: Seq<char>,
    name: FieldName,
    values: Values,
    output: Seq<char>,
) -> bool {
    renders_to(placeholders_in(text), name, text, values, Ok(output))
}

/// The receipt that the rendered texts make, or the first of them that is
/// not a value of its type: title, price, date, name, tax number.
pub open spec fn check_of(rendered: Rendered) -> Result<CheckView, ErrorView> {
    if title_fault(rendered.title@) is Some {
        Err(ErrorView::Validation(FieldName::Title, title_fault(rendered.title@)->0))
    } else if price_of(rendered.price@) is None {
        Err(ErrorView::Validation(FieldName::Price, Invalid::NotANumber))
    } else if moment_of(rendered.date@) is None {
        Err(ErrorView::Validation(FieldName::Date, Invalid::NotATimestamp))
    } else {
        let title = rendered.title@;
        let price = price_of(rendered.price@)->0;
        let date = moment_of(rendered.date@)->0;
        match rendered.counterparty {
            raw::Counterparty::Person => Ok(
                CheckView { title, price, date, counterparty: PartyView::Person },
            ),
            raw::Counterparty::Organization { name, inn } => if organization_name_fault(name@)
                is Some {
                Err(
                    ErrorView::Validation(
                        FieldName::CounterpartyOrganizationName,
                        organization_name_fault(name@)->0,
                    ),
                )
            } else if organization_inn_fault(inn@) is Some {
                Err(
                    ErrorView::Validation(
                        FieldName::CounterpartyOrganizationINN,
                        organization_inn_fault(inn@)->0,
                    ),
                )
            } else {
                Ok(
                    CheckView {
                        title,
                        price,
                        date,
                        counterparty: PartyView::Organization { name: name@, inn: inn@ },
                    },
                )
            },
        }
    }
}

/// Checks the rendered texts into a receipt. The first text that is not a
/// value of its type ends the work: no receipt is made of the rest.
pub fn build(rendered: Rendered) -> (built: Result<Check, Error>)
    ensures
        match check_of(rendered) {
            Ok(check) => built is Ok && built->Ok_0@ == check,
            Err(error) => built is Err && built->Err_0@ == error,
        },
{
    let title = match Title::new(rendered.title.as_str()) {
        Ok(title) => title,
        Err(fault) => {
            return Err(Error::Validation(FieldName::Title, fault));
        },
    };
    let price = match Price::parse(rendered.price.as_str()) {
        Ok(price) => price,
        Err(fault) => {
            return Err(Error::Validation(FieldName::Price, fault));
        },
    };
    let date = match Date::parse(rendered.date.as_str()) {
        Ok(date) => date,
        Err(fault) => {
            return Err(Error::Validation(FieldName::Date, fault));
        },
    };
    let counterparty = match &rendered.counterparty {
        raw::Counterparty::Person => Counterparty::Person,
        raw::Counterparty::Organization { name, inn } => {
            let name = match OrganizationName::new(name.as_str()) {
                Ok(name) => name,
                Err(fault) => {
                    return Err(
                        Error::Validation(FieldName::CounterpartyOrganizationName, fault),
                    );
                },
            };
            let inn = match OrganizationINN::new(inn.as_str()) {
                Ok(inn) => inn,
                Err(fault) => {
                    return Err(Error::Validation(FieldName::CounterpartyOrganizationINN, fault));
                },
            };
            Counterparty::Organization { name, inn }
        },
    };
    Ok(Check { title, price, date, counterparty })
}

impl Template {
    /// Renders the text `input` of the slot `name` of this template.
    fn render_slot(&self, name: FieldName, input: &str, values: &Values) -> (output: Result<
        String,
        Error,
    >)
        requires
            self.source().slot(name) == Some(input@),
        ensures
            renders_to(placeholders_in(input@), name, input@, *values, outcome_of(output)),
    {
        let fields = self.get_fields();
        match fields.get(name) {
            Some(field) => Self::replace_values(name, field, input, values),
            None => vstd::pervasive::unreached(),
        }
    }

    /// Renders every slot of the template with the values of one build, in
    /// the order title, price, date, name, tax number. The first field that
    /// fails ends the work.
    pub fn render(&self, values: &Values) -> (output: Result<Rendered, Error>)
        ensures
            match output {
                Ok(rendered) => renders(self.source(), *values, rendered),
                Err(error) => fails(self.source(), *values, error@),
            },
    {
        let raw = self.get_raw();
        let title = match self.render_slot(FieldName::Title, raw.title.as_str(), values) {
            Ok(text) => text,
            Err(error) => {
                proof {
                    assert(failing(*raw, *values, error@, FieldName::Title));
                }
                return Err(error);
            },
        };
        let price = match self.render_slot(FieldName::Price, raw.price.as_str(), values) {
            Ok(text) => text,
            Err(error) => {
                proof {
                    lemma_renders(raw.title@, FieldName::Title, *values, title@);
                    assert(failing(*raw, *values, error@, FieldName::Price));
                }
                return Err(error);
            },
        };
        let date = match self.render_slot(FieldName::Date, raw.date.as_str(), values) {
            Ok(text) => text,
            Err(error) => {
                proof {
                    lemma_renders(raw.title@, FieldName::Title, *values, title@);
                    lemma_renders(raw.price@, FieldName::Price, *values, price@);
                    assert(failing(*raw, *values, error@, FieldName::Date));
                }
                return Err(error);
            },
        };
        let counterparty = match &raw.counterparty {
            raw::Counterparty::Person => raw::Counterparty::Person,
            raw::Counterparty::Organization { name, inn } => {
                let name_text = match self.render_slot(
                    FieldName::CounterpartyOrganizationName,
                    name.as_str(),
                    values,
                ) {
                    Ok(text) => text,
                    Err(error) => {
                        proof {
                            lemma_renders(raw.title@, FieldName::Title, *values, title@);
                            lemma_renders(raw.price@, FieldName::Price, *values, price@);
                            lemma_renders(raw.date@, FieldName::Date, *values, date@);
                            assert(failing(*raw, *values, error@, FieldName::CounterpartyOrganizationName));
                        }
                        return Err(error);
                    },
                };
                let inn_text = match self.render_slot(
                    FieldName::CounterpartyOrganizationINN,
                    inn.as_str(),
                    values,
                ) {
                    Ok(text) => text,
                    Err(error) => {
                        proof {
                            lemma_renders(raw.title@, FieldName::Title, *values, title@);
                            lemma_renders(raw.price@, FieldName::Price, *values, price@);
                            lemma_renders(raw.date@, FieldName::Date, *values, date@);
                            lemma_renders(
                                name@,
                                FieldName::CounterpartyOrganizationName,
                                *values,
                                name_text@,
                            );
                            assert(failing(*raw, *values, error@, FieldName::CounterpartyOrganizationINN));
                        }
                        return Err(error);
                    },
                };
                raw::Counterparty::Organization { name: name_text, inn: inn_text }
            },
        };
        Ok(raw::Template { title, price, date, counterparty })
    }

    /// Builds the receipt of one build: renders the template with `values`
    /// and checks the rendered texts.
    pub fn build_check(&self, values: &Values) -> (built: Result<Check, Error>)
        ensures
            match built {
                Ok(check) => exists|rendered: Rendered|
                    #[trigger] renders(self.source(), *values, rendered) && check_of(rendered)
                        == Ok::<CheckView, ErrorView>(check@),
                Err(error) => fails(self.source(), *values, error@) || exists|rendered: Rendered|
                    #[trigger] renders(self.source(), *values, rendered) && check_of(rendered)
                        == Err::<CheckView, ErrorView>(error@),
            },
    {
        let rendered = match self.render(values) {
            Ok(rendered) => rendered,
            Err(error) => {
                return Err(error);
            },
        };
        let ghost texts = rendered;
        let built = build(rendered);
        proof {
            assert(renders(self.source(), *values, texts));
        }
        built
    }
}

/// A slot that rendered to a text renders to a text.
pub proof fn lemma_renders(text: Seq<char>, name: FieldName, values: Values, output: Seq<char>)
    requires
        renders_to(placeholders_in(text), name, text, values, Ok(output)),
    ensures
        renders_before(Some(text), name, values),
{
    let slot = Some(text);
    assert(renders_text(slot->0, name, values, output));
}

} // verus!
