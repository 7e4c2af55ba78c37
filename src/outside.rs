//! The calls into the template engine, the date parser and the decimal
//! parser, with what this library relies on of each.
use chrono::Datelike;
use crate::text::{has_partial_call, template_has_partial_call};
use vstd::prelude::*;

verus! {

#[verifier::external_type_specification]
#[verifier::external_body]
pub struct ExRegistry<'reg>(handlebars::Handlebars<'reg>);

#[verifier::external_type_specification]
#[verifier::external_body]
pub struct ExTemplateRenderError(handlebars::TemplateRenderError);

#[verifier::external_type_specification]
#[verifier::external_body]
pub struct ExDateParseError(chrono::format::ParseError);

#[verifier::external_type_specification]
#[verifier::external_body]
pub struct ExDecimalError(rust_decimal::Error);

/// The named values of a row: pairs listed later override earlier ones
/// with the same name.
pub open spec fn context_map(pairs: Seq<(Seq<char>, Seq<char>)>) -> Map<Seq<char>, Seq<char>>
    decreases pairs.len(),
{
    if pairs.len() == 0 {
        Map::empty()
    } else {
        context_map(pairs.drop_last()).insert(pairs.last().0, pairs.last().1)
    }
}

/// What `template` renders to against `context`, with strict lookup of
/// names and no escaping; `None` where rendering fails.
pub uninterp spec fn rendered(template: Seq<char>, context: Map<Seq<char>, Seq<char>>) -> Option<Seq<char>>;

/// The calendar date (year, month, day) that `text` denotes under the
/// strftime-style `format`; `None` where it does not parse.
pub uninterp spec fn parsed_date(text: Seq<char>, format: Seq<char>) -> Option<(int, int, int)>;

/// The decimal number (mantissa, scale) that `text` denotes; `None` where
/// it is no decimal number.
pub uninterp spec fn parsed_decimal(text: Seq<char>) -> Option<(int, int)>;

/// Whether `template` holds no opening brace, so that it has no
/// placeholder and no escape in it.
pub open spec fn is_plain_text(template: Seq<char>) -> bool {
    forall|i: int| 0 <= i < template.len() ==> template[i] != '{'
}

/// The one template engine of a run: it looks names up strictly (a name
/// missing from the row is an error) and leaves the substituted values
/// unescaped.
pub struct TemplateEngine {
    registry: handlebars::Handlebars<'static>,
}

/// Relies on `Handlebars::new`, `Handlebars::set_strict_mode` and
/// `Handlebars::register_escape_fn` with `no_escape`: a registry that fails
/// on unknown names and copies values through unchanged.
#[verifier::external_body]
fn strict_raw_registry() -> handlebars::Handlebars<'static> {
    let mut registry = handlebars::Handlebars::new();
    registry.set_strict_mode(true);
    registry.register_escape_fn(handlebars::no_escape);
    registry
}

/// Relies on `Handlebars::render_template`: under strict lookup and without
/// escaping, the text depends on the template and the named values alone
/// (handed over as an ordered map, a later pair replacing an earlier one of
/// the same name), and text with no `{` comes back as it is (the grammar
/// reads it as raw text). Templates that call a partial are left out: a
/// partial that calls itself recurses without bound.
#[verifier::external_body]
fn render_template(
    registry: &handlebars::Handlebars<'static>,
    template: &str,
    context: &Vec<(String, String)>,
) -> (r: Result<String, handlebars::TemplateRenderError>)
    requires
        !has_partial_call(template@),
    ensures
        r is Ok <==> rendered(template@, context_map(context.deep_view())) is Some,
        r is Ok ==> r->Ok_0@ == rendered(template@, context_map(context.deep_view()))->Some_0,
        is_plain_text(template@) ==> r is Ok && r->Ok_0@ == template@,
{
    let mut data: std::collections::BTreeMap<&str, &str> = std::collections::BTreeMap::new();
    for (name, value) in context.iter() {
        data.insert(name.as_str(), value.as_str());
    }
    registry.render_template(template, &data)
}

impl TemplateEngine {
    /// An engine with strict lookup and no escaping.
    pub fn new() -> (r: TemplateEngine) {
        TemplateEngine { registry: strict_raw_registry() }
    }

    /// Renders `template` against the named values of `context`; `None`
    /// where rendering fails, and for a template that calls a partial,
    /// which is refused unrendered.
    pub fn render(&self, template: &str, context: &Vec<(String, String)>) -> (r: Option<String>)
        ensures
            r is Some <==> !has_partial_call(template@) && rendered(
                template@,
                context_map(context.deep_view()),
            ) is Some,
            r is Some ==> r->Some_0@ == rendered(template@, context_map(context.deep_view()))->Some_0,
            is_plain_text(template@) ==> rendered(template@, context_map(context.deep_view()))
                == Some(template@),
    {
        if template_has_partial_call(template) {
            return None;
        }
        match render_template(&self.registry, template, context) {
            Ok(s) => Some(s),
            Err(_) => None,
        }
    }
}

/// Relies on `NaiveDate::parse_from_str`, taken apart by `Datelike`: the
/// date depends on the text and the format alone.
#[verifier::external_body]
pub(crate) fn parse_date(text: &str, format: &str) -> (r: Result<
    (i32, u32, u32),
    chrono::format::ParseError,
>)
    ensures
        r is Ok <==> parsed_date(text@, format@) is Some,
        r is Ok ==> parsed_date(text@, format@)->Some_0 == (
            r->Ok_0.0 as int,
            r->Ok_0.1 as int,
            r->Ok_0.2 as int,
        ),
{
    chrono::NaiveDate::parse_from_str(text, format).map(|d| (d.year(), d.month(), d.day()))
}

/// Relies on `Decimal::from_str` (what `str::parse` calls): the number,
/// taken apart by `Decimal::mantissa` and `Decimal::scale`, depends on the
/// text alone.
#[verifier::external_body]
pub(crate) fn parse_decimal(text: &str) -> (r: Result<(i128, u32), rust_decimal::Error>)
    ensures
        r is Ok <==> parsed_decimal(text@) is Some,
        r is Ok ==> parsed_decimal(text@)->Some_0 == (r->Ok_0.0 as int, r->Ok_0.1 as int),
{
    text.parse::<rust_decimal::Decimal>().map(|d| (d.mantissa(), d.scale()))
}

} // verus!
