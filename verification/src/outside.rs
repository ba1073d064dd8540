//! Trusted boundary to the external `cooklang` parser.
//!
//! The parser's types are opaque here.  Uninterpreted names give their
//! contents a mathematical model, and each wrapper's contract ties what
//! it hands over to a projection of that model.  Everything below this
//! boundary is believed, not proved; everything above is verified
//! against these contracts.

use vstd::prelude::*;
use crate::model::{ContentModel, QuantityModel, RecipeModel, ValueModel};
use crate::output::{SourceItem, ValueOutput};

verus! {

#[verifier::external_type_specification]
#[verifier::external_body]
pub struct ExRecipe(cooklang::Recipe);

#[verifier::external_type_specification]
#[verifier::external_body]
pub struct ExQuantity(cooklang::Quantity);

#[verifier::external_type_specification]
#[verifier::external_body]
pub struct ExSourceReport(cooklang::error::SourceReport);

/// The optional string forms of an optional owned string.
pub open spec fn opt_str_view(o: Option<String>) -> Option<Seq<char>> {
    match o {
        Option::Some(s) => Option::Some(s@),
        Option::None => Option::None,
    }
}

/// What parsing yields for a given input text and extension flag: on
/// success the recipe and a report holding only warnings, on failure
/// the report holding the errors.
pub uninterp spec fn parse_of(input: Seq<char>, all_extensions: bool) -> Result<
    (cooklang::Recipe, cooklang::error::SourceReport),
    cooklang::error::SourceReport,
>;

/// What scaling a recipe to a target serving count yields: the rewritten
/// recipe, or the scaling error's message prefixed with "Scaling error: ".
pub uninterp spec fn scale_of(recipe: cooklang::Recipe, target: u32) -> Result<
    cooklang::Recipe,
    Seq<char>,
>;

/// What the aisle-configuration pass-through yields for a given input
/// text: the parsed configuration serialized back out, or an error
/// message.
pub uninterp spec fn aisle_json_of(input: Seq<char>) -> Result<Seq<char>, Seq<char>>;

/// Everything the conversion reads from a parsed recipe value.
pub uninterp spec fn recipe_model(recipe: cooklang::Recipe) -> RecipeModel;

/// The value a quantity holds, with numbers as their canonical JSON text.
pub uninterp spec fn quantity_value_of(q: cooklang::Quantity) -> ValueModel;

/// The unit text a quantity holds, if any.
pub uninterp spec fn quantity_unit_of(q: cooklang::Quantity) -> Option<Seq<char>>;

/// The error messages a report holds, in report order.
pub uninterp spec fn report_errors(report: cooklang::error::SourceReport) -> Seq<Seq<char>>;

/// The warning messages a report holds, in report order.
pub uninterp spec fn report_warnings(report: cooklang::error::SourceReport) -> Seq<Seq<char>>;

/// The model of one quantity: its value and its unit.
pub open spec fn quantity_model(q: cooklang::Quantity) -> QuantityModel {
    QuantityModel { value: quantity_value_of(q), unit: quantity_unit_of(q) }
}

/// Relies on `CooklangParser::new` with `Converter::default()`,
/// `CooklangParser::parse` and `PassResult::into_result`: parsing is a
/// pure function of the input text and the extension flag; `Ok` holds
/// the recipe and a report with only warnings, `Err` the report with
/// the errors.
#[verifier::external_body]
pub(crate) fn parse_input(input: &str, all_extensions: bool) -> (r: Result<
    (cooklang::Recipe, cooklang::error::SourceReport),
    cooklang::error::SourceReport,
>)
    ensures
        r == parse_of(input@, all_extensions),
{
    let extensions = if all_extensions {
        cooklang::Extensions::all()
    } else {
        cooklang::Extensions::empty()
    };
    let parser = cooklang::CooklangParser::new(extensions, cooklang::Converter::default());
    parser.parse(input).into_result()
}

/// Relies on `Recipe::scale_to_servings` with `Converter::default()`:
/// it rewrites the quantities in place, or fails before touching the
/// recipe when no valid numeric servings metadata is present; the error
/// is formatted through its `Display` text.
#[verifier::external_body]
pub(crate) fn scale_recipe(recipe: &mut cooklang::Recipe, target: u32) -> (r: Result<
    (),
    String,
>)
    ensures
        (match scale_of(*old(recipe), target) {
            Result::Ok(scaled) => r matches Result::Ok(_) && *final(recipe) == scaled,
            Result::Err(msg) => (r matches Result::Err(m) && m@ == msg) && *final(recipe) == *old(
                recipe,
            ),
        }),
{
    let converter = cooklang::Converter::default();
    match recipe.scale_to_servings(target, &converter) {
        Ok(()) => Ok(()),
        Err(e) => Err(format!("Scaling error: {}", e)),
    }
}

/// Relies on `cooklang::aisle::parse` and `serde_json::to_string`, both
/// pure in the input: the configuration parsed and serialized back out,
/// or the parse error's `Display` text; a serialization failure is
/// reported with a "JSON serialization error: " prefix.
#[verifier::external_body]
pub(crate) fn aisle_json(input: &str) -> (r: Result<String, String>)
    ensures
        (match aisle_json_of(input@) {
            Result::Ok(j) => r matches Result::Ok(s) && s@ == j,
            Result::Err(m) => r matches Result::Err(s) && s@ == m,
        }),
{
    match cooklang::aisle::parse(input) {
        Ok(config) => serde_json::to_string(&config).map_err(
            |e| format!("JSON serialization error: {}", e),
        ),
        Err(e) => Err(e.to_string()),
    }
}

/// Relies on the public `metadata.map` field, a YAML mapping iterated
/// in insertion order, and `serde_yaml::Value::as_str`: each entry's
/// key and value in their optional string forms.
#[verifier::external_body]
pub(crate) fn metadata_entries(r: &cooklang::Recipe) -> (v: Vec<(Option<String>, Option<String>)>)
    ensures
        v@.map_values(|p: (Option<String>, Option<String>)| (opt_str_view(p.0), opt_str_view(p.1)))
            == recipe_model(*r).metadata,
{
    r.metadata.map.iter().map(
        |(k, v)| (k.as_str().map(|s| s.to_string()), v.as_str().map(|s| s.to_string())),
    ).collect()
}

/// Relies on the public `ingredients` field: how many entries it holds.
#[verifier::external_body]
pub(crate) fn ingredient_count(r: &cooklang::Recipe) -> (n: usize)
    ensures
        n as int == recipe_model(*r).ingredients.len(),
{
    r.ingredients.len()
}

/// Relies on the public fields of `cooklang::Ingredient`: name,
/// quantity and note of the entry at a position.
#[verifier::external_body]
pub(crate) fn ingredient_parts(r: &cooklang::Recipe, i: usize) -> (p: (
    String,
    Option<cooklang::Quantity>,
    Option<String>,
))
    requires
        (i as int) < recipe_model(*r).ingredients.len(),
    ensures
        p.0@ == recipe_model(*r).ingredients[i as int].name,
        (match p.1 {
            Option::Some(q) => recipe_model(*r).ingredients[i as int].quantity
                == Option::Some(quantity_model(q)),
            Option::None => recipe_model(*r).ingredients[i as int].quantity is None,
        }),
        opt_str_view(p.2) == recipe_model(*r).ingredients[i as int].note,
{
    let g = &r.ingredients[i];
    (g.name.clone(), g.quantity.clone(), g.note.clone())
}

/// Relies on the public `cookware` field: how many entries it holds.
#[verifier::external_body]
pub(crate) fn cookware_count(r: &cooklang::Recipe) -> (n: usize)
    ensures
        n as int == recipe_model(*r).cookware.len(),
{
    r.cookware.len()
}

/// Relies on the public fields of `cooklang::Cookware`: name, quantity
/// and note of the entry at a position.
#[verifier::external_body]
pub(crate) fn cookware_parts(r: &cooklang::Recipe, i: usize) -> (p: (
    String,
    Option<cooklang::Quantity>,
    Option<String>,
))
    requires
        (i as int) < recipe_model(*r).cookware.len(),
    ensures
        p.0@ == recipe_model(*r).cookware[i as int].name,
        (match p.1 {
            Option::Some(q) => recipe_model(*r).cookware[i as int].quantity
                == Option::Some(quantity_model(q)),
            Option::None => recipe_model(*r).cookware[i as int].quantity is None,
        }),
        opt_str_view(p.2) == recipe_model(*r).cookware[i as int].note,
{
    let c = &r.cookware[i];
    (c.name.clone(), c.quantity.clone(), c.note.clone())
}

/// Relies on the public `timers` field: how many entries it holds.
#[verifier::external_body]
pub(crate) fn timer_count(r: &cooklang::Recipe) -> (n: usize)
    ensures
        n as int == recipe_model(*r).timers.len(),
{
    r.timers.len()
}

/// Relies on the public fields of `cooklang::Timer`: name and quantity
/// of the entry at a position.
#[verifier::external_body]
pub(crate) fn timer_parts(r: &cooklang::Recipe, i: usize) -> (p: (
    Option<String>,
    Option<cooklang::Quantity>,
))
    requires
        (i as int) < recipe_model(*r).timers.len(),
    ensures
        opt_str_view(p.0) == recipe_model(*r).timers[i as int].name,
        (match p.1 {
            Option::Some(q) => recipe_model(*r).timers[i as int].quantity
                == Option::Some(quantity_model(q)),
            Option::None => recipe_model(*r).timers[i as int].quantity is None,
        }),
{
    let t = &r.timers[i];
    (t.name.clone(), t.quantity.clone())
}

/// Relies on the public `sections` field: how many sections there are.
#[verifier::external_body]
pub(crate) fn section_count(r: &cooklang::Recipe) -> (n: usize)
    ensures
        n as int == recipe_model(*r).sections.len(),
{
    r.sections.len()
}

/// Relies on the public `name` field of `cooklang::Section`.
#[verifier::external_body]
pub(crate) fn section_name(r: &cooklang::Recipe, i: usize) -> (name: Option<String>)
    requires
        (i as int) < recipe_model(*r).sections.len(),
    ensures
        opt_str_view(name) == recipe_model(*r).sections[i as int].name,
{
    r.sections[i].name.clone()
}

/// Relies on the public `content` field of `cooklang::Section`: how
/// many content entries the section holds.
#[verifier::external_body]
pub(crate) fn content_count(r: &cooklang::Recipe, i: usize) -> (n: usize)
    requires
        (i as int) < recipe_model(*r).sections.len(),
    ensures
        n as int == recipe_model(*r).sections[i as int].content.len(),
{
    r.sections[i].content.len()
}

/// Relies on the `cooklang::Content` variants: for a step, how many
/// items it holds; for a text paragraph, nothing.
#[verifier::external_body]
pub(crate) fn content_step_len(r: &cooklang::Recipe, i: usize, j: usize) -> (o: Option<usize>)
    requires
        (i as int) < recipe_model(*r).sections.len(),
        (j as int) < recipe_model(*r).sections[i as int].content.len(),
    ensures
        (match recipe_model(*r).sections[i as int].content[j as int] {
            ContentModel::Step { items } => o matches Option::Some(n) && n as int == items.len(),
            ContentModel::Text => o is None,
        }),
{
    match &r.sections[i].content[j] {
        cooklang::Content::Step(s) => Some(s.items.len()),
        cooklang::Content::Text(_) => None,
    }
}

/// Relies on the `cooklang::Item` variants and their public fields: the
/// item of a step at a position, in plain form.
#[verifier::external_body]
pub(crate) fn step_item(r: &cooklang::Recipe, i: usize, j: usize, k: usize) -> (it: SourceItem)
    requires
        (i as int) < recipe_model(*r).sections.len(),
        (j as int) < recipe_model(*r).sections[i as int].content.len(),
        recipe_model(*r).sections[i as int].content[j as int] matches ContentModel::Step { items }
            && (k as int) < items.len(),
    ensures
        (recipe_model(*r).sections[i as int].content[j as int] matches ContentModel::Step { items }
            ==> it@ == items[k as int]),
{
    match &r.sections[i].content[j] {
        cooklang::Content::Step(s) => match &s.items[k] {
            cooklang::Item::Text { value } => SourceItem::Text { value: value.clone() },
            cooklang::Item::Ingredient { index } => SourceItem::Ingredient { index: *index },
            cooklang::Item::Cookware { index } => SourceItem::Cookware { index: *index },
            cooklang::Item::Timer { index } => SourceItem::Timer { index: *index },
            cooklang::Item::InlineQuantity { index } => SourceItem::InlineQuantity {
                index: *index,
            },
        },
        cooklang::Content::Text(_) => SourceItem::Text { value: String::new() },
    }
}

/// Relies on `Quantity::value`, the `cooklang::Value` variants,
/// `Number::value` and `serde_json`'s canonical number formatting: the
/// quantity's value, with numbers as their JSON text.
#[verifier::external_body]
pub(crate) fn value_out(q: &cooklang::Quantity) -> (v: ValueOutput)
    ensures
        v@ == quantity_value_of(*q),
{
    match q.value() {
        cooklang::Value::Number(n) => ValueOutput::Number {
            repr: serde_json::to_string(&n.value()).unwrap_or(String::from("null")),
        },
        cooklang::Value::Range { start, end } => ValueOutput::Range {
            start: serde_json::to_string(&start.value()).unwrap_or(String::from("null")),
            end: serde_json::to_string(&end.value()).unwrap_or(String::from("null")),
        },
        cooklang::Value::Text(t) => ValueOutput::Text { value: t.clone() },
    }
}

/// Relies on `Quantity::unit`: the unit's display text, if any.
#[verifier::external_body]
pub(crate) fn unit_out(q: &cooklang::Quantity) -> (u: Option<String>)
    ensures
        opt_str_view(u) == quantity_unit_of(*q),
{
    q.unit().map(|s| s.to_string())
}

/// Relies on `SourceReport::errors` and the public `message` field: the
/// error messages in report order.
#[verifier::external_body]
pub(crate) fn errors_of(report: &cooklang::error::SourceReport) -> (v: Vec<String>)
    ensures
        v@.map_values(|s: String| s@) == report_errors(*report),
{
    report.errors().map(|e| e.message.to_string()).collect()
}

/// Relies on `SourceReport::warnings` and the public `message` field:
/// the warning messages in report order.
#[verifier::external_body]
pub(crate) fn warnings_of(report: &cooklang::error::SourceReport) -> (v: Vec<String>)
    ensures
        v@.map_values(|s: String| s@) == report_warnings(*report),
{
    report.warnings().map(|e| e.message.to_string()).collect()
}

/// Relies on `String::push`: appends one character.
#[verifier::external_body]
pub(crate) fn push_char(s: &mut String, c: char)
    ensures
        final(s)@ == old(s)@.push(c),
{
    s.push(c);
}

} // verus!
