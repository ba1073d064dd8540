//! The three entry points: parse, parse-and-scale, and the
//! aisle-configuration pass-through.
//!
//! Each is total over its inputs: it returns either the serialized
//! output model or a single failure message.  The contracts pin the
//! result exactly, through the names that model the external parser's
//! outcomes.

use vstd::prelude::*;
use crate::convert::{convert_recipe, error_message, join_lines, spec_convert_recipe};
use crate::json::{recipe_json, render_recipe};
use crate::outside::{
    aisle_json, aisle_json_of, parse_input, parse_of, recipe_model, report_errors, report_warnings,
    scale_of, scale_recipe,
};

verus! {

/// Parses recipe text and serializes the converted output model.
///
/// On success the result is exactly the canonical JSON of the
/// conversion; on failure it is the report's error messages joined
/// with newlines, in report order.
pub fn parse(input: &str, all_extensions: bool) -> (r: Result<String, String>)
    ensures
        (match parse_of(input@, all_extensions) {
            Result::Ok((rec, rep)) => r matches Result::Ok(s) && s@ == recipe_json(
                spec_convert_recipe(recipe_model(rec), report_warnings(rep)),
            ),
            Result::Err(rep) => r matches Result::Err(m) && m@ == join_lines(report_errors(rep)),
        }),
{
    match parse_input(input, all_extensions) {
        Result::Ok((rec, rep)) => {
            let out = convert_recipe(&rec, &rep);
            Result::Ok(render_recipe(&out))
        },
        Result::Err(rep) => Result::Err(error_message(&rep)),
    }
}

/// Parses recipe text, scales it to a target serving count, and
/// serializes the converted output model.
///
/// Scaling is all-or-nothing: when it fails (the recipe lacks a valid
/// numeric servings metadata entry), the failure message is returned
/// and no partially scaled output exists.
pub fn parse_and_scale(input: &str, target_servings: u32, all_extensions: bool) -> (r: Result<
    String,
    String,
>)
    ensures
        (match parse_of(input@, all_extensions) {
            Result::Ok((rec, rep)) => (match scale_of(rec, target_servings) {
                Result::Ok(scaled) => r matches Result::Ok(s) && s@ == recipe_json(
                    spec_convert_recipe(recipe_model(scaled), report_warnings(rep)),
                ),
                Result::Err(msg) => r matches Result::Err(m) && m@ == msg,
            }),
            Result::Err(rep) => r matches Result::Err(m) && m@ == join_lines(report_errors(rep)),
        }),
{
    match parse_input(input, all_extensions) {
        Result::Ok((rec, rep)) => {
            let mut recipe = rec;
            match scale_recipe(&mut recipe, target_servings) {
                Result::Ok(_) => {
                    let out = convert_recipe(&recipe, &rep);
                    Result::Ok(render_recipe(&out))
                },
                Result::Err(m) => Result::Err(m),
            }
        },
        Result::Err(rep) => Result::Err(error_message(&rep)),
    }
}

/// Parses an aisle configuration and serializes it back out unchanged:
/// a pure pass-through with no domain model of its own.
pub fn parse_aisle_config(input: &str) -> (r: Result<String, String>)
    ensures
        (match aisle_json_of(input@) {
            Result::Ok(j) => r matches Result::Ok(s) && s@ == j,
            Result::Err(m) => r matches Result::Err(s) && s@ == m,
        }),
{
    aisle_json(input)
}

} // verus!
