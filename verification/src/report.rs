use vstd::prelude::*;
use vstd::multiset::Multiset;

verus! {

#[verifier::external_type_specification]
#[verifier::external_body]
pub struct ExValidationErrors(validator::ValidationErrors);

#[verifier::external_type_specification]
#[verifier::external_body]
pub struct ExValidationError(validator::ValidationError);

/// The field errors that a `validator::ValidationErrors` holds: one pair of
/// field name and error code for each.
pub uninterp spec fn errors_held(errors: validator::ValidationErrors) -> Multiset<
    (Seq<char>, Seq<char>),
>;

/// Whether a `validator::ValidationErrors` holds nothing but field errors: no
/// errors of a nested struct or of a list are filed under any name.
pub uninterp spec fn field_errors_only(errors: validator::ValidationErrors) -> bool;

/// The code of a `validator::ValidationError`.
pub uninterp spec fn error_code(error: validator::ValidationError) -> Seq<char>;

/// Calls `validator::ValidationErrors::new`, which gives a collection that
/// holds nothing.
#[verifier::external_body]
pub(crate) fn new_errors() -> (errors: validator::ValidationErrors)
    ensures
        errors_held(errors) == Multiset::<(Seq<char>, Seq<char>)>::empty(),
        field_errors_only(errors),
{
    validator::ValidationErrors::new()
}

/// Calls `validator::ValidationError::new`, which gives an error with the
/// code `code`, no message and no parameters.
#[verifier::external_body]
pub(crate) fn new_error(code: &'static str) -> (error: validator::ValidationError)
    ensures
        error_code(error) == code@,
{
    validator::ValidationError::new(code)
}

/// Calls `validator::ValidationError::add_param` with a number: the error
/// gains or replaces the parameter `name` and keeps its code.
#[verifier::external_body]
pub(crate) fn add_number_param(
    error: &mut validator::ValidationError,
    name: &'static str,
    value: u64,
)
    ensures
        error_code(*final(error)) == error_code(*old(error)),
{
    error.add_param(std::borrow::Cow::from(name), &value);
}

/// Calls `validator::ValidationError::add_param` with a text: the error
/// gains or replaces the parameter `name` and keeps its code.
#[verifier::external_body]
pub(crate) fn add_text_param(
    error: &mut validator::ValidationError,
    name: &'static str,
    value: &str,
)
    ensures
        error_code(*final(error)) == error_code(*old(error)),
{
    error.add_param(std::borrow::Cow::from(name), &value);
}

/// Calls `validator::ValidationErrors::add`, which files `error` under
/// `field` beside the field errors that are filed there already. The crate
/// panics where something else than field errors is filed under `field`;
/// that is left out.
#[verifier::external_body]
pub(crate) fn add_error(
    errors: &mut validator::ValidationErrors,
    field: &'static str,
    error: validator::ValidationError,
)
    requires
        field_errors_only(*old(errors)),
    ensures
        errors_held(*final(errors)) == errors_held(*old(errors)).insert(
            (field@, error_code(error)),
        ),
        field_errors_only(*final(errors)),
{
    errors.add(field, error);
}

/// Writes the errors out with the `Display` of `validator::ValidationErrors`.
/// The crate keeps the fields, and each error's parameters, in hash maps that
/// every process seeds anew, so the order of the lines and of the parameters
/// in the text is open, and nothing is said of the text.
#[verifier::external_body]
pub(crate) fn errors_text(errors: &validator::ValidationErrors) -> (text: String) {
    errors.to_string()
}

} // verus!
