use vstd::prelude::*;
use vstd::multiset::Multiset;
use crate::error::{BackendError, ChatError};
use crate::report::{
    add_error, add_number_param, add_text_param, errors_held, errors_text, field_errors_only,
    new_error, new_errors,
};

verus! {

/// A field of a request that is held to a rule.
#[derive(Debug, Clone, Copy, PartialEq, Eq, Structural)]
pub enum Field {
    Title,
    Name,
    Email,
    Password,
}

/// A rule that a field of a request is held to.
#[derive(Debug, Clone, Copy, PartialEq, Eq, Structural)]
pub enum Rule {
    /// The number of characters is at least `min` and at most `max`.
    Length { min: u64, max: u64 },
    /// The text is an e-mail address.
    Email,
}

/// A field of a request that breaks a rule, with what the field held.
#[derive(Debug, PartialEq, Eq)]
pub struct InvalidField {
    pub field: Field,
    pub rule: Rule,
    pub value: String,
}

/// A field that breaks a rule, as a mathematical value.
pub struct InvalidFieldView {
    pub field: Field,
    pub rule: Rule,
    pub value: Seq<char>,
}

impl View for InvalidField {
    type V = InvalidFieldView;

    open spec fn view(&self) -> InvalidFieldView {
        InvalidFieldView { field: self.field, rule: self.rule, value: self.value@ }
    }
}

/// The fields of a sequence, as mathematical values, in order.
pub open spec fn fields_view(fields: Seq<InvalidField>) -> Seq<InvalidFieldView> {
    Seq::new(fields.len(), |i: int| fields[i]@)
}

/// Why a request to the service failed.
#[derive(Debug, PartialEq, Eq)]
pub enum Error {
    Io(String),
    Serde(String),
    Ollama(String),
    Redis(String),
    Db(String),
    /// The request's fields that break a rule, in the order of the fields.
    Validation(Vec<InvalidField>),
    NotFound,
    InvalidRole,
    Unauthorized,
    EmailTaken,
}

/// The name of a field as it is written in a request.
pub open spec fn field_name(field: Field) -> Seq<char> {
    match field {
        Field::Title => "title"@,
        Field::Name => "name"@,
        Field::Email => "email"@,
        Field::Password => "password"@,
    }
}

/// The code that the `validator` crate has for a rule.
pub open spec fn rule_code(rule: Rule) -> Seq<char> {
    match rule {
        Rule::Length { .. } => "length"@,
        Rule::Email => "email"@,
    }
}

/// The field errors that stand for fields that break a rule: for each, the
/// field's name with the rule's code.
pub open spec fn errors_of(fields: Seq<InvalidFieldView>) -> Multiset<(Seq<char>, Seq<char>)>
    decreases fields.len(),
{
    if fields.len() == 0 {
        Multiset::empty()
    } else {
        errors_of(fields.drop_last()).insert(
            (field_name(fields.last().field), rule_code(fields.last().rule)),
        )
    }
}

fn field_str(field: Field) -> (name: &'static str)
    ensures
        name@ == field_name(field),
{
    match field {
        Field::Title => "title",
        Field::Name => "name",
        Field::Email => "email",
        Field::Password => "password",
    }
}

fn rule_str(rule: Rule) -> (code: &'static str)
    ensures
        code@ == rule_code(rule),
{
    match rule {
        Rule::Length { .. } => "length",
        Rule::Email => "email",
    }
}

/// The errors of the `validator` crate that stand for `fields`. Each field
/// that breaks a rule is filed under its name with the rule's code; the error
/// carries what the field held and, for a length, the least and the greatest
/// length as parameters.
pub fn validator_errors(fields: &Vec<InvalidField>) -> (errors: validator::ValidationErrors)
    ensures
        errors_held(errors) == errors_of(fields_view(fields@)),
        field_errors_only(errors),
{
    let mut errors = new_errors();
    let mut i: usize = 0;
    assert(fields_view(fields@).subrange(0, 0) =~= Seq::empty());
    while i < fields.len()
        invariant
            i <= fields.len(),
            field_errors_only(errors),
            errors_held(errors) == errors_of(fields_view(fields@).subrange(0, i as int)),
        decreases fields.len() - i,
    {
        let ghost now = fields_view(fields@).subrange(0, i + 1);
        assert(now.drop_last() =~= fields_view(fields@).subrange(0, i as int));
        assert(now.last() == fields[i as int]@);
        let mut error = new_error(rule_str(fields[i].rule));
        match fields[i].rule {
            Rule::Length { min, max } => {
                add_number_param(&mut error, "min", min);
                add_number_param(&mut error, "max", max);
            },
            Rule::Email => {},
        }
        add_text_param(&mut error, "value", fields[i].value.as_str());
        add_error(&mut errors, field_str(fields[i].field), error);
        i += 1;
    }
    assert(fields_view(fields@).subrange(0, i as int) =~= fields_view(fields@));
    errors
}

/// Whether `text` begins with `prefix`.
pub open spec fn begins_with(text: Seq<char>, prefix: Seq<char>) -> bool {
    prefix.len() <= text.len() && text.subrange(0, prefix.len() as int) == prefix
}

impl Error {
    /// The HTTP status that the service answers this error with.
    pub open spec fn status(self) -> int {
        match self {
            Error::NotFound => 404,
            Error::EmailTaken => 409,
            Error::Unauthorized => 401,
            Error::Validation(_) => 400,
            _ => 500,
        }
    }

    /// Whether `text` is the error in words. What the `validator` crate
    /// writes of a validation error stands behind the words `Validation
    /// error: ` and is the crate's to say.
    pub open spec fn says(self, text: Seq<char>) -> bool {
        match self {
            Error::Io(e) => text == "Io error: "@ + e@,
            Error::Serde(e) => text == "JSON error: "@ + e@,
            Error::Ollama(e) => text == "Ollama error: "@ + e@,
            Error::Redis(e) => text == "Redis error: "@ + e@,
            Error::Db(e) => text == "DB error: "@ + e@,
            Error::Validation(_) => begins_with(text, "Validation error: "@),
            Error::NotFound => text == "Not Found"@,
            Error::InvalidRole => text == "Invalid message role!"@,
            Error::Unauthorized => text == "Unauthorized"@,
            Error::EmailTaken => text == "Email already taken!"@,
        }
    }

    /// The error that a failed backend round-trip becomes: it carries the
    /// failure's words.
    pub fn from_backend(error: BackendError) -> (e: Error)
        ensures
            e matches Error::Ollama(words) && words@ == error@.message,
    {
        Error::Ollama(error.message)
    }

    /// The error that a failed conversation turn becomes: it carries the
    /// words of the backend's or the tool's failure, and for a coordinator
    /// that was not waiting, that it was busy.
    pub fn from_chat(error: ChatError) -> (e: Error)
        ensures
            e matches Error::Ollama(words) && words@ == match error {
                ChatError::Backend(failure) => failure@.message,
                ChatError::Tool(failure) => failure@.message,
                ChatError::NotExpected => "the coordinator was busy"@,
            },
    {
        match error {
            ChatError::Backend(failure) => Error::Ollama(failure.message),
            ChatError::Tool(failure) => Error::Ollama(failure.message),
            ChatError::NotExpected => Error::Ollama(String::from_str("the coordinator was busy")),
        }
    }

    /// The HTTP status that the service answers this error with.
    pub fn status_code(&self) -> (code: u16)
        ensures
            code == self.status(),
    {
        match self {
            Error::NotFound => 404,
            Error::EmailTaken => 409,
            Error::Unauthorized => 401,
            Error::Validation(_) => 400,
            _ => 500,
        }
    }

    /// The error in words.
    pub fn to_string(&self) -> (text: String)
        ensures
            self.says(text@),
    {
        match self {
            Error::Io(e) => String::from_str("Io error: ").concat(e.as_str()),
            Error::Serde(e) => String::from_str("JSON error: ").concat(e.as_str()),
            Error::Ollama(e) => String::from_str("Ollama error: ").concat(e.as_str()),
            Error::Redis(e) => String::from_str("Redis error: ").concat(e.as_str()),
            Error::Db(e) => String::from_str("DB error: ").concat(e.as_str()),
            Error::Validation(fields) => {
                let errors = validator_errors(fields);
                let shown = errors_text(&errors);
                let text = String::from_str("Validation error: ").concat(shown.as_str());
                assert(text@.subrange(0, "Validation error: "@.len() as int)
                    =~= "Validation error: "@);
                text
            },
            Error::NotFound => String::from_str("Not Found"),
            Error::InvalidRole => String::from_str("Invalid message role!"),
            Error::Unauthorized => String::from_str("Unauthorized"),
            Error::EmailTaken => String::from_str("Email already taken!"),
        }
    }
}

} // verus!
