use vstd::prelude::*;
use crate::result::{Error, Field, InvalidField, InvalidFieldView, Rule, fields_view};

verus! {

/// Whether the `validator` crate takes `text` for an e-mail address.
pub uninterp spec fn email_accepted(text: Seq<char>) -> bool;

/// Asks `validator::ValidateEmail::validate_email` whether `text` is an
/// e-mail address. The answer depends on the text alone. The crate's check
/// turns down the empty text and any text without an `@` before it looks at
/// anything else; what it accepts beyond that is a matter of its patterns for
/// the two sides of the last `@`, which are not restated here.
#[verifier::external_body]
fn validate_email(text: &str) -> (accepted: bool)
    ensures
        accepted == email_accepted(text@),
        text@.len() == 0 ==> !accepted,
        !text@.contains('@') ==> !accepted,
{
    validator::ValidateEmail::validate_email(&text)
}

/// Whether `text` has at least `min` and at most `max` characters.
pub open spec fn length_within(text: Seq<char>, min: nat, max: nat) -> bool {
    min <= text.len() <= max
}

/// Whether `text` has at least `min` and at most `max` characters.
pub fn validate_length(text: &str, min: usize, max: usize) -> (within: bool)
    ensures
        within == length_within(text@, min as nat, max as nat),
{
    let length = text.unicode_len();
    min <= length && length <= max
}

/// What a client sends to open a chat.
#[derive(Debug, PartialEq, Eq)]
pub struct CreateChatRequest {
    pub title: String,
    pub model: String,
}

/// What a client sends to say something in a chat.
#[derive(Debug, PartialEq, Eq)]
pub struct SendMessageRequest {
    pub text: String,
}

/// What a client sends to register.
#[derive(Debug, PartialEq, Eq)]
pub struct RegisterRequest {
    pub name: String,
    pub email: String,
    pub password: String,
}

/// What a client sends to log in.
#[derive(Debug, PartialEq, Eq)]
pub struct LoginRequest {
    pub email: String,
    pub password: String,
}

/// The verdict on a request whose fields `invalid` break a rule: none is
/// fine, any is a validation error that lists them.
pub open spec fn verdict_is(verdict: Result<(), Error>, invalid: Seq<InvalidFieldView>) -> bool {
    match verdict {
        Ok(_) => invalid.len() == 0,
        Err(Error::Validation(fields)) => invalid.len() > 0 && fields_view(fields@) == invalid,
        Err(_) => false,
    }
}

/// What is found of a field that is held to a length: nothing where its
/// text has `min` to `max` characters, the field with its text otherwise.
pub open spec fn length_finding(field: Field, text: Seq<char>, min: u64, max: u64) -> Seq<
    InvalidFieldView,
> {
    if length_within(text, min as nat, max as nat) {
        Seq::empty()
    } else {
        seq![InvalidFieldView { field, rule: Rule::Length { min, max }, value: text }]
    }
}

/// What is found of a field that holds an e-mail address, given whether the
/// address was accepted.
pub open spec fn email_finding(field: Field, text: Seq<char>, accepted: bool) -> Seq<
    InvalidFieldView,
> {
    if accepted {
        Seq::empty()
    } else {
        seq![InvalidFieldView { field, rule: Rule::Email, value: text }]
    }
}

/// Holds a field to a length and adds it to `invalid` where it breaks it.
fn check_length(invalid: &mut Vec<InvalidField>, field: Field, text: &String, min: u64, max: u64)
    ensures
        fields_view(final(invalid)@) == fields_view(old(invalid)@) + length_finding(
            field,
            text@,
            min,
            max,
        ),
{
    let length = text.as_str().unicode_len();
    if !(min <= length as u64 && length as u64 <= max) {
        let found = InvalidField { field, rule: Rule::Length { min, max }, value: text.clone() };
        invalid.push(found);
        assert(fields_view(invalid@) =~= fields_view(old(invalid)@) + seq![found@]);
    } else {
        assert(fields_view(invalid@) =~= fields_view(old(invalid)@) + Seq::empty());
    }
}

/// Adds a field that holds an e-mail address to `invalid` where the address
/// was not accepted.
fn check_email(invalid: &mut Vec<InvalidField>, field: Field, text: &String, accepted: bool)
    ensures
        fields_view(final(invalid)@) == fields_view(old(invalid)@) + email_finding(
            field,
            text@,
            accepted,
        ),
{
    if !accepted {
        let found = InvalidField { field, rule: Rule::Email, value: text.clone() };
        invalid.push(found);
        assert(fields_view(invalid@) =~= fields_view(old(invalid)@) + seq![found@]);
    } else {
        assert(fields_view(invalid@) =~= fields_view(old(invalid)@) + Seq::empty());
    }
}

fn verdict(invalid: Vec<InvalidField>) -> (verdict: Result<(), Error>)
    ensures
        verdict_is(verdict, fields_view(invalid@)),
{
    if invalid.len() == 0 {
        Ok(())
    } else {
        Err(Error::Validation(invalid))
    }
}

impl CreateChatRequest {
    /// The fields that break a rule: the title, unless it has 3 to 255
    /// characters.
    pub open spec fn invalid_fields(self) -> Seq<InvalidFieldView> {
        length_finding(Field::Title, self.title@, 3, 255)
    }

    /// Holds the request to its rules.
    pub fn validate(&self) -> (verdict: Result<(), Error>)
        ensures
            verdict_is(verdict, self.invalid_fields()),
    {
        let mut invalid: Vec<InvalidField> = Vec::new();
        assert(fields_view(invalid@) =~= Seq::empty());
        check_length(&mut invalid, Field::Title, &self.title, 3, 255);
        assert(fields_view(invalid@) =~= self.invalid_fields());
        self::verdict(invalid)
    }
}

impl RegisterRequest {
    /// The fields that break a rule, in the order of the fields, where
    /// `email_ok` says whether the e-mail address was accepted: the name,
    /// unless it has 3 to 255 characters; the e-mail address, unless it was
    /// accepted; the password, unless it has 6 to 255 characters.
    pub open spec fn invalid_fields(self, email_ok: bool) -> Seq<InvalidFieldView> {
        length_finding(Field::Name, self.name@, 3, 255) + email_finding(
            Field::Email,
            self.email@,
            email_ok,
        ) + length_finding(Field::Password, self.password@, 6, 255)
    }

    /// Holds the request to its rules, given whether its e-mail address was
    /// accepted.
    pub fn validate_given(&self, email_ok: bool) -> (verdict: Result<(), Error>)
        ensures
            verdict_is(verdict, self.invalid_fields(email_ok)),
    {
        let mut invalid: Vec<InvalidField> = Vec::new();
        assert(fields_view(invalid@) =~= Seq::empty());
        check_length(&mut invalid, Field::Name, &self.name, 3, 255);
        check_email(&mut invalid, Field::Email, &self.email, email_ok);
        check_length(&mut invalid, Field::Password, &self.password, 6, 255);
        assert(fields_view(invalid@) =~= self.invalid_fields(email_ok));
        self::verdict(invalid)
    }

    /// Holds the request to its rules. A request with an empty e-mail
    /// address, or one without an `@`, is never fine.
    pub fn validate(&self) -> (verdict: Result<(), Error>)
        ensures
            verdict_is(verdict, self.invalid_fields(email_accepted(self.email@))),
            self.email@.len() == 0 || !self.email@.contains('@') ==> verdict.is_err(),
    {
        let email_ok = validate_email(self.email.as_str());
        self.validate_given(email_ok)
    }
}

} // verus!
