//! Validation of request bodies: the rules of the sign-up and sign-in forms,
//! the error list they produce, and the message a refused request is
//! answered with.

use vstd::prelude::*;
use vstd::utf8::encode_utf8;
use crate::error::{AppError, BAD_REQUEST};

verus! {

/// A failed rule: its code and, where the rule has one, its message.
pub struct ValidationError {
    pub code: String,
    pub message: Option<String>,
}

/// A rule failure as plain values.
pub type ErrorView = (Seq<char>, Option<Seq<char>>);

impl View for ValidationError {
    type V = ErrorView;

    open spec fn view(&self) -> ErrorView {
        (
            self.code@,
            match self.message {
                Some(m) => Some(m@),
                None => None,
            },
        )
    }
}

/// A field of a request with the rules it failed, in order.
pub struct FieldErrors {
    pub field: String,
    pub errors: Vec<ValidationError>,
}

/// A field failure as plain values.
pub type FieldView = (Seq<char>, Seq<ErrorView>);

impl View for FieldErrors {
    type V = FieldView;

    open spec fn view(&self) -> FieldView {
        (self.field@, self.errors@.map_values(|e: ValidationError| e@))
    }
}

/// Every failed field of a request, in order.
pub struct ValidationErrors {
    pub fields: Vec<FieldErrors>,
}

impl View for ValidationErrors {
    type V = Seq<FieldView>;

    open spec fn view(&self) -> Seq<FieldView> {
        self.fields@.map_values(|f: FieldErrors| f@)
    }
}

/// The first message among the failures of one field.
pub open spec fn first_in_errors(errors: Seq<ErrorView>) -> Option<Seq<char>>
    decreases errors.len(),
{
    if errors.len() == 0 {
        None
    } else {
        match errors[0].1 {
            Some(m) => Some(m),
            None => first_in_errors(errors.drop_first()),
        }
    }
}

/// The first message among the failures of all fields, fields in order.
pub open spec fn first_in_fields(fields: Seq<FieldView>) -> Option<Seq<char>>
    decreases fields.len(),
{
    if fields.len() == 0 {
        None
    } else {
        match first_in_errors(fields[0].1) {
            Some(m) => Some(m),
            None => first_in_fields(fields.drop_first()),
        }
    }
}

/// The message a refused request is answered with: the first message found,
/// or the empty text when no failure carries one.
pub open spec fn rejection_message(fields: Seq<FieldView>) -> Seq<char> {
    match first_in_fields(fields) {
        Some(m) => m,
        None => Seq::empty(),
    }
}

fn first_message_of_field(f: &FieldErrors) -> (r: Option<String>)
    ensures
        match r {
            Some(m) => first_in_errors(f@.1) == Some(m@),
            None => first_in_errors(f@.1) is None,
        },
{
    let n = f.errors.len();
    let mut i: usize = 0;
    let ghost all = f@.1;
    assert(all.skip(0) =~= all);
    while i < n
        invariant
            n == f.errors@.len(),
            all == f@.1,
            i <= n,
            first_in_errors(all) == first_in_errors(all.skip(i as int)),
        decreases n - i,
    {
        let e = &f.errors[i];
        assert(all.skip(i as int)[0] == e@);
        assert(all.skip(i as int).drop_first() =~= all.skip(i + 1));
        match &e.message {
            Some(m) => {
                return Some(m.clone());
            },
            None => {},
        }
        i = i + 1;
    }
    assert(all.skip(n as int).len() == 0);
    None
}

/// The message that answers a refused request: the first failure message,
/// walking the fields in order and each field's failures in order; the empty
/// text when there is none.
pub fn rejection_text(errors: &ValidationErrors) -> (r: String)
    ensures
        r@ == rejection_message(errors@),
{
    let n = errors.fields.len();
    let mut i: usize = 0;
    let ghost all = errors@;
    assert(all.skip(0) =~= all);
    while i < n
        invariant
            n == errors.fields@.len(),
            all == errors@,
            i <= n,
            first_in_fields(all) == first_in_fields(all.skip(i as int)),
        decreases n - i,
    {
        let f = &errors.fields[i];
        assert(all.skip(i as int)[0] == f@);
        assert(all.skip(i as int).drop_first() =~= all.skip(i + 1));
        match first_message_of_field(f) {
            Some(m) => {
                return m;
            },
            None => {},
        }
        i = i + 1;
    }
    assert(all.skip(n as int).len() == 0);
    String::new()
}

/// Whether `char::is_numeric` holds of a character: it has one of Unicode's
/// general categories for numbers.
pub uninterp spec fn is_numeric_char(c: char) -> bool;

/// Calls `char::is_numeric`. The contract ties the result to the name above and
/// states what Unicode's general categories give for ASCII: among the ASCII
/// characters exactly the ten digits are numeric (category Nd; no other ASCII
/// character is in a number category). Which non-ASCII characters are numeric
/// is left unsaid.
#[verifier::external_body]
fn char_is_numeric(c: char) -> (r: bool)
    ensures
        r == is_numeric_char(c),
        (c as u32) < 128 ==> (r <==> ('0' <= c && c <= '9')),
{
    c.is_numeric()
}

/// Calls `validator::validate_length` with only a minimum: the crate counts the
/// characters of a text (`chars().count()`), so the result says whether there
/// are at least `min` of them.
#[verifier::external_body]
fn length_at_least(s: &str, min: u64) -> (r: bool)
    ensures
        r == (s@.len() >= min),
{
    validator::validate_length(s, Some(min), None, None)
}

/// A numeric character: among ASCII exactly the decimal digits, otherwise what
/// `char::is_numeric` says.
pub open spec fn is_numeric(c: char) -> bool {
    if (c as u32) < 128 {
        '0' <= c && c <= '9'
    } else {
        is_numeric_char(c)
    }
}

/// An ASCII capital letter.
pub open spec fn is_ascii_upper(c: char) -> bool {
    'A' <= c && c <= 'Z'
}

/// An ASCII small letter.
pub open spec fn is_ascii_lower(c: char) -> bool {
    'a' <= c && c <= 'z'
}

/// The password rule: at least 8 bytes of UTF-8, with an ASCII capital, an
/// ASCII small letter and a numeric character among its characters.
pub open spec fn password_ok(p: Seq<char>) -> bool {
    &&& encode_utf8(p).len() >= 8
    &&& exists|i: int| 0 <= i < p.len() && is_ascii_upper(#[trigger] p[i])
    &&& exists|i: int| 0 <= i < p.len() && is_ascii_lower(#[trigger] p[i])
    &&& exists|i: int| 0 <= i < p.len() && is_numeric(#[trigger] p[i])
}

/// Checks the password rule; a refused password gives a failure with the
/// empty code and no message.
pub fn is_valid_password(password: &str) -> (r: Result<(), ValidationError>)
    ensures
        r is Ok <==> password_ok(password@),
        r matches Err(e) ==> e@ == (Seq::<char>::empty(), None::<Seq<char>>),
        r is Ok ==> exists|i: int|
            0 <= i < password@.len() && 'A' <= #[trigger] password@[i] && password@[i] <= 'Z',
        r is Ok ==> exists|i: int|
            0 <= i < password@.len() && 'a' <= #[trigger] password@[i] && password@[i] <= 'z',
        r is Ok ==> encode_utf8(password@).len() >= 8,
{
    let long_enough = password.as_bytes().len() >= 8;
    let mut upper = false;
    let mut lower = false;
    let mut numeric = false;
    let ghost p = password@;
    for c in it: password.chars()
        invariant
            p == password@,
            it.seq() == p,
            upper <==> exists|i: int| 0 <= i < it.index() && is_ascii_upper(#[trigger] p[i]),
            lower <==> exists|i: int| 0 <= i < it.index() && is_ascii_lower(#[trigger] p[i]),
            numeric <==> exists|i: int| 0 <= i < it.index() && is_numeric(#[trigger] p[i]),
    {
        if 'A' <= c && c <= 'Z' {
            upper = true;
        }
        if 'a' <= c && c <= 'z' {
            lower = true;
        }
        if char_is_numeric(c) {
            numeric = true;
        }
    }
    if long_enough && upper && lower && numeric {
        Ok(())
    } else {
        Err(ValidationError { code: String::new(), message: None })
    }
}

/// A request body type with validation rules.
pub trait Validate: Sized {
    /// Every failed rule of this value, fields in declaration order.
    spec fn validation_errors(&self) -> Seq<FieldView>;

    /// Checks the rules.
    fn validate(&self) -> (r: Result<(), ValidationErrors>)
        ensures
            r is Ok <==> self.validation_errors().len() == 0,
            r matches Err(e) ==> e@ == self.validation_errors(),
    ;
}

/// The failure list of a length rule on one field: empty when the rule holds.
pub open spec fn length_failure(field: Seq<char>, holds: bool, message: Seq<char>) -> Seq<
    FieldView,
> {
    if holds {
        Seq::empty()
    } else {
        seq![(field, seq![("length"@, Some(message))])]
    }
}

/// The failure list of the password rule: empty when the password is good.
pub open spec fn password_failure(password: Seq<char>) -> Seq<FieldView> {
    if password_ok(password) {
        Seq::empty()
    } else {
        seq![("password"@, seq![(Seq::<char>::empty(), Some("Password is invalid"@))])]
    }
}

fn check_length(errors: &mut Vec<FieldErrors>, field: &str, value: &str, message: &str)
    ensures
        final(errors)@.map_values(|f: FieldErrors| f@) == old(errors)@.map_values(
            |f: FieldErrors| f@,
        ) + length_failure(field@, value@.len() >= 1, message@),
{
    let ghost before = errors@.map_values(|f: FieldErrors| f@);
    if !length_at_least(value, 1) {
        let mut rule = Vec::new();
        rule.push(ValidationError { code: "length".to_owned(), message: Some(message.to_owned()) });
        errors.push(FieldErrors { field: field.to_owned(), errors: rule });
        let ghost last = errors@[errors@.len() - 1];
        assert(last@.1 =~= seq![("length"@, Some(message@))]);
    }
    assert(errors@.map_values(|f: FieldErrors| f@) =~= before + length_failure(
        field@,
        value@.len() >= 1,
        message@,
    ));
}

/// The body of a sign-up request.
#[derive(Debug, Clone)]
pub struct SignUpUserRequest {
    pub display_id: String,
    pub username: String,
    pub password: String,
}

impl Validate for SignUpUserRequest {
    /// The display id and the user name must not be empty, and the password
    /// must pass the password rule.
    open spec fn validation_errors(&self) -> Seq<FieldView> {
        length_failure("display_id"@, self.display_id@.len() >= 1, "Display ID is empty"@)
            + length_failure("username"@, self.username@.len() >= 1, "Username is empty"@)
            + password_failure(self.password@)
    }

    fn validate(&self) -> (r: Result<(), ValidationErrors>) {
        let mut fields: Vec<FieldErrors> = Vec::new();
        assert(fields@.map_values(|f: FieldErrors| f@) =~= Seq::<FieldView>::empty());
        check_length(&mut fields, "display_id", self.display_id.as_str(), "Display ID is empty");
        check_length(&mut fields, "username", self.username.as_str(), "Username is empty");
        let ghost before = fields@.map_values(|f: FieldErrors| f@);
        match is_valid_password(self.password.as_str()) {
            Ok(()) => {},
            Err(mut e) => {
                e.message = Some("Password is invalid".to_owned());
                let mut rule = Vec::new();
                rule.push(e);
                fields.push(FieldErrors { field: "password".to_owned(), errors: rule });
                let ghost last = fields@[fields@.len() - 1];
                assert(last@.1 =~= seq![(Seq::<char>::empty(), Some("Password is invalid"@))]);
            },
        }
        assert(fields@.map_values(|f: FieldErrors| f@) =~= before + password_failure(
            self.password@,
        ));
        assert(fields@.map_values(|f: FieldErrors| f@) =~= self.validation_errors());
        if fields.len() == 0 {
            Ok(())
        } else {
            Err(ValidationErrors { fields })
        }
    }
}

/// The body of a sign-in request.
#[derive(Debug, Clone)]
pub struct SignInUserRequest {
    pub display_id: String,
    pub password: String,
}

impl Validate for SignInUserRequest {
    /// Neither the display id nor the password may be empty.
    open spec fn validation_errors(&self) -> Seq<FieldView> {
        length_failure("display_id"@, self.display_id@.len() >= 1, "Display ID is empty"@)
            + length_failure("password"@, self.password@.len() >= 1, "Password is empty"@)
    }

    fn validate(&self) -> (r: Result<(), ValidationErrors>) {
        let mut fields: Vec<FieldErrors> = Vec::new();
        assert(fields@.map_values(|f: FieldErrors| f@) =~= Seq::<FieldView>::empty());
        check_length(&mut fields, "display_id", self.display_id.as_str(), "Display ID is empty");
        check_length(&mut fields, "password", self.password.as_str(), "Password is empty");
        assert(fields@.map_values(|f: FieldErrors| f@) =~= self.validation_errors());
        if fields.len() == 0 {
            Ok(())
        } else {
            Err(ValidationErrors { fields })
        }
    }
}

/// A request body that was read as JSON and passed its validation rules.
#[derive(Debug, Clone, Copy, Default)]
pub struct ValidatedJson<T>(pub T);

impl<T: Validate> ValidatedJson<T> {
    /// Accepts a body read from a request: a body that could not be read as
    /// JSON of the expected shape (`None`) is refused with `400 Bad Request`;
    /// one that fails a rule is refused with 400 and the first failure message;
    /// any other is accepted unchanged.
    pub fn from_json(parsed: Option<T>) -> (r: Result<ValidatedJson<T>, AppError>)
        ensures
            parsed is None ==> (r matches Err(e) && e.status == BAD_REQUEST && e.response@
                == "Bad Request"@),
            parsed matches Some(v) ==> (r is Ok <==> v.validation_errors().len() == 0),
            parsed matches Some(v) ==> (r matches Ok(ok) ==> ok.0 == v),
            parsed matches Some(v) ==> (r matches Err(e) ==> e.status == BAD_REQUEST
                && e.response@ == rejection_message(v.validation_errors())),
    {
        match parsed {
            None => Err(AppError::new(BAD_REQUEST, "Bad Request")),
            Some(value) => match value.validate() {
                Ok(()) => Ok(ValidatedJson(value)),
                Err(errors) => {
                    let message = rejection_text(&errors);
                    Err(AppError { status: BAD_REQUEST, response: message })
                },
            },
        }
    }
}

/// The password rule in plain terms: a password passes exactly when its UTF-8
/// form has at least 8 bytes and it holds a character in `'A'..='Z'`, one in
/// `'a'..='z'`, and a numeric character, where the numeric ASCII characters
/// are exactly `'0'..='9'`.
pub proof fn lemma_password_rule_literal(p: Seq<char>)
    ensures
        password_ok(p) <==> {
            &&& encode_utf8(p).len() >= 8
            &&& exists|i: int| 0 <= i < p.len() && 'A' <= #[trigger] p[i] && p[i] <= 'Z'
            &&& exists|i: int| 0 <= i < p.len() && 'a' <= #[trigger] p[i] && p[i] <= 'z'
            &&& exists|i: int| 0 <= i < p.len() && is_numeric(#[trigger] p[i])
        },
        forall|c: char| (c as u32) < 128 ==> (#[trigger] is_numeric(c) <==> ('0' <= c && c <= '9')),
{
}

/// A sign-in form is accepted exactly when neither its display id nor its
/// password is empty; nothing else (such as a maximum length) is checked.
pub proof fn lemma_sign_in_rules(request: SignInUserRequest)
    ensures
        request.validation_errors().len() == 0 <==> (request.display_id@.len() >= 1
            && request.password@.len() >= 1),
{
}

} // verus!
