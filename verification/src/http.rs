//! The typed response layer: a closed error taxonomy and a response builder.
//!
//! Every failure of a request handler collapses into one of the three
//! [`HttpError`] shapes — a driver failure, a validation failure, or a
//! business failure with an explicit status — and is rendered exactly once,
//! by [`HttpError::error_response`], into a backend-agnostic
//! [`HttpResponse`] descriptor: a status code, headers in insertion order,
//! and a structured body.  The hosting HTTP layer turns the descriptor into
//! a concrete wire response.

use vstd::prelude::*;
use vstd::multiset::Multiset;
use validator::ValidationErrors;

verus! {

/// One field-level validation failure: the failing field, the violated
/// rule's code, an optional human-readable message, and the parameters
/// recorded with the failure (the rejected value among them).
#[derive(Debug, Clone)]
pub struct FieldValidationError {
    pub field: String,
    pub code: String,
    pub message: Option<String>,
    pub params: Vec<(String, serde_json::Value)>,
}

/// The body of a validation failure response: every field failure, flattened
/// into one list.
#[derive(Debug, Clone)]
pub struct ValidationErrorResponse {
    pub validation_errors: Vec<FieldValidationError>,
}

/// The body of a plain error response: a single message.
#[derive(Debug, Clone)]
pub struct HttpErrorDetailsResponse {
    pub message: String,
}

/// A business-logic failure raised explicitly: a message, the status code to
/// answer with, and extra headers to attach, applied in declaration order.
#[derive(Debug, Clone)]
pub struct HttpErrorDetails {
    pub message: String,
    pub status_code: u16,
    pub headers: Vec<(String, String)>,
}

/// The closed error taxonomy.  Every failure of a request handler collapses
/// into one of these three shapes, and is rendered exactly once.
#[derive(Debug, Clone)]
pub enum HttpError {
    /// A driver-level failure; holds the driver's own description.
    DatabaseError(String),
    /// A collection of field-level validation failures.
    ValidationError(ValidationErrorResponse),
    /// A business failure with explicit message, status and headers.
    WithDetails(HttpErrorDetails),
}

/// What a response carries as its body.
#[derive(Debug)]
pub enum HttpResponsePayload {
    /// An arbitrary JSON document (the success path).
    Json(serde_json::Value),
    /// A `{ "message": ... }` document.
    Message(HttpErrorDetailsResponse),
    /// A `{ "validation_errors": [ ... ] }` document.
    Validation(ValidationErrorResponse),
    /// No body at all.
    Empty,
}

/// A backend-agnostic HTTP response descriptor: status, headers in insertion
/// order, and a body.  The hosting HTTP layer turns it into a wire response.
#[derive(Debug)]
pub struct HttpResponse {
    pub status: u16,
    pub payload: HttpResponsePayload,
    pub headers: Vec<(String, String)>,
}

/// The usual outcome of a request handler.
pub type Response = Result<HttpResponse, HttpError>;

#[verifier::external_type_specification]
#[verifier::external_body]
pub struct ExValue(serde_json::Value);

#[verifier::external_type_specification]
#[verifier::external_body]
pub struct ExSqlxError(sqlx::Error);

#[verifier::external_type_specification]
#[verifier::external_body]
pub struct ExValidationErrors(ValidationErrors);

/// A value-semantic builder for [`HttpResponse`]: created from a status,
/// grown one header at a time, finalized with or without a body.
#[derive(Debug)]
pub struct HttpResponseBuilder {
    pub status: u16,
    pub headers: Vec<(String, String)>,
}

impl HttpResponseBuilder {
    /// Start a builder answering with `status` and no headers yet.
    pub fn new(status: u16) -> (r: HttpResponseBuilder)
        ensures
            r.status == status,
            r.headers@ =~= Seq::<(String, String)>::empty(),
    {
        HttpResponseBuilder { status, headers: Vec::new() }
    }

    /// Append one header; earlier headers keep their place.
    pub fn add_header(self, key: String, value: String) -> (r: HttpResponseBuilder)
        ensures
            r.status == self.status,
            r.headers@ =~= self.headers@.push((key, value)),
    {
        let mut headers = self.headers;
        headers.push((key, value));
        HttpResponseBuilder { status: self.status, headers }
    }

    /// Finalize with an empty body.
    pub fn finish(self) -> (r: HttpResponse)
        ensures
            r.status == self.status,
            r.headers@ == self.headers@,
            r.payload matches HttpResponsePayload::Empty,
    {
        HttpResponse {
            status: self.status,
            payload: HttpResponsePayload::Empty,
            headers: self.headers,
        }
    }

    /// Finalize with an already-serialized JSON body.
    pub fn json(self, value: serde_json::Value) -> (r: HttpResponse)
        ensures
            r.status == self.status,
            r.headers@ == self.headers@,
            r.payload == HttpResponsePayload::Json(value),
    {
        HttpResponse {
            status: self.status,
            payload: HttpResponsePayload::Json(value),
            headers: self.headers,
        }
    }
}

impl HttpResponse {
    /// A builder for a `200 OK` response.
    pub fn ok() -> (r: HttpResponseBuilder)
        ensures
            r.status == 200,
            r.headers@ =~= Seq::<(String, String)>::empty(),
    {
        HttpResponseBuilder::new(200)
    }

    /// A builder for a `201 Created` response.
    pub fn created() -> (r: HttpResponseBuilder)
        ensures
            r.status == 201,
            r.headers@ =~= Seq::<(String, String)>::empty(),
    {
        HttpResponseBuilder::new(201)
    }

    /// A builder for a `400 Bad Request` response.
    pub fn bad_request() -> (r: HttpResponseBuilder)
        ensures
            r.status == 400,
            r.headers@ =~= Seq::<(String, String)>::empty(),
    {
        HttpResponseBuilder::new(400)
    }

    /// A builder for a `404 Not Found` response.
    pub fn not_found() -> (r: HttpResponseBuilder)
        ensures
            r.status == 404,
            r.headers@ =~= Seq::<(String, String)>::empty(),
    {
        HttpResponseBuilder::new(404)
    }
}

/// The flattened form of per-field failure groups: the groups' failures,
/// concatenated in group order, each group's own order kept.
pub open spec fn flatten_groups(groups: Seq<Vec<FieldValidationError>>) -> Seq<
    FieldValidationError,
>
    decreases groups.len(),
{
    if groups.len() == 0 {
        Seq::<FieldValidationError>::empty()
    } else {
        groups.first()@ + flatten_groups(groups.drop_first())
    }
}

/// How many failures the groups hold in all.
pub open spec fn total_failures(groups: Seq<Vec<FieldValidationError>>) -> nat
    decreases groups.len(),
{
    if groups.len() == 0 {
        0
    } else {
        groups.first()@.len() + total_failures(groups.drop_first())
    }
}

/// Law: flattening per-field failure groups loses nothing and invents
/// nothing — the flattened list holds exactly as many entries as the groups
/// hold failures.
pub proof fn lemma_flatten_groups_counts_all(groups: Seq<Vec<FieldValidationError>>)
    ensures
        flatten_groups(groups).len() == total_failures(groups),
    decreases groups.len(),
{
    if groups.len() != 0 {
        lemma_flatten_groups_counts_all(groups.drop_first());
    }
}

/// The field-level failures a validation collection holds, as a multiset:
/// the collection stores them grouped per field in an unordered map, so
/// their content, not any order, is the function of the collection itself.
pub uninterp spec fn field_failures_of(v: &ValidationErrors) -> Multiset<FieldValidationError>;

/// Relies on `validator::ValidationErrors::field_errors`: it yields one
/// entry per failing field, carrying that field's failures in their original
/// order; the order of the fields themselves follows the underlying map's
/// iteration order, which is not stable.  Whatever that order, the failures
/// handed out are exactly the ones the collection holds.
#[verifier::external_body]
fn field_error_groups(errors: &ValidationErrors) -> (r: Vec<Vec<FieldValidationError>>)
    ensures
        flatten_groups(r@).to_multiset() == field_failures_of(errors),
{
    let per_field = errors.field_errors();
    per_field.iter().map(|(field, failures)| {
        failures.iter().map(|f| FieldValidationError {
            field: field.to_string(),
            code: f.code.to_string(),
            message: f.message.as_ref().map(|m| m.to_string()),
            params: f.params.iter().map(|(k, v)| (k.to_string(), v.clone())).collect(),
        }).collect()
    }).collect()
}

impl ValidationErrorResponse {
    /// Flatten per-field failure groups into one list: the groups'
    /// failures, concatenated in the given group order.
    pub fn from_groups(groups: Vec<Vec<FieldValidationError>>) -> (r: ValidationErrorResponse)
        ensures
            r.validation_errors@ =~= flatten_groups(groups@),
    {
        let mut acc: Vec<FieldValidationError> = Vec::new();
        let mut rest = groups;
        proof {
            assert(acc@ + flatten_groups(rest@) =~= flatten_groups(groups@));
        }
        while rest.len() > 0
            invariant
                acc@ + flatten_groups(rest@) =~= flatten_groups(groups@),
            decreases rest.len(),
        {
            let ghost prev = rest@;
            let mut g = rest.remove(0);
            acc.append(&mut g);
            proof {
                assert(rest@ =~= prev.drop_first());
                assert(flatten_groups(prev) == prev.first()@ + flatten_groups(prev.drop_first()));
                assert(acc@ + flatten_groups(rest@) =~= flatten_groups(groups@));
            }
        }
        ValidationErrorResponse { validation_errors: acc }
    }

    /// Flatten a validation library's per-field failures into one list.
    ///
    /// The list holds exactly the failures the source collection holds —
    /// no more, no fewer — each field's own order kept; the order of the
    /// fields follows the source collection's iteration order, which is not
    /// stable across runs.
    pub fn from(validation_errors: ValidationErrors) -> (r: ValidationErrorResponse)
        ensures
            r.validation_errors@.to_multiset() == field_failures_of(&validation_errors),
            r.validation_errors@.len() == field_failures_of(&validation_errors).len(),
    {
        let groups = field_error_groups(&validation_errors);
        let r = ValidationErrorResponse::from_groups(groups);
        proof {
            assert(r.validation_errors@ == flatten_groups(groups@));
            r.validation_errors@.to_multiset_ensures();
        }
        r
    }
}

/// A driver error's own description of itself: what its `Display`
/// implementation writes, a function of the error value alone.
pub uninterp spec fn driver_error_text(e: &sqlx::Error) -> Seq<char>;

/// Relies on the `Display` implementation of `sqlx::Error`: formatting the
/// error yields the driver's own description of the failure.
#[verifier::external_body]
fn sqlx_error_text(e: &sqlx::Error) -> (r: String)
    ensures
        r@ == driver_error_text(e),
{
    format!("{}", e)
}

impl HttpError {
    /// Wrap a driver-level failure, keeping the driver's own description.
    pub fn database_error(e: sqlx::Error) -> (r: HttpError)
        ensures
            r matches HttpError::DatabaseError(m) && m@ == driver_error_text(&e),
    {
        HttpError::DatabaseError(sqlx_error_text(&e))
    }

    /// Wrap a validation failure, flattening its per-field failures; see
    /// [`ValidationErrorResponse::from`].
    pub fn validation_error(validation_errors: ValidationErrors) -> (r: HttpError)
        ensures
            ({
                &&& r matches HttpError::ValidationError(v)
                &&& v.validation_errors@.to_multiset() == field_failures_of(&validation_errors)
                &&& v.validation_errors@.len() == field_failures_of(&validation_errors).len()
            }),
    {
        HttpError::ValidationError(ValidationErrorResponse::from(validation_errors))
    }

    /// The status code each taxonomy shape answers with: driver failures
    /// are `500`, validation failures `400`, business failures whatever
    /// their details say.
    pub open spec fn status_spec(&self) -> u16 {
        match self {
            HttpError::DatabaseError(_) => 500,
            HttpError::ValidationError(_) => 400,
            HttpError::WithDetails(d) => d.status_code,
        }
    }

    /// The status code this error renders with.
    pub fn status_code(&self) -> (r: u16)
        ensures
            r == self.status_spec(),
    {
        match self {
            HttpError::DatabaseError(_) => 500,
            HttpError::ValidationError(_) => 400,
            HttpError::WithDetails(d) => d.status_code,
        }
    }

    /// Render this error into a response descriptor.  Rendering is
    /// terminal: the error is consumed, and the descriptor carries its
    /// content unchanged — the driver's description or the caller's message
    /// as a `{ "message": ... }` body, a validation failure as a
    /// `{ "validation_errors": [ ... ] }` body listing every failure, and,
    /// for a business failure, the caller's status and headers verbatim.
    pub fn error_response(self) -> (r: HttpResponse)
        ensures
            r.status == self.status_spec(),
            self matches HttpError::DatabaseError(m) ==> r.payload == HttpResponsePayload::Message(
                (HttpErrorDetailsResponse { message: m }),
            ) && r.headers@ =~= Seq::<(String, String)>::empty(),
            self matches HttpError::ValidationError(v) ==> r.payload
                == HttpResponsePayload::Validation(v) && r.headers@ =~= Seq::<
                (String, String),
            >::empty(),
            self matches HttpError::WithDetails(d) ==> r.payload == HttpResponsePayload::Message(
                (HttpErrorDetailsResponse { message: d.message }),
            ) && r.headers@ == d.headers@,
    {
        match self {
            HttpError::DatabaseError(message) => HttpResponse {
                status: 500,
                payload: HttpResponsePayload::Message(HttpErrorDetailsResponse { message }),
                headers: Vec::new(),
            },
            HttpError::ValidationError(v) => HttpResponse {
                status: 400,
                payload: HttpResponsePayload::Validation(v),
                headers: Vec::new(),
            },
            HttpError::WithDetails(d) => HttpResponse {
                status: d.status_code,
                payload: HttpResponsePayload::Message(
                    HttpErrorDetailsResponse { message: d.message },
                ),
                headers: d.headers,
            },
        }
    }
}

/// The decimal digit characters.
pub open spec fn digit_char(d: nat) -> char {
    if d == 0 {
        '0'
    } else if d == 1 {
        '1'
    } else if d == 2 {
        '2'
    } else if d == 3 {
        '3'
    } else if d == 4 {
        '4'
    } else if d == 5 {
        '5'
    } else if d == 6 {
        '6'
    } else if d == 7 {
        '7'
    } else if d == 8 {
        '8'
    } else {
        '9'
    }
}

/// The decimal digits of `n`, most significant first.
pub open spec fn dec_digits(n: nat) -> Seq<char>
    decreases n,
{
    if n < 10 {
        seq![digit_char(n)]
    } else {
        dec_digits(n / 10).push(digit_char(n % 10))
    }
}

/// The single decimal digit `d` as a string.
fn digit_string(d: u16) -> (r: String)
    requires
        d < 10,
    ensures
        r@ =~= seq![digit_char(d as nat)],
{
    proof {
        reveal_strlit("0");
        reveal_strlit("1");
        reveal_strlit("2");
        reveal_strlit("3");
        reveal_strlit("4");
        reveal_strlit("5");
        reveal_strlit("6");
        reveal_strlit("7");
        reveal_strlit("8");
        reveal_strlit("9");
    }
    let s: &str = if d == 0 {
        "0"
    } else if d == 1 {
        "1"
    } else if d == 2 {
        "2"
    } else if d == 3 {
        "3"
    } else if d == 4 {
        "4"
    } else if d == 5 {
        "5"
    } else if d == 6 {
        "6"
    } else if d == 7 {
        "7"
    } else if d == 8 {
        "8"
    } else {
        "9"
    };
    s.to_owned()
}

/// `n` written in decimal.
pub fn decimal_string(n: u16) -> (r: String)
    ensures
        r@ =~= dec_digits(n as nat),
    decreases n,
{
    if n < 10 {
        digit_string(n)
    } else {
        let mut s = decimal_string(n / 10);
        let d = digit_string(n % 10);
        s.append(d.as_str());
        s
    }
}

/// One header written as `name: value`.
pub open spec fn header_text(h: (String, String)) -> Seq<char> {
    h.0@ + ": "@ + h.1@
}

/// The headers written as `name: value` pairs, joined with `, `.
pub open spec fn joined_headers(headers: Seq<(String, String)>) -> Seq<char>
    decreases headers.len(),
{
    if headers.len() == 0 {
        Seq::<char>::empty()
    } else if headers.len() == 1 {
        header_text(headers.first())
    } else {
        header_text(headers.first()) + ", "@ + joined_headers(headers.drop_first())
    }
}

proof fn lemma_joined_headers_push(headers: Seq<(String, String)>, h: (String, String))
    ensures
        headers.len() == 0 ==> joined_headers(headers.push(h)) =~= header_text(h),
        headers.len() > 0 ==> joined_headers(headers.push(h)) =~= joined_headers(headers) + ", "@
            + header_text(h),
    decreases headers.len(),
{
    if headers.len() == 0 {
        assert(headers.push(h).first() == h);
    } else {
        lemma_joined_headers_push(headers.drop_first(), h);
        assert(headers.push(h).drop_first() =~= headers.drop_first().push(h));
        assert(headers.push(h).first() == headers.first());
    }
}

impl HttpErrorDetails {
    /// The text this failure describes itself with: status code, message,
    /// and the extra headers in parentheses.
    pub open spec fn describe_spec(self) -> Seq<char> {
        dec_digits(self.status_code as nat) + ": "@ + self.message@ + " ("@ + joined_headers(
            self.headers@,
        ) + ")"@
    }

    /// Write this failure out as `status: message (name: value, ...)`.
    ///
    /// The message and the header text appear verbatim: the text is
    /// deliberately plain, with no quoting or escaping around its pieces,
    /// so a log line reads the same as the values it reports.
    pub fn describe(&self) -> (r: String)
        ensures
            r@ =~= self.describe_spec(),
    {
        let mut r = decimal_string(self.status_code);
        r.append(": ");
        r.append(self.message.as_str());
        r.append(" (");
        let mut i: usize = 0;
        while i < self.headers.len()
            invariant
                i <= self.headers.len(),
                r@ =~= dec_digits(self.status_code as nat) + ": "@ + self.message@ + " ("@
                    + joined_headers(self.headers@.take(i as int)),
            decreases self.headers.len() - i,
        {
            if i > 0 {
                r.append(", ");
            }
            r.append(self.headers[i].0.as_str());
            r.append(": ");
            r.append(self.headers[i].1.as_str());
            proof {
                assert(self.headers@.take(i as int + 1) =~= self.headers@.take(i as int).push(
                    self.headers@[i as int],
                ));
                lemma_joined_headers_push(self.headers@.take(i as int), self.headers@[i as int]);
            }
            i += 1;
        }
        r.append(")");
        proof {
            assert(self.headers@.take(self.headers@.len() as int) =~= self.headers@);
        }
        r
    }
}

/// Law: a driver failure always renders with status `500`, whatever the
/// driver's own classification of the failure was.
pub proof fn lemma_database_error_renders_500(message: String)
    ensures
        HttpError::DatabaseError(message).status_spec() == 500,
{
}

impl From<sqlx::Error> for HttpError {
    /// Relies on nothing of the driver error beyond its description; see
    /// [`HttpError::database_error`].
    fn from(e: sqlx::Error) -> (r: HttpError) {
        HttpError::database_error(e)
    }
}

impl vstd::std_specs::convert::FromSpecImpl<sqlx::Error> for HttpError {
    open spec fn obeys_from_spec() -> bool {
        false
    }

    open spec fn from_spec(e: sqlx::Error) -> HttpError {
        arbitrary()
    }
}

impl From<ValidationErrors> for HttpError {
    /// See [`HttpError::validation_error`] for the flattening this
    /// performs.
    fn from(validation_errors: ValidationErrors) -> (r: HttpError) {
        HttpError::validation_error(validation_errors)
    }
}

impl vstd::std_specs::convert::FromSpecImpl<ValidationErrors> for HttpError {
    open spec fn obeys_from_spec() -> bool {
        false
    }

    open spec fn from_spec(e: ValidationErrors) -> HttpError {
        arbitrary()
    }
}

/// A `409 Conflict` business failure carrying just a message.
pub fn conflict<T>(message: String) -> (r: Result<T, HttpError>)
    ensures
        ({
            &&& r matches Err(HttpError::WithDetails(d))
            &&& d.message == message
            &&& d.status_code == 409
            &&& d.headers@ =~= Seq::<(String, String)>::empty()
        }),
{
    Err(HttpError::WithDetails(HttpErrorDetails { message, status_code: 409, headers: Vec::new() }))
}

/// A `401 Unauthorized` business failure carrying just a message.
pub fn unauthorized<T>(message: String) -> (r: Result<T, HttpError>)
    ensures
        ({
            &&& r matches Err(HttpError::WithDetails(d))
            &&& d.message == message
            &&& d.status_code == 401
            &&& d.headers@ =~= Seq::<(String, String)>::empty()
        }),
{
    Err(HttpError::WithDetails(HttpErrorDetails { message, status_code: 401, headers: Vec::new() }))
}

/// A `400 Bad Request` business failure carrying just a message.
pub fn bad_request<T>(message: String) -> (r: Result<T, HttpError>)
    ensures
        ({
            &&& r matches Err(HttpError::WithDetails(d))
            &&& d.message == message
            &&& d.status_code == 400
            &&& d.headers@ =~= Seq::<(String, String)>::empty()
        }),
{
    Err(HttpError::WithDetails(HttpErrorDetails { message, status_code: 400, headers: Vec::new() }))
}

/// A `404 Not Found` business failure carrying just a message.
pub fn not_found<T>(message: String) -> (r: Result<T, HttpError>)
    ensures
        ({
            &&& r matches Err(HttpError::WithDetails(d))
            &&& d.message == message
            &&& d.status_code == 404
            &&& d.headers@ =~= Seq::<(String, String)>::empty()
        }),
{
    Err(HttpError::WithDetails(HttpErrorDetails { message, status_code: 404, headers: Vec::new() }))
}

/// A `500 Internal Server Error` business failure carrying just a message.
pub fn internal_server_error<T>(message: String) -> (r: Result<T, HttpError>)
    ensures
        ({
            &&& r matches Err(HttpError::WithDetails(d))
            &&& d.message == message
            &&& d.status_code == 500
            &&& d.headers@ =~= Seq::<(String, String)>::empty()
        }),
{
    Err(HttpError::WithDetails(HttpErrorDetails { message, status_code: 500, headers: Vec::new() }))
}

/// The success path: wrap an already-serialized value into a `200 OK`
/// response with a JSON body and no extra headers.
pub fn ok(value: serde_json::Value) -> (r: Response)
    ensures
        ({
            &&& r matches Ok(resp)
            &&& resp.status == 200
            &&& resp.payload == HttpResponsePayload::Json(value)
            &&& resp.headers@ =~= Seq::<(String, String)>::empty()
        }),
{
    Ok(HttpResponse::ok().json(value))
}

} // verus!
