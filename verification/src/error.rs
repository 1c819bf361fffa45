//! Typed domain failures and their translation into the stable JSON error
//! contract.
//!
//! Handlers raise values of a closed error enum; an ordered list aggregates
//! several of them for one request. After every handler, the translation
//! stage rewrites a response that carries such a value into status 422 with
//! body `{"errors":{"body":[<messages in insertion order>]}}`, and passes
//! every other response through untouched. Authentication failures never
//! reach this stage: the guard short-circuits with status 401 and no body.
//!
//! Messages are emitted into the JSON body verbatim; every message is a
//! fixed literal of this crate or of the host's validation configuration,
//! none of which needs escaping.

use vstd::prelude::*;
use vstd::string::StringExecFns;

verus! {

/// The closed set of domain failures. Each kind carries a fixed
/// human-readable message; validation failures keep only the message of the
/// field check that failed, never the offending value.
#[derive(Clone, Debug)]
pub enum AppError {
    InvalidLogin,
    EmailTaken,
    UsernameTaken,
    Validator(String),
}

/// The message a failure kind shows to the caller.
pub open spec fn spec_text(e: AppError) -> Seq<char> {
    match e {
        AppError::InvalidLogin => "invalid login credentials"@,
        AppError::EmailTaken => "email already taken"@,
        AppError::UsernameTaken => "username already taken"@,
        AppError::Validator(m) => m@,
    }
}

/// A message wrapped in JSON string quotes.
pub open spec fn spec_quoted(m: Seq<char>) -> Seq<char> {
    "\""@ + m + "\""@
}

/// The quoted messages joined with commas, in order.
pub open spec fn spec_joined(msgs: Seq<Seq<char>>) -> Seq<char>
    decreases msgs.len(),
{
    if msgs.len() == 0 {
        Seq::empty()
    } else if msgs.len() == 1 {
        spec_quoted(msgs[0])
    } else {
        spec_joined(msgs.drop_last()) + ","@ + spec_quoted(msgs.last())
    }
}

/// The whole JSON error body for a list of messages.
pub open spec fn spec_error_body(msgs: Seq<Seq<char>>) -> Seq<char> {
    "{\"errors\":{\"body\":["@ + spec_joined(msgs) + "]}}"@
}

/// Build the JSON error body for the given messages, in order.
fn error_body_of_texts(msgs: &Vec<String>) -> (r: String)
    ensures
        r@ == spec_error_body(msgs@.map_values(|m: String| m@)),
{
    let ghost views = msgs@.map_values(|m: String| m@);
    let mut body = String::from_str("{\"errors\":{\"body\":[");
    let mut i: usize = 0;
    while i < msgs.len()
        invariant
            0 <= i <= msgs@.len(),
            views == msgs@.map_values(|m: String| m@),
            body@ == "{\"errors\":{\"body\":["@ + spec_joined(views.take(i as int)),
        decreases msgs@.len() - i,
    {
        if i > 0 {
            body.append(",");
        }
        body.append("\"");
        body.append(msgs[i].as_str());
        body.append("\"");
        proof {
            assert(views.take(i + 1).drop_last() =~= views.take(i as int));
            assert(views.take(i + 1).last() == views[i as int]);
            assert(body@ =~= "{\"errors\":{\"body\":["@ + spec_joined(views.take(i + 1)));
        }
        i = i + 1;
    }
    proof {
        assert(views.take(i as int) =~= views);
    }
    body.append("]}}");
    proof {
        assert(body@ =~= spec_error_body(views));
    }
    body
}

impl AppError {
    /// The fixed message for this failure kind.
    pub fn text(&self) -> (r: String)
        ensures
            r@ == spec_text(*self),
    {
        match self {
            AppError::InvalidLogin => String::from_str("invalid login credentials"),
            AppError::EmailTaken => String::from_str("email already taken"),
            AppError::UsernameTaken => String::from_str("username already taken"),
            AppError::Validator(m) => m.clone(),
        }
    }

    /// The JSON error body carrying just this failure's message.
    pub fn json_text(&self) -> (r: String)
        ensures
            r@ == spec_error_body(seq![spec_text(*self)]),
    {
        let mut msgs: Vec<String> = Vec::new();
        msgs.push(self.text());
        proof {
            assert(msgs@.map_values(|m: String| m@) =~= seq![spec_text(*self)]);
        }
        error_body_of_texts(&msgs)
    }
}

/// An ordered aggregation of domain failures for one request: insertion
/// order is preserved, and once handed to the translation stage the list is
/// only read.
#[derive(Clone, Debug)]
pub struct AppErrors(Vec<AppError>);

impl AppErrors {
    /// The failures collected so far, oldest first.
    pub closed spec fn spec_errors(&self) -> Seq<AppError> {
        self.0@
    }

    pub fn new() -> (r: AppErrors)
        ensures
            r.spec_errors() == Seq::<AppError>::empty(),
    {
        AppErrors(Vec::new())
    }

    pub fn add(&mut self, e: AppError)
        ensures
            final(self).spec_errors() == old(self).spec_errors().push(e),
    {
        self.0.push(e);
    }

    pub fn is_empty(&self) -> (r: bool)
        ensures
            r == (self.spec_errors().len() == 0),
    {
        self.0.is_empty()
    }

    /// The collected messages, in insertion order.
    pub fn messages(&self) -> (r: Vec<String>)
        ensures
            r@.len() == self.spec_errors().len(),
            forall|i: int|
                0 <= i < r@.len() ==> r@[i]@ == spec_text(self.spec_errors()[i]),
    {
        let mut out: Vec<String> = Vec::new();
        let mut i: usize = 0;
        while i < self.0.len()
            invariant
                0 <= i <= self.spec_errors().len(),
                out@.len() == i,
                forall|j: int| 0 <= j < i ==> out@[j]@ == spec_text(self.spec_errors()[j]),
            decreases self.spec_errors().len() - i,
        {
            out.push(self.0[i].text());
            i = i + 1;
        }
        out
    }
}

/// Convert the messages of a field-validation pass, one-to-one and in the
/// given order, into validation failures. Everything about each failure but
/// its human-readable message is discarded, so no raw field value — such as
/// a plaintext password — survives into logs or responses.
pub fn convert_validation_messages(msgs: &Vec<String>) -> (r: AppErrors)
    ensures
        r.spec_errors().len() == msgs@.len(),
        forall|i: int|
            0 <= i < msgs@.len() ==> r.spec_errors()[i] == AppError::Validator(msgs@[i]),
{
    let mut errs = AppErrors::new();
    let mut i: usize = 0;
    while i < msgs.len()
        invariant
            0 <= i <= msgs@.len(),
            errs.spec_errors().len() == i,
            forall|j: int| 0 <= j < i ==> errs.spec_errors()[j] == AppError::Validator(msgs@[j]),
        decreases msgs@.len() - i,
    {
        errs.add(AppError::Validator(msgs[i].clone()));
        i = i + 1;
    }
    errs
}

/// A response as the boundary stages see it: a status code and a body.
pub struct Reply {
    pub status: u16,
    pub body: String,
}

/// The error value a response can carry out of a handler: one failure, or
/// an ordered list of them. A response that carries neither passes the
/// translation stage untouched.
pub enum CarriedError {
    Single(AppError),
    Multiple(AppErrors),
}

/// The messages a carried error contributes to the body, in order.
pub open spec fn spec_carried_messages(e: CarriedError) -> Seq<Seq<char>> {
    match e {
        CarriedError::Single(err) => seq![spec_text(err)],
        CarriedError::Multiple(errs) => errs.spec_errors().map_values(|er: AppError| spec_text(er)),
    }
}

/// The translation stage, run once per request after the handler: a
/// response carrying a recognized error value is rewritten to status 422
/// with the structured JSON body — the same status whatever kinds the error
/// list contains — and any other response passes through unmodified.
pub fn error_middleware(reply: Reply, err: &Option<CarriedError>) -> (r: Reply)
    ensures
        (match err {
            Option::None => r == reply,
            Option::Some(e) => r.status == 422 && r.body@ == spec_error_body(
                spec_carried_messages(*e),
            ),
        }),
{
    match err {
        Option::None => reply,
        Option::Some(CarriedError::Single(e)) => Reply { status: 422, body: e.json_text() },
        Option::Some(CarriedError::Multiple(es)) => {
            let msgs = es.messages();
            let body = error_body_of_texts(&msgs);
            proof {
                assert(msgs@.map_values(|m: String| m@) =~= es.spec_errors().map_values(
                    |er: AppError| spec_text(er),
                ));
            }
            Reply { status: 422, body }
        },
    }
}

} // verus!
