//! The paymaster lookup route: from what the store answered to the response
//! that goes out.
//!
//! The store is the caller's. It is asked for the record whose id equals the
//! query's id, and its answer is handed to [`v1_paymaster_get_handler`].

use vstd::prelude::*;
use vstd::std_specs::convert::FromSpecImpl;

verus! {

/// Status of a successful lookup.
pub const STATUS_OK: u16 = 200;

/// Status of a lookup that matched nothing.
pub const STATUS_NOT_FOUND: u16 = 404;

/// The query string of the lookup route.
#[derive(Clone, Debug, PartialEq, Eq)]
pub struct GetQuery {
    pub id: String,
}

impl Default for GetQuery {
    fn default() -> (r: Self)
        ensures
            r.id@ == Seq::<char>::empty(),
    {
        GetQuery { id: String::new() }
    }
}

/// A paymaster as the store holds it.
#[derive(Clone, Debug, PartialEq, Eq)]
pub struct PaymasterRecord {
    pub id: String,
}

/// A paymaster as the API shows it.
#[derive(Clone, Debug, PartialEq, Eq)]
pub struct Paymaster {
    pub id: String,
}

/// What went wrong on a paymaster route.
#[derive(Clone, Debug, PartialEq, Eq)]
pub enum PaymasterError {
    /// No paymaster has the requested id.
    NotFound(String),
}

/// What went wrong on any route.
#[derive(Clone, Debug, PartialEq, Eq)]
pub enum RouteError {
    PaymasterError(PaymasterError),
}

/// The body of a response.
#[derive(Clone, Debug, PartialEq, Eq)]
pub enum ResponseBody {
    Paymaster(Paymaster),
    Error(RouteError),
}

/// A response before it is encoded: the status code and the typed body.
#[derive(Clone, Debug, PartialEq, Eq)]
pub struct Response {
    pub status: u16,
    pub body: ResponseBody,
}

/// What a handler's result holds, with strings as sequences of characters.
pub enum Outcome {
    /// The paymaster with this id.
    Found(Seq<char>),
    /// No paymaster, with the message that says so.
    NotFound(Seq<char>),
}

impl View for RouteError {
    type V = Outcome;

    open spec fn view(&self) -> Outcome {
        match self {
            RouteError::PaymasterError(PaymasterError::NotFound(message)) => Outcome::NotFound(
                message@,
            ),
        }
    }
}

impl View for ResponseBody {
    type V = Outcome;

    open spec fn view(&self) -> Outcome {
        match self {
            ResponseBody::Paymaster(paymaster) => Outcome::Found(paymaster.id@),
            ResponseBody::Error(error) => error@,
        }
    }
}

/// The message of the not-found error.
pub open spec fn not_found_message() -> Seq<char> {
    "Paymaster not found"@
}

/// What a result holds.
pub open spec fn outcome_of(result: Result<Paymaster, RouteError>) -> Outcome {
    match result {
        Ok(paymaster) => Outcome::Found(paymaster.id@),
        Err(error) => error@,
    }
}

/// What a lookup amounts to, given the id of the record that the store
/// returned, if it returned one.
pub open spec fn lookup_outcome(found: Option<Seq<char>>) -> Outcome {
    match found {
        Some(id) => Outcome::Found(id),
        None => Outcome::NotFound(not_found_message()),
    }
}

/// The status code that goes with an outcome.
pub open spec fn status_of(outcome: Outcome) -> u16 {
    match outcome {
        Outcome::Found(_) => STATUS_OK,
        Outcome::NotFound(_) => STATUS_NOT_FOUND,
    }
}

/// The id of the stored record, if there is one.
pub open spec fn found_id(found: Option<PaymasterRecord>) -> Option<Seq<char>> {
    match found {
        Some(record) => Some(record.id@),
        None => None,
    }
}

impl From<PaymasterRecord> for Paymaster {
    fn from(record: PaymasterRecord) -> (r: Self) {
        Paymaster { id: record.id }
    }
}

impl FromSpecImpl<PaymasterRecord> for Paymaster {
    open spec fn obeys_from_spec() -> bool {
        true
    }

    open spec fn from_spec(record: PaymasterRecord) -> Self {
        Paymaster { id: record.id }
    }
}

impl RouteError {
    /// The status code that this error is reported with.
    pub fn status_code(&self) -> (r: u16)
        ensures
            r == status_of(self@),
            r == STATUS_NOT_FOUND,
    {
        match self {
            RouteError::PaymasterError(PaymasterError::NotFound(_)) => STATUS_NOT_FOUND,
        }
    }
}

/// Decides the lookup: the stored record in its public form, or the
/// not-found error where the store had no match.
pub fn v1_paymaster_get_handler(found: Option<PaymasterRecord>) -> (r: Result<
    Paymaster,
    RouteError,
>)
    ensures
        outcome_of(r) == lookup_outcome(found_id(found)),
        r is Ok <==> found is Some,
{
    match found {
        Some(record) => Ok(Paymaster::from(record)),
        None => Err(
            RouteError::PaymasterError(PaymasterError::NotFound("Paymaster not found".to_owned())),
        ),
    }
}

/// The response for a handler's result: the paymaster with the success
/// status, or the error as the body with the error's own status.
pub fn into_response(result: Result<Paymaster, RouteError>) -> (r: Response)
    ensures
        r.body@ == outcome_of(result),
        r.status == status_of(outcome_of(result)),
        result is Ok <==> r.body is Paymaster,
{
    match result {
        Ok(paymaster) => Response { status: STATUS_OK, body: ResponseBody::Paymaster(paymaster) },
        Err(error) => {
            let status = error.status_code();
            Response { status, body: ResponseBody::Error(error) }
        },
    }
}

/// A lookup that the store answers with the record of the requested id is a
/// success whose body carries that id.
pub proof fn lemma_existing_id_is_returned(query: GetQuery, record: PaymasterRecord)
    requires
        record.id@ == query.id@,
    ensures
        lookup_outcome(found_id(Some(record))) == Outcome::Found(query.id@),
        status_of(lookup_outcome(found_id(Some(record)))) == 200,
{
}

/// A lookup that the store answers with nothing is a not-found response
/// whose body names the error and says what was not found.
pub proof fn lemma_missing_id_is_not_found()
    ensures
        lookup_outcome(found_id(None)) == Outcome::NotFound(not_found_message()),
        status_of(lookup_outcome(found_id(None))) == 404,
        not_found_message().len() == 19,
{
    reveal_strlit("Paymaster not found");
}

} // verus!
