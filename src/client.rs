use crate::error::Error;
use std::marker::PhantomData;
use vstd::prelude::*;

verus! {

/// The decoded wire envelope `{ data: [...] }`.
#[derive(Debug, Clone, PartialEq, Default)]
pub struct Response<T> {
    pub data: Vec<T>,
}

/// A statement the server answered with a non-success status.
#[derive(Debug)]
pub struct DatabaseError {
    message: String,
    failed_query: String,
    status: u16,
}

impl DatabaseError {
    /// The error for a status, the server's message and the statement sent.
    pub fn new(status: u16, message: String, failed_query: String) -> (r: DatabaseError)
        ensures
            r.status() == status,
            r.spec_message() == message@,
            r.spec_failed_query() == failed_query@,
    {
        DatabaseError { message, failed_query, status }
    }

    pub closed spec fn spec_status(&self) -> u16 {
        self.status
    }

    pub closed spec fn spec_message(&self) -> Seq<char> {
        self.message@
    }

    pub closed spec fn spec_failed_query(&self) -> Seq<char> {
        self.failed_query@
    }

    /// The HTTP status the server answered with.
    #[verifier::when_used_as_spec(spec_status)]
    pub fn status(&self) -> (r: u16)
        ensures
            r == self.spec_status(),
    {
        self.status
    }

    /// The server's message.
    pub fn message(&self) -> (r: &str)
        ensures
            r@ == self.spec_message(),
    {
        self.message.as_str()
    }

    /// The statement text that was sent.
    pub fn failed_query(&self) -> (r: &str)
        ensures
            r@ == self.spec_failed_query(),
    {
        self.failed_query.as_str()
    }
}

/// A response body that did not decode into rows of type `T`.
#[derive(Debug)]
pub struct DeserializeError<T> {
    failed_kind: PhantomData<T>,
    failed_query: String,
    error: serde_json::Error,
    body: String,
}

impl<T> DeserializeError<T> {
    /// The error for the statement sent, the decoder's failure and the body.
    pub fn new(failed_query: String, error: serde_json::Error, body: String) -> (r: Self)
        ensures
            r.spec_failed_query() == failed_query@,
            r.spec_body() == body@,
    {
        DeserializeError { failed_kind: PhantomData, failed_query, error, body }
    }

    pub closed spec fn spec_failed_query(&self) -> Seq<char> {
        self.failed_query@
    }

    pub closed spec fn spec_body(&self) -> Seq<char> {
        self.body@
    }

    /// The statement text that was sent.
    pub fn failed_query(&self) -> (r: &str)
        ensures
            r@ == self.spec_failed_query(),
    {
        self.failed_query.as_str()
    }

    /// The response body, as text.
    pub fn body(&self) -> (r: &str)
        ensures
            r@ == self.spec_body(),
    {
        self.body.as_str()
    }
}

/// What the server sent back, as the fetch loop saw it.
pub enum Reply<T> {
    /// A non-success status, with the body read as text.
    Rejected { status: u16, message: String },
    /// A success status and a body that decoded.
    Decoded(Response<T>),
    /// A success status and a body that did not decode, described.
    Undecodable(String),
}

/// A status in the 2xx range, as `StatusCode::is_success` has it.
pub open spec fn success_status(status: u16) -> bool {
    200 <= status && status < 300
}

/// Whether the server accepted the statement.
pub fn is_success(status: u16) -> (r: bool)
    ensures
        r == success_status(status),
{
    200 <= status && status < 300
}

/// The request URL: the endpoint, the target database and result
/// compression switched on.
pub fn request_url(endpoint: &str, database: &str) -> (r: String)
    ensures
        r@ == endpoint@ + "/?database="@ + database@ + "&enable_http_compression=1"@,
{
    let mut url = String::from_str(endpoint);
    url.append("/?database=");
    url.append(database);
    url.append("&enable_http_compression=1");
    url
}

/// The request body: the statement followed by the JSON format directive.
pub fn query_body(query: &str) -> (r: String)
    ensures
        r@ == query@ + " format JSON"@,
{
    let mut body = String::from_str(query);
    body.append(" format JSON");
    body
}

/// The outcome of one fetch: the rows in the order the server sent them,
/// or the error that classifies the reply.
pub fn settle<T>(reply: Reply<T>, failed_query: String) -> (r: Result<Vec<T>, Error>)
    ensures
        match reply {
            Reply::Rejected { status, message } => match r {
                Err(Error::Database(e)) => e.status() == status && e.spec_message() == message@
                    && e.spec_failed_query() == failed_query@,
                _ => false,
            },
            Reply::Decoded(response) => r == Ok::<Vec<T>, Error>(response.data),
            Reply::Undecodable(description) => match r {
                Err(Error::DeserializeError(d)) => d@ == description@,
                _ => false,
            },
        },
{
    match reply {
        Reply::Rejected { status, message } => Err(
            Error::Database(DatabaseError::new(status, message, failed_query)),
        ),
        Reply::Decoded(response) => Ok(response.data),
        Reply::Undecodable(description) => Err(Error::DeserializeError(description)),
    }
}

/// The first row, or `None` where there is none.
pub fn first_row<T>(rows: Vec<T>) -> (r: Option<T>)
    ensures
        rows@.len() == 0 ==> r is None,
        rows@.len() > 0 ==> r == Some(rows@[0]),
{
    let mut rows = rows;
    if rows.len() == 0 {
        None
    } else {
        Some(rows.remove(0))
    }
}

} // verus!
