use vstd::prelude::*;

verus! {

/// tokio_postgres's opaque error type: carried through unread when a
/// statement execution fails.
#[verifier::external_type_specification]
#[verifier::external_body]
pub struct ExPgError(tokio_postgres::Error);

/// tokio_pg_mapper's opaque error type: carried through unread when a
/// returned row cannot be decoded into a record.
#[verifier::external_type_specification]
#[verifier::external_body]
pub struct ExPgMapperError(tokio_pg_mapper::Error);

/// deadpool's opaque pool error type: carried through unread when a pooled
/// connection cannot be acquired.
#[verifier::external_type_specification]
#[verifier::external_body]
#[verifier::reject_recursive_types(E)]
pub struct ExPoolError<E>(deadpool::managed::PoolError<E>);

/// The closed set of failures the pipeline can surface: an insert that
/// returned no row, a statement execution error, a row-decoding error, and
/// a pool-acquisition error.
pub enum MyError {
    NotFound,
    PGError(tokio_postgres::Error),
    PGMError(tokio_pg_mapper::Error),
    PoolError(deadpool::managed::PoolError<tokio_postgres::Error>),
}

/// The caller-visible outcome of a failed invocation: a status code and a
/// response body.
pub struct HttpReply {
    pub status: u16,
    pub body: String,
}

/// Relies on deadpool's Display impl for PoolError: renders the acquisition
/// failure's diagnostic detail as text.
#[verifier::external_body]
fn pool_error_message(e: &deadpool::managed::PoolError<tokio_postgres::Error>) -> String {
    e.to_string()
}

impl MyError {
    /// The total mapping from failure kind to status: an absent resource for
    /// an empty insert result, an internal failure for everything else.
    pub open spec fn response_status(self) -> u16 {
        match self {
            MyError::NotFound => 404u16,
            _ => 500u16,
        }
    }

    /// The detail-exposure asymmetry: only a pool-acquisition failure puts
    /// its diagnostic message in the response body; the other kinds are
    /// surfaced opaquely.
    pub open spec fn exposes_detail(self) -> bool {
        self is PoolError
    }

    /// Translates the failure into its caller-visible outcome.
    pub fn error_response(&self) -> (r: HttpReply)
        ensures
            r.status == self.response_status(),
            !self.exposes_detail() ==> r.body@ == Seq::<char>::empty(),
    {
        match self {
            MyError::NotFound => HttpReply { status: 404, body: String::new() },
            MyError::PoolError(e) => HttpReply { status: 500, body: pool_error_message(e) },
            _ => HttpReply { status: 500, body: String::new() },
        }
    }
}

} // verus!
