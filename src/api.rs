//! Typed outcomes handed to the request layer: result codes, errors and the
//! response envelope.

use vstd::prelude::*;
use crate::state::{listed, DataBase, RssInfo};
use crate::subscription::Rss;

verus! {

/// Result code of a response.
#[derive(Debug, Clone, Copy, PartialEq, Eq, Structural)]
pub enum Code {
    Success,
    AuthenticationError,
    ServerError,
}

impl Code {
    /// The numeric value a code is written as.
    pub open spec fn spec_value(self) -> u64 {
        match self {
            Code::Success => 200,
            Code::AuthenticationError => 501,
            Code::ServerError => 502,
        }
    }

    pub fn value(&self) -> (r: u64)
        ensures
            r == self.spec_value(),
    {
        match self {
            Code::Success => 200,
            Code::AuthenticationError => 501,
            Code::ServerError => 502,
        }
    }
}

/// An error reported to the immediate caller of an operation.
#[derive(Debug, Clone)]
pub struct Error {
    pub inner: String,
}

impl Error {
    pub fn new(msg: &str) -> (r: Error)
        ensures
            r.inner@ == msg@,
    {
        Error { inner: msg.to_owned() }
    }

    pub fn message(&self) -> (r: String)
        ensures
            r@ == self.inner@,
    {
        self.inner.clone()
    }
}

/// Turns an absent value into an error that names what was missing.
pub trait Context<T>: Sized {
    spec fn context_spec(self, context: Seq<char>) -> Result<T, Seq<char>>;

    fn context(self, context: &str) -> (r: Result<T, Error>)
        ensures
            match self.context_spec(context@) {
                Ok(v) => r == Ok::<T, Error>(v),
                Err(m) => r is Err && r->Err_0.inner@ == m,
            },
    ;
}

impl<T> Context<T> for Option<T> {
    /// `Some(v)` gives `v`; `None` gives the message "Missing <context>".
    open spec fn context_spec(self, context: Seq<char>) -> Result<T, Seq<char>> {
        match self {
            Some(v) => Ok(v),
            None => Err("Missing "@ + context),
        }
    }

    fn context(self, context: &str) -> (r: Result<T, Error>) {
        match self {
            Some(v) => Ok(v),
            None => {
                let mut msg = String::from_str("Missing ");
                msg.append(context);
                proof {
                    reveal_strlit("Missing ");
                }
                Err(Error { inner: msg })
            },
        }
    }
}

/// The envelope of every response: a code, the data and a message.
#[derive(Debug, Clone)]
pub struct ApiResponse<T> {
    pub code: Code,
    pub data: T,
    pub msg: String,
}

impl<T> ApiResponse<T> {
    pub fn new(code: Code, data: T, msg: &str) -> (r: Self)
        ensures
            r.code == code,
            r.data == data,
            r.msg@ == msg@,
    {
        ApiResponse { code, data, msg: msg.to_owned() }
    }

    pub fn ok(data: T) -> (r: Self)
        ensures
            r.code == Code::Success,
            r.data == data,
            r.msg@ == "Success"@,
    {
        Self::new(Code::Success, data, "Success")
    }
}

/// The summaries of all subscriptions, in increasing id order.
pub fn get_rss_list(db: &DataBase) -> (r: Vec<RssInfo>)
    ensures
        r@.map_values(|i: RssInfo| i@) == listed(db.rss_list@, db.rss_id_index as nat),
{
    db.list_subscriptions()
}

/// The subscription stored under `id`.
pub fn get_rss_info(db: &DataBase, id: usize) -> (r: Result<&Rss, Error>)
    ensures
        db.rss_list@.contains_key(id) ==> r is Ok && *r->Ok_0 == db.rss_list@[id],
        !db.rss_list@.contains_key(id) ==> r is Err && r->Err_0.inner@ == "Missing Rss not found"@,
{
    proof {
        reveal_strlit("Missing ");
        reveal_strlit("Rss not found");
        reveal_strlit("Missing Rss not found");
        assert("Missing "@ + "Rss not found"@ =~= "Missing Rss not found"@);
    }
    db.get(id).context("Rss not found")
}

} // verus!
