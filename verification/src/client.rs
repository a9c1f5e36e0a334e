//! The query client: one credential, the identity that belongs to it, and the
//! rules by which a response becomes a result.
//!
//! One call is one attempt. The client builds the request; the caller sends
//! it and hands back what came; the client then says what is to be cached and
//! what the call returns. Nothing is retried and no state is polled.

use vstd::prelude::*;
use serde_json::Value;
use crate::cache::{
    directory_of, distinct_identities_distinct_directories, distinct_queries_distinct_files,
    entry_path_of, CacheWrite, CacheWriteView,
};
use crate::envelope::{completed_state, decode_of, ExecutionInfo};
use crate::error::DuneError;
use crate::identity::{
    client_identity, encodable, identity_determines_credential, identity_of, identity_shape,
    is_lower_hex,
};

verus! {

/// The HTTP method of a request.
#[derive(Debug, Clone, Copy, PartialEq, Eq)]
pub enum Method {
    Get,
    Post,
}

/// One request to the service: the method, the address, one header, and the
/// members of the JSON object that is its body (none for a request without a
/// body).
#[derive(Debug)]
pub struct Request {
    pub method: Method,
    pub url: String,
    pub header_name: String,
    pub header_value: String,
    pub body: Vec<(String, String)>,
}

/// What a response means: the write to the cache that it calls for, if any,
/// and what the call returns once that write is done.
#[derive(Debug)]
pub struct Outcome<T> {
    pub store: Option<CacheWrite>,
    pub result: Result<T, DuneError>,
}

/// A client of the service.
pub struct Client {
    api_key: String,
    id: String,
}

/// The address of a query's latest result.
pub open spec fn results_url(query_id: Seq<char>) -> Seq<char> {
    "https://api.dune.com/api/v1/query/"@ + query_id + "/results"@
}

/// The address at which a query is executed.
pub open spec fn execute_url(query_id: Seq<char>) -> Seq<char> {
    "https://api.dune.com/api/v1/query/"@ + query_id + "/execute"@
}

/// The write that caches `contents` for a query under a credential.
pub open spec fn cache_entry(credential: Seq<char>, key: Seq<char>, contents: Seq<char>)
    -> CacheWriteView {
    CacheWriteView { identity: identity_of(credential), key, contents }
}

/// Whether a body holds an envelope of a successfully completed execution.
pub open spec fn completed_body(body: Seq<char>) -> bool {
    match decode_of(body) {
        Some(envelope) => completed_state(envelope.state),
        None => false,
    }
}

/// Whether `store` is the write that a response calls for: the body, as it
/// was received, under the query's id, where the body holds a completed
/// envelope; and no write at all for any other response.
pub open spec fn store_for(
    credential: Seq<char>,
    query_id: Seq<char>,
    response: Result<String, String>,
    store: Option<CacheWrite>,
) -> bool {
    match response {
        Ok(body) => if completed_body(body@) {
            store.is_some() && store.unwrap()@ == cache_entry(credential, query_id, body@)
        } else {
            store.is_none()
        },
        Err(_) => store.is_none(),
    }
}

/// Whether `error` is the failure that a response stands for, if it stands
/// for one before any result is looked at: the transport's failure with its
/// cause, a body that is no envelope, or an execution that is not completed.
pub open spec fn failure_for(response: Result<String, String>, error: DuneError) -> bool {
    match response {
        Err(cause) => error == DuneError::Transport(cause),
        Ok(body) => match decode_of(body@) {
            None => error == DuneError::Decode,
            Some(envelope) => !completed_state(envelope.state) && error
                == DuneError::ExecutionNotReady,
        },
    }
}

/// Whether `result` is what a request for the latest result returns on a
/// response: the rows of a completed envelope in their order, `MalformedSuccess`
/// for a completed envelope without a result, and else the response's failure.
pub open spec fn latest_result_for(
    response: Result<String, String>,
    result: Result<Vec<Value>, DuneError>,
) -> bool {
    match result {
        Ok(rows) => response.is_ok() && completed_body(response.unwrap()@) && decode_of(
            response.unwrap()@,
        ).unwrap().result.is_some() && rows@ == decode_of(
            response.unwrap()@,
        ).unwrap().result.unwrap().rows,
        Err(error) => if response.is_ok() && completed_body(response.unwrap()@) {
            decode_of(response.unwrap()@).unwrap().result.is_none() && error
                == DuneError::MalformedSuccess
        } else {
            failure_for(response, error)
        },
    }
}

/// Whether `result` is what an execute request returns on a response: the
/// body as it was received for a completed envelope that holds a result,
/// `MalformedSuccess` for a completed envelope without a result, and else the
/// response's failure.
pub open spec fn execute_result_for(
    response: Result<String, String>,
    result: Result<String, DuneError>,
) -> bool {
    match result {
        Ok(raw) => response.is_ok() && completed_body(response.unwrap()@) && decode_of(
            response.unwrap()@,
        ).unwrap().result.is_some() && raw@ == response.unwrap()@,
        Err(error) => if response.is_ok() && completed_body(response.unwrap()@) {
            decode_of(response.unwrap()@).unwrap().result.is_none() && error
                == DuneError::MalformedSuccess
        } else {
            failure_for(response, error)
        },
    }
}

impl<T> Outcome<T> {
    /// Closes a call once the caller has tried the write that `store` asks
    /// for. `stored` says whether that write succeeded; it is not looked at
    /// where no write was asked for. A write that failed makes the call fail
    /// with `Storage`; otherwise the call returns `result`.
    pub fn settle(self, stored: bool) -> (r: Result<T, DuneError>)
        ensures
            self.store.is_some() && !stored ==> r == Err::<T, DuneError>(DuneError::Storage),
            self.store.is_none() || stored ==> r == self.result,
    {
        if self.store.is_some() && !stored {
            Err(DuneError::Storage)
        } else {
            self.result
        }
    }
}

impl Client {
    #[verifier::type_invariant]
    spec fn well_formed(self) -> bool {
        self.id@ == identity_of(self.api_key@)
    }

    /// The credential that the client was made with.
    pub closed spec fn credential(&self) -> Seq<char> {
        self.api_key@
    }

    /// The identity that the client holds.
    pub closed spec fn identity(&self) -> Seq<char> {
        self.id@
    }

    /// Resolves the credential from the value of the variable
    /// `DUNE_API_KEY`, as the caller read it. It fails with
    /// `MissingCredential` exactly when the variable is not set.
    pub fn get_api_key(variable: Option<String>) -> (r: Result<String, DuneError>)
        ensures
            match variable {
                Some(value) => r == Ok::<String, DuneError>(value),
                None => r == Err::<String, DuneError>(DuneError::MissingCredential),
            },
    {
        match variable {
            Some(value) => Ok(value),
            None => Err(DuneError::MissingCredential),
        }
    }

    /// A client for the credential that the variable `DUNE_API_KEY` holds. It
    /// fails with `MissingCredential` exactly when there is none.
    pub fn new(variable: Option<String>) -> (r: Result<Client, DuneError>)
        requires
            variable.is_some() ==> encodable(variable.unwrap()@),
        ensures
            match variable {
                Some(value) => r.is_ok() && r.unwrap().credential() == value@
                    && r.unwrap().identity() == identity_of(value@),
                None => r == Err::<Client, DuneError>(DuneError::MissingCredential),
            },
    {
        match Client::get_api_key(variable) {
            Ok(api_key) => Ok(Client::new_with_key(api_key.as_str())),
            Err(error) => Err(error),
        }
    }

    /// A client for a given credential. Its identity is computed here, once.
    pub fn new_with_key(api_key: &str) -> (client: Client)
        requires
            encodable(api_key@),
        ensures
            client.credential() == api_key@,
            client.identity() == identity_of(api_key@),
    {
        let id = client_identity(api_key);
        Client { api_key: api_key.to_owned(), id }
    }

    /// The credential.
    pub fn api_key(&self) -> (key: &str)
        ensures
            key@ == self.credential(),
    {
        self.api_key.as_str()
    }

    /// The identity: the lower-case hexadecimal encoding of the credential's
    /// bytes.
    pub fn id(&self) -> (id: &str)
        ensures
            id@ == self.identity(),
            id@ == identity_of(self.credential()),
    {
        proof {
            use_type_invariant(self);
        }
        self.id.as_str()
    }

    /// The write that caches `results` for `query` under this client's
    /// identity. The query id names the file as it is, unescaped.
    pub fn save(&self, query: &str, results: &str) -> (write: CacheWrite)
        ensures
            write@ == cache_entry(self.credential(), query@, results@),
    {
        proof {
            use_type_invariant(self);
        }
        CacheWrite {
            identity: self.id.clone(),
            key: query.to_owned(),
            contents: results.to_owned(),
        }
    }

    /// The request for the latest result of a query: a `GET` with the
    /// credential in the header `X-Dune-API-Key` and no body.
    pub fn latest_request(&self, query_id: &str) -> (request: Request)
        ensures
            request.method == Method::Get,
            request.url@ == results_url(query_id@),
            request.header_name@ == "X-Dune-API-Key"@,
            request.header_value@ == self.credential(),
            request.body@.len() == 0,
    {
        Request {
            method: Method::Get,
            url: "https://api.dune.com/api/v1/query/".to_owned().concat(query_id).concat(
                "/results",
            ),
            header_name: "X-Dune-API-Key".to_owned(),
            header_value: self.api_key.clone(),
            body: Vec::new(),
        }
    }

    /// The request that executes a query: a `POST` with the credential in the
    /// header `X-Dune-API-Key` and a body of two members, `query_id` and
    /// `api_key`, in this order.
    pub fn execute_request(&self, query_id: &str) -> (request: Request)
        ensures
            request.method == Method::Post,
            request.url@ == execute_url(query_id@),
            request.header_name@ == "X-Dune-API-Key"@,
            request.header_value@ == self.credential(),
            request.body@.len() == 2,
            request.body@[0].0@ == "query_id"@,
            request.body@[0].1@ == query_id@,
            request.body@[1].0@ == "api_key"@,
            request.body@[1].1@ == self.credential(),
    {
        let mut body: Vec<(String, String)> = Vec::new();
        body.push(("query_id".to_owned(), query_id.to_owned()));
        body.push(("api_key".to_owned(), self.api_key.clone()));
        Request {
            method: Method::Post,
            url: "https://api.dune.com/api/v1/query/".to_owned().concat(query_id).concat(
                "/execute",
            ),
            header_name: "X-Dune-API-Key".to_owned(),
            header_value: self.api_key.clone(),
            body,
        }
    }

    /// What the response to `latest_request` means. `response` is the body
    /// that came, or the transport's cause where none came.
    ///
    /// A completed envelope is cached as it was received, under the query's
    /// id, and its rows are returned in their order. Every other response
    /// asks for no write and fails: with the transport's cause, with `Decode`
    /// for a body that is no envelope, with `ExecutionNotReady` for any other
    /// state. A completed envelope without a result is still cached, and the
    /// call fails with `MalformedSuccess`.
    pub fn latest_query_result(&self, query_id: &str, response: Result<String, String>) -> (out:
        Outcome<Vec<Value>>)
        ensures
            store_for(self.credential(), query_id@, response, out.store),
            latest_result_for(response, out.result),
    {
        let body = match response {
            Ok(body) => body,
            Err(cause) => {
                return Outcome { store: None, result: Err(DuneError::Transport(cause)) };
            },
        };
        let data = match ExecutionInfo::decode(body.as_str()) {
            Ok(data) => data,
            Err(error) => {
                return Outcome { store: None, result: Err(error) };
            },
        };
        if !data.is_completed() {
            return Outcome { store: None, result: Err(DuneError::ExecutionNotReady) };
        }
        let store = Some(self.save(query_id, body.as_str()));
        match data.result {
            Some(found) => Outcome { store, result: Ok(found.rows) },
            None => Outcome { store, result: Err(DuneError::MalformedSuccess) },
        }
    }

    /// What the response to `execute_request` means. The client is used up.
    ///
    /// A completed envelope is cached as it was received, under the query's
    /// id, and the body itself is returned in place of the rows. Every other
    /// response asks for no write and fails as in `latest_query_result`. A
    /// completed envelope without a result is still cached, and the call
    /// fails with `MalformedSuccess`.
    pub fn execute(self, query_id: &str, response: Result<String, String>) -> (out: Outcome<
        String,
    >)
        ensures
            store_for(self.credential(), query_id@, response, out.store),
            execute_result_for(response, out.result),
    {
        let body = match response {
            Ok(body) => body,
            Err(cause) => {
                return Outcome { store: None, result: Err(DuneError::Transport(cause)) };
            },
        };
        let data = match ExecutionInfo::decode(body.as_str()) {
            Ok(data) => data,
            Err(error) => {
                return Outcome { store: None, result: Err(error) };
            },
        };
        if !data.is_completed() {
            return Outcome { store: None, result: Err(DuneError::ExecutionNotReady) };
        }
        let store = Some(self.save(query_id, body.as_str()));
        match data.result {
            Some(_) => Outcome { store, result: Ok(body) },
            None => Outcome { store, result: Err(DuneError::MalformedSuccess) },
        }
    }
}

/// A completed envelope with a result: the write holds the body exactly as it
/// was received, at the query's place under the client's identity, and the
/// call returns the envelope's rows, all of them and in their order.
pub proof fn completed_response_is_cached_and_returned(
    credential: Seq<char>,
    query_id: Seq<char>,
    body: String,
    out: Outcome<Vec<Value>>,
)
    requires
        completed_body(body@),
        decode_of(body@).unwrap().result.is_some(),
        store_for(credential, query_id, Ok(body), out.store),
        latest_result_for(Ok(body), out.result),
    ensures
        out.store.is_some(),
        out.store.unwrap()@.contents == body@,
        out.store.unwrap()@.key == query_id,
        out.store.unwrap()@.identity == identity_of(credential),
        out.result.is_ok(),
        out.result.unwrap()@ == decode_of(body@).unwrap().result.unwrap().rows,
{
}

/// An envelope in any state but the completed one: nothing is written and the
/// call fails with `ExecutionNotReady`.
pub proof fn unfinished_response_is_not_cached(
    credential: Seq<char>,
    query_id: Seq<char>,
    body: String,
    out: Outcome<Vec<Value>>,
)
    requires
        decode_of(body@).is_some(),
        !completed_state(decode_of(body@).unwrap().state),
        store_for(credential, query_id, Ok(body), out.store),
        latest_result_for(Ok(body), out.result),
    ensures
        out.store.is_none(),
        out.result == Err::<Vec<Value>, DuneError>(DuneError::ExecutionNotReady),
{
}

/// A body that is no envelope: nothing is written and the call fails with
/// `Decode`.
pub proof fn undecodable_response_is_not_cached(
    credential: Seq<char>,
    query_id: Seq<char>,
    body: String,
    out: Outcome<Vec<Value>>,
)
    requires
        decode_of(body@).is_none(),
        store_for(credential, query_id, Ok(body), out.store),
        latest_result_for(Ok(body), out.result),
    ensures
        out.store.is_none(),
        out.result == Err::<Vec<Value>, DuneError>(DuneError::Decode),
{
}

/// A transport failure: nothing is written and the call fails with the cause.
pub proof fn transport_failure_is_not_cached(
    credential: Seq<char>,
    query_id: Seq<char>,
    cause: String,
    out: Outcome<Vec<Value>>,
)
    requires
        store_for(credential, query_id, Err(cause), out.store),
        latest_result_for(Err(cause), out.result),
    ensures
        out.store.is_none(),
        out.result == Err::<Vec<Value>, DuneError>(DuneError::Transport(cause)),
{
}

/// The same response to the same request, twice: both calls ask for the same
/// write, with the same contents, or both for none; and both return the same
/// rows, or both fail.
pub proof fn repeated_response_repeats_the_write(
    credential: Seq<char>,
    query_id: Seq<char>,
    response: Result<String, String>,
    first: Outcome<Vec<Value>>,
    second: Outcome<Vec<Value>>,
)
    requires
        store_for(credential, query_id, response, first.store),
        latest_result_for(response, first.result),
        store_for(credential, query_id, response, second.store),
        latest_result_for(response, second.result),
    ensures
        first.store.is_some() == second.store.is_some(),
        first.store.is_some() ==> first.store.unwrap()@ == second.store.unwrap()@,
        first.result.is_ok() == second.result.is_ok(),
        first.result.is_ok() ==> first.result.unwrap()@ == second.result.unwrap()@,
        first.result.is_err() ==> first.result == second.result,
{
}

/// Completed responses for two different queries under one credential are
/// both cached, in different files below any cache root.
pub proof fn different_queries_do_not_collide(
    credential: Seq<char>,
    root: Seq<char>,
    first_query: Seq<char>,
    first_body: String,
    first: Outcome<Vec<Value>>,
    second_query: Seq<char>,
    second_body: String,
    second: Outcome<Vec<Value>>,
)
    requires
        first_query != second_query,
        completed_body(first_body@),
        completed_body(second_body@),
        store_for(credential, first_query, Ok(first_body), first.store),
        store_for(credential, second_query, Ok(second_body), second.store),
    ensures
        first.store.is_some(),
        second.store.is_some(),
        first.store.unwrap()@.identity == second.store.unwrap()@.identity,
        entry_path_of(root, first.store.unwrap()@.identity, first.store.unwrap()@.key)
            != entry_path_of(root, second.store.unwrap()@.identity, second.store.unwrap()@.key),
{
    distinct_queries_distinct_files(root, identity_of(credential), first_query, second_query);
}

/// Entries of two different credentials never share a file, whatever the
/// queries are: an identity holds no separator, so the directory of one
/// credential holds nothing of another's.
pub proof fn different_credentials_do_not_collide(
    root: Seq<char>,
    first: Seq<char>,
    first_query: Seq<char>,
    second: Seq<char>,
    second_query: Seq<char>,
)
    requires
        first != second,
    ensures
        directory_of(root, identity_of(first)) != directory_of(root, identity_of(second)),
        entry_path_of(root, identity_of(first), first_query) != entry_path_of(
            root,
            identity_of(second),
            second_query,
        ),
{
    let a = identity_of(first);
    let b = identity_of(second);
    identity_determines_credential(first, second);
    distinct_identities_distinct_directories(root, a, b);
    identity_shape(first);
    identity_shape(second);
    reveal_strlit("/");
    let prefix = root + "/"@;
    let start = prefix.len() as int;
    let x = entry_path_of(root, a, first_query);
    let y = entry_path_of(root, b, second_query);
    if x == y {
        if a.len() == b.len() {
            assert(x.subrange(start, start + a.len()) =~= a);
            assert(y.subrange(start, start + b.len()) =~= b);
        } else if a.len() < b.len() {
            assert(x[start + a.len()] == '/');
            assert(y[start + a.len()] == b[a.len() as int]);
            assert(is_lower_hex(b[a.len() as int]));
        } else {
            assert(y[start + b.len()] == '/');
            assert(x[start + b.len()] == a[b.len() as int]);
            assert(is_lower_hex(a[b.len() as int]));
        }
    }
}

/// An execute request succeeds exactly when a body came, the body holds a
/// completed envelope with a result, and the write that it asks for
/// succeeded; what it then returns is what the cache holds. A completed
/// envelope without a result fails with `MalformedSuccess` once it is cached.
pub proof fn execute_succeeds_only_cached(
    credential: Seq<char>,
    query_id: Seq<char>,
    response: Result<String, String>,
    out: Outcome<String>,
    stored: bool,
    settled: Result<String, DuneError>,
)
    requires
        store_for(credential, query_id, response, out.store),
        execute_result_for(response, out.result),
        out.store.is_some() && !stored ==> settled == Err::<String, DuneError>(DuneError::Storage),
        out.store.is_none() || stored ==> settled == out.result,
    ensures
        settled.is_ok() <==> response.is_ok() && completed_body(response.unwrap()@) && decode_of(
            response.unwrap()@,
        ).unwrap().result.is_some() && stored,
        settled.is_ok() ==> out.store.is_some() && out.store.unwrap()@ == cache_entry(
            credential,
            query_id,
            settled.unwrap()@,
        ),
        response.is_ok() && completed_body(response.unwrap()@) && decode_of(
            response.unwrap()@,
        ).unwrap().result.is_none() && stored ==> settled == Err::<String, DuneError>(
            DuneError::MalformedSuccess,
        ),
{
}

} // verus!
