//! The query gateway: reads the name of an address as of one version of the
//! ledger. It writes nothing and declares no cost.

use crate::address::{address_bytes, EthAddress};
use crate::ledger::{Ledger, State, VersionToken};
use crate::storage::entry_of;
use std::marker::PhantomData;
use std::sync::Arc;
use vstd::prelude::*;
use vstd::utf8::{decode_utf8, valid_utf8};

verus! {

/// The name under which the query method is served.
pub const GET_USERNAME_METHOD: &'static str = "usernameRegistry_getUsername";

/// The code of the error for a text that is no address.
pub const INVALID_ADDRESS_CODE: i32 = 1;

/// The code of the error for a read that the ledger could not serve.
pub const RUNTIME_ERROR_CODE: i32 = 2;

/// Why a query failed.
#[derive(Clone, Debug, PartialEq, Eq)]
pub enum QueryError {
    /// The text is no address.
    InvalidAddress,
    /// The version asked for is not one of the ledger's.
    SnapshotUnavailable,
    /// The read itself failed; the text says how.
    BackendFailure(String),
}

/// A query error as plain values.
pub enum QueryErrorView {
    InvalidAddress,
    SnapshotUnavailable,
    BackendFailure(Seq<char>),
}

impl View for QueryError {
    type V = QueryErrorView;

    open spec fn view(&self) -> QueryErrorView {
        match *self {
            QueryError::InvalidAddress => QueryErrorView::InvalidAddress,
            QueryError::SnapshotUnavailable => QueryErrorView::SnapshotUnavailable,
            QueryError::BackendFailure(detail) => QueryErrorView::BackendFailure(detail@),
        }
    }
}

/// The error that a caller of the query method sees.
#[derive(Clone, Debug, PartialEq, Eq)]
pub struct ErrorObject {
    pub code: i32,
    pub message: String,
    pub data: Option<String>,
}

/// An error object as plain values.
pub struct ErrorObjectView {
    pub code: i32,
    pub message: Seq<char>,
    pub data: Option<Seq<char>>,
}

impl View for ErrorObject {
    type V = ErrorObjectView;

    open spec fn view(&self) -> ErrorObjectView {
        ErrorObjectView {
            code: self.code,
            message: self.message@,
            data: match self.data {
                Some(d) => Some(d@),
                None => None,
            },
        }
    }
}

/// The error object for each query error: code 1 for a text that is no
/// address; code 2 for a version that the ledger does not know and for a read
/// that failed, the latter with its detail as data.
pub open spec fn error_object_of(e: QueryErrorView) -> ErrorObjectView {
    match e {
        QueryErrorView::InvalidAddress => ErrorObjectView {
            code: INVALID_ADDRESS_CODE,
            message: "Invalid Ethereum address"@,
            data: None,
        },
        QueryErrorView::SnapshotUnavailable => ErrorObjectView {
            code: RUNTIME_ERROR_CODE,
            message: "Runtime API error"@,
            data: None,
        },
        QueryErrorView::BackendFailure(detail) => ErrorObjectView {
            code: RUNTIME_ERROR_CODE,
            message: "Runtime API error"@,
            data: Some(detail),
        },
    }
}

impl QueryError {
    /// The error object that tells a caller of this error.
    pub fn into_error_object(self) -> (o: ErrorObject)
        ensures
            o@ == error_object_of(self@),
    {
        match self {
            QueryError::InvalidAddress => ErrorObject {
                code: INVALID_ADDRESS_CODE,
                message: "Invalid Ethereum address".to_owned(),
                data: None,
            },
            QueryError::SnapshotUnavailable => ErrorObject {
                code: RUNTIME_ERROR_CODE,
                message: "Runtime API error".to_owned(),
                data: None,
            },
            QueryError::BackendFailure(detail) => ErrorObject {
                code: RUNTIME_ERROR_CODE,
                message: "Runtime API error".to_owned(),
                data: Some(detail),
            },
        }
    }
}

/// The text shown for a stored name: the name itself where its bytes are
/// UTF-8, and a fixed placeholder where they are not.
pub open spec fn username_text(bytes: Seq<u8>) -> Seq<char> {
    if valid_utf8(bytes) {
        decode_utf8(bytes)
    } else {
        "Invalid UTF-8"@
    }
}

/// Calls `String::from_utf8`, which returns the string that the bytes encode
/// where they are valid UTF-8, and an error where they are not.
#[verifier::external_body]
fn string_from_utf8(bytes: Vec<u8>) -> (r: Option<String>)
    ensures
        match r {
            Some(s) => valid_utf8(bytes@) && s@ == decode_utf8(bytes@),
            None => !valid_utf8(bytes@),
        },
{
    match String::from_utf8(bytes) {
        Ok(s) => Some(s),
        Err(_) => None,
    }
}

/// The text shown for a stored name. A name that is not UTF-8 is no error:
/// it is shown as `Invalid UTF-8`.
pub fn decode_username(bytes: Vec<u8>) -> (text: String)
    ensures
        text@ == username_text(bytes@),
{
    match string_from_utf8(bytes) {
        Some(s) => s,
        None => "Invalid UTF-8".to_owned(),
    }
}

/// Reads the address of a query, before anything else is looked at.
pub fn parse_address(text: &str) -> (r: Result<EthAddress, QueryError>)
    ensures
        match r {
            Ok(a) => address_bytes(text@) == Some(a@),
            Err(e) => address_bytes(text@) is None && e@ == QueryErrorView::InvalidAddress,
        },
{
    match EthAddress::parse(text) {
        Some(a) => Ok(a),
        None => Err(QueryError::InvalidAddress),
    }
}

/// The version to read: the one asked for, or the newest where none was.
pub fn select_version<Hash>(at: Option<Hash>, best: Hash) -> (v: Hash)
    ensures
        v == match at {
            Some(asked) => asked,
            None => best,
        },
{
    match at {
        Some(asked) => asked,
        None => best,
    }
}

/// What a query answers once the read has come back: the text of the name,
/// `None` for an address without a name, and an error for a read that failed.
pub open spec fn read_outcome(read: Result<Option<Seq<u8>>, Seq<char>>) -> Result<
    Option<Seq<char>>,
    QueryErrorView,
> {
    match read {
        Ok(Some(bytes)) => Ok(Some(username_text(bytes))),
        Ok(None) => Ok(None),
        Err(detail) => Err(QueryErrorView::BackendFailure(detail)),
    }
}

/// A read as plain values.
pub open spec fn read_view(read: Result<Option<Vec<u8>>, String>) -> Result<
    Option<Seq<u8>>,
    Seq<char>,
> {
    match read {
        Ok(Some(bytes)) => Ok(Some(bytes@)),
        Ok(None) => Ok(None),
        Err(detail) => Err(detail@),
    }
}

/// An answer as plain values.
pub open spec fn answer_view(answer: Result<Option<String>, QueryError>) -> Result<
    Option<Seq<char>>,
    QueryErrorView,
> {
    match answer {
        Ok(Some(text)) => Ok(Some(text@)),
        Ok(None) => Ok(None),
        Err(e) => Err(e@),
    }
}

/// Turns what the read returned into the answer of the query.
pub fn finish_query(read: Result<Option<Vec<u8>>, String>) -> (answer: Result<
    Option<String>,
    QueryError,
>)
    ensures
        answer_view(answer) == read_outcome(read_view(read)),
{
    match read {
        Ok(Some(bytes)) => Ok(Some(decode_username(bytes))),
        Ok(None) => Ok(None),
        Err(detail) => Err(QueryError::BackendFailure(detail)),
    }
}

/// The answer to a query against a ledger. The text is read first, and a text
/// that is no address is refused whatever the ledger and the version are;
/// then the version is resolved, the newest where none is given; then the
/// snapshot is read.
pub open spec fn query_outcome(state: State, text: Seq<char>, at: Option<VersionToken>) -> Result<
    Option<Seq<char>>,
    QueryErrorView,
> {
    match address_bytes(text) {
        None => Err(QueryErrorView::InvalidAddress),
        Some(key) => {
            let version = match at {
                Some(asked) => asked,
                None => state.best(),
            };
            if state.knows(version) {
                read_outcome(Ok(entry_of(state.at(version), key)))
            } else {
                Err(QueryErrorView::SnapshotUnavailable)
            }
        },
    }
}

/// Answers a query against a ledger.
pub fn query(ledger: &Ledger, text: &str, at: Option<VersionToken>) -> (answer: Result<
    Option<String>,
    QueryError,
>)
    ensures
        answer_view(answer) == query_outcome(ledger@, text@, at),
{
    let key = match parse_address(text) {
        Ok(key) => key,
        Err(e) => {
            return Err(e);
        },
    };
    let version = select_version(at, ledger.best());
    match ledger.resolve(version) {
        Some(names) => finish_query(Ok(names.get_username(&key))),
        None => Err(QueryError::SnapshotUnavailable),
    }
}

/// What the query method hands to its caller, as plain values.
pub open spec fn response_view(response: Result<Option<String>, ErrorObject>) -> Result<
    Option<Seq<char>>,
    ErrorObjectView,
> {
    match response {
        Ok(Some(text)) => Ok(Some(text@)),
        Ok(None) => Ok(None),
        Err(o) => Err(o@),
    }
}

/// The response for an answer: the answer itself, or the error object of its
/// error.
pub open spec fn response_of(outcome: Result<Option<Seq<char>>, QueryErrorView>) -> Result<
    Option<Seq<char>>,
    ErrorObjectView,
> {
    match outcome {
        Ok(found) => Ok(found),
        Err(e) => Err(error_object_of(e)),
    }
}

/// Turns an answer into what the query method hands to its caller.
pub fn respond(answer: Result<Option<String>, QueryError>) -> (response: Result<
    Option<String>,
    ErrorObject,
>)
    ensures
        response_view(response) == response_of(answer_view(answer)),
{
    match answer {
        Ok(found) => Ok(found),
        Err(e) => Err(e.into_error_object()),
    }
}

/// The query method `usernameRegistry_getUsername`.
pub trait UsernameRegistryApi<BlockHash, ResponseType> {
    /// The name of `ethereum_address` as of `at`, or as of the newest version
    /// where `at` is `None`.
    fn get_username(&self, ethereum_address: String, at: Option<BlockHash>) -> Result<
        Option<ResponseType>,
        ErrorObject,
    >;
}

/// Serves the query method from a client `C` whose versions are blocks of
/// type `Block`.
pub struct UsernameRegistryRpc<C, Block> {
    client: Arc<C>,
    _marker: PhantomData<Block>,
}

impl<C, Block> UsernameRegistryRpc<C, Block> {
    /// The client that the queries are served from.
    pub closed spec fn spec_client(&self) -> &Arc<C> {
        &self.client
    }

    /// A gateway that serves its queries from `client`.
    pub fn new(client: Arc<C>) -> (rpc: Self)
        ensures
            *rpc.spec_client() == client,
    {
        Self { client, _marker: PhantomData }
    }

    /// The client that the queries are served from.
    #[verifier::when_used_as_spec(spec_client)]
    pub fn client(&self) -> (client: &Arc<C>)
        ensures
            client == self.spec_client(),
    {
        &self.client
    }
}

impl<Block> UsernameRegistryApi<VersionToken, String> for UsernameRegistryRpc<Ledger, Block> {
    fn get_username(&self, ethereum_address: String, at: Option<VersionToken>) -> (response: Result<
        Option<String>,
        ErrorObject,
    >)
        ensures
            response_view(response) == response_of(
                query_outcome((**self.spec_client())@, ethereum_address@, at),
            ),
    {
        respond(query(&*self.client, ethereum_address.as_str(), at))
    }
}

} // verus!
