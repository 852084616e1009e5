use vstd::prelude::*;

use crate::decimal::{decimal_i64, parse_i64};
use crate::endpoint::{parse_endpoint, uri_parts, Endpoint};
use crate::message::{decode_json, json_accepts};
use crate::query::{decode_query, query_options_of, QueryOptions};
use crate::text::{lemma_split_nonempty, same_text, split_spec, split_text};

verus! {

/// One remote call as the transport delivers it.
pub struct RpcCall {
    pub method: String,
    pub endpoint: String,
    pub body: String,
}

/// Why a call was rejected.
#[derive(Debug, Clone, Copy, PartialEq, Eq, Structural)]
pub enum RejectReason {
    /// The endpoint does not parse as a URI.
    EndpointNotUri,
    /// The method is not `GET`, `POST` or `DELETE`.
    UnknownMethod,
    /// No route of the method has this path.
    UnknownPath,
    /// The query string gives no valid paging options.
    BadQuery,
    /// The body does not decode as a message.
    BadBody,
    /// A parametrized path is not made of exactly the resource and one parameter.
    BadSegmentCount,
    /// The message id in the path is not a signed 64-bit integer.
    BadMessageId,
}

/// The one rejection: the call is malformed or names no known operation.
#[derive(Debug, Clone, Copy, PartialEq, Eq, Structural)]
pub struct InvalidRequestError {
    pub reason: RejectReason,
}

/// The handler operation that a call resolves to, with its decoded input.
#[derive(Debug)]
pub enum Operation {
    ListMessages(QueryOptions),
    ListDeletedMessages(QueryOptions),
    ListModerators,
    ListBannedIdentities,
    MemberCount,
    InsertMessage(serde_json::Value),
    Ban(String),
    DeleteMessage(i64),
    Unban(String),
}

/// An operation as contracts see it. The decoded message of an insertion is
/// opaque, so only the operation's kind stands for it.
pub enum OperationView {
    ListMessages(QueryOptions),
    ListDeletedMessages(QueryOptions),
    ListModerators,
    ListBannedIdentities,
    MemberCount,
    InsertMessage,
    Ban(Seq<char>),
    DeleteMessage(i64),
    Unban(Seq<char>),
}

impl View for Operation {
    type V = OperationView;

    open spec fn view(&self) -> OperationView {
        match self {
            Operation::ListMessages(o) => OperationView::ListMessages(*o),
            Operation::ListDeletedMessages(o) => OperationView::ListDeletedMessages(*o),
            Operation::ListModerators => OperationView::ListModerators,
            Operation::ListBannedIdentities => OperationView::ListBannedIdentities,
            Operation::MemberCount => OperationView::MemberCount,
            Operation::InsertMessage(_) => OperationView::InsertMessage,
            Operation::Ban(b) => OperationView::Ban(b@),
            Operation::DeleteMessage(id) => OperationView::DeleteMessage(*id),
            Operation::Unban(k) => OperationView::Unban(k@),
        }
    }
}

/// A dispatch result as contracts see it.
pub open spec fn outcome(r: Result<Operation, InvalidRequestError>) -> Result<OperationView, RejectReason> {
    match r {
        Ok(op) => Ok(op@),
        Err(e) => Err(e.reason),
    }
}

/// Routing of a GET call: the query, if any, must give valid options; then the
/// path must be one of the five readable resources.
pub open spec fn get_route(path: Seq<char>, query: Option<Seq<char>>) -> Result<OperationView, RejectReason> {
    let options = match query {
        Some(q) => query_options_of(q),
        None => Some(QueryOptions::unset()),
    };
    match options {
        None => Err(RejectReason::BadQuery),
        Some(o) => if path == "/messages"@ {
            Ok(OperationView::ListMessages(o))
        } else if path == "/deleted_messages"@ {
            Ok(OperationView::ListDeletedMessages(o))
        } else if path == "/moderators"@ {
            Ok(OperationView::ListModerators)
        } else if path == "/block_list"@ {
            Ok(OperationView::ListBannedIdentities)
        } else if path == "/member_count"@ {
            Ok(OperationView::MemberCount)
        } else {
            Err(RejectReason::UnknownPath)
        },
    }
}

/// Routing of a POST call: a message insertion needs a body that decodes; a ban
/// takes the body as it is.
pub open spec fn post_route(path: Seq<char>, body: Seq<char>) -> Result<OperationView, RejectReason> {
    if path == "/messages"@ {
        if json_accepts(body) {
            Ok(OperationView::InsertMessage)
        } else {
            Err(RejectReason::BadBody)
        }
    } else if path == "/block_list"@ {
        Ok(OperationView::Ban(body))
    } else {
        Err(RejectReason::UnknownPath)
    }
}

/// The segments of a path: what follows its leading slash, cut at each `/`.
pub open spec fn path_segments(path: Seq<char>) -> Seq<Seq<char>> {
    split_spec(path.drop_first(), '/')
}

/// Routing of a DELETE call. The first segment of the path names the resource,
/// exactly `messages` or `block_list`, and exactly one segment, the parameter,
/// must follow it: a signed integer id for `messages`, the identity as it
/// stands for `block_list`.
pub open spec fn delete_route(path: Seq<char>) -> Result<OperationView, RejectReason> {
    let segments = path_segments(path);
    if path.len() == 0 {
        Err(RejectReason::UnknownPath)
    } else if segments[0] == "messages"@ {
        if segments.len() != 2 {
            Err(RejectReason::BadSegmentCount)
        } else {
            match decimal_i64(segments[1]) {
                Some(id) => Ok(OperationView::DeleteMessage(id)),
                None => Err(RejectReason::BadMessageId),
            }
        }
    } else if segments[0] == "block_list"@ {
        if segments.len() != 2 {
            Err(RejectReason::BadSegmentCount)
        } else {
            Ok(OperationView::Unban(segments[1]))
        }
    } else {
        Err(RejectReason::UnknownPath)
    }
}

/// What a call resolves to: the endpoint must parse as a URI, then the method
/// picks the routing table.
pub open spec fn dispatch_spec(method: Seq<char>, endpoint: Seq<char>, body: Seq<char>) -> Result<
    OperationView,
    RejectReason,
> {
    match uri_parts(endpoint) {
        None => Err(RejectReason::EndpointNotUri),
        Some(parts) => if method == "GET"@ {
            get_route(parts.0, parts.1)
        } else if method == "POST"@ {
            post_route(parts.0, body)
        } else if method == "DELETE"@ {
            delete_route(parts.0)
        } else {
            Err(RejectReason::UnknownMethod)
        },
    }
}

pub open spec fn known_method(method: Seq<char>) -> bool {
    method == "GET"@ || method == "POST"@ || method == "DELETE"@
}

fn reject(reason: RejectReason) -> (r: Result<Operation, InvalidRequestError>)
    ensures
        outcome(r) == Err::<OperationView, RejectReason>(reason),
{
    Err(InvalidRequestError { reason })
}

/// Resolves a call to the handler operation it asks for, or rejects it.
pub fn handle_rpc_call(rpc_call: RpcCall) -> (r: Result<Operation, InvalidRequestError>)
    ensures
        outcome(r) == dispatch_spec(rpc_call.method@, rpc_call.endpoint@, rpc_call.body@),
        !known_method(rpc_call.method@) ==> r is Err,
        uri_parts(rpc_call.endpoint@) is None ==> r is Err,
{
    let uri = match parse_endpoint(rpc_call.endpoint.as_str()) {
        Ok(uri) => uri,
        Err(_) => {
            return reject(RejectReason::EndpointNotUri);
        },
    };
    let method = rpc_call.method.as_str();
    if same_text(method, "GET") {
        handle_get_rpc_call(&uri)
    } else if same_text(method, "POST") {
        handle_post_rpc_call(rpc_call, &uri)
    } else if same_text(method, "DELETE") {
        handle_delete_rpc_call(&uri)
    } else {
        reject(RejectReason::UnknownMethod)
    }
}

/// Resolves a GET call by its path, with the paging options of its query.
pub fn handle_get_rpc_call(uri: &Endpoint) -> (r: Result<Operation, InvalidRequestError>)
    ensures
        outcome(r) == get_route(uri.parts().0, uri.parts().1),
{
    let options = match &uri.query {
        Some(q) => match decode_query(q.as_str()) {
            Some(o) => o,
            None => {
                return reject(RejectReason::BadQuery);
            },
        },
        None => QueryOptions { limit: None, from_server_id: None },
    };
    let path = uri.path.as_str();
    if same_text(path, "/messages") {
        Ok(Operation::ListMessages(options))
    } else if same_text(path, "/deleted_messages") {
        Ok(Operation::ListDeletedMessages(options))
    } else if same_text(path, "/moderators") {
        Ok(Operation::ListModerators)
    } else if same_text(path, "/block_list") {
        Ok(Operation::ListBannedIdentities)
    } else if same_text(path, "/member_count") {
        Ok(Operation::MemberCount)
    } else {
        reject(RejectReason::UnknownPath)
    }
}

/// Resolves a POST call by its path, decoding the body of a message insertion.
pub fn handle_post_rpc_call(rpc_call: RpcCall, uri: &Endpoint) -> (r: Result<
    Operation,
    InvalidRequestError,
>)
    ensures
        outcome(r) == post_route(uri.parts().0, rpc_call.body@),
{
    let path = uri.path.as_str();
    if same_text(path, "/messages") {
        match decode_json(rpc_call.body.as_str()) {
            Ok(message) => Ok(Operation::InsertMessage(message)),
            Err(_) => reject(RejectReason::BadBody),
        }
    } else if same_text(path, "/block_list") {
        Ok(Operation::Ban(rpc_call.body))
    } else {
        reject(RejectReason::UnknownPath)
    }
}

/// Resolves a DELETE call by the resource and the parameter in its path.
pub fn handle_delete_rpc_call(uri: &Endpoint) -> (r: Result<Operation, InvalidRequestError>)
    ensures
        outcome(r) == delete_route(uri.parts().0),
{
    let path = uri.path.as_str();
    let n = path.unicode_len();
    if n == 0 {
        return reject(RejectReason::UnknownPath);
    }
    let rest = path.substring_char(1, n);
    proof {
        assert(rest@ =~= path@.drop_first());
    }
    let segments = split_text(rest, '/');
    let ghost segs = path_segments(path@);
    proof {
        lemma_split_nonempty(path@.drop_first(), '/');
        assert(segments@.len() == segs.len());
        assert(segments@[0]@ == segs[0]);
    }
    let is_message = same_text(segments[0].as_str(), "messages");
    let is_block = same_text(segments[0].as_str(), "block_list");
    if !is_message && !is_block {
        return reject(RejectReason::UnknownPath);
    }
    if segments.len() != 2 {
        return reject(RejectReason::BadSegmentCount);
    }
    proof {
        assert(segments@[1]@ == segs[1]);
    }
    if is_message {
        match parse_i64(segments[1].as_str()) {
            Some(id) => Ok(Operation::DeleteMessage(id)),
            None => reject(RejectReason::BadMessageId),
        }
    } else {
        Ok(Operation::Unban(segments[1].clone()))
    }
}

/// Dispatch keeps no state between calls: two calls with the same method,
/// endpoint and body resolve to the same outcome, whenever each is made.
pub proof fn lemma_dispatch_repeatable(
    first: RpcCall,
    second: RpcCall,
    r1: Result<Operation, InvalidRequestError>,
    r2: Result<Operation, InvalidRequestError>,
)
    requires
        first.method@ == second.method@,
        first.endpoint@ == second.endpoint@,
        first.body@ == second.body@,
        outcome(r1) == dispatch_spec(first.method@, first.endpoint@, first.body@),
        outcome(r2) == dispatch_spec(second.method@, second.endpoint@, second.body@),
    ensures
        outcome(r1) == outcome(r2),
{
}

/// A call with a method other than `GET`, `POST` or `DELETE` is rejected,
/// whatever its endpoint and body.
pub proof fn lemma_unknown_method_rejected(method: Seq<char>, endpoint: Seq<char>, body: Seq<char>)
    requires
        !known_method(method),
    ensures
        dispatch_spec(method, endpoint, body) is Err,
{
}

/// A call whose endpoint is no URI is rejected for that reason, whatever its
/// method and body.
pub proof fn lemma_bad_endpoint_rejected(method: Seq<char>, endpoint: Seq<char>, body: Seq<char>)
    requires
        uri_parts(endpoint) is None,
    ensures
        dispatch_spec(method, endpoint, body) == Err::<OperationView, RejectReason>(
            RejectReason::EndpointNotUri,
        ),
{
}

} // verus!
