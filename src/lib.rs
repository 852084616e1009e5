pub mod text;
pub mod decimal;
pub mod query;
pub mod endpoint;
pub mod message;
pub mod dispatch;

pub use dispatch::{
    handle_delete_rpc_call, handle_get_rpc_call, handle_post_rpc_call, handle_rpc_call,
    InvalidRequestError, Operation, RejectReason, RpcCall,
};
pub use endpoint::Endpoint;
pub use query::{decode_query, QueryOptions};
