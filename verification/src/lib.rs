//! A library for building strongly typed REST clients: a typed request is
//! formatted into a description of one HTTP call, the raw answer is
//! classified and decoded, and a paginated request is driven page by page.
//!
//! The transport itself is not part of this crate. Every function here works
//! on plain values; whoever owns the connection dispatches the calls this
//! crate describes and hands the answers back.
pub mod batch;
pub mod call;
pub mod client;
pub mod error;
pub mod pagination;
pub mod request;
pub mod response;
pub mod text;
pub mod wire;

pub use batch::Batch;
pub use call::HttpCall;
pub use client::{Authentication, Client};
pub use error::Error;
pub use pagination::{
    PaginatedRequest, Pages, PaginationState, PaginationType, Paginator, QueryPaginator,
};
pub use request::{EmptyResponse, Method, Payload, Request, RequestBody};
pub use response::{Exchange, StatusClass};
