//! Outbound HTTP fetches from an edge handler: building request descriptors,
//! mapping inbound paths to handlers, and deciding each step of one exchange.
pub mod request;
pub mod routes;
pub mod exchange;

pub use request::{build, build_for_style, FetchError, Header, Method, RedirectPolicy, RequestDescriptor, Style};
pub use routes::{all_routes, dispatch, Route, Surface};
pub use exchange::{Action, Exchange, Phase, OK_STATUS};
