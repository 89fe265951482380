//! Rate limiting for an HTTP server: one token-bucket limiter per
//! (method, guard, route) kept in a registry, a per-request admission verdict
//! computed once, and the headers and bodies that tell a client about it.
pub mod guard;
pub mod header;
pub mod quota;
pub mod registry;
pub mod limit_error;
pub mod limiter;
pub mod req_state;
pub mod rocket_governable;

pub use quota::{Method, Quota};
pub use guard::{LimitHeaderGen, RequestCache, RocketGovernor};
pub use limit_error::LimitError;
pub use limiter::ClientAddr;
pub use registry::{Registry, RouteLimiter};
pub use req_state::ReqState;
pub use rocket_governable::RocketGovernable;
