//! A verified core for a minimal function-as-a-service runtime shim.
//!
//! The library exposes statically registered handler functions over HTTP:
//! exactly one handler is selected at process start from a configured name,
//! and every inbound request is wrapped as a normalized [`types::Event`] plus
//! an environment [`types::Context`] before the handler is invoked
//! synchronously. The pieces here — registry selection, event and context
//! construction, dispatch, metrics, and the health probe — carry contracts;
//! the HTTP transport and the environment-variable source live outside, in
//! the embedding program.

pub mod config;
pub mod dispatch;
pub mod handlers;
pub mod health;
pub mod metrics;
pub mod registry;
pub mod types;

pub use handlers::echo_or_panic;
pub use handlers::say_goodbye;
pub use handlers::say_hello;
pub use types::Context;
pub use types::Event;
pub use types::Method;
pub use types::Response;
