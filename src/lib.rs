//! Native configuration state bridged into a scripting environment: the
//! evaluation context, its path resolution rules, the key/value state
//! accessor, the opaque handle protocol and the ordered set of global
//! bindings.

pub mod paths;
pub mod context;
pub mod state;
pub mod bridge;
pub mod environment;
