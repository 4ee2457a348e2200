//! Bidirectional object-graph marshaling bridge between a managed host
//! runtime and a native post-parsing engine.
//!
//! The host runtime's object store is modeled by [`host::HostEnv`]: a table
//! of class-tagged records addressed by opaque handles, exactly the shape in
//! which a managed runtime hands objects across a native call boundary. The
//! bridge decodes host objects into native value types, re-encodes the
//! engine's polymorphic result model back into host objects, and converts
//! every internal failure into a single well-formed boundary error.

pub mod descriptor_mapper;
pub mod domain;
pub mod helpers;
pub mod host;
pub mod parse_thread_posts_use_case;
pub mod post_parsed_mapper;
pub mod post_parser_context_mapper;
pub mod thread_raw_mapper;

use vstd::prelude::*;

verus! {

/// A handle is valid when it addresses a record of the host object store.
pub open spec fn valid_handle(objs: Seq<host::HostObject>, h: int) -> bool {
    0 <= h < objs.len()
}

} // verus!
