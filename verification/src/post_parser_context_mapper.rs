//! Request assembly: decoding the host's parsing-context object.

use vstd::prelude::*;
use crate::domain::{BridgeError, PostParserContext, PostParserContextV};
use crate::host::{
    HostEnv, HostField, spec_get_string, spec_get_long, spec_get_long_array,
};

verus! {

/// The identifiers a host 64-bit integer array carries, as a membership set.
pub open spec fn spec_ids_of(a: Seq<i64>) -> Set<u64> {
    a.map_values(|x: i64| x as u64).to_set()
}

/// What decoding the host's parsing-context object yields: its four
/// scalar/string fields and its two identifier arrays, read in schema order,
/// with the first failing field deciding the error.
pub open spec fn spec_read_context(fields: Seq<HostField>) -> Result<
    PostParserContextV,
    BridgeError,
> {
    match spec_get_string(fields, "siteName"@) {
        Err(e) => Err(e),
        Ok(site_name) => match spec_get_string(fields, "boardCode"@) {
            Err(e) => Err(e),
            Ok(board_code) => match spec_get_long(fields, "threadId"@) {
                Err(e) => Err(e),
                Ok(thread_id) => match spec_get_long_array(fields, "threadPosts"@) {
                    Err(e) => Err(e),
                    Ok(thread_posts) => match spec_get_long_array(
                        fields,
                        "myRepliesInThread"@,
                    ) {
                        Err(e) => Err(e),
                        Ok(my_replies) => Ok(
                            PostParserContextV {
                                site_name,
                                board_code,
                                thread_id: thread_id as u64,
                                thread_posts: spec_ids_of(thread_posts),
                                my_replies_in_thread: spec_ids_of(my_replies),
                            },
                        ),
                    },
                },
            },
        },
    }
}

/// Copies a host 64-bit integer array into native identifiers, read-only.
fn long_array_to_ids(a: &Vec<i64>) -> (r: Vec<u64>)
    ensures
        r@ == a@.map_values(|x: i64| x as u64),
{
    let mut out: Vec<u64> = Vec::new();
    let mut i: usize = 0;
    while i < a.len()
        invariant
            0 <= i <= a@.len(),
            out@ =~= a@.take(i as int).map_values(|x: i64| x as u64),
        decreases a@.len() - i,
    {
        out.push(a[i] as u64);
        proof {
            assert(a@.take(i as int + 1).map_values(|x: i64| x as u64) =~= a@.take(
                i as int,
            ).map_values(|x: i64| x as u64).push(a@[i as int] as u64));
        }
        i = i + 1;
    }
    proof {
        assert(a@.take(a@.len() as int) =~= a@);
    }
    out
}

/// Builds the native parsing context from the host's context object.
///
/// The error is exactly what [`spec_read_context`] gives for the object's
/// fields; an invalid handle is an internal fault.
pub fn from_java_object(env: &HostEnv, post_parser_context: usize) -> (r: Result<
    PostParserContext,
    BridgeError,
>)
    ensures
        match r {
            Ok(c) => crate::valid_handle(env.objects@, post_parser_context as int)
                && spec_read_context(env.objects@[post_parser_context as int].fields@) == Ok::<
                PostParserContextV,
                BridgeError,
            >(c@),
            Err(e) => {
                if crate::valid_handle(env.objects@, post_parser_context as int) {
                    spec_read_context(env.objects@[post_parser_context as int].fields@) == Err::<
                        PostParserContextV,
                        BridgeError,
                    >(e)
                } else {
                    e == BridgeError::InternalFault
                }
            },
        },
{
    let obj = match env.obj_at(post_parser_context) {
        Some(o) => o,
        None => {
            return Err(BridgeError::InternalFault);
        },
    };
    let site_name = match crate::helpers::java_string_field_to_rust_string(obj, "siteName") {
        Ok(s) => s,
        Err(e) => {
            return Err(e);
        },
    };
    let board_code = match crate::helpers::java_string_field_to_rust_string(obj, "boardCode") {
        Ok(s) => s,
        Err(e) => {
            return Err(e);
        },
    };
    let thread_id = match crate::host::get_long_field(obj, "threadId") {
        Ok(x) => x,
        Err(e) => {
            return Err(e);
        },
    };
    let thread_posts = match crate::host::get_long_array_field(obj, "threadPosts") {
        Ok(a) => long_array_to_ids(a),
        Err(e) => {
            return Err(e);
        },
    };
    let my_replies_in_thread = match crate::host::get_long_array_field(obj, "myRepliesInThread") {
        Ok(a) => long_array_to_ids(a),
        Err(e) => {
            return Err(e);
        },
    };
    Ok(
        PostParserContext {
            site_name,
            board_code,
            thread_id: thread_id as u64,
            thread_posts,
            my_replies_in_thread,
        },
    )
}

} // verus!
