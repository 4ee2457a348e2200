//! Request assembly: decoding the host's raw-thread object into the ordered
//! list of raw posts.
//!
//! An absent post-list field is an error, not an empty thread; a present
//! list of zero elements is a valid, empty thread. A failure to decode one
//! post's optional comment degrades that post to "no comment" instead of
//! aborting the whole request — the identifiers are still required.

use vstd::prelude::*;
use crate::domain::{BridgeError, PostRaw, PostRawV, ThreadRaw};
use crate::host::{HostEnv, HostField, HostObject, spec_get_long, spec_get_obj_array, spec_get_string};

verus! {

/// What decoding one raw-post object yields: its identifiers, which are
/// required, and its comment, which degrades to absent on any decode
/// failure.
pub open spec fn spec_read_post_raw(fields: Seq<HostField>) -> Result<PostRawV, BridgeError> {
    match spec_get_long(fields, "postId"@) {
        Err(e) => Err(e),
        Ok(post_id) => match spec_get_long(fields, "postSubId"@) {
            Err(e) => Err(e),
            Ok(post_sub_id) => Ok(
                PostRawV {
                    post_id: post_id as u64,
                    post_sub_id: post_sub_id as u64,
                    comment: match spec_get_string(fields, "comment"@) {
                        Ok(c) => Some(c),
                        Err(_) => None,
                    },
                },
            ),
        },
    }
}

/// What decoding the elements of the host's post array yields, in order; a
/// null element or an invalid handle is an error, and the first failing
/// element decides it.
pub open spec fn spec_read_posts(objs: Seq<HostObject>, arr: Seq<Option<usize>>) -> Result<
    Seq<PostRawV>,
    BridgeError,
>
    decreases arr.len(),
{
    if arr.len() == 0 {
        Ok(Seq::<PostRawV>::empty())
    } else {
        match arr[0] {
            None => Err(BridgeError::FieldNotFound),
            Some(ph) => {
                if !crate::valid_handle(objs, ph as int) {
                    Err(BridgeError::InternalFault)
                } else {
                    match spec_read_post_raw(objs[ph as int].fields@) {
                        Err(e) => Err(e),
                        Ok(p) => match spec_read_posts(objs, arr.drop_first()) {
                            Err(e) => Err(e),
                            Ok(rest) => Ok(seq![p] + rest),
                        },
                    }
                }
            },
        }
    }
}

/// What decoding the host's raw-thread object yields: the ordered raw posts
/// of its post-list field.
pub open spec fn spec_read_thread_raw(objs: Seq<HostObject>, h: int) -> Result<
    Seq<PostRawV>,
    BridgeError,
> {
    if !crate::valid_handle(objs, h) {
        Err(BridgeError::InternalFault)
    } else {
        match spec_get_obj_array(objs[h].fields@, "postToParseList"@) {
            Err(e) => Err(e),
            Ok(arr) => spec_read_posts(objs, arr),
        }
    }
}

/// Decodes one raw-post object.
fn post_raw_object_to_post_raw(post_raw_object: &HostObject) -> (r: Result<PostRaw, BridgeError>)
    ensures
        match r {
            Ok(p) => spec_read_post_raw(post_raw_object.fields@) == Ok::<PostRawV, BridgeError>(
                p@,
            ),
            Err(e) => spec_read_post_raw(post_raw_object.fields@) == Err::<PostRawV, BridgeError>(
                e,
            ),
        },
{
    let post_id = match crate::host::get_long_field(post_raw_object, "postId") {
        Ok(x) => x,
        Err(e) => {
            return Err(e);
        },
    };
    let post_sub_id = match crate::host::get_long_field(post_raw_object, "postSubId") {
        Ok(x) => x,
        Err(e) => {
            return Err(e);
        },
    };
    let comment = match crate::helpers::java_string_field_to_rust_string(
        post_raw_object,
        "comment",
    ) {
        Ok(c) => Some(c),
        Err(_) => None,
    };
    Ok(PostRaw { post_id: post_id as u64, post_sub_id: post_sub_id as u64, comment })
}

/// Builds the native raw thread from the host's thread object, preserving
/// the host array's order: native post `i` comes from host element `i`.
pub fn from_java_object(env: &HostEnv, threads_to_parse: usize) -> (r: Result<
    ThreadRaw,
    BridgeError,
>)
    ensures
        match r {
            Ok(t) => spec_read_thread_raw(env.objects@, threads_to_parse as int) == Ok::<
                Seq<PostRawV>,
                BridgeError,
            >(t@),
            Err(e) => spec_read_thread_raw(env.objects@, threads_to_parse as int) == Err::<
                Seq<PostRawV>,
                BridgeError,
            >(e),
        },
{
    let obj = match env.obj_at(threads_to_parse) {
        Some(o) => o,
        None => {
            return Err(BridgeError::InternalFault);
        },
    };
    let arr = match crate::host::get_obj_array_field(obj, "postToParseList") {
        Ok(a) => a,
        Err(e) => {
            return Err(e);
        },
    };
    let n = arr.len();
    let mut posts: Vec<PostRaw> = Vec::new();
    let mut i: usize = 0;
    proof {
        assert(arr@.skip(0) =~= arr@);
        assert(posts@.map_values(|p: PostRaw| p@) =~= Seq::<PostRawV>::empty());
    }
    while i < n
        invariant
            n == arr@.len(),
            0 <= i <= n,
            crate::valid_handle(env.objects@, threads_to_parse as int),
            spec_get_obj_array(
                env.objects@[threads_to_parse as int].fields@,
                "postToParseList"@,
            ) == Ok::<Seq<Option<usize>>, BridgeError>(arr@),
            spec_read_posts(env.objects@, arr@) == (match spec_read_posts(
                env.objects@,
                arr@.skip(i as int),
            ) {
                Ok(rest) => Ok::<Seq<PostRawV>, BridgeError>(
                    posts@.map_values(|p: PostRaw| p@) + rest,
                ),
                Err(e) => Err::<Seq<PostRawV>, BridgeError>(e),
            }),
        decreases n - i,
    {
        proof {
            assert(arr@.skip(i as int)[0] == arr@[i as int]);
            assert(arr@.skip(i as int).drop_first() =~= arr@.skip(i as int + 1));
        }
        let ghost tail = arr@.skip(i as int);
        let ph = match &arr[i] {
            Some(ph) => *ph,
            None => {
                proof {
                    assert(tail.len() > 0 && tail[0] is None);
                    assert(spec_read_posts(env.objects@, tail) == Err::<
                        Seq<PostRawV>,
                        BridgeError,
                    >(BridgeError::FieldNotFound));
                }
                return Err(BridgeError::FieldNotFound);
            },
        };
        let post_obj = match env.obj_at(ph) {
            Some(o) => o,
            None => {
                proof {
                    assert(spec_read_posts(env.objects@, tail) == Err::<
                        Seq<PostRawV>,
                        BridgeError,
                    >(BridgeError::InternalFault));
                }
                return Err(BridgeError::InternalFault);
            },
        };
        let post = match post_raw_object_to_post_raw(post_obj) {
            Ok(p) => p,
            Err(e) => {
                proof {
                    assert(spec_read_posts(env.objects@, tail) == Err::<
                        Seq<PostRawV>,
                        BridgeError,
                    >(e));
                }
                return Err(e);
            },
        };
        let ghost prev = posts@;
        posts.push(post);
        proof {
            assert(posts@.map_values(|p: PostRaw| p@) =~= prev.map_values(|p: PostRaw| p@).push(
                post@,
            ));
            if let Ok(rest2) = spec_read_posts(env.objects@, arr@.skip(i as int + 1)) {
                assert(prev.map_values(|p: PostRaw| p@) + (seq![post@] + rest2) =~= posts@
                    .map_values(|p: PostRaw| p@) + rest2);
            }
        }
        i = i + 1;
    }
    proof {
        assert(arr@.skip(n as int) =~= Seq::<Option<usize>>::empty());
        assert(posts@.map_values(|p: PostRaw| p@) + Seq::<PostRawV>::empty() =~= posts@.map_values(
            |p: PostRaw| p@,
        ));
    }
    Ok(ThreadRaw { posts })
}

} // verus!
