//! The main bridge call, split at the engine boundary: assembling the
//! engine's input from the host's objects, and assembling the host-visible
//! result from the engine's output.
//!
//! The parsing engine itself is an external collaborator; the surrounding
//! runtime performs the per-post `parse` calls between the two phases and
//! hands the results back, in input order.

use vstd::prelude::*;
use vstd::string::StringExecFns;
use crate::domain::{
    BridgeError, ParsedPost, ParsedPostV, PostParserContext, PostParserContextV, PostRawV,
    ThreadRaw,
};
use crate::helpers::{format_post_parsing_object_signature, spec_post_parsing_class};
use crate::host::{
    HostEnv, HostField, HostObject, HostValue, spec_get_obj_array, spec_has_class,
};
use crate::post_parsed_mapper::{
    map_to_post_parsed, spec_post_parsed_classes_needed, spec_read_post_parsed,
    lemma_read_post_parsed_stable, text_safe_post,
};
use crate::post_parser_context_mapper::spec_read_context;
use crate::thread_raw_mapper::spec_read_thread_raw;

verus! {

/// What decoding the context object at a handle yields; an invalid handle is
/// an internal fault.
pub open spec fn spec_read_context_at(objs: Seq<HostObject>, h: int) -> Result<
    PostParserContextV,
    BridgeError,
> {
    if !crate::valid_handle(objs, h) {
        Err(BridgeError::InternalFault)
    } else {
        spec_read_context(objs[h].fields@)
    }
}

/// What assembling the engine's whole input yields: the context first, then
/// the raw thread; the first failing decode decides the error.
pub open spec fn spec_assemble(objs: Seq<HostObject>, ctx_h: int, thread_h: int) -> Result<
    (PostParserContextV, Seq<PostRawV>),
    BridgeError,
> {
    match spec_read_context_at(objs, ctx_h) {
        Err(e) => Err(e),
        Ok(c) => match spec_read_thread_raw(objs, thread_h) {
            Err(e) => Err(e),
            Ok(t) => Ok((c, t)),
        },
    }
}

/// Decodes the host's context and raw-thread objects into the engine's two
/// input structures. Nothing is read twice and nothing host-side is
/// mutated; the first failing field decides the error.
pub fn assemble_parse_request(
    env: &HostEnv,
    post_parser_context: usize,
    threads_to_parse: usize,
) -> (r: Result<(PostParserContext, ThreadRaw), BridgeError>)
    ensures
        match r {
            Ok(req) => spec_assemble(
                env.objects@,
                post_parser_context as int,
                threads_to_parse as int,
            ) == Ok::<(PostParserContextV, Seq<PostRawV>), BridgeError>((req.0@, req.1@)),
            Err(e) => spec_assemble(
                env.objects@,
                post_parser_context as int,
                threads_to_parse as int,
            ) == Err::<(PostParserContextV, Seq<PostRawV>), BridgeError>(e),
        },
{
    let context = match crate::post_parser_context_mapper::from_java_object(
        env,
        post_parser_context,
    ) {
        Ok(c) => c,
        Err(e) => {
            return Err(e);
        },
    };
    let thread_raw = match crate::thread_raw_mapper::from_java_object(env, threads_to_parse) {
        Ok(t) => t,
        Err(e) => {
            return Err(e);
        },
    };
    Ok((context, thread_raw))
}

/// Whether the host has loaded every class the encoding of this result list
/// needs. A post without a parsed comment becomes a null marker and needs no
/// class at all.
pub open spec fn spec_thread_parsed_classes_needed(
    classes: Seq<String>,
    ps: Seq<ParsedPostV>,
) -> bool {
    &&& spec_has_class(classes, spec_post_parsing_class("ThreadParsed"@))
    &&& forall|i: int|
        0 <= i < ps.len() ==> (ps[i].post_comment_parsed is Some
            ==> spec_post_parsed_classes_needed(classes, ps[i]))
}

/// Assembles the host-visible result envelope: one array sized exactly to
/// the engine's result count, whose element `i` is the encoding of result
/// `i` — or the null marker when the engine produced no parsed comment for
/// that post — attached to a fresh result envelope object.
///
/// It succeeds exactly when the host has loaded every class the list needs;
/// otherwise nothing is constructed.
pub fn map_thread_parsed(env: &mut HostEnv, parsed_posts: &Vec<ParsedPost>) -> (r: Result<
    usize,
    BridgeError,
>)
    ensures
        final(env).classes == old(env).classes,
        old(env).objects@.is_prefix_of(final(env).objects@),
        r is Ok <==> spec_thread_parsed_classes_needed(
            old(env).classes@,
            parsed_posts@.map_values(|p: ParsedPost| p@),
        ),
        match r {
            Ok(h) => {
                &&& h < final(env).objects@.len()
                &&& final(env).objects@[h as int].class@ == spec_post_parsing_class(
                    "ThreadParsed"@,
                )
                &&& (spec_get_obj_array(
                    final(env).objects@[h as int].fields@,
                    "postParsedList"@,
                ) matches Ok(arr) && {
                    let views = parsed_posts@.map_values(|p: ParsedPost| p@);
                    &&& arr.len() == parsed_posts@.len()
                    &&& forall|i: int|
                        0 <= i < arr.len() ==> (arr[i] is None <==> views[i].post_comment_parsed
                            is None)
                    &&& forall|i: int|
                        0 <= i < arr.len() ==> (views[i].post_comment_parsed is Some
                            && text_safe_post(views[i]) ==> arr[i] is Some
                            && spec_read_post_parsed(
                            final(env).objects@,
                            arr[i].unwrap() as int,
                        ) == Some(views[i]))
                })
            },
            Err(e) => e == BridgeError::HostConstructionError && final(env).objects@ == old(
                env,
            ).objects@,
        },
{
    let ghost views = parsed_posts@.map_values(|p: ParsedPost| p@);
    let thread_cls = format_post_parsing_object_signature("ThreadParsed");
    if !env.has_class(thread_cls.as_str()) {
        return Err(BridgeError::HostConstructionError);
    }
    let n = parsed_posts.len();
    let mut i: usize = 0;
    while i < n
        invariant
            n == parsed_posts@.len(),
            views == parsed_posts@.map_values(|p: ParsedPost| p@),
            0 <= i <= n,
            env.classes == old(env).classes,
            env.objects == old(env).objects,
            forall|j: int|
                0 <= j < i ==> (views[j].post_comment_parsed is Some
                    ==> spec_post_parsed_classes_needed(env.classes@, views[j])),
        decreases n - i,
    {
        if parsed_posts[i].post_comment_parsed.is_some() {
            if !check_post_parsed_classes(env, &parsed_posts[i]) {
                proof {
                    assert(views[i as int] == parsed_posts@[i as int]@);
                }
                return Err(BridgeError::HostConstructionError);
            }
        }
        proof {
            assert(views[i as int] == parsed_posts@[i as int]@);
        }
        i = i + 1;
    }
    let mut out: Vec<Option<usize>> = Vec::new();
    let mut k: usize = 0;
    while k < n
        invariant
            n == parsed_posts@.len(),
            views == parsed_posts@.map_values(|p: ParsedPost| p@),
            0 <= k <= n,
            out@.len() == k,
            env.classes == old(env).classes,
            old(env).objects@.is_prefix_of(env.objects@),
            forall|j: int|
                0 <= j < n ==> (views[j].post_comment_parsed is Some
                    ==> spec_post_parsed_classes_needed(env.classes@, views[j])),
            forall|j: int|
                0 <= j < k ==> (out@[j] is None <==> views[j].post_comment_parsed is None),
            forall|j: int|
                0 <= j < k ==> (views[j].post_comment_parsed is Some && text_safe_post(views[j])
                    ==> out@[j] is Some && spec_read_post_parsed(
                    env.objects@,
                    out@[j].unwrap() as int,
                ) == Some(views[j])),
        decreases n - k,
    {
        proof {
            assert(views[k as int] == parsed_posts@[k as int]@);
        }
        if parsed_posts[k].post_comment_parsed.is_some() {
            let ghost prev = env.objects@;
            let h = match map_to_post_parsed(env, &parsed_posts[k]) {
                Ok(h) => h,
                Err(_) => {
                    proof {
                        assert(false);
                    }
                    return Err(BridgeError::InternalFault);
                },
            };
            out.push(Some(h));
            proof {
                assert forall|j: int|
                    0 <= j < k && views[j].post_comment_parsed is Some && text_safe_post(
                        views[j],
                    ) implies out@[j] is Some && spec_read_post_parsed(
                    env.objects@,
                    out@[j].unwrap() as int,
                ) == Some(views[j]) by {
                    lemma_read_post_parsed_stable(prev, env.objects@, out@[j].unwrap() as int);
                }
            }
        } else {
            out.push(None);
        }
        k = k + 1;
    }
    let ghost objs_with_posts = env.objects@;
    let ghost arr_view = out@;
    let mut fs: Vec<HostField> = Vec::new();
    fs.push(
        HostField { name: String::from_str("postParsedList"), value: HostValue::ObjArray(out) },
    );
    let h = env.new_object(thread_cls, fs);
    proof {
        reveal_with_fuel(crate::host::lookup_field, 2);
        assert forall|j: int|
            0 <= j < n && views[j].post_comment_parsed is Some && text_safe_post(
                views[j],
            ) implies arr_view[j] is Some && spec_read_post_parsed(
            final(env).objects@,
            arr_view[j].unwrap() as int,
        ) == Some(views[j]) by {
            lemma_read_post_parsed_stable(
                objs_with_posts,
                final(env).objects@,
                arr_view[j].unwrap() as int,
            );
        }
    }
    Ok(h)
}

/// Whether the host has loaded every class the encoding of this one parsed
/// post needs.
fn check_post_parsed_classes(env: &HostEnv, p: &ParsedPost) -> (r: bool)
    ensures
        r == spec_post_parsed_classes_needed(env.classes@, p@),
{
    let post_cls = format_post_parsing_object_signature("PostParsed");
    if !env.has_class(post_cls.as_str()) {
        return false;
    }
    match &p.post_comment_parsed {
        None => true,
        Some(comment) => {
            let text_cls = format_post_parsing_object_signature("ParsedSpannableText");
            if !env.has_class(text_cls.as_str()) {
                return false;
            }
            let envelope_cls = crate::helpers::format_spannables_object_signature(
                "PostCommentSpannable",
            );
            if !env.has_class(envelope_cls.as_str()) {
                return false;
            }
            let n = comment.spannables.len();
            let mut i: usize = 0;
            while i < n
                invariant
                    n == comment.spannables@.len(),
                    0 <= i <= n,
                    p@.post_comment_parsed == Some(comment@),
                    spec_has_class(env.classes@, spec_post_parsing_class("PostParsed"@)),
                    spec_has_class(env.classes@, spec_post_parsing_class("ParsedSpannableText"@)),
                    spec_has_class(
                        env.classes@,
                        crate::helpers::spec_spannables_class("PostCommentSpannable"@),
                    ),
                    forall|j: int|
                        0 <= j < i ==> spec_has_class(
                            env.classes@,
                            crate::post_parsed_mapper::spec_spannable_data_class(
                                comment.spannables@[j]@.spannable_data,
                            ),
                        ),
                decreases n - i,
            {
                let cls = crate::post_parsed_mapper::spannable_data_class_name(
                    &comment.spannables[i].spannable_data,
                );
                if !env.has_class(cls.as_str()) {
                    proof {
                        let sps = comment.spannables@.map_values(
                            |s: crate::domain::Spannable| s@,
                        );
                        assert(sps[i as int] == comment.spannables@[i as int]@);
                    }
                    return false;
                }
                i = i + 1;
            }
            proof {
                let sps = comment.spannables@.map_values(|s: crate::domain::Spannable| s@);
                assert forall|j: int| 0 <= j < sps.len() implies spec_has_class(
                    env.classes@,
                    crate::post_parsed_mapper::spec_spannable_data_class(sps[j].spannable_data),
                ) by {
                    assert(sps[j] == comment.spannables@[j]@);
                }
            }
            true
        },
    }
}

} // verus!
