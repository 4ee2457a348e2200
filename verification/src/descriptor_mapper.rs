//! The descriptor encoder: reconstructs the four-level ownership chain
//! (site → board → thread → post) as nested host objects, resolving every
//! class name through the registry.
//!
//! The four classes are looked up before anything is constructed, so a
//! missing class aborts the whole encode with an error and leaves the host
//! object store untouched — never a partial object.

use vstd::prelude::*;
use vstd::string::{StringExecFns, StrSliceExecFns};
use crate::domain::{BridgeError, PostDescriptor, PostDescriptorV};
use crate::helpers::{format_descriptors_object_signature, spec_descriptors_class};
use crate::host::{
    HostEnv, HostField, HostObject, HostValue, no_nul, spec_get_long, spec_get_obj,
    spec_get_string, spec_has_class,
};

verus! {

broadcast use vstd::string::group_string_axioms;

/// What decoding a site-descriptor object yields: the site name.
pub open spec fn spec_read_site(objs: Seq<HostObject>, h: int) -> Option<Seq<char>> {
    if !crate::valid_handle(objs, h) {
        None
    } else if objs[h].class@ != spec_descriptors_class("SiteDescriptorNative"@) {
        None
    } else {
        match spec_get_string(objs[h].fields@, "siteName"@) {
            Ok(s) => Some(s),
            Err(_) => None,
        }
    }
}

/// What decoding a board-descriptor object yields: the site name of the
/// wrapped site descriptor, and the board code.
pub open spec fn spec_read_board(objs: Seq<HostObject>, h: int) -> Option<(Seq<char>, Seq<char>)> {
    if !crate::valid_handle(objs, h) {
        None
    } else if objs[h].class@ != spec_descriptors_class("BoardDescriptorNative"@) {
        None
    } else {
        match spec_get_obj(objs[h].fields@, "siteDescriptor"@) {
            Err(_) => None,
            Ok(sh) => match spec_read_site(objs, sh as int) {
                None => None,
                Some(site) => match spec_get_string(objs[h].fields@, "boardCode"@) {
                    Ok(board) => Some((site, board)),
                    Err(_) => None,
                },
            },
        }
    }
}

/// What decoding a thread-descriptor object yields: the identifiers of the
/// wrapped board descriptor, and the thread number.
pub open spec fn spec_read_thread(objs: Seq<HostObject>, h: int) -> Option<
    (Seq<char>, Seq<char>, u64),
> {
    if !crate::valid_handle(objs, h) {
        None
    } else if objs[h].class@ != spec_descriptors_class("ThreadDescriptorNative"@) {
        None
    } else {
        match spec_get_obj(objs[h].fields@, "boardDescriptor"@) {
            Err(_) => None,
            Ok(bh) => match spec_read_board(objs, bh as int) {
                None => None,
                Some((site, board)) => match spec_get_long(objs[h].fields@, "threadNo"@) {
                    Ok(tno) => Some((site, board, tno as u64)),
                    Err(_) => None,
                },
            },
        }
    }
}

/// What decoding a post-descriptor object yields: the whole identifying
/// tuple of the four-level chain.
pub open spec fn spec_read_post_descriptor(objs: Seq<HostObject>, h: int) -> Option<
    PostDescriptorV,
> {
    if !crate::valid_handle(objs, h) {
        None
    } else if objs[h].class@ != spec_descriptors_class("PostDescriptorNative"@) {
        None
    } else {
        match spec_get_obj(objs[h].fields@, "threadDescriptor"@) {
            Err(_) => None,
            Ok(th) => match spec_read_thread(objs, th as int) {
                None => None,
                Some((site, board, thread_no)) => match spec_get_long(
                    objs[h].fields@,
                    "postNo"@,
                ) {
                    Err(_) => None,
                    Ok(pno) => match spec_get_long(objs[h].fields@, "postSubNo"@) {
                        Err(_) => None,
                        Ok(psno) => Some(
                            PostDescriptorV {
                                site_name: site,
                                board_code: board,
                                thread_no: thread_no,
                                post_no: pno as u64,
                                post_sub_no: psno as u64,
                            },
                        ),
                    },
                },
            },
        }
    }
}

/// Whether the host has loaded all four descriptor classes.
pub open spec fn spec_descriptor_classes_loaded(classes: Seq<String>) -> bool {
    &&& spec_has_class(classes, spec_descriptors_class("SiteDescriptorNative"@))
    &&& spec_has_class(classes, spec_descriptors_class("BoardDescriptorNative"@))
    &&& spec_has_class(classes, spec_descriptors_class("ThreadDescriptorNative"@))
    &&& spec_has_class(classes, spec_descriptors_class("PostDescriptorNative"@))
}

/// Encodes the descriptor chain bottom-up as four nested host objects and
/// returns the handle of the post descriptor.
///
/// It succeeds exactly when the host has loaded the four descriptor
/// classes; otherwise nothing is constructed. Whenever the site name and
/// board code can cross the null-terminated string boundary without loss,
/// decoding the constructed chain yields back exactly the original
/// identifying tuple.
pub fn map_post_descriptor_to_jobject(env: &mut HostEnv, post_descriptor: &PostDescriptor) -> (r:
    Result<usize, BridgeError>)
    ensures
        final(env).classes == old(env).classes,
        r is Ok <==> spec_descriptor_classes_loaded(old(env).classes@),
        match r {
            Ok(h) => {
                &&& final(env).objects@.len() == old(env).objects@.len() + 4
                &&& final(env).objects@.subrange(0, old(env).objects@.len() as int) == old(
                    env,
                ).objects@
                &&& h == old(env).objects@.len() + 3
                &&& (no_nul(post_descriptor.site_name@) && no_nul(post_descriptor.board_code@))
                    ==> spec_read_post_descriptor(final(env).objects@, h as int) == Some(
                    post_descriptor@,
                )
            },
            Err(e) => e == BridgeError::HostConstructionError && final(env).objects@ == old(
                env,
            ).objects@,
        },
{
    let site_cls = format_descriptors_object_signature("SiteDescriptorNative");
    let board_cls = format_descriptors_object_signature("BoardDescriptorNative");
    let thread_cls = format_descriptors_object_signature("ThreadDescriptorNative");
    let post_cls = format_descriptors_object_signature("PostDescriptorNative");
    if !(env.has_class(site_cls.as_str()) && env.has_class(board_cls.as_str()) && env.has_class(
        thread_cls.as_str(),
    ) && env.has_class(post_cls.as_str())) {
        return Err(BridgeError::HostConstructionError);
    }

    let mut site_fields: Vec<HostField> = Vec::new();
    site_fields.push(
        HostField {
            name: String::from_str("siteName"),
            value: HostValue::Text(post_descriptor.site_name.as_str().as_bytes_vec()),
        },
    );
    let site_h = env.new_object(site_cls, site_fields);

    let mut board_fields: Vec<HostField> = Vec::new();
    board_fields.push(
        HostField { name: String::from_str("siteDescriptor"), value: HostValue::Obj(site_h) },
    );
    board_fields.push(
        HostField {
            name: String::from_str("boardCode"),
            value: HostValue::Text(post_descriptor.board_code.as_str().as_bytes_vec()),
        },
    );
    let board_h = env.new_object(board_cls, board_fields);

    let mut thread_fields: Vec<HostField> = Vec::new();
    thread_fields.push(
        HostField { name: String::from_str("boardDescriptor"), value: HostValue::Obj(board_h) },
    );
    thread_fields.push(
        HostField {
            name: String::from_str("threadNo"),
            value: HostValue::Long(post_descriptor.thread_no as i64),
        },
    );
    let thread_h = env.new_object(thread_cls, thread_fields);

    let mut post_fields: Vec<HostField> = Vec::new();
    post_fields.push(
        HostField { name: String::from_str("threadDescriptor"), value: HostValue::Obj(thread_h) },
    );
    post_fields.push(
        HostField {
            name: String::from_str("postNo"),
            value: HostValue::Long(post_descriptor.post_no as i64),
        },
    );
    post_fields.push(
        HostField {
            name: String::from_str("postSubNo"),
            value: HostValue::Long(post_descriptor.post_sub_no as i64),
        },
    );
    let post_h = env.new_object(post_cls, post_fields);

    proof {
        reveal_with_fuel(crate::host::lookup_field, 4);
        reveal_strlit("siteName");
        reveal_strlit("siteDescriptor");
        reveal_strlit("boardCode");
        reveal_strlit("boardDescriptor");
        reveal_strlit("threadNo");
        reveal_strlit("threadDescriptor");
        reveal_strlit("postNo");
        reveal_strlit("postSubNo");
        assert("siteDescriptor"@.len() == 14);
        assert("boardCode"@.len() == 9);
        assert("boardDescriptor"@.len() == 15);
        assert("threadNo"@.len() == 8);
        assert("threadDescriptor"@.len() == 16);
        assert("postNo"@.len() == 6);
        assert("postSubNo"@.len() == 9);
        assert("siteDescriptor"@ != "boardCode"@);
        assert("boardDescriptor"@ != "threadNo"@);
        assert("threadDescriptor"@ != "postNo"@);
        assert("threadDescriptor"@ != "postSubNo"@);
        assert("postNo"@ != "postSubNo"@);
        let objs = final(env).objects@;
        if no_nul(post_descriptor.site_name@) && no_nul(post_descriptor.board_code@) {
            crate::host::lemma_text_round_trip(post_descriptor.site_name@);
            crate::host::lemma_text_round_trip(post_descriptor.board_code@);
            lemma_long_round_trip(post_descriptor.thread_no);
            lemma_long_round_trip(post_descriptor.post_no);
            lemma_long_round_trip(post_descriptor.post_sub_no);
            assert(spec_read_site(objs, site_h as int) == Some(post_descriptor.site_name@));
            assert(spec_read_board(objs, board_h as int) == Some(
                (post_descriptor.site_name@, post_descriptor.board_code@),
            ));
            assert(spec_read_thread(objs, thread_h as int) == Some(
                (
                    post_descriptor.site_name@,
                    post_descriptor.board_code@,
                    post_descriptor.thread_no,
                ),
            ));
            assert(spec_read_post_descriptor(objs, post_h as int) == Some(post_descriptor@));
        }
        assert(objs.subrange(0, old(env).objects@.len() as int) =~= old(env).objects@);
    }
    Ok(post_h)
}

/// Decodes an encoded descriptor chain back into its identifying tuple; any
/// shape mismatch is a type error.
pub fn map_jobject_to_post_descriptor(env: &HostEnv, h: usize) -> (r: Result<
    PostDescriptor,
    BridgeError,
>)
    ensures
        match r {
            Ok(d) => spec_read_post_descriptor(env.objects@, h as int) == Some(d@),
            Err(e) => e == BridgeError::TypeMismatch && spec_read_post_descriptor(
                env.objects@,
                h as int,
            ) is None,
        },
{
    let post_obj = match check_class(env, h, "PostDescriptorNative") {
        Some(o) => o,
        None => {
            return Err(BridgeError::TypeMismatch);
        },
    };
    let thread_h = match crate::host::get_obj_field(post_obj, "threadDescriptor") {
        Ok(x) => x,
        Err(_) => {
            return Err(BridgeError::TypeMismatch);
        },
    };
    let post_no = match crate::host::get_long_field(post_obj, "postNo") {
        Ok(x) => x,
        Err(_) => {
            return Err(BridgeError::TypeMismatch);
        },
    };
    let post_sub_no = match crate::host::get_long_field(post_obj, "postSubNo") {
        Ok(x) => x,
        Err(_) => {
            return Err(BridgeError::TypeMismatch);
        },
    };

    let thread_obj = match check_class(env, thread_h, "ThreadDescriptorNative") {
        Some(o) => o,
        None => {
            return Err(BridgeError::TypeMismatch);
        },
    };
    let board_h = match crate::host::get_obj_field(thread_obj, "boardDescriptor") {
        Ok(x) => x,
        Err(_) => {
            return Err(BridgeError::TypeMismatch);
        },
    };
    let thread_no = match crate::host::get_long_field(thread_obj, "threadNo") {
        Ok(x) => x,
        Err(_) => {
            return Err(BridgeError::TypeMismatch);
        },
    };

    let board_obj = match check_class(env, board_h, "BoardDescriptorNative") {
        Some(o) => o,
        None => {
            return Err(BridgeError::TypeMismatch);
        },
    };
    let site_h = match crate::host::get_obj_field(board_obj, "siteDescriptor") {
        Ok(x) => x,
        Err(_) => {
            return Err(BridgeError::TypeMismatch);
        },
    };
    let board_code = match crate::helpers::java_string_field_to_rust_string(
        board_obj,
        "boardCode",
    ) {
        Ok(s) => s,
        Err(_) => {
            return Err(BridgeError::TypeMismatch);
        },
    };

    let site_obj = match check_class(env, site_h, "SiteDescriptorNative") {
        Some(o) => o,
        None => {
            return Err(BridgeError::TypeMismatch);
        },
    };
    let site_name = match crate::helpers::java_string_field_to_rust_string(site_obj, "siteName") {
        Ok(s) => s,
        Err(_) => {
            return Err(BridgeError::TypeMismatch);
        },
    };

    Ok(
        PostDescriptor {
            site_name,
            board_code,
            thread_no: thread_no as u64,
            post_no: post_no as u64,
            post_sub_no: post_sub_no as u64,
        },
    )
}

/// A 64-bit identifier survives the round trip through the host's signed
/// 64-bit integer representation.
pub proof fn lemma_long_round_trip(x: u64)
    ensures
        (x as i64) as u64 == x,
{
    assert((x as i64) as u64 == x) by (bit_vector);
}

/// The object a handle addresses, provided it has the given descriptor
/// class.
fn check_class<'a>(env: &'a HostEnv, h: usize, short_name: &str) -> (r: Option<&'a HostObject>)
    ensures
        match r {
            Some(o) => crate::valid_handle(env.objects@, h as int) && *o == env.objects@[h as int]
                && o.class@ == spec_descriptors_class(short_name@),
            None => !crate::valid_handle(env.objects@, h as int) || env.objects@[h as int].class@
                != spec_descriptors_class(short_name@),
        },
{
    let obj = match env.obj_at(h) {
        Some(o) => o,
        None => {
            return None;
        },
    };
    let expected = format_descriptors_object_signature(short_name);
    if crate::host::str_eq(obj.class.as_str(), expected.as_str()) {
        Some(obj)
    } else {
        None
    }
}

} // verus!
