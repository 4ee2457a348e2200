//! The spannable variant encoder and the per-post response encoder.
//!
//! Each of the sixteen annotation variants maps to a distinct host subtype
//! under one shared polymorphic capability, resolved through the registry;
//! every variant object is wrapped in a span-carrying envelope holding
//! `(start, length, variant)`, appended in input order.

use vstd::prelude::*;
use vstd::string::{StringExecFns, StrSliceExecFns};
use vstd::utf8::encode_utf8;
use crate::domain::{
    BridgeError, ParsedComment, ParsedCommentV, ParsedPost, ParsedPostV, Spannable, SpannableData,
    SpannableDataV, SpannableV,
};
use crate::helpers::{
    format_spannables_object_signature, format_post_parsing_object_signature,
    spec_post_parsing_class, spec_spannables_class,
};
use crate::host::{
    HostEnv, HostField, HostObject, HostValue, lookup_field, no_nul, spec_get_int, spec_get_long,
    spec_get_obj, spec_get_obj_array, spec_get_string, spec_has_class,
};

verus! {

broadcast use vstd::string::group_string_axioms;

/// The short logical name of an annotation variant's host subtype.
pub open spec fn spec_variant_short(d: SpannableDataV) -> Seq<char> {
    match d {
        SpannableDataV::Quote { .. } => "Quote"@,
        SpannableDataV::DeadQuote { .. } => "DeadQuote"@,
        SpannableDataV::UrlLink { .. } => "UrlLink"@,
        SpannableDataV::BoardLink { .. } => "BoardLink"@,
        SpannableDataV::SearchLink { .. } => "SearchLink"@,
        SpannableDataV::ThreadLink { .. } => "ThreadLink"@,
        SpannableDataV::Spoiler => "Spoiler"@,
        SpannableDataV::GreenText => "GreenText"@,
        SpannableDataV::BoldText => "BoldText"@,
        SpannableDataV::FontSize { .. } => "FontSize"@,
        SpannableDataV::FontWeight { .. } => "FontWeight"@,
        SpannableDataV::Monospace => "Monospace"@,
        SpannableDataV::TextForegroundColorRaw { .. } => "TextForegroundColorRaw"@,
        SpannableDataV::TextBackgroundColorRaw { .. } => "TextBackgroundColorRaw"@,
        SpannableDataV::TextForegroundColorId { .. } => "TextForegroundColorId"@,
        SpannableDataV::TextBackgroundColorId { .. } => "TextBackgroundColorId"@,
    }
}

/// The fully-qualified host class of an annotation variant: a subtype of the
/// shared spannable-data capability.
pub open spec fn spec_variant_class(short: Seq<char>) -> Seq<char> {
    spec_spannables_class("IPostCommentSpannableData$"@ + short)
}

/// The fully-qualified host class of an annotation variant.
pub open spec fn spec_spannable_data_class(d: SpannableDataV) -> Seq<char> {
    spec_variant_class(spec_variant_short(d))
}

/// Whether a variant's text payloads can cross the null-terminated string
/// boundary without loss.
pub open spec fn text_safe_data(d: SpannableDataV) -> bool {
    match d {
        SpannableDataV::UrlLink { link } => no_nul(link),
        SpannableDataV::BoardLink { board_code } => no_nul(board_code),
        SpannableDataV::SearchLink { board_code, search_query } => no_nul(board_code) && no_nul(
            search_query,
        ),
        SpannableDataV::ThreadLink { board_code, .. } => no_nul(board_code),
        SpannableDataV::FontSize { size } => no_nul(size),
        SpannableDataV::FontWeight { weight } => no_nul(weight),
        SpannableDataV::TextForegroundColorRaw { color_hex } => no_nul(color_hex),
        SpannableDataV::TextBackgroundColorRaw { color_hex } => no_nul(color_hex),
        _ => true,
    }
}

/// Whether an annotation's text payloads are boundary-safe.
pub open spec fn text_safe_spannable(s: SpannableV) -> bool {
    text_safe_data(s.spannable_data)
}

/// Whether a parsed comment's texts and annotations are boundary-safe.
pub open spec fn text_safe_comment(c: ParsedCommentV) -> bool {
    &&& no_nul(c.original_text)
    &&& no_nul(c.parsed_text)
    &&& forall|i: int| 0 <= i < c.spannables.len() ==> text_safe_spannable(c.spannables[i])
}

/// Whether a parsed post's comment, if any, is boundary-safe.
pub open spec fn text_safe_post(p: ParsedPostV) -> bool {
    match p.post_comment_parsed {
        None => true,
        Some(c) => text_safe_comment(c),
    }
}

/// Whether a host object's payload fields carry exactly the given variant's
/// payload values.
pub open spec fn spec_data_fields_match(fields: Seq<HostField>, d: SpannableDataV) -> bool {
    match d {
        SpannableDataV::Quote { post_no } => lookup_field(fields, "postNo"@) == Some(
            HostValue::Long(post_no as i64),
        ),
        SpannableDataV::DeadQuote { post_no } => lookup_field(fields, "postNo"@) == Some(
            HostValue::Long(post_no as i64),
        ),
        SpannableDataV::UrlLink { link } => lookup_field(fields, "link"@) matches Some(
            HostValue::Text(b),
        ) && b@ == encode_utf8(link),
        SpannableDataV::BoardLink { board_code } => lookup_field(fields, "boardCode"@) matches Some(
            HostValue::Text(b),
        ) && b@ == encode_utf8(board_code),
        SpannableDataV::SearchLink { board_code, search_query } => {
            &&& lookup_field(fields, "boardCode"@) matches Some(HostValue::Text(b)) && b@
                == encode_utf8(board_code)
            &&& lookup_field(fields, "searchQuery"@) matches Some(HostValue::Text(b2)) && b2@
                == encode_utf8(search_query)
        },
        SpannableDataV::ThreadLink { board_code, thread_no, post_no } => {
            &&& lookup_field(fields, "boardCode"@) matches Some(HostValue::Text(b)) && b@
                == encode_utf8(board_code)
            &&& lookup_field(fields, "threadNo"@) == Some(HostValue::Long(thread_no as i64))
            &&& lookup_field(fields, "postNo"@) == Some(HostValue::Long(post_no as i64))
        },
        SpannableDataV::Spoiler => true,
        SpannableDataV::GreenText => true,
        SpannableDataV::BoldText => true,
        SpannableDataV::FontSize { size } => lookup_field(fields, "size"@) matches Some(
            HostValue::Text(b),
        ) && b@ == encode_utf8(size),
        SpannableDataV::FontWeight { weight } => lookup_field(fields, "weight"@) matches Some(
            HostValue::Text(b),
        ) && b@ == encode_utf8(weight),
        SpannableDataV::Monospace => true,
        SpannableDataV::TextForegroundColorRaw { color_hex } => lookup_field(
            fields,
            "colorHex"@,
        ) matches Some(HostValue::Text(b)) && b@ == encode_utf8(color_hex),
        SpannableDataV::TextBackgroundColorRaw { color_hex } => lookup_field(
            fields,
            "colorHex"@,
        ) matches Some(HostValue::Text(b)) && b@ == encode_utf8(color_hex),
        SpannableDataV::TextForegroundColorId { color_id } => lookup_field(fields, "colorId"@)
            == Some(HostValue::Int(color_id)),
        SpannableDataV::TextBackgroundColorId { color_id } => lookup_field(fields, "colorId"@)
            == Some(HostValue::Int(color_id)),
    }
}

/// Whether a host object is exactly the encoding of the given variant.
pub open spec fn spec_data_obj_matches(rec: HostObject, d: SpannableDataV) -> bool {
    rec.class@ == spec_spannable_data_class(d) && spec_data_fields_match(rec.fields@, d)
}

/// What decoding a spannable-data object yields, dispatching on its class.
pub open spec fn spec_read_spannable_data(objs: Seq<HostObject>, h: int) -> Option<SpannableDataV> {
    if !crate::valid_handle(objs, h) {
        None
    } else {
        let cls = objs[h].class@;
        let fields = objs[h].fields@;
        if cls == spec_variant_class("Quote"@) {
            match spec_get_long(fields, "postNo"@) {
                Ok(p) => Some(SpannableDataV::Quote { post_no: p as u64 }),
                Err(_) => None,
            }
        } else if cls == spec_variant_class("DeadQuote"@) {
            match spec_get_long(fields, "postNo"@) {
                Ok(p) => Some(SpannableDataV::DeadQuote { post_no: p as u64 }),
                Err(_) => None,
            }
        } else if cls == spec_variant_class("UrlLink"@) {
            match spec_get_string(fields, "link"@) {
                Ok(s) => Some(SpannableDataV::UrlLink { link: s }),
                Err(_) => None,
            }
        } else if cls == spec_variant_class("BoardLink"@) {
            match spec_get_string(fields, "boardCode"@) {
                Ok(s) => Some(SpannableDataV::BoardLink { board_code: s }),
                Err(_) => None,
            }
        } else if cls == spec_variant_class("SearchLink"@) {
            match spec_get_string(fields, "boardCode"@) {
                Err(_) => None,
                Ok(b) => match spec_get_string(fields, "searchQuery"@) {
                    Ok(q) => Some(SpannableDataV::SearchLink { board_code: b, search_query: q }),
                    Err(_) => None,
                },
            }
        } else if cls == spec_variant_class("ThreadLink"@) {
            match spec_get_string(fields, "boardCode"@) {
                Err(_) => None,
                Ok(b) => match spec_get_long(fields, "threadNo"@) {
                    Err(_) => None,
                    Ok(t) => match spec_get_long(fields, "postNo"@) {
                        Ok(p) => Some(
                            SpannableDataV::ThreadLink {
                                board_code: b,
                                thread_no: t as u64,
                                post_no: p as u64,
                            },
                        ),
                        Err(_) => None,
                    },
                },
            }
        } else if cls == spec_variant_class("Spoiler"@) {
            Some(SpannableDataV::Spoiler)
        } else if cls == spec_variant_class("GreenText"@) {
            Some(SpannableDataV::GreenText)
        } else if cls == spec_variant_class("BoldText"@) {
            Some(SpannableDataV::BoldText)
        } else if cls == spec_variant_class("FontSize"@) {
            match spec_get_string(fields, "size"@) {
                Ok(s) => Some(SpannableDataV::FontSize { size: s }),
                Err(_) => None,
            }
        } else if cls == spec_variant_class("FontWeight"@) {
            match spec_get_string(fields, "weight"@) {
                Ok(s) => Some(SpannableDataV::FontWeight { weight: s }),
                Err(_) => None,
            }
        } else if cls == spec_variant_class("Monospace"@) {
            Some(SpannableDataV::Monospace)
        } else if cls == spec_variant_class("TextForegroundColorRaw"@) {
            match spec_get_string(fields, "colorHex"@) {
                Ok(s) => Some(SpannableDataV::TextForegroundColorRaw { color_hex: s }),
                Err(_) => None,
            }
        } else if cls == spec_variant_class("TextBackgroundColorRaw"@) {
            match spec_get_string(fields, "colorHex"@) {
                Ok(s) => Some(SpannableDataV::TextBackgroundColorRaw { color_hex: s }),
                Err(_) => None,
            }
        } else if cls == spec_variant_class("TextForegroundColorId"@) {
            match spec_get_int(fields, "colorId"@) {
                Ok(c) => Some(SpannableDataV::TextForegroundColorId { color_id: c }),
                Err(_) => None,
            }
        } else if cls == spec_variant_class("TextBackgroundColorId"@) {
            match spec_get_int(fields, "colorId"@) {
                Ok(c) => Some(SpannableDataV::TextBackgroundColorId { color_id: c }),
                Err(_) => None,
            }
        } else {
            None
        }
    }
}

/// What decoding a span envelope yields: the span bounds and the wrapped
/// variant.
pub open spec fn spec_read_spannable(objs: Seq<HostObject>, h: int) -> Option<SpannableV> {
    if !crate::valid_handle(objs, h) {
        None
    } else if objs[h].class@ != spec_spannables_class("PostCommentSpannable"@) {
        None
    } else {
        let fields = objs[h].fields@;
        match spec_get_int(fields, "start"@) {
            Err(_) => None,
            Ok(st) => match spec_get_int(fields, "length"@) {
                Err(_) => None,
                Ok(ln) => match spec_get_obj(fields, "spannableData"@) {
                    Err(_) => None,
                    Ok(dh) => match spec_read_spannable_data(objs, dh as int) {
                        None => None,
                        Some(d) => Some(
                            SpannableV { start: st as u32, len: ln as u32, spannable_data: d },
                        ),
                    },
                },
            },
        }
    }
}

/// What decoding the elements of a spannable envelope array yields, in
/// order.
pub open spec fn spec_read_spannables(objs: Seq<HostObject>, arr: Seq<Option<usize>>) -> Option<
    Seq<SpannableV>,
>
    decreases arr.len(),
{
    if arr.len() == 0 {
        Some(Seq::<SpannableV>::empty())
    } else {
        match arr[0] {
            None => None,
            Some(sh) => match spec_read_spannable(objs, sh as int) {
                None => None,
                Some(s) => match spec_read_spannables(objs, arr.drop_first()) {
                    None => None,
                    Some(rest) => Some(seq![s] + rest),
                },
            },
        }
    }
}

/// What decoding a parsed-comment object yields: both texts and the ordered
/// annotations.
pub open spec fn spec_read_parsed_comment(objs: Seq<HostObject>, h: int) -> Option<ParsedCommentV> {
    if !crate::valid_handle(objs, h) {
        None
    } else if objs[h].class@ != spec_post_parsing_class("ParsedSpannableText"@) {
        None
    } else {
        let fields = objs[h].fields@;
        match spec_get_string(fields, "commentTextRaw"@) {
            Err(_) => None,
            Ok(original_text) => match spec_get_string(fields, "commentTextParsed"@) {
                Err(_) => None,
                Ok(parsed_text) => match spec_get_obj_array(fields, "spannableList"@) {
                    Err(_) => None,
                    Ok(arr) => match spec_read_spannables(objs, arr) {
                        None => None,
                        Some(spannables) => Some(
                            ParsedCommentV { original_text, parsed_text, spannables },
                        ),
                    },
                },
            },
        }
    }
}

/// What decoding a per-post result object yields: the identifiers and the
/// parsed comment, absent when the marker field is null.
pub open spec fn spec_read_post_parsed(objs: Seq<HostObject>, h: int) -> Option<ParsedPostV> {
    if !crate::valid_handle(objs, h) {
        None
    } else if objs[h].class@ != spec_post_parsing_class("PostParsed"@) {
        None
    } else {
        let fields = objs[h].fields@;
        match spec_get_long(fields, "postId"@) {
            Err(_) => None,
            Ok(post_id) => match spec_get_long(fields, "postSubId"@) {
                Err(_) => None,
                Ok(post_sub_id) => match lookup_field(fields, "postCommentParsed"@) {
                    Some(HostValue::Null) => Some(
                        ParsedPostV {
                            post_id: post_id as u64,
                            post_sub_id: post_sub_id as u64,
                            post_comment_parsed: None,
                        },
                    ),
                    Some(HostValue::Obj(ch)) => match spec_read_parsed_comment(objs, ch as int) {
                        None => None,
                        Some(c) => Some(
                            ParsedPostV {
                                post_id: post_id as u64,
                                post_sub_id: post_sub_id as u64,
                                post_comment_parsed: Some(c),
                            },
                        ),
                    },
                    _ => None,
                },
            },
        }
    }
}

/// A 32-bit span bound survives the round trip through the host's signed
/// 32-bit integer representation.
pub proof fn lemma_int_round_trip(x: u32)
    ensures
        (x as i32) as u32 == x,
{
    assert((x as i32) as u32 == x) by (bit_vector);
}

/// Two variant class names differ when their short names differ at index `i`
/// or in length.
proof fn lemma_variant_class_ne(a: Seq<char>, b: Seq<char>, i: int)
    requires
        (0 <= i < a.len() && i < b.len() && a[i] != b[i]) || a.len() != b.len(),
    ensures
        spec_variant_class(a) != spec_variant_class(b),
{
    let p = "com/github/k1rakishou/chan/core/lib/data/post_parsing/spannable/"@;
    let q = "IPostCommentSpannableData$"@;
    if a.len() != b.len() {
        assert(spec_variant_class(a).len() == p.len() + q.len() + a.len());
        assert(spec_variant_class(b).len() == p.len() + q.len() + b.len());
    } else {
        assert((q + a)[q.len() + i] == a[i]);
        assert((q + b)[q.len() + i] == b[i]);
        assert(spec_variant_class(a)[p.len() + (q.len() + i)] == a[i]);
        assert(spec_variant_class(b)[p.len() + (q.len() + i)] == b[i]);
    }
}

/// A host object that is exactly the encoding of a boundary-safe variant
/// decodes back to that variant.
#[verifier::rlimit(100)]
#[verifier::spinoff_prover]
pub proof fn lemma_data_obj_reads_back(objs: Seq<HostObject>, h: int, d: SpannableDataV)
    requires
        crate::valid_handle(objs, h),
        spec_data_obj_matches(objs[h], d),
        text_safe_data(d),
    ensures
        spec_read_spannable_data(objs, h) == Some(d),
{
    reveal_strlit("Quote");
    reveal_strlit("DeadQuote");
    reveal_strlit("UrlLink");
    reveal_strlit("BoardLink");
    reveal_strlit("SearchLink");
    reveal_strlit("ThreadLink");
    reveal_strlit("Spoiler");
    reveal_strlit("GreenText");
    reveal_strlit("BoldText");
    reveal_strlit("FontSize");
    reveal_strlit("FontWeight");
    reveal_strlit("Monospace");
    reveal_strlit("TextForegroundColorRaw");
    reveal_strlit("TextBackgroundColorRaw");
    reveal_strlit("TextForegroundColorId");
    reveal_strlit("TextBackgroundColorId");
    lemma_variant_class_ne("Quote"@, "DeadQuote"@, 0);
    lemma_variant_class_ne("Quote"@, "UrlLink"@, 0);
    lemma_variant_class_ne("Quote"@, "BoardLink"@, 0);
    lemma_variant_class_ne("Quote"@, "SearchLink"@, 0);
    lemma_variant_class_ne("Quote"@, "ThreadLink"@, 0);
    lemma_variant_class_ne("Quote"@, "Spoiler"@, 0);
    lemma_variant_class_ne("Quote"@, "GreenText"@, 0);
    lemma_variant_class_ne("Quote"@, "BoldText"@, 0);
    lemma_variant_class_ne("Quote"@, "FontSize"@, 0);
    lemma_variant_class_ne("Quote"@, "FontWeight"@, 0);
    lemma_variant_class_ne("Quote"@, "Monospace"@, 0);
    lemma_variant_class_ne("Quote"@, "TextForegroundColorRaw"@, 0);
    lemma_variant_class_ne("Quote"@, "TextBackgroundColorRaw"@, 0);
    lemma_variant_class_ne("Quote"@, "TextForegroundColorId"@, 0);
    lemma_variant_class_ne("Quote"@, "TextBackgroundColorId"@, 0);
    lemma_variant_class_ne("DeadQuote"@, "UrlLink"@, 0);
    lemma_variant_class_ne("DeadQuote"@, "BoardLink"@, 0);
    lemma_variant_class_ne("DeadQuote"@, "SearchLink"@, 0);
    lemma_variant_class_ne("DeadQuote"@, "ThreadLink"@, 0);
    lemma_variant_class_ne("DeadQuote"@, "Spoiler"@, 0);
    lemma_variant_class_ne("DeadQuote"@, "GreenText"@, 0);
    lemma_variant_class_ne("DeadQuote"@, "BoldText"@, 0);
    lemma_variant_class_ne("DeadQuote"@, "FontSize"@, 0);
    lemma_variant_class_ne("DeadQuote"@, "FontWeight"@, 0);
    lemma_variant_class_ne("DeadQuote"@, "Monospace"@, 0);
    lemma_variant_class_ne("DeadQuote"@, "TextForegroundColorRaw"@, 0);
    lemma_variant_class_ne("DeadQuote"@, "TextBackgroundColorRaw"@, 0);
    lemma_variant_class_ne("DeadQuote"@, "TextForegroundColorId"@, 0);
    lemma_variant_class_ne("DeadQuote"@, "TextBackgroundColorId"@, 0);
    lemma_variant_class_ne("UrlLink"@, "BoardLink"@, 0);
    lemma_variant_class_ne("UrlLink"@, "SearchLink"@, 0);
    lemma_variant_class_ne("UrlLink"@, "ThreadLink"@, 0);
    lemma_variant_class_ne("UrlLink"@, "Spoiler"@, 0);
    lemma_variant_class_ne("UrlLink"@, "GreenText"@, 0);
    lemma_variant_class_ne("UrlLink"@, "BoldText"@, 0);
    lemma_variant_class_ne("UrlLink"@, "FontSize"@, 0);
    lemma_variant_class_ne("UrlLink"@, "FontWeight"@, 0);
    lemma_variant_class_ne("UrlLink"@, "Monospace"@, 0);
    lemma_variant_class_ne("UrlLink"@, "TextForegroundColorRaw"@, 0);
    lemma_variant_class_ne("UrlLink"@, "TextBackgroundColorRaw"@, 0);
    lemma_variant_class_ne("UrlLink"@, "TextForegroundColorId"@, 0);
    lemma_variant_class_ne("UrlLink"@, "TextBackgroundColorId"@, 0);
    lemma_variant_class_ne("BoardLink"@, "SearchLink"@, 0);
    lemma_variant_class_ne("BoardLink"@, "ThreadLink"@, 0);
    lemma_variant_class_ne("BoardLink"@, "Spoiler"@, 0);
    lemma_variant_class_ne("BoardLink"@, "GreenText"@, 0);
    lemma_variant_class_ne("BoardLink"@, "BoldText"@, 0);
    lemma_variant_class_ne("BoardLink"@, "FontSize"@, 0);
    lemma_variant_class_ne("BoardLink"@, "FontWeight"@, 0);
    lemma_variant_class_ne("BoardLink"@, "Monospace"@, 0);
    lemma_variant_class_ne("BoardLink"@, "TextForegroundColorRaw"@, 0);
    lemma_variant_class_ne("BoardLink"@, "TextBackgroundColorRaw"@, 0);
    lemma_variant_class_ne("BoardLink"@, "TextForegroundColorId"@, 0);
    lemma_variant_class_ne("BoardLink"@, "TextBackgroundColorId"@, 0);
    lemma_variant_class_ne("SearchLink"@, "ThreadLink"@, 0);
    lemma_variant_class_ne("SearchLink"@, "Spoiler"@, 0);
    lemma_variant_class_ne("SearchLink"@, "GreenText"@, 0);
    lemma_variant_class_ne("SearchLink"@, "BoldText"@, 0);
    lemma_variant_class_ne("SearchLink"@, "FontSize"@, 0);
    lemma_variant_class_ne("SearchLink"@, "FontWeight"@, 0);
    lemma_variant_class_ne("SearchLink"@, "Monospace"@, 0);
    lemma_variant_class_ne("SearchLink"@, "TextForegroundColorRaw"@, 0);
    lemma_variant_class_ne("SearchLink"@, "TextBackgroundColorRaw"@, 0);
    lemma_variant_class_ne("SearchLink"@, "TextForegroundColorId"@, 0);
    lemma_variant_class_ne("SearchLink"@, "TextBackgroundColorId"@, 0);
    lemma_variant_class_ne("ThreadLink"@, "Spoiler"@, 0);
    lemma_variant_class_ne("ThreadLink"@, "GreenText"@, 0);
    lemma_variant_class_ne("ThreadLink"@, "BoldText"@, 0);
    lemma_variant_class_ne("ThreadLink"@, "FontSize"@, 0);
    lemma_variant_class_ne("ThreadLink"@, "FontWeight"@, 0);
    lemma_variant_class_ne("ThreadLink"@, "Monospace"@, 0);
    lemma_variant_class_ne("ThreadLink"@, "TextForegroundColorRaw"@, 0);
    lemma_variant_class_ne("ThreadLink"@, "TextBackgroundColorRaw"@, 0);
    lemma_variant_class_ne("ThreadLink"@, "TextForegroundColorId"@, 0);
    lemma_variant_class_ne("ThreadLink"@, "TextBackgroundColorId"@, 0);
    lemma_variant_class_ne("Spoiler"@, "GreenText"@, 0);
    lemma_variant_class_ne("Spoiler"@, "BoldText"@, 0);
    lemma_variant_class_ne("Spoiler"@, "FontSize"@, 0);
    lemma_variant_class_ne("Spoiler"@, "FontWeight"@, 0);
    lemma_variant_class_ne("Spoiler"@, "Monospace"@, 0);
    lemma_variant_class_ne("Spoiler"@, "TextForegroundColorRaw"@, 0);
    lemma_variant_class_ne("Spoiler"@, "TextBackgroundColorRaw"@, 0);
    lemma_variant_class_ne("Spoiler"@, "TextForegroundColorId"@, 0);
    lemma_variant_class_ne("Spoiler"@, "TextBackgroundColorId"@, 0);
    lemma_variant_class_ne("GreenText"@, "BoldText"@, 0);
    lemma_variant_class_ne("GreenText"@, "FontSize"@, 0);
    lemma_variant_class_ne("GreenText"@, "FontWeight"@, 0);
    lemma_variant_class_ne("GreenText"@, "Monospace"@, 0);
    lemma_variant_class_ne("GreenText"@, "TextForegroundColorRaw"@, 0);
    lemma_variant_class_ne("GreenText"@, "TextBackgroundColorRaw"@, 0);
    lemma_variant_class_ne("GreenText"@, "TextForegroundColorId"@, 0);
    lemma_variant_class_ne("GreenText"@, "TextBackgroundColorId"@, 0);
    lemma_variant_class_ne("BoldText"@, "FontSize"@, 0);
    lemma_variant_class_ne("BoldText"@, "FontWeight"@, 0);
    lemma_variant_class_ne("BoldText"@, "Monospace"@, 0);
    lemma_variant_class_ne("BoldText"@, "TextForegroundColorRaw"@, 0);
    lemma_variant_class_ne("BoldText"@, "TextBackgroundColorRaw"@, 0);
    lemma_variant_class_ne("BoldText"@, "TextForegroundColorId"@, 0);
    lemma_variant_class_ne("BoldText"@, "TextBackgroundColorId"@, 0);
    lemma_variant_class_ne("FontSize"@, "FontWeight"@, 0);
    lemma_variant_class_ne("FontSize"@, "Monospace"@, 0);
    lemma_variant_class_ne("FontSize"@, "TextForegroundColorRaw"@, 0);
    lemma_variant_class_ne("FontSize"@, "TextBackgroundColorRaw"@, 0);
    lemma_variant_class_ne("FontSize"@, "TextForegroundColorId"@, 0);
    lemma_variant_class_ne("FontSize"@, "TextBackgroundColorId"@, 0);
    lemma_variant_class_ne("FontWeight"@, "Monospace"@, 0);
    lemma_variant_class_ne("FontWeight"@, "TextForegroundColorRaw"@, 0);
    lemma_variant_class_ne("FontWeight"@, "TextBackgroundColorRaw"@, 0);
    lemma_variant_class_ne("FontWeight"@, "TextForegroundColorId"@, 0);
    lemma_variant_class_ne("FontWeight"@, "TextBackgroundColorId"@, 0);
    lemma_variant_class_ne("Monospace"@, "TextForegroundColorRaw"@, 0);
    lemma_variant_class_ne("Monospace"@, "TextBackgroundColorRaw"@, 0);
    lemma_variant_class_ne("Monospace"@, "TextForegroundColorId"@, 0);
    lemma_variant_class_ne("Monospace"@, "TextBackgroundColorId"@, 0);
    lemma_variant_class_ne("TextForegroundColorRaw"@, "TextBackgroundColorRaw"@, 4);
    lemma_variant_class_ne("TextForegroundColorRaw"@, "TextForegroundColorId"@, 0);
    lemma_variant_class_ne("TextForegroundColorRaw"@, "TextBackgroundColorId"@, 0);
    lemma_variant_class_ne("TextBackgroundColorRaw"@, "TextForegroundColorId"@, 0);
    lemma_variant_class_ne("TextBackgroundColorRaw"@, "TextBackgroundColorId"@, 0);
    lemma_variant_class_ne("TextForegroundColorId"@, "TextBackgroundColorId"@, 4);
    match d {
        SpannableDataV::Quote { post_no } => {
            crate::descriptor_mapper::lemma_long_round_trip(post_no);
        },
        SpannableDataV::DeadQuote { post_no } => {
            crate::descriptor_mapper::lemma_long_round_trip(post_no);
        },
        SpannableDataV::UrlLink { link } => {
            crate::host::lemma_text_round_trip(link);
        },
        SpannableDataV::BoardLink { board_code } => {
            crate::host::lemma_text_round_trip(board_code);
        },
        SpannableDataV::SearchLink { board_code, search_query } => {
            crate::host::lemma_text_round_trip(board_code);
            crate::host::lemma_text_round_trip(search_query);
        },
        SpannableDataV::ThreadLink { board_code, thread_no, post_no } => {
            crate::host::lemma_text_round_trip(board_code);
            crate::descriptor_mapper::lemma_long_round_trip(thread_no);
            crate::descriptor_mapper::lemma_long_round_trip(post_no);
        },
        SpannableDataV::Spoiler => {},
        SpannableDataV::GreenText => {},
        SpannableDataV::BoldText => {},
        SpannableDataV::FontSize { size } => {
            crate::host::lemma_text_round_trip(size);
        },
        SpannableDataV::FontWeight { weight } => {
            crate::host::lemma_text_round_trip(weight);
        },
        SpannableDataV::Monospace => {},
        SpannableDataV::TextForegroundColorRaw { color_hex } => {
            crate::host::lemma_text_round_trip(color_hex);
        },
        SpannableDataV::TextBackgroundColorRaw { color_hex } => {
            crate::host::lemma_text_round_trip(color_hex);
        },
        SpannableDataV::TextForegroundColorId { .. } => {},
        SpannableDataV::TextBackgroundColorId { .. } => {},
    }
}

/// Growing the object store does not change what an existing variant object
/// decodes to.
pub proof fn lemma_read_spannable_data_stable(
    objs1: Seq<HostObject>,
    objs2: Seq<HostObject>,
    h: int,
)
    requires
        objs1.is_prefix_of(objs2),
        0 <= h < objs1.len(),
    ensures
        spec_read_spannable_data(objs2, h) == spec_read_spannable_data(objs1, h),
{
    assert(objs1[h] == objs2.subrange(0, objs1.len() as int)[h]);
}

/// Growing the object store does not change what an existing, readable span
/// envelope decodes to.
pub proof fn lemma_read_spannable_stable(objs1: Seq<HostObject>, objs2: Seq<HostObject>, h: int)
    requires
        objs1.is_prefix_of(objs2),
        spec_read_spannable(objs1, h) is Some,
    ensures
        spec_read_spannable(objs2, h) == spec_read_spannable(objs1, h),
{
    assert(objs1[h] == objs2.subrange(0, objs1.len() as int)[h]);
    match spec_get_obj(objs1[h].fields@, "spannableData"@) {
        Ok(dh) => {
            lemma_read_spannable_data_stable(objs1, objs2, dh as int);
        },
        Err(_) => {},
    }
}

/// Growing the object store does not change what an existing, readable
/// envelope array decodes to.
pub proof fn lemma_read_spannables_stable(
    objs1: Seq<HostObject>,
    objs2: Seq<HostObject>,
    arr: Seq<Option<usize>>,
)
    requires
        objs1.is_prefix_of(objs2),
        spec_read_spannables(objs1, arr) is Some,
    ensures
        spec_read_spannables(objs2, arr) == spec_read_spannables(objs1, arr),
    decreases arr.len(),
{
    if arr.len() > 0 {
        match arr[0] {
            Some(sh) => {
                lemma_read_spannable_stable(objs1, objs2, sh as int);
                lemma_read_spannables_stable(objs1, objs2, arr.drop_first());
            },
            None => {},
        }
    }
}

/// Growing the object store does not change what an existing, readable
/// parsed-comment object decodes to.
pub proof fn lemma_read_parsed_comment_stable(
    objs1: Seq<HostObject>,
    objs2: Seq<HostObject>,
    h: int,
)
    requires
        objs1.is_prefix_of(objs2),
        spec_read_parsed_comment(objs1, h) is Some,
    ensures
        spec_read_parsed_comment(objs2, h) == spec_read_parsed_comment(objs1, h),
{
    assert(objs1[h] == objs2.subrange(0, objs1.len() as int)[h]);
    match spec_get_obj_array(objs1[h].fields@, "spannableList"@) {
        Ok(arr) => {
            lemma_read_spannables_stable(objs1, objs2, arr);
        },
        Err(_) => {},
    }
}

/// Growing the object store does not change what an existing, readable
/// per-post result object decodes to.
pub proof fn lemma_read_post_parsed_stable(objs1: Seq<HostObject>, objs2: Seq<HostObject>, h: int)
    requires
        objs1.is_prefix_of(objs2),
        spec_read_post_parsed(objs1, h) is Some,
    ensures
        spec_read_post_parsed(objs2, h) == spec_read_post_parsed(objs1, h),
{
    assert(objs1[h] == objs2.subrange(0, objs1.len() as int)[h]);
    match lookup_field(objs1[h].fields@, "postCommentParsed"@) {
        Some(HostValue::Obj(ch)) => {
            lemma_read_parsed_comment_stable(objs1, objs2, ch as int);
        },
        _ => {},
    }
}

/// Reading a whole envelope array back element by element reads back the
/// whole sequence.
proof fn lemma_read_spannables_from_elements(
    objs: Seq<HostObject>,
    arr: Seq<Option<usize>>,
    ss: Seq<SpannableV>,
)
    requires
        arr.len() == ss.len(),
        forall|i: int|
            0 <= i < arr.len() ==> arr[i] is Some && spec_read_spannable(
                objs,
                arr[i].unwrap() as int,
            ) == Some(ss[i]),
    ensures
        spec_read_spannables(objs, arr) == Some(ss),
    decreases arr.len(),
{
    if arr.len() > 0 {
        lemma_read_spannables_from_elements(objs, arr.drop_first(), ss.drop_first());
        assert(seq![ss[0]] + ss.drop_first() =~= ss);
    }
}

/// The fully-qualified host class name of an annotation variant's subtype.
pub fn spannable_data_class_name(data: &SpannableData) -> (r: String)
    ensures
        r@ == spec_spannable_data_class(data@),
{
    let mut short = String::from_str("IPostCommentSpannableData$");
    match data {
        SpannableData::Quote { .. } => short.append("Quote"),
        SpannableData::DeadQuote { .. } => short.append("DeadQuote"),
        SpannableData::UrlLink { .. } => short.append("UrlLink"),
        SpannableData::BoardLink { .. } => short.append("BoardLink"),
        SpannableData::SearchLink { .. } => short.append("SearchLink"),
        SpannableData::ThreadLink { .. } => short.append("ThreadLink"),
        SpannableData::Spoiler => short.append("Spoiler"),
        SpannableData::GreenText => short.append("GreenText"),
        SpannableData::BoldText => short.append("BoldText"),
        SpannableData::FontSize { .. } => short.append("FontSize"),
        SpannableData::FontWeight { .. } => short.append("FontWeight"),
        SpannableData::Monospace => short.append("Monospace"),
        SpannableData::TextForegroundColorRaw { .. } => short.append("TextForegroundColorRaw"),
        SpannableData::TextBackgroundColorRaw { .. } => short.append("TextBackgroundColorRaw"),
        SpannableData::TextForegroundColorId { .. } => short.append("TextForegroundColorId"),
        SpannableData::TextBackgroundColorId { .. } => short.append("TextBackgroundColorId"),
    }
    format_spannables_object_signature(short.as_str())
}

/// A host string value carrying the given native text.
fn text_value(s: &String) -> (v: HostValue)
    ensures
        v matches HostValue::Text(b) && b@ == encode_utf8(s@),
{
    HostValue::Text(s.as_str().as_bytes_vec())
}

/// The payload fields of one annotation variant's host object.
fn build_data_fields(data: &SpannableData) -> (r: Vec<HostField>)
    ensures
        spec_data_fields_match(r@, data@),
{
    proof {
        reveal_with_fuel(crate::host::lookup_field, 4);
        reveal_strlit("boardCode");
        reveal_strlit("searchQuery");
        reveal_strlit("threadNo");
        reveal_strlit("postNo");
        assert("boardCode"@.len() == 9);
        assert("searchQuery"@.len() == 11);
        assert("threadNo"@.len() == 8);
        assert("postNo"@.len() == 6);
    }
    let mut fs: Vec<HostField> = Vec::new();
    match data {
        SpannableData::Quote { post_no } => {
            fs.push(
                HostField {
                    name: String::from_str("postNo"),
                    value: HostValue::Long(*post_no as i64),
                },
            );
        },
        SpannableData::DeadQuote { post_no } => {
            fs.push(
                HostField {
                    name: String::from_str("postNo"),
                    value: HostValue::Long(*post_no as i64),
                },
            );
        },
        SpannableData::UrlLink { link } => {
            fs.push(HostField { name: String::from_str("link"), value: text_value(link) });
        },
        SpannableData::BoardLink { board_code } => {
            fs.push(
                HostField { name: String::from_str("boardCode"), value: text_value(board_code) },
            );
        },
        SpannableData::SearchLink { board_code, search_query } => {
            fs.push(
                HostField { name: String::from_str("boardCode"), value: text_value(board_code) },
            );
            fs.push(
                HostField {
                    name: String::from_str("searchQuery"),
                    value: text_value(search_query),
                },
            );
            proof {
                assert(fs@.drop_first() =~= seq![fs@[1]]);
            }
        },
        SpannableData::ThreadLink { board_code, thread_no, post_no } => {
            fs.push(
                HostField { name: String::from_str("boardCode"), value: text_value(board_code) },
            );
            fs.push(
                HostField {
                    name: String::from_str("threadNo"),
                    value: HostValue::Long(*thread_no as i64),
                },
            );
            fs.push(
                HostField {
                    name: String::from_str("postNo"),
                    value: HostValue::Long(*post_no as i64),
                },
            );
            proof {
                assert(fs@.drop_first() =~= seq![fs@[1], fs@[2]]);
                assert(fs@.drop_first().drop_first() =~= seq![fs@[2]]);
            }
        },
        SpannableData::Spoiler => {},
        SpannableData::GreenText => {},
        SpannableData::BoldText => {},
        SpannableData::FontSize { size } => {
            fs.push(HostField { name: String::from_str("size"), value: text_value(size) });
        },
        SpannableData::FontWeight { weight } => {
            fs.push(HostField { name: String::from_str("weight"), value: text_value(weight) });
        },
        SpannableData::Monospace => {},
        SpannableData::TextForegroundColorRaw { color_hex } => {
            fs.push(HostField { name: String::from_str("colorHex"), value: text_value(color_hex) });
        },
        SpannableData::TextBackgroundColorRaw { color_hex } => {
            fs.push(HostField { name: String::from_str("colorHex"), value: text_value(color_hex) });
        },
        SpannableData::TextForegroundColorId { color_id } => {
            fs.push(
                HostField { name: String::from_str("colorId"), value: HostValue::Int(*color_id) },
            );
        },
        SpannableData::TextBackgroundColorId { color_id } => {
            fs.push(
                HostField { name: String::from_str("colorId"), value: HostValue::Int(*color_id) },
            );
        },
    }
    fs
}

/// Constructs the host object of one annotation variant.
fn spannable_data_to_java_object(env: &mut HostEnv, data: &SpannableData) -> (h: usize)
    ensures
        final(env).classes == old(env).classes,
        final(env).objects@ == old(env).objects@.push(final(env).objects@[h as int]),
        h == old(env).objects@.len(),
        spec_data_obj_matches(final(env).objects@[h as int], data@),
{
    let cls = spannable_data_class_name(data);
    let fields = build_data_fields(data);
    env.new_object(cls, fields)
}

/// Encodes one annotation: constructs its variant object, then the span
/// envelope wrapping it.
fn spannable_to_java_object(env: &mut HostEnv, spannable: &Spannable) -> (h: usize)
    ensures
        final(env).classes == old(env).classes,
        old(env).objects@.is_prefix_of(final(env).objects@),
        final(env).objects@.len() == old(env).objects@.len() + 2,
        h < final(env).objects@.len(),
        text_safe_spannable(spannable@) ==> spec_read_spannable(final(env).objects@, h as int)
            == Some(spannable@),
{
    let data_h = spannable_data_to_java_object(env, &spannable.spannable_data);
    let envelope_cls = format_spannables_object_signature("PostCommentSpannable");
    let mut fs: Vec<HostField> = Vec::new();
    fs.push(
        HostField {
            name: String::from_str("start"),
            value: HostValue::Int(spannable.start as i32),
        },
    );
    fs.push(
        HostField { name: String::from_str("length"), value: HostValue::Int(spannable.len as i32) },
    );
    fs.push(
        HostField { name: String::from_str("spannableData"), value: HostValue::Obj(data_h) },
    );
    let h = env.new_object(envelope_cls, fs);
    proof {
        reveal_with_fuel(crate::host::lookup_field, 4);
        reveal_strlit("start");
        reveal_strlit("length");
        reveal_strlit("spannableData");
        assert("start"@.len() == 5);
        assert("length"@.len() == 6);
        assert("spannableData"@.len() == 13);
        lemma_int_round_trip(spannable.start);
        lemma_int_round_trip(spannable.len);
        if text_safe_spannable(spannable@) {
            lemma_data_obj_reads_back(final(env).objects@, data_h as int, spannable.spannable_data@);
            assert(spec_read_spannable(final(env).objects@, h as int) == Some(spannable@));
        }
    }
    h
}

/// Whether the host has loaded the envelope class and the variant class of
/// every annotation of the list.
pub open spec fn spec_spannable_classes_needed(classes: Seq<String>, sps: Seq<SpannableV>) -> bool {
    &&& spec_has_class(classes, spec_spannables_class("PostCommentSpannable"@))
    &&& forall|i: int|
        0 <= i < sps.len() ==> spec_has_class(classes, spec_spannable_data_class(
            sps[i].spannable_data,
        ))
}

/// Encodes a comment's annotations, in input order, into a fixed-size host
/// array whose element `i` is the envelope of annotation `i`.
///
/// It succeeds exactly when the envelope class and every needed variant
/// class are loaded; otherwise nothing is constructed.
pub fn spannables_to_java_object(env: &mut HostEnv, spannables: &Vec<Spannable>) -> (r: Result<
    Vec<Option<usize>>,
    BridgeError,
>)
    ensures
        final(env).classes == old(env).classes,
        old(env).objects@.is_prefix_of(final(env).objects@),
        r is Ok <==> spec_spannable_classes_needed(
            old(env).classes@,
            spannables@.map_values(|s: Spannable| s@),
        ),
        match r {
            Ok(arr) => {
                &&& arr@.len() == spannables@.len()
                &&& forall|i: int|
                    0 <= i < arr@.len() ==> arr@[i] is Some && (text_safe_spannable(
                        spannables@[i]@,
                    ) ==> spec_read_spannable(
                        final(env).objects@,
                        arr@[i].unwrap() as int,
                    ) == Some(spannables@[i]@))
            },
            Err(e) => e == BridgeError::HostConstructionError && final(env).objects@ == old(
                env,
            ).objects@,
        },
{
    let envelope_cls = format_spannables_object_signature("PostCommentSpannable");
    if !env.has_class(envelope_cls.as_str()) {
        return Err(BridgeError::HostConstructionError);
    }
    let n = spannables.len();
    let mut i: usize = 0;
    while i < n
        invariant
            n == spannables@.len(),
            0 <= i <= n,
            env.classes == old(env).classes,
            env.objects == old(env).objects,
            forall|j: int|
                0 <= j < i ==> spec_has_class(env.classes@, spec_spannable_data_class(
                    spannables@[j]@.spannable_data,
                )),
        decreases n - i,
    {
        let cls = spannable_data_class_name(&spannables[i].spannable_data);
        if !env.has_class(cls.as_str()) {
            proof {
                let sps = spannables@.map_values(|s: Spannable| s@);
                assert(sps[i as int] == spannables@[i as int]@);
                assert(!spec_has_class(env.classes@, spec_spannable_data_class(
                    sps[i as int].spannable_data,
                )));
            }
            return Err(BridgeError::HostConstructionError);
        }
        i = i + 1;
    }
    let mut out: Vec<Option<usize>> = Vec::new();
    let mut k: usize = 0;
    while k < n
        invariant
            n == spannables@.len(),
            0 <= k <= n,
            out@.len() == k,
            env.classes == old(env).classes,
            old(env).objects@.is_prefix_of(env.objects@),
            forall|j: int|
                0 <= j < k ==> out@[j] is Some && (text_safe_spannable(spannables@[j]@)
                    ==> spec_read_spannable(env.objects@, out@[j].unwrap() as int) == Some(
                    spannables@[j]@,
                )),
        decreases n - k,
    {
        let ghost prev = env.objects@;
        let h = spannable_to_java_object(env, &spannables[k]);
        out.push(Some(h));
        proof {
            assert forall|j: int|
                0 <= j < k && text_safe_spannable(spannables@[j]@) implies spec_read_spannable(
                env.objects@,
                out@[j].unwrap() as int,
            ) == Some(spannables@[j]@) by {
                lemma_read_spannable_stable(prev, env.objects@, out@[j].unwrap() as int);
            }
        }
        k = k + 1;
    }
    Ok(out)
}

/// Whether the host has loaded every class the encoding of this parsed post
/// needs.
pub open spec fn spec_post_parsed_classes_needed(classes: Seq<String>, p: ParsedPostV) -> bool {
    &&& spec_has_class(classes, spec_post_parsing_class("PostParsed"@))
    &&& match p.post_comment_parsed {
        None => true,
        Some(c) => spec_has_class(classes, spec_post_parsing_class("ParsedSpannableText"@))
            && spec_spannable_classes_needed(classes, c.spannables),
    }
}

/// Encodes one per-post result: the parsed-comment object with both texts
/// and the annotation array, wrapped in the per-post object carrying the
/// identifiers. An absent comment becomes a null marker field.
///
/// It succeeds exactly when the host has loaded every class this post's
/// encoding needs; otherwise nothing is constructed.
pub fn map_to_post_parsed(env: &mut HostEnv, parsed_post: &ParsedPost) -> (r: Result<
    usize,
    BridgeError,
>)
    ensures
        final(env).classes == old(env).classes,
        old(env).objects@.is_prefix_of(final(env).objects@),
        r is Ok <==> spec_post_parsed_classes_needed(old(env).classes@, parsed_post@),
        match r {
            Ok(h) => h < final(env).objects@.len() && (text_safe_post(parsed_post@)
                ==> spec_read_post_parsed(final(env).objects@, h as int) == Some(parsed_post@)),
            Err(e) => e == BridgeError::HostConstructionError && final(env).objects@ == old(
                env,
            ).objects@,
        },
{
    let post_cls = format_post_parsing_object_signature("PostParsed");
    if !env.has_class(post_cls.as_str()) {
        return Err(BridgeError::HostConstructionError);
    }
    match &parsed_post.post_comment_parsed {
        None => {
            let mut fs: Vec<HostField> = Vec::new();
            fs.push(
                HostField {
                    name: String::from_str("postId"),
                    value: HostValue::Long(parsed_post.post_id as i64),
                },
            );
            fs.push(
                HostField {
                    name: String::from_str("postSubId"),
                    value: HostValue::Long(parsed_post.post_sub_id as i64),
                },
            );
            fs.push(
                HostField { name: String::from_str("postCommentParsed"), value: HostValue::Null },
            );
            let h = env.new_object(post_cls, fs);
            proof {
                reveal_with_fuel(crate::host::lookup_field, 4);
                reveal_strlit("postId");
                reveal_strlit("postSubId");
                reveal_strlit("postCommentParsed");
                assert("postId"@.len() == 6);
                assert("postSubId"@.len() == 9);
                assert("postCommentParsed"@.len() == 17);
                crate::descriptor_mapper::lemma_long_round_trip(parsed_post.post_id);
                crate::descriptor_mapper::lemma_long_round_trip(parsed_post.post_sub_id);
                assert(spec_read_post_parsed(final(env).objects@, h as int) == Some(parsed_post@));
            }
            Ok(h)
        },
        Some(comment) => {
            let text_cls = format_post_parsing_object_signature("ParsedSpannableText");
            if !env.has_class(text_cls.as_str()) {
                return Err(BridgeError::HostConstructionError);
            }
            let arr = match spannables_to_java_object(env, &comment.spannables) {
                Ok(a) => a,
                Err(e) => {
                    return Err(e);
                },
            };
            let ghost objs_with_spannables = env.objects@;
            let ghost arr_view = arr@;
            let mut tf: Vec<HostField> = Vec::new();
            tf.push(
                HostField {
                    name: String::from_str("commentTextRaw"),
                    value: text_value(&comment.original_text),
                },
            );
            tf.push(
                HostField {
                    name: String::from_str("commentTextParsed"),
                    value: text_value(&comment.parsed_text),
                },
            );
            tf.push(
                HostField {
                    name: String::from_str("spannableList"),
                    value: HostValue::ObjArray(arr),
                },
            );
            let text_h = env.new_object(text_cls, tf);
            let mut fs: Vec<HostField> = Vec::new();
            fs.push(
                HostField {
                    name: String::from_str("postId"),
                    value: HostValue::Long(parsed_post.post_id as i64),
                },
            );
            fs.push(
                HostField {
                    name: String::from_str("postSubId"),
                    value: HostValue::Long(parsed_post.post_sub_id as i64),
                },
            );
            fs.push(
                HostField {
                    name: String::from_str("postCommentParsed"),
                    value: HostValue::Obj(text_h),
                },
            );
            let h = env.new_object(post_cls, fs);
            proof {
                reveal_with_fuel(crate::host::lookup_field, 4);
                reveal_strlit("postId");
                reveal_strlit("postSubId");
                reveal_strlit("postCommentParsed");
                reveal_strlit("commentTextRaw");
                reveal_strlit("commentTextParsed");
                reveal_strlit("spannableList");
                assert("postId"@.len() == 6);
                assert("postSubId"@.len() == 9);
                assert("postCommentParsed"@.len() == 17);
                assert("commentTextRaw"@.len() == 14);
                assert("commentTextParsed"@.len() == 17);
                assert("spannableList"@.len() == 13);
                crate::descriptor_mapper::lemma_long_round_trip(parsed_post.post_id);
                crate::descriptor_mapper::lemma_long_round_trip(parsed_post.post_sub_id);
                if text_safe_post(parsed_post@) {
                    let c = comment@;
                    crate::host::lemma_text_round_trip(c.original_text);
                    crate::host::lemma_text_round_trip(c.parsed_text);
                    lemma_read_spannables_from_elements(
                        objs_with_spannables,
                        arr_view,
                        c.spannables,
                    );
                    lemma_read_spannables_stable(
                        objs_with_spannables,
                        final(env).objects@,
                        arr_view,
                    );
                    assert(spec_read_parsed_comment(final(env).objects@, text_h as int) == Some(
                        c,
                    ));
                    assert(spec_read_post_parsed(final(env).objects@, h as int) == Some(
                        parsed_post@,
                    ));
                }
            }
            Ok(h)
        },
    }
}

/// The fully-qualified class name of the variant subtype with the given
/// short name.
fn variant_class_name(short: &str) -> (r: String)
    ensures
        r@ == spec_variant_class(short@),
{
    let mut s = String::from_str("IPostCommentSpannableData$");
    s.append(short);
    format_spannables_object_signature(s.as_str())
}

/// Decodes one variant object, dispatching on its class name; any shape
/// mismatch is a type error.
fn map_jobject_to_spannable_data(env: &HostEnv, h: usize) -> (r: Result<
    SpannableData,
    BridgeError,
>)
    ensures
        match r {
            Ok(d) => spec_read_spannable_data(env.objects@, h as int) == Some(d@),
            Err(e) => e == BridgeError::TypeMismatch && spec_read_spannable_data(
                env.objects@,
                h as int,
            ) is None,
        },
{
    let obj = match env.obj_at(h) {
        Some(o) => o,
        None => {
            return Err(BridgeError::TypeMismatch);
        },
    };
    let cls = &obj.class;
    if crate::host::str_eq(cls.as_str(), variant_class_name("Quote").as_str()) {
        match crate::host::get_long_field(obj, "postNo") {
            Ok(p) => Ok(SpannableData::Quote { post_no: p as u64 }),
            Err(_) => Err(BridgeError::TypeMismatch),
        }
    } else if crate::host::str_eq(cls.as_str(), variant_class_name("DeadQuote").as_str()) {
        match crate::host::get_long_field(obj, "postNo") {
            Ok(p) => Ok(SpannableData::DeadQuote { post_no: p as u64 }),
            Err(_) => Err(BridgeError::TypeMismatch),
        }
    } else if crate::host::str_eq(cls.as_str(), variant_class_name("UrlLink").as_str()) {
        match crate::helpers::java_string_field_to_rust_string(obj, "link") {
            Ok(s) => Ok(SpannableData::UrlLink { link: s }),
            Err(_) => Err(BridgeError::TypeMismatch),
        }
    } else if crate::host::str_eq(cls.as_str(), variant_class_name("BoardLink").as_str()) {
        match crate::helpers::java_string_field_to_rust_string(obj, "boardCode") {
            Ok(s) => Ok(SpannableData::BoardLink { board_code: s }),
            Err(_) => Err(BridgeError::TypeMismatch),
        }
    } else if crate::host::str_eq(cls.as_str(), variant_class_name("SearchLink").as_str()) {
        let board_code = match crate::helpers::java_string_field_to_rust_string(obj, "boardCode") {
            Ok(s) => s,
            Err(_) => {
                return Err(BridgeError::TypeMismatch);
            },
        };
        match crate::helpers::java_string_field_to_rust_string(obj, "searchQuery") {
            Ok(q) => Ok(SpannableData::SearchLink { board_code, search_query: q }),
            Err(_) => Err(BridgeError::TypeMismatch),
        }
    } else if crate::host::str_eq(cls.as_str(), variant_class_name("ThreadLink").as_str()) {
        let board_code = match crate::helpers::java_string_field_to_rust_string(obj, "boardCode") {
            Ok(s) => s,
            Err(_) => {
                return Err(BridgeError::TypeMismatch);
            },
        };
        let thread_no = match crate::host::get_long_field(obj, "threadNo") {
            Ok(t) => t,
            Err(_) => {
                return Err(BridgeError::TypeMismatch);
            },
        };
        match crate::host::get_long_field(obj, "postNo") {
            Ok(p) => Ok(
                SpannableData::ThreadLink {
                    board_code,
                    thread_no: thread_no as u64,
                    post_no: p as u64,
                },
            ),
            Err(_) => Err(BridgeError::TypeMismatch),
        }
    } else if crate::host::str_eq(cls.as_str(), variant_class_name("Spoiler").as_str()) {
        Ok(SpannableData::Spoiler)
    } else if crate::host::str_eq(cls.as_str(), variant_class_name("GreenText").as_str()) {
        Ok(SpannableData::GreenText)
    } else if crate::host::str_eq(cls.as_str(), variant_class_name("BoldText").as_str()) {
        Ok(SpannableData::BoldText)
    } else if crate::host::str_eq(cls.as_str(), variant_class_name("FontSize").as_str()) {
        match crate::helpers::java_string_field_to_rust_string(obj, "size") {
            Ok(s) => Ok(SpannableData::FontSize { size: s }),
            Err(_) => Err(BridgeError::TypeMismatch),
        }
    } else if crate::host::str_eq(cls.as_str(), variant_class_name("FontWeight").as_str()) {
        match crate::helpers::java_string_field_to_rust_string(obj, "weight") {
            Ok(s) => Ok(SpannableData::FontWeight { weight: s }),
            Err(_) => Err(BridgeError::TypeMismatch),
        }
    } else if crate::host::str_eq(cls.as_str(), variant_class_name("Monospace").as_str()) {
        Ok(SpannableData::Monospace)
    } else if crate::host::str_eq(
        cls.as_str(),
        variant_class_name("TextForegroundColorRaw").as_str(),
    ) {
        match crate::helpers::java_string_field_to_rust_string(obj, "colorHex") {
            Ok(s) => Ok(SpannableData::TextForegroundColorRaw { color_hex: s }),
            Err(_) => Err(BridgeError::TypeMismatch),
        }
    } else if crate::host::str_eq(
        cls.as_str(),
        variant_class_name("TextBackgroundColorRaw").as_str(),
    ) {
        match crate::helpers::java_string_field_to_rust_string(obj, "colorHex") {
            Ok(s) => Ok(SpannableData::TextBackgroundColorRaw { color_hex: s }),
            Err(_) => Err(BridgeError::TypeMismatch),
        }
    } else if crate::host::str_eq(
        cls.as_str(),
        variant_class_name("TextForegroundColorId").as_str(),
    ) {
        match crate::host::get_int_field(obj, "colorId") {
            Ok(c) => Ok(SpannableData::TextForegroundColorId { color_id: c }),
            Err(_) => Err(BridgeError::TypeMismatch),
        }
    } else if crate::host::str_eq(
        cls.as_str(),
        variant_class_name("TextBackgroundColorId").as_str(),
    ) {
        match crate::host::get_int_field(obj, "colorId") {
            Ok(c) => Ok(SpannableData::TextBackgroundColorId { color_id: c }),
            Err(_) => Err(BridgeError::TypeMismatch),
        }
    } else {
        Err(BridgeError::TypeMismatch)
    }
}

/// Decodes an encoded span envelope back into the annotation it carries; any
/// shape mismatch is a type error.
pub fn map_jobject_to_spannable(env: &HostEnv, h: usize) -> (r: Result<Spannable, BridgeError>)
    ensures
        match r {
            Ok(s) => spec_read_spannable(env.objects@, h as int) == Some(s@),
            Err(e) => e == BridgeError::TypeMismatch && spec_read_spannable(
                env.objects@,
                h as int,
            ) is None,
        },
{
    let obj = match env.obj_at(h) {
        Some(o) => o,
        None => {
            return Err(BridgeError::TypeMismatch);
        },
    };
    let envelope_cls = format_spannables_object_signature("PostCommentSpannable");
    if !crate::host::str_eq(obj.class.as_str(), envelope_cls.as_str()) {
        return Err(BridgeError::TypeMismatch);
    }
    let start = match crate::host::get_int_field(obj, "start") {
        Ok(x) => x,
        Err(_) => {
            return Err(BridgeError::TypeMismatch);
        },
    };
    let length = match crate::host::get_int_field(obj, "length") {
        Ok(x) => x,
        Err(_) => {
            return Err(BridgeError::TypeMismatch);
        },
    };
    let dh = match crate::host::get_obj_field(obj, "spannableData") {
        Ok(x) => x,
        Err(_) => {
            return Err(BridgeError::TypeMismatch);
        },
    };
    match map_jobject_to_spannable_data(env, dh) {
        Ok(d) => Ok(Spannable { start: start as u32, len: length as u32, spannable_data: d }),
        Err(e) => Err(e),
    }
}

} // verus!
