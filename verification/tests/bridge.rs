use kuroba_ex_native::domain::{
    BridgeError, ParsedComment, ParsedPost, PostDescriptor, Spannable, SpannableData,
};
use kuroba_ex_native::helpers::{
    format_descriptors_object_signature, format_post_parsing_object_signature,
    format_post_parsing_object_signature_pref, format_spannables_object_signature,
    format_spannables_object_signature_pref, java_string_field_to_rust_string, unwrap_exc_or,
    BoundaryAction,
};
use kuroba_ex_native::host::{HostEnv, HostField, HostObject, HostValue};
use kuroba_ex_native::parse_thread_posts_use_case::{assemble_parse_request, map_thread_parsed};
use kuroba_ex_native::post_parsed_mapper::{
    map_jobject_to_spannable, map_to_post_parsed, spannable_data_class_name,
    spannables_to_java_object,
};

fn text(s: &str) -> HostValue {
    HostValue::Text(s.as_bytes().to_vec())
}

fn field(name: &str, value: HostValue) -> HostField {
    HostField { name: name.to_string(), value }
}

fn all_classes() -> Vec<String> {
    let mut classes = vec![
        format_descriptors_object_signature("SiteDescriptorNative"),
        format_descriptors_object_signature("BoardDescriptorNative"),
        format_descriptors_object_signature("ThreadDescriptorNative"),
        format_descriptors_object_signature("PostDescriptorNative"),
        format_post_parsing_object_signature("ThreadParsed"),
        format_post_parsing_object_signature("PostParsed"),
        format_post_parsing_object_signature("ParsedSpannableText"),
        format_spannables_object_signature("PostCommentSpannable"),
    ];
    let variants = vec![
        SpannableData::Quote { post_no: 0 },
        SpannableData::DeadQuote { post_no: 0 },
        SpannableData::UrlLink { link: String::new() },
        SpannableData::BoardLink { board_code: String::new() },
        SpannableData::SearchLink { board_code: String::new(), search_query: String::new() },
        SpannableData::ThreadLink { board_code: String::new(), thread_no: 0, post_no: 0 },
        SpannableData::Spoiler,
        SpannableData::GreenText,
        SpannableData::BoldText,
        SpannableData::FontSize { size: String::new() },
        SpannableData::FontWeight { weight: String::new() },
        SpannableData::Monospace,
        SpannableData::TextForegroundColorRaw { color_hex: String::new() },
        SpannableData::TextBackgroundColorRaw { color_hex: String::new() },
        SpannableData::TextForegroundColorId { color_id: 0 },
        SpannableData::TextBackgroundColorId { color_id: 0 },
    ];
    for v in &variants {
        classes.push(spannable_data_class_name(v));
    }
    classes
}

fn context_object(site: &str, board: &str, thread_id: i64, posts: Vec<i64>, mine: Vec<i64>) -> HostObject {
    HostObject {
        class: "ctx".to_string(),
        fields: vec![
            field("siteName", text(site)),
            field("boardCode", text(board)),
            field("threadId", HostValue::Long(thread_id)),
            field("threadPosts", HostValue::LongArray(posts)),
            field("myRepliesInThread", HostValue::LongArray(mine)),
        ],
    }
}

fn post_object(post_id: i64, post_sub_id: i64, comment: Option<&str>) -> HostObject {
    let comment_value = match comment {
        Some(c) => text(c),
        None => HostValue::Null,
    };
    HostObject {
        class: "post".to_string(),
        fields: vec![
            field("postId", HostValue::Long(post_id)),
            field("postSubId", HostValue::Long(post_sub_id)),
            field("comment", comment_value),
        ],
    }
}

fn thread_object(post_handles: Vec<Option<usize>>) -> HostObject {
    HostObject {
        class: "thread".to_string(),
        fields: vec![field("postToParseList", HostValue::ObjArray(post_handles))],
    }
}

fn get_field<'a>(obj: &'a HostObject, name: &str) -> &'a HostValue {
    &obj.fields.iter().find(|f| f.name == name).expect("field missing").value
}

#[test]
fn registry_formats_post_parsing_names() {
    assert_eq!(
        format_post_parsing_object_signature("ThreadParsed"),
        "com/github/k1rakishou/chan/core/lib/data/post_parsing/ThreadParsed"
    );
    assert_eq!(
        format_post_parsing_object_signature_pref("[", "PostParsed"),
        "[Lcom/github/k1rakishou/chan/core/lib/data/post_parsing/PostParsed;"
    );
}

#[test]
fn registry_formats_spannable_names() {
    assert_eq!(
        format_spannables_object_signature("PostCommentSpannable"),
        "com/github/k1rakishou/chan/core/lib/data/post_parsing/spannable/PostCommentSpannable"
    );
    assert_eq!(
        format_spannables_object_signature_pref("", "IPostCommentSpannableData"),
        "Lcom/github/k1rakishou/chan/core/lib/data/post_parsing/spannable/IPostCommentSpannableData;"
    );
}

#[test]
fn registry_formats_descriptor_names() {
    assert_eq!(
        format_descriptors_object_signature("SiteDescriptorNative"),
        "com/github/k1rakishou/chan/core/lib/data/descriptor/SiteDescriptorNative"
    );
}

#[test]
fn string_field_decodes_through_null_terminated_bytes() {
    let obj = HostObject {
        class: "o".to_string(),
        fields: vec![field("comment", HostValue::Text(b"abc\0junk".to_vec()))],
    };
    assert_eq!(java_string_field_to_rust_string(&obj, "comment").unwrap(), "abc");
}

#[test]
fn string_field_missing_is_field_not_found() {
    let obj = HostObject { class: "o".to_string(), fields: vec![] };
    assert_eq!(
        java_string_field_to_rust_string(&obj, "comment").unwrap_err(),
        BridgeError::FieldNotFound
    );
}

#[test]
fn string_field_null_is_field_not_found() {
    let obj = HostObject {
        class: "o".to_string(),
        fields: vec![field("comment", HostValue::Null)],
    };
    assert_eq!(
        java_string_field_to_rust_string(&obj, "comment").unwrap_err(),
        BridgeError::FieldNotFound
    );
}

#[test]
fn string_field_wrong_type_is_type_mismatch() {
    let obj = HostObject {
        class: "o".to_string(),
        fields: vec![field("comment", HostValue::Long(1))],
    };
    assert_eq!(
        java_string_field_to_rust_string(&obj, "comment").unwrap_err(),
        BridgeError::TypeMismatch
    );
}

#[test]
fn string_field_invalid_unicode_is_encoding_error() {
    let obj = HostObject {
        class: "o".to_string(),
        fields: vec![field("comment", HostValue::Text(vec![0xFF, 0xFE, 0x41]))],
    };
    assert_eq!(
        java_string_field_to_rust_string(&obj, "comment").unwrap_err(),
        BridgeError::EncodingError
    );
}

#[test]
fn context_decodes_with_empty_id_arrays() {
    let mut env = HostEnv { classes: vec![], objects: vec![] };
    env.objects.push(context_object("4chan", "g", 123, vec![], vec![]));
    env.objects.push(thread_object(vec![]));
    let (ctx, _) = assemble_parse_request(&env, 0, 1).unwrap();
    assert_eq!(ctx.site_name, "4chan");
    assert_eq!(ctx.board_code, "g");
    assert_eq!(ctx.thread_id, 123);
    assert!(ctx.thread_posts.is_empty());
    assert!(ctx.my_replies_in_thread.is_empty());
}

#[test]
fn context_missing_thread_id_fails_with_field_not_found() {
    let mut env = HostEnv { classes: vec![], objects: vec![] };
    env.objects.push(HostObject {
        class: "ctx".to_string(),
        fields: vec![
            field("siteName", text("4chan")),
            field("boardCode", text("g")),
            field("threadPosts", HostValue::LongArray(vec![])),
            field("myRepliesInThread", HostValue::LongArray(vec![])),
        ],
    });
    env.objects.push(thread_object(vec![]));
    let err = assemble_parse_request(&env, 0, 1).unwrap_err();
    assert_eq!(err, BridgeError::FieldNotFound);
}

#[test]
fn boundary_raises_exactly_one_error_on_decode_failure() {
    // A failed call with no pending host fault raises exactly one error and
    // returns the safe sentinel.
    let (value, action) = unwrap_exc_or(Err::<u32, _>(BridgeError::FieldNotFound), false, 0);
    assert_eq!(value, 0);
    assert_eq!(action, BoundaryAction::RaiseHostError);
    // With a pending host fault, the boundary defers instead of raising a
    // second error.
    let (value, action) = unwrap_exc_or(Err::<u32, _>(BridgeError::FieldNotFound), true, 0);
    assert_eq!(value, 0);
    assert_eq!(action, BoundaryAction::DeferToPendingFault);
}

#[test]
fn boundary_passes_successful_results_through() {
    let (value, action) = unwrap_exc_or(Ok::<u32, BridgeError>(7), false, 0);
    assert_eq!(value, 7);
    assert_eq!(action, BoundaryAction::ReturnResult);
}

#[test]
fn error_diagnostics_are_exact() {
    assert_eq!(
        BridgeError::FieldNotFound.diagnostic(),
        "required host object field is absent"
    );
    assert_eq!(
        BridgeError::HostConstructionError.diagnostic(),
        "host-side class lookup or construction failed"
    );
}

#[test]
fn thread_with_zero_posts_is_empty_not_an_error() {
    let mut env = HostEnv { classes: vec![], objects: vec![] };
    env.objects.push(context_object("4chan", "g", 1, vec![], vec![]));
    env.objects.push(thread_object(vec![]));
    let (_, thread) = assemble_parse_request(&env, 0, 1).unwrap();
    assert!(thread.posts.is_empty());
}

#[test]
fn thread_missing_post_list_is_field_not_found() {
    let mut env = HostEnv { classes: vec![], objects: vec![] };
    env.objects.push(context_object("4chan", "g", 1, vec![], vec![]));
    env.objects.push(HostObject { class: "thread".to_string(), fields: vec![] });
    assert_eq!(assemble_parse_request(&env, 0, 1).unwrap_err(), BridgeError::FieldNotFound);
}

#[test]
fn posts_decode_in_order_with_ids_and_comments() {
    let mut env = HostEnv { classes: vec![], objects: vec![] };
    env.objects.push(context_object("4chan", "g", 123, vec![1, 2, 3], vec![2]));
    env.objects.push(post_object(1, 0, Some(">>2 nice")));
    env.objects.push(post_object(2, 5, None));
    env.objects.push(thread_object(vec![Some(1), Some(2)]));
    let (ctx, thread) = assemble_parse_request(&env, 0, 3).unwrap();
    assert!(ctx.is_thread_post(2));
    assert!(ctx.is_my_reply(2));
    assert!(!ctx.is_my_reply(1));
    assert_eq!(thread.posts.len(), 2);
    assert_eq!(thread.posts[0].post_id, 1);
    assert_eq!(thread.posts[0].post_sub_id, 0);
    assert_eq!(thread.posts[0].comment.as_deref(), Some(">>2 nice"));
    assert_eq!(thread.posts[1].post_id, 2);
    assert_eq!(thread.posts[1].comment, None);
}

#[test]
fn post_with_undecodable_comment_degrades_to_no_comment() {
    let mut env = HostEnv { classes: vec![], objects: vec![] };
    env.objects.push(context_object("4chan", "g", 1, vec![], vec![]));
    let mut bad = post_object(9, 0, None);
    bad.fields[2] = field("comment", HostValue::Text(vec![0xFF]));
    env.objects.push(bad);
    env.objects.push(thread_object(vec![Some(1)]));
    let (_, thread) = assemble_parse_request(&env, 0, 2).unwrap();
    assert_eq!(thread.posts[0].post_id, 9);
    assert_eq!(thread.posts[0].comment, None);
}

#[test]
fn descriptor_chain_round_trips() {
    let mut env = HostEnv::with_classes(all_classes());
    let descriptor = PostDescriptor {
        site_name: "4chan".to_string(),
        board_code: "g".to_string(),
        thread_no: 123,
        post_no: 456,
        post_sub_no: 7,
    };
    let h = kuroba_ex_native::descriptor_mapper::map_post_descriptor_to_jobject(
        &mut env,
        &descriptor,
    )
    .unwrap();
    let back =
        kuroba_ex_native::descriptor_mapper::map_jobject_to_post_descriptor(&env, h).unwrap();
    assert_eq!(back, descriptor);
}

#[test]
fn descriptor_round_trips_at_numeric_extremes() {
    let mut env = HostEnv::with_classes(all_classes());
    let descriptor = PostDescriptor {
        site_name: "s".to_string(),
        board_code: "b".to_string(),
        thread_no: u64::MAX,
        post_no: 0,
        post_sub_no: 1 << 63,
    };
    let h = kuroba_ex_native::descriptor_mapper::map_post_descriptor_to_jobject(
        &mut env,
        &descriptor,
    )
    .unwrap();
    let back =
        kuroba_ex_native::descriptor_mapper::map_jobject_to_post_descriptor(&env, h).unwrap();
    assert_eq!(back, descriptor);
}

#[test]
fn descriptor_encode_without_classes_fails_cleanly() {
    let mut env = HostEnv { classes: vec![], objects: vec![] };
    let descriptor = PostDescriptor {
        site_name: "s".to_string(),
        board_code: "b".to_string(),
        thread_no: 1,
        post_no: 2,
        post_sub_no: 0,
    };
    let err = kuroba_ex_native::descriptor_mapper::map_post_descriptor_to_jobject(
        &mut env,
        &descriptor,
    )
    .unwrap_err();
    assert_eq!(err, BridgeError::HostConstructionError);
    assert!(env.objects.is_empty());
}

fn all_variant_samples() -> Vec<SpannableData> {
    vec![
        SpannableData::Quote { post_no: 2 },
        SpannableData::DeadQuote { post_no: 99 },
        SpannableData::UrlLink { link: "https://example.com/a".to_string() },
        SpannableData::BoardLink { board_code: "g".to_string() },
        SpannableData::SearchLink {
            board_code: "g".to_string(),
            search_query: "sticky".to_string(),
        },
        SpannableData::ThreadLink {
            board_code: "a".to_string(),
            thread_no: 1234,
            post_no: 5678,
        },
        SpannableData::Spoiler,
        SpannableData::GreenText,
        SpannableData::BoldText,
        SpannableData::FontSize { size: "12px".to_string() },
        SpannableData::FontWeight { weight: "bold".to_string() },
        SpannableData::Monospace,
        SpannableData::TextForegroundColorRaw { color_hex: "#ff0000".to_string() },
        SpannableData::TextBackgroundColorRaw { color_hex: "#00ff00".to_string() },
        SpannableData::TextForegroundColorId { color_id: 17 },
        SpannableData::TextBackgroundColorId { color_id: -3 },
    ]
}

#[test]
fn every_variant_round_trips_with_its_span() {
    let mut env = HostEnv::with_classes(all_classes());
    let spannables: Vec<Spannable> = all_variant_samples()
        .into_iter()
        .enumerate()
        .map(|(i, data)| Spannable {
            start: i as u32 * 10,
            len: i as u32 + 1,
            spannable_data: data,
        })
        .collect();
    let arr = spannables_to_java_object(&mut env, &spannables).unwrap();
    assert_eq!(arr.len(), 16);
    for (i, element) in arr.iter().enumerate() {
        let handle = element.expect("array element must not be null");
        let back = map_jobject_to_spannable(&env, handle).unwrap();
        assert_eq!(back, spannables[i]);
    }
}

#[test]
fn spannable_encode_without_variant_class_fails_cleanly() {
    let mut env = HostEnv::with_classes(vec![format_spannables_object_signature(
        "PostCommentSpannable",
    )]);
    let spannables = vec![Spannable {
        start: 0,
        len: 1,
        spannable_data: SpannableData::Spoiler,
    }];
    let err = spannables_to_java_object(&mut env, &spannables).unwrap_err();
    assert_eq!(err, BridgeError::HostConstructionError);
    assert!(env.objects.is_empty());
}

#[test]
fn result_array_has_one_element_per_input_post_in_order() {
    let mut env = HostEnv::with_classes(all_classes());
    let posts = vec![
        ParsedPost {
            post_id: 1,
            post_sub_id: 0,
            post_comment_parsed: Some(ParsedComment {
                original_text: "a".to_string(),
                parsed_text: "a".to_string(),
                spannables: vec![],
            }),
        },
        ParsedPost { post_id: 2, post_sub_id: 0, post_comment_parsed: None },
        ParsedPost {
            post_id: 3,
            post_sub_id: 1,
            post_comment_parsed: Some(ParsedComment {
                original_text: "b".to_string(),
                parsed_text: "b!".to_string(),
                spannables: vec![],
            }),
        },
    ];
    let h = map_thread_parsed(&mut env, &posts).unwrap();
    let envelope = &env.objects[h];
    assert_eq!(
        envelope.class,
        format_post_parsing_object_signature("ThreadParsed")
    );
    let list = match get_field(envelope, "postParsedList") {
        HostValue::ObjArray(a) => a.clone(),
        other => panic!("postParsedList is not an object array: {:?}", other),
    };
    assert_eq!(list.len(), 3);
    // Element 1 is the null marker for the post with no parsed comment.
    assert!(list[1].is_none());
    // Elements 0 and 2 carry the matching post ids, at matching indices.
    for (i, expected_id) in [(0usize, 1i64), (2usize, 3i64)] {
        let ph = list[i].expect("parsed post element must be present");
        let post_obj = &env.objects[ph];
        match get_field(post_obj, "postId") {
            HostValue::Long(id) => assert_eq!(*id, expected_id),
            other => panic!("postId is not a long: {:?}", other),
        }
    }
}

#[test]
fn empty_result_list_yields_empty_array_not_error() {
    let mut env = HostEnv::with_classes(all_classes());
    let h = map_thread_parsed(&mut env, &vec![]).unwrap();
    let list = match get_field(&env.objects[h], "postParsedList") {
        HostValue::ObjArray(a) => a.clone(),
        other => panic!("postParsedList is not an object array: {:?}", other),
    };
    assert!(list.is_empty());
}

#[test]
fn post_without_comment_becomes_null_marker_not_fault() {
    let mut env = HostEnv::with_classes(all_classes());
    let posts = vec![ParsedPost { post_id: 5, post_sub_id: 0, post_comment_parsed: None }];
    let h = map_thread_parsed(&mut env, &posts).unwrap();
    let list = match get_field(&env.objects[h], "postParsedList") {
        HostValue::ObjArray(a) => a.clone(),
        other => panic!("postParsedList is not an object array: {:?}", other),
    };
    assert_eq!(list, vec![None]);
}

#[test]
fn quote_result_encodes_expected_span_and_payload() {
    // The engine contract for context {siteName:"4chan", boardCode:"g",
    // threadId:123, threadPosts:[1,2,3], myRepliesInThread:[2]} and the
    // single post {postId:1, postSubId:0, comment:">>2 nice"}: one result
    // whose spannable list holds one Quote{post_no:2} spanning ">>2".
    let mut env = HostEnv { classes: all_classes(), objects: vec![] };
    env.objects.push(context_object("4chan", "g", 123, vec![1, 2, 3], vec![2]));
    env.objects.push(post_object(1, 0, Some(">>2 nice")));
    env.objects.push(thread_object(vec![Some(1)]));
    let (ctx, thread) = assemble_parse_request(&env, 0, 2).unwrap();
    assert_eq!(thread.posts.len(), 1);
    assert!(ctx.is_thread_post(2));

    // The engine's output for that request, per its contract.
    let parsed = vec![ParsedPost {
        post_id: 1,
        post_sub_id: 0,
        post_comment_parsed: Some(ParsedComment {
            original_text: ">>2 nice".to_string(),
            parsed_text: ">>2 nice".to_string(),
            spannables: vec![Spannable {
                start: 0,
                len: 3,
                spannable_data: SpannableData::Quote { post_no: 2 },
            }],
        }),
    }];
    let h = map_thread_parsed(&mut env, &parsed).unwrap();
    let list = match get_field(&env.objects[h], "postParsedList") {
        HostValue::ObjArray(a) => a.clone(),
        other => panic!("postParsedList is not an object array: {:?}", other),
    };
    assert_eq!(list.len(), 1);
    let post_obj = &env.objects[list[0].unwrap()];
    let comment_h = match get_field(post_obj, "postCommentParsed") {
        HostValue::Obj(ch) => *ch,
        other => panic!("postCommentParsed is not an object: {:?}", other),
    };
    let comment_obj = &env.objects[comment_h];
    let spannable_list = match get_field(comment_obj, "spannableList") {
        HostValue::ObjArray(a) => a.clone(),
        other => panic!("spannableList is not an object array: {:?}", other),
    };
    assert_eq!(spannable_list.len(), 1);
    let back = map_jobject_to_spannable(&env, spannable_list[0].unwrap()).unwrap();
    assert_eq!(back.start, 0);
    assert_eq!(back.len, 3);
    assert_eq!(back.spannable_data, SpannableData::Quote { post_no: 2 });
}

#[test]
fn invalid_handle_is_an_internal_fault() {
    let env = HostEnv { classes: vec![], objects: vec![] };
    assert_eq!(assemble_parse_request(&env, 7, 9).unwrap_err(), BridgeError::InternalFault);
}

#[test]
fn null_post_list_element_is_field_not_found() {
    let mut env = HostEnv { classes: vec![], objects: vec![] };
    env.objects.push(context_object("4chan", "g", 1, vec![], vec![]));
    env.objects.push(post_object(1, 0, None));
    env.objects.push(thread_object(vec![Some(1), None]));
    assert_eq!(assemble_parse_request(&env, 0, 2).unwrap_err(), BridgeError::FieldNotFound);
}

#[test]
fn post_encode_without_classes_fails_cleanly() {
    let mut env = HostEnv { classes: vec![], objects: vec![] };
    let post = ParsedPost { post_id: 1, post_sub_id: 0, post_comment_parsed: None };
    let err = map_to_post_parsed(&mut env, &post).unwrap_err();
    assert_eq!(err, BridgeError::HostConstructionError);
    assert!(env.objects.is_empty());
}
