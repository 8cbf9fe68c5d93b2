use bytes::Bytes;
use nifi_rust::context::{ProcessContext, ProcessSession};
use nifi_rust::flowfile::FlowFile;
use nifi_rust::processor::{ProcessorError, PropertyDescriptor, PropertyValue, Relationship};
use nifi_rust::str_map::StrMap;
use nifi_rust::text::{i64_to_string, parse_u64, replace_str, trim_str};
use nifi_rust::wire::{
    apply_schedule, flowfile_from_proto, flowfile_to_proto, lifecycle_response, processor_not_found,
    processor_type_info, property_from_proto, property_to_proto, relationship_to_proto, trigger_failure,
    trigger_response, FlowFileMessage, PropertyValueKind, PropertyValueMessage,
};

#[test]
fn descriptor_defaults_render_as_text() {
    let d = PropertyDescriptor::new("a").default_value(PropertyValue::Integer(-42)).build();
    assert_eq!(property_to_proto(&d).default_value, "-42");
    let d = PropertyDescriptor::new("a").default_value(PropertyValue::Boolean(false)).build();
    assert_eq!(property_to_proto(&d).default_value, "false");
    let d = PropertyDescriptor::new("a")
        .default_value(PropertyValue::Duration(std::time::Duration::from_millis(2500)))
        .allowable_values(vec!["x", "y"])
        .build();
    let m = property_to_proto(&d);
    assert_eq!(m.default_value, "2500");
    assert_eq!(m.allowable_values, vec!["x", "y"]);
    assert_eq!(m.display_name, "a");
    let none = property_to_proto(&PropertyDescriptor::new("b").build());
    assert_eq!(none.default_value, "");
    assert!(none.allowable_values.is_empty());
    let r = relationship_to_proto(&Relationship::failure());
    assert_eq!(r.name, "failure");
    assert!(!r.auto_terminate);
}

#[test]
fn flowfile_messages_round_trip() {
    let mut attrs = StrMap::new();
    attrs.insert("k".to_string(), "v".to_string());
    let msg = FlowFileMessage {
        id: "550e8400-e29b-41d4-a716-446655440000".to_string(),
        attributes: attrs,
        content: b"data".to_vec(),
        size: 99,
        entry_date: 5,
        lineage_start_date: 3,
    };
    let ff = flowfile_from_proto(msg);
    assert_eq!(ff.id, 0x550e8400_e29b_41d4_a716_446655440000);
    assert_eq!(ff.get_attribute("k"), Some("v"));
    assert_eq!(ff.size, 99);
    assert_eq!(ff.content(), Some(&Bytes::from("data")));
    let back = flowfile_to_proto(&ff);
    assert_eq!(back.id, "550e8400-e29b-41d4-a716-446655440000");
    assert_eq!(back.content, b"data".to_vec());
    assert_eq!(back.entry_date, 5);
    assert_eq!(back.attributes.get("k"), Some(&"v".to_string()));

    let empty = flowfile_from_proto(FlowFileMessage {
        id: "nope".to_string(),
        attributes: StrMap::new(),
        content: vec![],
        size: 0,
        entry_date: 0,
        lineage_start_date: 0,
    });
    assert!(!empty.has_content());
    assert!(flowfile_to_proto(&empty).content.is_empty());
}

#[test]
fn property_messages_and_schedule() {
    let none = PropertyValueMessage { name: "x".into(), value: None };
    assert!(property_from_proto(&none).is_none());
    let d = PropertyValueMessage { name: "d".into(), value: Some(PropertyValueKind::DurationMillis(1500)) };
    let (n, v) = property_from_proto(&d).unwrap();
    assert_eq!(n, "d");
    assert_eq!(v.as_duration(), Some(std::time::Duration::from_millis(1500)));

    let mut ctx = ProcessContext::new("id", "name");
    ctx.set_property("keep", PropertyValue::Boolean(true));
    let props = vec![
        PropertyValueMessage { name: "a".into(), value: Some(PropertyValueKind::IntValue(1)) },
        PropertyValueMessage { name: "a".into(), value: Some(PropertyValueKind::StringValue("two".into())) },
        PropertyValueMessage { name: "b".into(), value: Some(PropertyValueKind::BoolValue(false)) },
        PropertyValueMessage { name: "b".into(), value: None },
    ];
    apply_schedule(&mut ctx, 4, 250, &props);
    assert!(ctx.is_scheduled);
    assert_eq!(ctx.max_concurrent_tasks, 4);
    assert_eq!(ctx.scheduling_period_millis, 250);
    assert_eq!(ctx.get_property_string("a"), Some("two"));
    assert_eq!(ctx.get_property_bool("b"), Some(false));
    assert_eq!(ctx.get_property_bool("keep"), Some(true));
    apply_schedule(&mut ctx, -1, -1, &[]);
    assert_eq!(ctx.max_concurrent_tasks, u32::MAX);
    assert_eq!(ctx.scheduling_period_millis, u64::MAX);
}

#[test]
fn trigger_responses() {
    let mut session = ProcessSession::with_input(vec![FlowFile::new(), FlowFile::new()]);
    let a = session.get().unwrap();
    session.transfer(a, Relationship::success());
    let b = session.get().unwrap();
    let b_id = b.id;
    session.remove(b);
    let r = trigger_response(&mut session);
    assert!(r.success);
    assert_eq!(r.error_message, "");
    assert_eq!(r.transferred.len(), 1);
    assert_eq!(r.transferred[0].relationship, "success");
    assert_eq!(r.removed_ids, vec![uuid::Uuid::from_u128(b_id).to_string()]);
    assert!(session.get_transferred().is_empty());
    let f = trigger_failure("boom".to_string());
    assert!(!f.success);
    assert_eq!(f.error_message, "boom");
    assert_eq!(processor_not_found("p1"), "Processor not found: p1");
    let ok = lifecycle_response(&Ok(()));
    assert!(ok.success);
    let bad = lifecycle_response(&Err(ProcessorError::InvalidConfig("x".into())));
    assert!(!bad.success);
    assert_eq!(bad.error_message, "Invalid configuration: x");
    let info = processor_type_info("t", "d", &[PropertyDescriptor::new("p").build()], &[Relationship::success()]);
    assert_eq!(info.processor_type, "t");
    assert_eq!(info.properties.len(), 1);
    assert_eq!(info.relationships[0].name, "success");
}

#[test]
fn text_helpers() {
    assert_eq!(i64_to_string(i64::MIN), "-9223372036854775808");
    assert_eq!(i64_to_string(0), "0");
    assert_eq!(parse_u64("007"), Some(7));
    assert_eq!(parse_u64("+"), None);
    assert_eq!(parse_u64("-1"), None);
    assert_eq!(parse_u64(""), None);
    assert_eq!(trim_str("  a b \n"), "a b");
    assert_eq!(replace_str("aaaa", "aa", "b"), "bb");
    assert_eq!(replace_str("abc", "x", "y"), "abc");
}

#[test]
fn trigger_response_sends_whole_flowfiles() {
    let mut ff = FlowFile::with_content(Bytes::from("payload"));
    ff.put_attribute("k", "v");
    ff.entry_date = 11;
    ff.lineage_start_date = 7;
    let id = ff.id;
    let mut session = ProcessSession::with_input(vec![ff]);
    let a = session.get().unwrap();
    session.transfer(a, Relationship::failure());
    let r = trigger_response(&mut session);
    let m = r.transferred[0].flowfile.as_ref().unwrap();
    assert_eq!(m.id, uuid::Uuid::from_u128(id).to_string());
    assert_eq!(m.content, b"payload".to_vec());
    assert_eq!(m.size, 7);
    assert_eq!(m.entry_date, 11);
    assert_eq!(m.lineage_start_date, 7);
    assert_eq!(m.attributes.get("k").map(|s| s.as_str()), Some("v"));
    assert_eq!(r.transferred[0].relationship, "failure");
}

#[test]
fn processor_type_info_sends_whole_descriptors() {
    let p = PropertyDescriptor::new("p")
        .display_name("P")
        .description("desc")
        .required(true)
        .sensitive(true)
        .expression_language_supported(true)
        .allowable_values(vec!["a", "b"])
        .default_value(PropertyValue::Integer(-3))
        .build();
    let info = processor_type_info("t", "d", &[p], &[Relationship::failure(), Relationship::original()]);
    let m = &info.properties[0];
    assert_eq!(m.display_name, "P");
    assert_eq!(m.description, "desc");
    assert!(m.required && m.sensitive && m.expression_language_supported);
    assert_eq!(m.allowable_values, vec!["a".to_string(), "b".to_string()]);
    assert_eq!(m.default_value, "-3");
    assert_eq!(info.relationships[0].description, "FlowFiles that failed processing");
    assert!(!info.relationships[1].auto_terminate);
    assert_eq!(info.relationships[1].name, "original");
}

#[test]
fn unparsable_message_id_gets_a_fresh_v4_id() {
    let msg = FlowFileMessage {
        id: "not-a-uuid".to_string(),
        attributes: StrMap::new(),
        content: vec![],
        size: 0,
        entry_date: 1,
        lineage_start_date: 2,
    };
    let ff = flowfile_from_proto(msg);
    assert_eq!((ff.id >> 76) & 0xF, 4);
    assert_eq!(ff.entry_date, 1);
}
