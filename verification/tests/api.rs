use bytes::Bytes;
use nifi_rust::context::{ProcessContext, ProcessSession, SessionError};
use nifi_rust::flowfile::{FlowFile, FlowFileBatch};
use nifi_rust::processor::{ProcessorError, PropertyDescriptor, PropertyValue, Relationship};

#[test]
fn test_process_context() {
    let mut ctx = ProcessContext::new("proc-1", "MyProcessor");
    ctx.set_property("batch.size", PropertyValue::Integer(100));
    ctx.set_property("connection.url", PropertyValue::String("localhost:6379".into()));

    assert_eq!(ctx.get_property_int("batch.size"), Some(100));
    assert_eq!(ctx.get_property_string("connection.url"), Some("localhost:6379"));
    assert!(ctx.has_property("batch.size"));
    assert!(!ctx.has_property("nonexistent"));
}

#[test]
fn test_process_session_create_and_transfer() {
    let mut session = ProcessSession::new();

    let mut ff = session.create();
    ff.put_attribute("test", "value");
    session.write_content(&mut ff, Bytes::from("hello"));

    assert!(session.has_pending());

    session.transfer(ff, Relationship::success());

    assert!(!session.has_pending());
    assert_eq!(session.get_transferred().len(), 1);
    assert!(session.commit().is_ok());
}

#[test]
fn test_process_session_input_queue() {
    let input_ffs = vec![FlowFile::new(), FlowFile::new(), FlowFile::new()];
    let mut session = ProcessSession::with_input(input_ffs);

    assert!(session.has_input());
    assert_eq!(session.input_count(), 3);

    let ff1 = session.get().unwrap();
    session.transfer(ff1, Relationship::success());

    let ff2 = session.get().unwrap();
    session.remove(ff2);

    let ff3 = session.get().unwrap();
    session.transfer(ff3, Relationship::failure());

    assert!(!session.has_input());
    assert!(!session.has_pending());
    assert!(session.commit().is_ok());

    let stats = session.stats();
    assert_eq!(stats.transferred_count, 2);
    assert_eq!(stats.removed_count, 1);
}

#[test]
fn test_process_session_pending_error() {
    let mut session = ProcessSession::new();
    let _ff = session.create();

    assert!(session.has_pending());
    assert!(session.commit().is_err());
}

#[test]
fn test_process_session_rollback() {
    let input_ffs = vec![FlowFile::new()];
    let mut session = ProcessSession::with_input(input_ffs);

    let ff = session.get().unwrap();
    session.transfer(ff, Relationship::success());

    assert!(!session.has_input());
    assert_eq!(session.get_transferred().len(), 1);

    session.rollback();

    assert!(session.has_input());
    assert!(session.get_transferred().is_empty());
}

#[test]
fn test_flowfile_creation() {
    let ff = FlowFile::new();
    assert!(!ff.has_content());
    assert!(ff.attributes.is_empty());
}

#[test]
fn test_flowfile_with_content() {
    let content = Bytes::from("Hello, NiFi!");
    let ff = FlowFile::with_content(content.clone());

    assert!(ff.has_content());
    assert_eq!(ff.size, 12);
    assert_eq!(ff.content_as_string(), Some("Hello, NiFi!".to_string()));
}

#[test]
fn test_flowfile_attributes() {
    let mut ff = FlowFile::new();

    ff.put_attribute("key1", "value1");
    ff.put_attribute("key2", "value2");

    assert_eq!(ff.get_attribute("key1"), Some("value1"));
    assert_eq!(ff.get_attribute("key2"), Some("value2"));
    assert_eq!(ff.get_attribute("key3"), None);

    ff.remove_attribute("key1");
    assert_eq!(ff.get_attribute("key1"), None);
}

#[test]
fn test_flowfile_filename() {
    let mut ff = FlowFile::new();
    ff.set_filename("test.txt");
    ff.set_path("/data/input/");
    ff.set_mime_type("text/plain");

    assert_eq!(ff.filename(), Some("test.txt"));
    assert_eq!(ff.path(), Some("/data/input/"));
    assert_eq!(ff.mime_type(), Some("text/plain"));
}

#[test]
fn test_flowfile_batch() {
    let mut batch = FlowFileBatch::new();
    batch.add(FlowFile::new());
    batch.add(FlowFile::new());

    assert_eq!(batch.len(), 2);
    assert!(!batch.is_empty());
}

#[test]
fn test_clone_with_new_id() {
    let mut ff = FlowFile::new();
    ff.put_attribute("test", "value");
    ff.set_content(Bytes::from("content"));

    let cloned = ff.clone_with_new_id();

    assert_ne!(ff.id, cloned.id);
    assert_eq!(ff.get_attribute("test"), cloned.get_attribute("test"));
    assert_eq!(ff.size, cloned.size);
}

#[test]
fn test_relationship_constants() {
    assert_eq!(Relationship::success().name, "success");
    assert_eq!(Relationship::failure().name, "failure");
}

#[test]
fn test_property_descriptor_builder() {
    let prop = PropertyDescriptor::new("my.property")
        .display_name("My Property")
        .description("A custom property")
        .required(true)
        .sensitive(true)
        .build();

    assert_eq!(prop.name, "my.property");
    assert_eq!(prop.display_name, "My Property");
    assert!(prop.required);
    assert!(prop.sensitive);
}

#[test]
fn test_property_value_conversions() {
    let s: PropertyValue = "hello".into();
    assert_eq!(s.as_str(), Some("hello"));

    let i: PropertyValue = 42i64.into();
    assert_eq!(i.as_i64(), Some(42));

    let b: PropertyValue = true.into();
    assert_eq!(b.as_bool(), Some(true));
}

// ---- further scenarios and laws on concrete values

#[test]
fn property_read_after_write_and_overwrite() {
    let mut ctx = ProcessContext::new("p", "n");
    ctx.set_property("a", PropertyValue::Integer(1));
    ctx.set_property("b", PropertyValue::Boolean(true));
    ctx.set_property("a", PropertyValue::String("x".to_string()));
    assert_eq!(ctx.get_property_string("a"), Some("x"));
    assert_eq!(ctx.get_property_int("a"), None);
    assert_eq!(ctx.get_property_bool("b"), Some(true));
    let mut names = ctx.property_names();
    names.sort();
    assert_eq!(names, vec!["a".to_string(), "b".to_string()]);
}

#[test]
fn context_defaults() {
    let ctx = ProcessContext::default();
    assert_eq!(ctx.processor_id, "");
    assert_eq!(ctx.max_concurrent_tasks, 1);
    assert_eq!(ctx.scheduling_period_millis, 0);
    assert!(!ctx.is_scheduled);
    assert!(ctx.get_property("x").is_none());
}

#[test]
fn builder_display_name_defaults_to_name() {
    let prop = PropertyDescriptor::new("p.q").build();
    assert_eq!(prop.display_name, "p.q");
    assert_eq!(prop.description, "");
    assert!(!prop.required);
    assert!(prop.default_value.is_none());
    assert!(prop.allowable_values.is_none());
}

#[test]
fn builder_keeps_every_setting() {
    let prop = PropertyDescriptor::new("p")
        .expression_language_supported(true)
        .default_value(PropertyValue::Integer(5))
        .allowable_values(vec!["a", "b"])
        .build();
    assert!(prop.expression_language_supported);
    assert_eq!(prop.default_value.and_then(|v| v.as_i64()), Some(5));
    assert_eq!(prop.allowable_values, Some(vec!["a", "b"]));
}

#[test]
fn property_value_kinds_are_exclusive() {
    let d = PropertyValue::Duration(std::time::Duration::from_millis(1500));
    assert_eq!(d.as_duration(), Some(std::time::Duration::from_millis(1500)));
    assert_eq!(d.as_str(), None);
    assert_eq!(d.as_i64(), None);
    assert_eq!(d.as_bool(), None);
    let s: PropertyValue = String::from("t").into();
    assert_eq!(s.as_str(), Some("t"));
}

#[test]
fn session_pending_saturates_at_zero() {
    let mut session = ProcessSession::new();
    session.transfer(FlowFile::new(), Relationship::success());
    assert!(!session.has_pending());
    assert_eq!(session.stats().pending_count, 0);
    session.remove(FlowFile::new());
    assert_eq!(session.stats().pending_count, 0);
}

#[test]
fn session_commit_error_reports_pending_count() {
    let mut session = ProcessSession::new();
    let a = session.create();
    let _b = session.create_with_content(Bytes::from("x"));
    let _c = session.clone_flowfile(&a);
    match session.commit() {
        Err(SessionError::PendingFlowFiles(n)) => assert_eq!(n, 3),
        _ => panic!("expected pending error"),
    }
    assert_eq!(
        SessionError::PendingFlowFiles(3).message(),
        "Session has 3 pending FlowFiles that were not transferred or removed"
    );
    assert_eq!(SessionError::FlowFileNotFound("x".into()).message(), "FlowFile not found: x");
    assert_eq!(SessionError::InvalidOperation("y".into()).message(), "Invalid operation: y");
}

#[test]
fn session_get_takes_last_and_peek_leaves_it() {
    let mut first = FlowFile::new();
    first.put_attribute("n", "1");
    let mut second = FlowFile::new();
    second.put_attribute("n", "2");
    let mut session = ProcessSession::with_input(vec![first, second]);
    assert_eq!(session.peek().unwrap().get_attribute("n"), Some("2"));
    assert_eq!(session.input_count(), 2);
    let got = session.get().unwrap();
    assert_eq!(got.get_attribute("n"), Some("2"));
    assert_eq!(session.input_count(), 1);
}

#[test]
fn session_rollback_returns_transferred_then_removed() {
    let mut a = FlowFile::new();
    a.put_attribute("n", "a");
    let mut b = FlowFile::new();
    b.put_attribute("n", "b");
    let mut session = ProcessSession::with_input(vec![a, b]);
    let x = session.get().unwrap();
    session.remove(x);
    let y = session.get().unwrap();
    session.transfer(y, Relationship::failure());
    session.rollback();
    assert_eq!(session.input_count(), 2);
    assert!(session.get_removed().is_empty());
    // queue is [transferred a, removed b]; get takes the last
    assert_eq!(session.get().unwrap().get_attribute("n"), Some("b"));
    assert_eq!(session.get().unwrap().get_attribute("n"), Some("a"));
    // rollback leaves the pending count as it was
    assert!(!session.has_pending());
}

#[test]
fn session_take_transferred_and_removed() {
    let mut session = ProcessSession::with_input(vec![FlowFile::new(), FlowFile::new()]);
    let a = session.get().unwrap();
    session.transfer(a, Relationship::original());
    let b = session.get().unwrap();
    session.remove(b);
    let t = session.take_transferred();
    assert_eq!(t.len(), 1);
    assert_eq!(t[0].relationship.name, "original");
    assert_eq!(session.take_removed().len(), 1);
    assert!(session.get_transferred().is_empty());
    let stats = session.stats();
    assert_eq!(stats.transferred_count, 0);
    assert_eq!(stats.removed_count, 0);
}

#[test]
fn session_attribute_and_content_helpers() {
    let mut session = ProcessSession::new();
    let mut ff = session.create();
    session.put_attribute(&mut ff, "k", "v");
    assert_eq!(ff.get_attribute("k"), Some("v"));
    assert_eq!(session.remove_attribute(&mut ff, "k"), Some("v".to_string()));
    assert_eq!(session.remove_attribute(&mut ff, "k"), None);
    assert!(session.read_content(&ff).is_none());
    session.write_content(&mut ff, Bytes::from("abc"));
    assert_eq!(session.read_content(&ff), Some(Bytes::from("abc")));
    assert_eq!(ff.size, 3);
}

#[test]
fn flowfile_take_content_resets_size() {
    let mut ff = FlowFile::with_content(Bytes::from("12345"));
    assert_eq!(ff.size, 5);
    assert_eq!(ff.take_content(), Some(Bytes::from("12345")));
    assert_eq!(ff.size, 0);
    assert!(!ff.has_content());
    assert_eq!(ff.content_as_string(), None);
}

#[test]
fn flowfile_invalid_utf8_content_is_no_string() {
    let ff = FlowFile::with_content(Bytes::from(vec![0xffu8, 0xfe]));
    assert!(ff.has_content());
    assert_eq!(ff.content_as_string(), None);
}

#[test]
fn flowfile_clone_keeps_lineage_and_content() {
    let mut ff = FlowFile::new();
    ff.set_content(Bytes::from("z"));
    ff.lineage_start_date = 7;
    let c = ff.clone_with_new_id();
    assert_eq!(c.lineage_start_date, 7);
    assert_eq!(c.content(), Some(&Bytes::from("z")));
    let d = ff.duplicate();
    assert_eq!(d.id, ff.id);
}

#[test]
fn flowfile_new_ids_are_version_4() {
    let ff = FlowFile::new();
    assert_eq!((ff.id >> 76) & 0xf, 4);
    assert_eq!((ff.id >> 62) & 0x3, 2);
    assert_eq!(ff.entry_date, ff.lineage_start_date);
}

#[test]
fn processor_error_messages() {
    assert_eq!(ProcessorError::NotInitialized("a".into()).message(), "Not initialized: a");
    assert_eq!(ProcessorError::InvalidConfig("b".into()).message(), "Invalid configuration: b");
    assert_eq!(ProcessorError::Processing("c".into()).message(), "Processing failed: c");
    assert_eq!(ProcessorError::Serialization("d".into()).message(), "Serialization error: d");
    assert_eq!(ProcessorError::Other("e".into()).message(), "e");
    let io: ProcessorError = std::io::Error::new(std::io::ErrorKind::Other, "boom").into();
    assert_eq!(io.message(), "IO error: boom");
    let bad: Result<serde_json::Value, _> = serde_json::from_str("{");
    let e: ProcessorError = bad.unwrap_err().into();
    assert!(matches!(e, ProcessorError::Serialization(_)));
}

#[test]
fn batch_order_and_conversion() {
    let mut a = FlowFile::new();
    a.put_attribute("i", "0");
    let mut b = FlowFile::new();
    b.put_attribute("i", "1");
    let mut batch = FlowFileBatch::default();
    assert!(batch.is_empty());
    batch.add(a);
    batch.add(b);
    assert_eq!(batch.iter()[1].get_attribute("i"), Some("1"));
    batch.iter_mut()[0].put_attribute("i", "zero");
    let v = batch.into_flowfiles();
    assert_eq!(v[0].get_attribute("i"), Some("zero"));
    let back = FlowFileBatch::from_flowfiles(v);
    assert_eq!(back.len(), 2);
}

#[test]
fn commit_fails_while_inputs_wait() {
    let mut s = ProcessSession::with_input(vec![FlowFile::new()]);
    s.transfer(FlowFile::new(), Relationship::success());
    assert_eq!(s.stats().pending_count, 0);
    assert_eq!(s.input_count(), 1);
    match s.commit() {
        Err(SessionError::PendingFlowFiles(n)) => assert_eq!(n, 1),
        _ => panic!("expected pending error"),
    }
    assert_eq!(s.input_count(), 1);
    let ff = s.get().unwrap();
    s.remove(ff);
    assert!(s.commit().is_ok());
}

#[test]
fn property_names_after_writes_are_distinct() {
    let mut ctx = ProcessContext::new("p", "n");
    ctx.set_property("a", PropertyValue::Integer(1));
    ctx.set_property("b", PropertyValue::Boolean(true));
    ctx.set_property("a", PropertyValue::String("x".into()));
    let mut names = ctx.property_names();
    names.sort();
    assert_eq!(names, vec!["a".to_string(), "b".to_string()]);
}

#[test]
fn builder_chain_last_call_wins() {
    let d = PropertyDescriptor::new("p")
        .description("first")
        .required(true)
        .description("second")
        .required(false)
        .sensitive(true)
        .build();
    assert_eq!(d.name, "p");
    assert_eq!(d.display_name, "p");
    assert_eq!(d.description, "second");
    assert!(!d.required);
    assert!(d.sensitive);
    assert!(!d.expression_language_supported);
    assert!(d.default_value.is_none());
    assert!(d.allowable_values.is_none());
}

#[test]
fn rollback_after_run_restores_inputs() {
    let a = FlowFile::new();
    let b = FlowFile::new();
    let ids = vec![a.id, b.id];
    let mut s = ProcessSession::with_input(vec![a, b]);
    let x = s.get().unwrap();
    s.transfer(x, Relationship::success());
    let y = s.get().unwrap();
    s.remove(y);
    let pending = s.stats().pending_count;
    s.rollback();
    assert!(s.get_transferred().is_empty());
    assert!(s.get_removed().is_empty());
    assert_eq!(s.input_count(), 2);
    assert_eq!(s.stats().pending_count, pending);
    let mut back = vec![s.get().unwrap().id, s.get().unwrap().id];
    back.sort();
    let mut expected = ids;
    expected.sort();
    assert_eq!(back, expected);
}

#[test]
fn pending_counts_created_flowfiles() {
    let mut s = ProcessSession::with_input(vec![FlowFile::new()]);
    let x = s.get().unwrap();
    let c = s.create();
    let d = s.clone_flowfile(&c);
    assert_eq!(s.stats().pending_count, 3);
    s.transfer(x, Relationship::success());
    s.remove(c);
    let st = s.stats();
    assert_eq!(st.pending_count, 1 + 2 - st.transferred_count - st.removed_count);
    assert!(s.commit().is_err());
    s.transfer(d, Relationship::failure());
    assert!(s.commit().is_ok());
}

#[test]
fn clones_get_fresh_version_4_ids() {
    let mut ff = FlowFile::with_content(Bytes::from("c"));
    assert_eq!((ff.id >> 76) & 0xF, 4);
    ff.id = 0;
    let c = ff.clone_with_new_id();
    assert_eq!((c.id >> 76) & 0xF, 4);
    assert_eq!((c.id >> 62) & 0x3, 2);
    let mut s = ProcessSession::new();
    let d = s.clone_flowfile(&ff);
    assert_eq!((d.id >> 76) & 0xF, 4);
    assert_eq!((d.id >> 62) & 0x3, 2);
}
