use bytes::Bytes;
use nifi_rust::context::{ProcessContext, ProcessSession};
use nifi_rust::flowfile::FlowFile;
use nifi_rust::frost::consume_frost_bus::{parse_job_types, ConsumeAction, ConsumeFrostBus};
use nifi_rust::frost::deploy_k8s::{DeployConfig, DeployStrategy, DeployToK8s};
use nifi_rust::frost::lookup_build_config::{BuildConfig as LookupConfig, LookupBuildConfig};
use nifi_rust::frost::publish_frost_bus::PublishFrostBus;
use nifi_rust::frost::self_deploy_gate::{SelfDeployGate, TimerUpdate};
use nifi_rust::frost::trigger_kaniko::{BuildConfig as KanikoConfig, TriggerKanikoBuild};
use nifi_rust::frost::FrostJob;
use nifi_rust::processor::{ProcessorError, PropertyValue};

#[test]
fn consume_frost_bus_test_processor_metadata() {
    let processor = ConsumeFrostBus::default();
    assert_eq!(processor.get_type(), "org.apache.nifi.frost.ConsumeFrostBus");
    assert!(!processor.get_property_descriptors().is_empty());
    assert!(!processor.get_relationships().is_empty());
}

#[test]
fn deploy_k8s_test_processor_metadata() {
    let processor = DeployToK8s::default();
    assert_eq!(processor.get_type(), "org.apache.nifi.frost.DeployToK8s");
    assert!(!processor.get_property_descriptors().is_empty());
    assert_eq!(processor.get_relationships().len(), 2);
}

#[test]
fn lookup_build_config_test_processor_metadata() {
    let processor = LookupBuildConfig::default();
    assert_eq!(processor.get_type(), "org.apache.nifi.frost.LookupBuildConfig");
    assert!(!processor.get_property_descriptors().is_empty());
    assert_eq!(processor.get_relationships().len(), 3);
}

#[test]
fn test_normalize_git_url() {
    let processor = LookupBuildConfig::default();

    assert_eq!(
        processor.normalize_git_url("https://github.com/owner/repo.git"),
        "https://github.com/owner/repo"
    );

    assert_eq!(
        processor.normalize_git_url("git@github.com:owner/repo.git"),
        "https://github.com/owner/repo"
    );

    assert_eq!(
        processor.normalize_git_url("https://github.com/owner/repo"),
        "https://github.com/owner/repo"
    );
}

#[test]
fn publish_frost_bus_test_processor_metadata() {
    let processor = PublishFrostBus::default();
    assert_eq!(processor.get_type(), "org.apache.nifi.frost.PublishFrostBus");
    assert!(!processor.get_property_descriptors().is_empty());
    assert_eq!(processor.get_relationships().len(), 2);
}

#[test]
fn self_deploy_gate_test_processor_metadata() {
    let processor = SelfDeployGate::default();
    assert_eq!(processor.get_type(), "org.apache.nifi.frost.SelfDeployGate");
    assert!(!processor.get_property_descriptors().is_empty());
    assert_eq!(processor.get_relationships().len(), 3);
}

#[test]
fn trigger_kaniko_test_processor_metadata() {
    let processor = TriggerKanikoBuild::default();
    assert_eq!(processor.get_type(), "org.apache.nifi.frost.TriggerKanikoBuild");
    assert!(!processor.get_property_descriptors().is_empty());
    assert_eq!(processor.get_relationships().len(), 3);
}

// ---- own scenarios

fn job(job_type: &str) -> FrostJob {
    let mut j = FrostJob::new(job_type, b"{\"a\":1}".to_vec());
    j.id = 0x0123_4567_89ab_cdef_0123_4567_89ab_cdef;
    j
}

#[test]
fn job_type_lists_are_trimmed_without_empties() {
    assert_eq!(parse_job_types(" build , deploy,,  ,x "), vec!["build", "deploy", "x"]);
    assert!(parse_job_types("").is_empty());
    assert!(parse_job_types(" , ").is_empty());
    assert_eq!(parse_job_types("\tone\u{3000}"), vec!["one"]);
}

#[test]
fn consume_applies_properties() {
    let mut p = ConsumeFrostBus::default();
    let mut ctx = ProcessContext::new("c", "c");
    assert!(matches!(p.redis_url(&ctx), Err(ProcessorError::InvalidConfig(m)) if m == "redis.url is required"));
    ctx.set_property("redis.url", PropertyValue::String("redis://h:1".into()));
    ctx.set_property("queue.name", PropertyValue::String("q".into()));
    ctx.set_property("job.types", PropertyValue::String("a,b".into()));
    ctx.set_property("batch.size", PropertyValue::Integer(3));
    p.apply_properties(&ctx);
    assert_eq!(p.redis_url(&ctx).unwrap(), "redis://h:1");
    assert_eq!(p.queue_name, "q");
    assert_eq!(p.job_types, vec!["a", "b"]);
    assert_eq!(p.batch_size, 3);
    assert_eq!(p.block_timeout_ms, 1000);
}

#[test]
fn consume_decides_by_job_type() {
    let mut p = ConsumeFrostBus::default();
    assert!(matches!(p.decide(None), ConsumeAction::Stop));
    assert!(matches!(p.decide(Some(&job("any"))), ConsumeAction::Emit));
    p.job_types = vec!["build".to_string()];
    assert!(matches!(p.decide(Some(&job("build"))), ConsumeAction::Emit));
    assert!(matches!(p.decide(Some(&job("deploy"))), ConsumeAction::Requeue));
}

#[test]
fn consume_emits_job_flowfile() {
    let p = ConsumeFrostBus::default();
    let mut session = ProcessSession::new();
    let mut j = job("build");
    j.workspace_id = Some(1);
    p.emit_job(&mut session, &j);
    let t = session.get_transferred();
    assert_eq!(t.len(), 1);
    assert_eq!(t[0].relationship.name, "success");
    let ff = &t[0].flowfile;
    assert_eq!(ff.get_attribute("frost.job.id"), Some("01234567-89ab-cdef-0123-456789abcdef"));
    assert_eq!(ff.get_attribute("frost.job.type"), Some("build"));
    assert_eq!(ff.get_attribute("frost.workspace.id"), Some("00000000-0000-0000-0000-000000000001"));
    assert_eq!(ff.get_attribute("frost.project.id"), None);
    assert_eq!(ff.content_as_string(), Some("{\"a\":1}".to_string()));
    assert!(!session.has_pending());
    assert!(matches!(p.job_parse_error("bad"), ProcessorError::Serialization(m) if m == "Failed to parse job: bad"));
}

#[test]
fn publish_prepares_jobs() {
    let p = PublishFrostBus::default();
    let mut ff = FlowFile::with_content(Bytes::from("{ \"k\" : [1, 2] }"));
    ff.put_attribute("frost.workspace.id", "00000000-0000-0000-0000-00000000000a");
    ff.put_attribute("frost.project.id", "not-a-uuid");
    let j = p.prepare_job(&ff);
    assert_eq!(j.job_type, "generic");
    assert_eq!(j.payload, b"{\"k\":[1,2]}".to_vec());
    assert_eq!(j.workspace_id, Some(10));
    assert_eq!(j.project_id, None);
    assert_eq!(j.status, "queued");

    let mut raw = FlowFile::with_content(Bytes::from("not json"));
    raw.put_attribute("frost.job.type", "custom");
    let j2 = p.prepare_job(&raw);
    assert_eq!(j2.job_type, "custom");
    assert_eq!(j2.payload, b"{\"raw\":\"not json\"}".to_vec());

    let empty = FlowFile::new();
    assert_eq!(p.prepare_job(&empty).payload, b"{}".to_vec());
}

#[test]
fn publish_records_outcomes() {
    let p = PublishFrostBus::default();
    let mut session = ProcessSession::new();
    p.record_publish(&mut session, FlowFile::new(), 255, true);
    p.record_publish(&mut session, FlowFile::new(), 255, false);
    let t = session.get_transferred();
    assert_eq!(t[0].relationship.name, "success");
    assert_eq!(t[0].flowfile.get_attribute("frost.job.id"), Some("00000000-0000-0000-0000-0000000000ff"));
    assert_eq!(t[1].relationship.name, "failure");
    assert_eq!(t[1].flowfile.get_attribute("frost.job.id"), None);
}

#[test]
fn lookup_extracts_git_repo() {
    let p = LookupBuildConfig::default();
    let mut with_attr = FlowFile::with_content(Bytes::from("not json"));
    with_attr.put_attribute("frost.git.repo", "https://x/y");
    assert_eq!(p.extract_git_repo(&with_attr).unwrap(), "https://x/y");

    let clone = FlowFile::with_content(Bytes::from(
        r#"{"repository":{"clone_url":"https://github.com/a/b.git","html_url":"https://github.com/a/b"}}"#,
    ));
    assert_eq!(p.extract_git_repo(&clone).unwrap(), "https://github.com/a/b.git");

    let html = FlowFile::with_content(Bytes::from(r#"{"repository":{"html_url":"https://github.com/a/c"}}"#));
    assert_eq!(p.extract_git_repo(&html).unwrap(), "https://github.com/a/c");

    let full = FlowFile::with_content(Bytes::from(r#"{"repository":{"full_name":"o/r"}}"#));
    assert_eq!(p.extract_git_repo(&full).unwrap(), "https://github.com/o/r");

    // a clone_url that is not a string hides html_url
    let odd = FlowFile::with_content(Bytes::from(
        r#"{"repository":{"clone_url":null,"html_url":"https://github.com/a/d","full_name":"o/d"}}"#,
    ));
    assert_eq!(p.extract_git_repo(&odd).unwrap(), "https://github.com/o/d");

    let none = FlowFile::new();
    assert!(matches!(p.extract_git_repo(&none), Err(ProcessorError::InvalidConfig(m)) if m == "No git repository URL found in FlowFile"));

    let bad = FlowFile::with_content(Bytes::from("{oops"));
    assert!(matches!(p.extract_git_repo(&bad), Err(ProcessorError::Serialization(m)) if m.starts_with("Failed to parse payload: ")));
}

#[test]
fn lookup_normalizes_every_ssh_prefix_and_builds_query() {
    let p = LookupBuildConfig::default();
    assert_eq!(p.normalize_git_url("git@github.com:a/git@github.com:b"), "https://github.com/a/https://github.com/b");
    assert_eq!(p.normalize_git_url("x/git@github.com:a"), "x/git@github.com:a");
    assert_eq!(p.normalize_git_url("r.git.git"), "r.git");
    let (n, pat) = p.query_params("git@github.com:o/r.git");
    assert_eq!(n, "https://github.com/o/r");
    assert_eq!(pat, "%https://github.com/o/r");
}

fn lookup_config(auto_deploy: bool, target: Option<&str>) -> LookupConfig {
    LookupConfig {
        id: 1,
        workspace_id: 2,
        name: "cfg".into(),
        git_repo: "https://github.com/o/r".into(),
        git_branch: "main".into(),
        dockerfile_path: "Dockerfile".into(),
        context_path: ".".into(),
        image_name: "img".into(),
        build_args: b"{}".to_vec(),
        status: "active".into(),
        auto_build_on_push: true,
        auto_build_branch_pattern: "*".into(),
        memory_request: "1Gi".into(),
        memory_limit: "2Gi".into(),
        cpu_request: "1".into(),
        cpu_limit: "2".into(),
        auto_deploy,
        deploy_target: target.map(|s| s.to_string()),
        deploy_namespace: "ns".into(),
    }
}

#[test]
fn lookup_records_found_config() {
    let p = LookupBuildConfig::default();
    let mut session = ProcessSession::new();
    let json = b"{\"cfg\":true}".to_vec();
    p.record_lookup(&mut session, FlowFile::new(), None, Ok(Some((lookup_config(true, Some("nifi-rs")), json))));
    let ff = &session.get_transferred()[0].flowfile;
    assert_eq!(session.get_transferred()[0].relationship.name, "success");
    assert_eq!(ff.get_attribute("frost.build.config.name"), Some("cfg"));
    assert_eq!(ff.get_attribute("frost.build.cpu_limit"), Some("2"));
    assert_eq!(ff.get_attribute("frost.deploy.enabled"), Some("true"));
    assert_eq!(ff.get_attribute("frost.deploy.target"), Some("nifi-rs"));
    assert_eq!(ff.get_attribute("frost.deploy.namespace"), Some("ns"));
    assert_eq!(ff.get_attribute("frost.workspace.id"), Some("00000000-0000-0000-0000-000000000002"));
    assert_eq!(ff.content_as_string(), Some("{\"cfg\":true}".to_string()));

    let mut s2 = ProcessSession::new();
    p.record_lookup(&mut s2, FlowFile::new(), Some(9), Ok(Some((lookup_config(false, None), vec![]))));
    let ff2 = &s2.get_transferred()[0].flowfile;
    assert_eq!(ff2.get_attribute("frost.deploy.enabled"), None);
    assert_eq!(ff2.get_attribute("frost.workspace.id"), None);
}

#[test]
fn lookup_records_missing_and_failed() {
    let p = LookupBuildConfig::default();
    let mut session = ProcessSession::new();
    p.record_lookup(&mut session, FlowFile::new(), None, Ok(None));
    let e = p.query_failure("timeout");
    p.record_lookup(&mut session, FlowFile::new(), None, Err(e));
    let t = session.get_transferred();
    assert_eq!(t[0].relationship.name, "no_config");
    assert_eq!(t[0].flowfile.get_attribute("frost.lookup.status"), Some("not_found"));
    assert_eq!(t[1].relationship.name, "failure");
    assert_eq!(t[1].flowfile.get_attribute("frost.lookup.error"), Some("Database query failed: timeout"));
}

#[test]
fn lookup_reads_workspace_id() {
    let p = LookupBuildConfig::default();
    let mut ff = FlowFile::new();
    assert_eq!(p.workspace_id(&ff), None);
    ff.put_attribute("frost.workspace.id", "00000000-0000-0000-0000-000000000010");
    assert_eq!(p.workspace_id(&ff), Some(16));
    let ctx = ProcessContext::new("i", "n");
    assert!(matches!(p.database_url(&ctx), Err(ProcessorError::InvalidConfig(m)) if m == "plane.database.url is required"));
}

#[test]
fn gate_lets_other_deploys_through() {
    let g = SelfDeployGate::default();
    let mut ff = FlowFile::new();
    ff.put_attribute("frost.deploy.target", "other");
    assert!(!g.is_self_deploy(&ff));
    let mut session = ProcessSession::new();
    g.pass_through(&mut session, ff);
    assert_eq!(session.get_transferred()[0].relationship.name, "success");
}

#[test]
fn gate_quiesce_cycle() {
    let g = SelfDeployGate::default();
    let mut ff = FlowFile::new();
    ff.put_attribute("frost.deploy.target", "nifi-rs");
    assert!(g.is_self_deploy(&ff));
    let mut session = ProcessSession::new();

    let u1 = g.gate(&mut session, ff.duplicate(), Ok(true), None);
    assert!(matches!(u1, TimerUpdate::Start));
    let u2 = g.gate(&mut session, ff.duplicate(), Ok(true), Some(10));
    assert!(matches!(u2, TimerUpdate::Keep));
    let u3 = g.gate(&mut session, ff.duplicate(), Ok(true), Some(30));
    assert!(matches!(u3, TimerUpdate::Clear));
    let u4 = g.gate(&mut session, ff.duplicate(), Ok(false), Some(100));
    assert!(matches!(u4, TimerUpdate::Clear));
    let err = g.connection_failure("refused");
    let u5 = g.gate(&mut session, ff, Err(err), Some(100));
    assert!(matches!(u5, TimerUpdate::Keep));

    let t = session.get_transferred();
    assert_eq!(t[0].relationship.name, "wait");
    assert_eq!(t[0].flowfile.get_attribute("frost.gate.reason"), Some("starting_quiesce"));
    assert_eq!(t[1].relationship.name, "wait");
    assert_eq!(t[1].flowfile.get_attribute("frost.gate.reason"), Some("quiesce_period"));
    assert_eq!(t[1].flowfile.get_attribute("frost.gate.remaining_seconds"), Some("20"));
    assert_eq!(t[2].relationship.name, "success");
    assert_eq!(t[3].relationship.name, "wait");
    assert_eq!(t[3].flowfile.get_attribute("frost.gate.reason"), Some("queues_not_empty"));
    assert_eq!(t[4].relationship.name, "failure");
    assert_eq!(t[4].flowfile.get_attribute("frost.gate.error"), Some("Redis connection failed: refused"));
}

#[test]
fn gate_configuration_and_queue_sums() {
    let mut g = SelfDeployGate::default();
    let mut ctx = ProcessContext::new("g", "g");
    ctx.set_property("quiesce.seconds", PropertyValue::String("+45".into()));
    ctx.set_property("gate.deployment", PropertyValue::String("me".into()));
    g.apply_properties(&ctx);
    assert_eq!(g.quiesce_seconds, 45);
    assert_eq!(g.gate_deployment, "me");
    ctx.set_property("quiesce.seconds", PropertyValue::String("soon".into()));
    g.apply_properties(&ctx);
    assert_eq!(g.quiesce_seconds, 30);
    ctx.set_property("quiesce.seconds", PropertyValue::String("18446744073709551616".into()));
    g.apply_properties(&ctx);
    assert_eq!(g.quiesce_seconds, 30);
    ctx.set_property("quiesce.seconds", PropertyValue::String("18446744073709551615".into()));
    g.apply_properties(&ctx);
    assert_eq!(g.quiesce_seconds, u64::MAX);
    assert!(g.queues_are_empty(0, 0, &[0, 0]));
    assert!(!g.queues_are_empty(0, 0, &[0, 2]));
    assert!(!g.queues_are_empty(1, 0, &[]));
    assert!(!g.queues_are_empty(0, 3, &[]));
}

#[test]
fn deploy_strategy_and_plans() {
    let mut d = DeployToK8s::default();
    let mut ctx = ProcessContext::new("d", "d");
    ctx.set_property("deploy.strategy", PropertyValue::String("apply-manifest".into()));
    d.apply_properties(&ctx);
    assert_eq!(d.strategy, DeployStrategy::ApplyManifest);
    ctx.set_property("deploy.strategy", PropertyValue::String("other".into()));
    d.apply_properties(&ctx);
    assert_eq!(d.strategy, DeployStrategy::UpdateImage);

    let mut ff = FlowFile::with_content(Bytes::from("{}"));
    assert!(matches!(d.plan_update_image(&ff, Some(Err("x".into()))), Err(ProcessorError::InvalidConfig(m)) if m == "Missing frost.build.image attribute"));
    ff.put_attribute("frost.build.image", "reg/img:1");
    assert!(matches!(d.plan_update_image(&ff, Some(Err("x".into()))), Err(ProcessorError::Serialization(m)) if m == "Failed to parse deploy config: x"));
    let cfg = DeployConfig { deployment_name: "web".into(), namespace: None, container_name: None };
    let plan = d.plan_update_image(&ff, Some(Ok(cfg))).unwrap();
    assert_eq!(plan.namespace, "default");
    assert_eq!(plan.deployment_name, "web");
    assert_eq!(plan.container_name, "main");
    assert_eq!(plan.image, "reg/img:1");

    let mut empty = FlowFile::new();
    empty.put_attribute("frost.build.image", "i");
    assert!(matches!(d.plan_update_image(&empty, None), Err(ProcessorError::InvalidConfig(m)) if m == "Missing deployment configuration in FlowFile content"));

    assert!(matches!(d.plan_apply_manifest_for(&FlowFile::new()), Err(ProcessorError::InvalidConfig(m)) if m == "Missing manifest in FlowFile content"));
    let unnamed = FlowFile::with_content(Bytes::from("{\"apiVersion\":\"apps/v1\",\"kind\":\"Deployment\",\"metadata\":{}}"));
    assert!(matches!(d.plan_apply_manifest_for(&unnamed), Err(ProcessorError::InvalidConfig(m)) if m == "Deployment missing name"));
    let not_deployment = FlowFile::with_content(Bytes::from("[1, 2]"));
    assert!(matches!(d.plan_apply_manifest_for(&not_deployment), Err(ProcessorError::Serialization(m)) if m.starts_with("Failed to parse deployment manifest: ")));
    let named = FlowFile::with_content(Bytes::from(
        "{\"apiVersion\":\"apps/v1\",\"kind\":\"Deployment\",\"metadata\":{\"name\":\"api\",\"namespace\":\"prod\"}}",
    ));
    let (deployment, ns, name) = d.plan_apply_manifest_for(&named).unwrap();
    assert_eq!((ns.as_str(), name.as_str()), ("prod", "api"));
    assert_eq!(deployment.metadata.name.as_deref(), Some("api"));
    let default_ns = FlowFile::with_content(Bytes::from(
        "{\"apiVersion\":\"apps/v1\",\"kind\":\"Deployment\",\"metadata\":{\"name\":\"web\"}}",
    ));
    let (_, ns2, name2) = d.plan_apply_manifest_for(&default_ns).unwrap();
    assert_eq!((ns2.as_str(), name2.as_str()), ("default", "web"));

    let mut session = ProcessSession::new();
    d.record_deploy(&mut session, FlowFile::new(), true);
    d.record_deploy(&mut session, FlowFile::new(), false);
    let t = session.get_transferred();
    assert_eq!(t[0].flowfile.get_attribute("frost.deploy.status"), Some("success"));
    assert_eq!(t[0].relationship.name, "success");
    assert_eq!(t[1].flowfile.get_attribute("frost.deploy.status"), Some("failed"));
    assert_eq!(t[1].relationship.name, "failure");
}

fn kaniko_config() -> KanikoConfig {
    KanikoConfig {
        name: "cfg".into(),
        git_repo: "https://github.com/o/r".into(),
        git_ref: "main".into(),
        git_sha: "0123456789abcdef".into(),
        image_name: "frost/api.v2:x".into(),
        dockerfile: None,
    }
}

#[test]
fn kaniko_names_tags_and_job() {
    let k = TriggerKanikoBuild::default();
    let c = kaniko_config();
    assert_eq!(k.job_name("frost/api.v2:x", 0xabcdef12_0000_0000_0000_0000_0000_0000), "kaniko-frost-api-v2-x-abcdef12");
    assert_eq!(k.image_tag(&c), "registry.digitalocean.com/frost-os/frost/api.v2:x:01234567");
    let long = "a".repeat(50);
    assert_eq!(k.job_name(&long, 0).len(), "kaniko-".len() + 40 + 1 + 8);
    let job = k.create_kaniko_job("j", &c, "tag", Some("ws"));
    assert_eq!(job.namespace, "frost-works");
    assert_eq!(job.args, vec!["--context=https://github.com/o/r", "--dockerfile=Dockerfile", "--destination=tag", "--cache=true"]);
    assert_eq!(job.labels.len(), 6);
    assert_eq!(job.labels[5], ("frost-build/workspace".to_string(), "ws".to_string()));
    assert_eq!(job.git_token_secret, "git-creds");
    assert_eq!(job.docker_config_secret, "docker-registry-creds");
    assert_eq!(job.ttl_seconds_after_finished, 3600);
}

#[test]
fn kaniko_records_outcomes() {
    let k = TriggerKanikoBuild::default();
    let mut session = ProcessSession::new();
    k.record_build(&mut session, FlowFile::new(), "j1", "t1", Some(None));
    k.record_build(&mut session, FlowFile::new(), "j2", "t2", Some(Some("made".into())));
    k.record_build(&mut session, FlowFile::new(), "j3", "t3", None);
    k.reject(&mut session, FlowFile::new());
    let t = session.get_transferred();
    assert_eq!(t[0].flowfile.get_attribute("frost.build.job"), Some("j1"));
    assert_eq!(t[0].flowfile.get_attribute("frost.build.image"), Some("t1"));
    assert_eq!(t[1].flowfile.get_attribute("frost.build.job"), Some("made"));
    assert_eq!(t[2].relationship.name, "failure");
    assert_eq!(t[3].relationship.name, "no_config");
    assert_eq!(t[3].relationship.description, "Missing build configuration");
}

#[test]
fn lookup_normalizes_http_to_https() {
    let p = LookupBuildConfig::default();
    assert_eq!(p.normalize_git_url("http://github.com/owner/repo.git"), "https://github.com/owner/repo");
    assert_eq!(p.normalize_git_url("http://example.com/r"), "https://example.com/r");
    let (normalized, pattern) = p.query_params("http://github.com/o/r.git");
    assert_eq!(normalized, "https://github.com/o/r");
    assert_eq!(pattern, "%https://github.com/o/r");
}

#[test]
fn lookup_and_gate_record_any_error_message() {
    let p = LookupBuildConfig::default();
    let mut session = ProcessSession::new();
    let mut ff = FlowFile::new();
    ff.set_content(Bytes::from("abc"));
    p.record_lookup(&mut session, ff, None, Err(ProcessorError::InvalidConfig("x".into())));
    let t = session.get_transferred();
    assert_eq!(t[0].relationship.name, "failure");
    assert_eq!(t[0].flowfile.get_attribute("frost.lookup.error"), Some("Invalid configuration: x"));
    assert_eq!(t[0].flowfile.size, 3);

    let g = SelfDeployGate::default();
    let mut s2 = ProcessSession::new();
    g.gate(&mut s2, FlowFile::new(), Err(ProcessorError::Processing("boom".into())), None);
    let t2 = s2.get_transferred();
    assert_eq!(t2[0].relationship.name, "failure");
    assert_eq!(t2[0].flowfile.get_attribute("frost.gate.error"), Some("Processing failed: boom"));
}

#[test]
fn lookup_found_sets_content_size() {
    let p = LookupBuildConfig::default();
    let mut session = ProcessSession::new();
    let json = b"{\"a\":1}".to_vec();
    p.record_lookup(&mut session, FlowFile::new(), Some(1), Ok(Some((lookup_config(false, None), json))));
    assert_eq!(session.get_transferred()[0].flowfile.size, 7);
}

#[test]
fn lookup_reads_webhook_pointer_fields() {
    let p = LookupBuildConfig::default();
    let ff = FlowFile::with_content(Bytes::from(
        "{\"repository\":{\"clone_url\":7,\"html_url\":\"https://github.com/h/u\",\"full_name\":\"f/n\"}}",
    ));
    // clone_url is present but not a string: no fallback to html_url.
    assert_eq!(p.extract_git_repo(&ff).unwrap(), "https://github.com/f/n");
}

#[test]
fn consume_emitted_flowfile_size_is_payload_length() {
    let c = ConsumeFrostBus::default();
    let mut session = ProcessSession::new();
    let j = FrostJob::new("build", b"{\"k\":true}".to_vec());
    c.emit_job(&mut session, &j);
    let t = session.get_transferred();
    assert_eq!(t[0].flowfile.size, 10);
}

#[test]
fn new_ids_are_version_4_uuids() {
    for _ in 0..64 {
        let id = FlowFile::new().id;
        assert_eq!((id >> 76) & 0xF, 4);
        assert_eq!((id >> 62) & 0x3, 2);
        let j = FrostJob::new("t", vec![]);
        assert_eq!((j.id >> 76) & 0xF, 4);
    }
}
