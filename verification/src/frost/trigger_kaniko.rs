//! TriggerKanikoBuild: turns a FlowFile's build configuration into a kaniko
//! build Job for Kubernetes.
use super::attributes::{FROST_BUILD_IMAGE, FROST_BUILD_JOB};
use super::{appended_one, descriptor_is, relationship_is, text, text_value};
use crate::context::{lookup_text, ProcessContext, ProcessSession};
use crate::ext::{is_uuid_v4, new_uuid_v4, uuid_text, uuid_to_string};
use crate::flowfile::FlowFile;
use crate::processor::{PropertyDescriptor, Relationship};
use crate::text::{chars_of, concat, string_from_chars, take_chars, take_str};
use vstd::prelude::*;

verus! {

/// A character of an image name as it may stand in a job name: `/`, `:`
/// and `.` become `-`.
pub open spec fn job_name_char(c: char) -> char {
    if c == '/' || c == ':' || c == '.' {
        '-'
    } else {
        c
    }
}

/// An image name with `/`, `:` and `.` made `-`.
pub open spec fn sanitized(s: Seq<char>) -> Seq<char> {
    s.map_values(|c: char| job_name_char(c))
}

/// The name of the kaniko job for an image: `kaniko-`, the sanitized image
/// name cut to 40 characters, `-`, and the first 8 characters of a UUID.
pub open spec fn job_name_for(image_name: Seq<char>, id: u128) -> Seq<char> {
    "kaniko-"@ + take_chars(sanitized(image_name), 40) + "-"@ + take_chars(uuid_text(id), 8)
}

/// Build configuration from a FlowFile's content.
pub struct BuildConfig {
    /// Build config name.
    pub name: String,
    /// Git repository URL.
    pub git_repo: String,
    /// Git ref (branch/tag).
    pub git_ref: String,
    /// Git SHA.
    pub git_sha: String,
    /// Image name (without registry prefix).
    pub image_name: String,
    /// Dockerfile path (when absent, `Dockerfile`).
    pub dockerfile: Option<String>,
}

/// A kaniko build Job, as the plain values Kubernetes is sent: its name,
/// namespace and labels; the Job's TTL after finishing and backoff limit;
/// the pod's restart policy; the kaniko container with its image and
/// arguments; the git token taken from a secret; and the docker config
/// mounted from another.
pub struct KanikoJob {
    pub name: String,
    pub namespace: String,
    pub labels: Vec<(String, String)>,
    pub ttl_seconds_after_finished: i32,
    pub backoff_limit: i32,
    pub restart_policy: String,
    pub container_name: String,
    pub container_image: String,
    pub args: Vec<String>,
    pub git_token_env: String,
    pub git_token_secret: String,
    pub git_token_key: String,
    pub git_token_optional: bool,
    pub volume_name: String,
    pub mount_path: String,
    pub docker_config_secret: String,
    pub docker_config_key: String,
    pub docker_config_path: String,
}

/// The labels of a kaniko job for `config`, in the order they are set.
pub open spec fn job_labels(config: BuildConfig, workspace_id: Option<Seq<char>>) -> Seq<
    (Seq<char>, Seq<char>),
> {
    let base = seq![
        ("frost-build/type"@, "kaniko"@),
        ("frost-build/image"@, config.image_name@),
        ("frost-build/config"@, config.name@),
        ("frost-build/git-ref"@, config.git_ref@),
        ("frost-build/git-sha"@, take_chars(config.git_sha@, 40)),
    ];
    match workspace_id {
        Some(w) => base.push(("frost-build/workspace"@, w)),
        None => base,
    }
}

/// The kaniko arguments for `config`.
pub open spec fn job_args(config: BuildConfig, image_tag: Seq<char>) -> Seq<Seq<char>> {
    seq![
        "--context="@ + config.git_repo@,
        "--dockerfile="@ + match config.dockerfile {
            Some(d) => d@,
            None => "Dockerfile"@,
        },
        "--destination="@ + image_tag,
        "--cache=true"@,
    ]
}

/// A kaniko job builds from the config's repository, with the config's
/// Dockerfile when it names one (`Dockerfile` otherwise), pushes to the
/// image tag, and caches layers: four arguments, in that order.
pub proof fn law_kaniko_args(config: BuildConfig, image_tag: Seq<char>)
    ensures
        job_args(config, image_tag).len() == 4,
        job_args(config, image_tag)[0] == "--context="@ + config.git_repo@,
        config.dockerfile matches Some(d) ==> job_args(config, image_tag)[1] == "--dockerfile="@
            + d@,
        config.dockerfile is None ==> job_args(config, image_tag)[1] == "--dockerfile="@
            + "Dockerfile"@,
        job_args(config, image_tag)[2] == "--destination="@ + image_tag,
        job_args(config, image_tag)[3] == "--cache=true"@,
{
}

/// A kaniko job is labelled with its type, the config's image name, config
/// name, git ref and git SHA (cut to 40 characters), and the workspace id
/// when one is known, in that order.
pub proof fn law_kaniko_labels(config: BuildConfig, workspace_id: Option<Seq<char>>)
    ensures
        job_labels(config, workspace_id).len() == (if workspace_id is Some {
            6int
        } else {
            5int
        }),
        job_labels(config, workspace_id)[0] == ("frost-build/type"@, "kaniko"@),
        job_labels(config, workspace_id)[1] == ("frost-build/image"@, config.image_name@),
        job_labels(config, workspace_id)[2] == ("frost-build/config"@, config.name@),
        job_labels(config, workspace_id)[3] == ("frost-build/git-ref"@, config.git_ref@),
        job_labels(config, workspace_id)[4].0 == "frost-build/git-sha"@,
        config.git_sha@.len() <= 40 ==> job_labels(config, workspace_id)[4].1 == config.git_sha@,
        config.git_sha@.len() > 40 ==> job_labels(config, workspace_id)[4].1
            == config.git_sha@.take(40),
        workspace_id matches Some(w) ==> job_labels(config, workspace_id)[5] == (
            "frost-build/workspace"@,
            w,
        ),
{
}

/// A sanitized image name has the image name's length; it holds no `/`,
/// `:` or `.`; each of those becomes `-`, and every other character is
/// kept.
pub proof fn law_sanitized(s: Seq<char>)
    ensures
        sanitized(s).len() == s.len(),
        forall|i: int| 0 <= i < s.len() ==> {
            let c = #[trigger] sanitized(s)[i];
            &&& c != '/' && c != ':' && c != '.'
            &&& (s[i] == '/' || s[i] == ':' || s[i] == '.') ==> c == '-'
            &&& (s[i] != '/' && s[i] != ':' && s[i] != '.') ==> c == s[i]
        },
{
}

/// A kaniko job's name is `kaniko-`, then at most the first 40 characters
/// of the sanitized image name, then `-` and the first 8 characters of the
/// UUID text; it is at most 56 characters long.
pub proof fn law_kaniko_job_name(image_name: Seq<char>, id: u128)
    ensures
        job_name_for(image_name, id).len() <= 56,
        job_name_for(image_name, id).take(7) == "kaniko-"@,
        image_name.len() <= 40 ==> job_name_for(image_name, id) == "kaniko-"@ + sanitized(
            image_name,
        ) + "-"@ + uuid_text(id).take(8),
        image_name.len() > 40 ==> job_name_for(image_name, id) == "kaniko-"@ + sanitized(
            image_name,
        ).take(40) + "-"@ + uuid_text(id).take(8),
{
    reveal_strlit("kaniko-");
    reveal_strlit("-");
    law_sanitized(image_name);
    let u = uuid_text(id);
    assert(u.len() == 36) by {
        crate::ext::lemma_uuid_text_len(id);
    }
    let head = take_chars(sanitized(image_name), 40);
    let name = "kaniko-"@ + head + "-"@ + take_chars(u, 8);
    assert(name.take(7) =~= "kaniko-"@);
}

/// Processor that triggers kaniko builds in Kubernetes.
pub struct TriggerKanikoBuild {
    /// Namespace for kaniko jobs.
    pub namespace: String,
    /// Docker registry URL.
    pub registry: String,
    /// Docker config secret name.
    pub docker_secret: String,
    /// Git credentials secret name.
    pub git_secret: String,
}

impl Default for TriggerKanikoBuild {
    fn default() -> (r: Self)
        ensures
            r.namespace@ == "frost-works"@,
            r.registry@ == "registry.digitalocean.com/frost-os"@,
            r.docker_secret@ == "docker-registry-creds"@,
            r.git_secret@ == "git-creds"@,
    {
        TriggerKanikoBuild {
            namespace: "frost-works".to_owned(),
            registry: "registry.digitalocean.com/frost-os".to_owned(),
            docker_secret: "docker-registry-creds".to_owned(),
            git_secret: "git-creds".to_owned(),
        }
    }
}

impl TriggerKanikoBuild {
    pub fn get_type(&self) -> (r: &'static str)
        ensures
            r@ == "org.apache.nifi.frost.TriggerKanikoBuild"@,
    {
        "org.apache.nifi.frost.TriggerKanikoBuild"
    }

    pub fn get_description(&self) -> (r: &'static str)
        ensures
            r@ == "Triggers kaniko container image builds in Kubernetes"@,
    {
        "Triggers kaniko container image builds in Kubernetes"
    }

    pub fn get_property_descriptors(&self) -> (r: Vec<PropertyDescriptor>)
        ensures
            r@.len() == 4,
            descriptor_is(r@[0], "k8s.namespace"@, "Kubernetes Namespace"@,
                "Namespace where kaniko jobs will be created"@, true, false),
            text_value(r@[0].default_value, "frost-works"@),
            descriptor_is(r@[1], "docker.registry"@, "Docker Registry"@,
                "Docker registry URL for built images"@, true, false),
            r@[1].default_value is None,
            descriptor_is(r@[2], "docker.secret"@, "Docker Secret Name"@,
                "K8s secret name containing docker registry credentials"@, true, false),
            text_value(r@[2].default_value, "docker-registry-creds"@),
            descriptor_is(r@[3], "git.secret"@, "Git Secret Name"@,
                "K8s secret name containing git credentials"@, false, false),
            text_value(r@[3].default_value, "git-creds"@),
            forall|i: int| 0 <= i < 4 ==> (#[trigger] r@[i]).allowable_values is None,
    {
        vec![
            PropertyDescriptor::new("k8s.namespace")
                .display_name("Kubernetes Namespace")
                .description("Namespace where kaniko jobs will be created")
                .required(true)
                .default_value(text("frost-works"))
                .build(),
            PropertyDescriptor::new("docker.registry")
                .display_name("Docker Registry")
                .description("Docker registry URL for built images")
                .required(true)
                .build(),
            PropertyDescriptor::new("docker.secret")
                .display_name("Docker Secret Name")
                .description("K8s secret name containing docker registry credentials")
                .required(true)
                .default_value(text("docker-registry-creds"))
                .build(),
            PropertyDescriptor::new("git.secret")
                .display_name("Git Secret Name")
                .description("K8s secret name containing git credentials")
                .required(false)
                .default_value(text("git-creds"))
                .build(),
        ]
    }

    pub fn get_relationships(&self) -> (r: Vec<Relationship>)
        ensures
            r@.len() == 3,
            relationship_is(r@[0], "success"@, "FlowFiles that were processed successfully"@),
            relationship_is(r@[1], "failure"@, "FlowFiles that failed processing"@),
            relationship_is(r@[2], "no_config"@, "FlowFiles that don't have build configuration"@),
    {
        vec![
            Relationship::success(),
            Relationship::failure(),
            Relationship::new("no_config", "FlowFiles that don't have build configuration"),
        ]
    }

    /// Takes the namespace, registry and secret names from the configured
    /// properties; what is not configured keeps its value.
    pub fn apply_properties(&mut self, ctx: &ProcessContext)
        ensures
            match lookup_text(ctx.props(), "k8s.namespace"@) {
                Some(t) => final(self).namespace@ == t,
                None => final(self).namespace == old(self).namespace,
            },
            match lookup_text(ctx.props(), "docker.registry"@) {
                Some(t) => final(self).registry@ == t,
                None => final(self).registry == old(self).registry,
            },
            match lookup_text(ctx.props(), "docker.secret"@) {
                Some(t) => final(self).docker_secret@ == t,
                None => final(self).docker_secret == old(self).docker_secret,
            },
            match lookup_text(ctx.props(), "git.secret"@) {
                Some(t) => final(self).git_secret@ == t,
                None => final(self).git_secret == old(self).git_secret,
            },
    {
        if let Some(ns) = ctx.get_property_string("k8s.namespace") {
            self.namespace = ns.to_owned();
        }
        if let Some(reg) = ctx.get_property_string("docker.registry") {
            self.registry = reg.to_owned();
        }
        if let Some(secret) = ctx.get_property_string("docker.secret") {
            self.docker_secret = secret.to_owned();
        }
        if let Some(secret) = ctx.get_property_string("git.secret") {
            self.git_secret = secret.to_owned();
        }
    }

    /// An image name with `/`, `:` and `.` made `-`.
    pub fn sanitize(image_name: &str) -> (r: String)
        ensures
            r@ == sanitized(image_name@),
    {
        let cs = chars_of(image_name);
        let mut out: Vec<char> = Vec::new();
        let mut i: usize = 0;
        while i < cs.len()
            invariant
                i <= cs@.len(),
                cs@ == image_name@,
                out@ == sanitized(cs@.take(i as int)),
            decreases cs.len() - i,
        {
            let c = cs[i];
            let d = if c == '/' || c == ':' || c == '.' {
                '-'
            } else {
                c
            };
            out.push(d);
            assert(sanitized(cs@.take(i + 1)) =~= sanitized(cs@.take(i as int)).push(d));
            i += 1;
        }
        assert(cs@.take(cs@.len() as int) =~= cs@);
        string_from_chars(out.as_slice())
    }

    /// The name of the job that builds `image_name`, made unique by the UUID
    /// value `id`.
    pub fn job_name(&self, image_name: &str, id: u128) -> (r: String)
        ensures
            r@ == job_name_for(image_name@, id),
    {
        let s = Self::sanitize(image_name);
        let head = take_str(s.as_str(), 40);
        let uuid = uuid_to_string(id);
        let tail = take_str(uuid.as_str(), 8);
        let mut r = concat("kaniko-", head.as_str());
        r.append("-");
        r.append(tail.as_str());
        r
    }

    /// The name of a new job that builds `image_name`, made unique by a
    /// random version-4 UUID.
    pub fn fresh_job_name(&self, image_name: &str) -> (r: String)
        ensures
            exists|id: u128| is_uuid_v4(id) && r@ == job_name_for(image_name@, id),
    {
        let id = new_uuid_v4();
        self.job_name(image_name, id)
    }

    /// The tag the built image is pushed as: registry, image name, and the
    /// first 8 characters of the git SHA.
    pub fn image_tag(&self, config: &BuildConfig) -> (r: String)
        ensures
            r@ == self.registry@ + "/"@ + config.image_name@ + ":"@ + take_chars(config.git_sha@, 8),
    {
        let sha = take_str(config.git_sha.as_str(), 8);
        let mut r = concat(self.registry.as_str(), "/");
        r.append(config.image_name.as_str());
        r.append(":");
        r.append(sha.as_str());
        r
    }

    /// The kaniko job that builds `config` as `image_tag`.
    pub fn create_kaniko_job(
        &self,
        job_name: &str,
        config: &BuildConfig,
        image_tag: &str,
        workspace_id: Option<&str>,
    ) -> (r: KanikoJob)
        ensures
            r.name@ == job_name@,
            r.namespace@ == self.namespace@,
            r.labels@.map_values(|p: (String, String)| (p.0@, p.1@)) == job_labels(
                *config,
                match workspace_id {
                    Some(w) => Some(w@),
                    None => None,
                },
            ),
            r.ttl_seconds_after_finished == 3600,
            r.backoff_limit == 0,
            r.restart_policy@ == "Never"@,
            r.container_name@ == "kaniko"@,
            r.container_image@ == "gcr.io/kaniko-project/executor:latest"@,
            r.args@.map_values(|a: String| a@) == job_args(*config, image_tag@),
            r.git_token_env@ == "GIT_TOKEN"@,
            r.git_token_secret@ == self.git_secret@,
            r.git_token_key@ == "token"@,
            r.git_token_optional,
            r.volume_name@ == "docker-config"@,
            r.mount_path@ == "/kaniko/.docker"@,
            r.docker_config_secret@ == self.docker_secret@,
            r.docker_config_key@ == ".dockerconfigjson"@,
            r.docker_config_path@ == "config.json"@,
    {
        let mut labels: Vec<(String, String)> = Vec::new();
        labels.push(("frost-build/type".to_owned(), "kaniko".to_owned()));
        labels.push(("frost-build/image".to_owned(), config.image_name.clone()));
        labels.push(("frost-build/config".to_owned(), config.name.clone()));
        labels.push(("frost-build/git-ref".to_owned(), config.git_ref.clone()));
        labels.push(("frost-build/git-sha".to_owned(), take_str(config.git_sha.as_str(), 40)));
        if let Some(ws_id) = workspace_id {
            labels.push(("frost-build/workspace".to_owned(), ws_id.to_owned()));
        }
        let ghost ws = match workspace_id {
            Some(w) => Some(w@),
            None => None::<Seq<char>>,
        };
        assert(labels@.map_values(|p: (String, String)| (p.0@, p.1@)) =~= job_labels(*config, ws));
        let dockerfile = match &config.dockerfile {
            Some(d) => d.as_str(),
            None => "Dockerfile",
        };
        let mut args: Vec<String> = Vec::new();
        args.push(concat("--context=", config.git_repo.as_str()));
        args.push(concat("--dockerfile=", dockerfile));
        args.push(concat("--destination=", image_tag));
        args.push("--cache=true".to_owned());
        assert(args@.map_values(|a: String| a@) =~= job_args(*config, image_tag@));
        KanikoJob {
            name: job_name.to_owned(),
            namespace: self.namespace.clone(),
            labels,
            ttl_seconds_after_finished: 3600,
            backoff_limit: 0,
            restart_policy: "Never".to_owned(),
            container_name: "kaniko".to_owned(),
            container_image: "gcr.io/kaniko-project/executor:latest".to_owned(),
            args,
            git_token_env: "GIT_TOKEN".to_owned(),
            git_token_secret: self.git_secret.clone(),
            git_token_key: "token".to_owned(),
            git_token_optional: true,
            volume_name: "docker-config".to_owned(),
            mount_path: "/kaniko/.docker".to_owned(),
            docker_config_secret: self.docker_secret.clone(),
            docker_config_key: ".dockerconfigjson".to_owned(),
            docker_config_path: "config.json".to_owned(),
        }
    }

    /// Sends a FlowFile without a usable build configuration to no_config.
    pub fn reject(&self, session: &mut ProcessSession, flowfile: FlowFile)
        ensures
            appended_one(old(session).transfers(), final(session).transfers()),
            final(session).transfers().last().flowfile == flowfile,
            relationship_is(final(session).transfers().last().relationship, "no_config"@,
                "Missing build configuration"@),
            final(session).inputs() == old(session).inputs(),
            final(session).removals() == old(session).removals(),
    {
        let ghost t0 = session.transfers();
        session.transfer(flowfile, Relationship::new("no_config", "Missing build configuration"));
        assert(session.transfers().drop_last() =~= t0);
    }

    /// Records how the job's creation went: when Kubernetes created it
    /// (`created`: the name it reports, if any), the FlowFile gets the job's
    /// name (that name, else `job_name`) and `image_tag` as attributes and
    /// goes to success; otherwise it goes to failure unchanged.
    pub fn record_build(
        &self,
        session: &mut ProcessSession,
        flowfile: FlowFile,
        job_name: &str,
        image_tag: &str,
        created: Option<Option<String>>,
    )
        ensures
            appended_one(old(session).transfers(), final(session).transfers()),
            final(session).transfers().last().flowfile.id == flowfile.id,
            final(session).transfers().last().flowfile.content_bytes() == flowfile.content_bytes(),
            final(session).inputs() == old(session).inputs(),
            final(session).removals() == old(session).removals(),
            match created {
                Some(reported) => {
                    &&& final(session).transfers().last().flowfile.attrs() == flowfile.attrs().insert(
                        "frost.build.job"@,
                        match reported {
                            Some(n) => n@,
                            None => job_name@,
                        },
                    ).insert("frost.build.image"@, image_tag@)
                    &&& relationship_is(final(session).transfers().last().relationship,
                        "success"@, "FlowFiles that were processed successfully"@)
                },
                None => {
                    &&& final(session).transfers().last().flowfile == flowfile
                    &&& relationship_is(final(session).transfers().last().relationship,
                        "failure"@, "FlowFiles that failed processing"@)
                },
            },
    {
        let ghost t0 = session.transfers();
        let mut flowfile = flowfile;
        match created {
            Some(reported) => {
                let name = match reported {
                    Some(n) => n,
                    None => job_name.to_owned(),
                };
                flowfile.put_attribute(FROST_BUILD_JOB, name.as_str());
                flowfile.put_attribute(FROST_BUILD_IMAGE, image_tag);
                session.transfer(flowfile, Relationship::success());
            },
            None => {
                session.transfer(flowfile, Relationship::failure());
            },
        }
        assert(session.transfers().drop_last() =~= t0);
    }
}

} // verus!
