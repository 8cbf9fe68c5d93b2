//! DeployToK8s: deploys built images to Kubernetes, by patching a
//! Deployment's container image or by applying a full Deployment manifest.
use super::attributes::{FROST_BUILD_IMAGE, FROST_DEPLOY_STATUS};
use super::{appended_one, descriptor_is, relationship_is, text, text_value};
use crate::context::{lookup_text, ProcessContext, ProcessSession};
use crate::ext::{bytes_to_vec, manifest_target_spec, parse_deployment};
use crate::flowfile::FlowFile;
use k8s_openapi::api::apps::v1::Deployment;
use crate::processor::{
    error_view, invalid_config, serialization, ProcessorError, PropertyDescriptor, Relationship,
};
use crate::text::{concat, str_eq};
use vstd::prelude::*;

verus! {

/// How DeployToK8s deploys.
#[derive(Debug, Clone, Copy, PartialEq, Eq)]
pub enum DeployStrategy {
    /// Patch the image of one container of an existing Deployment.
    UpdateImage,
    /// Apply a full Deployment manifest.
    ApplyManifest,
}

/// Deployment configuration for the update-image strategy, as a FlowFile's
/// content gives it.
pub struct DeployConfig {
    /// Name of the deployment to update.
    pub deployment_name: String,
    /// Namespace (when absent, the processor's).
    pub namespace: Option<String>,
    /// Container to update (when absent, `main`).
    pub container_name: Option<String>,
}

/// An image update to apply: which container of which deployment in which
/// namespace gets which image.
pub struct ImagePatch {
    pub namespace: String,
    pub deployment_name: String,
    pub container_name: String,
    pub image: String,
}

/// The view of an image update: namespace, deployment, container, image.
pub open spec fn patch_view(p: ImagePatch) -> (Seq<char>, Seq<char>, Seq<char>, Seq<char>) {
    (p.namespace@, p.deployment_name@, p.container_name@, p.image@)
}

/// The text of an optional string, or `default`.
pub open spec fn or_default(s: Option<String>, default: Seq<char>) -> Seq<char> {
    match s {
        Some(t) => t@,
        None => default,
    }
}

/// Processor that deploys images to Kubernetes.
pub struct DeployToK8s {
    /// Default namespace for deployments.
    pub namespace: String,
    /// Deployment strategy.
    pub strategy: DeployStrategy,
}

impl Default for DeployToK8s {
    fn default() -> (r: Self)
        ensures
            r.namespace@ == "default"@,
            r.strategy == DeployStrategy::UpdateImage,
    {
        DeployToK8s { namespace: "default".to_owned(), strategy: DeployStrategy::UpdateImage }
    }
}

impl DeployToK8s {
    pub fn get_type(&self) -> (r: &'static str)
        ensures
            r@ == "org.apache.nifi.frost.DeployToK8s"@,
    {
        "org.apache.nifi.frost.DeployToK8s"
    }

    pub fn get_description(&self) -> (r: &'static str)
        ensures
            r@ == "Deploys built container images to Kubernetes by updating Deployments"@,
    {
        "Deploys built container images to Kubernetes by updating Deployments"
    }

    pub fn get_property_descriptors(&self) -> (r: Vec<PropertyDescriptor>)
        ensures
            r@.len() == 2,
            descriptor_is(r@[0], "k8s.namespace"@, "Kubernetes Namespace"@,
                "Default namespace for deployments"@, true, false),
            text_value(r@[0].default_value, "default"@),
            r@[0].allowable_values is None,
            descriptor_is(r@[1], "deploy.strategy"@, "Deploy Strategy"@,
                "How to deploy: update-image (patch image tag) or apply-manifest (full manifest)"@,
                false, false),
            text_value(r@[1].default_value, "update-image"@),
            r@[1].allowable_values matches Some(v) && v@.len() == 2 && v@[0]@ == "update-image"@
                && v@[1]@ == "apply-manifest"@,
    {
        vec![
            PropertyDescriptor::new("k8s.namespace")
                .display_name("Kubernetes Namespace")
                .description("Default namespace for deployments")
                .required(true)
                .default_value(text("default"))
                .build(),
            PropertyDescriptor::new("deploy.strategy")
                .display_name("Deploy Strategy")
                .description(
                    "How to deploy: update-image (patch image tag) or apply-manifest (full manifest)",
                )
                .required(false)
                .default_value(text("update-image"))
                .allowable_values(vec!["update-image", "apply-manifest"])
                .build(),
        ]
    }

    pub fn get_relationships(&self) -> (r: Vec<Relationship>)
        ensures
            r@.len() == 2,
            relationship_is(r@[0], "success"@, "FlowFiles that were processed successfully"@),
            relationship_is(r@[1], "failure"@, "FlowFiles that failed processing"@),
    {
        vec![Relationship::success(), Relationship::failure()]
    }

    /// Takes the namespace and strategy from the configured properties: the
    /// strategy is apply-manifest when configured so, update-image for any
    /// other configured value; what is not configured keeps its value.
    pub fn apply_properties(&mut self, ctx: &ProcessContext)
        ensures
            match lookup_text(ctx.props(), "k8s.namespace"@) {
                Some(t) => final(self).namespace@ == t,
                None => final(self).namespace == old(self).namespace,
            },
            match lookup_text(ctx.props(), "deploy.strategy"@) {
                Some(t) => final(self).strategy == (if t == "apply-manifest"@ {
                    DeployStrategy::ApplyManifest
                } else {
                    DeployStrategy::UpdateImage
                }),
                None => final(self).strategy == old(self).strategy,
            },
    {
        if let Some(ns) = ctx.get_property_string("k8s.namespace") {
            self.namespace = ns.to_owned();
        }
        if let Some(strategy) = ctx.get_property_string("deploy.strategy") {
            self.strategy = if str_eq(strategy, "apply-manifest") {
                DeployStrategy::ApplyManifest
            } else {
                DeployStrategy::UpdateImage
            };
        }
    }

    /// The image update a FlowFile asks for: the image in its
    /// `frost.build.image` attribute, and the deployment its content names
    /// (`config`: what the content parsed to, `None` when there is no
    /// content), in that deployment's namespace or the processor's, for its
    /// container or `main`.
    pub fn plan_update_image(
        &self,
        flowfile: &FlowFile,
        config: Option<Result<DeployConfig, String>>,
    ) -> (r: Result<ImagePatch, ProcessorError>)
        requires
            config is None <==> flowfile.content_bytes() is None,
        ensures
            match flowfile.attr("frost.build.image"@) {
                None => r matches Err(e) && error_view(e) == invalid_config(
                    "Missing frost.build.image attribute"@,
                ),
                Some(image) => match config {
                    None => r matches Err(e) && error_view(e) == invalid_config(
                        "Missing deployment configuration in FlowFile content"@,
                    ),
                    Some(Err(m)) => r matches Err(e) && error_view(e) == serialization(
                        "Failed to parse deploy config: "@ + m@,
                    ),
                    Some(Ok(c)) => r matches Ok(p) && patch_view(p) == (
                        or_default(c.namespace, self.namespace@),
                        c.deployment_name@,
                        or_default(c.container_name, "main"@),
                        image,
                    ),
                },
            },
    {
        let image = match flowfile.get_attribute(FROST_BUILD_IMAGE) {
            Some(i) => i.to_owned(),
            None => {
                return Err(
                    ProcessorError::InvalidConfig("Missing frost.build.image attribute".to_owned()),
                );
            },
        };
        match config {
            None => Err(
                ProcessorError::InvalidConfig(
                    "Missing deployment configuration in FlowFile content".to_owned(),
                ),
            ),
            Some(Err(m)) => Err(
                ProcessorError::Serialization(concat("Failed to parse deploy config: ", m.as_str())),
            ),
            Some(Ok(c)) => {
                let namespace = match c.namespace {
                    Some(ns) => ns,
                    None => self.namespace.clone(),
                };
                let container_name = match c.container_name {
                    Some(n) => n,
                    None => "main".to_owned(),
                };
                Ok(
                    ImagePatch {
                        namespace,
                        deployment_name: c.deployment_name,
                        container_name,
                        image,
                    },
                )
            },
        }
    }

    /// The manifest a FlowFile's content holds, and where it is applied: its
    /// namespace or the processor's, and its name, which it must have.
    pub fn plan_apply_manifest_for(&self, flowfile: &FlowFile) -> (r: Result<
        (Deployment, String, String),
        ProcessorError,
    >)
        ensures
            match flowfile.content_bytes() {
                None => r matches Err(e) && error_view(e) == invalid_config(
                    "Missing manifest in FlowFile content"@,
                ),
                Some(c) => match manifest_target_spec(c) {
                    Err(m) => r matches Err(e) && error_view(e) == serialization(
                        "Failed to parse deployment manifest: "@ + m,
                    ),
                    Ok((ns, name)) => match name {
                        None => r matches Err(e) && error_view(e) == invalid_config(
                            "Deployment missing name"@,
                        ),
                        Some(n) => r matches Ok((_, a, b)) && a@ == (match ns {
                            Some(t) => t,
                            None => self.namespace@,
                        }) && b@ == n,
                    },
                },
            },
    {
        match flowfile.content() {
            None => Err(ProcessorError::InvalidConfig("Missing manifest in FlowFile content".to_owned())),
            Some(content) => {
                let doc = bytes_to_vec(content);
                match parse_deployment(doc.as_slice()) {
                    Err(m) => Err(
                        ProcessorError::Serialization(
                            concat("Failed to parse deployment manifest: ", m.as_str()),
                        ),
                    ),
                    Ok((deployment, ns, name)) => {
                        let namespace = match ns {
                            Some(t) => t,
                            None => self.namespace.clone(),
                        };
                        match name {
                            None => Err(ProcessorError::InvalidConfig("Deployment missing name".to_owned())),
                            Some(n) => Ok((deployment, namespace, n)),
                        }
                    },
                }
            },
        }
    }

    /// Records how a deployment went: the FlowFile's `frost.deploy.status`
    /// becomes `success` and it goes to success, or `failed` and it goes to
    /// failure.
    pub fn record_deploy(&self, session: &mut ProcessSession, flowfile: FlowFile, deployed: bool)
        ensures
            appended_one(old(session).transfers(), final(session).transfers()),
            final(session).transfers().last().flowfile.id == flowfile.id,
            final(session).transfers().last().flowfile.content_bytes() == flowfile.content_bytes(),
            final(session).transfers().last().flowfile.attrs() == flowfile.attrs().insert(
                "frost.deploy.status"@,
                if deployed { "success"@ } else { "failed"@ },
            ),
            deployed ==> relationship_is(final(session).transfers().last().relationship, "success"@,
                "FlowFiles that were processed successfully"@),
            !deployed ==> relationship_is(final(session).transfers().last().relationship,
                "failure"@, "FlowFiles that failed processing"@),
            final(session).inputs() == old(session).inputs(),
            final(session).removals() == old(session).removals(),
    {
        let ghost t0 = session.transfers();
        let mut flowfile = flowfile;
        if deployed {
            flowfile.put_attribute(FROST_DEPLOY_STATUS, "success");
            session.transfer(flowfile, Relationship::success());
        } else {
            flowfile.put_attribute(FROST_DEPLOY_STATUS, "failed");
            session.transfer(flowfile, Relationship::failure());
        }
        assert(session.transfers().drop_last() =~= t0);
    }
}

} // verus!
