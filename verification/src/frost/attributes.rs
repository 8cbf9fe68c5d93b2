//! Standard FlowFile attribute names for FROST processors.
use vstd::prelude::*;

verus! {

pub const FROST_JOB_ID: &'static str = "frost.job.id";

pub const FROST_JOB_TYPE: &'static str = "frost.job.type";

pub const FROST_WORKSPACE_ID: &'static str = "frost.workspace.id";

pub const FROST_PROJECT_ID: &'static str = "frost.project.id";

pub const FROST_BUILD_JOB: &'static str = "frost.build.job";

pub const FROST_BUILD_IMAGE: &'static str = "frost.build.image";

pub const FROST_DEPLOY_STATUS: &'static str = "frost.deploy.status";

} // verus!
