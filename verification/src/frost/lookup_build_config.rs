//! LookupBuildConfig: finds the workspace build configuration for a
//! repository (named by a GitHub webhook) in the Plane database.
use super::attributes::FROST_WORKSPACE_ID;
use super::{
    appended_one, descriptor_is, error_noted, relationship_is, require_property, uuid_attr,
};
use crate::context::{lookup_text, ProcessContext, ProcessSession};
use crate::ext::{
    bytes_from_vec, json_parse_error_spec, json_pointer_spec, json_pointer_text, uuid_parse,
    uuid_text, uuid_to_string,
};
use crate::flowfile::FlowFile;
use crate::processor::{
    error_view, invalid_config, other_error, serialization, text_outcome, ProcessorError,
    PropertyDescriptor, Relationship,
};
use crate::text::{concat, ends_with, lemma_replace_absent, replace_all, replace_str, starts_with};
use vstd::prelude::*;

verus! {

/// `url` without a trailing `.git`.
pub open spec fn strip_git_suffix(url: Seq<char>) -> Seq<char> {
    if url.len() >= 4 && url.subrange(url.len() - 4, url.len() as int) == ".git"@ {
        url.subrange(0, url.len() - 4)
    } else {
        url
    }
}

/// `url` over https: a leading `http://` made `https://`.
pub open spec fn over_https(url: Seq<char>) -> Seq<char> {
    let http = "http://"@;
    if url.len() >= http.len() && url.subrange(0, http.len() as int) == http {
        "https://"@ + url.subrange(http.len() as int, url.len() as int)
    } else {
        url
    }
}

/// A git URL normalized for matching: without a trailing `.git`; when it is
/// an SSH GitHub URL, with every `git@github.com:` made
/// `https://github.com/`; and over https.
pub open spec fn normalized_git_url(url: Seq<char>) -> Seq<char> {
    let s = strip_git_suffix(url);
    let ssh = "git@github.com:"@;
    let t = if s.len() >= ssh.len() && s.subrange(0, ssh.len() as int) == ssh {
        replace_all(s, ssh, "https://github.com/"@)
    } else {
        s
    };
    over_https(t)
}

/// The repository URL read from a webhook payload's fields (`clone_url`,
/// else `html_url`, else a GitHub URL made from `full_name`).
pub open spec fn repo_from_fields(
    fields: (Option<Option<Seq<char>>>, Option<Option<Seq<char>>>, Option<Option<Seq<char>>>),
) -> Option<Seq<char>> {
    let (clone_url, html_url, full_name) = fields;
    let url = if clone_url is Some { clone_url } else { html_url };
    match url {
        Some(Some(u)) => Some(u),
        _ => match full_name {
            Some(Some(n)) => Some("https://github.com/"@ + n),
            _ => None,
        },
    }
}

/// The fields of a GitHub webhook payload's `repository` object that name
/// the repository: `clone_url`, `html_url` and `full_name`.
pub open spec fn webhook_fields(doc: Seq<u8>) -> (
    Option<Option<Seq<char>>>,
    Option<Option<Seq<char>>>,
    Option<Option<Seq<char>>>,
) {
    (
        json_pointer_spec(doc, "/repository/clone_url"@),
        json_pointer_spec(doc, "/repository/html_url"@),
        json_pointer_spec(doc, "/repository/full_name"@),
    )
}

/// Where a FlowFile names its git repository: its `frost.git.repo`
/// attribute, else its content as a GitHub webhook payload.
pub open spec fn git_repo_outcome(attr: Option<Seq<char>>, content: Option<Seq<u8>>) -> Result<
    Seq<char>,
    (int, Seq<char>),
> {
    let missing = Err(invalid_config("No git repository URL found in FlowFile"@));
    match attr {
        Some(v) => Ok(v),
        None => match content {
            None => missing,
            Some(c) => match json_parse_error_spec(c) {
                Some(m) => Err(serialization("Failed to parse payload: "@ + m)),
                None => match repo_from_fields(webhook_fields(c)) {
                    Some(u) => Ok(u),
                    None => missing,
                },
            },
        },
    }
}

/// Build configuration from the Plane database.
///
/// Ids are the 128-bit values of UUIDs; `build_args` is JSON text.
pub struct BuildConfig {
    pub id: u128,
    pub workspace_id: u128,
    pub name: String,
    pub git_repo: String,
    pub git_branch: String,
    pub dockerfile_path: String,
    pub context_path: String,
    pub image_name: String,
    pub build_args: Vec<u8>,
    pub status: String,
    pub auto_build_on_push: bool,
    pub auto_build_branch_pattern: String,
    pub memory_request: String,
    pub memory_limit: String,
    pub cpu_request: String,
    pub cpu_limit: String,
    pub auto_deploy: bool,
    pub deploy_target: Option<String>,
    pub deploy_namespace: String,
}

/// The attributes a FlowFile carries once its build config is found.
pub open spec fn found_attributes(
    attrs: Map<Seq<char>, Seq<char>>,
    config: BuildConfig,
    workspace_known: bool,
) -> Map<Seq<char>, Seq<char>> {
    let a = attrs.insert("frost.build.config.id"@, uuid_text(config.id)).insert(
        "frost.build.config.name"@,
        config.name@,
    ).insert("frost.build.dockerfile"@, config.dockerfile_path@).insert(
        "frost.build.context"@,
        config.context_path@,
    ).insert("frost.build.image_name"@, config.image_name@).insert(
        "frost.build.memory_request"@,
        config.memory_request@,
    ).insert("frost.build.memory_limit"@, config.memory_limit@).insert(
        "frost.build.cpu_request"@,
        config.cpu_request@,
    ).insert("frost.build.cpu_limit"@, config.cpu_limit@);
    let b = if config.auto_deploy {
        let e = a.insert("frost.deploy.enabled"@, "true"@);
        let t = match config.deploy_target {
            Some(target) => e.insert("frost.deploy.target"@, target@),
            None => e,
        };
        t.insert("frost.deploy.namespace"@, config.deploy_namespace@)
    } else {
        a
    };
    if workspace_known {
        b
    } else {
        b.insert("frost.workspace.id"@, uuid_text(config.workspace_id))
    }
}

/// Normalizing for matching makes the https, http and SSH forms of a GitHub
/// repository URL, with or without `.git`, the same https URL: an https URL
/// loses its `.git`; an http URL becomes https (and loses a trailing
/// `.git`); an SSH URL `git@github.com:p.git` becomes
/// `https://github.com/p` (for a path `p` without `:`).
pub proof fn law_normalize_git_url(p: Seq<char>)
    ensures
        normalized_git_url("https://github.com/"@ + p + ".git"@) == "https://github.com/"@ + p,
        normalized_git_url("https://github.com/"@ + p) == "https://github.com/"@ + strip_git_suffix(
            p,
        ),
        normalized_git_url("http://"@ + p) == "https://"@ + strip_git_suffix(p),
        !p.contains(':') ==> normalized_git_url("git@github.com:"@ + p + ".git"@)
            == "https://github.com/"@ + p,
{
    reveal_strlit("https://github.com/");
    reveal_strlit(".git");
    reveal_strlit("http://");
    reveal_strlit("https://");
    reveal_strlit("git@github.com:");
    let gh = "https://github.com/"@;
    let ssh = "git@github.com:"@;
    let http = "http://"@;
    // https, with `.git`
    let a = gh + p + ".git"@;
    assert(a.subrange(a.len() - 4, a.len() as int) =~= ".git"@);
    assert(a.subrange(0, a.len() - 4) =~= gh + p);
    assert((gh + p).subrange(0, ssh.len() as int) != ssh) by {
        assert((gh + p).subrange(0, ssh.len() as int)[0] != ssh[0]);
    }
    assert((gh + p).subrange(0, http.len() as int) != http) by {
        assert((gh + p).subrange(0, http.len() as int)[4] != http[4]);
    }
    // https, as it is
    let b = gh + p;
    if p.len() >= 4 {
        assert(b.subrange(b.len() - 4, b.len() as int) =~= p.subrange(p.len() - 4, p.len() as int));
        assert(b.subrange(0, b.len() - 4) =~= gh + p.subrange(0, p.len() - 4));
        let q = gh + p.subrange(0, p.len() - 4);
        assert(q.subrange(0, ssh.len() as int)[0] != ssh[0]);
        assert(q.subrange(0, http.len() as int)[4] != http[4]);
    } else {
        assert(b.subrange(b.len() - 4, b.len() as int) != ".git"@) by {
            assert(b[gh.len() - 1] == '/');
            assert(b.subrange(b.len() - 4, b.len() as int)[3 - p.len()] == '/');
        }
    }
    // http
    let c = http + p;
    assert(c.subrange(0, http.len() as int) =~= http);
    if c.len() >= ssh.len() {
        assert(c.subrange(0, ssh.len() as int)[0] != ssh[0]);
    }
    if p.len() >= 4 {
        assert(c.subrange(c.len() - 4, c.len() as int) =~= p.subrange(p.len() - 4, p.len() as int));
    } else {
        assert(c.subrange(c.len() - 4, c.len() as int) != ".git"@) by {
            assert(c[http.len() - 1] == '/');
            assert(c.subrange(c.len() - 4, c.len() as int)[3 - p.len()] == '/');
        }
    }
    if p.len() >= 4 && p.subrange(p.len() - 4, p.len() as int) == ".git"@ {
        let q = http + p.subrange(0, p.len() - 4);
        assert(c.subrange(0, c.len() - 4) =~= q);
        if q.len() >= ssh.len() {
            assert(q.subrange(0, ssh.len() as int)[0] != ssh[0]);
        }
        assert(q.subrange(0, http.len() as int) =~= http);
        assert(q.subrange(http.len() as int, q.len() as int) =~= p.subrange(0, p.len() - 4));
    } else {
        assert(c.subrange(http.len() as int, c.len() as int) =~= p);
    }
    // ssh
    if !p.contains(':') {
        let d = ssh + p + ".git"@;
        assert(d.subrange(d.len() - 4, d.len() as int) =~= ".git"@);
        let e = ssh + p;
        assert(d.subrange(0, d.len() - 4) =~= e);
        assert(e.subrange(0, ssh.len() as int) =~= ssh);
        assert(e.skip(ssh.len() as int) =~= p);
        lemma_replace_absent(p, ssh, gh);
        assert(replace_all(e, ssh, gh) == gh + p);
        let f = gh + p;
        assert(f.subrange(0, http.len() as int)[4] != http[4]);
    }
}

/// The set of attribute names a found build config may set.
pub open spec fn found_keys() -> Set<Seq<char>> {
    set!["frost.build.config.id"@, "frost.build.config.name"@, "frost.build.dockerfile"@, "frost.build.context"@, "frost.build.image_name"@, "frost.build.memory_request"@, "frost.build.memory_limit"@, "frost.build.cpu_request"@, "frost.build.cpu_limit"@, "frost.deploy.enabled"@, "frost.deploy.target"@, "frost.deploy.namespace"@, "frost.workspace.id"@]
}

/// The attribute names a found build config sets are distinct.
proof fn lemma_found_keys_distinct()
    ensures
        "frost.build.config.id"@ != "frost.build.config.name"@,
        "frost.build.config.id"@ != "frost.build.dockerfile"@,
        "frost.build.config.id"@ != "frost.build.context"@,
        "frost.build.config.id"@ != "frost.build.image_name"@,
        "frost.build.config.id"@ != "frost.build.memory_request"@,
        "frost.build.config.id"@ != "frost.build.memory_limit"@,
        "frost.build.config.id"@ != "frost.build.cpu_request"@,
        "frost.build.config.id"@ != "frost.build.cpu_limit"@,
        "frost.build.config.id"@ != "frost.deploy.enabled"@,
        "frost.build.config.id"@ != "frost.deploy.target"@,
        "frost.build.config.id"@ != "frost.deploy.namespace"@,
        "frost.build.config.id"@ != "frost.workspace.id"@,
        "frost.build.config.name"@ != "frost.build.dockerfile"@,
        "frost.build.config.name"@ != "frost.build.context"@,
        "frost.build.config.name"@ != "frost.build.image_name"@,
        "frost.build.config.name"@ != "frost.build.memory_request"@,
        "frost.build.config.name"@ != "frost.build.memory_limit"@,
        "frost.build.config.name"@ != "frost.build.cpu_request"@,
        "frost.build.config.name"@ != "frost.build.cpu_limit"@,
        "frost.build.config.name"@ != "frost.deploy.enabled"@,
        "frost.build.config.name"@ != "frost.deploy.target"@,
        "frost.build.config.name"@ != "frost.deploy.namespace"@,
        "frost.build.config.name"@ != "frost.workspace.id"@,
        "frost.build.dockerfile"@ != "frost.build.context"@,
        "frost.build.dockerfile"@ != "frost.build.image_name"@,
        "frost.build.dockerfile"@ != "frost.build.memory_request"@,
        "frost.build.dockerfile"@ != "frost.build.memory_limit"@,
        "frost.build.dockerfile"@ != "frost.build.cpu_request"@,
        "frost.build.dockerfile"@ != "frost.build.cpu_limit"@,
        "frost.build.dockerfile"@ != "frost.deploy.enabled"@,
        "frost.build.dockerfile"@ != "frost.deploy.target"@,
        "frost.build.dockerfile"@ != "frost.deploy.namespace"@,
        "frost.build.dockerfile"@ != "frost.workspace.id"@,
        "frost.build.context"@ != "frost.build.image_name"@,
        "frost.build.context"@ != "frost.build.memory_request"@,
        "frost.build.context"@ != "frost.build.memory_limit"@,
        "frost.build.context"@ != "frost.build.cpu_request"@,
        "frost.build.context"@ != "frost.build.cpu_limit"@,
        "frost.build.context"@ != "frost.deploy.enabled"@,
        "frost.build.context"@ != "frost.deploy.target"@,
        "frost.build.context"@ != "frost.deploy.namespace"@,
        "frost.build.context"@ != "frost.workspace.id"@,
        "frost.build.image_name"@ != "frost.build.memory_request"@,
        "frost.build.image_name"@ != "frost.build.memory_limit"@,
        "frost.build.image_name"@ != "frost.build.cpu_request"@,
        "frost.build.image_name"@ != "frost.build.cpu_limit"@,
        "frost.build.image_name"@ != "frost.deploy.enabled"@,
        "frost.build.image_name"@ != "frost.deploy.target"@,
        "frost.build.image_name"@ != "frost.deploy.namespace"@,
        "frost.build.image_name"@ != "frost.workspace.id"@,
        "frost.build.memory_request"@ != "frost.build.memory_limit"@,
        "frost.build.memory_request"@ != "frost.build.cpu_request"@,
        "frost.build.memory_request"@ != "frost.build.cpu_limit"@,
        "frost.build.memory_request"@ != "frost.deploy.enabled"@,
        "frost.build.memory_request"@ != "frost.deploy.target"@,
        "frost.build.memory_request"@ != "frost.deploy.namespace"@,
        "frost.build.memory_request"@ != "frost.workspace.id"@,
        "frost.build.memory_limit"@ != "frost.build.cpu_request"@,
        "frost.build.memory_limit"@ != "frost.build.cpu_limit"@,
        "frost.build.memory_limit"@ != "frost.deploy.enabled"@,
        "frost.build.memory_limit"@ != "frost.deploy.target"@,
        "frost.build.memory_limit"@ != "frost.deploy.namespace"@,
        "frost.build.memory_limit"@ != "frost.workspace.id"@,
        "frost.build.cpu_request"@ != "frost.build.cpu_limit"@,
        "frost.build.cpu_request"@ != "frost.deploy.enabled"@,
        "frost.build.cpu_request"@ != "frost.deploy.target"@,
        "frost.build.cpu_request"@ != "frost.deploy.namespace"@,
        "frost.build.cpu_request"@ != "frost.workspace.id"@,
        "frost.build.cpu_limit"@ != "frost.deploy.enabled"@,
        "frost.build.cpu_limit"@ != "frost.deploy.target"@,
        "frost.build.cpu_limit"@ != "frost.deploy.namespace"@,
        "frost.build.cpu_limit"@ != "frost.workspace.id"@,
        "frost.deploy.enabled"@ != "frost.deploy.target"@,
        "frost.deploy.enabled"@ != "frost.deploy.namespace"@,
        "frost.deploy.enabled"@ != "frost.workspace.id"@,
        "frost.deploy.target"@ != "frost.deploy.namespace"@,
        "frost.deploy.target"@ != "frost.workspace.id"@,
        "frost.deploy.namespace"@ != "frost.workspace.id"@,
{
    reveal_strlit("frost.build.config.id");
    reveal_strlit("frost.build.config.name");
    reveal_strlit("frost.build.dockerfile");
    reveal_strlit("frost.build.context");
    reveal_strlit("frost.build.image_name");
    reveal_strlit("frost.build.memory_request");
    reveal_strlit("frost.build.memory_limit");
    reveal_strlit("frost.build.cpu_request");
    reveal_strlit("frost.build.cpu_limit");
    reveal_strlit("frost.deploy.enabled");
    reveal_strlit("frost.deploy.target");
    reveal_strlit("frost.deploy.namespace");
    reveal_strlit("frost.workspace.id");
    assert("frost.build.config.id"@ != "frost.build.config.name"@) by {
        assert("frost.build.config.id"@.len() != "frost.build.config.name"@.len());
    }
    assert("frost.build.config.id"@ != "frost.build.dockerfile"@) by {
        assert("frost.build.config.id"@.len() != "frost.build.dockerfile"@.len());
    }
    assert("frost.build.config.id"@ != "frost.build.context"@) by {
        assert("frost.build.config.id"@.len() != "frost.build.context"@.len());
    }
    assert("frost.build.config.id"@ != "frost.build.image_name"@) by {
        assert("frost.build.config.id"@.len() != "frost.build.image_name"@.len());
    }
    assert("frost.build.config.id"@ != "frost.build.memory_request"@) by {
        assert("frost.build.config.id"@.len() != "frost.build.memory_request"@.len());
    }
    assert("frost.build.config.id"@ != "frost.build.memory_limit"@) by {
        assert("frost.build.config.id"@.len() != "frost.build.memory_limit"@.len());
    }
    assert("frost.build.config.id"@ != "frost.build.cpu_request"@) by {
        assert("frost.build.config.id"@.len() != "frost.build.cpu_request"@.len());
    }
    assert("frost.build.config.id"@ != "frost.build.cpu_limit"@) by {
        assert("frost.build.config.id"@[13] != "frost.build.cpu_limit"@[13]);
    }
    assert("frost.build.config.id"@ != "frost.deploy.enabled"@) by {
        assert("frost.build.config.id"@.len() != "frost.deploy.enabled"@.len());
    }
    assert("frost.build.config.id"@ != "frost.deploy.target"@) by {
        assert("frost.build.config.id"@.len() != "frost.deploy.target"@.len());
    }
    assert("frost.build.config.id"@ != "frost.deploy.namespace"@) by {
        assert("frost.build.config.id"@.len() != "frost.deploy.namespace"@.len());
    }
    assert("frost.build.config.id"@ != "frost.workspace.id"@) by {
        assert("frost.build.config.id"@.len() != "frost.workspace.id"@.len());
    }
    assert("frost.build.config.name"@ != "frost.build.dockerfile"@) by {
        assert("frost.build.config.name"@.len() != "frost.build.dockerfile"@.len());
    }
    assert("frost.build.config.name"@ != "frost.build.context"@) by {
        assert("frost.build.config.name"@.len() != "frost.build.context"@.len());
    }
    assert("frost.build.config.name"@ != "frost.build.image_name"@) by {
        assert("frost.build.config.name"@.len() != "frost.build.image_name"@.len());
    }
    assert("frost.build.config.name"@ != "frost.build.memory_request"@) by {
        assert("frost.build.config.name"@.len() != "frost.build.memory_request"@.len());
    }
    assert("frost.build.config.name"@ != "frost.build.memory_limit"@) by {
        assert("frost.build.config.name"@.len() != "frost.build.memory_limit"@.len());
    }
    assert("frost.build.config.name"@ != "frost.build.cpu_request"@) by {
        assert("frost.build.config.name"@[13] != "frost.build.cpu_request"@[13]);
    }
    assert("frost.build.config.name"@ != "frost.build.cpu_limit"@) by {
        assert("frost.build.config.name"@.len() != "frost.build.cpu_limit"@.len());
    }
    assert("frost.build.config.name"@ != "frost.deploy.enabled"@) by {
        assert("frost.build.config.name"@.len() != "frost.deploy.enabled"@.len());
    }
    assert("frost.build.config.name"@ != "frost.deploy.target"@) by {
        assert("frost.build.config.name"@.len() != "frost.deploy.target"@.len());
    }
    assert("frost.build.config.name"@ != "frost.deploy.namespace"@) by {
        assert("frost.build.config.name"@.len() != "frost.deploy.namespace"@.len());
    }
    assert("frost.build.config.name"@ != "frost.workspace.id"@) by {
        assert("frost.build.config.name"@.len() != "frost.workspace.id"@.len());
    }
    assert("frost.build.dockerfile"@ != "frost.build.context"@) by {
        assert("frost.build.dockerfile"@.len() != "frost.build.context"@.len());
    }
    assert("frost.build.dockerfile"@ != "frost.build.image_name"@) by {
        assert("frost.build.dockerfile"@[12] != "frost.build.image_name"@[12]);
    }
    assert("frost.build.dockerfile"@ != "frost.build.memory_request"@) by {
        assert("frost.build.dockerfile"@.len() != "frost.build.memory_request"@.len());
    }
    assert("frost.build.dockerfile"@ != "frost.build.memory_limit"@) by {
        assert("frost.build.dockerfile"@.len() != "frost.build.memory_limit"@.len());
    }
    assert("frost.build.dockerfile"@ != "frost.build.cpu_request"@) by {
        assert("frost.build.dockerfile"@.len() != "frost.build.cpu_request"@.len());
    }
    assert("frost.build.dockerfile"@ != "frost.build.cpu_limit"@) by {
        assert("frost.build.dockerfile"@.len() != "frost.build.cpu_limit"@.len());
    }
    assert("frost.build.dockerfile"@ != "frost.deploy.enabled"@) by {
        assert("frost.build.dockerfile"@.len() != "frost.deploy.enabled"@.len());
    }
    assert("frost.build.dockerfile"@ != "frost.deploy.target"@) by {
        assert("frost.build.dockerfile"@.len() != "frost.deploy.target"@.len());
    }
    assert("frost.build.dockerfile"@ != "frost.deploy.namespace"@) by {
        assert("frost.build.dockerfile"@[6] != "frost.deploy.namespace"@[6]);
    }
    assert("frost.build.dockerfile"@ != "frost.workspace.id"@) by {
        assert("frost.build.dockerfile"@.len() != "frost.workspace.id"@.len());
    }
    assert("frost.build.context"@ != "frost.build.image_name"@) by {
        assert("frost.build.context"@.len() != "frost.build.image_name"@.len());
    }
    assert("frost.build.context"@ != "frost.build.memory_request"@) by {
        assert("frost.build.context"@.len() != "frost.build.memory_request"@.len());
    }
    assert("frost.build.context"@ != "frost.build.memory_limit"@) by {
        assert("frost.build.context"@.len() != "frost.build.memory_limit"@.len());
    }
    assert("frost.build.context"@ != "frost.build.cpu_request"@) by {
        assert("frost.build.context"@.len() != "frost.build.cpu_request"@.len());
    }
    assert("frost.build.context"@ != "frost.build.cpu_limit"@) by {
        assert("frost.build.context"@.len() != "frost.build.cpu_limit"@.len());
    }
    assert("frost.build.context"@ != "frost.deploy.enabled"@) by {
        assert("frost.build.context"@.len() != "frost.deploy.enabled"@.len());
    }
    assert("frost.build.context"@ != "frost.deploy.target"@) by {
        assert("frost.build.context"@[6] != "frost.deploy.target"@[6]);
    }
    assert("frost.build.context"@ != "frost.deploy.namespace"@) by {
        assert("frost.build.context"@.len() != "frost.deploy.namespace"@.len());
    }
    assert("frost.build.context"@ != "frost.workspace.id"@) by {
        assert("frost.build.context"@.len() != "frost.workspace.id"@.len());
    }
    assert("frost.build.image_name"@ != "frost.build.memory_request"@) by {
        assert("frost.build.image_name"@.len() != "frost.build.memory_request"@.len());
    }
    assert("frost.build.image_name"@ != "frost.build.memory_limit"@) by {
        assert("frost.build.image_name"@.len() != "frost.build.memory_limit"@.len());
    }
    assert("frost.build.image_name"@ != "frost.build.cpu_request"@) by {
        assert("frost.build.image_name"@.len() != "frost.build.cpu_request"@.len());
    }
    assert("frost.build.image_name"@ != "frost.build.cpu_limit"@) by {
        assert("frost.build.image_name"@.len() != "frost.build.cpu_limit"@.len());
    }
    assert("frost.build.image_name"@ != "frost.deploy.enabled"@) by {
        assert("frost.build.image_name"@.len() != "frost.deploy.enabled"@.len());
    }
    assert("frost.build.image_name"@ != "frost.deploy.target"@) by {
        assert("frost.build.image_name"@.len() != "frost.deploy.target"@.len());
    }
    assert("frost.build.image_name"@ != "frost.deploy.namespace"@) by {
        assert("frost.build.image_name"@[6] != "frost.deploy.namespace"@[6]);
    }
    assert("frost.build.image_name"@ != "frost.workspace.id"@) by {
        assert("frost.build.image_name"@.len() != "frost.workspace.id"@.len());
    }
    assert("frost.build.memory_request"@ != "frost.build.memory_limit"@) by {
        assert("frost.build.memory_request"@.len() != "frost.build.memory_limit"@.len());
    }
    assert("frost.build.memory_request"@ != "frost.build.cpu_request"@) by {
        assert("frost.build.memory_request"@.len() != "frost.build.cpu_request"@.len());
    }
    assert("frost.build.memory_request"@ != "frost.build.cpu_limit"@) by {
        assert("frost.build.memory_request"@.len() != "frost.build.cpu_limit"@.len());
    }
    assert("frost.build.memory_request"@ != "frost.deploy.enabled"@) by {
        assert("frost.build.memory_request"@.len() != "frost.deploy.enabled"@.len());
    }
    assert("frost.build.memory_request"@ != "frost.deploy.target"@) by {
        assert("frost.build.memory_request"@.len() != "frost.deploy.target"@.len());
    }
    assert("frost.build.memory_request"@ != "frost.deploy.namespace"@) by {
        assert("frost.build.memory_request"@.len() != "frost.deploy.namespace"@.len());
    }
    assert("frost.build.memory_request"@ != "frost.workspace.id"@) by {
        assert("frost.build.memory_request"@.len() != "frost.workspace.id"@.len());
    }
    assert("frost.build.memory_limit"@ != "frost.build.cpu_request"@) by {
        assert("frost.build.memory_limit"@.len() != "frost.build.cpu_request"@.len());
    }
    assert("frost.build.memory_limit"@ != "frost.build.cpu_limit"@) by {
        assert("frost.build.memory_limit"@.len() != "frost.build.cpu_limit"@.len());
    }
    assert("frost.build.memory_limit"@ != "frost.deploy.enabled"@) by {
        assert("frost.build.memory_limit"@.len() != "frost.deploy.enabled"@.len());
    }
    assert("frost.build.memory_limit"@ != "frost.deploy.target"@) by {
        assert("frost.build.memory_limit"@.len() != "frost.deploy.target"@.len());
    }
    assert("frost.build.memory_limit"@ != "frost.deploy.namespace"@) by {
        assert("frost.build.memory_limit"@.len() != "frost.deploy.namespace"@.len());
    }
    assert("frost.build.memory_limit"@ != "frost.workspace.id"@) by {
        assert("frost.build.memory_limit"@.len() != "frost.workspace.id"@.len());
    }
    assert("frost.build.cpu_request"@ != "frost.build.cpu_limit"@) by {
        assert("frost.build.cpu_request"@.len() != "frost.build.cpu_limit"@.len());
    }
    assert("frost.build.cpu_request"@ != "frost.deploy.enabled"@) by {
        assert("frost.build.cpu_request"@.len() != "frost.deploy.enabled"@.len());
    }
    assert("frost.build.cpu_request"@ != "frost.deploy.target"@) by {
        assert("frost.build.cpu_request"@.len() != "frost.deploy.target"@.len());
    }
    assert("frost.build.cpu_request"@ != "frost.deploy.namespace"@) by {
        assert("frost.build.cpu_request"@.len() != "frost.deploy.namespace"@.len());
    }
    assert("frost.build.cpu_request"@ != "frost.workspace.id"@) by {
        assert("frost.build.cpu_request"@.len() != "frost.workspace.id"@.len());
    }
    assert("frost.build.cpu_limit"@ != "frost.deploy.enabled"@) by {
        assert("frost.build.cpu_limit"@.len() != "frost.deploy.enabled"@.len());
    }
    assert("frost.build.cpu_limit"@ != "frost.deploy.target"@) by {
        assert("frost.build.cpu_limit"@.len() != "frost.deploy.target"@.len());
    }
    assert("frost.build.cpu_limit"@ != "frost.deploy.namespace"@) by {
        assert("frost.build.cpu_limit"@.len() != "frost.deploy.namespace"@.len());
    }
    assert("frost.build.cpu_limit"@ != "frost.workspace.id"@) by {
        assert("frost.build.cpu_limit"@.len() != "frost.workspace.id"@.len());
    }
    assert("frost.deploy.enabled"@ != "frost.deploy.target"@) by {
        assert("frost.deploy.enabled"@.len() != "frost.deploy.target"@.len());
    }
    assert("frost.deploy.enabled"@ != "frost.deploy.namespace"@) by {
        assert("frost.deploy.enabled"@.len() != "frost.deploy.namespace"@.len());
    }
    assert("frost.deploy.enabled"@ != "frost.workspace.id"@) by {
        assert("frost.deploy.enabled"@.len() != "frost.workspace.id"@.len());
    }
    assert("frost.deploy.target"@ != "frost.deploy.namespace"@) by {
        assert("frost.deploy.target"@.len() != "frost.deploy.namespace"@.len());
    }
    assert("frost.deploy.target"@ != "frost.workspace.id"@) by {
        assert("frost.deploy.target"@.len() != "frost.workspace.id"@.len());
    }
    assert("frost.deploy.namespace"@ != "frost.workspace.id"@) by {
        assert("frost.deploy.namespace"@.len() != "frost.workspace.id"@.len());
    }
}

/// After a successful lookup, each `frost.build.*` attribute holds the
/// like-named field of the config found (its id as UUID text); when the
/// config deploys automatically, `frost.deploy.enabled` is `true` and the
/// deploy namespace (and target, when it has one) are set; when no
/// workspace was known, the config's workspace id is set; every other
/// attribute is as it was.
pub proof fn law_found_attributes(
    attrs: Map<Seq<char>, Seq<char>>,
    config: BuildConfig,
    workspace_known: bool,
)
    ensures
        ({
            let m = found_attributes(attrs, config, workspace_known);
            &&& m.contains_key("frost.build.config.id"@)
            &&& m["frost.build.config.id"@] == uuid_text(config.id)
            &&& m.contains_key("frost.build.config.name"@)
            &&& m["frost.build.config.name"@] == config.name@
            &&& m.contains_key("frost.build.dockerfile"@)
            &&& m["frost.build.dockerfile"@] == config.dockerfile_path@
            &&& m.contains_key("frost.build.context"@)
            &&& m["frost.build.context"@] == config.context_path@
            &&& m.contains_key("frost.build.image_name"@)
            &&& m["frost.build.image_name"@] == config.image_name@
            &&& m.contains_key("frost.build.memory_request"@)
            &&& m["frost.build.memory_request"@] == config.memory_request@
            &&& m.contains_key("frost.build.memory_limit"@)
            &&& m["frost.build.memory_limit"@] == config.memory_limit@
            &&& m.contains_key("frost.build.cpu_request"@)
            &&& m["frost.build.cpu_request"@] == config.cpu_request@
            &&& m.contains_key("frost.build.cpu_limit"@)
            &&& m["frost.build.cpu_limit"@] == config.cpu_limit@
            &&& config.auto_deploy ==> m.contains_key("frost.deploy.enabled"@)
                && m["frost.deploy.enabled"@] == "true"@ && m.contains_key("frost.deploy.namespace"@)
                && m["frost.deploy.namespace"@] == config.deploy_namespace@
            &&& (config.auto_deploy && config.deploy_target is Some) ==> m.contains_key(
                "frost.deploy.target"@,
            ) && m["frost.deploy.target"@] == config.deploy_target->0@
            &&& !workspace_known ==> m.contains_key("frost.workspace.id"@)
                && m["frost.workspace.id"@] == uuid_text(config.workspace_id)
            &&& workspace_known ==> (m.contains_key("frost.workspace.id"@) == attrs.contains_key(
                "frost.workspace.id"@,
            ) && m["frost.workspace.id"@] == attrs["frost.workspace.id"@])
            &&& !config.auto_deploy ==> (m.contains_key("frost.deploy.enabled"@)
                == attrs.contains_key("frost.deploy.enabled"@) && m["frost.deploy.enabled"@]
                == attrs["frost.deploy.enabled"@] && m.contains_key("frost.deploy.namespace"@)
                == attrs.contains_key("frost.deploy.namespace"@) && m["frost.deploy.namespace"@]
                == attrs["frost.deploy.namespace"@])
            &&& (!config.auto_deploy || config.deploy_target is None) ==> (m.contains_key(
                "frost.deploy.target"@,
            ) == attrs.contains_key("frost.deploy.target"@) && m["frost.deploy.target"@]
                == attrs["frost.deploy.target"@])
            &&& forall|k: Seq<char>|
                !found_keys().contains(k) ==> (#[trigger] m.contains_key(k) == attrs.contains_key(k)
                    && (attrs.contains_key(k) ==> m[k] == attrs[k]))
        }),
{
    lemma_found_keys_distinct();
}

/// Processor that looks up build configuration from the Plane database.
pub struct LookupBuildConfig {}

impl Default for LookupBuildConfig {
    fn default() -> (r: Self) {
        LookupBuildConfig {  }
    }
}

impl LookupBuildConfig {
    pub fn get_type(&self) -> (r: &'static str)
        ensures
            r@ == "org.apache.nifi.frost.LookupBuildConfig"@,
    {
        "org.apache.nifi.frost.LookupBuildConfig"
    }

    pub fn get_description(&self) -> (r: &'static str)
        ensures
            r@ == "Looks up WorkspaceBuildConfig from Plane database based on git repository URL"@,
    {
        "Looks up WorkspaceBuildConfig from Plane database based on git repository URL"
    }

    pub fn get_property_descriptors(&self) -> (r: Vec<PropertyDescriptor>)
        ensures
            r@.len() == 1,
            descriptor_is(r@[0], "plane.database.url"@, "Plane Database URL"@,
                "PostgreSQL connection URL for Plane database"@, true, true),
            r@[0].default_value is None,
            r@[0].allowable_values is None,
    {
        vec![
            PropertyDescriptor::new("plane.database.url")
                .display_name("Plane Database URL")
                .description("PostgreSQL connection URL for Plane database")
                .required(true)
                .sensitive(true)
                .build(),
        ]
    }

    /// The relationship for FlowFiles whose repository has no build config.
    pub fn no_config() -> (r: Relationship)
        ensures
            relationship_is(r, "no_config"@,
                "FlowFiles sent here when no matching build config is found"@),
    {
        Relationship::new("no_config", "FlowFiles sent here when no matching build config is found")
    }

    pub fn get_relationships(&self) -> (r: Vec<Relationship>)
        ensures
            r@.len() == 3,
            relationship_is(r@[0], "success"@, "FlowFiles that were processed successfully"@),
            relationship_is(r@[1], "no_config"@,
                "FlowFiles sent here when no matching build config is found"@),
            relationship_is(r@[2], "failure"@, "FlowFiles that failed processing"@),
    {
        vec![Relationship::success(), Self::no_config(), Relationship::failure()]
    }

    /// The database URL, which must be configured.
    pub fn database_url(&self, ctx: &ProcessContext) -> (r: Result<String, ProcessorError>)
        ensures
            match lookup_text(ctx.props(), "plane.database.url"@) {
                Some(t) => r matches Ok(s) && s@ == t,
                None => r matches Err(ProcessorError::InvalidConfig(m)) && m@
                    == "plane.database.url is required"@,
            },
    {
        require_property(ctx, "plane.database.url", "plane.database.url is required")
    }

    /// The git repository URL a FlowFile names.
    pub fn extract_git_repo(&self, flowfile: &FlowFile) -> (r: Result<String, ProcessorError>)
        ensures
            text_outcome(r) == git_repo_outcome(
                flowfile.attr("frost.git.repo"@),
                flowfile.content_bytes(),
            ),
    {
        if let Some(repo) = flowfile.get_attribute("frost.git.repo") {
            return Ok(repo.to_owned());
        }
        if let Some(content) = flowfile.content() {
            let doc = crate::ext::bytes_to_vec(content);
            let clone_url = match json_pointer_text(doc.as_slice(), "/repository/clone_url") {
                Ok(f) => f,
                Err(m) => return Err(Self::payload_error(m)),
            };
            let html_url = match json_pointer_text(doc.as_slice(), "/repository/html_url") {
                Ok(f) => f,
                Err(m) => return Err(Self::payload_error(m)),
            };
            let full_name = match json_pointer_text(doc.as_slice(), "/repository/full_name") {
                Ok(f) => f,
                Err(m) => return Err(Self::payload_error(m)),
            };
            let url = if clone_url.is_some() {
                clone_url
            } else {
                html_url
            };
            if let Some(Some(u)) = url {
                return Ok(u);
            }
            if let Some(Some(n)) = full_name {
                return Ok(concat("https://github.com/", n.as_str()));
            }
        }
        Err(ProcessorError::InvalidConfig("No git repository URL found in FlowFile".to_owned()))
    }

    /// The error for a webhook payload that is not JSON.
    fn payload_error(m: String) -> (r: ProcessorError)
        ensures
            error_view(r) == serialization("Failed to parse payload: "@ + m@),
    {
        ProcessorError::Serialization(concat("Failed to parse payload: ", m.as_str()))
    }

    /// Normalizes a git URL for matching: removes a trailing `.git`, makes an
    /// SSH GitHub URL an https one, and ensures https.
    pub fn normalize_git_url(&self, url: &str) -> (r: String)
        ensures
            r@ == normalized_git_url(url@),
    {
        proof {
            reveal_strlit(".git");
            reveal_strlit("git@github.com:");
            reveal_strlit("http://");
        }
        let mut normalized = url.to_owned();
        if ends_with(normalized.as_str(), ".git") {
            let n = normalized.unicode_len();
            normalized = normalized.as_str().substring_char(0, n - 4).to_owned();
        }
        if starts_with(normalized.as_str(), "git@github.com:") {
            normalized = replace_str(normalized.as_str(), "git@github.com:", "https://github.com/");
        }
        if starts_with(normalized.as_str(), "http://") {
            let n = normalized.unicode_len();
            let rest = normalized.as_str().substring_char(7, n);
            normalized = concat("https://", rest);
        }
        normalized
    }

    /// The values the query binds for a repository: its normalized URL, and a
    /// pattern matching any URL that ends with it.
    pub fn query_params(&self, git_repo: &str) -> (r: (String, String))
        ensures
            r.0@ == normalized_git_url(git_repo@),
            r.1@ == "%"@ + normalized_git_url(git_repo@),
    {
        let normalized = self.normalize_git_url(git_repo);
        let pattern = concat("%", normalized.as_str());
        (normalized, pattern)
    }

    /// The workspace id a FlowFile's attribute holds, when it is a UUID.
    pub fn workspace_id(&self, flowfile: &FlowFile) -> (r: Option<u128>)
        ensures
            r == uuid_attr(flowfile.attr("frost.workspace.id"@)),
    {
        match flowfile.get_attribute(FROST_WORKSPACE_ID) {
            Some(s) => uuid_parse(s),
            None => None,
        }
    }

    /// The error for a failed database query.
    pub fn query_failure(&self, message: &str) -> (r: ProcessorError)
        ensures
            error_view(r) == other_error("Database query failed: "@ + message@),
    {
        ProcessorError::Other(concat("Database query failed: ", message))
    }

    /// Routes a FlowFile by what the lookup found: with the config's
    /// attributes and JSON (`config_json`) as content to success; marked
    /// `not_found` to no_config; with the error's message to failure.
    pub fn record_lookup(
        &self,
        session: &mut ProcessSession,
        flowfile: FlowFile,
        workspace_id: Option<u128>,
        found: Result<Option<(BuildConfig, Vec<u8>)>, ProcessorError>,
    )
        ensures
            appended_one(old(session).transfers(), final(session).transfers()),
            final(session).transfers().last().flowfile.id == flowfile.id,
            final(session).inputs() == old(session).inputs(),
            final(session).removals() == old(session).removals(),
            match found {
                Ok(Some((config, json))) => {
                    &&& final(session).transfers().last().flowfile.attrs() == found_attributes(
                        flowfile.attrs(),
                        config,
                        workspace_id is Some,
                    )
                    &&& final(session).transfers().last().flowfile.content_bytes() == Some(json@)
                    &&& final(session).transfers().last().flowfile.size == json@.len()
                    &&& relationship_is(final(session).transfers().last().relationship,
                        "success"@, "FlowFiles that were processed successfully"@)
                },
                Ok(None) => {
                    &&& final(session).transfers().last().flowfile.attrs() == flowfile.attrs().insert(
                        "frost.lookup.status"@,
                        "not_found"@,
                    )
                    &&& final(session).transfers().last().flowfile.content_bytes()
                        == flowfile.content_bytes()
                    &&& final(session).transfers().last().flowfile.size == flowfile.size
                    &&& relationship_is(final(session).transfers().last().relationship,
                        "no_config"@,
                        "FlowFiles sent here when no matching build config is found"@)
                },
                Err(e) => {
                    &&& error_noted(
                        flowfile.attrs(),
                        final(session).transfers().last().flowfile.attrs(),
                        "frost.lookup.error"@,
                        e,
                    )
                    &&& final(session).transfers().last().flowfile.content_bytes()
                        == flowfile.content_bytes()
                    &&& final(session).transfers().last().flowfile.size == flowfile.size
                    &&& relationship_is(final(session).transfers().last().relationship,
                        "failure"@, "FlowFiles that failed processing"@)
                },
            },
    {
        let ghost t0 = session.transfers();
        let mut flowfile = flowfile;
        match found {
            Ok(Some((config, json))) => {
                let ghost a0 = flowfile.attrs();
                let id = uuid_to_string(config.id);
                flowfile.put_attribute("frost.build.config.id", id.as_str());
                flowfile.put_attribute("frost.build.config.name", config.name.as_str());
                flowfile.put_attribute("frost.build.dockerfile", config.dockerfile_path.as_str());
                flowfile.put_attribute("frost.build.context", config.context_path.as_str());
                flowfile.put_attribute("frost.build.image_name", config.image_name.as_str());
                flowfile.put_attribute("frost.build.memory_request", config.memory_request.as_str());
                flowfile.put_attribute("frost.build.memory_limit", config.memory_limit.as_str());
                flowfile.put_attribute("frost.build.cpu_request", config.cpu_request.as_str());
                flowfile.put_attribute("frost.build.cpu_limit", config.cpu_limit.as_str());
                if config.auto_deploy {
                    flowfile.put_attribute("frost.deploy.enabled", "true");
                    if let Some(target) = &config.deploy_target {
                        flowfile.put_attribute("frost.deploy.target", target.as_str());
                    }
                    flowfile.put_attribute("frost.deploy.namespace", config.deploy_namespace.as_str());
                }
                if workspace_id.is_none() {
                    let ws = uuid_to_string(config.workspace_id);
                    flowfile.put_attribute(FROST_WORKSPACE_ID, ws.as_str());
                }
                assert(flowfile.attrs() =~= found_attributes(a0, config, workspace_id is Some));
                flowfile.set_content(bytes_from_vec(json));
                session.transfer(flowfile, Relationship::success());
            },
            Ok(None) => {
                flowfile.put_attribute("frost.lookup.status", "not_found");
                session.transfer(flowfile, Self::no_config());
            },
            Err(e) => {
                let m = e.message();
                flowfile.put_attribute("frost.lookup.error", m.as_str());
                session.transfer(flowfile, Relationship::failure());
            },
        }
        assert(session.transfers().drop_last() =~= t0);
    }
}

} // verus!
