//! The key/value summary of the effective configuration shown before a
//! session, and the branch description read from a repository's `HEAD`.
use vstd::prelude::*;
use vstd::string::*;
use crate::text::{file_name_of, has_prefix, path_file_name, trim, trimmed};

verus! {

/// How many characters of a detached `HEAD` are shown.
pub const DETACHED_HEAD_CHARS: usize = 12;

/// What the summary shows of a configuration.
pub struct ConfigSummaryInput {
    pub workdir: String,
    pub model: String,
    pub provider: String,
    pub approval: String,
    pub sandbox: String,
    /// The repository root and the branch description, when the working
    /// directory is inside a repository.
    pub git_repo: Option<String>,
    pub git_branch: Option<String>,
    /// Whether the provider speaks the Responses API and the model family
    /// supports reasoning summaries.
    pub shows_reasoning: bool,
    pub reasoning_effort: String,
    pub reasoning_summary: String,
}

/// The branch description of a `HEAD` file's contents, once surrounding
/// whitespace is removed: for a symbolic reference, the file name of the
/// referenced path (none when it has no normal last component); otherwise
/// `detached:` and the first characters of the content; `None` for an
/// empty file.
pub open spec fn head_branch(content: Seq<char>) -> Option<Seq<char>> {
    let line = trimmed(content);
    if "ref: "@.is_prefix_of(line) {
        path_file_name(line.subrange(5, line.len() as int))
    } else if line.len() > 0 {
        Some(
            "detached:"@ + (if line.len() > DETACHED_HEAD_CHARS {
                line.subrange(0, DETACHED_HEAD_CHARS as int)
            } else {
                line
            }),
        )
    } else {
        None
    }
}

/// The entries of the summary, in order: working directory, model,
/// provider, approval policy, sandbox; then the repository root and branch
/// when known; then the reasoning settings when they apply.
pub open spec fn summary_entries(c: ConfigSummaryInput) -> Seq<(Seq<char>, Seq<char>)> {
    let base = seq![
        ("workdir"@, c.workdir@),
        ("model"@, c.model@),
        ("provider"@, c.provider@),
        ("approval"@, c.approval@),
        ("sandbox"@, c.sandbox@),
    ];
    let git = match c.git_repo {
        Some(root) => seq![("git repo"@, root@)] + match c.git_branch {
            Some(b) => seq![("git branch"@, b@)],
            None => Seq::empty(),
        },
        None => Seq::empty(),
    };
    let reasoning = if c.shows_reasoning {
        seq![
            ("reasoning effort"@, c.reasoning_effort@),
            ("reasoning summaries"@, c.reasoning_summary@),
        ]
    } else {
        Seq::empty()
    };
    base + git + reasoning
}

/// The characters of the entries of a summary.
pub open spec fn entries_view(v: Seq<(&'static str, String)>) -> Seq<(Seq<char>, Seq<char>)> {
    v.map_values(|e: (&'static str, String)| (e.0@, e.1@))
}

/// The branch description of a repository whose `HEAD` file holds `content`.
pub fn git_branch_from_head(content: &str) -> (r: Option<String>)
    ensures
        match r {
            Some(b) => head_branch(content@) == Some(b@),
            None => head_branch(content@) is None,
        },
{
    let line = trim(content);
    let n = line.unicode_len();
    if has_prefix("ref: ", line) {
        proof {
            reveal_strlit("ref: ");
        }
        file_name_of(line.substring_char(5, n))
    } else if n > 0 {
        let shown = if n > DETACHED_HEAD_CHARS {
            line.substring_char(0, DETACHED_HEAD_CHARS)
        } else {
            line
        };
        let r = String::from_str("detached:").concat(shown);
        Some(r)
    } else {
        None
    }
}

/// The repository root and branch description shown in the summary, from
/// the root found for the working directory (if any) and the contents of
/// its `HEAD` file (`None` when it could not be read).
pub fn git_context(repo_root: Option<String>, head: Option<&str>) -> (r: (Option<String>, Option<String>))
    ensures
        match repo_root {
            None => r.0 is None && r.1 is None,
            Some(root) => r.0 == Some(root) && match head {
                None => r.1 is None,
                Some(h) => match r.1 {
                    Some(b) => head_branch(h@) == Some(b@),
                    None => head_branch(h@) is None,
                },
            },
        },
{
    match repo_root {
        None => (None, None),
        Some(root) => match head {
            Some(h) => (Some(root), git_branch_from_head(h)),
            None => (Some(root), None),
        },
    }
}

fn push_entry(v: &mut Vec<(&'static str, String)>, k: &'static str, val: String)
    ensures
        entries_view(final(v)@) == entries_view(old(v)@).push((k@, val@)),
{
    v.push((k, val));
    proof {
        assert(entries_view(v@) =~= entries_view(old(v)@).push((k@, val@)));
    }
}

/// Builds the list of key/value pairs summarizing the effective configuration.
pub fn create_config_summary_entries(config: &ConfigSummaryInput) -> (r: Vec<(&'static str, String)>)
    ensures
        entries_view(r@) == summary_entries(*config),
{
    let mut entries: Vec<(&'static str, String)> = Vec::new();
    push_entry(&mut entries, "workdir", config.workdir.clone());
    push_entry(&mut entries, "model", config.model.clone());
    push_entry(&mut entries, "provider", config.provider.clone());
    push_entry(&mut entries, "approval", config.approval.clone());
    push_entry(&mut entries, "sandbox", config.sandbox.clone());
    if let Some(root) = &config.git_repo {
        push_entry(&mut entries, "git repo", root.clone());
        if let Some(b) = &config.git_branch {
            push_entry(&mut entries, "git branch", b.clone());
        }
    }
    if config.shows_reasoning {
        push_entry(&mut entries, "reasoning effort", config.reasoning_effort.clone());
        push_entry(&mut entries, "reasoning summaries", config.reasoning_summary.clone());
    }
    proof {
        assert(entries_view(entries@) =~= summary_entries(*config));
    }
    entries
}

} // verus!
