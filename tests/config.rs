use codex_session::config_summary::{
    create_config_summary_entries, git_branch_from_head, git_context, ConfigSummaryInput,
};
use codex_session::driver::AutoSummary;
use codex_session::exec_config::{
    effective_auto_summary, exec_overrides_from, parse_auto_summary, prepend_config_flags,
    ExecPromptsCfg, ExecSectionCfg,
};

#[test]
fn branch_from_symbolic_ref() {
    assert_eq!(
        git_branch_from_head("ref: refs/heads/main\n"),
        Some("main".to_string())
    );
    assert_eq!(
        git_branch_from_head("  ref: refs/heads/feature/x \r\n"),
        Some("x".to_string())
    );
    assert_eq!(
        git_branch_from_head("ref: refs/heads/"),
        Some("heads".to_string())
    );
}

#[test]
fn branch_follows_path_file_name() {
    assert_eq!(
        git_branch_from_head("ref: refs/heads/main/."),
        Some("main".to_string())
    );
    assert_eq!(
        git_branch_from_head("ref: refs/heads/main/./"),
        Some("main".to_string())
    );
    assert_eq!(
        git_branch_from_head("ref: refs//heads//dev"),
        Some("dev".to_string())
    );
    assert_eq!(git_branch_from_head("ref: refs/heads/.."), None);
    assert_eq!(git_branch_from_head("ref: /"), None);
    assert_eq!(git_branch_from_head("ref: ."), None);
    assert_eq!(
        git_branch_from_head("ref: refs/heads/..x"),
        Some("..x".to_string())
    );
    for rest in ["refs/heads/main/.", "a/..", "a/b/", "./x", "..."] {
        let expected = std::path::Path::new(rest)
            .file_name()
            .and_then(|s| s.to_str())
            .map(|s| s.to_string());
        assert_eq!(git_branch_from_head(&format!("ref: {rest}")), expected);
    }
}

#[test]
fn head_trim_uses_unicode_whitespace() {
    assert_eq!(
        git_branch_from_head("\u{3000}\u{a0}ref: refs/heads/main\u{b}\u{2028}"),
        Some("main".to_string())
    );
    assert_eq!(git_branch_from_head("\u{85}\u{1680}"), None);
    assert_eq!(
        git_branch_from_head("\u{a0}abc\u{3000}"),
        Some("detached:abc".to_string())
    );
}

#[test]
fn branch_from_detached_head() {
    let b = git_branch_from_head("2f1c3b4a5d6e7f8091a2b3c4d5e6f7089abcdeff\n").unwrap();
    assert!(b.starts_with("detached:"));
    assert_eq!(b, "detached:2f1c3b4a5d6e");
    assert_eq!(git_branch_from_head("abc\n"), Some("detached:abc".to_string()));
    assert_eq!(git_branch_from_head(" \n"), None);
}

#[test]
fn git_context_cases() {
    assert_eq!(git_context(None, Some("ref: refs/heads/main")), (None, None));
    assert_eq!(
        git_context(Some("/repo".to_string()), Some("ref: refs/heads/main\n")),
        (Some("/repo".to_string()), Some("main".to_string()))
    );
    assert_eq!(
        git_context(Some("/repo".to_string()), None),
        (Some("/repo".to_string()), None)
    );
}

fn input(git: bool, reasoning: bool) -> ConfigSummaryInput {
    ConfigSummaryInput {
        workdir: "/w".to_string(),
        model: "gpt-5".to_string(),
        provider: "openai".to_string(),
        approval: "never".to_string(),
        sandbox: "read-only".to_string(),
        git_repo: if git { Some("/w".to_string()) } else { None },
        git_branch: if git { Some("main".to_string()) } else { None },
        shows_reasoning: reasoning,
        reasoning_effort: "medium".to_string(),
        reasoning_summary: "auto".to_string(),
    }
}

#[test]
fn summary_entries_in_order() {
    let e = create_config_summary_entries(&input(true, true));
    let keys: Vec<&str> = e.iter().map(|(k, _)| *k).collect();
    assert_eq!(
        keys,
        vec![
            "workdir",
            "model",
            "provider",
            "approval",
            "sandbox",
            "git repo",
            "git branch",
            "reasoning effort",
            "reasoning summaries"
        ]
    );
    assert_eq!(e[1].1, "gpt-5");
    assert_eq!(e[6].1, "main");
    assert_eq!(e[8].1, "auto");
    let plain = create_config_summary_entries(&input(false, false));
    assert_eq!(plain.len(), 5);
    assert_eq!(plain[4], ("sandbox", "read-only".to_string()));
}

#[test]
fn auto_summary_values() {
    assert_eq!(parse_auto_summary("rich"), Some(AutoSummary::Rich));
    assert_eq!(parse_auto_summary("brief"), Some(AutoSummary::Brief));
    assert_eq!(parse_auto_summary("Rich"), None);
    assert_eq!(parse_auto_summary(""), None);
    assert_eq!(
        effective_auto_summary(Some(AutoSummary::Brief), Some(AutoSummary::Rich)),
        Some(AutoSummary::Brief)
    );
    assert_eq!(
        effective_auto_summary(None, Some(AutoSummary::Rich)),
        Some(AutoSummary::Rich)
    );
}

#[test]
fn exec_section_to_overrides() {
    let none = exec_overrides_from(None);
    assert!(none.auto_summary.is_none() && none.summary_rich_file.is_none());
    let o = exec_overrides_from(Some(ExecSectionCfg {
        auto_summary: Some("rich".to_string()),
        prompts: Some(ExecPromptsCfg {
            summary_rich_file: Some("/p/rich.md".to_string()),
            summary_brief_file: None,
        }),
    }));
    assert_eq!(o.auto_summary, Some(AutoSummary::Rich));
    assert_eq!(o.template_file(AutoSummary::Rich), Some("/p/rich.md".to_string()));
    assert_eq!(o.template_file(AutoSummary::Brief), None);
    let bad = exec_overrides_from(Some(ExecSectionCfg {
        auto_summary: Some("loud".to_string()),
        prompts: None,
    }));
    assert_eq!(bad.auto_summary, None);
}

#[test]
fn root_overrides_come_first() {
    let mut sub = vec!["model=b".to_string()];
    prepend_config_flags(&mut sub, vec!["model=a".to_string(), "x=1".to_string()]);
    assert_eq!(sub, vec!["model=a", "x=1", "model=b"]);
}
