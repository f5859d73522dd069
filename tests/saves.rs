use codex_session::saves::{
    infer_session_id, resolve_load, select_save_target, LoadError, RolloutEntry, SaveError,
    SavesIndex,
};

const NEWEST: &str = "/home/u/.codex/sessions/2025/01/02/rollout-2025-01-02T10-00-00-abc12345-0000-4000-8000-000000000001.jsonl";
const OLDER: &str = "/home/u/.codex/sessions/2025/01/01/rollout-2025-01-01T09-00-00-def67890-0000-4000-8000-000000000002.jsonl";

fn listing() -> Vec<RolloutEntry> {
    vec![
        RolloutEntry {
            path: NEWEST.to_string(),
            session_id: Some("abc12345-0000-4000-8000-000000000001".to_string()),
        },
        RolloutEntry {
            path: OLDER.to_string(),
            session_id: Some("def67890-0000-4000-8000-000000000002".to_string()),
        },
    ]
}

fn file_name(p: &str) -> &str {
    p.rsplit('/').next().unwrap()
}

#[test]
fn save_by_id_prefix_resolves_newest_match() {
    assert_eq!(select_save_target(&listing(), Some("abc1")), Ok(NEWEST.to_string()));
    assert_eq!(select_save_target(&listing(), Some("def6")), Ok(OLDER.to_string()));
    assert_eq!(
        select_save_target(&listing(), Some("abc12345-0000-4000-8000-000000000001")),
        Ok(NEWEST.to_string())
    );
}

#[test]
fn save_by_unknown_id_prefix_fails() {
    assert_eq!(
        select_save_target(&listing(), Some("zzz")),
        Err(SaveError::SessionNotFound)
    );
    assert_eq!(
        select_save_target(&Vec::new(), Some("abc")),
        Err(SaveError::SessionNotFound)
    );
}

#[test]
fn save_without_id_takes_newest() {
    assert_eq!(select_save_target(&listing(), None), Ok(NEWEST.to_string()));
    assert_eq!(
        select_save_target(&Vec::new(), None),
        Err(SaveError::NoConversations)
    );
}

#[test]
fn entry_without_id_matches_only_empty_prefix() {
    let items = vec![RolloutEntry {
        path: "/x/rollout-a.jsonl".to_string(),
        session_id: None,
    }];
    assert_eq!(
        select_save_target(&items, Some("a")),
        Err(SaveError::SessionNotFound)
    );
    assert_eq!(
        select_save_target(&items, Some("")),
        Ok("/x/rollout-a.jsonl".to_string())
    );
}

#[test]
fn inferred_id_is_last_dash_segment() {
    assert_eq!(
        infer_session_id(file_name(NEWEST)),
        Some("000000000001".to_string())
    );
    assert_eq!(infer_session_id("rollout-abc.jsonl"), Some("abc".to_string()));
    assert_eq!(infer_session_id("plain.jsonl"), Some("plain".to_string()));
    assert_eq!(infer_session_id("rollout-abc.json"), None);
    assert_eq!(infer_session_id("rollout-.jsonl"), Some(String::new()));
    assert_eq!(infer_session_id(""), None);
}

#[test]
fn save_then_load_returns_saved_path() {
    let mut ix = SavesIndex::new();
    let target = select_save_target(&listing(), None).unwrap();
    ix.save("foo".to_string(), target.clone(), Some(file_name(&target)));
    // A newer session appearing later does not change what "foo" names.
    let mut newer = listing();
    newer.insert(
        0,
        RolloutEntry {
            path: "/s/rollout-2025-01-03-xyz.jsonl".to_string(),
            session_id: Some("xyz".to_string()),
        },
    );
    assert_eq!(select_save_target(&newer, None), Ok("/s/rollout-2025-01-03-xyz.jsonl".to_string()));
    assert_eq!(ix.lookup("foo"), Some(NEWEST.to_string()));
    assert_eq!(resolve_load(Some(&ix), "foo"), Ok(NEWEST.to_string()));
}

#[test]
fn save_overwrites_name_and_records_id() {
    let mut ix = SavesIndex::new();
    ix.save("foo".to_string(), NEWEST.to_string(), Some(file_name(NEWEST)));
    ix.save("foo".to_string(), OLDER.to_string(), Some(file_name(OLDER)));
    assert_eq!(ix.lookup("foo"), Some(OLDER.to_string()));
    assert_eq!(ix.by_name.len(), 1);
    assert_eq!(ix.lookup("000000000001"), Some(NEWEST.to_string()));
    assert_eq!(ix.lookup("000000000002"), Some(OLDER.to_string()));
}

#[test]
fn name_shadows_id() {
    let mut ix = SavesIndex::new();
    ix.save("first".to_string(), "/a/rollout-k.jsonl".to_string(), Some("rollout-k.jsonl"));
    ix.save("k".to_string(), "/b/other.txt".to_string(), Some("other.txt"));
    assert_eq!(ix.lookup("k"), Some("/b/other.txt".to_string()));
    assert_eq!(ix.by_id.len(), 1);
}

#[test]
fn load_errors() {
    assert_eq!(resolve_load(None, "foo"), Err(LoadError::NoIndex));
    let ix = SavesIndex::new();
    assert_eq!(resolve_load(Some(&ix), "foo"), Err(LoadError::NotFound));
}
