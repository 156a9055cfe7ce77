use symphony::orchestrator::shared_context::{
    append_workspace_status_context, build_shared_context_block, ensure_shared_context_placeholder,
    format_shared_context_age, SharedContextEntry,
};

fn note(author: &str, content: &str, created_at_ms: i64) -> SharedContextEntry {
    SharedContextEntry {
        author_issue: author.to_string(),
        scope: "project".to_string(),
        content: content.to_string(),
        created_at_ms,
    }
}

#[test]
fn note_ages_use_their_largest_whole_unit() {
    let now = 10_000_000_000;
    assert_eq!(format_shared_context_age(now, now), "0s ago");
    assert_eq!(format_shared_context_age(now, now + 5_000), "0s ago");
    assert_eq!(format_shared_context_age(now, now - 59_999), "59s ago");
    assert_eq!(format_shared_context_age(now, now - 60_000), "1m ago");
    assert_eq!(format_shared_context_age(now, now - 3_599_000), "59m ago");
    assert_eq!(format_shared_context_age(now, now - 3_600_000), "1h ago");
    assert_eq!(format_shared_context_age(now, now - 86_399_000), "23h ago");
    assert_eq!(format_shared_context_age(now, now - 3 * 86_400_000), "3d ago");
    assert_eq!(format_shared_context_age(i64::MAX, i64::MIN), "213503982334d ago");
}

#[test]
fn templates_without_a_placeholder_get_one() {
    assert_eq!(ensure_shared_context_placeholder("Do {{ shared_context }} now".to_string()), "Do {{ shared_context }} now");
    assert_eq!(ensure_shared_context_placeholder("{{shared_context}}".to_string()), "{{shared_context}}");
    assert_eq!(
        ensure_shared_context_placeholder("{{\n shared_context\t}}".to_string()),
        "{{\n shared_context\t}}"
    );
    assert_eq!(
        ensure_shared_context_placeholder("Work on it".to_string()),
        "{{ shared_context }}\n\nWork on it"
    );
    assert_eq!(
        ensure_shared_context_placeholder("{{ shared context }}".to_string()),
        "{{ shared_context }}\n\n{{ shared context }}"
    );
}

#[test]
fn workspace_status_follows_the_shared_context() {
    assert_eq!(append_workspace_status_context("ctx".to_string(), None), "ctx");
    assert_eq!(append_workspace_status_context("ctx".to_string(), Some("  ")), "ctx");
    assert_eq!(append_workspace_status_context("ctx".to_string(), Some("dirty")), "ctx\n\ndirty");
    assert_eq!(append_workspace_status_context(" ".to_string(), Some("dirty")), " dirty");
}

#[test]
fn shared_context_block_lists_ten_notes_of_other_workers() {
    let now = 1_000_000;
    assert_eq!(build_shared_context_block(&vec![], "KAT-1", now), "");
    assert_eq!(build_shared_context_block(&vec![note("KAT-1", "mine", now)], "KAT-1", now), "");
    let notes = vec![note("KAT-2", "uses sqlite", now - 120_000), note("KAT-1", "mine", now), note("KAT-3", "api moved", now)];
    assert_eq!(
        build_shared_context_block(&notes, "KAT-1", now),
        "## Shared Context from Other Workers\n\n- [KAT-2] (2m ago, project): uses sqlite\n- [KAT-3] (0s ago, project): api moved"
    );
    let many: Vec<SharedContextEntry> = (0..12).map(|i| note(&format!("KAT-{}", i + 10), "n", now)).collect();
    let block = build_shared_context_block(&many, "KAT-1", now);
    assert_eq!(block.lines().count(), 12);
    assert!(block.ends_with("- [KAT-19] (0s ago, project): n"));
}
