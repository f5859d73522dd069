use codex_session::driver::{AutoSummary, CodexStatus, Driver, DriverAction, EventKind};
use codex_session::summary::{
    default_brief_summary_prompt, default_rich_summary_prompt, push_decimal, summary_prompt,
};

fn run(d: &mut Driver, events: &[EventKind]) -> Vec<DriverAction> {
    let mut out = Vec::new();
    for &k in events {
        if d.is_done() {
            break;
        }
        out.push(d.on_event(k));
    }
    out
}

#[test]
fn shutdown_complete_is_observed_once_and_last() {
    let mut d = Driver::new(None);
    let events = [
        EventKind::ExecCommandBegin,
        EventKind::TaskComplete,
        EventKind::ShutdownComplete,
        EventKind::Other,
        EventKind::ShutdownComplete,
    ];
    let actions = run(&mut d, &events);
    assert_eq!(
        actions,
        vec![
            DriverAction::Continue,
            DriverAction::SubmitShutdown,
            DriverAction::Exit
        ]
    );
    assert_eq!(d.status, CodexStatus::Shutdown);
    assert!(d.is_done());
}

#[test]
fn second_shutdown_trigger_is_noop() {
    let mut d = Driver::new(None);
    assert_eq!(d.on_event(EventKind::TaskComplete), DriverAction::SubmitShutdown);
    assert_eq!(d.status, CodexStatus::InitiateShutdown);
    assert_eq!(d.on_event(EventKind::TaskComplete), DriverAction::Continue);
    assert_eq!(d.status, CodexStatus::InitiateShutdown);
    assert_eq!(d.on_event(EventKind::ShutdownComplete), DriverAction::Exit);
}

#[test]
fn automation_turn_submitted_at_most_once() {
    let mut d = Driver::new(Some(AutoSummary::Rich));
    let events = [
        EventKind::TaskComplete,
        EventKind::TaskComplete,
        EventKind::TaskComplete,
        EventKind::ShutdownComplete,
    ];
    let actions = run(&mut d, &events);
    assert_eq!(
        actions,
        vec![
            DriverAction::SubmitSummary(AutoSummary::Rich),
            DriverAction::SubmitShutdown,
            DriverAction::Continue,
            DriverAction::Exit
        ]
    );
    let summaries = actions
        .iter()
        .filter(|a| matches!(a, DriverAction::SubmitSummary(_)))
        .count();
    assert_eq!(summaries, 1);
    assert!(d.ran_auto_summary);
}

#[test]
fn no_automation_turn_without_mode() {
    let mut d = Driver::new(None);
    let actions = run(&mut d, &[EventKind::TaskComplete, EventKind::ShutdownComplete]);
    assert!(!actions
        .iter()
        .any(|a| matches!(a, DriverAction::SubmitSummary(_))));
}

#[test]
fn interrupt_keeps_draining_queue() {
    let mut d = Driver::new(None);
    assert_eq!(d.on_event(EventKind::ExecCommandBegin), DriverAction::Continue);
    assert_eq!(d.on_cancel(), DriverAction::SubmitInterrupt);
    assert_eq!(d.on_cancel(), DriverAction::Continue);
    assert_eq!(d.status, CodexStatus::Running);
    let queued = [EventKind::Error, EventKind::TaskComplete, EventKind::ShutdownComplete];
    let actions = run(&mut d, &queued);
    assert_eq!(actions.len(), 3);
    assert_eq!(d.stats.errors, 1);
    assert_eq!(d.stats.exec_calls, 1);
    assert!(d.is_done());
}

#[test]
fn stats_count_each_kind() {
    let mut d = Driver::new(Some(AutoSummary::Brief));
    run(
        &mut d,
        &[
            EventKind::ExecCommandBegin,
            EventKind::ExecCommandBegin,
            EventKind::McpToolCallBegin,
            EventKind::PatchApplyBegin,
            EventKind::Error,
            EventKind::StreamError,
            EventKind::Other,
        ],
    );
    assert_eq!(d.stats.exec_calls, 2);
    assert_eq!(d.stats.mcp_calls, 1);
    assert_eq!(d.stats.patches_applied, 1);
    assert_eq!(d.stats.errors, 2);
}

#[test]
fn decimal_digits() {
    let mut s = String::from("n=");
    push_decimal(&mut s, 0);
    assert_eq!(s, "n=0");
    let mut s = String::new();
    push_decimal(&mut s, 1907);
    assert_eq!(s, "1907");
    let mut s = String::new();
    push_decimal(&mut s, usize::MAX);
    assert_eq!(s, usize::MAX.to_string());
}

#[test]
fn rich_default_prompt_text() {
    let p = default_rich_summary_prompt(3, 1, 2, 0);
    assert_eq!(
        p,
        "Summarize the conversation so far for the human. Start with a one-line outcome, then 3-6 concise bullets. Include a short stats line with counts for commands, tools, patches, and errors. Keep it actionable and avoid repeating raw logs.\nStats: commands=3, tools=1, patches=2, errors=0"
    );
}

#[test]
fn brief_default_prompt_text() {
    assert_eq!(
        default_brief_summary_prompt(),
        "Please summarize the conversation so far in 3-5 concise bullets with next steps."
    );
}

#[test]
fn rich_template_gets_stats_line() {
    let mut d = Driver::new(Some(AutoSummary::Rich));
    run(&mut d, &[EventKind::ExecCommandBegin, EventKind::Error]);
    let p = summary_prompt(AutoSummary::Rich, Some("Recap please.".to_string()), &d.stats);
    assert_eq!(
        p,
        "Recap please.\nStats: commands=1, tools=0, patches=0, errors=1"
    );
    let q = summary_prompt(AutoSummary::Rich, None, &d.stats);
    assert_eq!(q, default_rich_summary_prompt(1, 0, 0, 1));
}

#[test]
fn brief_template_used_verbatim() {
    let d = Driver::new(Some(AutoSummary::Brief));
    let p = summary_prompt(AutoSummary::Brief, Some("Short, please.".to_string()), &d.stats);
    assert_eq!(p, "Short, please.");
    let q = summary_prompt(AutoSummary::Brief, None, &d.stats);
    assert_eq!(q, default_brief_summary_prompt());
}
