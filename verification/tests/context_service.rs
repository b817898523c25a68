use omnishell_orchestrator::application::context_service::InMemoryContextManager;
use omnishell_orchestrator::domain::context::{
    ContextConfig, LedgerEntry, LedgerEntryKind, Message, MessageRole,
};
use omnishell_orchestrator::domain::error::OrchestratorError;

fn make_manager() -> InMemoryContextManager {
    InMemoryContextManager::new(ContextConfig {
        max_messages: 3,
        max_bytes: 10_000,
        max_tokens: 500,
        enable_summarization: false,
    })
}

fn make_msg(role: MessageRole, content: &str) -> Message {
    Message {
        role,
        content: content.to_string(),
        token_estimate: (content.len() as u64 + 3) / 4,
        timestamp: 0,
    }
}

fn entry(kind: LedgerEntryKind, key: &str, value: &str) -> LedgerEntry {
    LedgerEntry { kind, key: key.to_string(), value: value.to_string(), timestamp: 0, source_agent: None }
}

#[test]
fn test_add_and_retrieve_messages() {
    let mut mgr = make_manager();
    mgr.add_message("s1", make_msg(MessageRole::User, "Hello"));
    let user_prompt = mgr.build_user_prompt("s1").expect("build should succeed");
    assert_eq!(user_prompt, "Hello");
}

#[test]
fn test_trim_by_message_count() {
    let mut mgr = make_manager();
    for i in 0..5 {
        mgr.add_message("s1", make_msg(MessageRole::User, &format!("msg-{i}")));
    }
    mgr.trim_context("s1");
    let tokens = mgr.estimate_tokens("s1");
    assert!(tokens <= 500);
}

#[test]
fn test_ledger_operations() {
    let mut mgr = make_manager();
    mgr.add_ledger_entry("s1", entry(LedgerEntryKind::Fact, "language", "Rust"));
    let ledger = mgr.get_ledger("s1");
    assert_eq!(ledger.entries.len(), 1);
    assert_eq!(ledger.entries[0].value, "Rust");
}

#[test]
fn context_service_test_clear_session() {
    let mut mgr = make_manager();
    mgr.add_message("s1", make_msg(MessageRole::User, "Hello"));
    mgr.clear_session("s1");
    let tokens = mgr.estimate_tokens("s1");
    assert_eq!(tokens, 0);
}

#[test]
fn test_add_and_retrieve() {
    let mut mgr = make_manager();
    mgr.add_message("s1", make_msg(MessageRole::User, "Hello"));
    assert_eq!(mgr.build_user_prompt("s1").unwrap(), "Hello");
}

#[test]
fn test_trim_by_count() {
    let mut mgr = make_manager();
    for i in 0..5 {
        mgr.add_message("s1", make_msg(MessageRole::User, &format!("msg-{i}")));
    }
    mgr.trim_context("s1");
    assert!(mgr.estimate_tokens("s1") <= 500);
}

#[test]
fn test_ledger() {
    let mut mgr = make_manager();
    mgr.add_ledger_entry("s1", entry(LedgerEntryKind::Fact, "lang", "Rust"));
    let ledger = mgr.get_ledger("s1");
    assert_eq!(ledger.entries.len(), 1);
    assert_eq!(ledger.entries[0].value, "Rust");
}

#[test]
fn tests_test_clear_session() {
    let mut mgr = make_manager();
    mgr.add_message("s1", make_msg(MessageRole::User, "Hello"));
    mgr.clear_session("s1");
    assert_eq!(mgr.estimate_tokens("s1"), 0);
}

#[test]
fn trim_keeps_newest_messages_by_count() {
    let mut mgr = make_manager();
    for i in 0..5 {
        mgr.add_message("s1", make_msg(MessageRole::User, &format!("msg-{i}")));
    }
    mgr.trim_context("s1");
    // three messages of five bytes: two tokens each
    assert_eq!(mgr.estimate_tokens("s1"), 6);
    assert_eq!(mgr.build_user_prompt("s1").unwrap(), "msg-4");
    let input = mgr.build_agent_input("s1", "t", &[]).unwrap();
    assert!(input.contains("[user] msg-2\n[user] msg-3\n[user] msg-4\n"));
    assert!(!input.contains("msg-1"));
}

#[test]
fn trim_by_bytes_and_tokens() {
    let mut mgr = InMemoryContextManager::new(ContextConfig {
        max_messages: 10,
        max_bytes: 10,
        max_tokens: 100,
        enable_summarization: false,
    });
    mgr.add_message("s", make_msg(MessageRole::User, "aaaaaa"));
    mgr.add_message("s", make_msg(MessageRole::Assistant, "bbbbbb"));
    mgr.add_message("s", make_msg(MessageRole::User, "cccc"));
    mgr.trim_context("s");
    // 6 + 6 + 4 = 16 bytes > 10: drop the first; 6 + 4 = 10 fits.
    assert_eq!(mgr.estimate_tokens("s"), 2 + 1);
    let mut tok = InMemoryContextManager::new(ContextConfig {
        max_messages: 10,
        max_bytes: 1000,
        max_tokens: 3,
        enable_summarization: false,
    });
    tok.add_message("s", make_msg(MessageRole::User, "aaaaaaaa"));
    tok.add_message("s", make_msg(MessageRole::User, "bbbbbbbb"));
    tok.add_message("s", make_msg(MessageRole::User, "cccc"));
    tok.trim_context("s");
    assert_eq!(tok.estimate_tokens("s"), 3);
    assert_eq!(tok.build_user_prompt("s").unwrap(), "cccc");
}

#[test]
fn trim_missing_session_is_noop_and_user_prompt_errors() {
    let mut mgr = make_manager();
    mgr.trim_context("nobody");
    assert_eq!(mgr.estimate_tokens("nobody"), 0);
    match mgr.build_user_prompt("nobody") {
        Err(OrchestratorError::ContextOverflow(m)) => assert_eq!(m, "session not found"),
        other => panic!("unexpected: {:?}", other),
    }
    assert!(mgr.build_agent_input("nobody", "t", &[]).is_err());
    assert!(mgr.get_ledger("nobody").entries.is_empty());
}

#[test]
fn user_prompt_is_latest_user_message() {
    let mut mgr = make_manager();
    mgr.add_message("s", make_msg(MessageRole::User, "first"));
    mgr.add_message("s", make_msg(MessageRole::Assistant, "answer"));
    assert_eq!(mgr.build_user_prompt("s").unwrap(), "first");
    mgr.add_message("s", make_msg(MessageRole::User, "second"));
    assert_eq!(mgr.build_user_prompt("s").unwrap(), "second");
    let mut other = make_manager();
    other.add_message("s", make_msg(MessageRole::System, "sys"));
    assert_eq!(other.build_user_prompt("s").unwrap(), "");
}

#[test]
fn system_prompt_lists_constraints_and_decisions() {
    let mut mgr = make_manager();
    assert_eq!(mgr.build_system_prompt("s"), "You are a helpful AI assistant.");
    mgr.add_ledger_entry("s", entry(LedgerEntryKind::Fact, "lang", "Rust"));
    assert_eq!(mgr.build_system_prompt("s"), "You are a helpful AI assistant.");
    mgr.add_ledger_entry("s", entry(LedgerEntryKind::Decision, "db", "sqlite"));
    mgr.add_ledger_entry("s", entry(LedgerEntryKind::Constraint, "style", "no unwrap"));
    assert_eq!(
        mgr.build_system_prompt("s"),
        "You are a helpful AI assistant.\n\n## Constraints\n- style: no unwrap\n\n## Decisions\n- db: sqlite"
    );
}

#[test]
fn agent_input_has_all_blocks() {
    let mut mgr = make_manager();
    mgr.add_message("s", make_msg(MessageRole::User, "hi"));
    mgr.add_message("s", make_msg(MessageRole::Tool, "out"));
    let tools = vec!["ls".to_string(), "cat".to_string()];
    let input = mgr.build_agent_input("s", "do it", &tools).unwrap();
    assert_eq!(
        input,
        "[SYSTEM]\nYou are a helpful AI assistant.\n\n[CONTEXT]\n[user] hi\n[tool] out\n\n[TASK]\ndo it\n\n[ALLOWED_TOOLS]\nls, cat\n\n[USER]\nhi\n"
    );
    let mut quiet = make_manager();
    quiet.add_message("s", make_msg(MessageRole::Assistant, "a"));
    assert_eq!(
        quiet.build_agent_input("s", "t", &[]).unwrap(),
        "[SYSTEM]\nYou are a helpful AI assistant.\n\n[CONTEXT]\n[assistant] a\n\n[TASK]\nt\n"
    );
}

#[test]
fn sessions_are_independent() {
    let mut mgr = make_manager();
    mgr.add_message("a", make_msg(MessageRole::User, "12345678"));
    mgr.add_message("b", make_msg(MessageRole::User, "1234"));
    assert_eq!(mgr.estimate_tokens("a"), 2);
    assert_eq!(mgr.estimate_tokens("b"), 1);
    mgr.clear_session("a");
    assert_eq!(mgr.estimate_tokens("a"), 0);
    assert_eq!(mgr.estimate_tokens("b"), 1);
}
