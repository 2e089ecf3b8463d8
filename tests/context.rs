use minusagent::action::Action;
use minusagent::context::{Context, Message, Role, ThoughtKind};

#[test]
fn test_context_window_new() {
    let ctx = Context::new();
    assert!(ctx.history.is_empty());
    assert!(ctx.system_prompt.is_none());
    assert!(ctx.documents.is_empty());
    assert!(ctx.memory.is_empty());
    assert!(ctx.tools.is_empty());
    assert!(ctx.user_message.is_none());
}

#[test]
fn test_context_window_set_components() {
    let mut ctx = Context::new();
    ctx.set_system_prompt("You are helpful");
    ctx.add_document("doc1");
    ctx.add_memory("remember this");
    ctx.add_tool("search", "search the web");
    ctx.set_user_message("hello");

    assert_eq!(ctx.system_prompt.as_deref(), Some("You are helpful"));
    assert_eq!(ctx.documents.len(), 1);
    assert_eq!(ctx.memory.len(), 1);
    assert_eq!(ctx.tools.len(), 1);
    assert_eq!(ctx.user_message.as_deref(), Some("hello"));
}

#[test]
fn test_context_window_to_messages_full() {
    let mut ctx = Context::new();
    ctx.set_system_prompt("You are helpful");
    ctx.add_document("reference doc");
    ctx.add_memory("user prefers short answers");
    ctx.add_tool("search", "search the web");
    ctx.push_history(Message::user("old question"));
    ctx.push_history(Message::assistant("old answer"));
    ctx.set_user_message("new question");

    let msgs = ctx.to_messages();
    assert_eq!(msgs.len(), 4);
    assert_eq!(msgs[0].role, Role::System);
    assert!(msgs[0].content.contains("You are helpful"));
    assert!(msgs[0].content.contains("reference doc"));
    assert!(msgs[0].content.contains("user prefers short answers"));
    assert!(msgs[0].content.contains("search"));
    assert_eq!(msgs[1].content, "old question");
    assert_eq!(msgs[2].content, "old answer");
    assert_eq!(msgs[3].content, "new question");
}

#[test]
fn test_context_window_to_messages_minimal() {
    let mut ctx = Context::new();
    ctx.set_user_message("hello");

    let msgs = ctx.to_messages();
    assert_eq!(msgs.len(), 1);
    assert_eq!(msgs[0].role, Role::User);
    assert_eq!(msgs[0].content, "hello");
}

#[test]
fn test_commit_user_message() {
    let mut ctx = Context::new();
    ctx.set_user_message("question");
    assert!(ctx.user_message.is_some());
    assert!(ctx.history.is_empty());

    ctx.commit_user_message();
    assert!(ctx.user_message.is_none());
    assert_eq!(ctx.history.len(), 1);
    assert_eq!(ctx.history[0].content, "question");
    assert_eq!(ctx.history[0].role, Role::User);
}

#[test]
fn mod_test_push_history_and_last() {
    let mut ctx = Context::new();
    ctx.push_history(Message::assistant("response"));
    assert_eq!(ctx.last_content(), Some("response"));
}

#[test]
fn test_message_system() {
    let msg = Message::system("You are helpful");
    assert_eq!(msg.role, Role::System);
    assert_eq!(msg.content, "You are helpful");
}

#[test]
fn test_message_user() {
    let msg = Message::user("Hello");
    assert_eq!(msg.role, Role::User);
    assert_eq!(msg.content, "Hello");
}

#[test]
fn test_message_assistant() {
    let msg = Message::assistant("Hi there");
    assert_eq!(msg.role, Role::Assistant);
    assert_eq!(msg.content, "Hi there");
}

#[test]
fn test_context_new() {
    let ctx = Context::new();
    assert!(ctx.history.is_empty());
    assert!(ctx.system_prompt.is_none());
    assert!(ctx.user_message.is_none());
    assert!(ctx.skills.is_empty());
}

#[test]
fn context_test_push_history_and_last() {
    let mut ctx = Context::new();
    ctx.push_history(Message::assistant("response"));
    assert_eq!(ctx.last_content(), Some("response"));
}

#[test]
fn test_message_constructors() {
    let sys = Message::system("sys");
    assert_eq!(sys.role, Role::System);

    let usr = Message::user("usr");
    assert_eq!(usr.role, Role::User);

    let ast = Message::assistant("ast");
    assert_eq!(ast.role, Role::Assistant);
}

#[test]
fn rendered_messages_keep_order() {
    let mut ctx = Context::new();
    ctx.set_system_prompt("S");
    ctx.push_history(Message::user("h1"));
    ctx.push_history(Message::assistant("h2"));
    ctx.set_user_message("U");
    let msgs = ctx.to_messages();
    let contents: Vec<&str> = msgs.iter().map(|m| m.content.as_str()).collect();
    assert_eq!(contents, vec!["S", "h1", "h2", "U"]);
    assert_eq!(msgs[0].role, Role::System);
    assert_eq!(msgs[3].role, Role::User);
}

#[test]
fn system_message_sections_are_exact() {
    let mut ctx = Context::new();
    ctx.set_system_prompt("P");
    ctx.add_document("d1");
    ctx.add_document("d2");
    ctx.add_tool("t", "does t");
    let msgs = ctx.to_messages();
    assert_eq!(msgs.len(), 1);
    assert_eq!(msgs[0].content, "P\n\n## Documents\nd1\nd2\n\n## Tools\n- t: does t");
}

#[test]
fn trajectory_steps_and_observation_backfill() {
    let mut ctx = Context::new();
    ctx.init_step("what now?");
    assert_eq!(ctx.trajectory.len(), 1);
    assert_eq!(ctx.trajectory[0].kind, ThoughtKind::Query);
    assert_eq!(ctx.trajectory[0].thought.as_deref(), Some("what now?"));
    assert_eq!(ctx.trajectory[0].action, Action::Pending);
    ctx.set_last_observation("seen");
    assert_eq!(ctx.trajectory[0].observation.as_deref(), Some("seen"));
    assert_eq!(ctx.trajectory.len(), 1);
}
