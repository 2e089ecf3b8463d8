use minusagent::action::Action;
use minusagent::agent::NodeError;
use minusagent::config::{AgentConfig, Config, ConfigError, LLMConfig};
use minusagent::context::{Context, Message, Role, Step, ThoughtKind};
use minusagent::session::{read_input, ReplInput, RetryPolicy};
use minusagent::harness::Harness;
use minusagent::signal::Signal;

fn llm(model: &str, url: &str) -> LLMConfig {
    LLMConfig { model: model.into(), base_url: url.into(), api_key: "k".into(), max_tokens: None }
}

#[test]
fn config_defaults_and_lookup() {
    let cfg = Config {
        agent: AgentConfig { max_iterations: None, default_llm: "b".into() },
        llm: vec![llm("a", "u1"), llm("b", "u2"), llm("b", "u3")],
    };
    assert_eq!(cfg.agent.max_iterations(), 10);
    assert_eq!(cfg.llm[0].max_tokens(), 4096);
    let with = LLMConfig { max_tokens: Some(7), ..llm("c", "u") };
    assert_eq!(with.max_tokens(), 7);
    assert_eq!(AgentConfig { max_iterations: Some(2), default_llm: String::new() }.max_iterations(), 2);
    assert_eq!(cfg.get_llm(None).unwrap().base_url, "u2");
    assert_eq!(cfg.get_llm(Some("a")).unwrap().base_url, "u1");
    assert_eq!(cfg.get_llm(Some("z")).unwrap_err(), ConfigError::NotFound("z".to_string()));
}

#[test]
fn harness_observation_text() {
    assert_eq!(Harness::observation("out\n", "", Some(0), true), "out\n");
    assert_eq!(Harness::observation("out", "bad", Some(2), false), "out[stderr] bad[exit code: 2]");
    assert_eq!(Harness::observation("", "", None, false), "[exit code: -1]");
    assert_eq!(Harness::observation("", "", Some(-15), false), "[exit code: -15]");
    assert_eq!(Harness::denied(), "[denied] user rejected the command");
    assert!(Harness::confirmed(" y\n"));
    assert!(Harness::confirmed("Y"));
    assert!(!Harness::confirmed("yes"));
}

#[test]
fn harness_prepare_needs_a_staged_command() {
    let mut ctx = Context::new();
    assert_eq!(Harness::prepare(&ctx), Err(NodeError::MissingCommand));
    ctx.log_step(Step {
        kind: ThoughtKind::Reasoning,
        thought: None,
        action: Action::Execute(None),
        parameters: vec![],
        observation: None,
        answer: None,
    });
    assert_eq!(Harness::prepare(&ctx), Err(NodeError::MissingCommand));
    ctx.log_step(Step {
        kind: ThoughtKind::Reasoning,
        thought: None,
        action: Action::Execute(Some("ls -l".into())),
        parameters: vec![],
        observation: None,
        answer: None,
    });
    assert_eq!(Harness::prepare(&ctx), Ok("ls -l".to_string()));
}

#[test]
fn signal_flips() {
    let s = Signal::new();
    assert!(!s.is_on());
    s.on();
    assert!(s.is_on());
    s.off();
    assert!(!s.is_on());
}

#[test]
fn repl_input_commands() {
    assert_eq!(read_input("exit\n"), ReplInput::Quit);
    assert_eq!(read_input("  quit "), ReplInput::Quit);
    assert_eq!(read_input("   \n"), ReplInput::Empty);
    assert_eq!(read_input(" hello there \n"), ReplInput::Prompt("hello there".to_string()));
    assert_eq!(read_input("exiting"), ReplInput::Prompt("exiting".to_string()));
}

#[test]
fn retry_policy_bounds_attempts() {
    let p = RetryPolicy::new(2, 3);
    assert_eq!(p.after_failure(0), Some(3));
    assert_eq!(p.after_failure(1), Some(3));
    assert_eq!(p.after_failure(2), None);
    assert_eq!(RetryPolicy::none().after_failure(0), None);
}

#[test]
fn finish_turn_replaces_run_entries() {
    let mut ctx = Context::new();
    ctx.push_history(Message::user("earlier"));
    let kept = ctx.history.len();
    ctx.set_user_message("q");
    ctx.push_history(Message::assistant("{\"action\": \"continue\"}"));
    ctx.push_history(Message::assistant("{\"action\": \"stop\"}"));
    ctx.finish_turn(kept, "q", "42");
    assert_eq!(ctx.history.len(), 3);
    assert_eq!(ctx.history[1].role, Role::User);
    assert_eq!(ctx.history[1].content, "q");
    assert_eq!(ctx.history[2].content, "42");
    assert!(ctx.user_message.is_none());
}
