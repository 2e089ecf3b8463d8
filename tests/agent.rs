use minusagent::action::Action;
use minusagent::agent::{resolve_skills, Agent, Directive, NodeError, Phase};
use minusagent::context::{Context, Role};
use minusagent::skill::{Skill, SkillContext};

fn continue_output(task: &str) -> String {
    format!("```json\n{{\"action\": \"continue\", \"task\": \"{}\", \"todos\": \"- [ ] {}\", \"thinking\": \"t\"}}\n```", task, task)
}

#[test]
fn scripted_run_answers_forty_two_in_two_calls() {
    let mut agent = Agent::new(3);
    let mut ctx = Context::new();
    ctx.set_user_message("What is 15 + 27?");
    let outputs = vec![
        "```json\n{\"task\": \"add 15 and 27\", \"thinking\": \"simple sum\", \"todos\": \"- [ ] add 15 and 27\", \"action\": \"continue\"}\n```".to_string(),
        "{\"action\": \"stop\", \"answer\": \"42\"}".to_string(),
    ];
    let (d, used) = agent.replay(&mut ctx, &outputs, "");
    assert_eq!(used, 2);
    match d {
        Directive::Finished(o) => {
            assert!(o.completed);
            assert_eq!(o.action, Action::Stop);
            assert_eq!(o.answer, "42");
        }
        other => panic!("unexpected {:?}", other),
    }
    assert_eq!(agent.phase, Phase::Completed);
    assert_eq!(ctx.history.len(), 2);
    assert!(ctx.system_prompt.as_deref().unwrap().contains("add 15 and 27"));
}

#[test]
fn endless_continue_is_cut_after_budget_plus_one() {
    for max in [0usize, 1, 3] {
        let mut agent = Agent::new(max);
        let mut ctx = Context::new();
        ctx.set_user_message("q");
        let outputs: Vec<String> = (0..10).map(|i| continue_output(&format!("t{}", i))).collect();
        let (d, used) = agent.replay(&mut ctx, &outputs, "");
        assert_eq!(used, max + 1);
        match d {
            Directive::Finished(o) => {
                assert!(!o.completed);
                assert_eq!(o.action, Action::Continue);
            }
            other => panic!("unexpected {:?}", other),
        }
        assert_eq!(agent.phase, Phase::Aborted);
    }
}

#[test]
fn replay_stops_when_outputs_run_out() {
    let mut agent = Agent::new(5);
    let mut ctx = Context::new();
    let outputs = vec![continue_output("a"), continue_output("b")];
    let (d, used) = agent.replay(&mut ctx, &outputs, "");
    assert_eq!(used, 2);
    assert!(matches!(d, Directive::Query(_)));
}

#[test]
fn start_fills_the_plan_prompt() {
    let mut agent = Agent::new(7);
    let mut ctx = Context::new();
    ctx.set_user_message("Why?");
    let d = agent.start(&mut ctx);
    let prompt = ctx.system_prompt.clone().unwrap();
    assert!(prompt.contains("## Question\nWhy?"));
    assert!(prompt.contains("at most 7 turns"));
    match d {
        Directive::Query(ms) => {
            assert_eq!(ms.len(), 2);
            assert_eq!(ms[0].role, Role::System);
            assert_eq!(ms[1].content, "Why?");
        }
        other => panic!("unexpected {:?}", other),
    }
}

#[test]
fn execute_asks_for_the_command_and_takes_the_observation() {
    let mut agent = Agent::new(3);
    let mut ctx = Context::new();
    ctx.set_user_message("list files");
    agent.start(&mut ctx);
    let d = agent.on_output(&mut ctx, "{\"action\": \"continue\", \"command\": \"ls\"}");
    match d {
        Directive::RunCommand(c) => assert_eq!(c, "ls"),
        other => panic!("unexpected {:?}", other),
    }
    assert_eq!(agent.phase, Phase::AwaitingToolResult);
    let d = agent.on_observation(&mut ctx, "a.txt\n");
    assert!(matches!(d, Directive::Query(_)));
    assert_eq!(ctx.trajectory.last().unwrap().observation.as_deref(), Some("a.txt\n"));
    assert_eq!(agent.turns, 1);
}

#[test]
fn refused_calls_change_nothing() {
    let mut agent = Agent::new(3);
    let mut ctx = Context::new();
    let d = agent.on_output(&mut ctx, "anything");
    assert!(matches!(d, Directive::Fault(NodeError::NotAwaitingOutput)));
    let d = agent.on_observation(&mut ctx, "out");
    assert!(matches!(d, Directive::Fault(NodeError::NotAwaitingObservation)));
    assert!(ctx.history.is_empty());
    assert_eq!(agent.phase, Phase::Idle);
}

#[test]
fn non_string_command_is_not_a_command() {
    let mut agent = Agent::new(3);
    let mut ctx = Context::new();
    agent.start(&mut ctx);
    let d = agent.on_output(&mut ctx, "{\"action\": \"continue\", \"command\": 5}");
    // A command that is not a string names no command: the step simply continues.
    assert!(matches!(d, Directive::Query(_)));
}

#[test]
fn skills_are_resolved_into_the_observation() {
    let mut agent = Agent::new(3);
    let mut ctx = Context::new();
    ctx.skills.push(Skill {
        name: "search".into(),
        description: "d".into(),
        context: SkillContext::Inline,
        disable_model_invocation: false,
        script: "Search steps".into(),
    });
    agent.start(&mut ctx);
    let d = agent.on_output(&mut ctx, "{\"action\": \"continue\", \"skills\": \"search, nope\"}");
    assert!(matches!(d, Directive::Query(_)));
    let step = &ctx.trajectory[ctx.trajectory.len() - 1];
    assert_eq!(step.action, Action::UseSkill(vec!["search".to_string(), "nope".to_string()]));
    assert_eq!(step.observation.as_deref(), Some("Search steps\n\n[skill not found: nope]"));
}

#[test]
fn undispatched_tool_ends_the_run() {
    let mut agent = Agent::new(3);
    let mut ctx = Context::new();
    agent.start(&mut ctx);
    let d = agent.on_output(&mut ctx, "{\"action\": \"browse\"}");
    match d {
        Directive::Finished(o) => {
            assert!(!o.completed);
            assert_eq!(o.action, Action::CallTool("browse".to_string()));
        }
        other => panic!("unexpected {:?}", other),
    }
}

#[test]
fn resolve_skills_in_order() {
    let skills = vec![Skill {
        name: "a".into(),
        description: "d".into(),
        context: SkillContext::Fork,
        disable_model_invocation: true,
        script: "A".into(),
    }];
    assert_eq!(resolve_skills(&skills, &vec!["x".to_string(), "a".to_string()]), "[skill not found: x]\n\nA");
    assert_eq!(resolve_skills(&skills, &vec![]), "");
}
