use minusagent::context::{Context, Message, Role};
use minusagent::prompt::{render, PromptEngine};
use minusagent::skill::{Skill, SkillContext};

#[test]
fn test_render_basic() {
    let mut ctx = Context::new();
    ctx.set_system_prompt("You are helpful.");
    ctx.set_user_message("Hello");

    let engine = PromptEngine::new(ctx);
    let messages = engine.render();
    let content = messages[0].content.as_str();

    assert!(content.contains("## System\nYou are helpful."));
    assert!(content.contains("## User\nHello"));
}

#[test]
fn test_render_with_history() {
    let mut ctx = Context::new();
    ctx.set_system_prompt("You are helpful");
    ctx.push_history(Message::user("old question"));
    ctx.push_history(Message::assistant("old answer"));
    ctx.set_user_message("new question");

    let engine = PromptEngine::new(ctx);
    let messages = engine.render();
    let content = messages[0].content.as_str();

    assert!(content.contains("## System\nYou are helpful"));
    assert!(content.contains("### User\nold question"));
    assert!(content.contains("### Assistant\nold answer"));
    assert!(content.contains("## User\nnew question"));
}

#[test]
fn test_render_with_skills() {
    let mut ctx = Context::new();
    ctx.set_system_prompt("You are helpful");
    ctx.skills.push(Skill {
        name: "search".into(),
        description: "Search the web".into(),
        context: SkillContext::Inline,
        disable_model_invocation: false,
        script: String::new(),
    });
    ctx.set_user_message("Find info");

    let engine = PromptEngine::new(ctx);
    let messages = engine.render();
    let content = messages[0].content.as_str();

    assert!(content.contains("## Skills"));
    assert!(content.contains("### search\nSearch the web"));
}

#[test]
fn flattened_prompt_is_exact_and_ordered() {
    let mut ctx = Context::new();
    ctx.set_system_prompt("S");
    ctx.push_history(Message::user("h1"));
    ctx.push_history(Message::assistant("h2"));
    ctx.set_user_message("U");
    let text = PromptEngine::new(ctx).without_structured_output().render_text();
    assert_eq!(
        text,
        "## System\nS\n\n## Question\nh1\n\n## Chat History\n\n### User\nh1\n\n### Assistant\nh2\n\n## User\nU"
    );
    let s = text.find("S").unwrap();
    let h1 = text.find("### User\nh1").unwrap();
    let h2 = text.find("### Assistant\nh2").unwrap();
    let u = text.find("## User\nU").unwrap();
    assert!(s < h1 && h1 < h2 && h2 < u);
}

#[test]
fn instruction_defaults_and_output_format() {
    let engine = PromptEngine::new(Context::new());
    let with_format = engine.instruction();
    assert!(with_format.starts_with("You are a helpful assistant.\n\nWrap your entire response"));
    assert!(with_format.ends_with("<stop>The answer is 42.</stop>"));
    let plain = engine.without_structured_output().instruction();
    assert_eq!(plain, "You are a helpful assistant.");
}

#[test]
fn free_render_is_one_user_message() {
    let mut ctx = Context::new();
    ctx.set_user_message("Q");
    let msgs = render(&ctx);
    assert_eq!(msgs.len(), 1);
    assert_eq!(msgs[0].role, Role::User);
    assert!(msgs[0].content.ends_with("## User\nQ"));
}
