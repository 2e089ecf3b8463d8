use minusagent::skill::{is_valid_description, is_valid_name, Skill, SkillContext, SkillError};

#[test]
fn test_parse_with_frontmatter() {
    let content = r#"---
name: deploy
description: Deploy the application
context: fork
disable-model-invocation: true
---

Deploy steps:
1. Build
2. Push"#;

    let skill = Skill::parse(content, "default").unwrap();
    assert_eq!(skill.name, "deploy");
    assert_eq!(skill.description, "Deploy the application");
    assert_eq!(skill.context, SkillContext::Fork);
    assert!(skill.disable_model_invocation);
    assert!(skill.script.contains("Deploy steps:"));
}

#[test]
fn test_parse_without_frontmatter() {
    let content = "Just some instructions\n\nMore details here.";
    let skill = Skill::parse(content, "my-skill").unwrap();
    assert_eq!(skill.name, "my-skill");
    assert_eq!(skill.description, "Just some instructions");
    assert_eq!(skill.context, SkillContext::Inline);
    assert!(!skill.disable_model_invocation);
}

#[test]
fn test_render_arguments() {
    let skill = Skill {
        name: "test".into(),
        description: "test".into(),
        context: SkillContext::Inline,
        disable_model_invocation: false,
        script: "Deploy $0 to $1\nFull: $ARGUMENTS".into(),
    };

    let rendered = skill.render("app production");
    assert_eq!(rendered, "Deploy app to production\nFull: app production");
}

#[test]
fn test_render_indexed_arguments() {
    let skill = Skill {
        name: "test".into(),
        description: "test".into(),
        context: SkillContext::Inline,
        disable_model_invocation: false,
        script: "Migrate $ARGUMENTS[0] from $ARGUMENTS[1] to $ARGUMENTS[2]".into(),
    };

    let rendered = skill.render("Button React Vue");
    assert_eq!(rendered, "Migrate Button from React to Vue");
}

#[test]
fn test_to_prompt_hint() {
    let skill = Skill {
        name: "search".into(),
        description: "Search for information".into(),
        context: SkillContext::Inline,
        disable_model_invocation: false,
        script: String::new(),
    };

    assert_eq!(skill.to_prompt_hint(), "- search: Search for information");
}

#[test]
fn name_validator_accepts_and_rejects() {
    assert!(is_valid_name("my-skill"));
    assert!(!is_valid_name("My-Skill"));
    assert!(!is_valid_name("my--skill"));
    assert!(!is_valid_name("-my-skill"));
    assert!(!is_valid_name("my-skill-"));
    assert!(!is_valid_name(""));
    assert!(is_valid_name(&"a".repeat(64)));
    assert!(!is_valid_name(&"a".repeat(65)));
    assert!(is_valid_name("v2"));
}

#[test]
fn description_validator_bounds() {
    assert!(!is_valid_description(""));
    assert!(is_valid_description("x"));
    assert!(is_valid_description(&"d".repeat(1024)));
    assert!(!is_valid_description(&"d".repeat(1025)));
}

#[test]
fn parse_refuses_invalid_name() {
    let content = "---\nname: My-Skill\ndescription: fine\n---\nbody";
    assert_eq!(
        Skill::parse(content, "x").unwrap_err(),
        SkillError::InvalidName("My-Skill".to_string())
    );
}

#[test]
fn parse_refuses_missing_description() {
    let content = "---\nname: empty\n---\n\n   \n";
    assert_eq!(Skill::parse(content, "x").unwrap_err(), SkillError::InvalidDescription);
}

#[test]
fn parse_last_header_value_wins_and_unclosed_header_is_body() {
    let skill = Skill::parse("---\nname: one\nname: two\ndescription: d\n---\nscript", "x").unwrap();
    assert_eq!(skill.name, "two");
    assert_eq!(skill.script, "script");
    let open = Skill::parse("---\nname: one\nno closing", "fallback").unwrap();
    assert_eq!(open.name, "fallback");
    assert_eq!(open.script, "---\nname: one\nno closing");
}

#[test]
fn first_paragraph_is_joined_and_cut() {
    let skill = Skill::parse("\n\nline one\r\nline two\n\nnext", "para").unwrap();
    assert_eq!(skill.description, "line one line two");
    let long = "w".repeat(250);
    let skill = Skill::parse(&long, "long").unwrap();
    assert_eq!(skill.description.chars().count(), 200);
}

#[test]
fn render_replaces_every_occurrence_and_keeps_unknown_placeholders() {
    let skill = Skill {
        name: "t".into(),
        description: "t".into(),
        context: SkillContext::Inline,
        disable_model_invocation: false,
        script: "$0 and $0 but $2".into(),
    };
    assert_eq!(skill.render("a b"), "a and a but $2");
}
