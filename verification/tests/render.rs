use autotokenizer::render::{outcome_of, EngineReport};
use autotokenizer::{AutoTokenizer, DefaultPromptMessage, RenderError};

fn config(template: &str, tokens: &str) -> AutoTokenizer {
    let mut text = String::from(
        r#"{"clean_up_tokenization_spaces": false, "legacy": false, "tokenizer_class": "LlamaTokenizer", "model_max_length": 2048, "chat_template": "#,
    );
    text.push_str(&serde_json::Value::String(template.to_string()).to_string());
    text.push_str(tokens);
    text.push('}');
    AutoTokenizer::parse(&text).unwrap()
}

fn hello() -> Vec<DefaultPromptMessage> {
    vec![
        DefaultPromptMessage::new("system", "Hello"),
        DefaultPromptMessage::new("user", "Hello"),
        DefaultPromptMessage::new("assistant", "Hello"),
    ]
}

const TURNS: &str = "{% for m in messages %}{{ m.role }}:{{ m.content }};{% endfor %}";

#[test]
fn conversation_is_rendered_turn_by_turn() {
    let tokenizer = config(TURNS, "");
    assert_eq!(
        tokenizer.apply_chat_template(hello(), true),
        Ok("system:Hello;user:Hello;assistant:Hello;".to_string())
    );
}

#[test]
fn bare_eos_token_is_bound() {
    let tokenizer = config("{{ eos_token }}", r#", "eos_token": "</s>""#);
    assert_eq!(tokenizer.apply_chat_template(hello(), true), Ok("</s>".to_string()));
}

#[test]
fn structured_token_is_bound_by_its_content() {
    let tokenizer = config(
        "{{ bos_token }}|{{ unk_token }}",
        r#", "bos_token": {"content": "<s>", "lstrip": true, "normalized": true, "rstrip": true, "single_word": true}, "unk_token": {"content": "<unk>", "lstrip": false, "normalized": false, "rstrip": false, "single_word": false}"#,
    );
    assert_eq!(tokenizer.apply_chat_template(Vec::new(), false), Ok("<s>|<unk>".to_string()));
}

#[test]
fn undefined_variable_fails_the_rendering() {
    let tokenizer = config("{{ system_prompt }}", "");
    assert!(matches!(tokenizer.apply_chat_template(hello(), true), Err(RenderError::RenderFailed(_))));
    let tokenizer = config("{{ tools.first }}", "");
    assert!(matches!(tokenizer.apply_chat_template(hello(), true), Err(RenderError::RenderFailed(_))));
    let tokenizer = config("{% for t in tools %}{{ t }}{% endfor %}", "");
    assert!(matches!(tokenizer.apply_chat_template(hello(), false), Err(RenderError::RenderFailed(_))));
}

#[test]
fn failure_carries_the_engine_message() {
    let tokenizer = config("{{ system_prompt }}", "");
    match tokenizer.apply_chat_template(hello(), true) {
        Err(RenderError::RenderFailed(message)) => assert!(message.contains("undefined"), "{}", message),
        other => panic!("expected a failed rendering, got {:?}", other),
    }
    let tokenizer = config("{% for m in messages %}", "");
    match tokenizer.apply_chat_template(hello(), true) {
        Err(RenderError::TemplateInvalid(message)) => assert!(message.contains("syntax error"), "{}", message),
        other => panic!("expected an invalid template, got {:?}", other),
    }
}

#[test]
fn malformed_template_is_invalid() {
    for template in ["{% for m in messages %}", "{{ eos_token", "{% endif %}", "{{ 1 + }}", "{% unknown_tag %}"] {
        let tokenizer = config(template, "");
        assert!(
            matches!(tokenizer.apply_chat_template(hello(), true), Err(RenderError::TemplateInvalid(_))),
            "{}",
            template
        );
    }
}

#[test]
fn runtime_error_fails_the_rendering() {
    let tokenizer = config("{{ messages | no_such_filter }}", "");
    assert!(matches!(tokenizer.apply_chat_template(hello(), true), Err(RenderError::RenderFailed(_))));
    let tokenizer = config("{{ 1 / 0 }}", "");
    assert!(matches!(tokenizer.apply_chat_template(hello(), true), Err(RenderError::RenderFailed(_))));
}

#[test]
fn absent_tokens_are_bound_to_the_empty_string() {
    let tokenizer = config("[{{ bos_token }}][{{ eos_token }}][{{ pad_token }}][{{ unk_token }}]", "");
    assert_eq!(tokenizer.apply_chat_template(hello(), true), Ok("[][][][]".to_string()));
    let tokenizer = config(
        "[{{ bos_token }}][{{ eos_token }}][{{ pad_token }}][{{ unk_token }}]",
        r#", "bos_token": null, "pad_token": "<pad>""#,
    );
    assert_eq!(tokenizer.apply_chat_template(hello(), true), Ok("[][][<pad>][]".to_string()));
    let tokenizer = config(
        "{{ bos_token is string }}{{ bos_token | length }}{{ eos_token is defined }}",
        "",
    );
    assert_eq!(tokenizer.apply_chat_template(hello(), true), Ok("True0True".to_string()));
}

#[test]
fn each_token_is_bound_under_its_own_name() {
    let tokenizer = config(
        "{{ unk_token }}{{ pad_token }}{{ eos_token }}{{ bos_token }}",
        r#", "bos_token": "B", "eos_token": "E", "pad_token": "P", "unk_token": "U""#,
    );
    assert_eq!(tokenizer.apply_chat_template(Vec::new(), true), Ok("UPEB".to_string()));
}

#[test]
fn generation_prompt_flag_is_bound() {
    let tokenizer = config("{% if add_generation_prompt %}<|assistant|>{% else %}-{% endif %}", "");
    assert_eq!(tokenizer.apply_chat_template(hello(), true), Ok("<|assistant|>".to_string()));
    assert_eq!(tokenizer.apply_chat_template(hello(), false), Ok("-".to_string()));
    let tokenizer = config("{{ add_generation_prompt }}", "");
    assert_eq!(tokenizer.apply_chat_template(hello(), true), Ok("True".to_string()));
    assert_eq!(tokenizer.apply_chat_template(hello(), false), Ok("False".to_string()));
}

#[test]
fn rendering_twice_gives_the_same_text() {
    let tokenizer = config(
        "{{ bos_token }}{% for m in messages %}<|{{ m.role }}|>\n{{ m.content }}{{ eos_token }}\n{% endfor %}{% if add_generation_prompt %}<|assistant|>\n{% endif %}",
        r#", "bos_token": "<s>", "eos_token": "</s>""#,
    );
    let first = tokenizer.apply_chat_template(hello(), true);
    let second = tokenizer.apply_chat_template(hello(), true);
    assert_eq!(first, second);
    assert_eq!(
        first,
        Ok("<s><|system|>\nHello</s>\n<|user|>\nHello</s>\n<|assistant|>\nHello</s>\n<|assistant|>\n".to_string())
    );
    let failing = config("{{ nothing }}", "");
    assert_eq!(failing.apply_chat_template(hello(), true), failing.apply_chat_template(hello(), true));
}

#[test]
fn reordering_the_messages_reorders_the_output() {
    let tokenizer = config(TURNS, "");
    let a = DefaultPromptMessage::new("system", "one");
    let b = DefaultPromptMessage::new("user", "two");
    let c = DefaultPromptMessage::new("assistant", "three");
    assert_eq!(
        tokenizer.apply_chat_template(vec![a.clone(), b.clone(), c.clone()], false),
        Ok("system:one;user:two;assistant:three;".to_string())
    );
    assert_eq!(
        tokenizer.apply_chat_template(vec![c.clone(), a.clone(), b.clone()], false),
        Ok("assistant:three;system:one;user:two;".to_string())
    );
    assert_eq!(
        tokenizer.apply_chat_template(vec![b.clone(), b, c, a.clone(), a], false),
        Ok("user:two;user:two;assistant:three;system:one;system:one;".to_string())
    );
}

#[test]
fn messages_are_a_list_of_records() {
    let tokenizer = config(
        "{{ messages | length }} {{ messages[1].role }} {{ messages[2]['content'] }} {{ messages[0] | length }} {{ messages is sequence }} {{ messages[0] is mapping }}",
        "",
    );
    assert_eq!(
        tokenizer.apply_chat_template(
            vec![
                DefaultPromptMessage::new("r0", "c0"),
                DefaultPromptMessage::new("r1", "c1"),
                DefaultPromptMessage::new("r2", "c2"),
            ],
            false
        ),
        Ok("3 r1 c2 2 True True".to_string())
    );
}

#[test]
fn role_and_content_are_not_exchanged() {
    let tokenizer = config("{{ messages[0].content }}/{{ messages[0].role }}", "");
    assert_eq!(
        tokenizer.apply_chat_template(vec![DefaultPromptMessage::new("user", "text")], false),
        Ok("text/user".to_string())
    );
}

#[test]
fn empty_conversation_renders() {
    let tokenizer = config(TURNS, "");
    assert_eq!(tokenizer.apply_chat_template(Vec::new(), true), Ok(String::new()));
    let tokenizer = config("{{ messages | length }}", "");
    assert_eq!(tokenizer.apply_chat_template(Vec::new(), true), Ok("0".to_string()));
}

#[test]
fn output_is_handed_on_verbatim() {
    let tokenizer = config("  {{ messages[0].content }}\n\n\t<b>&amp;</b> \n.", "");
    assert_eq!(
        tokenizer.apply_chat_template(vec![DefaultPromptMessage::new("user", " <i>a & b</i>  \n")], false),
        Ok("   <i>a & b</i>  \n\n\n\t<b>&amp;</b> \n.".to_string())
    );
}

#[test]
fn free_form_roles_are_accepted() {
    let tokenizer = config(TURNS, "");
    assert_eq!(
        tokenizer.apply_chat_template(vec![DefaultPromptMessage::new("narrator", ""), DefaultPromptMessage::new("", "x")], false),
        Ok("narrator:;:x;".to_string())
    );
}

#[test]
fn only_the_six_names_are_bound() {
    let tokenizer = config(
        "{{ messages is defined }}{{ bos_token is defined }}{{ eos_token is defined }}{{ pad_token is defined }}{{ unk_token is defined }}{{ add_generation_prompt is defined }}|{{ tools is defined }}{{ legacy is defined }}{{ chat_template is defined }}{{ model_max_length is defined }}",
        "",
    );
    assert_eq!(
        tokenizer.apply_chat_template(hello(), true),
        Ok("TrueTrueTrueTrueTrueTrue|FalseFalseFalseFalse".to_string())
    );
}

#[test]
fn other_members_play_no_part_in_rendering() {
    let first = AutoTokenizer::parse(
        r#"{"add_bos_token": true, "clean_up_tokenization_spaces": false, "legacy": false, "tokenizer_class": "A", "model_max_length": 1, "eos_token": "</s>", "chat_template": "{{ messages[0].content }}{{ eos_token }}"}"#,
    ).unwrap();
    let second = AutoTokenizer::parse(
        r#"{"add_eos_token": false, "clean_up_tokenization_spaces": true, "legacy": true, "tokenizer_class": "B", "model_max_length": 9, "eos_token": {"content": "</s>", "lstrip": true, "normalized": false, "rstrip": true, "single_word": false}, "chat_template": "{{ messages[0].content }}{{ eos_token }}"}"#,
    ).unwrap();
    let messages = vec![DefaultPromptMessage::new("user", "hi")];
    assert_eq!(first.apply_chat_template(messages.clone(), true), Ok("hi</s>".to_string()));
    assert_eq!(second.apply_chat_template(messages, true), Ok("hi</s>".to_string()));
}

#[test]
fn report_is_mapped_to_the_outcome() {
    assert_eq!(outcome_of(EngineReport::Rendered(" a\n".to_string())), Ok(" a\n".to_string()));
    assert_eq!(
        outcome_of(EngineReport::Invalid("syntax error".to_string())),
        Err(RenderError::TemplateInvalid("syntax error".to_string()))
    );
    assert_eq!(
        outcome_of(EngineReport::Failed("undefined value".to_string())),
        Err(RenderError::RenderFailed("undefined value".to_string()))
    );
}

#[test]
fn failure_message_does_not_follow_the_build() {
    let tokenizer = config("{{ system_prompt }}", "");
    assert_eq!(
        tokenizer.apply_chat_template(hello(), true),
        Err(RenderError::RenderFailed("undefined value (in <string>:1)".to_string()))
    );
}
