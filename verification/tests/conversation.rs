use desktop_pet::chat::{
    chat_turn, find_persona, memory_summary, memory_update, plan_chat, reply_or_apology,
};
use desktop_pet::llm::{
    answer_from_content, fallback_reply, health_status, remote_answer, route_chat, system_prompt,
    ChatRoute, LlmConfig,
};
use desktop_pet::models::ChatRequest;
use desktop_pet::persona::default_persona;

#[test]
fn memory_summary_joins_latest_rows() {
    assert_eq!(memory_summary(&vec![]), "none");
    assert_eq!(memory_summary(&vec!["a".to_string()]), "a");
    assert_eq!(
        memory_summary(&vec!["latest_context_mode=chat".to_string(), "b".to_string(), "c".to_string()]),
        "latest_context_mode=chat; b; c"
    );
}

#[test]
fn chat_turn_records_both_messages_and_memory() {
    let req = ChatRequest {
        message: "你好".to_string(),
        session_id: "s1".to_string(),
        persona_id: "default".to_string(),
        context_mode: "casual".to_string(),
    };
    assert_eq!(memory_update("casual"), "latest_context_mode=casual");
    let turn = chat_turn(&req, "hi there".to_string());
    assert_eq!(turn.user_message.session_id, "s1");
    assert_eq!(turn.user_message.role, "user");
    assert_eq!(turn.user_message.content, "你好");
    assert_eq!(turn.assistant_message.role, "assistant");
    assert_eq!(turn.assistant_message.content, "hi there");
    assert_eq!(turn.memory, "latest_context_mode=casual");
    assert_eq!(turn.reply, "hi there");
    assert!(turn.actions.is_empty());
    assert_eq!(turn.memory_updates, vec!["latest_context_mode=casual".to_string()]);
}

#[test]
fn unknown_persona_is_an_error() {
    assert_eq!(find_persona("ghost", None).unwrap_err(), "persona not found: ghost");
    let p = find_persona("default", Some(default_persona())).unwrap();
    assert_eq!(p.name, "Claw Mini");
}

#[test]
fn failed_model_call_gets_an_apology() {
    assert_eq!(reply_or_apology(None), "我刚才走神了，请再说一次。");
    assert_eq!(reply_or_apology(Some("ok".to_string())), "ok");
}

#[test]
fn fallback_reply_follows_keywords() {
    assert_eq!(fallback_reply("帮我加个待办"), "我记下了。你可以在待办面板里确认和调整时间。");
    assert_eq!(fallback_reply("明天提醒我开会"), "我记下了。你可以在待办面板里确认和调整时间。");
    assert_eq!(fallback_reply("你好呀"), "你好，我在。告诉我你现在最想推进的一件事。");
    assert_eq!(fallback_reply("你好，提醒我"), "我记下了。你可以在待办面板里确认和调整时间。");
    assert_eq!(fallback_reply("hello"), "收到。这个问题我可以继续帮你拆解成下一步行动。");
    assert_eq!(fallback_reply(""), "收到。这个问题我可以继续帮你拆解成下一步行动。");
}

#[test]
fn config_defaults_and_mode() {
    let local = LlmConfig::new(None, None);
    assert_eq!(local.model, "gpt-4o-mini");
    assert_eq!(local.mode(), "fallback");
    let cloud = LlmConfig::new(Some("SECRET-REDACTED".to_string()), Some("m".to_string()));
    assert_eq!(cloud.model, "m");
    assert_eq!(cloud.mode(), "cloud");
    let h = health_status(&cloud);
    assert_eq!(h.status, "ok");
    assert!(h.db_ready);
    assert_eq!(h.llm_mode, "cloud");
    assert_eq!(health_status(&local).llm_mode, "fallback");
}

#[test]
fn routing_without_key_answers_locally() {
    let local = LlmConfig::new(None, None);
    assert_eq!(
        route_chat(&local, "Claw Mini", "calm", "none", "你好"),
        ChatRoute::Local("你好，我在。告诉我你现在最想推进的一件事。".to_string())
    );
    let cloud = LlmConfig::new(Some("k".to_string()), None);
    match route_chat(&cloud, "Claw Mini", "calm", "none", "hi") {
        ChatRoute::Remote(r) => {
            assert_eq!(r.api_key, "k");
            assert_eq!(r.model, "gpt-4o-mini");
            assert_eq!(r.user_message, "hi");
            assert_eq!(
                r.system_prompt,
                "You are Claw Mini. Tone: calm. Use concise Chinese unless user asks otherwise. Memory: none"
            );
        }
        ChatRoute::Local(_) => panic!("key configured"),
    }
    assert_eq!(
        system_prompt("A", "B", "C"),
        "You are A. Tone: B. Use concise Chinese unless user asks otherwise. Memory: C"
    );
}

#[test]
fn remote_answer_reads_the_first_choice() {
    let body = r#"{"choices":[{"message":{"content":"好的"}}]}"#.as_bytes();
    assert_eq!(remote_answer(true, body, "x"), Ok("好的".to_string()));
    let two = r#"{"choices":[{"message":{"content":"first"}},{"message":{"content":"second"}}]}"#;
    assert_eq!(remote_answer(true, two.as_bytes(), "x"), Ok("first".to_string()));
}

#[test]
fn remote_answer_without_text_gets_the_stock_reply() {
    assert_eq!(remote_answer(true, b"{}", "x"), Ok("我听到了，我们一步步来。".to_string()));
    assert_eq!(remote_answer(true, b"[]", "x"), Ok("我听到了，我们一步步来。".to_string()));
    let number = r#"{"choices":[{"message":{"content":42}}]}"#;
    assert_eq!(remote_answer(true, number.as_bytes(), "x"), Ok("我听到了，我们一步步来。".to_string()));
}

#[test]
fn remote_answer_rejects_a_body_that_is_not_json() {
    assert_eq!(remote_answer(true, b"not json", "x"), Err("llm parse failed".to_string()));
    assert_eq!(remote_answer(true, b"", "x"), Err("llm parse failed".to_string()));
}

#[test]
fn refused_request_falls_back_to_the_local_reply() {
    assert_eq!(
        remote_answer(false, b"not json", "待办"),
        Ok("我记下了。你可以在待办面板里确认和调整时间。".to_string())
    );
}

#[test]
fn answer_from_content_covers_each_case() {
    assert_eq!(answer_from_content(None), Err("llm parse failed".to_string()));
    assert_eq!(answer_from_content(Some(None)), Ok("我听到了，我们一步步来。".to_string()));
    assert_eq!(answer_from_content(Some(Some("好的".to_string()))), Ok("好的".to_string()));
}

#[test]
fn latest_memory_heads_the_next_summary() {
    let rows = vec![memory_update("focus"), "latest_context_mode=chat".to_string()];
    assert!(memory_summary(&rows).starts_with("latest_context_mode=focus"));
}

#[test]
fn default_persona_is_claw_mini() {
    let p = default_persona();
    assert_eq!(p.id, "default");
    assert_eq!(p.name, "Claw Mini");
    assert_eq!(p.tone, "friendly-pragmatic");
    assert_eq!(p.style_tags, "efficiency,kind,focused");
    assert_eq!(p.prohibited_topics, "illegal,unsafe");
    assert_eq!(p.initiative_level, 60);
    assert_eq!(p.quiet_hours_start.as_deref(), Some("23:00"));
    assert_eq!(p.quiet_hours_end.as_deref(), Some("08:00"));
}

#[test]
fn chat_asks_the_model_as_the_found_persona() {
    let persona = default_persona();
    let req = ChatRequest {
        message: "你好".to_string(),
        session_id: "s".to_string(),
        persona_id: "default".to_string(),
        context_mode: "chat".to_string(),
    };
    let rows = vec!["latest_context_mode=focus".to_string(), "older".to_string()];
    let cloud = LlmConfig::new(Some("k".to_string()), None);
    match plan_chat(&cloud, &persona, &rows, &req) {
        ChatRoute::Remote(r) => {
            assert_eq!(r.user_message, "你好");
            assert_eq!(
                r.system_prompt,
                "You are Claw Mini. Tone: friendly-pragmatic. Use concise Chinese unless user asks otherwise. Memory: latest_context_mode=focus; older"
            );
        }
        ChatRoute::Local(_) => panic!("key configured"),
    }
    match plan_chat(&cloud, &persona, &vec![], &req) {
        ChatRoute::Remote(r) => assert!(r.system_prompt.ends_with("Memory: none")),
        ChatRoute::Local(_) => panic!("key configured"),
    }
    let local = LlmConfig::new(None, None);
    assert_eq!(
        plan_chat(&local, &persona, &rows, &req),
        ChatRoute::Local("你好，我在。告诉我你现在最想推进的一件事。".to_string())
    );
}
