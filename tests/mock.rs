use howlto::mock::{
    completion_response, model_list, split_chunks, stream_chunks, user_prompt, AppState, ContentPart,
    Message, MessageContent,
};

fn message(role: &str, content: Option<MessageContent>) -> Message {
    Message { role: role.to_string(), content, tool_calls: None, tool_call_id: None }
}

fn part(text: Option<&str>) -> ContentPart {
    ContentPart { content_type: "text".to_string(), text: text.map(String::from), image_url: None }
}

#[test]
fn prompt_is_last_user_message() {
    let msgs = vec![
        message("user", Some(MessageContent::Text("first".to_string()))),
        message("user", Some(MessageContent::ContentParts(vec![part(Some("a")), part(None), part(Some("b"))]))),
        message("assistant", Some(MessageContent::Text("reply".to_string()))),
    ];
    assert_eq!(user_prompt(&msgs), "a b");
    assert_eq!(user_prompt(&vec![]), "");
    assert_eq!(user_prompt(&vec![message("user", None)]), "");
}

#[test]
fn answers_from_table() {
    let state = AppState::new(vec![("你好".to_string(), "hello".to_string())]);
    assert_eq!(state.answer("你好"), "hello");
    assert_eq!(state.answer("x"), "未找到匹配的响应: x");
}

#[test]
fn chunks_of_five() {
    assert_eq!(split_chunks("abcdefghijkl", 5), vec!["abcde", "fghij", "kl"]);
    assert_eq!(split_chunks("", 5), Vec::<String>::new());
    assert_eq!(split_chunks("你好世界啊", 5), vec!["你好世界啊"]);
}

#[test]
fn stream_events() {
    let c = stream_chunks(&"id1".to_string(), 7, &"m".to_string(), "abcdefg");
    assert_eq!(c.len(), 4);
    assert_eq!(c[0].choices[0].delta.role.as_deref(), Some("assistant"));
    assert_eq!(c[1].choices[0].delta.content.as_deref(), Some("abcde"));
    assert_eq!(c[2].choices[0].delta.content.as_deref(), Some("fg"));
    assert_eq!(c[3].choices[0].finish_reason.as_deref(), Some("stop"));
    assert!(c.iter().all(|x| x.id == "id1" && x.created == 7 && x.model == "m"));
}

#[test]
fn complete_answer_and_models() {
    let r = completion_response("id".to_string(), 1, "m".to_string(), "text".to_string());
    assert_eq!(r.object, "chat.completion");
    assert_eq!(r.usage.total_tokens, 30);
    assert!(matches!(&r.choices[0].message.content, Some(MessageContent::Text(t)) if t == "text"));
    let l = model_list(5);
    assert_eq!(l.data[0].id, "mocker");
    assert_eq!(l.data[0].created, 5);
}
