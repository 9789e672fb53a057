use howlto::round::{RoundError, RoundState, StreamEvent};
use howlto::usage::Usage;

#[test]
fn text_is_shown_and_tools_recorded() {
    let mut s = RoundState::new();
    assert_eq!(s.on_event(StreamEvent::Text("hi".to_string())), Ok(Some("hi".to_string())));
    assert_eq!(s.on_event(StreamEvent::Reasoning("hmm".to_string())), Ok(Some("hmm".to_string())));
    assert_eq!(
        s.on_event(StreamEvent::ToolCall { name: "help".to_string(), results: None }),
        Ok(None)
    );
    assert_eq!(
        s.on_event(StreamEvent::ToolCall { name: "man".to_string(), results: None }),
        Ok(None)
    );
    assert!(s.tool_calls.help && s.tool_calls.man && !s.tool_calls.tldr);
    assert!(!s.finished);
}

#[test]
fn finish_ends_the_round() {
    let mut s = RoundState::new();
    let r = s.on_event(StreamEvent::ToolCall {
        name: "finish_response".to_string(),
        results: Some(vec!["ls".to_string()]),
    });
    assert_eq!(r, Ok(None));
    assert!(s.finished);
    assert_eq!(s.on_event(StreamEvent::Text("late".to_string())), Ok(None));
    let result = s.into_result("streamed".to_string());
    assert_eq!(result.output, "streamed");
    assert_eq!(result.usage, None);
    assert_eq!(result.commands.unwrap().results, vec!["ls".to_string()]);
}

#[test]
fn malformed_finish_is_an_error() {
    let mut s = RoundState::new();
    let r = s.on_event(StreamEvent::ToolCall { name: "finish_response".to_string(), results: None });
    assert_eq!(r, Err(RoundError::MalformedFinish));
}

#[test]
fn final_response_gives_answer_and_usage() {
    let mut s = RoundState::new();
    let usage = Usage { input_tokens: 3, output_tokens: 4, total_tokens: 7 };
    s.on_event(StreamEvent::FinalResponse { text: "answer".to_string(), usage: Some(usage) }).unwrap();
    let result = s.into_result("partial".to_string());
    assert_eq!(result.output, "answer");
    assert_eq!(result.usage, Some(usage));
    assert!(result.commands.is_none());
    assert!(result.tool_calls.is_empty());
}
