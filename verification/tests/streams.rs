use craiyon_bot::commands::makersuite::{
    check_attachment_size, request_parts, Candidate, Content, GenerateContentResponse,
    GenerationProgress, Part, PartResponse, PromptFeedback, SafetyRating, StreamEvent, StreamState,
};
use craiyon_bot::commands::stablehorde::{format_status_text, Status, WaitState, WaitStep};

fn chunk(text: &str, finish_reason: Option<&str>) -> GenerateContentResponse {
    GenerateContentResponse {
        candidates: vec![Candidate {
            content: Some(Content { parts: vec![PartResponse::Text(text.into())] }),
            finish_reason: finish_reason.map(|r| r.to_string()),
            citation_metadata: None,
        }],
        prompt_feedback: None,
    }
}

#[test]
fn gemini_stream_writes_only_changes() {
    let mut state = StreamState::new();
    let action = state.step(StreamEvent::Response(chunk("Hel", None))).unwrap();
    assert!(action.publish.is_none());
    let action = state.step(StreamEvent::Timeout).unwrap();
    assert_eq!(action.publish.as_deref(), Some("Hel…"));
    assert!(action.reset_timer);
    let action = state.step(StreamEvent::Timeout).unwrap();
    assert!(action.publish.is_none());
    state.step(StreamEvent::Response(chunk("lo", Some("MAX_TOKENS")))).unwrap();
    let action = state.step(StreamEvent::Ended).unwrap();
    assert_eq!(action.publish.as_deref(), Some("Hello [finish reason: MAX_TOKENS]"));
    assert!(action.finished);
}

#[test]
fn gemini_blocked_prompt() {
    let mut progress = GenerationProgress::new(chunk("a", None).candidates.remove(0));
    let blocked = GenerateContentResponse {
        candidates: vec![],
        prompt_feedback: Some(PromptFeedback {
            block_reason: Some("SAFETY".into()),
            safety_ratings: Some(vec![
                SafetyRating { category: "HARM_CATEGORY_HARASSMENT".into(), blocked: true },
                SafetyRating { category: "HARM_CATEGORY_HATE".into(), blocked: false },
            ]),
        }),
    };
    assert_eq!(
        progress.update(blocked).unwrap_err(),
        "request blocked by Google: HARM_CATEGORY_HARASSMENT."
    );
    let empty = GenerateContentResponse { candidates: vec![], prompt_feedback: None };
    assert_eq!(progress.update(empty).unwrap_err(), "no response generated.");
    assert_eq!(progress.format(true), "a");
}

#[test]
fn gemini_request() {
    assert!(check_attachment_size(64 * 1024 * 1024).is_ok());
    assert_eq!(
        check_attachment_size(64 * 1024 * 1024 + 1).unwrap_err(),
        "the file cannot be larger than 64 MiB."
    );
    let parts = request_parts(None, Some("files/x".into())).unwrap();
    assert!(matches!(&parts.parts[0], Part::Text(t) if t == "Comment briefly on what you see."));
    assert!(matches!(&parts.parts[1], Part::FileData(u) if u == "files/x"));
    assert!(parts.system_instruction.is_some());
    assert_eq!(request_parts(None, None).err().unwrap(), "no prompt or file provided.");
}

fn status(waiting: i32, wait_time: u32) -> Status {
    Status {
        finished: 0,
        processing: 0,
        waiting,
        done: false,
        faulted: false,
        wait_time,
        queue_position: 2,
        is_possible: true,
    }
}

#[test]
fn stable_horde_waits() {
    let mut state = WaitState::new();
    assert!(matches!(state.step(status(2, 30), 0), WaitStep::Continue { publish: true }));
    assert!(matches!(state.step(status(1, 30), 11_999), WaitStep::Continue { publish: false }));
    assert!(matches!(state.step(status(1, 61), 12_000), WaitStep::Continue { publish: true }));
    assert!(state.show_volunteer_notice);
    assert!(matches!(state.step(status(1, 61), 20_000), WaitStep::Continue { publish: false }));
    assert!(matches!(state.step(status(1, 10), 30_000), WaitStep::Continue { publish: true }));
    assert!(state.show_volunteer_notice);
    let mut faulted = status(1, 10);
    faulted.faulted = true;
    assert!(matches!(state.step(faulted, 40_000), WaitStep::Failed(m) if m == "the generation timed out."));
    let mut impossible = status(1, 10);
    impossible.is_possible = false;
    assert!(matches!(
        state.step(impossible, 40_000),
        WaitStep::Cancel(m) if m == "there are no online workers for the requested model."
    ));
    let texts: Vec<String> =
        format_status_text(&status(1, 5), "a cat", true, "5s").into_iter().map(|e| e.text).collect();
    assert_eq!(
        texts,
        vec![
            "generating ",
            "a cat",
            "…\n",
            "queue position: 2\n",
            "[     ]",
            " ETA: ",
            "5s",
            "\n\nStable Horde is run by volunteers. to make wait times shorter, ",
            "consider joining yourself",
            "!",
        ]
    );
}
