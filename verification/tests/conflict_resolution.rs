use membrain::conflict::{
    build_prompt, immediate_resolution, resolution_of, resolve_target_id, ConflictDecision,
    ConflictResolutionResult, ResolutionReply,
};
use membrain::decode::unfence;
use membrain::error::Error;
use membrain::ids::MemoryId;
use membrain::retry::{next_step, AttemptFailure, NextStep};

/// Decode a model reply the way the service client does: strip the fences,
/// then read the JSON object's fields.
fn reply_of(response: &str) -> ResolutionReply {
    let json = unfence(response);
    let value: serde_json::Value = serde_json::from_str(&json).expect("reply is JSON");
    let text = |key: &str| value.get(key).and_then(|v| v.as_str()).map(|s| s.to_string());
    ResolutionReply {
        decision: text("decision").expect("decision present"),
        target_id: text("target_id"),
        merged_content: text("merged_content"),
        reason: text("reason"),
        confidence: value.get("confidence").and_then(|v| v.as_f64()).map(f64::to_bits),
        reasoning: text("reasoning"),
    }
}

fn parse_response(response: &str, similar: &[MemoryId]) -> Result<ConflictResolutionResult, Error> {
    resolution_of(reply_of(response), &similar.to_vec())
}

fn fact_text(statement: &str) -> String {
    format!("Type: SemanticFact\nConfidence: 0.90\nContent: {}", statement)
}

#[test]
fn parse_add_response() {
    let response = r#"{
        "decision": "add",
        "confidence": 0.95,
        "reasoning": "This is genuinely new information"
    }"#;

    let result = parse_response(response, &[]).expect("should parse");
    assert!(matches!(result.decision, ConflictDecision::Add));
    assert!((f64::from_bits(result.confidence) - 0.95).abs() < f64::EPSILON);
}

#[test]
fn parse_delete_response() {
    let existing = MemoryId::new();
    let existing_id = existing.to_text();

    let response = format!(
        r#"{{
            "decision": "delete",
            "target_id": "{}",
            "reason": "Preference changed from football to basketball",
            "confidence": 0.9,
            "reasoning": "The new memory contradicts the existing preference"
        }}"#,
        existing_id
    );

    let result = parse_response(&response, &[existing]).expect("should parse");

    if let ConflictDecision::Delete { reason, target_id } = &result.decision {
        assert!(reason.contains("football"));
        assert_eq!(*target_id, existing);
    } else {
        panic!("Expected Delete decision");
    }
}

#[test]
fn parse_update_response() {
    let existing = MemoryId::new();
    let existing_id = existing.to_text();

    let response = format!(
        r#"{{
            "decision": "update",
            "target_id": "{}",
            "merged_content": "David likes sports, especially basketball",
            "confidence": 0.85,
            "reasoning": "The new memory adds detail to the existing one"
        }}"#,
        existing_id
    );

    let result = parse_response(&response, &[existing]).expect("should parse");

    if let ConflictDecision::Update { merged_content, .. } = &result.decision {
        assert!(merged_content.contains("basketball"));
    } else {
        panic!("Expected Update decision");
    }
}

#[test]
fn parse_noop_response() {
    let response = r#"{
        "decision": "noop",
        "reason": "This fact is already stored",
        "confidence": 0.92,
        "reasoning": "Duplicate of existing memory"
    }"#;

    let result = parse_response(response, &[]).expect("should parse");
    assert!(matches!(result.decision, ConflictDecision::Noop { .. }));
}

#[test]
fn parse_markdown_wrapped_response() {
    let response = "```json\n{\"decision\": \"add\", \"confidence\": 0.8, \"reasoning\": \"new\"}\n```";

    let result = parse_response(response, &[]).expect("should parse");
    assert!(matches!(result.decision, ConflictDecision::Add));
}

#[test]
fn parse_unknown_decision_defaults_to_add() {
    let response = r#"{"decision": "unknown_thing", "confidence": 0.5}"#;

    let result = parse_response(response, &[]).expect("should parse");
    assert!(matches!(result.decision, ConflictDecision::Add));
}

#[test]
fn resolve_target_id_single_memory_fallback() {
    let existing = MemoryId::new();

    // Even with a bad target_id, if there's only one similar memory, use it
    let result = resolve_target_id(&Some("bad-id".to_string()), &vec![existing]);
    assert!(result.is_ok());
    assert_eq!(result.expect("should resolve"), existing);
}

#[test]
fn build_prompt_formats_correctly() {
    let existing = MemoryId::new();

    let prompt = build_prompt(
        &fact_text("David likes basketball"),
        &vec![(existing, fact_text("David likes football"))],
    );
    assert!(prompt.contains("NEW MEMORY:"));
    assert!(prompt.contains("EXISTING MEMORIES:"));
    assert!(prompt.contains("basketball"));
    assert!(prompt.contains("football"));
    assert!(prompt.contains("Memory 1"));
}

#[test]
fn empty_similar_memories_prompt() {
    let prompt = build_prompt(&fact_text("David likes basketball"), &vec![]);
    assert!(prompt.contains("(none)"));
}

#[test]
fn prompt_has_exact_layout() {
    let a = MemoryId::from_u128(1);
    let b = MemoryId::from_u128(0xff);
    let prompt = build_prompt("new", &vec![(a, "first".to_string()), (b, "second".to_string())]);
    assert_eq!(
        prompt,
        "NEW MEMORY:\nnew\n\nEXISTING MEMORIES:\n\
         ---\nMemory 1 (ID: 00000000-0000-0000-0000-000000000001):\nfirst\n\
         ---\nMemory 2 (ID: 00000000-0000-0000-0000-0000000000ff):\nsecond\n"
    );
    assert_eq!(build_prompt("x", &vec![]), "NEW MEMORY:\nx\n\nEXISTING MEMORIES:\n(none)\n");
}

#[test]
fn missing_or_unknown_target_is_an_error() {
    let first = MemoryId::new();
    let second = MemoryId::new();
    let missing = parse_response(r#"{"decision": "update"}"#, &[first, second]).unwrap_err();
    assert_eq!(missing, Error::Internal("Conflict resolution response missing target_id".to_string()));
    let unknown = parse_response(r#"{"decision": "delete", "target_id": "Memory 3"}"#, &[first, second])
        .unwrap_err();
    assert_eq!(
        unknown,
        Error::Internal(
            "Could not resolve target_id 'Memory 3' from conflict resolution response".to_string()
        )
    );
}

#[test]
fn target_shown_in_prompt_is_found_among_several() {
    let first = MemoryId::from_u128(10);
    let second = MemoryId::from_u128(20);
    let result = resolve_target_id(&Some(second.to_text()), &vec![first, second]).unwrap();
    assert_eq!(result, second);
}

#[test]
fn reply_defaults_fill_missing_fields() {
    let target = MemoryId::new();
    let result = parse_response(
        &format!(r#"{{"decision": "delete", "target_id": "{}"}}"#, target.to_text()),
        &[target],
    )
    .unwrap();
    assert_eq!(f64::from_bits(result.confidence), 0.5);
    assert_eq!(result.reasoning, "");
    match result.decision {
        ConflictDecision::Delete { reason, .. } => assert_eq!(reason, "Contradicted by new information"),
        _ => panic!("Expected Delete decision"),
    }
    let noop = parse_response(r#"{"decision": "noop"}"#, &[]).unwrap();
    match noop.decision {
        ConflictDecision::Noop { reason } => assert_eq!(reason, "Already known"),
        _ => panic!("Expected Noop decision"),
    }
    let update = parse_response(
        &format!(r#"{{"decision": "update", "target_id": "{}"}}"#, target.to_text()),
        &[target],
    )
    .unwrap();
    match update.decision {
        ConflictDecision::Update { merged_content, .. } => assert_eq!(merged_content, ""),
        _ => panic!("Expected Update decision"),
    }
}

#[test]
fn no_similar_memory_needs_no_request() {
    let result = immediate_resolution(&vec![]).unwrap();
    assert!(matches!(result.decision, ConflictDecision::Add));
    assert_eq!(f64::from_bits(result.confidence), 1.0);
    assert_eq!(result.reasoning, "No similar existing memories found");
    assert!(immediate_resolution(&vec![MemoryId::new()]).is_none());
}

#[test]
fn retries_double_the_wait_and_stop_on_client_errors() {
    let transport = AttemptFailure::Transport { message: "connection reset".to_string() };
    match next_step(0, 2, transport.clone()) {
        NextStep::Retry { delay_ms } => assert_eq!(delay_ms, 100),
        NextStep::Stop { .. } => panic!("should retry"),
    }
    match next_step(1, 2, transport.clone()) {
        NextStep::Retry { delay_ms } => assert_eq!(delay_ms, 200),
        NextStep::Stop { .. } => panic!("should retry"),
    }
    match next_step(2, 2, transport) {
        NextStep::Stop { error } => {
            assert_eq!(error, Error::Internal("HTTP request failed: connection reset".to_string()))
        },
        NextStep::Retry { .. } => panic!("no retry left"),
    }
    let not_found = AttemptFailure::Status {
        code: 404,
        shown: "404 Not Found".to_string(),
        body: "no such model".to_string(),
    };
    match next_step(0, 5, not_found) {
        NextStep::Stop { error } => assert_eq!(
            error,
            Error::Internal("OpenAI API error 404 Not Found: no such model".to_string())
        ),
        NextStep::Retry { .. } => panic!("client errors are not retried"),
    }
    let limited = AttemptFailure::Status {
        code: 429,
        shown: "429 Too Many Requests".to_string(),
        body: String::new(),
    };
    match next_step(3, 5, limited) {
        NextStep::Retry { delay_ms } => assert_eq!(delay_ms, 800),
        NextStep::Stop { .. } => panic!("rate limits are retried"),
    }
}

#[test]
fn unfence_strips_whitespace_and_fences() {
    assert_eq!(unfence("  {\"a\": 1}\n"), "{\"a\": 1}");
    assert_eq!(unfence("```json\n[1, 2]\n```"), "[1, 2]");
    assert_eq!(unfence("\n```\n{}\n```\n"), "{}");
    assert_eq!(unfence("``````json x ``````"), "json x");
    assert_eq!(unfence("plain"), "plain");
}

#[test]
fn target_given_as_memory_label_is_resolved() {
    let first = MemoryId::new();
    let second = MemoryId::new();
    let third = MemoryId::new();
    let similar = vec![first, second, third];
    assert_eq!(resolve_target_id(&Some("Memory 2".to_string()), &similar), Ok(second));
    assert_eq!(resolve_target_id(&Some("Memory 1".to_string()), &similar), Ok(first));
    assert_eq!(resolve_target_id(&Some("Memory 3".to_string()), &similar), Ok(third));
    assert!(resolve_target_id(&Some("Memory 4".to_string()), &similar).is_err());
    assert!(resolve_target_id(&Some("Memory 0".to_string()), &similar).is_err());
    let result = parse_response(r#"{"decision": "delete", "target_id": "Memory 2"}"#, &similar).unwrap();
    match result.decision {
        ConflictDecision::Delete { target_id, .. } => assert_eq!(target_id, second),
        _ => panic!("Expected Delete decision"),
    }
}

#[test]
fn unfence_strips_unicode_white_space_only() {
    assert_eq!(unfence("\u{3000}\u{85}{}\u{2028}\t"), "{}");
    assert_eq!(unfence("\u{200B}{}"), "\u{200B}{}");
    assert_eq!(unfence(" \u{A0}```\n{\"k\": 2}\n```\u{2009}"), "{\"k\": 2}");
}
