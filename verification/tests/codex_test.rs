//! Tests for the Responses API helpers.

use ace_tool::service::codex::{
    build_codex_url, extract_output_text, input_content_type, CodexApiResponse, CodexError,
    CodexOutput, ContentPart,
};

fn text_part(text: &str) -> ContentPart {
    ContentPart { content_type: "output_text".to_string(), text: Some(text.to_string()), refusal: None }
}

#[test]
fn test_build_codex_url() {
    assert_eq!(build_codex_url("https://api.openai.com"), "https://api.openai.com/v1/responses");
    assert_eq!(build_codex_url("https://api.openai.com/"), "https://api.openai.com/v1/responses");
    assert_eq!(build_codex_url("https://api.openai.com/v1"), "https://api.openai.com/v1/responses");
    assert_eq!(build_codex_url("https://api.openai.com/v1/"), "https://api.openai.com/v1/responses");
}

#[test]
fn test_extract_output_text_prefers_final_answer_phase() {
    let api_response = CodexApiResponse {
        output: vec![
            CodexOutput {
                output_type: "message".to_string(),
                phase: Some("commentary".to_string()),
                content: Some(vec![ContentPart {
                    content_type: "output_text".to_string(),
                    text: Some("intermediate".to_string()),
                    refusal: None,
                }]),
            },
            CodexOutput {
                output_type: "message".to_string(),
                phase: Some("final_answer".to_string()),
                content: Some(vec![ContentPart {
                    content_type: "output_text".to_string(),
                    text: Some("final".to_string()),
                    refusal: None,
                }]),
            },
        ],
    };
    assert_eq!(extract_output_text(&api_response).unwrap(), "final");
}

#[test]
fn test_extract_output_text_joins_multiple_parts() {
    let api_response = CodexApiResponse {
        output: vec![CodexOutput {
            output_type: "message".to_string(),
            phase: None,
            content: Some(vec![
                ContentPart {
                    content_type: "output_text".to_string(),
                    text: Some("part 1".to_string()),
                    refusal: None,
                },
                ContentPart {
                    content_type: "output_text".to_string(),
                    text: Some("part 2".to_string()),
                    refusal: None,
                },
            ]),
        }],
    };
    assert_eq!(extract_output_text(&api_response).unwrap(), "part 1\npart 2");
}

#[test]
fn test_extract_output_text_reports_refusal() {
    let api_response = CodexApiResponse {
        output: vec![CodexOutput {
            output_type: "message".to_string(),
            phase: None,
            content: Some(vec![ContentPart {
                content_type: "refusal".to_string(),
                text: None,
                refusal: Some("safety refusal".to_string()),
            }]),
        }],
    };
    assert!(extract_output_text(&api_response).unwrap_err().message().contains("safety refusal"));
}

// ---------------------------------------------------------------------------
// Further cases
// ---------------------------------------------------------------------------

#[test]
fn codex_url_keeps_other_paths() {
    assert_eq!(build_codex_url("https://proxy.example/api"), "https://proxy.example/api/v1/responses");
    assert_eq!(build_codex_url("https://proxy.example/v1//"), "https://proxy.example/v1/responses");
    assert_eq!(build_codex_url(""), "/v1/responses");
}

#[test]
fn codex_no_output_text() {
    let empty = CodexApiResponse { output: vec![] };
    let err = extract_output_text(&empty).unwrap_err();
    assert!(matches!(err, CodexError::NoOutputText));
    assert_eq!(err.message(), "Codex API returned no output_text content");

    // Non-message items and blank parts give nothing either.
    let blank = CodexApiResponse {
        output: vec![
            CodexOutput { output_type: "reasoning".to_string(), phase: None, content: Some(vec![text_part("x")]) },
            CodexOutput { output_type: "message".to_string(), phase: None, content: Some(vec![text_part("  \n ")]) },
            CodexOutput { output_type: "message".to_string(), phase: None, content: None },
        ],
    };
    assert!(matches!(extract_output_text(&blank), Err(CodexError::NoOutputText)));
}

#[test]
fn codex_trims_and_prefers_text_over_refusal() {
    let resp = CodexApiResponse {
        output: vec![CodexOutput {
            output_type: "message".to_string(),
            phase: None,
            content: Some(vec![
                ContentPart { content_type: "refusal".to_string(), text: None, refusal: Some("no".to_string()) },
                text_part("  answer \t"),
            ]),
        }],
    };
    assert_eq!(extract_output_text(&resp).unwrap(), "answer");
}

#[test]
fn codex_refusal_message_joins_with_newline() {
    let resp = CodexApiResponse {
        output: vec![CodexOutput {
            output_type: "message".to_string(),
            phase: None,
            content: Some(vec![
                ContentPart { content_type: "refusal".to_string(), text: None, refusal: Some(" a ".to_string()) },
                ContentPart { content_type: "refusal".to_string(), text: None, refusal: Some("b".to_string()) },
            ]),
        }],
    };
    assert_eq!(extract_output_text(&resp).unwrap_err().message(), "Codex API refusal: a\nb");
}

#[test]
fn test_build_input_message_uses_output_text_for_assistant_role() {
    assert_eq!(input_content_type("assistant"), "output_text");
    assert_eq!(input_content_type("user"), "input_text");
    assert_eq!(input_content_type("system"), "input_text");
}
