use semantic_search::embedding::{
    embedding_request, take_embedding, ApiVersion, BilledUnits, EmbeddingError, EmbeddingOutcome,
    EmbeddingResponse, Meta,
};

fn response(embeddings: Vec<Vec<u32>>) -> EmbeddingResponse {
    EmbeddingResponse {
        id: String::from("e1"),
        texts: vec![String::from("soccer")],
        embeddings,
        meta: Meta {
            api_version: ApiVersion { version: String::from("1") },
            billed_units: BilledUnits { input_tokens: 1 },
        },
        response_type: String::from("embeddings_floats"),
    }
}

fn bits(components: &[f32]) -> Vec<u32> {
    components.iter().map(|c| c.to_bits()).collect()
}

/// The JSON document `{"texts":[text],"model":"small"}`.
fn document(text: &str) -> serde_json::Value {
    let mut members = serde_json::Map::new();
    members.insert(
        String::from("texts"),
        serde_json::Value::Array(vec![serde_json::Value::String(text.to_string())]),
    );
    members.insert(String::from("model"), serde_json::Value::String(String::from("small")));
    serde_json::Value::Object(members)
}

#[test]
fn embedding_request_for_soccer() {
    let request = embedding_request("secret", "soccer");
    assert_eq!(request.method, "POST");
    assert_eq!(request.url, "https://api.cohere.ai/embed");
    assert_eq!(
        request.headers,
        vec![
            (String::from("Authorization"), String::from("Bearer secret")),
            (String::from("Content-Type"), String::from("application/json")),
            (String::from("Cohere-Version"), String::from("2021-11-08")),
        ]
    );
    assert_eq!(request.body, "{\"texts\":[\"soccer\"],\"model\":\"small\"}");
}

#[test]
fn embedding_request_body_is_json_for_plain_text() {
    let request = embedding_request("k", "table tennis");
    let parsed: serde_json::Value = serde_json::from_str(&request.body).unwrap();
    assert_eq!(parsed["texts"][0].as_str(), Some("table tennis"));
    assert_eq!(parsed["texts"].as_array().map(|texts| texts.len()), Some(1));
    assert_eq!(parsed["model"].as_str(), Some("small"));
}

#[test]
fn embedding_request_escapes_the_quotation_mark() {
    let request = embedding_request("k", "a\"b");
    assert_eq!(request.body, "{\"texts\":[\"a\\\"b\"],\"model\":\"small\"}");
    let parsed: serde_json::Value = serde_json::from_str(&request.body).unwrap();
    assert_eq!(parsed, document("a\"b"));
}

#[test]
fn embedding_request_escapes_backslash_and_control_characters() {
    let request = embedding_request("k", "a\\b\nc\u{1}");
    assert_eq!(
        request.body,
        "{\"texts\":[\"a\\\\b\\nc\\u0001\"],\"model\":\"small\"}"
    );
}

#[test]
fn embedding_request_body_is_the_document_for_every_text() {
    let texts = [
        "soccer",
        "table tennis",
        "a\"b",
        "\"",
        "\\",
        "\\\"",
        "x\"],\"model\":\"large\",\"texts\":[\"y",
        "line\nbreak\ttab\rreturn",
        "\u{0}\u{1}\u{8}\u{b}\u{c}\u{1f}\u{7f}",
        "fútbol",
        "サッカー",
        "⚽ \u{1f3c6}",
        "/slash/ and \\u0041",
        " ",
        "{}[]:,",
    ];
    for text in texts {
        let request = embedding_request("k", text);
        let parsed: serde_json::Value = serde_json::from_str(&request.body).unwrap();
        assert_eq!(parsed, document(text), "{:?}", text);
        assert_eq!(parsed.as_object().map(|members| members.len()), Some(2));
    }
}

#[test]
fn take_embedding_takes_the_first() {
    let first = bits(&[0.1, 0.2, 0.3, 0.4]);
    let second = bits(&[0.5, 0.6, 0.7, 0.8]);
    let outcome = EmbeddingOutcome::Replied {
        status: 200,
        response: Some(response(vec![first.clone(), second])),
    };
    assert_eq!(take_embedding(outcome), Ok(first));
}

#[test]
fn take_embedding_keeps_every_bit() {
    let vector = vec![f32::NAN.to_bits(), (-0.0f32).to_bits(), 0x7fc0_0001, u32::MAX, 0];
    let outcome =
        EmbeddingOutcome::Replied { status: 200, response: Some(response(vec![vector.clone()])) };
    assert_eq!(take_embedding(outcome), Ok(vector));
}

#[test]
fn take_embedding_may_be_of_dimension_zero() {
    let outcome =
        EmbeddingOutcome::Replied { status: 200, response: Some(response(vec![vec![]])) };
    assert_eq!(take_embedding(outcome), Ok(vec![]));
}

#[test]
fn take_embedding_without_a_reply() {
    assert_eq!(take_embedding(EmbeddingOutcome::Unreachable), Err(EmbeddingError::Network));
}

#[test]
fn take_embedding_with_a_status_outside_success() {
    for status in [0, 100, 199, 300, 400, 401, 429, 500, 503, u16::MAX] {
        let outcome = EmbeddingOutcome::Replied {
            status,
            response: Some(response(vec![bits(&[0.1])])),
        };
        assert_eq!(take_embedding(outcome), Err(EmbeddingError::Status), "{}", status);
        let outcome = EmbeddingOutcome::Replied { status, response: None };
        assert_eq!(take_embedding(outcome), Err(EmbeddingError::Status), "{}", status);
    }
}

#[test]
fn take_embedding_with_any_status_of_success() {
    for status in [200, 201, 204, 299] {
        let outcome = EmbeddingOutcome::Replied {
            status,
            response: Some(response(vec![bits(&[0.1])])),
        };
        assert_eq!(take_embedding(outcome), Ok(bits(&[0.1])), "{}", status);
    }
}

#[test]
fn take_embedding_with_an_unreadable_body() {
    let outcome = EmbeddingOutcome::Replied { status: 200, response: None };
    assert_eq!(take_embedding(outcome), Err(EmbeddingError::Malformed));
}

#[test]
fn take_embedding_with_no_embedding() {
    let outcome = EmbeddingOutcome::Replied { status: 200, response: Some(response(vec![])) };
    assert_eq!(take_embedding(outcome), Err(EmbeddingError::Empty));
}
