use tg_bot::gpt::{
    first_answer, request_messages, Alternative, Message, ResultData, Role, Usage,
    YandexGPTClient, YandexGPTResponse,
};

#[test]
fn client_addresses() {
    let c = YandexGPTClient::new("k".to_string(), "https://h/".to_string(), "f".to_string());
    assert_eq!(c.model_uri(), "gpt://f/yandexgpt");
    assert_eq!(c.authorization(), "Api-Key k");
    assert_eq!(c.base_url(), "https://h/");
}

#[test]
fn messages_in_order() {
    let m = request_messages("sys", "hi");
    assert_eq!(m.len(), 2);
    assert!(matches!(m[0].role, Role::system));
    assert_eq!(m[0].text, "sys");
    assert!(matches!(m[1].role, Role::user));
    assert_eq!(m[1].text, "hi");
}

fn response(texts: &[&str]) -> YandexGPTResponse {
    YandexGPTResponse {
        result: ResultData {
            alternatives: texts
                .iter()
                .map(|t| Alternative {
                    message: Message { role: Role::assistant, text: t.to_string() },
                    status: "ALTERNATIVE_STATUS_FINAL".to_string(),
                })
                .collect(),
            usage: Usage {
                inputTextTokens: "1".to_string(),
                completionTokens: "2".to_string(),
                totalTokens: "3".to_string(),
            },
            modelVersion: "v".to_string(),
        },
    }
}

#[test]
fn first_answer_of_reply() {
    assert_eq!(first_answer(&response(&["a", "b"])), Some("a".to_string()));
    assert_eq!(first_answer(&response(&[])), None);
}
