use cosmwasm_std::{Binary, Response};
use hello_world::{execute, execute_decoded, instantiate, query, ContractError};

fn pairs(resp: &Response) -> Vec<(String, String)> {
    resp.attributes
        .iter()
        .map(|a| (a.key.clone(), a.value.clone()))
        .collect()
}

fn pair(k: &str, v: &str) -> (String, String) {
    (k.to_string(), v.to_string())
}

#[test]
fn execute_echoes_ping() {
    let resp = execute(Binary::from(b"ping".to_vec())).unwrap();
    assert_eq!(pairs(&resp), vec![pair("method", "execute"), pair("message", "ping")]);
}

#[test]
fn execute_rejects_invalid_utf8() {
    let r = execute(Binary::from(vec![0xFFu8, 0xFE]));
    assert_eq!(r, Err(ContractError::InvalidInput("Invalid UTF-8".to_string())));
}

#[test]
fn execute_rejects_truncated_sequence() {
    // the first two bytes of a three-byte character
    let r = execute(Binary::from(vec![b'a', 0xE2, 0x82]));
    assert!(matches!(r, Err(ContractError::InvalidInput(_))));
}

#[test]
fn execute_keeps_multibyte_text() {
    let text = "héllo, 世界 €";
    let resp = execute(Binary::from(text.as_bytes().to_vec())).unwrap();
    assert_eq!(pairs(&resp), vec![pair("method", "execute"), pair("message", text)]);
}

#[test]
fn execute_accepts_empty_payload() {
    let resp = execute(Binary::from(Vec::new())).unwrap();
    assert_eq!(pairs(&resp), vec![pair("method", "execute"), pair("message", "")]);
}

#[test]
fn execute_twice_gives_the_same_response() {
    let a = execute(Binary::from(b"same".to_vec())).unwrap();
    let b = execute(Binary::from(b"same".to_vec())).unwrap();
    assert_eq!(a, b);
    let e1 = execute(Binary::from(vec![0xC0u8]));
    let e2 = execute(Binary::from(vec![0xC0u8]));
    assert_eq!(e1, e2);
}

#[test]
fn execute_decoded_builds_both_outcomes() {
    let resp = execute_decoded(Some("hi".to_string())).unwrap();
    assert_eq!(pairs(&resp), vec![pair("method", "execute"), pair("message", "hi")]);
    assert_eq!(
        execute_decoded(None),
        Err(ContractError::InvalidInput("Invalid UTF-8".to_string()))
    );
}

#[test]
fn instantiate_with_empty_payload() {
    let resp = instantiate(Binary::from(Vec::new())).unwrap();
    assert_eq!(pairs(&resp), vec![pair("method", "instantiate")]);
}

#[test]
fn instantiate_ignores_payload() {
    let resp = instantiate(Binary::from(vec![0xFFu8, 0x00, 0x10])).unwrap();
    assert_eq!(pairs(&resp), vec![pair("method", "instantiate")]);
    assert!(resp.messages.is_empty());
}

#[test]
fn query_returns_greeting() {
    let b = query(Binary::from(b"anything".to_vec())).unwrap();
    assert_eq!(b.as_slice(), b"Hello, World!");
}

#[test]
fn query_ignores_payload() {
    let a = query(Binary::from(Vec::new())).unwrap();
    let b = query(Binary::from(vec![0xFFu8, 0xFE])).unwrap();
    assert_eq!(a, b);
    assert_eq!(String::from_utf8(a.to_vec()).unwrap(), "Hello, World!");
}
