use marcv_api::{agent_data_form, agent_data_url, register};

#[test]
fn register_returns_placeholder() {
    let r = register("https://checkmk.example:8000", b"csr".to_vec());
    assert_eq!(r.unwrap(), "Fake certificate for ");
}

#[test]
fn register_ignores_its_inputs() {
    let a = register("", Vec::new()).unwrap();
    let b = register("http://other", vec![0u8; 4096]).unwrap();
    assert_eq!(a, "Fake certificate for ");
    assert_eq!(a, b);
}

#[test]
fn url_appends_agent_data_path() {
    assert_eq!(agent_data_url("http://localhost:8000"), "http://localhost:8000/agent-data");
}

#[test]
fn url_of_empty_address() {
    assert_eq!(agent_data_url(""), "/agent-data");
}

#[test]
fn url_keeps_a_trailing_slash() {
    assert_eq!(agent_data_url("http://h/site/"), "http://h/site//agent-data");
}

#[test]
fn form_holds_uuid_then_payload() {
    let form = agent_data_form("host-1", vec![104, 105]);
    let shown = format!("{:?}", form);
    let uuid_at = shown.find("\"uuid\"").unwrap();
    let upload_at = shown.find("\"upload_file\"").unwrap();
    assert!(uuid_at < upload_at);
    assert!(shown.contains("b\"host-1\""));
    assert!(shown.contains("b\"hi\""));
    assert!(shown.contains("file_name: Some(\"agent_data\")"));
    assert!(shown.contains("file_name: None"));
}

#[test]
fn form_with_empty_payload() {
    let form = agent_data_form("", Vec::new());
    let shown = format!("{:?}", form);
    assert!(shown.contains("\"uuid\""));
    assert!(shown.contains("\"upload_file\""));
    assert!(shown.contains("b\"\""));
    assert!(shown.contains("file_name: Some(\"agent_data\")"));
}

#[test]
fn form_with_binary_payload() {
    let form = agent_data_form("0f3c-uuid", vec![0u8, 255]);
    let shown = format!("{:?}", form);
    assert!(shown.contains("b\"0f3c-uuid\""));
    assert!(shown.contains("b\"\\0\\xff\""));
}
