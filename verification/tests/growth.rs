use wb_switch_core::growth::{derive_id, task_cn};
use wb_switch_core::checkin::is_unauthorized;
use wb_switch_core::json::Json;

fn obj(fields: Vec<(&str, Json)>) -> Json {
    Json::Object(fields.into_iter().map(|(k, v)| (k.to_string(), v)).collect())
}

#[test]
fn derive_id_is_stable_and_36_hex() {
    let a = derive_id("uid-123", "machine");
    let b = derive_id("uid-123", "machine");
    let c = derive_id("uid-123", "session");
    assert_eq!(a, b, "同账号同 salt 必须稳定");
    assert_ne!(a, c, "不同 salt 必须不同");
    assert_eq!(a.len(), 36, "派生 id 长度为 36");
    assert!(a.chars().all(|ch| ch.is_ascii_hexdigit()));
}

#[test]
fn task_cn_known_and_fallback() {
    assert_eq!(task_cn("template_5"), "使用5个模板".to_string());
    assert_eq!(task_cn("design_creative"), "设计创意模式".to_string());
    assert_eq!(task_cn("some_unknown_code"), "some_unknown_code".to_string());
}

#[test]
fn growth_is_unauthorized_detects_code() {
    assert!(is_unauthorized(&obj(vec![("code", Json::Int(401))])));
    assert!(is_unauthorized(&obj(vec![("code", Json::Int(403))])));
    assert!(!is_unauthorized(&obj(vec![("code", Json::Int(0))])));
}
