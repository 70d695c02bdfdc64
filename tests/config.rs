use deeprl::{ClientConfig, DEFAULT_USER_AGENT};

const KEY: &str = "0123abcd-0000-0000-0000-000000000000";

#[test]
fn configure() {
    let app = "my-app/1.2.3";
    let mut config = ClientConfig::new(KEY);
    config.set_app_info(app.to_owned());
    assert_eq!(config.user_agent(), app);
    let auth = format!("DeepL-Auth-Key {}", KEY);
    assert_eq!(config.authorization(), auth);
}

#[test]
fn default_user_agent() {
    let config = ClientConfig::new(KEY);
    assert_eq!(config.user_agent(), DEFAULT_USER_AGENT);
    assert_eq!(DEFAULT_USER_AGENT, "deeprl/0.1.0");
}

#[test]
fn endpoint_by_key_kind() {
    let paid = ClientConfig::new(KEY);
    assert_eq!(paid.url("usage"), "https://api.deepl.com/v2/usage");
    let free = ClientConfig::new("0123abcd:fx");
    assert_eq!(free.url("glossaries"), "https://api-free.deepl.com/v2/glossaries");
    assert_eq!(free.authorization(), "DeepL-Auth-Key 0123abcd:fx");
    assert_eq!(ClientConfig::new("fx").url("usage"), "https://api.deepl.com/v2/usage");
    assert_eq!(ClientConfig::new(":fx").url("usage"), "https://api-free.deepl.com/v2/usage");
    assert_eq!(ClientConfig::new(":fX").url("usage"), "https://api.deepl.com/v2/usage");
}
