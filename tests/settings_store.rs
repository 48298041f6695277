use tomoon::controller::EnhancedMode;
use tomoon::settings::{Settings, SettingsError, SettingsInstance, SettingsPatch, Subscription};

fn is_serde(e: &SettingsError) -> bool {
    matches!(e, SettingsError::Serde(_))
}

#[test]
fn defaults_are_documented_values() {
    let s = Settings::default();
    assert_eq!(s.backend_port, 55555);
    assert_eq!(s.external_port, 55556);
    assert!(s.skip_proxy);
    assert!(s.override_dns);
    assert_eq!(s.enhanced_mode, EnhancedMode::FakeIp);
    assert!(!s.allow_remote_access);
    assert_eq!(s.dashboard, "yacd-meta");
    assert_eq!(s.secret, "");
    assert_eq!(s.current_sub, "");
    assert!(s.subscriptions.is_empty());
}

#[test]
fn opening_a_missing_document_gives_defaults_and_a_document_to_write() {
    let (store, written) = SettingsInstance::open("/data/tomoon.json".to_string(), None).ok().unwrap();
    let s = store.get();
    assert!(s.skip_proxy);
    assert_eq!(s.enhanced_mode, EnhancedMode::FakeIp);
    assert_eq!(s.dashboard, "yacd-meta");
    assert_eq!(store.path(), "/data/tomoon.json");
    let text = written.unwrap();
    assert!(text.contains("\"dashboard\": \"yacd-meta\""));
    assert!(text.contains("\"enhanced_mode\": \"FakeIp\""));
    assert!(text.contains("\"backend_port\": 55555"));
}

#[test]
fn update_is_read_back() {
    let mut store = SettingsInstance::new("/data/tomoon.json".to_string());
    let before = store.get();
    store.update(SettingsPatch::SkipProxy(false)).ok().unwrap();
    let after = store.get();
    assert!(!after.skip_proxy);
    assert_eq!(after.override_dns, before.override_dns);
    assert_eq!(after.dashboard, before.dashboard);
    store.update(SettingsPatch::Dashboard("metacubexd".to_string())).ok().unwrap();
    assert_eq!(store.get().dashboard, "metacubexd");
    store.update(SettingsPatch::EnhancedMode(EnhancedMode::RedirHost)).ok().unwrap();
    assert_eq!(store.get().enhanced_mode, EnhancedMode::RedirHost);
}

#[test]
fn reopening_after_update_gives_the_same_settings() {
    let mut store = SettingsInstance::new("/data/tomoon.json".to_string());
    store.update(SettingsPatch::AllowRemoteAccess(true)).ok().unwrap();
    store.update(SettingsPatch::Secret("s3".to_string())).ok().unwrap();
    let text = store
        .update(SettingsPatch::AddSubscription(Subscription::new(
            "/data/subs/a.yaml".to_string(),
            "http://example.test/a.yaml".to_string(),
        )))
        .ok()
        .unwrap();
    let (reopened, written) = SettingsInstance::open("/data/tomoon.json".to_string(), Some(text)).ok().unwrap();
    assert!(written.is_none());
    let a = store.get();
    let b = reopened.get();
    assert_eq!(a.backend_port, b.backend_port);
    assert_eq!(a.external_port, b.external_port);
    assert_eq!(a.skip_proxy, b.skip_proxy);
    assert_eq!(a.override_dns, b.override_dns);
    assert_eq!(a.enhanced_mode, b.enhanced_mode);
    assert_eq!(a.current_sub, b.current_sub);
    assert_eq!(a.allow_remote_access, b.allow_remote_access);
    assert!(b.allow_remote_access);
    assert_eq!(a.dashboard, b.dashboard);
    assert_eq!(b.secret, "s3");
    assert_eq!(b.subscriptions.len(), 1);
    assert_eq!(b.subscriptions[0].path, "/data/subs/a.yaml");
    assert_eq!(b.subscriptions[0].url, "http://example.test/a.yaml");
}

#[test]
fn missing_fields_take_defaults() {
    let (store, _) =
        SettingsInstance::open("/x.json".to_string(), Some("{\"skip_proxy\": false, \"extra\": 1}".to_string()))
            .ok()
            .unwrap();
    let s = store.get();
    assert!(!s.skip_proxy);
    assert!(s.override_dns);
    assert_eq!(s.backend_port, 55555);
    assert_eq!(s.dashboard, "yacd-meta");
    assert!(s.subscriptions.is_empty());
}

#[test]
fn malformed_documents_are_rejected() {
    let e = SettingsInstance::open("/x.json".to_string(), Some("not json".to_string())).err().unwrap();
    assert!(is_serde(&e));
    let e = SettingsInstance::open("/x.json".to_string(), Some("{\"skip_proxy\": \"yes\"}".to_string())).err().unwrap();
    assert!(is_serde(&e));
    let e = SettingsInstance::open("/x.json".to_string(), Some("{\"backend_port\": 70000}".to_string())).err().unwrap();
    assert!(is_serde(&e));
    let e = SettingsInstance::open("/x.json".to_string(), Some("{\"enhanced_mode\": \"Other\"}".to_string())).err().unwrap();
    assert!(is_serde(&e));
    let e = SettingsInstance::open("/x.json".to_string(), Some("[1, 2]".to_string())).err().unwrap();
    assert!(is_serde(&e));
    let e = SettingsInstance::open("/x.json".to_string(), Some("{\"subscriptions\": [{\"path\": \"p\"}]}".to_string()))
        .err()
        .unwrap();
    assert!(is_serde(&e));
    assert!(!e.message().is_empty());
}

#[test]
fn removing_the_profile_in_use_unsets_it() {
    let mut store = SettingsInstance::new("/x.json".to_string());
    store
        .update(SettingsPatch::AddSubscription(Subscription::new("/s/a.yaml".to_string(), "u1".to_string())))
        .ok()
        .unwrap();
    store
        .update(SettingsPatch::AddSubscription(Subscription::new("/s/b.yaml".to_string(), "u2".to_string())))
        .ok()
        .unwrap();
    store.update(SettingsPatch::CurrentSub("/s/a.yaml".to_string())).ok().unwrap();
    store.update(SettingsPatch::RemoveSubscription(1)).ok().unwrap();
    assert_eq!(store.get().current_sub, "/s/a.yaml");
    assert_eq!(store.get().subscriptions.len(), 1);
    store.update(SettingsPatch::RemoveSubscription(5)).ok().unwrap();
    assert_eq!(store.get().subscriptions.len(), 1);
    store.update(SettingsPatch::RemoveSubscription(0)).ok().unwrap();
    assert_eq!(store.get().current_sub, "");
    assert!(store.get().subscriptions.is_empty());
}

#[test]
fn subscriptions_keep_insertion_order_and_duplicates() {
    let mut store = SettingsInstance::new("/x.json".to_string());
    for p in ["/s/b.yaml", "/s/a.yaml", "/s/b.yaml"] {
        store
            .update(SettingsPatch::AddSubscription(Subscription::new(p.to_string(), "same".to_string())))
            .ok()
            .unwrap();
    }
    let subs = store.get().subscriptions;
    assert_eq!(subs.len(), 3);
    assert_eq!(subs[0].path, "/s/b.yaml");
    assert_eq!(subs[1].path, "/s/a.yaml");
    assert_eq!(subs[2].path, "/s/b.yaml");
}

#[test]
fn the_subscription_list_is_compact_json_in_order() {
    let mut s = Settings::default();
    assert_eq!(s.subscription_list().ok().unwrap(), "[]");
    s.subscriptions.push(Subscription::new("/s/b.yaml".to_string(), "http://x/b".to_string()));
    s.subscriptions.push(Subscription::new("/s/a.yaml".to_string(), "file:///tmp/a.yaml".to_string()));
    assert_eq!(
        s.subscription_list().ok().unwrap(),
        "[{\"path\":\"/s/b.yaml\",\"url\":\"http://x/b\"},{\"path\":\"/s/a.yaml\",\"url\":\"file:///tmp/a.yaml\"}]"
    );
}

#[test]
fn the_written_document_reads_back_field_for_field() {
    let mut store = SettingsInstance::new("/x.json".to_string());
    store.update(SettingsPatch::OverrideDns(false)).ok().unwrap();
    let text = store.save().ok().unwrap();
    let value: serde_json::Value = serde_json::from_str(&text).unwrap();
    assert_eq!(value["override_dns"], false);
    assert_eq!(value["backend_port"], 55555);
    assert_eq!(value["enhanced_mode"], "FakeIp");
    assert_eq!(value["subscriptions"], serde_json::Value::Array(vec![]));
    let keys: Vec<&String> = value.as_object().unwrap().keys().collect();
    assert_eq!(keys.len(), 10);
}

#[test]
fn the_file_of_a_deleted_subscription() {
    let mut s = Settings::default();
    s.subscriptions.push(Subscription::new("/s/a.yaml".to_string(), "u".to_string()));
    assert_eq!(s.subscription_path(0), Some("/s/a.yaml".to_string()));
    assert_eq!(s.subscription_path(1), None);
}
