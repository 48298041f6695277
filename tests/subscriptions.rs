use tomoon::controller::ClashErrorKind;
use tomoon::settings::{SettingsInstance, SettingsPatch, Subscription};
use tomoon::subscriptions::{
    accept_download, accept_fetched, choose_file_name, classify, download_sub, sanitize_filename, subconverter_url,
    subscription_name, update_targets, Fetched, Source,
};
use tomoon::text::decimal_text;
use tomoon::utils::get_file_path;

fn response(status: i32, body: &str, disposition: Option<&str>) -> Fetched {
    Fetched::Response { status, body: Some(body.to_string()), disposition: disposition.map(|d| d.to_string()) }
}

#[test]
fn content_without_rules_is_rejected_and_with_rules_accepted() {
    let e = accept_fetched(Fetched::LocalText("foo: bar".to_string())).err().unwrap();
    assert_eq!(e.error_kind, ClashErrorKind::ContentError);
    let t = accept_fetched(Fetched::LocalText("rules: []".to_string())).ok().unwrap();
    assert_eq!(t, "rules: []");
}

#[test]
fn each_failure_has_its_kind() {
    let k = |f: Fetched| accept_fetched(f).err().unwrap().error_kind;
    assert_eq!(k(Fetched::LocalMissing("gone".to_string())), ClashErrorKind::ConfigNotFound);
    assert_eq!(k(Fetched::Unreachable("timeout".to_string())), ClashErrorKind::NetworkError);
    assert_eq!(k(response(404, "rules: []", None)), ClashErrorKind::ConfigNotFound);
    assert_eq!(k(response(500, "rules: []", None)), ClashErrorKind::NetworkError);
    assert_eq!(k(response(200, "a: [", None)), ClashErrorKind::ContentError);
    assert_eq!(
        k(Fetched::Response { status: 200, body: None, disposition: None }),
        ClashErrorKind::ContentError
    );
}

#[test]
fn a_404_registers_nothing() {
    let mut store = SettingsInstance::new("/data/tomoon.json".to_string());
    let before = store.get().subscriptions.len();
    let url = "http://example.test/a.yaml".to_string();
    let source = classify(&url, false);
    let r = download_sub(&url, &source, response(404, "not found", None), &"/data/subs".to_string(), &vec![]);
    let e = r.err().unwrap();
    assert_eq!(e.error_kind, ClashErrorKind::ConfigNotFound);
    assert_eq!(store.get().subscriptions.len(), before);
    store.update(SettingsPatch::SkipProxy(true)).ok().unwrap();
    assert_eq!(store.get().subscriptions.len(), before);
}

#[test]
fn a_taken_name_gets_the_next_suffix() {
    let stem = "a".to_string();
    assert_eq!(choose_file_name(&stem, &vec![]).ok().unwrap(), "a.yaml");
    assert_eq!(choose_file_name(&stem, &vec!["a.yaml".to_string()]).ok().unwrap(), "a_1.yaml");
    assert_eq!(
        choose_file_name(&stem, &vec!["a.yaml".to_string(), "a_1.yaml".to_string(), "b.yaml".to_string()])
            .ok()
            .unwrap(),
        "a_2.yaml"
    );
    assert_eq!(choose_file_name(&stem, &vec!["a_1.yaml".to_string()]).ok().unwrap(), "a.yaml");
}

#[test]
fn past_the_bound_no_name_is_found() {
    let stem = "a".to_string();
    let mut existing = vec!["a.yaml".to_string()];
    for i in 1..=127 {
        existing.push(format!("a_{}.yaml", i));
    }
    assert_eq!(choose_file_name(&stem, &existing).ok().unwrap(), "a_128.yaml");
    existing.push("a_128.yaml".to_string());
    let e = choose_file_name(&stem, &existing).err().unwrap();
    assert_eq!(e.error_kind, ClashErrorKind::InnerError);
}

#[test]
fn names_are_sanitized() {
    assert_eq!(sanitize_filename("my sub/name.yaml".to_string()), "my_sub_name");
    assert_eq!(sanitize_filename("plain".to_string()), "plain");
    assert_eq!(sanitize_filename(".hidden".to_string()), "");
    assert_eq!(sanitize_filename("".to_string()), "");
}

#[test]
fn the_name_comes_from_header_then_address_then_chance() {
    let remote = Source::Remote("http://example.test/path/list.yaml?token=1".to_string());
    let random = "Ab3de".to_string();
    assert_eq!(subscription_name(&remote, Some("my profile.yml".to_string()), random.clone()), "my_profile");
    assert_eq!(subscription_name(&remote, Some("".to_string()), random.clone()), "list");
    assert_eq!(subscription_name(&remote, None, random.clone()), "list");
    let bare = Source::Remote("http://example.test/".to_string());
    assert_eq!(subscription_name(&bare, None, random.clone()), "Ab3de");
    let local = Source::Local("/home/deck/profiles/work.yaml".to_string());
    assert_eq!(subscription_name(&local, None, random.clone()), "work");
}

#[test]
fn a_download_is_saved_under_a_free_name_and_registered() {
    let url = "http://example.test/a.yaml".to_string();
    let source = classify(&url, false);
    let d = accept_download(
        &url,
        &source,
        response(200, "rules: []\n", Some("attachment; filename=\"prof.yaml\"")),
        "Zz9zz".to_string(),
        &"/data/subs".to_string(),
        &vec!["prof.yaml".to_string()],
    )
    .ok()
    .unwrap();
    assert_eq!(d.name, "prof");
    assert_eq!(d.content, "rules: []\n");
    assert_eq!(d.subscription.path, "/data/subs/prof_1.yaml");
    assert_eq!(d.subscription.url, url);
    let mut store = SettingsInstance::new("/data/tomoon.json".to_string());
    store.update(SettingsPatch::AddSubscription(d.subscription)).ok().unwrap();
    assert_eq!(store.get().subscriptions.len(), 1);
    assert_eq!(store.get().subscriptions[0].path, "/data/subs/prof_1.yaml");
}

#[test]
fn a_download_without_a_name_gets_a_random_one() {
    let url = "http://example.test/".to_string();
    let source = classify(&url, false);
    let d = download_sub(&url, &source, response(200, "rules: []", None), &"/data/subs".to_string(), &vec![])
        .ok()
        .unwrap();
    assert_eq!(d.name.chars().count(), 5);
    assert!(d.name.chars().all(|c| c.is_ascii_alphanumeric()));
    assert_eq!(d.subscription.path, format!("/data/subs/{}.yaml", d.name));
}

#[test]
fn file_addresses_are_local() {
    assert_eq!(get_file_path(&"file:///tmp/a.yaml".to_string()), Some("/tmp/a.yaml".to_string()));
    assert_eq!(get_file_path(&"http://example.test/file://x".to_string()), None);
    assert!(matches!(classify(&"file:///tmp/a.yaml".to_string(), true), Source::Local(p) if p == "/tmp/a.yaml"));
    assert!(matches!(classify(&"http://x/a".to_string(), false), Source::Remote(u) if u == "http://x/a"));
}

#[test]
fn conversion_goes_through_the_local_service() {
    let u = subconverter_url("http://example.test/a?b=c");
    assert!(u.starts_with("http://127.0.0.1:25500/sub?target=clash&url=http%3A%2F%2Fexample.test%2Fa%3Fb%3Dc&"));
    assert!(u.contains("&config=http%3A%2F%2F127.0.0.1%3A55556%2FACL4SSR_Online.ini&"));
    assert!(u.ends_with("&new_name=true"));
    assert!(matches!(classify(&"http://example.test/a?b=c".to_string(), true), Source::Remote(r) if r == u));
}

#[test]
fn bulk_refresh_skips_local_files() {
    let subs = vec![
        Subscription::new("/s/a.yaml".to_string(), "http://x/a".to_string()),
        Subscription::new("/s/b.yaml".to_string(), "file:///tmp/b.yaml".to_string()),
        Subscription::new("/s/c.yaml".to_string(), "http://x/c".to_string()),
    ];
    let t = update_targets(&subs);
    assert_eq!(t.len(), 2);
    assert_eq!(t[0].path, "/s/a.yaml");
    assert_eq!(t[1].path, "/s/c.yaml");
}

#[test]
fn numerals_are_decimal() {
    assert_eq!(decimal_text(0), "0");
    assert_eq!(decimal_text(7), "7");
    assert_eq!(decimal_text(128), "128");
}

#[test]
fn a_local_profile_without_rules_is_not_saved() {
    let url = "file:///home/deck/prof.yaml".to_string();
    let source = classify(&url, false);
    let e = download_sub(&url, &source, Fetched::LocalText("foo: bar".to_string()), &"/data/subs".to_string(), &vec![])
        .err()
        .unwrap();
    assert_eq!(e.error_kind, ClashErrorKind::ContentError);
}

#[test]
fn a_legal_local_profile_is_saved_under_its_name() {
    let url = "file:///home/deck/prof.yaml".to_string();
    let source = classify(&url, false);
    let d = download_sub(&url, &source, Fetched::LocalText("rules: []".to_string()), &"/data/subs".to_string(), &vec![])
        .ok()
        .unwrap();
    assert_eq!(d.name, "prof");
    assert_eq!(d.subscription.path, "/data/subs/prof.yaml");
    assert_eq!(d.subscription.url, url);
}
