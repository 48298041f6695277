use tomoon::controller::{ClashErrorKind, Controller, EnhancedMode};
use tomoon::synth::{synthesize, SynthOptions};
use tomoon::yaml::{check_yaml, is_profile_document, Yaml};

fn options(skip_proxy: bool, override_dns: bool, mode: EnhancedMode) -> SynthOptions {
    SynthOptions {
        skip_proxy,
        override_dns,
        allow_remote_access: false,
        enhanced_mode: mode,
        dashboard: "yacd-meta".to_string(),
        webui_dir: "/home/deck/homebrew/plugins/tomoon/bin/core/web".to_string(),
    }
}

fn controller() -> Controller {
    Controller::new(&"/home/deck/homebrew/plugins/tomoon".to_string()).unwrap()
}

fn parse(text: &str) -> serde_yaml::Value {
    serde_yaml::from_str(text).unwrap()
}

fn rules_of(doc: &serde_yaml::Value) -> Vec<String> {
    doc.get("rules")
        .unwrap()
        .as_sequence()
        .unwrap()
        .iter()
        .map(|v| v.as_str().unwrap().to_string())
        .collect()
}

const BASE: &str = "mixed-port: 7890\nrules:\n  - MATCH,DIRECT\n";

#[test]
fn rules_get_the_fixed_prefix_once_across_repeated_syntheses() {
    let c = controller();
    let o = options(true, true, EnhancedMode::FakeIp);
    let first = parse(&c.change_config(BASE, &o).ok().unwrap());
    let second = parse(&c.change_config(BASE, &o).ok().unwrap());
    let expected = vec![
        "DOMAIN-SUFFIX,steamserver.net,DIRECT".to_string(),
        "DOMAIN-SUFFIX,cm.steampowered.com,DIRECT".to_string(),
        "DOMAIN,test.steampowered.com,DIRECT".to_string(),
        "MATCH,DIRECT".to_string(),
    ];
    assert_eq!(rules_of(&first), expected);
    assert_eq!(rules_of(&second), expected);
    assert_eq!(first, second);
}

#[test]
fn without_skip_proxy_only_the_connectivity_rule_is_added() {
    let c = controller();
    let out = parse(&c.change_config(BASE, &options(false, true, EnhancedMode::FakeIp)).ok().unwrap());
    assert_eq!(rules_of(&out), vec!["DOMAIN,test.steampowered.com,DIRECT".to_string(), "MATCH,DIRECT".to_string()]);
}

#[test]
fn managed_keys_are_upserted() {
    let c = controller();
    let base = "external-controller: 1.2.3.4:1\nrules: []\ntun:\n  enable: false\n";
    let mut o = options(false, true, EnhancedMode::FakeIp);
    o.allow_remote_access = true;
    o.dashboard = "metacubexd".to_string();
    let out = parse(&c.change_config(base, &o).ok().unwrap());
    assert_eq!(out.get("external-controller").unwrap().as_str().unwrap(), "0.0.0.0:9090");
    assert_eq!(out.get("external-ui-name").unwrap().as_str().unwrap(), "metacubexd");
    assert_eq!(
        out.get("external-ui").unwrap().as_str().unwrap(),
        "/home/deck/homebrew/plugins/tomoon/bin/core/web"
    );
    let tun = out.get("tun").unwrap();
    assert_eq!(tun.get("enable").unwrap().as_bool(), Some(true));
    assert_eq!(tun.get("stack").unwrap().as_str(), Some("system"));
    assert_eq!(tun.get("dns-hijack").unwrap().as_sequence().unwrap()[0].as_str(), Some("any:53"));
    let profile = out.get("profile").unwrap();
    assert_eq!(profile.get("store-selected").unwrap().as_bool(), Some(true));
    assert_eq!(profile.get("store-fake-ip").unwrap().as_bool(), Some(false));
    let keys: Vec<String> =
        out.as_mapping().unwrap().keys().map(|k| k.as_str().unwrap().to_string()).collect();
    assert_eq!(keys[0], "external-controller");
    assert_eq!(keys[1], "rules");
    assert_eq!(keys[2], "tun");
}

#[test]
fn local_access_binds_loopback() {
    let c = controller();
    let out = parse(&c.change_config("rules: []\n", &options(false, true, EnhancedMode::FakeIp)).ok().unwrap());
    assert_eq!(out.get("external-controller").unwrap().as_str().unwrap(), "127.0.0.1:9090");
}

#[test]
fn dns_block_follows_the_enhanced_mode() {
    let c = controller();
    let base = "rules: []\ndns:\n  enable: false\n";
    let fake = parse(&c.change_config(base, &options(false, true, EnhancedMode::FakeIp)).ok().unwrap());
    let redir = parse(&c.change_config(base, &options(false, true, EnhancedMode::RedirHost)).ok().unwrap());
    assert_eq!(fake.get("dns").unwrap().get("enhanced-mode").unwrap().as_str(), Some("fake-ip"));
    assert!(fake.get("dns").unwrap().get("fake-ip-filter").is_some());
    assert_eq!(redir.get("dns").unwrap().get("enhanced-mode").unwrap().as_str(), Some("redir-host"));
    assert!(redir.get("dns").unwrap().get("fake-ip-filter").is_none());
    assert_eq!(fake.get("dns").unwrap().get("listen").unwrap().as_str(), Some("127.0.0.1:8853"));
}

#[test]
fn missing_dns_is_added_for_the_mode_even_without_override() {
    let c = controller();
    let out = parse(&c.change_config("rules: []\n", &options(false, false, EnhancedMode::RedirHost)).ok().unwrap());
    assert_eq!(out.get("dns").unwrap().get("enhanced-mode").unwrap().as_str(), Some("redir-host"));
}

#[test]
fn existing_dns_is_kept_without_override() {
    let c = controller();
    let base = "rules: []\ndns:\n  enable: false\n  listen: 0.0.0.0:53\n  nameserver: [1.1.1.1]\n";
    let out = parse(&c.change_config(base, &options(false, false, EnhancedMode::FakeIp)).ok().unwrap());
    assert_eq!(out.get("dns").unwrap(), parse(base).get("dns").unwrap());
}

#[test]
fn malformed_bases_are_format_errors() {
    let c = controller();
    let o = options(true, true, EnhancedMode::FakeIp);
    assert_eq!(c.change_config("a: [", &o).err().unwrap().error_kind, ClashErrorKind::ConfigFormatError);
    assert_eq!(c.change_config("- a\n- b\n", &o).err().unwrap().error_kind, ClashErrorKind::ConfigFormatError);
    assert_eq!(c.change_config("rules: 3\n", &o).err().unwrap().error_kind, ClashErrorKind::ConfigFormatError);
}

#[test]
fn base_without_rules_gets_no_rules() {
    let c = controller();
    let out = parse(&c.change_config("port: 1\n", &options(true, true, EnhancedMode::FakeIp)).ok().unwrap());
    assert!(out.get("rules").is_none());
    assert_eq!(out.get("port").unwrap().as_u64(), Some(1));
}

#[test]
fn synthesize_keeps_unmanaged_entries_in_place() {
    let doc = Yaml::Table(vec![
        (Yaml::Text("mode".to_string()), Yaml::Text("rule".to_string())),
        (Yaml::Text("rules".to_string()), Yaml::List(vec![Yaml::Text("MATCH,DIRECT".to_string())])),
    ]);
    let out = synthesize(doc, &options(false, true, EnhancedMode::FakeIp)).ok().unwrap();
    match out {
        Yaml::Table(es) => {
            assert_eq!(es.len(), 2 + 6);
            assert!(matches!(&es[0].1, Yaml::Text(s) if s == "rule"));
            assert!(matches!(&es[1].1, Yaml::List(items) if items.len() == 2));
            assert!(matches!(&es[2].0, Yaml::Text(s) if s == "external-controller"));
            assert!(matches!(&es[7].0, Yaml::Text(s) if s == "profile"));
        }
        _ => panic!("not a mapping"),
    }
}

#[test]
fn profiles_need_a_rules_key() {
    assert!(!check_yaml(&"foo: bar".to_string()));
    assert!(check_yaml(&"rules: []".to_string()));
    assert!(!check_yaml(&"- rules".to_string()));
    assert!(!check_yaml(&"rules: [".to_string()));
    assert!(is_profile_document(&Yaml::Table(vec![(Yaml::Text("rules".to_string()), Yaml::Null)])));
    assert!(!is_profile_document(&Yaml::Table(vec![(Yaml::Text("rule".to_string()), Yaml::Null)])));
    assert!(!is_profile_document(&Yaml::Text("rules".to_string())));
}
