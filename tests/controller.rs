use tomoon::api::{GetConfigResponse, GetLinkResponse, GetLocalIpAddressResponse, SkipProxyParams};
use tomoon::controller::{
    choose_profile, ClashError, ClashErrorKind, ControlOutcome, Controller, DownloadStatus, EnhancedMode, Method,
    RunningStatus,
};
use tomoon::settings::{Settings, SettingsPatch, Subscription};
use tomoon::synth::SynthOptions;
use tomoon::utils::{get_decky_data_dir, get_settings_path, get_sub_dir, parent_dir};

fn cwd() -> String {
    "/home/deck/homebrew/plugins/tomoon".to_string()
}

fn options() -> SynthOptions {
    SynthOptions {
        skip_proxy: true,
        override_dns: true,
        allow_remote_access: false,
        enhanced_mode: EnhancedMode::FakeIp,
        dashboard: "yacd-meta".to_string(),
        webui_dir: "/w".to_string(),
    }
}

#[test]
fn paths_follow_the_working_directory() {
    assert_eq!(get_decky_data_dir(&cwd()).unwrap(), "/home/deck/homebrew/data/tomoon");
    assert_eq!(get_settings_path(&cwd()).unwrap(), "/home/deck/homebrew/data/tomoon/tomoon.json");
    assert_eq!(get_sub_dir(&cwd()).unwrap(), "/home/deck/homebrew/data/tomoon/subs");
    assert_eq!(get_decky_data_dir(&"/a/b".to_string()).unwrap(), "/data/tomoon");
    assert_eq!(get_decky_data_dir(&"/a".to_string()), None);
    assert_eq!(parent_dir("/"), None);
    assert_eq!(parent_dir("/a").unwrap(), "/");
    assert_eq!(parent_dir("relative"), None);
}

#[test]
fn a_new_controller_is_stopped() {
    let c = Controller::new(&cwd()).unwrap();
    assert!(!c.running);
    assert_eq!(c.path, "/home/deck/homebrew/plugins/tomoon/bin/core/clash");
    assert_eq!(c.config, "/home/deck/homebrew/data/tomoon/config.yaml");
    assert_eq!(c.get_running_config(), "/home/deck/homebrew/data/tomoon/running_config.yaml");
}

#[test]
fn run_then_stop() {
    let mut c = Controller::new(&cwd()).unwrap();
    let e = c.stop().err().unwrap();
    assert_eq!(e.error_kind, ClashErrorKind::InnerError);
    let text = c.run(&"/subs/a.yaml".to_string(), "rules: []\n", &options()).ok().unwrap();
    assert!(text.contains("DOMAIN,test.steampowered.com,DIRECT"));
    assert_eq!(c.config, "/subs/a.yaml");
    assert!(!c.running);
    c.started();
    assert!(c.running);
    assert!(c.stop().is_ok());
    assert!(!c.running);
}

#[test]
fn a_failed_synthesis_does_not_start() {
    let mut c = Controller::new(&cwd()).unwrap();
    let e = c.run(&"/subs/bad.yaml".to_string(), "- not a mapping\n", &options()).err().unwrap();
    assert_eq!(e.error_kind, ClashErrorKind::ConfigFormatError);
    assert!(!c.running);
}

#[test]
fn control_plane_requests() {
    let c = Controller::new(&cwd()).unwrap();
    let reload = c.reload_request().ok().unwrap();
    assert_eq!(reload.method, Method::Put);
    assert_eq!(reload.url, "http://127.0.0.1:9090/configs?reload=true");
    let body: serde_json::Value = serde_json::from_str(&reload.body).unwrap();
    assert_eq!(body["path"], "/home/deck/homebrew/data/tomoon/running_config.yaml");
    assert_eq!(body["payload"], "");
    let restart = c.restart_request().ok().unwrap();
    assert_eq!(restart.method, Method::Post);
    assert_eq!(restart.url, "http://127.0.0.1:9090/restart");
    assert_eq!(restart.body, "{\"payload\":\"\"}");
}

#[test]
fn control_plane_answers_are_best_effort() {
    assert_eq!(Controller::control_outcome(ControlOutcome::Status(204)).ok(), Some(true));
    assert_eq!(Controller::control_outcome(ControlOutcome::Status(500)).ok(), Some(false));
    let e = Controller::control_outcome(ControlOutcome::Unreachable("refused".to_string())).err().unwrap();
    assert_eq!(e.error_kind, ClashErrorKind::NetworkError);
}

#[test]
fn the_running_secret_is_read_back() {
    assert_eq!(Controller::get_running_secret("secret: abc\nrules: []\n").ok().unwrap(), "abc");
    assert_eq!(Controller::get_running_secret("rules: []\n").ok().unwrap(), "");
    assert_eq!(Controller::get_running_secret("secret: 12\n").ok().unwrap(), "");
    let e = Controller::get_running_secret("a: [").err().unwrap();
    assert_eq!(e.error_kind, ClashErrorKind::ConfigFormatError);
}

#[test]
fn the_profile_to_start_with() {
    let mut s = Settings::default();
    assert!(choose_profile(&s).is_none());
    s.subscriptions.push(Subscription::new("/s/first.yaml".to_string(), "u".to_string()));
    let (p, patch) = choose_profile(&s).unwrap();
    assert_eq!(p, "/s/first.yaml");
    assert!(matches!(patch, Some(SettingsPatch::CurrentSub(c)) if c == "/s/first.yaml"));
    s.current_sub = "/s/other.yaml".to_string();
    let (p, patch) = choose_profile(&s).unwrap();
    assert_eq!(p, "/s/other.yaml");
    assert!(patch.is_none());
}

#[test]
fn statuses_have_names() {
    assert_eq!(RunningStatus::Loading.to_text(), "Loading");
    assert_eq!(RunningStatus::Idle.to_text(), "None");
    assert_eq!(DownloadStatus::Downloading.to_text(), "Downloading");
    assert_eq!(DownloadStatus::Success.to_text(), "Success");
    assert_eq!(DownloadStatus::Idle.to_text(), "None");
}

#[test]
fn errors_map_to_http_statuses() {
    assert_eq!(ClashError::with_kind(ClashErrorKind::ConfigNotFound, "x").status_code(), 404);
    assert_eq!(ClashError::with_kind(ClashErrorKind::ContentError, "x").status_code(), 400);
    assert_eq!(ClashError::with_kind(ClashErrorKind::NetworkError, "x").status_code(), 500);
    assert_eq!(ClashError::new().status_code(), 500);
    assert_eq!(ClashError::new().message, "");
    let r = ClashError::with_kind(ClashErrorKind::IoError, "disk full").error_response();
    assert!(!r.success);
    assert_eq!(r.data.unwrap(), "disk full");
}

#[test]
fn the_shown_secret_falls_back_to_the_stored_one() {
    let mut s = Settings::default();
    s.secret = "stored".to_string();
    assert_eq!(GetConfigResponse::from_settings(&s, Some("live".to_string())).secret, "live");
    let r = GetConfigResponse::from_settings(&s, None);
    assert_eq!(r.secret, "stored");
    assert_eq!(r.status_code, 200);
    assert_eq!(r.dashboard, "yacd-meta");
}

#[test]
fn boundary_helpers() {
    assert!(matches!(SkipProxyParams { skip_proxy: false }.patch(), SettingsPatch::SkipProxy(false)));
    assert_eq!(GetLinkResponse::from_lookup(None).status_code, 404);
    assert_eq!(GetLinkResponse::from_lookup(Some("l".to_string())).status_code, 200);
    assert_eq!(GetLocalIpAddressResponse::from_address(Some("10.0.0.2".to_string())).status_code, 200);
    assert_eq!(GetLocalIpAddressResponse::from_address(None).status_code, 404);
}
