//! The process controller's state, its errors and the requests it sends to
//! the proxy core's control-plane API.

use vstd::prelude::*;
use crate::json::{emit_json, json_emit, Json};
use crate::settings::{Settings, SettingsPatch};
use crate::synth::{is_synthesis, synthesis_possible, synthesize, SynthOptions};
use crate::utils::{data_dir_of, get_decky_data_dir, join_path, joined};
use crate::yaml::{emit_yaml, find_key, parse_yaml, yaml_emit, yaml_parse, Yaml};

verus! {

/// The DNS interception strategy of the proxy core.
#[derive(Clone, Copy, PartialEq, Eq, Structural, Debug)]
pub enum EnhancedMode {
    RedirHost,
    FakeIp,
}

/// What went wrong, as callers need to tell it apart.
#[derive(Clone, Copy, PartialEq, Eq, Structural, Debug)]
pub enum ClashErrorKind {
    /// The configuration or profile to synthesize from is malformed.
    ConfigFormatError,
    /// A profile, a local source or a remote document is missing.
    ConfigNotFound,
    /// A fetched document is not a legal profile.
    ContentError,
    /// A fetch or a control-plane call failed.
    NetworkError,
    /// A disk read, write or directory creation failed.
    IoError,
    /// An unexpected internal state.
    InnerError,
    Default,
}

pub struct ClashError {
    pub message: String,
    pub error_kind: ClashErrorKind,
}

impl ClashError {
    /// An error of the default kind with an empty message.
    pub fn new() -> (r: Self)
        ensures
            r.message@ == Seq::<char>::empty(),
            r.error_kind == ClashErrorKind::Default,
    {
        ClashError { message: String::new(), error_kind: ClashErrorKind::Default }
    }

    /// An error of `kind` with `message`.
    pub fn with_kind(kind: ClashErrorKind, message: &str) -> (r: Self)
        ensures
            r.message@ == message@,
            r.error_kind == kind,
    {
        ClashError { message: message.to_owned(), error_kind: kind }
    }
}

/// Whether the proxy core is being started, failed to start, or started.
#[derive(Clone, Copy, PartialEq, Eq, Structural, Debug)]
pub enum RunningStatus {
    Loading,
    Failed,
    Success,
    Idle,
}

/// The state of a background download.
#[derive(Clone, Copy, PartialEq, Eq, Structural, Debug)]
pub enum DownloadStatus {
    Downloading,
    Failed,
    Success,
    Idle,
}

impl RunningStatus {
    pub open spec fn name(self) -> Seq<char> {
        match self {
            RunningStatus::Loading => "Loading"@,
            RunningStatus::Failed => "Failed"@,
            RunningStatus::Success => "Success"@,
            RunningStatus::Idle => "None"@,
        }
    }

    /// The status's name, as callers display it.
    pub fn to_text(&self) -> (r: String)
        ensures
            r@ == self.name(),
    {
        match self {
            RunningStatus::Loading => "Loading".to_owned(),
            RunningStatus::Failed => "Failed".to_owned(),
            RunningStatus::Success => "Success".to_owned(),
            RunningStatus::Idle => "None".to_owned(),
        }
    }
}

impl DownloadStatus {
    pub open spec fn name(self) -> Seq<char> {
        match self {
            DownloadStatus::Downloading => "Downloading"@,
            DownloadStatus::Failed => "Failed"@,
            DownloadStatus::Success => "Success"@,
            DownloadStatus::Idle => "None"@,
        }
    }

    /// The status's name, as callers display it.
    pub fn to_text(&self) -> (r: String)
        ensures
            r@ == self.name(),
    {
        match self {
            DownloadStatus::Downloading => "Downloading".to_owned(),
            DownloadStatus::Failed => "Failed".to_owned(),
            DownloadStatus::Success => "Success".to_owned(),
            DownloadStatus::Idle => "None".to_owned(),
        }
    }
}

/// The control-plane address of the proxy core.
pub const CONTROL_PLANE: &'static str = "http://127.0.0.1:9090";

/// How a control-plane request is sent.
#[derive(Clone, Copy, PartialEq, Eq, Structural, Debug)]
pub enum Method {
    Put,
    Post,
}

/// A request to the proxy core's control-plane API.
pub struct ControlRequest {
    pub method: Method,
    pub url: String,
    /// A JSON body.
    pub body: String,
}

/// What a control-plane request gave.
pub enum ControlOutcome {
    /// No answer came.
    Unreachable(String),
    /// The HTTP status of the answer.
    Status(i32),
}

/// The body asking the core to reload `path`.
pub open spec fn is_reload_body(doc: Json, path: Seq<char>) -> bool {
    &&& doc matches Json::Object(es)
    &&& es@.len() == 2
    &&& es@[0].0@ == "path"@ && (es@[0].1 matches Json::Text(p) && p@ == path)
    &&& es@[1].0@ == "payload"@ && (es@[1].1 matches Json::Text(x) && x@.len() == 0)
}

/// The body of a restart request.
pub open spec fn is_restart_body(doc: Json) -> bool {
    &&& doc matches Json::Object(es)
    &&& es@.len() == 1
    &&& es@[0].0@ == "payload"@ && (es@[0].1 matches Json::Text(x) && x@.len() == 0)
}

/// The profile to start with: the one in use, else the first subscription
/// (which then becomes the one in use), else none.
pub open spec fn profile_to_run(s: crate::settings::SettingsView) -> Option<Seq<char>> {
    if s.current_sub.len() > 0 {
        Some(s.current_sub)
    } else if s.subscriptions.len() > 0 {
        Some(s.subscriptions[0].path)
    } else {
        None
    }
}

/// Picks the profile to start with, and the patch that records it when the
/// profile in use was unset.
pub fn choose_profile(settings: &Settings) -> (r: Option<(String, Option<SettingsPatch>)>)
    ensures
        profile_to_run(settings@) is None <==> r is None,
        r matches Some((p, patch)) ==> (profile_to_run(settings@) == Some(p@)
            && (settings@.current_sub.len() > 0 <==> patch is None)
            && (patch matches Some(SettingsPatch::CurrentSub(c)) ==> c@ == p@)
            && (patch is Some ==> patch->Some_0 is CurrentSub)),
{
    if settings.current_sub.as_str().unicode_len() > 0 {
        Some((settings.current_sub.clone(), None))
    } else if settings.subscriptions.len() > 0 {
        let p = settings.subscriptions[0].path.clone();
        let c = p.clone();
        Some((p, Some(SettingsPatch::CurrentSub(c))))
    } else {
        None
    }
}

/// The owner of the proxy core's process: it knows where the binary, the
/// base profile and the running configuration are, and whether a process
/// handle is held.
pub struct Controller {
    pub path: String,
    pub config: String,
    pub data_dir: String,
    /// Whether a process handle is held.
    pub running: bool,
}

impl Controller {
    /// A stopped controller for a working directory: the binary under
    /// `bin/core`, the data directory two levels up.
    pub fn new(cwd: &String) -> (r: Option<Controller>)
        ensures
            r is Some <==> data_dir_of(cwd@) is Some,
            r matches Some(c) ==> (data_dir_of(cwd@) == Some(c.data_dir@) && c.path@ == joined(
                cwd@,
                "bin/core/clash"@,
            ) && c.config@ == joined(c.data_dir@, "config.yaml"@) && !c.running),
    {
        let data_dir = get_decky_data_dir(cwd)?;
        let config = join_path(data_dir.as_str(), "config.yaml");
        Some(Controller { path: join_path(cwd.as_str(), "bin/core/clash"), config, data_dir, running: false })
    }

    /// Points the controller at another base profile.
    pub fn update_config_path(&mut self, path: &String)
        ensures
            final(self).config@ == path@,
            final(self).path == old(self).path,
            final(self).data_dir == old(self).data_dir,
            final(self).running == old(self).running,
    {
        self.config = path.clone();
    }

    /// Where the synthesized configuration is written.
    pub fn get_running_config(&self) -> (r: String)
        ensures
            r@ == joined(self.data_dir@, "running_config.yaml"@),
    {
        join_path(self.data_dir.as_str(), "running_config.yaml")
    }

    /// Synthesizes the running configuration from the base profile's text.
    pub fn change_config(&self, base_text: &str, o: &SynthOptions) -> (r: Result<String, ClashError>)
        ensures
            !(yaml_parse(base_text@) matches Some(d) && synthesis_possible(d, *o)) ==> r is Err,
            (yaml_parse(base_text@) matches Some(d) && synthesis_possible(d, *o) && forall|out: Vec<(Yaml, Yaml)>|
                #[trigger] is_synthesis(d->Table_0@, out@, *o) ==> yaml_emit(Yaml::Table(out)) is Some) ==> r is Ok,
            r matches Ok(t) ==> (yaml_parse(base_text@) matches Some(Yaml::Table(base)) && exists|out: Vec<(Yaml, Yaml)>|
                is_synthesis(base@, out@, *o) && #[trigger] yaml_emit(Yaml::Table(out)) == Some(t@)),
            r matches Err(e) ==> e.error_kind == ClashErrorKind::ConfigFormatError,
    {
        let doc = match parse_yaml(base_text) {
            Ok(d) => d,
            Err(m) => {
                return Err(ClashError { message: m, error_kind: ClashErrorKind::ConfigFormatError });
            },
        };
        let out = synthesize(doc, o)?;
        match emit_yaml(&out) {
            Ok(t) => Ok(t),
            Err(m) => Err(ClashError { message: m, error_kind: ClashErrorKind::ConfigFormatError }),
        }
    }

    /// Starts from `config_path`: records it and synthesizes the running
    /// configuration to write before the process is spawned. The controller
    /// stays as it was but for the profile path.
    pub fn run(&mut self, config_path: &String, base_text: &str, o: &SynthOptions) -> (r: Result<String, ClashError>)
        ensures
            final(self).config@ == config_path@,
            final(self).running == old(self).running,
            final(self).data_dir == old(self).data_dir,
            !(yaml_parse(base_text@) matches Some(d) && synthesis_possible(d, *o)) ==> r is Err,
            (yaml_parse(base_text@) matches Some(d) && synthesis_possible(d, *o) && forall|out: Vec<(Yaml, Yaml)>|
                #[trigger] is_synthesis(d->Table_0@, out@, *o) ==> yaml_emit(Yaml::Table(out)) is Some) ==> r is Ok,
            r matches Ok(t) ==> (yaml_parse(base_text@) matches Some(Yaml::Table(base)) && exists|out: Vec<(Yaml, Yaml)>|
                is_synthesis(base@, out@, *o) && #[trigger] yaml_emit(Yaml::Table(out)) == Some(t@)),
            r matches Err(e) ==> e.error_kind == ClashErrorKind::ConfigFormatError,
    {
        self.update_config_path(config_path);
        self.change_config(base_text, o)
    }

    /// Records that the process was spawned.
    pub fn started(&mut self)
        ensures
            final(self).running,
            final(self).config == old(self).config,
            final(self).data_dir == old(self).data_dir,
    {
        self.running = true;
    }

    /// Gives up the process handle; it is an error when none is held.
    pub fn stop(&mut self) -> (r: Result<(), ClashError>)
        ensures
            old(self).running ==> r is Ok && !final(self).running,
            !old(self).running ==> (r matches Err(e) && e.error_kind == ClashErrorKind::InnerError
                && !final(self).running),
            final(self).config == old(self).config,
            final(self).data_dir == old(self).data_dir,
    {
        if self.running {
            self.running = false;
            Ok(())
        } else {
            Err(ClashError::with_kind(ClashErrorKind::InnerError, "the proxy core is not running"))
        }
    }

    /// The request that makes the running core reload its configuration.
    pub fn reload_request(&self) -> (r: Result<ControlRequest, ClashError>)
        ensures
            r is Ok,
            r matches Ok(q) ==> (q.method == Method::Put && q.url@ == CONTROL_PLANE@ + "/configs?reload=true"@
                && exists|doc: Json| #[trigger] is_reload_body(doc, joined(self.data_dir@, "running_config.yaml"@))
                && json_emit(doc) == Some(q.body@)),
            r matches Err(e) ==> e.error_kind == ClashErrorKind::InnerError,
    {
        let mut es: Vec<(String, Json)> = Vec::new();
        es.push(("path".to_owned(), Json::Text(self.get_running_config())));
        es.push(("payload".to_owned(), Json::Text(String::new())));
        let doc = Json::Object(es);
        assert(is_reload_body(doc, joined(self.data_dir@, "running_config.yaml"@)));
        let mut url = CONTROL_PLANE.to_owned();
        url.append("/configs?reload=true");
        match emit_json(&doc) {
            Ok(body) => Ok(ControlRequest { method: Method::Put, url, body }),
            Err(m) => Err(ClashError { message: m, error_kind: ClashErrorKind::InnerError }),
        }
    }

    /// The request that makes the core restart itself.
    pub fn restart_request(&self) -> (r: Result<ControlRequest, ClashError>)
        ensures
            r is Ok,
            r matches Ok(q) ==> (q.method == Method::Post && q.url@ == CONTROL_PLANE@ + "/restart"@
                && exists|doc: Json| #[trigger] is_restart_body(doc) && json_emit(doc) == Some(q.body@)),
            r matches Err(e) ==> e.error_kind == ClashErrorKind::InnerError,
    {
        let mut es: Vec<(String, Json)> = Vec::new();
        es.push(("payload".to_owned(), Json::Text(String::new())));
        let doc = Json::Object(es);
        assert(is_restart_body(doc));
        let mut url = CONTROL_PLANE.to_owned();
        url.append("/restart");
        match emit_json(&doc) {
            Ok(body) => Ok(ControlRequest { method: Method::Post, url, body }),
            Err(m) => Err(ClashError { message: m, error_kind: ClashErrorKind::InnerError }),
        }
    }

    /// What a control-plane call means to its caller: no answer is a network
    /// error; any answer is accepted, and says whether it was a success.
    pub fn control_outcome(outcome: ControlOutcome) -> (r: Result<bool, ClashError>)
        ensures
            outcome is Unreachable ==> (r matches Err(e) && e.error_kind == ClashErrorKind::NetworkError),
            outcome matches ControlOutcome::Status(s) ==> r == Ok::<bool, ClashError>(200 <= s && s < 300),
    {
        match outcome {
            ControlOutcome::Unreachable(m) => Err(ClashError { message: m, error_kind: ClashErrorKind::NetworkError }),
            ControlOutcome::Status(s) => Ok(200 <= s && s < 300),
        }
    }

    /// The control-plane secret written in the running configuration: the
    /// top-level `secret` if it is a string, else empty.
    pub fn get_running_secret(running_text: &str) -> (r: Result<String, ClashError>)
        ensures
            yaml_parse(running_text@) is None <==> r is Err,
            r matches Ok(s) ==> (yaml_parse(running_text@) matches Some(d) && s@ == secret_of(d)),
            r matches Err(e) ==> e.error_kind == ClashErrorKind::ConfigFormatError,
    {
        let doc = match parse_yaml(running_text) {
            Ok(d) => d,
            Err(m) => {
                return Err(ClashError { message: m, error_kind: ClashErrorKind::ConfigFormatError });
            },
        };
        match &doc {
            Yaml::Table(es) => match find_key(es, "secret") {
                Some(i) => match &es[i].1 {
                    Yaml::Text(s) => Ok(s.clone()),
                    _ => Ok(String::new()),
                },
                None => Ok(String::new()),
            },
            _ => Ok(String::new()),
        }
    }
}

/// The secret a running configuration holds: the top-level `secret` if it
/// is a string, else empty.
pub open spec fn secret_of(doc: Yaml) -> Seq<char> {
    match doc {
        Yaml::Table(es) => {
            let p = crate::yaml::position_of(es@, "secret"@);
            if p >= 0 {
                match es@[p].1 {
                    Yaml::Text(s) => s@,
                    _ => Seq::empty(),
                }
            } else {
                Seq::empty()
            }
        },
        _ => Seq::empty(),
    }
}

} // verus!
