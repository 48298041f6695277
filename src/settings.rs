//! The settings store: the user's options and known subscriptions, their
//! JSON document, and the one path by which they change.

use vstd::prelude::*;
use crate::controller::EnhancedMode;
use crate::yaml::text_eq;
use crate::json::{emit_json, emit_json_pretty, field, get_field, is_first_field, json_emit, json_emit_pretty, json_parse, parse_json, Json};

verus! {

/// A profile saved on disk and the source it was fetched from.
pub struct Subscription {
    pub path: String,
    pub url: String,
}

pub ghost struct SubscriptionView {
    pub path: Seq<char>,
    pub url: Seq<char>,
}

impl View for Subscription {
    type V = SubscriptionView;

    open spec fn view(&self) -> SubscriptionView {
        SubscriptionView { path: self.path@, url: self.url@ }
    }
}

impl Subscription {
    pub fn new(path: String, url: String) -> (r: Self)
        ensures
            r.path == path,
            r.url == url,
    {
        Subscription { path, url }
    }

    /// A copy with the same path and url.
    pub fn copy(&self) -> (r: Self)
        ensures
            r@ == self@,
    {
        Subscription { path: self.path.clone(), url: self.url.clone() }
    }
}

/// The persisted options.
pub struct Settings {
    pub backend_port: u16,
    pub external_port: u16,
    pub skip_proxy: bool,
    pub override_dns: bool,
    pub enhanced_mode: EnhancedMode,
    /// Path of the profile in use; empty when unset.
    pub current_sub: String,
    /// Known subscriptions in display order.
    pub subscriptions: Vec<Subscription>,
    pub allow_remote_access: bool,
    pub dashboard: String,
    pub secret: String,
}

pub ghost struct SettingsView {
    pub backend_port: u16,
    pub external_port: u16,
    pub skip_proxy: bool,
    pub override_dns: bool,
    pub enhanced_mode: EnhancedMode,
    pub current_sub: Seq<char>,
    pub subscriptions: Seq<SubscriptionView>,
    pub allow_remote_access: bool,
    pub dashboard: Seq<char>,
    pub secret: Seq<char>,
}

pub open spec fn subscriptions_view(subs: Seq<Subscription>) -> Seq<SubscriptionView> {
    subs.map_values(|s: Subscription| s@)
}

impl View for Settings {
    type V = SettingsView;

    open spec fn view(&self) -> SettingsView {
        SettingsView {
            backend_port: self.backend_port,
            external_port: self.external_port,
            skip_proxy: self.skip_proxy,
            override_dns: self.override_dns,
            enhanced_mode: self.enhanced_mode,
            current_sub: self.current_sub@,
            subscriptions: subscriptions_view(self.subscriptions@),
            allow_remote_access: self.allow_remote_access,
            dashboard: self.dashboard@,
            secret: self.secret@,
        }
    }
}

/// The documented defaults.
pub open spec fn default_settings() -> SettingsView {
    SettingsView {
        backend_port: 55555,
        external_port: 55556,
        skip_proxy: true,
        override_dns: true,
        enhanced_mode: EnhancedMode::FakeIp,
        current_sub: Seq::empty(),
        subscriptions: Seq::empty(),
        allow_remote_access: false,
        dashboard: "yacd-meta"@,
        secret: Seq::empty(),
    }
}

pub fn default_backend_port() -> (r: u16)
    ensures
        r == 55555,
{
    55555
}

pub fn default_external_port() -> (r: u16)
    ensures
        r == 55556,
{
    55556
}

pub fn default_skip_proxy() -> (r: bool)
    ensures
        r,
{
    true
}

pub fn default_override_dns() -> (r: bool)
    ensures
        r,
{
    true
}

pub fn default_allow_remote_access() -> (r: bool)
    ensures
        !r,
{
    false
}

pub fn default_enhanced_mode() -> (r: EnhancedMode)
    ensures
        r == EnhancedMode::FakeIp,
{
    EnhancedMode::FakeIp
}

pub fn default_dashboard() -> (r: String)
    ensures
        r@ == "yacd-meta"@,
{
    "yacd-meta".to_owned()
}

pub fn default_secret() -> (r: String)
    ensures
        r@ == Seq::<char>::empty(),
{
    String::new()
}

pub fn default_current_sub() -> (r: String)
    ensures
        r@ == Seq::<char>::empty(),
{
    String::new()
}

pub fn default_subscriptions() -> (r: Vec<Subscription>)
    ensures
        r@ == Seq::<Subscription>::empty(),
{
    Vec::new()
}

impl Default for Settings {
    fn default() -> (r: Self)
        ensures
            r@ == default_settings(),
    {
        let r = Settings {
            backend_port: default_backend_port(),
            external_port: default_external_port(),
            skip_proxy: default_skip_proxy(),
            override_dns: default_override_dns(),
            enhanced_mode: default_enhanced_mode(),
            current_sub: default_current_sub(),
            subscriptions: default_subscriptions(),
            allow_remote_access: default_allow_remote_access(),
            dashboard: default_dashboard(),
            secret: default_secret(),
        };
        assert(subscriptions_view(r.subscriptions@) =~= Seq::empty());
        r
    }
}

fn copy_subscriptions(subs: &Vec<Subscription>) -> (r: Vec<Subscription>)
    ensures
        subscriptions_view(r@) == subscriptions_view(subs@),
{
    let mut r: Vec<Subscription> = Vec::new();
    let mut i: usize = 0;
    while i < subs.len()
        invariant
            i <= subs.len(),
            r@.len() == i,
            forall|k: int| 0 <= k < i ==> (#[trigger] r@[k])@ == subs@[k]@,
        decreases subs.len() - i,
    {
        r.push(subs[i].copy());
        i = i + 1;
    }
    assert(subscriptions_view(r@) =~= subscriptions_view(subs@));
    r
}

impl Settings {
    /// A snapshot with the same contents.
    pub fn copy(&self) -> (r: Self)
        ensures
            r@ == self@,
    {
        Settings {
            backend_port: self.backend_port,
            external_port: self.external_port,
            skip_proxy: self.skip_proxy,
            override_dns: self.override_dns,
            enhanced_mode: self.enhanced_mode,
            current_sub: self.current_sub.clone(),
            subscriptions: copy_subscriptions(&self.subscriptions),
            allow_remote_access: self.allow_remote_access,
            dashboard: self.dashboard.clone(),
            secret: self.secret.clone(),
        }
    }
}

/// A field that may be missing (then `d`) and must otherwise be a boolean.
pub open spec fn bool_from(f: Option<Json>, d: bool) -> Option<bool> {
    match f {
        None => Some(d),
        Some(Json::Bool(b)) => Some(b),
        Some(_) => None,
    }
}

/// A field that may be missing (then `d`) and must otherwise be a port.
pub open spec fn port_from(f: Option<Json>, d: u16) -> Option<u16> {
    match f {
        None => Some(d),
        Some(Json::Count(u)) => if u <= 65535 {
            Some(u as u16)
        } else {
            None
        },
        Some(_) => None,
    }
}

/// A field that may be missing (then `d`) and must otherwise be a string.
pub open spec fn text_from(f: Option<Json>, d: Seq<char>) -> Option<Seq<char>> {
    match f {
        None => Some(d),
        Some(Json::Text(s)) => Some(s@),
        Some(_) => None,
    }
}

/// The name under which an enhanced mode is stored.
pub open spec fn mode_name(m: EnhancedMode) -> Seq<char> {
    match m {
        EnhancedMode::RedirHost => "RedirHost"@,
        EnhancedMode::FakeIp => "FakeIp"@,
    }
}

/// A field that may be missing (then `d`) and must otherwise name a mode.
pub open spec fn mode_from(f: Option<Json>, d: EnhancedMode) -> Option<EnhancedMode> {
    match f {
        None => Some(d),
        Some(Json::Text(s)) => if s@ == "RedirHost"@ {
            Some(EnhancedMode::RedirHost)
        } else if s@ == "FakeIp"@ {
            Some(EnhancedMode::FakeIp)
        } else {
            None
        },
        Some(_) => None,
    }
}

/// A stored subscription: an object with string fields `path` and `url`.
pub open spec fn subscription_from(j: Json) -> Option<SubscriptionView> {
    match j {
        Json::Object(es) => match (field(es@, "path"@), field(es@, "url"@)) {
            (Some(Json::Text(p)), Some(Json::Text(u))) => Some(SubscriptionView { path: p@, url: u@ }),
            _ => None,
        },
        _ => None,
    }
}

/// The `subscriptions` field: missing (then none) or a list of subscriptions.
pub open spec fn subscriptions_from(f: Option<Json>) -> Option<Seq<SubscriptionView>> {
    match f {
        None => Some(Seq::empty()),
        Some(Json::Array(items)) => if forall|i: int|
            0 <= i < items@.len() ==> (#[trigger] subscription_from(items@[i])) is Some {
            Some(items@.map_values(|j: Json| subscription_from(j)->Some_0))
        } else {
            None
        },
        Some(_) => None,
    }
}

/// The settings a JSON document holds: it must be an object; a missing field
/// takes its default, a field of the wrong type rejects the document, and
/// other fields are ignored.
pub open spec fn decoded(doc: Json) -> Option<SettingsView> {
    match doc {
        Json::Object(es) => {
            let e = es@;
            let d = default_settings();
            let backend_port = port_from(field(e, "backend_port"@), d.backend_port);
            let external_port = port_from(field(e, "external_port"@), d.external_port);
            let skip_proxy = bool_from(field(e, "skip_proxy"@), d.skip_proxy);
            let override_dns = bool_from(field(e, "override_dns"@), d.override_dns);
            let enhanced_mode = mode_from(field(e, "enhanced_mode"@), d.enhanced_mode);
            let current_sub = text_from(field(e, "current_sub"@), d.current_sub);
            let subscriptions = subscriptions_from(field(e, "subscriptions"@));
            let allow_remote_access = bool_from(field(e, "allow_remote_access"@), d.allow_remote_access);
            let dashboard = text_from(field(e, "dashboard"@), d.dashboard);
            let secret = text_from(field(e, "secret"@), d.secret);
            if backend_port is Some && external_port is Some && skip_proxy is Some && override_dns is Some
                && enhanced_mode is Some && current_sub is Some && subscriptions is Some
                && allow_remote_access is Some && dashboard is Some && secret is Some {
                Some(
                    SettingsView {
                        backend_port: backend_port->Some_0,
                        external_port: external_port->Some_0,
                        skip_proxy: skip_proxy->Some_0,
                        override_dns: override_dns->Some_0,
                        enhanced_mode: enhanced_mode->Some_0,
                        current_sub: current_sub->Some_0,
                        subscriptions: subscriptions->Some_0,
                        allow_remote_access: allow_remote_access->Some_0,
                        dashboard: dashboard->Some_0,
                        secret: secret->Some_0,
                    },
                )
            } else {
                None
            }
        },
        _ => None,
    }
}

fn read_bool(es: &Vec<(String, Json)>, name: &str, d: bool) -> (r: Result<bool, ()>)
    ensures
        r is Ok <==> bool_from(field(es@, name@), d) is Some,
        r matches Ok(b) ==> bool_from(field(es@, name@), d) == Some(b),
{
    match get_field(es, name) {
        None => Ok(d),
        Some(Json::Bool(b)) => Ok(*b),
        Some(_) => Err(()),
    }
}

fn read_port(es: &Vec<(String, Json)>, name: &str, d: u16) -> (r: Result<u16, ()>)
    ensures
        r is Ok <==> port_from(field(es@, name@), d) is Some,
        r matches Ok(p) ==> port_from(field(es@, name@), d) == Some(p),
{
    match get_field(es, name) {
        None => Ok(d),
        Some(Json::Count(u)) => if *u <= 65535 {
            Ok(*u as u16)
        } else {
            Err(())
        },
        Some(_) => Err(()),
    }
}

fn read_text(es: &Vec<(String, Json)>, name: &str, d: String) -> (r: Result<String, ()>)
    ensures
        r is Ok <==> text_from(field(es@, name@), d@) is Some,
        r matches Ok(t) ==> text_from(field(es@, name@), d@) == Some(t@),
{
    match get_field(es, name) {
        None => Ok(d),
        Some(Json::Text(s)) => Ok(s.clone()),
        Some(_) => Err(()),
    }
}

fn read_mode(es: &Vec<(String, Json)>, name: &str, d: EnhancedMode) -> (r: Result<EnhancedMode, ()>)
    ensures
        r is Ok <==> mode_from(field(es@, name@), d) is Some,
        r matches Ok(m) ==> mode_from(field(es@, name@), d) == Some(m),
{
    match get_field(es, name) {
        None => Ok(d),
        Some(Json::Text(s)) => {
            if text_eq(s, "RedirHost") {
                Ok(EnhancedMode::RedirHost)
            } else if text_eq(s, "FakeIp") {
                Ok(EnhancedMode::FakeIp)
            } else {
                Err(())
            }
        },
        Some(_) => Err(()),
    }
}

fn read_subscription(j: &Json) -> (r: Result<Subscription, ()>)
    ensures
        r is Ok <==> subscription_from(*j) is Some,
        r matches Ok(s) ==> subscription_from(*j) == Some(s@),
{
    match j {
        Json::Object(es) => match (get_field(es, "path"), get_field(es, "url")) {
            (Some(Json::Text(p)), Some(Json::Text(u))) => Ok(Subscription::new(p.clone(), u.clone())),
            _ => Err(()),
        },
        _ => Err(()),
    }
}

fn read_subscriptions(es: &Vec<(String, Json)>) -> (r: Result<Vec<Subscription>, ()>)
    ensures
        r is Ok <==> subscriptions_from(field(es@, "subscriptions"@)) is Some,
        r matches Ok(v) ==> subscriptions_from(field(es@, "subscriptions"@)) == Some(subscriptions_view(v@)),
{
    let f = get_field(es, "subscriptions");
    match f {
        None => {
            let v: Vec<Subscription> = Vec::new();
            assert(subscriptions_view(v@) =~= Seq::empty());
            Ok(v)
        },
        Some(j) => {
            let items = match j {
                Json::Array(items) => items,
                _ => {
                    return Err(());
                },
            };
            assert(field(es@, "subscriptions"@) == Some(Json::Array(*items)));
            let mut out: Vec<Subscription> = Vec::new();
            let mut i: usize = 0;
            while i < items.len()
                invariant
                    i <= items.len(),
                    out@.len() == i,
                    field(es@, "subscriptions"@) == Some(Json::Array(*items)),
                    forall|k: int| 0 <= k < i ==> subscription_from(#[trigger] items@[k]) == Some(out@[k]@),
                decreases items.len() - i,
            {
                match read_subscription(&items[i]) {
                    Ok(s) => out.push(s),
                    Err(()) => {
                        assert(subscription_from(items@[i as int]) is None);
                        assert(!(forall|k: int|
                            0 <= k < items@.len() ==> (#[trigger] subscription_from(items@[k])) is Some));
                        return Err(());
                    },
                }
                i = i + 1;
            }
            assert forall|k: int| 0 <= k < items@.len() implies (#[trigger] subscription_from(items@[k])) is Some by {
                assert(subscription_from(items@[k]) == Some(out@[k]@));
            }
            assert(subscriptions_view(out@) =~= items@.map_values(|j: Json| subscription_from(j)->Some_0));
            Ok(out)
        },
    }
}

/// Which document the store writes for a snapshot: an object with every
/// field, keys in sorted order as `serde_json` keeps them.
pub open spec fn is_encoding(doc: Json, v: SettingsView) -> bool {
    &&& doc matches Json::Object(es)
    &&& es@.len() == 10
    &&& es@[0].0@ == "allow_remote_access"@ && es@[0].1 == Json::Bool(v.allow_remote_access)
    &&& es@[1].0@ == "backend_port"@ && es@[1].1 == Json::Count(v.backend_port as u64)
    &&& es@[2].0@ == "current_sub"@ && (es@[2].1 matches Json::Text(c) && c@ == v.current_sub)
    &&& es@[3].0@ == "dashboard"@ && (es@[3].1 matches Json::Text(d) && d@ == v.dashboard)
    &&& es@[4].0@ == "enhanced_mode"@ && (es@[4].1 matches Json::Text(m) && m@ == mode_name(v.enhanced_mode))
    &&& es@[5].0@ == "external_port"@ && es@[5].1 == Json::Count(v.external_port as u64)
    &&& es@[6].0@ == "override_dns"@ && es@[6].1 == Json::Bool(v.override_dns)
    &&& es@[7].0@ == "secret"@ && (es@[7].1 matches Json::Text(s) && s@ == v.secret)
    &&& es@[8].0@ == "skip_proxy"@ && es@[8].1 == Json::Bool(v.skip_proxy)
    &&& es@[9].0@ == "subscriptions"@ && is_list_encoding(es@[9].1, v.subscriptions)
}

/// Which list the store writes for its subscriptions, in order.
pub open spec fn is_list_encoding(doc: Json, subs: Seq<SubscriptionView>) -> bool {
    &&& doc matches Json::Array(items)
    &&& items@.len() == subs.len()
    &&& forall|i: int| 0 <= i < items@.len() ==> is_subscription_encoding(#[trigger] items@[i], subs[i])
}

/// Which object the store writes for one subscription.
pub open spec fn is_subscription_encoding(doc: Json, s: SubscriptionView) -> bool {
    &&& doc matches Json::Object(es)
    &&& es@.len() == 2
    &&& es@[0].0@ == "path"@ && (es@[0].1 matches Json::Text(p) && p@ == s.path)
    &&& es@[1].0@ == "url"@ && (es@[1].1 matches Json::Text(u) && u@ == s.url)
}

fn entry(name: &str, v: Json) -> (r: (String, Json))
    ensures
        r.0@ == name@,
        r.1 == v,
{
    (name.to_owned(), v)
}

fn encode_mode(m: EnhancedMode) -> (r: Json)
    ensures
        r matches Json::Text(s) && s@ == mode_name(m),
{
    match m {
        EnhancedMode::RedirHost => Json::Text("RedirHost".to_owned()),
        EnhancedMode::FakeIp => Json::Text("FakeIp".to_owned()),
    }
}

impl Subscription {
    /// The object stored for this subscription.
    pub fn to_json(&self) -> (r: Json)
        ensures
            is_subscription_encoding(r, self@),
    {
        let mut es: Vec<(String, Json)> = Vec::new();
        es.push(entry("path", Json::Text(self.path.clone())));
        es.push(entry("url", Json::Text(self.url.clone())));
        Json::Object(es)
    }
}

fn encode_subscriptions(subs: &Vec<Subscription>) -> (r: Json)
    ensures
        is_list_encoding(r, subscriptions_view(subs@)),
{
    let mut items: Vec<Json> = Vec::new();
    let mut i: usize = 0;
    while i < subs.len()
        invariant
            i <= subs.len(),
            items@.len() == i,
            forall|k: int| 0 <= k < i ==> is_subscription_encoding(#[trigger] items@[k], subs@[k]@),
        decreases subs.len() - i,
    {
        items.push(subs[i].to_json());
        i = i + 1;
    }
    Json::Array(items)
}

impl Settings {
    /// The subscriptions as a compact JSON list, in display order.
    pub fn subscription_list(&self) -> (r: Result<String, SettingsError>)
        ensures
            r is Ok,
            r matches Ok(t) ==> exists|doc: Json|
                #[trigger] is_list_encoding(doc, self@.subscriptions) && json_emit(doc) == Some(t@),
            r matches Err(e) ==> e is Serde,
    {
        let doc = encode_subscriptions(&self.subscriptions);
        assert(is_list_encoding(doc, self@.subscriptions));
        match emit_json(&doc) {
            Ok(t) => Ok(t),
            Err(m) => Err(SettingsError::Serde(m)),
        }
    }

    /// The document stored for these settings.
    pub fn to_json(&self) -> (r: Json)
        ensures
            is_encoding(r, self@),
    {
        let mut es: Vec<(String, Json)> = Vec::new();
        es.push(entry("allow_remote_access", Json::Bool(self.allow_remote_access)));
        es.push(entry("backend_port", Json::Count(self.backend_port as u64)));
        es.push(entry("current_sub", Json::Text(self.current_sub.clone())));
        es.push(entry("dashboard", Json::Text(self.dashboard.clone())));
        es.push(entry("enhanced_mode", encode_mode(self.enhanced_mode)));
        es.push(entry("external_port", Json::Count(self.external_port as u64)));
        es.push(entry("override_dns", Json::Bool(self.override_dns)));
        es.push(entry("secret", Json::Text(self.secret.clone())));
        es.push(entry("skip_proxy", Json::Bool(self.skip_proxy)));
        es.push(entry("subscriptions", encode_subscriptions(&self.subscriptions)));
        Json::Object(es)
    }

    /// The settings a document holds, with defaults for missing fields.
    pub fn from_json(doc: &Json) -> (r: Result<Settings, ()>)
        ensures
            r is Ok <==> decoded(*doc) is Some,
            r matches Ok(s) ==> decoded(*doc) == Some(s@),
    {
        let es = match doc {
            Json::Object(es) => es,
            _ => {
                return Err(());
            },
        };
        let backend_port = read_port(es, "backend_port", default_backend_port());
        let external_port = read_port(es, "external_port", default_external_port());
        let skip_proxy = read_bool(es, "skip_proxy", default_skip_proxy());
        let override_dns = read_bool(es, "override_dns", default_override_dns());
        let enhanced_mode = read_mode(es, "enhanced_mode", default_enhanced_mode());
        let current_sub = read_text(es, "current_sub", default_current_sub());
        let subscriptions = read_subscriptions(es);
        let allow_remote_access = read_bool(es, "allow_remote_access", default_allow_remote_access());
        let dashboard = read_text(es, "dashboard", default_dashboard());
        let secret = read_text(es, "secret", default_secret());
        match (backend_port, external_port, skip_proxy, override_dns, enhanced_mode, current_sub) {
            (Ok(backend_port), Ok(external_port), Ok(skip_proxy), Ok(override_dns), Ok(enhanced_mode), Ok(current_sub)) => {
                match (subscriptions, allow_remote_access, dashboard, secret) {
                    (Ok(subscriptions), Ok(allow_remote_access), Ok(dashboard), Ok(secret)) => Ok(
                        Settings {
                            backend_port,
                            external_port,
                            skip_proxy,
                            override_dns,
                            enhanced_mode,
                            current_sub,
                            subscriptions,
                            allow_remote_access,
                            dashboard,
                            secret,
                        },
                    ),
                    _ => Err(()),
                }
            },
            _ => Err(()),
        }
    }
}

proof fn lemma_field_at(es: Seq<(String, Json)>, name: Seq<char>, i: int)
    requires
        is_first_field(es, name, i),
    ensures
        field(es, name) == Some(es[i].1),
{
    let c = choose|c: int| is_first_field(es, name, c);
    assert(c == i) by {
        if c < i {
            assert(es[c].0@ != name);
        } else if c > i {
            assert(es[i].0@ != name);
        }
    }
}

proof fn lemma_field_names_differ()
    ensures
        "allow_remote_access"@ != "backend_port"@,
        "allow_remote_access"@ != "current_sub"@,
        "backend_port"@ != "current_sub"@,
        "allow_remote_access"@ != "dashboard"@,
        "backend_port"@ != "dashboard"@,
        "current_sub"@ != "dashboard"@,
        "allow_remote_access"@ != "enhanced_mode"@,
        "backend_port"@ != "enhanced_mode"@,
        "current_sub"@ != "enhanced_mode"@,
        "dashboard"@ != "enhanced_mode"@,
        "allow_remote_access"@ != "external_port"@,
        "backend_port"@ != "external_port"@,
        "current_sub"@ != "external_port"@,
        "dashboard"@ != "external_port"@,
        "enhanced_mode"@ != "external_port"@,
        "allow_remote_access"@ != "override_dns"@,
        "backend_port"@ != "override_dns"@,
        "current_sub"@ != "override_dns"@,
        "dashboard"@ != "override_dns"@,
        "enhanced_mode"@ != "override_dns"@,
        "external_port"@ != "override_dns"@,
        "allow_remote_access"@ != "secret"@,
        "backend_port"@ != "secret"@,
        "current_sub"@ != "secret"@,
        "dashboard"@ != "secret"@,
        "enhanced_mode"@ != "secret"@,
        "external_port"@ != "secret"@,
        "override_dns"@ != "secret"@,
        "allow_remote_access"@ != "skip_proxy"@,
        "backend_port"@ != "skip_proxy"@,
        "current_sub"@ != "skip_proxy"@,
        "dashboard"@ != "skip_proxy"@,
        "enhanced_mode"@ != "skip_proxy"@,
        "external_port"@ != "skip_proxy"@,
        "override_dns"@ != "skip_proxy"@,
        "secret"@ != "skip_proxy"@,
        "allow_remote_access"@ != "subscriptions"@,
        "backend_port"@ != "subscriptions"@,
        "current_sub"@ != "subscriptions"@,
        "dashboard"@ != "subscriptions"@,
        "enhanced_mode"@ != "subscriptions"@,
        "external_port"@ != "subscriptions"@,
        "override_dns"@ != "subscriptions"@,
        "secret"@ != "subscriptions"@,
        "skip_proxy"@ != "subscriptions"@,
        "path"@ != "url"@,
{
    reveal_strlit("allow_remote_access");
    reveal_strlit("backend_port");
    reveal_strlit("current_sub");
    reveal_strlit("dashboard");
    reveal_strlit("enhanced_mode");
    reveal_strlit("external_port");
    reveal_strlit("override_dns");
    reveal_strlit("secret");
    reveal_strlit("skip_proxy");
    reveal_strlit("subscriptions");
    reveal_strlit("path");
    reveal_strlit("url");
    assert("allow_remote_access"@.len() != "backend_port"@.len());
    assert("allow_remote_access"@.len() != "current_sub"@.len());
    assert("backend_port"@.len() != "current_sub"@.len());
    assert("allow_remote_access"@.len() != "dashboard"@.len());
    assert("backend_port"@.len() != "dashboard"@.len());
    assert("current_sub"@.len() != "dashboard"@.len());
    assert("allow_remote_access"@.len() != "enhanced_mode"@.len());
    assert("backend_port"@.len() != "enhanced_mode"@.len());
    assert("current_sub"@.len() != "enhanced_mode"@.len());
    assert("dashboard"@.len() != "enhanced_mode"@.len());
    assert("allow_remote_access"@.len() != "external_port"@.len());
    assert("backend_port"@.len() != "external_port"@.len());
    assert("current_sub"@.len() != "external_port"@.len());
    assert("dashboard"@.len() != "external_port"@.len());
    assert("enhanced_mode"@[1] != "external_port"@[1]);
    assert("allow_remote_access"@.len() != "override_dns"@.len());
    assert("backend_port"@[0] != "override_dns"@[0]);
    assert("current_sub"@.len() != "override_dns"@.len());
    assert("dashboard"@.len() != "override_dns"@.len());
    assert("enhanced_mode"@.len() != "override_dns"@.len());
    assert("external_port"@.len() != "override_dns"@.len());
    assert("allow_remote_access"@.len() != "secret"@.len());
    assert("backend_port"@.len() != "secret"@.len());
    assert("current_sub"@.len() != "secret"@.len());
    assert("dashboard"@.len() != "secret"@.len());
    assert("enhanced_mode"@.len() != "secret"@.len());
    assert("external_port"@.len() != "secret"@.len());
    assert("override_dns"@.len() != "secret"@.len());
    assert("allow_remote_access"@.len() != "skip_proxy"@.len());
    assert("backend_port"@.len() != "skip_proxy"@.len());
    assert("current_sub"@.len() != "skip_proxy"@.len());
    assert("dashboard"@.len() != "skip_proxy"@.len());
    assert("enhanced_mode"@.len() != "skip_proxy"@.len());
    assert("external_port"@.len() != "skip_proxy"@.len());
    assert("override_dns"@.len() != "skip_proxy"@.len());
    assert("secret"@.len() != "skip_proxy"@.len());
    assert("allow_remote_access"@.len() != "subscriptions"@.len());
    assert("backend_port"@.len() != "subscriptions"@.len());
    assert("current_sub"@.len() != "subscriptions"@.len());
    assert("dashboard"@.len() != "subscriptions"@.len());
    assert("enhanced_mode"@[0] != "subscriptions"@[0]);
    assert("external_port"@[0] != "subscriptions"@[0]);
    assert("override_dns"@.len() != "subscriptions"@.len());
    assert("secret"@.len() != "subscriptions"@.len());
    assert("skip_proxy"@.len() != "subscriptions"@.len());
    assert("path"@.len() != "url"@.len());
}

/// Decoding the document the store writes gives back the same settings.
pub proof fn lemma_codec_round_trip(doc: Json, v: SettingsView)
    requires
        is_encoding(doc, v),
    ensures
        decoded(doc) == Some(v),
{
    reveal_strlit("backend_port");
    reveal_strlit("external_port");
    reveal_strlit("skip_proxy");
    reveal_strlit("override_dns");
    reveal_strlit("enhanced_mode");
    reveal_strlit("current_sub");
    reveal_strlit("subscriptions");
    reveal_strlit("allow_remote_access");
    reveal_strlit("dashboard");
    reveal_strlit("secret");
    reveal_strlit("path");
    reveal_strlit("url");
    reveal_strlit("RedirHost");
    reveal_strlit("FakeIp");
    let es = match doc {
        Json::Object(es) => es@,
        _ => Seq::empty(),
    };
    lemma_field_names_differ();
    lemma_field_at(es, "backend_port"@, 1);
    lemma_field_at(es, "external_port"@, 5);
    lemma_field_at(es, "skip_proxy"@, 8);
    lemma_field_at(es, "override_dns"@, 6);
    lemma_field_at(es, "enhanced_mode"@, 4);
    lemma_field_at(es, "current_sub"@, 2);
    lemma_field_at(es, "subscriptions"@, 9);
    lemma_field_at(es, "allow_remote_access"@, 0);
    lemma_field_at(es, "dashboard"@, 3);
    lemma_field_at(es, "secret"@, 7);
    let items = match es[9].1 {
        Json::Array(items) => items@,
        _ => Seq::empty(),
    };
    assert forall|i: int| 0 <= i < items.len() implies #[trigger] subscription_from(items[i]) == Some(v.subscriptions[i]) by {
        assert(is_subscription_encoding(items[i], v.subscriptions[i]));
        let ses = match items[i] {
            Json::Object(ses) => ses@,
            _ => Seq::empty(),
        };
        lemma_field_at(ses, "path"@, 0);
        lemma_field_at(ses, "url"@, 1);
    }
    assert(items.map_values(|j: Json| subscription_from(j)->Some_0) =~= v.subscriptions);
    assert(subscriptions_from(field(es, "subscriptions"@)) == Some(v.subscriptions));
    assert("FakeIp"@.len() != "RedirHost"@.len());
    assert(mode_from(field(es, "enhanced_mode"@), EnhancedMode::FakeIp) == Some(v.enhanced_mode));
    assert(port_from(field(es, "backend_port"@), 55555) == Some(v.backend_port));
    assert(port_from(field(es, "external_port"@), 55556) == Some(v.external_port));
    assert(text_from(field(es, "current_sub"@), Seq::empty()) == Some(v.current_sub));
    assert(text_from(field(es, "dashboard"@), "yacd-meta"@) == Some(v.dashboard));
    assert(text_from(field(es, "secret"@), Seq::empty()) == Some(v.secret));
    assert(bool_from(field(es, "skip_proxy"@), true) == Some(v.skip_proxy));
}

/// Why the settings document could not be read or written.
pub enum SettingsError {
    /// The document is not JSON, or not a settings document.
    Serde(String),
    /// The disk refused a read or a write.
    Io(String),
}

impl SettingsError {
    /// The message carried by the error.
    pub fn message(&self) -> (r: String)
        ensures
            self matches SettingsError::Serde(m) ==> r@ == m@,
            self matches SettingsError::Io(m) ==> r@ == m@,
    {
        match self {
            SettingsError::Serde(m) => m.clone(),
            SettingsError::Io(m) => m.clone(),
        }
    }
}

/// One change to the settings: the single way they are mutated.
pub enum SettingsPatch {
    SkipProxy(bool),
    OverrideDns(bool),
    AllowRemoteAccess(bool),
    EnhancedMode(EnhancedMode),
    Dashboard(String),
    CurrentSub(String),
    Secret(String),
    AddSubscription(Subscription),
    /// Forgets the subscription at an index; the profile in use is unset if
    /// it was that subscription's file.
    RemoveSubscription(usize),
}

/// The settings after a patch.
pub open spec fn patched(s: SettingsView, p: SettingsPatch) -> SettingsView {
    match p {
        SettingsPatch::SkipProxy(b) => SettingsView { skip_proxy: b, ..s },
        SettingsPatch::OverrideDns(b) => SettingsView { override_dns: b, ..s },
        SettingsPatch::AllowRemoteAccess(b) => SettingsView { allow_remote_access: b, ..s },
        SettingsPatch::EnhancedMode(m) => SettingsView { enhanced_mode: m, ..s },
        SettingsPatch::Dashboard(d) => SettingsView { dashboard: d@, ..s },
        SettingsPatch::CurrentSub(c) => SettingsView { current_sub: c@, ..s },
        SettingsPatch::Secret(x) => SettingsView { secret: x@, ..s },
        SettingsPatch::AddSubscription(sub) => SettingsView { subscriptions: s.subscriptions.push(sub@), ..s },
        SettingsPatch::RemoveSubscription(i) => if i < s.subscriptions.len() {
            SettingsView {
                subscriptions: s.subscriptions.remove(i as int),
                current_sub: if s.current_sub == s.subscriptions[i as int].path {
                    Seq::empty()
                } else {
                    s.current_sub
                },
                ..s
            }
        } else {
            s
        },
    }
}

impl Settings {
    /// The file of the subscription at `id`, which is deleted with it.
    pub fn subscription_path(&self, id: usize) -> (r: Option<String>)
        ensures
            id < self@.subscriptions.len() ==> (r matches Some(p) && p@ == self@.subscriptions[id as int].path),
            id >= self@.subscriptions.len() ==> r is None,
    {
        if id < self.subscriptions.len() {
            Some(self.subscriptions[id].path.clone())
        } else {
            None
        }
    }

    /// Applies one patch.
    pub fn apply(&mut self, patch: SettingsPatch)
        ensures
            final(self)@ == patched(old(self)@, patch),
    {
        match patch {
            SettingsPatch::SkipProxy(b) => self.skip_proxy = b,
            SettingsPatch::OverrideDns(b) => self.override_dns = b,
            SettingsPatch::AllowRemoteAccess(b) => self.allow_remote_access = b,
            SettingsPatch::EnhancedMode(m) => self.enhanced_mode = m,
            SettingsPatch::Dashboard(d) => self.dashboard = d,
            SettingsPatch::CurrentSub(c) => self.current_sub = c,
            SettingsPatch::Secret(x) => self.secret = x,
            SettingsPatch::AddSubscription(sub) => {
                self.subscriptions.push(sub);
                assert(subscriptions_view(self.subscriptions@) =~= subscriptions_view(
                    old(self).subscriptions@,
                ).push(sub@));
            },
            SettingsPatch::RemoveSubscription(i) => {
                if i < self.subscriptions.len() {
                    let removed = self.subscriptions.remove(i);
                    if self.current_sub == removed.path {
                        self.current_sub = String::new();
                    }
                    assert(subscriptions_view(self.subscriptions@) =~= subscriptions_view(
                        old(self).subscriptions@,
                    ).remove(i as int));
                }
            },
        }
    }
}

/// The settings document a store writes for `v`, if `serde_json` writes one.
pub open spec fn written(v: SettingsView, text: Seq<char>) -> bool {
    exists|doc: Json| #[trigger] is_encoding(doc, v) && json_emit_pretty(doc) == Some(text)
}

/// The store: the settings in memory and the path of their document.
pub struct SettingsInstance {
    settings: Settings,
    path: String,
}

impl SettingsInstance {
    /// The settings held.
    pub closed spec fn current(&self) -> SettingsView {
        self.settings@
    }

    /// Where the document is kept.
    pub closed spec fn location(&self) -> Seq<char> {
        self.path@
    }

    /// A store holding the defaults.
    pub fn new(path: String) -> (r: Self)
        ensures
            r.current() == default_settings(),
            r.location() == path@,
    {
        SettingsInstance { settings: Settings::default(), path }
    }

    /// Opens the store from what its path holds: `stored` is the document
    /// read there, `None` if the path has none. A new store comes with the
    /// document to write at once.
    pub fn open(path: String, stored: Option<String>) -> (r: Result<(Self, Option<String>), SettingsError>)
        ensures
            r matches Ok((s, _)) ==> s.location() == path@,
            stored is None ==> (r matches Ok((s, w)) ==> s.current() == default_settings()
                && (w matches Some(t) && written(default_settings(), t@))),
            stored is None ==> r is Ok,
            stored matches Some(t) ==> (r is Ok <==> (json_parse(t@) matches Some(d) && decoded(d) is Some)),
            stored matches Some(t) ==> (r matches Ok((s, w)) ==> (w is None && (json_parse(t@) matches Some(d)
                && decoded(d) == Some(s.current())))),
            r matches Err(e) ==> e is Serde,
    {
        match stored {
            None => {
                let instance = Self::new(path);
                match instance.save() {
                    Ok(text) => Ok((instance, Some(text))),
                    Err(e) => Err(e),
                }
            },
            Some(text) => {
                let doc = match parse_json(text.as_str()) {
                    Ok(d) => d,
                    Err(m) => {
                        return Err(SettingsError::Serde(m));
                    },
                };
                match Settings::from_json(&doc) {
                    Ok(settings) => Ok((SettingsInstance { settings, path }, None)),
                    Err(()) => Err(SettingsError::Serde("the document is not a settings document".to_owned())),
                }
            },
        }
    }

    /// The document to write at `location()` for the settings held.
    pub fn save(&self) -> (r: Result<String, SettingsError>)
        ensures
            r is Ok,
            r matches Ok(t) ==> written(self.current(), t@),
            r matches Err(e) ==> e is Serde,
    {
        let doc = self.settings.to_json();
        match emit_json_pretty(&doc) {
            Ok(t) => Ok(t),
            Err(m) => Err(SettingsError::Serde(m)),
        }
    }

    /// A snapshot of the settings held.
    pub fn get(&self) -> (r: Settings)
        ensures
            r@ == self.current(),
    {
        self.settings.copy()
    }

    /// Applies a patch and returns the document to write for the result.
    pub fn update(&mut self, patch: SettingsPatch) -> (r: Result<String, SettingsError>)
        ensures
            final(self).current() == patched(old(self).current(), patch),
            final(self).location() == old(self).location(),
            r is Ok,
            r matches Ok(t) ==> written(final(self).current(), t@),
            r matches Err(e) ==> e is Serde,
    {
        self.settings.apply(patch);
        self.save()
    }

    /// The path of the document.
    pub fn path(&self) -> (r: &String)
        ensures
            r@ == self.location(),
    {
        &self.path
    }
}

/// A reading after an update is the earlier reading with the patch applied:
/// the field a patch sets takes its value and every other field stays.
pub proof fn lemma_read_your_writes(before: SettingsView, p: SettingsPatch)
    ensures
        p is SkipProxy ==> patched(before, p) == (SettingsView { skip_proxy: p->SkipProxy_0, ..before }),
        p is Dashboard ==> patched(before, p) == (SettingsView { dashboard: p->Dashboard_0@, ..before }),
        p is AddSubscription ==> patched(before, p).subscriptions.len() == before.subscriptions.len() + 1
            && patched(before, p).subscriptions.last() == p->AddSubscription_0@
            && patched(before, p).subscriptions.drop_last() == before.subscriptions,
        p is RemoveSubscription && p->RemoveSubscription_0 < before.subscriptions.len()
            ==> patched(before, p).subscriptions.len() == before.subscriptions.len() - 1,
        p is RemoveSubscription && p->RemoveSubscription_0 >= before.subscriptions.len()
            ==> patched(before, p) == before,
{
    if let SettingsPatch::AddSubscription(sub) = p {
        assert(patched(before, p).subscriptions.drop_last() =~= before.subscriptions);
    }
}

/// Reopening a store from the document it wrote gives back the settings it
/// held, wherever `serde_json` reads back the document it wrote.
pub proof fn lemma_reopen_round_trip(v: SettingsView, doc: Json, text: Seq<char>)
    requires
        is_encoding(doc, v),
        json_emit_pretty(doc) == Some(text),
        json_parse(text) == Some(doc),
    ensures
        json_parse(text) matches Some(d) && decoded(d) == Some(v),
{
    lemma_codec_round_trip(doc, v);
}

} // verus!
