//! Synthesis of the running configuration: a base document with the user's
//! choices upserted into it.

use vstd::prelude::*;
use crate::controller::{ClashError, ClashErrorKind, EnhancedMode};
use crate::yaml::{find_key, has_key, is_first_key, is_text, parse_yaml, position_of, yaml_parse, Yaml};

verus! {

/// The TUN block that the running configuration always carries.
pub const TUN_TEMPLATE: &'static str = "
        enable: true
        stack: system
        auto-route: true
        auto-detect-interface: true
        dns-hijack:
            - any:53
        ";

/// The DNS block for fake-ip interception.
pub const DNS_FAKE_IP_TEMPLATE: &'static str = "
        enable: true
        listen: 127.0.0.1:8853
        default-nameserver:
            - 223.5.5.5
            - 8.8.4.4
        ipv6: false
        enhanced-mode: fake-ip
        nameserver:
            - 119.29.29.29
            - 223.5.5.5
            - tls://223.5.5.5:853
            - tls://223.6.6.6:853
        fallback:
            - https://1.0.0.1/dns-query
            - https://public.dns.iij.jp/dns-query
            - tls://8.8.4.4:853
        fallback-filter:
            geoip: false
            ipcidr:
            - 240.0.0.0/4
            - 0.0.0.0/32
            - 127.0.0.1/32
        fake-ip-filter:
            - \"*.lan\"
            - \"*.localdomain\"
            - \"*.localhost\"
            - \"*.local\"
            - \"*.home.arpa\"
            - stun.*.*
            - stun.*.*.*
            - +.stun.*.*
            - +.stun.*.*.*
            - +.stun.*.*.*.*
        ";

/// The DNS block for redir-host interception.
pub const DNS_REDIR_HOST_TEMPLATE: &'static str = "
        enable: true
        ipv6: false
        listen: 127.0.0.1:8853
        default-nameserver:
            - 223.5.5.5
            - 8.8.4.4
        enhanced-mode: redir-host
        nameserver:
            - 119.29.29.29
            - 223.5.5.5
            - tls://223.5.5.5:853
            - tls://223.6.6.6:853
        fallback:
            - https://1.0.0.1/dns-query
            - https://public.dns.iij.jp/dns-query
            - tls://8.8.4.4:853
        fallback-filter:
            geoip: false
            ipcidr:
            - 240.0.0.0/4
            - 0.0.0.0/32
            - 127.0.0.1/32
        ";

/// The profile block: remember the selected proxy, not the fake-ip mapping.
pub const PROFILE_TEMPLATE: &'static str = "
        store-selected: true
        store-fake-ip: false
        ";

/// The user's choices that shape the running configuration.
pub struct SynthOptions {
    pub skip_proxy: bool,
    pub override_dns: bool,
    pub allow_remote_access: bool,
    pub enhanced_mode: EnhancedMode,
    pub dashboard: String,
    /// Absolute path of the bundled dashboard assets.
    pub webui_dir: String,
}

pub open spec fn dns_template_text(mode: EnhancedMode) -> Seq<char> {
    match mode {
        EnhancedMode::FakeIp => DNS_FAKE_IP_TEMPLATE@,
        EnhancedMode::RedirHost => DNS_REDIR_HOST_TEMPLATE@,
    }
}

/// Where the control-plane listener binds.
pub open spec fn controller_address(allow_remote_access: bool) -> Seq<char> {
    if allow_remote_access {
        "0.0.0.0:9090"@
    } else {
        "127.0.0.1:9090"@
    }
}

/// The rules put before the user's own, first rule first.
pub open spec fn rule_prefix(skip_proxy: bool) -> Seq<Seq<char>> {
    if skip_proxy {
        seq![
            "DOMAIN-SUFFIX,steamserver.net,DIRECT"@,
            "DOMAIN-SUFFIX,cm.steampowered.com,DIRECT"@,
            "DOMAIN,test.steampowered.com,DIRECT"@,
        ]
    } else {
        seq!["DOMAIN,test.steampowered.com,DIRECT"@]
    }
}

/// Whether `v` is the value that synthesis gives the key `name`.
pub open spec fn fresh_value(name: Seq<char>, v: Yaml, o: SynthOptions) -> bool {
    if name == "external-controller"@ {
        is_text(v, controller_address(o.allow_remote_access))
    } else if name == "external-ui"@ {
        is_text(v, o.webui_dir@)
    } else if name == "external-ui-name"@ {
        is_text(v, o.dashboard@)
    } else if name == "tun"@ {
        yaml_parse(TUN_TEMPLATE@) == Some(v)
    } else if name == "dns"@ {
        yaml_parse(dns_template_text(o.enhanced_mode)) == Some(v)
    } else {
        yaml_parse(PROFILE_TEMPLATE@) == Some(v)
    }
}

/// Whether an existing entry for `name` gets a fresh value: every managed
/// key does, but `dns` only when the user asks to override it.
pub open spec fn replaces(name: Seq<char>, o: SynthOptions) -> bool {
    name != "dns"@ || o.override_dns
}

/// The managed key whose first entry stands at `i`, if any.
pub open spec fn managed_at(base: Seq<(Yaml, Yaml)>, i: int) -> Option<Seq<char>> {
    if position_of(base, "external-controller"@) == i {
        Some("external-controller"@)
    } else if position_of(base, "external-ui"@) == i {
        Some("external-ui"@)
    } else if position_of(base, "external-ui-name"@) == i {
        Some("external-ui-name"@)
    } else if position_of(base, "tun"@) == i {
        Some("tun"@)
    } else if position_of(base, "dns"@) == i {
        Some("dns"@)
    } else if position_of(base, "profile"@) == i {
        Some("profile"@)
    } else {
        None
    }
}

pub open spec fn missing_one(base: Seq<(Yaml, Yaml)>, name: Seq<char>) -> Seq<Seq<char>> {
    if has_key(base, name) {
        Seq::empty()
    } else {
        seq![name]
    }
}

/// The managed keys that `base` lacks, in the order they are appended.
pub open spec fn missing_names(base: Seq<(Yaml, Yaml)>) -> Seq<Seq<char>> {
    missing_one(base, "external-controller"@) + missing_one(base, "external-ui"@) + missing_one(
        base,
        "external-ui-name"@,
    ) + missing_one(base, "tun"@) + missing_one(base, "dns"@) + missing_one(base, "profile"@)
}

/// Whether `new` is the rule list `old` with the fixed rules put in front.
pub open spec fn rules_prefixed(old: Yaml, new: Yaml, skip_proxy: bool) -> bool {
    let prefix = rule_prefix(skip_proxy);
    &&& old matches Yaml::List(items)
    &&& new matches Yaml::List(out)
    &&& out@.len() == prefix.len() + items@.len()
    &&& forall|k: int| 0 <= k < prefix.len() ==> is_text(#[trigger] out@[k], prefix[k])
    &&& out@.subrange(prefix.len() as int, out@.len() as int) == items@
}

/// Whether `e` is what synthesis makes of entry `i` of `base`.
pub open spec fn entry_synthesized(base: Seq<(Yaml, Yaml)>, i: int, e: (Yaml, Yaml), o: SynthOptions) -> bool {
    &&& e.0 == base[i].0
    &&& match managed_at(base, i) {
        Some(name) => if replaces(name, o) {
            fresh_value(name, e.1, o)
        } else {
            e.1 == base[i].1
        },
        None => if position_of(base, "rules"@) == i {
            rules_prefixed(base[i].1, e.1, o.skip_proxy)
        } else {
            e.1 == base[i].1
        },
    }
}

/// Whether `out` is the entries of `base` with the user's choices upserted:
/// existing entries keep their place and key, managed keys that were
/// missing follow in a fixed order.
pub open spec fn is_synthesis(base: Seq<(Yaml, Yaml)>, out: Seq<(Yaml, Yaml)>, o: SynthOptions) -> bool {
    let missing = missing_names(base);
    &&& out.len() == base.len() + missing.len()
    &&& forall|i: int| 0 <= i < base.len() ==> entry_synthesized(base, i, #[trigger] out[i], o)
    &&& forall|j: int|
        0 <= j < missing.len() ==> is_text((#[trigger] out[base.len() + j]).0, missing[j])
            && fresh_value(missing[j], out[base.len() + j].1, o)
}

/// Whether synthesis can proceed on `doc`: it is a mapping, its rules (if
/// any) are a list, and the templates it needs parse.
pub open spec fn synthesis_possible(doc: Yaml, o: SynthOptions) -> bool {
    &&& doc matches Yaml::Table(es)
    &&& (position_of(es@, "rules"@) >= 0 ==> es@[position_of(es@, "rules"@)].1 is List)
    &&& yaml_parse(TUN_TEMPLATE@) is Some
    &&& yaml_parse(PROFILE_TEMPLATE@) is Some
    &&& ((o.override_dns || !has_key(es@, "dns"@)) ==> yaml_parse(dns_template_text(o.enhanced_mode)) is Some)
}

/// Whether the entries of `es` past `base_len` are fresh entries for
/// `names`, in order.
pub open spec fn tail_ok(base_len: int, es: Seq<(Yaml, Yaml)>, names: Seq<Seq<char>>, o: SynthOptions) -> bool {
    &&& es.len() == base_len + names.len()
    &&& forall|j: int|
        0 <= j < names.len() ==> is_text((#[trigger] es[base_len + j]).0, names[j]) && fresh_value(
            names[j],
            es[base_len + j].1,
            o,
        )
}

proof fn reveal_managed_names()
    ensures
        "external-controller"@ != "rules"@,
        "external-controller"@ != "external-ui"@,
        "external-controller"@ != "external-ui-name"@,
        "external-controller"@ != "tun"@,
        "external-controller"@ != "dns"@,
        "external-controller"@ != "profile"@,
        "rules"@ != "external-ui"@,
        "rules"@ != "external-ui-name"@,
        "rules"@ != "tun"@,
        "rules"@ != "dns"@,
        "rules"@ != "profile"@,
        "external-ui"@ != "external-ui-name"@,
        "external-ui"@ != "tun"@,
        "external-ui"@ != "dns"@,
        "external-ui"@ != "profile"@,
        "external-ui-name"@ != "tun"@,
        "external-ui-name"@ != "dns"@,
        "external-ui-name"@ != "profile"@,
        "tun"@ != "dns"@,
        "tun"@ != "profile"@,
        "dns"@ != "profile"@,
{
    reveal_strlit("external-controller");
    reveal_strlit("rules");
    reveal_strlit("external-ui");
    reveal_strlit("external-ui-name");
    reveal_strlit("tun");
    reveal_strlit("dns");
    reveal_strlit("profile");
    assert("external-controller"@[0] != "rules"@[0]);
    assert("external-controller"@.len() != "external-ui"@.len());
    assert("external-controller"@.len() != "external-ui-name"@.len());
    assert("external-controller"@.len() != "tun"@.len());
    assert("external-controller"@.len() != "dns"@.len());
    assert("external-controller"@.len() != "profile"@.len());
    assert("rules"@.len() != "external-ui"@.len());
    assert("rules"@.len() != "external-ui-name"@.len());
    assert("rules"@.len() != "tun"@.len());
    assert("rules"@.len() != "dns"@.len());
    assert("rules"@.len() != "profile"@.len());
    assert("external-ui"@.len() != "external-ui-name"@.len());
    assert("external-ui"@.len() != "tun"@.len());
    assert("external-ui"@.len() != "dns"@.len());
    assert("external-ui"@.len() != "profile"@.len());
    assert("external-ui-name"@.len() != "tun"@.len());
    assert("external-ui-name"@.len() != "dns"@.len());
    assert("external-ui-name"@.len() != "profile"@.len());
    assert("tun"@[0] != "dns"@[0]);
    assert("tun"@.len() != "profile"@.len());
    assert("dns"@.len() != "profile"@.len());
}

fn format_error(message: &str) -> (r: ClashError)
    ensures
        r.error_kind == ClashErrorKind::ConfigFormatError,
{
    ClashError::with_kind(ClashErrorKind::ConfigFormatError, message)
}

/// Whether the option holds exactly `i`.
fn is_at(p: Option<usize>, i: usize) -> (r: bool)
    ensures
        r == (p == Some(i)),
{
    match p {
        Some(q) => q == i,
        None => false,
    }
}

/// Appends a fresh entry under the key `name`.
fn push_entry(es: &mut Vec<(Yaml, Yaml)>, name: &str, v: Yaml)
    ensures
        final(es)@.len() == old(es)@.len() + 1,
        final(es)@.drop_last() == old(es)@,
        is_text(final(es)@.last().0, name@),
        final(es)@.last().1 == v,
{
    es.push((Yaml::Text(name.to_owned()), v));
    assert(es@.drop_last() =~= old(es)@);
}

/// Puts the fixed rules in front of a rule list.
fn prefixed_rules(v: Yaml, skip_proxy: bool) -> (r: Yaml)
    requires
        v is List,
    ensures
        rules_prefixed(v, r, skip_proxy),
{
    let mut items = match v {
        Yaml::List(items) => items,
        _ => Vec::new(),
    };
    let ghost base_items = items@;
    let mut rules: Vec<Yaml> = Vec::new();
    if skip_proxy {
        rules.push(Yaml::Text("DOMAIN-SUFFIX,steamserver.net,DIRECT".to_owned()));
        rules.push(Yaml::Text("DOMAIN-SUFFIX,cm.steampowered.com,DIRECT".to_owned()));
    }
    rules.push(Yaml::Text("DOMAIN,test.steampowered.com,DIRECT".to_owned()));
    let ghost prefix_len = rules@.len();
    rules.append(&mut items);
    proof {
        let prefix = rule_prefix(skip_proxy);
        assert(prefix.len() == prefix_len);
        assert forall|k: int| 0 <= k < prefix.len() implies is_text(#[trigger] rules@[k], prefix[k]) by {}
        assert(rules@.subrange(prefix_len as int, rules@.len() as int) =~= base_items);
    }
    Yaml::List(rules)
}

/// Takes the value out of a slot that holds one.
fn take_slot(slot: &mut Option<Yaml>) -> (r: Yaml)
    requires
        old(slot).is_some(),
    ensures
        final(slot).is_none(),
        Some(r) == *old(slot),
{
    match slot.take() {
        Some(v) => v,
        None => Yaml::Null,
    }
}

/// Appends fresh entries for the managed keys that `base` lacks, in order.
fn append_missing(
    out: &mut Vec<(Yaml, Yaml)>,
    Ghost(base): Ghost<Seq<(Yaml, Yaml)>>,
    o: &SynthOptions,
    address: &str,
    absent: [bool; 6],
    tun: Option<Yaml>,
    dns: Option<Yaml>,
    profile: Option<Yaml>,
)
    requires
        absent[0] == !has_key(base, "external-controller"@),
        absent[1] == !has_key(base, "external-ui"@),
        absent[2] == !has_key(base, "external-ui-name"@),
        absent[3] == !has_key(base, "tun"@),
        absent[4] == !has_key(base, "dns"@),
        absent[5] == !has_key(base, "profile"@),
        address@ == controller_address(o.allow_remote_access),
        absent[3] ==> (tun matches Some(t) && yaml_parse(TUN_TEMPLATE@) == Some(t)),
        absent[4] ==> (dns matches Some(d) && yaml_parse(dns_template_text(o.enhanced_mode)) == Some(d)),
        absent[5] ==> (profile matches Some(t) && yaml_parse(PROFILE_TEMPLATE@) == Some(t)),
    ensures
        tail_ok(old(out)@.len() as int, final(out)@, missing_names(base), *o),
        forall|q: int| 0 <= q < old(out)@.len() ==> #[trigger] final(out)@[q] == old(out)@[q],
{
    proof {
        reveal_managed_names();
    }
    let ghost head = out@;
    let ghost mut names: Seq<Seq<char>> = Seq::empty();
    if absent[0] {
        push_entry(out, "external-controller", Yaml::Text(address.to_owned()));
        proof {
            names = names.push("external-controller"@);
        }
    }
    assert(tail_ok(head.len() as int, out@, names, *o));
    if absent[1] {
        push_entry(out, "external-ui", Yaml::Text(o.webui_dir.clone()));
        proof {
            names = names.push("external-ui"@);
        }
    }
    assert(tail_ok(head.len() as int, out@, names, *o));
    if absent[2] {
        push_entry(out, "external-ui-name", Yaml::Text(o.dashboard.clone()));
        proof {
            names = names.push("external-ui-name"@);
        }
    }
    assert(tail_ok(head.len() as int, out@, names, *o));
    if absent[3] {
        let mut slot = tun;
        push_entry(out, "tun", take_slot(&mut slot));
        proof {
            names = names.push("tun"@);
        }
    }
    assert(tail_ok(head.len() as int, out@, names, *o));
    if absent[4] {
        let mut slot = dns;
        push_entry(out, "dns", take_slot(&mut slot));
        proof {
            names = names.push("dns"@);
        }
    }
    assert(tail_ok(head.len() as int, out@, names, *o));
    if absent[5] {
        let mut slot = profile;
        push_entry(out, "profile", take_slot(&mut slot));
        proof {
            names = names.push("profile"@);
        }
    }
    assert(tail_ok(head.len() as int, out@, names, *o));
    assert(names =~= missing_names(base));
}

/// Upserts the user's choices into a base document.
#[verifier::rlimit(60)]
pub fn synthesize(doc: Yaml, o: &SynthOptions) -> (r: Result<Yaml, ClashError>)
    ensures
        r is Ok <==> synthesis_possible(doc, *o),
        r matches Ok(out) ==> (doc matches Yaml::Table(base) && out matches Yaml::Table(es)
            && is_synthesis(base@, es@, *o)),
        r matches Err(e) ==> e.error_kind == ClashErrorKind::ConfigFormatError,
{
    let mut rest = match doc {
        Yaml::Table(es) => es,
        _ => {
            return Err(format_error("the configuration is not a mapping"));
        },
    };
    let ghost base = rest@;
    let p_ctrl = find_key(&rest, "external-controller");
    let p_rules = find_key(&rest, "rules");
    let p_ui = find_key(&rest, "external-ui");
    let p_name = find_key(&rest, "external-ui-name");
    let p_tun = find_key(&rest, "tun");
    let p_dns = find_key(&rest, "dns");
    let p_profile = find_key(&rest, "profile");
    if let Some(p) = p_rules {
        if !(matches!(rest[p].1, Yaml::List(_))) {
            return Err(format_error("the rules are not a list"));
        }
    }
    let tun = match parse_yaml(TUN_TEMPLATE) {
        Ok(t) => t,
        Err(_) => {
            return Err(format_error("the TUN template is malformed"));
        },
    };
    let profile = match parse_yaml(PROFILE_TEMPLATE) {
        Ok(t) => t,
        Err(_) => {
            return Err(format_error("the profile template is malformed"));
        },
    };
    let dns_wanted = o.override_dns || p_dns.is_none();
    let mut dns_slot: Option<Yaml> = None;
    if dns_wanted {
        let text = match o.enhanced_mode {
            EnhancedMode::FakeIp => DNS_FAKE_IP_TEMPLATE,
            EnhancedMode::RedirHost => DNS_REDIR_HOST_TEMPLATE,
        };
        match parse_yaml(text) {
            Ok(t) => {
                dns_slot = Some(t);
            },
            Err(_) => {
                return Err(format_error("the DNS template is malformed"));
            },
        }
    }
    let ghost dns_v = dns_slot;
    let ghost tun_v = tun;
    let ghost profile_v = profile;
    let mut tun_slot = Some(tun);
    let mut profile_slot = Some(profile);
    let address = if o.allow_remote_access {
        "0.0.0.0:9090"
    } else {
        "127.0.0.1:9090"
    };
    proof {
        reveal_managed_names();
    }
    let n = rest.len();
    let mut out: Vec<(Yaml, Yaml)> = Vec::new();
    let mut i: usize = 0;
    while i < n
        invariant
            n == base.len(),
            i <= n,
            rest@ == base.subrange(i as int, n as int),
            out@.len() == i,
            forall|k: int| 0 <= k < i ==> entry_synthesized(base, k, #[trigger] out@[k], *o),
            p_ctrl is None ==> position_of(base, "external-controller"@) == -1,
            p_ctrl matches Some(p) ==> is_text(base[p as int].0, "external-controller"@),
            p_ctrl matches Some(p) ==> position_of(base, "external-controller"@) == p,
            p_rules is None ==> position_of(base, "rules"@) == -1,
            p_rules matches Some(p) ==> is_text(base[p as int].0, "rules"@),
            p_rules matches Some(p) ==> position_of(base, "rules"@) == p && base[p as int].1 is List,
            p_ui is None ==> position_of(base, "external-ui"@) == -1,
            p_ui matches Some(p) ==> is_text(base[p as int].0, "external-ui"@),
            p_ui matches Some(p) ==> position_of(base, "external-ui"@) == p,
            p_name is None ==> position_of(base, "external-ui-name"@) == -1,
            p_name matches Some(p) ==> is_text(base[p as int].0, "external-ui-name"@),
            p_name matches Some(p) ==> position_of(base, "external-ui-name"@) == p,
            p_tun is None ==> position_of(base, "tun"@) == -1,
            p_tun matches Some(p) ==> is_text(base[p as int].0, "tun"@),
            p_tun matches Some(p) ==> position_of(base, "tun"@) == p,
            p_dns is None ==> position_of(base, "dns"@) == -1,
            p_dns matches Some(p) ==> is_text(base[p as int].0, "dns"@),
            p_dns matches Some(p) ==> position_of(base, "dns"@) == p,
            p_profile is None ==> position_of(base, "profile"@) == -1,
            p_profile matches Some(p) ==> is_text(base[p as int].0, "profile"@),
            p_profile matches Some(p) ==> position_of(base, "profile"@) == p,
            yaml_parse(TUN_TEMPLATE@) == Some(tun_v),
            yaml_parse(PROFILE_TEMPLATE@) == Some(profile_v),
            dns_wanted == (o.override_dns || p_dns is None),
            dns_wanted ==> (dns_v matches Some(d) && yaml_parse(dns_template_text(o.enhanced_mode)) == Some(d)),
            !dns_wanted ==> dns_v is None,
            address@ == controller_address(o.allow_remote_access),
            tun_slot == (if p_tun matches Some(p) && p < i { None } else { Some(tun_v) }),
            profile_slot == (if p_profile matches Some(p) && p < i { None } else { Some(profile_v) }),
            dns_slot == (if p_dns matches Some(p) && p < i { None } else { dns_v }),
        decreases n - i,
    {
        proof {
            reveal_managed_names();
        }
        let (k, v) = rest.remove(0);
        let ghost old_out = out@;
        if is_at(p_ctrl, i) {
            out.push((k, Yaml::Text(address.to_owned())));
        } else if is_at(p_ui, i) {
            out.push((k, Yaml::Text(o.webui_dir.clone())));
        } else if is_at(p_name, i) {
            out.push((k, Yaml::Text(o.dashboard.clone())));
        } else if is_at(p_tun, i) {
            let t = take_slot(&mut tun_slot);
            out.push((k, t));
        } else if is_at(p_dns, i) {
            if o.override_dns {
                let d = take_slot(&mut dns_slot);
                out.push((k, d));
            } else {
                out.push((k, v));
            }
        } else if is_at(p_profile, i) {
            let t = take_slot(&mut profile_slot);
            out.push((k, t));
        } else if is_at(p_rules, i) {
            out.push((k, prefixed_rules(v, o.skip_proxy)));
        } else {
            out.push((k, v));
        }
        proof {
            assert(base[i as int] == (k, v));
            assert(out@[i as int].0 == base[i as int].0);
            assert(entry_synthesized(base, i as int, out@[i as int], *o));
            assert forall|q: int| 0 <= q < i implies out@[q] == old_out[q] by {}
        }
        i = i + 1;
        proof {
            assert(rest@ =~= base.subrange(i as int, n as int));
        }
    }
    let ghost head = out@;
    append_missing(
        &mut out,
        Ghost(base),
        o,
        address,
        [p_ctrl.is_none(), p_ui.is_none(), p_name.is_none(), p_tun.is_none(), p_dns.is_none(), p_profile.is_none()],
        tun_slot,
        dns_slot,
        profile_slot,
    );
    proof {
        assert forall|i: int| 0 <= i < base.len() implies entry_synthesized(base, i, #[trigger] out@[i], *o) by {
            assert(out@[i] == head[i]);
        }
    }
    Ok(Yaml::Table(out))
}

/// A key that occurs has a first occurrence.
proof fn lemma_first_key_exists(es: Seq<(Yaml, Yaml)>, name: Seq<char>)
    requires
        has_key(es, name),
    ensures
        exists|i: int| is_first_key(es, name, i),
        0 <= position_of(es, name) < es.len(),
        is_first_key(es, name, position_of(es, name)),
    decreases es.len(),
{
    let last = es.len() - 1;
    if has_key(es.drop_last(), name) {
        lemma_first_key_exists(es.drop_last(), name);
        let i = position_of(es.drop_last(), name);
        assert(es.drop_last()[i] == es[i]);
        assert forall|j: int| 0 <= j < i implies !is_text(#[trigger] es[j].0, name) by {
            assert(es.drop_last()[j] == es[j]);
        }
        assert(is_first_key(es, name, i));
    } else {
        let k = choose|k: int| 0 <= k < es.len() && is_text(#[trigger] es[k].0, name);
        if k < last {
            assert(es.drop_last()[k] == es[k]);
            assert(has_key(es.drop_last(), name));
        }
        assert(is_text(es[last].0, name));
        assert forall|j: int| 0 <= j < last implies !is_text(#[trigger] es[j].0, name) by {
            assert(es.drop_last()[j] == es[j]);
        }
        assert(is_first_key(es, name, last));
    }
}

/// Where a key's first entry stands, no other key's does.
proof fn lemma_position_taken(es: Seq<(Yaml, Yaml)>, name: Seq<char>, other: Seq<char>)
    requires
        has_key(es, name),
        name != other,
    ensures
        position_of(es, other) != position_of(es, name),
{
    lemma_first_key_exists(es, name);
    let p = position_of(es, name);
    if position_of(es, other) == p {
        assert(exists|i: int| is_first_key(es, other, i));
        assert(is_first_key(es, other, p));
    }
}

/// The fixed rules are put in front once and never pile up: from a base
/// with rules, every synthesis gives the fixed rules followed by the base's
/// own, so synthesizing twice from the same base gives the same rule list.
pub proof fn lemma_rules_prefixed_once(
    base: Seq<(Yaml, Yaml)>,
    first: Seq<(Yaml, Yaml)>,
    second: Seq<(Yaml, Yaml)>,
    o: SynthOptions,
)
    requires
        is_synthesis(base, first, o),
        is_synthesis(base, second, o),
        has_key(base, "rules"@),
    ensures
        0 <= position_of(base, "rules"@) < base.len(),
        is_text(first[position_of(base, "rules"@)].0, "rules"@),
        rules_prefixed(base[position_of(base, "rules"@)].1, first[position_of(base, "rules"@)].1, o.skip_proxy),
        rules_prefixed(base[position_of(base, "rules"@)].1, second[position_of(base, "rules"@)].1, o.skip_proxy),
{
    reveal_managed_names();
    lemma_first_key_exists(base, "rules"@);
    let p = position_of(base, "rules"@);
    lemma_position_taken(base, "rules"@, "external-controller"@);
    lemma_position_taken(base, "rules"@, "external-ui"@);
    lemma_position_taken(base, "rules"@, "external-ui-name"@);
    lemma_position_taken(base, "rules"@, "tun"@);
    lemma_position_taken(base, "rules"@, "dns"@);
    lemma_position_taken(base, "rules"@, "profile"@);
    assert(managed_at(base, p) is None);
    assert(entry_synthesized(base, p, first[p], o));
    assert(entry_synthesized(base, p, second[p], o));
}

/// With the override off, a DNS block that the base has is kept as it is.
pub proof fn lemma_dns_kept(base: Seq<(Yaml, Yaml)>, out: Seq<(Yaml, Yaml)>, o: SynthOptions)
    requires
        is_synthesis(base, out, o),
        !o.override_dns,
        has_key(base, "dns"@),
    ensures
        0 <= position_of(base, "dns"@) < base.len(),
        out[position_of(base, "dns"@)] == base[position_of(base, "dns"@)],
{
    reveal_managed_names();
    lemma_first_key_exists(base, "dns"@);
    let p = position_of(base, "dns"@);
    lemma_position_taken(base, "dns"@, "external-controller"@);
    lemma_position_taken(base, "dns"@, "external-ui"@);
    lemma_position_taken(base, "dns"@, "external-ui-name"@);
    lemma_position_taken(base, "dns"@, "tun"@);
    assert(managed_at(base, p) == Some("dns"@));
    assert(entry_synthesized(base, p, out[p], o));
}

/// When the DNS block is written, it is the template of the chosen mode,
/// under the key `dns`.
pub proof fn lemma_dns_follows_mode(base: Seq<(Yaml, Yaml)>, out: Seq<(Yaml, Yaml)>, o: SynthOptions)
    requires
        is_synthesis(base, out, o),
        o.override_dns || !has_key(base, "dns"@),
    ensures
        exists|i: int|
            0 <= i < out.len() && is_text(out[i].0, "dns"@) && yaml_parse(dns_template_text(o.enhanced_mode))
                == Some(#[trigger] out[i].1),
{
    reveal_managed_names();
    if has_key(base, "dns"@) {
        lemma_first_key_exists(base, "dns"@);
        let p = position_of(base, "dns"@);
        lemma_position_taken(base, "dns"@, "external-controller"@);
        lemma_position_taken(base, "dns"@, "external-ui"@);
        lemma_position_taken(base, "dns"@, "external-ui-name"@);
        lemma_position_taken(base, "dns"@, "tun"@);
        assert(managed_at(base, p) == Some("dns"@));
        assert(entry_synthesized(base, p, out[p], o));
        assert(is_text(out[p].0, "dns"@));
    } else {
        let before = missing_one(base, "external-controller"@) + missing_one(base, "external-ui"@) + missing_one(
            base,
            "external-ui-name"@,
        ) + missing_one(base, "tun"@);
        let missing = missing_names(base);
        let j = before.len() as int;
        assert(missing == before + seq!["dns"@] + missing_one(base, "profile"@));
        assert(missing[j] == "dns"@);
        let i = base.len() + j;
        assert(is_text(out[i].0, missing[j]) && fresh_value(missing[j], out[i].1, o));
    }
}

} // verus!
