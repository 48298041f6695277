//! The subscription manager's decisions: where a profile comes from, whether
//! what came back is a legal profile, and under which file name it is kept.

use vstd::prelude::*;
use rand::Rng;
use crate::controller::{ClashError, ClashErrorKind};
use crate::settings::{Subscription, SubscriptionView};
use crate::text::{decimal, decimal_text, prefix_before, push_char, suffix_after_last, text_after_last, text_before};
use crate::utils::{file_path_of, get_file_path, join_path, joined};
use crate::yaml::{check_yaml, doc_has_key, yaml_parse, Yaml};

verus! {

/// The local conversion service that turns other formats into profiles.
pub const SUBCONVERTER_ENDPOINT: &'static str = "http://127.0.0.1:25500/sub";

/// The rule set the conversion service is asked to apply.
pub const CONVERTER_CONFIG: &'static str = "http://127.0.0.1:55556/ACL4SSR_Online.ini";

/// The largest suffix tried when a file name is taken.
pub const MAX_NAME_SUFFIX: u32 = 128;

/// The percent-encoding of a text, as the `urlencoding` crate writes it.
pub uninterp spec fn url_encoded(s: Seq<char>) -> Seq<char>;

/// Relies on `urlencoding::encode`: the encoding depends on the text alone.
#[verifier::external_body]
fn url_encode(s: &str) -> (r: String)
    ensures
        r@ == url_encoded(s@),
{
    urlencoding::encode(s).into_owned()
}

/// The `filename` parameter of a Content-Disposition header, as the
/// `content_disposition` crate reads it.
pub uninterp spec fn disposition_filename(header: Seq<char>) -> Option<Seq<char>>;

/// Relies on `content_disposition::parse_content_disposition` and
/// `ParsedContentDisposition::filename_full`: the file name depends on the
/// header alone.
#[verifier::external_body]
fn filename_from_disposition(header: &str) -> (r: Option<String>)
    ensures
        r is Some <==> disposition_filename(header@) is Some,
        r matches Some(s) ==> disposition_filename(header@) == Some(s@),
{
    content_disposition::parse_content_disposition(header).filename_full()
}

pub open spec fn is_alphanumeric(c: char) -> bool {
    ('a' <= c && c <= 'z') || ('A' <= c && c <= 'Z') || ('0' <= c && c <= '9')
}

/// Relies on `rand::distributions::Alphanumeric`, which draws ASCII letters
/// and digits: five of them.
#[verifier::external_body]
fn gen_random_name() -> (r: String)
    ensures
        r@.len() == 5,
        forall|i: int| 0 <= i < 5 ==> is_alphanumeric(#[trigger] r@[i]),
{
    rand::thread_rng().sample_iter(&rand::distributions::Alphanumeric).take(5).map(char::from).collect()
}

/// The address that asks the conversion service for `url` as a profile.
pub open spec fn conversion_url(url: Seq<char>) -> Seq<char> {
    SUBCONVERTER_ENDPOINT@ + "?target=clash&url="@ + url_encoded(url) + "&insert=false&config="@ + url_encoded(
        CONVERTER_CONFIG@,
    ) + "&emoji=true&list=false&tfo=false&scv=true&fdn=false&expand=true&sort=false&new_name=true"@
}

/// The address that asks the conversion service for `url` as a profile.
pub fn subconverter_url(url: &str) -> (r: String)
    ensures
        r@ == conversion_url(url@),
{
    let mut r = SUBCONVERTER_ENDPOINT.to_owned();
    r.append("?target=clash&url=");
    r.append(url_encode(url).as_str());
    r.append("&insert=false&config=");
    r.append(url_encode(CONVERTER_CONFIG).as_str());
    r.append("&emoji=true&list=false&tfo=false&scv=true&fdn=false&expand=true&sort=false&new_name=true");
    r
}

/// Where a profile is read from.
pub enum Source {
    /// A file on this machine.
    Local(String),
    /// An address to GET.
    Remote(String),
}

/// Classifies a source address: a `file://` address is a local file; any
/// other is fetched, through the conversion service when asked.
pub fn classify(url: &String, subconv: bool) -> (r: Source)
    ensures
        file_path_of(url@) matches Some(p) ==> (r matches Source::Local(q) && q@ == p),
        file_path_of(url@) is None ==> (r matches Source::Remote(u) && u@ == (if subconv {
            conversion_url(url@)
        } else {
            url@
        })),
{
    match get_file_path(url) {
        Some(p) => Source::Local(p),
        None => {
            if subconv {
                Source::Remote(subconverter_url(url.as_str()))
            } else {
                Source::Remote(url.clone())
            }
        },
    }
}

/// What reading a source gave.
pub enum Fetched {
    /// The local file is missing or unreadable.
    LocalMissing(String),
    /// The local file's text.
    LocalText(String),
    /// No answer came: the connection failed or timed out.
    Unreachable(String),
    /// An HTTP answer: its status, its body if the body is text, and its
    /// Content-Disposition header if it has one.
    Response { status: i32, body: Option<String>, disposition: Option<String> },
}

/// The text a fetch gave, or the kind of error it is.
pub open spec fn fetched_text(f: Fetched) -> Result<Seq<char>, ClashErrorKind> {
    match f {
        Fetched::LocalMissing(_) => Err(ClashErrorKind::ConfigNotFound),
        Fetched::LocalText(t) => Ok(t@),
        Fetched::Unreachable(_) => Err(ClashErrorKind::NetworkError),
        Fetched::Response { status, body, .. } => if status == 404 {
            Err(ClashErrorKind::ConfigNotFound)
        } else if status < 200 || status >= 300 {
            Err(ClashErrorKind::NetworkError)
        } else {
            match body {
                Some(b) => Ok(b@),
                None => Err(ClashErrorKind::ContentError),
            }
        },
    }
}

/// Whether a text is a legal profile.
pub open spec fn is_profile_text(t: Seq<char>) -> bool {
    yaml_parse(t) matches Some(d) && doc_has_key(d, "rules"@)
}

/// The text of a fetch that gave a legal profile, or the kind of error.
pub open spec fn accepted_text(f: Fetched) -> Result<Seq<char>, ClashErrorKind> {
    match fetched_text(f) {
        Ok(t) => if is_profile_text(t) {
            Ok(t)
        } else {
            Err(ClashErrorKind::ContentError)
        },
        Err(k) => Err(k),
    }
}

/// Takes the profile text out of what a fetch gave.
pub fn accept_fetched(f: Fetched) -> (r: Result<String, ClashError>)
    ensures
        accepted_text(f) matches Ok(t) ==> (r matches Ok(s) && s@ == t),
        accepted_text(f) matches Err(k) ==> (r matches Err(e) && e.error_kind == k),
{
    let text = match f {
        Fetched::LocalMissing(m) => {
            return Err(ClashError { message: m, error_kind: ClashErrorKind::ConfigNotFound });
        },
        Fetched::LocalText(t) => t,
        Fetched::Unreachable(m) => {
            return Err(ClashError { message: m, error_kind: ClashErrorKind::NetworkError });
        },
        Fetched::Response { status, body, disposition: _ } => {
            if status == 404 {
                return Err(ClashError::with_kind(ClashErrorKind::ConfigNotFound, "the profile was not found"));
            }
            if status < 200 || status >= 300 {
                return Err(ClashError::with_kind(ClashErrorKind::NetworkError, "the server refused the request"));
            }
            match body {
                Some(b) => b,
                None => {
                    return Err(ClashError::with_kind(ClashErrorKind::ContentError, "the profile is not text"));
                },
            }
        },
    };
    if !check_yaml(&text) {
        return Err(ClashError::with_kind(ClashErrorKind::ContentError, "the profile has no rules"));
    }
    Ok(text)
}

/// A file name with spaces and slashes replaced.
pub open spec fn swap_separator(c: char) -> char {
    if c == ' ' || c == '/' {
        '_'
    } else {
        c
    }
}

/// A name made safe for a file: separators replaced, extension stripped.
pub open spec fn sanitized(s: Seq<char>) -> Seq<char>
    decreases s.len(),
{
    if s.len() == 0 || s[0] == '.' {
        Seq::empty()
    } else {
        seq![swap_separator(s[0])] + sanitized(s.drop_first())
    }
}

/// Replaces spaces and slashes by `_` and drops everything from the first `.`.
pub fn sanitize_filename(name: String) -> (r: String)
    ensures
        r@ == sanitized(name@),
{
    let n = name.as_str().unicode_len();
    let mut out = String::new();
    let mut i: usize = 0;
    assert(name@.subrange(0, n as int) =~= name@);
    assert(Seq::<char>::empty() + sanitized(name@) =~= sanitized(name@));
    while i < n
        invariant
            n == name@.len(),
            i <= n,
            sanitized(name@) == out@ + sanitized(name@.subrange(i as int, n as int)),
        decreases n - i,
    {
        let ch = name.as_str().get_char(i);
        assert(name@.subrange(i as int, n as int).drop_first() =~= name@.subrange(i + 1, n as int));
        if ch == '.' {
            assert(out@ + Seq::<char>::empty() =~= out@);
            return out;
        }
        let c = if ch == ' ' || ch == '/' {
            '_'
        } else {
            ch
        };
        let ghost before = out@;
        push_char(&mut out, c);
        i = i + 1;
        assert(before + (seq![c] + sanitized(name@.subrange(i as int, n as int))) =~= out@ + sanitized(
            name@.subrange(i as int, n as int),
        ));
    }
    assert(out@ + Seq::<char>::empty() =~= out@);
    out
}

/// The last path segment of an address, without its query.
pub open spec fn url_segment(url: Seq<char>) -> Seq<char> {
    prefix_before(suffix_after_last(url, '/'), '?')
}

/// The name a source suggests before sanitizing: a local file's own name; for
/// a remote source the header's file name, else the address's last segment.
pub open spec fn suggested_name(source: Source, disposition: Option<Seq<char>>) -> Seq<char> {
    match source {
        Source::Local(path) => suffix_after_last(path@, '/'),
        Source::Remote(u) => if disposition is Some && disposition->Some_0.len() > 0 {
            disposition->Some_0
        } else {
            url_segment(u@)
        },
    }
}

/// The name a subscription is saved under, before its extension: the
/// suggested name sanitized, or the random name when that leaves nothing.
pub open spec fn subscription_stem(source: Source, disposition: Option<Seq<char>>, random: Seq<char>) -> Seq<char> {
    let s = sanitized(suggested_name(source, disposition));
    if s.len() > 0 {
        s
    } else {
        random
    }
}

/// The name a subscription is saved under, before its extension.
pub fn subscription_name(source: &Source, disposition: Option<String>, random: String) -> (r: String)
    ensures
        r@ == subscription_stem(*source, match disposition {
            Some(d) => Some(d@),
            None => None,
        }, random@),
{
    let suggested = match source {
        Source::Local(path) => text_after_last(path.as_str(), '/'),
        Source::Remote(u) => {
            let from_header = match &disposition {
                Some(d) => d.as_str().unicode_len() > 0,
                None => false,
            };
            if from_header {
                match disposition {
                    Some(d) => d,
                    None => String::new(),
                }
            } else {
                let last = text_after_last(u.as_str(), '/');
                text_before(last.as_str(), '?')
            }
        },
    };
    let s = sanitize_filename(suggested);
    if s.as_str().unicode_len() > 0 {
        s
    } else {
        random
    }
}

/// The `i`-th file name tried for `stem`: `stem.yaml`, then `stem_1.yaml`, ...
pub open spec fn candidate(stem: Seq<char>, i: nat) -> Seq<char> {
    if i == 0 {
        stem + ".yaml"@
    } else {
        stem + "_"@ + decimal(i) + ".yaml"@
    }
}

/// Whether a file name is among the existing ones.
pub open spec fn taken(existing: Seq<String>, name: Seq<char>) -> bool {
    exists|k: int| 0 <= k < existing.len() && (#[trigger] existing[k])@ == name
}

fn is_taken(existing: &Vec<String>, name: &String) -> (r: bool)
    ensures
        r == taken(existing@, name@),
{
    let mut k: usize = 0;
    while k < existing.len()
        invariant
            k <= existing.len(),
            forall|j: int| 0 <= j < k ==> (#[trigger] existing@[j])@ != name@,
        decreases existing.len() - k,
    {
        if existing[k] == *name {
            return true;
        }
        k = k + 1;
    }
    false
}

fn candidate_text(stem: &String, i: u32) -> (r: String)
    ensures
        r@ == candidate(stem@, i as nat),
{
    let mut r = stem.clone();
    if i > 0 {
        r.append("_");
        r.append(decimal_text(i).as_str());
    }
    r.append(".yaml");
    r
}

/// Picks the first file name for `stem` that no existing file has, trying
/// `stem.yaml`, then `stem_1.yaml` up to `stem_128.yaml`; past that it fails
/// rather than overwrite.
pub fn choose_file_name(stem: &String, existing: &Vec<String>) -> (r: Result<String, ClashError>)
    ensures
        r matches Ok(f) ==> exists|i: nat|
            i <= MAX_NAME_SUFFIX && f@ == candidate(stem@, i) && !taken(existing@, f@) && forall|j: nat|
                j < i ==> #[trigger] taken(existing@, candidate(stem@, j)),
        r is Err ==> forall|j: nat| j <= MAX_NAME_SUFFIX ==> #[trigger] taken(existing@, candidate(stem@, j)),
        r matches Err(e) ==> e.error_kind == ClashErrorKind::InnerError,
{
    let mut i: u32 = 0;
    while i <= MAX_NAME_SUFFIX
        invariant
            i <= MAX_NAME_SUFFIX + 1,
            forall|j: nat| j < i ==> #[trigger] taken(existing@, candidate(stem@, j)),
        decreases MAX_NAME_SUFFIX + 1 - i,
    {
        let name = candidate_text(stem, i);
        if !is_taken(existing, &name) {
            return Ok(name);
        }
        i = i + 1;
    }
    Err(ClashError::with_kind(ClashErrorKind::InnerError, "cannot find a new name"))
}

/// A profile ready to be written and registered.
pub struct Download {
    /// The name the subscription was saved under, without extension.
    pub name: String,
    /// The profile's text.
    pub content: String,
    /// The entry to register: the file's path and the source address.
    pub subscription: Subscription,
}

/// The file name that a fetch's Content-Disposition header gives, if it has
/// such a header and the header names a file.
pub open spec fn disposition_header(f: Fetched) -> Option<Seq<char>> {
    match f {
        Fetched::Response { disposition: Some(h), .. } => disposition_filename(h@),
        _ => None,
    }
}

/// What a download makes of a fetch, given the random fallback name: the
/// text must be a legal profile, and the file name must be free.
pub open spec fn download_ok(
    url: Seq<char>,
    source: Source,
    f: Fetched,
    random: Seq<char>,
    sub_dir: Seq<char>,
    existing: Seq<String>,
    d: Download,
) -> bool {
    let stem = subscription_stem(source, disposition_header(f), random);
    &&& accepted_text(f) == Ok::<Seq<char>, ClashErrorKind>(d.content@)
    &&& d.name@ == stem
    &&& d.subscription@.url == url
    &&& exists|i: nat|
        i <= MAX_NAME_SUFFIX && d.subscription@.path == joined(sub_dir, candidate(stem, i)) && !taken(
            existing,
            candidate(stem, i),
        ) && forall|j: nat| j < i ==> #[trigger] taken(existing, candidate(stem, j))
}

/// Decides what to save for a fetched profile, given the random name to
/// fall back on.
pub fn accept_download(
    url: &String,
    source: &Source,
    fetched: Fetched,
    random: String,
    sub_dir: &String,
    existing: &Vec<String>,
) -> (r: Result<Download, ClashError>)
    ensures
        accepted_text(fetched) matches Err(k) ==> (r matches Err(e) && e.error_kind == k),
        r matches Ok(d) ==> download_ok(url@, *source, fetched, random@, sub_dir@, existing@, d),
        r matches Err(e) ==> accepted_text(fetched) is Err || e.error_kind == ClashErrorKind::InnerError,
        accepted_text(fetched) is Ok && r is Err ==> forall|j: nat|
            j <= MAX_NAME_SUFFIX ==> #[trigger] taken(
                existing@,
                candidate(subscription_stem(*source, disposition_header(fetched), random@), j),
            ),
{
    let ghost f = fetched;
    let header = match &fetched {
        Fetched::Response { disposition: Some(h), .. } => filename_from_disposition(h.as_str()),
        _ => None,
    };
    let content = accept_fetched(fetched)?;
    let name = subscription_name(source, header, random);
    let file = choose_file_name(&name, existing)?;
    let path = join_path(sub_dir.as_str(), file.as_str());
    let d = Download { name, content, subscription: Subscription::new(path, url.clone()) };
    assert(download_ok(url@, *source, f, random@, sub_dir@, existing@, d));
    Ok(d)
}

/// Decides what to save for a fetched profile; the fallback name is random.
pub fn download_sub(url: &String, source: &Source, fetched: Fetched, sub_dir: &String, existing: &Vec<String>) -> (r:
    Result<Download, ClashError>)
    ensures
        accepted_text(fetched) matches Err(k) ==> (r matches Err(e) && e.error_kind == k),
        r matches Ok(d) ==> exists|random: Seq<char>|
            random.len() == 5 && (forall|i: int| 0 <= i < 5 ==> is_alphanumeric(#[trigger] random[i]))
                && #[trigger] download_ok(url@, *source, fetched, random, sub_dir@, existing@, d),
        r matches Err(e) ==> accepted_text(fetched) is Err || e.error_kind == ClashErrorKind::InnerError,
        (accepted_text(fetched) is Ok && sanitized(suggested_name(*source, disposition_header(fetched))).len() > 0
            && exists|i: nat|
            i <= MAX_NAME_SUFFIX && !#[trigger] taken(
                existing@,
                candidate(sanitized(suggested_name(*source, disposition_header(fetched))), i),
            )) ==> r is Ok,
{
    let ghost f = fetched;
    let random = gen_random_name();
    let ghost rnd = random@;
    let r = accept_download(url, source, fetched, random, sub_dir, existing);
    proof {
        let name = sanitized(suggested_name(*source, disposition_header(f)));
        if accepted_text(f) is Ok && name.len() > 0 && r is Err {
            assert(subscription_stem(*source, disposition_header(f), rnd) == name);
            assert forall|i: nat| i <= MAX_NAME_SUFFIX implies #[trigger] taken(existing@, candidate(name, i)) by {}
        }
    }
    r
}

/// A text that parses to a document without a `rules` key is refused as
/// content, and a text whose document has one is accepted as it is.
pub proof fn lemma_profile_needs_rules(t: String, doc: Yaml)
    requires
        yaml_parse(t@) == Some(doc),
    ensures
        !doc_has_key(doc, "rules"@) ==> accepted_text(Fetched::LocalText(t)) == Err::<Seq<char>, ClashErrorKind>(
            ClashErrorKind::ContentError,
        ),
        doc_has_key(doc, "rules"@) ==> accepted_text(Fetched::LocalText(t)) == Ok::<Seq<char>, ClashErrorKind>(t@),
{
}

/// The subscriptions that a bulk refresh fetches again: those with a remote
/// source.
pub open spec fn refreshable(subs: Seq<SubscriptionView>) -> Seq<SubscriptionView>
    decreases subs.len(),
{
    if subs.len() == 0 {
        subs
    } else if file_path_of(subs.last().url) is None {
        refreshable(subs.drop_last()).push(subs.last())
    } else {
        refreshable(subs.drop_last())
    }
}

/// Picks the subscriptions a bulk refresh fetches again, in order.
pub fn update_targets(subs: &Vec<Subscription>) -> (r: Vec<Subscription>)
    ensures
        crate::settings::subscriptions_view(r@) == refreshable(crate::settings::subscriptions_view(subs@)),
{
    let ghost all = crate::settings::subscriptions_view(subs@);
    assert(refreshable(all.subrange(0, 0)) =~= Seq::empty());
    let mut r: Vec<Subscription> = Vec::new();
    let mut i: usize = 0;
    while i < subs.len()
        invariant
            i <= subs.len(),
            all == crate::settings::subscriptions_view(subs@),
            crate::settings::subscriptions_view(r@) == refreshable(all.subrange(0, i as int)),
        decreases subs.len() - i,
    {
        let ghost before = crate::settings::subscriptions_view(r@);
        let ghost next = all.subrange(0, i + 1);
        assert(next.drop_last() =~= all.subrange(0, i as int));
        assert(next.last() == subs@[i as int]@);
        assert(next.len() > 0);
        assert(refreshable(next) == (if file_path_of(next.last().url) is None {
            refreshable(next.drop_last()).push(next.last())
        } else {
            refreshable(next.drop_last())
        }));
        if get_file_path(&subs[i].url).is_none() {
            r.push(subs[i].copy());
            assert(crate::settings::subscriptions_view(r@) =~= before.push(subs@[i as int]@));
        } else {
            assert(crate::settings::subscriptions_view(r@) =~= before);
        }
        i = i + 1;
    }
    assert(all.subrange(0, i as int) =~= all);
    r
}

} // verus!
