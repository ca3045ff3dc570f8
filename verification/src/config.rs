//! The configuration that the environment gives, and the navigation policy
//! that it sets.
use crate::error::{ControlError, ErrorOf, ErrorView};
use crate::path::{join_path, joined_path, lossy, path_text};
use crate::text::{
    chars_of, ends_with, has_suffix, is_blank, is_white, join, joined, lower_text, lowered,
    optional_text, split, split_at_mark, string_of, strip_dots, texts, trim, trim_end, trim_start,
    trimmed, without_leading_dots,
};
use vstd::prelude::*;

verus! {

broadcast use vstd::string::group_string_axioms;

/// What the controller reads from its environment: variables that hold paths
/// as bytes, others as text, each `None` where it is not set (or, of the
/// texts, not Unicode).
#[derive(Debug)]
pub struct Environment {
    /// `HOME`
    pub home: Option<Vec<u8>>,
    /// `XDG_PICTURES_DIR`
    pub pictures_dir: Option<Vec<u8>>,
    /// `RUST_BROWSER_SESSION_ID`
    pub session_id: Option<String>,
    /// `CODEX_THREAD_ID`
    pub thread_id: Option<String>,
    /// `RUST_BROWSER_SOCKET_DIR`
    pub socket_dir: Option<Vec<u8>>,
    /// `RUST_BROWSER_SESSIONS_ROOT`
    pub sessions_root: Option<Vec<u8>>,
    /// `RUST_BROWSER_DOWNLOAD_DIR`
    pub download_dir: Option<Vec<u8>>,
    /// `RUST_BROWSER_ALLOWED_HOSTS`
    pub allowed_hosts: Option<String>,
}

/// Where the browser of which task is found, where files go, and which hosts
/// may be visited. Paths are given by their bytes.
#[derive(Debug)]
pub struct BrowserConfig {
    pub socket_dir: Vec<u8>,
    pub sessions_root: Vec<u8>,
    pub session_id: String,
    pub download_dir: Vec<u8>,
    pub screenshot_dir: Vec<u8>,
    pub allowed_hosts: Vec<String>,
}

/// What a configuration says.
pub struct ConfigView {
    pub socket_dir: Seq<u8>,
    pub sessions_root: Seq<u8>,
    pub session_id: Seq<char>,
    pub download_dir: Seq<u8>,
    pub screenshot_dir: Seq<u8>,
    pub allowed_hosts: Seq<Seq<char>>,
}

impl View for BrowserConfig {
    type V = ConfigView;

    open spec fn view(&self) -> ConfigView {
        ConfigView {
            socket_dir: self.socket_dir@,
            sessions_root: self.sessions_root@,
            session_id: self.session_id@,
            download_dir: self.download_dir@,
            screenshot_dir: self.screenshot_dir@,
            allowed_hosts: texts(self.allowed_hosts@),
        }
    }
}

/// The same texts once more.
fn copied(list: &Vec<String>) -> (copy: Vec<String>)
    ensures
        texts(copy@) == texts(list@),
{
    let mut copy: Vec<String> = Vec::new();
    let mut i: usize = 0;
    while i < list.len()
        invariant
            i <= list@.len(),
            copy@.len() == i,
            forall|k: int| 0 <= k < i ==> (#[trigger] copy@[k])@ == list@[k]@,
        decreases list@.len() - i,
    {
        copy.push(list[i].clone());
        i = i + 1;
    }
    assert(texts(copy@) =~= texts(list@));
    copy
}

impl Clone for BrowserConfig {
    fn clone(&self) -> (copy: BrowserConfig)
        ensures
            copy@ == self@,
    {
        let copy = BrowserConfig {
            socket_dir: self.socket_dir.clone(),
            sessions_root: self.sessions_root.clone(),
            session_id: self.session_id.clone(),
            download_dir: self.download_dir.clone(),
            screenshot_dir: self.screenshot_dir.clone(),
            allowed_hosts: copied(&self.allowed_hosts),
        };
        assert(copy@.socket_dir =~= self@.socket_dir);
        assert(copy@.sessions_root =~= self@.sessions_root);
        assert(copy@.download_dir =~= self@.download_dir);
        assert(copy@.screenshot_dir =~= self@.screenshot_dir);
        copy
    }
}

/// The path that a variable holds, or else `tail` under `base`.
pub open spec fn path_or(variable: Option<Vec<u8>>, base: Seq<u8>, tail: Seq<char>) -> Seq<u8> {
    match variable {
        Some(path) => path@,
        None => joined_path(base, vstd::utf8::encode_utf8(tail)),
    }
}

/// A host as it is compared: without white space around it, without leading
/// dots, in lower case.
pub open spec fn normal_host(raw: Seq<char>) -> Seq<char> {
    lower_text(strip_dots(trim(raw)))
}

/// The hosts of a list, without those that are empty.
pub open spec fn listed_hosts(parts: Seq<Seq<char>>) -> Seq<Seq<char>>
    decreases parts.len(),
{
    if parts.len() == 0 {
        Seq::empty()
    } else {
        let before = listed_hosts(parts.drop_last());
        let host = normal_host(parts.last());
        if host.len() == 0 {
            before
        } else {
            before.push(host)
        }
    }
}

/// The hosts that a comma-separated list allows; without a list, all.
pub open spec fn hosts_of(list: Option<Seq<char>>) -> Seq<Seq<char>> {
    listed_hosts(
        split(
            match list {
                Some(list) => list,
                None => "*"@,
            },
            ',',
        ),
    )
}

/// The session that the environment names.
pub open spec fn session_of(env: Environment) -> Option<Seq<char>> {
    match env.session_id {
        Some(id) => Some(id@),
        None => optional_text(env.thread_id),
    }
}

/// The configuration that an environment gives.
pub open spec fn configured(env: Environment) -> Result<ConfigView, ErrorView> {
    match env.home {
        None => Err(ErrorOf::NoHome),
        Some(home) => match session_of(env) {
            None => Err(ErrorOf::NoSession),
            Some(session_id) => {
                let allowed_hosts = hosts_of(optional_text(env.allowed_hosts));
                if allowed_hosts.len() == 0 {
                    Err(ErrorOf::NoHosts)
                } else {
                    Ok(
                        ConfigView {
                            socket_dir: match env.socket_dir {
                                Some(path) => path@,
                                None => vstd::utf8::encode_utf8("/tmp/codex-browser-use"@),
                            },
                            sessions_root: path_or(
                                env.sessions_root,
                                home@,
                                ".codex/sessions"@,
                            ),
                            session_id,
                            download_dir: path_or(
                                env.download_dir,
                                home@,
                                "Downloads/RustBrowserControl"@,
                            ),
                            screenshot_dir: joined_path(
                                path_or(env.pictures_dir, home@, "Pictures"@),
                                vstd::utf8::encode_utf8("RustBrowserControl"@),
                            ),
                            allowed_hosts,
                        },
                    )
                }
            },
        },
    }
}

/// The exec form of [`path_or`].
fn path_or_default(variable: Option<Vec<u8>>, base: &Vec<u8>, tail: &str) -> (path: Vec<u8>)
    ensures
        path@ == path_or(variable, base@, tail@),
{
    match variable {
        Some(path) => path,
        None => join_path(base, tail.as_bytes()),
    }
}

/// The exec form of [`hosts_of`].
fn parse_hosts(list: &str) -> (hosts: Vec<String>)
    ensures
        texts(hosts@) == listed_hosts(split(list@, ',')),
{
    let parts = split_at_mark(&chars_of(list), ',');
    let ghost views = parts@.map_values(|p: Vec<char>| p@);
    let mut hosts: Vec<String> = Vec::new();
    let mut i: usize = 0;
    assert(texts(hosts@) =~= listed_hosts(views.take(0)));
    while i < parts.len()
        invariant
            i <= parts@.len(),
            views == parts@.map_values(|p: Vec<char>| p@),
            texts(hosts@) == listed_hosts(views.take(i as int)),
        decreases parts@.len() - i,
    {
        let ghost upto = views.take(i + 1);
        assert(upto.drop_last() =~= views.take(i as int));
        assert(upto.last() == parts@[i as int]@);
        let host = lowered(&string_of(&without_leading_dots(&trimmed(&parts[i]))));
        if !host.as_str().is_empty() {
            let ghost before = texts(hosts@);
            let ghost text = host@;
            hosts.push(host);
            assert(texts(hosts@) =~= before.push(text));
        }
        i = i + 1;
    }
    assert(views.take(i as int) =~= views);
    hosts
}

/// The parts of a URL that the policy looks at, and its normal text.
#[derive(Debug, PartialEq)]
pub struct UrlParts<T> {
    pub scheme: T,
    pub host: Option<T>,
    pub href: T,
}

impl View for UrlParts<String> {
    type V = UrlParts<Seq<char>>;

    open spec fn view(&self) -> UrlParts<Seq<char>> {
        UrlParts { scheme: self.scheme@, host: optional_text(self.host), href: self.href@ }
    }
}

/// The error type of `url`.
#[verifier::external_type_specification]
#[verifier::external_body]
pub struct ExParseError(url::ParseError);

/// What `url::Url::parse` makes of a text: the scheme, host and normal text of
/// the URL that it is, if it is one.
pub uninterp spec fn parsed_url(input: Seq<char>) -> Option<UrlParts<Seq<char>>>;

/// What came of reading a URL.
pub open spec fn url_reading(r: Result<UrlParts<String>, url::ParseError>) -> Option<
    UrlParts<Seq<char>>,
> {
    match r {
        Ok(parts) => Some(parts@),
        Err(_) => None,
    }
}

/// `url::Url::parse`, and of the URL its `scheme`, `host_str` and `as_str`.
#[verifier::external_body]
fn parse_url(input: &str) -> (r: Result<UrlParts<String>, url::ParseError>)
    ensures
        url_reading(r) == parsed_url(input@),
{
    let url = url::Url::parse(input)?;
    Ok(
        UrlParts {
            scheme: url.scheme().to_owned(),
            host: url.host_str().map(str::to_owned),
            href: url.as_str().to_owned(),
        },
    )
}

/// Whether the entry `base` of the list of allowed hosts lets `host` in: the
/// star lets every host in, any other entry that host and those below it.
pub open spec fn lets_in(base: Seq<char>, host: Seq<char>) -> bool {
    ||| base == "*"@
    ||| host == base
    ||| ends_with(host, seq!['.'] + base)
}

/// Whether some entry of the list lets `host` in.
pub open spec fn allows(hosts: Seq<Seq<char>>, host: Seq<char>) -> bool {
    exists|i: int| 0 <= i < hosts.len() && lets_in(#[trigger] hosts[i], host)
}

/// What the policy says of a URL that was read from `input`.
pub open spec fn judged(
    hosts: Seq<Seq<char>>,
    input: Seq<char>,
    url: Option<UrlParts<Seq<char>>>,
) -> Result<UrlParts<Seq<char>>, ErrorView> {
    match url {
        None => Err(ErrorOf::InvalidUrl(input)),
        Some(parts) => if parts.scheme != "http"@ && parts.scheme != "https"@ {
            Err(ErrorOf::NotHttp)
        } else {
            match parts.host {
                None => Err(ErrorOf::NoHost),
                Some(raw) => {
                    let host = lower_text(raw);
                    if allows(hosts, host) {
                        Ok(parts)
                    } else {
                        Err(ErrorOf::HostNotAllowed { host, configured: join(hosts, ", "@) })
                    }
                },
            }
        },
    }
}

/// What the policy says of the text of a URL.
pub open spec fn validated(hosts: Seq<Seq<char>>, input: Seq<char>) -> Result<
    UrlParts<Seq<char>>,
    ErrorView,
> {
    judged(hosts, input, parsed_url(input))
}

/// The view of what the policy says.
pub open spec fn verdict(r: Result<UrlParts<String>, ControlError>) -> Result<
    UrlParts<Seq<char>>,
    ErrorView,
> {
    match r {
        Ok(parts) => Ok(parts@),
        Err(e) => Err(e@),
    }
}

/// The exec form of [`lets_in`].
fn entry_lets_in(base: &String, host: &String) -> (b: bool)
    ensures
        b == lets_in(base@, host@),
{
    if *base == "*".to_owned() || *host == *base {
        return true;
    }
    let mut suffix: Vec<char> = Vec::new();
    suffix.push('.');
    let mut rest = chars_of(base);
    suffix.append(&mut rest);
    assert(suffix@ =~= seq!['.'] + base@);
    has_suffix(&chars_of(host), &suffix)
}

/// The error of directories that were not made.
pub open spec fn dirs_made(config: ConfigView, download: bool, screenshot: bool) -> Result<
    (),
    ErrorView,
> {
    if !download {
        Err(ErrorOf::DownloadDir(lossy(config.download_dir)))
    } else if !screenshot {
        Err(ErrorOf::ScreenshotDir(lossy(config.screenshot_dir)))
    } else {
        Ok(())
    }
}

impl BrowserConfig {
    /// Reads the configuration from the environment.
    pub fn from_env(env: Environment) -> (r: Result<BrowserConfig, ControlError>)
        ensures
            (match r {
                Ok(config) => Ok(config@),
                Err(e) => Err(e@),
            }) == configured(env),
    {
        let home = match env.home {
            Some(home) => home,
            None => return Err(ErrorOf::NoHome),
        };
        let session_id = match env.session_id {
            Some(id) => id,
            None => match env.thread_id {
                Some(id) => id,
                None => return Err(ErrorOf::NoSession),
            },
        };
        let socket_dir = match env.socket_dir {
            Some(path) => path,
            None => "/tmp/codex-browser-use".as_bytes_vec(),
        };
        let sessions_root = path_or_default(env.sessions_root, &home, ".codex/sessions");
        let download_dir = path_or_default(
            env.download_dir,
            &home,
            "Downloads/RustBrowserControl",
        );
        let pictures = path_or_default(env.pictures_dir, &home, "Pictures");
        let screenshot_dir = join_path(&pictures, "RustBrowserControl".as_bytes());
        let allowed_hosts = match env.allowed_hosts {
            Some(list) => parse_hosts(&list),
            None => parse_hosts("*"),
        };
        assert(texts(allowed_hosts@) == hosts_of(optional_text(env.allowed_hosts)));
        assert(texts(allowed_hosts@).len() == allowed_hosts@.len());
        if allowed_hosts.len() == 0 {
            return Err(ErrorOf::NoHosts);
        }
        Ok(
            BrowserConfig {
                socket_dir,
                sessions_root,
                session_id,
                download_dir,
                screenshot_dir,
                allowed_hosts,
            },
        )
    }

    /// The policy on a URL that was read from `input`.
    pub fn judge_url(&self, input: &str, url: Option<UrlParts<String>>) -> (r: Result<
        UrlParts<String>,
        ControlError,
    >)
        ensures
            verdict(r) == judged(
                self@.allowed_hosts,
                input@,
                match url {
                    Some(parts) => Some(parts@),
                    None => None,
                },
            ),
    {
        let parts = match url {
            Some(parts) => parts,
            None => return Err(ErrorOf::InvalidUrl(input.to_owned())),
        };
        if parts.scheme != "http".to_owned() && parts.scheme != "https".to_owned() {
            return Err(ErrorOf::NotHttp);
        }
        let host = match &parts.host {
            Some(raw) => lowered(raw),
            None => return Err(ErrorOf::NoHost),
        };
        let ghost hosts = texts(self.allowed_hosts@);
        let mut i: usize = 0;
        while i < self.allowed_hosts.len()
            invariant
                i <= self.allowed_hosts@.len(),
                hosts == texts(self.allowed_hosts@),
                hosts == self@.allowed_hosts,
                parts.scheme@ == "http"@ || parts.scheme@ == "https"@,
                url == Some(parts),
                parts@.host == Some(parts@.host->0),
                host@ == lower_text(parts@.host->0),
                forall|k: int| 0 <= k < i ==> !lets_in(#[trigger] hosts[k], host@),
            decreases self.allowed_hosts@.len() - i,
        {
            assert(hosts[i as int] == self.allowed_hosts@[i as int]@);
            if entry_lets_in(&self.allowed_hosts[i], &host) {
                return Ok(parts);
            }
            i = i + 1;
        }
        let configured = joined(&self.allowed_hosts, self.allowed_hosts.len(), ", ");
        assert(hosts.take(hosts.len() as int) =~= hosts);
        Err(ErrorOf::HostNotAllowed { host, configured })
    }

    /// Whether `input` is the URL of a host that may be visited: an error, or
    /// the URL.
    pub fn validate_url(&self, input: &str) -> (r: Result<UrlParts<String>, ControlError>)
        ensures
            verdict(r) == validated(self@.allowed_hosts, input@),
    {
        match parse_url(input) {
            Ok(parts) => self.judge_url(input, Some(parts)),
            Err(_) => self.judge_url(input, None),
        }
    }

    /// Tells whether the directories are there, given whether they could be
    /// made.
    pub fn ensure_dirs(&self, download: bool, screenshot: bool) -> (r: Result<(), ControlError>)
        ensures
            (match r {
                Ok(_) => Ok(()),
                Err(e) => Err(e@),
            }) == dirs_made(self@, download, screenshot),
    {
        if !download {
            Err(ErrorOf::DownloadDir(path_text(&self.download_dir)))
        } else if !screenshot {
            Err(ErrorOf::ScreenshotDir(path_text(&self.screenshot_dir)))
        } else {
            Ok(())
        }
    }
}

/// The wildcard admits every host; then exactly the HTTP(S) URLs with a host
/// are allowed.
pub proof fn law_wildcard_admits_http(
    hosts: Seq<Seq<char>>,
    input: Seq<char>,
    parts: UrlParts<Seq<char>>,
)
    requires
        hosts.contains("*"@),
    ensures
        judged(hosts, input, Some(parts)) is Ok <==> (parts.scheme == "http"@ || parts.scheme
            == "https"@) && parts.host is Some,
{
    let i = choose|i: int| 0 <= i < hosts.len() && hosts[i] == "*"@;
    assert forall|host: Seq<char>| allows(hosts, host) by {
        assert(lets_in(hosts[i], host));
    }
}

/// Whatever hosts are allowed, only HTTP(S) URLs are, and the URL that is
/// allowed is the one that was read.
pub proof fn law_only_http(
    hosts: Seq<Seq<char>>,
    input: Seq<char>,
    url: Option<UrlParts<Seq<char>>>,
)
    ensures
        judged(hosts, input, url) matches Ok(parts) ==> url == Some(parts) && (parts.scheme
            == "http"@ || parts.scheme == "https"@) && (parts.host matches Some(host) && allows(
            hosts,
            lower_text(host),
        )),
{
}

/// A host of the list lets in itself and its subdomains and nothing else: a
/// host that merely ends alike is kept out.
pub proof fn law_no_suffix_confusion(base: Seq<char>, host: Seq<char>)
    requires
        base != "*"@,
    ensures
        lets_in(base, host) <==> host == base || (host.len() > base.len() && host[host.len()
            - base.len() - 1] == '.' && host.skip(host.len() - base.len()) == base),
{
    let tail = seq!['.'] + base;
    if host.len() > base.len() {
        let at = host.len() - tail.len();
        if host.skip(at) == tail {
            assert(host.skip(at)[0] == '.');
            assert(host.skip(at + 1) =~= host.skip(at).skip(1));
            assert(tail.skip(1) =~= base);
        }
        if host[at] == '.' && host.skip(at + 1) == base {
            assert(host.skip(at) =~= tail) by {
                assert forall|k: int| 0 <= k < tail.len() implies host.skip(at)[k] == tail[k] by {
                    if k > 0 {
                        assert(host.skip(at + 1)[k - 1] == base[k - 1]);
                    }
                }
            }
        }
    }
}

/// With no list set, every host is allowed.
pub proof fn law_default_policy(host: Seq<char>)
    ensures
        hosts_of(None) == seq!["*"@],
        allows(hosts_of(None), host),
{
    reveal_strlit("*");
    let star = "*"@;
    assert(star =~= seq!['*']);
    assert(star.drop_last() =~= Seq::<char>::empty());
    let empty = Seq::<char>::empty();
    assert(split(empty, ',') == seq![empty]);
    let parts = split(star, ',');
    assert(empty.push('*') =~= star);
    assert(seq![empty].last() == empty);
    assert(parts =~= seq![star]);
    assert(!is_white('*'));
    assert(trim_start(star) == star);
    assert(trim_end(star) == star);
    assert(strip_dots(star) == star);
    assert(lower_text(star) =~= star);
    assert(parts.drop_last() =~= Seq::<Seq<char>>::empty());
    assert(listed_hosts(parts.drop_last()) == Seq::<Seq<char>>::empty());
    assert(listed_hosts(parts) =~= seq![star]);
    assert(lets_in(hosts_of(None)[0], host));
}

proof fn lemma_stripped(text: Seq<char>)
    ensures
        strip_dots(text).len() > 0 ==> strip_dots(text)[0] != '.',
    decreases text.len(),
{
    if text.len() > 0 && text[0] == '.' {
        lemma_stripped(text.drop_first());
    }
}

proof fn lemma_normal_host(raw: Seq<char>)
    ensures
        is_normal(normal_host(raw)),
{
    let bare = strip_dots(trim(raw));
    lemma_stripped(trim(raw));
    assert(lower_text(lower_text(bare)) =~= lower_text(bare));
}

/// Whether a host is in lower case and does not begin with a dot.
pub open spec fn is_normal(host: Seq<char>) -> bool {
    lower_text(host) == host && (host.len() > 0 ==> host[0] != '.')
}

proof fn lemma_listed_hosts(parts: Seq<Seq<char>>, at: int)
    requires
        0 <= at < listed_hosts(parts).len(),
    ensures
        listed_hosts(parts)[at].len() > 0,
        is_normal(listed_hosts(parts)[at]),
    decreases parts.len(),
{
    let before = listed_hosts(parts.drop_last());
    lemma_normal_host(parts.last());
    if at < before.len() {
        lemma_listed_hosts(parts.drop_last(), at);
    }
}

/// A configuration that the environment gives allows some hosts, and each of
/// them is named in lower case, without a leading dot, and not by nothing.
pub proof fn law_hosts_are_normal(env: Environment)
    requires
        configured(env) is Ok,
    ensures
        configured(env)->Ok_0.allowed_hosts.len() > 0,
        forall|at: int|
            0 <= at < configured(env)->Ok_0.allowed_hosts.len() ==> {
                let host = #[trigger] configured(env)->Ok_0.allowed_hosts[at];
                host.len() > 0 && is_normal(host)
            },
{
    let hosts = configured(env)->Ok_0.allowed_hosts;
    let parts = split(
        match optional_text(env.allowed_hosts) {
            Some(list) => list,
            None => "*"@,
        },
        ',',
    );
    assert forall|at: int| 0 <= at < hosts.len() implies (#[trigger] hosts[at]).len() > 0
        && is_normal(hosts[at]) by {
        lemma_listed_hosts(parts, at);
    }
}

/// A host that needs no change is kept as it is.
pub proof fn law_normal_host_is_kept(host: Seq<char>)
    requires
        host.len() > 0,
        is_normal(host),
        !is_white(host[0]),
        !is_white(host.last()),
    ensures
        normal_host(host) == host,
{
    assert(trim(host) == host);
    assert(strip_dots(host) == host);
}

/// Every host of the list counts, as it is compared, and no other does.
pub proof fn law_hosts_are_those_listed(parts: Seq<Seq<char>>, at: int)
    ensures
        0 <= at < parts.len() && normal_host(parts[at]).len() > 0 ==> listed_hosts(parts).contains(
            normal_host(parts[at]),
        ),
        0 <= at < listed_hosts(parts).len() ==> exists|k: int|
            0 <= k < parts.len() && normal_host(#[trigger] parts[k]) == listed_hosts(parts)[at],
    decreases parts.len(),
{
    if parts.len() > 0 {
        let before = parts.drop_last();
        let host = normal_host(parts.last());
        let hosts = listed_hosts(parts);
        law_hosts_are_those_listed(before, at);
        if 0 <= at < parts.len() && normal_host(parts[at]).len() > 0 {
            if at < before.len() {
                assert(before[at] == parts[at]);
                let k = choose|k: int|
                    0 <= k < listed_hosts(before).len() && listed_hosts(before)[k] == normal_host(
                        parts[at],
                    );
                assert(hosts[k] == listed_hosts(before)[k]);
            } else {
                assert(hosts[hosts.len() - 1] == host);
            }
        }
        if 0 <= at < hosts.len() {
            if at < listed_hosts(before).len() {
                let k = choose|k: int|
                    0 <= k < before.len() && normal_host(#[trigger] before[k]) == listed_hosts(
                        before,
                    )[at];
                assert(parts[k] == before[k]);
            } else {
                assert(normal_host(parts[parts.len() - 1]) == hosts[at]);
            }
        }
    }
}

/// The environment is taken at its word: each variable that is set holds, and
/// one that is not has its place in the home directory; without a home, a
/// session or a host there is no configuration.
pub proof fn law_environment_is_taken_at_its_word(env: Environment)
    ensures
        configured(env) matches Ok(config) ==> {
            let home = env.home->0@;
            &&& env.home is Some
            &&& env.session_id matches Some(id) ==> config.session_id == id@
            &&& env.session_id is None ==> (env.thread_id matches Some(id) && config.session_id
                == id@)
            &&& env.socket_dir matches Some(path) ==> config.socket_dir == path@
            &&& env.socket_dir is None ==> config.socket_dir == vstd::utf8::encode_utf8(
                "/tmp/codex-browser-use"@,
            )
            &&& env.sessions_root matches Some(path) ==> config.sessions_root == path@
            &&& env.sessions_root is None ==> config.sessions_root == joined_path(
                home,
                vstd::utf8::encode_utf8(".codex/sessions"@),
            )
            &&& env.download_dir matches Some(path) ==> config.download_dir == path@
            &&& env.download_dir is None ==> config.download_dir == joined_path(
                home,
                vstd::utf8::encode_utf8("Downloads/RustBrowserControl"@),
            )
            &&& env.pictures_dir matches Some(path) ==> config.screenshot_dir == joined_path(
                path@,
                vstd::utf8::encode_utf8("RustBrowserControl"@),
            )
            &&& env.pictures_dir is None ==> config.screenshot_dir == joined_path(
                joined_path(home, vstd::utf8::encode_utf8("Pictures"@)),
                vstd::utf8::encode_utf8("RustBrowserControl"@),
            )
            &&& env.allowed_hosts matches Some(list) ==> config.allowed_hosts == listed_hosts(
                split(list@, ','),
            )
            &&& env.allowed_hosts is None ==> config.allowed_hosts == seq!["*"@]
        },
        env.home is None ==> configured(env) == Err::<ConfigView, ErrorView>(ErrorOf::NoHome),
        env.home is Some && env.session_id is None && env.thread_id is None ==> configured(env)
            == Err::<ConfigView, ErrorView>(ErrorOf::NoSession),
        env.home is Some && (env.session_id is Some || env.thread_id is Some) ==> (configured(
            env,
        ) is Err <==> (env.allowed_hosts matches Some(list) && listed_hosts(split(list@, ',')).len()
            == 0)),
{
    law_default_policy(Seq::empty());
}

/// A page is judged by its scheme and its host alone, and what is wrong with it
/// is told: that it is no URL, that it is not HTTP, that it has no host, or that
/// its host is none of those that are allowed, a subdomain of one included.
pub proof fn law_judgement(
    hosts: Seq<Seq<char>>,
    input: Seq<char>,
    parts: UrlParts<Seq<char>>,
    host: Seq<char>,
)
    ensures
        judged(hosts, input, None) == Err::<UrlParts<Seq<char>>, ErrorView>(
            ErrorOf::InvalidUrl(input),
        ),
        parts.scheme != "http"@ && parts.scheme != "https"@ ==> judged(hosts, input, Some(parts))
            == Err::<UrlParts<Seq<char>>, ErrorView>(ErrorOf::NotHttp),
        (parts.scheme == "http"@ || parts.scheme == "https"@) && parts.host is None ==> judged(
            hosts,
            input,
            Some(parts),
        ) == Err::<UrlParts<Seq<char>>, ErrorView>(ErrorOf::NoHost),
        (parts.scheme == "http"@ || parts.scheme == "https"@) && parts.host == Some(host)
            ==> judged(hosts, input, Some(parts)) == if exists|i: int|
            0 <= i < hosts.len() && ((#[trigger] hosts[i]) == "*"@ || hosts[i] == lower_text(host)
                || ends_with(lower_text(host), seq!['.'] + hosts[i])) {
            Ok::<UrlParts<Seq<char>>, ErrorView>(parts)
        } else {
            Err(
                ErrorOf::HostNotAllowed {
                    host: lower_text(host),
                    configured: join(hosts, ", "@),
                },
            )
        },
{
    let lower = lower_text(host);
    assert(allows(hosts, lower) == exists|i: int|
        0 <= i < hosts.len() && ((#[trigger] hosts[i]) == "*"@ || hosts[i] == lower || ends_with(
            lower,
            seq!['.'] + hosts[i],
        ))) by {
        if allows(hosts, lower) {
            let i = choose|i: int| 0 <= i < hosts.len() && lets_in(#[trigger] hosts[i], lower);
            assert(lets_in(hosts[i], lower));
        }
        if exists|i: int|
            0 <= i < hosts.len() && ((#[trigger] hosts[i]) == "*"@ || hosts[i] == lower
                || ends_with(lower, seq!['.'] + hosts[i])) {
            let i = choose|i: int|
                0 <= i < hosts.len() && ((#[trigger] hosts[i]) == "*"@ || hosts[i] == lower
                    || ends_with(lower, seq!['.'] + hosts[i]));
            assert(lets_in(hosts[i], lower));
        }
    }
}

proof fn lemma_blank_before(before: Seq<char>, text: Seq<char>)
    requires
        is_blank(before),
        text.len() > 0 ==> !is_white(text[0]),
    ensures
        trim_start(before + text) == text,
    decreases before.len(),
{
    if before.len() > 0 {
        let rest = before.drop_first();
        assert forall|i: int| 0 <= i < rest.len() implies is_white(#[trigger] rest[i]) by {
            assert(rest[i] == before[i + 1]);
        }
        lemma_blank_before(rest, text);
        assert(is_white(before[0]));
        assert((before + text).drop_first() =~= rest + text);
    } else {
        assert(before + text =~= text);
    }
}

proof fn lemma_blank_behind(text: Seq<char>, behind: Seq<char>)
    requires
        is_blank(behind),
        text.len() > 0 ==> !is_white(text.last()),
    ensures
        trim_end(text + behind) == text,
    decreases behind.len(),
{
    if behind.len() > 0 {
        let rest = behind.drop_last();
        assert forall|i: int| 0 <= i < rest.len() implies is_white(#[trigger] rest[i]) by {
            assert(rest[i] == behind[i]);
        }
        lemma_blank_behind(text, rest);
        assert(is_white(behind[behind.len() - 1]));
        assert((text + behind).drop_last() =~= text + rest);
    } else {
        assert(text + behind =~= text);
    }
}

proof fn lemma_dots_before(dots: nat, text: Seq<char>)
    requires
        text.len() > 0 ==> text[0] != '.',
    ensures
        strip_dots(Seq::new(dots, |i: int| '.') + text) == text,
    decreases dots,
{
    let lead = Seq::new(dots, |i: int| '.');
    if dots > 0 {
        let rest = Seq::new((dots - 1) as nat, |i: int| '.');
        lemma_dots_before((dots - 1) as nat, text);
        assert((lead + text).drop_first() =~= rest + text);
    } else {
        assert(lead + text =~= text);
    }
}

/// White space around a host and dots before it do not count, nor do capital
/// letters in it.
pub proof fn law_host_is_bared(
    before: Seq<char>,
    dots: nat,
    bare: Seq<char>,
    behind: Seq<char>,
)
    requires
        is_blank(before),
        is_blank(behind),
        bare.len() > 0,
        bare[0] != '.',
        !is_white(bare[0]),
        !is_white(bare.last()),
    ensures
        normal_host(before + (Seq::new(dots, |i: int| '.') + bare) + behind) == lower_text(bare),
{
    let inner = Seq::new(dots, |i: int| '.') + bare;
    assert(!is_white(inner[0])) by {
        assert(!is_white('.'));
    }
    assert(inner.last() == bare.last());
    let raw = before + inner + behind;
    assert(raw =~= before + (inner + behind));
    assert((inner + behind)[0] == inner[0]);
    lemma_blank_before(before, inner + behind);
    lemma_blank_behind(inner, behind);
    lemma_dots_before(dots, bare);
}

} // verus!
