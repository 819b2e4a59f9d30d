//! The command line client: where it keeps its files, which URLs it asks,
//! and how installing and adding repositories change its configuration.

use vstd::prelude::*;
use crate::common::{ClientConfig, PackageConfig};
use crate::response::{concat2, concat3};

verus! {

/// Whether `std::path::Path::is_dir` holds for `path` now. The answer
/// depends on the file system, so nothing is stated of it.
#[verifier::external_body]
fn path_is_dir(path: &str) -> bool {
    std::path::Path::new(path).is_dir()
}

/// Whether `std::path::Path::is_file` holds for `path` now. The answer
/// depends on the file system, so nothing is stated of it.
#[verifier::external_body]
fn path_is_file(path: &str) -> bool {
    std::path::Path::new(path).is_file()
}

/// Whether a directory exists at `dir`.
pub fn dir_exists(dir: &str) -> bool {
    path_is_dir(dir)
}

/// Whether a regular file exists at `file`.
pub fn file_exists(file: &str) -> bool {
    path_is_file(file)
}

/// Where the client keeps its files, under the home directory `home`.
pub struct ConfigLayout {
    /// `{home}/.config`
    pub config_dir: String,
    /// `{home}/.config/gib`
    pub gib_dir: String,
    /// `{home}/.config/gib/installed`, which keeps the descriptions of
    /// installed packages.
    pub installed_dir: String,
    /// `{home}/.config/gib/config.toml`
    pub config_file: String,
}

/// The layout is the one for `home`.
pub open spec fn is_layout_for(l: ConfigLayout, home: Seq<char>) -> bool {
    &&& l.config_dir@ == home + "/.config"@
    &&& l.gib_dir@ == home + "/.config/gib"@
    &&& l.installed_dir@ == home + "/.config/gib/installed"@
    &&& l.config_file@ == home + "/.config/gib/config.toml"@
}

/// The layout of the client's files under `home`.
pub fn config_layout(home: &str) -> (r: ConfigLayout)
    ensures
        is_layout_for(r, home@),
{
    ConfigLayout {
        config_dir: concat2(home, "/.config"),
        gib_dir: concat2(home, "/.config/gib"),
        installed_dir: concat2(home, "/.config/gib/installed"),
        config_file: concat2(home, "/.config/gib/config.toml"),
    }
}

/// Where the description of an installed package is kept:
/// `{home}/.config/gib/installed/{name}@{version}.toml`.
pub open spec fn installed_record_path_spec(home: Seq<char>, name: Seq<char>, version: Seq<char>) -> Seq<char> {
    home + "/.config/gib/installed/"@ + name + "@"@ + version + ".toml"@
}

/// Where the description of an installed package is kept.
pub fn installed_record_path(home: &str, name: &str, version: &str) -> (r: String)
    ensures
        r@ == installed_record_path_spec(home@, name@, version@),
{
    String::from_str(home).concat("/.config/gib/installed/").concat(name).concat("@").concat(version).concat(".toml")
}

/// The URL of a repository given by its host: `https://{host}/`.
pub open spec fn repo_url_spec(host: Seq<char>) -> Seq<char> {
    "https://"@ + host + "/"@
}

/// The URL of the repository at `host`.
pub fn repo_url(host: &str) -> (r: String)
    ensures
        r@ == repo_url_spec(host@),
{
    concat3("https://", host, "/")
}

/// The URL that serves the latest archive of `name` in `repo`.
pub open spec fn latest_url_spec(repo: Seq<char>, name: Seq<char>) -> Seq<char> {
    repo + "pkg/get/"@ + name + "@latest"@
}

/// The URL that serves the latest archive of `name` in `repo`.
pub fn latest_url(repo: &str, name: &str) -> (r: String)
    ensures
        r@ == latest_url_spec(repo@, name@),
{
    String::from_str(repo).concat("pkg/get/").concat(name).concat("@latest")
}

/// What `gib install INPUT` asks for.
pub enum InstallTarget {
    /// The latest version of this package (`INPUT` holds no `@`).
    Latest { name: String },
    /// `INPUT` names a version (`name@version`); the client does not
    /// install those yet, and does nothing.
    Versioned,
}

/// `s` holds no `@`.
pub open spec fn has_no_at(s: Seq<char>) -> bool {
    forall|i: int| 0 <= i < s.len() ==> #[trigger] s[i] != '@'
}

/// Reads the argument of `gib install`: split at `@`, a single part is a
/// package whose latest version is wanted.
pub fn parse_install_target(input: &str) -> (r: InstallTarget)
    ensures
        has_no_at(input@) ==> (r matches InstallTarget::Latest { name } && name@ == input@),
        !has_no_at(input@) ==> r is Versioned,
{
    let n = input.unicode_len();
    let mut i: usize = 0;
    while i < n
        invariant
            n == input@.len(),
            i <= n,
            forall|j: int| 0 <= j < i ==> #[trigger] input@[j] != '@',
        decreases n - i,
    {
        if input.get_char(i) == '@' {
            return InstallTarget::Versioned;
        }
        i = i + 1;
    }
    InstallTarget::Latest { name: String::from_str(input) }
}

/// Where a downloaded package is unpacked and read from.
pub struct UnpackLayout {
    /// `./tmp/{first member of the archive}`, or `./tmp` for an empty archive.
    pub working_dir: String,
    /// `{working_dir}extract`: the files the package installs.
    pub extract_dir: String,
    /// `{working_dir}/package.toml`: the package's description.
    pub description_file: String,
}

/// The working directory for an archive whose first member is `first`.
pub open spec fn working_dir_spec(first: Option<Seq<char>>) -> Seq<char> {
    match first {
        Some(p) => "./tmp/"@ + p,
        None => "./tmp"@,
    }
}

/// The unpack layout for an archive whose first member is at `first_member`.
pub fn unpack_layout(first_member: Option<&str>) -> (r: UnpackLayout)
    ensures
        r.working_dir@ == working_dir_spec(match first_member { Some(p) => Some(p@), None => None }),
        r.extract_dir@ == r.working_dir@ + "extract"@,
        r.description_file@ == r.working_dir@ + "/package.toml"@,
{
    let working_dir = match first_member {
        Some(p) => concat2("./tmp/", p),
        None => String::from_str("./tmp"),
    };
    let extract_dir = concat2(working_dir.as_str(), "extract");
    let description_file = concat2(working_dir.as_str(), "/package.toml");
    UnpackLayout { working_dir, extract_dir, description_file }
}

/// Where the first client works after unpacking: `./tmp/{first}` where the
/// archive's first member (unpacked at `first`) is a directory, and `./tmp`
/// otherwise.
pub open spec fn first_client_working_dir_spec(first: Seq<char>, first_is_dir: bool) -> Seq<char> {
    if first_is_dir {
        "./tmp/"@ + first
    } else {
        "./tmp"@
    }
}

/// The working directory of the first client, for an archive whose first
/// member is `first`; `first_is_dir` says whether it unpacked as a directory.
pub fn first_client_working_dir(first: &str, first_is_dir: bool) -> (r: String)
    ensures
        r@ == first_client_working_dir_spec(first@, first_is_dir),
{
    if first_is_dir {
        concat2("./tmp/", first)
    } else {
        String::from_str("./tmp")
    }
}

/// `Path::new(path).strip_prefix(prefix)`: the rest of `path` after the
/// components of `prefix`, or `None` where `prefix` is not a prefix of it.
pub uninterp spec fn strip_path_prefix(path: Seq<char>, prefix: Seq<char>) -> Option<Seq<char>>;

/// `std::path::Path::strip_prefix` (turned into text with `to_string_lossy`).
///
/// Trusted: the result is the named value for the two texts.
#[verifier::external_body]
fn path_strip_prefix(path: &str, prefix: &str) -> (r: Option<String>)
    ensures
        r matches Some(s) ==> strip_path_prefix(path@, prefix@) == Some(s@),
        r is None ==> strip_path_prefix(path@, prefix@) is None,
{
    match std::path::Path::new(path).strip_prefix(prefix) {
        Ok(rest) => Some(rest.to_string_lossy().into_owned()),
        Err(_) => None,
    }
}

/// Where a file or directory from the unpacked `extract_dir` is copied:
/// `{home}/{its path relative to extract_dir}`; `None` where `path` does not
/// lie in `extract_dir`.
pub fn home_destination(home: &str, extract_dir: &str, path: &str) -> (r: Option<String>)
    ensures
        match strip_path_prefix(path@, extract_dir@) {
            Some(rest) => r matches Some(d) && d@ == home@ + "/"@ + rest,
            None => r is None,
        },
{
    match path_strip_prefix(path, extract_dir) {
        Some(rest) => Some(concat3(home, "/", rest.as_str())),
        None => None,
    }
}

// ---------------------------------------------------------------------------
// Installing

/// Where `gib install NAME` stands.
pub enum InstallState {
    /// Asking repository `next` (an index into the configured repositories).
    Checking { name: String, next: usize },
    /// Downloading and unpacking from repository `repo_index`.
    Installing { name: String, repo_index: usize },
    Finished,
}

/// What the client reports back while installing.
pub enum InstallEvent {
    /// The HTTP status the repository answered with, or `None` where the
    /// request failed.
    Checked { status: Option<u16> },
    /// The package was unpacked and copied; this is its description, or
    /// `None` where a step failed.
    Installed { config: Option<PackageConfig> },
}

/// What the client has to do next while installing.
pub enum InstallAction {
    /// Report that no repository is configured, and stop.
    NoRepos,
    /// Ask `url` for the package.
    Check { url: String },
    /// Download the archive at `url`, unpack it, and copy its files home.
    Install { url: String },
    /// The package was installed from `repo` (now recorded in the
    /// configuration); report it.
    Done { name: String, version: String },
    /// No repository has the package; report it.
    NotFound { name: String },
    /// A request or an installation step failed: stop with an error.
    Fail,
    Nothing,
}

/// How installing `name` starts, with the configuration `config`.
pub open spec fn install_start_spec(config: ClientConfig, name: String, s: InstallState, a: InstallAction) -> bool {
    if config.repos.len() == 0 {
        s is Finished && a is NoRepos
    } else {
        &&& s == (InstallState::Checking { name, next: 0 })
        &&& a matches InstallAction::Check { url } && url@ == latest_url_spec(config.repos@[0]@, name@)
    }
}

/// Starts installing the latest version of `name`.
pub fn install_start(config: &ClientConfig, name: String) -> (r: (InstallState, InstallAction))
    ensures
        install_start_spec(*config, name, r.0, r.1),
{
    if config.repos.len() == 0 {
        (InstallState::Finished, InstallAction::NoRepos)
    } else {
        let url = latest_url(config.repos[0].as_str(), name.as_str());
        (InstallState::Checking { name, next: 0 }, InstallAction::Check { url })
    }
}

/// One step of an installation. `config` before and `config2` after it.
pub open spec fn install_transition(
    config: ClientConfig,
    s: InstallState,
    e: InstallEvent,
    config2: ClientConfig,
    s2: InstallState,
    a: InstallAction,
) -> bool {
    match (s, e) {
        (InstallState::Checking { name, next }, InstallEvent::Checked { status }) => {
            &&& next < config.repos.len()
            &&& match status {
                None => config2 == config && s2 is Finished && a is Fail,
                Some(code) => if code == 200 {
                    &&& config2 == config
                    &&& s2 == (InstallState::Installing { name, repo_index: next })
                    &&& a matches InstallAction::Install { url } && url@ == latest_url_spec(config.repos@[next as int]@, name@)
                } else if next + 1 < config.repos.len() {
                    &&& config2 == config
                    &&& s2 == (InstallState::Checking { name, next: (next + 1) as usize })
                    &&& a matches InstallAction::Check { url } && url@ == latest_url_spec(config.repos@[next + 1]@, name@)
                } else {
                    config2 == config && s2 is Finished && a == (InstallAction::NotFound { name })
                },
            }
        },
        (InstallState::Installing { name, repo_index }, InstallEvent::Installed { config: installed }) => {
            &&& repo_index < config.repos.len()
            &&& match installed {
                None => config2 == config && s2 is Finished && a is Fail,
                Some(c) => {
                    &&& config2.repos@ == config.repos@
                    &&& config2.installed@.len() == config.installed@.len() + 1
                    &&& config2.installed@.take(config.installed@.len() as int) == config.installed@
                    &&& config2.installed@.last().name == c.name
                    &&& config2.installed@.last().version == c.version
                    &&& config2.installed@.last().repo@ == config.repos@[repo_index as int]@
                    &&& s2 is Finished
                    &&& a == (InstallAction::Done { name: c.name, version: c.version })
                },
            }
        },
        (InstallState::Finished, _) => config2 == config && s2 is Finished && a is Nothing,
        _ => config2 == config && s2 is Finished && a is Fail,
    }
}

/// The state still points into the configured repositories.
pub open spec fn install_state_fits(config: ClientConfig, s: InstallState) -> bool {
    match s {
        InstallState::Checking { next, .. } => next < config.repos.len(),
        InstallState::Installing { repo_index, .. } => repo_index < config.repos.len(),
        InstallState::Finished => true,
    }
}

/// Takes one step of an installation.
pub fn install_step(config: &mut ClientConfig, state: InstallState, event: InstallEvent) -> (r: (InstallState, InstallAction))
    requires
        install_state_fits(*old(config), state),
    ensures
        install_transition(*old(config), state, event, *final(config), r.0, r.1),
        install_state_fits(*final(config), r.0),
{
    match (state, event) {
        (InstallState::Checking { name, next }, InstallEvent::Checked { status }) => match status {
            None => (InstallState::Finished, InstallAction::Fail),
            Some(code) => {
                if code == 200 {
                    let url = latest_url(config.repos[next].as_str(), name.as_str());
                    (InstallState::Installing { name, repo_index: next }, InstallAction::Install { url })
                } else if next + 1 < config.repos.len() {
                    let url = latest_url(config.repos[next + 1].as_str(), name.as_str());
                    (InstallState::Checking { name, next: next + 1 }, InstallAction::Check { url })
                } else {
                    (InstallState::Finished, InstallAction::NotFound { name })
                }
            },
        },
        (InstallState::Installing { name, repo_index }, InstallEvent::Installed { config: installed }) => match installed {
            None => (InstallState::Finished, InstallAction::Fail),
            Some(c) => {
                let repo = config.repos[repo_index].clone();
                config.record_install(repo.as_str(), &c);
                (InstallState::Finished, InstallAction::Done { name: c.name, version: c.version })
            },
        },
        (InstallState::Finished, _) => (InstallState::Finished, InstallAction::Nothing),
        (_, _) => (InstallState::Finished, InstallAction::Fail),
    }
}

/// A run of an installation: `configs[i]`, `states[i]` and `events[i]`
/// lead to `configs[i + 1]`, `states[i + 1]` and `actions[i]`.
pub open spec fn install_run(
    configs: Seq<ClientConfig>,
    states: Seq<InstallState>,
    events: Seq<InstallEvent>,
    actions: Seq<InstallAction>,
) -> bool {
    &&& configs.len() == events.len() + 1
    &&& states.len() == events.len() + 1
    &&& actions.len() == events.len()
    &&& forall|i: int| 0 <= i < events.len() ==>
        #[trigger] install_transition(configs[i], states[i], events[i], configs[i + 1], states[i + 1], actions[i])
}

/// Before step `k` every repository asked answered with something other
/// than 200, and step `k` asks repository `k`.
proof fn lemma_checks_in_order(
    configs: Seq<ClientConfig>,
    states: Seq<InstallState>,
    events: Seq<InstallEvent>,
    actions: Seq<InstallAction>,
    name: String,
    k: int,
)
    requires
        install_run(configs, states, events, actions),
        states[0] == (InstallState::Checking { name, next: 0 }),
        0 <= k < actions.len(),
        states[k] is Checking,
    ensures
        configs[k] == configs[0],
        states[k] matches InstallState::Checking { name: n, next } && n == name && next == k,
        forall|j: int| 0 <= j < k ==> (#[trigger] events[j] matches InstallEvent::Checked { status: Some(code) } && code != 200),
    decreases k,
{
    if k > 0 {
        let j = k - 1;
        assert(install_transition(configs[j], states[j], events[j], configs[j + 1], states[j + 1], actions[j]));
        lemma_checks_in_order(configs, states, events, actions, name, j);
    }
}

/// Law: `gib install NAME` downloads from the first configured repository,
/// in the configured order, that answers with status 200: every repository
/// before it answered with another status.
pub proof fn law_install_uses_first_answering_repo(
    configs: Seq<ClientConfig>,
    states: Seq<InstallState>,
    events: Seq<InstallEvent>,
    actions: Seq<InstallAction>,
    name: String,
    k: int,
)
    requires
        install_run(configs, states, events, actions),
        states[0] == (InstallState::Checking { name, next: 0 }),
        0 <= k < actions.len(),
        actions[k] is Install,
    ensures
        k < configs[0].repos.len(),
        events[k] matches InstallEvent::Checked { status: Some(code) } && code == 200,
        actions[k] matches InstallAction::Install { url } && url@ == latest_url_spec(configs[0].repos@[k]@, name@),
        forall|j: int| 0 <= j < k ==> (#[trigger] events[j] matches InstallEvent::Checked { status: Some(code) } && code != 200),
{
    assert(install_transition(configs[k], states[k], events[k], configs[k + 1], states[k + 1], actions[k]));
    lemma_checks_in_order(configs, states, events, actions, name, k);
}

/// Law: a repository that answers with anything but 200 does not end the
/// search while repositories remain: the next one in the configured order
/// is asked, and nothing else changes.
pub proof fn law_install_asks_next_repo(
    config: ClientConfig,
    name: String,
    next: usize,
    code: u16,
    config2: ClientConfig,
    s2: InstallState,
    a: InstallAction,
)
    requires
        install_transition(config, InstallState::Checking { name, next }, InstallEvent::Checked { status: Some(code) }, config2, s2, a),
        code != 200,
        next + 1 < config.repos.len(),
    ensures
        config2 == config,
        s2 == (InstallState::Checking { name, next: (next + 1) as usize }),
        a matches InstallAction::Check { url } && url@ == latest_url_spec(config.repos@[next + 1]@, name@),
{
}

/// A run that is still asking a repository at step `k` was asking one at
/// every earlier step.
proof fn lemma_checking_before(
    configs: Seq<ClientConfig>,
    states: Seq<InstallState>,
    events: Seq<InstallEvent>,
    actions: Seq<InstallAction>,
    j: int,
    k: int,
)
    requires
        install_run(configs, states, events, actions),
        0 <= j <= k < states.len(),
        states[k] is Checking,
    ensures
        states[j] is Checking,
    decreases k - j,
{
    if j < k {
        let h = k - 1;
        assert(install_transition(configs[h], states[h], events[h], configs[h + 1], states[h + 1], actions[h]));
        lemma_checking_before(configs, states, events, actions, j, h);
    }
}

/// Law: `gib install NAME` reports the package as not found only after it
/// asked every configured repository, in order, and each answered with a
/// status other than 200.
pub proof fn law_install_not_found_after_every_repo(
    configs: Seq<ClientConfig>,
    states: Seq<InstallState>,
    events: Seq<InstallEvent>,
    actions: Seq<InstallAction>,
    name: String,
    k: int,
)
    requires
        install_run(configs, states, events, actions),
        states[0] == (InstallState::Checking { name, next: 0 }),
        configs[0].repos.len() > 0,
        0 <= k < actions.len(),
        actions[k] is NotFound,
    ensures
        k + 1 == configs[0].repos.len(),
        forall|j: int| 0 <= j <= k ==> (#[trigger] events[j] matches InstallEvent::Checked { status: Some(code) } && code != 200),
        forall|j: int| 0 <= j < k ==> (#[trigger] actions[j] matches InstallAction::Check { url }
            && url@ == latest_url_spec(configs[0].repos@[j + 1]@, name@)),
{
    assert(install_transition(configs[k], states[k], events[k], configs[k + 1], states[k + 1], actions[k]));
    lemma_checks_in_order(configs, states, events, actions, name, k);
    assert forall|j: int| 0 <= j < k implies (#[trigger] actions[j] matches InstallAction::Check { url }
        && url@ == latest_url_spec(configs[0].repos@[j + 1]@, name@)) by {
        lemma_checking_before(configs, states, events, actions, j, k);
        lemma_checks_in_order(configs, states, events, actions, name, j);
        assert(install_transition(configs[j], states[j], events[j], configs[j + 1], states[j + 1], actions[j]));
        assert(events[j] matches InstallEvent::Checked { status: Some(code) } && code != 200);
    }
}

/// Law: a finished installation is recorded against the repository it was
/// downloaded from, the first in the configured order that answered with
/// 200, under the name and version of the package's own description; the
/// configured repositories and the earlier records stay as they were.
pub proof fn law_install_records_answering_repo(
    configs: Seq<ClientConfig>,
    states: Seq<InstallState>,
    events: Seq<InstallEvent>,
    actions: Seq<InstallAction>,
    name: String,
    k: int,
)
    requires
        install_run(configs, states, events, actions),
        states[0] == (InstallState::Checking { name, next: 0 }),
        0 <= k < actions.len(),
        actions[k] is Done,
    ensures
        k >= 1,
        events[k - 1] matches InstallEvent::Checked { status: Some(code) } && code == 200,
        forall|j: int| 0 <= j < k - 1 ==> (#[trigger] events[j] matches InstallEvent::Checked { status: Some(code) } && code != 200),
        events[k] matches InstallEvent::Installed { config: Some(c) } && {
            &&& actions[k] == (InstallAction::Done { name: c.name, version: c.version })
            &&& configs[k + 1].installed@.len() == configs[0].installed@.len() + 1
            &&& configs[k + 1].installed@.take(configs[0].installed@.len() as int) == configs[0].installed@
            &&& configs[k + 1].installed@.last().name == c.name
            &&& configs[k + 1].installed@.last().version == c.version
            &&& configs[k + 1].installed@.last().repo@ == configs[0].repos@[k - 1]@
            &&& configs[k + 1].repos@ == configs[0].repos@
        },
{
    assert(install_transition(configs[k], states[k], events[k], configs[k + 1], states[k + 1], actions[k]));
    assert(states[k] is Installing);
    if k == 0 {
        assert(false);
    }
    let j = k - 1;
    assert(install_transition(configs[j], states[j], events[j], configs[j + 1], states[j + 1], actions[j]));
    assert(states[j] is Checking);
    law_install_uses_first_answering_repo(configs, states, events, actions, name, j);
    lemma_checks_in_order(configs, states, events, actions, name, j);
}

// ---------------------------------------------------------------------------
// Adding a repository

/// `gib add_repo HOST`, once the repository at `url` was asked: a
/// repository that answered is added at the end of the list; one that did
/// not leaves the list as it was. Either way the configuration is saved
/// afterwards. Returns whether it was added.
pub fn finish_add_repo(config: &mut ClientConfig, url: String, reachable: bool) -> (added: bool)
    ensures
        added == reachable,
        reachable ==> final(config).repos@ == old(config).repos@.push(url),
        !reachable ==> final(config).repos@ == old(config).repos@,
        final(config).installed@ == old(config).installed@,
{
    if reachable {
        config.add_repo(url);
        true
    } else {
        false
    }
}

} // verus!
