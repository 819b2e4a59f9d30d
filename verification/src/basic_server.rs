//! The basic registry server: a smaller server that stores packages under
//! the names their descriptions give, and only checks that a name holds a
//! letter, a digit, `-` or `_`.

use vstd::prelude::*;
use crate::archive::{config_search_result, find_package_config, ConfigSearch};
use crate::names::{has_name_char, has_name_char_str};
use crate::response::{concat3, concat5, decimal, int_decimal, is_text_response, text_response, ContentType, Response};
use crate::upload::{is_plain_file_name, sanitize_file_name, sanitized_file_name};

verus! {

/// The contents of a package's `package.toml`.
pub struct Config {
    pub name: String,
    pub version: String,
    pub author: String,
    pub post_script: Option<String>,
}

impl Config {
    /// A copy with the same field values.
    pub fn duplicate(&self) -> (r: Config)
        ensures
            r == *self,
    {
        let post_script = match &self.post_script {
            Some(s) => Some(s.clone()),
            None => None,
        };
        Config {
            name: self.name.clone(),
            version: self.version.clone(),
            author: self.author.clone(),
            post_script,
        }
    }
}

/// A registered user.
pub struct User {
    pub id: i32,
    pub username: String,
    pub password: String,
    pub email: String,
}

/// A published package.
pub struct Package {
    pub id: i32,
    pub package_name: String,
    pub publisher: i32,
    pub configuration: String,
    pub current_version: String,
}

/// The archive of one version of a package.
pub struct PackageArchive {
    pub id: i32,
    pub package_id: i32,
    pub version: String,
    pub archive: Vec<u8>,
}

/// A package record to insert.
pub struct NewPackage<'a> {
    pub package_name: &'a str,
    pub publisher: i32,
    pub configuration: &'a str,
    pub current_version: &'a str,
}

/// An archive record to insert.
pub struct NewPackageArchive {
    pub package_id: i32,
    pub version: String,
    pub archive: Vec<u8>,
}

/// The body the basic server's root answers with.
pub open spec fn basic_index_body() -> Seq<char> {
    "{\"server-version\": \"1.0.0\"}"@
}

/// `GET /`: the server's version, as JSON text without a content type.
pub fn basic_index() -> (r: Response)
    ensures
        is_text_response(r, 200, ContentType::Unspecified, basic_index_body()),
{
    text_response(200, ContentType::Unspecified, String::from_str("{\"server-version\": \"1.0.0\"}"))
}

/// The answer when no package name was given.
pub open spec fn basic_missing_name_body() -> Seq<char> {
    "{\"status\": 1, \"error\": \"Please provide a package name\"}"@
}

/// The answer to a package lookup, which this server does not offer.
pub open spec fn not_implemented_body() -> Seq<char> {
    "Fuck you this is not implemented yes"@
}

/// `GET /pkg/get/{package}`: refused for a missing name, and otherwise
/// answered as not implemented.
pub fn basic_get_package(name: Option<&str>) -> (r: Response)
    ensures
        name is None ==> is_text_response(r, 400, ContentType::Json, basic_missing_name_body()),
        name is Some ==> is_text_response(r, 501, ContentType::Unspecified, not_implemented_body()),
{
    match name {
        None => text_response(400, ContentType::Json, String::from_str("{\"status\": 1, \"error\": \"Please provide a package name\"}")),
        Some(_) => text_response(501, ContentType::Unspecified, String::from_str("Fuck you this is not implemented yes")),
    }
}

/// Where an upload stands.
pub enum BasicUploadState {
    AwaitingField,
    Saving,
    Parsing,
    Connecting { config: Config },
    Creating { config: Config },
    Uploading { package_id: i32, config_json: String },
    Finished,
}

/// What the server reports back (see `crate::upload::UploadEvent`).
pub enum BasicUploadEvent {
    NoMoreFields,
    Field { filename: Option<String> },
    ArchiveStored { contents: Result<Vec<u8>, String> },
    ConfigParsed { config: Result<Config, String> },
    Connected { connection: Result<(), String> },
    PackageCreated { created: Result<i32, String>, config_json: String },
    ArchiveUploaded { stored: Result<(), String> },
}

/// What the server has to do next (see `crate::upload::UploadAction`).
pub enum BasicUploadAction {
    SaveField { path: String },
    ParseConfig { text: String },
    Connect,
    CreatePackage { config: Config, publisher: i32 },
    UploadArchive { package_id: i32, version: String },
    Respond(Response),
    Abort,
    Nothing,
}

/// The action answers with status `status`, content type `ct` and `text`.
pub open spec fn basic_replies(a: BasicUploadAction, status: u16, ct: ContentType, text: Seq<char>) -> bool {
    a matches BasicUploadAction::Respond(r) && is_text_response(r, status, ct, text)
}

/// The text the server parses for the description the archive search
/// found: a description that is not UTF-8 reads as empty text.
pub open spec fn basic_config_text(found: ConfigSearch, text: Seq<char>) -> bool {
    match found {
        ConfigSearch::Found(s) => text == s@,
        ConfigSearch::NotText => text == Seq::<char>::empty(),
        ConfigSearch::Missing => text == Seq::<char>::empty(),
        ConfigSearch::Unreadable => false,
    }
}

/// One step of an upload to the basic server.
pub open spec fn basic_upload_transition(s: BasicUploadState, e: BasicUploadEvent, s2: BasicUploadState, a: BasicUploadAction) -> bool {
    match (s, e) {
        (BasicUploadState::AwaitingField, BasicUploadEvent::NoMoreFields) =>
            s2 is Finished && basic_replies(a, 400, ContentType::Json, "{\"status: 1\", \"error\": \"no files uploaded\"}"@),
        (BasicUploadState::AwaitingField, BasicUploadEvent::Field { filename }) => match filename {
            None => s2 is Finished && a is Abort,
            Some(f) => {
                &&& s2 is Saving
                &&& a matches BasicUploadAction::SaveField { path }
                &&& path@ == "./tmp/"@ + sanitized_file_name(f@)
                &&& is_plain_file_name(sanitized_file_name(f@))
            },
        },
        (BasicUploadState::Saving, BasicUploadEvent::ArchiveStored { contents }) => match contents {
            Err(_) => s2 is Finished && basic_replies(a, 500, ContentType::Unspecified, "Could not process archive"@),
            Ok(bytes) => exists|found: ConfigSearch| #[trigger] config_search_result(bytes@, found) && if found is Unreadable {
                s2 is Finished && a is Abort
            } else {
                &&& s2 is Parsing
                &&& a matches BasicUploadAction::ParseConfig { text }
                &&& basic_config_text(found, text@)
            },
        },
        (BasicUploadState::Parsing, BasicUploadEvent::ConfigParsed { config }) => match config {
            Err(msg) => s2 is Finished && basic_replies(a, 400, ContentType::Json,
                "{\"status\": 2, \"error\": \"Invalid config file: "@ + msg@ + "\"}"@),
            Ok(c) => if has_name_char(c.name@) {
                s2 == (BasicUploadState::Connecting { config: c }) && a is Connect
            } else {
                s2 is Finished && basic_replies(a, 400, ContentType::Json, "{\"status\": 2, \"error\": \"Invalid name in package.toml\"}"@)
            },
        },
        (BasicUploadState::Connecting { config }, BasicUploadEvent::Connected { connection }) => match connection {
            Err(msg) => s2 is Finished && basic_replies(a, 500, ContentType::Json, "{\"status\": 3, error: \""@ + msg@ + "\" "@),
            Ok(_) => s2 == (BasicUploadState::Creating { config }) && a == (BasicUploadAction::CreatePackage { config, publisher: 0 }),
        },
        (BasicUploadState::Creating { config }, BasicUploadEvent::PackageCreated { created, config_json }) => match created {
            Err(msg) => s2 is Finished && basic_replies(a, 500, ContentType::Json, "{\"status\": 4, error: \""@ + msg@ + "\" "@),
            Ok(id) => {
                &&& s2 == (BasicUploadState::Uploading { package_id: id, config_json })
                &&& a == (BasicUploadAction::UploadArchive { package_id: id, version: config.version })
            },
        },
        (BasicUploadState::Uploading { package_id, config_json }, BasicUploadEvent::ArchiveUploaded { stored }) => match stored {
            Err(msg) => s2 is Finished && basic_replies(a, 500, ContentType::Json, "{\"status\": 5, error: \""@ + msg@ + "\" "@),
            Ok(_) => s2 is Finished && basic_replies(a, 200, ContentType::Json,
                "{\"status\": \"0\", \"id\": "@ + int_decimal(package_id as int) + ", \"package\": "@ + config_json@ + "}"@),
        },
        (BasicUploadState::Finished, _) => s2 is Finished && a is Nothing,
        _ => s2 is Finished && a is Abort,
    }
}

/// A response with a text body.
fn basic_reply(status: u16, ct: ContentType, text: String) -> (a: BasicUploadAction)
    ensures
        basic_replies(a, status, ct, text@),
{
    BasicUploadAction::Respond(text_response(status, ct, text))
}

/// Takes one step of an upload to the basic server.
pub fn basic_upload_step(state: BasicUploadState, event: BasicUploadEvent) -> (r: (BasicUploadState, BasicUploadAction))
    ensures
        basic_upload_transition(state, event, r.0, r.1),
{
    match (state, event) {
        (BasicUploadState::AwaitingField, BasicUploadEvent::NoMoreFields) => (
            BasicUploadState::Finished,
            basic_reply(400, ContentType::Json, String::from_str("{\"status: 1\", \"error\": \"no files uploaded\"}")),
        ),
        (BasicUploadState::AwaitingField, BasicUploadEvent::Field { filename }) => match filename {
            None => (BasicUploadState::Finished, BasicUploadAction::Abort),
            Some(f) => {
                let name = sanitize_file_name(f.as_str());
                let path = String::from_str("./tmp/").concat(name.as_str());
                assert(path@ == "./tmp/"@ + name@);
                (BasicUploadState::Saving, BasicUploadAction::SaveField { path })
            },
        },
        (BasicUploadState::Saving, BasicUploadEvent::ArchiveStored { contents }) => match contents {
            Err(_) => (BasicUploadState::Finished, basic_reply(500, ContentType::Unspecified, String::from_str("Could not process archive"))),
            Ok(bytes) => {
                let found = find_package_config(bytes.as_slice());
                let ghost g = found;
                let r = match found {
                    ConfigSearch::Found(text) => (BasicUploadState::Parsing, BasicUploadAction::ParseConfig { text }),
                    ConfigSearch::NotText => (BasicUploadState::Parsing, BasicUploadAction::ParseConfig { text: String::new() }),
                    ConfigSearch::Missing => (BasicUploadState::Parsing, BasicUploadAction::ParseConfig { text: String::new() }),
                    ConfigSearch::Unreadable => (BasicUploadState::Finished, BasicUploadAction::Abort),
                };
                assert(config_search_result(bytes@, g));
                r
            },
        },
        (BasicUploadState::Parsing, BasicUploadEvent::ConfigParsed { config }) => match config {
            Err(msg) => (BasicUploadState::Finished, basic_reply(400, ContentType::Json,
                concat3("{\"status\": 2, \"error\": \"Invalid config file: ", msg.as_str(), "\"}"))),
            Ok(c) => {
                if has_name_char_str(c.name.as_str()) {
                    (BasicUploadState::Connecting { config: c }, BasicUploadAction::Connect)
                } else {
                    (BasicUploadState::Finished, basic_reply(400, ContentType::Json,
                        String::from_str("{\"status\": 2, \"error\": \"Invalid name in package.toml\"}")))
                }
            },
        },
        (BasicUploadState::Connecting { config }, BasicUploadEvent::Connected { connection }) => match connection {
            Err(msg) => (BasicUploadState::Finished, basic_reply(500, ContentType::Json, concat3("{\"status\": 3, error: \"", msg.as_str(), "\" "))),
            Ok(_) => {
                let copy = config.duplicate();
                (BasicUploadState::Creating { config }, BasicUploadAction::CreatePackage { config: copy, publisher: 0 })
            },
        },
        (BasicUploadState::Creating { config }, BasicUploadEvent::PackageCreated { created, config_json }) => match created {
            Err(msg) => (BasicUploadState::Finished, basic_reply(500, ContentType::Json, concat3("{\"status\": 4, error: \"", msg.as_str(), "\" "))),
            Ok(id) => (
                BasicUploadState::Uploading { package_id: id, config_json },
                BasicUploadAction::UploadArchive { package_id: id, version: config.version },
            ),
        },
        (BasicUploadState::Uploading { package_id, config_json }, BasicUploadEvent::ArchiveUploaded { stored }) => match stored {
            Err(msg) => (BasicUploadState::Finished, basic_reply(500, ContentType::Json, concat3("{\"status\": 5, error: \"", msg.as_str(), "\" "))),
            Ok(_) => {
                let id = decimal(package_id);
                let body = concat5("{\"status\": \"0\", \"id\": ", id.as_str(), ", \"package\": ", config_json.as_str(), "}");
                (BasicUploadState::Finished, basic_reply(200, ContentType::Json, body))
            },
        },
        (BasicUploadState::Finished, _) => (BasicUploadState::Finished, BasicUploadAction::Nothing),
        (_, _) => (BasicUploadState::Finished, BasicUploadAction::Abort),
    }
}

/// A run of an upload to the basic server.
pub open spec fn basic_upload_run(states: Seq<BasicUploadState>, events: Seq<BasicUploadEvent>, actions: Seq<BasicUploadAction>) -> bool {
    &&& states.len() == events.len() + 1
    &&& actions.len() == events.len()
    &&& forall|i: int| 0 <= i < events.len() ==> #[trigger] basic_upload_transition(states[i], events[i], states[i + 1], actions[i])
}

/// An action that ends the request.
pub open spec fn basic_ends_request(a: BasicUploadAction) -> bool {
    a is Respond || a is Abort
}

proof fn lemma_basic_stays_finished(
    states: Seq<BasicUploadState>,
    events: Seq<BasicUploadEvent>,
    actions: Seq<BasicUploadAction>,
    i: int,
    j: int,
)
    requires
        basic_upload_run(states, events, actions),
        0 <= i <= j < states.len(),
        states[i] is Finished,
    ensures
        states[j] is Finished,
        j < actions.len() ==> actions[j] is Nothing,
    decreases j - i,
{
    if i < j {
        assert(basic_upload_transition(states[i], events[i], states[i + 1], actions[i]));
        lemma_basic_stays_finished(states, events, actions, i + 1, j);
    } else if j < actions.len() {
        assert(basic_upload_transition(states[j], events[j], states[j + 1], actions[j]));
    }
}

/// Law: an upload to the basic server is answered at most once.
pub proof fn law_basic_upload_answered_at_most_once(
    states: Seq<BasicUploadState>,
    events: Seq<BasicUploadEvent>,
    actions: Seq<BasicUploadAction>,
    i: int,
    j: int,
)
    requires
        basic_upload_run(states, events, actions),
        0 <= i < j < actions.len(),
        basic_ends_request(actions[i]),
    ensures
        !basic_ends_request(actions[j]),
{
    assert(basic_upload_transition(states[i], events[i], states[i + 1], actions[i]));
    lemma_basic_stays_finished(states, events, actions, i + 1, j);
}

/// Law: the basic server only creates packages whose name holds a letter,
/// a digit, `-` or `_`, under publisher 0.
pub proof fn law_basic_created_packages_have_name_chars(
    states: Seq<BasicUploadState>,
    events: Seq<BasicUploadEvent>,
    actions: Seq<BasicUploadAction>,
    k: int,
)
    requires
        basic_upload_run(states, events, actions),
        states[0] is AwaitingField,
        0 <= k < actions.len(),
        actions[k] is CreatePackage,
    ensures
        actions[k] matches BasicUploadAction::CreatePackage { config, publisher } && has_name_char(config.name@) && publisher == 0,
{
    assert(basic_upload_transition(states[k], events[k], states[k + 1], actions[k]));
    assert(states[k] is Connecting);
    assert(k > 0);
    let j = k - 1;
    assert(basic_upload_transition(states[j], events[j], states[j + 1], actions[j]));
}

/// How far an upload to the basic server has got; every step moves it
/// forward, except that `Finished` stays where it is.
pub open spec fn basic_upload_progress(s: BasicUploadState) -> int {
    match s {
        BasicUploadState::AwaitingField => 0,
        BasicUploadState::Saving => 1,
        BasicUploadState::Parsing => 2,
        BasicUploadState::Connecting { .. } => 3,
        BasicUploadState::Creating { .. } => 4,
        BasicUploadState::Uploading { .. } => 5,
        BasicUploadState::Finished => 6,
    }
}

proof fn lemma_basic_step_progresses(s: BasicUploadState, e: BasicUploadEvent, s2: BasicUploadState, a: BasicUploadAction)
    requires
        basic_upload_transition(s, e, s2, a),
    ensures
        basic_upload_progress(s) <= basic_upload_progress(s2),
        !(s is Finished) ==> basic_upload_progress(s) < basic_upload_progress(s2),
        a is SaveField ==> s is AwaitingField,
        a is CreatePackage ==> s is Connecting && s2 is Creating,
        a is UploadArchive ==> s is Creating && s2 is Uploading,
{
}

proof fn lemma_basic_run_progresses(
    states: Seq<BasicUploadState>,
    events: Seq<BasicUploadEvent>,
    actions: Seq<BasicUploadAction>,
    i: int,
    j: int,
)
    requires
        basic_upload_run(states, events, actions),
        0 <= i < j < states.len(),
    ensures
        basic_upload_progress(states[i]) <= basic_upload_progress(states[j]),
        !(states[i] is Finished) ==> basic_upload_progress(states[i]) < basic_upload_progress(states[j]),
    decreases j - i,
{
    assert(basic_upload_transition(states[i], events[i], states[i + 1], actions[i]));
    lemma_basic_step_progresses(states[i], events[i], states[i + 1], actions[i]);
    if i + 1 < j {
        lemma_basic_run_progresses(states, events, actions, i + 1, j);
    }
}

/// Law: an upload to the basic server reads one field of the multipart
/// body: only the first step of a run waits for a field, and only it saves
/// one.
pub proof fn law_basic_upload_reads_one_field(
    states: Seq<BasicUploadState>,
    events: Seq<BasicUploadEvent>,
    actions: Seq<BasicUploadAction>,
    k: int,
)
    requires
        basic_upload_run(states, events, actions),
        0 < k < states.len(),
    ensures
        !(states[k] is AwaitingField),
        k < actions.len() ==> !(actions[k] is SaveField),
{
    lemma_basic_run_progresses(states, events, actions, 0, k);
    if k < actions.len() {
        assert(basic_upload_transition(states[k], events[k], states[k + 1], actions[k]));
        lemma_basic_step_progresses(states[k], events[k], states[k + 1], actions[k]);
    }
}

/// Law: one upload to the basic server creates at most one package record
/// and stores at most one archive: no two actions of a run ask for either.
pub proof fn law_basic_upload_writes_once(
    states: Seq<BasicUploadState>,
    events: Seq<BasicUploadEvent>,
    actions: Seq<BasicUploadAction>,
    i: int,
    j: int,
)
    requires
        basic_upload_run(states, events, actions),
        0 <= i < j < actions.len(),
    ensures
        actions[i] is CreatePackage ==> !(actions[j] is CreatePackage),
        actions[i] is UploadArchive ==> !(actions[j] is UploadArchive),
{
    assert(basic_upload_transition(states[i], events[i], states[i + 1], actions[i]));
    lemma_basic_step_progresses(states[i], events[i], states[i + 1], actions[i]);
    assert(basic_upload_transition(states[j], events[j], states[j + 1], actions[j]));
    lemma_basic_step_progresses(states[j], events[j], states[j + 1], actions[j]);
    if i + 1 < j {
        lemma_basic_run_progresses(states, events, actions, i + 1, j);
    }
}

/// Law: the basic server stores an upload's archive under the id the
/// database gave the package record it just created, and under the version
/// of the description that record was created from.
pub proof fn law_basic_archive_stored_under_created_version(
    states: Seq<BasicUploadState>,
    events: Seq<BasicUploadEvent>,
    actions: Seq<BasicUploadAction>,
    k: int,
)
    requires
        basic_upload_run(states, events, actions),
        states[0] is AwaitingField,
        0 <= k < actions.len(),
        actions[k] is UploadArchive,
    ensures
        k >= 1,
        actions[k - 1] matches BasicUploadAction::CreatePackage { config, .. } && {
            &&& events[k] matches BasicUploadEvent::PackageCreated { created: Ok(id), .. }
            &&& actions[k] matches BasicUploadAction::UploadArchive { package_id, version }
            &&& package_id == id
            &&& version == config.version
        },
{
    assert(basic_upload_transition(states[k], events[k], states[k + 1], actions[k]));
    lemma_basic_step_progresses(states[k], events[k], states[k + 1], actions[k]);
    assert(k != 0);
    let j = k - 1;
    assert(basic_upload_transition(states[j], events[j], states[j + 1], actions[j]));
}

/// Law: the basic server accepts every description whose name holds at
/// least one ASCII letter, digit, `-` or `_`: once it is parsed, the upload
/// goes on to connect to the database with the description as it came.
pub proof fn law_basic_named_description_is_accepted(c: Config, i: int, s2: BasicUploadState, a: BasicUploadAction)
    requires
        basic_upload_transition(BasicUploadState::Parsing, BasicUploadEvent::ConfigParsed { config: Ok(c) }, s2, a),
        0 <= i < c.name@.len(),
        ('a' <= c.name@[i] <= 'z') || ('A' <= c.name@[i] <= 'Z') || ('0' <= c.name@[i] <= '9') || c.name@[i] == '-'
            || c.name@[i] == '_',
    ensures
        s2 == (BasicUploadState::Connecting { config: c }),
        a is Connect,
{
    assert(crate::names::is_name_char(c.name@[i]));
}

} // verus!
