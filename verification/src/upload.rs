//! `POST /api/pkg/new`: publishing a package archive.
//!
//! The handler alternates between work that only the server can do (saving
//! the uploaded file, parsing TOML, talking to the database) and decisions.
//! The decisions are the state machine below: the server feeds it what each
//! piece of work gave and carries out the action it answers with.

use vstd::prelude::*;
use crate::archive::{config_search_result, find_package_config, ConfigSearch};
use crate::common::PackageConfig;
use crate::names::{ascii_lowercase, is_valid_identifier, is_valid_identifier_str, normalize_identifier};
use crate::response::{concat3, concat5, decimal, int_decimal, is_text_response, text_response, ContentType, Response};

verus! {

/// A file name without directories: no `/` or `\`, and neither `.` nor `..`.
pub open spec fn is_plain_file_name(s: Seq<char>) -> bool {
    &&& forall|i: int| 0 <= i < s.len() ==> #[trigger] s[i] != '/' && s[i] != '\\'
    &&& s != seq!['.']
    &&& s != seq!['.', '.']
}

/// What `sanitize_filename::sanitize` makes of a file name, with its default
/// options. Those options follow the platform the library is built for (on
/// Windows, reserved device names are removed too), so the name is fixed for
/// each build, as the `Path` names are.
pub uninterp spec fn sanitized_file_name(name: Seq<char>) -> Seq<char>;

/// `sanitize_filename::sanitize` with its default options.
///
/// Trusted: the result is `sanitized_file_name` of the argument. Its source
/// removes `/`, `\` and the other characters that file systems reserve, and
/// replaces names made only of dots by the empty name; a result longer than
/// 255 bytes is cut at a character boundary. So the result holds no `/` or
/// `\` and is neither `.` nor `..`. Which other characters it keeps is not
/// written out here: the name stands for it.
#[verifier::external_body]
pub(crate) fn sanitize_file_name(name: &str) -> (r: String)
    ensures
        r@ == sanitized_file_name(name@),
        is_plain_file_name(r@),
{
    sanitize_filename::sanitize(name)
}

/// The package description with its name and version normalized.
pub open spec fn is_normalized_config(c: PackageConfig, parsed: PackageConfig) -> bool {
    &&& c.name@ == ascii_lowercase(parsed.name@)
    &&& c.version@ == ascii_lowercase(parsed.version@)
    &&& c.author == parsed.author
    &&& c.post_script == parsed.post_script
}

/// Where an upload stands.
pub enum UploadState {
    /// Waiting for the first field of the multipart body.
    AwaitingField,
    /// The uploaded file is being saved and read back.
    Saving,
    /// The package description is being parsed.
    Parsing,
    /// The description (normalized and checked) waits for a database connection.
    Connecting { config: PackageConfig },
    /// The package record is being created.
    Creating { config: PackageConfig },
    /// The archive of the created package is being stored.
    Uploading { package_id: i32, config_json: String },
    /// The request has been answered (or abandoned).
    Finished,
}

/// What the server reports back to the state machine.
pub enum UploadEvent {
    /// The multipart body has no (further) field.
    NoMoreFields,
    /// A field arrived; `filename` is the file name of its content
    /// disposition, if it has one.
    Field { filename: Option<String> },
    /// The saved file was opened and read (`Ok` with its bytes), or could not
    /// be opened (`Err` with the error's text).
    ArchiveStored { contents: Result<Vec<u8>, String> },
    /// The TOML text was parsed into a description, or the parse error's text.
    ConfigParsed { config: Result<PackageConfig, String> },
    /// The database connection was established, or the error's text.
    Connected { connection: Result<(), String> },
    /// The package record was created with this id, or the error's text;
    /// `config_json` is the JSON text of the description that was stored.
    PackageCreated { created: Result<i32, String>, config_json: String },
    /// The archive was stored, or the error's text.
    ArchiveUploaded { stored: Result<(), String> },
}

/// What the server has to do next.
pub enum UploadAction {
    /// Save the field's data to `path`, then open and read the file back.
    SaveField { path: String },
    /// Parse `text` as a TOML package description.
    ParseConfig { text: String },
    /// Connect to the database.
    Connect,
    /// Create the package record: `config.name`, `publisher`, the JSON text
    /// of `config`, and `config.version`.
    CreatePackage { config: PackageConfig, publisher: i32 },
    /// Store the saved file as the archive of `package_id` at `version`.
    UploadArchive { package_id: i32, version: String },
    /// Send this response; the request is done.
    Respond(Response),
    /// Give up on the request without a response.
    Abort,
    /// Nothing to do: the request is already done.
    Nothing,
}

/// The action answers with status `status`, JSON content type, and `text`.
pub open spec fn replies_json(a: UploadAction, status: u16, text: Seq<char>) -> bool {
    a matches UploadAction::Respond(r) && is_text_response(r, status, ContentType::Json, text)
}

/// The answer when the body holds no file.
pub open spec fn no_files_body() -> Seq<char> {
    "{\"status: 5\", \"error\": \"No files uploaded\"}"@
}

/// The answer when the saved file cannot be opened.
pub open spec fn open_failed_body(e: Seq<char>) -> Seq<char> {
    "{\"status\": 1, \"error\": \"Error processing archive: "@ + e + "\"}"@
}

/// The answer when the description is not valid TOML.
pub open spec fn bad_config_body(e: Seq<char>) -> Seq<char> {
    "{\"status\": 2, \"error\": \"Bad config: "@ + e + "\"}"@
}

/// The answer when the name or the version is refused (both name the name).
pub open spec fn invalid_name_body(name: Seq<char>) -> Seq<char> {
    "{\"status\": 2, \"error\": \"Invalid name in package.toml, provided: "@ + name + "\"}"@
}

/// The answer when the database cannot be reached.
pub open spec fn connection_failed_body(e: Seq<char>) -> Seq<char> {
    "{\"status\": 3, error: \"Database connection error "@ + e + "\" "@
}

/// The answer when the package record cannot be created.
pub open spec fn create_failed_body(e: Seq<char>) -> Seq<char> {
    "{\"status\": 4, error: \"Error creating package in database: "@ + e + "\" "@
}

/// The answer when the archive cannot be stored.
pub open spec fn upload_failed_body(e: Seq<char>) -> Seq<char> {
    "{\"status\": 4, error: \"Error uploading archive to database: "@ + e + "\" "@
}

/// The answer to a successful upload.
pub open spec fn published_body(id: i32, config_json: Seq<char>) -> Seq<char> {
    "{\"status\": \"0\", \"id\": "@ + int_decimal(id as int) + ", \"package\": "@ + config_json + "}"@
}

/// One step of the upload: in state `s`, event `e` leads to state `s2` and
/// action `a`.
pub open spec fn upload_transition(s: UploadState, e: UploadEvent, s2: UploadState, a: UploadAction) -> bool {
    match (s, e) {
        (UploadState::AwaitingField, UploadEvent::NoMoreFields) =>
            s2 is Finished && replies_json(a, 400, no_files_body()),
        (UploadState::AwaitingField, UploadEvent::Field { filename }) => match filename {
            None => s2 is Finished && a is Abort,
            Some(f) => {
                &&& s2 is Saving
                &&& a matches UploadAction::SaveField { path }
                &&& path@ == "./tmp/"@ + sanitized_file_name(f@)
                &&& is_plain_file_name(sanitized_file_name(f@))
            },
        },
        (UploadState::Saving, UploadEvent::ArchiveStored { contents }) => match contents {
            Err(msg) => s2 is Finished && replies_json(a, 500, open_failed_body(msg@)),
            Ok(bytes) => exists|found: ConfigSearch| #[trigger] config_search_result(bytes@, found) && match found {
                ConfigSearch::Found(text) => {
                    &&& s2 is Parsing
                    &&& a matches UploadAction::ParseConfig { text: t }
                    &&& t@ == text@
                },
                ConfigSearch::Missing => {
                    &&& s2 is Parsing
                    &&& a matches UploadAction::ParseConfig { text: t }
                    &&& t@ == Seq::<char>::empty()
                },
                ConfigSearch::NotText => s2 is Finished && a is Abort,
                ConfigSearch::Unreadable => s2 is Finished && a is Abort,
            },
        },
        (UploadState::Parsing, UploadEvent::ConfigParsed { config }) => match config {
            Err(msg) => s2 is Finished && replies_json(a, 400, bad_config_body(msg@)),
            Ok(parsed) => {
                let name = ascii_lowercase(parsed.name@);
                let version = ascii_lowercase(parsed.version@);
                if !is_valid_identifier(name) || !is_valid_identifier(version) {
                    s2 is Finished && replies_json(a, 400, invalid_name_body(name))
                } else {
                    s2 matches UploadState::Connecting { config } && is_normalized_config(config, parsed) && a is Connect
                }
            },
        },
        (UploadState::Connecting { config }, UploadEvent::Connected { connection }) => match connection {
            Err(msg) => s2 is Finished && replies_json(a, 500, connection_failed_body(msg@)),
            Ok(_) => s2 == (UploadState::Creating { config }) && a == (UploadAction::CreatePackage { config, publisher: 0 }),
        },
        (UploadState::Creating { config }, UploadEvent::PackageCreated { created, config_json }) => match created {
            Err(msg) => s2 is Finished && replies_json(a, 500, create_failed_body(msg@)),
            Ok(id) => {
                &&& s2 == (UploadState::Uploading { package_id: id, config_json })
                &&& a matches UploadAction::UploadArchive { package_id, version }
                &&& package_id == id
                &&& version == config.version
            },
        },
        (UploadState::Uploading { package_id, config_json }, UploadEvent::ArchiveUploaded { stored }) => match stored {
            Err(msg) => s2 is Finished && replies_json(a, 500, upload_failed_body(msg@)),
            Ok(_) => s2 is Finished && replies_json(a, 200, published_body(package_id, config_json@)),
        },
        (UploadState::Finished, _) => s2 is Finished && a is Nothing,
        _ => s2 is Finished && a is Abort,
    }
}

/// A JSON response.
fn json(status: u16, text: String) -> (r: UploadAction)
    ensures
        replies_json(r, status, text@),
{
    UploadAction::Respond(text_response(status, ContentType::Json, text))
}

/// Takes one step of the upload.
pub fn upload_step(state: UploadState, event: UploadEvent) -> (r: (UploadState, UploadAction))
    ensures
        upload_transition(state, event, r.0, r.1),
{
    match (state, event) {
        (UploadState::AwaitingField, UploadEvent::NoMoreFields) => {
            (UploadState::Finished, json(400, String::from_str("{\"status: 5\", \"error\": \"No files uploaded\"}")))
        },
        (UploadState::AwaitingField, UploadEvent::Field { filename }) => match filename {
            None => (UploadState::Finished, UploadAction::Abort),
            Some(f) => {
                let name = sanitize_file_name(f.as_str());
                let path = String::from_str("./tmp/").concat(name.as_str());
                assert(path@ == "./tmp/"@ + name@);
                (UploadState::Saving, UploadAction::SaveField { path })
            },
        },
        (UploadState::Saving, UploadEvent::ArchiveStored { contents }) => match contents {
            Err(msg) => (UploadState::Finished, json(500, concat3("{\"status\": 1, \"error\": \"Error processing archive: ", msg.as_str(), "\"}"))),
            Ok(bytes) => {
                let found = find_package_config(bytes.as_slice());
                let ghost g = found;
                let r = match found {
                    ConfigSearch::Found(text) => (UploadState::Parsing, UploadAction::ParseConfig { text }),
                    ConfigSearch::Missing => (UploadState::Parsing, UploadAction::ParseConfig { text: String::new() }),
                    ConfigSearch::NotText => (UploadState::Finished, UploadAction::Abort),
                    ConfigSearch::Unreadable => (UploadState::Finished, UploadAction::Abort),
                };
                assert(config_search_result(bytes@, g));
                r
            },
        },
        (UploadState::Parsing, UploadEvent::ConfigParsed { config }) => match config {
            Err(msg) => (UploadState::Finished, json(400, concat3("{\"status\": 2, \"error\": \"Bad config: ", msg.as_str(), "\"}"))),
            Ok(parsed) => {
                let name = normalize_identifier(parsed.name.as_str());
                let version = normalize_identifier(parsed.version.as_str());
                if !is_valid_identifier_str(name.as_str()) || !is_valid_identifier_str(version.as_str()) {
                    let body = concat3("{\"status\": 2, \"error\": \"Invalid name in package.toml, provided: ", name.as_str(), "\"}");
                    (UploadState::Finished, json(400, body))
                } else {
                    let config = PackageConfig { name, version, author: parsed.author, post_script: parsed.post_script };
                    (UploadState::Connecting { config }, UploadAction::Connect)
                }
            },
        },
        (UploadState::Connecting { config }, UploadEvent::Connected { connection }) => match connection {
            Err(msg) => (UploadState::Finished, json(500, concat3("{\"status\": 3, error: \"Database connection error ", msg.as_str(), "\" "))),
            Ok(_) => {
                let copy = config.duplicate();
                (UploadState::Creating { config }, UploadAction::CreatePackage { config: copy, publisher: 0 })
            },
        },
        (UploadState::Creating { config }, UploadEvent::PackageCreated { created, config_json }) => match created {
            Err(msg) => (UploadState::Finished, json(500, concat3("{\"status\": 4, error: \"Error creating package in database: ", msg.as_str(), "\" "))),
            Ok(id) => (UploadState::Uploading { package_id: id, config_json }, UploadAction::UploadArchive { package_id: id, version: config.version }),
        },
        (UploadState::Uploading { package_id, config_json }, UploadEvent::ArchiveUploaded { stored }) => match stored {
            Err(msg) => (UploadState::Finished, json(500, concat3("{\"status\": 4, error: \"Error uploading archive to database: ", msg.as_str(), "\" "))),
            Ok(_) => {
                let id = decimal(package_id);
                let body = concat5("{\"status\": \"0\", \"id\": ", id.as_str(), ", \"package\": ", config_json.as_str(), "}");
                (UploadState::Finished, json(200, body))
            },
        },
        (UploadState::Finished, _) => (UploadState::Finished, UploadAction::Nothing),
        (_, _) => (UploadState::Finished, UploadAction::Abort),
    }
}

/// A run of the upload: `states[i]` and `events[i]` lead to `states[i + 1]`
/// and `actions[i]`.
pub open spec fn upload_run(states: Seq<UploadState>, events: Seq<UploadEvent>, actions: Seq<UploadAction>) -> bool {
    &&& states.len() == events.len() + 1
    &&& actions.len() == events.len()
    &&& forall|i: int| 0 <= i < events.len() ==> #[trigger] upload_transition(states[i], events[i], states[i + 1], actions[i])
}

/// An action that ends the request: a response, or giving up.
pub open spec fn ends_request(a: UploadAction) -> bool {
    a is Respond || a is Abort
}

/// A name and version the registry accepts.
pub open spec fn has_valid_identifiers(c: PackageConfig) -> bool {
    is_valid_identifier(c.name@) && is_valid_identifier(c.version@)
}

/// Every step that ends the request leads to `Finished`, and `Finished`
/// never ends a request again.
proof fn lemma_finished_absorbs(s: UploadState, e: UploadEvent, s2: UploadState, a: UploadAction)
    requires
        upload_transition(s, e, s2, a),
    ensures
        ends_request(a) ==> s2 is Finished,
        s is Finished ==> s2 is Finished && a is Nothing,
{
}

/// Law: an upload request is answered at most once. In any run, once an
/// action has ended the request (a response or giving up), no later action
/// ends it again.
pub proof fn law_upload_answered_at_most_once(
    states: Seq<UploadState>,
    events: Seq<UploadEvent>,
    actions: Seq<UploadAction>,
    i: int,
    j: int,
)
    requires
        upload_run(states, events, actions),
        0 <= i < j < actions.len(),
        ends_request(actions[i]),
    ensures
        !ends_request(actions[j]),
    decreases j - i,
{
    assert(upload_transition(states[i], events[i], states[i + 1], actions[i]));
    lemma_finished_absorbs(states[i], events[i], states[i + 1], actions[i]);
    lemma_stays_finished(states, events, actions, i + 1, j);
    assert(upload_transition(states[j], events[j], states[j + 1], actions[j]));
}

/// Once a run is `Finished` it stays there.
proof fn lemma_stays_finished(states: Seq<UploadState>, events: Seq<UploadEvent>, actions: Seq<UploadAction>, i: int, j: int)
    requires
        upload_run(states, events, actions),
        0 <= i <= j < states.len(),
        states[i] is Finished,
    ensures
        states[j] is Finished,
    decreases j - i,
{
    if i < j {
        assert(upload_transition(states[i], events[i], states[i + 1], actions[i]));
        lemma_stays_finished(states, events, actions, i + 1, j);
    }
}

/// Every state a run from `AwaitingField` reaches holds a checked
/// description, if it holds one at all.
pub open spec fn upload_state_checked(s: UploadState) -> bool {
    match s {
        UploadState::Connecting { config } => has_valid_identifiers(config),
        UploadState::Creating { config } => has_valid_identifiers(config),
        _ => true,
    }
}

proof fn lemma_step_keeps_checked(s: UploadState, e: UploadEvent, s2: UploadState, a: UploadAction)
    requires
        upload_transition(s, e, s2, a),
        upload_state_checked(s),
    ensures
        upload_state_checked(s2),
        a matches UploadAction::CreatePackage { config, publisher } ==> has_valid_identifiers(config) && publisher == 0,
{
}

proof fn lemma_run_checked(states: Seq<UploadState>, events: Seq<UploadEvent>, actions: Seq<UploadAction>, k: int)
    requires
        upload_run(states, events, actions),
        upload_state_checked(states[0]),
        0 <= k < states.len(),
    ensures
        upload_state_checked(states[k]),
    decreases k,
{
    if k > 0 {
        let j = k - 1;
        lemma_run_checked(states, events, actions, j);
        assert(upload_transition(states[j], events[j], states[j + 1], actions[j]));
        lemma_step_keeps_checked(states[j], events[j], states[j + 1], actions[j]);
    }
}

/// Law: the registry only ever creates package records whose name and
/// version are accepted identifiers (lower-case letters, digits, `-`, `_`,
/// `.`), under publisher 0.
pub proof fn law_created_packages_are_valid(
    states: Seq<UploadState>,
    events: Seq<UploadEvent>,
    actions: Seq<UploadAction>,
    k: int,
)
    requires
        upload_run(states, events, actions),
        states[0] is AwaitingField,
        0 <= k < actions.len(),
        actions[k] is CreatePackage,
    ensures
        actions[k] matches UploadAction::CreatePackage { config, publisher } && has_valid_identifiers(config) && publisher == 0,
{
    lemma_run_checked(states, events, actions, k);
    assert(upload_transition(states[k], events[k], states[k + 1], actions[k]));
    lemma_step_keeps_checked(states[k], events[k], states[k + 1], actions[k]);
}

/// Law: an upload is only answered with success after the package record
/// was created (with a checked name and version) and the archive was stored
/// under the id the database gave, which the answer reports.
pub proof fn law_success_after_create_and_store(
    states: Seq<UploadState>,
    events: Seq<UploadEvent>,
    actions: Seq<UploadAction>,
    k: int,
)
    requires
        upload_run(states, events, actions),
        states[0] is AwaitingField,
        0 <= k < actions.len(),
        actions[k] matches UploadAction::Respond(r) && r.status == 200,
    ensures
        k >= 2,
        actions[k - 2] matches UploadAction::CreatePackage { config, publisher } && {
            &&& has_valid_identifiers(config)
            &&& actions[k - 1] matches UploadAction::UploadArchive { version, .. }
            &&& version == config.version
        },
        actions[k - 1] matches UploadAction::UploadArchive { package_id, version }
            && events[k - 1] matches UploadEvent::PackageCreated { created, config_json }
            && created == Ok::<i32, String>(package_id)
            && replies_json(actions[k], 200, published_body(package_id, config_json@)),
{
    assert(upload_transition(states[k], events[k], states[k + 1], actions[k]));
    assert(states[k] is Uploading);
    assert(k > 0);
    let j = k - 1;
    assert(upload_transition(states[j], events[j], states[j + 1], actions[j]));
    assert(states[j] is Creating);
    assert(j > 0);
    let h = j - 1;
    assert(upload_transition(states[h], events[h], states[h + 1], actions[h]));
    law_created_packages_are_valid(states, events, actions, k - 2);
}

/// How far an upload has got; every step moves it forward, except that
/// `Finished` stays where it is.
pub open spec fn upload_progress(s: UploadState) -> int {
    match s {
        UploadState::AwaitingField => 0,
        UploadState::Saving => 1,
        UploadState::Parsing => 2,
        UploadState::Connecting { .. } => 3,
        UploadState::Creating { .. } => 4,
        UploadState::Uploading { .. } => 5,
        UploadState::Finished => 6,
    }
}

proof fn lemma_step_progresses(s: UploadState, e: UploadEvent, s2: UploadState, a: UploadAction)
    requires
        upload_transition(s, e, s2, a),
    ensures
        upload_progress(s) <= upload_progress(s2),
        !(s is Finished) ==> upload_progress(s) < upload_progress(s2),
        a is SaveField ==> s is AwaitingField,
        a is CreatePackage ==> s is Connecting && s2 is Creating,
        a is UploadArchive ==> s is Creating && s2 is Uploading,
{
}

proof fn lemma_run_progresses(states: Seq<UploadState>, events: Seq<UploadEvent>, actions: Seq<UploadAction>, i: int, j: int)
    requires
        upload_run(states, events, actions),
        0 <= i < j < states.len(),
    ensures
        upload_progress(states[i]) <= upload_progress(states[j]),
        !(states[i] is Finished) ==> upload_progress(states[i]) < upload_progress(states[j]),
    decreases j - i,
{
    assert(upload_transition(states[i], events[i], states[i + 1], actions[i]));
    lemma_step_progresses(states[i], events[i], states[i + 1], actions[i]);
    if i + 1 < j {
        lemma_run_progresses(states, events, actions, i + 1, j);
    }
}

/// Law: an upload reads one field of the multipart body. Only the first
/// step of a run waits for a field, and only it saves one: whatever fields
/// follow are never read.
pub proof fn law_upload_reads_one_field(
    states: Seq<UploadState>,
    events: Seq<UploadEvent>,
    actions: Seq<UploadAction>,
    k: int,
)
    requires
        upload_run(states, events, actions),
        0 < k < states.len(),
    ensures
        !(states[k] is AwaitingField),
        k < actions.len() ==> !(actions[k] is SaveField),
{
    lemma_run_progresses(states, events, actions, 0, k);
    if k < actions.len() {
        assert(upload_transition(states[k], events[k], states[k + 1], actions[k]));
        lemma_step_progresses(states[k], events[k], states[k + 1], actions[k]);
    }
}

/// Law: one upload creates at most one package record. In a run, no two
/// actions ask to create a package.
pub proof fn law_upload_creates_one_package(
    states: Seq<UploadState>,
    events: Seq<UploadEvent>,
    actions: Seq<UploadAction>,
    i: int,
    j: int,
)
    requires
        upload_run(states, events, actions),
        0 <= i < j < actions.len(),
        actions[i] is CreatePackage,
    ensures
        !(actions[j] is CreatePackage),
{
    assert(upload_transition(states[i], events[i], states[i + 1], actions[i]));
    lemma_step_progresses(states[i], events[i], states[i + 1], actions[i]);
    assert(upload_transition(states[j], events[j], states[j + 1], actions[j]));
    lemma_step_progresses(states[j], events[j], states[j + 1], actions[j]);
    if i + 1 < j {
        lemma_run_progresses(states, events, actions, i + 1, j);
    }
}

/// Law: one upload stores at most one archive. In a run, no two actions ask
/// to store an archive.
pub proof fn law_upload_stores_one_archive(
    states: Seq<UploadState>,
    events: Seq<UploadEvent>,
    actions: Seq<UploadAction>,
    i: int,
    j: int,
)
    requires
        upload_run(states, events, actions),
        0 <= i < j < actions.len(),
        actions[i] is UploadArchive,
    ensures
        !(actions[j] is UploadArchive),
{
    assert(upload_transition(states[i], events[i], states[i + 1], actions[i]));
    lemma_step_progresses(states[i], events[i], states[i + 1], actions[i]);
    assert(upload_transition(states[j], events[j], states[j + 1], actions[j]));
    lemma_step_progresses(states[j], events[j], states[j + 1], actions[j]);
    if i + 1 < j {
        lemma_run_progresses(states, events, actions, i + 1, j);
    }
}

/// Law: a description whose name and version are made only of ASCII
/// letters (of either case), digits, `-`, `_` and `.`, and are not empty, is
/// never refused: once it is parsed, the upload goes on to connect to the
/// database with the name and version lower-cased.
pub proof fn law_valid_description_is_accepted(parsed: PackageConfig, s2: UploadState, a: UploadAction)
    requires
        upload_transition(UploadState::Parsing, UploadEvent::ConfigParsed { config: Ok(parsed) }, s2, a),
        parsed.name@.len() > 0,
        parsed.version@.len() > 0,
        forall|i: int| 0 <= i < parsed.name@.len() ==> {
            let c = #[trigger] parsed.name@[i];
            ('a' <= c <= 'z') || ('A' <= c <= 'Z') || ('0' <= c <= '9') || c == '-' || c == '_' || c == '.'
        },
        forall|i: int| 0 <= i < parsed.version@.len() ==> {
            let c = #[trigger] parsed.version@[i];
            ('a' <= c <= 'z') || ('A' <= c <= 'Z') || ('0' <= c <= '9') || c == '-' || c == '_' || c == '.'
        },
    ensures
        a is Connect,
        s2 matches UploadState::Connecting { config } && {
            &&& config.name@ == ascii_lowercase(parsed.name@)
            &&& config.version@ == ascii_lowercase(parsed.version@)
            &&& config.author == parsed.author
            &&& config.post_script == parsed.post_script
        },
{
    let name = ascii_lowercase(parsed.name@);
    let version = ascii_lowercase(parsed.version@);
    assert forall|i: int| 0 <= i < name.len() implies crate::names::is_identifier_char(#[trigger] name[i]) by {
        let c = parsed.name@[i];
        if 'A' <= c <= 'Z' {
            assert(('A' as u32) + 32 == 'a' as u32);
            assert(('Z' as u32) + 32 == 'z' as u32);
        }
    }
    assert forall|i: int| 0 <= i < version.len() implies crate::names::is_identifier_char(#[trigger] version[i]) by {
        let c = parsed.version@[i];
        if 'A' <= c <= 'Z' {
            assert(('A' as u32) + 32 == 'a' as u32);
            assert(('Z' as u32) + 32 == 'z' as u32);
        }
    }
}

} // verus!
