//! `GET /api/pkg/get/{package}`, `.../{package}@latest` and
//! `.../{package}@{version}`: looking up a package and serving its archives.
//!
//! As with uploads, the decisions form a state machine that the server
//! drives: it performs the database work and reports what came of it.

use vstd::prelude::*;
use crate::common::PackageConfig;
use crate::upload::{law_success_after_create_and_store, upload_run, UploadAction, UploadEvent, UploadState};
use crate::models::{Package, PackageArchive};
use crate::response::{concat3, concat5, is_binary_response, is_text_response, text_response, Body, ContentType, Response};

verus! {

/// What the client asked for.
pub enum FetchTarget {
    /// The package's record, as JSON.
    Record,
    /// The archive of the version the package's description names.
    Latest,
    /// The archive of this version.
    Version { version: String },
}

/// Where a fetch stands.
pub enum FetchState {
    /// Waiting for a database connection.
    Connecting { name: String, target: FetchTarget },
    /// Waiting for the packages with this name.
    LookingUp { name: String, target: FetchTarget },
    /// Waiting for the JSON text of the package record.
    Describing,
    /// Waiting for the package's description to be parsed.
    ReadingConfig { package_id: i32, package_name: String, current_version: String },
    /// Waiting for the archives; the names are those an empty answer reports.
    Fetching { package_name: String, shown_version: String },
    /// The request has been answered (or abandoned).
    Finished,
}

/// What the server reports back.
pub enum FetchEvent {
    /// The database connection, or the error's text.
    Connected { connection: Result<(), String> },
    /// The packages found under the name, or the error's text.
    LookedUp { packages: Result<Vec<Package>, String> },
    /// The JSON text of the package record that was asked for.
    Described { json: String },
    /// The parsed description, or `None` where it is not valid JSON.
    ConfigRead { config: Option<PackageConfig> },
    /// The archives found, or the error's text.
    ArchivesFetched { archives: Result<Vec<PackageArchive>, String> },
}

/// What the server has to do next.
pub enum FetchAction {
    /// Connect to the database.
    Connect,
    /// Find the packages whose name is like `name`.
    LookUp { name: String },
    /// Give the JSON text of this record.
    Describe { package: Package },
    /// Parse this JSON text as a package description.
    ReadConfig { text: String },
    /// Find the archives of `package_id` whose version is like `version`.
    FetchArchive { package_id: i32, version: String },
    /// Send this response; the request is done.
    Respond(Response),
    /// Give up on the request without a response.
    Abort,
    /// Nothing to do: the request is already done.
    Nothing,
}

/// The action answers with status `status`, JSON content type, and `text`.
pub open spec fn fetch_replies_json(a: FetchAction, status: u16, text: Seq<char>) -> bool {
    a matches FetchAction::Respond(r) && is_text_response(r, status, ContentType::Json, text)
}

/// The answer when no package name was given.
pub open spec fn missing_name_body() -> Seq<char> {
    "{\"status\": 6, \"error\": \"Please provide a package name\"}"@
}

/// The answer when the database cannot be reached.
pub open spec fn fetch_connection_failed_body(e: Seq<char>) -> Seq<char> {
    "{\"status\": 3, error: \""@ + e + "\" "@
}

/// The answer when a database query fails.
pub open spec fn query_failed_body(e: Seq<char>) -> Seq<char> {
    "{\"status\": 6, error: \""@ + e + "\" "@
}

/// The answer when no package has the name.
pub open spec fn no_package_body(name: Seq<char>) -> Seq<char> {
    "{\"status\": \"7\", \"error\": \"no package found called: "@ + name + "\"}"@
}

/// The answer when the package has no archive for the version.
pub open spec fn no_archive_body(name: Seq<char>, version: Seq<char>) -> Seq<char> {
    "{\"status\": \"7\", \"error\": \"no archive forund for: "@ + name + "@"@ + version + "\"}"@
}

/// The answer with a package record.
pub open spec fn record_body(json: Seq<char>) -> Seq<char> {
    "{\"status\": \"0\", \"package\": "@ + json + "}"@
}

/// How a fetch starts: `name` is the package name taken from the path, if
/// the path has one.
pub open spec fn fetch_start_spec(name: Option<String>, target: FetchTarget, s: FetchState, a: FetchAction) -> bool {
    match name {
        None => s is Finished && if target is Record {
            fetch_replies_json(a, 400, missing_name_body())
        } else {
            a is Abort
        },
        Some(n) => s == (FetchState::Connecting { name: n, target }) && a is Connect,
    }
}

/// One step of a fetch.
pub open spec fn fetch_transition(s: FetchState, e: FetchEvent, s2: FetchState, a: FetchAction) -> bool {
    match (s, e) {
        (FetchState::Connecting { name, target }, FetchEvent::Connected { connection }) => match connection {
            Err(msg) => s2 is Finished && fetch_replies_json(a, 500, fetch_connection_failed_body(msg@)),
            Ok(_) => s2 == (FetchState::LookingUp { name, target }) && a == (FetchAction::LookUp { name }),
        },
        (FetchState::LookingUp { name, target }, FetchEvent::LookedUp { packages }) => match packages {
            Err(msg) => s2 is Finished && fetch_replies_json(a, 500, query_failed_body(msg@)),
            Ok(found) => if found.len() == 0 {
                s2 is Finished && fetch_replies_json(a, 400, no_package_body(name@))
            } else {
                let p = found@[0];
                match target {
                    FetchTarget::Record => s2 is Describing && a == (FetchAction::Describe { package: p }),
                    FetchTarget::Latest => {
                        &&& s2 == (FetchState::ReadingConfig {
                            package_id: p.id,
                            package_name: p.package_name,
                            current_version: p.current_version,
                        })
                        &&& a == (FetchAction::ReadConfig { text: p.configuration })
                    },
                    FetchTarget::Version { version } => {
                        &&& s2 == (FetchState::Fetching { package_name: p.package_name, shown_version: version })
                        &&& a == (FetchAction::FetchArchive { package_id: p.id, version })
                    },
                }
            },
        },
        (FetchState::Describing, FetchEvent::Described { json }) =>
            s2 is Finished && fetch_replies_json(a, 200, record_body(json@)),
        (FetchState::ReadingConfig { package_id, package_name, current_version }, FetchEvent::ConfigRead { config }) => match config {
            None => s2 is Finished && a is Abort,
            Some(c) => {
                &&& s2 == (FetchState::Fetching { package_name, shown_version: current_version })
                &&& a == (FetchAction::FetchArchive { package_id, version: c.version })
            },
        },
        (FetchState::Fetching { package_name, shown_version }, FetchEvent::ArchivesFetched { archives }) => match archives {
            Err(msg) => s2 is Finished && fetch_replies_json(a, 500, query_failed_body(msg@)),
            Ok(found) => if found.len() == 0 {
                s2 is Finished && fetch_replies_json(a, 400, no_archive_body(package_name@, shown_version@))
            } else {
                &&& s2 is Finished
                &&& a matches FetchAction::Respond(r)
                &&& is_binary_response(r, 200, ContentType::Gzip, found@[0].archive@)
            },
        },
        (FetchState::Finished, _) => s2 is Finished && a is Nothing,
        _ => s2 is Finished && a is Abort,
    }
}

/// A JSON response.
fn fetch_json(status: u16, text: String) -> (r: FetchAction)
    ensures
        fetch_replies_json(r, status, text@),
{
    FetchAction::Respond(text_response(status, ContentType::Json, text))
}

/// Starts a fetch for the package `name` (as the request path gives it).
pub fn fetch_start(name: Option<String>, target: FetchTarget) -> (r: (FetchState, FetchAction))
    ensures
        fetch_start_spec(name, target, r.0, r.1),
{
    match name {
        None => match target {
            FetchTarget::Record => (FetchState::Finished, fetch_json(400, String::from_str("{\"status\": 6, \"error\": \"Please provide a package name\"}"))),
            _ => (FetchState::Finished, FetchAction::Abort),
        },
        Some(n) => (FetchState::Connecting { name: n, target }, FetchAction::Connect),
    }
}

/// Takes one step of a fetch.
pub fn fetch_step(state: FetchState, event: FetchEvent) -> (r: (FetchState, FetchAction))
    ensures
        fetch_transition(state, event, r.0, r.1),
{
    match (state, event) {
        (FetchState::Connecting { name, target }, FetchEvent::Connected { connection }) => match connection {
            Err(msg) => (FetchState::Finished, fetch_json(500, concat3("{\"status\": 3, error: \"", msg.as_str(), "\" "))),
            Ok(_) => {
                let lookup = name.clone();
                (FetchState::LookingUp { name, target }, FetchAction::LookUp { name: lookup })
            },
        },
        (FetchState::LookingUp { name, target }, FetchEvent::LookedUp { packages }) => match packages {
            Err(msg) => (FetchState::Finished, fetch_json(500, concat3("{\"status\": 6, error: \"", msg.as_str(), "\" "))),
            Ok(found) => {
                if found.len() == 0 {
                    (FetchState::Finished, fetch_json(400, concat3("{\"status\": \"7\", \"error\": \"no package found called: ", name.as_str(), "\"}")))
                } else {
                    let mut found = found;
                    let p = found.swap_remove(0);
                    match target {
                        FetchTarget::Record => (FetchState::Describing, FetchAction::Describe { package: p }),
                        FetchTarget::Latest => {
                            let Package { id, package_name, publisher: _, configuration, current_version } = p;
                            (
                                FetchState::ReadingConfig { package_id: id, package_name, current_version },
                                FetchAction::ReadConfig { text: configuration },
                            )
                        },
                        FetchTarget::Version { version } => {
                            let shown = version.clone();
                            (
                                FetchState::Fetching { package_name: p.package_name, shown_version: shown },
                                FetchAction::FetchArchive { package_id: p.id, version },
                            )
                        },
                    }
                }
            },
        },
        (FetchState::Describing, FetchEvent::Described { json }) => {
            (FetchState::Finished, fetch_json(200, concat3("{\"status\": \"0\", \"package\": ", json.as_str(), "}")))
        },
        (FetchState::ReadingConfig { package_id, package_name, current_version }, FetchEvent::ConfigRead { config }) => match config {
            None => (FetchState::Finished, FetchAction::Abort),
            Some(c) => (
                FetchState::Fetching { package_name, shown_version: current_version },
                FetchAction::FetchArchive { package_id, version: c.version },
            ),
        },
        (FetchState::Fetching { package_name, shown_version }, FetchEvent::ArchivesFetched { archives }) => match archives {
            Err(msg) => (FetchState::Finished, fetch_json(500, concat3("{\"status\": 6, error: \"", msg.as_str(), "\" "))),
            Ok(found) => {
                if found.len() == 0 {
                    let body = concat5("{\"status\": \"7\", \"error\": \"no archive forund for: ", package_name.as_str(), "@", shown_version.as_str(), "\"}");
                    (FetchState::Finished, fetch_json(400, body))
                } else {
                    let mut found = found;
                    let first = found.swap_remove(0);
                    let r = Response { status: 200, content_type: ContentType::Gzip, body: Body::Binary(first.archive) };
                    (FetchState::Finished, FetchAction::Respond(r))
                }
            },
        },
        (FetchState::Finished, _) => (FetchState::Finished, FetchAction::Nothing),
        (_, _) => (FetchState::Finished, FetchAction::Abort),
    }
}

/// A run of a fetch: `states[i]` and `events[i]` lead to `states[i + 1]`
/// and `actions[i]`.
pub open spec fn fetch_run(states: Seq<FetchState>, events: Seq<FetchEvent>, actions: Seq<FetchAction>) -> bool {
    &&& states.len() == events.len() + 1
    &&& actions.len() == events.len()
    &&& forall|i: int| 0 <= i < events.len() ==> #[trigger] fetch_transition(states[i], events[i], states[i + 1], actions[i])
}

/// An action that ends the request.
pub open spec fn fetch_ends_request(a: FetchAction) -> bool {
    a is Respond || a is Abort
}

proof fn lemma_fetch_stays_finished(states: Seq<FetchState>, events: Seq<FetchEvent>, actions: Seq<FetchAction>, i: int, j: int)
    requires
        fetch_run(states, events, actions),
        0 <= i <= j < states.len(),
        states[i] is Finished,
    ensures
        states[j] is Finished,
        j < actions.len() ==> actions[j] is Nothing,
    decreases j - i,
{
    if i < j {
        assert(fetch_transition(states[i], events[i], states[i + 1], actions[i]));
        lemma_fetch_stays_finished(states, events, actions, i + 1, j);
    } else if j < actions.len() {
        assert(fetch_transition(states[j], events[j], states[j + 1], actions[j]));
    }
}

/// The step at index `i` of a run.
proof fn lemma_fetch_step(states: Seq<FetchState>, events: Seq<FetchEvent>, actions: Seq<FetchAction>, i: int)
    requires
        fetch_run(states, events, actions),
        0 <= i < events.len(),
    ensures
        fetch_transition(states[i], events[i], states[i + 1], actions[i]),
{
}

/// Law: a fetch is answered at most once.
pub proof fn law_fetch_answered_at_most_once(
    states: Seq<FetchState>,
    events: Seq<FetchEvent>,
    actions: Seq<FetchAction>,
    i: int,
    j: int,
)
    requires
        fetch_run(states, events, actions),
        0 <= i < j < actions.len(),
        fetch_ends_request(actions[i]),
    ensures
        !fetch_ends_request(actions[j]),
{
    assert(fetch_transition(states[i], events[i], states[i + 1], actions[i]));
    lemma_fetch_stays_finished(states, events, actions, i + 1, j);
}

/// Law: `GET .../{package}@latest` only ever succeeds by serving the first
/// archive stored for the first package found under the name, at the
/// version that the package's own description names.
pub proof fn law_latest_serves_described_version(
    states: Seq<FetchState>,
    events: Seq<FetchEvent>,
    actions: Seq<FetchAction>,
    name: String,
    k: int,
)
    requires
        fetch_run(states, events, actions),
        states[0] == (FetchState::Connecting { name, target: FetchTarget::Latest }),
        0 <= k < actions.len(),
        actions[k] matches FetchAction::Respond(r) && r.status == 200,
    ensures
        k == 3,
        actions[0] == (FetchAction::LookUp { name }),
        events[1] matches FetchEvent::LookedUp { packages: Ok(found) } && found.len() > 0 && {
            &&& actions[1] == (FetchAction::ReadConfig { text: found@[0].configuration })
            &&& events[2] matches FetchEvent::ConfigRead { config: Some(c) }
            &&& actions[2] == (FetchAction::FetchArchive { package_id: found@[0].id, version: c.version })
        },
        events[3] matches FetchEvent::ArchivesFetched { archives: Ok(archives) } && archives.len() > 0 && {
            &&& actions[3] matches FetchAction::Respond(r)
            &&& is_binary_response(r, 200, ContentType::Gzip, archives@[0].archive@)
        },
{
    lemma_fetch_step(states, events, actions, 0);
    if k == 0 {
        return;
    }
    if states[1] is Finished {
        lemma_fetch_stays_finished(states, events, actions, 1, k);
        return;
    }
    lemma_fetch_step(states, events, actions, 1);
    if k == 1 {
        return;
    }
    if states[2] is Finished {
        lemma_fetch_stays_finished(states, events, actions, 2, k);
        return;
    }
    lemma_fetch_step(states, events, actions, 2);
    if k == 2 {
        return;
    }
    if states[3] is Finished {
        lemma_fetch_stays_finished(states, events, actions, 3, k);
        return;
    }
    lemma_fetch_step(states, events, actions, 3);
    if k > 3 {
        lemma_fetch_stays_finished(states, events, actions, 4, k);
    }
}

/// Law: `GET .../{package}@{version}` only ever succeeds by serving the
/// first archive stored for the first package found under the name, at
/// exactly the requested version.
pub proof fn law_version_serves_requested_version(
    states: Seq<FetchState>,
    events: Seq<FetchEvent>,
    actions: Seq<FetchAction>,
    name: String,
    version: String,
    k: int,
)
    requires
        fetch_run(states, events, actions),
        states[0] == (FetchState::Connecting { name, target: FetchTarget::Version { version } }),
        0 <= k < actions.len(),
        actions[k] matches FetchAction::Respond(r) && r.status == 200,
    ensures
        k == 2,
        actions[0] == (FetchAction::LookUp { name }),
        events[1] matches FetchEvent::LookedUp { packages: Ok(found) } && found.len() > 0
            && actions[1] == (FetchAction::FetchArchive { package_id: found@[0].id, version }),
        events[2] matches FetchEvent::ArchivesFetched { archives: Ok(archives) } && archives.len() > 0 && {
            &&& actions[2] matches FetchAction::Respond(r)
            &&& is_binary_response(r, 200, ContentType::Gzip, archives@[0].archive@)
        },
{
    lemma_fetch_step(states, events, actions, 0);
    if k == 0 {
        return;
    }
    if states[1] is Finished {
        lemma_fetch_stays_finished(states, events, actions, 1, k);
        return;
    }
    lemma_fetch_step(states, events, actions, 1);
    if k == 1 {
        return;
    }
    if states[2] is Finished {
        lemma_fetch_stays_finished(states, events, actions, 2, k);
        return;
    }
    lemma_fetch_step(states, events, actions, 2);
    if k > 2 {
        lemma_fetch_stays_finished(states, events, actions, 3, k);
    }
}

/// Law: publishing and then asking for the latest version meet at the same
/// archive. When an upload succeeded, and a later `@latest` fetch succeeded
/// with the database giving back the package record the upload created (its
/// id) and the description the upload stored (its version), then the fetch
/// asked for the archive under exactly the id and version the upload stored
/// it under.
pub proof fn law_published_archive_is_the_latest(
    up_states: Seq<UploadState>,
    up_events: Seq<UploadEvent>,
    up_actions: Seq<UploadAction>,
    k: int,
    states: Seq<FetchState>,
    events: Seq<FetchEvent>,
    actions: Seq<FetchAction>,
    name: String,
)
    requires
        upload_run(up_states, up_events, up_actions),
        up_states[0] is AwaitingField,
        0 <= k < up_actions.len(),
        up_actions[k] matches UploadAction::Respond(r) && r.status == 200,
        fetch_run(states, events, actions),
        states[0] == (FetchState::Connecting { name, target: FetchTarget::Latest }),
        actions.len() > 3,
        actions[3] matches FetchAction::Respond(r) && r.status == 200,
        up_actions[k - 1] matches UploadAction::UploadArchive { package_id, .. }
            && events[1] matches FetchEvent::LookedUp { packages: Ok(found) } && found.len() > 0 && found@[0].id == package_id,
        up_actions[k - 2] matches UploadAction::CreatePackage { config: stored, .. }
            && events[2] matches FetchEvent::ConfigRead { config: Some(read) } && read.version == stored.version,
    ensures
        up_actions[k - 1] matches UploadAction::UploadArchive { package_id, version }
            && actions[2] == (FetchAction::FetchArchive { package_id, version }),
{
    law_success_after_create_and_store(up_states, up_events, up_actions, k);
    law_latest_serves_described_version(states, events, actions, name, 3);
}

/// Law: publishing and then asking for that version meet at the same
/// archive. When an upload succeeded, and a later fetch of a named version
/// succeeded with the database giving back the package record the upload
/// created (its id), for the version the upload stored (as text, the same
/// version), then the fetch asked for the archive under exactly the id and
/// version the upload stored it under, and served the first archive the
/// database gave for that key.
pub proof fn law_published_archive_is_served_by_version(
    up_states: Seq<UploadState>,
    up_events: Seq<UploadEvent>,
    up_actions: Seq<UploadAction>,
    k: int,
    states: Seq<FetchState>,
    events: Seq<FetchEvent>,
    actions: Seq<FetchAction>,
    name: String,
    version: String,
)
    requires
        upload_run(up_states, up_events, up_actions),
        up_states[0] is AwaitingField,
        0 <= k < up_actions.len(),
        up_actions[k] matches UploadAction::Respond(r) && r.status == 200,
        fetch_run(states, events, actions),
        states[0] == (FetchState::Connecting { name, target: FetchTarget::Version { version } }),
        actions.len() > 2,
        actions[2] matches FetchAction::Respond(r) && r.status == 200,
        up_actions[k - 1] matches UploadAction::UploadArchive { package_id, .. }
            && events[1] matches FetchEvent::LookedUp { packages: Ok(found) } && found.len() > 0 && found@[0].id == package_id,
        up_actions[k - 2] matches UploadAction::CreatePackage { config: stored, .. } && version@ == stored.version@,
    ensures
        up_actions[k - 1] matches UploadAction::UploadArchive { package_id, version: stored_version }
            && actions[1] matches FetchAction::FetchArchive { package_id: id, version: asked }
            && id == package_id && asked@ == stored_version@,
        events[2] matches FetchEvent::ArchivesFetched { archives: Ok(archives) } && archives.len() > 0 && {
            &&& actions[2] matches FetchAction::Respond(r)
            &&& is_binary_response(r, 200, ContentType::Gzip, archives@[0].archive@)
        },
{
    law_success_after_create_and_store(up_states, up_events, up_actions, k);
    law_version_serves_requested_version(states, events, actions, name, version, 2);
}

} // verus!
