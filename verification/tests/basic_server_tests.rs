use gib::basic_server::{basic_get_package, basic_index, basic_upload_step, BasicUploadAction, BasicUploadEvent, BasicUploadState, Config};
use gib::response::{Body, ContentType, Response};
use std::io::Write;

fn text_of(a: &BasicUploadAction) -> (u16, ContentType, String) {
    match a {
        BasicUploadAction::Respond(Response { status, content_type, body: Body::Text(t) }) => (*status, *content_type, t.clone()),
        _ => panic!("expected a text response"),
    }
}

fn response_text(r: &Response) -> (u16, ContentType, String) {
    match &r.body {
        Body::Text(t) => (r.status, r.content_type, t.clone()),
        Body::Binary(_) => panic!("expected text"),
    }
}

fn config(name: &str) -> Config {
    Config { name: name.to_string(), version: "1".to_string(), author: "a".to_string(), post_script: None }
}

fn tar_gz(path: &str, data: &[u8]) -> Vec<u8> {
    let mut builder = tar::Builder::new(Vec::new());
    let mut header = tar::Header::new_gnu();
    header.set_size(data.len() as u64);
    header.set_mode(0o644);
    header.set_cksum();
    builder.append_data(&mut header, path, data).unwrap();
    let mut encoder = flate2::write::GzEncoder::new(Vec::new(), flate2::Compression::default());
    encoder.write_all(&builder.into_inner().unwrap()).unwrap();
    encoder.finish().unwrap()
}

#[test]
fn basic_routes() {
    assert_eq!(response_text(&basic_index()), (200, ContentType::Unspecified, "{\"server-version\": \"1.0.0\"}".to_string()));
    assert_eq!(response_text(&basic_get_package(None)).0, 400);
    assert_eq!(response_text(&basic_get_package(Some("x"))).0, 501);
}

#[test]
fn basic_upload_refusals() {
    let (_, a) = basic_upload_step(BasicUploadState::AwaitingField, BasicUploadEvent::NoMoreFields);
    assert_eq!(text_of(&a), (400, ContentType::Json, "{\"status: 1\", \"error\": \"no files uploaded\"}".to_string()));
    let (_, a) = basic_upload_step(BasicUploadState::Saving, BasicUploadEvent::ArchiveStored { contents: Err("x".to_string()) });
    assert_eq!(text_of(&a), (500, ContentType::Unspecified, "Could not process archive".to_string()));
    let (_, a) = basic_upload_step(BasicUploadState::Parsing, BasicUploadEvent::ConfigParsed { config: Err("e".to_string()) });
    assert_eq!(text_of(&a), (400, ContentType::Json, "{\"status\": 2, \"error\": \"Invalid config file: e\"}".to_string()));
    let (_, a) = basic_upload_step(BasicUploadState::Parsing, BasicUploadEvent::ConfigParsed { config: Ok(config("!!!")) });
    assert_eq!(text_of(&a), (400, ContentType::Json, "{\"status\": 2, \"error\": \"Invalid name in package.toml\"}".to_string()));
}

#[test]
fn basic_upload_keeps_names_as_given() {
    let (s, a) = basic_upload_step(BasicUploadState::Parsing, BasicUploadEvent::ConfigParsed { config: Ok(config("Mixed Case!")) });
    assert!(matches!(a, BasicUploadAction::Connect));
    assert!(matches!(s, BasicUploadState::Connecting { ref config } if config.name == "Mixed Case!"));
}

#[test]
fn basic_upload_reads_non_text_description_as_empty() {
    let (_, a) = basic_upload_step(BasicUploadState::Saving, BasicUploadEvent::ArchiveStored { contents: Ok(tar_gz("package.toml", &[0xff])) });
    assert!(matches!(a, BasicUploadAction::ParseConfig { ref text } if text.is_empty()));
    let (_, a) = basic_upload_step(BasicUploadState::Saving, BasicUploadEvent::ArchiveStored { contents: Ok(vec![1, 2, 3]) });
    assert!(matches!(a, BasicUploadAction::Abort));
}

#[test]
fn basic_upload_database_steps() {
    let (_, a) = basic_upload_step(BasicUploadState::Connecting { config: config("p") }, BasicUploadEvent::Connected { connection: Err("c".to_string()) });
    assert_eq!(text_of(&a), (500, ContentType::Json, "{\"status\": 3, error: \"c\" ".to_string()));
    let (_, a) = basic_upload_step(BasicUploadState::Creating { config: config("p") }, BasicUploadEvent::PackageCreated { created: Err("d".to_string()), config_json: String::new() });
    assert_eq!(text_of(&a), (500, ContentType::Json, "{\"status\": 4, error: \"d\" ".to_string()));
    let (_, a) = basic_upload_step(BasicUploadState::Uploading { package_id: 2, config_json: "{}".to_string() }, BasicUploadEvent::ArchiveUploaded { stored: Err("u".to_string()) });
    assert_eq!(text_of(&a), (500, ContentType::Json, "{\"status\": 5, error: \"u\" ".to_string()));
    let (_, a) = basic_upload_step(BasicUploadState::Uploading { package_id: 2, config_json: "{}".to_string() }, BasicUploadEvent::ArchiveUploaded { stored: Ok(()) });
    assert_eq!(text_of(&a), (200, ContentType::Json, "{\"status\": \"0\", \"id\": 2, \"package\": {}}".to_string()));
}

#[test]
fn basic_upload_saves_sanitized_name_and_reads_one_field() {
    let (s, a) = basic_upload_step(BasicUploadState::AwaitingField, BasicUploadEvent::Field { filename: Some("x/y.tar.gz".to_string()) });
    match a {
        BasicUploadAction::SaveField { ref path } => assert_eq!(path, "./tmp/xy.tar.gz"),
        _ => panic!("expected SaveField"),
    }
    let (s, a) = basic_upload_step(s, BasicUploadEvent::Field { filename: Some("second.tar.gz".to_string()) });
    assert!(matches!(s, BasicUploadState::Finished));
    assert!(matches!(a, BasicUploadAction::Abort));
}
