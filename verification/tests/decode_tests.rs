use rustdrinth::decode::decode_game_version;
use rustdrinth::decode::decode_hit;
use rustdrinth::decode::decode_project_response;
use rustdrinth::decode::decode_project_version;
use rustdrinth::decode::decode_search_response;
use rustdrinth::errors::ClientError;
use rustdrinth::json::Json;

fn jstr(v: &str) -> Json {
    Json::Str(v.to_string())
}

fn entry(k: &str, v: Json) -> (String, Json) {
    (k.to_string(), v)
}

#[test]
fn hit_decodes_all_fields() {
    let j = Json::Obj(vec![
        entry("slug", jstr("sodium")),
        entry("title", jstr("Sodium")),
        entry("description", jstr("A fast mod")),
    ]);
    let h = decode_hit(&j).unwrap();
    assert_eq!(h.slug, "sodium");
    assert_eq!(h.title, "Sodium");
    assert_eq!(h.description, "A fast mod");
}

#[test]
fn hit_ignores_unknown_fields() {
    let j = Json::Obj(vec![
        entry("downloads", Json::Num),
        entry("slug", jstr("s")),
        entry("title", jstr("t")),
        entry("description", jstr("d")),
        entry("icon_url", Json::Null),
    ]);
    assert!(decode_hit(&j).is_ok());
}

#[test]
fn hit_missing_field_is_decode_error() {
    let j = Json::Obj(vec![entry("slug", jstr("s")), entry("title", jstr("t"))]);
    assert_eq!(decode_hit(&j).unwrap_err(), ClientError::Decode);
}

#[test]
fn hit_wrongly_typed_field_is_decode_error() {
    let j = Json::Obj(vec![
        entry("slug", jstr("s")),
        entry("title", Json::Num),
        entry("description", jstr("d")),
    ]);
    assert_eq!(decode_hit(&j).unwrap_err(), ClientError::Decode);
}

#[test]
fn search_response_decodes_hits_in_order() {
    let j = Json::Obj(vec![entry(
        "hits",
        Json::Arr(vec![
            Json::Obj(vec![
                entry("slug", jstr("a")),
                entry("title", jstr("A")),
                entry("description", jstr("da")),
            ]),
            Json::Obj(vec![
                entry("slug", jstr("b")),
                entry("title", jstr("B")),
                entry("description", jstr("db")),
            ]),
        ]),
    )]);
    let m = decode_search_response(&j).unwrap();
    assert_eq!(m.hits.len(), 2);
    assert_eq!(m.hits[0].slug, "a");
    assert_eq!(m.hits[1].slug, "b");
}

#[test]
fn search_response_without_hits_is_decode_error() {
    let j = Json::Obj(vec![entry("total_hits", Json::Num)]);
    assert_eq!(decode_search_response(&j).unwrap_err(), ClientError::Decode);
}

#[test]
fn project_response_decodes_all_fields() {
    let j = Json::Obj(vec![
        entry("body", jstr("Long body")),
        entry("categories", Json::Arr(vec![jstr("optimization"), jstr("utility")])),
        entry("title", jstr("Sodium")),
        entry("project_type", jstr("mod")),
        entry("slug", jstr("sodium")),
    ]);
    let p = decode_project_response(&j).unwrap();
    assert_eq!(p.body, "Long body");
    assert_eq!(p.categories, vec!["optimization".to_string(), "utility".to_string()]);
    assert_eq!(p.title, "Sodium");
    assert_eq!(p.project_type, "mod");
    assert_eq!(p.slug, "sodium");
}

#[test]
fn project_response_with_non_string_category_is_decode_error() {
    let j = Json::Obj(vec![
        entry("body", jstr("b")),
        entry("categories", Json::Arr(vec![Json::Num])),
        entry("title", jstr("t")),
        entry("project_type", jstr("mod")),
        entry("slug", jstr("s")),
    ]);
    assert_eq!(decode_project_response(&j).unwrap_err(), ClientError::Decode);
}

#[test]
fn project_version_decodes_dependencies() {
    let j = Json::Obj(vec![entry(
        "dependencies",
        Json::Arr(vec![Json::Obj(vec![
            entry("project_id", jstr("P1")),
            entry("dependency_type", jstr("required")),
        ])]),
    )]);
    let v = decode_project_version(&j).unwrap();
    assert_eq!(v.dependencies.len(), 1);
    assert_eq!(v.dependencies[0].project_id, "P1");
    assert_eq!(v.dependencies[0].dependency_type, "required");
}

#[test]
fn project_version_without_dependencies_field_is_decode_error() {
    let j = Json::Obj(vec![entry("name", jstr("1.0"))]);
    assert_eq!(decode_project_version(&j).unwrap_err(), ClientError::Decode);
}

#[test]
fn game_version_decodes_loaders_and_files() {
    let j = Json::Obj(vec![
        entry("loaders", Json::Arr(vec![jstr("fabric"), jstr("quilt")])),
        entry(
            "files",
            Json::Arr(vec![Json::Obj(vec![
                entry("url", jstr("https://cdn.example/a.jar")),
                entry("filename", jstr("a.jar")),
            ])]),
        ),
    ]);
    let v = decode_game_version(&j).unwrap();
    assert_eq!(v.loaders, vec!["fabric".to_string(), "quilt".to_string()]);
    assert_eq!(v.files.len(), 1);
    assert_eq!(v.files[0].url, "https://cdn.example/a.jar");
    assert_eq!(v.files[0].filename, "a.jar");
}

#[test]
fn game_version_missing_files_is_decode_error() {
    let j = Json::Obj(vec![entry("loaders", Json::Arr(vec![jstr("fabric")]))]);
    assert_eq!(decode_game_version(&j).unwrap_err(), ClientError::Decode);
}

#[test]
fn error_messages_are_fixed() {
    assert_eq!(ClientError::Decode.message(), "Couldn't decode the response body");
    assert_eq!(ClientError::NoVersions.message(), "No versions found for this project");
    assert_eq!(
        ClientError::NoDependencies.message(),
        "No dependencies found for this project's version"
    );
    assert_eq!(ClientError::NoMatchingFiles.message(), "No matching GameFiles found");
}
