use rustdrinth::dirs::minecraft_dir_candidates;
use rustdrinth::dirs::Platform;
use rustdrinth::errors::ClientError;
use rustdrinth::handlers::decode_project_body;
use rustdrinth::handlers::download_target;
use rustdrinth::handlers::get_download_link;
use rustdrinth::handlers::project_info_output;
use rustdrinth::handlers::search_hits_output;
use rustdrinth::handlers::version_dependencies;
use rustdrinth::output::dependency_line;
use rustdrinth::output::format_dependencies;

#[test]
fn search_output_formats_one_block_per_hit() {
    let body = "{\"hits\":[{\"slug\":\"sodium\",\"title\":\"Sodium\",\
                \"description\":\"A fast mod\"}]}";
    let out = search_hits_output(body).unwrap();
    assert_eq!(out, "\"Sodium\" : sodium\nA fast mod\n\n");
}

#[test]
fn search_output_keeps_hit_order() {
    let body = "{\"hits\":[\
                {\"slug\":\"a\",\"title\":\"A\",\"description\":\"da\"},\
                {\"slug\":\"b\",\"title\":\"B\",\"description\":\"db\"}]}";
    let out = search_hits_output(body).unwrap();
    assert_eq!(out, "\"A\" : a\nda\n\n\"B\" : b\ndb\n\n");
}

#[test]
fn search_output_on_missing_field_is_decode_error() {
    let body = "{\"hits\":[{\"slug\":\"sodium\",\"title\":\"Sodium\"}]}";
    assert_eq!(search_hits_output(body).unwrap_err(), ClientError::Decode);
}

#[test]
fn search_output_on_malformed_json_is_decode_error() {
    assert_eq!(search_hits_output("not json").unwrap_err(), ClientError::Decode);
}

#[test]
fn info_output_is_exact() {
    let body = "{\"body\":\"Body text\",\"categories\":[\"a\",\"b\"],\
                \"title\":\"T\",\"project_type\":\"mod\",\"slug\":\"t\"}";
    let out = project_info_output(body).unwrap();
    assert_eq!(out, "mod - T\nab\n\nBody text\n\n");
}

#[test]
fn info_output_on_missing_title_is_decode_error() {
    let body = "{\"body\":\"B\",\"categories\":[],\"project_type\":\"mod\",\"slug\":\"t\"}";
    assert_eq!(project_info_output(body).unwrap_err(), ClientError::Decode);
}

#[test]
fn project_body_decodes_all_fields() {
    let body = "{\"body\":\"B\",\"categories\":[\"c\"],\"title\":\"Foo\",\
                \"project_type\":\"mod\",\"slug\":\"foo\",\"downloads\":3}";
    let p = decode_project_body(body).unwrap();
    assert_eq!(p.title, "Foo");
    assert_eq!(p.slug, "foo");
    assert_eq!(p.categories, vec!["c".to_string()]);
}

#[test]
fn dependencies_take_only_the_first_version() {
    let body = "[{\"dependencies\":[{\"project_id\":\"P1\",\
                \"dependency_type\":\"required\"}]},\
                {\"dependencies\":[{\"project_id\":\"P2\",\
                \"dependency_type\":\"optional\"}]}]";
    let deps = version_dependencies(body).unwrap();
    assert_eq!(deps.len(), 1);
    assert_eq!(deps[0].project_id, "P1");
    assert_eq!(deps[0].dependency_type, "required");
}

#[test]
fn empty_version_list_is_no_versions_error() {
    assert_eq!(version_dependencies("[]").unwrap_err(), ClientError::NoVersions);
}

#[test]
fn empty_dependency_list_is_the_distinct_no_dependencies_error() {
    let body = "[{\"dependencies\":[]}]";
    assert_eq!(version_dependencies(body).unwrap_err(), ClientError::NoDependencies);
}

#[test]
fn non_array_version_list_is_decode_error() {
    let body = "{\"dependencies\":[]}";
    assert_eq!(version_dependencies(body).unwrap_err(), ClientError::Decode);
}

#[test]
fn dependency_report_line_is_exact() {
    let versions = "[{\"dependencies\":[{\"project_id\":\"P1\",\
                    \"dependency_type\":\"required\"}]}]";
    let deps = version_dependencies(versions).unwrap();
    let project = "{\"body\":\"B\",\"categories\":[],\"title\":\"Foo\",\
                   \"project_type\":\"mod\",\"slug\":\"foo\"}";
    let p = decode_project_body(project).unwrap();
    let line = dependency_line(&deps[0].dependency_type, &p.title, &p.slug);
    assert_eq!(line, "required: \"Foo\" - foo\n");
    let report = format_dependencies(&deps, &vec![p]);
    assert_eq!(report, "required: \"Foo\" - foo\n");
}

#[test]
fn download_selects_first_matching_version_not_a_later_one() {
    let body = "[{\"loaders\":[\"fabric\"],\"files\":[{\"url\":\"u1\",\
                \"filename\":\"f1.jar\"}]},\
                {\"loaders\":[\"fabric\"],\"files\":[{\"url\":\"u2\",\
                \"filename\":\"f2.jar\"}]}]";
    let f = get_download_link(body, "fabric").unwrap();
    assert_eq!(f.url, "u1");
    assert_eq!(f.filename, "f1.jar");
}

#[test]
fn download_skips_versions_for_other_loaders() {
    let body = "[{\"loaders\":[\"forge\"],\"files\":[{\"url\":\"u1\",\
                \"filename\":\"f1.jar\"}]},\
                {\"loaders\":[\"quilt\",\"fabric\"],\"files\":[{\"url\":\"u2\",\
                \"filename\":\"f2.jar\"}]}]";
    let f = get_download_link(body, "fabric").unwrap();
    assert_eq!(f.url, "u2");
}

#[test]
fn download_without_matching_loader_is_not_found() {
    let body = "[{\"loaders\":[\"forge\"],\"files\":[{\"url\":\"u1\",\
                \"filename\":\"f1.jar\"}]}]";
    assert_eq!(get_download_link(body, "fabric").unwrap_err(), ClientError::NoMatchingFiles);
}

#[test]
fn download_matching_version_without_files_is_not_found_not_a_panic() {
    let body = "[{\"loaders\":[\"fabric\"],\"files\":[]}]";
    assert_eq!(get_download_link(body, "fabric").unwrap_err(), ClientError::NoMatchingFiles);
}

#[test]
fn download_malformed_body_is_decode_error() {
    assert_eq!(get_download_link("{}", "fabric").unwrap_err(), ClientError::Decode);
}

#[test]
fn failed_fetch_writes_nothing() {
    assert_eq!(download_target(false, true, "mods", "a.jar"), None);
    assert_eq!(download_target(false, false, "", "a.jar"), None);
}

#[test]
fn successful_fetch_targets_mods_dir_only_when_asked_and_found() {
    assert_eq!(download_target(true, true, "mods", "a.jar"), Some("mods/a.jar".to_string()));
    assert_eq!(download_target(true, false, "mods", "a.jar"), Some("a.jar".to_string()));
    assert_eq!(download_target(true, true, "", "a.jar"), Some("a.jar".to_string()));
}

#[test]
fn windows_candidate_paths_use_the_user_name() {
    let (base, mods) = minecraft_dir_candidates(Platform::Windows, "bob").unwrap();
    assert_eq!(base, "C:/Users/bob/AppData/Roaming/.minecraft");
    assert_eq!(mods, "C:/Users/bob/AppData/Roaming/.minecraft/mods");
}

#[test]
fn linux_candidate_paths_are_fixed() {
    let (base, mods) = minecraft_dir_candidates(Platform::Linux, "bob").unwrap();
    assert_eq!(base, "~/.minecraft");
    assert_eq!(mods, "~/.minecraft/mods");
}

#[test]
fn unrecognized_platform_has_no_candidates() {
    assert!(minecraft_dir_candidates(Platform::Other, "bob").is_none());
}
