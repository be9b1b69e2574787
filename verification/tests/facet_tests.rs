use rustdrinth::facet::adapt_to_facet;
use rustdrinth::facet::build_facet;
use rustdrinth::facet::remove_last_char;
use rustdrinth::urls::project_url;
use rustdrinth::urls::search_url;
use rustdrinth::urls::version_list_url;

#[test]
fn facet_one_category_and_version() {
    let out = adapt_to_facet(vec!["optimization".to_string()], "1.20.1");
    assert_eq!(
        out,
        "&facets=[[\"project_type=mod\"],[\"categories:optimization\"],[\"versions:1.20.1\"]]"
    );
    assert!(out.contains("categories:optimization"));
    assert!(out.contains("versions:1.20.1"));
    assert!(!out.contains(",]"));
    assert!(!out.contains("\"]\"]"));
}

#[test]
fn facet_no_categories_no_version() {
    let out = adapt_to_facet(Vec::new(), "");
    assert_eq!(out, "&facets=[[\"project_type=mod\"]]");
}

#[test]
fn facet_no_categories_with_version() {
    let out = adapt_to_facet(Vec::new(), "1.20.1");
    assert_eq!(out, "&facets=[[\"project_type=mod\"],[\"versions:1.20.1\"]]");
}

#[test]
fn facet_many_categories_no_version() {
    let out = adapt_to_facet(vec!["a".to_string(), "b".to_string()], "");
    assert_eq!(
        out,
        "&facets=[[\"project_type=mod\"],[\"categories:a\"],[\"categories:b\"]]"
    );
}

#[test]
fn build_facet_empty_categories_is_empty_string() {
    assert_eq!(build_facet(Vec::new(), "1.20.1"), "");
    assert_eq!(build_facet(Vec::new(), ""), "");
}

#[test]
fn build_facet_nonempty_matches_adapt() {
    let a = build_facet(vec!["optimization".to_string()], "1.20.1");
    let b = adapt_to_facet(vec!["optimization".to_string()], "1.20.1");
    assert_eq!(a, b);
}

#[test]
fn remove_last_char_removes_last_occurrence_only() {
    assert_eq!(remove_last_char("a,b,c", ','), "a,bc");
    assert_eq!(remove_last_char("aa\"", '"'), "aa");
    assert_eq!(remove_last_char(",", ','), "");
}

#[test]
fn remove_last_char_without_occurrence_is_identity() {
    assert_eq!(remove_last_char("abc", 'x'), "abc");
    assert_eq!(remove_last_char("", 'x'), "");
}

#[test]
fn search_url_trims_query_and_omits_facet_without_categories() {
    let url = search_url("  sodium ", "1.20.1", Vec::new());
    assert_eq!(url, "https://api.modrinth.com/v2/search?query=sodium");
}

#[test]
fn search_url_appends_facet_with_categories() {
    let url = search_url("shader", "1.20.1", vec!["optimization".to_string()]);
    assert_eq!(
        url,
        "https://api.modrinth.com/v2/search?query=shader&facets=[[\"project_type=mod\"],\
         [\"categories:optimization\"],[\"versions:1.20.1\"]]"
    );
}

#[test]
fn project_url_appends_identifier() {
    assert_eq!(
        project_url("sodium"),
        "https://api.modrinth.com/v2/project/sodium"
    );
}

#[test]
fn version_list_url_embeds_loader_and_version_literals() {
    assert_eq!(
        version_list_url("sodium", "fabric", "1.20.1"),
        "https://api.modrinth.com/v2/project/sodium/version?loader=[\"fabric\"]\
         &game_versions=[\"1.20.1\"]"
    );
}
