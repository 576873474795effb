use axum_spec::decimal::to_decimal;
use axum_spec::endpoint::EndpointPath;
use axum_spec::method::Method;
use axum_spec::segment::{
    first_with_separator, holds_separator, PathError, PathTemplate, Segment,
};
use axum_spec::routes::{
    activate_path, add_version_path, deactivate_path, get_activator_version_path,
    get_active_version_path, get_version_content_path, get_version_metadata_path,
    get_versions_path, version_content_path, version_metadata_path,
};

fn texts(items: &[&str]) -> Vec<String> {
    items.iter().map(|item| item.to_string()).collect()
}

fn route(path: &'static str) -> EndpointPath {
    EndpointPath { method: Method::Get, path }
}

#[test]
fn single_placeholder_is_replaced() {
    let path = get_version_metadata_path().try_instantiated_path(&texts(&["42"]));
    assert_eq!(path, Ok("/v2/policies/42".to_string()));
}

#[test]
fn placeholder_in_the_middle_is_replaced() {
    let path = get_version_content_path().try_instantiated_path(&texts(&["7"]));
    assert_eq!(path, Ok("/v2/policies/7/content".to_string()));
}

#[test]
fn unchecked_instantiation_gives_the_same_path() {
    let path = get_version_content_path().instantiated_path(&texts(&["7"]));
    assert_eq!(path, "/v2/policies/7/content");
    assert_eq!(add_version_path().instantiated_path(&Vec::new()), "/v2/policies");
}

#[test]
fn arguments_go_in_from_left_to_right() {
    let path = route("/a/:x/b/:y/:z").try_instantiated_path(&texts(&["1", "2", "3"]));
    assert_eq!(path, Ok("/a/1/b/2/3".to_string()));
    let swapped = route("/a/:x/b/:y/:z").try_instantiated_path(&texts(&["3", "2", "1"]));
    assert_eq!(swapped, Ok("/a/3/b/2/1".to_string()));
}

#[test]
fn template_without_placeholders_comes_back_unchanged() {
    assert_eq!(add_version_path().try_instantiated_path(&Vec::new()), Ok("/v2/policies".to_string()));
    assert_eq!(
        get_activator_version_path().try_instantiated_path(&Vec::new()),
        Ok("/v2/policies/active/activator".to_string())
    );
    assert_eq!(route("").try_instantiated_path(&Vec::new()), Ok(String::new()));
    assert_eq!(route("/").try_instantiated_path(&Vec::new()), Ok("/".to_string()));
    assert_eq!(route("a//b/").try_instantiated_path(&Vec::new()), Ok("a//b/".to_string()));
}

#[test]
fn template_without_placeholders_rejects_arguments() {
    assert_eq!(
        add_version_path().try_instantiated_path(&texts(&["1"])),
        Err(PathError::Arity { expected: 0, given: 1 })
    );
    assert_eq!(
        activate_path().try_instantiated_path(&texts(&["1", "2"])),
        Err(PathError::Arity { expected: 0, given: 2 })
    );
}

#[test]
fn one_argument_too_few_is_rejected() {
    assert_eq!(
        route("/a/:x/b/:y").try_instantiated_path(&texts(&["1"])),
        Err(PathError::Arity { expected: 2, given: 1 })
    );
    assert_eq!(
        get_version_metadata_path().try_instantiated_path(&Vec::new()),
        Err(PathError::Arity { expected: 1, given: 0 })
    );
}

#[test]
fn one_argument_too_many_is_rejected() {
    assert_eq!(
        route("/a/:x/b/:y").try_instantiated_path(&texts(&["1", "2", "3"])),
        Err(PathError::Arity { expected: 2, given: 3 })
    );
    assert_eq!(
        get_version_content_path().try_instantiated_path(&texts(&["1", "2"])),
        Err(PathError::Arity { expected: 1, given: 2 })
    );
}

#[test]
fn argument_with_a_separator_is_rejected() {
    assert_eq!(
        get_version_metadata_path().try_instantiated_path(&texts(&["1/2"])),
        Err(PathError::Separator { index: 0 })
    );
    assert_eq!(
        route("/a/:x/b/:y/:z").try_instantiated_path(&texts(&["1", "/", "3/"])),
        Err(PathError::Separator { index: 1 })
    );
}

#[test]
fn wrong_number_is_reported_before_a_separator() {
    assert_eq!(
        get_version_metadata_path().try_instantiated_path(&texts(&["1/2", "3"])),
        Err(PathError::Arity { expected: 1, given: 2 })
    );
}

#[test]
fn separators_of_the_template_are_kept() {
    assert_eq!(
        route("/a//:b/").try_instantiated_path(&texts(&["x"])),
        Ok("/a//x/".to_string())
    );
    assert_eq!(route(":a/b").try_instantiated_path(&texts(&["x"])), Ok("x/b".to_string()));
    assert_eq!(route(":a").try_instantiated_path(&texts(&["x"])), Ok("x".to_string()));
    assert_eq!(route("/:").try_instantiated_path(&texts(&["x"])), Ok("/x".to_string()));
}

#[test]
fn colon_inside_a_segment_is_literal() {
    assert_eq!(route("/a:b/c").placeholder_count(), 0);
    assert_eq!(route("/a:b/c").try_instantiated_path(&Vec::new()), Ok("/a:b/c".to_string()));
}

#[test]
fn empty_argument_leaves_an_empty_segment() {
    assert_eq!(
        route("/a/:x/b").try_instantiated_path(&texts(&[""])),
        Ok("/a//b".to_string())
    );
}

#[test]
fn characters_outside_ascii_are_kept() {
    assert_eq!(
        route("/caf\u{e9}/:x/\u{4e2d}").try_instantiated_path(&texts(&["\u{fc}ber"])),
        Ok("/caf\u{e9}/\u{fc}ber/\u{4e2d}".to_string())
    );
}

#[test]
fn argument_may_begin_with_a_colon() {
    assert_eq!(
        route("/a/:x").try_instantiated_path(&texts(&[":y"])),
        Ok("/a/:y".to_string())
    );
}

#[test]
fn placeholders_are_counted() {
    assert_eq!(route("").placeholder_count(), 0);
    assert_eq!(route("/v2/policies").placeholder_count(), 0);
    assert_eq!(route("/v2/policies/:version").placeholder_count(), 1);
    assert_eq!(route("/:a/:b/c/:d").placeholder_count(), 3);
    assert_eq!(route(":a/:b").placeholder_count(), 2);
    assert_eq!(route("/:/:").placeholder_count(), 2);
    assert_eq!(route("/a/::").placeholder_count(), 1);
}

#[test]
fn separators_are_found() {
    assert!(holds_separator("a/b"));
    assert!(holds_separator("/"));
    assert!(!holds_separator(""));
    assert!(!holds_separator("abc:def"));
    assert_eq!(first_with_separator(&texts(&["a", "b"])), None);
    assert_eq!(first_with_separator(&texts(&["a", "b/", "/c"])), Some(1));
    assert_eq!(first_with_separator(&Vec::new()), None);
}

#[test]
fn routes_have_their_methods_and_templates() {
    let routes = [
        (add_version_path(), Method::Post, "/v2/policies"),
        (activate_path(), Method::Put, "/v2/policies/active"),
        (deactivate_path(), Method::Delete, "/v2/policies/active"),
        (get_versions_path(), Method::Get, "/v2/policies"),
        (get_active_version_path(), Method::Get, "/v2/policies/active"),
        (get_activator_version_path(), Method::Get, "/v2/policies/active/activator"),
        (get_version_metadata_path(), Method::Get, "/v2/policies/:version"),
        (get_version_content_path(), Method::Get, "/v2/policies/:version/content"),
    ];
    for (route, method, path) in routes {
        assert_eq!(route.method, method);
        assert_eq!(route.path, path);
    }
}

#[test]
fn methods_have_their_names() {
    assert_eq!(Method::Get.as_str(), "GET");
    assert_eq!(Method::Post.as_str(), "POST");
    assert_eq!(Method::Put.as_str(), "PUT");
    assert_eq!(Method::Delete.as_str(), "DELETE");
}

#[test]
fn version_paths_hold_the_number_in_decimal() {
    assert_eq!(version_metadata_path(0), "/v2/policies/0");
    assert_eq!(version_metadata_path(42), "/v2/policies/42");
    assert_eq!(version_metadata_path(u64::MAX), "/v2/policies/18446744073709551615");
    assert_eq!(version_content_path(1), "/v2/policies/1/content");
    assert_eq!(version_content_path(1000), "/v2/policies/1000/content");
}

#[test]
fn numbers_are_written_in_decimal() {
    assert_eq!(to_decimal(0), "0");
    assert_eq!(to_decimal(7), "7");
    assert_eq!(to_decimal(9), "9");
    assert_eq!(to_decimal(10), "10");
    assert_eq!(to_decimal(109), "109");
    assert_eq!(to_decimal(1234567890), "1234567890");
    assert_eq!(to_decimal(u64::MAX), "18446744073709551615");
    let mut n: u64 = 1;
    for _ in 0..19 {
        assert_eq!(to_decimal(n), n.to_string());
        assert_eq!(to_decimal(n - 1), (n - 1).to_string());
        n *= 10;
    }
}

#[test]
fn template_is_taken_apart_into_its_segments() {
    let template = PathTemplate::parse("/v2/policies/:version/content");
    let expected = vec![
        Segment::Literal(String::new()),
        Segment::Literal("v2".to_string()),
        Segment::Literal("policies".to_string()),
        Segment::Placeholder("version".to_string()),
        Segment::Literal("content".to_string()),
    ];
    assert_eq!(template.parts(), &expected);
    assert_eq!(template.placeholder_count(), 1);
    assert!(template.parts()[3].is_placeholder());
    assert!(!template.parts()[4].is_placeholder());
}

#[test]
fn odd_templates_are_taken_apart_too() {
    assert_eq!(PathTemplate::parse("").parts(), &vec![Segment::Literal(String::new())]);
    assert_eq!(
        PathTemplate::parse("/").parts(),
        &vec![Segment::Literal(String::new()), Segment::Literal(String::new())]
    );
    assert_eq!(
        PathTemplate::parse(":/a:b//::c").parts(),
        &vec![
            Segment::Placeholder(String::new()),
            Segment::Literal("a:b".to_string()),
            Segment::Literal(String::new()),
            Segment::Placeholder(":c".to_string()),
        ]
    );
}

#[test]
fn one_template_makes_many_paths() {
    let template = get_version_content_path().template();
    for version in [0u64, 5, 77, 1234] {
        let args = vec![to_decimal(version)];
        assert_eq!(template.instantiate(&args), format!("/v2/policies/{}/content", version));
        assert_eq!(template.try_instantiate(&args), Ok(version_content_path(version)));
    }
    assert_eq!(
        template.try_instantiate(&Vec::new()),
        Err(PathError::Arity { expected: 1, given: 0 })
    );
    assert_eq!(
        template.try_instantiate(&texts(&["a/b"])),
        Err(PathError::Separator { index: 0 })
    );
}
