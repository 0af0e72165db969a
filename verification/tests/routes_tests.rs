use response_gen::routes::{
    actix_path, chars_string, contains_bytes, handler_methods, is_module_root, module_route,
    route_entries, str_chars,
};

#[test]
fn underscore_segments_become_path_parameters() {
    assert_eq!(actix_path("src/routes/_guild/channel.rs"), "/{guild}/channel");
}

#[test]
fn trailing_underscore_file_becomes_a_parameter() {
    assert_eq!(actix_path("src/routes/user/_id.rs"), "/user/{id}");
}

#[test]
fn plain_files_only_lose_prefix_and_extension() {
    assert_eq!(actix_path("src/routes/health.rs"), "/health");
    assert_eq!(actix_path("src/routes/api/v1/users.rs"), "/api/v1/users");
}

#[test]
fn module_route_rewrites_separators_and_extension() {
    assert_eq!(module_route("/user/profile.rs"), "::user::profile");
    assert_eq!(module_route("/health.rs"), "::health");
}

#[test]
fn handler_methods_reports_the_markers_in_fixed_order() {
    let contents = "async fn put() {}\nasync fn get() {}\nfn helper() {}";
    assert_eq!(handler_methods(contents), vec!["get".to_string(), "put".to_string()]);
    assert_eq!(handler_methods("nothing here"), Vec::<String>::new());
    assert_eq!(
        handler_methods("async fn post async fn delete"),
        vec!["post".to_string(), "delete".to_string()]
    );
}

#[test]
fn route_entries_combine_module_path_and_methods() {
    let contents = "async fn get() {} async fn post() {}";
    assert_eq!(
        route_entries("/user/profile.rs", contents),
        vec![
            "routes::user::profile::get".to_string(),
            "routes::user::profile::post".to_string(),
        ]
    );
}

#[test]
fn module_roots_are_recognized_by_suffix() {
    assert!(is_module_root(&str_chars("mod.rs")));
    assert!(is_module_root(&str_chars("src/routes/mod.rs")));
    assert!(!is_module_root(&str_chars("src/routes/mode.rs")));
    assert!(!is_module_root(&str_chars("m.rs")));
}

#[test]
fn byte_containment_is_exact() {
    assert!(contains_bytes(b"hello world", b"lo wo"));
    assert!(!contains_bytes(b"hello world", b"low"));
    assert!(contains_bytes(b"abc", b""));
    assert!(!contains_bytes(b"ab", b"abc"));
}

#[test]
fn char_round_trip_preserves_text() {
    let v = str_chars("path/_x.rs");
    assert_eq!(chars_string(&v), "path/_x.rs");
}
