use ffizer::helpers::{gitignore_url, Helper, HelperGroup, Registry, SetupError, group_helpers};
use ffizer::inflect::CaseHelper;
use ffizer::paths::{expand, path_helper, text_or_empty, PathPart};

fn case_helper(name: &str) -> CaseHelper {
    match Registry::configured().lookup(name) {
        Some(Helper::Case(c)) => c,
        other => panic!("{} is not a case helper: {:?}", name, other),
    }
}

fn apply_named(name: &str, input: &str) -> String {
    let reg = Registry::configured();
    match reg.lookup(name) {
        Some(Helper::Case(c)) => c.apply(input),
        Some(Helper::Path(p)) => path_helper(p, input, None),
        Some(Helper::Canonicalize) => text_or_empty(None),
        other => panic!("no local helper {}: {:?}", name, other),
    }
}

fn assert_helpers(input: &str, helper_expected: Vec<(&str, &str)>) {
    for (name, expected) in helper_expected {
        assert_eq!(apply_named(name, input), expected, "{}", name);
    }
}

#[test]
fn test_chain_of_helpers_with_1_param() {
    let singular = case_helper("to_singular").apply("Hello foo-bars");
    let actual = case_helper("to_upper_case").apply(&singular);
    assert_eq!(actual, "BAR".to_string());
}

#[test]
fn test_register_string_helpers() {
    assert_helpers(
        "Hello foo-bars",
        vec![
            ("to_lower_case", "hello foo-bars"),
            ("to_upper_case", "HELLO FOO-BARS"),
            ("to_camel_case", "helloFooBars"),
            ("to_pascal_case", "HelloFooBars"),
            ("to_snake_case", "hello_foo_bars"),
            ("to_screaming_snake_case", "HELLO_FOO_BARS"),
            ("to_kebab_case", "hello-foo-bars"),
            ("to_train_case", "Hello-Foo-Bars"),
            ("to_sentence_case", "Hello foo bars"),
            ("to_title_case", "Hello Foo Bars"),
            ("to_class_case", "HelloFooBar"),
            ("to_table_case", "hello_foo_bars"),
            ("to_plural", "bars"),
            ("to_singular", "bar"),
        ],
    );
}

#[test]
fn test_register_path_helpers() {
    assert_helpers(
        "/hello/bar/foo",
        vec![
            ("file_name", "foo"),
            ("parent", "/hello/bar"),
            ("extension", ""),
            ("canonicalize", ""),
        ],
    );
    assert_helpers(
        "foo",
        vec![("file_name", "foo"), ("parent", ""), ("extension", "")],
    );
    assert_helpers(
        "bar/foo",
        vec![("file_name", "foo"), ("parent", "bar"), ("extension", "")],
    );
    assert_helpers(
        "bar/foo.txt",
        vec![
            ("file_name", "foo.txt"),
            ("parent", "bar"),
            ("extension", "txt"),
        ],
    );
    assert_helpers(
        "./foo",
        vec![
            ("file_name", "foo"),
            ("parent", "."),
            ("extension", ""),
            ("canonicalize", ""),
        ],
    );
    assert_helpers(
        "/hello/bar/../foo",
        vec![
            ("file_name", "foo"),
            ("parent", "/hello/bar/.."),
            ("extension", ""),
            ("canonicalize", ""),
        ],
    );
}

#[test]
fn case_helpers_on_empty_input() {
    for name in ["to_lower_case", "to_upper_case", "to_snake_case", "to_kebab_case"] {
        assert_eq!(case_helper(name).apply(""), "", "{}", name);
    }
}

#[test]
fn existing_path_is_decomposed_in_canonical_form() {
    let resolved = Some("/home/user/project".to_string());
    assert_eq!(expand(".", resolved.clone()), "/home/user/project");
    assert_eq!(path_helper(PathPart::FileName, ".", resolved.clone()), "project");
    assert_eq!(path_helper(PathPart::Parent, ".", resolved.clone()), "/home/user");
    assert_eq!(path_helper(PathPart::Extension, "a", Some("/x/notes.md".to_string())), "md");
}

#[test]
fn missing_path_is_decomposed_as_written() {
    assert_eq!(expand("bar/foo.txt", None), "bar/foo.txt");
    assert_eq!(path_helper(PathPart::FileName, ".", None), "");
    assert_eq!(path_helper(PathPart::Parent, "/", None), "");
}

#[test]
fn lookup_failures_become_empty_text() {
    assert_eq!(text_or_empty(Some("VALUE".to_string())), "VALUE");
    assert_eq!(text_or_empty(None), "");
}

#[test]
fn gitignore_address() {
    assert_eq!(gitignore_url("rust,vim"), "https://www.gitignore.io/api/rust,vim");
    assert_eq!(gitignore_url(""), "https://www.gitignore.io/api/");
}

#[test]
fn configured_registry_holds_every_helper_once() {
    let reg = Registry::configured();
    assert!(reg.is_strict());
    assert_eq!(reg.helpers().len(), 21);
    let mut names: Vec<&str> = reg.helpers().iter().map(|h| h.name()).collect();
    assert_eq!(names[0], "to_lower_case");
    assert_eq!(names[20], "env_var");
    names.sort();
    names.dedup();
    assert_eq!(names.len(), 21);
    assert_eq!(reg.lookup("gitignore_io"), Some(Helper::GitignoreIo));
    assert_eq!(reg.lookup("env_var"), Some(Helper::EnvVar));
    assert_eq!(reg.lookup("no_such_helper"), None);
}

#[test]
fn registering_a_taken_name_is_refused() {
    let mut reg = Registry::new();
    assert!(!reg.is_strict());
    assert_eq!(reg.register(Helper::HttpGet), Ok(()));
    assert_eq!(
        reg.register(Helper::HttpGet),
        Err(SetupError::DuplicateHelper("http_get".to_string()))
    );
    assert_eq!(reg.helpers().len(), 1);
}

#[test]
fn setup_reports_first_clash_and_registers_the_rest() {
    let mut reg = Registry::new();
    reg.register(Helper::EnvVar).unwrap();
    reg.register(Helper::Path(PathPart::Parent)).unwrap();
    let r = reg.setup();
    assert_eq!(r, Err(SetupError::DuplicateHelper("parent".to_string())));
    assert!(reg.is_strict());
    assert_eq!(reg.helpers().len(), 21);
    assert_eq!(reg.helpers()[2], Helper::Case(CaseHelper::LowerCase));
}

#[test]
fn setup_twice_fails_on_first_helper() {
    let mut reg = Registry::configured();
    assert_eq!(
        reg.setup(),
        Err(SetupError::DuplicateHelper("to_lower_case".to_string()))
    );
    assert_eq!(reg.helpers().len(), 21);
}

#[test]
fn groups_in_registration_order() {
    assert_eq!(group_helpers(HelperGroup::Strings).len(), 14);
    assert_eq!(group_helpers(HelperGroup::Http), vec![Helper::HttpGet, Helper::GitignoreIo]);
    assert_eq!(group_helpers(HelperGroup::Paths)[3], Helper::Canonicalize);
    assert_eq!(group_helpers(HelperGroup::Env), vec![Helper::EnvVar]);
    let mut reg = Registry::new();
    assert_eq!(reg.register_http_helpers(), Ok(()));
    assert_eq!(reg.register_env_helpers(), Ok(()));
    assert_eq!(reg.register_path_helpers(), Ok(()));
    assert_eq!(reg.register_string_helpers(), Ok(()));
    assert_eq!(reg.helpers().len(), 21);
    assert_eq!(reg.helpers()[0], Helper::HttpGet);
}
