use ffizer::variable_def::{DefError, Field, ValuesForSelection, VariableDef};
use ffizer::yaml::{parse_yaml, Yaml};

fn text(s: &str) -> Yaml {
    Yaml::Text(s.to_string())
}

#[test]
fn name_only_gives_zero_values() {
    let d = VariableDef::parse("name: project").unwrap();
    assert_eq!(d.name, "project");
    assert_eq!(d.default_value, None);
    assert_eq!(d.ask, None);
    assert!(!d.hidden);
    assert_eq!(d.select_in_values, ValuesForSelection::Empty);
}

#[test]
fn unknown_field_is_refused() {
    assert_eq!(
        VariableDef::parse("name: a\nnmae: b"),
        Err(DefError::UnknownField(text("nmae")))
    );
    assert_eq!(
        VariableDef::parse("Name: a"),
        Err(DefError::UnknownField(text("Name")))
    );
}

#[test]
fn selection_shapes() {
    let d = VariableDef::parse("name: a\nselect_in_values: x,y").unwrap();
    assert_eq!(d.select_in_values, ValuesForSelection::String("x,y".to_string()));
    let d = VariableDef::parse("name: a\nselect_in_values: [x, y]").unwrap();
    assert_eq!(
        d.select_in_values,
        ValuesForSelection::Sequence(vec!["x".to_string(), "y".to_string()])
    );
    let d = VariableDef::parse("name: a\nselect_in_values: [x]").unwrap();
    assert_eq!(d.select_in_values, ValuesForSelection::Sequence(vec!["x".to_string()]));
    let d = VariableDef::parse("name: a\nselect_in_values: ~").unwrap();
    assert_eq!(d.select_in_values, ValuesForSelection::Empty);
    let d = VariableDef::parse("name: a").unwrap();
    assert_eq!(d.select_in_values, ValuesForSelection::Empty);
    assert_eq!(
        VariableDef::parse("name: a\nselect_in_values: [x, [y]]"),
        Err(DefError::InvalidValue(Field::SelectInValues))
    );
}

#[test]
fn every_field_read() {
    let d = VariableDef::parse(
        "name: license\ndefault_value: 5\nask: Which license?\nhidden: true\nselect_in_values: [mit]",
    )
    .unwrap();
    assert_eq!(d.name, "license");
    assert_eq!(d.default_value, Some(Yaml::Number("5".to_string())));
    assert_eq!(d.ask, Some("Which license?".to_string()));
    assert!(d.hidden);
    let d = VariableDef::parse("default_value: [a, b]\nask: ~").unwrap();
    assert_eq!(d.name, "");
    assert_eq!(d.default_value, Some(Yaml::List(vec![text("a"), text("b")])));
    assert_eq!(d.ask, None);
    let d = VariableDef::parse("default_value: ~").unwrap();
    assert_eq!(d.default_value, None);
}

#[test]
fn ill_shaped_values_are_refused() {
    assert_eq!(VariableDef::parse("hidden: 3"), Err(DefError::InvalidValue(Field::Hidden)));
    assert_eq!(VariableDef::parse("name: [a]"), Err(DefError::InvalidValue(Field::Name)));
    assert_eq!(VariableDef::parse("ask: true"), Err(DefError::InvalidValue(Field::Ask)));
    assert_eq!(VariableDef::parse("- name"), Err(DefError::NotAMapping));
    assert_eq!(VariableDef::parse("name: [a"), Err(DefError::Syntax));
}

#[test]
fn repeated_field_is_refused() {
    let y = Yaml::Mapping(vec![(text("name"), text("a")), (text("name"), text("b"))]);
    assert_eq!(VariableDef::from_yaml(y), Err(DefError::DuplicateField(Field::Name)));
}

#[test]
fn first_error_wins() {
    let y = Yaml::Mapping(vec![(text("hidden"), text("no")), (text("extra"), Yaml::Null)]);
    assert_eq!(VariableDef::from_yaml(y), Err(DefError::InvalidValue(Field::Hidden)));
}

#[test]
fn yaml_tree_shapes() {
    assert_eq!(
        parse_yaml("a: [1, true, ~, x]"),
        Some(Yaml::Mapping(vec![(
            text("a"),
            Yaml::List(vec![Yaml::Number("1".to_string()), Yaml::Bool(true), Yaml::Null, text("x")])
        )]))
    );
    assert_eq!(parse_yaml("a: ["), None);
}

#[test]
fn default_definition() {
    let d = VariableDef::default();
    assert_eq!(d.name, "");
    assert_eq!(ValuesForSelection::default(), ValuesForSelection::Empty);
}
