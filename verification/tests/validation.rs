use typefamilies::decl::{RawDeclaration, RawParam, SourceItem, ValidationError, VisibilityMarker};
use typefamilies::validate::validate;
use typefamilies::derive_family_levels;

fn type_param(name: &str) -> RawParam {
    RawParam::TypeParam { name: name.to_string(), bounded: false, attributed: false }
}

fn bounded_param(name: &str) -> RawParam {
    RawParam::TypeParam { name: name.to_string(), bounded: true, attributed: false }
}

fn attributed_param(name: &str) -> RawParam {
    RawParam::TypeParam { name: name.to_string(), bounded: false, attributed: true }
}

fn header(params: Vec<RawParam>, has_where_clause: bool) -> RawDeclaration {
    RawDeclaration {
        name: "Foo".to_string(),
        visibility: VisibilityMarker::Public,
        params,
        has_where_clause,
    }
}

#[test]
fn empty_parameter_list_rejected() {
    let d = header(vec![], false);
    assert_eq!(validate(&d).unwrap_err(), ValidationError::EmptyParameterList);
}

#[test]
fn lifetime_parameter_rejected() {
    // The header of `struct Foo<'a, T>(&'a T)`.
    let d = header(vec![RawParam::LifetimeParam, type_param("T")], false);
    assert_eq!(validate(&d).unwrap_err(), ValidationError::LifetimeOrConstParameter);
    assert_eq!(
        derive_family_levels(SourceItem::StructDecl(d)).unwrap_err(),
        ValidationError::LifetimeOrConstParameter,
    );
}

#[test]
fn const_parameter_rejected() {
    let d = header(vec![type_param("T"), RawParam::ConstParam], false);
    assert_eq!(validate(&d).unwrap_err(), ValidationError::LifetimeOrConstParameter);
}

#[test]
fn bounded_parameter_rejected() {
    let d = header(vec![type_param("T"), bounded_param("U")], false);
    assert_eq!(validate(&d).unwrap_err(), ValidationError::BoundedParameter);
}

#[test]
fn attributed_parameter_rejected() {
    let d = header(vec![attributed_param("T")], false);
    assert_eq!(validate(&d).unwrap_err(), ValidationError::AttributedParameter);
}

#[test]
fn attribute_reported_before_bound_on_one_parameter() {
    let d = header(
        vec![RawParam::TypeParam { name: "T".to_string(), bounded: true, attributed: true }],
        false,
    );
    assert_eq!(validate(&d).unwrap_err(), ValidationError::AttributedParameter);
}

#[test]
fn leftmost_offending_parameter_decides() {
    let d = header(vec![bounded_param("T"), RawParam::LifetimeParam], false);
    assert_eq!(validate(&d).unwrap_err(), ValidationError::BoundedParameter);
}

#[test]
fn where_clause_rejected_with_bare_parameters() {
    let d = header(vec![type_param("T")], true);
    assert_eq!(validate(&d).unwrap_err(), ValidationError::WhereClausePresent);
}

#[test]
fn where_clause_reported_before_empty_parameter_list() {
    let d = header(vec![], true);
    assert_eq!(validate(&d).unwrap_err(), ValidationError::WhereClausePresent);
}

#[test]
fn parameter_rejection_reported_before_where_clause() {
    let d = header(vec![RawParam::ConstParam], true);
    assert_eq!(validate(&d).unwrap_err(), ValidationError::LifetimeOrConstParameter);
}

#[test]
fn unsupported_item_shape_rejected() {
    assert_eq!(
        derive_family_levels(SourceItem::OtherItem).unwrap_err(),
        ValidationError::UnparsableInput,
    );
}

#[test]
fn success_keeps_names_order_and_visibility() {
    let d = header(vec![type_param("K"), type_param("V")], false);
    let decl = validate(&d).unwrap();
    assert_eq!(decl.name, "Foo");
    assert_eq!(decl.visibility, VisibilityMarker::Public);
    assert_eq!(decl.parameters, vec!["K".to_string(), "V".to_string()]);
}

#[test]
fn error_messages_are_distinct() {
    let errors = [
        ValidationError::UnparsableInput,
        ValidationError::LifetimeOrConstParameter,
        ValidationError::BoundedParameter,
        ValidationError::AttributedParameter,
        ValidationError::WhereClausePresent,
        ValidationError::EmptyParameterList,
    ];
    for (i, a) in errors.iter().enumerate() {
        assert!(!a.message().is_empty());
        for b in errors.iter().skip(i + 1) {
            assert_ne!(a.message(), b.message());
        }
    }
}
