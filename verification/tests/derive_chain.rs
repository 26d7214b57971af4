use typefamilies::decl::{RawDeclaration, RawParam, SourceItem, VisibilityMarker};
use typefamilies::derive_family_levels;

fn type_param(name: &str) -> RawParam {
    RawParam::TypeParam { name: name.to_string(), bounded: false, attributed: false }
}

fn plain_struct(name: &str, params: Vec<RawParam>) -> SourceItem {
    SourceItem::StructDecl(RawDeclaration {
        name: name.to_string(),
        visibility: VisibilityMarker::Inherited,
        params,
        has_where_clause: false,
    })
}

#[test]
fn id_single_level() {
    let item = plain_struct("Id", vec![type_param("T")]);
    let levels = derive_family_levels(item).unwrap();
    assert_eq!(levels.len(), 1);
    assert_eq!(levels[0].emitted_name, "IdFamily");
    assert_eq!(levels[0].wrapped_name, "Id");
    assert!(levels[0].captured_parameters.is_empty());
    assert_eq!(levels[0].constructor_parameter, "T");
}

#[test]
fn pair_two_levels() {
    let item = plain_struct("Pair", vec![type_param("T"), type_param("U")]);
    let levels = derive_family_levels(item).unwrap();
    assert_eq!(levels.len(), 2);

    assert_eq!(levels[0].emitted_name, "PairFamily");
    assert_eq!(levels[0].wrapped_name, "Pair");
    assert_eq!(levels[0].captured_parameters, vec!["T".to_string()]);
    assert_eq!(levels[0].constructor_parameter, "U");

    assert_eq!(levels[1].emitted_name, "PairFamilyFamily");
    assert_eq!(levels[1].wrapped_name, "PairFamily");
    assert!(levels[1].captured_parameters.is_empty());
    assert_eq!(levels[1].constructor_parameter, "T");
}

#[test]
fn triple_level_names_repeat_suffix() {
    let item = plain_struct(
        "TripleParam",
        vec![type_param("T"), type_param("U"), type_param("V")],
    );
    let levels = derive_family_levels(item).unwrap();
    assert_eq!(levels.len(), 3);
    assert_eq!(levels[0].emitted_name, "TripleParamFamily");
    assert_eq!(levels[1].emitted_name, "TripleParamFamilyFamily");
    assert_eq!(levels[2].emitted_name, "TripleParamFamilyFamilyFamily");
    assert_ne!(levels[0].emitted_name, levels[1].emitted_name);
    assert_ne!(levels[1].emitted_name, levels[2].emitted_name);
    assert_ne!(levels[0].emitted_name, levels[2].emitted_name);
}

#[test]
fn captured_parameters_descend_to_zero() {
    let item = plain_struct(
        "TripleParam",
        vec![type_param("T"), type_param("U"), type_param("V")],
    );
    let levels = derive_family_levels(item).unwrap();
    assert_eq!(levels[0].captured_parameters, vec!["T".to_string(), "U".to_string()]);
    assert_eq!(levels[1].captured_parameters, vec!["T".to_string()]);
    assert!(levels[2].captured_parameters.is_empty());
    for i in 1..levels.len() {
        assert_eq!(
            levels[i].captured_parameters.len(),
            levels[i - 1].captured_parameters.len() - 1,
        );
    }
}

// Renders one level's capability mapping applied to an argument, as
// `head<args..., argument>`.
fn apply(level: &typefamilies::decl::GeneratedLevel, argument: &str) -> String {
    let mut args = level.captured_parameters.clone();
    args.push(argument.to_string());
    format!("{}<{}>", level.wrapped_name, args.join(", "))
}

#[test]
fn composing_mappings_round_trips() {
    let item = plain_struct("Pair", vec![type_param("T"), type_param("U")]);
    let levels = derive_family_levels(item).unwrap();
    // Level 2 maps `T` to the fully applied first family.
    assert_eq!(apply(&levels[1], "T"), "PairFamily<T>");
    // Level 1 maps `U` back to the original declaration fully applied.
    assert_eq!(apply(&levels[0], "U"), "Pair<T, U>");
}

#[test]
fn family_markers_are_unit_values() {
    let _ = typefamilies::OptionFamily;
    let _ = typefamilies::VecFamily;
    let _ = typefamilies::BTreeSetFamily;
    let _ = typefamilies::ResultFamily::<u8>(std::marker::PhantomData);
    let _ = typefamilies::HashMapFamily::<String>(std::marker::PhantomData);
}

#[test]
fn enums_and_unions_are_read_like_structs() {
    let header = RawDeclaration {
        name: "Either".to_string(),
        visibility: VisibilityMarker::Public,
        params: vec![type_param("L"), type_param("R")],
        has_where_clause: false,
    };
    let from_enum = derive_family_levels(SourceItem::EnumDecl(header)).unwrap();
    assert_eq!(from_enum.len(), 2);
    assert_eq!(from_enum[0].emitted_name, "EitherFamily");

    let header = RawDeclaration {
        name: "Raw".to_string(),
        visibility: VisibilityMarker::Inherited,
        params: vec![type_param("T")],
        has_where_clause: false,
    };
    let from_union = derive_family_levels(SourceItem::UnionDecl(header)).unwrap();
    assert_eq!(from_union.len(), 1);
    assert_eq!(from_union[0].emitted_name, "RawFamily");
}
