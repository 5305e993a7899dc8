use purescript_waterslide::PursConstructor;
use purescript_waterslide::{resolve_imports, ImportRule, ImportTable};
use purescript_waterslide::PursType;

fn named(name: &str, parameters: Vec<PursConstructor>) -> PursConstructor {
    PursConstructor { name: name.to_string(), parameters }
}

fn bare(name: &str) -> PursConstructor {
    named(name, vec![])
}

fn array(element: PursConstructor) -> PursConstructor {
    PursConstructor::array_of(element)
}

fn maybe(element: PursConstructor) -> PursConstructor {
    named("Maybe", vec![element])
}

fn rule(marker: &str, library: &str, name: &str) -> ImportRule {
    ImportRule { marker: marker.to_string(), library: library.to_string(), name: name.to_string() }
}

fn table() -> ImportTable {
    ImportTable {
        rules: vec![
            rule("Array", "Data.Array", "Array"),
            rule("Maybe", "Data.Maybe", "Maybe"),
            rule("Tuple", "Data.Tuple", "Tuple"),
            rule("NonEmptyArray", "Data.Array", "NonEmpty"),
            rule("Vec", "Data.Array", "Array"),
        ],
    }
}

fn listing(table: &ImportTable, types: &Vec<PursType>) -> Vec<(String, Vec<String>)> {
    resolve_imports(table, types).into_iter().map(|i| (i.library, i.names)).collect()
}

fn entry(library: &str, names: &[&str]) -> (String, Vec<String>) {
    (library.to_string(), names.iter().map(|n| n.to_string()).collect())
}

#[test]
fn standard_table_knows_array() {
    let standard = ImportTable::standard();
    assert_eq!(standard.rules.len(), 1);
    assert_eq!(standard.rules[0].marker, "Array");
    assert_eq!(standard.rules[0].library, "Data.Array");
    assert_eq!(standard.rules[0].name, "Array");
}

#[test]
fn array_in_two_fields_is_imported_once() {
    let types = vec![PursType::Struct(
        bare("Basket"),
        vec![
            ("weights".to_string(), PursConstructor::array_of(bare("Int"))),
            ("label".to_string(), bare("String")),
            ("prices".to_string(), PursConstructor::array_of(bare("Int"))),
        ],
    )];
    assert_eq!(listing(&ImportTable::standard(), &types), vec![entry("Data.Array", &["Array"])]);
}

#[test]
fn array_in_two_declarations_is_imported_once() {
    let types = vec![
        PursType::TupleStruct(bare("Weights"), vec![PursConstructor::array_of(bare("Int"))]),
        PursType::Enum(
            bare("Shades"),
            vec![named("Many", vec![array(array(bare("Int")))])],
        ),
    ];
    assert_eq!(listing(&ImportTable::standard(), &types), vec![entry("Data.Array", &["Array"])]);
}

#[test]
fn nothing_to_import() {
    let types = vec![PursType::Struct(bare("Point"), vec![("x".to_string(), bare("Int"))])];
    assert!(resolve_imports(&ImportTable::standard(), &types).is_empty());
    assert!(resolve_imports(&ImportTable::standard(), &vec![]).is_empty());
    assert!(resolve_imports(&ImportTable { rules: vec![] }, &types).is_empty());
}

#[test]
fn libraries_come_in_the_order_of_first_reference() {
    let types = vec![
        PursType::Struct(
            bare("First"),
            vec![
                ("a".to_string(), named("Tuple", vec![bare("Int"), maybe(bare("Int"))])),
                ("b".to_string(), named("Array", vec![bare("Int")])),
            ],
        ),
        PursType::TupleStruct(bare("Second"), vec![maybe(array(bare("Int")))]),
    ];
    assert_eq!(
        listing(&table(), &types),
        vec![
            entry("Data.Tuple", &["Tuple"]),
            entry("Data.Maybe", &["Maybe"]),
            entry("Data.Array", &["Array"]),
        ]
    );
}

#[test]
fn names_under_a_library_come_in_the_order_of_first_reference() {
    let types = vec![PursType::TupleStruct(
        bare("Lists"),
        vec![
            named("NonEmptyArray", vec![bare("Int")]),
            named("Maybe", vec![bare("Int")]),
            named("Array", vec![named("NonEmptyArray", vec![bare("Int")])]),
        ],
    )];
    assert_eq!(
        listing(&table(), &types),
        vec![entry("Data.Array", &["NonEmpty", "Array"]), entry("Data.Maybe", &["Maybe"])]
    );
}

#[test]
fn reference_comes_before_its_parameters() {
    let types =
        vec![PursType::TupleStruct(bare("T"), vec![named("Maybe", vec![named("Tuple", vec![])])])];
    assert_eq!(
        listing(&table(), &types),
        vec![entry("Data.Maybe", &["Maybe"]), entry("Data.Tuple", &["Tuple"])]
    );
}

#[test]
fn two_markers_for_one_name_import_it_once() {
    let types = vec![PursType::TupleStruct(
        bare("T"),
        vec![named("Vec", vec![bare("Int")]), named("Array", vec![bare("Int")])],
    )];
    assert_eq!(listing(&table(), &types), vec![entry("Data.Array", &["Array"])]);
}

#[test]
fn type_declared_in_the_module_is_not_imported() {
    let types = vec![
        PursType::TupleStruct(named("Maybe", vec![bare("a")]), vec![bare("a")]),
        PursType::Struct(
            bare("User"),
            vec![
                ("nick".to_string(), named("Maybe", vec![bare("String")])),
                ("tags".to_string(), named("Array", vec![bare("String")])),
            ],
        ),
    ];
    assert_eq!(listing(&table(), &types), vec![entry("Data.Array", &["Array"])]);
}

#[test]
fn type_declared_later_in_the_module_is_not_imported() {
    let types = vec![
        PursType::Struct(bare("User"), vec![("tags".to_string(), array(bare("Int")))]),
        PursType::TupleStruct(named("Array", vec![bare("a")]), vec![bare("a")]),
    ];
    assert!(resolve_imports(&table(), &types).is_empty());
}

#[test]
fn declared_name_and_labels_of_alternatives_are_not_looked_up() {
    let types = vec![
        PursType::Enum(
            bare("Shape"),
            vec![named("Tuple", vec![bare("Int")]), named("Other", vec![maybe(bare("Int"))])],
        ),
    ];
    assert_eq!(listing(&table(), &types), vec![entry("Data.Maybe", &["Maybe"])]);
}

#[test]
fn type_variables_are_looked_up() {
    let types = vec![PursType::TupleStruct(named("T", vec![bare("Maybe")]), vec![])];
    assert_eq!(listing(&table(), &types), vec![entry("Data.Maybe", &["Maybe"])]);
}

#[test]
fn first_rule_for_a_marker_counts() {
    let rules = ImportTable {
        rules: vec![
            rule("Map", "Data.Map", "Map"),
            rule("Array", "Data.Array", "Array"),
            rule("Map", "Data.HashMap", "HashMap"),
        ],
    };
    let found = rules.find(&"Map".to_string()).unwrap();
    assert_eq!(found.library, "Data.Map");
    assert_eq!(found.name, "Map");
    assert_eq!(rules.find(&"Array".to_string()).unwrap().library, "Data.Array");
    assert!(rules.find(&"Set".to_string()).is_none());
    assert!(rules.find(&"map".to_string()).is_none());
    let map = named("Map", vec![bare("Int"), bare("Int")]);
    let types = vec![PursType::TupleStruct(bare("T"), vec![map])];
    assert_eq!(listing(&rules, &types), vec![entry("Data.Map", &["Map"])]);
}
