use purescript_waterslide::{AsPursConstructor, PursConstructor};
use purescript_waterslide::{ImportRule, ImportTable, PursImport};
use purescript_waterslide::{assemble, PursModule};
use purescript_waterslide::{AsPursType, PursType};

#[allow(dead_code)]
enum Color {
    Red(u8),
    Green(u8),
    Blue(Vec<u8>),
}

#[allow(dead_code)]
enum Currency {
    Coins,
    Credits,
    Abolished,
}

#[allow(dead_code)]
struct Fruit {
    color: Color,
    price: u64,
    currency: Currency,
}

fn named(name: &str, parameters: Vec<PursConstructor>) -> PursConstructor {
    PursConstructor { name: name.to_string(), parameters }
}

impl AsPursConstructor for Color {
    fn as_purs_constructor() -> PursConstructor {
        named("Color", vec![])
    }
}

impl AsPursType for Color {
    fn as_purs_type() -> PursType {
        PursType::Enum(
            Color::as_purs_constructor(),
            vec![
                named("Red", vec![<u8 as AsPursConstructor>::as_purs_constructor()]),
                named("Green", vec![<u8 as AsPursConstructor>::as_purs_constructor()]),
                named("Blue", vec![<Vec<u8> as AsPursConstructor>::as_purs_constructor()]),
            ],
        )
    }
}

impl AsPursConstructor for Currency {
    fn as_purs_constructor() -> PursConstructor {
        named("Currency", vec![])
    }
}

impl AsPursType for Currency {
    fn as_purs_type() -> PursType {
        PursType::Enum(
            Currency::as_purs_constructor(),
            vec![named("Coins", vec![]), named("Credits", vec![]), named("Abolished", vec![])],
        )
    }
}

impl AsPursConstructor for Fruit {
    fn as_purs_constructor() -> PursConstructor {
        named("Fruit", vec![])
    }
}

impl AsPursType for Fruit {
    fn as_purs_type() -> PursType {
        PursType::Struct(
            Fruit::as_purs_constructor(),
            vec![
                ("color".to_string(), <Color as AsPursConstructor>::as_purs_constructor()),
                ("price".to_string(), <u64 as AsPursConstructor>::as_purs_constructor()),
                ("currency".to_string(), <Currency as AsPursConstructor>::as_purs_constructor()),
            ],
        )
    }
}

#[test]
fn module_format() {
    let module = PursModule::new(
        "Fruits".to_string(),
        vec![Currency::as_purs_type(), Color::as_purs_type(), Fruit::as_purs_type()],
    );
    assert_eq!(
        &format!("{}", &module.render()),
        "module Fruits where

import Data.Array (
Array
)

data Currency = Coins | Credits | Abolished

data Color = Red Int | Green Int | Blue (Array Int)

data Fruit = Fruit { color :: Color, price :: Int, currency :: Currency, }

"
    );
}

#[test]
fn record_format() {
    assert_eq!(
        Fruit::as_purs_type().render(),
        "data Fruit = Fruit { color :: Color, price :: Int, currency :: Currency, }"
    );
}

#[test]
fn union_with_arguments_format() {
    assert_eq!(
        Color::as_purs_type().render(),
        "data Color = Red Int | Green Int | Blue (Array Int)"
    );
}

#[test]
fn union_without_arguments_format() {
    assert_eq!(
        Currency::as_purs_type().render(),
        "data Currency = Coins | Credits | Abolished"
    );
}

fn bare(name: &str) -> PursConstructor {
    named(name, vec![])
}

#[test]
fn module_without_imports() {
    let module = PursModule::new(
        "Plain".to_string(),
        vec![PursType::TupleStruct(bare("Meters"), vec![bare("Int")])],
    );
    assert!(module.imports.is_empty());
    assert_eq!(module.render(), "module Plain where\n\n\ndata Meters = Meters Int\n\n");
}

#[test]
fn module_without_declarations() {
    let module = PursModule::new("Empty".to_string(), vec![]);
    assert_eq!(module.render(), "module Empty where\n\n\n");
}

#[test]
fn module_keeps_the_order_of_its_declarations() {
    let first = PursType::TupleStruct(bare("Zebra"), vec![]);
    let second = PursType::TupleStruct(bare("Aardvark"), vec![]);
    let module = PursModule::new("Zoo".to_string(), vec![first.clone(), second, first]);
    assert_eq!(
        module.render(),
        "module Zoo where\n\n\n\
         data Zebra = Zebra\n\n\
         data Aardvark = Aardvark\n\n\
         data Zebra = Zebra\n\n"
    );
}

#[test]
fn module_lists_each_imported_name_on_its_own_line() {
    let table = ImportTable {
        rules: vec![
            ImportRule {
                marker: "Array".to_string(),
                library: "Data.Array".to_string(),
                name: "Array".to_string(),
            },
            ImportRule {
                marker: "NonEmptyArray".to_string(),
                library: "Data.Array".to_string(),
                name: "NonEmpty".to_string(),
            },
            ImportRule {
                marker: "Maybe".to_string(),
                library: "Data.Maybe".to_string(),
                name: "Maybe".to_string(),
            },
        ],
    };
    let types = vec![PursType::Struct(
        bare("Shelf"),
        vec![
            ("spare".to_string(), named("Maybe", vec![named("Array", vec![bare("Int")])])),
            ("books".to_string(), named("NonEmptyArray", vec![bare("Int")])),
        ],
    )];
    let module = PursModule::with_table("Shelves".to_string(), types, &table);
    assert_eq!(
        module.render(),
        "module Shelves where

import Data.Maybe (
Maybe
)
import Data.Array (
Array
NonEmpty
)

data Shelf = Shelf { spare :: Maybe (Array Int), books :: NonEmptyArray Int, }

"
    );
}

#[test]
fn module_holds_what_it_was_assembled_from() {
    let types = vec![Currency::as_purs_type(), Color::as_purs_type(), Fruit::as_purs_type()];
    let module = PursModule::new("Fruits".to_string(), types.clone());
    assert_eq!(module.name, "Fruits");
    assert!(module.types == types);
    assert_eq!(module.imports.len(), 1);
    assert_eq!(module.imports[0].library, "Data.Array");
    assert_eq!(module.imports[0].names, vec!["Array".to_string()]);
}

#[test]
fn assemble_is_new_then_render() {
    let types = vec![Currency::as_purs_type(), Color::as_purs_type(), Fruit::as_purs_type()];
    let module = PursModule::new("Fruits".to_string(), types.clone());
    assert_eq!(assemble("Fruits".to_string(), types), module.render());
}

#[test]
fn module_renders_the_imports_it_holds() {
    let module = PursModule {
        name: "Manual".to_string(),
        imports: vec![PursImport {
            library: "Prelude".to_string(),
            names: vec![],
        }],
        types: vec![],
    };
    assert_eq!(module.render(), "module Manual where\n\nimport Prelude (\n)\n\n");
}
