use purescript_waterslide::{AsPursConstructor, PursConstructor};

fn named(name: &str, parameters: Vec<PursConstructor>) -> PursConstructor {
    PursConstructor { name: name.to_string(), parameters }
}

fn bare(name: &str) -> PursConstructor {
    named(name, vec![])
}

#[test]
fn bare_name_renders_as_itself() {
    assert_eq!(named("Color", vec![]).render(), "Color");
}

#[test]
fn bare_arguments_follow_after_spaces() {
    let c = named("Tuple", vec![named("Int", vec![]), named("String", vec![])]);
    assert_eq!(c.render(), "Tuple Int String");
}

#[test]
fn applied_argument_is_parenthesized() {
    let c = named("Blue", vec![named("Array", vec![named("Int", vec![])])]);
    assert_eq!(c.render(), "Blue (Array Int)");
}

#[test]
fn parentheses_nest() {
    let inner = named("Array", vec![named("Maybe", vec![named("Int", vec![])])]);
    let c = named("Either", vec![named("String", vec![]), inner]);
    assert_eq!(c.render(), "Either String (Array (Maybe Int))");
}

#[test]
fn every_fixed_size_integer_is_int() {
    assert_eq!(<u8 as AsPursConstructor>::as_purs_constructor().render(), "Int");
    assert_eq!(<u16 as AsPursConstructor>::as_purs_constructor().render(), "Int");
    assert_eq!(<u32 as AsPursConstructor>::as_purs_constructor().render(), "Int");
    assert_eq!(<u64 as AsPursConstructor>::as_purs_constructor().render(), "Int");
    assert_eq!(<i8 as AsPursConstructor>::as_purs_constructor().render(), "Int");
    assert_eq!(<i16 as AsPursConstructor>::as_purs_constructor().render(), "Int");
    assert_eq!(<i32 as AsPursConstructor>::as_purs_constructor().render(), "Int");
    assert_eq!(<i64 as AsPursConstructor>::as_purs_constructor().render(), "Int");
    assert_eq!(<u8 as AsPursConstructor>::as_purs_constructor(), named("Int", vec![]));
}

#[test]
fn sequence_is_array_of_its_element() {
    let c = <Vec<u8> as AsPursConstructor>::as_purs_constructor();
    assert_eq!(c, named("Array", vec![named("Int", vec![])]));
    let nested = <Vec<Vec<i32>> as AsPursConstructor>::as_purs_constructor();
    assert_eq!(nested.render(), "Array (Array Int)");
}

#[test]
fn array_of_wraps_the_element() {
    let c = PursConstructor::array_of(named("Color", vec![]));
    assert_eq!(c.name, "Array");
    assert_eq!(c.parameters, vec![named("Color", vec![])]);
    assert_eq!(PursConstructor::integer(), named("Int", vec![]));
}

#[test]
fn equality_is_structural() {
    let a = named("Map", vec![bare("String"), named("Array", vec![bare("Int")])]);
    let b = named("Map", vec![bare("String"), named("Array", vec![bare("Int")])]);
    assert!(a == b);
    assert!(a == a.clone());
    assert!(a != named("Map", vec![bare("String")]));
    assert!(a != named("Set", vec![bare("String"), named("Array", vec![bare("Int")])]));
    assert!(a != named("Map", vec![bare("String"), named("Array", vec![bare("Number")])]));
    assert!(a != named("Map", vec![named("Array", vec![bare("Int")]), bare("String")]));
    assert!(a != named("Map", vec![bare("String"), named("Array", vec![])]));
}

#[test]
fn clone_keeps_the_text() {
    let a = named("Either", vec![named("Array", vec![bare("Int")]), bare("Unit")]);
    assert_eq!(a.clone().render(), "Either (Array Int) Unit");
}

#[test]
fn reference_without_a_name_is_not_well_formed() {
    assert!(named("Int", vec![]).is_well_formed());
    assert!(named("Array", vec![named("Int", vec![])]).is_well_formed());
    assert!(!named("", vec![]).is_well_formed());
    assert!(!named("Array", vec![named("", vec![])]).is_well_formed());
    assert!(!named("Map", vec![named("Int", vec![]), named("Array", vec![named("", vec![])])])
        .is_well_formed());
}
