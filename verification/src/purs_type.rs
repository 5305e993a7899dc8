//! Declarations of PureScript data types and their source text.

use crate::purs_constructor::{
    all_well_formed, append_arguments, arguments_text, clone_constructors, constructor_text,
    constructors_view, each_bare, each_well_formed, lemma_constructors_view, same_constructors,
    AsPursConstructor, ConstructorView, PursConstructor,
};
use vstd::prelude::*;
use vstd::std_specs::cmp::PartialEqSpecImpl;

verus! {

/// The mathematical content of a [`PursType`].
pub enum PursTypeView {
    /// A record: the declared type and its fields, each a label and a type.
    Struct(ConstructorView, Seq<(Seq<char>, ConstructorView)>),
    /// A single constructor: the declared type and the constructor's arguments.
    TupleStruct(ConstructorView, Seq<ConstructorView>),
    /// A union: the declared type and its alternatives.
    Enum(ConstructorView, Seq<ConstructorView>),
}

impl PursTypeView {
    /// The type being declared, applied to its type variables.
    pub open spec fn declared(self) -> ConstructorView {
        match self {
            PursTypeView::Struct(declared, _) => declared,
            PursTypeView::TupleStruct(declared, _) => declared,
            PursTypeView::Enum(declared, _) => declared,
        }
    }

    /// Whether the declaration has the shape that its producer owes: the
    /// declared type has a name, its type variables are names alone, every
    /// field has a label, every reference is well formed, and a union has
    /// an alternative. Rendering does not depend on it.
    pub open spec fn well_formed(self) -> bool {
        &&& self.declared().name.len() > 0
        &&& each_bare(self.declared().parameters)
        &&& match self {
            PursTypeView::Struct(_, fields) => each_field_well_formed(fields),
            PursTypeView::TupleStruct(_, arguments) => each_well_formed(arguments),
            PursTypeView::Enum(_, alternatives) => alternatives.len() > 0 && each_well_formed(
                alternatives,
            ),
        }
    }
}

/// Whether each of `fields` has a label and a well-formed type.
pub open spec fn each_field_well_formed(fields: Seq<(Seq<char>, ConstructorView)>) -> bool {
    forall|i: int|
        0 <= i < fields.len() ==> (#[trigger] fields[i]).0.len() > 0 && fields[i].1.well_formed()
}

/// The representation of a PureScript data type declaration.
#[derive(Debug)]
pub enum PursType {
    /// A PureScript record.
    Struct(PursConstructor, Vec<(String, PursConstructor)>),
    /// A PureScript type constructor with arguments.
    TupleStruct(PursConstructor, Vec<PursConstructor>),
    /// A PureScript data type with multiple constructors.
    Enum(PursConstructor, Vec<PursConstructor>),
}

/// The views of a record's fields, in the same order.
pub open spec fn fields_view(fields: Seq<(String, PursConstructor)>) -> Seq<
    (Seq<char>, ConstructorView),
> {
    fields.map_values(|field: (String, PursConstructor)| (field.0@, field.1@))
}

/// The views of a list of declarations, in the same order.
pub open spec fn types_view(types: Seq<PursType>) -> Seq<PursTypeView> {
    types.map_values(|declaration: PursType| declaration@)
}

impl View for PursType {
    type V = PursTypeView;

    open spec fn view(&self) -> PursTypeView {
        match self {
            PursType::Struct(declared, fields) => PursTypeView::Struct(
                declared@,
                fields_view(fields@),
            ),
            PursType::TupleStruct(declared, arguments) => PursTypeView::TupleStruct(
                declared@,
                constructors_view(arguments@),
            ),
            PursType::Enum(declared, alternatives) => PursTypeView::Enum(
                declared@,
                constructors_view(alternatives@),
            ),
        }
    }
}

/// The names of the type variables, each followed by a space.
pub open spec fn type_variables_text(variables: Seq<ConstructorView>) -> Seq<char>
    decreases variables.len(),
{
    if variables.len() == 0 {
        Seq::empty()
    } else {
        type_variables_text(variables.drop_last()) + variables.last().name + " "@
    }
}

/// The left-hand side of a declaration, up to the equals sign: the keyword,
/// the declared name and its type variables, each followed by a space.
pub open spec fn head_text(declared: ConstructorView) -> Seq<char> {
    "data "@ + declared.name + " "@ + type_variables_text(declared.parameters)
}

/// One field of a record: the label, its type, and the separator that
/// follows every field, the last one too.
pub open spec fn field_text(field: (Seq<char>, ConstructorView)) -> Seq<char> {
    field.0 + " :: "@ + constructor_text(field.1) + ", "@
}

/// The fields of a record between the braces, in order.
pub open spec fn fields_text(fields: Seq<(Seq<char>, ConstructorView)>) -> Seq<char>
    decreases fields.len(),
{
    if fields.len() == 0 {
        Seq::empty()
    } else {
        fields_text(fields.drop_last()) + field_text(fields.last())
    }
}

/// The alternatives of a union, in order, with a bar between neighbours.
pub open spec fn alternatives_text(alternatives: Seq<ConstructorView>) -> Seq<char>
    decreases alternatives.len(),
{
    if alternatives.len() == 0 {
        Seq::empty()
    } else if alternatives.len() == 1 {
        constructor_text(alternatives.last())
    } else {
        alternatives_text(alternatives.drop_last()) + " | "@ + constructor_text(
            alternatives.last(),
        )
    }
}

/// The source text of a declaration.
///
/// A record is `data T a = T { x :: A, y :: B, }`, a single constructor is
/// `data T a = T A (B C)`, and a union is `data T a = L A | R (B C)`.
pub open spec fn type_text(declaration: PursTypeView) -> Seq<char> {
    match declaration {
        PursTypeView::Struct(declared, fields) => head_text(declared) + "= "@ + declared.name
            + " { "@ + fields_text(fields) + "}"@,
        PursTypeView::TupleStruct(declared, arguments) => head_text(declared) + "= "@
            + declared.name + arguments_text(arguments),
        PursTypeView::Enum(declared, alternatives) => head_text(declared) + "= "@
            + alternatives_text(alternatives),
    }
}

/// Starts a declaration: writes its left-hand side.
fn render_head(declared: &PursConstructor) -> (text: String)
    ensures
        text@ == head_text(declared@),
{
    let mut text = "data ".to_string();
    text.append(declared.name.as_str());
    text.append(" ");
    let mut i: usize = 0;
    proof {
        declared.lemma_view();
    }
    while i < declared.parameters.len()
        invariant
            i <= declared.parameters.len(),
            declared@.parameters.len() == declared.parameters@.len(),
            forall|k: int|
                0 <= k < declared.parameters@.len() ==> declared@.parameters[k]
                    == (#[trigger] declared.parameters@[k])@,
            text@ == "data "@ + declared@.name + " "@ + type_variables_text(
                declared@.parameters.take(i as int),
            ),
        decreases declared.parameters.len() - i,
    {
        let variable = &declared.parameters[i];
        text.append(variable.name.as_str());
        text.append(" ");
        proof {
            let variables = declared@.parameters;
            assert(variables.take(i + 1).drop_last() =~= variables.take(i as int));
        }
        i += 1;
    }
    proof {
        assert(declared@.parameters.take(i as int) =~= declared@.parameters);
    }
    text
}

/// Decides whether the declared type has a name and its type variables are
/// names alone.
fn head_well_formed(declared: &PursConstructor) -> (valid: bool)
    ensures
        valid == (declared@.name.len() > 0 && each_bare(declared@.parameters)),
{
    proof {
        declared.lemma_view();
    }
    if declared.name.as_str().is_empty() {
        return false;
    }
    let mut i: usize = 0;
    while i < declared.parameters.len()
        invariant
            i <= declared.parameters.len(),
            declared@.parameters.len() == declared.parameters@.len(),
            forall|k: int|
                0 <= k < declared.parameters@.len() ==> declared@.parameters[k]
                    == (#[trigger] declared.parameters@[k])@,
            forall|k: int| 0 <= k < i ==> (#[trigger] declared@.parameters[k]).bare(),
        decreases declared.parameters.len() - i,
    {
        let variable = &declared.parameters[i];
        proof {
            variable.lemma_view();
        }
        if variable.name.as_str().is_empty() || variable.parameters.len() != 0 {
            return false;
        }
        i += 1;
    }
    true
}

/// Decides whether every field has a label and a well-formed type.
fn fields_well_formed(fields: &Vec<(String, PursConstructor)>) -> (valid: bool)
    ensures
        valid == each_field_well_formed(fields_view(fields@)),
{
    let mut i: usize = 0;
    while i < fields.len()
        invariant
            i <= fields.len(),
            forall|k: int|
                0 <= k < i ==> (#[trigger] fields_view(fields@)[k]).0.len() > 0 && fields_view(
                    fields@,
                )[k].1.well_formed(),
        decreases fields.len() - i,
    {
        let field = &fields[i];
        assert(fields_view(fields@)[i as int] == (field.0@, field.1@));
        if field.0.as_str().is_empty() || !field.1.is_well_formed() {
            return false;
        }
        i += 1;
    }
    true
}

impl PursType {
    /// Decides whether the declaration is well formed.
    pub fn is_well_formed(&self) -> (valid: bool)
        ensures
            valid == self@.well_formed(),
    {
        match self {
            PursType::Struct(declared, fields) => {
                head_well_formed(declared) && fields_well_formed(fields)
            },
            PursType::TupleStruct(declared, arguments) => {
                head_well_formed(declared) && all_well_formed(arguments)
            },
            PursType::Enum(declared, alternatives) => {
                proof {
                    lemma_constructors_view(alternatives@);
                }
                head_well_formed(declared) && alternatives.len() > 0 && all_well_formed(
                    alternatives,
                )
            },
        }
    }

    /// Renders the declaration as PureScript source text.
    pub fn render(&self) -> (text: String)
        ensures
            text@ == type_text(self@),
    {
        match self {
            PursType::Struct(declared, fields) => {
                let mut text = render_head(declared);
                text.append("= ");
                text.append(declared.name.as_str());
                text.append(" { ");
                let ghost prefix = text@;
                let ghost all = fields_view(fields@);
                let mut i: usize = 0;
                while i < fields.len()
                    invariant
                        i <= fields.len(),
                        all == fields_view(fields@),
                        text@ == prefix + fields_text(all.take(i as int)),
                    decreases fields.len() - i,
                {
                    let field = &fields[i];
                    text.append(field.0.as_str());
                    text.append(" :: ");
                    let rendered = field.1.render();
                    text.append(rendered.as_str());
                    text.append(", ");
                    proof {
                        assert(all.take(i + 1).drop_last() =~= all.take(i as int));
                    }
                    i += 1;
                }
                proof {
                    assert(all.take(i as int) =~= all);
                }
                text.append("}");
                text
            },
            PursType::TupleStruct(declared, arguments) => {
                let mut text = render_head(declared);
                text.append("= ");
                text.append(declared.name.as_str());
                append_arguments(&mut text, arguments);
                text
            },
            PursType::Enum(declared, alternatives) => {
                let mut text = render_head(declared);
                text.append("= ");
                let ghost prefix = text@;
                let ghost all = constructors_view(alternatives@);
                let mut i: usize = 0;
                proof {
                    lemma_constructors_view(alternatives@);
                }
                while i < alternatives.len()
                    invariant
                        i <= alternatives.len(),
                        all == constructors_view(alternatives@),
                        all.len() == alternatives@.len(),
                        forall|k: int|
                            0 <= k < alternatives@.len() ==> all[k] == (
                            #[trigger] alternatives@[k])@,
                        text@ == prefix + alternatives_text(all.take(i as int)),
                    decreases alternatives.len() - i,
                {
                    if i > 0 {
                        text.append(" | ");
                    }
                    let rendered = alternatives[i].render();
                    text.append(rendered.as_str());
                    proof {
                        assert(all.take(i + 1).drop_last() =~= all.take(i as int));
                    }
                    i += 1;
                }
                proof {
                    assert(all.take(i as int) =~= all);
                }
                text
            },
        }
    }
}

/// Declarations that hold the same names in the same arrangement have the
/// same text, character for character: rendering depends on nothing else.
pub proof fn lemma_render_deterministic(first: PursType, second: PursType)
    requires
        first@ == second@,
    ensures
        type_text(first@) == type_text(second@),
{
}

/// The text of a declaration written out twice in a row falls into two
/// halves that are the same: each is the text of the declaration.
pub proof fn lemma_render_twice(declaration: PursType)
    ensures
        ({
            let once = type_text(declaration@);
            let twice = once + once;
            let middle = twice.len() as int / 2;
            &&& twice.subrange(0, middle) == once
            &&& twice.subrange(middle, twice.len() as int) == once
        }),
{
}

/// Copies the fields of a record.
fn clone_fields(fields: &Vec<(String, PursConstructor)>) -> (copies: Vec<
    (String, PursConstructor),
>)
    ensures
        fields_view(copies@) == fields_view(fields@),
{
    let mut copies: Vec<(String, PursConstructor)> = Vec::new();
    let mut i: usize = 0;
    while i < fields.len()
        invariant
            i <= fields.len(),
            copies@.len() == i,
            forall|k: int|
                0 <= k < i ==> copies@[k].0@ == fields@[k].0@ && copies@[k].1@ == fields@[k].1@,
        decreases fields.len() - i,
    {
        let field = &fields[i];
        copies.push((field.0.clone(), field.1.clone()));
        i += 1;
    }
    copies
}

/// Decides whether two records have the same fields in the same order.
fn same_fields(
    left: &Vec<(String, PursConstructor)>,
    right: &Vec<(String, PursConstructor)>,
) -> (same: bool)
    ensures
        same == (fields_view(left@) == fields_view(right@)),
{
    if left.len() != right.len() {
        return false;
    }
    let mut i: usize = 0;
    while i < left.len()
        invariant
            i <= left.len(),
            left.len() == right.len(),
            forall|k: int|
                0 <= k < i ==> left@[k].0@ == right@[k].0@ && left@[k].1@ == right@[k].1@,
        decreases left.len() - i,
    {
        if left[i].0 != right[i].0 || !left[i].1.eq(&right[i].1) {
            assert(fields_view(left@)[i as int] != fields_view(right@)[i as int]);
            return false;
        }
        i += 1;
    }
    proof {
        assert(fields_view(left@) =~= fields_view(right@));
    }
    true
}

impl PartialEq for PursType {
    fn eq(&self, other: &PursType) -> (same: bool) {
        match (self, other) {
            (
                PursType::Struct(declared, fields),
                PursType::Struct(other_declared, other_fields),
            ) => { declared.eq(other_declared) && same_fields(fields, other_fields) },
            (
                PursType::TupleStruct(declared, arguments),
                PursType::TupleStruct(other_declared, other_arguments),
            ) => { declared.eq(other_declared) && same_constructors(arguments, other_arguments) },
            (
                PursType::Enum(declared, alternatives),
                PursType::Enum(other_declared, other_alternatives),
            ) => {
                declared.eq(other_declared) && same_constructors(alternatives, other_alternatives)
            },
            _ => false,
        }
    }
}

impl PartialEqSpecImpl for PursType {
    open spec fn obeys_eq_spec() -> bool {
        true
    }

    open spec fn eq_spec(&self, other: &PursType) -> bool {
        self@ == other@
    }
}

impl Eq for PursType {

}

impl Clone for PursType {
    fn clone(&self) -> (copy: PursType)
        ensures
            copy@ == self@,
    {
        match self {
            PursType::Struct(declared, fields) => PursType::Struct(
                declared.clone(),
                clone_fields(fields),
            ),
            PursType::TupleStruct(declared, arguments) => PursType::TupleStruct(
                declared.clone(),
                clone_constructors(arguments),
            ),
            PursType::Enum(declared, alternatives) => PursType::Enum(
                declared.clone(),
                clone_constructors(alternatives),
            ),
        }
    }
}

/// A host type that knows the PureScript declaration that stands for it.
///
/// `AsPursType` produces the *definition* of a data type, whereas
/// [`AsPursConstructor`] produces what it takes to *use* the type in other
/// definitions.
pub trait AsPursType: AsPursConstructor {
    /// Produces the declaration that stands for `Self`.
    fn as_purs_type() -> PursType;
}

} // verus!
