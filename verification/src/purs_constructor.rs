//! References to PureScript types: a name applied to type arguments.

use vstd::prelude::*;
use vstd::std_specs::cmp::PartialEqSpecImpl;

verus! {

/// The mathematical content of a [`PursConstructor`]: a name applied to a
/// sequence of arguments, each again a name applied to arguments.
pub struct ConstructorView {
    pub name: Seq<char>,
    pub parameters: Seq<ConstructorView>,
}

impl ConstructorView {
    /// Whether the reference has a name, and each reference below it has
    /// one.
    pub open spec fn well_formed(self) -> bool
        decreases self,
    {
        &&& self.name.len() > 0
        &&& forall|i: int|
            0 <= i < self.parameters.len() ==> (#[trigger] self.parameters[i]).well_formed()
    }

    /// Whether the reference is a name alone, as a type variable is.
    pub open spec fn bare(self) -> bool {
        self.name.len() > 0 && self.parameters.len() == 0
    }
}

/// Whether each of `refs` is well formed.
pub open spec fn each_well_formed(refs: Seq<ConstructorView>) -> bool {
    forall|i: int| 0 <= i < refs.len() ==> (#[trigger] refs[i]).well_formed()
}

/// Whether each of `refs` is a name alone.
pub open spec fn each_bare(refs: Seq<ConstructorView>) -> bool {
    forall|i: int| 0 <= i < refs.len() ==> (#[trigger] refs[i]).bare()
}

/// A use of a PureScript type: its name and the types it is applied to.
///
/// Two references are equal when they have the same name and equal
/// parameters; `==` decides exactly that.
#[derive(Debug)]
pub struct PursConstructor {
    /// The name of the type, such as `Int`, `Array` or `Color`.
    pub name: String,
    /// The types the name is applied to, in order.
    pub parameters: Vec<PursConstructor>,
}

impl View for PursConstructor {
    type V = ConstructorView;

    open spec fn view(&self) -> ConstructorView
        decreases self,
    {
        ConstructorView { name: self.name@, parameters: constructors_view(self.parameters@) }
    }
}

/// The views of a sequence of references, in the same order.
pub open spec fn constructors_view(refs: Seq<PursConstructor>) -> Seq<ConstructorView>
    decreases refs,
{
    if refs.len() == 0 {
        Seq::empty()
    } else {
        constructors_view(refs.drop_last()).push(refs.last()@)
    }
}

/// `constructors_view` keeps the length and views each element in place.
pub proof fn lemma_constructors_view(refs: Seq<PursConstructor>)
    ensures
        constructors_view(refs).len() == refs.len(),
        forall|i: int| 0 <= i < refs.len() ==> constructors_view(refs)[i] == (#[trigger] refs[i])@,
    decreases refs.len(),
{
    if refs.len() > 0 {
        let front = refs.drop_last();
        lemma_constructors_view(front);
        assert(constructors_view(refs) == constructors_view(front).push(refs.last()@));
        assert forall|i: int| 0 <= i < refs.len() implies constructors_view(refs)[i] == (
        #[trigger] refs[i])@ by {
            if i < front.len() {
                assert(front[i] == refs[i]);
            }
        }
    }
}

/// The text of a type applied to its arguments: the name, then each argument
/// after a space, an argument that has arguments of its own in parentheses.
pub open spec fn constructor_text(c: ConstructorView) -> Seq<char>
    decreases c, 1int,
{
    c.name + arguments_text(c.parameters)
}

/// The text of a list of arguments, each with the space that precedes it.
pub open spec fn arguments_text(arguments: Seq<ConstructorView>) -> Seq<char>
    decreases arguments, 0int,
{
    if arguments.len() == 0 {
        Seq::empty()
    } else {
        arguments_text(arguments.drop_last()) + argument_text(arguments.last())
    }
}

/// The text of one argument, with the space that precedes it.
pub open spec fn argument_text(c: ConstructorView) -> Seq<char>
    decreases c, 2int,
{
    if c.parameters.len() == 0 {
        " "@ + constructor_text(c)
    } else {
        " ("@ + constructor_text(c) + ")"@
    }
}

/// `Int`, without arguments.
pub open spec fn integer_view() -> ConstructorView {
    ConstructorView { name: "Int"@, parameters: Seq::empty() }
}

/// `Array` applied to one argument.
pub open spec fn array_view(element: ConstructorView) -> ConstructorView {
    ConstructorView { name: "Array"@, parameters: seq![element] }
}

/// Appends to `text` each of `arguments` after a space, an argument that has
/// arguments of its own in parentheses.
pub(crate) fn append_arguments(text: &mut String, arguments: &Vec<PursConstructor>)
    ensures
        final(text)@ == old(text)@ + arguments_text(constructors_view(arguments@)),
    decreases arguments,
{
    let ghost all = constructors_view(arguments@);
    let mut i: usize = 0;
    proof {
        lemma_constructors_view(arguments@);
    }
    while i < arguments.len()
        invariant
            i <= arguments.len(),
            all == constructors_view(arguments@),
            all.len() == arguments@.len(),
            forall|k: int| 0 <= k < arguments@.len() ==> all[k] == (#[trigger] arguments@[k])@,
            text@ == old(text)@ + arguments_text(all.take(i as int)),
        decreases arguments.len() - i,
    {
        let argument = &arguments[i];
        let rendered = argument.render();
        if argument.parameters.len() == 0 {
            text.append(" ");
            text.append(rendered.as_str());
        } else {
            text.append(" (");
            text.append(rendered.as_str());
            text.append(")");
        }
        proof {
            argument.lemma_view();
            assert(all.take(i + 1).drop_last() =~= all.take(i as int));
            assert(arguments_text(all.take(i + 1)) == arguments_text(all.take(i as int))
                + argument_text(argument@));
        }
        i += 1;
    }
    proof {
        assert(all.take(i as int) =~= all);
    }
}

/// Copies a list of references.
pub(crate) fn clone_constructors(refs: &Vec<PursConstructor>) -> (copies: Vec<PursConstructor>)
    ensures
        constructors_view(copies@) == constructors_view(refs@),
    decreases refs,
{
    let mut copies: Vec<PursConstructor> = Vec::new();
    let mut i: usize = 0;
    while i < refs.len()
        invariant
            i <= refs.len(),
            copies@.len() == i,
            forall|k: int| 0 <= k < i ==> copies@[k]@ == refs@[k]@,
        decreases refs.len() - i,
    {
        copies.push(refs[i].clone());
        i += 1;
    }
    proof {
        lemma_constructors_view(refs@);
        lemma_constructors_view(copies@);
        assert forall|k: int| 0 <= k < refs@.len() implies constructors_view(copies@)[k]
            == constructors_view(refs@)[k] by {
            assert(copies@[k]@ == refs@[k]@);
        }
    }
    copies
}

/// Decides whether two lists of references are equal element by element.
pub(crate) fn same_constructors(
    left: &Vec<PursConstructor>,
    right: &Vec<PursConstructor>,
) -> (same: bool)
    ensures
        same == (constructors_view(left@) == constructors_view(right@)),
    decreases left,
{
    proof {
        lemma_constructors_view(left@);
        lemma_constructors_view(right@);
    }
    if left.len() != right.len() {
        return false;
    }
    let mut i: usize = 0;
    while i < left.len()
        invariant
            i <= left.len(),
            left.len() == right.len(),
            constructors_view(left@).len() == left@.len(),
            constructors_view(right@).len() == right@.len(),
            forall|k: int|
                0 <= k < left@.len() ==> constructors_view(left@)[k] == (#[trigger] left@[k])@,
            forall|k: int|
                0 <= k < right@.len() ==> constructors_view(right@)[k] == (#[trigger] right@[k])@,
            forall|k: int| 0 <= k < i ==> left@[k]@ == right@[k]@,
        decreases left.len() - i,
    {
        if !left[i].eq(&right[i]) {
            return false;
        }
        i += 1;
    }
    proof {
        assert forall|k: int| 0 <= k < left@.len() implies constructors_view(left@)[k]
            == constructors_view(right@)[k] by {
            assert(left@[k]@ == right@[k]@);
        }
        assert(constructors_view(left@) =~= constructors_view(right@));
    }
    true
}

/// Decides whether each of `refs` is well formed.
pub(crate) fn all_well_formed(refs: &Vec<PursConstructor>) -> (valid: bool)
    ensures
        valid == each_well_formed(constructors_view(refs@)),
    decreases refs,
{
    proof {
        lemma_constructors_view(refs@);
    }
    let mut i: usize = 0;
    while i < refs.len()
        invariant
            i <= refs.len(),
            constructors_view(refs@).len() == refs@.len(),
            forall|k: int|
                0 <= k < refs@.len() ==> constructors_view(refs@)[k] == (#[trigger] refs@[k])@,
            forall|k: int|
                0 <= k < i ==> (#[trigger] constructors_view(refs@)[k]).well_formed(),
        decreases refs.len() - i,
    {
        if !refs[i].is_well_formed() {
            return false;
        }
        i += 1;
    }
    true
}

impl PursConstructor {
    /// Decides whether the reference has a name, and each reference below
    /// it has one.
    pub fn is_well_formed(&self) -> (valid: bool)
        ensures
            valid == self@.well_formed(),
        decreases self,
    {
        if self.name.as_str().is_empty() {
            return false;
        }
        all_well_formed(&self.parameters)
    }

    /// The view holds the name's characters and the views of the parameters.
    pub proof fn lemma_view(&self)
        ensures
            self@.name == self.name@,
            self@.parameters.len() == self.parameters@.len(),
            forall|i: int|
                0 <= i < self.parameters@.len() ==> self@.parameters[i]
                    == (#[trigger] self.parameters@[i])@,
    {
        lemma_constructors_view(self.parameters@);
    }

    /// Renders the reference as PureScript source text.
    pub fn render(&self) -> (text: String)
        ensures
            text@ == constructor_text(self@),
        decreases self,
    {
        let mut text = self.name.clone();
        append_arguments(&mut text, &self.parameters);
        text
    }

    /// The reference to `Int`, the type that every fixed-size integer of the
    /// host is used as.
    pub fn integer() -> (c: PursConstructor)
        ensures
            c@ == integer_view(),
    {
        PursConstructor { name: "Int".to_string(), parameters: Vec::new() }
    }

    /// The reference to `Array` applied to `element`, the type that a
    /// sequence of the host is used as.
    pub fn array_of(element: PursConstructor) -> (c: PursConstructor)
        ensures
            c@ == array_view(element@),
    {
        let mut parameters: Vec<PursConstructor> = Vec::new();
        parameters.push(element);
        let c = PursConstructor { name: "Array".to_string(), parameters };
        proof {
            c.lemma_view();
            assert(c@.parameters =~= seq![element@]);
        }
        c
    }
}

impl PartialEq for PursConstructor {
    fn eq(&self, other: &PursConstructor) -> (same: bool)
        decreases self,
    {
        self.name == other.name && same_constructors(&self.parameters, &other.parameters)
    }
}

impl PartialEqSpecImpl for PursConstructor {
    open spec fn obeys_eq_spec() -> bool {
        true
    }

    open spec fn eq_spec(&self, other: &PursConstructor) -> bool {
        self@ == other@
    }
}

impl Eq for PursConstructor {

}

impl Clone for PursConstructor {
    fn clone(&self) -> (copy: PursConstructor)
        ensures
            copy@ == self@,
        decreases self,
    {
        PursConstructor {
            name: self.name.clone(),
            parameters: clone_constructors(&self.parameters),
        }
    }
}

/// A host type that knows the PureScript type it is used as.
pub trait AsPursConstructor {
    /// Produces the reference to the PureScript type that stands for `Self`.
    fn as_purs_constructor() -> PursConstructor;
}

impl AsPursConstructor for u8 {
    fn as_purs_constructor() -> (c: PursConstructor)
        ensures
            c@ == integer_view(),
    {
        PursConstructor::integer()
    }
}

impl AsPursConstructor for u16 {
    fn as_purs_constructor() -> (c: PursConstructor)
        ensures
            c@ == integer_view(),
    {
        PursConstructor::integer()
    }
}

impl AsPursConstructor for u32 {
    fn as_purs_constructor() -> (c: PursConstructor)
        ensures
            c@ == integer_view(),
    {
        PursConstructor::integer()
    }
}

impl AsPursConstructor for u64 {
    fn as_purs_constructor() -> (c: PursConstructor)
        ensures
            c@ == integer_view(),
    {
        PursConstructor::integer()
    }
}

impl AsPursConstructor for i8 {
    fn as_purs_constructor() -> (c: PursConstructor)
        ensures
            c@ == integer_view(),
    {
        PursConstructor::integer()
    }
}

impl AsPursConstructor for i16 {
    fn as_purs_constructor() -> (c: PursConstructor)
        ensures
            c@ == integer_view(),
    {
        PursConstructor::integer()
    }
}

impl AsPursConstructor for i32 {
    fn as_purs_constructor() -> (c: PursConstructor)
        ensures
            c@ == integer_view(),
    {
        PursConstructor::integer()
    }
}

impl AsPursConstructor for i64 {
    fn as_purs_constructor() -> (c: PursConstructor)
        ensures
            c@ == integer_view(),
    {
        PursConstructor::integer()
    }
}

/// A sequence of the host is an `Array` of what its elements are used as.
impl<T: AsPursConstructor> AsPursConstructor for Vec<T> {
    fn as_purs_constructor() -> (c: PursConstructor)
        ensures
            c@.name == "Array"@,
            c@.parameters.len() == 1,
    {
        PursConstructor::array_of(T::as_purs_constructor())
    }
}

} // verus!
