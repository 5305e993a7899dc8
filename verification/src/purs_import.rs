//! The imports that a set of declarations needs.
//!
//! Every reference in a declaration is looked up by name in a table of
//! import rules. What the rules ask for is listed once per library, the
//! libraries and the names under each in the order in which they were first
//! asked for.

use crate::purs_constructor::{
    constructors_view, lemma_constructors_view, ConstructorView, PursConstructor,
};
use crate::purs_import_laws::{lemma_libraries, lemma_unlisted_library};
use crate::purs_type::{fields_view, types_view, PursType, PursTypeView};
use vstd::prelude::*;

verus! {

/// The mathematical content of an [`ImportRule`].
pub struct ImportRuleView {
    pub marker: Seq<char>,
    pub library: Seq<char>,
    pub name: Seq<char>,
}

/// One line of an import table: a reference called `marker` needs `name`
/// imported from `library`.
#[derive(Debug)]
pub struct ImportRule {
    /// The name of the references that the rule applies to.
    pub marker: String,
    /// The module to import from.
    pub library: String,
    /// The name to import.
    pub name: String,
}

impl View for ImportRule {
    type V = ImportRuleView;

    open spec fn view(&self) -> ImportRuleView {
        ImportRuleView { marker: self.marker@, library: self.library@, name: self.name@ }
    }
}

/// The rules that say which references need an import. Where several rules
/// have the same marker, the first one counts.
#[derive(Debug)]
pub struct ImportTable {
    pub rules: Vec<ImportRule>,
}

impl View for ImportTable {
    type V = Seq<ImportRuleView>;

    open spec fn view(&self) -> Seq<ImportRuleView> {
        self.rules@.map_values(|rule: ImportRule| rule@)
    }
}

/// The mathematical content of a [`PursImport`].
pub struct PursImportView {
    pub library: Seq<char>,
    pub names: Seq<Seq<char>>,
}

/// The names that a module imports from one library.
#[derive(Debug)]
pub struct PursImport {
    /// The module to import from.
    pub library: String,
    /// The imported names, in the order in which they are listed.
    pub names: Vec<String>,
}

impl View for PursImport {
    type V = PursImportView;

    open spec fn view(&self) -> PursImportView {
        PursImportView { library: self.library@, names: strings_view(self.names@) }
    }
}

/// The characters of each string, in the same order.
pub open spec fn strings_view(strings: Seq<String>) -> Seq<Seq<char>> {
    strings.map_values(|s: String| s@)
}

/// The views of a list of imports, in the same order.
pub open spec fn imports_view(imports: Seq<PursImport>) -> Seq<PursImportView> {
    imports.map_values(|import: PursImport| import@)
}

/// The first rule of the table whose marker is `name`, if there is one.
pub open spec fn find_rule(table: Seq<ImportRuleView>, name: Seq<char>) -> Option<ImportRuleView>
    decreases table.len(),
{
    if table.len() == 0 {
        None
    } else if table.first().marker == name {
        Some(table.first())
    } else {
        find_rule(table.drop_first(), name)
    }
}

/// The rules of [`ImportTable::standard`].
pub open spec fn standard_table() -> Seq<ImportRuleView> {
    seq![ImportRuleView { marker: "Array"@, library: "Data.Array"@, name: "Array"@ }]
}

/// The names of a reference and of everything below it: the reference
/// first, then its parameters from left to right.
pub open spec fn constructor_names(c: ConstructorView) -> Seq<Seq<char>>
    decreases c, 1int,
{
    seq![c.name] + constructors_names(c.parameters)
}

/// The names of a list of references and of everything below them, from
/// left to right.
pub open spec fn constructors_names(refs: Seq<ConstructorView>) -> Seq<Seq<char>>
    decreases refs, 0int,
{
    if refs.len() == 0 {
        Seq::empty()
    } else {
        constructors_names(refs.drop_last()) + constructor_names(refs.last())
    }
}

/// The types of a record's fields, in order.
pub open spec fn field_types(fields: Seq<(Seq<char>, ConstructorView)>) -> Seq<ConstructorView> {
    fields.map_values(|field: (Seq<char>, ConstructorView)| field.1)
}

/// The names that the alternatives of a union refer to: for each
/// alternative the names of its arguments. The label of an alternative names
/// no type and is not among them.
pub open spec fn alternatives_names(alternatives: Seq<ConstructorView>) -> Seq<Seq<char>>
    decreases alternatives.len(),
{
    if alternatives.len() == 0 {
        Seq::empty()
    } else {
        alternatives_names(alternatives.drop_last()) + constructors_names(
            alternatives.last().parameters,
        )
    }
}

/// The names that a declaration refers to: those of its type variables,
/// then those of the types of its fields, of its arguments, or of the
/// arguments of its alternatives. The declared name itself is not among
/// them.
pub open spec fn type_names(declaration: PursTypeView) -> Seq<Seq<char>> {
    match declaration {
        PursTypeView::Struct(declared, fields) => constructors_names(declared.parameters)
            + constructors_names(field_types(fields)),
        PursTypeView::TupleStruct(declared, arguments) => constructors_names(declared.parameters)
            + constructors_names(arguments),
        PursTypeView::Enum(declared, alternatives) => constructors_names(declared.parameters)
            + alternatives_names(alternatives),
    }
}

/// The names that a list of declarations refers to, declaration by
/// declaration.
pub open spec fn types_names(types: Seq<PursTypeView>) -> Seq<Seq<char>>
    decreases types.len(),
{
    if types.len() == 0 {
        Seq::empty()
    } else {
        types_names(types.drop_last()) + type_names(types.last())
    }
}

/// The names of the types that a list of declarations declares.
pub open spec fn declared_names(types: Seq<PursTypeView>) -> Seq<Seq<char>> {
    types.map_values(|declaration: PursTypeView| declaration.declared().name)
}

/// What the references called `names` ask for, one pair of library and name
/// for each, in order. A name that the module declares itself asks for
/// nothing, nor does one that the table has no rule for.
pub open spec fn requests(
    table: Seq<ImportRuleView>,
    declared: Seq<Seq<char>>,
    names: Seq<Seq<char>>,
) -> Seq<(Seq<char>, Seq<char>)>
    decreases names.len(),
{
    if names.len() == 0 {
        Seq::empty()
    } else {
        let front = requests(table, declared, names.drop_last());
        match find_rule(table, names.last()) {
            Some(rule) => if declared.contains(names.last()) {
                front
            } else {
                front.push((rule.library, rule.name))
            },
            None => front,
        }
    }
}

/// The libraries that are asked for, each once, in the order in which they
/// are first asked for.
pub open spec fn libraries(asked: Seq<(Seq<char>, Seq<char>)>) -> Seq<Seq<char>>
    decreases asked.len(),
{
    if asked.len() == 0 {
        Seq::empty()
    } else {
        let front = libraries(asked.drop_last());
        if front.contains(asked.last().0) {
            front
        } else {
            front.push(asked.last().0)
        }
    }
}

/// The names that are asked for from `library`, each once, in the order in
/// which they are first asked for.
pub open spec fn names_from(asked: Seq<(Seq<char>, Seq<char>)>, library: Seq<char>) -> Seq<
    Seq<char>,
>
    decreases asked.len(),
{
    if asked.len() == 0 {
        Seq::empty()
    } else {
        let front = names_from(asked.drop_last(), library);
        if asked.last().0 == library && !front.contains(asked.last().1) {
            front.push(asked.last().1)
        } else {
            front
        }
    }
}

/// The import list that answers `asked`: one entry for each library, with
/// the names asked for from it.
pub open spec fn grouped(asked: Seq<(Seq<char>, Seq<char>)>) -> Seq<PursImportView> {
    libraries(asked).map_values(
        |library: Seq<char>| PursImportView { library, names: names_from(asked, library) },
    )
}

/// The imports that the declarations of a module need under the rules of
/// `table`.
pub open spec fn needed_imports(table: Seq<ImportRuleView>, types: Seq<PursTypeView>) -> Seq<
    PursImportView,
> {
    grouped(requests(table, declared_names(types), types_names(types)))
}

impl ImportTable {
    /// The table that knows `Array`, which comes from `Data.Array`.
    pub fn standard() -> (table: ImportTable)
        ensures
            table@ == standard_table(),
    {
        let mut rules: Vec<ImportRule> = Vec::new();
        rules.push(
            ImportRule {
                marker: "Array".to_string(),
                library: "Data.Array".to_string(),
                name: "Array".to_string(),
            },
        );
        ImportTable { rules }
    }

    /// Finds the rule for references called `name`.
    pub fn find(&self, name: &String) -> (found: Option<&ImportRule>)
        ensures
            match found {
                Some(rule) => find_rule(self@, name@) == Some(rule@),
                None => find_rule(self@, name@) is None,
            },
    {
        let mut i: usize = 0;
        assert(self@.skip(0) =~= self@);
        while i < self.rules.len()
            invariant
                i <= self.rules.len(),
                find_rule(self@, name@) == find_rule(self@.skip(i as int), name@),
            decreases self.rules.len() - i,
        {
            let rule = &self.rules[i];
            if rule.marker == *name {
                return Some(rule);
            }
            assert(self@.skip(i as int).drop_first() =~= self@.skip(i + 1));
            i += 1;
        }
        None
    }
}

/// Decides whether `name` is among `names`.
fn contains_name(names: &Vec<String>, name: &String) -> (found: bool)
    ensures
        found == strings_view(names@).contains(name@),
{
    let mut i: usize = 0;
    while i < names.len()
        invariant
            i <= names.len(),
            forall|k: int| 0 <= k < i ==> strings_view(names@)[k] != name@,
        decreases names.len() - i,
    {
        if names[i] == *name {
            assert(strings_view(names@)[i as int] == name@);
            return true;
        }
        i += 1;
    }
    false
}

/// Appends the name of `c` and the names of everything below it.
fn push_names(names: &mut Vec<String>, c: &PursConstructor)
    ensures
        strings_view(final(names)@) == strings_view(old(names)@) + constructor_names(c@),
    decreases c,
{
    names.push(c.name.clone());
    push_all_names(names, &c.parameters);
}

/// Appends the names of `refs` and of everything below them.
fn push_all_names(names: &mut Vec<String>, refs: &Vec<PursConstructor>)
    ensures
        strings_view(final(names)@) == strings_view(old(names)@) + constructors_names(
            constructors_view(refs@),
        ),
    decreases refs,
{
    let ghost all = constructors_view(refs@);
    let mut i: usize = 0;
    proof {
        lemma_constructors_view(refs@);
    }
    while i < refs.len()
        invariant
            i <= refs.len(),
            all == constructors_view(refs@),
            all.len() == refs@.len(),
            forall|k: int| 0 <= k < refs@.len() ==> all[k] == (#[trigger] refs@[k])@,
            strings_view(names@) == strings_view(old(names)@) + constructors_names(
                all.take(i as int),
            ),
        decreases refs.len() - i,
    {
        push_names(names, &refs[i]);
        proof {
            assert(all.take(i + 1).drop_last() =~= all.take(i as int));
        }
        i += 1;
    }
    proof {
        assert(all.take(i as int) =~= all);
    }
}

/// Appends the names that `declaration` refers to.
fn push_type_names(names: &mut Vec<String>, declaration: &PursType)
    ensures
        strings_view(final(names)@) == strings_view(old(names)@) + type_names(declaration@),
{
    match declaration {
        PursType::Struct(declared, fields) => {
            push_all_names(names, &declared.parameters);
            let ghost start = strings_view(names@);
            let ghost types = field_types(fields_view(fields@));
            let mut i: usize = 0;
            while i < fields.len()
                invariant
                    i <= fields.len(),
                    types == field_types(fields_view(fields@)),
                    strings_view(names@) == start + constructors_names(types.take(i as int)),
                decreases fields.len() - i,
            {
                push_names(names, &fields[i].1);
                proof {
                    assert(types.take(i + 1).drop_last() =~= types.take(i as int));
                }
                i += 1;
            }
            proof {
                assert(types.take(i as int) =~= types);
            }
        },
        PursType::TupleStruct(declared, arguments) => {
            push_all_names(names, &declared.parameters);
            push_all_names(names, arguments);
        },
        PursType::Enum(declared, alternatives) => {
            push_all_names(names, &declared.parameters);
            let ghost start = strings_view(names@);
            let ghost all = constructors_view(alternatives@);
            let mut i: usize = 0;
            proof {
                lemma_constructors_view(alternatives@);
            }
            while i < alternatives.len()
                invariant
                    i <= alternatives.len(),
                    all == constructors_view(alternatives@),
                    all.len() == alternatives@.len(),
                    forall|k: int|
                        0 <= k < alternatives@.len() ==> all[k] == (#[trigger] alternatives@[k])@,
                    strings_view(names@) == start + alternatives_names(all.take(i as int)),
                decreases alternatives.len() - i,
            {
                push_all_names(names, &alternatives[i].parameters);
                proof {
                    assert(all.take(i + 1).drop_last() =~= all.take(i as int));
                }
                i += 1;
            }
            proof {
                assert(all.take(i as int) =~= all);
            }
        },
    }
}

/// The names that `types` refer to, declaration by declaration.
fn referenced_names(types: &Vec<PursType>) -> (names: Vec<String>)
    ensures
        strings_view(names@) == types_names(types_view(types@)),
{
    let mut names: Vec<String> = Vec::new();
    let ghost all = types_view(types@);
    let mut i: usize = 0;
    while i < types.len()
        invariant
            i <= types.len(),
            all == types_view(types@),
            strings_view(names@) == types_names(all.take(i as int)),
        decreases types.len() - i,
    {
        push_type_names(&mut names, &types[i]);
        proof {
            assert(all.take(i + 1).drop_last() =~= all.take(i as int));
        }
        i += 1;
    }
    proof {
        assert(all.take(i as int) =~= all);
    }
    names
}

/// The names of the types that `types` declare.
fn declared_type_names(types: &Vec<PursType>) -> (names: Vec<String>)
    ensures
        strings_view(names@) == declared_names(types_view(types@)),
{
    let mut names: Vec<String> = Vec::new();
    let mut i: usize = 0;
    while i < types.len()
        invariant
            i <= types.len(),
            names@.len() == i,
            forall|k: int| 0 <= k < i ==> names@[k]@ == types@[k]@.declared().name,
        decreases types.len() - i,
    {
        let name = match &types[i] {
            PursType::Struct(declared, _) => declared.name.clone(),
            PursType::TupleStruct(declared, _) => declared.name.clone(),
            PursType::Enum(declared, _) => declared.name.clone(),
        };
        names.push(name);
        i += 1;
    }
    names
}

/// Enters one more request into an import list.
fn record(
    imports: &mut Vec<PursImport>,
    library: &String,
    name: &String,
    Ghost(asked): Ghost<Seq<(Seq<char>, Seq<char>)>>,
)
    requires
        imports_view(old(imports)@) == grouped(asked),
    ensures
        imports_view(final(imports)@) == grouped(asked.push((library@, name@))),
{
    let ghost more = asked.push((library@, name@));
    let ghost listed = libraries(asked);
    proof {
        lemma_libraries(asked);
        assert(imports_view(imports@).len() == imports@.len());
        assert forall|k: int| 0 <= k < imports@.len() implies (#[trigger] imports@[k])@
            == grouped(asked)[k] by {
        }
    }
    let mut i: usize = 0;
    while i < imports.len()
        invariant
            i <= imports.len(),
            *imports == *old(imports),
            listed == libraries(asked),
            more == asked.push((library@, name@)),
            more.drop_last() == asked,
            more.last() == (library@, name@),
            imports@.len() == listed.len(),
            forall|k: int|
                0 <= k < imports@.len() ==> (#[trigger] imports@[k])@ == grouped(asked)[k],
            listed.no_duplicates(),
            forall|k: int| 0 <= k < i ==> listed[k] != library@,
        decreases imports.len() - i,
    {
        if imports[i].library == *library {
            if !contains_name(&imports[i].names, name) {
                imports[i].names.push(name.clone());
            }
            proof {
                assert forall|k: int| 0 <= k < listed.len() implies imports_view(imports@)[k]
                    == grouped(more)[k] by {
                    if k == i {
                        assert(imports@[k]@.names =~= names_from(more, library@));
                    }
                }
            }
            return;
        }
        i += 1;
    }
    let mut names: Vec<String> = Vec::new();
    names.push(name.clone());
    imports.push(PursImport { library: library.clone(), names });
    proof {
        lemma_unlisted_library(asked, library@);
        assert forall|k: int| 0 <= k < libraries(more).len() implies imports_view(imports@)[k]
            == grouped(more)[k] by {
            if k == listed.len() {
                assert(imports@[k]@.names =~= seq![name@]);
            }
        }
    }
}

/// Lists the imports that the declarations of a module need under the rules
/// of `table`.
///
/// Every reference in `types`, but the declared types themselves, is looked
/// up by its name. A name that `types` declare is skipped. The library and
/// the name that the first matching rule gives are listed, each library once
/// and each name once under its library, in the order in which the
/// references first ask for them.
pub fn resolve_imports(table: &ImportTable, types: &Vec<PursType>) -> (imports: Vec<PursImport>)
    ensures
        imports_view(imports@) == needed_imports(table@, types_view(types@)),
{
    let declared = declared_type_names(types);
    let names = referenced_names(types);
    let mut imports: Vec<PursImport> = Vec::new();
    let ghost all = strings_view(names@);
    let ghost declared_view = strings_view(declared@);
    let mut i: usize = 0;
    while i < names.len()
        invariant
            i <= names.len(),
            all == strings_view(names@),
            declared_view == strings_view(declared@),
            imports_view(imports@) == grouped(requests(table@, declared_view, all.take(i as int))),
        decreases names.len() - i,
    {
        let name = &names[i];
        proof {
            assert(all.take(i + 1).drop_last() =~= all.take(i as int));
        }
        if !contains_name(&declared, name) {
            match table.find(name) {
                Some(rule) => {
                    record(
                        &mut imports,
                        &rule.library,
                        &rule.name,
                        Ghost(requests(table@, declared_view, all.take(i as int))),
                    );
                },
                None => {},
            }
        }
        i += 1;
    }
    proof {
        assert(all.take(i as int) =~= all);
    }
    imports
}

} // verus!
