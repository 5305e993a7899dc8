//! Modules: a name, imports and declarations, rendered as one source file.

use crate::purs_import::{
    imports_view, needed_imports, resolve_imports, standard_table, strings_view, ImportRuleView,
    ImportTable, PursImport, PursImportView,
};
use crate::purs_type::{type_text, types_view, PursType, PursTypeView};
use vstd::prelude::*;

verus! {

/// The mathematical content of a [`PursModule`].
pub struct PursModuleView {
    pub name: Seq<char>,
    pub imports: Seq<PursImportView>,
    pub types: Seq<PursTypeView>,
}

/// A PureScript module that consists of data type declarations.
#[derive(Debug)]
pub struct PursModule {
    /// The name of the module.
    pub name: String,
    /// What the module imports, library by library.
    pub imports: Vec<PursImport>,
    /// The declarations, in the order in which they are written out.
    pub types: Vec<PursType>,
}

impl View for PursModule {
    type V = PursModuleView;

    open spec fn view(&self) -> PursModuleView {
        PursModuleView {
            name: self.name@,
            imports: imports_view(self.imports@),
            types: types_view(self.types@),
        }
    }
}

/// The module called `name` that holds `types` and imports what they need
/// under the rules of `table`.
pub open spec fn assembled(
    name: Seq<char>,
    table: Seq<ImportRuleView>,
    types: Seq<PursTypeView>,
) -> PursModuleView {
    PursModuleView { name, imports: needed_imports(table, types), types }
}

/// The imported names, one on each line.
pub open spec fn import_names_text(names: Seq<Seq<char>>) -> Seq<char>
    decreases names.len(),
{
    if names.len() == 0 {
        Seq::empty()
    } else {
        import_names_text(names.drop_last()) + names.last() + "\n"@
    }
}

/// One import: the library on the first line, then the names on a line each,
/// then the closing parenthesis on a line of its own.
pub open spec fn import_text(import: PursImportView) -> Seq<char> {
    "import "@ + import.library + " (\n"@ + import_names_text(import.names) + ")\n"@
}

/// The imports of a module, one after the other.
pub open spec fn imports_text(imports: Seq<PursImportView>) -> Seq<char>
    decreases imports.len(),
{
    if imports.len() == 0 {
        Seq::empty()
    } else {
        imports_text(imports.drop_last()) + import_text(imports.last())
    }
}

/// The declarations of a module, each followed by an empty line.
pub open spec fn declarations_text(types: Seq<PursTypeView>) -> Seq<char>
    decreases types.len(),
{
    if types.len() == 0 {
        Seq::empty()
    } else {
        declarations_text(types.drop_last()) + type_text(types.last()) + "\n\n"@
    }
}

/// The source text of a module: the header, an empty line, the imports, an
/// empty line, and the declarations in the order given.
pub open spec fn module_text(module: PursModuleView) -> Seq<char> {
    "module "@ + module.name + " where\n\n"@ + imports_text(module.imports) + "\n"@
        + declarations_text(module.types)
}

/// Writes out one import.
fn append_import(text: &mut String, import: &PursImport)
    ensures
        final(text)@ == old(text)@ + import_text(import@),
{
    text.append("import ");
    text.append(import.library.as_str());
    text.append(" (\n");
    let ghost start = text@;
    let ghost names = strings_view(import.names@);
    let mut i: usize = 0;
    while i < import.names.len()
        invariant
            i <= import.names.len(),
            names == strings_view(import.names@),
            text@ == start + import_names_text(names.take(i as int)),
        decreases import.names.len() - i,
    {
        text.append(import.names[i].as_str());
        text.append("\n");
        proof {
            assert(names.take(i + 1).drop_last() =~= names.take(i as int));
        }
        i += 1;
    }
    text.append(")\n");
    proof {
        assert(names.take(i as int) =~= names);
    }
}

impl PursModule {
    /// Assembles the module called `name` from `types`, with the imports
    /// that the standard table asks for.
    pub fn new(name: String, types: Vec<PursType>) -> (module: PursModule)
        ensures
            module@ == assembled(name@, standard_table(), types_view(types@)),
    {
        let table = ImportTable::standard();
        PursModule::with_table(name, types, &table)
    }

    /// Assembles the module called `name` from `types`, with the imports
    /// that `table` asks for.
    pub fn with_table(name: String, types: Vec<PursType>, table: &ImportTable) -> (module:
        PursModule)
        ensures
            module@ == assembled(name@, table@, types_view(types@)),
    {
        let imports = resolve_imports(table, &types);
        PursModule { name, imports, types }
    }

    /// Renders the module as PureScript source text.
    pub fn render(&self) -> (text: String)
        ensures
            text@ == module_text(self@),
    {
        let mut text = "module ".to_string();
        text.append(self.name.as_str());
        text.append(" where\n\n");
        let ghost start = text@;
        let ghost imports = imports_view(self.imports@);
        let mut i: usize = 0;
        while i < self.imports.len()
            invariant
                i <= self.imports.len(),
                imports == imports_view(self.imports@),
                text@ == start + imports_text(imports.take(i as int)),
            decreases self.imports.len() - i,
        {
            append_import(&mut text, &self.imports[i]);
            proof {
                assert(imports.take(i + 1).drop_last() =~= imports.take(i as int));
            }
            i += 1;
        }
        text.append("\n");
        let ghost middle = text@;
        let ghost types = types_view(self.types@);
        let mut j: usize = 0;
        proof {
            assert(imports.take(i as int) =~= imports);
        }
        while j < self.types.len()
            invariant
                j <= self.types.len(),
                types == types_view(self.types@),
                text@ == middle + declarations_text(types.take(j as int)),
            decreases self.types.len() - j,
        {
            let declaration = self.types[j].render();
            text.append(declaration.as_str());
            text.append("\n\n");
            proof {
                assert(types.take(j + 1).drop_last() =~= types.take(j as int));
            }
            j += 1;
        }
        proof {
            assert(types.take(j as int) =~= types);
        }
        text
    }
}

/// Assembles the module called `name` from `types`, with the imports that
/// the standard table asks for, and renders it.
pub fn assemble(name: String, types: Vec<PursType>) -> (text: String)
    ensures
        text@ == module_text(assembled(name@, standard_table(), types_view(types@))),
{
    PursModule::new(name, types).render()
}

} // verus!
