//! What holds of every import list: nothing is listed twice, what is listed
//! is what the references ask for, and what is asked for first comes first.

use crate::purs_import::{
    declared_names, find_rule, libraries, names_from, needed_imports, requests, types_names,
    ImportRuleView, ImportTable, PursImportView,
};
use crate::purs_type::{types_view, PursType};
use vstd::prelude::*;

verus! {

/// Whether a reference called `reference` asks for `name` from `library`:
/// the module does not declare `reference`, and the rule for it gives the
/// two.
pub open spec fn asks_for(
    table: Seq<ImportRuleView>,
    declared: Seq<Seq<char>>,
    reference: Seq<char>,
    library: Seq<char>,
    name: Seq<char>,
) -> bool {
    &&& !declared.contains(reference)
    &&& find_rule(table, reference) matches Some(rule)
    &&& rule.library == library
    &&& rule.name == name
}

/// Whether one of the references called `names` asks for `name` from
/// `library`.
pub open spec fn asked_by_some(
    table: Seq<ImportRuleView>,
    declared: Seq<Seq<char>>,
    names: Seq<Seq<char>>,
    library: Seq<char>,
    name: Seq<char>,
) -> bool {
    exists|k: int|
        0 <= k < names.len() && asks_for(table, declared, #[trigger] names[k], library, name)
}

/// Whether `name` stands at exactly one place of `names`.
pub open spec fn once_in(names: Seq<Seq<char>>, name: Seq<char>) -> bool {
    exists|j: int|
        {
            &&& 0 <= j < names.len()
            &&& #[trigger] names[j] == name
            &&& forall|other: int|
                0 <= other < names.len() && #[trigger] names[other] == name ==> other == j
        }
}

/// Whether exactly one entry of `imports` is for `library`, and that entry
/// lists `name` exactly once.
pub open spec fn listed_once(
    imports: Seq<PursImportView>,
    library: Seq<char>,
    name: Seq<char>,
) -> bool {
    exists|i: int|
        {
            &&& 0 <= i < imports.len()
            &&& (#[trigger] imports[i]).library == library
            &&& once_in(imports[i].names, name)
            &&& forall|other: int|
                0 <= other < imports.len() && (#[trigger] imports[other]).library == library
                    ==> other == i
        }
}

/// The rule that is found for a name is the first of the table with that
/// marker, and none is found exactly when no rule has it.
pub proof fn lemma_find_rule(table: Seq<ImportRuleView>, name: Seq<char>)
    ensures
        match find_rule(table, name) {
            Some(rule) => exists|i: int|
                {
                    &&& 0 <= i < table.len()
                    &&& #[trigger] table[i] == rule
                    &&& rule.marker == name
                    &&& forall|k: int| 0 <= k < i ==> (#[trigger] table[k]).marker != name
                },
            None => forall|k: int| 0 <= k < table.len() ==> (#[trigger] table[k]).marker != name,
        },
    decreases table.len(),
{
    if table.len() > 0 && table.first().marker != name {
        let rest = table.drop_first();
        lemma_find_rule(rest, name);
        match find_rule(rest, name) {
            Some(rule) => {
                let i = choose|i: int|
                    {
                        &&& 0 <= i < rest.len()
                        &&& #[trigger] rest[i] == rule
                        &&& forall|k: int| 0 <= k < i ==> (#[trigger] rest[k]).marker != name
                    };
                assert(table[i + 1] == rule);
                assert forall|k: int| 0 <= k < i + 1 implies (#[trigger] table[k]).marker
                    != name by {
                    if k > 0 {
                        assert(rest[k - 1] == table[k]);
                    }
                }
            },
            None => {
                assert forall|k: int| 0 <= k < table.len() implies (#[trigger] table[k]).marker
                    != name by {
                    if k > 0 {
                        assert(rest[k - 1] == table[k]);
                    }
                }
            },
        }
    } else if table.len() > 0 {
        assert(table[0] == table.first());
    }
}

/// Every library is listed once, and it is listed exactly when it is asked
/// for.
pub proof fn lemma_libraries(asked: Seq<(Seq<char>, Seq<char>)>)
    ensures
        libraries(asked).no_duplicates(),
        forall|library: Seq<char>| #[trigger]
            libraries(asked).contains(library) <==> exists|k: int|
                0 <= k < asked.len() && (#[trigger] asked[k]).0 == library,
    decreases asked.len(),
{
    if asked.len() > 0 {
        let front = asked.drop_last();
        lemma_libraries(front);
        assert forall|library: Seq<char>| #[trigger]
            libraries(asked).contains(library) implies exists|k: int|
            0 <= k < asked.len() && (#[trigger] asked[k]).0 == library by {
            if libraries(front).contains(library) {
                let k = choose|k: int| 0 <= k < front.len() && (#[trigger] front[k]).0 == library;
                assert(asked[k].0 == library);
            } else {
                assert(asked[asked.len() - 1].0 == library);
            }
        }
        assert forall|library: Seq<char>|
            (exists|k: int|
                0 <= k < asked.len() && (#[trigger] asked[k]).0
                    == library) implies #[trigger] libraries(asked).contains(library) by {
            let k = choose|k: int| 0 <= k < asked.len() && (#[trigger] asked[k]).0 == library;
            if k < front.len() {
                assert(front[k] == asked[k]);
                assert(libraries(front).contains(library));
                let i = choose|i: int|
                    0 <= i < libraries(front).len() && libraries(front)[i] == library;
                assert(libraries(asked)[i] == library);
            } else if !libraries(front).contains(library) {
                assert(libraries(asked)[libraries(front).len() as int] == library);
            }
        }
    }
}

/// Every name is listed once under a library, and it is listed exactly when
/// it is asked for from that library.
pub proof fn lemma_names_from(asked: Seq<(Seq<char>, Seq<char>)>, library: Seq<char>)
    ensures
        names_from(asked, library).no_duplicates(),
        forall|name: Seq<char>| #[trigger]
            names_from(asked, library).contains(name) <==> exists|k: int|
                0 <= k < asked.len() && #[trigger] asked[k] == (library, name),
    decreases asked.len(),
{
    if asked.len() > 0 {
        let front = asked.drop_last();
        lemma_names_from(front, library);
        assert forall|name: Seq<char>| #[trigger]
            names_from(asked, library).contains(name) implies exists|k: int|
            0 <= k < asked.len() && #[trigger] asked[k] == (library, name) by {
            if names_from(front, library).contains(name) {
                let k = choose|k: int|
                    0 <= k < front.len() && #[trigger] front[k] == (library, name);
                assert(asked[k] == (library, name));
            } else {
                assert(asked[asked.len() - 1] == (library, name));
            }
        }
        assert forall|name: Seq<char>|
            (exists|k: int|
                0 <= k < asked.len() && #[trigger] asked[k] == (
                    library,
                    name,
                )) implies #[trigger] names_from(asked, library).contains(name) by {
            let k = choose|k: int| 0 <= k < asked.len() && #[trigger] asked[k] == (library, name);
            if k < front.len() {
                assert(front[k] == asked[k]);
                assert(names_from(front, library).contains(name));
                let i = choose|i: int|
                    0 <= i < names_from(front, library).len() && names_from(front, library)[i]
                        == name;
                assert(names_from(asked, library)[i] == name);
            } else if !names_from(front, library).contains(name) {
                assert(names_from(asked, library)[names_from(front, library).len() as int]
                    == name);
            }
        }
    }
}

/// A library that is not listed has no names asked for from it.
pub proof fn lemma_unlisted_library(asked: Seq<(Seq<char>, Seq<char>)>, library: Seq<char>)
    requires
        !libraries(asked).contains(library),
    ensures
        names_from(asked, library) == Seq::<Seq<char>>::empty(),
{
    lemma_libraries(asked);
    lemma_names_from(asked, library);
    if names_from(asked, library).len() > 0 {
        let name = names_from(asked, library)[0];
        assert(names_from(asked, library).contains(name));
    }
}

/// What is asked for first is listed first: the libraries listed for the
/// first `count` requests are the first of the libraries listed for all of
/// them, in the same order, and so are the names under each library.
pub proof fn lemma_first_asked_first_listed(
    asked: Seq<(Seq<char>, Seq<char>)>,
    count: int,
    library: Seq<char>,
)
    requires
        0 <= count <= asked.len(),
    ensures
        libraries(asked.take(count)).is_prefix_of(libraries(asked)),
        names_from(asked.take(count), library).is_prefix_of(names_from(asked, library)),
    decreases asked.len(),
{
    if count == asked.len() {
        assert(asked.take(count) =~= asked);
    } else {
        let front = asked.drop_last();
        assert(front.take(count) =~= asked.take(count));
        lemma_first_asked_first_listed(front, count, library);
    }
}

/// A pair of library and name is asked for exactly when some reference has
/// a name that the module does not declare and whose rule gives that pair.
pub proof fn lemma_requests(
    table: Seq<ImportRuleView>,
    declared: Seq<Seq<char>>,
    names: Seq<Seq<char>>,
)
    ensures
        forall|library: Seq<char>, name: Seq<char>| #[trigger]
            requests(table, declared, names).contains((library, name)) <==> asked_by_some(
                table,
                declared,
                names,
                library,
                name,
            ),
    decreases names.len(),
{
    if names.len() > 0 {
        let front = names.drop_last();
        let asked = requests(table, declared, names);
        let before = requests(table, declared, front);
        lemma_requests(table, declared, front);
        assert forall|library: Seq<char>, name: Seq<char>| #[trigger]
            asked.contains((library, name)) implies asked_by_some(
            table,
            declared,
            names,
            library,
            name,
        ) by {
            if before.contains((library, name)) {
                let k = choose|k: int|
                    0 <= k < front.len() && asks_for(
                        table,
                        declared,
                        #[trigger] front[k],
                        library,
                        name,
                    );
                assert(asks_for(table, declared, names[k], library, name));
            } else {
                assert(asks_for(table, declared, names[names.len() - 1], library, name));
            }
        }
        assert forall|library: Seq<char>, name: Seq<char>|
            asked_by_some(table, declared, names, library, name) implies #[trigger] asked.contains(
            (library, name),
        ) by {
            let k = choose|k: int|
                0 <= k < names.len() && asks_for(
                    table,
                    declared,
                    #[trigger] names[k],
                    library,
                    name,
                );
            if k < front.len() {
                assert(front[k] == names[k]);
                assert(before.contains((library, name)));
                let i = choose|i: int| 0 <= i < before.len() && before[i] == (library, name);
                assert(asked[i] == (library, name));
            } else {
                assert(asked[before.len() as int] == (library, name));
            }
        }
    }
}

/// The import list names no library twice and no name twice under one
/// library. A library is listed exactly when some reference asks for a name
/// from it, and a name is listed under a library exactly when some reference
/// asks for it from there.
pub proof fn lemma_imports_exact(table: ImportTable, types: Vec<PursType>)
    ensures
        ({
            let declared = declared_names(types_view(types@));
            let names = types_names(types_view(types@));
            let imports = needed_imports(table@, types_view(types@));
            &&& (forall|i: int, j: int|
                0 <= i < j < imports.len() ==> (#[trigger] imports[i]).library != (
                #[trigger] imports[j]).library)
            &&& (forall|i: int|
                0 <= i < imports.len() ==> (#[trigger] imports[i]).names.no_duplicates())
            &&& (forall|i: int, name: Seq<char>|
                0 <= i < imports.len() ==> (#[trigger] imports[i].names.contains(name)
                    <==> asked_by_some(table@, declared, names, imports[i].library, name)))
            &&& (forall|library: Seq<char>, name: Seq<char>| #[trigger]
                asked_by_some(table@, declared, names, library, name) ==> exists|i: int|
                    0 <= i < imports.len() && (#[trigger] imports[i]).library == library)
        }),
{
    let declared = declared_names(types_view(types@));
    let names = types_names(types_view(types@));
    let asked = requests(table@, declared, names);
    let imports = needed_imports(table@, types_view(types@));
    lemma_requests(table@, declared, names);
    lemma_libraries(asked);
    assert forall|i: int| 0 <= i < imports.len() implies (
    #[trigger] imports[i]).names.no_duplicates() by {
        lemma_names_from(asked, libraries(asked)[i]);
    }
    assert forall|i: int, name: Seq<char>| 0 <= i < imports.len() implies (
    #[trigger] imports[i].names.contains(name) <==> asked_by_some(
        table@,
        declared,
        names,
        imports[i].library,
        name,
    )) by {
        let library = libraries(asked)[i];
        lemma_names_from(asked, library);
        if imports[i].names.contains(name) {
            assert(asked.contains((library, name)));
        }
        if asked_by_some(table@, declared, names, library, name) {
            assert(asked.contains((library, name)));
        }
    }
    assert forall|library: Seq<char>, name: Seq<char>| #[trigger]
        asked_by_some(table@, declared, names, library, name) implies exists|i: int|
        0 <= i < imports.len() && (#[trigger] imports[i]).library == library by {
        assert(asked.contains((library, name)));
        assert(libraries(asked).contains(library));
        let i = choose|i: int| 0 <= i < libraries(asked).len() && libraries(asked)[i] == library;
        assert(imports[i].library == library);
    }
}

/// However often the declarations refer to a name that needs an import,
/// the import list holds the library once and, under it, the imported name
/// once.
pub proof fn lemma_import_listed_once(table: ImportTable, types: Vec<PursType>, k: int)
    requires
        0 <= k < types_names(types_view(types@)).len(),
        !declared_names(types_view(types@)).contains(types_names(types_view(types@))[k]),
        find_rule(table@, types_names(types_view(types@))[k]) is Some,
    ensures
        ({
            let rule = find_rule(table@, types_names(types_view(types@))[k])->0;
            listed_once(needed_imports(table@, types_view(types@)), rule.library, rule.name)
        }),
{
    let declared = declared_names(types_view(types@));
    let names = types_names(types_view(types@));
    let rule = find_rule(table@, names[k])->0;
    let asked = requests(table@, declared, names);
    let imports = needed_imports(table@, types_view(types@));
    lemma_requests(table@, declared, names);
    assert(asked.contains((rule.library, rule.name)));
    lemma_libraries(asked);
    lemma_names_from(asked, rule.library);
    assert(libraries(asked).contains(rule.library));
    assert(names_from(asked, rule.library).contains(rule.name));
    let i = choose|i: int| 0 <= i < libraries(asked).len() && libraries(asked)[i] == rule.library;
    assert(imports[i].library == rule.library);
    assert forall|other: int|
        0 <= other < imports.len() && (#[trigger] imports[other]).library
            == rule.library implies other == i by {
    }
}

} // verus!
