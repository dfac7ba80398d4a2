//! The symbol table: one flat mapping from names to variables and one from
//! names to functions. A name is entered once; a second declaration under the
//! same name is refused and the first stays.

use vstd::prelude::*;
use crate::text::text;
use crate::parser::ast::{Mutability, Visibility};
use crate::parser::symbol_table::error::{SymbolError, SymbolErrorSpec};
use crate::parser::types::{optional_type_view, Type, TypeSpec};

verus! {

/// What the table records of a variable.
#[derive(Debug)]
pub struct VariableInfo {
    pub var_type: Type,
    pub visibility: Option<Visibility>,
    pub mutability: Mutability,
    pub initialized: bool,
    pub line: usize,
    pub column: usize,
}

/// The mathematical value of a `VariableInfo`.
pub struct VariableInfoSpec {
    pub var_type: TypeSpec,
    pub visibility: Option<Visibility>,
    pub mutability: Mutability,
    pub initialized: bool,
    pub line: usize,
    pub column: usize,
}

impl View for VariableInfo {
    type V = VariableInfoSpec;

    open spec fn view(&self) -> VariableInfoSpec {
        VariableInfoSpec {
            var_type: self.var_type@,
            visibility: self.visibility,
            mutability: self.mutability,
            initialized: self.initialized,
            line: self.line,
            column: self.column,
        }
    }
}

impl Clone for VariableInfo {
    fn clone(&self) -> (r: Self)
        ensures
            r@ == self@,
    {
        VariableInfo {
            var_type: self.var_type.clone(),
            visibility: self.visibility,
            mutability: self.mutability,
            initialized: self.initialized,
            line: self.line,
            column: self.column,
        }
    }
}

impl VariableInfo {
    /// Whether the variable was declared with `mut`.
    pub fn is_mutable(&self) -> (b: bool)
        ensures
            b == (self@.mutability == Mutability::Mut),
    {
        match self.mutability {
            Mutability::Mut => true,
            Mutability::Let => false,
        }
    }
}

/// The values of a function's parameters: name and type, in order.
pub open spec fn signature_view(parameters: Seq<(String, Type)>) -> Seq<(Seq<char>, TypeSpec)> {
    parameters.map_values(|p: (String, Type)| (p.0@, p.1@))
}

/// What the table records of a function.
#[derive(Debug)]
pub struct FunctionInfo {
    pub parameters: Vec<(String, Type)>,
    pub return_type: Option<Type>,
    pub visibility: Option<Visibility>,
    pub line: usize,
    pub column: usize,
}

/// The mathematical value of a `FunctionInfo`.
pub struct FunctionInfoSpec {
    pub parameters: Seq<(Seq<char>, TypeSpec)>,
    pub return_type: Option<TypeSpec>,
    pub visibility: Option<Visibility>,
    pub line: usize,
    pub column: usize,
}

impl View for FunctionInfo {
    type V = FunctionInfoSpec;

    open spec fn view(&self) -> FunctionInfoSpec {
        FunctionInfoSpec {
            parameters: signature_view(self.parameters@),
            return_type: optional_type_view(self.return_type),
            visibility: self.visibility,
            line: self.line,
            column: self.column,
        }
    }
}

/// The mapping that a list of entries stands for: every name to what is
/// entered under it.
pub open spec fn entries_map<T: View>(entries: Seq<(String, T)>) -> Map<Seq<char>, T::V>
    decreases entries.len(),
{
    if entries.len() == 0 {
        Map::empty()
    } else {
        entries_map(entries.drop_last()).insert(entries.last().0@, entries.last().1@)
    }
}

/// No name is entered twice.
pub open spec fn distinct_names<T>(entries: Seq<(String, T)>) -> bool {
    forall|i: int, j: int|
        0 <= i < j < entries.len() ==> (#[trigger] entries[i]).0@ != (#[trigger] entries[j]).0@
}

/// The mapping holds exactly the names that are entered, and finitely many.
pub proof fn lemma_entries_domain<T: View>(entries: Seq<(String, T)>, name: Seq<char>)
    ensures
        entries_map(entries).dom().contains(name) <==> exists|i: int|
            0 <= i < entries.len() && (#[trigger] entries[i]).0@ == name,
        entries_map(entries).dom().finite(),
    decreases entries.len(),
{
    if entries.len() > 0 {
        let front = entries.drop_last();
        lemma_entries_domain(front, name);
        if entries_map(entries).dom().contains(name) {
            if entries.last().0@ == name {
                assert(entries[entries.len() - 1].0@ == name);
            } else {
                let i = choose|i: int| 0 <= i < front.len() && (#[trigger] front[i]).0@ == name;
                assert(entries[i].0@ == name);
            }
        }
        if exists|i: int| 0 <= i < entries.len() && (#[trigger] entries[i]).0@ == name {
            let i = choose|i: int| 0 <= i < entries.len() && (#[trigger] entries[i]).0@ == name;
            if i < entries.len() - 1 {
                assert(front[i].0@ == name);
            }
        }
    }
}

/// Where no name is entered twice, the mapping holds under each name what
/// its entry holds.
pub proof fn lemma_entries_lookup<T: View>(entries: Seq<(String, T)>, i: int)
    requires
        distinct_names(entries),
        0 <= i < entries.len(),
    ensures
        entries_map(entries).dom().contains(entries[i].0@),
        entries_map(entries)[entries[i].0@] == entries[i].1@,
    decreases entries.len(),
{
    let front = entries.drop_last();
    if i < entries.len() - 1 {
        assert(distinct_names(front)) by {
            assert forall|a: int, b: int| 0 <= a < b < front.len() implies (#[trigger] front[a]).0@
                != (#[trigger] front[b]).0@ by {
                assert(entries[a].0@ != entries[b].0@);
            }
        }
        lemma_entries_lookup(front, i);
        assert(entries[i].0@ != entries[entries.len() - 1].0@);
    }
}

/// Where no name is entered twice, the mapping has as many names as there
/// are entries.
pub proof fn lemma_entries_size<T: View>(entries: Seq<(String, T)>)
    requires
        distinct_names(entries),
    ensures
        entries_map(entries).dom().finite(),
        entries_map(entries).dom().len() == entries.len(),
    decreases entries.len(),
{
    if entries.len() > 0 {
        let front = entries.drop_last();
        assert(distinct_names(front)) by {
            assert forall|a: int, b: int| 0 <= a < b < front.len() implies (#[trigger] front[a]).0@
                != (#[trigger] front[b]).0@ by {
                assert(entries[a].0@ != entries[b].0@);
            }
        }
        lemma_entries_size(front);
        lemma_entries_domain(front, entries.last().0@);
        if entries_map(front).dom().contains(entries.last().0@) {
            let i = choose|i: int|
                0 <= i < front.len() && (#[trigger] front[i]).0@ == entries.last().0@;
            assert(entries[i].0@ != entries[entries.len() - 1].0@);
        }
    }
}

/// Replacing what is entered under a name updates the mapping at that name
/// and nowhere else.
pub proof fn lemma_entries_update<T: View>(entries: Seq<(String, T)>, i: int, entry: (String, T))
    requires
        distinct_names(entries),
        0 <= i < entries.len(),
        entry.0@ == entries[i].0@,
    ensures
        distinct_names(entries.update(i, entry)),
        entries_map(entries.update(i, entry)) == entries_map(entries).insert(entry.0@, entry.1@),
    decreases entries.len(),
{
    let updated = entries.update(i, entry);
    assert(distinct_names(updated)) by {
        assert forall|a: int, b: int| 0 <= a < b < updated.len() implies (#[trigger] updated[a]).0@
            != (#[trigger] updated[b]).0@ by {
            assert(entries[a].0@ != entries[b].0@);
        }
    }
    let front = entries.drop_last();
    assert(distinct_names(front)) by {
        assert forall|a: int, b: int| 0 <= a < b < front.len() implies (#[trigger] front[a]).0@ != (
        #[trigger] front[b]).0@ by {
            assert(entries[a].0@ != entries[b].0@);
        }
    }
    if i == entries.len() - 1 {
        assert(updated.drop_last() =~= front);
        assert(entries_map(updated) =~= entries_map(entries).insert(entry.0@, entry.1@));
    } else {
        lemma_entries_update(front, i, entry);
        assert(updated.drop_last() =~= front.update(i, entry));
        assert(entries[i].0@ != entries[entries.len() - 1].0@);
        assert(entries_map(updated) =~= entries_map(entries).insert(entry.0@, entry.1@));
    }
}

/// The index of the entry under `name`, if there is one.
fn find_entry<T>(entries: &Vec<(String, T)>, name: &str) -> (r: Option<usize>)
    ensures
        match r {
            Some(i) => i < entries@.len() && entries@[i as int].0@ == name@,
            None => forall|i: int| 0 <= i < entries@.len() ==> (#[trigger] entries@[i]).0@ != name@,
        },
{
    let key = text(name);
    let mut i: usize = 0;
    while i < entries.len()
        invariant
            i <= entries@.len(),
            key@ == name@,
            forall|k: int| 0 <= k < i ==> (#[trigger] entries@[k]).0@ != name@,
        decreases entries@.len() - i,
    {
        if entries[i].0 == key {
            return Some(i);
        }
        i = i + 1;
    }
    None
}

/// The flat registry of the variables and functions declared so far.
#[derive(Debug)]
pub struct SymbolTable {
    variables: Vec<(String, VariableInfo)>,
    functions: Vec<(String, FunctionInfo)>,
}

impl SymbolTable {
    #[verifier::type_invariant]
    spec fn well_formed(self) -> bool {
        distinct_names(self.variables@) && distinct_names(self.functions@)
    }

    /// The variables: each declared name with what is recorded of it.
    pub closed spec fn variables(&self) -> Map<Seq<char>, VariableInfoSpec> {
        entries_map(self.variables@)
    }

    /// The functions: each declared name with what is recorded of it.
    pub closed spec fn functions(&self) -> Map<Seq<char>, FunctionInfoSpec> {
        entries_map(self.functions@)
    }

    /// An empty table.
    pub fn new() -> (r: Self)
        ensures
            r.variables() == Map::<Seq<char>, VariableInfoSpec>::empty(),
            r.functions() == Map::<Seq<char>, FunctionInfoSpec>::empty(),
    {
        SymbolTable { variables: Vec::new(), functions: Vec::new() }
    }

    /// Moves the table out and leaves an empty one in its place.
    fn take(&mut self) -> (r: SymbolTable)
        ensures
            r.variables == old(self).variables,
            r.functions == old(self).functions,
            final(self).variables@.len() == 0,
            final(self).functions@.len() == 0,
    {
        let mut taken = SymbolTable { variables: Vec::new(), functions: Vec::new() };
        core::mem::swap(self, &mut taken);
        taken
    }

    /// Enters a variable under `name`. Where the name already holds a
    /// variable the table stays as it is, and the error carries the line and
    /// column of the declaration that holds the name.
    pub fn declare_variable(
        &mut self,
        name: String,
        var_type: Type,
        visibility: Option<Visibility>,
        mutability: Mutability,
        initialized: bool,
        line: usize,
        column: usize,
    ) -> (r: Result<(), SymbolError>)
        ensures
            final(self).functions() == old(self).functions(),
            old(self).variables().dom().contains(name@) ==> r is Err && r->Err_0@
                == SymbolErrorSpec::AlreadyDeclared(
                name@,
                old(self).variables()[name@].line,
                old(self).variables()[name@].column,
            ) && final(self).variables() == old(self).variables(),
            !old(self).variables().dom().contains(name@) ==> r is Ok && final(self).variables()
                == old(self).variables().insert(
                name@,
                VariableInfoSpec {
                    var_type: var_type@,
                    visibility,
                    mutability,
                    initialized,
                    line,
                    column,
                },
            ),
    {
        proof {
            use_type_invariant(&*self);
            lemma_entries_domain(self.variables@, name@);
        }
        match find_entry(&self.variables, name.as_str()) {
            Some(i) => {
                proof {
                    lemma_entries_lookup(self.variables@, i as int);
                }
                let existing_line = self.variables[i].1.line;
                let existing_column = self.variables[i].1.column;
                Err(SymbolError::AlreadyDeclared(name, existing_line, existing_column))
            },
            None => {
                let ghost before = self.variables@;
                let entry = (
                    name,
                    VariableInfo { var_type, visibility, mutability, initialized, line, column },
                );
                proof {
                    let after = before.push(entry);
                    assert(after.drop_last() =~= before);
                    assert(distinct_names(after));
                }
                let SymbolTable { mut variables, functions } = self.take();
                variables.push(entry);
                *self = SymbolTable { variables, functions };
                Ok(())
            },
        }
    }

    /// What is recorded of the variable `name`.
    pub fn lookup_variable(&self, name: &str) -> (r: Option<&VariableInfo>)
        ensures
            match r {
                Some(info) => self.variables().dom().contains(name@) && info@
                    == self.variables()[name@],
                None => !self.variables().dom().contains(name@),
            },
    {
        proof {
            use_type_invariant(self);
            lemma_entries_domain(self.variables@, name@);
        }
        match find_entry(&self.variables, name) {
            Some(i) => {
                proof {
                    lemma_entries_lookup(self.variables@, i as int);
                }
                Some(&self.variables[i].1)
            },
            None => None,
        }
    }

    /// The type recorded for the variable `name`.
    pub fn get_variable_type(&self, name: &str) -> (r: Result<Type, SymbolError>)
        ensures
            match r {
                Ok(t) => self.variables().dom().contains(name@) && t@
                    == self.variables()[name@].var_type,
                Err(e) => !self.variables().dom().contains(name@) && e@
                    == SymbolErrorSpec::Undeclared(name@),
            },
    {
        match self.lookup_variable(name) {
            Some(info) => Ok(info.var_type.clone()),
            None => Err(SymbolError::Undeclared(text(name))),
        }
    }

    /// Records `new_type` for the variable `name` and marks it initialized.
    /// Refused for a name that holds no variable, and for a variable that was
    /// declared immutable; the table then stays as it is.
    pub fn update_variable(&mut self, name: &str, new_type: Type) -> (r: Result<(), SymbolError>)
        ensures
            final(self).functions() == old(self).functions(),
            !old(self).variables().dom().contains(name@) ==> r is Err && r->Err_0@
                == SymbolErrorSpec::Undeclared(name@) && final(self).variables() == old(self).variables(),
            old(self).variables().dom().contains(name@) && old(self).variables()[name@].mutability
                == Mutability::Let ==> r is Err && r->Err_0@
                == SymbolErrorSpec::ImmutableAssignment(name@) && final(self).variables() == old(self).variables(),
            old(self).variables().dom().contains(name@) && old(self).variables()[name@].mutability
                == Mutability::Mut ==> r is Ok && final(self).variables() == old(self).variables().insert(
                name@,
                VariableInfoSpec {
                    var_type: new_type@,
                    initialized: true,
                    ..old(self).variables()[name@]
                },
            ),
    {
        proof {
            use_type_invariant(&*self);
            lemma_entries_domain(self.variables@, name@);
        }
        match find_entry(&self.variables, name) {
            Some(i) => {
                proof {
                    lemma_entries_lookup(self.variables@, i as int);
                }
                match self.variables[i].1.mutability {
                    Mutability::Let => Err(SymbolError::ImmutableAssignment(text(name))),
                    Mutability::Mut => {
                        let entry = (
                            text(name),
                            VariableInfo {
                                var_type: new_type,
                                visibility: self.variables[i].1.visibility,
                                mutability: Mutability::Mut,
                                initialized: true,
                                line: self.variables[i].1.line,
                                column: self.variables[i].1.column,
                            },
                        );
                        proof {
                            lemma_entries_update(self.variables@, i as int, entry);
                        }
                        let SymbolTable { mut variables, functions } = self.take();
                        variables.set(i, entry);
                        *self = SymbolTable { variables, functions };
                        Ok(())
                    },
                }
            },
            None => Err(SymbolError::Undeclared(text(name))),
        }
    }

    /// Enters a function under `name`. Where the name already holds a
    /// function the table stays as it is, and the error carries the line and
    /// column of the declaration that holds the name.
    pub fn declare_function(
        &mut self,
        name: String,
        parameters: Vec<(String, Type)>,
        return_type: Option<Type>,
        visibility: Option<Visibility>,
        line: usize,
        column: usize,
    ) -> (r: Result<(), SymbolError>)
        ensures
            final(self).variables() == old(self).variables(),
            old(self).functions().dom().contains(name@) ==> r is Err && r->Err_0@
                == SymbolErrorSpec::AlreadyDeclared(
                name@,
                old(self).functions()[name@].line,
                old(self).functions()[name@].column,
            ) && final(self).functions() == old(self).functions(),
            !old(self).functions().dom().contains(name@) ==> r is Ok && final(self).functions()
                == old(self).functions().insert(
                name@,
                FunctionInfoSpec {
                    parameters: signature_view(parameters@),
                    return_type: optional_type_view(return_type),
                    visibility,
                    line,
                    column,
                },
            ),
    {
        proof {
            use_type_invariant(&*self);
            lemma_entries_domain(self.functions@, name@);
        }
        match find_entry(&self.functions, name.as_str()) {
            Some(i) => {
                proof {
                    lemma_entries_lookup(self.functions@, i as int);
                }
                let existing_line = self.functions[i].1.line;
                let existing_column = self.functions[i].1.column;
                Err(SymbolError::AlreadyDeclared(name, existing_line, existing_column))
            },
            None => {
                let ghost before = self.functions@;
                let entry = (
                    name,
                    FunctionInfo { parameters, return_type, visibility, line, column },
                );
                proof {
                    let after = before.push(entry);
                    assert(after.drop_last() =~= before);
                    assert(distinct_names(after));
                }
                let SymbolTable { variables, mut functions } = self.take();
                functions.push(entry);
                *self = SymbolTable { variables, functions };
                Ok(())
            },
        }
    }

    /// What is recorded of the function `name`.
    pub fn get_function_info(&self, name: &str) -> (r: Result<&FunctionInfo, SymbolError>)
        ensures
            match r {
                Ok(info) => self.functions().dom().contains(name@) && info@
                    == self.functions()[name@],
                Err(e) => !self.functions().dom().contains(name@) && e@
                    == SymbolErrorSpec::Undeclared(name@),
            },
    {
        proof {
            use_type_invariant(self);
            lemma_entries_domain(self.functions@, name@);
        }
        match find_entry(&self.functions, name) {
            Some(i) => {
                proof {
                    lemma_entries_lookup(self.functions@, i as int);
                }
                Ok(&self.functions[i].1)
            },
            None => Err(SymbolError::Undeclared(text(name))),
        }
    }

    /// Whether `name` holds a variable.
    pub fn variable_exists(&self, name: &str) -> (b: bool)
        ensures
            b == self.variables().dom().contains(name@),
    {
        self.lookup_variable(name).is_some()
    }

    /// Whether `name` holds a function.
    pub fn function_exists(&self, name: &str) -> (b: bool)
        ensures
            b == self.functions().dom().contains(name@),
    {
        self.get_function_info(name).is_ok()
    }

    /// The variables as a list: every declared name once, with what is
    /// recorded of it.
    pub fn get_all_variables(&self) -> (r: &Vec<(String, VariableInfo)>)
        ensures
            distinct_names(r@),
            entries_map(r@) == self.variables(),
    {
        proof {
            use_type_invariant(self);
        }
        &self.variables
    }

    /// A copy of the variables as a list: every declared name once, with
    /// what is recorded of it.
    pub fn get_all_variables_owned(&self) -> (r: Vec<(String, VariableInfo)>)
        ensures
            distinct_names(r@),
            entries_map(r@) == self.variables(),
    {
        proof {
            use_type_invariant(self);
        }
        let mut copies: Vec<(String, VariableInfo)> = Vec::new();
        let mut i: usize = 0;
        while i < self.variables.len()
            invariant
                i <= self.variables@.len(),
                copies@.len() == i,
                forall|k: int|
                    0 <= k < i ==> (#[trigger] copies@[k]).0@ == self.variables@[k].0@
                        && copies@[k].1@ == self.variables@[k].1@,
            decreases self.variables@.len() - i,
        {
            let entry = (self.variables[i].0.clone(), self.variables[i].1.clone());
            copies.push(entry);
            i = i + 1;
        }
        proof {
            lemma_same_entries(copies@, self.variables@);
        }
        copies
    }

    /// How many variables are declared.
    pub fn variable_count(&self) -> (n: usize)
        ensures
            self.variables().dom().finite(),
            n == self.variables().dom().len(),
    {
        proof {
            use_type_invariant(self);
            lemma_entries_size(self.variables@);
        }
        self.variables.len()
    }

    /// Forgets every variable and every function.
    pub fn clear(&mut self)
        ensures
            final(self).variables() == Map::<Seq<char>, VariableInfoSpec>::empty(),
            final(self).functions() == Map::<Seq<char>, FunctionInfoSpec>::empty(),
    {
        *self = SymbolTable { variables: Vec::new(), functions: Vec::new() };
    }
}

/// Two lists whose entries have the same values in the same order stand for
/// the same mapping.
pub proof fn lemma_same_entries<T: View>(a: Seq<(String, T)>, b: Seq<(String, T)>)
    requires
        a.len() == b.len(),
        forall|k: int| 0 <= k < a.len() ==> (#[trigger] a[k]).0@ == b[k].0@ && a[k].1@ == b[k].1@,
    ensures
        entries_map(a) == entries_map(b),
        distinct_names(b) ==> distinct_names(a),
    decreases a.len(),
{
    if a.len() > 0 {
        lemma_same_entries(a.drop_last(), b.drop_last());
    }
    if distinct_names(b) {
        assert forall|i: int, j: int| 0 <= i < j < a.len() implies (#[trigger] a[i]).0@ != (
        #[trigger] a[j]).0@ by {
            assert(b[i].0@ != b[j].0@);
        }
    }
}

} // verus!
