//! Functions, function symbols, modules and programs, and the resolution of
//! a function symbol to its signature across modules.

use vstd::prelude::*;
use crate::field::Field;
use crate::types::{same_key, FunctionKey, Parameter, Signature, SignatureView, Type};
use crate::statement::{check_statements, statements_well_typed, TypedStatement};

verus! {

/// The identifier of a module.
pub type TypedModuleId = String;

/// The modules of a program, each under its identifier.
pub type TypedModules<T> = Vec<(TypedModuleId, TypedModule<T>)>;

/// A module's symbol table: each function symbol under its key.
pub type TypedFunctionSymbols<T> = Vec<(FunctionKey, TypedFunctionSymbol<T>)>;

/// The longest chain of aliases that resolution follows before it reports
/// the chain as too deep.
pub const MAX_RESOLUTION_DEPTH: usize = 1024;

/// A function with its body.
#[derive(Debug, PartialEq, Eq)]
pub struct TypedFunction<T> {
    /// Name of the function
    pub id: String,
    /// Arguments of the function
    pub arguments: Vec<Parameter>,
    /// Statements that are executed when running the function
    pub statements: Vec<TypedStatement<T>>,
    /// Signature of the function
    pub signature: Signature,
}

/// A function of a module: defined here, or an alias of the function with
/// the given key in the module with the given identifier.
#[derive(Debug, PartialEq, Eq)]
pub enum TypedFunctionSymbol<T> {
    Here(TypedFunction<T>),
    There(FunctionKey, TypedModuleId),
}

/// A declared import of a module: its source, under an optional alias.
#[derive(Clone, Debug, PartialEq, Eq)]
pub struct Import {
    pub source: String,
    pub alias: Option<String>,
}

/// A primitive function supplied already lowered, without a typed body.
#[derive(Clone, Debug, PartialEq, Eq)]
pub struct FlatFunction {
    pub id: String,
    pub signature: Signature,
}

/// A compilation unit.
#[derive(Debug, PartialEq, Eq)]
pub struct TypedModule<T> {
    /// Functions of the module
    pub functions: TypedFunctionSymbols<T>,
    pub imports: Vec<Import>,
    pub imported_functions: Vec<FlatFunction>,
}

/// A whole program. `main` is the canonical copy of the entry module;
/// `modules` is the table through which aliases are resolved, and holds the
/// entry module too when other modules refer to it.
#[derive(Debug, PartialEq, Eq)]
pub struct TypedProgram<T> {
    pub modules: TypedModules<T>,
    pub main: TypedModule<T>,
}

/// Why a function symbol could not be resolved to a signature.
#[derive(Clone, Copy, Debug, PartialEq, Eq, Structural)]
pub enum ResolveError {
    /// An alias names a module that the program does not hold.
    ModuleNotFound,
    /// A key is absent from the symbol table it is looked up in.
    SymbolNotFound,
    /// The chain of aliases is longer than resolution follows.
    TooDeep,
}

/// Whether each parameter has the input type at the same place in the
/// signature, and there are as many of one as of the other.
pub open spec fn parameters_match_types(ps: Seq<Parameter>, types: Seq<Type>) -> bool {
    &&& ps.len() == types.len()
    &&& forall|i: int| 0 <= i < ps.len() ==> #[trigger] ps[i].id.ty == types[i]
}

/// Whether a function is well typed: its parameters have the signature's
/// input types, and every statement of its body is well typed, each return
/// giving one value of each of the signature's output types.
pub open spec fn function_well_typed<T>(f: TypedFunction<T>) -> bool {
    &&& parameters_match_types(f.arguments@, f.signature.inputs@)
    &&& statements_well_typed(f.statements@, f.signature.outputs@)
}

/// Whether every function defined in the module is well typed.
pub open spec fn module_well_typed<T>(m: TypedModule<T>) -> bool {
    forall|i: int| 0 <= i < m.functions@.len() ==> match #[trigger] m.functions@[i].1 {
        TypedFunctionSymbol::Here(f) => function_well_typed(f),
        TypedFunctionSymbol::There(_, _) => true,
    }
}

/// Whether the entry module and every module of the table are well typed.
pub open spec fn program_well_typed<T>(p: TypedProgram<T>) -> bool {
    &&& module_well_typed(p.main)
    &&& forall|i: int| 0 <= i < p.modules@.len() ==> module_well_typed(#[trigger] p.modules@[i].1)
}

/// Whether no two entries of a symbol table have matching keys.
pub open spec fn keys_unique<T>(syms: Seq<(FunctionKey, TypedFunctionSymbol<T>)>) -> bool {
    forall|i: int, j: int|
        0 <= i < j < syms.len() ==> !same_key(#[trigger] syms[i].0, #[trigger] syms[j].0)
}

/// Whether no two modules of a table share an identifier.
pub open spec fn module_ids_unique<T>(mods: Seq<(TypedModuleId, TypedModule<T>)>) -> bool {
    forall|i: int, j: int|
        0 <= i < j < mods.len() ==> (#[trigger] mods[i]).0@ != (#[trigger] mods[j]).0@
}

/// Whether a module is valid: its symbol table holds no key twice.
pub open spec fn module_valid<T>(m: TypedModule<T>) -> bool {
    keys_unique(m.functions@)
}

/// Whether a program is valid as a table of modules: module identifiers are
/// unique, and no symbol table, the entry module's included, holds a key
/// twice.
pub open spec fn program_valid<T>(p: TypedProgram<T>) -> bool {
    &&& module_ids_unique(p.modules@)
    &&& module_valid(p.main)
    &&& forall|i: int| 0 <= i < p.modules@.len() ==> module_valid(#[trigger] p.modules@[i].1)
}

/// The first index at or after `from` of a module with identifier `id`.
pub open spec fn module_index<T>(mods: Seq<(TypedModuleId, TypedModule<T>)>, id: Seq<char>, from: int) -> Option<int>
    decreases mods.len() - from,
{
    if from < 0 || from >= mods.len() {
        None
    } else if mods[from].0@ == id {
        Some(from)
    } else {
        module_index(mods, id, from + 1)
    }
}

/// The first index at or after `from` of a symbol under a key that matches
/// `key`.
pub open spec fn symbol_index<T>(syms: Seq<(FunctionKey, TypedFunctionSymbol<T>)>, key: FunctionKey, from: int) -> Option<int>
    decreases syms.len() - from,
{
    if from < 0 || from >= syms.len() {
        None
    } else if same_key(syms[from].0, key) {
        Some(from)
    } else {
        symbol_index(syms, key, from + 1)
    }
}

/// The symbol stored under `key` in a symbol table.
pub open spec fn lookup_symbol<T>(syms: Seq<(FunctionKey, TypedFunctionSymbol<T>)>, key: FunctionKey) -> Option<TypedFunctionSymbol<T>> {
    match symbol_index(syms, key, 0) {
        Some(j) => Some(syms[j].1),
        None => None,
    }
}

/// The signature a symbol resolves to, following at most `depth` aliases.
pub open spec fn resolve<T>(sym: TypedFunctionSymbol<T>, mods: Seq<(TypedModuleId, TypedModule<T>)>, depth: nat) -> Result<SignatureView, ResolveError>
    decreases depth,
{
    match sym {
        TypedFunctionSymbol::Here(f) => Ok(f.signature@),
        TypedFunctionSymbol::There(key, module_id) => {
            if depth == 0 {
                Err(ResolveError::TooDeep)
            } else {
                match module_index(mods, module_id@, 0) {
                    None => Err(ResolveError::ModuleNotFound),
                    Some(i) => match lookup_symbol(mods[i].1.functions@, key) {
                        None => Err(ResolveError::SymbolNotFound),
                        Some(next) => resolve(next, mods, (depth - 1) as nat),
                    },
                }
            }
        },
    }
}

/// What a resolution result says, with the signature as its view.
pub open spec fn resolution_view(r: Result<Signature, ResolveError>) -> Result<SignatureView, ResolveError> {
    match r {
        Ok(s) => Ok(s@),
        Err(e) => Err(e),
    }
}

/// The module with identifier `id`: the first one in `modules`.
pub fn find_module<'a, T>(modules: &'a TypedModules<T>, id: &String) -> (r: Option<&'a TypedModule<T>>)
    ensures
        match module_index(modules@, id@, 0) {
            None => r is None,
            Some(i) => r matches Some(m) && *m == modules@[i].1,
        },
{
    let mut i: usize = 0;
    while i < modules.len()
        invariant
            i <= modules.len(),
            module_index(modules@, id@, 0) == module_index(modules@, id@, i as int),
        decreases modules.len() - i,
    {
        if modules[i].0 == *id {
            return Some(&modules[i].1);
        }
        i = i + 1;
    }
    None
}

/// The symbol stored under `key` in a symbol table: the first match.
pub fn find_symbol<'a, T>(functions: &'a TypedFunctionSymbols<T>, key: &FunctionKey) -> (r: Option<&'a TypedFunctionSymbol<T>>)
    ensures
        match lookup_symbol(functions@, *key) {
            None => r is None,
            Some(s) => r matches Some(found) && *found == s,
        },
{
    let mut i: usize = 0;
    while i < functions.len()
        invariant
            i <= functions.len(),
            symbol_index(functions@, *key, 0) == symbol_index(functions@, *key, i as int),
        decreases functions.len() - i,
    {
        if functions[i].0.matches(key) {
            return Some(&functions[i].1);
        }
        i = i + 1;
    }
    None
}

impl<T> TypedFunctionSymbol<T> {
    /// The signature of the symbol, following at most `depth` aliases.
    pub fn signature_within(&self, modules: &TypedModules<T>, depth: usize) -> (r: Result<Signature, ResolveError>)
        ensures
            resolution_view(r) == resolve(*self, modules@, depth as nat),
        decreases depth,
    {
        match self {
            TypedFunctionSymbol::Here(f) => Ok(f.signature.copy()),
            TypedFunctionSymbol::There(key, module_id) => {
                if depth == 0 {
                    return Err(ResolveError::TooDeep);
                }
                match find_module(modules, module_id) {
                    None => Err(ResolveError::ModuleNotFound),
                    Some(m) => match find_symbol(&m.functions, key) {
                        None => Err(ResolveError::SymbolNotFound),
                        Some(next) => next.signature_within(modules, depth - 1),
                    },
                }
            },
        }
    }

    /// The signature of the symbol: its own for a function defined here, the
    /// one its alias resolves to in `modules` otherwise.
    pub fn signature(&self, modules: &TypedModules<T>) -> (r: Result<Signature, ResolveError>)
        ensures
            resolution_view(r) == resolve(*self, modules@, MAX_RESOLUTION_DEPTH as nat),
    {
        self.signature_within(modules, MAX_RESOLUTION_DEPTH)
    }
}

impl<T> TypedProgram<T> {
    /// The signature of the function with key `key` in `module`, resolved
    /// through the program's modules.
    pub fn signature_of(&self, module: &TypedModule<T>, key: &FunctionKey) -> (r: Result<Signature, ResolveError>)
        ensures
            match lookup_symbol(module.functions@, *key) {
                None => r == Err::<Signature, ResolveError>(ResolveError::SymbolNotFound),
                Some(s) => resolution_view(r) == resolve(s, self.modules@, MAX_RESOLUTION_DEPTH as nat),
            },
    {
        match find_symbol(&module.functions, key) {
            None => Err(ResolveError::SymbolNotFound),
            Some(s) => s.signature(&self.modules),
        }
    }
}

/// Resolution is a function of the symbol, the modules and the depth: two
/// resolutions of one symbol in one program give the same signature.
pub proof fn lemma_resolution_deterministic<T>(
    sym: TypedFunctionSymbol<T>,
    mods: Seq<(TypedModuleId, TypedModule<T>)>,
    r1: Result<Signature, ResolveError>,
    r2: Result<Signature, ResolveError>,
)
    requires
        resolution_view(r1) == resolve(sym, mods, MAX_RESOLUTION_DEPTH as nat),
        resolution_view(r2) == resolve(sym, mods, MAX_RESOLUTION_DEPTH as nat),
    ensures
        resolution_view(r1) == resolution_view(r2),
        r1 is Ok ==> r1->Ok_0@ == r2->Ok_0@,
{
}

/// A resolution that succeeds within `depth` aliases gives the same
/// signature with any larger depth: a chain of `n` aliases needs a depth of
/// `n` and no more, one lookup of a module and one of a symbol per alias.
pub proof fn lemma_resolution_depth_monotone<T>(
    sym: TypedFunctionSymbol<T>,
    mods: Seq<(TypedModuleId, TypedModule<T>)>,
    depth: nat,
    more: nat,
)
    requires
        resolve(sym, mods, depth) is Ok,
        depth <= more,
    ensures
        resolve(sym, mods, more) == resolve(sym, mods, depth),
    decreases depth,
{
    if let TypedFunctionSymbol::There(key, module_id) = sym {
        if let Some(i) = module_index(mods, module_id@, 0) {
            if let Some(next) = lookup_symbol(mods[i].1.functions@, key) {
                lemma_resolution_depth_monotone(next, mods, (depth - 1) as nat, (more - 1) as nat);
            }
        }
    }
}

/// A symbol defined here resolves to its own signature, and an alias
/// resolves to what the symbol it names resolves to, with one alias fewer.
pub proof fn lemma_resolution_step<T>(
    key: FunctionKey,
    module_id: TypedModuleId,
    mods: Seq<(TypedModuleId, TypedModule<T>)>,
    depth: nat,
    i: int,
    target: TypedFunctionSymbol<T>,
)
    requires
        depth > 0,
        module_index(mods, module_id@, 0) == Some(i),
        lookup_symbol(mods[i].1.functions@, key) == Some(target),
    ensures
        resolve(TypedFunctionSymbol::There(key, module_id), mods, depth)
            == resolve(target, mods, (depth - 1) as nat),
{
}

/// In a symbol table without duplicate keys, looking up the key of an entry
/// finds that entry.
pub proof fn lemma_lookup_finds_entry<T>(syms: Seq<(FunctionKey, TypedFunctionSymbol<T>)>, i: int)
    requires
        keys_unique(syms),
        0 <= i < syms.len(),
    ensures
        lookup_symbol(syms, syms[i].0) == Some(syms[i].1),
{
    lemma_symbol_index_from(syms, i, 0);
}

proof fn lemma_symbol_index_from<T>(syms: Seq<(FunctionKey, TypedFunctionSymbol<T>)>, i: int, from: int)
    requires
        keys_unique(syms),
        0 <= from <= i < syms.len(),
    ensures
        symbol_index(syms, syms[i].0, from) == Some(i),
    decreases i - from,
{
    if from < i {
        assert(!same_key(syms[from].0, syms[i].0));
        lemma_symbol_index_from(syms, i, from + 1);
    }
}

/// An alias of a key that a module defines here, in a table without
/// duplicate keys, resolves to the signature stored with that definition.
pub proof fn lemma_alias_resolves_to_definition<T>(
    key: FunctionKey,
    module_id: TypedModuleId,
    mods: Seq<(TypedModuleId, TypedModule<T>)>,
    depth: nat,
    i: int,
    j: int,
)
    requires
        depth > 0,
        module_index(mods, module_id@, 0) == Some(i),
        keys_unique(mods[i].1.functions@),
        0 <= j < mods[i].1.functions@.len(),
        same_key(mods[i].1.functions@[j].0, key),
        mods[i].1.functions@[j].1 is Here,
    ensures
        resolve(TypedFunctionSymbol::There(key, module_id), mods, depth)
            == Ok::<SignatureView, ResolveError>(mods[i].1.functions@[j].1->Here_0.signature@),
{
    lemma_module_index_in_range(mods, module_id@, 0);
    let syms = mods[i].1.functions@;
    lemma_lookup_finds_entry(syms, j);
    lemma_symbol_index_same_key(syms, key, syms[j].0, 0);
    assert(lookup_symbol(syms, key) == Some(syms[j].1));
    assert(resolve(syms[j].1, mods, (depth - 1) as nat) == Ok::<SignatureView, ResolveError>(
        syms[j].1->Here_0.signature@,
    ));
}

/// A module index that is found is an index of the table.
proof fn lemma_module_index_in_range<T>(mods: Seq<(TypedModuleId, TypedModule<T>)>, id: Seq<char>, from: int)
    requires
        module_index(mods, id, from) is Some,
    ensures
        from <= module_index(mods, id, from)->Some_0 < mods.len(),
        0 <= module_index(mods, id, from)->Some_0,
    decreases mods.len() - from,
{
    if 0 <= from < mods.len() && mods[from].0@ != id {
        lemma_module_index_in_range(mods, id, from + 1);
    }
}

/// Lookups of two matching keys find the same entry.
proof fn lemma_symbol_index_same_key<T>(
    syms: Seq<(FunctionKey, TypedFunctionSymbol<T>)>,
    k1: FunctionKey,
    k2: FunctionKey,
    from: int,
)
    requires
        same_key(k1, k2),
    ensures
        symbol_index(syms, k1, from) == symbol_index(syms, k2, from),
    decreases syms.len() - from,
{
    if 0 <= from < syms.len() {
        lemma_symbol_index_same_key(syms, k1, k2, from + 1);
    }
}

impl<T> TypedFunction<T> {
    /// Whether the parameters have the input types and every statement of
    /// the body is well typed.
    pub fn is_well_typed(&self) -> (r: bool)
        ensures
            r == function_well_typed(*self),
    {
        if self.arguments.len() != self.signature.inputs.len() {
            return false;
        }
        let mut i: usize = 0;
        while i < self.arguments.len()
            invariant
                i <= self.arguments.len(),
                self.arguments.len() == self.signature.inputs.len(),
                forall|j: int| 0 <= j < i ==> #[trigger] self.arguments@[j].id.ty == self.signature.inputs@[j],
            decreases self.arguments.len() - i,
        {
            if self.arguments[i].id.ty != self.signature.inputs[i] {
                assert(!(#[trigger] self.arguments@[i as int].id.ty == self.signature.inputs@[i as int]));
                return false;
            }
            i = i + 1;
        }
        check_statements(&self.statements, &self.signature.outputs)
    }
}

impl<T> TypedModule<T> {
    /// Whether every function defined in the module is well typed.
    pub fn is_well_typed(&self) -> (r: bool)
        ensures
            r == module_well_typed(*self),
    {
        let mut i: usize = 0;
        while i < self.functions.len()
            invariant
                i <= self.functions.len(),
                forall|j: int| 0 <= j < i ==> match #[trigger] self.functions@[j].1 {
                    TypedFunctionSymbol::Here(f) => function_well_typed(f),
                    TypedFunctionSymbol::There(_, _) => true,
                },
            decreases self.functions.len() - i,
        {
            match &self.functions[i].1 {
                TypedFunctionSymbol::Here(f) => {
                    if !f.is_well_typed() {
                        return false;
                    }
                },
                TypedFunctionSymbol::There(_, _) => {},
            }
            i = i + 1;
        }
        true
    }

    /// Whether no two entries of the symbol table have matching keys.
    pub fn has_unique_keys(&self) -> (r: bool)
        ensures
            r == keys_unique(self.functions@),
    {
        let n = self.functions.len();
        let mut i: usize = 0;
        while i < n
            invariant
                n == self.functions@.len(),
                i <= n,
                forall|a: int, b: int|
                    0 <= a < i && a < b < n ==> !same_key(#[trigger] self.functions@[a].0, #[trigger] self.functions@[b].0),
            decreases n - i,
        {
            let mut j: usize = i + 1;
            while j < n
                invariant
                    n == self.functions@.len(),
                    i < n,
                    i + 1 <= j <= n,
                    forall|a: int, b: int|
                        0 <= a < i && a < b < n ==> !same_key(#[trigger] self.functions@[a].0, #[trigger] self.functions@[b].0),
                    forall|b: int| i < b < j ==> !same_key(self.functions@[i as int].0, #[trigger] self.functions@[b].0),
                decreases n - j,
            {
                if self.functions[i].0.matches(&self.functions[j].0) {
                    return false;
                }
                j = j + 1;
            }
            i = i + 1;
        }
        true
    }
}

impl<T> TypedProgram<T> {
    /// Whether the entry module and every module of the table are well typed.
    pub fn is_well_typed(&self) -> (r: bool)
        ensures
            r == program_well_typed(*self),
    {
        if !self.main.is_well_typed() {
            return false;
        }
        let mut i: usize = 0;
        while i < self.modules.len()
            invariant
                i <= self.modules.len(),
                module_well_typed(self.main),
                forall|j: int| 0 <= j < i ==> module_well_typed(#[trigger] self.modules@[j].1),
            decreases self.modules.len() - i,
        {
            if !self.modules[i].1.is_well_typed() {
                return false;
            }
            i = i + 1;
        }
        true
    }
}

/// In a program with unique module identifiers, looking up the identifier
/// of a module finds that module.
pub proof fn lemma_find_module_exact<T>(mods: Seq<(TypedModuleId, TypedModule<T>)>, i: int)
    requires
        module_ids_unique(mods),
        0 <= i < mods.len(),
    ensures
        module_index(mods, mods[i].0@, 0) == Some(i),
{
    lemma_module_index_from(mods, i, 0);
}

proof fn lemma_module_index_from<T>(mods: Seq<(TypedModuleId, TypedModule<T>)>, i: int, from: int)
    requires
        module_ids_unique(mods),
        0 <= from <= i < mods.len(),
    ensures
        module_index(mods, mods[i].0@, from) == Some(i),
    decreases i - from,
{
    if from < i {
        assert(mods[from].0@ != mods[i].0@);
        lemma_module_index_from(mods, i, from + 1);
    }
}

impl<T> TypedProgram<T> {
    /// Whether module identifiers are unique and no symbol table holds a key
    /// twice.
    pub fn is_valid(&self) -> (r: bool)
        ensures
            r == program_valid(*self),
    {
        if !self.main.has_unique_keys() {
            return false;
        }
        let n = self.modules.len();
        let mut i: usize = 0;
        while i < n
            invariant
                n == self.modules@.len(),
                i <= n,
                module_valid(self.main),
                forall|a: int| 0 <= a < i ==> module_valid(#[trigger] self.modules@[a].1),
                forall|a: int, b: int|
                    0 <= a < i && a < b < n ==> (#[trigger] self.modules@[a]).0@ != (#[trigger] self.modules@[b]).0@,
            decreases n - i,
        {
            if !self.modules[i].1.has_unique_keys() {
                return false;
            }
            let mut j: usize = i + 1;
            while j < n
                invariant
                    n == self.modules@.len(),
                    i < n,
                    i + 1 <= j <= n,
                    forall|a: int, b: int|
                        0 <= a < i && a < b < n ==> (#[trigger] self.modules@[a]).0@ != (#[trigger] self.modules@[b]).0@,
                    forall|b: int| i < b < j ==> self.modules@[i as int].0@ != (#[trigger] self.modules@[b]).0@,
                decreases n - j,
            {
                if self.modules[i].0 == self.modules[j].0 {
                    return false;
                }
                j = j + 1;
            }
            i = i + 1;
        }
        true
    }
}

} // verus!
