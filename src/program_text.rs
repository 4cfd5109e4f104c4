//! Rendering of functions, function symbols, modules and programs.

use vstd::prelude::*;
use crate::field::Field;
use crate::text::{push_repeated, repeated};
use crate::types::{parameter_text, render_types_into, signature_text, types_text, FunctionKey, Parameter};
use crate::statement::{statement_text, TypedStatement};
use crate::program::{
    FlatFunction, Import, TypedFunction, TypedFunctionSymbol, TypedModule, TypedModuleId,
    TypedProgram,
};

verus! {

/// Width of the rules that frame each module of a rendered program.
pub const RULE_WIDTH: usize = 100;

/// Lines joined with `sep` between each two.
pub open spec fn joined(lines: Seq<Seq<char>>, sep: Seq<char>) -> Seq<char>
    decreases lines.len(),
{
    if lines.len() == 0 {
        Seq::empty()
    } else if lines.len() == 1 {
        lines[0]
    } else {
        joined(lines.drop_last(), sep) + sep + lines.last()
    }
}

/// Rendering of a parameter list, separated by `", "`.
pub open spec fn parameters_text(ps: Seq<Parameter>) -> Seq<char>
    decreases ps.len(),
{
    if ps.len() == 0 {
        Seq::empty()
    } else if ps.len() == 1 {
        parameter_text(ps[0])
    } else {
        parameters_text(ps.drop_last()) + ", "@ + parameter_text(ps.last())
    }
}

/// Rendering of a function body: each statement after a tab, one per line.
pub open spec fn function_body_text<T: Field>(s: Seq<TypedStatement<T>>) -> Seq<char>
    decreases s.len(),
{
    if s.len() == 0 {
        Seq::empty()
    } else if s.len() == 1 {
        "\t"@ + statement_text(s[0])
    } else {
        function_body_text(s.drop_last()) + "\n"@ + "\t"@ + statement_text(s.last())
    }
}

/// Rendering of a function: `def f(params) -> (outputs):` and its body.
pub open spec fn function_text<T: Field>(f: TypedFunction<T>) -> Seq<char> {
    "def "@ + f.id@ + "("@ + parameters_text(f.arguments@) + ") -> ("@
        + types_text(f.signature.outputs@) + "):\n"@ + function_body_text(f.statements@)
}

/// Rendering of a function symbol: the function, or the alias it stands for.
pub open spec fn symbol_text<T: Field>(s: TypedFunctionSymbol<T>) -> Seq<char> {
    match s {
        TypedFunctionSymbol::Here(f) => function_text(f),
        TypedFunctionSymbol::There(k, m) => "import "@ + k.id@ + " from "@ + m@
            + " // with signature "@ + signature_text(k.signature@),
    }
}

/// Rendering of an import declaration.
pub open spec fn import_text(i: Import) -> Seq<char> {
    match i.alias {
        Some(a) => "import "@ + i.source@ + " as "@ + a@,
        None => "import "@ + i.source@,
    }
}

/// Rendering of a lowered primitive function.
pub open spec fn flat_function_text(f: FlatFunction) -> Seq<char> {
    "flat "@ + f.id@ + " "@ + signature_text(f.signature@)
}

/// The lines of a module: its imports, its lowered primitives, then its
/// function symbols in the order of its symbol table.
pub open spec fn module_lines<T: Field>(m: TypedModule<T>) -> Seq<Seq<char>> {
    m.imports@.map_values(|i: Import| import_text(i))
        + m.imported_functions@.map_values(|f: FlatFunction| flat_function_text(f))
        + m.functions@.map_values(|e: (FunctionKey, TypedFunctionSymbol<T>)| symbol_text(e.1))
}

/// Rendering of a module: its lines, separated by newlines.
pub open spec fn module_text<T: Field>(m: TypedModule<T>) -> Seq<char> {
    joined(module_lines(m), "\n"@)
}

/// A line of dashes.
pub open spec fn rule() -> Seq<char> {
    repeated("-"@, RULE_WIDTH as nat)
}

/// Rendering of one module of a program under its header, framed by rules.
pub open spec fn section_text<T: Field>(header: Seq<char>, m: TypedModule<T>) -> Seq<char> {
    header + "\n"@ + rule() + "\n"@ + module_text(m) + "\n"@ + rule() + "\n"@ + "\n"@
}

/// Rendering of the modules of a program, in order, each under its
/// identifier.
pub open spec fn sections_text<T: Field>(mods: Seq<(TypedModuleId, TypedModule<T>)>) -> Seq<char>
    decreases mods.len(),
{
    if mods.len() == 0 {
        Seq::empty()
    } else {
        sections_text(mods.drop_last()) + section_text("| "@ + mods.last().0@ + ": |"@, mods.last().1)
    }
}

/// Rendering of a program: the entry module, then every module of the table.
pub open spec fn program_text<T: Field>(p: TypedProgram<T>) -> Seq<char> {
    section_text("| main: |"@, p.main) + sections_text(p.modules@)
}

/// Appends the strings of `lines` to `out`, with `sep` between each two.
pub fn render_joined_into(lines: &Vec<String>, sep: &str, out: &mut String)
    ensures
        final(out)@ == old(out)@ + joined(lines@.map_values(|s: String| s@), sep@),
{
    let ghost views = lines@.map_values(|s: String| s@);
    let mut i: usize = 0;
    while i < lines.len()
        invariant
            i <= lines.len(),
            views == lines@.map_values(|s: String| s@),
            out@ == old(out)@ + joined(views.subrange(0, i as int), sep@),
        decreases lines.len() - i,
    {
        if i > 0 {
            out.append(sep);
        }
        out.append(lines[i].as_str());
        i = i + 1;
        assert(views.subrange(0, i as int).drop_last() =~= views.subrange(0, i - 1));
    }
    assert(views.subrange(0, i as int) =~= views);
}

/// Appends the rendering of a parameter list to `out`.
pub fn render_parameters_into(ps: &Vec<Parameter>, out: &mut String)
    ensures
        final(out)@ == old(out)@ + parameters_text(ps@),
{
    let mut i: usize = 0;
    while i < ps.len()
        invariant
            i <= ps.len(),
            out@ == old(out)@ + parameters_text(ps@.subrange(0, i as int)),
        decreases ps.len() - i,
    {
        if i > 0 {
            out.append(", ");
        }
        ps[i].render_into(out);
        i = i + 1;
        assert(ps@.subrange(0, i as int).drop_last() =~= ps@.subrange(0, i - 1));
    }
    assert(ps@.subrange(0, i as int) =~= ps@);
}

/// Appends the rendering of a function body to `out`.
pub fn render_function_body_into<T: Field>(s: &Vec<TypedStatement<T>>, out: &mut String)
    ensures
        final(out)@ == old(out)@ + function_body_text(s@),
{
    let mut i: usize = 0;
    while i < s.len()
        invariant
            i <= s.len(),
            out@ == old(out)@ + function_body_text(s@.subrange(0, i as int)),
        decreases s.len() - i,
    {
        if i > 0 {
            out.append("\n");
        }
        out.append("\t");
        s[i].render_into(out);
        i = i + 1;
        assert(s@.subrange(0, i as int).drop_last() =~= s@.subrange(0, i - 1));
    }
    assert(s@.subrange(0, i as int) =~= s@);
}

impl<T: Field> TypedFunction<T> {
    /// Appends the rendering of the function to `out`.
    pub fn render_into(&self, out: &mut String)
        ensures
            final(out)@ == old(out)@ + function_text(*self),
    {
        out.append("def ");
        out.append(self.id.as_str());
        out.append("(");
        render_parameters_into(&self.arguments, out);
        out.append(") -> (");
        render_types_into(&self.signature.outputs, out);
        out.append("):\n");
        render_function_body_into(&self.statements, out);
    }

    /// The rendering of the function.
    pub fn render(&self) -> (r: String)
        ensures
            r@ == function_text(*self),
    {
        let mut out = String::new();
        self.render_into(&mut out);
        out
    }
}

impl<T: Field> TypedFunctionSymbol<T> {
    /// Appends the rendering of the symbol to `out`.
    pub fn render_into(&self, out: &mut String)
        ensures
            final(out)@ == old(out)@ + symbol_text(*self),
    {
        match self {
            TypedFunctionSymbol::Here(f) => f.render_into(out),
            TypedFunctionSymbol::There(k, m) => {
                out.append("import ");
                out.append(k.id.as_str());
                out.append(" from ");
                out.append(m.as_str());
                out.append(" // with signature ");
                k.signature.render_into(out);
            },
        }
    }

    /// The rendering of the symbol.
    pub fn render(&self) -> (r: String)
        ensures
            r@ == symbol_text(*self),
    {
        let mut out = String::new();
        self.render_into(&mut out);
        out
    }
}

impl Import {
    /// The rendering of the import.
    pub fn render(&self) -> (r: String)
        ensures
            r@ == import_text(*self),
    {
        let mut out = String::new();
        out.append("import ");
        out.append(self.source.as_str());
        match &self.alias {
            Some(a) => {
                out.append(" as ");
                out.append(a.as_str());
            },
            None => {},
        }
        out
    }
}

impl FlatFunction {
    /// The rendering of the lowered function.
    pub fn render(&self) -> (r: String)
        ensures
            r@ == flat_function_text(*self),
    {
        let mut out = String::new();
        out.append("flat ");
        out.append(self.id.as_str());
        out.append(" ");
        self.signature.render_into(&mut out);
        out
    }
}

impl<T: Field> TypedModule<T> {
    /// The lines of the module's rendering.
    pub fn render_lines(&self) -> (r: Vec<String>)
        ensures
            r@.map_values(|s: String| s@) == module_lines(*self),
    {
        let ghost expected = module_lines(*self);
        let ghost ni = self.imports@.len();
        let ghost nf = self.imported_functions@.len();
        let mut lines: Vec<String> = Vec::new();
        let mut i: usize = 0;
        while i < self.imports.len()
            invariant
                i <= self.imports.len(),
                expected == module_lines(*self),
                ni == self.imports@.len(),
                lines@.len() == i,
                forall|j: int| 0 <= j < lines@.len() ==> #[trigger] lines@[j]@ == expected[j],
            decreases self.imports.len() - i,
        {
            lines.push(self.imports[i].render());
            i = i + 1;
        }
        let mut i: usize = 0;
        while i < self.imported_functions.len()
            invariant
                i <= self.imported_functions.len(),
                expected == module_lines(*self),
                ni == self.imports@.len(),
                nf == self.imported_functions@.len(),
                lines@.len() == ni + i,
                forall|j: int| 0 <= j < lines@.len() ==> #[trigger] lines@[j]@ == expected[j],
            decreases self.imported_functions.len() - i,
        {
            lines.push(self.imported_functions[i].render());
            i = i + 1;
        }
        let mut i: usize = 0;
        while i < self.functions.len()
            invariant
                i <= self.functions.len(),
                expected == module_lines(*self),
                ni == self.imports@.len(),
                nf == self.imported_functions@.len(),
                lines@.len() == ni + nf + i,
                forall|j: int| 0 <= j < lines@.len() ==> #[trigger] lines@[j]@ == expected[j],
            decreases self.functions.len() - i,
        {
            lines.push(self.functions[i].1.render());
            i = i + 1;
        }
        assert(lines@.map_values(|s: String| s@) =~= expected);
        lines
    }

    /// Appends the rendering of the module to `out`.
    pub fn render_into(&self, out: &mut String)
        ensures
            final(out)@ == old(out)@ + module_text(*self),
    {
        let lines = self.render_lines();
        render_joined_into(&lines, "\n", out);
    }

    /// The rendering of the module.
    pub fn render(&self) -> (r: String)
        ensures
            r@ == module_text(*self),
    {
        let mut out = String::new();
        self.render_into(&mut out);
        out
    }
}

/// Appends a module of a program to `out`, under its header, framed by
/// rules.
fn render_section_into<T: Field>(m: &TypedModule<T>, out: &mut String)
    ensures
        final(out)@ == old(out)@ + "\n"@ + rule() + "\n"@ + module_text(*m) + "\n"@ + rule() + "\n"@ + "\n"@,
{
    out.append("\n");
    push_repeated(out, "-", RULE_WIDTH);
    out.append("\n");
    m.render_into(out);
    out.append("\n");
    push_repeated(out, "-", RULE_WIDTH);
    out.append("\n");
    out.append("\n");
}

/// Appends a module of a program to `out`, under a header that names it.
fn render_named_section_into<T: Field>(id: &String, m: &TypedModule<T>, out: &mut String)
    ensures
        final(out)@ == old(out)@ + section_text("| "@ + id@ + ": |"@, *m),
{
    let ghost start = out@;
    out.append("| ");
    out.append(id.as_str());
    out.append(": |");
    render_section_into(m, out);
    assert(out@ =~= start + section_text("| "@ + id@ + ": |"@, *m));
}

impl<T: Field> TypedProgram<T> {
    /// Appends the rendering of the program to `out`.
    pub fn render_into(&self, out: &mut String)
        ensures
            final(out)@ == old(out)@ + program_text(*self),
    {
        let ghost start = out@;
        out.append("| main: |");
        render_section_into(&self.main, out);
        assert(out@ =~= start + section_text("| main: |"@, self.main));
        let ghost after_main = out@;
        let mut i: usize = 0;
        while i < self.modules.len()
            invariant
                i <= self.modules.len(),
                out@ == after_main + sections_text(self.modules@.subrange(0, i as int)),
            decreases self.modules.len() - i,
        {
            render_named_section_into(&self.modules[i].0, &self.modules[i].1, out);
            i = i + 1;
            assert(self.modules@.subrange(0, i as int).drop_last() =~= self.modules@.subrange(0, i - 1));
        }
        assert(self.modules@.subrange(0, i as int) =~= self.modules@);
        assert(out@ =~= start + program_text(*self));
    }

    /// The rendering of the program.
    pub fn render(&self) -> (r: String)
        ensures
            r@ == program_text(*self),
    {
        let mut out = String::new();
        self.render_into(&mut out);
        out
    }
}

/// Rendering is a function of the program alone: two renderings of one
/// program are the same text.
pub proof fn lemma_rendering_stable<T: Field>(p: TypedProgram<T>, first: String, second: String)
    requires
        first@ == program_text(p),
        second@ == program_text(p),
    ensures
        first@ == second@,
{
}

} // verus!
