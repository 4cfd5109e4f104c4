use typed_absy::expr::{
    BooleanExpression, FieldElementArrayExpression, FieldElementExpression, Typed,
    TypedExpression, TypedExpressionList,
};
use typed_absy::field::FieldPrime;
use typed_absy::folder::{
    fold_array_expression, fold_field_expression, fold_function, fold_program, fold_statement,
    Folder, Renamer,
};
use typed_absy::program::{ResolveError, TypedFunction, TypedFunctionSymbol, TypedModule, TypedProgram};
use typed_absy::statement::{TypedAssignee, TypedStatement};
use typed_absy::types::{FunctionKey, Parameter, Signature, Type, Variable};

fn ident(s: &str) -> FieldElementExpression<FieldPrime> {
    FieldElementExpression::Identifier(s.to_string())
}

fn num(v: u128) -> FieldElementExpression<FieldPrime> {
    FieldElementExpression::Number(FieldPrime::from_u128(v))
}

fn add(l: FieldElementExpression<FieldPrime>, r: FieldElementExpression<FieldPrime>) -> FieldElementExpression<FieldPrime> {
    FieldElementExpression::Add(Box::new(l), Box::new(r))
}

struct KeepAll;

impl Folder<FieldPrime> for KeepAll {
    fn enter_field_expression(&mut self, _e: &FieldElementExpression<FieldPrime>) -> Option<FieldElementExpression<FieldPrime>> {
        None
    }

    fn enter_boolean_expression(&mut self, _e: &BooleanExpression<FieldPrime>) -> Option<BooleanExpression<FieldPrime>> {
        None
    }

    fn enter_array_expression(&mut self, _e: &FieldElementArrayExpression<FieldPrime>) -> Option<FieldElementArrayExpression<FieldPrime>> {
        None
    }

    fn enter_statement(&mut self, _s: &TypedStatement<FieldPrime>) -> Option<TypedStatement<FieldPrime>> {
        None
    }

    fn rewrite_module(&mut self, m: TypedModule<FieldPrime>) -> TypedModule<FieldPrime> {
        m
    }

    fn rewrite_program(&mut self, p: TypedProgram<FieldPrime>) -> TypedProgram<FieldPrime> {
        p
    }

    fn rewrite_field_expression(&mut self, e: FieldElementExpression<FieldPrime>) -> FieldElementExpression<FieldPrime> {
        e
    }

    fn rewrite_boolean_expression(&mut self, e: BooleanExpression<FieldPrime>) -> BooleanExpression<FieldPrime> {
        e
    }

    fn rewrite_array_expression(&mut self, e: FieldElementArrayExpression<FieldPrime>) -> FieldElementArrayExpression<FieldPrime> {
        e
    }

    fn rewrite_variable(&mut self, v: Variable) -> Variable {
        v
    }

    fn rewrite_assignee(&mut self, a: TypedAssignee<FieldPrime>) -> TypedAssignee<FieldPrime> {
        a
    }

    fn rewrite_expression_list(&mut self, e: TypedExpressionList<FieldPrime>) -> TypedExpressionList<FieldPrime> {
        e
    }

    fn rewrite_statement(&mut self, s: TypedStatement<FieldPrime>) -> TypedStatement<FieldPrime> {
        s
    }

    fn rewrite_function(&mut self, f: TypedFunction<FieldPrime>) -> TypedFunction<FieldPrime> {
        f
    }
}

struct Recorder {
    seen: Vec<String>,
}

impl Folder<FieldPrime> for Recorder {
    fn enter_field_expression(&mut self, e: &FieldElementExpression<FieldPrime>) -> Option<FieldElementExpression<FieldPrime>> {
        if let FieldElementExpression::Select(..) = e {
            self.seen.push("select".to_string());
            return Some(FieldElementExpression::Number(FieldPrime::from_u128(0)));
        }
        None
    }

    fn enter_boolean_expression(&mut self, _e: &BooleanExpression<FieldPrime>) -> Option<BooleanExpression<FieldPrime>> {
        None
    }

    fn enter_array_expression(&mut self, _e: &FieldElementArrayExpression<FieldPrime>) -> Option<FieldElementArrayExpression<FieldPrime>> {
        None
    }

    fn enter_statement(&mut self, _s: &TypedStatement<FieldPrime>) -> Option<TypedStatement<FieldPrime>> {
        None
    }

    fn rewrite_module(&mut self, m: TypedModule<FieldPrime>) -> TypedModule<FieldPrime> {
        m
    }

    fn rewrite_program(&mut self, p: TypedProgram<FieldPrime>) -> TypedProgram<FieldPrime> {
        p
    }

    fn rewrite_boolean_expression(&mut self, e: BooleanExpression<FieldPrime>) -> BooleanExpression<FieldPrime> {
        e
    }

    fn rewrite_array_expression(&mut self, e: FieldElementArrayExpression<FieldPrime>) -> FieldElementArrayExpression<FieldPrime> {
        e
    }

    fn rewrite_variable(&mut self, v: Variable) -> Variable {
        v
    }

    fn rewrite_assignee(&mut self, a: TypedAssignee<FieldPrime>) -> TypedAssignee<FieldPrime> {
        a
    }

    fn rewrite_expression_list(&mut self, e: TypedExpressionList<FieldPrime>) -> TypedExpressionList<FieldPrime> {
        e
    }

    fn rewrite_statement(&mut self, s: TypedStatement<FieldPrime>) -> TypedStatement<FieldPrime> {
        s
    }

    fn rewrite_function(&mut self, f: TypedFunction<FieldPrime>) -> TypedFunction<FieldPrime> {
        f
    }

    fn rewrite_field_expression(&mut self, e: FieldElementExpression<FieldPrime>) -> FieldElementExpression<FieldPrime> {
        if let FieldElementExpression::Identifier(id) = &e {
            self.seen.push(id.clone());
        }
        e
    }
}

struct AddConstants;

impl Folder<FieldPrime> for AddConstants {
    fn enter_field_expression(&mut self, _e: &FieldElementExpression<FieldPrime>) -> Option<FieldElementExpression<FieldPrime>> {
        None
    }

    fn enter_boolean_expression(&mut self, _e: &BooleanExpression<FieldPrime>) -> Option<BooleanExpression<FieldPrime>> {
        None
    }

    fn enter_array_expression(&mut self, _e: &FieldElementArrayExpression<FieldPrime>) -> Option<FieldElementArrayExpression<FieldPrime>> {
        None
    }

    fn enter_statement(&mut self, _s: &TypedStatement<FieldPrime>) -> Option<TypedStatement<FieldPrime>> {
        None
    }

    fn rewrite_module(&mut self, m: TypedModule<FieldPrime>) -> TypedModule<FieldPrime> {
        m
    }

    fn rewrite_program(&mut self, p: TypedProgram<FieldPrime>) -> TypedProgram<FieldPrime> {
        p
    }

    fn rewrite_boolean_expression(&mut self, e: BooleanExpression<FieldPrime>) -> BooleanExpression<FieldPrime> {
        e
    }

    fn rewrite_array_expression(&mut self, e: FieldElementArrayExpression<FieldPrime>) -> FieldElementArrayExpression<FieldPrime> {
        e
    }

    fn rewrite_variable(&mut self, v: Variable) -> Variable {
        v
    }

    fn rewrite_assignee(&mut self, a: TypedAssignee<FieldPrime>) -> TypedAssignee<FieldPrime> {
        a
    }

    fn rewrite_expression_list(&mut self, e: TypedExpressionList<FieldPrime>) -> TypedExpressionList<FieldPrime> {
        e
    }

    fn rewrite_statement(&mut self, s: TypedStatement<FieldPrime>) -> TypedStatement<FieldPrime> {
        s
    }

    fn rewrite_function(&mut self, f: TypedFunction<FieldPrime>) -> TypedFunction<FieldPrime> {
        f
    }

    fn rewrite_field_expression(&mut self, e: FieldElementExpression<FieldPrime>) -> FieldElementExpression<FieldPrime> {
        match e {
            FieldElementExpression::Add(l, r) => match (*l, *r) {
                (FieldElementExpression::Number(a), FieldElementExpression::Number(b)) => {
                    FieldElementExpression::Number(FieldPrime::from_u128(a.value + b.value))
                }
                (l, r) => FieldElementExpression::Add(Box::new(l), Box::new(r)),
            },
            other => other,
        }
    }
}

fn sample_function() -> TypedFunction<FieldPrime> {
    let y = Variable::field_element("y".to_string());
    TypedFunction {
        id: "main".to_string(),
        arguments: vec![Parameter::public(Variable::field_element("x".to_string()))],
        statements: vec![
            TypedStatement::Declaration(y.clone()),
            TypedStatement::Definition(
                TypedAssignee::Identifier(y),
                TypedExpression::FieldElement(add(ident("x"), add(num(1), num(2)))),
            ),
            TypedStatement::For(
                Variable::field_element("i".to_string()),
                FieldPrime::from_u128(0),
                FieldPrime::from_u128(2),
                vec![TypedStatement::Condition(
                    TypedExpression::FieldElement(ident("x")),
                    TypedExpression::FieldElement(ident("i")),
                )],
            ),
            TypedStatement::Return(vec![TypedExpression::FieldElement(ident("y"))]),
        ],
        signature: Signature::new(vec![Type::FieldElement], vec![Type::FieldElement]),
    }
}

#[test]
fn default_fold_keeps_everything() {
    let f = sample_function();
    let before = f.render();
    let folded = fold_function(&mut KeepAll, f);
    assert_eq!(folded.render(), before);
}

#[test]
fn fold_visits_left_to_right() {
    let e = FieldElementExpression::Mult(
        Box::new(add(ident("a"), ident("b"))),
        Box::new(FieldElementExpression::IfElse(
            Box::new(BooleanExpression::Lt(Box::new(ident("c")), Box::new(ident("d")))),
            Box::new(ident("e")),
            Box::new(ident("f")),
        )),
    );
    let mut recorder = Recorder { seen: vec![] };
    let _ = fold_field_expression(&mut recorder, e);
    assert_eq!(recorder.seen, vec!["a", "b", "c", "d", "e", "f"]);
}

#[test]
fn fold_rewrites_bottom_up() {
    let folded = fold_function(&mut AddConstants, sample_function());
    assert_eq!(
        folded.render(),
        "def main(x) -> (FieldElement):\n\ty\n\ty = (x + 3)\n\tfor i in 0..2 do\n\t\tx == i\n\tendfor\n\treturn y"
    );
    let nested = add(add(num(1), num(2)), num(4));
    assert_eq!(fold_field_expression(&mut AddConstants, nested).render(), "7");
}

#[test]
fn renamer_renames_every_occurrence() {
    let mut pass = Renamer::new("x".to_string(), "z".to_string());
    let folded = fold_function(&mut pass, sample_function());
    assert_eq!(
        folded.render(),
        "def main(z) -> (FieldElement):\n\ty\n\ty = (z + (1 + 2))\n\tfor i in 0..2 do\n\t\tz == i\n\tendfor\n\treturn y"
    );
    let s = TypedStatement::Definition(
        TypedAssignee::<FieldPrime>::ArrayElement(
            Box::new(TypedAssignee::Identifier(Variable::field_array("x".to_string(), 3))),
            Box::new(ident("x")),
        ),
        TypedExpression::FieldElement(num(1)),
    );
    assert!(s.is_well_typed(&vec![]));
    let renamed = fold_statement(&mut pass, s);
    assert!(renamed.is_well_typed(&vec![]));
    assert_eq!(renamed.render(), "z[z] = 1");
}

#[test]
fn renamer_keeps_array_length() {
    let e = FieldElementArrayExpression::<FieldPrime>::IfElse(
        Box::new(BooleanExpression::Identifier("x".to_string())),
        Box::new(FieldElementArrayExpression::Identifier(3, "x".to_string())),
        Box::new(FieldElementArrayExpression::Value(3, vec![ident("x"), num(1), num(2)])),
    );
    let mut pass = Renamer::new("x".to_string(), "w".to_string());
    let renamed = fold_array_expression(&mut pass, e);
    assert_eq!(renamed.get_type(), Type::FieldElementArray(3));
    assert_eq!(renamed.render(), "if w then w else [w, 1, 2] fi");
}

#[test]
fn fold_keeps_destructuring_types() {
    let key = FunctionKey::with_id_and_signature(
        "pair".to_string(),
        Signature::new(vec![Type::FieldElement], vec![Type::FieldElement, Type::Boolean]),
    );
    let s = TypedStatement::MultipleDefinition(
        vec![Variable::field_element("x".to_string()), Variable::boolean("b".to_string())],
        TypedExpressionList::<FieldPrime>::FunctionCall(
            key,
            vec![TypedExpression::FieldElement(ident("x"))],
            vec![Type::FieldElement, Type::Boolean],
        ),
    );
    assert!(s.is_well_typed(&vec![]));
    let renamed = fold_statement(&mut Renamer::new("x".to_string(), "v".to_string()), s);
    assert!(renamed.is_well_typed(&vec![]));
    assert_eq!(renamed.render(), "v, b = pair(v)");
}

#[test]
fn fold_program_keeps_aliases() {
    let key = FunctionKey::with_id_and_signature(
        "main".to_string(),
        Signature::new(vec![Type::FieldElement], vec![Type::FieldElement]),
    );
    let lib = TypedModule {
        functions: vec![(key.clone(), TypedFunctionSymbol::Here(sample_function()))],
        imports: vec![],
        imported_functions: vec![],
    };
    let main = TypedModule {
        functions: vec![(key.clone(), TypedFunctionSymbol::There(key.clone(), "lib".to_string()))],
        imports: vec![],
        imported_functions: vec![],
    };
    let program = TypedProgram { modules: vec![("lib".to_string(), lib)], main };
    let before = program.render();
    let kept = fold_program(&mut KeepAll, program);
    assert_eq!(kept.render(), before);
    let folded = fold_program(&mut AddConstants, kept);
    assert!(folded.render().contains("y = (x + 3)"));
    assert_eq!(
        folded.signature_of(&folded.main, &key).unwrap(),
        Signature::new(vec![Type::FieldElement], vec![Type::FieldElement])
    );
}

#[test]
fn main_is_resolved_only_through_the_table() {
    let key = FunctionKey::with_id_and_signature(
        "main".to_string(),
        Signature::new(vec![Type::FieldElement], vec![Type::FieldElement]),
    );
    let main = TypedModule {
        functions: vec![(key.clone(), TypedFunctionSymbol::Here(sample_function()))],
        imports: vec![],
        imported_functions: vec![],
    };
    let alias = TypedFunctionSymbol::<FieldPrime>::There(key.clone(), "main".to_string());
    let program = TypedProgram { modules: vec![], main };
    assert_eq!(alias.signature(&program.modules), Err(ResolveError::ModuleNotFound));
    assert!(program.signature_of(&program.main, &key).is_ok());
}

#[test]
fn enter_replaces_subtree() {
    let e = add(
        ident("a"),
        FieldElementExpression::Select(
            Box::new(FieldElementArrayExpression::Identifier(2, "arr".to_string())),
            Box::new(ident("i")),
        ),
    );
    let mut recorder = Recorder { seen: vec![] };
    let folded = fold_field_expression(&mut recorder, e);
    assert_eq!(folded.render(), "(a + 0)");
    assert_eq!(recorder.seen, vec!["a", "select"]);
}

#[test]
fn default_fold_is_identity() {
    assert_eq!(fold_function(&mut KeepAll, sample_function()), sample_function());
}
