use typed_absy::expr::{
    BooleanExpression, FieldElementArrayExpression, FieldElementExpression, MultiTyped,
    Typed, TypedExpression, TypedExpressionList,
};
use typed_absy::field::FieldPrime;
use typed_absy::program::{
    FlatFunction, Import, ResolveError, TypedFunction, TypedFunctionSymbol, TypedModule,
    TypedProgram,
};
use typed_absy::statement::{TypedAssignee, TypedStatement};
use typed_absy::types::{FunctionKey, Parameter, Signature, Type, Variable};

fn fe_sig(n_in: usize, n_out: usize) -> Signature {
    Signature::new(vec![Type::FieldElement; n_in], vec![Type::FieldElement; n_out])
}

fn ident(s: &str) -> FieldElementExpression<FieldPrime> {
    FieldElementExpression::Identifier(s.to_string())
}

fn num(v: u128) -> FieldElementExpression<FieldPrime> {
    FieldElementExpression::Number(FieldPrime::from_u128(v))
}

fn identity_function(name: &str) -> TypedFunction<FieldPrime> {
    TypedFunction {
        id: name.to_string(),
        arguments: vec![Parameter::public(Variable::field_element("x".to_string()))],
        statements: vec![TypedStatement::Return(vec![TypedExpression::FieldElement(ident("x"))])],
        signature: fe_sig(1, 1),
    }
}

fn empty_module() -> TypedModule<FieldPrime> {
    TypedModule { functions: vec![], imports: vec![], imported_functions: vec![] }
}

#[test]
fn render_single_function() {
    let f = identity_function("f");
    assert_eq!(f.render(), "def f(x) -> (FieldElement):\n\treturn x");
    let mut hidden = identity_function("f");
    hidden.arguments = vec![Parameter::private(Variable::field_element("x".to_string()))];
    assert_eq!(hidden.render(), "def f(x) -> (FieldElement):\n\treturn x");
}

#[test]
fn resolve_alias_across_modules() {
    let key_g = FunctionKey::with_id_and_signature("g".to_string(), fe_sig(1, 1));
    let lib = TypedModule {
        functions: vec![(key_g.clone(), TypedFunctionSymbol::Here(identity_function("g")))],
        imports: vec![],
        imported_functions: vec![],
    };
    let main = TypedModule {
        functions: vec![(
            key_g.clone(),
            TypedFunctionSymbol::There(key_g.clone(), "lib".to_string()),
        )],
        imports: vec![Import { source: "lib".to_string(), alias: None }],
        imported_functions: vec![],
    };
    let program = TypedProgram { modules: vec![("lib".to_string(), lib)], main };
    let resolved = program.signature_of(&program.main, &key_g).unwrap();
    let local = match &program.modules[0].1.functions[0].1 {
        TypedFunctionSymbol::Here(f) => f.signature.clone(),
        TypedFunctionSymbol::There(..) => panic!("lib defines g locally"),
    };
    assert_eq!(resolved, local);
    let again = program.signature_of(&program.main, &key_g).unwrap();
    assert_eq!(resolved, again);
}

#[test]
fn resolve_chain_of_aliases() {
    let key = FunctionKey::with_id_and_signature("h".to_string(), fe_sig(2, 1));
    let mut modules = vec![(
        "m0".to_string(),
        TypedModule {
            functions: vec![(key.clone(), TypedFunctionSymbol::Here(TypedFunction {
                id: "h".to_string(),
                arguments: vec![],
                statements: vec![],
                signature: fe_sig(2, 1),
            }))],
            imports: vec![],
            imported_functions: vec![],
        },
    )];
    for i in 1..5 {
        modules.push((
            format!("m{}", i),
            TypedModule {
                functions: vec![(
                    key.clone(),
                    TypedFunctionSymbol::There(key.clone(), format!("m{}", i - 1)),
                )],
                imports: vec![],
                imported_functions: vec![],
            },
        ));
    }
    let start = TypedFunctionSymbol::<FieldPrime>::There(key.clone(), "m4".to_string());
    assert_eq!(start.signature(&modules), Ok(fe_sig(2, 1)));
    assert_eq!(start.signature_within(&modules, 5), Ok(fe_sig(2, 1)));
    assert_eq!(start.signature_within(&modules, 4), Err(ResolveError::TooDeep));
}

#[test]
fn resolve_missing_module_and_symbol() {
    let key = FunctionKey::with_id_and_signature("g".to_string(), fe_sig(1, 1));
    let other = FunctionKey::with_id_and_signature("g".to_string(), fe_sig(2, 1));
    let modules = vec![(
        "lib".to_string(),
        TypedModule {
            functions: vec![(key.clone(), TypedFunctionSymbol::Here(identity_function("g")))],
            imports: vec![],
            imported_functions: vec![],
        },
    )];
    let to_missing_module = TypedFunctionSymbol::<FieldPrime>::There(key.clone(), "nope".to_string());
    assert_eq!(to_missing_module.signature(&modules), Err(ResolveError::ModuleNotFound));
    let to_missing_symbol = TypedFunctionSymbol::<FieldPrime>::There(other, "lib".to_string());
    assert_eq!(to_missing_symbol.signature(&modules), Err(ResolveError::SymbolNotFound));
    let program = TypedProgram { modules, main: empty_module() };
    assert_eq!(program.signature_of(&program.main, &key), Err(ResolveError::SymbolNotFound));
}

#[test]
fn resolve_cycle_is_reported() {
    let key = FunctionKey::with_id_and_signature("c".to_string(), fe_sig(0, 1));
    let modules: Vec<(String, TypedModule<FieldPrime>)> = vec![(
        "loop".to_string(),
        TypedModule {
            functions: vec![(key.clone(), TypedFunctionSymbol::There(key.clone(), "loop".to_string()))],
            imports: vec![],
            imported_functions: vec![],
        },
    )];
    assert_eq!(modules[0].1.functions[0].1.signature(&modules), Err(ResolveError::TooDeep));
}

#[test]
fn for_loop_keeps_constant_bounds() {
    let y = Variable::field_element("y".to_string());
    let body = vec![TypedStatement::Definition(
        TypedAssignee::Identifier(y.clone()),
        TypedExpression::FieldElement(FieldElementExpression::Add(
            Box::new(ident("y")),
            Box::new(ident("x")),
        )),
    )];
    let s = TypedStatement::For(
        Variable::field_element("i".to_string()),
        FieldPrime::from_u128(0),
        FieldPrime::from_u128(3),
        body,
    );
    match &s {
        TypedStatement::For(_, start, stop, body) => {
            assert_eq!(start.value, 0);
            assert_eq!(stop.value, 3);
            assert_eq!(body.len(), 1);
        }
        _ => panic!("a loop stays a loop"),
    }
    assert!(s.is_well_typed(&vec![]));
    assert_eq!(s.render(), "for i in 0..3 do\n\t\ty = (y + x)\n\tendfor");
}

#[test]
fn array_if_else_takes_consequent_size() {
    let e = FieldElementArrayExpression::<FieldPrime>::IfElse(
        Box::new(BooleanExpression::Value(true)),
        Box::new(FieldElementArrayExpression::Identifier(3, "a".to_string())),
        Box::new(FieldElementArrayExpression::Identifier(5, "b".to_string())),
    );
    assert_eq!(e.get_type(), Type::FieldElementArray(3));
    assert_eq!(e.size(), 3);
    assert_eq!(TypedExpression::FieldElementArray(e).get_type(), Type::FieldElementArray(3));
}

#[test]
fn element_of_non_array_has_no_type() {
    let a = TypedAssignee::<FieldPrime>::ArrayElement(
        Box::new(TypedAssignee::Identifier(Variable::field_element("x".to_string()))),
        Box::new(num(0)),
    );
    assert_eq!(a.try_get_type(), None);
    let s = TypedStatement::Definition(a, TypedExpression::FieldElement(num(1)));
    assert!(!s.is_well_typed(&vec![]));
}

#[test]
fn element_of_array_is_field_element() {
    let a = TypedAssignee::<FieldPrime>::ArrayElement(
        Box::new(TypedAssignee::Identifier(Variable::field_array("a".to_string(), 4))),
        Box::new(num(2)),
    );
    assert_eq!(a.try_get_type(), Some(Type::FieldElement));
    assert_eq!(a.get_type(), Type::FieldElement);
    assert_eq!(a.render(), "a[2]");
}

#[test]
fn array_type_matches_size() {
    let values = FieldElementArrayExpression::<FieldPrime>::Value(2, vec![num(1), num(2)]);
    assert_eq!(values.get_type(), Type::FieldElementArray(values.size()));
    assert_eq!(values.size(), values.size());
    let call = FieldElementArrayExpression::<FieldPrime>::FunctionCall(
        7,
        FunctionKey::with_id_and_signature("mk".to_string(), fe_sig(0, 1)),
        vec![],
    );
    assert_eq!(call.get_type(), Type::FieldElementArray(7));
    let empty = FieldElementArrayExpression::<FieldPrime>::Value(0, vec![]);
    assert_eq!(empty.get_type(), Type::FieldElementArray(0));
    assert_eq!(empty.render(), "[]");
}

#[test]
fn expression_types_of_each_kind() {
    let b: TypedExpression<FieldPrime> = BooleanExpression::Value(false).into();
    let f: TypedExpression<FieldPrime> = num(5).into();
    let a: TypedExpression<FieldPrime> =
        FieldElementArrayExpression::Identifier(2, "arr".to_string()).into();
    assert_eq!(b.get_type(), Type::Boolean);
    assert_eq!(f.get_type(), Type::FieldElement);
    assert_eq!(a.get_type(), Type::FieldElementArray(2));
    assert_eq!(ident("x").get_type(), Type::FieldElement);
    assert_eq!(BooleanExpression::<FieldPrime>::Identifier("c".to_string()).get_type(), Type::Boolean);
}

#[test]
fn definition_agrees_with_declared_type() {
    let good = TypedStatement::Definition(
        TypedAssignee::<FieldPrime>::Identifier(Variable::boolean("c".to_string())),
        TypedExpression::Boolean(BooleanExpression::Value(true)),
    );
    assert!(good.is_well_typed(&vec![]));
    let bad = TypedStatement::Definition(
        TypedAssignee::<FieldPrime>::Identifier(Variable::boolean("c".to_string())),
        TypedExpression::FieldElement(num(1)),
    );
    assert!(!bad.is_well_typed(&vec![]));
    let cond = TypedStatement::Condition(
        TypedExpression::<FieldPrime>::FieldElement(num(1)),
        TypedExpression::FieldElementArray(FieldElementArrayExpression::Identifier(1, "a".to_string())),
    );
    assert!(!cond.is_well_typed(&vec![]));
}

#[test]
fn destructuring_arity() {
    let key = FunctionKey::with_id_and_signature("two".to_string(), fe_sig(1, 2));
    let call = TypedExpressionList::<FieldPrime>::FunctionCall(
        key.clone(),
        vec![TypedExpression::FieldElement(num(1))],
        vec![Type::FieldElement, Type::FieldElement],
    );
    assert_eq!(call.get_types().len(), 2);
    let ok = TypedStatement::MultipleDefinition(
        vec![Variable::field_element("a".to_string()), Variable::field_element("b".to_string())],
        call,
    );
    assert!(ok.is_well_typed(&vec![]));
    assert_eq!(ok.render(), "a, b = two(1)");
    let short = TypedStatement::MultipleDefinition(
        vec![Variable::field_element("a".to_string())],
        TypedExpressionList::<FieldPrime>::FunctionCall(
            key.clone(),
            vec![TypedExpression::FieldElement(num(1))],
            vec![Type::FieldElement, Type::FieldElement],
        ),
    );
    assert!(!short.is_well_typed(&vec![]));
    let wrong_type = TypedStatement::MultipleDefinition(
        vec![Variable::field_element("a".to_string()), Variable::boolean("b".to_string())],
        TypedExpressionList::<FieldPrime>::FunctionCall(
            key,
            vec![],
            vec![Type::FieldElement, Type::FieldElement],
        ),
    );
    assert!(!wrong_type.is_well_typed(&vec![]));
}

#[test]
fn render_field_expressions() {
    let e = FieldElementExpression::Sub(
        Box::new(FieldElementExpression::Mult(Box::new(num(2)), Box::new(ident("x")))),
        Box::new(FieldElementExpression::Div(Box::new(ident("y")), Box::new(num(10)))),
    );
    assert_eq!(e.render(), "((2 * x) - (y / 10))");
    let p = FieldElementExpression::Pow(Box::new(ident("x")), Box::new(num(3)));
    assert_eq!(p.render(), "(x**3)");
    let c = FieldElementExpression::IfElse(
        Box::new(BooleanExpression::Lt(Box::new(ident("a")), Box::new(num(1)))),
        Box::new(ident("a")),
        Box::new(num(0)),
    );
    assert_eq!(c.render(), "if a < 1 then a else 0 fi");
    let call = FieldElementExpression::FunctionCall(
        FunctionKey::with_id_and_signature("g".to_string(), fe_sig(2, 1)),
        vec![TypedExpression::FieldElement(num(1)), TypedExpression::FieldElement(ident("z"))],
    );
    assert_eq!(call.render(), "g(1, z)");
    let sel = FieldElementExpression::Select(
        Box::new(FieldElementArrayExpression::Identifier(3, "arr".to_string())),
        Box::new(num(2)),
    );
    assert_eq!(sel.render(), "arr[2]");
    assert_eq!(num(1234567890123456789).render(), "1234567890123456789");
}

#[test]
fn render_boolean_expressions() {
    let le = BooleanExpression::<FieldPrime>::Le(Box::new(ident("a")), Box::new(num(2)));
    let ge = BooleanExpression::<FieldPrime>::Ge(Box::new(ident("a")), Box::new(num(2)));
    let both = BooleanExpression::And(Box::new(le), Box::new(ge));
    let either = BooleanExpression::Or(
        Box::new(BooleanExpression::Eq(Box::new(ident("a")), Box::new(num(2)))),
        Box::new(BooleanExpression::Not(Box::new(BooleanExpression::Gt(
            Box::new(ident("b")),
            Box::new(num(3)),
        )))),
    );
    assert_eq!(both.render(), "a <= 2 && a >= 2");
    assert_eq!(either.render(), "a == 2 || !b > 3");
    assert_eq!(BooleanExpression::<FieldPrime>::Value(false).render(), "false");
}

#[test]
fn render_array_expressions() {
    let v = FieldElementArrayExpression::<FieldPrime>::Value(3, vec![num(1), ident("x"), num(3)]);
    assert_eq!(v.render(), "[1, x, 3]");
    let call = FieldElementArrayExpression::<FieldPrime>::FunctionCall(
        2,
        FunctionKey::with_id_and_signature("mk".to_string(), fe_sig(1, 1)),
        vec![TypedExpression::Boolean(BooleanExpression::Value(true))],
    );
    assert_eq!(call.render(), "mk(true)");
}

#[test]
fn render_statements() {
    let ret = TypedStatement::<FieldPrime>::Return(vec![
        TypedExpression::FieldElement(num(1)),
        TypedExpression::FieldElement(ident("y")),
    ]);
    assert_eq!(ret.render(), "return 1, y");
    let decl = TypedStatement::<FieldPrime>::Declaration(Variable::field_element("z".to_string()));
    assert_eq!(decl.render(), "z");
    let cond = TypedStatement::<FieldPrime>::Condition(
        TypedExpression::FieldElement(ident("a")),
        TypedExpression::FieldElement(num(4)),
    );
    assert_eq!(cond.render(), "a == 4");
    assert!(cond.is_well_typed(&vec![]));
}

#[test]
fn render_module_and_program() {
    let key_g = FunctionKey::with_id_and_signature("g".to_string(), fe_sig(1, 1));
    let main = TypedModule {
        functions: vec![
            (key_g.clone(), TypedFunctionSymbol::There(key_g.clone(), "lib".to_string())),
            (
                FunctionKey::with_id_and_signature("main".to_string(), fe_sig(1, 1)),
                TypedFunctionSymbol::Here(TypedFunction {
                    id: "main".to_string(),
                    arguments: vec![Parameter::private(Variable::field_element("a".to_string()))],
                    statements: vec![TypedStatement::Return(vec![TypedExpression::FieldElement(
                        FieldElementExpression::FunctionCall(
                            key_g.clone(),
                            vec![TypedExpression::FieldElement(ident("a"))],
                        ),
                    )])],
                    signature: fe_sig(1, 1),
                }),
            ),
        ],
        imports: vec![Import { source: "lib".to_string(), alias: Some("l".to_string()) }],
        imported_functions: vec![FlatFunction { id: "sha".to_string(), signature: fe_sig(2, 1) }],
    };
    let expected_main = "import lib as l\n\
flat sha (FieldElement, FieldElement) -> (FieldElement)\n\
import g from lib // with signature (FieldElement) -> (FieldElement)\n\
def main(a) -> (FieldElement):\n\treturn g(a)";
    assert_eq!(main.render(), expected_main);
    let lib = TypedModule {
        functions: vec![(key_g.clone(), TypedFunctionSymbol::Here(identity_function("g")))],
        imports: vec![],
        imported_functions: vec![],
    };
    let program = TypedProgram { modules: vec![("lib".to_string(), lib)], main };
    let rule = "-".repeat(100);
    let expected = format!(
        "| main: |\n{rule}\n{expected_main}\n{rule}\n\n| lib: |\n{rule}\ndef g(x) -> (FieldElement):\n\treturn x\n{rule}\n\n"
    );
    let first = program.render();
    assert_eq!(first, expected);
    assert_eq!(first, program.render());
}

#[test]
fn render_empty_module() {
    assert_eq!(empty_module().render(), "");
}

#[test]
fn render_types() {
    assert_eq!(Type::Boolean.render(), "Boolean");
    assert_eq!(Type::FieldElementArray(0).render(), "FieldElementArray(0)");
    assert_eq!(Type::FieldElementArray(42).render(), "FieldElementArray(42)");
}

#[test]
fn signatures_compare_by_types() {
    assert!(fe_sig(1, 1).same_as(&fe_sig(1, 1)));
    assert!(!fe_sig(1, 1).same_as(&fe_sig(2, 1)));
    let k1 = FunctionKey::with_id_and_signature("f".to_string(), fe_sig(1, 1));
    let k2 = FunctionKey::with_id_and_signature("f".to_string(), fe_sig(1, 2));
    let k3 = FunctionKey::with_id_and_signature("h".to_string(), fe_sig(1, 1));
    assert!(k1.matches(&k1.clone()));
    assert!(!k1.matches(&k2));
    assert!(!k1.matches(&k3));
}

#[test]
fn module_keys_unique() {
    let k1 = FunctionKey::with_id_and_signature("f".to_string(), fe_sig(1, 1));
    let k2 = FunctionKey::with_id_and_signature("f".to_string(), fe_sig(2, 1));
    let distinct = TypedModule {
        functions: vec![
            (k1.clone(), TypedFunctionSymbol::<FieldPrime>::Here(identity_function("f"))),
            (k2.clone(), TypedFunctionSymbol::There(k2.clone(), "lib".to_string())),
        ],
        imports: vec![],
        imported_functions: vec![],
    };
    assert!(distinct.has_unique_keys());
    let duplicated = TypedModule {
        functions: vec![
            (k1.clone(), TypedFunctionSymbol::<FieldPrime>::Here(identity_function("f"))),
            (k2.clone(), TypedFunctionSymbol::There(k2.clone(), "lib".to_string())),
            (k1.clone(), TypedFunctionSymbol::There(k1.clone(), "lib".to_string())),
        ],
        imports: vec![],
        imported_functions: vec![],
    };
    assert!(!duplicated.has_unique_keys());
    assert!(empty_module().has_unique_keys());
}

#[test]
fn program_well_typedness() {
    let good = identity_function("f");
    assert!(good.is_well_typed());
    let bad = TypedFunction {
        id: "bad".to_string(),
        arguments: vec![],
        statements: vec![TypedStatement::For(
            Variable::field_element("i".to_string()),
            FieldPrime::from_u128(0),
            FieldPrime::from_u128(1),
            vec![TypedStatement::Definition(
                TypedAssignee::Identifier(Variable::boolean("b".to_string())),
                TypedExpression::FieldElement(num(1)),
            )],
        )],
        signature: fe_sig(0, 0),
    };
    assert!(!bad.is_well_typed());
    let key_bad = FunctionKey::with_id_and_signature("bad".to_string(), fe_sig(0, 0));
    let key_f = FunctionKey::with_id_and_signature("f".to_string(), fe_sig(1, 1));
    let lib = TypedModule {
        functions: vec![(key_bad.clone(), TypedFunctionSymbol::Here(bad))],
        imports: vec![],
        imported_functions: vec![],
    };
    assert!(!lib.is_well_typed());
    let main = TypedModule {
        functions: vec![(key_f, TypedFunctionSymbol::Here(good))],
        imports: vec![],
        imported_functions: vec![],
    };
    assert!(main.is_well_typed());
    let program = TypedProgram { modules: vec![("lib".to_string(), lib)], main };
    assert!(!program.is_well_typed());
    let fine = TypedProgram { modules: vec![], main: empty_module() };
    assert!(fine.is_well_typed());
}

#[test]
fn returns_match_outputs() {
    let ret = TypedStatement::<FieldPrime>::Return(vec![
        TypedExpression::FieldElement(num(1)),
        TypedExpression::Boolean(BooleanExpression::Value(true)),
    ]);
    assert!(ret.is_well_typed(&vec![Type::FieldElement, Type::Boolean]));
    assert!(!ret.is_well_typed(&vec![Type::Boolean, Type::FieldElement]));
    assert!(!ret.is_well_typed(&vec![Type::FieldElement]));
    let mut f = identity_function("f");
    assert!(f.is_well_typed());
    f.signature = fe_sig(1, 2);
    assert!(!f.is_well_typed());
    let in_loop = TypedFunction::<FieldPrime> {
        id: "g".to_string(),
        arguments: vec![],
        statements: vec![TypedStatement::For(
            Variable::field_element("i".to_string()),
            FieldPrime::from_u128(0),
            FieldPrime::from_u128(1),
            vec![TypedStatement::Return(vec![TypedExpression::Boolean(BooleanExpression::Value(false))])],
        )],
        signature: fe_sig(0, 1),
    };
    assert!(!in_loop.is_well_typed());
}

#[test]
fn program_validity() {
    let key = FunctionKey::with_id_and_signature("f".to_string(), fe_sig(1, 1));
    let module = |dup: bool| TypedModule {
        functions: if dup {
            vec![
                (key.clone(), TypedFunctionSymbol::<FieldPrime>::Here(identity_function("f"))),
                (key.clone(), TypedFunctionSymbol::Here(identity_function("f"))),
            ]
        } else {
            vec![(key.clone(), TypedFunctionSymbol::<FieldPrime>::Here(identity_function("f")))]
        },
        imports: vec![],
        imported_functions: vec![],
    };
    let valid = TypedProgram {
        modules: vec![("a".to_string(), module(false)), ("b".to_string(), module(false))],
        main: module(false),
    };
    assert!(valid.is_valid());
    let repeated_id = TypedProgram {
        modules: vec![("a".to_string(), module(false)), ("a".to_string(), module(false))],
        main: module(false),
    };
    assert!(!repeated_id.is_valid());
    let repeated_key = TypedProgram { modules: vec![("a".to_string(), module(true))], main: module(false) };
    assert!(!repeated_key.is_valid());
    let bad_main = TypedProgram { modules: vec![], main: module(true) };
    assert!(!bad_main.is_valid());
}

#[test]
fn parameters_match_inputs() {
    let mut f = identity_function("f");
    assert!(f.is_well_typed());
    f.arguments = vec![Parameter::public(Variable::boolean("x".to_string()))];
    assert!(!f.is_well_typed());
    f.arguments = vec![];
    assert!(!f.is_well_typed());
}

#[test]
fn debug_renderings() {
    let e = FieldElementExpression::Add(
        Box::new(num(1)),
        Box::new(FieldElementExpression::Select(
            Box::new(FieldElementArrayExpression::Identifier(2, "arr".to_string())),
            Box::new(ident("i")),
        )),
    );
    assert_eq!(e.debug_text(), "Add(Num(1), Select(\"arr\", Ide(i)))");
    let call = FieldElementExpression::FunctionCall(
        FunctionKey::with_id_and_signature("g".to_string(), fe_sig(2, 1)),
        vec![TypedExpression::FieldElement(num(3)), TypedExpression::Boolean(BooleanExpression::Value(true))],
    );
    assert_eq!(call.debug_text(), "FunctionCall(g, ([Num(3), true]))");
    let cond = FieldElementArrayExpression::<FieldPrime>::IfElse(
        Box::new(BooleanExpression::Identifier("c".to_string())),
        Box::new(FieldElementArrayExpression::Value(2, vec![num(1), ident("x")])),
        Box::new(FieldElementArrayExpression::Identifier(2, "b".to_string())),
    );
    assert_eq!(cond.debug_text(), "IfElse(c, [Num(1), Ide(x)], \"b\")");
    let pow: TypedExpression<FieldPrime> = FieldElementExpression::Pow(Box::new(ident("x")), Box::new(num(2))).into();
    assert_eq!(pow.debug_text(), "Pow(Ide(x), Num(2))");
}

#[test]
fn calls_agree_with_callees() {
    let key = FunctionKey::with_id_and_signature("g".to_string(), fe_sig(2, 1));
    let good_call = FieldElementExpression::FunctionCall(
        key.clone(),
        vec![TypedExpression::FieldElement(num(1)), TypedExpression::FieldElement(ident("x"))],
    );
    let bad_call = FieldElementExpression::FunctionCall(
        key.clone(),
        vec![TypedExpression::Boolean(BooleanExpression::Value(true)), TypedExpression::FieldElement(ident("x"))],
    );
    let short_call = FieldElementExpression::<FieldPrime>::FunctionCall(key.clone(), vec![TypedExpression::FieldElement(num(1))]);
    assert!(typed_absy::calls::field_calls_ok(&good_call));
    assert!(!typed_absy::calls::field_calls_ok(&bad_call));
    assert!(!typed_absy::calls::field_calls_ok(&short_call));
    let mut f = identity_function("f");
    assert!(f.calls_agree());
    f.statements = vec![TypedStatement::Return(vec![TypedExpression::FieldElement(add_of(ident("x"), bad_call))])];
    assert!(!f.calls_agree());
    let module = TypedModule { functions: vec![(key.clone(), TypedFunctionSymbol::Here(f))], imports: vec![], imported_functions: vec![] };
    assert!(!module.calls_agree());
    let program = TypedProgram { modules: vec![("m".to_string(), module)], main: empty_module() };
    assert!(!program.calls_agree());
    let pair = FunctionKey::with_id_and_signature("p".to_string(), fe_sig(0, 2));
    let destructure = TypedStatement::<FieldPrime>::MultipleDefinition(
        vec![Variable::field_element("a".to_string()), Variable::field_element("b".to_string())],
        TypedExpressionList::FunctionCall(pair.clone(), vec![], vec![Type::FieldElement, Type::Boolean]),
    );
    assert!(!typed_absy::calls::statement_calls_ok(&destructure));
    let fine = TypedStatement::<FieldPrime>::MultipleDefinition(
        vec![Variable::field_element("a".to_string()), Variable::field_element("b".to_string())],
        TypedExpressionList::FunctionCall(pair, vec![], vec![Type::FieldElement, Type::FieldElement]),
    );
    assert!(typed_absy::calls::statement_calls_ok(&fine));
}

fn add_of(l: FieldElementExpression<FieldPrime>, r: FieldElementExpression<FieldPrime>) -> FieldElementExpression<FieldPrime> {
    FieldElementExpression::Add(Box::new(l), Box::new(r))
}
