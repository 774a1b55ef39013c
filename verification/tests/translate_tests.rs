use logikon::ast::ArrayExpression;
use logikon::ast::BooleanExpression;
use logikon::ast::Case;
use logikon::ast::Contract;
use logikon::ast::Fault;
use logikon::ast::Function;
use logikon::ast::Signature;
use logikon::ast::StateVariable;
use logikon::ast::Type;
use logikon::ast::UintExpression;
use logikon::ast::Variable;
use logikon::node::Node;
use logikon::node::Rule;

fn node(rule: Rule, text: &str, children: Vec<Node>) -> Node {
    Node { rule, text: text.to_string(), children }
}

fn ident(name: &str) -> Node {
    node(Rule::Identifier, name, vec![])
}

/// An identifier in expression position: a statement holding one identifier.
fn stmt_ident(name: &str) -> Node {
    node(Rule::Statement, name, vec![ident(name)])
}

fn stmt(children: Vec<Node>) -> Node {
    node(Rule::Statement, "", children)
}

fn unary(text: &str) -> Node {
    node(Rule::UnaryOp, text, vec![])
}

fn binary(text: &str) -> Node {
    node(Rule::BinaryOp, text, vec![])
}

fn ternary(text: &str) -> Node {
    node(Rule::TernaryOp, text, vec![])
}

fn sort(text: &str) -> Node {
    node(Rule::LogikonType, text, vec![])
}

fn type_list(sorts: &[&str]) -> Node {
    node(Rule::TypeList, "", sorts.iter().map(|s| sort(s)).collect())
}

fn param_list(names: &[&str]) -> Node {
    node(Rule::ParameterList, "", names.iter().map(|s| ident(s)).collect())
}

fn case_node(params: &[&str], returns: &[&str], body: Vec<Node>) -> Node {
    let mut children = vec![param_list(params), param_list(returns)];
    if !body.is_empty() {
        children.push(node(Rule::CaseBody, "", body));
    }
    node(Rule::Case, "", children)
}

fn var(name: &str, t: Type) -> Variable {
    Variable { name: name.to_string(), _type: t }
}

fn bool_ident(name: &str) -> Box<BooleanExpression> {
    Box::new(BooleanExpression::Identifier(name.to_string()))
}

fn uint_ident(name: &str) -> Box<UintExpression> {
    Box::new(UintExpression::Identifier(name.to_string()))
}

// define f (Uint) -> (Uint Uint)
//     case () ().
fn empty_function_def() -> Node {
    node(
        Rule::FunctionDef,
        "",
        vec![
            ident("f"),
            type_list(&["Uint"]),
            type_list(&["Uint", "Uint"]),
            case_node(&[], &[], vec![]),
        ],
    )
}

#[test]
fn empty_function() {
    let pair = empty_function_def();

    assert_eq!(
        Function::from(&pair),
        Ok(Function {
            name: String::from("f"),
            recursive: false,
            cases: vec![Case {
                parameters: vec![],
                expressions: vec![],
                return_values: vec![]
            }],
            signature: Signature {
                inputs: vec![Type::Uint],
                outputs: vec![Type::Uint, Type::Uint]
            }
        })
    );
}

// define f (Bool) -> (Bool)
//     case (a) (x) :-
//         (= x y).
#[test]
fn identity_function() {
    let pair = node(
        Rule::FunctionDef,
        "",
        vec![
            ident("f"),
            type_list(&["Bool"]),
            type_list(&["Bool"]),
            case_node(
                &["a"],
                &["x"],
                vec![stmt(vec![binary("="), stmt_ident("x"), stmt_ident("y")])],
            ),
        ],
    );

    assert_eq!(
        Function::from(&pair),
        Ok(Function {
            name: String::from("f"),
            recursive: false,
            cases: vec![Case {
                parameters: vec![var("a", Type::Bool)],
                expressions: vec![BooleanExpression::EqBool(
                    bool_ident("x"),
                    bool_ident("y")
                )],
                return_values: vec![var("x", Type::Bool)]
            }],
            signature: Signature {
                inputs: vec![Type::Bool],
                outputs: vec![Type::Bool]
            }
        })
    );
}

// define f (Bool) -> (Bool)
//     case (a) (x) :-
//         (= x (ite a a a)).
#[test]
fn ite_function() {
    let pair = node(
        Rule::FunctionDef,
        "",
        vec![
            ident("f"),
            type_list(&["Bool"]),
            type_list(&["Bool"]),
            case_node(
                &["a"],
                &["x"],
                vec![stmt(vec![
                    binary("="),
                    stmt_ident("x"),
                    stmt(vec![
                        ternary("ite"),
                        stmt_ident("a"),
                        stmt_ident("a"),
                        stmt_ident("a"),
                    ]),
                ])],
            ),
        ],
    );

    assert_eq!(
        Function::from(&pair),
        Ok(Function {
            name: String::from("f"),
            recursive: false,
            cases: vec![Case {
                parameters: vec![var("a", Type::Bool)],
                expressions: vec![BooleanExpression::EqBool(
                    bool_ident("x"),
                    Box::new(BooleanExpression::Ite(
                        bool_ident("a"),
                        bool_ident("a"),
                        bool_ident("a"),
                    ))
                )],
                return_values: vec![var("x", Type::Bool)]
            }],
            signature: Signature {
                inputs: vec![Type::Bool],
                outputs: vec![Type::Bool]
            }
        })
    );
}

// define f (Uint Bool) -> (Uint)
//     case (a b) (x) :-
//         (= x (ite b a a)).
#[test]
fn ite_uint_function() {
    let pair = node(
        Rule::FunctionDef,
        "",
        vec![
            ident("f"),
            type_list(&["Uint", "Bool"]),
            type_list(&["Uint"]),
            case_node(
                &["a", "b"],
                &["x"],
                vec![stmt(vec![
                    binary("="),
                    stmt_ident("x"),
                    stmt(vec![
                        ternary("ite"),
                        stmt_ident("b"),
                        stmt_ident("a"),
                        stmt_ident("a"),
                    ]),
                ])],
            ),
        ],
    );

    assert_eq!(
        Function::from(&pair),
        Ok(Function {
            name: String::from("f"),
            recursive: false,
            cases: vec![Case {
                parameters: vec![var("a", Type::Uint), var("b", Type::Bool)],
                expressions: vec![BooleanExpression::EqUint(
                    uint_ident("x"),
                    Box::new(UintExpression::Ite(
                        bool_ident("b"),
                        uint_ident("a"),
                        uint_ident("a"),
                    ))
                )],
                return_values: vec![var("x", Type::Uint)]
            }],
            signature: Signature {
                inputs: vec![Type::Uint, Type::Bool],
                outputs: vec![Type::Uint]
            }
        })
    );
}

#[test]
fn sort_tokens_resolve() {
    assert_eq!(Type::from(&sort("Uint")), Ok(Type::Uint));
    assert_eq!(Type::from(&sort("Bool")), Ok(Type::Bool));
    assert_eq!(Type::from(&sort("List")), Ok(Type::List));
    assert_eq!(Type::from(&sort("Array")), Ok(Type::Array));
}

#[test]
fn unrecognized_sort_is_rejected() {
    assert_eq!(Type::from(&sort("Float")), Err(Fault::UnrecognizedSort));
    assert_eq!(Type::from(&sort("uint")), Err(Fault::UnrecognizedSort));
    assert_eq!(Type::from(&sort("")), Err(Fault::UnrecognizedSort));
}

#[test]
fn sort_from_wrong_tag_is_malformed() {
    assert_eq!(Type::from(&ident("Uint")), Err(Fault::MalformedNode));
}

#[test]
fn untyped_variable_from_identifier() {
    assert_eq!(Variable::from(&ident("z")), var("z", Type::Unknown));
}

#[test]
fn unknown_operator_is_rejected() {
    let env: Vec<Variable> = vec![];
    let modulo = stmt(vec![binary("%"), stmt_ident("a"), stmt_ident("b")]);
    assert_eq!(
        BooleanExpression::from(&modulo, &env),
        Err(Fault::UnknownOperator)
    );
    let plus_as_bool = stmt(vec![binary("+"), stmt_ident("a"), stmt_ident("b")]);
    assert_eq!(
        BooleanExpression::from(&plus_as_bool, &env),
        Err(Fault::UnknownOperator)
    );
    let less_as_uint = stmt(vec![binary("<"), stmt_ident("a"), stmt_ident("b")]);
    assert_eq!(
        UintExpression::from(&less_as_uint, &env),
        Err(Fault::UnknownOperator)
    );
    let store_binary = stmt(vec![
        ternary("shuffle"),
        stmt_ident("a"),
        stmt_ident("i"),
        stmt_ident("v"),
    ]);
    assert_eq!(
        ArrayExpression::from(&store_binary, &env),
        Err(Fault::UnknownOperator)
    );
}

#[test]
fn operator_operand_count_must_match_arity_tag() {
    let env: Vec<Variable> = vec![];
    let not_without_operand = stmt(vec![unary("not")]);
    assert_eq!(
        BooleanExpression::from(&not_without_operand, &env),
        Err(Fault::ArityMismatch)
    );
    let eq_with_three = stmt(vec![
        binary("="),
        stmt_ident("a"),
        stmt_ident("b"),
        stmt_ident("c"),
    ]);
    assert_eq!(
        BooleanExpression::from(&eq_with_three, &env),
        Err(Fault::ArityMismatch)
    );
    let ite_with_two = stmt(vec![ternary("ite"), stmt_ident("a"), stmt_ident("b")]);
    assert_eq!(
        UintExpression::from(&ite_with_two, &env),
        Err(Fault::ArityMismatch)
    );
}

#[test]
fn comparison_and_arithmetic_operators() {
    let env: Vec<Variable> = vec![];
    let lt_of_sum = stmt(vec![
        binary("<"),
        stmt(vec![binary("+"), stmt_ident("a"), stmt_ident("b")]),
        stmt_ident("c"),
    ]);
    assert_eq!(
        BooleanExpression::from(&lt_of_sum, &env),
        Ok(BooleanExpression::Lt(
            Box::new(UintExpression::Plus(uint_ident("a"), uint_ident("b"))),
            uint_ident("c")
        ))
    );
    let ge = stmt(vec![binary(">="), stmt_ident("a"), stmt_ident("b")]);
    assert_eq!(
        BooleanExpression::from(&ge, &env),
        Ok(BooleanExpression::Ge(uint_ident("a"), uint_ident("b")))
    );
    let division = stmt(vec![binary("/"), stmt_ident("a"), stmt_ident("b")]);
    assert_eq!(
        UintExpression::from(&division, &env),
        Ok(UintExpression::Div(uint_ident("a"), uint_ident("b")))
    );
}

#[test]
fn not_and_nested_statement_pass_through() {
    let env: Vec<Variable> = vec![];
    let negation = stmt(vec![unary("not"), stmt_ident("a")]);
    assert_eq!(
        BooleanExpression::from(&negation, &env),
        Ok(BooleanExpression::Not(bool_ident("a")))
    );
    let wrapped = stmt(vec![stmt(vec![ident("a")])]);
    assert_eq!(
        BooleanExpression::from(&wrapped, &env),
        Ok(BooleanExpression::Identifier("a".to_string()))
    );
}

#[test]
fn select_and_store_are_sort_directed() {
    let env: Vec<Variable> = vec![var("x", Type::Uint)];
    // (= x (select (store arr i v) j))
    let selection = stmt(vec![
        binary("="),
        stmt_ident("x"),
        stmt(vec![
            binary("select"),
            stmt(vec![
                ternary("store"),
                stmt_ident("arr"),
                stmt_ident("i"),
                stmt_ident("v"),
            ]),
            stmt_ident("j"),
        ]),
    ]);
    assert_eq!(
        BooleanExpression::from(&selection, &env),
        Ok(BooleanExpression::EqUint(
            uint_ident("x"),
            Box::new(UintExpression::Select(
                Box::new(ArrayExpression::Store(
                    Box::new(ArrayExpression::Identifier("arr".to_string())),
                    uint_ident("i"),
                    uint_ident("v"),
                )),
                uint_ident("j"),
            ))
        ))
    );
}

#[test]
fn inequality_follows_first_operand_sort() {
    let env = vec![var("n", Type::Uint), var("p", Type::Bool)];
    let ne_uint = stmt(vec![binary("!="), stmt_ident("n"), stmt_ident("m")]);
    assert_eq!(
        BooleanExpression::from(&ne_uint, &env),
        Ok(BooleanExpression::NeUint(uint_ident("n"), uint_ident("m")))
    );
    let ne_bool = stmt(vec![binary("!="), stmt_ident("p"), stmt_ident("q")]);
    assert_eq!(
        BooleanExpression::from(&ne_bool, &env),
        Ok(BooleanExpression::NeBool(bool_ident("p"), bool_ident("q")))
    );
}

#[test]
fn parameter_binding_shadows_return_binding() {
    // the same name declared as a Uint parameter and a Bool return: the
    // parameter, bound first, directs equality dispatch
    let pair = node(
        Rule::FunctionDef,
        "",
        vec![
            ident("f"),
            type_list(&["Uint"]),
            type_list(&["Bool"]),
            case_node(
                &["x"],
                &["x"],
                vec![stmt(vec![binary("="), stmt_ident("x"), stmt_ident("y")])],
            ),
        ],
    );
    let function = Function::from(&pair).unwrap();
    assert_eq!(
        function.cases[0].expressions,
        vec![BooleanExpression::EqUint(uint_ident("x"), uint_ident("y"))]
    );
}

#[test]
fn equality_defaults_to_boolean_context() {
    // neither operand's head identifier is bound, so `=` stays Boolean
    let env: Vec<Variable> = vec![];
    let eq = stmt(vec![binary("="), stmt_ident("u"), stmt_ident("v")]);
    assert_eq!(
        BooleanExpression::from(&eq, &env),
        Ok(BooleanExpression::EqBool(bool_ident("u"), bool_ident("v")))
    );
    // a non-identifier first operand also stays Boolean
    let eq_not = stmt(vec![
        binary("="),
        stmt(vec![unary("not"), stmt_ident("a")]),
        stmt_ident("b"),
    ]);
    assert_eq!(
        BooleanExpression::from(&eq_not, &env),
        Ok(BooleanExpression::EqBool(
            Box::new(BooleanExpression::Not(bool_ident("a"))),
            bool_ident("b")
        ))
    );
}

#[test]
fn empty_pattern_case_keeps_its_body() {
    let pair = node(
        Rule::FunctionDef,
        "",
        vec![
            ident("f"),
            type_list(&["Uint"]),
            type_list(&["Uint"]),
            case_node(
                &[],
                &[],
                vec![stmt(vec![binary("="), stmt_ident("u"), stmt_ident("v")])],
            ),
        ],
    );
    let function = Function::from(&pair).unwrap();
    assert_eq!(function.cases.len(), 1);
    assert!(function.cases[0].parameters.is_empty());
    assert!(function.cases[0].return_values.is_empty());
    assert_eq!(
        function.cases[0].expressions,
        vec![BooleanExpression::EqBool(bool_ident("u"), bool_ident("v"))]
    );
}

#[test]
fn signature_propagates_into_every_case() {
    let pair = node(
        Rule::FunctionDef,
        "",
        vec![
            ident("g"),
            node(Rule::Recursive, "recursive", vec![]),
            type_list(&["Uint", "Array"]),
            type_list(&["Bool"]),
            case_node(&["a", "arr"], &["ok"], vec![]),
            case_node(&["n", "mem"], &["flag"], vec![]),
        ],
    );
    let function = Function::from(&pair).unwrap();
    assert!(function.recursive);
    assert_eq!(function.cases.len(), 2);
    for case in &function.cases {
        assert_eq!(case.parameters.len(), 2);
        assert_eq!(case.parameters[0]._type, Type::Uint);
        assert_eq!(case.parameters[1]._type, Type::Array);
        assert_eq!(case.return_values.len(), 1);
        assert_eq!(case.return_values[0]._type, Type::Bool);
    }
    assert_eq!(function.cases[0].parameters[0].name, "a");
    assert_eq!(function.cases[1].parameters[0].name, "n");
}

#[test]
fn case_arity_mismatch_is_rejected() {
    // two declared inputs, but a case with one parameter
    let too_few_params = node(
        Rule::FunctionDef,
        "",
        vec![
            ident("f"),
            type_list(&["Uint", "Bool"]),
            type_list(&["Uint"]),
            case_node(&["a"], &["x"], vec![]),
        ],
    );
    assert_eq!(Function::from(&too_few_params), Err(Fault::ArityMismatch));

    // one declared output, but a case with two return variables
    let too_many_returns = node(
        Rule::FunctionDef,
        "",
        vec![
            ident("f"),
            type_list(&["Uint"]),
            type_list(&["Uint"]),
            case_node(&["a"], &["x", "y"], vec![]),
        ],
    );
    assert_eq!(Function::from(&too_many_returns), Err(Fault::ArityMismatch));
}

#[test]
fn function_shape_faults_are_malformed() {
    // no name and no type lists
    let bare = node(Rule::FunctionDef, "", vec![]);
    assert_eq!(Function::from(&bare), Err(Fault::MalformedNode));

    // only one type list
    let one_list = node(
        Rule::FunctionDef,
        "",
        vec![ident("f"), type_list(&["Uint"])],
    );
    assert_eq!(Function::from(&one_list), Err(Fault::MalformedNode));

    // a third type list
    let three_lists = node(
        Rule::FunctionDef,
        "",
        vec![
            ident("f"),
            type_list(&["Uint"]),
            type_list(&["Uint"]),
            type_list(&["Uint"]),
        ],
    );
    assert_eq!(Function::from(&three_lists), Err(Fault::MalformedNode));

    // a stray child of the wrong tag
    let stray = node(
        Rule::FunctionDef,
        "",
        vec![
            ident("f"),
            type_list(&["Uint"]),
            type_list(&["Uint"]),
            stmt_ident("x"),
        ],
    );
    assert_eq!(Function::from(&stray), Err(Fault::MalformedNode));
}

#[test]
fn unknown_sort_inside_signature_faults() {
    let pair = node(
        Rule::FunctionDef,
        "",
        vec![
            ident("f"),
            type_list(&["Uint", "Decimal"]),
            type_list(&["Uint"]),
            case_node(&["a", "b"], &["x"], vec![]),
        ],
    );
    assert_eq!(Function::from(&pair), Err(Fault::UnrecognizedSort));
}

#[test]
fn contract_collects_state_and_functions() {
    let pair = node(
        Rule::Contract,
        "",
        vec![
            node(Rule::StateVarDecl, "", vec![ident("balance"), sort("Uint")]),
            node(Rule::StateVarDecl, "", vec![ident("ledger"), sort("Array")]),
            empty_function_def(),
        ],
    );
    let contract = Contract::from(&pair).unwrap();
    assert_eq!(
        contract.state,
        vec![
            StateVariable { name: "balance".to_string(), _type: Type::Uint },
            StateVariable { name: "ledger".to_string(), _type: Type::Array },
        ]
    );
    assert_eq!(contract.functions.len(), 1);
    assert_eq!(contract.functions[0].name, "f");
}

#[test]
fn contract_rejects_stray_children() {
    let pair = node(Rule::Contract, "", vec![stmt_ident("x")]);
    assert_eq!(Contract::from(&pair), Err(Fault::MalformedNode));
}

#[test]
fn translation_is_deterministic() {
    let first = Function::from(&empty_function_def());
    let second = Function::from(&empty_function_def());
    assert_eq!(first, second);

    let complex = || {
        node(
            Rule::FunctionDef,
            "",
            vec![
                ident("h"),
                type_list(&["Uint"]),
                type_list(&["Bool"]),
                case_node(
                    &["n"],
                    &["ok"],
                    vec![stmt(vec![binary("<"), stmt_ident("n"), stmt_ident("cap")])],
                ),
            ],
        )
    };
    assert_eq!(Function::from(&complex()), Function::from(&complex()));
}
