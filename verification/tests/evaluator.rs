use treewalk::common::ast::ArrayExpression;
use treewalk::common::ast::AssignmentStatement;
use treewalk::common::ast::ElseBlock;
use treewalk::common::ast::BinaryExpression;
use treewalk::common::ast::BlockExpression;
use treewalk::common::ast::CallExpression;
use treewalk::common::ast::Expression;
use treewalk::common::ast::FunctionStatement;
use treewalk::common::ast::GroupExpression;
use treewalk::common::ast::IdentifierExpression;
use treewalk::common::ast::IfExpression;
use treewalk::common::ast::LetStatement;
use treewalk::common::ast::LiteralExpression;
use treewalk::common::ast::Parameter;
use treewalk::common::ast::Statement;
use treewalk::common::ast::UnaryExpression;
use treewalk::common::error::Error;
use treewalk::common::error::ErrorKind;
use treewalk::common::object::object_equals;
use treewalk::common::object::Object;
use treewalk::common::position::Position;
use treewalk::common::token::Token;
use treewalk::common::token::TokenType;
use treewalk::runtime::interpreter::Interpreter;
use treewalk::runtime::interpreter::CALL_DEPTH_LIMIT;

fn pos() -> Position {
    Position::new("test".to_string(), 1)
}

fn num_tok(x: f64) -> Token {
    Token::new(
        TokenType::Number,
        format!("{}", x),
        Some(Object::Number(x.to_bits())),
        pos(),
    )
}

fn str_tok(s: &str) -> Token {
    Token::new(TokenType::Text, s.to_string(), Some(Object::Str(s.to_string())), pos())
}

fn bool_tok(b: bool) -> Token {
    let t = if b { TokenType::True } else { TokenType::False };
    Token::new(t, format!("{}", b), Some(Object::Boolean(b)), pos())
}

fn ident_tok(name: &str) -> Token {
    Token::new(TokenType::Identifier, name.to_string(), None, pos())
}

fn op_tok(t: TokenType, lexeme: &str) -> Token {
    Token::new(t, lexeme.to_string(), None, pos())
}

fn num_lit(x: f64) -> Expression {
    Expression::Literal(LiteralExpression::new(num_tok(x)))
}

fn str_lit(s: &str) -> Expression {
    Expression::Literal(LiteralExpression::new(str_tok(s)))
}

fn bool_lit(b: bool) -> Expression {
    Expression::Literal(LiteralExpression::new(bool_tok(b)))
}

fn ident(name: &str) -> Expression {
    Expression::Identifier(IdentifierExpression::new(ident_tok(name)))
}

fn binary(l: Expression, t: TokenType, lex: &str, r: Expression) -> Expression {
    Expression::Binary(BinaryExpression::new(l, op_tok(t, lex), r))
}

fn call(name: &str, args: Vec<Expression>) -> Expression {
    Expression::Call(CallExpression::new(ident_tok(name), args))
}

fn num_array(xs: &[f64]) -> Expression {
    let toks: Vec<Token> = xs.iter().map(|x| num_tok(*x)).collect();
    Expression::Array(ArrayExpression::new(toks))
}

fn eval(e: Expression) -> Result<Object, Error> {
    let mut interp = Interpreter::new();
    interp
        .evaluate_expression(&e, CALL_DEPTH_LIMIT)
        .map(|out| out.into_value())
}

fn eval_in(interp: &mut Interpreter, e: Expression) -> Result<Object, Error> {
    interp
        .evaluate_expression(&e, CALL_DEPTH_LIMIT)
        .map(|out| out.into_value())
}

fn expect_number(r: Result<Object, Error>) -> f64 {
    match r.expect("evaluation failed") {
        Object::Number(bits) => f64::from_bits(bits),
        other => panic!("expected a number, got {:?}", text_of(&other)),
    }
}

fn text_of(o: &Object) -> String {
    treewalk::common::object::object_text(o)
}

#[test]
fn arithmetic_matches_ieee_doubles() {
    let cases: &[(f64, f64)] = &[
        (1.0, 2.0),
        (0.1, 0.2),
        (-3.5, 2.25),
        (1.0, 0.0),
        (5.5, 2.0),
        (1e300, 1e300),
    ];
    for &(a, b) in cases {
        let ops: &[(TokenType, &str)] = &[
            (TokenType::Plus, "+"),
            (TokenType::Minus, "-"),
            (TokenType::Star, "*"),
            (TokenType::Slash, "/"),
            (TokenType::Modulo, "%"),
        ];
        for &(t, lex) in ops {
            let got = eval(binary(num_lit(a), t, lex, num_lit(b)));
            let want = match lex {
                "+" => a + b,
                "-" => a - b,
                "*" => a * b,
                "/" => a / b,
                _ => a % b,
            };
            let got_bits = match got.expect("arithmetic failed") {
                Object::Number(bits) => bits,
                _ => panic!("expected number"),
            };
            if want.is_nan() {
                // The sign and payload of a NaN result are not pinned
                // down by IEEE-754; only NaN-ness is.
                assert!(f64::from_bits(got_bits).is_nan(), "{} {} {}", a, lex, b);
            } else {
                assert_eq!(got_bits, want.to_bits(), "{} {} {}", a, lex, b);
            }
        }
    }
}

#[test]
fn mixed_type_arithmetic_is_a_type_mismatch() {
    let e = eval(binary(num_lit(1.0), TokenType::Plus, "+", str_lit("x")));
    let err = e.expect_err("number + string must fail");
    assert!(matches!(err.kind, ErrorKind::TypeMismatch { .. }));
    let e2 = eval(binary(str_lit("x"), TokenType::Minus, "-", str_lit("y")));
    let err2 = e2.expect_err("string - string must fail");
    assert!(matches!(err2.kind, ErrorKind::TypeMismatch { .. }));
}

#[test]
fn comparisons_on_numbers() {
    let lt = eval(binary(num_lit(1.0), TokenType::Less, "<", num_lit(2.0)));
    assert!(matches!(lt.unwrap(), Object::Boolean(true)));
    let ge = eval(binary(num_lit(1.0), TokenType::GreaterEqual, ">=", num_lit(2.0)));
    assert!(matches!(ge.unwrap(), Object::Boolean(false)));
    let le = eval(binary(num_lit(2.0), TokenType::LessEqual, "<=", num_lit(2.0)));
    assert!(matches!(le.unwrap(), Object::Boolean(true)));
}

#[test]
fn nan_is_equal_to_nothing() {
    let nan = binary(num_lit(0.0), TokenType::Slash, "/", num_lit(0.0));
    let e = eval(binary(
        nan,
        TokenType::EqualEqual,
        "==",
        binary(num_lit(0.0), TokenType::Slash, "/", num_lit(0.0)),
    ));
    assert!(matches!(e.unwrap(), Object::Boolean(false)));
}

#[test]
fn equality_is_structural_and_never_errs() {
    let e = eval(binary(num_lit(1.0), TokenType::EqualEqual, "==", str_lit("1")));
    assert!(matches!(e.unwrap(), Object::Boolean(false)));
    let e2 = eval(binary(str_lit("ab"), TokenType::EqualEqual, "==", str_lit("ab")));
    assert!(matches!(e2.unwrap(), Object::Boolean(true)));
    let e3 = eval(binary(num_lit(0.0), TokenType::EqualEqual, "==", num_lit(-0.0)));
    assert!(matches!(e3.unwrap(), Object::Boolean(true)));
}

#[test]
fn and_or_use_truthiness_without_short_circuit() {
    let e = eval(binary(num_lit(0.0), TokenType::And, "and", bool_lit(true)));
    assert!(matches!(e.unwrap(), Object::Boolean(true)));
    let e2 = eval(binary(bool_lit(false), TokenType::Or, "or", bool_lit(false)));
    assert!(matches!(e2.unwrap(), Object::Boolean(false)));
}

#[test]
fn string_comparison_concatenates() {
    let e = eval(binary(str_lit("a"), TokenType::Less, "<", str_lit("b")));
    match e.unwrap() {
        Object::Str(s) => assert_eq!(s, "ab"),
        _ => panic!("expected string"),
    }
}

#[test]
fn unary_not_and_negation() {
    let e = eval(Expression::Unary(UnaryExpression::new(op_tok(TokenType::Not, "not"), bool_lit(true))));
    assert!(matches!(e.unwrap(), Object::Boolean(false)));
    let m = eval(Expression::Unary(UnaryExpression::new(op_tok(TokenType::Minus, "-"), num_lit(2.5))));
    assert_eq!(expect_number(Ok(m.unwrap())), -2.5);
    let bad = eval(Expression::Unary(UnaryExpression::new(op_tok(TokenType::Minus, "-"), str_lit("x"))));
    assert!(matches!(bad.expect_err("negating a string must fail").kind, ErrorKind::TypeMismatch { .. }));
}

#[test]
fn len_counts_strings_and_arrays() {
    assert_eq!(expect_number(eval(call("len", vec![str_lit("hello")]))), 5.0);
    assert_eq!(expect_number(eval(call("len", vec![num_array(&[1.0, 2.0, 3.0])]))), 3.0);
    let e = eval(call("len", vec![bool_lit(true)]));
    assert!(matches!(e.expect_err("len(true) must fail").kind, ErrorKind::UnsupportedArgument(_)));
}

#[test]
fn first_and_last_of_arrays() {
    let f = eval(call("first", vec![num_array(&[])]));
    assert!(matches!(f.unwrap(), Object::Nil));
    let l = eval(call("last", vec![num_array(&[])]));
    assert!(matches!(l.unwrap(), Object::Nil));
    assert_eq!(expect_number(eval(call("first", vec![num_array(&[1.0, 2.0])]))), 1.0);
    assert_eq!(expect_number(eval(call("last", vec![num_array(&[1.0, 2.0])]))), 2.0);
}

#[test]
fn pop_returns_last_element_of_a_copy() {
    assert_eq!(expect_number(eval(call("pop", vec![num_array(&[4.0, 9.0])]))), 9.0);
    let empty = eval(call("pop", vec![num_array(&[])]));
    assert!(matches!(empty.unwrap(), Object::Nil));
    let bad = eval(call("pop", vec![num_lit(1.0)]));
    assert!(matches!(bad.expect_err("pop(1) must fail").kind, ErrorKind::UnsupportedArgument(_)));
}

#[test]
fn push_appends_without_mutating_the_binding() {
    let mut interp = Interpreter::new();
    let program = vec![
        Statement::Let(LetStatement::new(
            ident_tok("a"),
            Expression::Array(ArrayExpression::new(vec![num_tok(1.0), num_tok(2.0)])),
        )),
        Statement::Let(LetStatement::new(
            ident_tok("b"),
            call("push", vec![ident("a"), num_lit(3.0)]),
        )),
    ];
    interp.interpret(program).expect("program failed");
    let a = eval_in(&mut interp, ident("a")).unwrap();
    let b = eval_in(&mut interp, ident("b")).unwrap();
    let expect_a = eval(num_array(&[1.0, 2.0])).unwrap();
    let expect_b = eval(num_array(&[1.0, 2.0, 3.0])).unwrap();
    assert!(object_equals(&a, &expect_a), "a changed: {}", text_of(&a));
    assert!(object_equals(&b, &expect_b), "b wrong: {}", text_of(&b));
}

#[test]
fn scoping_inner_let_does_not_leak() {
    let mut interp = Interpreter::new();
    let program = vec![
        Statement::Let(LetStatement::new(ident_tok("x"), num_lit(1.0))),
        Statement::Expression(Expression::If(IfExpression::new(
            bool_lit(true),
            BlockExpression::new(vec![Statement::Let(LetStatement::new(
                ident_tok("x"),
                num_lit(2.0),
            ))]),
            None,
        ))),
    ];
    interp.interpret(program).expect("program failed");
    assert_eq!(expect_number(eval_in(&mut interp, ident("x"))), 1.0);
}

#[test]
fn scoping_assignment_to_outer_binding_persists() {
    let mut interp = Interpreter::new();
    let program = vec![
        Statement::Let(LetStatement::new(ident_tok("x"), num_lit(1.0))),
        Statement::Expression(Expression::If(IfExpression::new(
            bool_lit(true),
            BlockExpression::new(vec![Statement::Assignment(AssignmentStatement::new(
                ident_tok("x"),
                num_lit(2.0),
            ))]),
            None,
        ))),
    ];
    interp.interpret(program).expect("program failed");
    assert_eq!(expect_number(eval_in(&mut interp, ident("x"))), 2.0);
}

#[test]
fn assignment_to_undeclared_name_fails() {
    let mut interp = Interpreter::new();
    let program = vec![Statement::Assignment(AssignmentStatement::new(
        ident_tok("ghostly"),
        num_lit(1.0),
    ))];
    let err = interp.interpret(program).expect_err("assignment must fail");
    assert!(matches!(err.kind, ErrorKind::UndefinedIdentifier(name) if name == "ghostly"));
}

#[test]
fn undefined_identifier_in_expression() {
    let err = eval(ident("nobody")).expect_err("lookup must fail");
    assert!(matches!(err.kind, ErrorKind::UndefinedIdentifier(name) if name == "nobody"));
}

fn declare_f(interp: &mut Interpreter) {
    let body = BlockExpression::new(vec![Statement::Return(ident("a"))]);
    let f = FunctionStatement::new(
        ident_tok("f"),
        vec![
            Parameter::new(ident_tok("a"), false),
            Parameter::new(ident_tok("b"), false),
        ],
        Some(body),
    );
    interp
        .interpret(vec![Statement::Function(f)])
        .expect("declaration failed");
}

#[test]
fn call_with_too_few_arguments_names_the_missing_ones() {
    let mut interp = Interpreter::new();
    declare_f(&mut interp);
    let err = eval_in(&mut interp, call("f", vec![num_lit(1.0)])).expect_err("f(1) must fail");
    match err.kind {
        ErrorKind::ArityTooFew { expected, got, missing } => {
            assert_eq!(expected, 2);
            assert_eq!(got, 1);
            assert_eq!(missing, vec!["b".to_string()]);
        }
        _ => panic!("expected an arity error"),
    }
}

#[test]
fn call_with_too_many_arguments_reports_counts() {
    let mut interp = Interpreter::new();
    declare_f(&mut interp);
    let err = eval_in(
        &mut interp,
        call("f", vec![num_lit(1.0), num_lit(2.0), num_lit(3.0)]),
    )
    .expect_err("f(1,2,3) must fail");
    match err.kind {
        ErrorKind::ArityTooMany { expected, got } => {
            assert_eq!(expected, 2);
            assert_eq!(got, 3);
        }
        _ => panic!("expected an arity error"),
    }
}

#[test]
fn call_with_matching_arity_binds_parameters() {
    let mut interp = Interpreter::new();
    declare_f(&mut interp);
    assert_eq!(
        expect_number(eval_in(&mut interp, call("f", vec![num_lit(7.0), num_lit(8.0)]))),
        7.0
    );
}

#[test]
fn return_short_circuits_nested_blocks() {
    let mut interp = Interpreter::new();
    let body = BlockExpression::new(vec![
        Statement::Expression(Expression::If(IfExpression::new(
            bool_lit(true),
            BlockExpression::new(vec![Statement::Return(num_lit(1.0))]),
            None,
        ))),
        Statement::Return(num_lit(2.0)),
    ]);
    let f = FunctionStatement::new(ident_tok("f"), vec![], Some(body));
    interp
        .interpret(vec![Statement::Function(f)])
        .expect("declaration failed");
    assert_eq!(expect_number(eval_in(&mut interp, call("f", vec![]))), 1.0);
}

#[test]
fn runaway_recursion_hits_the_depth_limit() {
    let mut interp = Interpreter::new();
    let body = BlockExpression::new(vec![Statement::Return(call("f", vec![]))]);
    let f = FunctionStatement::new(ident_tok("f"), vec![], Some(body));
    interp
        .interpret(vec![Statement::Function(f)])
        .expect("declaration failed");
    let err = eval_in(&mut interp, call("f", vec![])).expect_err("must exhaust the depth budget");
    assert!(matches!(err.kind, ErrorKind::DepthExceeded));
}

#[test]
fn if_is_an_expression_with_else_chains() {
    let chain = Expression::If(IfExpression::new(
        bool_lit(false),
        BlockExpression::new(vec![Statement::Expression(num_lit(1.0))]),
        Some(ElseBlock::If(IfExpression::new(
            bool_lit(true),
            BlockExpression::new(vec![Statement::Expression(num_lit(2.0))]),
            None,
        ))),
    ));
    assert_eq!(expect_number(eval(chain)), 2.0);
    let bare = Expression::If(IfExpression::new(
        bool_lit(false),
        BlockExpression::new(vec![Statement::Expression(num_lit(1.0))]),
        None,
    ));
    assert!(matches!(eval(bare).unwrap(), Object::Nil));
}

#[test]
fn array_literal_resolves_identifiers_and_skips_other_tokens() {
    let mut interp = Interpreter::new();
    interp
        .interpret(vec![Statement::Let(LetStatement::new(ident_tok("x"), num_lit(9.0)))])
        .expect("let failed");
    let arr = Expression::Array(ArrayExpression::new(vec![
        num_tok(1.0),
        ident_tok("x"),
        op_tok(TokenType::Plus, "+"),
    ]));
    let got = eval_in(&mut interp, arr).unwrap();
    let want = eval(num_array(&[1.0, 9.0])).unwrap();
    assert!(object_equals(&got, &want), "got {}", text_of(&got));
}

#[test]
fn call_of_unknown_function_is_undefined() {
    let err = eval(call("mystery", vec![])).expect_err("unknown function must fail");
    assert!(matches!(err.kind, ErrorKind::UndefinedIdentifier(name) if name == "mystery"));
}

#[test]
fn unknown_operator_token_is_rejected() {
    let e = eval(binary(num_lit(1.0), TokenType::Identifier, "plus", num_lit(2.0)));
    let err = e.expect_err("a non-operator token must fail");
    assert!(matches!(err.kind, ErrorKind::UnknownOperator(lex) if lex == "plus"));
}

#[test]
fn group_passes_its_child_through() {
    let g = Expression::Group(GroupExpression::new(binary(
        num_lit(2.0),
        TokenType::Star,
        "*",
        num_lit(3.0),
    )));
    assert_eq!(expect_number(eval(g)), 6.0);
}

#[test]
fn a_block_with_return_yields_a_returned_outcome() {
    let mut interp = Interpreter::new();
    let block = Expression::Block(BlockExpression::new(vec![
        Statement::Return(num_lit(4.0)),
        Statement::Expression(num_lit(9.0)),
    ]));
    let out = interp
        .evaluate_expression(&block, CALL_DEPTH_LIMIT)
        .expect("block failed");
    assert!(out.is_returned());
    assert_eq!(expect_number(Ok(out.into_value())), 4.0);
}

#[test]
fn pop_leaves_the_binding_unchanged() {
    let mut interp = Interpreter::new();
    let program = vec![
        Statement::Let(LetStatement::new(
            ident_tok("a"),
            Expression::Array(ArrayExpression::new(vec![num_tok(1.0)])),
        )),
        Statement::Expression(call("pop", vec![ident("a")])),
    ];
    interp.interpret(program).expect("program failed");
    let a = eval_in(&mut interp, ident("a")).unwrap();
    let want = eval(num_array(&[1.0])).unwrap();
    assert!(object_equals(&a, &want), "a changed: {}", text_of(&a));
}

#[test]
fn let_shadows_within_its_own_scope() {
    let mut interp = Interpreter::new();
    let program = vec![
        Statement::Let(LetStatement::new(ident_tok("x"), num_lit(1.0))),
        Statement::Let(LetStatement::new(ident_tok("x"), num_lit(5.0))),
    ];
    interp.interpret(program).expect("program failed");
    assert_eq!(expect_number(eval_in(&mut interp, ident("x"))), 5.0);
}

#[test]
fn bodiless_function_with_unknown_name_is_no_builtin() {
    let mut interp = Interpreter::new();
    let stub = FunctionStatement::new(ident_tok("weird"), vec![], None);
    interp
        .interpret(vec![Statement::Function(stub)])
        .expect("declaration failed");
    let err = eval_in(&mut interp, call("weird", vec![])).expect_err("must fail");
    assert!(matches!(err.kind, ErrorKind::UnknownBuiltin(name) if name == "weird"));
}

#[test]
fn builtin_shadowed_with_wrong_parameter_count_is_rejected() {
    let mut interp = Interpreter::new();
    let stub = FunctionStatement::new(ident_tok("len"), vec![], None);
    interp
        .interpret(vec![Statement::Function(stub)])
        .expect("declaration failed");
    let err = eval_in(&mut interp, call("len", vec![])).expect_err("must fail");
    assert!(matches!(err.kind, ErrorKind::UnsupportedArgument(_)));
}
