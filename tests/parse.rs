use javelin::expr;
use javelin::expr::{array_access, atom, parenthesized, precedence_9};
use javelin::id_gen::IdGen;
use javelin::statement;
use javelin::statement::{class, for_loop};
use javelin::token::{Kw, Span, Token, TokenKind};
use javelin::tree::{Block, Class, ClassType, Expr, Nodes, Param, StandaloneVariableDeclarator, Statement, Type, VariableDeclarator};

fn keyword(word: &str) -> Option<Kw> {
    let k = match word {
        "true" => Kw::True,
        "false" => Kw::False,
        "null" => Kw::Null,
        "new" => Kw::New,
        "this" => Kw::This,
        "super" => Kw::Super,
        "instanceof" => Kw::Instanceof,
        "for" => Kw::For,
        "return" => Kw::Return,
        "class" => Kw::Class,
        "extends" => Kw::Extends,
        "implements" => Kw::Implements,
        "public" => Kw::Public,
        "private" => Kw::Private,
        "protected" => Kw::Protected,
        "static" => Kw::Static,
        "final" => Kw::Final,
        "abstract" => Kw::Abstract,
        "strictfp" => Kw::Strictfp,
        "boolean" => Kw::Boolean,
        "byte" => Kw::Byte,
        "short" => Kw::Short,
        "char" => Kw::Char,
        "int" => Kw::Int,
        "long" => Kw::Long,
        "void" => Kw::Void,
        _ => return None,
    };
    Some(k)
}

/// A small lexer for the tests: words, numbers, quoted strings and
/// characters, and single-character symbols, with 1-based lines and columns.
fn code(source: &str) -> Vec<Token> {
    let mut tokens = vec![];
    for (l, line) in source.trim().lines().enumerate() {
        let chars: Vec<char> = line.chars().collect();
        let mut i = 0;
        while i < chars.len() {
            let c = chars[i];
            let span = Span { line: l + 1, col: i + 1 };
            if c.is_whitespace() {
                i += 1;
            } else if c.is_alphabetic() || c == '_' {
                let start = i;
                while i < chars.len() && (chars[i].is_alphanumeric() || chars[i] == '_') {
                    i += 1;
                }
                let word: String = chars[start..i].iter().collect();
                let kind = match keyword(&word) {
                    Some(k) => TokenKind::Keyword(k),
                    None => TokenKind::Identifier,
                };
                tokens.push(Token { kind, span });
            } else if c.is_ascii_digit() {
                while i < chars.len() && chars[i].is_ascii_digit() {
                    i += 1;
                }
                tokens.push(Token { kind: TokenKind::Int, span });
            } else if c == '"' || c == '\'' {
                i += 1;
                while i < chars.len() && chars[i] != c {
                    i += 1;
                }
                i += 1;
                let kind = if c == '"' { TokenKind::Str } else { TokenKind::Char };
                tokens.push(Token { kind, span });
            } else {
                tokens.push(Token { kind: TokenKind::Symbol(c), span });
                i += 1;
            }
        }
    }
    tokens
}

fn span(line: usize, col: usize) -> Span {
    Span { line, col }
}

fn list<T>(items: Vec<T>) -> Nodes<T> {
    let mut out = Nodes::Nil;
    for item in items.into_iter().rev() {
        out = Nodes::Cons(Box::new(item), Box::new(out));
    }
    out
}

fn name(line: usize, col: usize) -> Expr {
    Expr::Name(span(line, col))
}

fn int_at(line: usize, col: usize) -> Expr {
    Expr::Int(span(line, col))
}

fn post_inc(line: usize, col: usize) -> Expr {
    Expr::UnaryOperation { expr: Box::new(name(line, col)), operator: span(line, col + 1), is_post: true }
}

fn class_type(line: usize, col: usize) -> Type {
    Type::Class(ClassType { name: span(line, col), type_args_opt: None })
}

#[test]
fn test_foreach() {
    let tokens = code(
        r#"
for(int a:list) a++;
            "#,
    );
    assert_eq!(
        for_loop::parse(&tokens, 0, &mut IdGen::new()),
        Ok((
            tokens.len(),
            Statement::Foreach {
                declarator: StandaloneVariableDeclarator { tpe: Type::Primitive(span(1, 5)), name: span(1, 9) },
                expr: name(1, 11),
                block: Block { stmts: list(vec![Statement::Expr(post_inc(1, 17))]) },
            }
        ))
    );
}

#[test]
fn test_short() {
    let tokens = code(
        r#"
for(int i=0;i<2;i++) x++;
            "#,
    );
    assert_eq!(
        for_loop::parse(&tokens, 0, &mut IdGen::new()),
        Ok((
            tokens.len(),
            Statement::ForLoop {
                inits: list(vec![Statement::VariableDeclarators {
                    tpe: Type::Primitive(span(1, 5)),
                    declarators: list(vec![VariableDeclarator { name: span(1, 9), expr_opt: Some(int_at(1, 11)) }]),
                }]),
                cond_opt: Some(Expr::BinaryOperation {
                    left: Box::new(name(1, 13)),
                    operator: span(1, 14),
                    right: Box::new(int_at(1, 15)),
                }),
                updates: list(vec![Statement::Expr(post_inc(1, 17))]),
                block: Block { stmts: list(vec![Statement::Expr(post_inc(1, 22))]) },
            }
        ))
    );
}

#[test]
fn test_long() {
    let tokens = code(
        r#"
for(;;) {
  x = 1;
  return;
}
            "#,
    );
    assert_eq!(
        for_loop::parse(&tokens, 0, &mut IdGen::new()),
        Ok((
            tokens.len(),
            Statement::ForLoop {
                inits: Nodes::Nil,
                cond_opt: None,
                updates: Nodes::Nil,
                block: Block {
                    stmts: list(vec![
                        Statement::Expr(Expr::Assignment {
                            assigned: Box::new(name(2, 3)),
                            operator: span(2, 5),
                            expr: Box::new(int_at(2, 7)),
                        }),
                        Statement::Return(None),
                    ])
                },
            }
        ))
    );
}

#[test]
fn index_suffixes_nest_to_the_left() {
    let tokens = code("abc[1][2]");
    let expected = Expr::ArrayAccess {
        expr: Box::new(Expr::ArrayAccess { expr: Box::new(name(1, 1)), index: Box::new(int_at(1, 5)) }),
        index: Box::new(int_at(1, 8)),
    };
    assert_eq!(atom::parse(&tokens, 0, &mut IdGen::new()), Ok((tokens.len(), expected)));
}

#[test]
fn index_tail_without_suffix_keeps_the_expression() {
    let tokens = code("a + 1");
    assert_eq!(array_access::parse_tail(&tokens, 1, name(1, 1), &mut IdGen::new()), Ok((1, name(1, 1))));
    assert_eq!(array_access::parse_index(&tokens, 1, &mut IdGen::new()), Err(1));
    let tokens = code("[x]");
    assert_eq!(array_access::parse_index(&tokens, 0, &mut IdGen::new()), Ok((3, name(1, 2))));
}

#[test]
fn parentheses_are_transparent() {
    let tokens = code("(123)");
    assert_eq!(parenthesized::parse(&tokens, 0, &mut IdGen::new()), Ok((3, int_at(1, 2))));
    let tokens = code("(((123)))");
    assert_eq!(parenthesized::parse(&tokens, 0, &mut IdGen::new()), Ok((7, int_at(1, 4))));
    assert_eq!(atom::parse(&tokens, 0, &mut IdGen::new()), Ok((7, int_at(1, 4))));
    let tokens = code("(a)[0]");
    let expected = Expr::ArrayAccess { expr: Box::new(name(1, 2)), index: Box::new(int_at(1, 5)) };
    assert_eq!(atom::parse(&tokens, 0, &mut IdGen::new()), Ok((tokens.len(), expected)));
}

#[test]
fn test_instanceof() {
    let tokens = code("(a instanceof Class)");
    let expected = Expr::InstanceOf { expr: Box::new(name(1, 2)), operator: span(1, 4), tpe: class_type(1, 15) };
    assert_eq!(parenthesized::parse(&tokens, 0, &mut IdGen::new()), Ok((5, expected)));
    let tokens = code("a instanceof Class");
    let expected = Expr::InstanceOf { expr: Box::new(name(1, 1)), operator: span(1, 3), tpe: class_type(1, 14) };
    assert_eq!(precedence_9::parse(&tokens, 0, &mut IdGen::new()), Ok((3, expected)));
}

#[test]
fn relational_tail_folds_to_the_left() {
    let tokens = code("a < b <= c");
    let expected = Expr::BinaryOperation {
        left: Box::new(Expr::BinaryOperation { left: Box::new(name(1, 1)), operator: span(1, 3), right: Box::new(name(1, 5)) }),
        operator: span(1, 7),
        right: Box::new(name(1, 10)),
    };
    assert_eq!(precedence_9::parse(&tokens, 0, &mut IdGen::new()), Ok((6, expected)));
    let tokens = code("a < b");
    let expected = Expr::BinaryOperation { left: Box::new(name(1, 1)), operator: span(1, 3), right: Box::new(name(1, 5)) };
    assert_eq!(precedence_9::parse_tail(name(1, 1), &tokens, 1, &mut IdGen::new()), Ok((3, expected)));
    assert_eq!(precedence_9::parse_tail(name(1, 1), &tokens, 3, &mut IdGen::new()), Ok((3, name(1, 1))));
}

#[test]
fn shift_is_not_read_as_less_than() {
    let tokens = code("a << b");
    let expected = Expr::BinaryOperation { left: Box::new(name(1, 1)), operator: span(1, 3), right: Box::new(name(1, 6)) };
    assert_eq!(expr::parse(&tokens, 0, &mut IdGen::new()), Ok((4, expected)));
    assert_eq!(precedence_9::op(&tokens, 1), Err(1));
}

#[test]
fn arithmetic_binds_tighter_than_comparison() {
    let tokens = code("a + b * c == d");
    let product = Expr::BinaryOperation { left: Box::new(name(1, 5)), operator: span(1, 7), right: Box::new(name(1, 9)) };
    let sum = Expr::BinaryOperation { left: Box::new(name(1, 1)), operator: span(1, 3), right: Box::new(product) };
    let expected = Expr::BinaryOperation { left: Box::new(sum), operator: span(1, 11), right: Box::new(name(1, 14)) };
    assert_eq!(expr::parse(&tokens, 0, &mut IdGen::new()), Ok((tokens.len(), expected)));
}

#[test]
fn lambda_forms() {
    let mut ids = IdGen::new();
    let tokens = code("x -> x");
    let expected = Expr::Lambda {
        id: 1,
        params: list(vec![Param { tpe_opt: None, name: span(1, 1) }]),
        body: Box::new(name(1, 6)),
    };
    assert_eq!(atom::parse(&tokens, 0, &mut ids), Ok((4, expected)));
    let tokens = code("(int a, b) -> 1");
    let expected = Expr::Lambda {
        id: 2,
        params: list(vec![
            Param { tpe_opt: Some(Type::Primitive(span(1, 2))), name: span(1, 6) },
            Param { tpe_opt: None, name: span(1, 9) },
        ]),
        body: Box::new(int_at(1, 15)),
    };
    assert_eq!(atom::parse_lambda_or_parenthesized(&tokens, 0, &mut ids), Ok((tokens.len(), expected)));
    let tokens = code("() -> 1");
    assert!(atom::is_lambda_head(&tokens, 0));
    let expected = Expr::Lambda { id: 3, params: Nodes::Nil, body: Box::new(int_at(1, 7)) };
    assert_eq!(atom::parse(&tokens, 0, &mut ids), Ok((5, expected)));
    assert_eq!(ids.uuid, 3);
    assert!(atom::is_lambda_head(&code("(List<T> a) -> a"), 0));
    assert!(!atom::is_lambda_head(&code("(a) + 1"), 0));
    assert!(!atom::is_lambda_head(&code("(1)"), 0));
}

#[test]
fn object_and_array_creation() {
    let tokens = code("new Foo(1, x)");
    let expected = Expr::NewObject {
        type_args_opt: None,
        tpe: ClassType { name: span(1, 5), type_args_opt: None },
        args: list(vec![int_at(1, 9), name(1, 12)]),
    };
    assert_eq!(atom::parse(&tokens, 0, &mut IdGen::new()), Ok((tokens.len(), expected)));
    let tokens = code("new int[3]");
    let expected = Expr::NewArray {
        tpe: Type::Primitive(span(1, 5)),
        sizes: list(vec![int_at(1, 9)]),
        initializer_opt: None,
    };
    assert_eq!(atom::parse_new_object_or_array(&tokens, 1, &mut IdGen::new()), Ok((tokens.len(), expected)));
    let tokens = code("new int(3)");
    assert_eq!(atom::parse(&tokens, 0, &mut IdGen::new()), Err(0));
}

#[test]
fn keywords_and_calls() {
    let tokens = code("f(true, null, this)");
    let expected = Expr::MethodCall {
        name: span(1, 1),
        args: list(vec![Expr::Boolean(span(1, 3)), Expr::Null(span(1, 9)), Expr::This(span(1, 15))]),
    };
    assert_eq!(atom::parse_prefix_keyword_or_identifier(&tokens, 0, &mut IdGen::new()), Ok((tokens.len(), expected)));
    let tokens = code("\"s\"");
    assert_eq!(atom::parse(&tokens, 0, &mut IdGen::new()), Ok((1, Expr::Str(span(1, 1)))));
}

#[test]
fn class_declaration() {
    let tokens = code("strictfp class Test {}");
    let expected = Statement::Class(Class { modifiers: list(vec![span(1, 1)]), name: span(1, 16), type_params: Nodes::Nil, extend_opt: None, implements: Nodes::Nil, body: Nodes::Nil });
    assert_eq!(class::parse(&tokens, 0, &mut IdGen::new()), Ok((tokens.len(), expected)));
    let tokens = code("class A extends B { int x = 1; class C {} }");
    let expected = Statement::Class(Class {
        modifiers: Nodes::Nil,
        name: span(1, 7),
        type_params: Nodes::Nil,
        extend_opt: Some(ClassType { name: span(1, 17), type_args_opt: None }),
        implements: Nodes::Nil,
        body: list(vec![
            Statement::VariableDeclarators {
                tpe: Type::Primitive(span(1, 21)),
                declarators: list(vec![VariableDeclarator { name: span(1, 25), expr_opt: Some(int_at(1, 29)) }]),
            },
            Statement::Class(Class { modifiers: Nodes::Nil, name: span(1, 38), type_params: Nodes::Nil, extend_opt: None, implements: Nodes::Nil, body: Nodes::Nil }),
        ]),
    });
    assert_eq!(class::parse(&tokens, 0, &mut IdGen::new()), Ok((tokens.len(), expected)));
}

#[test]
fn a_failed_for_restores_the_cursor() {
    let tokens = code("for(int i = 0; i < 2) x++;");
    assert_eq!(for_loop::parse(&tokens, 0, &mut IdGen::new()), Err(0));
    let tokens = code("x = ;");
    assert_eq!(statement::parse(&tokens, 0, &mut IdGen::new()), Err(0));
}

#[test]
fn parsing_consumes_exactly_one_statement() {
    let tokens = code("x = 1; y = 2;");
    let (end, _) = statement::parse(&tokens, 0, &mut IdGen::new()).unwrap();
    assert_eq!(end, 4);
    let (end, _) = statement::parse(&tokens, end, &mut IdGen::new()).unwrap();
    assert_eq!(end, tokens.len());
}

#[test]
fn reparsing_gives_the_same_tree() {
    let tokens = code("for (int a : xs) { f(a -> a[0]); }");
    let first = statement::parse(&tokens, 0, &mut IdGen::new());
    let second = statement::parse(&tokens, 0, &mut IdGen::new());
    assert!(first.is_ok());
    assert_eq!(first, second);
    let mut ids = IdGen::new();
    let _ = statement::parse(&tokens, 0, &mut ids);
    assert_eq!(ids.uuid, 1);
}

#[test]
fn class_with_type_parameters_and_interfaces() {
    let tokens = code("public class A<T, U> extends B<T> implements C, D {}");
    let expected = Statement::Class(Class {
        modifiers: list(vec![span(1, 1)]),
        name: span(1, 14),
        type_params: list(vec![span(1, 16), span(1, 19)]),
        extend_opt: Some(ClassType { name: span(1, 30), type_args_opt: Some(list(vec![class_type(1, 32)])) }),
        implements: list(vec![
            ClassType { name: span(1, 46), type_args_opt: None },
            ClassType { name: span(1, 49), type_args_opt: None },
        ]),
        body: Nodes::Nil,
    });
    assert_eq!(class::parse(&tokens, 0, &mut IdGen::new()), Ok((tokens.len(), expected)));
    let tokens = code("class A<T {}");
    assert_eq!(class::parse(&tokens, 0, &mut IdGen::new()), Err(0));
    let tokens = code("class A implements {}");
    assert_eq!(class::parse(&tokens, 0, &mut IdGen::new()), Err(0));
}

#[test]
fn array_initializer_and_constructor_call_atoms() {
    let tokens = code("{1, x}");
    let expected = Expr::ArrayInitializer { items: list(vec![int_at(1, 2), name(1, 5)]) };
    assert_eq!(atom::parse(&tokens, 0, &mut IdGen::new()), Ok((tokens.len(), expected)));
    let tokens = code("{}");
    assert_eq!(atom::parse_array_initializer(&tokens, 0, &mut IdGen::new()), Ok((2, Nodes::Nil)));
    let tokens = code("this(1)");
    let expected = Expr::ConstructorCall { name: span(1, 1), args: list(vec![int_at(1, 6)]) };
    assert_eq!(atom::parse(&tokens, 0, &mut IdGen::new()), Ok((tokens.len(), expected)));
    let tokens = code("super()");
    let expected = Expr::ConstructorCall { name: span(1, 1), args: Nodes::Nil };
    assert_eq!(atom::parse_constructor_call(&tokens, 0, &mut IdGen::new()), Ok((3, expected)));
    let tokens = code("this");
    assert_eq!(atom::parse_constructor_call(&tokens, 0, &mut IdGen::new()), Err(0));
    assert_eq!(atom::parse(&tokens, 0, &mut IdGen::new()), Ok((1, Expr::This(span(1, 1)))));
}

#[test]
fn an_exhausted_allocator_parses_no_lambda() {
    let tokens = code("x -> x");
    let mut ids = IdGen { uuid: u64::MAX };
    assert_eq!(atom::parse(&tokens, 0, &mut ids), Err(0));
    assert_eq!(ids.uuid, u64::MAX);
    let mut ids = IdGen { uuid: 41 };
    let expected = Expr::Lambda {
        id: 42,
        params: list(vec![Param { tpe_opt: None, name: span(1, 1) }]),
        body: Box::new(name(1, 6)),
    };
    assert_eq!(atom::parse(&tokens, 0, &mut ids), Ok((4, expected)));
}

#[test]
fn type_arguments_after_new_fix_object_creation() {
    let tokens = code("new <String>Foo()");
    let expected = Expr::NewObject {
        type_args_opt: Some(list(vec![class_type(1, 6)])),
        tpe: ClassType { name: span(1, 13), type_args_opt: None },
        args: Nodes::Nil,
    };
    assert_eq!(atom::parse(&tokens, 0, &mut IdGen::new()), Ok((tokens.len(), expected)));
    let tokens = code("new <String>Foo[1]");
    assert_eq!(atom::parse(&tokens, 0, &mut IdGen::new()), Err(0));
}

#[test]
fn array_creation_with_dimensions_and_initializer() {
    let tokens = code("new int[]{1, 2}");
    let expected = Expr::NewArray {
        tpe: Type::Array(Box::new(Type::Primitive(span(1, 5)))),
        sizes: Nodes::Nil,
        initializer_opt: Some(Box::new(Expr::ArrayInitializer { items: list(vec![int_at(1, 11), int_at(1, 14)]) })),
    };
    assert_eq!(atom::parse(&tokens, 0, &mut IdGen::new()), Ok((tokens.len(), expected)));
    let tokens = code("new int[2][3]");
    let expected = Expr::NewArray {
        tpe: Type::Primitive(span(1, 5)),
        sizes: list(vec![int_at(1, 9), int_at(1, 12)]),
        initializer_opt: None,
    };
    assert_eq!(atom::parse(&tokens, 0, &mut IdGen::new()), Ok((tokens.len(), expected)));
    let tokens = code("new Foo[2][]");
    let expected = Expr::NewArray {
        tpe: Type::Array(Box::new(class_type(1, 5))),
        sizes: list(vec![int_at(1, 9)]),
        initializer_opt: None,
    };
    assert_eq!(atom::parse(&tokens, 0, &mut IdGen::new()), Ok((tokens.len(), expected)));
    let tokens = code("new int[");
    assert_eq!(atom::parse(&tokens, 0, &mut IdGen::new()), Err(0));
}
