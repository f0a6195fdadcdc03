use alef_compiler::ast::Expr;
use alef_compiler::ast::JSXAttr;
use alef_compiler::ast::JSXAttrName;
use alef_compiler::ast::JSXAttrOrSpread;
use alef_compiler::ast::JSXAttrValue;
use alef_compiler::ast::JSXChild;
use alef_compiler::ast::JSXElement;
use alef_compiler::ast::JSXElementName;
use alef_compiler::ast::ObjProp;
use alef_compiler::ast::Pat;
use alef_compiler::ast::PropName;
use alef_compiler::ast::ArrowBody;
use alef_compiler::ast::ImportSpecifier;
use alef_compiler::ast::ModuleItem;
use alef_compiler::ast::Stmt;
use alef_compiler::ast::TplLit;
use alef_compiler::ast::TsType;
use alef_compiler::ast::VarDecl;
use alef_compiler::ast::VarDeclKind;
use alef_compiler::ast::VarDeclarator;
use alef_compiler::identmap::IdentMap;
use alef_compiler::jsx::JSXTransformer;
use alef_compiler::resolve::Resolver;
use alef_compiler::statement::ConstTypedKind;
use alef_compiler::statement::Diagnostic;
use alef_compiler::statement::Statement;
use alef_compiler::statement::TemplateStatement;
use alef_compiler::walker::fold_module_items;
use alef_compiler::walker::transform_stmt;
use alef_compiler::walker::ASTWalker;

fn ident_pat(name: &str, ann: Option<TsType>) -> Pat {
    Pat::Ident { name: name.to_owned(), type_ann: ann }
}

fn ty_ref(name: &str, args: Vec<TsType>) -> TsType {
    TsType::Ref { name: name.to_owned(), args }
}

fn const_decl(name: &str, ann: Option<TsType>, init: Expr) -> Stmt {
    Stmt::Decl(VarDecl {
        kind: VarDeclKind::Const,
        decls: vec![VarDeclarator { name: ident_pat(name, ann), init: Some(init) }],
    })
}

fn let_decl(name: &str, ann: Option<TsType>, init: Expr) -> Stmt {
    Stmt::Decl(VarDecl {
        kind: VarDeclKind::Let,
        decls: vec![VarDeclarator { name: ident_pat(name, ann), init: Some(init) }],
    })
}

fn classify(stmt: Stmt) -> Vec<Statement> {
    let mut scope = IdentMap::new();
    let mut diags: Vec<Diagnostic> = Vec::new();
    let out = transform_stmt(&stmt, &mut scope, &mut diags);
    assert!(diags.is_empty());
    out
}

fn const_typed_of(stmt: Stmt) -> ConstTypedKind {
    match &classify(stmt)[0] {
        Statement::Const { typed, .. } => *typed,
        other => panic!("expected a const statement, got {:?}", other),
    }
}

#[test]
fn test_const_prop_tagging() {
    // Prop<Slots> => PropWithSlots
    let slots = ty_ref("Prop", vec![ty_ref("Slots", vec![])]);
    assert_eq!(
        const_typed_of(const_decl("s", Some(slots), Expr::Num(1))),
        ConstTypedKind::PropWithSlots
    );
    // Prop<Other> => Prop
    let other = ty_ref("Prop", vec![ty_ref("Other", vec![])]);
    assert_eq!(const_typed_of(const_decl("p", Some(other), Expr::Num(1))), ConstTypedKind::Prop);
    // Prop => Prop
    assert_eq!(
        const_typed_of(const_decl("q", Some(ty_ref("Prop", vec![])), Expr::Num(1))),
        ConstTypedKind::Prop
    );
    // Context and Memo
    assert_eq!(
        const_typed_of(const_decl("c", Some(ty_ref("Context", vec![])), Expr::Num(1))),
        ConstTypedKind::Context
    );
    assert_eq!(
        const_typed_of(const_decl("m", Some(ty_ref("Memo", vec![])), Expr::Num(1))),
        ConstTypedKind::Memo
    );
    // no annotation => Regular
    assert_eq!(const_typed_of(const_decl("r", None, Expr::Num(1))), ConstTypedKind::Regular);
}

fn var_flags_of(stmt: Stmt) -> (bool, bool, bool) {
    match &classify(stmt)[0] {
        Statement::Var { is_array, is_ref, is_async, .. } => (*is_array, *is_ref, *is_async),
        other => panic!("expected a var statement, got {:?}", other),
    }
}

#[test]
fn test_var_flags() {
    let reff = ty_ref("Ref", vec![ty_ref("T", vec![])]);
    assert_eq!(var_flags_of(let_decl("a", Some(reff), Expr::Num(1))), (false, true, false));
    let arr = TsType::Array(Box::new(TsType::Other));
    assert_eq!(var_flags_of(let_decl("b", Some(arr), Expr::Num(1))), (true, false, false));
    assert_eq!(
        var_flags_of(let_decl("c", None, Expr::Await(Box::new(Expr::Num(1))))),
        (false, false, true)
    );
    assert_eq!(var_flags_of(let_decl("d", None, Expr::Num(1))), (false, false, false));
}

#[test]
fn test_unnamed_side_effect() {
    let stmt = Stmt::Labeled {
        label: "$".to_owned(),
        body: Box::new(Stmt::Expr(Expr::Ident("tick".to_owned()))),
    };
    let out = classify(stmt);
    assert_eq!(out.len(), 1);
    match &out[0] {
        Statement::SideEffect { name, stmt } => {
            assert_eq!(*name, None);
            assert_eq!(**stmt, Stmt::Expr(Expr::Ident("tick".to_owned())));
        },
        other => panic!("expected a side effect, got {:?}", other),
    }
}

#[test]
fn test_named_side_effect() {
    let stmt = Stmt::Labeled {
        label: "$_submit".to_owned(),
        body: Box::new(Stmt::Expr(Expr::Ident("go".to_owned()))),
    };
    let out = classify(stmt);
    match &out[0] {
        Statement::SideEffect { name, .. } => assert_eq!(name.as_deref(), Some("submit")),
        other => panic!("expected a side effect, got {:?}", other),
    }
}

fn attr(name: &str, value: Option<JSXAttrValue>) -> JSXAttrOrSpread {
    JSXAttrOrSpread::Attr(JSXAttr { name: JSXAttrName::Ident(name.to_owned()), value })
}

#[test]
fn test_spread_attr_merge_three_args() {
    // <div class="a" {...rest} id="b"/>
    let el = JSXElement {
        name: JSXElementName::Ident("div".to_owned()),
        attrs: vec![
            attr("class", Some(JSXAttrValue::Str("a".to_owned()))),
            JSXAttrOrSpread::Spread(Expr::Ident("rest".to_owned())),
            attr("id", Some(JSXAttrValue::Str("b".to_owned()))),
        ],
        children: vec![],
    };
    let t = JSXTransformer::new(IdentMap::new());
    let mut diags: Vec<Diagnostic> = Vec::new();
    let out = t.transform_element(&el, &mut diags);
    assert!(diags.is_empty());
    match out {
        Expr::Call { args, .. } => {
            // args: name, attrs
            assert_eq!(args.len(), 2);
            match &args[1] {
                Expr::Call { callee, args: merge_args } => {
                    assert_eq!(
                        **callee,
                        Expr::Member {
                            obj: Box::new(Expr::Ident("Object".to_owned())),
                            prop: "assign".to_owned(),
                        }
                    );
                    assert_eq!(merge_args.len(), 3);
                    assert_eq!(
                        merge_args[0],
                        Expr::Object(vec![ObjProp::KeyValue {
                            key: PropName::Ident("class".to_owned()),
                            value: Expr::Str("a".to_owned()),
                        }])
                    );
                    assert_eq!(merge_args[1], Expr::Ident("rest".to_owned()));
                    assert_eq!(
                        merge_args[2],
                        Expr::Object(vec![ObjProp::KeyValue {
                            key: PropName::Ident("id".to_owned()),
                            value: Expr::Str("b".to_owned()),
                        }])
                    );
                },
                other => panic!("expected a merge call, got {:?}", other),
            }
        },
        other => panic!("expected an Element call, got {:?}", other),
    }
}

#[test]
fn test_memo_wrapping_two_deps() {
    let mut scope = IdentMap::new();
    assert_eq!(scope.get_or_create("a"), 0);
    assert_eq!(scope.get_or_create("b"), 1);
    let t = JSXTransformer::new(scope);
    let mut diags: Vec<Diagnostic> = Vec::new();
    let e = Expr::Bin {
        op: "+".to_owned(),
        left: Box::new(Expr::Ident("a".to_owned())),
        right: Box::new(Expr::Ident("b".to_owned())),
    };
    let out = t.transform_expr(&e, false, &mut diags);
    let expected = Expr::Call {
        callee: Box::new(Expr::Ident("Memo".to_owned())),
        args: vec![
            Expr::Arrow {
                body: ArrowBody::Expr(Box::new(Expr::Bin {
                    op: "+".to_owned(),
                    left: Box::new(Expr::Ident("a".to_owned())),
                    right: Box::new(Expr::Ident("b".to_owned())),
                })),
                is_async: false,
            },
            Expr::Array(vec![Expr::Num(0), Expr::Num(1)]),
        ],
    };
    assert_eq!(out, expected);
}

#[test]
fn test_dirty_wrapping_event_context() {
    let mut scope = IdentMap::new();
    scope.get_or_create("count");
    let t = JSXTransformer::new(scope);
    let mut diags: Vec<Diagnostic> = Vec::new();
    let out = t.transform_expr(&Expr::Ident("count".to_owned()), true, &mut diags);
    let expected = Expr::Call {
        callee: Box::new(Expr::Ident("Dirty".to_owned())),
        args: vec![Expr::Ident("count".to_owned()), Expr::Array(vec![Expr::Num(0)])],
    };
    assert_eq!(out, expected);
}

#[test]
fn test_untracked_event_handler_passthrough() {
    // onClick={doThing} with doThing not scope-tracked: no wrapping.
    let el = JSXElement {
        name: JSXElementName::Ident("button".to_owned()),
        attrs: vec![attr(
            "onClick",
            Some(JSXAttrValue::Expr(Expr::Ident("doThing".to_owned()))),
        )],
        children: vec![],
    };
    let t = JSXTransformer::new(IdentMap::new());
    let mut diags: Vec<Diagnostic> = Vec::new();
    let out = t.transform_element(&el, &mut diags);
    match out {
        Expr::Call { args, .. } => {
            assert_eq!(
                args[1],
                Expr::Object(vec![ObjProp::KeyValue {
                    key: PropName::Ident("onClick".to_owned()),
                    value: Expr::Ident("doThing".to_owned()),
                }])
            );
        },
        other => panic!("expected an Element call, got {:?}", other),
    }
}

#[test]
fn test_plain_statements_pass_through() {
    // a plain expression statement is wrapped as Raw, unchanged
    let out = classify(Stmt::Expr(Expr::Ident("x".to_owned())));
    assert_eq!(out.len(), 1);
    match &out[0] {
        Statement::Raw { stmt } => assert_eq!(*stmt, Stmt::Expr(Expr::Ident("x".to_owned()))),
        other => panic!("expected a raw statement, got {:?}", other),
    }
    // an untyped const comes back as Const { Regular } with its parts
    let out = classify(const_decl("k", None, Expr::Num(7)));
    match &out[0] {
        Statement::Const { typed, name, expr } => {
            assert_eq!(*typed, ConstTypedKind::Regular);
            assert_eq!(*name, ident_pat("k", None));
            assert_eq!(*expr, Some(Expr::Num(7)));
        },
        other => panic!("expected a const statement, got {:?}", other),
    }
}

#[test]
fn test_template_statement() {
    let el = JSXElement {
        name: JSXElementName::Ident("div".to_owned()),
        attrs: vec![],
        children: vec![],
    };
    let stmt = Stmt::Labeled {
        label: "$t".to_owned(),
        body: Box::new(Stmt::Expr(Expr::JSXElement(Box::new(el)))),
    };
    let out = classify(stmt);
    match &out[0] {
        Statement::Template(TemplateStatement::Element(e)) => {
            assert_eq!(
                *e,
                Expr::Call {
                    callee: Box::new(Expr::Ident("Element".to_owned())),
                    args: vec![Expr::Str("div".to_owned()), Expr::Null],
                }
            );
        },
        other => panic!("expected a template statement, got {:?}", other),
    }
}

#[test]
fn test_style_statement() {
    let tpl = TplLit {
        quasis: vec!["h1 { color: red }".to_owned()],
        exprs: vec![],
        raws: vec![],
    };
    let stmt = Stmt::Labeled {
        label: "$style".to_owned(),
        body: Box::new(Stmt::Expr(Expr::TaggedTpl { tag: "css".to_owned(), tpl })),
    };
    let out = classify(stmt);
    match &out[0] {
        Statement::Style { css } => {
            assert_eq!(css.quasis, vec!["h1 { color: red }".to_owned()]);
            assert!(css.exprs.is_empty());
        },
        other => panic!("expected a style statement, got {:?}", other),
    }
}

#[test]
fn test_nested_function_component_fresh_scope() {
    // const Inner: FC = () => { $t: <div/>; }  -- the nested template
    // cannot see outer tracked identifiers
    let inner_template = Stmt::Labeled {
        label: "$t".to_owned(),
        body: Box::new(Stmt::Expr(Expr::JSXElement(Box::new(JSXElement {
            name: JSXElementName::Ident("div".to_owned()),
            attrs: vec![],
            children: vec![JSXChild::Expr(Expr::Ident("outer".to_owned()))],
        })))),
    };
    let fc = const_decl(
        "Inner",
        Some(ty_ref("FC", vec![])),
        Expr::Arrow { body: ArrowBody::Block(vec![inner_template]), is_async: false },
    );
    let mut scope = IdentMap::new();
    scope.get_or_create("outer");
    let mut diags: Vec<Diagnostic> = Vec::new();
    let out = transform_stmt(&fc, &mut scope, &mut diags);
    match &out[0] {
        Statement::FunctionComponent { statements } => match &statements[0] {
            Statement::Template(TemplateStatement::Element(e)) => {
                // the child expression stays unwrapped: `outer` is not
                // tracked inside the nested scope
                assert_eq!(
                    *e,
                    Expr::Call {
                        callee: Box::new(Expr::Ident("Element".to_owned())),
                        args: vec![
                            Expr::Str("div".to_owned()),
                            Expr::Null,
                            Expr::Ident("outer".to_owned()),
                        ],
                    }
                );
            },
            other => panic!("expected a template, got {:?}", other),
        },
        other => panic!("expected a function component, got {:?}", other),
    }
}

#[test]
fn test_template_interpolation_is_tracked() {
    // a tracked identifier inside `${...}` counts as a dependency
    let mut scope = IdentMap::new();
    scope.get_or_create("count");
    let t = JSXTransformer::new(scope);
    let mut diags: Vec<Diagnostic> = Vec::new();
    let e = Expr::Tpl(TplLit {
        quasis: vec!["n = ".to_owned(), "".to_owned()],
        exprs: vec![Expr::Ident("count".to_owned())],
        raws: vec!["count".to_owned()],
    });
    let out = t.transform_expr(&e, false, &mut diags);
    match out {
        Expr::Call { callee, args } => {
            assert_eq!(*callee, Expr::Ident("Memo".to_owned()));
            assert_eq!(args[1], Expr::Array(vec![Expr::Num(0)]));
        },
        other => panic!("expected a Memo call, got {:?}", other),
    }
}

#[test]
fn test_diagnostics_for_unsupported_constructs() {
    // namespaced element name, and a spread child
    let el = JSXElement {
        name: JSXElementName::Namespaced { ns: "svg".to_owned(), name: "rect".to_owned() },
        attrs: vec![],
        children: vec![JSXChild::Spread(Expr::Ident("xs".to_owned()))],
    };
    let t = JSXTransformer::new(IdentMap::new());
    let mut diags: Vec<Diagnostic> = Vec::new();
    let out = t.transform_element(&el, &mut diags);
    assert_eq!(
        diags,
        vec![
            Diagnostic::UnsupportedNamespacedName {
                ns: "svg".to_owned(),
                name: "rect".to_owned(),
            },
            Diagnostic::UnsupportedSpreadChild,
        ]
    );
    match out {
        Expr::Call { args, .. } => {
            assert_eq!(args[0], Expr::Invalid);
            assert_eq!(args[2], Expr::Invalid);
        },
        other => panic!("expected an Element call, got {:?}", other),
    }
}

#[test]
fn test_fold_module_items() {
    let items = vec![
        ModuleItem::Import {
            specifiers: vec![ImportSpecifier::Default("Foo".to_owned())],
            src: "./Foo.alef".to_owned(),
        },
        ModuleItem::Stmt(Stmt::Expr(Expr::Ident("x".to_owned()))),
        ModuleItem::ExportDefault(Expr::Ident("component".to_owned())),
    ];
    let mut resolver = Resolver::new("./App.alef", "alef-dom");
    let mut walker = ASTWalker::new();
    let ast = walker.fold_module_items(&items, &mut resolver);
    assert!(walker.diagnostics.is_empty());
    assert_eq!(ast.statements.len(), 3);
    match &ast.statements[0] {
        Statement::Import { src, is_alef_component, specifiers } => {
            assert_eq!(src, "./Foo.alef");
            assert!(*is_alef_component);
            assert_eq!(*specifiers, vec![ImportSpecifier::Default("Foo".to_owned())]);
        },
        other => panic!("expected an import statement, got {:?}", other),
    }
    assert!(matches!(&ast.statements[1], Statement::Raw { .. }));
    match &ast.statements[2] {
        Statement::Export { expr } => {
            assert_eq!(*expr, Expr::Ident("component".to_owned()));
        },
        other => panic!("expected an export statement, got {:?}", other),
    }
    assert_eq!(resolver.dep_graph.len(), 1);
    assert_eq!(resolver.dep_graph[0].specifier, "./Foo.alef");
    assert!(!resolver.dep_graph[0].is_dynamic);
}
