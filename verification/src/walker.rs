//! The statement classifier and the module assembler.
//!
//! The classifier turns one generic statement into zero or more typed
//! [`Statement`] values: const declarations are tagged from their type
//! annotation, `FC`-typed function literals recurse with a fresh nested
//! scope, non-const declarations carry their reactive flags, and
//! labeled statements dispatch on the label text (`$`, `$t`, `$style`,
//! `$_name`). The assembler walks the top-level items once, records one
//! dependency descriptor per import, and hands every plain statement to
//! the classifier in order.

use vstd::prelude::*;

use crate::ast::clone_expr;
use crate::ast::clone_import_specifiers;
use crate::ast::clone_opt_expr;
use crate::ast::clone_pat;
use crate::ast::clone_stmt;
use crate::ast::clone_strings;
use crate::ast::declarator_view;
use crate::ast::declarators_view;
use crate::ast::import_specifiers_view;
use crate::ast::lemma_declarators_view;
use crate::ast::lemma_module_items_view;
use crate::ast::lemma_stmts_view;
use crate::ast::lemma_ts_types_view;
use crate::ast::module_items_view;
use crate::ast::stmts_view;
use crate::ast::ts_type_view;
use crate::ast::ArrowBody;
use crate::ast::Expr;
use crate::ast::ModuleItem;
use crate::ast::Pat;
use crate::ast::SpecArrowBody;
use crate::ast::SpecExpr;
use crate::ast::SpecModuleItem;
use crate::ast::SpecPat;
use crate::ast::SpecStmt;
use crate::ast::SpecTsType;
use crate::ast::SpecVarDeclarator;
use crate::ast::Stmt;
use crate::ast::TsType;
use crate::ast::VarDeclKind;
use crate::ast::VarDeclarator;
use crate::identmap::register_name;
use crate::identmap::IdentMap;
use crate::jsx::lower_element;
use crate::jsx::lower_element_exec;
use crate::jsx::lower_fragment;
use crate::jsx::lower_fragment_exec;
use crate::jsx::ScopeNames;
use crate::resolve::descriptors_view;
use crate::resolve::dot_alef;
use crate::resolve::CSSTemplate;
use crate::resolve::DependencyDescriptor;
use crate::resolve::Resolver;
use crate::resolve::SpecCSSTemplate;
use crate::resolve::SpecDependencyDescriptor;
use crate::statement::diagnostics_view;
use crate::statement::lemma_statements_view;
use crate::statement::lemma_statements_view_concat;
use crate::statement::statement_view;
use crate::statement::statements_view;
use crate::statement::ConstTypedKind;
use crate::statement::Diagnostic;
use crate::statement::SpecDiagnostic;
use crate::statement::SpecStatement;
use crate::statement::SpecTemplateStatement;
use crate::statement::Statement;
use crate::statement::TemplateStatement;
use crate::statement::AST;
use crate::text::str_eq;

verus! {

// ---------------------------------------------------------------------
// reading annotations
// ---------------------------------------------------------------------
/// The type annotation a binding pattern carries, if any.
pub open spec fn pat_type_ann(p: SpecPat) -> Option<SpecTsType> {
    match p {
        SpecPat::Ident { type_ann, .. } => type_ann,
        SpecPat::Array { type_ann } => type_ann,
        SpecPat::Object { type_ann } => type_ann,
    }
}

/// The tag a const binding gets: `Prop` (and `PropWithSlots` when its
/// single generic argument is the bare reference `Slots`), `Context`,
/// `Memo`, or `Regular` for anything else.
pub open spec fn spec_const_typed(p: SpecPat) -> ConstTypedKind {
    match pat_type_ann(p) {
        Some(SpecTsType::Ref { name, args }) => if name == "Prop"@ {
            if args.len() == 1 && (args[0] matches SpecTsType::Ref { name: arg_name, args: arg_args }
                && arg_name == "Slots"@ && arg_args.len() == 0) {
                ConstTypedKind::PropWithSlots
            } else {
                ConstTypedKind::Prop
            }
        } else if name == "Context"@ {
            ConstTypedKind::Context
        } else if name == "Memo"@ {
            ConstTypedKind::Memo
        } else {
            ConstTypedKind::Regular
        },
        _ => ConstTypedKind::Regular,
    }
}

/// Does this const declarator stand for a nested function component:
/// an `FC`-typed binding whose initializer is an arrow literal or a
/// non-generator function literal with a body?
pub open spec fn spec_is_fc(d: SpecVarDeclarator) -> bool {
    &&& pat_type_ann(d.name) matches Some(SpecTsType::Ref { name, .. }) && name == "FC"@
    &&& match d.init {
        Some(SpecExpr::Arrow { .. }) => true,
        Some(SpecExpr::Fn { body, is_generator }) => body is Some && !is_generator,
        _ => false,
    }
}

/// Only `Prop`, `PropWithSlots` and `Memo` bindings become trackable
/// scope identifiers.
pub open spec fn spec_tracks(k: ConstTypedKind) -> bool {
    k == ConstTypedKind::Prop || k == ConstTypedKind::PropWithSlots || k == ConstTypedKind::Memo
}

/// The scope after a const declarator: a trackable identifier binding
/// registers its name; everything else leaves the scope alone.
pub open spec fn spec_register_const(p: SpecPat, k: ConstTypedKind, scope: ScopeNames)
    -> ScopeNames {
    if spec_tracks(k) && (p matches SpecPat::Ident { .. }) {
        register_name(scope, p->Ident_name)
    } else {
        scope
    }
}

/// The reactive flags of a non-const declarator: `(is_array, is_ref)`
/// from the annotation alone.
pub open spec fn spec_var_flags(p: SpecPat) -> (bool, bool) {
    match pat_type_ann(p) {
        Some(SpecTsType::Array(_)) => (true, false),
        Some(SpecTsType::Ref { name, .. }) => (false, name == "Ref"@),
        _ => (false, false),
    }
}

/// `is_async` holds exactly when the initializer is an await
/// expression, independent of any annotation.
pub open spec fn spec_is_async_init(init: Option<SpecExpr>) -> bool {
    init matches Some(SpecExpr::Await(_))
}

// ---------------------------------------------------------------------
// the classifier
// ---------------------------------------------------------------------
/// One const declarator: a nested function component (classified with
/// a fresh, empty scope), or a tagged `Const` that may register its
/// name.
pub open spec fn spec_classify_const_decl(d: SpecVarDeclarator, scope: ScopeNames) -> (
    SpecStatement,
    ScopeNames,
    Seq<SpecDiagnostic>,
)
    decreases d, 1int,
{
    if spec_is_fc(d) {
        match d.init {
            Some(SpecExpr::Arrow { body: SpecArrowBody::Block(b), .. }) => {
                let r = spec_transform_stmts(b, Seq::empty());
                (SpecStatement::FunctionComponent { statements: r.0 }, scope, r.2)
            },
            Some(SpecExpr::Arrow { body: SpecArrowBody::Expr(e), .. }) => (
                SpecStatement::FunctionComponent {
                    statements: seq![SpecStatement::Raw { stmt: SpecStmt::Expr(*e) }],
                },
                scope,
                Seq::empty(),
            ),
            Some(SpecExpr::Fn { body: Some(b), .. }) => {
                let r = spec_transform_stmts(b, Seq::empty());
                (SpecStatement::FunctionComponent { statements: r.0 }, scope, r.2)
            },
            _ => (
                SpecStatement::Const {
                    typed: spec_const_typed(d.name),
                    name: d.name,
                    expr: d.init,
                },
                spec_register_const(d.name, spec_const_typed(d.name), scope),
                Seq::empty(),
            ),
        }
    } else {
        let k = spec_const_typed(d.name);
        (
            SpecStatement::Const { typed: k, name: d.name, expr: d.init },
            spec_register_const(d.name, k, scope),
            Seq::empty(),
        )
    }
}

pub open spec fn spec_classify_const_decls(ds: Seq<SpecVarDeclarator>, scope: ScopeNames) -> (
    Seq<SpecStatement>,
    ScopeNames,
    Seq<SpecDiagnostic>,
)
    decreases ds, 2int,
{
    if ds.len() == 0 {
        (Seq::empty(), scope, Seq::empty())
    } else {
        let h = spec_classify_const_decl(ds[0], scope);
        let t = spec_classify_const_decls(ds.drop_first(), h.1);
        (seq![h.0] + t.0, t.1, h.2 + t.2)
    }
}

/// One non-const declarator: a `Var` statement with its three flags.
pub open spec fn spec_classify_var_decl(d: SpecVarDeclarator) -> SpecStatement {
    SpecStatement::Var {
        name: d.name,
        expr: d.init,
        is_array: spec_var_flags(d.name).0,
        is_ref: spec_var_flags(d.name).1,
        is_async: spec_is_async_init(d.init),
    }
}

pub open spec fn spec_classify_var_decls(ds: Seq<SpecVarDeclarator>) -> Seq<SpecStatement>
    decreases ds,
{
    if ds.len() == 0 {
        Seq::empty()
    } else {
        seq![spec_classify_var_decl(ds[0])] + spec_classify_var_decls(ds.drop_first())
    }
}

/// The statement classifier of one generic statement, spec side:
/// what comes out, the scope afterwards, and the diagnostics raised
/// while lowering a render template.
pub open spec fn spec_transform_stmt(s: SpecStmt, scope: ScopeNames) -> (
    Seq<SpecStatement>,
    ScopeNames,
    Seq<SpecDiagnostic>,
)
    decreases s, 3int,
{
    match s {
        SpecStmt::Decl(d) => if d.kind == VarDeclKind::Const {
            spec_classify_const_decls(d.decls, scope)
        } else {
            (spec_classify_var_decls(d.decls), scope, Seq::empty())
        },
        SpecStmt::Labeled { label, body } => if label == "$"@ {
            (
                seq![SpecStatement::SideEffect { name: None, stmt: body }],
                scope,
                Seq::empty(),
            )
        } else if label == "$t"@ {
            match *body {
                SpecStmt::Expr(SpecExpr::JSXElement(el)) => {
                    let r = lower_element(*el, scope);
                    (
                        seq![SpecStatement::Template(SpecTemplateStatement::Element(r.0))],
                        scope,
                        r.1,
                    )
                },
                SpecStmt::Expr(SpecExpr::JSXFragment(f)) => {
                    let r = lower_fragment(f, scope);
                    (
                        seq![SpecStatement::Template(SpecTemplateStatement::Fragment(r.0))],
                        scope,
                        r.1,
                    )
                },
                _ => (seq![SpecStatement::Raw { stmt: s }], scope, Seq::empty()),
            }
        } else if label == "$style"@ {
            match *body {
                SpecStmt::Expr(SpecExpr::TaggedTpl { tag: _, tpl }) => (
                    seq![
                        SpecStatement::Style {
                            css: SpecCSSTemplate { quasis: tpl.quasis, exprs: tpl.raws },
                        },
                    ],
                    scope,
                    Seq::empty(),
                ),
                _ => (seq![SpecStatement::Raw { stmt: s }], scope, Seq::empty()),
            }
        } else if label.len() >= 2 && label[0] == '$' && label[1] == '_' {
            (
                seq![
                    SpecStatement::SideEffect { name: Some(label.skip(2)), stmt: body },
                ],
                scope,
                Seq::empty(),
            )
        } else {
            (seq![SpecStatement::Raw { stmt: s }], scope, Seq::empty())
        },
        _ => (seq![SpecStatement::Raw { stmt: s }], scope, Seq::empty()),
    }
}

pub open spec fn spec_transform_stmts(ss: Seq<SpecStmt>, scope: ScopeNames) -> (
    Seq<SpecStatement>,
    ScopeNames,
    Seq<SpecDiagnostic>,
)
    decreases ss, 4int,
{
    if ss.len() == 0 {
        (Seq::empty(), scope, Seq::empty())
    } else {
        let h = spec_transform_stmt(ss[0], scope);
        let t = spec_transform_stmts(ss.drop_first(), h.1);
        (h.0 + t.0, t.1, h.2 + t.2)
    }
}

// ---------------------------------------------------------------------
// the assembler
// ---------------------------------------------------------------------
/// Does the specifier name another component file, by suffix match?
pub open spec fn spec_is_alef_specifier(s: Seq<char>) -> bool {
    s.len() >= 5 && s.skip(s.len() - 5) == dot_alef()
}

/// The whole unit: imports become `Import` statements, the default
/// export becomes the `Export` statement, other module declarations
/// are consumed without output, and every plain statement goes through
/// the classifier, threading one scope left to right.
pub open spec fn spec_fold_module_items(items: Seq<SpecModuleItem>, scope: ScopeNames) -> (
    Seq<SpecStatement>,
    ScopeNames,
    Seq<SpecDiagnostic>,
)
    decreases items,
{
    if items.len() == 0 {
        (Seq::empty(), scope, Seq::empty())
    } else {
        let h = match items[0] {
            SpecModuleItem::Import { specifiers, src } => (
                seq![
                    SpecStatement::Import {
                        specifiers,
                        src,
                        is_alef_component: spec_is_alef_specifier(src),
                    },
                ],
                scope,
                Seq::<SpecDiagnostic>::empty(),
            ),
            SpecModuleItem::ExportDefault(e) => (
                seq![SpecStatement::Export { expr: e }],
                scope,
                Seq::<SpecDiagnostic>::empty(),
            ),
            SpecModuleItem::OtherModuleDecl => (
                Seq::<SpecStatement>::empty(),
                scope,
                Seq::<SpecDiagnostic>::empty(),
            ),
            SpecModuleItem::Stmt(s) => spec_transform_stmt(s, scope),
        };
        let t = spec_fold_module_items(items.drop_first(), h.1);
        (h.0 + t.0, t.1, h.2 + t.2)
    }
}

/// One dependency descriptor per import, in order; a static import is
/// never dynamic.
pub open spec fn spec_import_descriptors(items: Seq<SpecModuleItem>) -> Seq<
    SpecDependencyDescriptor,
>
    decreases items,
{
    if items.len() == 0 {
        Seq::empty()
    } else {
        let rest = spec_import_descriptors(items.drop_first());
        match items[0] {
            SpecModuleItem::Import { specifiers: _, src } => seq![
                SpecDependencyDescriptor { specifier: src, is_dynamic: false },
            ] + rest,
            _ => rest,
        }
    }
}

// ---------------------------------------------------------------------
// executable classifier
// ---------------------------------------------------------------------
/// The annotation of a binding pattern.
fn pat_ann<'a>(p: &'a Pat) -> (r: &'a Option<TsType>)
    ensures
        crate::ast::opt_ts_type_view(*r) == pat_type_ann(p@),
{
    match p {
        Pat::Ident { type_ann, .. } => type_ann,
        Pat::Array { type_ann } => type_ann,
        Pat::Object { type_ann } => type_ann,
    }
}

/// The const tag of a binding, as [`spec_const_typed`] states.
fn const_typed_exec(p: &Pat) -> (k: ConstTypedKind)
    ensures
        k == spec_const_typed(p@),
{
    match pat_ann(p) {
        Some(TsType::Ref { name, args }) => {
            proof {
                lemma_ts_types_view(args@);
            }
            if str_eq(name.as_str(), "Prop") {
                if args.len() == 1 {
                    match &args[0] {
                        TsType::Ref { name: arg_name, args: arg_args } => {
                            proof {
                                lemma_ts_types_view(arg_args@);
                            }
                            if str_eq(arg_name.as_str(), "Slots") && arg_args.len() == 0 {
                                ConstTypedKind::PropWithSlots
                            } else {
                                ConstTypedKind::Prop
                            }
                        },
                        _ => ConstTypedKind::Prop,
                    }
                } else {
                    ConstTypedKind::Prop
                }
            } else if str_eq(name.as_str(), "Context") {
                ConstTypedKind::Context
            } else if str_eq(name.as_str(), "Memo") {
                ConstTypedKind::Memo
            } else {
                ConstTypedKind::Regular
            }
        },
        _ => ConstTypedKind::Regular,
    }
}

/// One statement as a one-element list.
fn singleton_statement(st: Statement) -> (r: Vec<Statement>)
    ensures
        statements_view(r@) == seq![statement_view(st)],
{
    let ghost stv = statement_view(st);
    let mut v: Vec<Statement> = Vec::new();
    v.push(st);
    proof {
        lemma_statements_view(v@);
        assert(statements_view(v@) =~= seq![stv]);
    }
    v
}

/// One const declarator, as [`spec_classify_const_decl`] states.
fn classify_const_decl_exec(
    d: &VarDeclarator,
    scope: &mut IdentMap,
    diags: &mut Vec<Diagnostic>,
) -> (r: Statement)
    requires
        old(scope).well_formed(),
    ensures
        ({
            let t = spec_classify_const_decl(declarator_view(*d), old(scope)@);
            statement_view(r) == t.0 && final(scope)@ == t.1 && final(scope).well_formed()
                && diagnostics_view(final(diags)@) == diagnostics_view(old(diags)@) + t.2
        }),
    decreases *d, 1int,
{
    let ghost g0 = diagnostics_view(diags@);
    proof {
        assert(g0 + Seq::<SpecDiagnostic>::empty() =~= g0);
    }
    let ann_is_fc = match pat_ann(&d.name) {
        Some(TsType::Ref { name, .. }) => str_eq(name.as_str(), "FC"),
        _ => false,
    };
    if ann_is_fc {
        match &d.init {
            Some(Expr::Arrow { body: ArrowBody::Block(b), .. }) => {
                proof {
                    assert(decreases_to!(*d => b@));
                    assert(stmts_view(b@).skip(0) =~= stmts_view(b@));
                    assert(b@.skip(0) =~= b@);
                }
                let mut fresh = IdentMap::new();
                let sub = transform_stmts_exec(b, 0, &mut fresh, diags);
                return Statement::FunctionComponent { statements: sub };
            },
            Some(Expr::Arrow { body: ArrowBody::Expr(e), .. }) => {
                let mut sts: Vec<Statement> = Vec::new();
                sts.push(Statement::Raw { stmt: Stmt::Expr(clone_expr(&**e)) });
                proof {
                    lemma_statements_view(sts@);
                    assert(statements_view(sts@) =~= seq![statement_view(sts@[0])]);
                }
                return Statement::FunctionComponent { statements: sts };
            },
            Some(Expr::Fn { body: Some(b), is_generator: false }) => {
                proof {
                    assert(decreases_to!(*d => b@));
                    assert(stmts_view(b@).skip(0) =~= stmts_view(b@));
                    assert(b@.skip(0) =~= b@);
                }
                let mut fresh = IdentMap::new();
                let sub = transform_stmts_exec(b, 0, &mut fresh, diags);
                return Statement::FunctionComponent { statements: sub };
            },
            _ => {},
        }
    }
    let typed = const_typed_exec(&d.name);
    let registers = match typed {
        ConstTypedKind::Prop => true,
        ConstTypedKind::PropWithSlots => true,
        ConstTypedKind::Memo => true,
        _ => false,
    };
    if registers {
        match &d.name {
            Pat::Ident { name, .. } => {
                let _ = scope.get_or_create(name.as_str());
            },
            _ => {},
        }
    }
    Statement::Const { typed, name: clone_pat(&d.name), expr: clone_opt_expr(&d.init) }
}

fn classify_const_decls_exec(
    v: &Vec<VarDeclarator>,
    i: usize,
    scope: &mut IdentMap,
    diags: &mut Vec<Diagnostic>,
) -> (r: Vec<Statement>)
    requires
        i <= v@.len(),
        old(scope).well_formed(),
    ensures
        ({
            let t = spec_classify_const_decls(declarators_view(v@).skip(i as int), old(scope)@);
            statements_view(r@) == t.0 && final(scope)@ == t.1 && final(scope).well_formed()
                && diagnostics_view(final(diags)@) == diagnostics_view(old(diags)@) + t.2
        }),
    decreases v@.skip(i as int), 2int,
{
    let ghost g0 = diagnostics_view(diags@);
    proof {
        lemma_declarators_view(v@);
    }
    if i == v.len() {
        let rr: Vec<Statement> = Vec::new();
        proof {
            assert(declarators_view(v@).skip(i as int) =~= Seq::<SpecVarDeclarator>::empty());
            assert(statements_view(rr@) =~= Seq::<SpecStatement>::empty());
            assert(g0 + Seq::<SpecDiagnostic>::empty() =~= g0);
        }
        rr
    } else {
        let ghost s = declarators_view(v@).skip(i as int);
        proof {
            assert(s[0] == declarator_view(v@[i as int]));
            assert(s.drop_first() =~= declarators_view(v@).skip(i + 1 as int));
            assert(v@.skip(i as int)[0] == v@[i as int]);
            assert(v@.skip(i as int).drop_first() =~= v@.skip(i + 1 as int));
        }
        let ghost sc0 = scope@;
        let h = classify_const_decl_exec(&v[i], scope, diags);
        let mut t = classify_const_decls_exec(v, i + 1, scope, diags);
        let ghost tv = t@;
        t.insert(0, h);
        proof {
            let ht = spec_classify_const_decl(s[0], sc0);
            let tt = spec_classify_const_decls(s.drop_first(), ht.1);
            lemma_statements_view(tv.insert(0, h));
            lemma_statements_view(tv);
            assert(statements_view(tv.insert(0, h)) =~= seq![statement_view(h)]
                + statements_view(tv));
            assert(diagnostics_view(diags@) =~= g0 + (ht.2 + tt.2));
        }
        t
    }
}

/// One non-const declarator, as [`spec_classify_var_decl`] states.
fn classify_var_decl_exec(d: &VarDeclarator) -> (r: Statement)
    ensures
        statement_view(r) == spec_classify_var_decl(declarator_view(*d)),
{
    let is_async = match &d.init {
        Some(Expr::Await(_)) => true,
        _ => false,
    };
    let mut is_array = false;
    let mut is_ref = false;
    match pat_ann(&d.name) {
        Some(TsType::Array(_)) => {
            is_array = true;
        },
        Some(TsType::Ref { name, .. }) => {
            is_ref = str_eq(name.as_str(), "Ref");
        },
        _ => {},
    }
    Statement::Var {
        name: clone_pat(&d.name),
        expr: clone_opt_expr(&d.init),
        is_array,
        is_ref,
        is_async,
    }
}

fn classify_var_decls_exec(v: &Vec<VarDeclarator>, i: usize) -> (r: Vec<Statement>)
    requires
        i <= v@.len(),
    ensures
        statements_view(r@) == spec_classify_var_decls(declarators_view(v@).skip(i as int)),
    decreases v@.skip(i as int),
{
    proof {
        lemma_declarators_view(v@);
    }
    if i == v.len() {
        let rr: Vec<Statement> = Vec::new();
        proof {
            assert(declarators_view(v@).skip(i as int) =~= Seq::<SpecVarDeclarator>::empty());
            assert(statements_view(rr@) =~= Seq::<SpecStatement>::empty());
        }
        rr
    } else {
        let ghost s = declarators_view(v@).skip(i as int);
        proof {
            assert(s[0] == declarator_view(v@[i as int]));
            assert(s.drop_first() =~= declarators_view(v@).skip(i + 1 as int));
            assert(v@.skip(i as int)[0] == v@[i as int]);
            assert(v@.skip(i as int).drop_first() =~= v@.skip(i + 1 as int));
        }
        let h = classify_var_decl_exec(&v[i]);
        let mut t = classify_var_decls_exec(v, i + 1);
        let ghost tv = t@;
        t.insert(0, h);
        proof {
            lemma_statements_view(tv.insert(0, h));
            lemma_statements_view(tv);
            assert(statements_view(tv.insert(0, h)) =~= seq![statement_view(h)]
                + statements_view(tv));
        }
        t
    }
}

/// The statement classifier: one generic statement in, zero or more
/// typed statements out; trackable const bindings register into the
/// scope, and template lowering reports through `diags`.
/// The labeled-statement dispatch of the classifier: `$`, `$t`,
/// `$style`, `$_name`, or a plain passthrough.
#[verifier::rlimit(100)]
fn transform_labeled_exec(
    stmt: &Stmt,
    label: &String,
    body: &Stmt,
    scope: &mut IdentMap,
    diags: &mut Vec<Diagnostic>,
) -> (r: Vec<Statement>)
    requires
        old(scope).well_formed(),
        stmt@ == (SpecStmt::Labeled { label: label@, body: Box::new(body@) }),
    ensures
        ({
            let t = spec_transform_stmt(stmt@, old(scope)@);
            statements_view(r@) == t.0 && final(scope)@ == t.1 && final(scope).well_formed()
                && diagnostics_view(final(diags)@) == diagnostics_view(old(diags)@) + t.2
        }),
{
    let ghost g0 = diagnostics_view(diags@);
    proof {
        reveal_with_fuel(crate::ast::stmt_view, 3);
        reveal_with_fuel(crate::ast::expr_view, 3);
        reveal_with_fuel(crate::ast::tpl_view, 2);
        reveal_with_fuel(crate::statement::statement_view, 2);
        assert(g0 + Seq::<SpecDiagnostic>::empty() =~= g0);
    }
    if str_eq(label.as_str(), "$") {
        singleton_statement(
            Statement::SideEffect { name: None, stmt: Box::new(clone_stmt(body)) },
        )
    } else if str_eq(label.as_str(), "$t") {
        match body {
            Stmt::Expr(Expr::JSXElement(el)) => {
                let e = lower_element_exec(&**el, scope, diags);
                singleton_statement(Statement::Template(TemplateStatement::Element(e)))
            },
            Stmt::Expr(Expr::JSXFragment(f)) => {
                let e = lower_fragment_exec(f, scope, diags);
                singleton_statement(Statement::Template(TemplateStatement::Fragment(e)))
            },
            _ => singleton_statement(Statement::Raw { stmt: clone_stmt(stmt) }),
        }
    } else if str_eq(label.as_str(), "$style") {
        match body {
            Stmt::Expr(Expr::TaggedTpl { tag: _, tpl }) => singleton_statement(
                Statement::Style {
                    css: CSSTemplate {
                        quasis: clone_strings(&tpl.quasis),
                        exprs: clone_strings(&tpl.raws),
                    },
                },
            ),
            _ => singleton_statement(Statement::Raw { stmt: clone_stmt(stmt) }),
        }
    } else {
        let lab = label.as_str();
        let n = lab.unicode_len();
        if n >= 2 && lab.get_char(0) == '$' && lab.get_char(1) == '_' {
            let suffix = lab.substring_char(2, n).to_owned();
            proof {
                assert(suffix@ =~= label@.skip(2));
            }
            singleton_statement(
                Statement::SideEffect { name: Some(suffix), stmt: Box::new(clone_stmt(body)) },
            )
        } else {
            singleton_statement(Statement::Raw { stmt: clone_stmt(stmt) })
        }
    }
}

#[verifier::rlimit(100)]
pub fn transform_stmt(stmt: &Stmt, scope: &mut IdentMap, diags: &mut Vec<Diagnostic>) -> (r: Vec<
    Statement,
>)
    requires
        old(scope).well_formed(),
    ensures
        ({
            let t = spec_transform_stmt(stmt@, old(scope)@);
            statements_view(r@) == t.0 && final(scope)@ == t.1 && final(scope).well_formed()
                && diagnostics_view(final(diags)@) == diagnostics_view(old(diags)@) + t.2
        }),
    decreases *stmt, 3int,
{
    let ghost g0 = diagnostics_view(diags@);
    proof {
        reveal_with_fuel(crate::ast::stmt_view, 3);
        reveal_with_fuel(crate::ast::expr_view, 3);
        reveal_with_fuel(crate::ast::tpl_view, 2);
        reveal_with_fuel(crate::statement::statement_view, 2);
        assert(g0 + Seq::<SpecDiagnostic>::empty() =~= g0);
    }
    match stmt {
        Stmt::Decl(d) => {
            match d.kind {
                VarDeclKind::Const => {
                    proof {
                        assert(decreases_to!(*stmt => d.decls@));
                        assert(d.decls@.skip(0) =~= d.decls@);
                        assert(declarators_view(d.decls@).skip(0) =~= declarators_view(
                            d.decls@,
                        ));
                    }
                    classify_const_decls_exec(&d.decls, 0, scope, diags)
                },
                _ => {
                    proof {
                        assert(declarators_view(d.decls@).skip(0) =~= declarators_view(
                            d.decls@,
                        ));
                    }
                    classify_var_decls_exec(&d.decls, 0)
                },
            }
        },
        Stmt::Labeled { label, body } => {
            proof {
                assert(stmt@ == SpecStmt::Labeled { label: label@, body: Box::new(body@) });
            }
            transform_labeled_exec(stmt, label, body, scope, diags)
        },
        _ => singleton_statement(Statement::Raw { stmt: clone_stmt(stmt) }),
    }
}

fn transform_stmts_exec(
    v: &Vec<Stmt>,
    i: usize,
    scope: &mut IdentMap,
    diags: &mut Vec<Diagnostic>,
) -> (r: Vec<Statement>)
    requires
        i <= v@.len(),
        old(scope).well_formed(),
    ensures
        ({
            let t = spec_transform_stmts(stmts_view(v@).skip(i as int), old(scope)@);
            statements_view(r@) == t.0 && final(scope)@ == t.1 && final(scope).well_formed()
                && diagnostics_view(final(diags)@) == diagnostics_view(old(diags)@) + t.2
        }),
    decreases v@.skip(i as int), 4int,
{
    let ghost g0 = diagnostics_view(diags@);
    proof {
        lemma_stmts_view(v@);
    }
    if i == v.len() {
        let rr: Vec<Statement> = Vec::new();
        proof {
            assert(stmts_view(v@).skip(i as int) =~= Seq::<SpecStmt>::empty());
            assert(statements_view(rr@) =~= Seq::<SpecStatement>::empty());
            assert(g0 + Seq::<SpecDiagnostic>::empty() =~= g0);
        }
        rr
    } else {
        let ghost s = stmts_view(v@).skip(i as int);
        proof {
            assert(s[0] == crate::ast::stmt_view(v@[i as int]));
            assert(s.drop_first() =~= stmts_view(v@).skip(i + 1 as int));
            assert(v@.skip(i as int)[0] == v@[i as int]);
            assert(v@.skip(i as int).drop_first() =~= v@.skip(i + 1 as int));
        }
        let ghost sc0 = scope@;
        let mut h = transform_stmt(&v[i], scope, diags);
        let mut t = transform_stmts_exec(v, i + 1, scope, diags);
        let ghost hv = h@;
        let ghost tv = t@;
        h.append(&mut t);
        proof {
            let ht = spec_transform_stmt(s[0], sc0);
            let tt = spec_transform_stmts(s.drop_first(), ht.1);
            lemma_statements_view_concat(hv, tv);
            assert(diagnostics_view(diags@) =~= g0 + (ht.2 + tt.2));
        }
        h
    }
}

// ---------------------------------------------------------------------
// executable assembler
// ---------------------------------------------------------------------
/// Does the specifier name another component file?
fn is_alef_specifier_exec(s: &str) -> (r: bool)
    ensures
        r == spec_is_alef_specifier(s@),
{
    let n = s.unicode_len();
    if n < 5 {
        return false;
    }
    let r = s.get_char(n - 5) == '.' && s.get_char(n - 4) == 'a' && s.get_char(n - 3) == 'l'
        && s.get_char(n - 2) == 'e' && s.get_char(n - 1) == 'f';
    proof {
        if r {
            assert(s@.skip(n - 5 as int) =~= dot_alef());
        } else {
            if s@.skip(n - 5 as int) == dot_alef() {
                assert(s@[n - 5 as int] == '.');
                assert(s@[n - 4 as int] == 'a');
                assert(s@[n - 3 as int] == 'l');
                assert(s@[n - 2 as int] == 'e');
                assert(s@[n - 1 as int] == 'f');
            }
        }
    }
    r
}

#[verifier::rlimit(100)]
fn fold_items_exec(
    items: &Vec<ModuleItem>,
    i: usize,
    scope: &mut IdentMap,
    resolver: &mut Resolver,
    diags: &mut Vec<Diagnostic>,
) -> (r: Vec<Statement>)
    requires
        i <= items@.len(),
        old(scope).well_formed(),
    ensures
        ({
            let t = spec_fold_module_items(module_items_view(items@).skip(i as int), old(scope)@);
            statements_view(r@) == t.0 && final(scope)@ == t.1 && final(scope).well_formed()
                && diagnostics_view(final(diags)@) == diagnostics_view(old(diags)@) + t.2
                && final(resolver)@.dep_graph == old(resolver)@.dep_graph
                + spec_import_descriptors(module_items_view(items@).skip(i as int))
                && final(resolver)@.specifier == old(resolver)@.specifier
                && final(resolver)@.runtime_module == old(resolver)@.runtime_module
                && final(resolver)@.css == old(resolver)@.css
        }),
    decreases items@.skip(i as int), 5int,
{
    let ghost g0 = diagnostics_view(diags@);
    let ghost dg0 = descriptors_view(resolver.dep_graph@);
    proof {
        lemma_module_items_view(items@);
    }
    if i == items.len() {
        let rr: Vec<Statement> = Vec::new();
        proof {
            assert(module_items_view(items@).skip(i as int) =~= Seq::<SpecModuleItem>::empty());
            assert(statements_view(rr@) =~= Seq::<SpecStatement>::empty());
            assert(g0 + Seq::<SpecDiagnostic>::empty() =~= g0);
            assert(dg0 + Seq::<SpecDependencyDescriptor>::empty() =~= dg0);
        }
        rr
    } else {
        let ghost s = module_items_view(items@).skip(i as int);
        proof {
            assert(s[0] == crate::ast::module_item_view(items@[i as int]));
            assert(s.drop_first() =~= module_items_view(items@).skip(i + 1 as int));
            assert(items@.skip(i as int)[0] == items@[i as int]);
            assert(items@.skip(i as int).drop_first() =~= items@.skip(i + 1 as int));
        }
        let ghost sc0 = scope@;
        let mut h = match &items[i] {
            ModuleItem::Import { specifiers, src } => {
                let dd = DependencyDescriptor { specifier: src.clone(), is_dynamic: false };
                let ghost dgb = resolver.dep_graph@;
                resolver.dep_graph.push(dd);
                proof {
                    assert(descriptors_view(resolver.dep_graph@) =~= descriptors_view(
                        dgb,
                    ).push(SpecDependencyDescriptor { specifier: src@, is_dynamic: false }));
                }
                singleton_statement(
                    Statement::Import {
                        specifiers: clone_import_specifiers(specifiers),
                        src: src.clone(),
                        is_alef_component: is_alef_specifier_exec(src.as_str()),
                    },
                )
            },
            ModuleItem::ExportDefault(e) => singleton_statement(
                Statement::Export { expr: clone_expr(e) },
            ),
            ModuleItem::OtherModuleDecl => Vec::new(),
            ModuleItem::Stmt(st) => transform_stmt(st, scope, diags),
        };
        let mut t = fold_items_exec(items, i + 1, scope, resolver, diags);
        let ghost hv = h@;
        let ghost tv = t@;
        h.append(&mut t);
        proof {
            let ht = spec_fold_module_items(s, sc0);
            lemma_statements_view_concat(hv, tv);
            assert(statements_view(Seq::<Statement>::empty()) =~= Seq::<SpecStatement>::empty());
            let hd = spec_import_descriptors(s);
            let td = spec_import_descriptors(s.drop_first());
            match s[0] {
                SpecModuleItem::Import { specifiers: _, src } => {
                    assert(dg0.push(SpecDependencyDescriptor { specifier: src, is_dynamic: false })
                        + td =~= dg0 + hd);
                },
                _ => {
                    assert(dg0 + td =~= dg0 + hd);
                },
            }
            let hstmt = match s[0] {
                SpecModuleItem::Stmt(st) => spec_transform_stmt(st, sc0),
                _ => (Seq::<SpecStatement>::empty(), sc0, Seq::<SpecDiagnostic>::empty()),
            };
            let tt = spec_fold_module_items(s.drop_first(), hstmt.1);
            assert(diagnostics_view(diags@) =~= g0 + (hstmt.2 + tt.2));
        }
        h
    }
}

/// The module assembler: walks the unit once, appends one dependency
/// descriptor per import to the resolver's graph, and returns the
/// finished component AST, classified under a fresh top-level scope.
pub fn fold_module_items(
    items: &Vec<ModuleItem>,
    resolver: &mut Resolver,
    diags: &mut Vec<Diagnostic>,
) -> (r: AST)
    ensures
        ({
            let t = spec_fold_module_items(module_items_view(items@), Seq::empty());
            r@ == t.0 && diagnostics_view(final(diags)@) == diagnostics_view(old(diags)@) + t.2
                && final(resolver)@.dep_graph == old(resolver)@.dep_graph
                + spec_import_descriptors(module_items_view(items@))
                && final(resolver)@.specifier == old(resolver)@.specifier
                && final(resolver)@.runtime_module == old(resolver)@.runtime_module
                && final(resolver)@.css == old(resolver)@.css
        }),
{
    let mut scope = IdentMap::new();
    proof {
        assert(module_items_view(items@).skip(0) =~= module_items_view(items@));
    }
    let v = fold_items_exec(items, 0, &mut scope, resolver, diags);
    AST { statements: v }
}

/// The walker of one component unit: the top-level scope identifier
/// map and the diagnostics collected so far.
#[derive(Debug, PartialEq, Eq)]
pub struct ASTWalker {
    pub scope_idents: IdentMap,
    pub diagnostics: Vec<Diagnostic>,
}

impl ASTWalker {
    /// A walker with an empty scope and no diagnostics.
    pub fn new() -> (r: ASTWalker)
        ensures
            r.scope_idents@ == Seq::<Seq<char>>::empty(),
            r.scope_idents.well_formed(),
            r.diagnostics@ == Seq::<Diagnostic>::empty(),
    {
        ASTWalker { scope_idents: IdentMap::new(), diagnostics: Vec::new() }
    }

    /// Classifies one statement against this walker's scope.
    pub fn transform_stmt(&mut self, stmt: &Stmt) -> (r: Vec<Statement>)
        requires
            old(self).scope_idents.well_formed(),
        ensures
            ({
                let t = spec_transform_stmt(stmt@, old(self).scope_idents@);
                statements_view(r@) == t.0 && final(self).scope_idents@ == t.1
                    && final(self).scope_idents.well_formed() && diagnostics_view(
                    final(self).diagnostics@,
                ) == diagnostics_view(old(self).diagnostics@) + t.2
            }),
    {
        crate::walker::transform_stmt(stmt, &mut self.scope_idents, &mut self.diagnostics)
    }

    /// Assembles one whole unit; the walker's own scope is untouched,
    /// a fresh top-level scope is used instead.
    pub fn fold_module_items(&mut self, items: &Vec<ModuleItem>, resolver: &mut Resolver) -> (r:
        AST)
        ensures
            ({
                let t = spec_fold_module_items(module_items_view(items@), Seq::empty());
                &&& r@ == t.0
                &&& diagnostics_view(final(self).diagnostics@) == diagnostics_view(
                    old(self).diagnostics@,
                ) + t.2
                &&& final(resolver)@.dep_graph == old(resolver)@.dep_graph
                    + spec_import_descriptors(module_items_view(items@))
                &&& final(resolver)@.specifier == old(resolver)@.specifier
                &&& final(resolver)@.runtime_module == old(resolver)@.runtime_module
                &&& final(resolver)@.css == old(resolver)@.css
                &&& final(self).scope_idents == old(self).scope_idents
            }),
    {
        crate::walker::fold_module_items(items, resolver, &mut self.diagnostics)
    }
}

} // verus!
