//! Laws of the dependency analyzer and of the statement classifier,
//! stated and proved once for all inputs.

use vstd::prelude::*;

use crate::ast::SpecArrowBody;
use crate::ast::SpecExpr;
use crate::ast::SpecPat;
use crate::ast::SpecStmt;
use crate::ast::SpecTsType;
use crate::ast::SpecVarDeclarator;
use crate::ast::VarDeclKind;
use crate::jsx::analyze_expr;
use crate::jsx::dep_nums;
use crate::jsx::spec_transform_expr;
use crate::jsx::ScopeNames;
use crate::statement::ConstTypedKind;
use crate::statement::SpecDiagnostic;
use crate::statement::SpecStatement;
use crate::walker::pat_type_ann;
use crate::walker::spec_classify_const_decls;
use crate::walker::spec_classify_var_decl;
use crate::walker::spec_classify_var_decls;
use crate::walker::spec_const_typed;
use crate::walker::spec_transform_stmt;

verus! {

/// A `Prop`-annotated const binding is tagged `PropWithSlots` exactly
/// when its single generic argument is the bare reference `Slots`;
/// any other argument list, or none, tags it plain `Prop`.
pub proof fn law_prop_slots_tagging(p: SpecPat)
    requires
        pat_type_ann(p) matches Some(SpecTsType::Ref { name, .. }) && name == "Prop"@,
    ensures
        ({
            let args = pat_type_ann(p)->Some_0->Ref_args;
            spec_const_typed(p) == if args.len() == 1 && (args[0] matches SpecTsType::Ref {
                name: arg_name,
                args: arg_args,
            } && arg_name == "Slots"@ && arg_args.len() == 0) {
                ConstTypedKind::PropWithSlots
            } else {
                ConstTypedKind::Prop
            }
        }),
{
}

/// The reactive flags of a declarator: `is_ref` iff the annotation is
/// exactly a `Ref<...>` reference, `is_array` iff it is an array type,
/// both false without an annotation, and `is_async` iff the
/// initializer is an await expression, independent of the annotation.
pub proof fn law_var_flags(d: SpecVarDeclarator)
    ensures
        spec_classify_var_decl(d)->Var_is_ref == (pat_type_ann(d.name) matches Some(
            SpecTsType::Ref { name, .. },
        ) && name == "Ref"@),
        spec_classify_var_decl(d)->Var_is_array == (pat_type_ann(d.name) matches Some(
            SpecTsType::Array(_),
        )),
        pat_type_ann(d.name) is None ==> !spec_classify_var_decl(d)->Var_is_ref
            && !spec_classify_var_decl(d)->Var_is_array,
        spec_classify_var_decl(d)->Var_is_async == (d.init matches Some(SpecExpr::Await(_))),
{
}

/// A statement labeled `$` classifies to exactly one unnamed side
/// effect wrapping its body, with the scope untouched.
pub proof fn law_unnamed_side_effect(body: Box<SpecStmt>, scope: ScopeNames)
    ensures
        spec_transform_stmt(SpecStmt::Labeled { label: "$"@, body }, scope) == (
            seq![SpecStatement::SideEffect { name: None, stmt: body }],
            scope,
            Seq::<SpecDiagnostic>::empty(),
        ),
{
}

/// A statement labeled `$_name` classifies to one side effect named by
/// the suffix after `$_`, with the scope untouched.
pub proof fn law_named_side_effect(label: Seq<char>, body: Box<SpecStmt>, scope: ScopeNames)
    requires
        label.len() >= 2,
        label[0] == '$',
        label[1] == '_',
    ensures
        spec_transform_stmt(SpecStmt::Labeled { label, body }, scope) == (
            seq![SpecStatement::SideEffect { name: Some(label.skip(2)), stmt: body }],
            scope,
            Seq::<SpecDiagnostic>::empty(),
        ),
{
    reveal_strlit("$");
    reveal_strlit("$t");
    reveal_strlit("$style");
    assert(label != "$"@);
    assert(label != "$t"@) by {
        if label == "$t"@ {
            assert(label[1] == 't');
        }
    }
    assert(label != "$style"@) by {
        if label == "$style"@ {
            assert(label[1] == 's');
        }
    }
}

/// No recognised type annotation, and no await initializer.
pub open spec fn plain_decl(d: SpecVarDeclarator) -> bool {
    pat_type_ann(d.name) is None && !(d.init matches Some(SpecExpr::Await(_)))
}

pub open spec fn plain_decls(ds: Seq<SpecVarDeclarator>) -> bool {
    forall|i: int| 0 <= i < ds.len() ==> plain_decl(#[trigger] ds[i])
}

/// Not a labeled statement, and every declarator plain.
pub open spec fn plain_stmt(s: SpecStmt) -> bool {
    match s {
        SpecStmt::Labeled { .. } => false,
        SpecStmt::Decl(d) => plain_decls(d.decls),
        _ => true,
    }
}

/// What a plain statement must come back as: each const declarator a
/// `Regular` const, each other declarator a `Var` with all flags
/// false, anything else wrapped as `Raw`, all carrying the original
/// parts unchanged.
pub open spec fn plain_wrap(s: SpecStmt) -> Seq<SpecStatement> {
    match s {
        SpecStmt::Decl(d) => if d.kind == VarDeclKind::Const {
            Seq::new(
                d.decls.len(),
                |i: int|
                    SpecStatement::Const {
                        typed: ConstTypedKind::Regular,
                        name: d.decls[i].name,
                        expr: d.decls[i].init,
                    },
            )
        } else {
            Seq::new(
                d.decls.len(),
                |i: int|
                    SpecStatement::Var {
                        name: d.decls[i].name,
                        expr: d.decls[i].init,
                        is_array: false,
                        is_ref: false,
                        is_async: false,
                    },
            )
        },
        _ => seq![SpecStatement::Raw { stmt: s }],
    }
}

proof fn lemma_plain_const_decls(ds: Seq<SpecVarDeclarator>, scope: ScopeNames)
    requires
        plain_decls(ds),
    ensures
        spec_classify_const_decls(ds, scope).0 == Seq::new(
            ds.len(),
            |i: int|
                SpecStatement::Const {
                    typed: ConstTypedKind::Regular,
                    name: ds[i].name,
                    expr: ds[i].init,
                },
        ),
        spec_classify_const_decls(ds, scope).1 == scope,
        spec_classify_const_decls(ds, scope).2 == Seq::<SpecDiagnostic>::empty(),
    decreases ds,
{
    if ds.len() == 0 {
        assert(spec_classify_const_decls(ds, scope).0 =~= Seq::new(
            ds.len(),
            |i: int|
                SpecStatement::Const {
                    typed: ConstTypedKind::Regular,
                    name: ds[i].name,
                    expr: ds[i].init,
                },
        ));
    } else {
        assert(plain_decl(ds[0]));
        assert forall|i: int| 0 <= i < ds.drop_first().len() implies plain_decl(
            #[trigger] ds.drop_first()[i],
        ) by {
            assert(ds.drop_first()[i] == ds[i + 1]);
        }
        lemma_plain_const_decls(ds.drop_first(), scope);
        let h = crate::walker::spec_classify_const_decl(ds[0], scope);
        assert(!crate::walker::spec_is_fc(ds[0]));
        assert(spec_const_typed(ds[0].name) == ConstTypedKind::Regular);
        assert(h.0 == (SpecStatement::Const {
            typed: ConstTypedKind::Regular,
            name: ds[0].name,
            expr: ds[0].init,
        }));
        assert(h.1 == scope);
        assert(h.2 == Seq::<SpecDiagnostic>::empty());
        assert(spec_classify_const_decls(ds, scope).0 =~= Seq::new(
            ds.len(),
            |i: int|
                SpecStatement::Const {
                    typed: ConstTypedKind::Regular,
                    name: ds[i].name,
                    expr: ds[i].init,
                },
        ));
        assert(spec_classify_const_decls(ds, scope).2 =~= Seq::<SpecDiagnostic>::empty());
    }
}

proof fn lemma_plain_var_decls(ds: Seq<SpecVarDeclarator>)
    requires
        plain_decls(ds),
    ensures
        spec_classify_var_decls(ds) == Seq::new(
            ds.len(),
            |i: int|
                SpecStatement::Var {
                    name: ds[i].name,
                    expr: ds[i].init,
                    is_array: false,
                    is_ref: false,
                    is_async: false,
                },
        ),
    decreases ds,
{
    if ds.len() == 0 {
        assert(spec_classify_var_decls(ds) =~= Seq::new(
            ds.len(),
            |i: int|
                SpecStatement::Var {
                    name: ds[i].name,
                    expr: ds[i].init,
                    is_array: false,
                    is_ref: false,
                    is_async: false,
                },
        ));
    } else {
        assert(plain_decl(ds[0]));
        assert forall|i: int| 0 <= i < ds.drop_first().len() implies plain_decl(
            #[trigger] ds.drop_first()[i],
        ) by {
            assert(ds.drop_first()[i] == ds[i + 1]);
        }
        lemma_plain_var_decls(ds.drop_first());
        assert(spec_classify_var_decls(ds) =~= Seq::new(
            ds.len(),
            |i: int|
                SpecStatement::Var {
                    name: ds[i].name,
                    expr: ds[i].init,
                    is_array: false,
                    is_ref: false,
                    is_async: false,
                },
        ));
    }
}

/// Idempotence of the classifier on plain input: a statement with no
/// label and no recognised annotations reproduces its parts unchanged,
/// wrapped as `Raw`, `Const { Regular }` or `Var` with false flags; the
/// scope stays as it was and no diagnostic is raised.
pub proof fn law_plain_statement_idempotence(s: SpecStmt, scope: ScopeNames)
    requires
        plain_stmt(s),
    ensures
        spec_transform_stmt(s, scope).0 == plain_wrap(s),
        spec_transform_stmt(s, scope).1 == scope,
        spec_transform_stmt(s, scope).2 == Seq::<SpecDiagnostic>::empty(),
{
    match s {
        SpecStmt::Decl(d) => {
            if d.kind == VarDeclKind::Const {
                lemma_plain_const_decls(d.decls, scope);
            } else {
                lemma_plain_var_decls(d.decls);
            }
        },
        _ => {},
    }
}

/// An expression whose dependency collection finds nothing is returned
/// with no wrapping call at all, in value and in event context alike.
pub proof fn law_static_expr_passthrough(e: SpecExpr, m: ScopeNames, is_event: bool)
    requires
        analyze_expr(e, m, Seq::empty()).1.len() == 0,
    ensures
        spec_transform_expr(e, m, is_event).0 == analyze_expr(e, m, Seq::empty()).0,
{
}

/// An identifier that the scope does not track passes through
/// untouched, even when it stands on an event-handler attribute.
pub proof fn law_untracked_ident_passthrough(s: Seq<char>, m: ScopeNames, is_event: bool)
    requires
        !m.contains(s),
    ensures
        spec_transform_expr(SpecExpr::Ident(s), m, is_event).0 == SpecExpr::Ident(s),
{
}

/// In value context, an expression with dependencies becomes exactly a
/// `Memo` call around its zero-argument deferred form, with the
/// dependency list as an ordered numeric sequence.
pub proof fn law_memo_wrapping(e: SpecExpr, m: ScopeNames)
    requires
        analyze_expr(e, m, Seq::empty()).1.len() > 0,
    ensures
        ({
            let r = analyze_expr(e, m, Seq::empty());
            spec_transform_expr(e, m, false).0 == SpecExpr::Call {
                callee: Box::new(SpecExpr::Ident("Memo"@)),
                args: seq![
                    SpecExpr::Arrow {
                        body: SpecArrowBody::Expr(Box::new(r.0)),
                        is_async: false,
                    },
                    SpecExpr::Array(dep_nums(r.1)),
                ],
            }
        }),
{
}

/// In event context, an expression with dependencies becomes exactly a
/// `Dirty` call around the unwrapped expression plus the same list.
pub proof fn law_dirty_wrapping(e: SpecExpr, m: ScopeNames)
    requires
        analyze_expr(e, m, Seq::empty()).1.len() > 0,
    ensures
        ({
            let r = analyze_expr(e, m, Seq::empty());
            spec_transform_expr(e, m, true).0 == SpecExpr::Call {
                callee: Box::new(SpecExpr::Ident("Dirty"@)),
                args: seq![r.0, SpecExpr::Array(dep_nums(r.1))],
            }
        }),
{
}

} // verus!
