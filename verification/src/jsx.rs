//! The markup lowering engine and the dependency analyzer.
//!
//! Lowering turns a declarative element or fragment into a
//! constructor-call expression over the runtime bindings `Element` and
//! `Fragment`. Every attribute value and expression child runs through
//! the dependency analyzer, which collects the scope indices the
//! expression reads (first seen order, no duplicates) and wraps the
//! expression in a `Memo` call (value position, deferred form) or a
//! `Dirty` call (event position, eager form) when the list is not
//! empty.

use vstd::prelude::*;

use crate::ast::ArrowBody;
use crate::ast::Expr;
use crate::ast::JSXAttr;
use crate::ast::JSXAttrName;
use crate::ast::JSXAttrOrSpread;
use crate::ast::JSXAttrValue;
use crate::ast::JSXChild;
use crate::ast::JSXElement;
use crate::ast::JSXElementName;
use crate::ast::JSXFragment;
use crate::ast::JSXObject;
use crate::ast::ObjProp;
use crate::ast::Pat;
use crate::ast::PropName;
use crate::ast::SpecTplLit;
use crate::ast::Stmt;
use crate::ast::TplLit;
use crate::ast::VarDecl;
use crate::ast::VarDeclarator;
use crate::ast::SpecArrowBody;
use crate::ast::SpecExpr;
use crate::ast::SpecJSXAttr;
use crate::ast::SpecJSXAttrName;
use crate::ast::SpecJSXAttrOrSpread;
use crate::ast::SpecJSXAttrValue;
use crate::ast::SpecJSXChild;
use crate::ast::SpecJSXElement;
use crate::ast::SpecJSXElementName;
use crate::ast::SpecJSXFragment;
use crate::ast::SpecJSXObject;
use crate::ast::SpecObjProp;
use crate::ast::SpecPropName;
use crate::ast::SpecStmt;
use crate::ast::SpecVarDecl;
use crate::ast::SpecVarDeclarator;
use crate::identmap::find_index;
use crate::identmap::IdentMap;
use crate::resolve::is_lower;
use crate::resolve::is_upper;
use crate::statement::Diagnostic;
use crate::statement::SpecDiagnostic;
use crate::text::jsx_text_value;

verus! {

/// The scope-map view the analyzer reads: the tracked names in index
/// order.
pub type ScopeNames = Seq<Seq<char>>;

// ---------------------------------------------------------------------
// event props and attribute keys
// ---------------------------------------------------------------------
/// An event-prop name: `on` followed immediately by an ASCII capital.
pub open spec fn spec_is_event_prop_name(s: Seq<char>) -> bool {
    s.len() >= 3 && s[0] == 'o' && s[1] == 'n' && is_upper(s[2])
}

pub open spec fn spec_is_event_prop(k: SpecPropName) -> bool {
    match k {
        SpecPropName::Ident(s) => spec_is_event_prop_name(s),
        SpecPropName::Str(s) => spec_is_event_prop_name(s),
    }
}

/// An attribute key: kept as an identifier where it is identifier
/// syntax; hyphenated names and namespaced names become string keys.
pub open spec fn spec_to_prop_name(n: SpecJSXAttrName) -> SpecPropName {
    match n {
        SpecJSXAttrName::Ident(s) => if s.contains('-') {
            SpecPropName::Str(s)
        } else {
            SpecPropName::Ident(s)
        },
        SpecJSXAttrName::Namespaced { ns, name } => SpecPropName::Str(ns + seq![':'] + name),
    }
}

/// The raw (unanalyzed) value an attribute contributes: a missing value
/// lowers to boolean `true`.
pub open spec fn spec_attr_raw_value(v: Option<SpecJSXAttrValue>) -> SpecExpr {
    match v {
        None => SpecExpr::Bool(true),
        Some(SpecJSXAttrValue::Str(s)) => SpecExpr::Str(s),
        Some(SpecJSXAttrValue::Expr(e)) => e,
        Some(SpecJSXAttrValue::Element(el)) => SpecExpr::JSXElement(el),
        Some(SpecJSXAttrValue::Fragment(f)) => SpecExpr::JSXFragment(f),
    }
}

/// A whole attribute as an object-literal member, values untouched.
pub open spec fn spec_attr_to_prop(a: SpecJSXAttr) -> SpecObjProp {
    SpecObjProp::KeyValue {
        key: spec_to_prop_name(a.name),
        value: spec_attr_raw_value(a.value),
    }
}

// ---------------------------------------------------------------------
// element names
// ---------------------------------------------------------------------
pub open spec fn spec_convert_jsx_obj(o: SpecJSXObject) -> SpecExpr
    decreases o,
{
    match o {
        SpecJSXObject::Ident(s) => if s == "this"@ {
            SpecExpr::This
        } else {
            SpecExpr::Ident(s)
        },
        SpecJSXObject::Member { obj, prop } => SpecExpr::Member {
            obj: Box::new(spec_convert_jsx_obj(*obj)),
            prop,
        },
    }
}

/// What an element name lowers to: `this` to a self reference, a
/// lowercase-leading identifier to an intrinsic tag string, any other
/// identifier to a direct reference, a member name to a member
/// expression; a namespaced name is unsupported and yields the invalid
/// placeholder plus a diagnostic.
pub open spec fn spec_jsx_name(n: SpecJSXElementName) -> (SpecExpr, Seq<SpecDiagnostic>) {
    match n {
        SpecJSXElementName::Ident(s) => if s == "this"@ {
            (SpecExpr::This, Seq::empty())
        } else if s.len() > 0 && is_lower(s[0]) {
            (SpecExpr::Str(s), Seq::empty())
        } else {
            (SpecExpr::Ident(s), Seq::empty())
        },
        SpecJSXElementName::Namespaced { ns, name } => (
            SpecExpr::Invalid,
            seq![SpecDiagnostic::UnsupportedNamespacedName { ns, name }],
        ),
        SpecJSXElementName::Member { obj, prop } => (
            SpecExpr::Member { obj: Box::new(spec_convert_jsx_obj(obj)), prop },
            Seq::empty(),
        ),
    }
}

// ---------------------------------------------------------------------
// dependency collection
// ---------------------------------------------------------------------
/// Records the index of `s` when the scope tracks it and it was not
/// seen before; otherwise leaves the list alone.
pub open spec fn add_dep(m: ScopeNames, deps: Seq<usize>, s: Seq<char>) -> Seq<usize> {
    if m.contains(s) {
        let idx = find_index(m, s) as usize;
        if deps.contains(idx) {
            deps
        } else {
            deps.push(idx)
        }
    } else {
        deps
    }
}

/// The dependency list rendered as numeric literals.
pub open spec fn dep_nums(deps: Seq<usize>) -> Seq<SpecExpr> {
    deps.map_values(|d: usize| SpecExpr::Num(d as u64))
}

/// Rewrites an expression and extends `deps`: identifiers tracked by
/// the scope are recorded in first-seen order without duplicates, and
/// markup nested inside the expression is lowered in place (its own
/// dependencies stay inside the wrappings the lowering emits).
pub open spec fn analyze_expr(e: SpecExpr, m: ScopeNames, deps: Seq<usize>) -> (
    SpecExpr,
    Seq<usize>,
    Seq<SpecDiagnostic>,
)
    decreases e, 0int,
{
    match e {
        SpecExpr::Ident(s) => (SpecExpr::Ident(s), add_dep(m, deps, s), Seq::empty()),
        SpecExpr::This => (e, deps, Seq::empty()),
        SpecExpr::Str(_) => (e, deps, Seq::empty()),
        SpecExpr::Bool(_) => (e, deps, Seq::empty()),
        SpecExpr::Num(_) => (e, deps, Seq::empty()),
        SpecExpr::Null => (e, deps, Seq::empty()),
        SpecExpr::Invalid => (e, deps, Seq::empty()),
        SpecExpr::Bin { op, left, right } => {
            let l = analyze_expr(*left, m, deps);
            let r = analyze_expr(*right, m, l.1);
            (
                SpecExpr::Bin { op, left: Box::new(l.0), right: Box::new(r.0) },
                r.1,
                l.2 + r.2,
            )
        },
        SpecExpr::Member { obj, prop } => {
            let o = analyze_expr(*obj, m, deps);
            (SpecExpr::Member { obj: Box::new(o.0), prop }, o.1, o.2)
        },
        SpecExpr::Call { callee, args } => {
            let c = analyze_expr(*callee, m, deps);
            let a = analyze_exprs(args, m, c.1);
            (SpecExpr::Call { callee: Box::new(c.0), args: a.0 }, a.1, c.2 + a.2)
        },
        SpecExpr::Object(props) => {
            let p = analyze_props(props, m, deps);
            (SpecExpr::Object(p.0), p.1, p.2)
        },
        SpecExpr::Array(elems) => {
            let a = analyze_exprs(elems, m, deps);
            (SpecExpr::Array(a.0), a.1, a.2)
        },
        SpecExpr::Arrow { body, is_async } => {
            let b = analyze_arrow_body(body, m, deps);
            (SpecExpr::Arrow { body: b.0, is_async }, b.1, b.2)
        },
        SpecExpr::Fn { body, is_generator } => match body {
            None => (SpecExpr::Fn { body: None, is_generator }, deps, Seq::empty()),
            Some(b) => {
                let r = analyze_stmts(b, m, deps);
                (SpecExpr::Fn { body: Some(r.0), is_generator }, r.1, r.2)
            },
        },
        SpecExpr::Await(inner) => {
            let i = analyze_expr(*inner, m, deps);
            (SpecExpr::Await(Box::new(i.0)), i.1, i.2)
        },
        SpecExpr::Tpl(t) => {
            let r = analyze_exprs(t.exprs, m, deps);
            (
                SpecExpr::Tpl(SpecTplLit { quasis: t.quasis, exprs: r.0, raws: t.raws }),
                r.1,
                r.2,
            )
        },
        SpecExpr::TaggedTpl { tag, tpl } => {
            let r = analyze_exprs(tpl.exprs, m, deps);
            (
                SpecExpr::TaggedTpl {
                    tag,
                    tpl: SpecTplLit { quasis: tpl.quasis, exprs: r.0, raws: tpl.raws },
                },
                r.1,
                r.2,
            )
        },
        SpecExpr::JSXElement(el) => {
            let r = lower_element(*el, m);
            (r.0, deps, r.1)
        },
        SpecExpr::JSXFragment(f) => {
            let r = lower_fragment(f, m);
            (r.0, deps, r.1)
        },
    }
}

pub open spec fn analyze_exprs(s: Seq<SpecExpr>, m: ScopeNames, deps: Seq<usize>) -> (
    Seq<SpecExpr>,
    Seq<usize>,
    Seq<SpecDiagnostic>,
)
    decreases s, 0int,
{
    if s.len() == 0 {
        (Seq::empty(), deps, Seq::empty())
    } else {
        let h = analyze_expr(s[0], m, deps);
        let t = analyze_exprs(s.drop_first(), m, h.1);
        (seq![h.0] + t.0, t.1, h.2 + t.2)
    }
}

pub open spec fn analyze_props(s: Seq<SpecObjProp>, m: ScopeNames, deps: Seq<usize>) -> (
    Seq<SpecObjProp>,
    Seq<usize>,
    Seq<SpecDiagnostic>,
)
    decreases s, 0int,
{
    if s.len() == 0 {
        (Seq::empty(), deps, Seq::empty())
    } else {
        let h = match s[0] {
            SpecObjProp::KeyValue { key, value } => {
                let v = analyze_expr(value, m, deps);
                (SpecObjProp::KeyValue { key, value: v.0 }, v.1, v.2)
            },
            SpecObjProp::Spread(e) => {
                let v = analyze_expr(e, m, deps);
                (SpecObjProp::Spread(v.0), v.1, v.2)
            },
        };
        let t = analyze_props(s.drop_first(), m, h.1);
        (seq![h.0] + t.0, t.1, h.2 + t.2)
    }
}

pub open spec fn analyze_arrow_body(b: SpecArrowBody, m: ScopeNames, deps: Seq<usize>) -> (
    SpecArrowBody,
    Seq<usize>,
    Seq<SpecDiagnostic>,
)
    decreases b, 0int,
{
    match b {
        SpecArrowBody::Block(stmts) => {
            let r = analyze_stmts(stmts, m, deps);
            (SpecArrowBody::Block(r.0), r.1, r.2)
        },
        SpecArrowBody::Expr(e) => {
            let r = analyze_expr(*e, m, deps);
            (SpecArrowBody::Expr(Box::new(r.0)), r.1, r.2)
        },
    }
}

pub open spec fn analyze_opt_expr(e: Option<SpecExpr>, m: ScopeNames, deps: Seq<usize>) -> (
    Option<SpecExpr>,
    Seq<usize>,
    Seq<SpecDiagnostic>,
)
    decreases e, 0int,
{
    match e {
        None => (None, deps, Seq::empty()),
        Some(x) => {
            let r = analyze_expr(x, m, deps);
            (Some(r.0), r.1, r.2)
        },
    }
}

pub open spec fn analyze_stmt(st: SpecStmt, m: ScopeNames, deps: Seq<usize>) -> (
    SpecStmt,
    Seq<usize>,
    Seq<SpecDiagnostic>,
)
    decreases st, 0int,
{
    match st {
        SpecStmt::Decl(d) => {
            let r = analyze_declarators(d.decls, m, deps);
            (SpecStmt::Decl(SpecVarDecl { kind: d.kind, decls: r.0 }), r.1, r.2)
        },
        SpecStmt::Labeled { label, body } => {
            let r = analyze_stmt(*body, m, deps);
            (SpecStmt::Labeled { label, body: Box::new(r.0) }, r.1, r.2)
        },
        SpecStmt::Expr(e) => {
            let r = analyze_expr(e, m, deps);
            (SpecStmt::Expr(r.0), r.1, r.2)
        },
        SpecStmt::Return(e) => {
            let r = analyze_opt_expr(e, m, deps);
            (SpecStmt::Return(r.0), r.1, r.2)
        },
        SpecStmt::Block(stmts) => {
            let r = analyze_stmts(stmts, m, deps);
            (SpecStmt::Block(r.0), r.1, r.2)
        },
        SpecStmt::If { test, cons, alt } => {
            let t = analyze_expr(test, m, deps);
            let c = analyze_stmt(*cons, m, t.1);
            match alt {
                None => (
                    SpecStmt::If { test: t.0, cons: Box::new(c.0), alt: None },
                    c.1,
                    t.2 + c.2,
                ),
                Some(a) => {
                    let r = analyze_stmt(*a, m, c.1);
                    (
                        SpecStmt::If {
                            test: t.0,
                            cons: Box::new(c.0),
                            alt: Some(Box::new(r.0)),
                        },
                        r.1,
                        t.2 + c.2 + r.2,
                    )
                },
            }
        },
        SpecStmt::Empty => (st, deps, Seq::empty()),
    }
}

pub open spec fn analyze_stmts(s: Seq<SpecStmt>, m: ScopeNames, deps: Seq<usize>) -> (
    Seq<SpecStmt>,
    Seq<usize>,
    Seq<SpecDiagnostic>,
)
    decreases s, 0int,
{
    if s.len() == 0 {
        (Seq::empty(), deps, Seq::empty())
    } else {
        let h = analyze_stmt(s[0], m, deps);
        let t = analyze_stmts(s.drop_first(), m, h.1);
        (seq![h.0] + t.0, t.1, h.2 + t.2)
    }
}

pub open spec fn analyze_declarators(s: Seq<SpecVarDeclarator>, m: ScopeNames, deps: Seq<usize>)
    -> (Seq<SpecVarDeclarator>, Seq<usize>, Seq<SpecDiagnostic>)
    decreases s, 0int,
{
    if s.len() == 0 {
        (Seq::empty(), deps, Seq::empty())
    } else {
        let h = analyze_opt_expr(s[0].init, m, deps);
        let t = analyze_declarators(s.drop_first(), m, h.1);
        (
            seq![SpecVarDeclarator { name: s[0].name, init: h.0 }] + t.0,
            t.1,
            h.2 + t.2,
        )
    }
}

// ---------------------------------------------------------------------
// reactive wrapping
// ---------------------------------------------------------------------
/// Analyzes one expression with a fresh dependency list. A non-empty
/// list makes a `Memo` call around the deferred form (value position)
/// or a `Dirty` call around the expression itself (event position),
/// with the numeric dependency list as second argument; an empty list
/// returns the rewritten expression with no wrapping at all.
pub open spec fn spec_transform_expr(e: SpecExpr, m: ScopeNames, is_event: bool) -> (
    SpecExpr,
    Seq<SpecDiagnostic>,
)
    decreases e, 1int,
{
    let r = analyze_expr(e, m, Seq::empty());
    if r.1.len() > 0 {
        let arr = SpecExpr::Array(dep_nums(r.1));
        if is_event {
            (
                SpecExpr::Call {
                    callee: Box::new(SpecExpr::Ident("Dirty"@)),
                    args: seq![r.0, arr],
                },
                r.2,
            )
        } else {
            (
                SpecExpr::Call {
                    callee: Box::new(SpecExpr::Ident("Memo"@)),
                    args: seq![
                        SpecExpr::Arrow {
                            body: SpecArrowBody::Expr(Box::new(r.0)),
                            is_async: false,
                        },
                        arr,
                    ],
                },
                r.2,
            )
        }
    } else {
        (r.0, r.2)
    }
}

/// One attribute value of the no-spread branch, run through the
/// analyzer in value or event context.
pub open spec fn spec_transform_attr_value(
    v: Option<SpecJSXAttrValue>,
    m: ScopeNames,
    is_event: bool,
) -> (SpecExpr, Seq<SpecDiagnostic>)
    decreases v, 1int,
{
    match v {
        None => (SpecExpr::Bool(true), Seq::empty()),
        Some(SpecJSXAttrValue::Str(s)) => (SpecExpr::Str(s), Seq::empty()),
        Some(SpecJSXAttrValue::Expr(e)) => spec_transform_expr(e, m, is_event),
        Some(SpecJSXAttrValue::Element(el)) => lower_element(*el, m),
        Some(SpecJSXAttrValue::Fragment(f)) => lower_fragment(f, m),
    }
}

// ---------------------------------------------------------------------
// attributes
// ---------------------------------------------------------------------
pub open spec fn has_spread(attrs: Seq<SpecJSXAttrOrSpread>) -> bool {
    exists|i: int| 0 <= i < attrs.len() && attrs[i] is Spread
}

/// The argument list of the object-merge call: consecutive plain
/// attributes batch into one object literal, each spread stands alone,
/// and a leading spread gets an empty object in front. Values here are
/// not analyzed.
pub open spec fn merge_args_loop(
    attrs: Seq<SpecJSXAttrOrSpread>,
    args: Seq<SpecExpr>,
    cur: Seq<SpecObjProp>,
) -> Seq<SpecExpr>
    decreases attrs, 0int,
{
    if attrs.len() == 0 {
        if args.len() == 0 || cur.len() > 0 {
            args.push(SpecExpr::Object(cur))
        } else {
            args
        }
    } else {
        match attrs[0] {
            SpecJSXAttrOrSpread::Attr(a) => merge_args_loop(
                attrs.drop_first(),
                args,
                cur.push(spec_attr_to_prop(a)),
            ),
            SpecJSXAttrOrSpread::Spread(e) => {
                let args2 = if args.len() == 0 || cur.len() > 0 {
                    args.push(SpecExpr::Object(cur))
                } else {
                    args
                };
                merge_args_loop(attrs.drop_first(), args2.push(e), Seq::empty())
            },
        }
    }
}

pub open spec fn merge_args(attrs: Seq<SpecJSXAttrOrSpread>) -> Seq<SpecExpr> {
    merge_args_loop(attrs, Seq::empty(), Seq::empty())
}

/// The members of the single object literal of the no-spread branch:
/// each value analyzed, in event context when its key is an event prop.
pub open spec fn simple_props(attrs: Seq<SpecJSXAttrOrSpread>, m: ScopeNames) -> (
    Seq<SpecObjProp>,
    Seq<SpecDiagnostic>,
)
    decreases attrs, 0int,
{
    if attrs.len() == 0 {
        (Seq::empty(), Seq::empty())
    } else {
        let t = simple_props(attrs.drop_first(), m);
        match attrs[0] {
            SpecJSXAttrOrSpread::Attr(a) => {
                let key = spec_to_prop_name(a.name);
                let v = spec_transform_attr_value(a.value, m, spec_is_event_prop(key));
                (seq![SpecObjProp::KeyValue { key, value: v.0 }] + t.0, v.1 + t.1)
            },
            SpecJSXAttrOrSpread::Spread(_) => t,
        }
    }
}

/// Attribute lowering: no attributes make a null marker; any spread
/// makes an `Object.assign` merge call with [`merge_args`]; otherwise a
/// single object literal with analyzed values.
pub open spec fn spec_transform_attrs(attrs: Seq<SpecJSXAttrOrSpread>, m: ScopeNames) -> (
    SpecExpr,
    Seq<SpecDiagnostic>,
)
    decreases attrs, 2int,
{
    if attrs.len() == 0 {
        (SpecExpr::Null, Seq::empty())
    } else if has_spread(attrs) {
        (
            SpecExpr::Call {
                callee: Box::new(
                    SpecExpr::Member {
                        obj: Box::new(SpecExpr::Ident("Object"@)),
                        prop: "assign"@,
                    },
                ),
                args: merge_args(attrs),
            },
            Seq::empty(),
        )
    } else {
        let r = simple_props(attrs, m);
        (SpecExpr::Object(r.0), r.1)
    }
}

// ---------------------------------------------------------------------
// children and whole nodes
// ---------------------------------------------------------------------
/// One child: text collapses (and is dropped when it collapses to
/// nothing), nested markup recurses, an expression child is analyzed in
/// value context, an empty container contributes nothing, and a spread
/// child is unsupported: a diagnostic plus the invalid placeholder.
pub open spec fn lower_child(c: SpecJSXChild, m: ScopeNames) -> (
    Option<SpecExpr>,
    Seq<SpecDiagnostic>,
)
    decreases c, 2int,
{
    match c {
        SpecJSXChild::Text(t) => if jsx_text_value(t).len() == 0 {
            (None, Seq::empty())
        } else {
            (Some(SpecExpr::Str(jsx_text_value(t))), Seq::empty())
        },
        SpecJSXChild::Element(el) => {
            let r = lower_element(*el, m);
            (Some(r.0), r.1)
        },
        SpecJSXChild::Fragment(f) => {
            let r = lower_fragment(f, m);
            (Some(r.0), r.1)
        },
        SpecJSXChild::Expr(e) => {
            let r = spec_transform_expr(e, m, false);
            (Some(r.0), r.1)
        },
        SpecJSXChild::Empty => (None, Seq::empty()),
        SpecJSXChild::Spread(_) => (
            Some(SpecExpr::Invalid),
            seq![SpecDiagnostic::UnsupportedSpreadChild],
        ),
    }
}

pub open spec fn lower_children(s: Seq<SpecJSXChild>, m: ScopeNames) -> (
    Seq<SpecExpr>,
    Seq<SpecDiagnostic>,
)
    decreases s, 0int,
{
    if s.len() == 0 {
        (Seq::empty(), Seq::empty())
    } else {
        let h = lower_child(s[0], m);
        let t = lower_children(s.drop_first(), m);
        match h.0 {
            Some(e) => (seq![e] + t.0, h.1 + t.1),
            None => (t.0, h.1 + t.1),
        }
    }
}

/// An element lowers to `Element(name, attrs, ...children)`.
pub open spec fn lower_element(el: SpecJSXElement, m: ScopeNames) -> (
    SpecExpr,
    Seq<SpecDiagnostic>,
)
    decreases el, 3int,
{
    let n = spec_jsx_name(el.name);
    let a = spec_transform_attrs(el.attrs, m);
    let c = lower_children(el.children, m);
    (
        SpecExpr::Call {
            callee: Box::new(SpecExpr::Ident("Element"@)),
            args: seq![n.0, a.0] + c.0,
        },
        n.1 + a.1 + c.1,
    )
}

/// A fragment lowers to `Fragment(...children)`.
pub open spec fn lower_fragment(f: SpecJSXFragment, m: ScopeNames) -> (
    SpecExpr,
    Seq<SpecDiagnostic>,
)
    decreases f, 3int,
{
    let c = lower_children(f.children, m);
    (
        SpecExpr::Call { callee: Box::new(SpecExpr::Ident("Fragment"@)), args: c.0 },
        c.1,
    )
}

// ---------------------------------------------------------------------
// executable helpers
// ---------------------------------------------------------------------
proof fn lemma_diag_view_push(s: Seq<Diagnostic>, d: Diagnostic)
    ensures
        crate::statement::diagnostics_view(s.push(d)) == crate::statement::diagnostics_view(
            s,
        ).push(d@),
{
    assert(crate::statement::diagnostics_view(s.push(d))
        =~= crate::statement::diagnostics_view(s).push(d@));
}

/// Is this an event-prop name: `on` followed by an ASCII capital?
pub fn is_event_prop_name(name: &str) -> (r: bool)
    ensures
        r == spec_is_event_prop_name(name@),
{
    let n = name.unicode_len();
    if n < 3 {
        return false;
    }
    name.get_char(0) == 'o' && name.get_char(1) == 'n' && name.get_char(2) >= 'A'
        && name.get_char(2) <= 'Z'
}

/// Is this attribute key an event prop?
pub fn is_event_prop(name: &PropName) -> (r: bool)
    ensures
        r == spec_is_event_prop(name@),
{
    match name {
        PropName::Ident(s) => is_event_prop_name(s.as_str()),
        PropName::Str(s) => is_event_prop_name(s.as_str()),
    }
}

/// Lowers the object part of a member-style JSX name.
pub fn convert_jsx_obj(o: &JSXObject) -> (r: Expr)
    ensures
        r@ == spec_convert_jsx_obj(crate::ast::jsx_object_view(*o)),
    decreases o,
{
    match o {
        JSXObject::Ident(s) => {
            if crate::text::str_eq(s.as_str(), "this") {
                Expr::This
            } else {
                Expr::Ident(s.clone())
            }
        },
        JSXObject::Member { obj, prop } => Expr::Member {
            obj: Box::new(convert_jsx_obj(&**obj)),
            prop: prop.clone(),
        },
    }
}

/// Lowers an element name; a namespaced name reports a diagnostic and
/// yields the invalid placeholder.
pub fn jsx_name(n: &JSXElementName, diags: &mut Vec<Diagnostic>) -> (r: Expr)
    ensures
        ({
            let t = spec_jsx_name(crate::ast::jsx_element_name_view(*n));
            r@ == t.0 && crate::statement::diagnostics_view(final(diags)@)
                == crate::statement::diagnostics_view(old(diags)@) + t.1
        }),
{
    let ghost g0 = diags@;
    match n {
        JSXElementName::Ident(s) => {
            proof {
                assert(crate::statement::diagnostics_view(g0) + Seq::<SpecDiagnostic>::empty()
                    =~= crate::statement::diagnostics_view(g0));
            }
            if crate::text::str_eq(s.as_str(), "this") {
                Expr::This
            } else if s.as_str().unicode_len() > 0 && s.as_str().get_char(0) >= 'a'
                && s.as_str().get_char(0) <= 'z' {
                Expr::Str(s.clone())
            } else {
                Expr::Ident(s.clone())
            }
        },
        JSXElementName::Namespaced { ns, name } => {
            let d = Diagnostic::UnsupportedNamespacedName { ns: ns.clone(), name: name.clone() };
            proof {
                lemma_diag_view_push(g0, d);
                assert(crate::statement::diagnostics_view(g0).push(d@)
                    =~= crate::statement::diagnostics_view(g0) + seq![d@]);
            }
            diags.push(d);
            Expr::Invalid
        },
        JSXElementName::Member { obj, prop } => {
            proof {
                assert(crate::statement::diagnostics_view(g0) + Seq::<SpecDiagnostic>::empty()
                    =~= crate::statement::diagnostics_view(g0));
            }
            Expr::Member { obj: Box::new(convert_jsx_obj(obj)), prop: prop.clone() }
        },
    }
}

/// An attribute key as a property name.
pub fn to_prop_name(n: &JSXAttrName) -> (r: PropName)
    ensures
        r@ == spec_to_prop_name(crate::ast::jsx_attr_name_view(*n)),
{
    match n {
        JSXAttrName::Ident(s) => {
            if crate::text::str_contains_char(s.as_str(), '-') {
                PropName::Str(s.clone())
            } else {
                PropName::Ident(s.clone())
            }
        },
        JSXAttrName::Namespaced { ns, name } => {
            let mut k = ns.clone();
            crate::text::push_char(&mut k, ':');
            k.append(name.as_str());
            proof {
                assert(k@ =~= ns@ + seq![':'] + name@);
            }
            PropName::Str(k)
        },
    }
}

/// An attribute as an object-literal member, its value untouched.
pub fn attr_to_prop(a: &JSXAttr) -> (r: ObjProp)
    ensures
        crate::ast::obj_prop_view(r) == spec_attr_to_prop(crate::ast::jsx_attr_view(*a)),
{
    let key = to_prop_name(&a.name);
    let value = match &a.value {
        None => Expr::Bool(true),
        Some(JSXAttrValue::Str(s)) => Expr::Str(s.clone()),
        Some(JSXAttrValue::Expr(e)) => crate::ast::clone_expr(e),
        Some(JSXAttrValue::Element(el)) => Expr::JSXElement(
            Box::new(crate::ast::clone_jsx_element(&**el)),
        ),
        Some(JSXAttrValue::Fragment(f)) => Expr::JSXFragment(crate::ast::clone_jsx_fragment(f)),
    };
    ObjProp::KeyValue { key, value }
}

/// Does any attribute position hold a spread?
fn has_spread_exec(attrs: &Vec<JSXAttrOrSpread>) -> (r: bool)
    ensures
        r == has_spread(crate::ast::jsx_attrs_view(attrs@)),
{
    let ghost va = crate::ast::jsx_attrs_view(attrs@);
    proof {
        crate::ast::lemma_jsx_attrs_view(attrs@);
    }
    let mut i: usize = 0;
    while i < attrs.len()
        invariant
            va == crate::ast::jsx_attrs_view(attrs@),
            va.len() == attrs@.len(),
            forall|j: int| 0 <= j < va.len() ==> va[j] == crate::ast::jsx_attr_or_spread_view(
                attrs@[j],
            ),
            i <= attrs@.len(),
            forall|j: int| 0 <= j < i ==> !(#[trigger] va[j] is Spread),
        decreases attrs@.len() - i,
    {
        match &attrs[i] {
            JSXAttrOrSpread::Spread(_) => {
                proof {
                    assert(va[i as int] is Spread);
                }
                return true;
            },
            JSXAttrOrSpread::Attr(_) => {},
        }
        i += 1;
    }
    proof {
        assert(!has_spread(va)) by {
            if has_spread(va) {
                let j = choose|j: int| 0 <= j < va.len() && va[j] is Spread;
                assert(!(va[j] is Spread));
            }
        }
    }
    false
}

/// Builds the `Object.assign` argument list, batching plain attributes
/// between spreads.
fn merge_args_exec(attrs: &Vec<JSXAttrOrSpread>) -> (r: Vec<Expr>)
    ensures
        crate::ast::exprs_view(r@) == merge_args(crate::ast::jsx_attrs_view(attrs@)),
{
    let ghost va = crate::ast::jsx_attrs_view(attrs@);
    proof {
        crate::ast::lemma_jsx_attrs_view(attrs@);
    }
    let mut args: Vec<Expr> = Vec::new();
    let mut cur: Vec<ObjProp> = Vec::new();
    let mut i: usize = 0;
    proof {
        assert(va.skip(0) =~= va);
    }
    while i < attrs.len()
        invariant
            va == crate::ast::jsx_attrs_view(attrs@),
            va.len() == attrs@.len(),
            forall|j: int| 0 <= j < va.len() ==> va[j] == crate::ast::jsx_attr_or_spread_view(
                attrs@[j],
            ),
            i <= attrs@.len(),
            merge_args(va) == merge_args_loop(
                va.skip(i as int),
                crate::ast::exprs_view(args@),
                crate::ast::obj_props_view(cur@),
            ),
        decreases attrs@.len() - i,
    {
        proof {
            assert(va.skip(i as int).drop_first() =~= va.skip(i + 1 as int));
            assert(va.skip(i as int)[0] == va[i as int]);
        }
        match &attrs[i] {
            JSXAttrOrSpread::Attr(a) => {
                let ghost cur0 = cur@;
                let p = attr_to_prop(a);
                cur.push(p);
                proof {
                    crate::ast::lemma_obj_props_view(cur0.push(p));
                    crate::ast::lemma_obj_props_view(cur0);
                    assert(crate::ast::obj_props_view(cur0.push(p))
                        =~= crate::ast::obj_props_view(cur0).push(
                        crate::ast::obj_prop_view(p),
                    ));
                }
            },
            JSXAttrOrSpread::Spread(e) => {
                let ghost args0 = args@;
                let ghost cur0 = cur@;
                if args.len() == 0 || cur.len() > 0 {
                    let obj = Expr::Object(cur);
                    cur = Vec::new();
                    proof {
                        crate::ast::lemma_exprs_view(args0);
                    }
                    let ghost args_mid = args@;
                    args.push(obj);
                    proof {
                        crate::ast::lemma_exprs_view(args_mid.push(obj));
                        crate::ast::lemma_exprs_view(args_mid);
                        assert(crate::ast::exprs_view(args_mid.push(obj))
                            =~= crate::ast::exprs_view(args_mid).push(
                            crate::ast::expr_view(obj),
                        ));
                        assert(crate::ast::obj_props_view(Seq::<ObjProp>::empty())
                            =~= Seq::<SpecObjProp>::empty());
                    }
                }
                let c = crate::ast::clone_expr(e);
                let ghost args1 = args@;
                args.push(c);
                proof {
                    crate::ast::lemma_exprs_view(args1.push(c));
                    crate::ast::lemma_exprs_view(args1);
                    assert(crate::ast::exprs_view(args1.push(c))
                        =~= crate::ast::exprs_view(args1).push(crate::ast::expr_view(c)));
                }
            },
        }
        i += 1;
    }
    proof {
        assert(va.skip(va.len() as int) =~= Seq::<SpecJSXAttrOrSpread>::empty());
    }
    if args.len() == 0 || cur.len() > 0 {
        let ghost args0 = args@;
        let obj = Expr::Object(cur);
        args.push(obj);
        proof {
            crate::ast::lemma_exprs_view(args0.push(obj));
            crate::ast::lemma_exprs_view(args0);
            assert(crate::ast::exprs_view(args0.push(obj)) =~= crate::ast::exprs_view(
                args0,
            ).push(crate::ast::expr_view(obj)));
        }
        args
    } else {
        args
    }
}

/// Is `x` already recorded?
fn contains_usize(v: &Vec<usize>, x: usize) -> (r: bool)
    ensures
        r == v@.contains(x),
{
    let mut i: usize = 0;
    while i < v.len()
        invariant
            i <= v@.len(),
            forall|j: int| 0 <= j < i ==> v@[j] != x,
        decreases v@.len() - i,
    {
        if v[i] == x {
            return true;
        }
        i += 1;
    }
    proof {
        assert(!v@.contains(x)) by {
            if v@.contains(x) {
                let j = choose|j: int| 0 <= j < v@.len() && v@[j] == x;
                assert(v@[j] != x);
            }
        }
    }
    false
}

// ---------------------------------------------------------------------
// the executable analyzer / lowering cluster
// ---------------------------------------------------------------------
#[verifier::rlimit(100)]
fn analyze_expr_exec(e: &Expr, m: &IdentMap, deps: &mut Vec<usize>, diags: &mut Vec<Diagnostic>)
    -> (r: Expr)
    ensures
        ({
            let t = analyze_expr(e@, m@, old(deps)@);
            r@ == t.0 && final(deps)@ == t.1 && crate::statement::diagnostics_view(
                final(diags)@,
            ) == crate::statement::diagnostics_view(old(diags)@) + t.2
        }),
    decreases *e, 0int,
{
    let ghost g0 = crate::statement::diagnostics_view(diags@);
    proof {
        reveal_with_fuel(crate::ast::expr_view, 3);
        reveal_with_fuel(crate::ast::tpl_view, 2);
        assert(g0 + Seq::<SpecDiagnostic>::empty() =~= g0);
    }
    match e {
        Expr::Ident(s) => {
            match m.lookup(s.as_str()) {
                Some(idx) => {
                    if !contains_usize(deps, idx) {
                        deps.push(idx);
                    }
                },
                None => {},
            }
            Expr::Ident(s.clone())
        },
        Expr::This => Expr::This,
        Expr::Str(s) => Expr::Str(s.clone()),
        Expr::Bool(b) => Expr::Bool(*b),
        Expr::Num(n) => Expr::Num(*n),
        Expr::Null => Expr::Null,
        Expr::Invalid => Expr::Invalid,
        Expr::Bin { op, left, right } => {
            let ghost d0 = deps@;
            let l2 = analyze_expr_exec(&**left, m, deps, diags);
            let r2 = analyze_expr_exec(&**right, m, deps, diags);
            proof {
                let lt = analyze_expr(crate::ast::expr_view(**left), m@, d0);
                let rt = analyze_expr(crate::ast::expr_view(**right), m@, lt.1);
                assert(crate::statement::diagnostics_view(diags@) =~= g0 + (lt.2 + rt.2));
            }
            Expr::Bin { op: op.clone(), left: Box::new(l2), right: Box::new(r2) }
        },
        Expr::Member { obj, prop } => {
            let o2 = analyze_expr_exec(&**obj, m, deps, diags);
            Expr::Member { obj: Box::new(o2), prop: prop.clone() }
        },
        Expr::Call { callee, args } => {
            let ghost d0 = deps@;
            let c2 = analyze_expr_exec(&**callee, m, deps, diags);
            proof {
                assert(args@.skip(0) =~= args@);
                assert(decreases_to!(*e => *args));
            }
            let a2 = analyze_exprs_exec(args, 0, m, deps, diags);
            proof {
                let ct = analyze_expr(crate::ast::expr_view(**callee), m@, d0);
                let at = analyze_exprs(crate::ast::exprs_view(args@), m@, ct.1);
                assert(crate::ast::exprs_view(args@).skip(0) =~= crate::ast::exprs_view(args@));
                assert(crate::statement::diagnostics_view(diags@) =~= g0 + (ct.2 + at.2));
            }
            Expr::Call { callee: Box::new(c2), args: a2 }
        },
        Expr::Object(props) => {
            proof {
                assert(props@.skip(0) =~= props@);
                assert(decreases_to!(*e => *props));
            }
            let p2 = analyze_props_exec(props, 0, m, deps, diags);
            proof {
                assert(crate::ast::obj_props_view(props@).skip(0) =~= crate::ast::obj_props_view(
                    props@,
                ));
            }
            Expr::Object(p2)
        },
        Expr::Array(elems) => {
            proof {
                assert(elems@.skip(0) =~= elems@);
                assert(decreases_to!(*e => *elems));
            }
            let a2 = analyze_exprs_exec(elems, 0, m, deps, diags);
            proof {
                assert(crate::ast::exprs_view(elems@).skip(0) =~= crate::ast::exprs_view(
                    elems@,
                ));
            }
            Expr::Array(a2)
        },
        Expr::Arrow { body, is_async } => {
            let b2 = analyze_arrow_body_exec(body, m, deps, diags);
            Expr::Arrow { body: b2, is_async: *is_async }
        },
        Expr::Fn { body, is_generator } => {
            let b2 = match body {
                None => None,
                Some(b) => {
                    proof {
                        assert(b@.skip(0) =~= b@);
                        assert(decreases_to!(*e => *b));
                    }
                    let r = analyze_stmts_exec(b, 0, m, deps, diags);
                    proof {
                        assert(crate::ast::stmts_view(b@).skip(0) =~= crate::ast::stmts_view(b@));
                    }
                    Some(r)
                },
            };
            Expr::Fn { body: b2, is_generator: *is_generator }
        },
        Expr::Await(inner) => {
            let i2 = analyze_expr_exec(&**inner, m, deps, diags);
            Expr::Await(Box::new(i2))
        },
        Expr::Tpl(t) => {
            proof {
                assert(t.exprs@.skip(0) =~= t.exprs@);
                assert(decreases_to!(*e => *t));
                assert(decreases_to!(*e => t.exprs@));
                assert(crate::ast::exprs_view(t.exprs@).skip(0) =~= crate::ast::exprs_view(
                    t.exprs@,
                ));
            }
            let ex2 = analyze_exprs_exec(&t.exprs, 0, m, deps, diags);
            Expr::Tpl(
                TplLit {
                    quasis: crate::ast::clone_strings(&t.quasis),
                    exprs: ex2,
                    raws: crate::ast::clone_strings(&t.raws),
                },
            )
        },
        Expr::TaggedTpl { tag, tpl } => {
            proof {
                assert(tpl.exprs@.skip(0) =~= tpl.exprs@);
                assert(decreases_to!(*e => *tpl));
                assert(decreases_to!(*e => tpl.exprs@));
                assert(crate::ast::exprs_view(tpl.exprs@).skip(0) =~= crate::ast::exprs_view(
                    tpl.exprs@,
                ));
            }
            let ex2 = analyze_exprs_exec(&tpl.exprs, 0, m, deps, diags);
            Expr::TaggedTpl {
                tag: tag.clone(),
                tpl: TplLit {
                    quasis: crate::ast::clone_strings(&tpl.quasis),
                    exprs: ex2,
                    raws: crate::ast::clone_strings(&tpl.raws),
                },
            }
        },
        Expr::JSXElement(el) => lower_element_exec(&**el, m, diags),
        Expr::JSXFragment(f) => lower_fragment_exec(f, m, diags),
    }
}

fn analyze_exprs_exec(
    v: &Vec<Expr>,
    i: usize,
    m: &IdentMap,
    deps: &mut Vec<usize>,
    diags: &mut Vec<Diagnostic>,
) -> (r: Vec<Expr>)
    requires
        i <= v@.len(),
    ensures
        ({
            let t = analyze_exprs(crate::ast::exprs_view(v@).skip(i as int), m@, old(deps)@);
            crate::ast::exprs_view(r@) == t.0 && final(deps)@ == t.1
                && crate::statement::diagnostics_view(final(diags)@)
                == crate::statement::diagnostics_view(old(diags)@) + t.2
        }),
    decreases v@.skip(i as int), 0int,
{
    let ghost g0 = crate::statement::diagnostics_view(diags@);
    proof {
        crate::ast::lemma_exprs_view(v@);
    }
    if i == v.len() {
        let rr: Vec<Expr> = Vec::new();
        proof {
            assert(crate::ast::exprs_view(v@).skip(i as int) =~= Seq::<SpecExpr>::empty());
            assert(crate::ast::exprs_view(rr@) =~= Seq::<SpecExpr>::empty());
            assert(g0 + Seq::<SpecDiagnostic>::empty() =~= g0);
        }
        rr
    } else {
        let ghost s = crate::ast::exprs_view(v@).skip(i as int);
        let ghost d0 = deps@;
        proof {
            assert(s[0] == crate::ast::expr_view(v@[i as int]));
            assert(s.drop_first() =~= crate::ast::exprs_view(v@).skip(i + 1 as int));
            assert(v@.skip(i as int)[0] == v@[i as int]);
            assert(v@.skip(i as int).drop_first() =~= v@.skip(i + 1 as int));
        }
        let h = analyze_expr_exec(&v[i], m, deps, diags);
        let mut t = analyze_exprs_exec(v, i + 1, m, deps, diags);
        let ghost tv = t@;
        t.insert(0, h);
        proof {
            let ht = analyze_expr(s[0], m@, d0);
            let tt = analyze_exprs(s.drop_first(), m@, ht.1);
            crate::ast::lemma_exprs_view(tv.insert(0, h));
            crate::ast::lemma_exprs_view(tv);
            assert(crate::ast::exprs_view(tv.insert(0, h)) =~= seq![crate::ast::expr_view(h)]
                + crate::ast::exprs_view(tv));
            assert(crate::statement::diagnostics_view(diags@) =~= g0 + (ht.2 + tt.2));
        }
        t
    }
}

#[verifier::rlimit(100)]
fn analyze_props_exec(
    v: &Vec<ObjProp>,
    i: usize,
    m: &IdentMap,
    deps: &mut Vec<usize>,
    diags: &mut Vec<Diagnostic>,
) -> (r: Vec<ObjProp>)
    requires
        i <= v@.len(),
    ensures
        ({
            let t = analyze_props(crate::ast::obj_props_view(v@).skip(i as int), m@, old(deps)@);
            crate::ast::obj_props_view(r@) == t.0 && final(deps)@ == t.1
                && crate::statement::diagnostics_view(final(diags)@)
                == crate::statement::diagnostics_view(old(diags)@) + t.2
        }),
    decreases v@.skip(i as int), 0int,
{
    let ghost g0 = crate::statement::diagnostics_view(diags@);
    proof {
        crate::ast::lemma_obj_props_view(v@);
    }
    if i == v.len() {
        let rr: Vec<ObjProp> = Vec::new();
        proof {
            assert(crate::ast::obj_props_view(v@).skip(i as int) =~= Seq::<SpecObjProp>::empty());
            assert(crate::ast::obj_props_view(rr@) =~= Seq::<SpecObjProp>::empty());
            assert(g0 + Seq::<SpecDiagnostic>::empty() =~= g0);
        }
        rr
    } else {
        let ghost s = crate::ast::obj_props_view(v@).skip(i as int);
        let ghost d0 = deps@;
        proof {
            assert(s[0] == crate::ast::obj_prop_view(v@[i as int]));
            assert(s.drop_first() =~= crate::ast::obj_props_view(v@).skip(i + 1 as int));
            assert(v@.skip(i as int)[0] == v@[i as int]);
            assert(v@.skip(i as int).drop_first() =~= v@.skip(i + 1 as int));
        }
        let h = match &v[i] {
            ObjProp::KeyValue { key, value } => {
                let v2 = analyze_expr_exec(value, m, deps, diags);
                ObjProp::KeyValue { key: crate::ast::clone_prop_name(key), value: v2 }
            },
            ObjProp::Spread(e) => {
                let v2 = analyze_expr_exec(e, m, deps, diags);
                ObjProp::Spread(v2)
            },
        };
        let mut t = analyze_props_exec(v, i + 1, m, deps, diags);
        let ghost tv = t@;
        t.insert(0, h);
        proof {
            crate::ast::lemma_obj_props_view(tv.insert(0, h));
            crate::ast::lemma_obj_props_view(tv);
            assert(crate::ast::obj_props_view(tv.insert(0, h))
                =~= seq![crate::ast::obj_prop_view(h)] + crate::ast::obj_props_view(tv));
            let ht = match s[0] {
                SpecObjProp::KeyValue { key, value } => {
                    let vv = analyze_expr(value, m@, d0);
                    (SpecObjProp::KeyValue { key, value: vv.0 }, vv.1, vv.2)
                },
                SpecObjProp::Spread(e) => {
                    let vv = analyze_expr(e, m@, d0);
                    (SpecObjProp::Spread(vv.0), vv.1, vv.2)
                },
            };
            let tt = analyze_props(s.drop_first(), m@, ht.1);
            assert(crate::statement::diagnostics_view(diags@) =~= g0 + (ht.2 + tt.2));
        }
        t
    }
}

fn analyze_arrow_body_exec(
    b: &ArrowBody,
    m: &IdentMap,
    deps: &mut Vec<usize>,
    diags: &mut Vec<Diagnostic>,
) -> (r: ArrowBody)
    ensures
        ({
            let t = analyze_arrow_body(crate::ast::arrow_body_view(*b), m@, old(deps)@);
            crate::ast::arrow_body_view(r) == t.0 && final(deps)@ == t.1
                && crate::statement::diagnostics_view(final(diags)@)
                == crate::statement::diagnostics_view(old(diags)@) + t.2
        }),
    decreases *b, 0int,
{
    match b {
        ArrowBody::Block(stmts) => {
            proof {
                assert(stmts@.skip(0) =~= stmts@);
                assert(decreases_to!(*b => *stmts));
            }
            let r = analyze_stmts_exec(stmts, 0, m, deps, diags);
            proof {
                assert(crate::ast::stmts_view(stmts@).skip(0) =~= crate::ast::stmts_view(stmts@));
            }
            ArrowBody::Block(r)
        },
        ArrowBody::Expr(e) => {
            let r = analyze_expr_exec(&**e, m, deps, diags);
            ArrowBody::Expr(Box::new(r))
        },
    }
}

fn analyze_opt_expr_exec(
    e: &Option<Expr>,
    m: &IdentMap,
    deps: &mut Vec<usize>,
    diags: &mut Vec<Diagnostic>,
) -> (r: Option<Expr>)
    ensures
        ({
            let t = analyze_opt_expr(crate::ast::opt_expr_view(*e), m@, old(deps)@);
            crate::ast::opt_expr_view(r) == t.0 && final(deps)@ == t.1
                && crate::statement::diagnostics_view(final(diags)@)
                == crate::statement::diagnostics_view(old(diags)@) + t.2
        }),
    decreases *e, 0int,
{
    match e {
        None => {
            proof {
                assert(crate::statement::diagnostics_view(diags@)
                    + Seq::<SpecDiagnostic>::empty() =~= crate::statement::diagnostics_view(
                    diags@,
                ));
            }
            None
        },
        Some(x) => {
            let r = analyze_expr_exec(x, m, deps, diags);
            Some(r)
        },
    }
}

#[verifier::rlimit(100)]
fn analyze_stmt_exec(st: &Stmt, m: &IdentMap, deps: &mut Vec<usize>, diags: &mut Vec<Diagnostic>)
    -> (r: Stmt)
    ensures
        ({
            let t = analyze_stmt(st@, m@, old(deps)@);
            r@ == t.0 && final(deps)@ == t.1 && crate::statement::diagnostics_view(
                final(diags)@,
            ) == crate::statement::diagnostics_view(old(diags)@) + t.2
        }),
    decreases *st, 0int,
{
    let ghost g0 = crate::statement::diagnostics_view(diags@);
    proof {
        reveal_with_fuel(crate::ast::expr_view, 3);
        reveal_with_fuel(crate::ast::stmt_view, 3);
        assert(g0 + Seq::<SpecDiagnostic>::empty() =~= g0);
    }
    match st {
        Stmt::Decl(d) => {
            proof {
                assert(d.decls@.skip(0) =~= d.decls@);
                assert(decreases_to!(*st => d.decls@));
            }
            let r = analyze_declarators_exec(&d.decls, 0, m, deps, diags);
            proof {
                assert(crate::ast::declarators_view(d.decls@).skip(0)
                    =~= crate::ast::declarators_view(d.decls@));
            }
            Stmt::Decl(VarDecl { kind: d.kind, decls: r })
        },
        Stmt::Labeled { label, body } => {
            let r = analyze_stmt_exec(&**body, m, deps, diags);
            Stmt::Labeled { label: label.clone(), body: Box::new(r) }
        },
        Stmt::Expr(e) => {
            let r = analyze_expr_exec(e, m, deps, diags);
            Stmt::Expr(r)
        },
        Stmt::Return(e) => {
            let r = analyze_opt_expr_exec(e, m, deps, diags);
            Stmt::Return(r)
        },
        Stmt::Block(stmts) => {
            proof {
                assert(stmts@.skip(0) =~= stmts@);
                assert(decreases_to!(*st => *stmts));
            }
            let r = analyze_stmts_exec(stmts, 0, m, deps, diags);
            proof {
                assert(crate::ast::stmts_view(stmts@).skip(0) =~= crate::ast::stmts_view(stmts@));
            }
            Stmt::Block(r)
        },
        Stmt::If { test, cons, alt } => {
            let ghost d0 = deps@;
            let t2 = analyze_expr_exec(test, m, deps, diags);
            let c2 = analyze_stmt_exec(&**cons, m, deps, diags);
            let a2 = match alt {
                None => None,
                Some(a) => Some(Box::new(analyze_stmt_exec(&**a, m, deps, diags))),
            };
            proof {
                let tt = analyze_expr(crate::ast::expr_view(*test), m@, d0);
                let ct = analyze_stmt(crate::ast::stmt_view(**cons), m@, tt.1);
                match crate::ast::stmt_view(*st) {
                    SpecStmt::If { test: _, cons: _, alt: av } => {
                        match av {
                            None => {
                                assert(crate::statement::diagnostics_view(diags@) =~= g0 + (tt.2
                                    + ct.2));
                            },
                            Some(ab) => {
                                let at = analyze_stmt(*ab, m@, ct.1);
                                assert(crate::statement::diagnostics_view(diags@) =~= g0 + (tt.2
                                    + ct.2 + at.2));
                            },
                        }
                    },
                    _ => {},
                }
            }
            Stmt::If { test: t2, cons: Box::new(c2), alt: a2 }
        },
        Stmt::Empty => Stmt::Empty,
    }
}

fn analyze_stmts_exec(
    v: &Vec<Stmt>,
    i: usize,
    m: &IdentMap,
    deps: &mut Vec<usize>,
    diags: &mut Vec<Diagnostic>,
) -> (r: Vec<Stmt>)
    requires
        i <= v@.len(),
    ensures
        ({
            let t = analyze_stmts(crate::ast::stmts_view(v@).skip(i as int), m@, old(deps)@);
            crate::ast::stmts_view(r@) == t.0 && final(deps)@ == t.1
                && crate::statement::diagnostics_view(final(diags)@)
                == crate::statement::diagnostics_view(old(diags)@) + t.2
        }),
    decreases v@.skip(i as int), 0int,
{
    let ghost g0 = crate::statement::diagnostics_view(diags@);
    proof {
        crate::ast::lemma_stmts_view(v@);
    }
    if i == v.len() {
        let rr: Vec<Stmt> = Vec::new();
        proof {
            assert(crate::ast::stmts_view(v@).skip(i as int) =~= Seq::<SpecStmt>::empty());
            assert(crate::ast::stmts_view(rr@) =~= Seq::<SpecStmt>::empty());
            assert(g0 + Seq::<SpecDiagnostic>::empty() =~= g0);
        }
        rr
    } else {
        let ghost s = crate::ast::stmts_view(v@).skip(i as int);
        let ghost d0 = deps@;
        proof {
            assert(s[0] == crate::ast::stmt_view(v@[i as int]));
            assert(s.drop_first() =~= crate::ast::stmts_view(v@).skip(i + 1 as int));
            assert(v@.skip(i as int)[0] == v@[i as int]);
            assert(v@.skip(i as int).drop_first() =~= v@.skip(i + 1 as int));
        }
        let h = analyze_stmt_exec(&v[i], m, deps, diags);
        let mut t = analyze_stmts_exec(v, i + 1, m, deps, diags);
        let ghost tv = t@;
        t.insert(0, h);
        proof {
            let ht = analyze_stmt(s[0], m@, d0);
            let tt = analyze_stmts(s.drop_first(), m@, ht.1);
            crate::ast::lemma_stmts_view(tv.insert(0, h));
            crate::ast::lemma_stmts_view(tv);
            assert(crate::ast::stmts_view(tv.insert(0, h)) =~= seq![crate::ast::stmt_view(h)]
                + crate::ast::stmts_view(tv));
            assert(crate::statement::diagnostics_view(diags@) =~= g0 + (ht.2 + tt.2));
        }
        t
    }
}

fn analyze_declarators_exec(
    v: &Vec<VarDeclarator>,
    i: usize,
    m: &IdentMap,
    deps: &mut Vec<usize>,
    diags: &mut Vec<Diagnostic>,
) -> (r: Vec<VarDeclarator>)
    requires
        i <= v@.len(),
    ensures
        ({
            let t = analyze_declarators(
                crate::ast::declarators_view(v@).skip(i as int),
                m@,
                old(deps)@,
            );
            crate::ast::declarators_view(r@) == t.0 && final(deps)@ == t.1
                && crate::statement::diagnostics_view(final(diags)@)
                == crate::statement::diagnostics_view(old(diags)@) + t.2
        }),
    decreases v@.skip(i as int), 0int,
{
    let ghost g0 = crate::statement::diagnostics_view(diags@);
    proof {
        crate::ast::lemma_declarators_view(v@);
    }
    if i == v.len() {
        let rr: Vec<VarDeclarator> = Vec::new();
        proof {
            assert(crate::ast::declarators_view(v@).skip(i as int)
                =~= Seq::<SpecVarDeclarator>::empty());
            assert(crate::ast::declarators_view(rr@) =~= Seq::<SpecVarDeclarator>::empty());
            assert(g0 + Seq::<SpecDiagnostic>::empty() =~= g0);
        }
        rr
    } else {
        let ghost s = crate::ast::declarators_view(v@).skip(i as int);
        let ghost d0 = deps@;
        proof {
            assert(s[0] == crate::ast::declarator_view(v@[i as int]));
            assert(s.drop_first() =~= crate::ast::declarators_view(v@).skip(i + 1 as int));
            assert(v@.skip(i as int)[0] == v@[i as int]);
            assert(v@.skip(i as int).drop_first() =~= v@.skip(i + 1 as int));
        }
        let init2 = analyze_opt_expr_exec(&v[i].init, m, deps, diags);
        let h = VarDeclarator { name: crate::ast::clone_pat(&v[i].name), init: init2 };
        let mut t = analyze_declarators_exec(v, i + 1, m, deps, diags);
        let ghost tv = t@;
        t.insert(0, h);
        proof {
            let ht = analyze_opt_expr(s[0].init, m@, d0);
            let tt = analyze_declarators(s.drop_first(), m@, ht.1);
            crate::ast::lemma_declarators_view(tv.insert(0, h));
            crate::ast::lemma_declarators_view(tv);
            assert(crate::ast::declarators_view(tv.insert(0, h))
                =~= seq![crate::ast::declarator_view(h)] + crate::ast::declarators_view(tv));
            assert(crate::statement::diagnostics_view(diags@) =~= g0 + (ht.2 + tt.2));
        }
        t
    }
}

#[verifier::rlimit(100)]
fn transform_expr_exec(e: &Expr, m: &IdentMap, is_event: bool, diags: &mut Vec<Diagnostic>) -> (r:
    Expr)
    ensures
        ({
            let t = spec_transform_expr(e@, m@, is_event);
            r@ == t.0 && crate::statement::diagnostics_view(final(diags)@)
                == crate::statement::diagnostics_view(old(diags)@) + t.1
        }),
    decreases *e, 1int,
{
    let mut deps: Vec<usize> = Vec::new();
    proof {
        reveal_with_fuel(crate::ast::expr_view, 4);
        assert(deps@ =~= Seq::<usize>::empty());
    }
    let e2 = analyze_expr_exec(e, m, &mut deps, diags);
    if deps.len() > 0 {
        let mut nums: Vec<Expr> = Vec::new();
        let mut k: usize = 0;
        while k < deps.len()
            invariant
                k <= deps@.len(),
                nums@.len() == k,
                forall|j: int| 0 <= j < k ==> crate::ast::expr_view(#[trigger] nums@[j])
                    == SpecExpr::Num(deps@[j] as u64),
            decreases deps@.len() - k,
        {
            nums.push(Expr::Num(deps[k] as u64));
            k += 1;
        }
        proof {
            crate::ast::lemma_exprs_view(nums@);
            assert(crate::ast::exprs_view(nums@) =~= dep_nums(deps@));
        }
        let arr = Expr::Array(nums);
        if is_event {
            let mut args: Vec<Expr> = Vec::new();
            args.push(e2);
            args.push(arr);
            let ghost t = spec_transform_expr(e@, m@, is_event);
            proof {
                crate::ast::lemma_exprs_view(args@);
                assert(crate::ast::exprs_view(args@) =~= t.0->Call_args);
            }
            Expr::Call { callee: Box::new(Expr::Ident("Dirty".to_owned())), args }
        } else {
            let arrow = Expr::Arrow { body: ArrowBody::Expr(Box::new(e2)), is_async: false };
            let mut args: Vec<Expr> = Vec::new();
            args.push(arrow);
            args.push(arr);
            let ghost t = spec_transform_expr(e@, m@, is_event);
            proof {
                crate::ast::lemma_exprs_view(args@);
                assert(crate::ast::exprs_view(args@) =~= t.0->Call_args);
            }
            Expr::Call { callee: Box::new(Expr::Ident("Memo".to_owned())), args }
        }
    } else {
        e2
    }
}

fn transform_attr_value_exec(
    v: &Option<JSXAttrValue>,
    m: &IdentMap,
    is_event: bool,
    diags: &mut Vec<Diagnostic>,
) -> (r: Expr)
    ensures
        ({
            let t = spec_transform_attr_value(
                match v {
                    Some(x) => Some(crate::ast::jsx_attr_value_view(*x)),
                    None => None,
                },
                m@,
                is_event,
            );
            r@ == t.0 && crate::statement::diagnostics_view(final(diags)@)
                == crate::statement::diagnostics_view(old(diags)@) + t.1
        }),
    decreases *v, 1int,
{
    let ghost g0 = crate::statement::diagnostics_view(diags@);
    proof {
        assert(g0 + Seq::<SpecDiagnostic>::empty() =~= g0);
    }
    match v {
        None => Expr::Bool(true),
        Some(JSXAttrValue::Str(s)) => Expr::Str(s.clone()),
        Some(JSXAttrValue::Expr(e)) => transform_expr_exec(e, m, is_event, diags),
        Some(JSXAttrValue::Element(el)) => lower_element_exec(&**el, m, diags),
        Some(JSXAttrValue::Fragment(f)) => lower_fragment_exec(f, m, diags),
    }
}

#[verifier::rlimit(100)]
fn simple_props_exec(
    attrs: &Vec<JSXAttrOrSpread>,
    i: usize,
    m: &IdentMap,
    diags: &mut Vec<Diagnostic>,
) -> (r: Vec<ObjProp>)
    requires
        i <= attrs@.len(),
    ensures
        ({
            let t = simple_props(crate::ast::jsx_attrs_view(attrs@).skip(i as int), m@);
            crate::ast::obj_props_view(r@) == t.0 && crate::statement::diagnostics_view(
                final(diags)@,
            ) == crate::statement::diagnostics_view(old(diags)@) + t.1
        }),
    decreases attrs@.skip(i as int), 0int,
{
    let ghost g0 = crate::statement::diagnostics_view(diags@);
    proof {
        reveal_with_fuel(crate::ast::expr_view, 3);
        crate::ast::lemma_jsx_attrs_view(attrs@);
    }
    if i == attrs.len() {
        let rr: Vec<ObjProp> = Vec::new();
        proof {
            assert(crate::ast::jsx_attrs_view(attrs@).skip(i as int)
                =~= Seq::<SpecJSXAttrOrSpread>::empty());
            assert(crate::ast::obj_props_view(rr@) =~= Seq::<SpecObjProp>::empty());
            assert(g0 + Seq::<SpecDiagnostic>::empty() =~= g0);
        }
        rr
    } else {
        let ghost s = crate::ast::jsx_attrs_view(attrs@).skip(i as int);
        proof {
            assert(s[0] == crate::ast::jsx_attr_or_spread_view(attrs@[i as int]));
            assert(s.drop_first() =~= crate::ast::jsx_attrs_view(attrs@).skip(i + 1 as int));
            assert(attrs@.skip(i as int)[0] == attrs@[i as int]);
            assert(attrs@.skip(i as int).drop_first() =~= attrs@.skip(i + 1 as int));
        }
        match &attrs[i] {
            JSXAttrOrSpread::Attr(a) => {
                let key = to_prop_name(&a.name);
                let ev = is_event_prop(&key);
                let value = transform_attr_value_exec(&a.value, m, ev, diags);
                let h = ObjProp::KeyValue { key, value };
                let mut t = simple_props_exec(attrs, i + 1, m, diags);
                let ghost tv = t@;
                t.insert(0, h);
                proof {
                    let at = crate::ast::jsx_attr_view(*a);
                    let kt = spec_to_prop_name(at.name);
                    let vt = spec_transform_attr_value(at.value, m@, spec_is_event_prop(kt));
                    let tt = simple_props(s.drop_first(), m@);
                    crate::ast::lemma_obj_props_view(tv.insert(0, h));
                    crate::ast::lemma_obj_props_view(tv);
                    assert(crate::ast::obj_props_view(tv.insert(0, h))
                        =~= seq![crate::ast::obj_prop_view(h)] + crate::ast::obj_props_view(tv));
                    assert(crate::statement::diagnostics_view(diags@) =~= g0 + (vt.1 + tt.1));
                }
                t
            },
            JSXAttrOrSpread::Spread(_) => {
                let t = simple_props_exec(attrs, i + 1, m, diags);
                t
            },
        }
    }
}

#[verifier::rlimit(100)]
fn transform_attrs_exec(attrs: &Vec<JSXAttrOrSpread>, m: &IdentMap, diags: &mut Vec<Diagnostic>)
    -> (r: Expr)
    ensures
        ({
            let t = spec_transform_attrs(crate::ast::jsx_attrs_view(attrs@), m@);
            r@ == t.0 && crate::statement::diagnostics_view(final(diags)@)
                == crate::statement::diagnostics_view(old(diags)@) + t.1
        }),
    decreases attrs@, 2int,
{
    let ghost g0 = crate::statement::diagnostics_view(diags@);
    proof {
        reveal_with_fuel(crate::ast::expr_view, 4);
        crate::ast::lemma_jsx_attrs_view(attrs@);
        assert(g0 + Seq::<SpecDiagnostic>::empty() =~= g0);
    }
    if attrs.len() == 0 {
        proof {
            assert(crate::ast::jsx_attrs_view(attrs@).len() == 0);
        }
        Expr::Null
    } else if has_spread_exec(attrs) {
        let args = merge_args_exec(attrs);
        Expr::Call {
            callee: Box::new(
                Expr::Member { obj: Box::new(Expr::Ident("Object".to_owned())), prop: "assign"
                    .to_owned() },
            ),
            args,
        }
    } else {
        proof {
            assert(attrs@.skip(0) =~= attrs@);
            assert(crate::ast::jsx_attrs_view(attrs@).skip(0) =~= crate::ast::jsx_attrs_view(
                attrs@,
            ));
        }
        let props = simple_props_exec(attrs, 0, m, diags);
        Expr::Object(props)
    }
}

fn lower_child_exec(c: &JSXChild, m: &IdentMap, diags: &mut Vec<Diagnostic>) -> (r: Option<Expr>)
    ensures
        ({
            let t = lower_child(crate::ast::jsx_child_view(*c), m@);
            (match (r, t.0) {
                (Some(e), Some(se)) => e@ == se,
                (None, None) => true,
                _ => false,
            }) && crate::statement::diagnostics_view(final(diags)@)
                == crate::statement::diagnostics_view(old(diags)@) + t.1
        }),
    decreases *c, 2int,
{
    let ghost g0 = crate::statement::diagnostics_view(diags@);
    proof {
        assert(g0 + Seq::<SpecDiagnostic>::empty() =~= g0);
    }
    match c {
        JSXChild::Text(t) => {
            let s = crate::text::jsx_text_to_string(t.as_str());
            if s.as_str().unicode_len() == 0 {
                None
            } else {
                Some(Expr::Str(s))
            }
        },
        JSXChild::Element(el) => Some(lower_element_exec(&**el, m, diags)),
        JSXChild::Fragment(f) => Some(lower_fragment_exec(f, m, diags)),
        JSXChild::Expr(e) => Some(transform_expr_exec(e, m, false, diags)),
        JSXChild::Empty => None,
        JSXChild::Spread(_) => {
            let d = Diagnostic::UnsupportedSpreadChild;
            proof {
                lemma_diag_view_push(diags@, d);
                assert(g0.push(d@) =~= g0 + seq![d@]);
            }
            diags.push(d);
            Some(Expr::Invalid)
        },
    }
}

fn lower_children_exec(
    v: &Vec<JSXChild>,
    i: usize,
    m: &IdentMap,
    diags: &mut Vec<Diagnostic>,
) -> (r: Vec<Expr>)
    requires
        i <= v@.len(),
    ensures
        ({
            let t = lower_children(crate::ast::jsx_children_view(v@).skip(i as int), m@);
            crate::ast::exprs_view(r@) == t.0 && crate::statement::diagnostics_view(
                final(diags)@,
            ) == crate::statement::diagnostics_view(old(diags)@) + t.1
        }),
    decreases v@.skip(i as int), 0int,
{
    let ghost g0 = crate::statement::diagnostics_view(diags@);
    proof {
        crate::ast::lemma_jsx_children_view(v@);
    }
    if i == v.len() {
        let rr: Vec<Expr> = Vec::new();
        proof {
            assert(crate::ast::jsx_children_view(v@).skip(i as int)
                =~= Seq::<SpecJSXChild>::empty());
            assert(crate::ast::exprs_view(rr@) =~= Seq::<SpecExpr>::empty());
            assert(g0 + Seq::<SpecDiagnostic>::empty() =~= g0);
        }
        rr
    } else {
        let ghost s = crate::ast::jsx_children_view(v@).skip(i as int);
        proof {
            assert(s[0] == crate::ast::jsx_child_view(v@[i as int]));
            assert(s.drop_first() =~= crate::ast::jsx_children_view(v@).skip(i + 1 as int));
            assert(v@.skip(i as int)[0] == v@[i as int]);
            assert(v@.skip(i as int).drop_first() =~= v@.skip(i + 1 as int));
        }
        let h = lower_child_exec(&v[i], m, diags);
        let mut t = lower_children_exec(v, i + 1, m, diags);
        let ghost ht = lower_child(s[0], m@);
        let ghost tt = lower_children(s.drop_first(), m@);
        match h {
            Some(e) => {
                let ghost tv = t@;
                t.insert(0, e);
                proof {
                    crate::ast::lemma_exprs_view(tv.insert(0, e));
                    crate::ast::lemma_exprs_view(tv);
                    assert(crate::ast::exprs_view(tv.insert(0, e))
                        =~= seq![crate::ast::expr_view(e)] + crate::ast::exprs_view(tv));
                    assert(crate::statement::diagnostics_view(diags@) =~= g0 + (ht.1 + tt.1));
                }
                t
            },
            None => {
                proof {
                    assert(crate::statement::diagnostics_view(diags@) =~= g0 + (ht.1 + tt.1));
                }
                t
            },
        }
    }
}

#[verifier::rlimit(100)]
pub(crate) fn lower_element_exec(el: &JSXElement, m: &IdentMap, diags: &mut Vec<Diagnostic>) -> (r: Expr)
    ensures
        ({
            let t = lower_element(el@, m@);
            r@ == t.0 && crate::statement::diagnostics_view(final(diags)@)
                == crate::statement::diagnostics_view(old(diags)@) + t.1
        }),
    decreases *el, 3int,
{
    proof {
        reveal_with_fuel(crate::ast::expr_view, 4);
    }
    let ghost g0 = crate::statement::diagnostics_view(diags@);
    let name_e = jsx_name(&el.name, diags);
    let attrs_e = transform_attrs_exec(&el.attrs, m, diags);
    proof {
        assert(el.children@.skip(0) =~= el.children@);
        assert(decreases_to!(*el => el.children@));
        assert(crate::ast::jsx_children_view(el.children@).skip(0)
            =~= crate::ast::jsx_children_view(el.children@));
    }
    let mut children = lower_children_exec(&el.children, 0, m, diags);
    let mut args: Vec<Expr> = Vec::new();
    args.push(name_e);
    args.push(attrs_e);
    let ghost cv = children@;
    args.append(&mut children);
    proof {
        let nt = spec_jsx_name(crate::ast::jsx_element_name_view(el.name));
        let at = spec_transform_attrs(crate::ast::jsx_attrs_view(el.attrs@), m@);
        let ct = lower_children(crate::ast::jsx_children_view(el.children@), m@);
        crate::ast::lemma_exprs_view(args@);
        crate::ast::lemma_exprs_view(cv);
        assert(crate::ast::exprs_view(args@) =~= seq![nt.0, at.0] + ct.0);
        assert(crate::statement::diagnostics_view(diags@) =~= g0 + (nt.1 + at.1 + ct.1));
    }
    Expr::Call { callee: Box::new(Expr::Ident("Element".to_owned())), args }
}

#[verifier::rlimit(100)]
pub(crate) fn lower_fragment_exec(f: &JSXFragment, m: &IdentMap, diags: &mut Vec<Diagnostic>) -> (r: Expr)
    ensures
        ({
            let t = lower_fragment(f@, m@);
            r@ == t.0 && crate::statement::diagnostics_view(final(diags)@)
                == crate::statement::diagnostics_view(old(diags)@) + t.1
        }),
    decreases *f, 3int,
{
    proof {
        assert(f.children@.skip(0) =~= f.children@);
        assert(decreases_to!(*f => f.children@));
        assert(crate::ast::jsx_children_view(f.children@).skip(0)
            =~= crate::ast::jsx_children_view(f.children@));
    }
    let children = lower_children_exec(&f.children, 0, m, diags);
    let ghost cvv = children@;
    proof {
        reveal_with_fuel(crate::ast::expr_view, 4);
    }
    let name = "Fragment".to_owned();
    proof {
        assert(name@ == "Fragment"@);
    }
    let r = Expr::Call { callee: Box::new(Expr::Ident(name)), args: children };
    proof {
        let ct = lower_children(crate::ast::jsx_children_view(f.children@), m@);
        assert(crate::ast::exprs_view(cvv) == ct.0);
        assert(r@->Call_args == ct.0);
        assert(r@->Call_callee == Box::new(SpecExpr::Ident("Fragment"@)));
        assert(r@ == lower_fragment(f@, m@).0);
    }
    r
}

// ---------------------------------------------------------------------
// the transformer
// ---------------------------------------------------------------------
/// The markup lowering engine: owns the scope identifier map of the
/// lexical scope the markup stands in, and reports diagnostics through
/// the vector handed to each call.
#[derive(Debug, PartialEq, Eq)]
pub struct JSXTransformer {
    pub scope_idents: IdentMap,
}

impl JSXTransformer {
    /// A transformer over the given scope.
    pub fn new(scope_idents: IdentMap) -> (r: JSXTransformer)
        ensures
            r.scope_idents@ == scope_idents@,
    {
        JSXTransformer { scope_idents }
    }

    /// Lowers an element to its `Element(...)` constructor call.
    pub fn transform_element(&self, el: &JSXElement, diags: &mut Vec<Diagnostic>) -> (r: Expr)
        ensures
            ({
                let t = lower_element(el@, self.scope_idents@);
                r@ == t.0 && crate::statement::diagnostics_view(final(diags)@)
                    == crate::statement::diagnostics_view(old(diags)@) + t.1
            }),
    {
        lower_element_exec(el, &self.scope_idents, diags)
    }

    /// Lowers a fragment to its `Fragment(...)` constructor call.
    pub fn transform_fragment(&self, f: &JSXFragment, diags: &mut Vec<Diagnostic>) -> (r: Expr)
        ensures
            ({
                let t = lower_fragment(f@, self.scope_idents@);
                r@ == t.0 && crate::statement::diagnostics_view(final(diags)@)
                    == crate::statement::diagnostics_view(old(diags)@) + t.1
            }),
    {
        lower_fragment_exec(f, &self.scope_idents, diags)
    }

    /// A placeholder for conditional rendering: not lowered yet, the
    /// statement is consumed and an empty statement takes its place.
    pub fn transform_condition(&self, if_stmt: &Stmt) -> (r: Stmt)
        ensures
            r@ == SpecStmt::Empty,
    {
        let _ = if_stmt;
        Stmt::Empty
    }

    /// Analyzes one expression and applies the reactive wrapping, in
    /// value context (`is_event == false`) or event context.
    pub fn transform_expr(&self, e: &Expr, is_event: bool, diags: &mut Vec<Diagnostic>) -> (r:
        Expr)
        ensures
            ({
                let t = spec_transform_expr(e@, self.scope_idents@, is_event);
                r@ == t.0 && crate::statement::diagnostics_view(final(diags)@)
                    == crate::statement::diagnostics_view(old(diags)@) + t.1
            }),
    {
        transform_expr_exec(e, &self.scope_idents, is_event, diags)
    }
}

} // verus!
