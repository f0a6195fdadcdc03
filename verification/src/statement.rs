//! The typed component statements the classifier produces, and the
//! diagnostics the lowering reports through its side channel.

use vstd::prelude::*;

use crate::ast::expr_view;
use crate::ast::import_specifiers_view;
use crate::ast::opt_expr_view;
use crate::ast::opt_string_view;
use crate::ast::pat_view;
use crate::ast::stmt_view;
use crate::ast::Expr;
use crate::ast::ImportSpecifier;
use crate::ast::Pat;
use crate::ast::SpecExpr;
use crate::ast::SpecImportSpecifier;
use crate::ast::SpecPat;
use crate::ast::SpecStmt;
use crate::ast::Stmt;
use crate::resolve::CSSTemplate;
use crate::resolve::SpecCSSTemplate;

verus! {

/// The tag a const declaration gets from its type annotation.
#[derive(Clone, Copy, Debug, PartialEq, Eq, Structural)]
pub enum ConstTypedKind {
    Regular,
    Prop,
    PropWithSlots,
    Context,
    Memo,
}

/// A diagnostic reported during lowering. Reporting does not halt
/// traversal: sibling nodes still lower in the same pass, but a unit
/// with any diagnostic must be treated as failed downstream.
#[derive(Clone, Debug, PartialEq, Eq)]
pub enum Diagnostic {
    /// A namespaced JSX element or attribute name with no runtime
    /// representation.
    UnsupportedNamespacedName { ns: String, name: String },
    /// A JSX spread child, which the lowering cannot represent.
    UnsupportedSpreadChild,
}

pub enum SpecDiagnostic {
    UnsupportedNamespacedName { ns: Seq<char>, name: Seq<char> },
    UnsupportedSpreadChild,
}

impl View for Diagnostic {
    type V = SpecDiagnostic;

    open spec fn view(&self) -> SpecDiagnostic {
        match self {
            Diagnostic::UnsupportedNamespacedName { ns, name } =>
                SpecDiagnostic::UnsupportedNamespacedName { ns: ns@, name: name@ },
            Diagnostic::UnsupportedSpreadChild => SpecDiagnostic::UnsupportedSpreadChild,
        }
    }
}

pub open spec fn diagnostics_view(s: Seq<Diagnostic>) -> Seq<SpecDiagnostic> {
    s.map_values(|d: Diagnostic| d@)
}

/// A lowered render template, keeping which markup form it came from.
#[derive(Debug, PartialEq, Eq)]
pub enum TemplateStatement {
    Element(Expr),
    Fragment(Expr),
}

pub enum SpecTemplateStatement {
    Element(SpecExpr),
    Fragment(SpecExpr),
}

/// One typed statement of a component.
#[derive(Debug, PartialEq, Eq)]
pub enum Statement {
    Import { specifiers: Vec<ImportSpecifier>, src: String, is_alef_component: bool },
    Export { expr: Expr },
    Const { typed: ConstTypedKind, name: Pat, expr: Option<Expr> },
    Var { name: Pat, expr: Option<Expr>, is_array: bool, is_ref: bool, is_async: bool },
    SideEffect { name: Option<String>, stmt: Box<Stmt> },
    Template(TemplateStatement),
    Style { css: CSSTemplate },
    FunctionComponent { statements: Vec<Statement> },
    Raw { stmt: Stmt },
}

pub enum SpecStatement {
    Import {
        specifiers: Seq<SpecImportSpecifier>,
        src: Seq<char>,
        is_alef_component: bool,
    },
    Export { expr: SpecExpr },
    Const { typed: ConstTypedKind, name: SpecPat, expr: Option<SpecExpr> },
    Var {
        name: SpecPat,
        expr: Option<SpecExpr>,
        is_array: bool,
        is_ref: bool,
        is_async: bool,
    },
    SideEffect { name: Option<Seq<char>>, stmt: Box<SpecStmt> },
    Template(SpecTemplateStatement),
    Style { css: SpecCSSTemplate },
    FunctionComponent { statements: Seq<SpecStatement> },
    Raw { stmt: SpecStmt },
}

pub open spec fn template_statement_view(t: TemplateStatement) -> SpecTemplateStatement {
    match t {
        TemplateStatement::Element(e) => SpecTemplateStatement::Element(expr_view(e)),
        TemplateStatement::Fragment(e) => SpecTemplateStatement::Fragment(expr_view(e)),
    }
}

pub open spec fn statement_view(s: Statement) -> SpecStatement
    decreases s,
{
    match s {
        Statement::Import { specifiers, src, is_alef_component } => SpecStatement::Import {
            specifiers: import_specifiers_view(specifiers@),
            src: src@,
            is_alef_component,
        },
        Statement::Export { expr } => SpecStatement::Export { expr: expr_view(expr) },
        Statement::Const { typed, name, expr } => SpecStatement::Const {
            typed,
            name: pat_view(name),
            expr: opt_expr_view(expr),
        },
        Statement::Var { name, expr, is_array, is_ref, is_async } => SpecStatement::Var {
            name: pat_view(name),
            expr: opt_expr_view(expr),
            is_array,
            is_ref,
            is_async,
        },
        Statement::SideEffect { name, stmt } => SpecStatement::SideEffect {
            name: opt_string_view(name),
            stmt: Box::new(stmt_view(*stmt)),
        },
        Statement::Template(t) => SpecStatement::Template(template_statement_view(t)),
        Statement::Style { css } => SpecStatement::Style { css: css@ },
        Statement::FunctionComponent { statements } => SpecStatement::FunctionComponent {
            statements: statements_view(statements@),
        },
        Statement::Raw { stmt } => SpecStatement::Raw { stmt: stmt_view(stmt) },
    }
}

pub open spec fn statements_view(s: Seq<Statement>) -> Seq<SpecStatement>
    decreases s,
{
    if s.len() == 0 {
        Seq::empty()
    } else {
        seq![statement_view(s[0])] + statements_view(s.drop_first())
    }
}

impl View for Statement {
    type V = SpecStatement;

    open spec fn view(&self) -> SpecStatement {
        statement_view(*self)
    }
}

pub proof fn lemma_statements_view(s: Seq<Statement>)
    ensures
        statements_view(s).len() == s.len(),
        forall|i: int| 0 <= i < s.len() ==> statements_view(s)[i] == statement_view(s[i]),
    decreases s,
{
    if s.len() > 0 {
        lemma_statements_view(s.drop_first());
    }
}

/// Concatenation distributes over the statement-list view.
pub proof fn lemma_statements_view_concat(a: Seq<Statement>, b: Seq<Statement>)
    ensures
        statements_view(a + b) == statements_view(a) + statements_view(b),
    decreases a,
{
    if a.len() == 0 {
        assert(a + b =~= b);
        assert(statements_view(a) + statements_view(b) =~= statements_view(b));
    } else {
        lemma_statements_view_concat(a.drop_first(), b);
        assert((a + b).drop_first() =~= a.drop_first() + b);
        assert(seq![statement_view((a + b)[0])] + (statements_view(a.drop_first())
            + statements_view(b)) =~= (seq![statement_view(a[0])] + statements_view(
            a.drop_first(),
        )) + statements_view(b));
    }
}

/// The finished component: the ordered statement sequence, which fully
/// replaces the original module content.
#[derive(Debug, PartialEq, Eq)]
pub struct AST {
    pub statements: Vec<Statement>,
}

impl View for AST {
    type V = Seq<SpecStatement>;

    open spec fn view(&self) -> Seq<SpecStatement> {
        statements_view(self.statements@)
    }
}

} // verus!
