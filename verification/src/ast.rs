//! The input syntax tree: a plain, self-contained model of the
//! JavaScript/TypeScript/JSX shapes the compiler reads, together with
//! ghost mirror types (`Spec*`) over `Seq` used by all contracts.
//!
//! An external parser produces these values from source text; the
//! compiler only ever walks them.

use vstd::prelude::*;

verus! {

// ---------------------------------------------------------------------
// exec types
// ---------------------------------------------------------------------
/// A type annotation, as far as the classifier reads it.
#[derive(Debug, PartialEq, Eq)]
pub enum TsType {
    /// A reference type such as `Prop`, `Prop<Slots>`, `Ref<T>`.
    Ref { name: String, args: Vec<TsType> },
    /// An array type `T[]`.
    Array(Box<TsType>),
    /// Any other annotation shape.
    Other,
}

/// A binding pattern with its optional type annotation.
#[derive(Debug, PartialEq, Eq)]
pub enum Pat {
    Ident { name: String, type_ann: Option<TsType> },
    Array { type_ann: Option<TsType> },
    Object { type_ann: Option<TsType> },
}

/// An object-literal property key.
#[derive(Clone, Debug, PartialEq, Eq)]
pub enum PropName {
    Ident(String),
    Str(String),
}

/// An object-literal member.
#[derive(Debug, PartialEq, Eq)]
pub enum ObjProp {
    KeyValue { key: PropName, value: Expr },
    Spread(Expr),
}

/// A template literal. `exprs[i]` is the interpolation between
/// `quasis[i]` and `quasis[i + 1]`; `raws[i]` is its source snippet,
/// which the scoped-style template stores verbatim.
#[derive(Debug, PartialEq, Eq)]
pub struct TplLit {
    pub quasis: Vec<String>,
    pub exprs: Vec<Expr>,
    pub raws: Vec<String>,
}

/// The body of an arrow function.
#[derive(Debug, PartialEq, Eq)]
pub enum ArrowBody {
    Block(Vec<Stmt>),
    Expr(Box<Expr>),
}

/// An expression.
#[derive(Debug, PartialEq, Eq)]
pub enum Expr {
    Ident(String),
    This,
    Str(String),
    Bool(bool),
    Num(u64),
    Null,
    /// The inert placeholder substituted for unsupported constructs.
    Invalid,
    Bin { op: String, left: Box<Expr>, right: Box<Expr> },
    Member { obj: Box<Expr>, prop: String },
    Call { callee: Box<Expr>, args: Vec<Expr> },
    Object(Vec<ObjProp>),
    Array(Vec<Expr>),
    Arrow { body: ArrowBody, is_async: bool },
    Fn { body: Option<Vec<Stmt>>, is_generator: bool },
    Await(Box<Expr>),
    Tpl(TplLit),
    TaggedTpl { tag: String, tpl: TplLit },
    JSXElement(Box<JSXElement>),
    JSXFragment(JSXFragment),
}

/// The declaration keyword of a variable statement.
#[derive(Clone, Copy, Debug, PartialEq, Eq, Structural)]
pub enum VarDeclKind {
    Const,
    Let,
    Var,
}

/// One `name = init` declarator.
#[derive(Debug, PartialEq, Eq)]
pub struct VarDeclarator {
    pub name: Pat,
    pub init: Option<Expr>,
}

/// A whole variable declaration.
#[derive(Debug, PartialEq, Eq)]
pub struct VarDecl {
    pub kind: VarDeclKind,
    pub decls: Vec<VarDeclarator>,
}

/// A statement.
#[derive(Debug, PartialEq, Eq)]
pub enum Stmt {
    Decl(VarDecl),
    Labeled { label: String, body: Box<Stmt> },
    Expr(Expr),
    Return(Option<Expr>),
    Block(Vec<Stmt>),
    If { test: Expr, cons: Box<Stmt>, alt: Option<Box<Stmt>> },
    Empty,
}

/// The object part of a member-style JSX name (`A.B.C`).
#[derive(Debug, PartialEq, Eq)]
pub enum JSXObject {
    Ident(String),
    Member { obj: Box<JSXObject>, prop: String },
}

/// The name of a JSX element.
#[derive(Debug, PartialEq, Eq)]
pub enum JSXElementName {
    Ident(String),
    Namespaced { ns: String, name: String },
    Member { obj: JSXObject, prop: String },
}

/// The name of a JSX attribute.
#[derive(Debug, PartialEq, Eq)]
pub enum JSXAttrName {
    Ident(String),
    Namespaced { ns: String, name: String },
}

/// The value of a JSX attribute, when one is written.
#[derive(Debug, PartialEq, Eq)]
pub enum JSXAttrValue {
    Str(String),
    Expr(Expr),
    Element(Box<JSXElement>),
    Fragment(JSXFragment),
}

/// One plain JSX attribute.
#[derive(Debug, PartialEq, Eq)]
pub struct JSXAttr {
    pub name: JSXAttrName,
    pub value: Option<JSXAttrValue>,
}

/// An attribute position: a plain attribute or a `{...expr}` spread.
#[derive(Debug, PartialEq, Eq)]
pub enum JSXAttrOrSpread {
    Attr(JSXAttr),
    Spread(Expr),
}

/// One child position of an element or fragment.
#[derive(Debug, PartialEq, Eq)]
pub enum JSXChild {
    Text(String),
    Element(Box<JSXElement>),
    Fragment(JSXFragment),
    /// An expression container `{expr}`.
    Expr(Expr),
    /// An empty expression container `{}`.
    Empty,
    /// A spread child `{...expr}` (unsupported by the lowering).
    Spread(Expr),
}

/// A JSX element.
#[derive(Debug, PartialEq, Eq)]
pub struct JSXElement {
    pub name: JSXElementName,
    pub attrs: Vec<JSXAttrOrSpread>,
    pub children: Vec<JSXChild>,
}

/// A JSX fragment `<>...</>`.
#[derive(Debug, PartialEq, Eq)]
pub struct JSXFragment {
    pub children: Vec<JSXChild>,
}

/// One specifier of an import declaration.
#[derive(Clone, Debug, PartialEq, Eq)]
pub enum ImportSpecifier {
    Named { local: String, imported: Option<String> },
    Default(String),
    Namespace(String),
}

/// One top-level item of a module.
#[derive(Debug, PartialEq, Eq)]
pub enum ModuleItem {
    Import { specifiers: Vec<ImportSpecifier>, src: String },
    ExportDefault(Expr),
    /// Any other module-declaration form; consumed without output.
    OtherModuleDecl,
    Stmt(Stmt),
}

// ---------------------------------------------------------------------
// ghost mirrors
// ---------------------------------------------------------------------
pub enum SpecTsType {
    Ref { name: Seq<char>, args: Seq<SpecTsType> },
    Array(Box<SpecTsType>),
    Other,
}

pub enum SpecPat {
    Ident { name: Seq<char>, type_ann: Option<SpecTsType> },
    Array { type_ann: Option<SpecTsType> },
    Object { type_ann: Option<SpecTsType> },
}

pub enum SpecPropName {
    Ident(Seq<char>),
    Str(Seq<char>),
}

pub enum SpecObjProp {
    KeyValue { key: SpecPropName, value: SpecExpr },
    Spread(SpecExpr),
}

pub struct SpecTplLit {
    pub quasis: Seq<Seq<char>>,
    pub exprs: Seq<SpecExpr>,
    pub raws: Seq<Seq<char>>,
}

pub enum SpecArrowBody {
    Block(Seq<SpecStmt>),
    Expr(Box<SpecExpr>),
}

pub enum SpecExpr {
    Ident(Seq<char>),
    This,
    Str(Seq<char>),
    Bool(bool),
    Num(u64),
    Null,
    Invalid,
    Bin { op: Seq<char>, left: Box<SpecExpr>, right: Box<SpecExpr> },
    Member { obj: Box<SpecExpr>, prop: Seq<char> },
    Call { callee: Box<SpecExpr>, args: Seq<SpecExpr> },
    Object(Seq<SpecObjProp>),
    Array(Seq<SpecExpr>),
    Arrow { body: SpecArrowBody, is_async: bool },
    Fn { body: Option<Seq<SpecStmt>>, is_generator: bool },
    Await(Box<SpecExpr>),
    Tpl(SpecTplLit),
    TaggedTpl { tag: Seq<char>, tpl: SpecTplLit },
    JSXElement(Box<SpecJSXElement>),
    JSXFragment(SpecJSXFragment),
}

pub struct SpecVarDeclarator {
    pub name: SpecPat,
    pub init: Option<SpecExpr>,
}

pub struct SpecVarDecl {
    pub kind: VarDeclKind,
    pub decls: Seq<SpecVarDeclarator>,
}

pub enum SpecStmt {
    Decl(SpecVarDecl),
    Labeled { label: Seq<char>, body: Box<SpecStmt> },
    Expr(SpecExpr),
    Return(Option<SpecExpr>),
    Block(Seq<SpecStmt>),
    If { test: SpecExpr, cons: Box<SpecStmt>, alt: Option<Box<SpecStmt>> },
    Empty,
}

pub enum SpecJSXObject {
    Ident(Seq<char>),
    Member { obj: Box<SpecJSXObject>, prop: Seq<char> },
}

pub enum SpecJSXElementName {
    Ident(Seq<char>),
    Namespaced { ns: Seq<char>, name: Seq<char> },
    Member { obj: SpecJSXObject, prop: Seq<char> },
}

pub enum SpecJSXAttrName {
    Ident(Seq<char>),
    Namespaced { ns: Seq<char>, name: Seq<char> },
}

pub enum SpecJSXAttrValue {
    Str(Seq<char>),
    Expr(SpecExpr),
    Element(Box<SpecJSXElement>),
    Fragment(SpecJSXFragment),
}

pub struct SpecJSXAttr {
    pub name: SpecJSXAttrName,
    pub value: Option<SpecJSXAttrValue>,
}

pub enum SpecJSXAttrOrSpread {
    Attr(SpecJSXAttr),
    Spread(SpecExpr),
}

pub enum SpecJSXChild {
    Text(Seq<char>),
    Element(Box<SpecJSXElement>),
    Fragment(SpecJSXFragment),
    Expr(SpecExpr),
    Empty,
    Spread(SpecExpr),
}

pub struct SpecJSXElement {
    pub name: SpecJSXElementName,
    pub attrs: Seq<SpecJSXAttrOrSpread>,
    pub children: Seq<SpecJSXChild>,
}

pub struct SpecJSXFragment {
    pub children: Seq<SpecJSXChild>,
}

pub enum SpecImportSpecifier {
    Named { local: Seq<char>, imported: Option<Seq<char>> },
    Default(Seq<char>),
    Namespace(Seq<char>),
}

pub enum SpecModuleItem {
    Import { specifiers: Seq<SpecImportSpecifier>, src: Seq<char> },
    ExportDefault(SpecExpr),
    OtherModuleDecl,
    Stmt(SpecStmt),
}

// ---------------------------------------------------------------------
// view functions
// ---------------------------------------------------------------------
pub open spec fn strings_view(s: Seq<String>) -> Seq<Seq<char>> {
    s.map_values(|x: String| x@)
}

pub open spec fn opt_string_view(s: Option<String>) -> Option<Seq<char>> {
    match s {
        Some(x) => Some(x@),
        None => None,
    }
}

pub open spec fn ts_type_view(t: TsType) -> SpecTsType
    decreases t,
{
    match t {
        TsType::Ref { name, args } => SpecTsType::Ref { name: name@, args: ts_types_view(args@) },
        TsType::Array(inner) => SpecTsType::Array(Box::new(ts_type_view(*inner))),
        TsType::Other => SpecTsType::Other,
    }
}

pub open spec fn ts_types_view(s: Seq<TsType>) -> Seq<SpecTsType>
    decreases s,
{
    if s.len() == 0 {
        Seq::empty()
    } else {
        seq![ts_type_view(s[0])] + ts_types_view(s.drop_first())
    }
}

pub open spec fn opt_ts_type_view(t: Option<TsType>) -> Option<SpecTsType> {
    match t {
        Some(x) => Some(ts_type_view(x)),
        None => None,
    }
}

pub open spec fn pat_view(p: Pat) -> SpecPat
    decreases p,
{
    match p {
        Pat::Ident { name, type_ann } => SpecPat::Ident {
            name: name@,
            type_ann: opt_ts_type_view(type_ann),
        },
        Pat::Array { type_ann } => SpecPat::Array { type_ann: opt_ts_type_view(type_ann) },
        Pat::Object { type_ann } => SpecPat::Object { type_ann: opt_ts_type_view(type_ann) },
    }
}

pub open spec fn prop_name_view(n: PropName) -> SpecPropName {
    match n {
        PropName::Ident(s) => SpecPropName::Ident(s@),
        PropName::Str(s) => SpecPropName::Str(s@),
    }
}

pub open spec fn tpl_view(t: TplLit) -> SpecTplLit
    decreases t,
{
    SpecTplLit {
        quasis: strings_view(t.quasis@),
        exprs: exprs_view(t.exprs@),
        raws: strings_view(t.raws@),
    }
}

pub open spec fn expr_view(e: Expr) -> SpecExpr
    decreases e,
{
    match e {
        Expr::Ident(s) => SpecExpr::Ident(s@),
        Expr::This => SpecExpr::This,
        Expr::Str(s) => SpecExpr::Str(s@),
        Expr::Bool(b) => SpecExpr::Bool(b),
        Expr::Num(n) => SpecExpr::Num(n),
        Expr::Null => SpecExpr::Null,
        Expr::Invalid => SpecExpr::Invalid,
        Expr::Bin { op, left, right } => SpecExpr::Bin {
            op: op@,
            left: Box::new(expr_view(*left)),
            right: Box::new(expr_view(*right)),
        },
        Expr::Member { obj, prop } => SpecExpr::Member {
            obj: Box::new(expr_view(*obj)),
            prop: prop@,
        },
        Expr::Call { callee, args } => SpecExpr::Call {
            callee: Box::new(expr_view(*callee)),
            args: exprs_view(args@),
        },
        Expr::Object(props) => SpecExpr::Object(obj_props_view(props@)),
        Expr::Array(elems) => SpecExpr::Array(exprs_view(elems@)),
        Expr::Arrow { body, is_async } => SpecExpr::Arrow {
            body: arrow_body_view(body),
            is_async,
        },
        Expr::Fn { body, is_generator } => SpecExpr::Fn {
            body: match body {
                Some(b) => Some(stmts_view(b@)),
                None => None,
            },
            is_generator,
        },
        Expr::Await(inner) => SpecExpr::Await(Box::new(expr_view(*inner))),
        Expr::Tpl(t) => SpecExpr::Tpl(tpl_view(t)),
        Expr::TaggedTpl { tag, tpl } => SpecExpr::TaggedTpl { tag: tag@, tpl: tpl_view(tpl) },
        Expr::JSXElement(el) => SpecExpr::JSXElement(Box::new(jsx_element_view(*el))),
        Expr::JSXFragment(f) => SpecExpr::JSXFragment(jsx_fragment_view(f)),
    }
}

pub open spec fn exprs_view(s: Seq<Expr>) -> Seq<SpecExpr>
    decreases s,
{
    if s.len() == 0 {
        Seq::empty()
    } else {
        seq![expr_view(s[0])] + exprs_view(s.drop_first())
    }
}

pub open spec fn opt_expr_view(e: Option<Expr>) -> Option<SpecExpr>
    decreases e,
{
    match e {
        Some(x) => Some(expr_view(x)),
        None => None,
    }
}

pub open spec fn obj_prop_view(p: ObjProp) -> SpecObjProp
    decreases p,
{
    match p {
        ObjProp::KeyValue { key, value } => SpecObjProp::KeyValue {
            key: prop_name_view(key),
            value: expr_view(value),
        },
        ObjProp::Spread(e) => SpecObjProp::Spread(expr_view(e)),
    }
}

pub open spec fn obj_props_view(s: Seq<ObjProp>) -> Seq<SpecObjProp>
    decreases s,
{
    if s.len() == 0 {
        Seq::empty()
    } else {
        seq![obj_prop_view(s[0])] + obj_props_view(s.drop_first())
    }
}

pub open spec fn arrow_body_view(b: ArrowBody) -> SpecArrowBody
    decreases b,
{
    match b {
        ArrowBody::Block(stmts) => SpecArrowBody::Block(stmts_view(stmts@)),
        ArrowBody::Expr(e) => SpecArrowBody::Expr(Box::new(expr_view(*e))),
    }
}

pub open spec fn declarator_view(d: VarDeclarator) -> SpecVarDeclarator
    decreases d,
{
    SpecVarDeclarator { name: pat_view(d.name), init: opt_expr_view(d.init) }
}

pub open spec fn declarators_view(s: Seq<VarDeclarator>) -> Seq<SpecVarDeclarator>
    decreases s,
{
    if s.len() == 0 {
        Seq::empty()
    } else {
        seq![declarator_view(s[0])] + declarators_view(s.drop_first())
    }
}

pub open spec fn var_decl_view(d: VarDecl) -> SpecVarDecl
    decreases d,
{
    SpecVarDecl { kind: d.kind, decls: declarators_view(d.decls@) }
}

pub open spec fn stmt_view(s: Stmt) -> SpecStmt
    decreases s,
{
    match s {
        Stmt::Decl(d) => SpecStmt::Decl(var_decl_view(d)),
        Stmt::Labeled { label, body } => SpecStmt::Labeled {
            label: label@,
            body: Box::new(stmt_view(*body)),
        },
        Stmt::Expr(e) => SpecStmt::Expr(expr_view(e)),
        Stmt::Return(e) => SpecStmt::Return(opt_expr_view(e)),
        Stmt::Block(stmts) => SpecStmt::Block(stmts_view(stmts@)),
        Stmt::If { test, cons, alt } => SpecStmt::If {
            test: expr_view(test),
            cons: Box::new(stmt_view(*cons)),
            alt: match alt {
                Some(a) => Some(Box::new(stmt_view(*a))),
                None => None,
            },
        },
        Stmt::Empty => SpecStmt::Empty,
    }
}

pub open spec fn stmts_view(s: Seq<Stmt>) -> Seq<SpecStmt>
    decreases s,
{
    if s.len() == 0 {
        Seq::empty()
    } else {
        seq![stmt_view(s[0])] + stmts_view(s.drop_first())
    }
}

pub open spec fn jsx_object_view(o: JSXObject) -> SpecJSXObject
    decreases o,
{
    match o {
        JSXObject::Ident(s) => SpecJSXObject::Ident(s@),
        JSXObject::Member { obj, prop } => SpecJSXObject::Member {
            obj: Box::new(jsx_object_view(*obj)),
            prop: prop@,
        },
    }
}

pub open spec fn jsx_element_name_view(n: JSXElementName) -> SpecJSXElementName
    decreases n,
{
    match n {
        JSXElementName::Ident(s) => SpecJSXElementName::Ident(s@),
        JSXElementName::Namespaced { ns, name } => SpecJSXElementName::Namespaced {
            ns: ns@,
            name: name@,
        },
        JSXElementName::Member { obj, prop } => SpecJSXElementName::Member {
            obj: jsx_object_view(obj),
            prop: prop@,
        },
    }
}

pub open spec fn jsx_attr_name_view(n: JSXAttrName) -> SpecJSXAttrName {
    match n {
        JSXAttrName::Ident(s) => SpecJSXAttrName::Ident(s@),
        JSXAttrName::Namespaced { ns, name } => SpecJSXAttrName::Namespaced {
            ns: ns@,
            name: name@,
        },
    }
}

pub open spec fn jsx_attr_value_view(v: JSXAttrValue) -> SpecJSXAttrValue
    decreases v,
{
    match v {
        JSXAttrValue::Str(s) => SpecJSXAttrValue::Str(s@),
        JSXAttrValue::Expr(e) => SpecJSXAttrValue::Expr(expr_view(e)),
        JSXAttrValue::Element(el) => SpecJSXAttrValue::Element(
            Box::new(jsx_element_view(*el)),
        ),
        JSXAttrValue::Fragment(f) => SpecJSXAttrValue::Fragment(jsx_fragment_view(f)),
    }
}

pub open spec fn jsx_attr_view(a: JSXAttr) -> SpecJSXAttr
    decreases a,
{
    SpecJSXAttr {
        name: jsx_attr_name_view(a.name),
        value: match a.value {
            Some(v) => Some(jsx_attr_value_view(v)),
            None => None,
        },
    }
}

pub open spec fn jsx_attr_or_spread_view(a: JSXAttrOrSpread) -> SpecJSXAttrOrSpread
    decreases a,
{
    match a {
        JSXAttrOrSpread::Attr(attr) => SpecJSXAttrOrSpread::Attr(jsx_attr_view(attr)),
        JSXAttrOrSpread::Spread(e) => SpecJSXAttrOrSpread::Spread(expr_view(e)),
    }
}

pub open spec fn jsx_attrs_view(s: Seq<JSXAttrOrSpread>) -> Seq<SpecJSXAttrOrSpread>
    decreases s,
{
    if s.len() == 0 {
        Seq::empty()
    } else {
        seq![jsx_attr_or_spread_view(s[0])] + jsx_attrs_view(s.drop_first())
    }
}

pub open spec fn jsx_child_view(c: JSXChild) -> SpecJSXChild
    decreases c,
{
    match c {
        JSXChild::Text(s) => SpecJSXChild::Text(s@),
        JSXChild::Element(el) => SpecJSXChild::Element(Box::new(jsx_element_view(*el))),
        JSXChild::Fragment(f) => SpecJSXChild::Fragment(jsx_fragment_view(f)),
        JSXChild::Expr(e) => SpecJSXChild::Expr(expr_view(e)),
        JSXChild::Empty => SpecJSXChild::Empty,
        JSXChild::Spread(e) => SpecJSXChild::Spread(expr_view(e)),
    }
}

pub open spec fn jsx_children_view(s: Seq<JSXChild>) -> Seq<SpecJSXChild>
    decreases s,
{
    if s.len() == 0 {
        Seq::empty()
    } else {
        seq![jsx_child_view(s[0])] + jsx_children_view(s.drop_first())
    }
}

pub open spec fn jsx_element_view(el: JSXElement) -> SpecJSXElement
    decreases el,
{
    SpecJSXElement {
        name: jsx_element_name_view(el.name),
        attrs: jsx_attrs_view(el.attrs@),
        children: jsx_children_view(el.children@),
    }
}

pub open spec fn jsx_fragment_view(f: JSXFragment) -> SpecJSXFragment
    decreases f,
{
    SpecJSXFragment { children: jsx_children_view(f.children@) }
}

pub open spec fn import_specifier_view(s: ImportSpecifier) -> SpecImportSpecifier {
    match s {
        ImportSpecifier::Named { local, imported } => SpecImportSpecifier::Named {
            local: local@,
            imported: opt_string_view(imported),
        },
        ImportSpecifier::Default(s) => SpecImportSpecifier::Default(s@),
        ImportSpecifier::Namespace(s) => SpecImportSpecifier::Namespace(s@),
    }
}

pub open spec fn import_specifiers_view(s: Seq<ImportSpecifier>) -> Seq<SpecImportSpecifier>
    decreases s,
{
    if s.len() == 0 {
        Seq::empty()
    } else {
        seq![import_specifier_view(s[0])] + import_specifiers_view(s.drop_first())
    }
}

pub open spec fn module_item_view(m: ModuleItem) -> SpecModuleItem
    decreases m,
{
    match m {
        ModuleItem::Import { specifiers, src } => SpecModuleItem::Import {
            specifiers: import_specifiers_view(specifiers@),
            src: src@,
        },
        ModuleItem::ExportDefault(e) => SpecModuleItem::ExportDefault(expr_view(e)),
        ModuleItem::OtherModuleDecl => SpecModuleItem::OtherModuleDecl,
        ModuleItem::Stmt(s) => SpecModuleItem::Stmt(stmt_view(s)),
    }
}

pub open spec fn module_items_view(s: Seq<ModuleItem>) -> Seq<SpecModuleItem>
    decreases s,
{
    if s.len() == 0 {
        Seq::empty()
    } else {
        seq![module_item_view(s[0])] + module_items_view(s.drop_first())
    }
}

// ---------------------------------------------------------------------
// View impls, so that contracts can write `x@`
// ---------------------------------------------------------------------
impl View for TsType {
    type V = SpecTsType;

    open spec fn view(&self) -> SpecTsType {
        ts_type_view(*self)
    }
}

impl View for Pat {
    type V = SpecPat;

    open spec fn view(&self) -> SpecPat {
        pat_view(*self)
    }
}

impl View for PropName {
    type V = SpecPropName;

    open spec fn view(&self) -> SpecPropName {
        prop_name_view(*self)
    }
}

impl View for Expr {
    type V = SpecExpr;

    open spec fn view(&self) -> SpecExpr {
        expr_view(*self)
    }
}

impl View for Stmt {
    type V = SpecStmt;

    open spec fn view(&self) -> SpecStmt {
        stmt_view(*self)
    }
}

impl View for JSXElement {
    type V = SpecJSXElement;

    open spec fn view(&self) -> SpecJSXElement {
        jsx_element_view(*self)
    }
}

impl View for JSXFragment {
    type V = SpecJSXFragment;

    open spec fn view(&self) -> SpecJSXFragment {
        jsx_fragment_view(*self)
    }
}

impl View for ModuleItem {
    type V = SpecModuleItem;

    open spec fn view(&self) -> SpecModuleItem {
        module_item_view(*self)
    }
}

// ---------------------------------------------------------------------
// pointwise characterisation of the list views
// ---------------------------------------------------------------------
pub proof fn lemma_exprs_view(s: Seq<Expr>)
    ensures
        exprs_view(s).len() == s.len(),
        forall|i: int| 0 <= i < s.len() ==> exprs_view(s)[i] == expr_view(s[i]),
    decreases s,
{
    if s.len() > 0 {
        lemma_exprs_view(s.drop_first());
    }
}

pub proof fn lemma_stmts_view(s: Seq<Stmt>)
    ensures
        stmts_view(s).len() == s.len(),
        forall|i: int| 0 <= i < s.len() ==> stmts_view(s)[i] == stmt_view(s[i]),
    decreases s,
{
    if s.len() > 0 {
        lemma_stmts_view(s.drop_first());
    }
}

pub proof fn lemma_obj_props_view(s: Seq<ObjProp>)
    ensures
        obj_props_view(s).len() == s.len(),
        forall|i: int| 0 <= i < s.len() ==> obj_props_view(s)[i] == obj_prop_view(s[i]),
    decreases s,
{
    if s.len() > 0 {
        lemma_obj_props_view(s.drop_first());
    }
}

pub proof fn lemma_declarators_view(s: Seq<VarDeclarator>)
    ensures
        declarators_view(s).len() == s.len(),
        forall|i: int| 0 <= i < s.len() ==> declarators_view(s)[i] == declarator_view(s[i]),
    decreases s,
{
    if s.len() > 0 {
        lemma_declarators_view(s.drop_first());
    }
}

pub proof fn lemma_ts_types_view(s: Seq<TsType>)
    ensures
        ts_types_view(s).len() == s.len(),
        forall|i: int| 0 <= i < s.len() ==> ts_types_view(s)[i] == ts_type_view(s[i]),
    decreases s,
{
    if s.len() > 0 {
        lemma_ts_types_view(s.drop_first());
    }
}

// ---------------------------------------------------------------------
// deep copies, proved to keep the view
// ---------------------------------------------------------------------
/// Copies a string vector.
pub fn clone_strings(v: &Vec<String>) -> (r: Vec<String>)
    ensures
        r@ == v@,
{
    let mut r: Vec<String> = Vec::new();
    let mut i: usize = 0;
    while i < v.len()
        invariant
            i <= v@.len(),
            r@ == v@.subrange(0, i as int),
        decreases v@.len() - i,
    {
        r.push(v[i].clone());
        proof {
            assert(r@ =~= v@.subrange(0, i + 1 as int));
        }
        i += 1;
    }
    proof {
        assert(v@.subrange(0, v@.len() as int) =~= v@);
    }
    r
}

pub fn clone_opt_string(o: &Option<String>) -> (r: Option<String>)
    ensures
        r == *o,
{
    match o {
        Some(s) => Some(s.clone()),
        None => None,
    }
}

pub fn clone_ts_type(t: &TsType) -> (r: TsType)
    ensures
        r@ == t@,
    decreases t,
{
    match t {
        TsType::Ref { name, args } => TsType::Ref { name: name.clone(), args: clone_ts_types(args) },
        TsType::Array(inner) => TsType::Array(Box::new(clone_ts_type(&**inner))),
        TsType::Other => TsType::Other,
    }
}

pub fn clone_ts_types(v: &Vec<TsType>) -> (r: Vec<TsType>)
    ensures
        ts_types_view(r@) == ts_types_view(v@),
    decreases v@,
{
    let mut r: Vec<TsType> = Vec::new();
    let mut i: usize = 0;
    while i < v.len()
        invariant
            i <= v@.len(),
            r@.len() == i,
            forall|j: int| 0 <= j < i ==> ts_type_view(#[trigger] r@[j]) == ts_type_view(v@[j]),
        decreases v@.len() - i,
    {
        let c = clone_ts_type(&v[i]);
        r.push(c);
        i += 1;
    }
    proof {
        lemma_ts_types_view(r@);
        lemma_ts_types_view(v@);
        assert(ts_types_view(r@) =~= ts_types_view(v@));
    }
    r
}

pub fn clone_opt_ts_type(t: &Option<TsType>) -> (r: Option<TsType>)
    ensures
        opt_ts_type_view(r) == opt_ts_type_view(*t),
{
    match t {
        Some(x) => Some(clone_ts_type(x)),
        None => None,
    }
}

pub fn clone_pat(p: &Pat) -> (r: Pat)
    ensures
        r@ == p@,
{
    match p {
        Pat::Ident { name, type_ann } => Pat::Ident {
            name: name.clone(),
            type_ann: clone_opt_ts_type(type_ann),
        },
        Pat::Array { type_ann } => Pat::Array { type_ann: clone_opt_ts_type(type_ann) },
        Pat::Object { type_ann } => Pat::Object { type_ann: clone_opt_ts_type(type_ann) },
    }
}

pub fn clone_prop_name(n: &PropName) -> (r: PropName)
    ensures
        r@ == n@,
{
    match n {
        PropName::Ident(s) => PropName::Ident(s.clone()),
        PropName::Str(s) => PropName::Str(s.clone()),
    }
}

pub fn clone_tpl(t: &TplLit) -> (r: TplLit)
    ensures
        tpl_view(r) == tpl_view(*t),
    decreases t,
{
    TplLit {
        quasis: clone_strings(&t.quasis),
        exprs: clone_exprs(&t.exprs),
        raws: clone_strings(&t.raws),
    }
}

pub fn clone_expr(e: &Expr) -> (r: Expr)
    ensures
        r@ == e@,
    decreases e,
{
    match e {
        Expr::Ident(s) => Expr::Ident(s.clone()),
        Expr::This => Expr::This,
        Expr::Str(s) => Expr::Str(s.clone()),
        Expr::Bool(b) => Expr::Bool(*b),
        Expr::Num(n) => Expr::Num(*n),
        Expr::Null => Expr::Null,
        Expr::Invalid => Expr::Invalid,
        Expr::Bin { op, left, right } => Expr::Bin {
            op: op.clone(),
            left: Box::new(clone_expr(&**left)),
            right: Box::new(clone_expr(&**right)),
        },
        Expr::Member { obj, prop } => Expr::Member {
            obj: Box::new(clone_expr(&**obj)),
            prop: prop.clone(),
        },
        Expr::Call { callee, args } => Expr::Call {
            callee: Box::new(clone_expr(&**callee)),
            args: clone_exprs(args),
        },
        Expr::Object(props) => Expr::Object(clone_obj_props(props)),
        Expr::Array(elems) => Expr::Array(clone_exprs(elems)),
        Expr::Arrow { body, is_async } => Expr::Arrow {
            body: clone_arrow_body(body),
            is_async: *is_async,
        },
        Expr::Fn { body, is_generator } => Expr::Fn {
            body: match body {
                Some(b) => Some(clone_stmts(b)),
                None => None,
            },
            is_generator: *is_generator,
        },
        Expr::Await(inner) => Expr::Await(Box::new(clone_expr(&**inner))),
        Expr::Tpl(t) => Expr::Tpl(clone_tpl(t)),
        Expr::TaggedTpl { tag, tpl } => Expr::TaggedTpl { tag: tag.clone(), tpl: clone_tpl(tpl) },
        Expr::JSXElement(el) => Expr::JSXElement(Box::new(clone_jsx_element(&**el))),
        Expr::JSXFragment(f) => Expr::JSXFragment(clone_jsx_fragment(f)),
    }
}

pub fn clone_exprs(v: &Vec<Expr>) -> (r: Vec<Expr>)
    ensures
        exprs_view(r@) == exprs_view(v@),
    decreases v@,
{
    let mut r: Vec<Expr> = Vec::new();
    let mut i: usize = 0;
    while i < v.len()
        invariant
            i <= v@.len(),
            r@.len() == i,
            forall|j: int| 0 <= j < i ==> expr_view(#[trigger] r@[j]) == expr_view(v@[j]),
        decreases v@.len() - i,
    {
        let c = clone_expr(&v[i]);
        r.push(c);
        i += 1;
    }
    proof {
        lemma_exprs_view(r@);
        lemma_exprs_view(v@);
        assert(exprs_view(r@) =~= exprs_view(v@));
    }
    r
}

pub fn clone_opt_expr(e: &Option<Expr>) -> (r: Option<Expr>)
    ensures
        opt_expr_view(r) == opt_expr_view(*e),
    decreases e,
{
    match e {
        Some(x) => Some(clone_expr(x)),
        None => None,
    }
}

pub fn clone_obj_props(v: &Vec<ObjProp>) -> (r: Vec<ObjProp>)
    ensures
        obj_props_view(r@) == obj_props_view(v@),
    decreases v@,
{
    let mut r: Vec<ObjProp> = Vec::new();
    let mut i: usize = 0;
    while i < v.len()
        invariant
            i <= v@.len(),
            r@.len() == i,
            forall|j: int| 0 <= j < i ==> obj_prop_view(#[trigger] r@[j]) == obj_prop_view(
                v@[j],
            ),
        decreases v@.len() - i,
    {
        let c = match &v[i] {
            ObjProp::KeyValue { key, value } => ObjProp::KeyValue {
                key: match key {
                    PropName::Ident(s) => PropName::Ident(s.clone()),
                    PropName::Str(s) => PropName::Str(s.clone()),
                },
                value: clone_expr(value),
            },
            ObjProp::Spread(e) => ObjProp::Spread(clone_expr(e)),
        };
        r.push(c);
        i += 1;
    }
    proof {
        lemma_obj_props_view(r@);
        lemma_obj_props_view(v@);
        assert(obj_props_view(r@) =~= obj_props_view(v@));
    }
    r
}

pub fn clone_arrow_body(b: &ArrowBody) -> (r: ArrowBody)
    ensures
        arrow_body_view(r) == arrow_body_view(*b),
    decreases b,
{
    match b {
        ArrowBody::Block(stmts) => ArrowBody::Block(clone_stmts(stmts)),
        ArrowBody::Expr(e) => ArrowBody::Expr(Box::new(clone_expr(&**e))),
    }
}

pub fn clone_stmt(s: &Stmt) -> (r: Stmt)
    ensures
        r@ == s@,
    decreases s,
{
    match s {
        Stmt::Decl(d) => Stmt::Decl(clone_var_decl(d)),
        Stmt::Labeled { label, body } => Stmt::Labeled {
            label: label.clone(),
            body: Box::new(clone_stmt(&**body)),
        },
        Stmt::Expr(e) => Stmt::Expr(clone_expr(e)),
        Stmt::Return(e) => Stmt::Return(clone_opt_expr(e)),
        Stmt::Block(stmts) => Stmt::Block(clone_stmts(stmts)),
        Stmt::If { test, cons, alt } => Stmt::If {
            test: clone_expr(test),
            cons: Box::new(clone_stmt(&**cons)),
            alt: match alt {
                Some(a) => Some(Box::new(clone_stmt(&**a))),
                None => None,
            },
        },
        Stmt::Empty => Stmt::Empty,
    }
}

pub fn clone_stmts(v: &Vec<Stmt>) -> (r: Vec<Stmt>)
    ensures
        stmts_view(r@) == stmts_view(v@),
    decreases v@,
{
    let mut r: Vec<Stmt> = Vec::new();
    let mut i: usize = 0;
    while i < v.len()
        invariant
            i <= v@.len(),
            r@.len() == i,
            forall|j: int| 0 <= j < i ==> stmt_view(#[trigger] r@[j]) == stmt_view(v@[j]),
        decreases v@.len() - i,
    {
        let c = clone_stmt(&v[i]);
        r.push(c);
        i += 1;
    }
    proof {
        lemma_stmts_view(r@);
        lemma_stmts_view(v@);
        assert(stmts_view(r@) =~= stmts_view(v@));
    }
    r
}

pub fn clone_declarator(d: &VarDeclarator) -> (r: VarDeclarator)
    ensures
        declarator_view(r) == declarator_view(*d),
    decreases d,
{
    VarDeclarator { name: clone_pat(&d.name), init: clone_opt_expr(&d.init) }
}

pub fn clone_var_decl(d: &VarDecl) -> (r: VarDecl)
    ensures
        var_decl_view(r) == var_decl_view(*d),
    decreases d,
{
    let mut decls: Vec<VarDeclarator> = Vec::new();
    let mut i: usize = 0;
    while i < d.decls.len()
        invariant
            i <= d.decls@.len(),
            decls@.len() == i,
            forall|j: int| 0 <= j < i ==> declarator_view(#[trigger] decls@[j])
                == declarator_view(d.decls@[j]),
        decreases d.decls@.len() - i,
    {
        let c = clone_declarator(&d.decls[i]);
        decls.push(c);
        i += 1;
    }
    proof {
        lemma_declarators_view(decls@);
        lemma_declarators_view(d.decls@);
        assert(declarators_view(decls@) =~= declarators_view(d.decls@));
    }
    VarDecl { kind: d.kind, decls }
}

pub fn clone_jsx_object(o: &JSXObject) -> (r: JSXObject)
    ensures
        jsx_object_view(r) == jsx_object_view(*o),
    decreases o,
{
    match o {
        JSXObject::Ident(s) => JSXObject::Ident(s.clone()),
        JSXObject::Member { obj, prop } => JSXObject::Member {
            obj: Box::new(clone_jsx_object(&**obj)),
            prop: prop.clone(),
        },
    }
}

pub fn clone_jsx_element_name(n: &JSXElementName) -> (r: JSXElementName)
    ensures
        jsx_element_name_view(r) == jsx_element_name_view(*n),
{
    match n {
        JSXElementName::Ident(s) => JSXElementName::Ident(s.clone()),
        JSXElementName::Namespaced { ns, name } => JSXElementName::Namespaced {
            ns: ns.clone(),
            name: name.clone(),
        },
        JSXElementName::Member { obj, prop } => JSXElementName::Member {
            obj: clone_jsx_object(obj),
            prop: prop.clone(),
        },
    }
}

pub fn clone_jsx_attr_value(v: &JSXAttrValue) -> (r: JSXAttrValue)
    ensures
        jsx_attr_value_view(r) == jsx_attr_value_view(*v),
    decreases v,
{
    match v {
        JSXAttrValue::Str(s) => JSXAttrValue::Str(s.clone()),
        JSXAttrValue::Expr(e) => JSXAttrValue::Expr(clone_expr(e)),
        JSXAttrValue::Element(el) => JSXAttrValue::Element(Box::new(clone_jsx_element(&**el))),
        JSXAttrValue::Fragment(f) => JSXAttrValue::Fragment(clone_jsx_fragment(f)),
    }
}

pub fn clone_jsx_attr(a: &JSXAttr) -> (r: JSXAttr)
    ensures
        jsx_attr_view(r) == jsx_attr_view(*a),
    decreases a,
{
    JSXAttr {
        name: match &a.name {
            JSXAttrName::Ident(s) => JSXAttrName::Ident(s.clone()),
            JSXAttrName::Namespaced { ns, name } => JSXAttrName::Namespaced {
                ns: ns.clone(),
                name: name.clone(),
            },
        },
        value: match &a.value {
            Some(v) => Some(clone_jsx_attr_value(v)),
            None => None,
        },
    }
}

pub fn clone_jsx_attrs(v: &Vec<JSXAttrOrSpread>) -> (r: Vec<JSXAttrOrSpread>)
    ensures
        jsx_attrs_view(r@) == jsx_attrs_view(v@),
    decreases v@,
{
    let mut r: Vec<JSXAttrOrSpread> = Vec::new();
    let mut i: usize = 0;
    while i < v.len()
        invariant
            i <= v@.len(),
            r@.len() == i,
            forall|j: int| 0 <= j < i ==> jsx_attr_or_spread_view(#[trigger] r@[j])
                == jsx_attr_or_spread_view(v@[j]),
        decreases v@.len() - i,
    {
        let c = match &v[i] {
            JSXAttrOrSpread::Attr(a) => JSXAttrOrSpread::Attr(clone_jsx_attr(a)),
            JSXAttrOrSpread::Spread(e) => JSXAttrOrSpread::Spread(clone_expr(e)),
        };
        r.push(c);
        i += 1;
    }
    proof {
        lemma_jsx_attrs_view(r@);
        lemma_jsx_attrs_view(v@);
        assert(jsx_attrs_view(r@) =~= jsx_attrs_view(v@));
    }
    r
}

pub fn clone_jsx_child(c: &JSXChild) -> (r: JSXChild)
    ensures
        jsx_child_view(r) == jsx_child_view(*c),
    decreases c,
{
    match c {
        JSXChild::Text(s) => JSXChild::Text(s.clone()),
        JSXChild::Element(el) => JSXChild::Element(Box::new(clone_jsx_element(&**el))),
        JSXChild::Fragment(f) => JSXChild::Fragment(clone_jsx_fragment(f)),
        JSXChild::Expr(e) => JSXChild::Expr(clone_expr(e)),
        JSXChild::Empty => JSXChild::Empty,
        JSXChild::Spread(e) => JSXChild::Spread(clone_expr(e)),
    }
}

pub fn clone_jsx_children(v: &Vec<JSXChild>) -> (r: Vec<JSXChild>)
    ensures
        jsx_children_view(r@) == jsx_children_view(v@),
    decreases v@,
{
    let mut r: Vec<JSXChild> = Vec::new();
    let mut i: usize = 0;
    while i < v.len()
        invariant
            i <= v@.len(),
            r@.len() == i,
            forall|j: int| 0 <= j < i ==> jsx_child_view(#[trigger] r@[j]) == jsx_child_view(
                v@[j],
            ),
        decreases v@.len() - i,
    {
        let c = clone_jsx_child(&v[i]);
        r.push(c);
        i += 1;
    }
    proof {
        lemma_jsx_children_view(r@);
        lemma_jsx_children_view(v@);
        assert(jsx_children_view(r@) =~= jsx_children_view(v@));
    }
    r
}

pub fn clone_jsx_element(el: &JSXElement) -> (r: JSXElement)
    ensures
        r@ == el@,
    decreases el,
{
    JSXElement {
        name: clone_jsx_element_name(&el.name),
        attrs: clone_jsx_attrs(&el.attrs),
        children: clone_jsx_children(&el.children),
    }
}

pub fn clone_jsx_fragment(f: &JSXFragment) -> (r: JSXFragment)
    ensures
        r@ == f@,
    decreases f,
{
    JSXFragment { children: clone_jsx_children(&f.children) }
}

pub fn clone_import_specifiers(v: &Vec<ImportSpecifier>) -> (r: Vec<ImportSpecifier>)
    ensures
        import_specifiers_view(r@) == import_specifiers_view(v@),
{
    let mut r: Vec<ImportSpecifier> = Vec::new();
    let mut i: usize = 0;
    while i < v.len()
        invariant
            i <= v@.len(),
            r@.len() == i,
            forall|j: int| 0 <= j < i ==> import_specifier_view(#[trigger] r@[j])
                == import_specifier_view(v@[j]),
        decreases v@.len() - i,
    {
        let c = match &v[i] {
            ImportSpecifier::Named { local, imported } => ImportSpecifier::Named {
                local: local.clone(),
                imported: clone_opt_string(imported),
            },
            ImportSpecifier::Default(s) => ImportSpecifier::Default(s.clone()),
            ImportSpecifier::Namespace(s) => ImportSpecifier::Namespace(s.clone()),
        };
        r.push(c);
        i += 1;
    }
    proof {
        lemma_import_specifiers_view(r@);
        lemma_import_specifiers_view(v@);
        assert(import_specifiers_view(r@) =~= import_specifiers_view(v@));
    }
    r
}

pub proof fn lemma_jsx_attrs_view(s: Seq<JSXAttrOrSpread>)
    ensures
        jsx_attrs_view(s).len() == s.len(),
        forall|i: int| 0 <= i < s.len() ==> jsx_attrs_view(s)[i] == jsx_attr_or_spread_view(
            s[i],
        ),
    decreases s,
{
    if s.len() > 0 {
        lemma_jsx_attrs_view(s.drop_first());
    }
}

pub proof fn lemma_jsx_children_view(s: Seq<JSXChild>)
    ensures
        jsx_children_view(s).len() == s.len(),
        forall|i: int| 0 <= i < s.len() ==> jsx_children_view(s)[i] == jsx_child_view(s[i]),
    decreases s,
{
    if s.len() > 0 {
        lemma_jsx_children_view(s.drop_first());
    }
}

pub proof fn lemma_import_specifiers_view(s: Seq<ImportSpecifier>)
    ensures
        import_specifiers_view(s).len() == s.len(),
        forall|i: int| 0 <= i < s.len() ==> import_specifiers_view(s)[i]
            == import_specifier_view(s[i]),
    decreases s,
{
    if s.len() > 0 {
        lemma_import_specifiers_view(s.drop_first());
    }
}

pub proof fn lemma_module_items_view(s: Seq<ModuleItem>)
    ensures
        module_items_view(s).len() == s.len(),
        forall|i: int| 0 <= i < s.len() ==> module_items_view(s)[i] == module_item_view(s[i]),
    decreases s,
{
    if s.len() > 0 {
        lemma_module_items_view(s.drop_first());
    }
}

} // verus!
