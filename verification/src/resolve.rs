//! Module resolution data: dependency descriptors, the scoped-style
//! template, the per-unit resolver state, and the rule that derives a
//! component name from a file specifier.

use vstd::prelude::*;

use crate::ast::strings_view;
use crate::text::chars_of;
use crate::text::push_char;

verus! {

/// One recorded import edge of the dependency graph.
#[derive(Clone, Debug, PartialEq, Eq)]
pub struct DependencyDescriptor {
    /// The text specifier associated with the import/export statement.
    pub specifier: String,
    /// A flag indicating if the import is dynamic or not.
    pub is_dynamic: bool,
}

pub struct SpecDependencyDescriptor {
    pub specifier: Seq<char>,
    pub is_dynamic: bool,
}

impl View for DependencyDescriptor {
    type V = SpecDependencyDescriptor;

    open spec fn view(&self) -> SpecDependencyDescriptor {
        SpecDependencyDescriptor { specifier: self.specifier@, is_dynamic: self.is_dynamic }
    }
}

pub open spec fn descriptors_view(s: Seq<DependencyDescriptor>) -> Seq<SpecDependencyDescriptor> {
    s.map_values(|d: DependencyDescriptor| d@)
}

/// The literal segments and interpolation source snippets of a scoped
/// style block, stored verbatim.
#[derive(Clone, Debug, PartialEq, Eq)]
pub struct CSSTemplate {
    pub quasis: Vec<String>,
    pub exprs: Vec<String>,
}

pub struct SpecCSSTemplate {
    pub quasis: Seq<Seq<char>>,
    pub exprs: Seq<Seq<char>>,
}

impl View for CSSTemplate {
    type V = SpecCSSTemplate;

    open spec fn view(&self) -> SpecCSSTemplate {
        SpecCSSTemplate { quasis: strings_view(self.quasis@), exprs: strings_view(self.exprs@) }
    }
}

/// Per-compilation-unit resolver state: exclusively owned by one
/// in-flight compilation and passed by reference where it is needed.
#[derive(Debug, PartialEq, Eq)]
pub struct Resolver {
    /// current component specifier
    pub specifier: String,
    /// dom helper module
    pub runtime_module: String,
    /// dependency graph
    pub dep_graph: Vec<DependencyDescriptor>,
    /// inline styles
    pub css: Option<CSSTemplate>,
}

pub struct SpecResolver {
    pub specifier: Seq<char>,
    pub runtime_module: Seq<char>,
    pub dep_graph: Seq<SpecDependencyDescriptor>,
    pub css: Option<SpecCSSTemplate>,
}

impl View for Resolver {
    type V = SpecResolver;

    open spec fn view(&self) -> SpecResolver {
        SpecResolver {
            specifier: self.specifier@,
            runtime_module: self.runtime_module@,
            dep_graph: descriptors_view(self.dep_graph@),
            css: match self.css {
                Some(ref c) => Some(c@),
                None => None,
            },
        }
    }
}

impl Resolver {
    /// A resolver for one component unit, with an empty dependency
    /// graph and no recorded style.
    pub fn new(specifier: &str, runtime_module: &str) -> (r: Self)
        ensures
            r@.specifier == specifier@,
            r@.runtime_module == runtime_module@,
            r@.dep_graph == Seq::<SpecDependencyDescriptor>::empty(),
            r@.css is None,
    {
        let r = Resolver {
            specifier: specifier.to_owned(),
            runtime_module: runtime_module.to_owned(),
            dep_graph: Vec::new(),
            css: None,
        };
        proof {
            assert(r@.dep_graph =~= Seq::<SpecDependencyDescriptor>::empty());
        }
        r
    }
}

impl Default for Resolver {
    /// The conventional unit: `./App.alef` compiled against `alef-dom`.
    fn default() -> (r: Self)
        ensures
            r@.specifier == "./App.alef"@,
            r@.runtime_module == "alef-dom"@,
            r@.dep_graph == Seq::<SpecDependencyDescriptor>::empty(),
            r@.css is None,
    {
        Resolver::new("./App.alef", "alef-dom")
    }
}

/// The `.alef` file suffix.
pub open spec fn dot_alef() -> Seq<char> {
    seq!['.', 'a', 'l', 'e', 'f']
}

/// Every trailing repetition of `.alef` removed.
pub open spec fn strip_alef_suffix(s: Seq<char>) -> Seq<char>
    decreases s.len(),
{
    if s.len() >= 5 && s.skip(s.len() - 5) == dot_alef() {
        strip_alef_suffix(s.take(s.len() - 5))
    } else {
        s
    }
}

pub open spec fn is_lower(c: char) -> bool {
    'a' <= c && c <= 'z'
}

pub open spec fn is_upper(c: char) -> bool {
    'A' <= c && c <= 'Z'
}

pub open spec fn is_digit(c: char) -> bool {
    '0' <= c && c <= '9'
}

pub open spec fn to_upper(c: char) -> char {
    (((c as u32) - 32) as u8) as char
}

/// One pass over the stripped specifier: ASCII letters are kept, a
/// letter after a gap is uppercased, digits are kept once a letter has
/// been seen, and every other character only marks a gap.
pub open spec fn component_fold(s: Seq<char>, upper_next: bool, acc: Seq<char>) -> Seq<char>
    decreases s.len(),
{
    if s.len() == 0 {
        acc
    } else {
        let c = s[0];
        if is_lower(c) {
            component_fold(
                s.drop_first(),
                false,
                acc.push(if upper_next {
                    to_upper(c)
                } else {
                    c
                }),
            )
        } else if is_upper(c) {
            component_fold(s.drop_first(), false, acc.push(c))
        } else if is_digit(c) && acc.len() > 0 {
            component_fold(s.drop_first(), false, acc.push(c))
        } else {
            component_fold(s.drop_first(), true, acc)
        }
    }
}

/// The component name a specifier maps to; `App` when nothing is left.
pub open spec fn component_name(s: Seq<char>) -> Seq<char> {
    let cs = component_fold(strip_alef_suffix(s), true, Seq::empty());
    if cs.len() == 0 {
        "App"@
    } else {
        cs
    }
}

/// Does `v` end with `.alef`?
fn ends_with_alef(v: &Vec<char>) -> (r: bool)
    ensures
        r == (v@.len() >= 5 && v@.skip(v@.len() - 5) == dot_alef()),
{
    let n = v.len();
    if n < 5 {
        return false;
    }
    let r = v[n - 5] == '.' && v[n - 4] == 'a' && v[n - 3] == 'l' && v[n - 2] == 'e' && v[n
        - 1] == 'f';
    proof {
        if r {
            assert(v@.skip(n - 5 as int) =~= dot_alef());
        } else {
            if v@.skip(n - 5 as int) == dot_alef() {
                assert(v@[n - 5 as int] == '.');
                assert(v@[n - 4 as int] == 'a');
                assert(v@[n - 3 as int] == 'l');
                assert(v@[n - 2 as int] == 'e');
                assert(v@[n - 1 as int] == 'f');
            }
        }
    }
    r
}

/// Derives the exported component name from a file specifier, as
/// [`component_name`] states.
pub fn to_component_name(s: &str) -> (r: String)
    ensures
        r@ == component_name(s@),
{
    let mut v = chars_of(s);
    while ends_with_alef(&v)
        invariant
            strip_alef_suffix(s@) == strip_alef_suffix(v@),
        decreases v@.len(),
    {
        let ghost before = v@;
        v.truncate(v.len() - 5);
        proof {
            assert(v@ =~= before.take(before.len() - 5));
        }
    }
    let n = v.len();
    let mut out = String::new();
    let mut upper_next = true;
    let mut i: usize = 0;
    proof {
        assert(v@.skip(0) =~= v@);
    }
    while i < n
        invariant
            n == v@.len(),
            v@ == strip_alef_suffix(s@),
            i <= n,
            component_fold(v@, true, Seq::empty()) == component_fold(
                v@.skip(i as int),
                upper_next,
                out@,
            ),
        decreases n - i,
    {
        proof {
            assert(v@.skip(i as int).drop_first() =~= v@.skip(i + 1 as int));
            assert(v@.skip(i as int)[0] == v@[i as int]);
        }
        let c = v[i];
        if c >= 'a' && c <= 'z' {
            if upper_next {
                let cu: u32 = c as u32;
                push_char(&mut out, ((cu - 32) as u8) as char);
                upper_next = false;
            } else {
                push_char(&mut out, c);
                upper_next = false;
            }
        } else if c >= 'A' && c <= 'Z' {
            push_char(&mut out, c);
            upper_next = false;
        } else if c >= '0' && c <= '9' && out.as_str().unicode_len() > 0 {
            push_char(&mut out, c);
            upper_next = false;
        } else {
            upper_next = true;
        }
        i += 1;
    }
    proof {
        assert(v@.skip(n as int) =~= Seq::<char>::empty());
    }
    if out.as_str().unicode_len() == 0 {
        "App".to_owned()
    } else {
        out
    }
}

} // verus!
