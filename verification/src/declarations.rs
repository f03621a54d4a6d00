//! What the items of a script declare: the names that a pattern binds, and
//! the bindings that a declaration or an `export { .. }` introduces.

use vstd::prelude::*;
use crate::structs::bindings_view;
use crate::structs::BindingTypes;
use crate::structs::names_view;
use crate::structs::SetupBinding;
use crate::structs::SetupBindingView;

verus! {

/// A pattern, as far as the names that it binds go.
#[derive(Debug, PartialEq)]
pub enum BindingPattern {
    /// `name`.
    Ident(String),
    /// `[a, , b]`: its elements, a hole being `None`.
    Array(Vec<Option<BindingPattern>>),
    /// `...rest`.
    Rest(Box<BindingPattern>),
    /// `left = value`: its left side.
    Assign(Box<BindingPattern>),
    /// `{ a, b: c, ...d }`: its properties.
    Object(Vec<ObjectPatternProp>),
    /// A pattern that binds no name.
    Other,
}

/// A property of an object pattern.
#[derive(Debug, PartialEq)]
pub enum ObjectPatternProp {
    /// `key: value`: the pattern that `value` is.
    KeyValue(BindingPattern),
    /// `name` or `name = value`.
    Assign(String),
    /// `...rest`.
    Rest(BindingPattern),
}

/// One declarator of a variable declaration: the pattern that it binds,
/// and whether it gives the pattern a literal as its value.
#[derive(Debug, PartialEq)]
pub struct Declarator {
    pub name: BindingPattern,
    pub literal: bool,
}

/// A declaration, as far as the names that it declares go.
#[derive(Debug, PartialEq)]
pub enum Declaration {
    /// `function name() {}`.
    Function(String),
    /// `class name {}`.
    Class(String),
    /// `const`, `let` or `var` with its declarators; `constant` for
    /// `const`.
    Variables { constant: bool, declarators: Vec<Declarator> },
    /// A declaration that declares no value.
    Other,
}

/// The names that a pattern binds, in source order.
pub open spec fn pattern_names(pattern: BindingPattern) -> Seq<Seq<char>>
    decreases pattern, 0nat,
{
    match pattern {
        BindingPattern::Ident(name) => seq![name@],
        BindingPattern::Array(elems) => elems_names(elems, elems.len() as nat),
        BindingPattern::Rest(inner) => pattern_names(*inner),
        BindingPattern::Assign(inner) => pattern_names(*inner),
        BindingPattern::Object(props) => props_names(props, props.len() as nat),
        BindingPattern::Other => Seq::empty(),
    }
}

/// The names that the first `n` elements of an array pattern bind.
pub open spec fn elems_names(elems: Vec<Option<BindingPattern>>, n: nat) -> Seq<Seq<char>>
    decreases elems, n,
{
    if n == 0 || n > elems.len() {
        Seq::empty()
    } else {
        elems_names(elems, (n - 1) as nat) + match elems[n - 1] {
            Some(elem) => pattern_names(elem),
            None => Seq::empty(),
        }
    }
}

/// The names that a property of an object pattern binds.
pub open spec fn prop_names(prop: ObjectPatternProp) -> Seq<Seq<char>>
    decreases prop, 0nat,
{
    match prop {
        ObjectPatternProp::KeyValue(value) => pattern_names(value),
        ObjectPatternProp::Assign(name) => seq![name@],
        ObjectPatternProp::Rest(rest) => pattern_names(rest),
    }
}

/// The names that the first `n` properties of an object pattern bind.
pub open spec fn props_names(props: Vec<ObjectPatternProp>, n: nat) -> Seq<Seq<char>>
    decreases props, n,
{
    if n == 0 || n > props.len() {
        Seq::empty()
    } else {
        props_names(props, (n - 1) as nat) + prop_names(props[n - 1])
    }
}

/// Bindings of one category for `names`, in their order.
pub open spec fn with_category(names: Seq<Seq<char>>, category: BindingTypes) -> Seq<
    SetupBindingView,
> {
    names.map_values(|name: Seq<char>| SetupBindingView { name, category })
}

/// The category of what a declarator binds: a literal constant where a
/// `const` gives it a literal, else a plain value.
pub open spec fn declared_category(constant: bool, literal: bool) -> BindingTypes {
    if constant && literal {
        BindingTypes::LiteralConst
    } else {
        BindingTypes::SetupValue
    }
}

/// The bindings that declarators introduce, in source order.
pub open spec fn declarators_bindings(declarators: Seq<Declarator>, constant: bool) -> Seq<
    SetupBindingView,
>
    decreases declarators.len(),
{
    if declarators.len() == 0 {
        Seq::empty()
    } else {
        declarators_bindings(declarators.drop_last(), constant) + with_category(
            pattern_names(declarators.last().name),
            declared_category(constant, declarators.last().literal),
        )
    }
}

/// The bindings that a declaration introduces: a function or a class
/// declares one plain value, and a variable declaration one binding for
/// each name that its declarators bind.
pub open spec fn declaration_bindings(decl: Declaration) -> Seq<SetupBindingView> {
    match decl {
        Declaration::Function(name) => seq![
            SetupBindingView { name: name@, category: BindingTypes::SetupValue },
        ],
        Declaration::Class(name) => seq![
            SetupBindingView { name: name@, category: BindingTypes::SetupValue },
        ],
        Declaration::Variables { constant, declarators } => declarators_bindings(
            declarators@,
            constant,
        ),
        Declaration::Other => Seq::empty(),
    }
}

/// The bindings that the first `n` names of an `export { .. }` introduce:
/// a plain value for each name that is there.
pub open spec fn exported_bindings(names: Seq<Option<String>>, n: nat) -> Seq<SetupBindingView>
    decreases n,
{
    if n == 0 || n > names.len() {
        Seq::empty()
    } else {
        exported_bindings(names, (n - 1) as nat) + match names[n - 1] {
            Some(name) => seq![
                SetupBindingView { name: name@, category: BindingTypes::SetupValue },
            ],
            None => Seq::empty(),
        }
    }
}

/// The bindings that an `export { .. }` introduces: none where it exports
/// from another module, else a plain value for each name of this module
/// that it exports.
pub open spec fn named_export_bindings(from_source: bool, names: Seq<Option<String>>) -> Seq<
    SetupBindingView,
> {
    if from_source {
        Seq::empty()
    } else {
        exported_bindings(names, names.len())
    }
}

/// Adds the names that `pattern` binds to `names`, in source order.
pub fn collect_pattern_names(pattern: &BindingPattern, names: &mut Vec<String>)
    ensures
        names_view(final(names)@) == names_view(old(names)@) + pattern_names(*pattern),
    decreases pattern, 0nat,
{
    let ghost before = names_view(names@);
    match pattern {
        BindingPattern::Ident(name) => {
            names.push(name.clone());
        },
        BindingPattern::Array(elems) => {
            let mut i: usize = 0;
            while i < elems.len()
                invariant
                    i <= elems.len(),
                    *pattern == BindingPattern::Array(*elems),
                    names_view(names@) == before + elems_names(*elems, i as nat),
                decreases elems.len() - i,
            {
                match &elems[i] {
                    Some(elem) => {
                        assert(decreases_to!(*pattern => pattern->Array_0));
                        collect_pattern_names(elem, names);
                    },
                    None => {},
                }
                i = i + 1;
            }
        },
        BindingPattern::Rest(inner) => collect_pattern_names(inner, names),
        BindingPattern::Assign(inner) => collect_pattern_names(inner, names),
        BindingPattern::Object(props) => {
            let mut i: usize = 0;
            while i < props.len()
                invariant
                    i <= props.len(),
                    *pattern == BindingPattern::Object(*props),
                    names_view(names@) == before + props_names(*props, i as nat),
                decreases props.len() - i,
            {
                let ghost so_far = names_view(names@);
                assert(decreases_to!(*pattern => pattern->Object_0));
                match &props[i] {
                    ObjectPatternProp::KeyValue(value) => collect_pattern_names(value, names),
                    ObjectPatternProp::Assign(name) => {
                        names.push(name.clone());
                        assert(names_view(names@) =~= so_far + seq![name@]);
                    },
                    ObjectPatternProp::Rest(rest) => collect_pattern_names(rest, names),
                }
                assert(names_view(names@) =~= before + (props_names(*props, i as nat)
                    + prop_names(props[i as int])));
                i = i + 1;
            }
        },
        BindingPattern::Other => {},
    }
}

/// Adds a binding of `category` for each of `names` to `bindings`.
fn push_bindings(bindings: &mut Vec<SetupBinding>, names: Vec<String>, category: BindingTypes)
    ensures
        bindings_view(final(bindings)@) == bindings_view(old(bindings)@) + with_category(
            names_view(names@),
            category,
        ),
{
    let ghost before = bindings_view(bindings@);
    let ghost all = names@;
    for name in it: names.into_iter()
        invariant
            it.seq() == all,
            bindings_view(bindings@) == before + with_category(
                names_view(all.take(it.index())),
                category,
            ),
    {
        let ghost so_far = bindings_view(bindings@);
        let binding = SetupBinding(name, category);
        bindings.push(binding);
        assert(bindings_view(bindings@) =~= so_far.push(binding@));
    }
}

/// The bindings that a declaration introduces.
pub fn collect_declaration_bindings(decl: &Declaration) -> (bindings: Vec<SetupBinding>)
    ensures
        bindings_view(bindings@) == declaration_bindings(*decl),
{
    let mut bindings: Vec<SetupBinding> = Vec::new();
    match decl {
        Declaration::Function(name) => {
            let binding = SetupBinding(name.clone(), BindingTypes::SetupValue);
            bindings.push(binding);
        },
        Declaration::Class(name) => {
            let binding = SetupBinding(name.clone(), BindingTypes::SetupValue);
            bindings.push(binding);
        },
        Declaration::Variables { constant, declarators } => {
            let mut i: usize = 0;
            while i < declarators.len()
                invariant
                    i <= declarators.len(),
                    bindings_view(bindings@) == declarators_bindings(
                        declarators@.take(i as int),
                        *constant,
                    ),
                decreases declarators.len() - i,
            {
                let ghost seen = declarators@.take(i + 1);
                assert(seen.drop_last() == declarators@.take(i as int));
                let declarator = &declarators[i];
                let category = if *constant && declarator.literal {
                    BindingTypes::LiteralConst
                } else {
                    BindingTypes::SetupValue
                };
                let mut names: Vec<String> = Vec::new();
                collect_pattern_names(&declarator.name, &mut names);
                push_bindings(&mut bindings, names, category);
                i = i + 1;
            }
            assert(declarators@.take(i as int) == declarators@);
        },
        Declaration::Other => {},
    }
    bindings
}

/// The bindings that an `export { .. }` introduces. `from_source` says
/// whether it exports from another module; each of `names` is the name of
/// this module that a specifier exports, or `None` where the specifier
/// names none.
pub fn collect_named_export_bindings(from_source: bool, names: &Vec<Option<String>>) -> (bindings:
    Vec<SetupBinding>)
    ensures
        bindings_view(bindings@) == named_export_bindings(from_source, names@),
{
    let mut bindings: Vec<SetupBinding> = Vec::new();
    if from_source {
        return bindings;
    }
    let mut i: usize = 0;
    while i < names.len()
        invariant
            i <= names.len(),
            bindings_view(bindings@) == exported_bindings(names@, i as nat),
        decreases names.len() - i,
    {
        match &names[i] {
            Some(name) => {
                let binding = SetupBinding(name.clone(), BindingTypes::SetupValue);
                bindings.push(binding);
            },
            None => {},
        }
        i = i + 1;
    }
    bindings
}

} // verus!
