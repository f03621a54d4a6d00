//! What the template compiler knows of the component's names: the scopes
//! that the template opens, and the bindings that the scripts declare.

use vstd::prelude::*;
use smallvec::SmallVec;

verus! {

/// The names that a template scope introduces, held in a `smallvec` vector.
#[verifier::external_body]
#[derive(Debug)]
pub struct ScopeVariables {
    names: SmallVec<[String; 1]>,
}

/// The names that a scope's vector holds, in order.
pub uninterp spec fn scope_names(variables: ScopeVariables) -> Seq<Seq<char>>;

impl View for ScopeVariables {
    type V = Seq<Seq<char>>;

    open spec fn view(&self) -> Seq<Seq<char>> {
        scope_names(*self)
    }
}

/// `SmallVec::new`: a vector that holds nothing.
#[verifier::external_body]
fn names_new() -> (variables: ScopeVariables)
    ensures
        scope_names(variables) == Seq::<Seq<char>>::empty(),
{
    ScopeVariables { names: SmallVec::new() }
}

/// `SmallVec::push`: the vector holds one more name, at its end.
#[verifier::external_body]
fn names_push(variables: &mut ScopeVariables, name: String)
    ensures
        scope_names(*final(variables)) == scope_names(*old(variables)).push(name@),
{
    variables.names.push(name)
}

/// `SmallVec::len`: the number of names held.
#[verifier::external_body]
fn names_len(variables: &ScopeVariables) -> (len: usize)
    ensures
        len == scope_names(*variables).len(),
{
    variables.names.len()
}

/// Indexing a `SmallVec` through its slice: the name at position `i`.
#[verifier::external_body]
fn names_at(variables: &ScopeVariables, i: usize) -> (name: &String)
    requires
        i < scope_names(*variables).len(),
    ensures
        name@ == scope_names(*variables)[i as int],
{
    &variables.names[i]
}

impl ScopeVariables {
    /// The scope variables that hold `names`, in their order.
    pub fn from_names(names: Vec<String>) -> (variables: ScopeVariables)
        ensures
            variables@ == names_view(names@),
    {
        let mut variables = names_new();
        let mut i: usize = 0;
        while i < names.len()
            invariant
                i <= names.len(),
                variables@ == names_view(names@).take(i as int),
            decreases names.len() - i,
        {
            names_push(&mut variables, names[i].clone());
            i = i + 1;
        }
        variables
    }

    /// Whether `name` is one of the names held.
    pub fn contains(&self, name: &str) -> (found: bool)
        ensures
            found == self@.contains(name@),
    {
        let len = names_len(self);
        let mut i: usize = 0;
        while i < len
            invariant
                i <= len,
                len == self@.len(),
                forall|j: int| 0 <= j < i ==> self@[j] != name@,
            decreases len - i,
        {
            if str_eq(names_at(self, i).as_str(), name) {
                return true;
            }
            i = i + 1;
        }
        false
    }
}

/// `str`'s `==`: whether two strings hold the same characters.
#[verifier::external_body]
pub(crate) fn str_eq(a: &str, b: &str) -> (same: bool)
    ensures
        same == (a@ == b@),
{
    a == b
}

/// How template expressions address the bindings they mention.
#[derive(Debug, Clone, Copy, PartialEq, Eq, Structural)]
pub enum TemplateGenerationMode {
    /// Bindings are in scope of the render code; reactive ones are read
    /// through `.value`.
    Inline,
    /// Bindings are read from the arguments of the render function.
    RenderFn,
}

impl Default for TemplateGenerationMode {
    fn default() -> (mode: TemplateGenerationMode)
        ensures
            mode == TemplateGenerationMode::RenderFn,
    {
        TemplateGenerationMode::RenderFn
    }
}

/// The category of a binding: where a name comes from.
#[derive(Debug, Clone, Copy, PartialEq, Eq, Structural)]
pub enum BindingTypes {
    /// A declared prop.
    Props,
    /// Reactive state local to the component: read through `.value` when
    /// the template is compiled inline.
    ReactiveState,
    /// A computed property.
    Computed,
    /// A method.
    Method,
    /// An injected value.
    Injected,
    /// A module-level import.
    Imported,
    /// A plain value exposed by the setup code.
    SetupValue,
    /// A constant whose value is a literal.
    LiteralConst,
    /// A resolved component.
    Component,
    /// A resolved directive.
    Directive,
}

/// A binding of the setup code: a name and its category.
#[derive(Debug, PartialEq)]
pub struct SetupBinding(pub String, pub BindingTypes);

/// Everything recorded from an options-style script: the names that each
/// of its fields declares, in the order in which they were met.
#[derive(Debug, PartialEq)]
pub struct ScriptLegacyVars {
    pub props: Vec<String>,
    pub data: Vec<String>,
    pub computed: Vec<String>,
    pub methods: Vec<String>,
    pub components: Vec<String>,
    pub directives: Vec<String>,
    pub emits: Vec<String>,
    pub inject: Vec<String>,
    pub expose: Vec<String>,
    pub setup: Vec<SetupBinding>,
    pub name: Option<String>,
    pub imports: Vec<String>,
}

/// A lexical scope opened by a construct of the template.
#[derive(Debug)]
pub struct TemplateScope {
    /// The names that the construct introduces.
    pub variables: ScopeVariables,
    /// The index of the enclosing scope.
    pub parent: u32,
}

/// The registries that template expressions are resolved against.
#[derive(Debug)]
pub struct ScopeHelper {
    /// All scopes of the template; index 0 is the root, and every other
    /// scope names an earlier one as its parent.
    pub template_scopes: Vec<TemplateScope>,
    /// The bindings of the setup script, in the order of their
    /// declaration.
    pub setup_bindings: Vec<SetupBinding>,
    /// What the options-style script declares.
    pub options_api_vars: Box<ScriptLegacyVars>,
    /// Whether the template is compiled into the setup code itself.
    pub is_inline: bool,
    /// How expressions address bindings.
    pub transform_mode: TemplateGenerationMode,
}

/// The view of a [`SetupBinding`].
pub ghost struct SetupBindingView {
    pub name: Seq<char>,
    pub category: BindingTypes,
}

/// The view of a [`ScriptLegacyVars`].
pub ghost struct ScriptLegacyVarsView {
    pub props: Seq<Seq<char>>,
    pub data: Seq<Seq<char>>,
    pub computed: Seq<Seq<char>>,
    pub methods: Seq<Seq<char>>,
    pub components: Seq<Seq<char>>,
    pub directives: Seq<Seq<char>>,
    pub emits: Seq<Seq<char>>,
    pub inject: Seq<Seq<char>>,
    pub expose: Seq<Seq<char>>,
    pub setup: Seq<SetupBindingView>,
    pub name: Option<Seq<char>>,
    pub imports: Seq<Seq<char>>,
}

/// The view of a [`TemplateScope`].
pub ghost struct TemplateScopeView {
    pub variables: Seq<Seq<char>>,
    pub parent: u32,
}

/// The view of a [`ScopeHelper`].
pub ghost struct ScopeHelperView {
    pub template_scopes: Seq<TemplateScopeView>,
    pub setup_bindings: Seq<SetupBindingView>,
    pub options_api_vars: ScriptLegacyVarsView,
    pub is_inline: bool,
    pub transform_mode: TemplateGenerationMode,
}

/// The views of a sequence of names.
pub open spec fn names_view(names: Seq<String>) -> Seq<Seq<char>> {
    names.map_values(|name: String| name@)
}

/// The views of a sequence of setup bindings.
pub open spec fn bindings_view(bindings: Seq<SetupBinding>) -> Seq<SetupBindingView> {
    bindings.map_values(|binding: SetupBinding| binding@)
}

impl View for SetupBinding {
    type V = SetupBindingView;

    open spec fn view(&self) -> SetupBindingView {
        SetupBindingView { name: self.0@, category: self.1 }
    }
}

impl View for ScriptLegacyVars {
    type V = ScriptLegacyVarsView;

    open spec fn view(&self) -> ScriptLegacyVarsView {
        ScriptLegacyVarsView {
            props: names_view(self.props@),
            data: names_view(self.data@),
            computed: names_view(self.computed@),
            methods: names_view(self.methods@),
            components: names_view(self.components@),
            directives: names_view(self.directives@),
            emits: names_view(self.emits@),
            inject: names_view(self.inject@),
            expose: names_view(self.expose@),
            setup: bindings_view(self.setup@),
            name: match self.name {
                Some(name) => Some(name@),
                None => None,
            },
            imports: names_view(self.imports@),
        }
    }
}

impl View for TemplateScope {
    type V = TemplateScopeView;

    open spec fn view(&self) -> TemplateScopeView {
        TemplateScopeView { variables: self.variables@, parent: self.parent }
    }
}

impl View for ScopeHelper {
    type V = ScopeHelperView;

    open spec fn view(&self) -> ScopeHelperView {
        ScopeHelperView {
            template_scopes: self.template_scopes@.map_values(|scope: TemplateScope| scope@),
            setup_bindings: bindings_view(self.setup_bindings@),
            options_api_vars: self.options_api_vars@,
            is_inline: self.is_inline,
            transform_mode: self.transform_mode,
        }
    }
}

impl ScriptLegacyVarsView {
    /// The record of a script that declares nothing.
    pub open spec fn empty() -> ScriptLegacyVarsView {
        ScriptLegacyVarsView {
            props: Seq::empty(),
            data: Seq::empty(),
            computed: Seq::empty(),
            methods: Seq::empty(),
            components: Seq::empty(),
            directives: Seq::empty(),
            emits: Seq::empty(),
            inject: Seq::empty(),
            expose: Seq::empty(),
            setup: Seq::empty(),
            name: None,
            imports: Seq::empty(),
        }
    }
}

impl ScopeHelperView {
    /// The registries of a component without scopes or bindings, compiled
    /// for a render function.
    pub open spec fn empty() -> ScopeHelperView {
        ScopeHelperView {
            template_scopes: Seq::empty(),
            setup_bindings: Seq::empty(),
            options_api_vars: ScriptLegacyVarsView::empty(),
            is_inline: false,
            transform_mode: TemplateGenerationMode::RenderFn,
        }
    }
}

impl Default for ScriptLegacyVars {
    fn default() -> (vars: ScriptLegacyVars)
        ensures
            vars@ == ScriptLegacyVarsView::empty(),
    {
        let vars = ScriptLegacyVars {
            props: Vec::new(),
            data: Vec::new(),
            computed: Vec::new(),
            methods: Vec::new(),
            components: Vec::new(),
            directives: Vec::new(),
            emits: Vec::new(),
            inject: Vec::new(),
            expose: Vec::new(),
            setup: Vec::new(),
            name: None,
            imports: Vec::new(),
        };
        assert(names_view(Seq::<String>::empty()) =~= Seq::<Seq<char>>::empty());
        assert(bindings_view(Seq::<SetupBinding>::empty()) =~= Seq::<SetupBindingView>::empty());
        vars
    }
}

impl Default for ScopeHelper {
    fn default() -> (helper: ScopeHelper)
        ensures
            helper@ == ScopeHelperView::empty(),
    {
        let helper = ScopeHelper {
            template_scopes: Vec::new(),
            setup_bindings: Vec::new(),
            options_api_vars: Box::new(ScriptLegacyVars::default()),
            is_inline: false,
            transform_mode: TemplateGenerationMode::RenderFn,
        };
        assert(helper@.template_scopes =~= Seq::<TemplateScopeView>::empty());
        assert(bindings_view(Seq::<SetupBinding>::empty()) =~= Seq::<SetupBindingView>::empty());
        helper
    }
}

} // verus!
