//! The state of one compilation: the registries that expressions are
//! resolved against, and the runtime helpers that the compiled code calls.

use vstd::prelude::*;
use crate::structs::ScopeHelper;
use crate::structs::ScopeHelperView;

verus! {

/// A helper of the runtime that compiled templates call.
#[derive(Debug, Clone, Copy, PartialEq, Eq, Structural)]
pub enum VueImports {
    CreateCommentVNode,
    CreateElementBlock,
    CreateElementVNode,
    CreateTextVNode,
    OpenBlock,
}

/// The name that the runtime module exports a helper under.
pub open spec fn exported_name(helper: VueImports) -> Seq<char> {
    match helper {
        VueImports::CreateCommentVNode => "createCommentVNode"@,
        VueImports::CreateElementBlock => "createElementBlock"@,
        VueImports::CreateElementVNode => "createElementVNode"@,
        VueImports::CreateTextVNode => "createTextVNode"@,
        VueImports::OpenBlock => "openBlock"@,
    }
}

/// The name that compiled code calls a helper by: its exported name with an
/// underscore in front.
pub open spec fn local_name(helper: VueImports) -> Seq<char> {
    match helper {
        VueImports::CreateCommentVNode => "_createCommentVNode"@,
        VueImports::CreateElementBlock => "_createElementBlock"@,
        VueImports::CreateElementVNode => "_createElementVNode"@,
        VueImports::CreateTextVNode => "_createTextVNode"@,
        VueImports::OpenBlock => "_openBlock"@,
    }
}

impl VueImports {
    /// The name that the runtime module exports this helper under.
    pub fn exported(self) -> (name: String)
        ensures
            name@ == exported_name(self),
    {
        match self {
            VueImports::CreateCommentVNode => "createCommentVNode".to_owned(),
            VueImports::CreateElementBlock => "createElementBlock".to_owned(),
            VueImports::CreateElementVNode => "createElementVNode".to_owned(),
            VueImports::CreateTextVNode => "createTextVNode".to_owned(),
            VueImports::OpenBlock => "openBlock".to_owned(),
        }
    }

    /// The name that compiled code calls this helper by.
    pub fn local(self) -> (name: String)
        ensures
            name@ == local_name(self),
    {
        match self {
            VueImports::CreateCommentVNode => "_createCommentVNode".to_owned(),
            VueImports::CreateElementBlock => "_createElementBlock".to_owned(),
            VueImports::CreateElementVNode => "_createElementVNode".to_owned(),
            VueImports::CreateTextVNode => "_createTextVNode".to_owned(),
            VueImports::OpenBlock => "_openBlock".to_owned(),
        }
    }
}

/// The set of helpers that the code compiled so far calls.
#[derive(Debug, Clone, Copy, PartialEq, Eq)]
pub struct UsedImports {
    pub create_comment_vnode: bool,
    pub create_element_block: bool,
    pub create_element_vnode: bool,
    pub create_text_vnode: bool,
    pub open_block: bool,
}

impl UsedImports {
    /// Whether `helper` is in the set.
    pub open spec fn has(self, helper: VueImports) -> bool {
        match helper {
            VueImports::CreateCommentVNode => self.create_comment_vnode,
            VueImports::CreateElementBlock => self.create_element_block,
            VueImports::CreateElementVNode => self.create_element_vnode,
            VueImports::CreateTextVNode => self.create_text_vnode,
            VueImports::OpenBlock => self.open_block,
        }
    }

    /// The empty set.
    pub fn new() -> (used: UsedImports)
        ensures
            used@ == Set::<VueImports>::empty(),
    {
        let used = UsedImports {
            create_comment_vnode: false,
            create_element_block: false,
            create_element_vnode: false,
            create_text_vnode: false,
            open_block: false,
        };
        used
    }

    /// Whether `helper` is in the set.
    pub fn contains(&self, helper: VueImports) -> (found: bool)
        ensures
            found == self@.contains(helper),
    {
        match helper {
            VueImports::CreateCommentVNode => self.create_comment_vnode,
            VueImports::CreateElementBlock => self.create_element_block,
            VueImports::CreateElementVNode => self.create_element_vnode,
            VueImports::CreateTextVNode => self.create_text_vnode,
            VueImports::OpenBlock => self.open_block,
        }
    }

    /// Puts `helper` into the set.
    pub fn insert(&mut self, helper: VueImports)
        ensures
            final(self)@ == old(self)@.insert(helper),
    {
        match helper {
            VueImports::CreateCommentVNode => {
                self.create_comment_vnode = true;
            },
            VueImports::CreateElementBlock => {
                self.create_element_block = true;
            },
            VueImports::CreateElementVNode => {
                self.create_element_vnode = true;
            },
            VueImports::CreateTextVNode => {
                self.create_text_vnode = true;
            },
            VueImports::OpenBlock => {
                self.open_block = true;
            },
        }
    }
}

impl View for UsedImports {
    type V = Set<VueImports>;

    open spec fn view(&self) -> Set<VueImports> {
        Set::new(|helper: VueImports| self.has(helper))
    }
}

/// The state of one compilation.
#[derive(Debug)]
pub struct CodegenContext {
    /// The registries that template expressions are resolved against.
    pub scope_helper: ScopeHelper,
    /// The helpers that the code compiled so far calls.
    pub used_imports: UsedImports,
}

impl Default for CodegenContext {
    fn default() -> (context: CodegenContext)
        ensures
            context.scope_helper@ == ScopeHelperView::empty(),
            context.used_imports@ == Set::<VueImports>::empty(),
    {
        CodegenContext { scope_helper: ScopeHelper::default(), used_imports: UsedImports::new() }
    }
}

} // verus!
