//! Identities of the program's items. Each is a small copyable handle; what
//! it stands for is kept in the program facts.

use vstd::prelude::*;

verus! {

/// A compilation unit.
#[derive(Clone, Copy, Debug, PartialEq, Eq, Hash, Structural)]
pub struct Crate {
    pub crate_id: u32,
}

/// The position of a module in the module arena of its crate.
#[derive(Clone, Copy, Debug, PartialEq, Eq, Hash, Structural)]
pub struct CrateModuleId {
    pub index: u32,
}

/// A module of a crate.
#[derive(Clone, Copy, Debug, PartialEq, Eq, Hash, Structural)]
pub struct Module {
    pub krate: Crate,
    pub module_id: CrateModuleId,
}

/// The position of an impl block among the impl blocks of its module.
#[derive(Clone, Copy, Debug, PartialEq, Eq, Hash, Structural)]
pub struct ImplId {
    pub index: u32,
}

/// An impl block: a module and the block's position in it.
#[derive(Clone, Copy, Debug, PartialEq, Eq, Hash, Structural)]
pub struct ImplBlock {
    pub module: Module,
    pub impl_id: ImplId,
}

impl ImplBlock {
    /// The impl block at position `impl_id` of `module`.
    pub fn from_id(module: Module, impl_id: ImplId) -> (block: ImplBlock)
        ensures
            block == (ImplBlock { module, impl_id }),
    {
        ImplBlock { module, impl_id }
    }
}

/// A trait.
#[derive(Clone, Copy, Debug, PartialEq, Eq, Hash, Structural)]
pub struct Trait {
    pub id: u32,
}

/// A function or method.
#[derive(Clone, Copy, Debug, PartialEq, Eq, Hash, Structural)]
pub struct Function {
    pub id: u32,
}

/// An associated constant.
#[derive(Clone, Copy, Debug, PartialEq, Eq, Hash, Structural)]
pub struct Const {
    pub id: u32,
}

/// An associated type alias.
#[derive(Clone, Copy, Debug, PartialEq, Eq, Hash, Structural)]
pub struct TypeAlias {
    pub id: u32,
}

/// A struct, enum or union definition.
#[derive(Clone, Copy, Debug, PartialEq, Eq, Hash, Structural)]
pub struct AdtDef {
    pub id: u32,
}

/// An identifier as written in the source.
#[derive(Debug, PartialEq, Eq, Hash)]
pub struct Name {
    pub text: String,
}

impl View for Name {
    type V = Seq<char>;

    open spec fn view(&self) -> Seq<char> {
        self.text@
    }
}

impl Name {
    /// The name with the given text.
    pub fn new(text: &str) -> (name: Name)
        ensures
            name@ == text@,
    {
        Name { text: text.to_owned() }
    }

    /// Whether two names are spelled the same.
    pub fn same_as(&self, other: &Name) -> (same: bool)
        ensures
            same == (self@ == other@),
    {
        self.text == other.text
    }
}

impl Clone for Name {
    fn clone(&self) -> (name: Name)
        ensures
            name@ == self@,
    {
        Name { text: self.text.clone() }
    }
}

} // verus!
