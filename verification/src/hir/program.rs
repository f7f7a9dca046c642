//! The facts about a program that method lookup reads: the module tree of each
//! crate, the impl blocks of each module, the items of each trait and the
//! signature of each function.

use vstd::prelude::*;
use crate::hir::ids::{AdtDef, Const, Crate, CrateModuleId, Function, ImplBlock, ImplId, Module, Name, Trait, TypeAlias};
use crate::hir::ty::{TraitRef, Ty};

verus! {

/// What method lookup reads of a function's signature.
#[derive(Debug, PartialEq, Eq)]
pub struct FnSignature {
    pub name: Name,
    pub has_self_param: bool,
}

/// A member of an impl block.
#[derive(Clone, Copy, Debug, PartialEq, Eq, Hash, Structural)]
pub enum ImplItem {
    Method(Function),
    Const(Const),
    TypeAlias(TypeAlias),
}

/// A member of a trait.
#[derive(Clone, Copy, Debug, PartialEq, Eq, Hash, Structural)]
pub enum TraitItem {
    Function(Function),
    Const(Const),
    TypeAlias(TypeAlias),
}

/// An impl block: the type it is for, the trait it implements if any, and
/// its members in source order.
#[derive(Debug, PartialEq, Eq)]
pub struct ImplData {
    pub target_ty: Ty,
    pub target_trait: Option<TraitRef>,
    pub items: Vec<ImplItem>,
}

/// A module: its impl blocks in source order and its child modules in order.
#[derive(Debug, PartialEq, Eq)]
pub struct ModuleData {
    pub impls: Vec<ImplData>,
    pub children: Vec<CrateModuleId>,
}

/// A crate: the arena of its modules and the root of the module tree.
#[derive(Debug, PartialEq, Eq)]
pub struct CrateData {
    pub root: Option<CrateModuleId>,
    pub modules: Vec<ModuleData>,
}

/// A trait: its members in declaration order, and the number of its generic
/// parameters, those of enclosing items and the `Self` parameter included.
#[derive(Debug, PartialEq, Eq)]
pub struct TraitData {
    pub items: Vec<TraitItem>,
    pub generic_params: u32,
}

/// A nominal type: the crate that defines it, if that crate is known.
#[derive(Debug, PartialEq, Eq)]
pub struct AdtData {
    pub krate: Option<Crate>,
}

/// The program. Each identity is a position in one of these arenas.
#[derive(Debug, PartialEq, Eq)]
pub struct Program {
    pub crates: Vec<CrateData>,
    pub adts: Vec<AdtData>,
    pub traits: Vec<TraitData>,
    pub functions: Vec<FnSignature>,
}

impl CrateData {
    /// Module `m` lists only modules that were allocated after it, and no
    /// more impl blocks than an `ImplId` can number.
    pub open spec fn module_wf(&self, m: int) -> bool {
        &&& self.modules@[m].impls@.len() <= u32::MAX
        &&& forall|c: int|
            0 <= c < self.modules@[m].children@.len() ==> m < (
            #[trigger] self.modules@[m].children@[c]).index < self.modules@.len()
    }

    /// The module arena is a forest in allocation order, and the root is one
    /// of its modules.
    pub open spec fn wf(&self) -> bool {
        &&& self.modules@.len() <= u32::MAX
        &&& self.root matches Some(root) ==> root.index < self.modules@.len()
        &&& forall|m: int| 0 <= m < self.modules@.len() ==> #[trigger] self.module_wf(m)
    }

    /// Decides `module_wf`.
    fn check_module(&self, m: usize) -> (ok: bool)
        requires
            m < self.modules@.len(),
        ensures
            ok == self.module_wf(m as int),
    {
        let module = &self.modules[m];
        if module.impls.len() > u32::MAX as usize {
            return false;
        }
        let mut c: usize = 0;
        while c < module.children.len()
            invariant
                c <= module.children@.len(),
                m < self.modules@.len(),
                *module == self.modules@[m as int],
                forall|d: int|
                    0 <= d < c ==> m < (#[trigger] module.children@[d]).index
                        < self.modules@.len(),
            decreases module.children@.len() - c,
        {
            let child = module.children[c].index as usize;
            if child <= m || child >= self.modules.len() {
                return false;
            }
            c += 1;
        }
        true
    }

    /// Decides `wf`.
    pub fn check(&self) -> (ok: bool)
        ensures
            ok == self.wf(),
    {
        if self.modules.len() > u32::MAX as usize {
            return false;
        }
        if let Some(root) = self.root {
            if root.index as usize >= self.modules.len() {
                return false;
            }
        }
        let mut m: usize = 0;
        while m < self.modules.len()
            invariant
                m <= self.modules@.len(),
                forall|n: int| 0 <= n < m ==> #[trigger] self.module_wf(n),
            decreases self.modules@.len() - m,
        {
            if !self.check_module(m) {
                return false;
            }
            m += 1;
        }
        true
    }
}

impl Program {
    /// Every crate is well formed, and every nominal type that names its
    /// crate names one of the program.
    pub open spec fn wf(&self) -> bool {
        &&& self.crates@.len() <= u32::MAX
        &&& forall|k: int| 0 <= k < self.crates@.len() ==> (#[trigger] self.crates@[k]).wf()
        &&& forall|a: int|
            0 <= a < self.adts@.len() ==> (
            (#[trigger] self.adts@[a]).krate matches Some(krate) ==> krate.crate_id
                < self.crates@.len())
    }

    /// Decides `wf`.
    pub fn check(&self) -> (ok: bool)
        ensures
            ok == self.wf(),
    {
        if self.crates.len() > u32::MAX as usize {
            return false;
        }
        let mut k: usize = 0;
        while k < self.crates.len()
            invariant
                k <= self.crates@.len(),
                forall|j: int| 0 <= j < k ==> (#[trigger] self.crates@[j]).wf(),
            decreases self.crates@.len() - k,
        {
            if !self.crates[k].check() {
                return false;
            }
            k += 1;
        }
        let mut a: usize = 0;
        while a < self.adts.len()
            invariant
                a <= self.adts@.len(),
                forall|b: int|
                    0 <= b < a ==> ((#[trigger] self.adts@[b]).krate matches Some(krate)
                        ==> krate.crate_id < self.crates@.len()),
            decreases self.adts@.len() - a,
        {
            if let Some(krate) = self.adts[a].krate {
                if krate.crate_id as usize >= self.crates.len() {
                    return false;
                }
            }
            a += 1;
        }
        true
    }

    /// Whether `module` is a module of the program.
    pub open spec fn has_module(&self, module: Module) -> bool {
        &&& module.krate.crate_id < self.crates@.len()
        &&& module.module_id.index < self.crates@[module.krate.crate_id as int].modules@.len()
    }

    /// The data of `module`.
    pub open spec fn module_data(&self, module: Module) -> ModuleData
        recommends
            self.has_module(module),
    {
        self.crates@[module.krate.crate_id as int].modules@[module.module_id.index as int]
    }

    /// Whether `block` is an impl block of the program.
    pub open spec fn has_impl(&self, block: ImplBlock) -> bool {
        &&& self.has_module(block.module)
        &&& block.impl_id.index < self.module_data(block.module).impls@.len()
    }

    /// The data of `block`.
    pub open spec fn impl_data(&self, block: ImplBlock) -> ImplData
        recommends
            self.has_impl(block),
    {
        self.module_data(block.module).impls@[block.impl_id.index as int]
    }

    /// The data of `module`, if it is a module of the program.
    pub fn module(&self, module: Module) -> (data: Option<&ModuleData>)
        ensures
            data == (if self.has_module(module) {
                Some(&self.module_data(module))
            } else {
                None
            }),
    {
        let k = module.krate.crate_id as usize;
        let m = module.module_id.index as usize;
        if k < self.crates.len() && m < self.crates[k].modules.len() {
            Some(&self.crates[k].modules[m])
        } else {
            None
        }
    }

    /// The data of `block`, if it is an impl block of the program.
    pub fn impl_block(&self, block: ImplBlock) -> (data: Option<&ImplData>)
        ensures
            data == (if self.has_impl(block) {
                Some(&self.impl_data(block))
            } else {
                None
            }),
    {
        match self.module(block.module) {
            Some(module) => {
                let i = block.impl_id.index as usize;
                if i < module.impls.len() {
                    Some(&module.impls[i])
                } else {
                    None
                }
            },
            None => None,
        }
    }

    /// The root module of `krate`, if the crate is known and has one.
    pub open spec fn spec_root_module(&self, krate: Crate) -> Option<Module> {
        if krate.crate_id < self.crates@.len() {
            match self.crates@[krate.crate_id as int].root {
                Some(module_id) => Some(Module { krate, module_id }),
                None => None,
            }
        } else {
            None
        }
    }

    /// The root module of `krate`, if the crate is known and has one.
    pub fn root_module(&self, krate: Crate) -> (root: Option<Module>)
        ensures
            root == self.spec_root_module(krate),
    {
        let k = krate.crate_id as usize;
        if k < self.crates.len() {
            match self.crates[k].root {
                Some(module_id) => Some(Module { krate, module_id }),
                None => None,
            }
        } else {
            None
        }
    }

    /// The crate that defines `def`, if it is known.
    pub open spec fn spec_adt_krate(&self, def: AdtDef) -> Option<Crate> {
        if def.id < self.adts@.len() {
            self.adts@[def.id as int].krate
        } else {
            None
        }
    }

    /// The crate that defines `def`, if it is known.
    pub fn adt_krate(&self, def: AdtDef) -> (krate: Option<Crate>)
        ensures
            krate == self.spec_adt_krate(def),
    {
        let a = def.id as usize;
        if a < self.adts.len() {
            self.adts[a].krate
        } else {
            None
        }
    }

    /// The data of trait `tr`, if it is a trait of the program.
    pub fn trait_data(&self, tr: Trait) -> (data: Option<&TraitData>)
        ensures
            data == (if tr.id < self.traits@.len() {
                Some(&self.traits@[tr.id as int])
            } else {
                None
            }),
    {
        let t = tr.id as usize;
        if t < self.traits.len() {
            Some(&self.traits[t])
        } else {
            None
        }
    }

    /// The signature of `f`, if it is a function of the program.
    pub fn signature(&self, f: Function) -> (sig: Option<&FnSignature>)
        ensures
            sig == (if f.id < self.functions@.len() {
                Some(&self.functions@[f.id as int])
            } else {
                None
            }),
    {
        let i = f.id as usize;
        if i < self.functions.len() {
            Some(&self.functions[i])
        } else {
            None
        }
    }
}

} // verus!
