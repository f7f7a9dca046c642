//! The database that lookups run against: the program and, for each of its
//! crates, the index of the crate's impl blocks.

use vstd::prelude::*;
use std::sync::Arc;
use crate::hir::ids::Crate;
use crate::hir::method_resolution::CrateImplBlocks;
use crate::hir::program::Program;

verus! {

/// A well-formed program together with the impl index of each crate. The
/// indices are built once, when the database is made, and only read after.
pub struct HirDatabase {
    program: Program,
    crate_impls: Vec<Arc<CrateImplBlocks>>,
}

impl View for HirDatabase {
    type V = Program;

    closed spec fn view(&self) -> Program {
        self.program
    }
}

impl HirDatabase {
    /// The program is well formed, and the index kept for each crate is the
    /// index of that crate.
    #[verifier::type_invariant]
    pub closed spec fn wf(&self) -> bool {
        &&& self.program.wf()
        &&& self.crate_impls@.len() == self.program.crates@.len()
        &&& forall|k: int|
            0 <= k < self.crate_impls@.len() ==> (#[trigger] self.crate_impls@[k]).indexes(
                self.program,
                Crate { crate_id: k as u32 },
            )
    }

    /// The database of `program`, or none if the program is not well formed.
    pub fn new(program: Program) -> (db: Option<HirDatabase>)
        ensures
            match db {
                Some(db) => program.wf() && db@ == program && db.wf(),
                None => !program.wf(),
            },
    {
        if !program.check() {
            return None;
        }
        let mut crate_impls: Vec<Arc<CrateImplBlocks>> = Vec::new();
        let mut k: usize = 0;
        while k < program.crates.len()
            invariant
                program.wf(),
                k <= program.crates@.len(),
                crate_impls@.len() == k,
                forall|j: int|
                    0 <= j < k ==> (#[trigger] crate_impls@[j]).indexes(
                        program,
                        Crate { crate_id: j as u32 },
                    ),
            decreases program.crates@.len() - k,
        {
            let index = CrateImplBlocks::impls_in_crate_query(&program, Crate { crate_id: k as u32 });
            crate_impls.push(index);
            k += 1;
        }
        Some(HirDatabase { program, crate_impls })
    }

    /// The program.
    pub fn program(&self) -> (program: &Program)
        ensures
            *program == self@,
            program.wf(),
    {
        proof {
            use_type_invariant(self);
        }
        &self.program
    }

    /// The impl index of `krate`, or none if the program has no such crate.
    pub fn impls_in_crate(&self, krate: Crate) -> (index: Option<&CrateImplBlocks>)
        ensures
            match index {
                Some(index) => krate.crate_id < self@.crates@.len() && index.indexes(self@, krate),
                None => krate.crate_id >= self@.crates@.len(),
            },
    {
        proof {
            use_type_invariant(self);
        }
        let k = krate.crate_id as usize;
        if k < self.crate_impls.len() {
            Some(&*self.crate_impls[k])
        } else {
            None
        }
    }
}

} // verus!
