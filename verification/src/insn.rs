//! The data model of a compiled filter: classic BPF instructions held as
//! plain values, copied out of the foreign compiler's array once at
//! construction time.

use vstd::prelude::*;

verus! {

/// One classic BPF instruction: an opcode, the two conditional-jump offsets,
/// and a literal operand.
#[derive(Clone, Copy, PartialEq, Eq, Structural, Debug)]
pub struct BpfInsn {
    pub code: u16,
    pub jt: u8,
    pub jf: u8,
    pub k: u32,
}

/// A compiled filter program: the instruction sequence the foreign compiler
/// produced, in plainly owned storage. Read-only after creation.
pub struct FilterProgram {
    pub insns: Vec<BpfInsn>,
}

impl View for FilterProgram {
    type V = Seq<BpfInsn>;

    open spec fn view(&self) -> Seq<BpfInsn> {
        self.insns@
    }
}

impl FilterProgram {
    /// How many instructions the program holds.
    pub fn len(&self) -> (n: usize)
        ensures
            n == self@.len(),
    {
        self.insns.len()
    }

    /// The instruction at a given index.
    pub fn instruction(&self, i: usize) -> (r: BpfInsn)
        requires
            i < self@.len(),
        ensures
            r == self@[i as int],
    {
        self.insns[i]
    }
}

impl Clone for FilterProgram {
    /// A copy carrying exactly the same instructions.
    fn clone(&self) -> (r: Self)
        ensures
            r@ == self@,
    {
        let mut insns: Vec<BpfInsn> = Vec::new();
        let mut i: usize = 0;
        while i < self.insns.len()
            invariant
                i <= self.insns.len(),
                insns@ == self.insns@.take(i as int),
            decreases self.insns.len() - i,
        {
            insns.push(self.insns[i]);
            proof {
                assert(self.insns@.take(i as int + 1) =~= self.insns@.take(i as int).push(
                    self.insns@[i as int],
                ));
            }
            i = i + 1;
        }
        proof {
            assert(self.insns@.take(self.insns@.len() as int) =~= self.insns@);
        }
        FilterProgram { insns }
    }
}

} // verus!
