//! The construction and destruction protocol of a filter handle.
//!
//! Construction runs in stages: check the filter text, take the process-wide
//! compilation guard, run the foreign compiler, then run the foreign JIT
//! engine. The foreign calls themselves live outside this crate; each
//! function here is the decision taken on what one stage reported, and the
//! lemmas state the protocol-wide rules: construction never accepts a
//! half-initialized handle, the callable is released exactly once, and a
//! clone carries exactly the original's instructions.

use vstd::prelude::*;

use crate::error::FilterError;
use crate::insn::BpfInsn;
use crate::insn::FilterProgram;

verus! {

/// The link-layer framing a filter is compiled against.
#[derive(Clone, Copy, PartialEq, Eq, Structural, Debug)]
pub enum LinkType {
    Ethernet,
    RawIp,
}

/// The numeric link-layer code the foreign compiler expects.
pub open spec fn spec_link_code(t: LinkType) -> int {
    match t {
        LinkType::Ethernet => 1,
        LinkType::RawIp => 12,
    }
}

/// Everything the foreign compiler must be given for one compile step: the
/// link-layer code, the fixed maximum snapshot length, optimization on, and
/// the all-ones netmask.
pub struct CompileRequest {
    pub link_code: i32,
    pub snap_len: i32,
    pub optimize: bool,
    pub netmask: u32,
}

/// Build the compile request for a link type.
pub fn compile_request(t: LinkType) -> (r: CompileRequest)
    ensures
        r.link_code == spec_link_code(t),
        r.snap_len == 65535,
        r.optimize,
        r.netmask == 0xffff_ffffu32,
{
    let link_code: i32 = match t {
        LinkType::Ethernet => 1,
        LinkType::RawIp => 12,
    };
    CompileRequest { link_code, snap_len: 65535, optimize: true, netmask: 0xffff_ffff }
}

/// The filter text can be handed to the foreign compiler: it holds no
/// interior NUL byte, so the C-string conversion succeeds.
pub open spec fn nul_free(text: Seq<u8>) -> bool {
    forall|i: int| 0 <= i < text.len() ==> text[i] != 0
}

/// Decide the text stage: the conversion to the foreign string
/// representation succeeds exactly when the text is NUL-free.
pub fn filter_text_ok(text: &[u8]) -> (r: bool)
    ensures
        r == nul_free(text@),
{
    let mut i: usize = 0;
    while i < text.len()
        invariant
            i <= text@.len(),
            forall|j: int| 0 <= j < i ==> text@[j] != 0,
        decreases text@.len() - i,
    {
        if text[i] == 0 {
            return false;
        }
        i = i + 1;
    }
    true
}

/// Decide the guard stage: taking the process-wide compilation guard either
/// succeeded or construction fails with the lock error.
pub fn guard_outcome(acquired: bool) -> (r: Result<(), FilterError>)
    ensures
        acquired ==> r is Ok,
        !acquired ==> (r matches Err(e) && e is Lock),
{
    if acquired {
        Ok(())
    } else {
        Err(FilterError::Lock)
    }
}

/// Decide the compile stage from what the foreign compiler reported: its
/// status code, its diagnostic, and the instructions copied out of its
/// program. A zero status accepts the program as compiled; any other status
/// rejects with the diagnostic, verbatim.
pub fn compile_outcome(status: i32, diagnostic: String, insns: Vec<BpfInsn>) -> (r: Result<
    FilterProgram,
    FilterError,
>)
    ensures
        status == 0 ==> (r matches Ok(p) && p@ == insns@),
        status != 0 ==> (r matches Err(e) && e matches FilterError::Compile(m) && m@
            == diagnostic@),
{
    if status == 0 {
        Ok(FilterProgram { insns })
    } else {
        Err(FilterError::Compile(diagnostic))
    }
}

/// The model of one filter handle: the program it owns, and whether it still
/// holds the release obligation for a JIT callable.
pub struct HandleModel {
    pub program: FilterProgram,
    pub callable_held: bool,
}

/// The spec-level image of a handle: its instructions and whether a callable
/// is still held.
#[verifier::ext_equal]
pub struct HandleView {
    pub insns: Seq<BpfInsn>,
    pub callable_held: bool,
}

impl View for HandleModel {
    type V = HandleView;

    open spec fn view(&self) -> HandleView {
        HandleView { insns: self.program@, callable_held: self.callable_held }
    }
}

impl HandleModel {
    /// A handle fit to hand to a caller: it holds both the compiled program
    /// and a JIT callable.
    pub open spec fn ready(&self) -> bool {
        self.callable_held
    }

    /// Give up the release obligation: the result says whether the foreign
    /// free function must be called now. Afterwards the handle holds no
    /// callable, so a second call frees nothing.
    pub fn release(&mut self) -> (free_now: bool)
        ensures
            free_now == old(self)@.callable_held,
            final(self)@ == spec_release(old(self)@).0,
            free_now == spec_release(old(self)@).1,
    {
        let held = self.callable_held;
        self.callable_held = false;
        held
    }

    /// The decision of cloning a handle: the JIT step is re-run on a copy of
    /// the same program; when the engine again yields a callable the clone is
    /// accepted, and it carries exactly the original's instructions.
    pub fn clone_outcome(&self, callable_obtained: bool) -> (r: Result<HandleModel, FilterError>)
        ensures
            callable_obtained ==> (r matches Ok(c) && c@.insns == self@.insns && c.ready()),
            !callable_obtained ==> (r matches Err(e) && e is Jit),
    {
        jit_outcome(self.program.clone(), callable_obtained)
    }
}

/// Decide the JIT stage: the foreign engine either produced a callable, in
/// which case the handle is accepted holding both resources, or it did not,
/// which rejects the whole construction.
pub fn jit_outcome(program: FilterProgram, callable_obtained: bool) -> (r: Result<
    HandleModel,
    FilterError,
>)
    ensures
        callable_obtained ==> (r matches Ok(h) && h@.insns == program@ && h.ready()),
        !callable_obtained ==> (r matches Err(e) && e is Jit),
{
    if callable_obtained {
        Ok(HandleModel { program, callable_held: true })
    } else {
        Err(FilterError::Jit)
    }
}

/// Spec-level release: the handle afterwards, and whether the foreign free
/// function runs now.
pub open spec fn spec_release(v: HandleView) -> (HandleView, bool) {
    (HandleView { insns: v.insns, callable_held: false }, v.callable_held)
}

/// Spec-level re-JIT, the heart of cloning: when the engine yields a
/// callable, the new handle carries the given instructions and holds it.
pub open spec fn spec_rejit(insns: Seq<BpfInsn>, callable_obtained: bool) -> Option<HandleView> {
    if callable_obtained {
        Some(HandleView { insns, callable_held: true })
    } else {
        None
    }
}

/// The stage at which construction stops, as a function of what every
/// foreign stage reports.
#[derive(Clone, Copy, PartialEq, Eq, Structural, Debug)]
pub enum BuildDecision {
    Accept,
    RejectText,
    RejectGuard,
    RejectCompile,
    RejectJit,
}

/// The whole construction decision: the first failing stage names the
/// rejection; only all four stages passing accepts.
pub open spec fn construct_decision(
    text: Seq<u8>,
    guard_acquired: bool,
    status: int,
    callable_obtained: bool,
) -> BuildDecision {
    if !nul_free(text) {
        BuildDecision::RejectText
    } else if !guard_acquired {
        BuildDecision::RejectGuard
    } else if status != 0 {
        BuildDecision::RejectCompile
    } else if !callable_obtained {
        BuildDecision::RejectJit
    } else {
        BuildDecision::Accept
    }
}

/// Construction is sound: whatever the foreign stages report, the decision
/// accepts exactly when every stage succeeded — so a caller is never handed
/// a half-initialized handle — and otherwise it names the first stage that
/// failed.
pub proof fn lemma_construction_sound(
    text: Seq<u8>,
    guard_acquired: bool,
    status: int,
    callable_obtained: bool,
)
    ensures
        construct_decision(text, guard_acquired, status, callable_obtained) is Accept <==> (
        nul_free(text) && guard_acquired && status == 0 && callable_obtained),
        construct_decision(text, guard_acquired, status, callable_obtained) is RejectCompile ==> (
        nul_free(text) && guard_acquired && status != 0),
        construct_decision(text, guard_acquired, status, callable_obtained) is RejectJit ==> (
        nul_free(text) && guard_acquired && status == 0 && !callable_obtained),
{
}

/// The callable is released exactly once: releasing frees it exactly when it
/// is held, afterwards none is held, and a second release frees nothing.
pub proof fn lemma_release_exactly_once(v: HandleView)
    ensures
        spec_release(v).1 == v.callable_held,
        !spec_release(v).0.callable_held,
        !spec_release(spec_release(v).0).1,
{
}

/// A clone of a ready handle, made by re-running the JIT step on the same
/// program, is accepted whenever the engine again yields a callable, and is
/// then identical to the original at the model's level: same instructions,
/// callable held.
pub proof fn lemma_clone_identical(v: HandleView)
    requires
        v.callable_held,
    ensures
        spec_rejit(v.insns, true) matches Some(c) && c == v,
{
    assert(spec_rejit(v.insns, true) matches Some(c) && c =~= v);
}

} // verus!
