//! The dispatcher synthesizer: the single `apply(message, &mut instance)`
//! operation, described as one arm per message variant. An arm invokes the
//! corresponding method with the captured inputs and, when a reply sender is
//! present, sends the result through it. A reply-send failure is fatal to the
//! run-loop's host unit: it is never swallowed.

use vstd::prelude::*;

use crate::ir::{Classification, MethodDescriptor};
use crate::message::MessageVariant;

verus! {

/// One arm of the dispatch match.
pub struct DispatchArm {
    /// The matched variant's name.
    pub variant: String,
    /// The method the arm invokes: the same name the variant carries.
    pub method: String,
    /// The arm passes the captured input tuple to the method.
    pub forwards_input: bool,
    /// The arm sends the method's result through the embedded reply sender;
    /// a send failure (peer already dropped) aborts the host unit.
    pub sends_reply: bool,
    /// The invocation is awaited: the method is asynchronous.
    pub awaits: bool,
}

impl DispatchArm {
    /// This arm dispatches the descriptor `d`.
    pub open spec fn describes(self, d: MethodDescriptor) -> bool {
        &&& self.variant@ == d.name@
        &&& self.method@ == d.name@
        &&& self.forwards_input == (d.inputs.len() > 0)
        &&& self.sends_reply == (d.output is Some)
        &&& self.awaits == d.is_async
    }
}

/// `arms` is exactly one dispatch arm per descriptor, in order.
pub open spec fn arms_match(arms: Seq<DispatchArm>, ds: Seq<MethodDescriptor>) -> bool {
    &&& arms.len() == ds.len()
    &&& forall|i: int| 0 <= i < arms.len() ==> (#[trigger] arms[i]).describes(ds[i])
}

/// Builds the dispatch logic: one arm per instance descriptor, in interface
/// order, each invoking the descriptor's own method and replying exactly
/// when the method returns a value.
pub fn synthesize_dispatch(methods: &Vec<MethodDescriptor>) -> (r: Vec<DispatchArm>)
    ensures
        arms_match(r@, methods@),
{
    let mut out: Vec<DispatchArm> = Vec::new();
    let mut i: usize = 0;
    while i < methods.len()
        invariant
            0 <= i <= methods@.len(),
            out@.len() == i,
            forall|j: int| 0 <= j < i ==> (#[trigger] out@[j]).describes(methods@[j]),
        decreases methods@.len() - i,
    {
        let d = &methods[i];
        out.push(DispatchArm {
            variant: d.name.clone(),
            method: d.name.clone(),
            forwards_input: d.inputs.len() > 0,
            sends_reply: d.output.is_some(),
            awaits: d.is_async,
        });
        i += 1;
    }
    out
}

/// An arm replies exactly when its variant embeds a reply sender, and
/// forwards inputs exactly when the variant captures an input tuple: the
/// dispatcher and the message union always agree.
pub proof fn lemma_arm_agrees_with_variant(a: DispatchArm, v: MessageVariant, d: MethodDescriptor)
    requires
        d.wf(),
        a.describes(d),
        v.describes(d),
    ensures
        a.sends_reply <==> (v.reply is Some),
        a.forwards_input <==> (v.inputs@.len() > 0),
        a.sends_reply <==> (d.classification == Classification::O || d.classification
            == Classification::Io),
{
}

} // verus!
