//! The message synthesizer: one tagged-union case per qualifying method,
//! named after the method, holding the input tuple (if any) and a reply
//! sender (if the method returns a value).

use vstd::prelude::*;

use crate::ir::{Classification, MethodDescriptor};

verus! {

/// One case of the operation union.
pub struct MessageVariant {
    /// The variant's name: the name of the method it stands for.
    pub name: String,
    /// Type names of the captured input tuple; empty when the method takes
    /// no non-receiver input.
    pub inputs: Vec<String>,
    /// Payload type of the single-use reply sender; `None` when the method
    /// returns unit and no reply is sent.
    pub reply: Option<String>,
}

impl MessageVariant {
    /// This variant is the message case for the descriptor `d`.
    pub open spec fn describes(self, d: MethodDescriptor) -> bool {
        &&& self.name@ == d.name@
        &&& self.inputs@ == d.inputs@
        &&& self.reply == d.output
    }
}

/// `vs` is exactly one variant per descriptor, in order.
pub open spec fn variants_match(vs: Seq<MessageVariant>, ds: Seq<MethodDescriptor>) -> bool {
    &&& vs.len() == ds.len()
    &&& forall|i: int| 0 <= i < vs.len() ==> (#[trigger] vs[i]).describes(ds[i])
}

/// Builds the message union: one variant per instance descriptor, in
/// interface order. A variant carries a reply sender exactly when its
/// method returns a value, and an input tuple exactly when it takes inputs.
pub fn synthesize_variants(methods: &Vec<MethodDescriptor>) -> (r: Vec<MessageVariant>)
    ensures
        variants_match(r@, methods@),
        forall|i: int|
            0 <= i < methods@.len() ==> ((#[trigger] r@[i].reply) is Some <==> methods@[i].output
                is Some),
        forall|i: int|
            0 <= i < methods@.len() ==> (#[trigger] r@[i].inputs@.len())
                == methods@[i].inputs@.len(),
{
    let mut out: Vec<MessageVariant> = Vec::new();
    let mut i: usize = 0;
    while i < methods.len()
        invariant
            0 <= i <= methods@.len(),
            out@.len() == i,
            forall|j: int| 0 <= j < i ==> (#[trigger] out@[j]).describes(methods@[j]),
        decreases methods@.len() - i,
    {
        let d = &methods[i];
        out.push(MessageVariant {
            name: d.name.clone(),
            inputs: crate::normalize::clone_names(&d.inputs),
            reply: crate::normalize::clone_output(&d.output),
        });
        i += 1;
    }
    out
}

/// The debug representation of a message: only the variant's name. Payload
/// values, including unprintable reply senders, are never rendered.
pub fn debug_label(v: &MessageVariant) -> (r: String)
    ensures
        r@ == v.name@,
{
    v.name.clone()
}

/// The debug representation of the whole union when it has no variants:
/// the union's own name.
pub fn debug_label_empty(script_name: &String) -> (r: String)
    ensures
        r@ == script_name@,
{
    script_name.clone()
}

/// Classification drives the variant's payload: a reply sender is embedded
/// exactly for output-carrying methods, an input tuple exactly for
/// input-carrying ones.
pub proof fn lemma_variant_payload(v: MessageVariant, d: MethodDescriptor)
    requires
        d.wf(),
        v.describes(d),
    ensures
        (v.reply is Some) <==> (d.classification == Classification::O || d.classification
            == Classification::Io),
        (v.inputs@.len() > 0) <==> (d.classification == Classification::I || d.classification
            == Classification::Io),
{
}

} // verus!
