//! The intermediate representation consumed by the synthesis passes: raw
//! method descriptors as the host's interface-description parser hands them
//! over, and the normalized actor description the passes work on.

use vstd::prelude::*;

verus! {

/// How a method touches its receiver.
#[derive(Clone, Copy, PartialEq, Eq, Structural, Debug)]
pub enum ReceiverKind {
    /// No receiver at all: an associated (static) function.
    Static,
    /// Takes `&self`.
    Shared,
    /// Takes `&mut self`.
    Exclusive,
    /// Consumes `self` by value; such methods are never wrapped.
    Consumed,
}

/// The generated shape of one method, derived from whether it takes
/// non-receiver inputs and whether it returns a value.
#[derive(Clone, Copy, PartialEq, Eq, Structural, Debug)]
pub enum Classification {
    /// No inputs, no output: the message carries no payload at all.
    Unit,
    /// Inputs only: the message carries the input tuple.
    I,
    /// Output only: the message carries a reply sender.
    O,
    /// Inputs and an output: input tuple plus reply sender.
    Io,
}

/// The classification a method with the given inputs and output must get.
pub open spec fn classification_of(has_input: bool, has_output: bool) -> Classification {
    if has_input && has_output {
        Classification::Io
    } else if has_input {
        Classification::I
    } else if has_output {
        Classification::O
    } else {
        Classification::Unit
    }
}

/// Classifies a method by the presence of inputs and of an output.
pub fn classify(has_input: bool, has_output: bool) -> (c: Classification)
    ensures
        c == classification_of(has_input, has_output),
{
    match (has_input, has_output) {
        (false, false) => Classification::Unit,
        (true, false) => Classification::I,
        (false, true) => Classification::O,
        (true, true) => Classification::Io,
    }
}

/// Item visibility as the interface parser reports it.
#[derive(Clone, Copy, PartialEq, Eq, Structural, Debug)]
pub enum Vis {
    Public,
    /// `pub(crate)` and friends; still wrappable.
    Restricted,
    Private,
}

/// Whether a method's return type mentions the wrapped target type, and how.
/// Only meaningful on associated functions: it decides constructor detection
/// and static pass-through eligibility.
#[derive(Clone, Copy, PartialEq, Eq, Structural, Debug)]
pub enum TargetShape {
    /// The return type is not the target type.
    NotTarget,
    /// Returns the target type itself.
    Plain,
    /// Returns the target type inside an optional.
    InOption,
    /// Returns the target type inside a result-like type.
    InResult,
}

/// One method of the wrapped object, as the interface parser describes it.
pub struct RawMethod {
    pub name: String,
    pub vis: Vis,
    pub receiver: ReceiverKind,
    pub is_async: bool,
    /// Type names of the non-receiver parameters, in order.
    pub inputs: Vec<String>,
    /// Type name of the return value; `None` when the method returns unit.
    pub output: Option<String>,
    pub target_shape: TargetShape,
}

/// How fallible the located constructor is.
#[derive(Clone, Copy, PartialEq, Eq, Structural, Debug)]
pub enum ConstructorKind {
    /// `new`, returning the target plainly.
    Plain,
    /// `try_new`, returning the target in an optional.
    Optional,
    /// `try_new`, returning the target in a result-like type.
    Fallible,
}

/// The one constructor the normalizer located.
pub struct ConstructorDescriptor {
    pub name: String,
    pub vis: Vis,
    pub kind: ConstructorKind,
    pub inputs: Vec<String>,
}

impl ConstructorDescriptor {
    /// This constructor descriptor comes from the raw method `m`.
    pub open spec fn describes(self, m: RawMethod) -> bool {
        &&& self.name@ == m.name@
        &&& self.vis == m.vis
        &&& self.inputs@ == m.inputs@
        &&& self.kind == (match m.target_shape {
            TargetShape::InOption => ConstructorKind::Optional,
            TargetShape::InResult => ConstructorKind::Fallible,
            _ => ConstructorKind::Plain,
        })
    }
}

/// A normalized instance method: eligible, classified, ready for synthesis.
pub struct MethodDescriptor {
    pub name: String,
    pub vis: Vis,
    pub receiver: ReceiverKind,
    pub is_async: bool,
    pub inputs: Vec<String>,
    pub output: Option<String>,
    pub classification: Classification,
}

impl MethodDescriptor {
    /// A descriptor is well formed when its receiver is wrappable and its
    /// classification agrees with its inputs and output.
    pub open spec fn wf(self) -> bool {
        &&& (self.receiver == ReceiverKind::Shared || self.receiver == ReceiverKind::Exclusive)
        &&& self.classification == classification_of(self.inputs.len() > 0, self.output is Some)
    }

    /// This descriptor is the normalization of the raw method `m`.
    pub open spec fn describes(self, m: RawMethod) -> bool {
        &&& self.name@ == m.name@
        &&& self.vis == m.vis
        &&& self.receiver == m.receiver
        &&& self.is_async == m.is_async
        &&& self.inputs@ == m.inputs@
        &&& self.output == m.output
        &&& self.classification == classification_of(m.inputs.len() > 0, m.output is Some)
    }
}

/// An associated function forwarded as a direct pass-through on the proxy.
pub struct StaticForward {
    pub name: String,
    pub vis: Vis,
    pub is_async: bool,
    pub inputs: Vec<String>,
    pub output: Option<String>,
}

impl StaticForward {
    /// This pass-through descriptor comes from the raw method `m`.
    pub open spec fn describes(self, m: RawMethod) -> bool {
        &&& self.name@ == m.name@
        &&& self.vis == m.vis
        &&& self.is_async == m.is_async
        &&& self.inputs@ == m.inputs@
        &&& self.output == m.output
    }
}

/// The concurrency runtime supplying queue and suspension primitives.
#[derive(Clone, Copy, PartialEq, Eq, Structural, Debug)]
pub enum Backend {
    /// Synchronous-only: plain threads, blocking channels.
    Std,
    Tokio,
    AsyncStd,
    Smol,
}

/// The queue discipline governing backpressure and wake behavior.
#[derive(Clone, Copy, PartialEq, Eq, Structural, Debug)]
pub enum Topology {
    /// Unbounded multi-producer/single-consumer queue.
    Unbounded,
    /// Producers suspend once the queue holds this many items.
    Bounded(usize),
    /// Shared buffer drained as one batch under a lock, with a condition
    /// variable and reference-counted termination detection.
    BatchedCondvar,
}

/// Which named fragments of one artifact group the caller withdraws for
/// hand-editing.
pub struct EditPart {
    /// Withdraw the type definition itself.
    pub def: bool,
    /// `None`: withdraw no method. `Some` of an empty list: withdraw all of
    /// them. Otherwise: withdraw each named method.
    pub methods: Option<Vec<String>>,
    /// Same selection scheme, over the generated trait implementations.
    pub traits: Option<Vec<String>>,
}

/// The override-selector tree: one part for the message type's artifacts and
/// one for the proxy's.
pub struct EditConfig {
    pub script: EditPart,
    pub live: EditPart,
}

/// The caller's configuration, as the excluded attribute parser hands it over.
pub struct ActorConfig {
    pub lib: Backend,
    pub channel: Topology,
    /// Optional rename overriding the generated type names' base.
    pub rename: Option<String>,
    /// Forward associated functions returning the target as pass-throughs.
    pub assoc: bool,
    /// Mint construction-order identity tokens for the proxy.
    pub id: bool,
    pub edit: EditConfig,
}

impl EditPart {
    /// An empty selection: nothing withdrawn.
    pub fn none() -> (r: EditPart)
        ensures
            !r.def,
            r.methods is None,
            r.traits is None,
    {
        EditPart { def: false, methods: None, traits: None }
    }
}

/// The whole normalized actor description the synthesis passes consume.
pub struct ActorSpec {
    /// The wrapped type's own name.
    pub actor_name: String,
    /// The base for generated names: the rename if one was given, else the
    /// target's name.
    pub cust_name: String,
    pub constructor: ConstructorDescriptor,
    /// Eligible instance methods, in interface order.
    pub methods: Vec<MethodDescriptor>,
    /// Associated functions forwarded as pass-throughs, in interface order.
    pub statics: Vec<StaticForward>,
    pub config: ActorConfig,
}

impl ActorSpec {
    pub open spec fn wf(self) -> bool {
        forall|i: int| 0 <= i < self.methods@.len() ==> (#[trigger] self.methods@[i]).wf()
    }
}

} // verus!
