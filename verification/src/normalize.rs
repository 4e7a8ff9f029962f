//! The interface normalizer: locates exactly one constructor, skips methods
//! whose receiver is consumed by value, classifies the rest, and checks the
//! configuration for a synchronous-only backend facing asynchronous methods.

use vstd::prelude::*;

use crate::errors::ConfigError;
use crate::ir::{
    ActorConfig, ActorSpec, Backend, ConstructorDescriptor, ConstructorKind, MethodDescriptor,
    RawMethod, ReceiverKind, StaticForward, TargetShape, Vis,
};
use crate::seqtools::{lemma_filter_empty, lemma_filter_take_step};

verus! {

/// A raw method is an eligible constructor: an associated function named
/// `new` returning the target plainly, or `try_new` returning it in an
/// optional or result-like type.
pub open spec fn is_constructor(m: RawMethod) -> bool {
    &&& m.vis != Vis::Private
    &&& m.receiver == ReceiverKind::Static
    &&& {
        ||| (m.name@ == "new"@ && m.target_shape == TargetShape::Plain)
        ||| (m.name@ == "try_new"@ && (m.target_shape == TargetShape::InOption
            || m.target_shape == TargetShape::InResult))
    }
}

/// A raw method becomes a forwarding instance method: visible, with a
/// `&self` or `&mut self` receiver. Methods consuming `self` are skipped.
pub open spec fn is_instance_eligible(m: RawMethod) -> bool {
    &&& m.vis != Vis::Private
    &&& (m.receiver == ReceiverKind::Shared || m.receiver == ReceiverKind::Exclusive)
}

/// A raw method becomes a direct pass-through on the proxy: the assoc option
/// is on, the method is a visible associated function returning the target
/// type, and it is not constructor-shaped (constructors are handled apart).
pub open spec fn is_static_forward(m: RawMethod, assoc: bool) -> bool {
    &&& assoc
    &&& m.vis != Vis::Private
    &&& m.receiver == ReceiverKind::Static
    &&& m.target_shape != TargetShape::NotTarget
    &&& !is_constructor(m)
}

/// A raw method whose asynchrony matters: it ends up either as a message
/// variant or as a pass-through.
pub open spec fn is_relevant(m: RawMethod, assoc: bool) -> bool {
    is_instance_eligible(m) || is_static_forward(m, assoc)
}

/// The instance-eligibility test, as a function value usable under `filter`.
pub open spec fn eligible_pred() -> spec_fn(RawMethod) -> bool {
    |m: RawMethod| is_instance_eligible(m)
}

/// The pass-through test, as a function value usable under `filter`.
pub open spec fn forward_pred(assoc: bool) -> spec_fn(RawMethod) -> bool {
    |m: RawMethod| is_static_forward(m, assoc)
}

/// The eligible instance methods, in interface order.
pub open spec fn eligible_of(ms: Seq<RawMethod>) -> Seq<RawMethod> {
    ms.filter(eligible_pred())
}

/// The pass-through associated functions, in interface order.
pub open spec fn forwards_of(ms: Seq<RawMethod>, assoc: bool) -> Seq<RawMethod> {
    ms.filter(forward_pred(assoc))
}

/// `ds` is exactly the normalization of the eligible instance methods of `ms`.
pub open spec fn methods_match(ds: Seq<MethodDescriptor>, ms: Seq<RawMethod>) -> bool {
    &&& ds.len() == eligible_of(ms).len()
    &&& forall|i: int| 0 <= i < ds.len() ==> (#[trigger] ds[i]).describes(eligible_of(ms)[i])
}

/// `fs` is exactly the pass-through list derived from `ms`.
pub open spec fn statics_match(fs: Seq<StaticForward>, ms: Seq<RawMethod>, assoc: bool) -> bool {
    &&& fs.len() == forwards_of(ms, assoc).len()
    &&& forall|i: int|
        0 <= i < fs.len() ==> (#[trigger] fs[i]).describes(forwards_of(ms, assoc)[i])
}

/// Some raw method is an eligible constructor.
pub open spec fn has_constructor(ms: Seq<RawMethod>) -> bool {
    exists|i: int| 0 <= i < ms.len() && is_constructor(ms[i])
}

/// True exactly when the method's name reads `n`.
fn has_name(m: &RawMethod, n: &str) -> (r: bool)
    ensures
        r == (m.name@ == n@),
{
    let owned: String = n.to_owned();
    m.name == owned
}

/// Executable mirror of `is_constructor`.
fn check_constructor(m: &RawMethod) -> (r: bool)
    ensures
        r == is_constructor(*m),
{
    proof {
        // The two constructor names differ in length, so matching one rules
        // out the other.
        reveal_strlit("new");
        reveal_strlit("try_new");
        assert("new"@.len() == 3);
        assert("try_new"@.len() == 7);
        assert("new"@ != "try_new"@);
    }
    if m.vis == Vis::Private {
        return false;
    }
    if m.receiver != ReceiverKind::Static {
        return false;
    }
    if has_name(m, "new") {
        m.target_shape == TargetShape::Plain
    } else if has_name(m, "try_new") {
        m.target_shape == TargetShape::InOption || m.target_shape == TargetShape::InResult
    } else {
        false
    }
}

/// Executable mirror of `is_instance_eligible`.
fn check_instance(m: &RawMethod) -> (r: bool)
    ensures
        r == is_instance_eligible(*m),
{
    m.vis != Vis::Private && (m.receiver == ReceiverKind::Shared || m.receiver
        == ReceiverKind::Exclusive)
}

/// Executable mirror of `is_static_forward`.
fn check_static_forward(m: &RawMethod, assoc: bool) -> (r: bool)
    ensures
        r == is_static_forward(*m, assoc),
{
    assoc && m.vis != Vis::Private && m.receiver == ReceiverKind::Static && m.target_shape
        != TargetShape::NotTarget && !check_constructor(m)
}

/// Clones a vector of type names, keeping its view.
pub fn clone_names(v: &Vec<String>) -> (r: Vec<String>)
    ensures
        r@ == v@,
{
    let r = v.clone();
    proof {
        assert(r@ =~= v@);
    }
    r
}

/// Clones an optional type name, keeping its value.
pub fn clone_output(v: &Option<String>) -> (r: Option<String>)
    ensures
        r == v,
{
    match v {
        Some(s) => Some(s.clone()),
        None => None,
    }
}

fn to_descriptor(m: &RawMethod) -> (d: MethodDescriptor)
    ensures
        d.describes(*m),
{
    let has_input = m.inputs.len() > 0;
    let has_output = m.output.is_some();
    MethodDescriptor {
        name: m.name.clone(),
        vis: m.vis,
        receiver: m.receiver,
        is_async: m.is_async,
        inputs: clone_names(&m.inputs),
        output: clone_output(&m.output),
        classification: crate::ir::classify(has_input, has_output),
    }
}

fn to_forward(m: &RawMethod) -> (f: StaticForward)
    ensures
        f.describes(*m),
{
    StaticForward {
        name: m.name.clone(),
        vis: m.vis,
        is_async: m.is_async,
        inputs: clone_names(&m.inputs),
        output: clone_output(&m.output),
    }
}

fn to_ctor(m: &RawMethod) -> (c: ConstructorDescriptor)
    ensures
        c.describes(*m),
{
    let kind = match m.target_shape {
        TargetShape::InOption => ConstructorKind::Optional,
        TargetShape::InResult => ConstructorKind::Fallible,
        _ => ConstructorKind::Plain,
    };
    ConstructorDescriptor {
        name: m.name.clone(),
        vis: m.vis,
        kind,
        inputs: clone_names(&m.inputs),
    }
}

/// Normalizes the parsed interface of `target` into an [`ActorSpec`].
///
/// The constructor is the first constructor-shaped method; its absence is
/// `MissingConstructor`, telling a polymorphic target apart. A method
/// declared asynchronous under the synchronous-only backend is
/// `AsyncWithoutRuntime`, naming the first such method.
pub fn normalize(
    target: String,
    target_is_trait: bool,
    methods: &Vec<RawMethod>,
    config: ActorConfig,
) -> (r: Result<ActorSpec, ConfigError>)
    ensures
        match r {
            Ok(s) => {
                &&& has_constructor(methods@)
                &&& exists|i: int|
                    0 <= i < methods@.len() && is_constructor(methods@[i])
                        && s.constructor.describes(methods@[i]) && (forall|j: int|
                        0 <= j < i ==> !is_constructor(methods@[j]))
                &&& !(config.lib == Backend::Std && exists|i: int|
                    0 <= i < methods@.len() && #[trigger] is_relevant(
                        methods@[i],
                        config.assoc,
                    ) && methods@[i].is_async)
                &&& methods_match(s.methods@, methods@)
                &&& statics_match(s.statics@, methods@, config.assoc)
                &&& s.actor_name == target
                &&& s.cust_name@ == (if config.rename is Some {
                    (config.rename->0)@
                } else {
                    target@
                })
                &&& s.config == config
                &&& s.wf()
            },
            Err(ConfigError::MissingConstructor { trait_target }) => {
                &&& !has_constructor(methods@)
                &&& trait_target == target_is_trait
            },
            Err(ConfigError::AsyncWithoutRuntime { method }) => {
                &&& has_constructor(methods@)
                &&& config.lib == Backend::Std
                &&& exists|i: int|
                    0 <= i < methods@.len() && #[trigger] is_relevant(methods@[i], config.assoc)
                        && methods@[i].is_async && method@ == methods@[i].name@ && (forall|j: int|
                        0 <= j < i ==> !(is_relevant(methods@[j], config.assoc)
                            && methods@[j].is_async))
            },
            Err(ConfigError::UnknownOverrideTarget { .. }) => false,
        },
{
    let ghost orig = methods@;
    let mut descs: Vec<MethodDescriptor> = Vec::new();
    let mut stats: Vec<StaticForward> = Vec::new();
    let mut ctor: Option<ConstructorDescriptor> = None;
    let ghost mut ctor_idx: int = 0;
    let mut first_async: Option<String> = None;
    let ghost mut async_idx: int = 0;

    proof {
        lemma_filter_empty(orig, eligible_pred());
        lemma_filter_empty(orig, forward_pred(config.assoc));
    }

    let mut i: usize = 0;
    while i < methods.len()
        invariant
            orig == methods@,
            0 <= i <= orig.len(),
            methods_match(descs@, orig.take(i as int)),
            statics_match(stats@, orig.take(i as int), config.assoc),
            match ctor {
                Some(c) => {
                    &&& 0 <= ctor_idx < i
                    &&& is_constructor(orig[ctor_idx])
                    &&& c.describes(orig[ctor_idx])
                    &&& forall|j: int| 0 <= j < ctor_idx ==> !is_constructor(orig[j])
                },
                None => forall|j: int| 0 <= j < i ==> !is_constructor(orig[j]),
            },
            match first_async {
                Some(name) => {
                    &&& 0 <= async_idx < i
                    &&& is_relevant(orig[async_idx], config.assoc)
                    &&& orig[async_idx].is_async
                    &&& name@ == orig[async_idx].name@
                    &&& forall|j: int|
                        0 <= j < async_idx ==> !(is_relevant(orig[j], config.assoc)
                            && orig[j].is_async)
                },
                None => forall|j: int|
                    0 <= j < i ==> !(#[trigger] is_relevant(orig[j], config.assoc)
                        && orig[j].is_async),
            },
        decreases orig.len() - i,
    {
        let m = &methods[i];
        let m_is_ctor = check_constructor(m);
        let m_is_instance = check_instance(m);
        let m_is_static = check_static_forward(m, config.assoc);
        if m_is_ctor {
            if ctor.is_none() {
                ctor = Some(to_ctor(m));
                proof {
                    ctor_idx = i as int;
                }
            }
        } else if m_is_instance {
            descs.push(to_descriptor(m));
        } else if m_is_static {
            stats.push(to_forward(m));
        }
        if (m_is_instance || m_is_static) && m.is_async && first_async.is_none() {
            first_async = Some(m.name.clone());
            proof {
                async_idx = i as int;
            }
        }
        proof {
            lemma_filter_take_step(orig, eligible_pred(), i as int);
            lemma_filter_take_step(orig, forward_pred(config.assoc), i as int);
        }
        i += 1;
    }
    proof {
        assert(orig.take(orig.len() as int) =~= orig);
    }

    let ctor = match ctor {
        Some(c) => c,
        None => {
            return Err(ConfigError::MissingConstructor { trait_target: target_is_trait });
        },
    };
    if config.lib == Backend::Std {
        if let Some(name) = first_async {
            return Err(ConfigError::AsyncWithoutRuntime { method: name });
        }
    }
    let cust_name = match &config.rename {
        Some(n) => n.clone(),
        None => target.clone(),
    };
    let s = ActorSpec {
        actor_name: target,
        cust_name,
        constructor: ctor,
        methods: descs,
        statics: stats,
        config,
    };
    proof {
        assert forall|k: int| 0 <= k < s.methods@.len() implies (#[trigger] s.methods@[k]).wf() by {
            orig.lemma_filter_pred(eligible_pred(), k);
            assert(s.methods@[k].describes(eligible_of(orig)[k]));
        }
    }
    Ok(s)
}

} // verus!
