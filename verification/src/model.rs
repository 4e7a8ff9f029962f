//! The whole generated model: the message union definition, the dispatcher
//! and run-loop on the union's impl, the proxy definition with its
//! constructor, forwarding methods, pass-throughs and identity pieces, and
//! the trait implementations — every piece a named fragment so that override
//! selection can withdraw it.

use vstd::prelude::*;

use crate::backend::{primitives, primitives_of, ChannelPrimitives, QueueKind, SpawnKind};
use crate::dispatch::{arms_match, synthesize_dispatch, DispatchArm};
use crate::ir::{ActorSpec, Backend, Classification, ConstructorKind, MethodDescriptor,
    StaticForward, Topology};
use crate::message::{synthesize_variants, variants_match, MessageVariant};

verus! {

/// The run-loop's shape: where it receives from and how.
pub struct RunLoopShape {
    pub queue: QueueKind,
    /// Receiving the next message is awaited.
    pub recv_awaits: bool,
    /// Dispatching awaits: some wrapped method is asynchronous.
    pub dispatch_awaits: bool,
    /// The batching strategy: drain the whole shared buffer per wake, exit on
    /// an empty buffer once only the consumer's own queue handle is left.
    pub batched: bool,
}

/// The proxy constructor's shape.
pub struct ConstructorPlan {
    /// How the wrapped constructor's fallible return is unwrapped.
    pub kind: ConstructorKind,
    /// Where the run-loop is started.
    pub spawn: SpawnKind,
    pub queue: QueueKind,
    /// A construction-order identity token is minted.
    pub mints_identity: bool,
}

/// One forwarding method's shape.
pub struct ForwardPlan {
    pub classification: Classification,
    /// Sending the message is awaited.
    pub send_awaits: bool,
    /// Awaiting the reply is an `await`; otherwise it blocks.
    pub reply_awaits: bool,
    /// The generated signature is asynchronous (any non-synchronous backend).
    pub async_signature: bool,
}

/// One static pass-through's shape.
pub struct PassThroughPlan {
    /// The direct call is awaited.
    pub awaits: bool,
}

/// The identity accessors generated on the proxy.
#[derive(Clone, Copy, PartialEq, Eq, Structural, Debug)]
pub enum AccessorKind {
    GetDebut,
    GetCount,
    SetName,
    GetName,
}

/// What one named fragment is.
pub enum FragmentKind {
    /// The dispatch operation, with its arms.
    Direct(Vec<DispatchArm>),
    /// The run-loop.
    Play(RunLoopShape),
    /// The identity minting operation on the union's impl.
    Debut,
    /// The union's debug impl: prints only the variant's name.
    DebugImpl,
    /// The proxy constructor.
    LiveNew(ConstructorPlan),
    /// One forwarding method.
    Forward(ForwardPlan),
    /// One static pass-through.
    PassThrough(PassThroughPlan),
    /// An identity accessor on the proxy.
    IdentityAccessor(AccessorKind),
    /// An identity comparison trait on the proxy.
    IdentityTrait,
    /// The drop-notification on the proxy: wakes the batching run-loop so it
    /// can re-check its termination condition.
    DropNotify,
}

/// One named generated fragment.
pub struct Fragment {
    pub name: String,
    pub kind: FragmentKind,
}

/// The message union definition.
pub struct MessageUnionDef {
    pub name: String,
    pub variants: Vec<MessageVariant>,
}

/// The proxy type definition.
pub struct LiveDefPlan {
    pub name: String,
    /// The producer endpoint the proxy holds.
    pub queue: QueueKind,
    /// The proxy carries an identity token and a diagnostic label.
    pub identity: bool,
}

/// Everything generated for one actor, grouped as the override selectors
/// address it.
pub struct GeneratedModel {
    pub script_def: MessageUnionDef,
    pub live_def: LiveDefPlan,
    pub script_methods: Vec<Fragment>,
    pub script_traits: Vec<Fragment>,
    pub live_methods: Vec<Fragment>,
    pub live_traits: Vec<Fragment>,
}

/// The generated union's name: the base name followed by `Script`.
pub open spec fn script_name_of(base: Seq<char>) -> Seq<char> {
    base + "Script"@
}

/// The generated proxy's name: the base name followed by `Live`.
pub open spec fn live_name_of(base: Seq<char>) -> Seq<char> {
    base + "Live"@
}

/// Some method is asynchronous.
pub open spec fn any_async(ds: Seq<MethodDescriptor>) -> bool {
    exists|i: int| 0 <= i < ds.len() && (#[trigger] ds[i]).is_async
}

/// The union's impl fragments: the optional identity mint, the dispatcher,
/// the run-loop — in that order.
pub open spec fn script_methods_ok(fr: Seq<Fragment>, sp: ActorSpec, prim: ChannelPrimitives) -> bool {
    let base: int = if sp.config.id { 1 } else { 0 };
    &&& fr.len() == base + 2
    &&& (sp.config.id ==> fr[0].name@ == "debut"@ && fr[0].kind is Debut)
    &&& fr[base].name@ == "direct"@
    &&& (fr[base].kind matches FragmentKind::Direct(arms) && arms_match(arms@, sp.methods@))
    &&& fr[base + 1].name@ == "play"@
    &&& (fr[base + 1].kind matches FragmentKind::Play(sh) && {
        &&& sh.queue == prim.queue
        &&& sh.recv_awaits == prim.recv_awaits
        &&& sh.batched == (sp.config.channel is BatchedCondvar)
        &&& sh.dispatch_awaits == any_async(sp.methods@)
    })
}

/// The union's only generated trait: the debug impl.
pub open spec fn script_traits_ok(fr: Seq<Fragment>) -> bool {
    &&& fr.len() == 1
    &&& fr[0].name@ == "Debug"@
    &&& fr[0].kind is DebugImpl
}

/// One forwarding method fragment for the descriptor `d`.
pub open spec fn forward_frag_ok(
    f: Fragment,
    d: MethodDescriptor,
    prim: ChannelPrimitives,
    lib: Backend,
) -> bool {
    &&& f.name@ == d.name@
    &&& (f.kind matches FragmentKind::Forward(p) && {
        &&& p.classification == d.classification
        &&& p.send_awaits == prim.send_awaits
        &&& p.reply_awaits == prim.reply_awaits
        &&& p.async_signature == (lib != Backend::Std)
    })
}

/// One pass-through fragment for the associated function `s`.
pub open spec fn passthrough_frag_ok(f: Fragment, s: StaticForward) -> bool {
    &&& f.name@ == s.name@
    &&& (f.kind matches FragmentKind::PassThrough(p) && p.awaits == s.is_async)
}

/// The proxy's methods: the constructor first, then one forwarding method
/// per instance descriptor, then the pass-throughs, then the identity
/// accessors when identity is on.
pub open spec fn live_methods_ok(fr: Seq<Fragment>, sp: ActorSpec, prim: ChannelPrimitives) -> bool {
    let m = sp.methods@.len() as int;
    let st = sp.statics@.len() as int;
    let id_count: int = if sp.config.id { 4 } else { 0 };
    &&& fr.len() == 1 + m + st + id_count
    &&& fr[0].name@ == sp.constructor.name@
    &&& (fr[0].kind matches FragmentKind::LiveNew(p) && {
        &&& p.kind == sp.constructor.kind
        &&& p.spawn == prim.spawn
        &&& p.queue == prim.queue
        &&& p.mints_identity == sp.config.id
    })
    &&& forall|i: int|
        0 <= i < m ==> forward_frag_ok(#[trigger] fr[1 + i], sp.methods@[i], prim, sp.config.lib)
    &&& forall|j: int| 0 <= j < st ==> passthrough_frag_ok(#[trigger] fr[1 + m + j], sp.statics@[j])
    &&& (sp.config.id ==> {
        &&& fr[1 + m + st].name@ == "inter_get_debut"@
        &&& fr[1 + m + st].kind matches FragmentKind::IdentityAccessor(
            AccessorKind::GetDebut,
        )
        &&& fr[2 + m + st].name@ == "inter_get_count"@
        &&& fr[2 + m + st].kind matches FragmentKind::IdentityAccessor(
            AccessorKind::GetCount,
        )
        &&& fr[3 + m + st].name@ == "inter_set_name"@
        &&& fr[3 + m + st].kind matches FragmentKind::IdentityAccessor(
            AccessorKind::SetName,
        )
        &&& fr[4 + m + st].name@ == "inter_get_name"@
        &&& fr[4 + m + st].kind matches FragmentKind::IdentityAccessor(
            AccessorKind::GetName,
        )
    })
}

/// The proxy's traits: the four identity comparisons when identity is on —
/// defined on the token alone — and, for the batching topology, the
/// drop-notification that wakes the run-loop.
pub open spec fn live_traits_ok(fr: Seq<Fragment>, sp: ActorSpec) -> bool {
    let id_count: int = if sp.config.id { 4 } else { 0 };
    let drop_count: int = if sp.config.channel is BatchedCondvar { 1 } else { 0 };
    &&& fr.len() == id_count + drop_count
    &&& (sp.config.id ==> {
        &&& fr[0].name@ == "PartialEq"@ && fr[0].kind is IdentityTrait
        &&& fr[1].name@ == "Eq"@ && fr[1].kind is IdentityTrait
        &&& fr[2].name@ == "PartialOrd"@ && fr[2].kind is IdentityTrait
        &&& fr[3].name@ == "Ord"@ && fr[3].kind is IdentityTrait
    })
    &&& (sp.config.channel is BatchedCondvar ==> fr[id_count].name@ == "Drop"@ && fr[
        id_count
    ].kind is DropNotify)
}

/// The whole generated model is right for `sp`.
pub open spec fn model_ok(m: GeneratedModel, sp: ActorSpec) -> bool {
    let prim = primitives_of(sp.config.lib, sp.config.channel);
    &&& m.script_def.name@ == script_name_of(sp.cust_name@)
    &&& variants_match(m.script_def.variants@, sp.methods@)
    &&& m.live_def.name@ == live_name_of(sp.cust_name@)
    &&& m.live_def.queue == prim.queue
    &&& m.live_def.identity == sp.config.id
    &&& script_methods_ok(m.script_methods@, sp, prim)
    &&& script_traits_ok(m.script_traits@)
    &&& live_methods_ok(m.live_methods@, sp, prim)
    &&& live_traits_ok(m.live_traits@, sp)
}

fn named(n: &str, kind: FragmentKind) -> (f: Fragment)
    ensures
        f.name@ == n@,
        f.kind == kind,
{
    Fragment { name: n.to_owned(), kind }
}

/// Derives the whole model from a normalized actor description: the message
/// union, the dispatcher and run-loop, and the proxy with its constructor,
/// forwarding methods, pass-throughs, identity pieces and traits, each under
/// the name the override selectors address it by.
pub fn generate_model(sp: &ActorSpec) -> (m: GeneratedModel)
    ensures
        model_ok(m, *sp),
{
    let prim = primitives(sp.config.lib, sp.config.channel);

    // The message union.
    let script_def = MessageUnionDef {
        name: sp.cust_name.clone().concat("Script"),
        variants: synthesize_variants(&sp.methods),
    };

    // The union's impl: mint, dispatcher, run-loop.
    let mut script_methods: Vec<Fragment> = Vec::new();
    if sp.config.id {
        script_methods.push(named("debut", FragmentKind::Debut));
    }
    script_methods.push(named("direct", FragmentKind::Direct(synthesize_dispatch(&sp.methods))));
    let mut dispatch_awaits = false;
    let mut i: usize = 0;
    while i < sp.methods.len()
        invariant
            0 <= i <= sp.methods@.len(),
            dispatch_awaits == exists|j: int| 0 <= j < i && (#[trigger] sp.methods@[j]).is_async,
        decreases sp.methods@.len() - i,
    {
        if sp.methods[i].is_async {
            dispatch_awaits = true;
        }
        i += 1;
    }
    script_methods.push(named(
        "play",
        FragmentKind::Play(RunLoopShape {
            queue: prim.queue,
            recv_awaits: prim.recv_awaits,
            dispatch_awaits,
            batched: sp.config.channel == Topology::BatchedCondvar,
        }),
    ));

    // The union's debug impl.
    let mut script_traits: Vec<Fragment> = Vec::new();
    script_traits.push(named("Debug", FragmentKind::DebugImpl));

    // The proxy definition.
    let live_def = LiveDefPlan {
        name: sp.cust_name.clone().concat("Live"),
        queue: prim.queue,
        identity: sp.config.id,
    };

    // The proxy's methods: constructor, forwards, pass-throughs, accessors.
    let mut live_methods: Vec<Fragment> = Vec::new();
    live_methods.push(Fragment {
        name: sp.constructor.name.clone(),
        kind: FragmentKind::LiveNew(ConstructorPlan {
            kind: sp.constructor.kind,
            spawn: prim.spawn,
            queue: prim.queue,
            mints_identity: sp.config.id,
        }),
    });
    let ghost ctor_frag = live_methods@[0];
    let async_signature = sp.config.lib != Backend::Std;
    let mut i: usize = 0;
    while i < sp.methods.len()
        invariant
            0 <= i <= sp.methods@.len(),
            live_methods@.len() == 1 + i,
            live_methods@[0] == ctor_frag,
            prim == primitives_of(sp.config.lib, sp.config.channel),
            async_signature == (sp.config.lib != Backend::Std),
            forall|j: int|
                0 <= j < i ==> forward_frag_ok(
                    #[trigger] live_methods@[1 + j],
                    sp.methods@[j],
                    primitives_of(sp.config.lib, sp.config.channel),
                    sp.config.lib,
                ),
        decreases sp.methods@.len() - i,
    {
        let d = &sp.methods[i];
        live_methods.push(Fragment {
            name: d.name.clone(),
            kind: FragmentKind::Forward(ForwardPlan {
                classification: d.classification,
                send_awaits: prim.send_awaits,
                reply_awaits: prim.reply_awaits,
                async_signature,
            }),
        });
        i += 1;
    }
    let m_count = sp.methods.len();
    let mut j: usize = 0;
    while j < sp.statics.len()
        invariant
            0 <= j <= sp.statics@.len(),
            live_methods@.len() == 1 + m_count + j,
            live_methods@[0] == ctor_frag,
            m_count == sp.methods@.len(),
            prim == primitives_of(sp.config.lib, sp.config.channel),
            forall|k: int|
                0 <= k < m_count ==> forward_frag_ok(
                    #[trigger] live_methods@[1 + k],
                    sp.methods@[k],
                    primitives_of(sp.config.lib, sp.config.channel),
                    sp.config.lib,
                ),
            forall|k: int|
                0 <= k < j ==> passthrough_frag_ok(
                    #[trigger] live_methods@[1 + m_count as int + k],
                    sp.statics@[k],
                ),
        decreases sp.statics@.len() - j,
    {
        let s = &sp.statics[j];
        live_methods.push(Fragment {
            name: s.name.clone(),
            kind: FragmentKind::PassThrough(PassThroughPlan { awaits: s.is_async }),
        });
        j += 1;
    }
    if sp.config.id {
        live_methods.push(named(
            "inter_get_debut",
            FragmentKind::IdentityAccessor(AccessorKind::GetDebut),
        ));
        live_methods.push(named(
            "inter_get_count",
            FragmentKind::IdentityAccessor(AccessorKind::GetCount),
        ));
        live_methods.push(named(
            "inter_set_name",
            FragmentKind::IdentityAccessor(AccessorKind::SetName),
        ));
        live_methods.push(named(
            "inter_get_name",
            FragmentKind::IdentityAccessor(AccessorKind::GetName),
        ));
    }

    // The proxy's traits.
    let mut live_traits: Vec<Fragment> = Vec::new();
    if sp.config.id {
        live_traits.push(named("PartialEq", FragmentKind::IdentityTrait));
        live_traits.push(named("Eq", FragmentKind::IdentityTrait));
        live_traits.push(named("PartialOrd", FragmentKind::IdentityTrait));
        live_traits.push(named("Ord", FragmentKind::IdentityTrait));
    }
    if sp.config.channel == Topology::BatchedCondvar {
        live_traits.push(named("Drop", FragmentKind::DropNotify));
    }

    GeneratedModel { script_def, live_def, script_methods, script_traits, live_methods, live_traits }
}

} // verus!
