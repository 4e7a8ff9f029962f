use interthread::backend::{primitives, QueueKind, ReplyKind, SpawnKind};
use interthread::dispatch::synthesize_dispatch;
use interthread::errors::ConfigError;
use interthread::ir::{
    classify, ActorConfig, Backend, Classification, ConstructorKind, EditConfig, EditPart,
    RawMethod, ReceiverKind, TargetShape, Topology, Vis,
};
use interthread::message::{debug_label, debug_label_empty, synthesize_variants};
use interthread::model::{generate_model, AccessorKind, Fragment, FragmentKind};
use interthread::normalize::normalize;
use interthread::overrides::{edit_select, select_model};

fn raw(
    name: &str,
    receiver: ReceiverKind,
    inputs: &[&str],
    output: Option<&str>,
    target_shape: TargetShape,
) -> RawMethod {
    RawMethod {
        name: name.to_string(),
        vis: Vis::Public,
        receiver,
        is_async: false,
        inputs: inputs.iter().map(|s| s.to_string()).collect(),
        output: output.map(|s| s.to_string()),
        target_shape,
    }
}

fn plain_config() -> ActorConfig {
    ActorConfig {
        lib: Backend::Std,
        channel: Topology::Unbounded,
        rename: None,
        assoc: false,
        id: false,
        edit: EditConfig { script: EditPart::none(), live: EditPart::none() },
    }
}

fn sample_methods() -> Vec<RawMethod> {
    vec![
        raw("new", ReceiverKind::Static, &["i64"], Some("Self"), TargetShape::Plain),
        raw("increment", ReceiverKind::Exclusive, &[], None, TargetShape::NotTarget),
        raw(
            "add_number",
            ReceiverKind::Exclusive,
            &["i64"],
            Some("i64"),
            TargetShape::NotTarget,
        ),
        raw("get_value", ReceiverKind::Shared, &[], Some("i64"), TargetShape::NotTarget),
    ]
}

#[test]
fn classification_covers_all_shapes() {
    assert_eq!(classify(false, false), Classification::Unit);
    assert_eq!(classify(true, false), Classification::I);
    assert_eq!(classify(false, true), Classification::O);
    assert_eq!(classify(true, true), Classification::Io);
}

#[test]
fn normalize_sample_interface() {
    let methods = sample_methods();
    let spec = normalize("MyActor".to_string(), false, &methods, plain_config()).unwrap();
    assert_eq!(spec.actor_name, "MyActor");
    assert_eq!(spec.cust_name, "MyActor");
    assert_eq!(spec.constructor.name, "new");
    assert_eq!(spec.constructor.kind, ConstructorKind::Plain);
    assert_eq!(spec.methods.len(), 3);
    assert_eq!(spec.methods[0].name, "increment");
    assert_eq!(spec.methods[0].classification, Classification::Unit);
    assert_eq!(spec.methods[1].name, "add_number");
    assert_eq!(spec.methods[1].classification, Classification::Io);
    assert_eq!(spec.methods[2].name, "get_value");
    assert_eq!(spec.methods[2].classification, Classification::O);
    assert!(spec.statics.is_empty());
}

#[test]
fn normalize_skips_consuming_and_private_methods() {
    let mut methods = sample_methods();
    methods.push(raw("into_inner", ReceiverKind::Consumed, &[], Some("i64"),
        TargetShape::NotTarget));
    let mut hidden = raw("peek", ReceiverKind::Shared, &[], Some("i64"), TargetShape::NotTarget);
    hidden.vis = Vis::Private;
    methods.push(hidden);
    let spec = normalize("MyActor".to_string(), false, &methods, plain_config()).unwrap();
    assert_eq!(spec.methods.len(), 3);
    assert!(spec.methods.iter().all(|m| m.name != "into_inner" && m.name != "peek"));
}

#[test]
fn normalize_missing_constructor() {
    let methods = vec![raw("increment", ReceiverKind::Exclusive, &[], None,
        TargetShape::NotTarget)];
    match normalize("MyActor".to_string(), false, &methods, plain_config()) {
        Err(ConfigError::MissingConstructor { trait_target }) => assert!(!trait_target),
        _ => panic!("expected the missing-constructor error"),
    }
    match normalize("dyn Job".to_string(), true, &methods, plain_config()) {
        Err(ConfigError::MissingConstructor { trait_target }) => assert!(trait_target),
        _ => panic!("expected the missing-constructor error"),
    }
}

#[test]
fn normalize_try_new_kinds() {
    let mut methods = sample_methods();
    methods[0] = raw("try_new", ReceiverKind::Static, &["i64"], Some("Option<Self>"),
        TargetShape::InOption);
    let spec = normalize("MyActor".to_string(), false, &methods, plain_config()).unwrap();
    assert_eq!(spec.constructor.name, "try_new");
    assert_eq!(spec.constructor.kind, ConstructorKind::Optional);

    methods[0] = raw("try_new", ReceiverKind::Static, &["i64"], Some("Result<Self>"),
        TargetShape::InResult);
    let spec = normalize("MyActor".to_string(), false, &methods, plain_config()).unwrap();
    assert_eq!(spec.constructor.kind, ConstructorKind::Fallible);
}

#[test]
fn normalize_async_needs_runtime() {
    let mut methods = sample_methods();
    methods[1].is_async = true;
    match normalize("MyActor".to_string(), false, &methods, plain_config()) {
        Err(ConfigError::AsyncWithoutRuntime { method }) => assert_eq!(method, "increment"),
        _ => panic!("expected the async-without-runtime error"),
    }
    let mut config = plain_config();
    config.lib = Backend::Tokio;
    let spec = normalize("MyActor".to_string(), false, &methods, config).unwrap();
    assert!(spec.methods[0].is_async);
}

#[test]
fn normalize_assoc_forwards_statics() {
    let mut methods = sample_methods();
    methods.push(raw("zeroed", ReceiverKind::Static, &[], Some("Self"), TargetShape::Plain));

    // Without the assoc option no associated function is forwarded.
    let spec = normalize("MyActor".to_string(), false, &methods, plain_config()).unwrap();
    assert!(spec.statics.is_empty());

    let mut config = plain_config();
    config.assoc = true;
    let spec = normalize("MyActor".to_string(), false, &methods, config).unwrap();
    assert_eq!(spec.statics.len(), 1);
    assert_eq!(spec.statics[0].name, "zeroed");

    // A second constructor-shaped method is reserved, never forwarded.
    methods.push(raw("try_new", ReceiverKind::Static, &["i64"], Some("Result<Self>"),
        TargetShape::InResult));
    // An associated function not returning the target is not forwarded.
    methods.push(raw("limit", ReceiverKind::Static, &[], Some("i64"), TargetShape::NotTarget));
    let mut config = plain_config();
    config.assoc = true;
    let spec = normalize("MyActor".to_string(), false, &methods, config).unwrap();
    assert_eq!(spec.statics.len(), 1);
    assert_eq!(spec.constructor.name, "new", "the first constructor wins");
}

#[test]
fn normalize_rename() {
    let methods = sample_methods();
    let mut config = plain_config();
    config.rename = Some("Other".to_string());
    let spec = normalize("MyActor".to_string(), false, &methods, config).unwrap();
    assert_eq!(spec.cust_name, "Other");
    let model = generate_model(&spec);
    assert_eq!(model.script_def.name, "OtherScript");
    assert_eq!(model.live_def.name, "OtherLive");
}

#[test]
fn message_variants_mirror_methods() {
    let methods = sample_methods();
    let spec = normalize("MyActor".to_string(), false, &methods, plain_config()).unwrap();
    let variants = synthesize_variants(&spec.methods);
    assert_eq!(variants.len(), 3);
    assert_eq!(variants[0].name, "increment");
    assert!(variants[0].inputs.is_empty());
    assert!(variants[0].reply.is_none());
    assert_eq!(variants[1].name, "add_number");
    assert_eq!(variants[1].inputs, vec!["i64".to_string()]);
    assert_eq!(variants[1].reply.as_deref(), Some("i64"));
    assert_eq!(variants[2].name, "get_value");
    assert!(variants[2].inputs.is_empty());
    assert_eq!(variants[2].reply.as_deref(), Some("i64"));
}

#[test]
fn message_debug_shows_only_the_name() {
    let methods = sample_methods();
    let spec = normalize("MyActor".to_string(), false, &methods, plain_config()).unwrap();
    let variants = synthesize_variants(&spec.methods);
    assert_eq!(debug_label(&variants[1]), "add_number");
    assert_eq!(debug_label_empty(&"MyActorScript".to_string()), "MyActorScript");
}

#[test]
fn dispatch_arms_mirror_methods() {
    let methods = sample_methods();
    let spec = normalize("MyActor".to_string(), false, &methods, plain_config()).unwrap();
    let arms = synthesize_dispatch(&spec.methods);
    assert_eq!(arms.len(), 3);
    assert_eq!(arms[0].variant, "increment");
    assert_eq!(arms[0].method, "increment");
    assert!(!arms[0].forwards_input);
    assert!(!arms[0].sends_reply);
    assert!(arms[1].forwards_input);
    assert!(arms[1].sends_reply);
    assert!(!arms[2].forwards_input);
    assert!(arms[2].sends_reply);
}

#[test]
fn backend_table_cells() {
    let std_unbounded = primitives(Backend::Std, Topology::Unbounded);
    assert_eq!(std_unbounded.queue, QueueKind::StdMpsc);
    assert_eq!(std_unbounded.reply, ReplyKind::CrateOneshot);
    assert_eq!(std_unbounded.spawn, SpawnKind::Thread);
    assert!(!std_unbounded.send_awaits && !std_unbounded.recv_awaits);
    assert_eq!(std_unbounded.bound, None);

    let std_bounded = primitives(Backend::Std, Topology::Bounded(4));
    assert_eq!(std_bounded.queue, QueueKind::StdSyncMpsc);
    assert_eq!(std_bounded.bound, Some(4));

    let tokio_bounded = primitives(Backend::Tokio, Topology::Bounded(8));
    assert_eq!(tokio_bounded.queue, QueueKind::RuntimeBounded);
    assert_eq!(tokio_bounded.reply, ReplyKind::RuntimeOneshot);
    assert_eq!(tokio_bounded.spawn, SpawnKind::Task);
    assert!(tokio_bounded.send_awaits && tokio_bounded.recv_awaits && tokio_bounded.reply_awaits);

    let smol_unbounded = primitives(Backend::Smol, Topology::Unbounded);
    assert_eq!(smol_unbounded.queue, QueueKind::RuntimeUnbounded);
    assert_eq!(smol_unbounded.reply, ReplyKind::CrateOneshot);
}

#[test]
fn batched_cell_is_shared_across_backends() {
    for lib in [Backend::Std, Backend::Tokio, Backend::AsyncStd, Backend::Smol] {
        let cell = primitives(lib, Topology::BatchedCondvar);
        assert_eq!(cell.queue, QueueKind::SharedCondvarQueue);
        assert_eq!(cell.reply, ReplyKind::CrateOneshot);
        assert_eq!(cell.bound, None);
        assert!(!cell.send_awaits && !cell.recv_awaits && !cell.reply_awaits);
    }
    assert_eq!(primitives(Backend::Std, Topology::BatchedCondvar).spawn, SpawnKind::Thread);
    assert_eq!(primitives(Backend::Tokio, Topology::BatchedCondvar).spawn, SpawnKind::Task);
}

fn frag(name: &str) -> Fragment {
    Fragment { name: name.to_string(), kind: FragmentKind::IdentityTrait }
}

#[test]
fn edit_select_none_keeps_everything() {
    let p = edit_select(&None, vec![frag("direct"), frag("play")]).unwrap();
    assert_eq!(p.kept.len(), 2);
    assert!(p.withdrawn.is_empty());
}

#[test]
fn edit_select_empty_list_withdraws_everything() {
    let p = edit_select(&Some(vec![]), vec![frag("direct"), frag("play")]).unwrap();
    assert!(p.kept.is_empty());
    assert_eq!(p.withdrawn.len(), 2);
    assert_eq!(p.withdrawn[0].name, "direct");
    assert_eq!(p.withdrawn[1].name, "play");
}

#[test]
fn edit_select_moves_named_fragments_in_request_order() {
    let frags = vec![frag("new"), frag("increment"), frag("add_number"), frag("get_value")];
    let p = edit_select(&Some(vec!["get_value".to_string(), "new".to_string()]), frags).unwrap();
    assert_eq!(p.kept.iter().map(|f| f.name.as_str()).collect::<Vec<_>>(), vec![
        "increment",
        "add_number",
    ]);
    // The withdrawn fragments come back in the order they were requested.
    assert_eq!(p.withdrawn.iter().map(|f| f.name.as_str()).collect::<Vec<_>>(), vec![
        "get_value",
        "new",
    ]);
}

#[test]
fn edit_select_duplicate_identifier_is_an_error() {
    // The second request for the same name finds its fragment already taken.
    let frags = vec![frag("direct"), frag("play")];
    match edit_select(&Some(vec!["play".to_string(), "play".to_string()]), frags) {
        Err(ConfigError::UnknownOverrideTarget { name }) => assert_eq!(name, "play"),
        _ => panic!("expected the unknown-override-target error"),
    }
    // Two fragments of one name can each be taken once.
    let frags = vec![frag("play"), frag("direct"), frag("play")];
    let p = edit_select(&Some(vec!["play".to_string(), "play".to_string()]), frags).unwrap();
    assert_eq!(p.withdrawn.len(), 2);
    assert_eq!(p.kept.len(), 1);
    assert_eq!(p.kept[0].name, "direct");
}

#[test]
fn edit_select_unknown_identifier_is_an_error() {
    let frags = vec![frag("direct"), frag("play")];
    match edit_select(&Some(vec!["dance".to_string()]), frags) {
        Err(ConfigError::UnknownOverrideTarget { name }) => assert_eq!(name, "dance"),
        _ => panic!("expected the unknown-override-target error"),
    }
}

#[test]
fn model_for_sample_interface() {
    let methods = sample_methods();
    let spec = normalize("MyActor".to_string(), false, &methods, plain_config()).unwrap();
    let model = generate_model(&spec);
    assert_eq!(model.script_def.name, "MyActorScript");
    assert_eq!(model.script_def.variants.len(), 3);
    assert_eq!(model.live_def.name, "MyActorLive");
    assert!(!model.live_def.identity);
    assert_eq!(model.script_methods.len(), 2);
    assert_eq!(model.script_methods[0].name, "direct");
    assert!(matches!(model.script_methods[0].kind, FragmentKind::Direct(_)));
    assert_eq!(model.script_methods[1].name, "play");
    match &model.script_methods[1].kind {
        FragmentKind::Play(shape) => {
            assert_eq!(shape.queue, QueueKind::StdMpsc);
            assert!(!shape.recv_awaits);
            assert!(!shape.dispatch_awaits);
            assert!(!shape.batched);
        },
        _ => panic!("expected the run-loop fragment"),
    }
    assert_eq!(model.script_traits.len(), 1);
    assert_eq!(model.script_traits[0].name, "Debug");
    assert_eq!(model.live_methods.len(), 4);
    assert_eq!(model.live_methods[0].name, "new");
    assert_eq!(model.live_methods[1].name, "increment");
    assert_eq!(model.live_methods[2].name, "add_number");
    assert_eq!(model.live_methods[3].name, "get_value");
    assert!(model.live_traits.is_empty());
}

#[test]
fn model_with_identity_and_batching() {
    let methods = sample_methods();
    let mut config = plain_config();
    config.id = true;
    config.channel = Topology::BatchedCondvar;
    let spec = normalize("MyActor".to_string(), false, &methods, config).unwrap();
    let model = generate_model(&spec);
    assert!(model.live_def.identity);
    assert_eq!(model.script_methods.len(), 3);
    assert_eq!(model.script_methods[0].name, "debut");
    match &model.script_methods[2].kind {
        FragmentKind::Play(shape) => {
            assert_eq!(shape.queue, QueueKind::SharedCondvarQueue);
            assert!(shape.batched);
        },
        _ => panic!("expected the run-loop fragment"),
    }
    let names: Vec<&str> = model.live_methods.iter().map(|f| f.name.as_str()).collect();
    assert_eq!(names, vec![
        "new",
        "increment",
        "add_number",
        "get_value",
        "inter_get_debut",
        "inter_get_count",
        "inter_set_name",
        "inter_get_name",
    ]);
    assert!(matches!(
        model.live_methods[4].kind,
        FragmentKind::IdentityAccessor(AccessorKind::GetDebut)
    ));
    let trait_names: Vec<&str> = model.live_traits.iter().map(|f| f.name.as_str()).collect();
    assert_eq!(trait_names, vec!["PartialEq", "Eq", "PartialOrd", "Ord", "Drop"]);
}

#[test]
fn select_model_partitions_groups() {
    let methods = sample_methods();
    let spec = normalize("MyActor".to_string(), false, &methods, plain_config()).unwrap();
    let model = generate_model(&spec);
    let edit = EditConfig {
        script: EditPart { def: true, methods: Some(vec!["play".to_string()]), traits: None },
        live: EditPart { def: false, methods: Some(vec!["new".to_string()]), traits: None },
    };
    let selected = select_model(model, &edit).unwrap();
    assert!(selected.script_def_withdrawn);
    assert!(!selected.live_def_withdrawn);
    assert_eq!(selected.script_methods.withdrawn.len(), 1);
    assert_eq!(selected.script_methods.withdrawn[0].name, "play");
    assert_eq!(selected.script_methods.kept.len(), 1);
    assert_eq!(selected.script_methods.kept[0].name, "direct");
    assert_eq!(selected.live_methods.withdrawn[0].name, "new");
    assert_eq!(selected.live_methods.kept.len(), 3);

    let model = generate_model(&spec);
    let edit = EditConfig {
        script: EditPart::none(),
        live: EditPart { def: false, methods: Some(vec!["live_forever".to_string()]),
            traits: None },
    };
    match select_model(model, &edit) {
        Err(ConfigError::UnknownOverrideTarget { name }) => assert_eq!(name, "live_forever"),
        _ => panic!("expected the unknown-override-target error"),
    }
}

#[test]
fn model_for_an_interface_with_only_a_constructor() {
    let methods = vec![raw("new", ReceiverKind::Static, &[], Some("Self"), TargetShape::Plain)];
    let spec = normalize("Number".to_string(), false, &methods, plain_config()).unwrap();
    assert!(spec.methods.is_empty());
    let model = generate_model(&spec);
    assert!(model.script_def.variants.is_empty());
    assert_eq!(model.live_methods.len(), 1);
    assert_eq!(model.live_methods[0].name, "new");
    // An empty union's debug face is the union's own name.
    assert_eq!(debug_label_empty(&model.script_def.name), "NumberScript");
}

#[test]
fn config_error_labels() {
    assert_eq!(
        ConfigError::MissingConstructor { trait_target: false }.label(),
        "missing constructor"
    );
    assert_eq!(
        ConfigError::AsyncWithoutRuntime { method: "go".to_string() }.label(),
        "async without runtime"
    );
    assert_eq!(
        ConfigError::UnknownOverrideTarget { name: "x".to_string() }.label(),
        "unknown override target"
    );
}
