//! The engine's seam: what it states, and what it refuses by name.

use pie_driver::seam::{DeviceFacts, MetalDriver, ModelLoadDesc};

fn open() -> (MetalDriver, DeviceFacts) {
    MetalDriver::create(3, Ok(())).unwrap_or_else(|r| panic!("{}", r.text))
}

#[test]
fn the_metal_backend_opens_a_device_and_states_what_it_is() {
    let (backend, facts) = open();
    assert_eq!(backend.kind(), "metal");
    assert_eq!(facts.backend, "metal");
    assert!(
        facts.unified_memory,
        "Apple silicon shares physical memory between the pool and the host, \
         and that changes what a `device is full` question means"
    );
    assert_eq!(facts.page_size, 16, "the paged KV pool's rows per page");
    assert!(
        !facts.fp8_native && !facts.native_mxfp4_moe,
        "neither kernel exists in `kernels-metal`, and the facts should say so \
         rather than let a scheduler discover it at launch"
    );
    assert_eq!(backend.device_facts(), &facts);
    assert_eq!((facts.abi_version, facts.storage_alignment), (3, 256));
}

#[test]
fn the_verbs_that_need_the_kv_pool_refuse_by_name() {
    let (mut backend, _) = open();
    let text = backend
        .register_program()
        .expect_err("the registry is not wired to the seam's plan types yet")
        .text;
    assert!(
        text.contains("driver-metal-new"),
        "a refusal must name the backend that made it: {text}"
    );
    assert!(
        text.contains("register_program"),
        "and the verb it could not serve: {text}"
    );
    assert!(
        text.contains("device tested"),
        "and which half is actually missing: {text}"
    );
}

#[test]
fn media_encode_is_refused_rather_than_pretended() {
    let (mut backend, _) = open();
    assert!(
        backend.export_kv_handle().is_none(),
        "Metal has no cross-process KV sharing path to export"
    );
    let text = backend.encode().expect_err("unsupported").text;
    assert_eq!(
        text,
        "driver-metal-new: media encode is unsupported on this backend"
    );
}

#[test]
fn load_model_takes_one_descriptor_because_this_backend_holds_one_model() {
    let (mut backend, _) = open();
    let desc = || ModelLoadDesc {
        snapshot_dir: "/nonesuch".to_string(),
    };
    let why = backend
        .load_model(&[desc(), desc()])
        .expect_err("two models is not a shape this backend has")
        .text;
    assert!(
        why.contains("ONE model"),
        "the refusal should say why, not just that: {why}"
    );
    let dir = backend.load_model(&[desc()]).expect("one descriptor");
    assert_eq!(dir, "/nonesuch");
    let why = backend
        .load_checkpoint(&dir, Err("No such file or directory".to_string()))
        .text;
    assert!(
        why.contains("config.json"),
        "a missing snapshot should fail on the checkpoint it looked for: {why}"
    );
    assert!(backend.load_model(&[]).is_err());
    let wired = backend.load_checkpoint(&dir, Ok("{}".to_string())).text;
    assert!(wired.contains("`load_model` is not wired"));
}

#[test]
fn a_frame_that_cannot_fit_the_pool_is_impossible_rather_than_an_error() {
    let (mut backend, _) = open();
    let why = match backend.launch() {
        Err(why) => why.text,
        Ok(_) => panic!("launch before load_model is drift, not admission"),
    };
    assert!(
        why.contains("before load_model"),
        "the refusal should say which order was broken: {why}"
    );
}

#[test]
fn every_registry_verb_names_itself() {
    let (mut backend, _) = open();
    let text = backend.register_channel().expect_err("unserved").text;
    assert!(text.contains("`register_channel`"), "{text}");
    let text = backend.bind_instance().expect_err("unserved").text;
    assert!(text.contains("`bind_instance`"), "{text}");
}

#[test]
fn the_pool_s_verbs_share_one_refusal() {
    let (mut backend, _) = open();
    let copy = backend.copy_kv().expect_err("no pool").text;
    assert!(copy.contains("the KV pool is not wired"), "{copy}");
    assert_eq!(backend.copy_state().expect_err("no pool").text, copy);
    assert_eq!(backend.resize_pool().expect_err("no pool").text, copy);
    assert_eq!(backend.close_instance(9), Ok(()));
    assert_eq!(backend.close_channel(9), Ok(()), "a close is idempotent");
}

#[test]
fn a_device_that_does_not_open_is_refused_with_what_it_said() {
    let why = MetalDriver::create(3, Err("NoDevice".to_string()))
        .map(|_| ())
        .expect_err("no device");
    assert_eq!(why.text, "metal context: NoDevice");
}
