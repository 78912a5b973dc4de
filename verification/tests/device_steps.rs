//! Encoding a step, waiting for it, and compiling what it runs.

use pie_driver::metal::encoder::{
    ArgumentTable, Binding, Phase, StepAction, StepEncoder, StepEvent, Stepper, Visibility, Wait,
    WAIT_PROBES, WAIT_PROBE_MS,
};
use pie_driver::metal::error::Error;
use pie_driver::metal::pipeline::{
    check_entry, clone_error, clone_read_error, salt, Archived, Batch, BatchRequest, CompileAction,
    CompileEvent, CompileNext, Compiled, Compiler,
};

fn created(what: &'static str, message: &str) -> Error {
    Error::Create {
        what,
        message: message.to_string(),
    }
}

#[test]
fn a_binding_past_the_table_is_refused() {
    let table = ArgumentTable::new(4);
    assert_eq!(table.capacity(), 4);
    assert_eq!(
        table.bind_address(3, 0x99),
        Ok(Binding {
            index: 3,
            address: 0x99
        })
    );
    assert_eq!(
        table.bind_address(4, 0x99),
        Err(created(
            "argument table binding",
            "index 4 past the table's 4 bindings"
        ))
    );
}

#[test]
fn a_dispatch_the_device_would_skip_is_refused() {
    let mut encoder = StepEncoder::new();
    assert_eq!(
        encoder.dispatch([1, 1, 1], [32, 1, 1]),
        Err(created(
            "dispatch",
            "no pipeline is set; the dispatch would run the previous kernel or none"
        ))
    );
    encoder.set_pipeline(256);
    let done = encoder.dispatch([64, 2, 1], [32, 4, 2]).expect("256 threads");
    assert_eq!((done.threads, done.threadgroup), ([64, 2, 1], [32, 4, 2]));
    assert_eq!(
        encoder.dispatch([64, 1, 1], [32, 0, 1]),
        Err(created("dispatch", "a threadgroup of no threads runs nothing"))
    );
    assert_eq!(
        encoder.dispatch([64, 1, 1], [257, 1, 1]),
        Err(created(
            "dispatch",
            "257 threads a threadgroup, and the pipeline allows 256; \
             Metal would skip this dispatch and report success"
        ))
    );
    assert_eq!(Visibility::default(), Visibility::ExecutionOnly);
}

/// Runs a step up to its commit.
fn committed(stepper: &mut Stepper) -> Wait {
    assert!(matches!(
        stepper.run(StepEvent::Begin),
        StepAction::MakeBuffer { .. }
    ));
    assert!(matches!(
        stepper.run(StepEvent::Buffer(true)),
        StepAction::MakeEncoder
    ));
    assert!(matches!(
        stepper.run(StepEvent::Encoder(true)),
        StepAction::Encode
    ));
    match stepper.run(StepEvent::Encoded(Ok(()))) {
        StepAction::Commit(wait) => wait,
        other => panic!("{other:?}"),
    }
}

#[test]
fn a_step_is_committed_and_waited_for() {
    let mut stepper = Stepper::new();
    let wait = committed(&mut stepper);
    assert_eq!(wait, Wait { value: 1, left: 12 });
    assert_eq!(stepper.steps(), 1);
    match stepper.run(StepEvent::Probed(false)) {
        StepAction::Probe(wait) => assert_eq!(wait, Wait { value: 1, left: 11 }),
        other => panic!("{other:?}"),
    }
    assert!(matches!(
        stepper.run(StepEvent::Probed(true)),
        StepAction::Return(Ok(()))
    ));
    assert!(!stepper.is_wedged());
    match stepper.run(StepEvent::Begin) {
        StepAction::MakeBuffer { allocator } => assert_eq!(allocator, 1),
        other => panic!("{other:?}"),
    }
}

#[test]
fn a_refused_encoding_is_closed_and_not_counted() {
    let mut stepper = Stepper::new();
    stepper.run(StepEvent::Begin);
    stepper.run(StepEvent::Buffer(true));
    stepper.run(StepEvent::Encoder(true));
    let why = created("dispatch", "no");
    match stepper.run(StepEvent::Encoded(Err(why))) {
        StepAction::Close(e) => assert_eq!(e, created("dispatch", "no")),
        other => panic!("{other:?}"),
    }
    assert_eq!(stepper.steps(), 0);
    assert_eq!(committed(&mut stepper).value, 1);
}

#[test]
fn an_object_the_device_does_not_make_ends_the_step() {
    let mut stepper = Stepper::new();
    stepper.run(StepEvent::Begin);
    match stepper.run(StepEvent::Buffer(false)) {
        StepAction::Return(Err(e)) => assert_eq!(e, created("MTL4CommandBuffer", "")),
        other => panic!("{other:?}"),
    }
    stepper.run(StepEvent::Begin);
    stepper.run(StepEvent::Buffer(true));
    match stepper.run(StepEvent::Encoder(false)) {
        StepAction::Return(Err(e)) => assert_eq!(e, created("MTL4ComputeCommandEncoder", "")),
        other => panic!("{other:?}"),
    }
    assert!(!stepper.is_wedged());
}

#[test]
fn running_out_of_the_wait_is_terminal() {
    assert_eq!(WAIT_PROBE_MS * u64::from(WAIT_PROBES), 60_000);
    let mut stepper = Stepper::new();
    committed(&mut stepper);
    for _ in 0..11 {
        assert!(matches!(
            stepper.run(StepEvent::Probed(false)),
            StepAction::Probe(_)
        ));
    }
    match stepper.run(StepEvent::Probed(false)) {
        StepAction::Return(Err(e)) => assert_eq!(
            e,
            created(
                "step",
                "the GPU did not reach event 1 within 60000 ms; this context is abandoned \
                 because its command buffers may still be running"
            )
        ),
        other => panic!("{other:?}"),
    }
    assert!(stepper.is_wedged());
    for _ in 0..2 {
        match stepper.run(StepEvent::Begin) {
            StepAction::Return(Err(e)) => assert_eq!(
                e,
                created(
                    "step",
                    "this context was abandoned after a completion wait ran out"
                )
            ),
            other => panic!("{other:?}"),
        }
    }
    assert_eq!(stepper.steps(), 1);
    assert_ne!(Phase::Idle, Phase::Encoding);
}

fn batch(unread: Vec<Option<Error>>, requests: &[(usize, &str)]) -> Batch {
    Batch {
        paths: (0..unread.len()).map(|i| format!("k{i}.metal")).collect(),
        unread,
        requests: requests
            .iter()
            .map(|(library, function)| BatchRequest {
                library: *library,
                function: function.to_string(),
            })
            .collect(),
    }
}

fn cached() -> Compiler {
    Compiler::with_archives(Some("/cache".to_string()))
}

fn uncached() -> Compiler {
    Compiler::with_archives(None)
}

/// Answers a batch's actions and records them. Libraries in `broken` do not
/// compile, and requests in `rejected` do not build.
fn drive(
    first: CompileNext<usize>,
    found: bool,
    broken: &[usize],
    rejected: &[usize],
    written: bool,
) -> (Compiled<usize>, Vec<CompileAction>) {
    let mut next = first;
    let mut actions = Vec::new();
    loop {
        let (state, action) = match next {
            CompileNext::Done(c) => return (c, actions),
            CompileNext::Act(state, action) => (state, action),
        };
        actions.push(action);
        next = state.resume(match action {
            CompileAction::LookUp => CompileEvent::Looked(found),
            CompileAction::BuildLibrary(j) if broken.contains(&j) => {
                CompileEvent::Library(Err(created("library", "syntax")))
            }
            CompileAction::BuildLibrary(_) => CompileEvent::Library(Ok(())),
            CompileAction::BuildPipeline { request, .. } if rejected.contains(&request) => {
                CompileEvent::Pipeline(Err(created("pipeline", "rejected")))
            }
            CompileAction::BuildPipeline { request, .. } => CompileEvent::Pipeline(Ok(request)),
            CompileAction::Write if written => CompileEvent::Written(Ok(())),
            CompileAction::Write => CompileEvent::Written(Err(created("archive", "full"))),
        });
    }
}

#[test]
fn a_batch_builds_each_file_once_and_writes_its_archive() {
    let b = batch(vec![None, None], &[(0, "a"), (1, "b"), (0, "c")]);
    let (c, actions) = drive(cached().compile_batch(b), false, &[], &[], true);
    let pipeline = |request, library| CompileAction::BuildPipeline {
        request,
        library,
        lookup: false,
    };
    assert_eq!(
        actions,
        vec![
            CompileAction::LookUp,
            CompileAction::BuildLibrary(0),
            CompileAction::BuildLibrary(1),
            pipeline(0, 0),
            pipeline(1, 1),
            pipeline(2, 0),
            CompileAction::Write,
        ]
    );
    assert!(matches!(c.archive, Archived::Written));
    assert!(!c.archive.is_hit());
    assert_eq!(c.all(), Ok(vec![0, 1, 2]));
}

#[test]
fn a_hit_fetches_every_pipeline_and_writes_nothing() {
    let b = batch(vec![None], &[(0, "a")]);
    let (c, actions) = drive(cached().compile_batch(b), true, &[], &[], true);
    assert!(c.archive.is_hit());
    assert_eq!(
        actions.last(),
        Some(&CompileAction::BuildPipeline {
            request: 0,
            library: 0,
            lookup: true
        })
    );
}

#[test]
fn a_request_that_fails_fails_alone_and_keeps_the_archive_unwritten() {
    let unread = Error::Create {
        what: "read",
        message: "no such file".to_string(),
    };
    let b = batch(
        vec![None, Some(unread), None],
        &[(0, "a"), (1, "b"), (2, "c"), (0, "d")],
    );
    let (c, actions) = drive(cached().compile_batch(b), false, &[2], &[3], true);
    assert!(!actions.contains(&CompileAction::Write));
    assert!(!actions.contains(&CompileAction::BuildLibrary(1)));
    assert!(matches!(c.archive, Archived::Skipped));
    let compile = |message: &str| Error::Compile {
        function: String::new(),
        message: message.to_string(),
    };
    assert_eq!(
        c.pipelines,
        vec![
            Ok(0),
            Err(compile(": k1.metal: read: no such file")),
            Err(compile("library: syntax")),
            Err(created("pipeline", "rejected")),
        ]
    );
    assert_eq!(
        c.all(),
        Err(compile(": k1.metal: read: no such file")),
        "the first failure"
    );
}

#[test]
fn without_a_cache_nothing_is_looked_up_or_written() {
    let b = batch(vec![None], &[(0, "a")]);
    let (c, actions) = drive(uncached().compile_batch(b), true, &[], &[], true);
    assert!(matches!(c.archive, Archived::Disabled));
    assert_eq!(actions.len(), 2);
    assert_eq!(uncached().archives(), &None);
    assert_eq!(cached().archives().as_deref(), Some("/cache"));

    let empty = batch(vec![], &[]);
    let (c, actions) = drive(cached().compile_batch(empty), true, &[], &[], true);
    assert!(matches!(c.archive, Archived::Skipped));
    assert!(actions.is_empty() && c.pipelines.is_empty());

    let b = batch(vec![None], &[(0, "a")]);
    let (c, _) = drive(cached().compile_batch(b), false, &[], &[], false);
    assert!(
        matches!(&c.archive, Archived::Failed(e) if *e == created("archive", "full")),
        "the pipelines are built all the same"
    );
    assert_eq!(c.all(), Ok(vec![0]));
}

fn exported(names: &[&str]) -> Vec<String> {
    names.iter().map(|n| n.to_string()).collect()
}

#[test]
fn a_missing_entry_point_lists_the_ones_that_exist() {
    match check_entry(&exported(&["fill_ones"]), "fill_zeroes").expect_err("no such entry point") {
        Error::Compile { function, message } => {
            assert_eq!(function, "fill_zeroes");
            assert!(
                message.contains("fill_ones"),
                "the message must list what does exist: {message}"
            );
        }
        other => panic!("expected Compile, got {other:?}"),
    }
}

#[test]
fn a_plain_function_is_not_an_entry_point() {
    match check_entry(&exported(&["real"]), "helper").expect_err("a helper is not an entry point") {
        Error::Compile { message, .. } => assert!(
            message.contains("real"),
            "the message lists the kernel that IS exported: {message}"
        ),
        other => panic!("expected Compile, got {other:?}"),
    }
}

#[test]
fn an_exported_entry_point_is_found_and_a_missing_one_is_spelled_out() {
    let names = exported(&["one", "two", "three"]);
    assert_eq!(check_entry(&names, "two"), Ok(()));
    assert_eq!(
        check_entry(&names, "four"),
        Err(Error::Compile {
            function: "four".to_string(),
            message: "the source compiled but exports no such entry point; \
                      it exports [one, two, three]"
                .to_string()
        })
    );
    assert!(matches!(
        check_entry(&Vec::new(), ""),
        Err(Error::Compile { message, .. }) if message.ends_with("exports []")
    ));
}

#[test]
fn a_shared_failure_is_restated() {
    let e = created("library", "syntax");
    assert_eq!(e.text(), "library: syntax");
    assert_eq!(
        clone_error(&e),
        Error::Compile {
            function: String::new(),
            message: "library: syntax".to_string()
        }
    );
    assert_eq!(
        clone_read_error(&e, "a/b.metal"),
        Error::Compile {
            function: String::new(),
            message: "a/b.metal: library: syntax".to_string()
        }
    );
}

#[test]
fn the_salt_is_the_device_and_the_dialect() {
    assert_eq!(salt(0x11, 0x4_0000), 0x11 ^ 0x4_0000_0000_0000);
    assert_eq!(salt(5, 0x4_0000), 5 ^ 0x4_0000u64.rotate_left(32));
    assert_eq!(salt(5, u64::MAX - 1), 5 ^ (u64::MAX - 1).rotate_left(32));
    assert_ne!(salt(5, 1), salt(5, 2));
    assert_ne!(salt(5, 1), salt(6, 1));
}
