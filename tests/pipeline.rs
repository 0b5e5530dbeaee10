use pilka_render::pipeline::{
    bytes_equal, settle_stage, BuildError, Pipeline, PipelineKind, PipelineObject,
    PipelineRegistry, ShaderInfo, ShaderSet, StageOutcome,
};

fn info(path: &str) -> ShaderInfo {
    ShaderInfo { path: path.as_bytes().to_vec(), entry_point: b"main".to_vec() }
}

fn registry() -> PipelineRegistry<&'static str, &'static str> {
    let mut r = PipelineRegistry::new();
    r.push_render_pipeline(
        info("shaders/shader.vert"),
        info("shaders/shader.frag"),
        &vec![b"shaders/prelude.glsl".to_vec()],
        Ok("gfx-1"),
    )
    .unwrap();
    r.push_compute_pipeline(info("shaders/shader.comp"), &vec![], Ok("cmp-1")).unwrap();
    r
}

#[test]
fn paths_resolve_to_their_pipeline() {
    let r = registry();
    assert_eq!(r.len(), 2);
    assert_eq!(r.kind(0), PipelineKind::Graphics);
    assert_eq!(r.kind(1), PipelineKind::Compute);
    assert_eq!(r.pipeline_for_path(&b"shaders/shader.frag".to_vec()), Some(0));
    assert_eq!(r.pipeline_for_path(&b"shaders/prelude.glsl".to_vec()), Some(0));
    assert_eq!(r.pipeline_for_path(&b"shaders/shader.comp".to_vec()), Some(1));
    assert_eq!(r.pipeline_for_path(&b"shaders/other.glsl".to_vec()), None);
    assert_eq!(r.compute_pipelines(), vec![1]);
}

#[test]
fn later_registration_of_a_path_wins() {
    let mut r = registry();
    r.push_compute_pipeline(info("shaders/b.comp"), &vec![b"shaders/prelude.glsl".to_vec()], Ok("cmp-2"))
        .unwrap();
    assert_eq!(r.pipeline_for_path(&b"shaders/prelude.glsl".to_vec()), Some(2));
    assert_eq!(r.compute_pipelines(), vec![1, 2]);
}

#[test]
fn failed_push_registers_paths_only() {
    let mut r: PipelineRegistry<u8, u8> = PipelineRegistry::new();
    let res = r.push_compute_pipeline(info("a.comp"), &vec![], Err(BuildError::Device { code: -1 }));
    assert_eq!(res, Err(BuildError::Device { code: -1 }));
    assert_eq!(r.len(), 0);
    assert_eq!(r.pipeline_for_path(&b"a.comp".to_vec()), Some(0));
}

#[test]
fn rebuild_swaps_objects_and_returns_old() {
    let mut r = registry();
    let old = r.rebuild_pipeline(0, Ok(PipelineObject::Graphics("gfx-2"))).unwrap();
    assert!(matches!(old, Some(PipelineObject::Graphics("gfx-1"))));
    match r.get(0) {
        Pipeline::Graphics { vert, graphics, .. } => {
            assert_eq!(*graphics, "gfx-2");
            assert_eq!(vert.path, b"shaders/shader.vert".to_vec());
        }
        Pipeline::Compute { .. } => panic!("graphics pipeline expected"),
    }
}

#[test]
fn rebuild_with_unknown_error_keeps_pipeline() {
    let mut r = registry();
    let res = r.rebuild_pipeline(1, Err(BuildError::Unknown));
    assert!(matches!(res, Ok(None)));
    match r.get(1) {
        Pipeline::Compute { compute, .. } => assert_eq!(*compute, "cmp-1"),
        Pipeline::Graphics { .. } => panic!("compute pipeline expected"),
    }
}

#[test]
fn rebuild_with_other_error_returns_it_and_keeps_pipeline() {
    let mut r = registry();
    let res = r.rebuild_pipeline(0, Err(BuildError::Device { code: -2 }));
    assert!(matches!(res, Err(BuildError::Device { code: -2 })));
    match r.get(0) {
        Pipeline::Graphics { graphics, .. } => assert_eq!(*graphics, "gfx-1"),
        Pipeline::Compute { .. } => panic!("graphics pipeline expected"),
    }
}

#[test]
fn shader_set_copies_sources() {
    let r = registry();
    match r.shader_set(0) {
        ShaderSet::Graphics { vert, frag } => {
            assert_eq!(vert.path, b"shaders/shader.vert".to_vec());
            assert_eq!(frag.path, b"shaders/shader.frag".to_vec());
            assert_eq!(frag.entry_point, b"main".to_vec());
        }
        ShaderSet::Compute { .. } => panic!("graphics set expected"),
    }
    assert!(matches!(r.shader_set(1), ShaderSet::Compute { .. }));
}

#[test]
fn failed_stage_releases_earlier_modules() {
    match settle_stage(vec![7u32], Err::<u32, &str>("frag failed")) {
        StageOutcome::Failed { error, release } => {
            assert_eq!(error, "frag failed");
            assert_eq!(release, vec![7]);
        }
        StageOutcome::Ready { .. } => panic!("failure expected"),
    }
    match settle_stage(vec![7u32], Ok::<u32, &str>(8)) {
        StageOutcome::Ready { modules } => assert_eq!(modules, vec![7, 8]),
        StageOutcome::Failed { .. } => panic!("success expected"),
    }
}

#[test]
fn byte_strings_compare() {
    assert!(bytes_equal(&b"abc".to_vec(), &b"abc".to_vec()));
    assert!(!bytes_equal(&b"abc".to_vec(), &b"abd".to_vec()));
    assert!(!bytes_equal(&b"abc".to_vec(), &b"ab".to_vec()));
}
