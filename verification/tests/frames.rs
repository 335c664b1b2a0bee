use volumetric_sky::ops::GpuOp;
use volumetric_sky::ops::Kernel;
use volumetric_sky::ops::PassMode;
use volumetric_sky::ops::dispatch_grid;
use volumetric_sky::ops::kernel_inputs;
use volumetric_sky::params::AtmosphereParameters;
use volumetric_sky::resources::ResourceSet;
use volumetric_sky::resources::TextureId;
use volumetric_sky::scheduler::FrameLog;
use volumetric_sky::scheduler::PassTag;
use volumetric_sky::scheduler::Scheduler;
use volumetric_sky::stages::LutStage;
use volumetric_sky::stages::PostProcessSettings;
use volumetric_sky::stages::PostProcessStage;
use volumetric_sky::stages::RadianceStage;
use volumetric_sky::stages::resolve_color_output;

fn provisioned_resources() -> ResourceSet {
    let mut res = ResourceSet::new();
    res.create_all();
    res.set_params(AtmosphereParameters::default());
    res
}

fn ready_scheduler() -> Scheduler {
    let mut sched = Scheduler::new();
    sched.poll(&vec![true, true, true], &vec![true, true], &vec![true]);
    sched
}

fn expected_order() -> [PassTag; 5] {
    [
        PassTag::Transmittance,
        PassTag::MultipleScattering,
        PassTag::SunTransmittance,
        PassTag::Radiance,
        PassTag::PostProcess,
    ]
}

fn assert_pass_order(log: &FrameLog) {
    assert_eq!(log.passes.len(), 5);
    for (record, expected) in log.passes.iter().zip(expected_order()) {
        assert_eq!(record.tag, expected);
    }
}

#[test]
fn dispatch_grids_are_literal() {
    assert_eq!(dispatch_grid(Kernel::Transmittance), (32, 8, 1));
    assert_eq!(dispatch_grid(Kernel::MultipleScattering), (4, 4, 1));
    assert_eq!(dispatch_grid(Kernel::SunTransmittance), (1, 1, 1));
    assert_eq!(dispatch_grid(Kernel::SpecularRadiance), (32, 192, 1));
    assert_eq!(dispatch_grid(Kernel::DiffuseRadiance), (32, 192, 1));
}

#[test]
fn unused_slots_bind_the_placeholder() {
    assert_eq!(
        kernel_inputs(Kernel::Transmittance),
        vec![TextureId::Placeholder, TextureId::MultipleScatteringLut, TextureId::CloudVolume]
    );
    assert_eq!(
        kernel_inputs(Kernel::MultipleScattering),
        vec![TextureId::TransmittanceLut, TextureId::Placeholder, TextureId::CloudVolume]
    );
    assert_eq!(
        kernel_inputs(Kernel::SunTransmittance),
        vec![
            TextureId::TransmittanceLut,
            TextureId::MultipleScatteringLut,
            TextureId::CloudVolume
        ]
    );
    // the diffuse pass, and only the diffuse pass, samples the specular atlas
    assert_eq!(kernel_inputs(Kernel::SpecularRadiance)[3], TextureId::Placeholder);
    assert_eq!(kernel_inputs(Kernel::DiffuseRadiance)[3], TextureId::SpecularAtlas);
}

#[test]
fn loading_stages_record_nothing() {
    // while a stage reports Loading, zero write dispatches are recorded,
    // however well provisioned the resources are
    let res = provisioned_resources();
    let lut = LutStage::new();
    assert!(lut.record_pass(Kernel::Transmittance, &res).is_empty());
    assert!(lut.record_pass(Kernel::MultipleScattering, &res).is_empty());
    assert!(lut.record_pass(Kernel::SunTransmittance, &res).is_empty());
    assert!(RadianceStage::new().record(&res).is_empty());
    assert!(PostProcessStage::new().record(&res, &PostProcessSettings::default()).is_empty());
}

#[test]
fn scenario_all_loading_degrades_to_no_op() {
    // frame 1: every stage still compiling; the whole graph runs, every
    // stage degrades to a no-op, and nothing errors
    let res = provisioned_resources();
    let sched = Scheduler::new();
    let log = sched.run_frame(&res, &PostProcessSettings::default());
    assert_pass_order(&log);
    for record in &log.passes {
        assert!(record.ops.is_empty());
    }
}

#[test]
fn scenario_ready_frame_records_full_graph() {
    // after all kernels report compiled, one scheduling pass executes
    // transmittance, multiple scattering, sun transmittance, the radiance
    // run and the post-process draw, in recording order
    let res = provisioned_resources();
    let sched = ready_scheduler();
    let log = sched.run_frame(&res, &PostProcessSettings::default());
    assert_pass_order(&log);

    assert_eq!(
        log.passes[0].ops,
        vec![GpuOp::Dispatch {
            kernel: Kernel::Transmittance,
            grid_x: 32,
            grid_y: 8,
            grid_z: 1,
            target: TextureId::TransmittanceLut,
        }]
    );
    assert_eq!(
        log.passes[1].ops,
        vec![GpuOp::Dispatch {
            kernel: Kernel::MultipleScattering,
            grid_x: 4,
            grid_y: 4,
            grid_z: 1,
            target: TextureId::MultipleScatteringLut,
        }]
    );
    assert_eq!(
        log.passes[2].ops,
        vec![GpuOp::Dispatch {
            kernel: Kernel::SunTransmittance,
            grid_x: 1,
            grid_y: 1,
            grid_z: 1,
            target: TextureId::SunTransmittanceLut,
        }]
    );
    assert_eq!(log.passes[3].ops.len(), 14);
    assert_eq!(log.passes[4].ops, vec![GpuOp::Draw { mode: PassMode::Composite }]);
}

#[test]
fn radiance_run_copies_each_face_of_each_atlas() {
    let res = provisioned_resources();
    let sched = ready_scheduler();
    let log = sched.run_frame(&res, &PostProcessSettings::default());
    let ops = &log.passes[3].ops;
    assert_eq!(ops.len(), 14);

    // the two dispatches come first: specular, then diffuse, which reads
    // the atlas the specular pass just wrote
    match ops[0] {
        GpuOp::Dispatch { kernel, grid_x, grid_y, grid_z, target } => {
            assert_eq!(kernel, Kernel::SpecularRadiance);
            assert_eq!((grid_x, grid_y, grid_z), (32, 192, 1));
            assert_eq!(target, TextureId::SpecularAtlas);
        }
        _ => panic!("expected the specular dispatch"),
    }
    match ops[1] {
        GpuOp::Dispatch { kernel, target, .. } => {
            assert_eq!(kernel, Kernel::DiffuseRadiance);
            assert_eq!(target, TextureId::DiffuseAtlas);
        }
        _ => panic!("expected the diffuse dispatch"),
    }

    // exactly six copies per atlas, face f read at row f * 256 and written
    // to array layer f
    let mut diffuse_copies = 0;
    let mut specular_copies = 0;
    for (i, op) in ops.iter().enumerate().skip(2) {
        match *op {
            GpuOp::CopyFace { src, src_y, dst, dst_layer, width, height } => {
                let face = ((i - 2) % 6) as u32;
                assert_eq!(src_y, face * 256);
                assert_eq!(dst_layer, face);
                assert_eq!((width, height), (256, 256));
                match src {
                    TextureId::DiffuseAtlas => {
                        diffuse_copies += 1;
                        assert_eq!(dst, TextureId::DiffuseCubemap);
                    }
                    TextureId::SpecularAtlas => {
                        specular_copies += 1;
                        assert_eq!(dst, TextureId::SpecularCubemap);
                    }
                    _ => panic!("copy from an unexpected source"),
                }
            }
            _ => panic!("expected only face copies after the dispatches"),
        }
    }
    assert_eq!(diffuse_copies, 6);
    assert_eq!(specular_copies, 6);
}

#[test]
fn scenario_show_zero_passes_color_through() {
    // toggling the post-process `show` field to zero makes the stage's
    // output equal to its input color buffer
    let res = provisioned_resources();
    let sched = ready_scheduler();
    let mut settings = PostProcessSettings::default();
    settings.set_show(false);
    let log = sched.run_frame(&res, &settings);
    assert_eq!(log.passes[4].ops, vec![GpuOp::Draw { mode: PassMode::PassThrough }]);

    let input = vec![0xAABBCCDD_u32, 0x11223344, 0x55667788];
    let blended = vec![0xFFFFFFFF_u32, 0xFFFFFFFF, 0xFFFFFFFF];
    let out = resolve_color_output(&input, blended, &log.passes[4].ops);
    assert_eq!(out, input);
}

#[test]
fn show_enabled_takes_the_composited_buffer() {
    let res = provisioned_resources();
    let sched = ready_scheduler();
    let log = sched.run_frame(&res, &PostProcessSettings::default());
    let input = vec![1_u32, 2, 3];
    let blended = vec![9_u32, 9, 9];
    let out = resolve_color_output(&input, blended.clone(), &log.passes[4].ops);
    assert_eq!(out, blended);
}

#[test]
fn scenario_absent_resources_skip_without_panicking() {
    // before resource setup completes every lookup is absent and every
    // dependent stage skips its frame
    let res = ResourceSet::new();
    assert!(res.get(TextureId::TransmittanceLut).is_none());
    let sched = ready_scheduler();
    let log = sched.run_frame(&res, &PostProcessSettings::default());
    assert_pass_order(&log);
    for record in &log.passes {
        assert!(record.ops.is_empty());
    }
}

#[test]
fn missing_snapshot_skips_the_frame() {
    let mut res = ResourceSet::new();
    res.create_all();
    // textures exist, but no parameter snapshot has been taken yet
    let sched = ready_scheduler();
    let log = sched.run_frame(&res, &PostProcessSettings::default());
    for record in &log.passes {
        assert!(record.ops.is_empty());
    }
}

#[test]
fn partial_upload_still_skips() {
    let mut res = ResourceSet::new();
    res.set_params(AtmosphereParameters::default());
    res.upload(TextureId::TransmittanceLut);
    res.upload(TextureId::MultipleScatteringLut);
    // the cloud volume and placeholder are still missing
    let sched = ready_scheduler();
    let log = sched.run_frame(&res, &PostProcessSettings::default());
    for record in &log.passes {
        assert!(record.ops.is_empty());
    }
}

#[test]
fn negative_zero_show_also_passes_through() {
    let res = provisioned_resources();
    let sched = ready_scheduler();
    let settings = PostProcessSettings { show: 0x8000_0000 };
    let log = sched.run_frame(&res, &settings);
    assert_eq!(log.passes[4].ops, vec![GpuOp::Draw { mode: PassMode::PassThrough }]);
}

#[test]
fn post_process_never_blocks_on_loading_tables() {
    // the aerial-perspective pass degrades to stale table contents while the
    // other stages are still compiling; it does not wait for them
    let res = provisioned_resources();
    let mut sched = Scheduler::new();
    sched.poll(&vec![false, false, false], &vec![false, false], &vec![true]);
    let log = sched.run_frame(&res, &PostProcessSettings::default());
    assert!(log.passes[0].ops.is_empty());
    assert!(log.passes[1].ops.is_empty());
    assert!(log.passes[2].ops.is_empty());
    assert!(log.passes[3].ops.is_empty());
    assert_eq!(log.passes[4].ops, vec![GpuOp::Draw { mode: PassMode::Composite }]);
}

#[test]
fn readiness_survives_later_reports() {
    // once ready, a stage never returns to loading, whatever later polls say
    let res = provisioned_resources();
    let mut sched = ready_scheduler();
    sched.poll(&vec![false, false, false], &vec![false, false], &vec![false]);
    let log = sched.run_frame(&res, &PostProcessSettings::default());
    assert_eq!(log.passes[0].ops.len(), 1);
    assert_eq!(log.passes[3].ops.len(), 14);
    assert_eq!(log.passes[4].ops.len(), 1);
}
