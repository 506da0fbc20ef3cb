use smooth_octopus::fp::Fp32;
use smooth_octopus::pipeline::encoding::merged_output_path_of;
use smooth_octopus::pipeline::{Builder, Context, Encode, Interpolate, Pipeline, Stage};

fn fp(x: f32) -> Fp32 {
    Fp32::from_bits(x.to_bits())
}

fn value(x: Fp32) -> f32 {
    f32::from_bits(x.bits)
}

/// Runs the stages of a pipeline the way the program does, with every
/// external run reported as succeeding.
fn run_stages(pipeline: &Pipeline, mut context: Context) -> Context {
    for stage in pipeline.stages.iter() {
        match stage {
            Stage::Interpolate => {
                let s = Interpolate::new();
                let new_fps = fp(value(context.original_fps) * context.multiply as f32);
                let scale_text = format!("{}", value(context.scale));
                if let Some(Some(run)) = s.checked_plan(&mut context, new_fps, &scale_text) {
                    s.complete(&mut context, run);
                }
            }
            Stage::Encode => {
                let s = Encode::new();
                let fps = value(context.new_fps).round() as u32;
                if let Some(Some(job)) = s.checked_plan(&context, fps) {
                    s.complete(&mut context, job);
                }
            }
        }
    }
    context
}

#[test]
fn test_builder_creates_interpolation_pipeline() {
    let (pipeline, _context) = Builder::new().with_interpolation().build();
    assert_eq!(pipeline.len(), 1);
}

#[test]
fn test_engine_executes_pipeline() {
    let (pipeline, context) = Builder::new().with_interpolation().build();
    let context = context.with_original_fps(fp(30.0)).with_multiply(8);

    let expected_fps = value(context.original_fps) * context.multiply as f32;
    let result = run_stages(&pipeline, context);

    assert_eq!(result.current_path, "");
    assert_eq!(value(result.new_fps), expected_fps);
}

#[test]
fn test_builder_passes_interpolation_params() {
    let (pipeline, context) = Builder::new()
        .with_interpolation()
        .with_scale(fp(2.0))
        .with_union(true)
        .with_fp16(true)
        .build();

    assert_eq!(pipeline.len(), 1);
    assert_eq!(value(context.scale), 2.0);
    assert_eq!(context.union, true);
    assert_eq!(context.fp16, true);
}

#[test]
fn test_stage_order_interpolation_before_encoding() {
    let (pipeline, _context) = Builder::new().with_interpolation().with_encoding(true).build();

    assert_eq!(pipeline.len(), 2, "Pipeline should have 2 stages");

    let stage_names: Vec<String> = pipeline.stages.iter().map(|s| format!("{:?}", s)).collect();

    let interp_index = stage_names.iter().position(|n| n.contains("Interpolate"));
    let encode_index = stage_names.iter().position(|n| n.contains("Encode"));

    assert!(interp_index.is_some(), "Interpolate stage should exist");
    assert!(encode_index.is_some(), "Encode stage should exist");
    assert!(
        interp_index < encode_index,
        "Interpolate stage must come BEFORE Encode stage, but order was: {:?}",
        stage_names
    );
}

#[test]
fn test_context_new_accepts_path_and_vfi_model() {
    let context = Context::new("/some/path").with_vfi_model("rife");
    assert_eq!(context.current_path, "/some/path");
    assert_eq!(context.vfi_model, "rife");
}

#[test]
fn test_context_with_vfi_model() {
    let context = Context::new("/path").with_vfi_model("rife");
    assert_eq!(context.vfi_model, "rife");
}

#[test]
fn test_context_encoding_flag() {
    let context = Context::new("/path").with_encoding(true);
    assert_eq!(context.encoding, true);

    let context_false = Context::new("/path").with_encoding(false);
    assert_eq!(context_false.encoding, false);
}

#[test]
fn test_context_output_path_default_empty() {
    let context = Context::new("/input/path");
    assert_eq!(context.output_path, "", "output_path should default to empty string");
}

#[test]
fn test_context_with_output_path() {
    let context = Context::new("/input/path").with_output_path("/output/video.mp4".to_string());
    assert_eq!(context.output_path, "/output/video.mp4");
}

#[test]
fn test_builder_with_vfi_model() {
    let (_pipeline, context) = Builder::new().with_vfi_model("rife-ncnn").build();
    assert_eq!(context.vfi_model, "rife-ncnn");
}

#[test]
fn test_builder_with_encoding_flag() {
    let (pipeline, context) = Builder::new().with_encoding(true).build();
    assert_eq!(pipeline.len(), 1);
    assert_eq!(context.encoding, true);
}

#[test]
fn test_builder_combined_interpolation_and_encoding() {
    let (pipeline, context) = Builder::new()
        .with_interpolation()
        .with_encoding(true)
        .with_vfi_model("gfmss")
        .with_scale(fp(2.0))
        .with_union(true)
        .with_fp16(true)
        .build();

    assert_eq!(pipeline.len(), 2, "Should have both interpolation and encoding stages");
    assert_eq!(context.vfi_model, "gfmss");
    assert_eq!(value(context.scale), 2.0);
    assert_eq!(context.union, true);
    assert_eq!(context.fp16, true);
    assert_eq!(context.encoding, true);
}

#[test]
fn test_multiply_parameter_affects_new_fps() {
    let test_cases = [(30.0, 2, 60.0), (24.0, 4, 96.0), (60.0, 8, 480.0)];

    for (original_fps, multiply, expected) in test_cases {
        let (pipeline, context) = Builder::new().with_interpolation().build();
        let context = context.with_original_fps(fp(original_fps)).with_multiply(multiply);

        let result = run_stages(&pipeline, context);
        assert_eq!(
            value(result.new_fps),
            expected,
            "original_fps={}, multiply={} should give new_fps={}, got {}",
            original_fps,
            multiply,
            expected,
            value(result.new_fps)
        );
    }
}

// Further cases of the stages.

#[test]
fn context_defaults() {
    let c = Context::new("/f");
    assert_eq!(c.codec, "libx264");
    assert!(c.codec_args.is_empty());
    assert_eq!(c.multiply, 1);
    assert_eq!(value(c.scale), 1.0);
    assert_eq!(value(c.original_fps), 0.0);
    assert_eq!(c.vfi_model_type, "");
    let c = c.with_codec("prores_ks").with_codec_args(vec!["-a".to_string()]).with_new_fps(fp(25.0));
    assert_eq!(c.codec, "prores_ks");
    assert_eq!(c.codec_args, vec!["-a".to_string()]);
    assert_eq!(value(c.new_fps), 25.0);
}

#[test]
fn builder_without_stages_and_default() {
    let (pipeline, context) = Builder::default().build();
    assert_eq!(pipeline.len(), 0);
    assert_eq!(context.current_path, "");
    let (pipeline, _) = Builder::new().with_encoding(true).with_encoding(false).build();
    assert_eq!(pipeline.len(), 0);
    let p = Pipeline::new(vec![Stage::Encode, Stage::Interpolate]);
    assert_eq!(format!("{:?}", p.stages), "[Encode, Interpolate]");
    assert_eq!(Encode::default(), Encode::new());
    assert_eq!(Interpolate::default(), Interpolate::new());
    assert_eq!(p.len(), 2);
}

#[test]
fn gfmss_plan_builds_its_command() {
    let mut c = Context::new("/v/clip.mp4_processing/frames")
        .with_vfi_model("gfmss")
        .with_multiply(4)
        .with_fp16(true)
        .with_union(true);
    let run = Interpolate::new().plan(&mut c, fp(96.0), "1.5").unwrap();
    assert_eq!(value(c.new_fps), 96.0);
    assert_eq!(c.current_path, "/v/clip.mp4_processing/frames");
    assert_eq!(run.output_dir, "/v/clip.mp4_processing/interpolated");
    assert_eq!(run.command.program, "src/python/python-packed/python.exe");
    assert_eq!(
        run.command.args,
        vec![
            "src/models/vfi/gfmss/inference_video.py",
            "--frames=/v/clip.mp4_processing/frames",
            "--model=src/models/vfi/gfmss/train_log",
            "--output=/v/clip.mp4_processing/interpolated",
            "--multi=4",
            "--scale=1.5",
            "--gpu=auto",
            "--fp16",
            "--union",
        ]
    );
    Interpolate::new().complete(&mut c, run);
    assert_eq!(c.current_path, "/v/clip.mp4_processing/interpolated");
}

#[test]
fn rife_plan_defaults_its_model_type() {
    let mut c = Context::new("/v/p/frames").with_vfi_model("rife").with_multiply(2);
    let run = Interpolate::new().plan(&mut c, fp(60.0), "1").unwrap();
    assert_eq!(
        run.command.args,
        vec![
            "src/models/vfi/rife/inference_video.py",
            "--frames=/v/p/frames",
            "--output=/v/p/interpolated",
            "--type=4.26",
            "--multi=2",
            "--scale=1",
            "--gpu=auto",
        ]
    );
    let mut c = Context::new("/v/p/frames").with_vfi_model("rife");
    c.vfi_model_type = "4.6".to_string();
    let run = Interpolate::new().plan(&mut c, fp(60.0), "1").unwrap();
    assert_eq!(run.command.args[3], "--type=4.6");
}

#[test]
fn unknown_model_and_missing_parent() {
    let mut c = Context::new("/v/p/frames").with_vfi_model("other");
    assert!(Interpolate::new().plan(&mut c, fp(1.0), "1").is_none());
    assert_eq!(c.current_path, "/v/p/frames");
    let mut c = Context::new("").with_vfi_model("rife");
    assert!(Interpolate::new().checked_plan(&mut c, fp(1.0), "1").is_none());
    assert_eq!(value(c.new_fps), 0.0);
}

#[test]
fn encode_plan_derives_merged_output() {
    let c = Context::new("/videos/clip.mp4_processing/frames").with_codec_args(vec!["-crf".to_string(), "18".to_string()]);
    let job = Encode::new().plan(&c, 60).unwrap();
    assert_eq!(job.output_path, "/videos/clip_merged.mp4");
    assert_eq!(job.command.program, "ffmpeg");
    assert_eq!(
        job.command.args,
        vec![
            "-r",
            "60",
            "-i",
            "/videos/clip.mp4_processing/frames/%08d.png",
            "-c:v",
            "libx264",
            "-crf",
            "18",
            "-pix_fmt",
            "yuv420p",
            "-y",
            "/videos/clip_merged.mp4",
        ]
    );
    let mut c = c;
    Encode::new().complete(&mut c, job);
    assert_eq!(c.current_path, "/videos/clip_merged.mp4");
}

#[test]
fn encode_output_path_cases() {
    assert_eq!(merged_output_path_of("/videos/shots/frames").unwrap(), "/videos/shots_merged");
    assert_eq!(merged_output_path_of("/videos/clip_processing/frames").unwrap(), "/videos/clip_merged.");
    assert!(merged_output_path_of("frames").is_none());
    let c = Context::new("/a/b/c").with_output_path("/out.mkv".to_string());
    assert_eq!(Encode::new().plan(&c, 24).unwrap().output_path, "/out.mkv");
    let c = Context::new("").with_output_path("/out.mkv".to_string());
    assert!(Encode::new().plan(&c, 24).is_none());
    let c = Context::new("");
    assert!(Encode::default().checked_plan(&c, 24).is_none());
}

#[test]
fn encode_output_path_stem_and_extension() {
    assert_eq!(merged_output_path_of("/v/.cfg_processing/f").unwrap(), "/v/.cfg_merged.");
    assert_eq!(merged_output_path_of("/v/a.b.c_processing/f").unwrap(), "/v/a.b_merged.c");
}
