use smooth_octopus::cli::{complete_extraction, configure_run, to_images_path, validate_media_type, FramesSource};
use smooth_octopus::pipeline::Context;
use smooth_octopus::fp::Fp32;
use smooth_octopus::pipeline::Stage;
use smooth_octopus::{parse_args, ParsedArgs};

fn args(values: &[&str]) -> Vec<String> {
    values.iter().map(|value| value.to_string()).collect()
}

fn reals(values: &[String]) -> Vec<Option<Fp32>> {
    values
        .iter()
        .map(|v| v.parse::<f32>().ok().map(|x| Fp32::from_bits(x.to_bits())))
        .collect()
}

fn parse(values: &[&str]) -> Result<ParsedArgs, String> {
    let a = args(values);
    parse_args(&a, &reals(&a))
}

fn value(x: Fp32) -> f32 {
    f32::from_bits(x.bits)
}

#[test]
fn test_parse_args_accepts_valid_arguments() {
    let parsed = parse(&[
        "SmoothOctopusEngine",
        "-i",
        "input.mp4",
        "-o",
        "output.mp4",
        "-vmodel",
        "gfmss",
        "-type",
        "0",
        "-fps",
        "60",
        "-scale",
        "1.0",
        "-multi",
        "2",
        "-fp16",
        "false",
        "-union",
        "false",
    ])
    .unwrap();

    assert_eq!(parsed.input_file, "input.mp4");
    assert_eq!(parsed.output_file, "output.mp4");
    assert_eq!(parsed.vfi_model, "gfmss");
    assert_eq!(parsed.processing_type, 0);
    assert_eq!(value(parsed.fps), 60.0);
    assert_eq!(value(parsed.scale), 1.0);
    assert_eq!(parsed.multi, 2);
    assert_eq!(parsed.vfi_fp16, false);
    assert_eq!(parsed.union, false);
}

#[test]
fn test_parse_args_with_union_model() {
    let parsed = parse(&[
        "SmoothOctopusEngine",
        "-i",
        "input.mp4",
        "-o",
        "output.mp4",
        "-vmodel",
        "gfmss",
        "-type",
        "1",
        "-fps",
        "60",
        "-scale",
        "2.0",
        "-multi",
        "4",
        "-fp16",
        "true",
        "-union",
        "true",
    ])
    .unwrap();

    assert_eq!(parsed.input_file, "input.mp4");
    assert_eq!(parsed.output_file, "output.mp4");
    assert_eq!(parsed.vfi_model, "gfmss");
    assert_eq!(parsed.processing_type, 1);
    assert_eq!(value(parsed.fps), 60.0);
    assert_eq!(value(parsed.scale), 2.0);
    assert_eq!(parsed.multi, 4);
    assert_eq!(parsed.vfi_fp16, true);
    assert_eq!(parsed.union, true);
}

#[test]
fn test_parse_args_rejects_no_arguments() {
    let result = parse(&["SmoothOctopusEngine"]);

    assert_eq!(result.unwrap_err(), "No arguments provided.");
}

#[test]
fn test_parse_args_rejects_missing_value() {
    let result = parse(&["SmoothOctopusEngine", "-fps"]);

    assert_eq!(result.unwrap_err(), "Missing value for argument: -fps");
}

#[test]
fn test_parse_args_rejects_invalid_argument() {
    let result = parse(&["SmoothOctopusEngine", "-unknown", "value"]);

    assert_eq!(result.unwrap_err(), "invalid argument: -unknown");
}

#[test]
fn test_parse_args_rejects_invalid_value_type() {
    let result = parse(&[
        "SmoothOctopusEngine",
        "-i",
        "input.mp4",
        "-o",
        "output.mp4",
        "-vmodel",
        "gfmss",
        "-fps",
        "fast",
    ]);

    assert_eq!(result.unwrap_err(), "failed to parse fps argument");
}

#[test]
fn test_parse_args_rejects_missing_required_input_file() {
    let result = parse(&[
        "SmoothOctopusEngine",
        "-vmodel",
        "gfmss",
        "-fps",
        "60",
        "-scale",
        "1.0",
        "-multi",
        "2",
        "-fp16",
        "false",
        "-union",
        "false",
    ]);

    assert_eq!(result.unwrap_err(), "no input file provided.");
}

#[test]
fn test_parse_args_rejects_missing_required_vfitype() {
    let result = parse(&[
        "SmoothOctopusEngine",
        "-i",
        "input.mp4",
        "-o",
        "/path/to/file.mp4",
        "-fps",
        "60",
        "-scale",
        "1.0",
        "-multi",
        "2",
        "-fp16",
        "false",
        "-union",
        "false",
    ]);

    assert_eq!(result.unwrap_err(), "no VFI model type provided.");
}

#[test]
fn test_parse_args_rejects_missing_required_fps() {
    let result = parse(&[
        "SmoothOctopusEngine",
        "-i",
        "input.mp4",
        "-o",
        "/path/to/file.mp4",
        "-vmodel",
        "gfmss",
        "-scale",
        "1.0",
        "-multi",
        "2",
        "-fp16",
        "false",
        "-union",
        "false",
    ]);

    assert_eq!(result.unwrap_err(), "no valid fps provided.");
}

#[test]
fn test_parse_args_uses_default_values() {
    let parsed = parse(&[
        "SmoothOctopusEngine",
        "-i",
        "input.mp4",
        "-o",
        "output.mp4",
        "-vmodel",
        "gfmss",
        "-fps",
        "60",
    ])
    .unwrap();

    assert_eq!(value(parsed.scale), 1.0);
    assert_eq!(parsed.multi, 2);
    assert_eq!(parsed.vfi_fp16, false);
    assert_eq!(parsed.union, false);
}

#[test]
fn test_parse_args_with_float_scale() {
    let parsed = parse(&[
        "SmoothOctopusEngine",
        "-i",
        "input.mp4",
        "-o",
        "output.mp4",
        "-vmodel",
        "gfmss",
        "-fps",
        "60",
        "-scale",
        "1.5",
        "-multi",
        "2",
        "-fp16",
        "false",
        "-union",
        "false",
    ])
    .unwrap();

    assert_eq!(value(parsed.scale), 1.5);
}

#[test]
fn test_parse_args_rejects_invalid_scale() {
    let result = parse(&[
        "SmoothOctopusEngine",
        "-i",
        "input.mp4",
        "-o",
        "output.mp4",
        "-vmodel",
        "gfmss",
        "-fps",
        "60",
        "-scale",
        "invalid",
        "-multi",
        "2",
        "-fp16",
        "false",
        "-union",
        "false",
    ]);

    assert_eq!(result.unwrap_err(), "failed to parse scale argument");
}

#[test]
fn test_parse_args_accepts_output_file() {
    let parsed = parse(&[
        "SmoothOctopusEngine",
        "-i",
        "input.mp4",
        "-o",
        "output.mp4",
        "-vmodel",
        "gfmss",
        "-fps",
        "60",
    ])
    .unwrap();

    assert_eq!(parsed.output_file, "output.mp4");
}

#[test]
fn test_parse_args_rejects_missing_output_file() {
    let result = parse(&[
        "SmoothOctopusEngine",
        "-i",
        "input.mp4",
        "-vmodel",
        "gfmss",
        "-fps",
        "60",
        "-scale",
        "1.0",
        "-multi",
        "2",
        "-fp16",
        "false",
        "-union",
        "false",
    ]);

    assert_eq!(result.unwrap_err(), "no output folder provided.");
}

#[test]
fn test_parse_args_requires_all_three_core_args() {
    // Missing -i
    let r1 = parse(&["SmoothOctopusEngine", "-o", "out.mp4", "-vmodel", "gfmss", "-fps", "60"]);
    assert_eq!(r1.unwrap_err(), "no input file provided.");

    // Missing -o
    let r2 = parse(&["SmoothOctopusEngine", "-i", "in.mp4", "-vmodel", "gfmss", "-fps", "60"]);
    assert_eq!(r2.unwrap_err(), "no output folder provided.");

    // Missing -vmodel
    let r3 = parse(&["SmoothOctopusEngine", "-i", "in.mp4", "-o", "out.mp4", "-fps", "60"]);
    assert_eq!(r3.unwrap_err(), "no VFI model type provided.");

    // Missing -fps
    let r4 = parse(&["SmoothOctopusEngine", "-i", "in.mp4", "-o", "out.mp4", "-vmodel", "gfmss"]);
    assert_eq!(r4.unwrap_err(), "no valid fps provided.");
}

#[test]
fn test_parse_args_rejects_negative_fps() {
    let result = parse(&[
        "SmoothOctopusEngine",
        "-i", "input.mp4",
        "-o", "output.mp4",
        "-vmodel", "gfmss",
        "-fps", "-30",
    ]);
    assert_eq!(result.unwrap_err(), "no valid fps provided.");
}

#[test]
fn test_parse_args_rejects_zero_fps() {
    let result = parse(&[
        "SmoothOctopusEngine",
        "-i", "input.mp4",
        "-o", "output.mp4",
        "-vmodel", "gfmss",
        "-fps", "0",
    ]);
    assert_eq!(result.unwrap_err(), "no valid fps provided.");
}

#[test]
fn test_parse_args_with_negative_scale() {
    let result = parse(&[
        "SmoothOctopusEngine",
        "-i", "input.mp4",
        "-o", "output.mp4",
        "-vmodel", "gfmss",
        "-fps", "60",
        "-scale", "-1",
    ]);
    let parsed = result.unwrap();
    assert_eq!(value(parsed.scale), -1.0);
}

// Further cases of the parser.

#[test]
fn parse_reports_integer_error_of_type() {
    let result = parse(&["SmoothOctopusEngine", "-type", "x"]);
    assert_eq!(result.unwrap_err(), "invalid digit found in string");
}

#[test]
fn parse_reads_signed_integers() {
    let base = ["p", "-i", "in", "-o", "out", "-vmodel", "rife", "-fps", "30"];
    let mut a = base.to_vec();
    a.extend(["-type", "+12", "-multi", "-128"]);
    let parsed = parse(&a).unwrap();
    assert_eq!(parsed.processing_type, 12);
    assert_eq!(parsed.multi, -128);
    assert_eq!(parse(&["p", "-type", "128"]).unwrap_err(), "number too large to fit in target type");
    assert_eq!(parse(&["p", "-type", "-129"]).unwrap_err(), "number too small to fit in target type");
    assert_eq!(parse(&["p", "-type", ""]).unwrap_err(), "cannot parse integer from empty string");
}

#[test]
fn parse_reports_multi_fp16_and_union_errors() {
    assert_eq!(parse(&["p", "-multi", "300"]).unwrap_err(), "Failed to parse multi argument");
    assert_eq!(parse(&["p", "-fp16", "yes"]).unwrap_err(), "Failed to parse fp16 argument");
    assert_eq!(parse(&["p", "-union", "1"]).unwrap_err(), "Failed to parse union argument");
}

#[test]
fn parse_reports_first_error_in_order() {
    let result = parse(&["p", "-fps", "fast", "-unknown", "x"]);
    assert_eq!(result.unwrap_err(), "failed to parse fps argument");
    let result = parse(&["p", "-unknown", "x", "-fps", "fast"]);
    assert_eq!(result.unwrap_err(), "invalid argument: -unknown");
}

#[test]
fn parse_splits_codec_arguments() {
    let parsed = parse(&[
        "p", "-i", "in.mp4", "-o", "out.mp4", "-vmodel", "rife", "-fps", "24",
        "-codec", "h264_nvenc", "-codec-arg", "preset=p7", "-codec-arg", "crf",
    ])
    .unwrap();
    assert_eq!(parsed.codec, "h264_nvenc");
    assert_eq!(parsed.codec_args, vec!["-preset".to_string(), "p7".to_string(), "crf".to_string()]);
}

#[test]
fn parse_later_option_overrides_earlier() {
    let parsed = parse(&["p", "-i", "a", "-i", "b", "-o", "o", "-vmodel", "m", "-fps", "1"]).unwrap();
    assert_eq!(parsed.input_file, "b");
}

#[test]
fn default_args_are_the_documented_defaults() {
    let d = ParsedArgs::default();
    assert_eq!(d.input_file, "");
    assert_eq!(d.codec, "libx264");
    assert_eq!(value(d.fps), 0.0);
    assert_eq!(value(d.scale), 1.0);
    assert_eq!(d.multi, 2);
    assert_eq!(d.processing_type, 0);
}

#[test]
fn to_args_writes_every_option() {
    let mut p = ParsedArgs::default();
    p.input_file = "in.mp4".to_string();
    p.output_file = "out.mp4".to_string();
    p.vfi_model = "rife".to_string();
    p.processing_type = -3;
    p.multi = 4;
    p.union = true;
    p.codec_args = vec!["-crf".to_string(), "18".to_string()];
    let a = p.to_args("60", "1.5");
    assert_eq!(
        a,
        args(&[
            "-i", "in.mp4", "-o", "out.mp4", "-vmodel", "rife", "-type", "-3", "-fps", "60", "-scale", "1.5",
            "-multi", "4", "-fp16", "false", "-union", "true", "-codec", "libx264", "-codec-arg", "-crf",
            "-codec-arg", "18",
        ])
    );
    p.codec = String::new();
    let b = p.to_args("60", "1.5");
    assert!(!b.contains(&"-codec".to_string()));
}

#[test]
fn media_type_follows_extension() {
    assert_eq!(validate_media_type("clip.mp4"), "video");
    assert_eq!(validate_media_type("clip.mkv"), "video");
    assert_eq!(validate_media_type("clip.mov"), "video");
    assert_eq!(validate_media_type("frames"), "images");
    assert_eq!(validate_media_type("clip.avi"), "images");
}

#[test]
fn configure_run_by_processing_type() {
    let parsed = parse(&["p", "-i", "in", "-o", "out", "-vmodel", "rife", "-fps", "30", "-type", "1", "-multi", "4"]).unwrap();
    let (pipeline, context) = configure_run(parsed).unwrap();
    assert_eq!(pipeline.stages.len(), 2);
    assert!(matches!(pipeline.stages[0], Stage::Interpolate));
    assert!(matches!(pipeline.stages[1], Stage::Encode));
    assert_eq!(context.vfi_model, "rife");
    assert_eq!(value(context.original_fps), 30.0);
    assert_eq!(context.multiply, 4);
    assert!(context.encoding);

    let parsed = parse(&["p", "-i", "in", "-o", "out", "-vmodel", "rife", "-fps", "30"]).unwrap();
    let (pipeline, context) = configure_run(parsed).unwrap();
    assert_eq!(pipeline.stages.len(), 1);
    assert_eq!(value(context.new_fps), 30.0);
    assert_eq!(value(context.original_fps), 0.0);

    let parsed = parse(&["p", "-i", "in", "-o", "out", "-vmodel", "rife", "-fps", "30", "-type", "2"]).unwrap();
    assert!(configure_run(parsed).is_none());
}

#[test]
fn written_arguments_parse_back() {
    let mut p = ParsedArgs::default();
    p.input_file = "in.mp4".to_string();
    p.output_file = "out.mp4".to_string();
    p.vfi_model = "rife".to_string();
    p.processing_type = -3;
    p.fps = Fp32::from_bits(29.97f32.to_bits());
    p.scale = Fp32::from_bits(0.5f32.to_bits());
    p.multi = 4;
    p.vfi_fp16 = true;
    p.codec = "libx265".to_string();
    p.codec_args = vec!["-crf".to_string(), "18".to_string()];
    let mut line = vec!["prog".to_string()];
    line.extend(p.to_args(&value(p.fps).to_string(), &value(p.scale).to_string()));
    let q = parse_args(&line, &reals(&line)).unwrap();
    assert_eq!(q.input_file, p.input_file);
    assert_eq!(q.output_file, p.output_file);
    assert_eq!(q.vfi_model, p.vfi_model);
    assert_eq!(q.processing_type, p.processing_type);
    assert_eq!(q.fps.bits, p.fps.bits);
    assert_eq!(q.scale.bits, p.scale.bits);
    assert_eq!(q.multi, p.multi);
    assert_eq!(q.vfi_fp16, p.vfi_fp16);
    assert_eq!(q.union, p.union);
    assert_eq!(q.codec, p.codec);
    assert_eq!(q.codec_args, p.codec_args);
}

#[test]
fn frames_source_follows_media_type() {
    let mut c = Context::new("start");
    match to_images_path("images", &mut c, "/frames") {
        FramesSource::Images => {}
        _ => panic!("expected images"),
    }
    assert_eq!(c.current_path, "/frames");

    let mut c = Context::new("start");
    match to_images_path("video", &mut c, "/v/clip.mp4") {
        FramesSource::Video(Some(e)) => {
            assert_eq!(e.frames_dir, "/v/clip.mp4_processing/frames");
            assert_eq!(c.current_path, "start");
            complete_extraction(&mut c, &e);
        }
        _ => panic!("expected a planned extraction"),
    }
    assert_eq!(c.current_path, "/v/clip.mp4_processing/frames");
    assert_eq!(c.codec, "libx264");

    let mut c = Context::new("start");
    assert!(matches!(to_images_path("audio", &mut c, "/x"), FramesSource::Unknown));
    assert_eq!(c.current_path, "start");
}
