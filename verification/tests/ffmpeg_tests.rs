use smooth_octopus::ffmpeg;
use smooth_octopus::fs::{checked_filename, checked_parent_path, get_filename, get_parent_path};

#[test]
fn test_build_video_command() {
    let images_dir = "src/tests/images_test";
    let cmd = ffmpeg::build_video_command(images_dir, "%04d.png", "30", "libx264", "yuv420p", "output.mp4");

    let args: Vec<_> = cmd.args.iter().map(|a| a.as_str()).collect();

    assert_eq!(cmd.program, "ffmpeg");
    assert_eq!(cmd.current_dir.as_deref(), Some(images_dir));
    assert_eq!(args, ["-r", "30", "-i", "%04d.png", "-c:v", "libx264", "-pix_fmt", "yuv420p", "-y", "output.mp4"]);
}

#[test]
fn extraction_plan_places_frames_beside_the_video() {
    let e = ffmpeg::extract_video_to_images_command("/videos/clip.mp4").unwrap();
    assert_eq!(e.frames_dir, "/videos/clip.mp4_processing/frames");
    assert_eq!(e.command.program, "ffmpeg");
    assert_eq!(e.command.args, vec!["-i", "/videos/clip.mp4", "/videos/clip.mp4_processing/frames/%08d.png"]);
    assert!(ffmpeg::extract_video_to_images_command("/").is_none());
}

#[test]
fn images_to_video_without_codec_args() {
    let cmd = ffmpeg::images_to_video_command("f", "o.mp4", 7, "h264_nvenc", &Vec::new());
    assert_eq!(cmd.current_dir, None);
    assert_eq!(cmd.args, vec!["-r", "7", "-i", "f/%08d.png", "-c:v", "h264_nvenc", "-pix_fmt", "yuv420p", "-y", "o.mp4"]);
}

#[test]
fn parent_and_file_name() {
    assert_eq!(get_parent_path("/a/b/c.txt"), "/a/b");
    assert_eq!(get_filename("/a/b/c.txt"), "c.txt");
    assert_eq!(checked_parent_path(""), None);
    assert_eq!(checked_parent_path("/a/b"), Some("/a".to_string()));
    assert_eq!(checked_filename("/a/.."), None);
    assert_eq!(checked_filename("x/y"), Some("y".to_string()));
}

#[test]
fn fps_probe_reads_the_average_frame_rate() {
    let cmd = ffmpeg::fps_probe_command("/v/clip.mkv");
    assert_eq!(cmd.program, "ffprobe");
    assert_eq!(cmd.current_dir, None);
    assert_eq!(
        cmd.args,
        vec![
            "-v",
            "error",
            "-select_streams",
            "v:0",
            "-show_entries",
            "stream=avg_frame_rate",
            "-of",
            "default=noprint_wrappers=1:nokey=1",
            "/v/clip.mkv",
        ]
    );
}
