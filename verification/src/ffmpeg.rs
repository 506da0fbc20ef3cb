//! The ffmpeg command lines of the pipeline, built as plain data; running
//! them is the caller's part.

use vstd::prelude::*;
use vstd::string::*;

use crate::fs::{file_name_of, join_paths, opt_text, parent_of, path_file_name, path_join, path_parent};
use crate::pipeline::context::{push_text, texts};
use crate::text::{nat_text, nat_to_text};

verus! {

/// A program to run, the directory to run it in, and its arguments.
pub struct CommandLine {
    pub program: String,
    pub current_dir: Option<String>,
    pub args: Vec<String>,
}

/// The mathematical content of a `CommandLine`.
pub struct CommandView {
    pub program: Seq<char>,
    pub current_dir: Option<Seq<char>>,
    pub args: Seq<Seq<char>>,
}

impl View for CommandLine {
    type V = CommandView;

    open spec fn view(&self) -> CommandView {
        CommandView { program: self.program@, current_dir: opt_text(self.current_dir), args: texts(self.args@) }
    }
}


/// The file-name pattern of the numbered frames the pipeline works on.
pub open spec fn frame_pattern() -> Seq<char> {
    "%08d.png"@
}

/// The ffmpeg invocation that encodes the frames matching `pattern` in `dir`
/// at `fps` frames per second with `codec` and pixel format `pixformat`
/// into `output_name`, overwriting it.
pub open spec fn video_command(
    dir: Seq<char>,
    pattern: Seq<char>,
    fps: Seq<char>,
    codec: Seq<char>,
    pixformat: Seq<char>,
    output_name: Seq<char>,
) -> CommandView {
    CommandView {
        program: "ffmpeg"@,
        current_dir: Some(dir),
        args: seq!["-r"@, fps, "-i"@, pattern, "-c:v"@, codec, "-pix_fmt"@, pixformat, "-y"@, output_name],
    }
}

/// Builds the ffmpeg command that turns numbered frames into a video.
pub fn build_video_command(
    dir: &str,
    pattern: &str,
    fps: &str,
    codec: &str,
    pixformat: &str,
    output_name: &str,
) -> (r: CommandLine)
    ensures
        r@ == video_command(dir@, pattern@, fps@, codec@, pixformat@, output_name@),
{
    let mut args: Vec<String> = Vec::new();
    push_text(&mut args, String::from_str("-r"));
    push_text(&mut args, String::from_str(fps));
    push_text(&mut args, String::from_str("-i"));
    push_text(&mut args, String::from_str(pattern));
    push_text(&mut args, String::from_str("-c:v"));
    push_text(&mut args, String::from_str(codec));
    push_text(&mut args, String::from_str("-pix_fmt"));
    push_text(&mut args, String::from_str(pixformat));
    push_text(&mut args, String::from_str("-y"));
    push_text(&mut args, String::from_str(output_name));
    let r = CommandLine { program: String::from_str("ffmpeg"), current_dir: Some(String::from_str(dir)), args };
    assert(r@.args =~= video_command(dir@, pattern@, fps@, codec@, pixformat@, output_name@).args);
    r
}

/// The ffmpeg invocation that encodes the frames in `frames_dir` into
/// `output_path` at `fps` frames per second, with `codec` and its extra
/// arguments, in pixel format `yuv420p`.
pub open spec fn encode_command(
    frames_dir: Seq<char>,
    output_path: Seq<char>,
    fps: nat,
    codec: Seq<char>,
    codec_args: Seq<Seq<char>>,
) -> CommandView {
    CommandView {
        program: "ffmpeg"@,
        current_dir: None,
        args: seq!["-r"@, nat_text(fps), "-i"@, path_join(frames_dir, frame_pattern()), "-c:v"@, codec] + codec_args
            + seq!["-pix_fmt"@, "yuv420p"@, "-y"@, output_path],
    }
}

/// Builds the ffmpeg command that encodes the frames in `frames_dir`.
pub fn images_to_video_command(
    frames_dir: &str,
    output_path: &str,
    fps: u32,
    codec: &str,
    codec_args: &Vec<String>,
) -> (r: CommandLine)
    ensures
        r@ == encode_command(frames_dir@, output_path@, fps as nat, codec@, texts(codec_args@)),
{
    let mut args: Vec<String> = Vec::new();
    push_text(&mut args, String::from_str("-r"));
    push_text(&mut args, nat_to_text(fps));
    push_text(&mut args, String::from_str("-i"));
    push_text(&mut args, join_paths(frames_dir, "%08d.png"));
    push_text(&mut args, String::from_str("-c:v"));
    push_text(&mut args, String::from_str(codec));
    let ghost head = texts(args@);
    let ghost extra = texts(codec_args@);
    let mut k: usize = 0;
    while k < codec_args.len()
        invariant
            k <= codec_args@.len(),
            extra == texts(codec_args@),
            texts(args@) == head + extra.subrange(0, k as int),
        decreases codec_args@.len() - k,
    {
        push_text(&mut args, codec_args[k].clone());
        assert(head + extra.subrange(0, k + 1) =~= head + extra.subrange(0, k as int) + seq![extra[k as int]]);
        k += 1;
    }
    assert(extra.subrange(0, extra.len() as int) =~= extra);
    push_text(&mut args, String::from_str("-pix_fmt"));
    push_text(&mut args, String::from_str("yuv420p"));
    push_text(&mut args, String::from_str("-y"));
    push_text(&mut args, String::from_str(output_path));
    let r = CommandLine { program: String::from_str("ffmpeg"), current_dir: None, args };
    assert(r@.args =~= encode_command(frames_dir@, output_path@, fps as nat, codec@, extra).args);
    r
}

/// Where the frames of a video go: `<video>_processing/frames` beside the
/// video, `<video>` being its file name; `None` where the path has no
/// parent or no file name.
pub open spec fn frames_dir_of(video: Seq<char>) -> Option<Seq<char>> {
    match (path_parent(video), path_file_name(video)) {
        (Some(dir), Some(name)) => Some(path_join(path_join(dir, name + "_processing"@), "frames"@)),
        _ => None,
    }
}

/// The ffmpeg invocation that writes every frame of `video` as a numbered
/// image into `frames_dir`.
pub open spec fn extract_command(video: Seq<char>, frames_dir: Seq<char>) -> CommandView {
    CommandView {
        program: "ffmpeg"@,
        current_dir: None,
        args: seq!["-i"@, video, path_join(frames_dir, frame_pattern())],
    }
}

/// The frames directory of `video` and the command that fills it; `None`
/// where the video path has no parent or no file name.
pub open spec fn extraction_plan(video: Seq<char>) -> Option<(Seq<char>, CommandView)> {
    match frames_dir_of(video) {
        Some(d) => Some((d, extract_command(video, d))),
        None => None,
    }
}

/// The view of a planned extraction.
pub open spec fn extraction_view(e: Option<Extraction>) -> Option<(Seq<char>, CommandView)> {
    match e {
        Some(x) => Some((x.frames_dir@, x.command@)),
        None => None,
    }
}

/// The directory that receives the frames of a video and the command that
/// writes them there.
pub struct Extraction {
    pub frames_dir: String,
    pub command: CommandLine,
}

/// Plans the extraction of the frames of `video`; `None` where the path has
/// no parent or no file name.
pub fn extract_video_to_images_command(video: &str) -> (r: Option<Extraction>)
    ensures
        match r {
            Some(e) => frames_dir_of(video@) == Some(e.frames_dir@) && e.command@ == extract_command(video@, e.frames_dir@),
            None => frames_dir_of(video@) is None,
        },
{
    let dir = match parent_of(video) {
        Some(d) => d,
        None => return None,
    };
    let name = match file_name_of(video) {
        Some(n) => n,
        None => return None,
    };
    let processing = join_paths(dir.as_str(), name.concat("_processing").as_str());
    let frames_dir = join_paths(processing.as_str(), "frames");
    let mut args: Vec<String> = Vec::new();
    push_text(&mut args, String::from_str("-i"));
    push_text(&mut args, String::from_str(video));
    push_text(&mut args, join_paths(frames_dir.as_str(), "%08d.png"));
    let command = CommandLine { program: String::from_str("ffmpeg"), current_dir: None, args };
    assert(command@.args =~= extract_command(video@, frames_dir@).args);
    Some(Extraction { frames_dir, command })
}

/// The ffprobe invocation that prints the average frame rate of the first
/// video stream of `path`, bare, on its own.
pub open spec fn fps_probe(path: Seq<char>) -> CommandView {
    CommandView {
        program: "ffprobe"@,
        current_dir: None,
        args: seq![
            "-v"@,
            "error"@,
            "-select_streams"@,
            "v:0"@,
            "-show_entries"@,
            "stream=avg_frame_rate"@,
            "-of"@,
            "default=noprint_wrappers=1:nokey=1"@,
            path,
        ],
    }
}

/// Builds the ffprobe command that reads the frame rate of a video.
pub fn fps_probe_command(path: &str) -> (r: CommandLine)
    ensures
        r@ == fps_probe(path@),
{
    let mut args: Vec<String> = Vec::new();
    push_text(&mut args, String::from_str("-v"));
    push_text(&mut args, String::from_str("error"));
    push_text(&mut args, String::from_str("-select_streams"));
    push_text(&mut args, String::from_str("v:0"));
    push_text(&mut args, String::from_str("-show_entries"));
    push_text(&mut args, String::from_str("stream=avg_frame_rate"));
    push_text(&mut args, String::from_str("-of"));
    push_text(&mut args, String::from_str("default=noprint_wrappers=1:nokey=1"));
    push_text(&mut args, String::from_str(path));
    let r = CommandLine { program: String::from_str("ffprobe"), current_dir: None, args };
    assert(r@.args =~= fps_probe(path@).args);
    r
}

} // verus!
