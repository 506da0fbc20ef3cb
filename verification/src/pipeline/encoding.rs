//! The encoding stage: frames back into a video.

use vstd::prelude::*;
use vstd::string::*;

use super::context::{Context, ContextView};
use crate::ffmpeg::{encode_command, images_to_video_command, CommandLine, CommandView};
use crate::fs::{
    extension_of, file_name_of, file_stem_of, join_paths, opt_text, parent_of, path_extension, path_file_name,
    path_file_stem, path_join, path_parent,
};
use crate::text::{ends_with, strip_suffix, strip_suffix_spec};

verus! {

/// The stage that encodes the current frames into a video file.
#[derive(Clone, Copy, Debug, PartialEq, Eq, Structural)]
pub struct Encode;

/// An encoding to run: the command, and the video it writes.
pub struct EncodeJob {
    pub output_path: String,
    pub command: CommandLine,
}

/// The text of an optional path part, empty where there is none.
pub open spec fn text_or_empty(o: Option<Seq<char>>) -> Seq<char> {
    match o {
        Some(t) => t,
        None => Seq::empty(),
    }
}

/// The default place of the encoded video for frames at `frames`. The frames
/// sit in a processing directory beside the source video; where that
/// directory is named `<video>_processing`, the result is
/// `<stem>_merged.<extension>` of `<video>`, otherwise `<name>_merged` of the
/// processing directory, in both cases beside the processing directory.
/// `None` where a step finds no parent, no file name or no file stem.
pub open spec fn merged_output_path(frames: Seq<char>) -> Option<Seq<char>> {
    match path_parent(frames) {
        None => None,
        Some(processing_dir) => match path_parent(processing_dir) {
            None => None,
            Some(video_dir) => match path_file_name(processing_dir) {
                None => None,
                Some(name) => match strip_suffix_spec(name, "_processing"@) {
                    Some(video_name) => match path_file_stem(video_name) {
                        None => None,
                        Some(stem) => Some(
                            path_join(video_dir, stem + "_merged."@ + text_or_empty(path_extension(video_name))),
                        ),
                    },
                    None => Some(path_join(video_dir, name + "_merged"@)),
                },
            },
        },
    }
}

/// The default output place exists whenever the frames sit in a directory
/// that has a file name and a parent, whatever that parent is (the empty
/// path of a relative `video_processing` directory included): it lies in
/// that parent, and is named `<name>_merged` after a directory whose name
/// does not end in `_processing`, or `<stem>_merged.<extension>` after the
/// video that a `<video>_processing` directory names, where the video's
/// name has a stem.
pub proof fn default_output_lies_beside_the_processing_dir(
    frames: Seq<char>,
    processing_dir: Seq<char>,
    video_dir: Seq<char>,
    name: Seq<char>,
)
    requires
        path_parent(frames) == Some(processing_dir),
        path_parent(processing_dir) == Some(video_dir),
        path_file_name(processing_dir) == Some(name),
    ensures
        !ends_with(name, "_processing"@) ==> merged_output_path(frames) == Some(path_join(video_dir, name + "_merged"@)),
        ends_with(name, "_processing"@) ==> {
            let video = name.subrange(0, name.len() - "_processing"@.len());
            &&& path_file_stem(video) matches Some(stem) ==> merged_output_path(frames) == Some(
                path_join(video_dir, stem + "_merged."@ + text_or_empty(path_extension(video))),
            )
            &&& path_file_stem(video) is None ==> merged_output_path(frames) is None
        },
{
}

/// Without a parent of the frames, a parent of that, or a file name of the
/// frames' directory, there is no default output place.
pub proof fn no_default_output_without_the_parts(frames: Seq<char>)
    ensures
        path_parent(frames) is None ==> merged_output_path(frames) is None,
        path_parent(frames) matches Some(d) ==> (path_parent(d) is None || path_file_name(d) is None
            ==> merged_output_path(frames) is None),
{
}

/// The video the stage writes: the context's output path where one is set,
/// the default place otherwise.
pub open spec fn encode_target(c: ContextView) -> Seq<char> {
    if c.output_path.len() == 0 {
        merged_output_path(c.current_path)->0
    } else {
        c.output_path
    }
}

/// The stage can be planned: an output path is set, or the default place
/// exists for the current frames.
pub open spec fn encode_plannable(c: ContextView) -> bool {
    c.output_path.len() != 0 || merged_output_path(c.current_path) is Some
}

/// The encoding for a context at `fps` frames per second: none where there
/// are no frames to encode, otherwise the current frames into the target
/// video with the context's codec and codec arguments.
pub open spec fn encode_plan(c: ContextView, fps: nat) -> Option<(Seq<char>, CommandView)> {
    if c.current_path.len() == 0 {
        None
    } else {
        let out = encode_target(c);
        Some((out, encode_command(c.current_path, out, fps, c.codec, c.codec_args)))
    }
}

/// The view of a planned encoding.
pub open spec fn job_view(j: Option<EncodeJob>) -> Option<(Seq<char>, CommandView)> {
    match j {
        Some(e) => Some((e.output_path@, e.command@)),
        None => None,
    }
}

/// Works out the default place of the encoded video for frames at `frames`.
pub fn merged_output_path_of(frames: &str) -> (r: Option<String>)
    ensures
        opt_text(r) == merged_output_path(frames@),
{
    let processing_dir = match parent_of(frames) {
        Some(p) => p,
        None => return None,
    };
    let video_dir = match parent_of(processing_dir.as_str()) {
        Some(p) => p,
        None => return None,
    };
    let name = match file_name_of(processing_dir.as_str()) {
        Some(n) => n,
        None => return None,
    };
    match strip_suffix(name.as_str(), "_processing") {
        Some(video_name) => {
            let stem = match file_stem_of(video_name.as_str()) {
                Some(s) => s,
                None => return None,
            };
            let ext = match extension_of(video_name.as_str()) {
                Some(e) => e,
                None => String::new(),
            };
            let file = stem.concat("_merged.").concat(ext.as_str());
            Some(join_paths(video_dir.as_str(), file.as_str()))
        },
        None => {
            let file = name.concat("_merged");
            Some(join_paths(video_dir.as_str(), file.as_str()))
        },
    }
}

impl Encode {
    /// The encoding stage.
    pub fn new() -> (r: Self)
        ensures
            r == Encode,
    {
        Encode
    }

    /// The first half of the stage: plans the encoding of the current frames
    /// at `fps` frames per second (the new frame rate rounded to a whole
    /// number by the caller, since this library holds no floating-point
    /// arithmetic), or nothing where there are no frames. Needs an output
    /// path, or frames whose default output place exists.
    pub fn plan(&self, context: &Context, fps: u32) -> (r: Option<EncodeJob>)
        requires
            encode_plannable(context@),
        ensures
            job_view(r) == encode_plan(context@, fps as nat),
    {
        let output_path = if context.output_path.as_str().is_empty() {
            match merged_output_path_of(context.current_path.as_str()) {
                Some(p) => p,
                None => {
                    proof { assert(false); }
                    return None;
                },
            }
        } else {
            context.output_path.clone()
        };
        if context.current_path.as_str().is_empty() {
            return None;
        }
        let command = images_to_video_command(
            context.current_path.as_str(),
            output_path.as_str(),
            fps,
            context.codec.as_str(),
            &context.codec_args,
        );
        Some(EncodeJob { output_path, command })
    }

    /// Like `plan`, for any context: `None` where neither an output path is
    /// set nor the default output place exists.
    pub fn checked_plan(&self, context: &Context, fps: u32) -> (r: Option<Option<EncodeJob>>)
        ensures
            match r {
                Some(job) => job_view(job) == encode_plan(context@, fps as nat),
                None => !encode_plannable(context@),
            },
    {
        if context.output_path.as_str().is_empty() && merged_output_path_of(context.current_path.as_str()).is_none() {
            return None;
        }
        Some(self.plan(context, fps))
    }

    /// The second half of the stage, once the encoding succeeded: the video
    /// becomes the current path.
    pub fn complete(&self, context: &mut Context, job: EncodeJob)
        ensures
            final(context)@ == (ContextView { current_path: job.output_path@, ..old(context)@ }),
    {
        context.current_path = job.output_path;
    }
}

impl Default for Encode {
    fn default() -> (r: Self)
        ensures
            r == Encode,
    {
        Encode::new()
    }
}

} // verus!
