//! The interpolation stage: more frames between the existing ones.

use vstd::prelude::*;
use vstd::string::*;

use super::context::{push_text, texts, Context, ContextView};
use crate::ffmpeg::{CommandLine, CommandView};
use crate::fp::Fp32;
use crate::fs::{join_paths, parent_of, path_join, path_parent};
use crate::text::{i8_to_text, int_text, text_eq};

verus! {

/// The stage that interpolates frames with a VFI model.
#[derive(Clone, Copy, Debug, PartialEq, Eq, Structural)]
pub struct Interpolate;

/// A model run: the command, and the directory where the interpolated
/// frames appear once it succeeds.
pub struct ToolRun {
    pub command: CommandLine,
    pub output_dir: String,
}

/// The interpreter that runs the models' scripts.
pub open spec fn python_exe() -> Seq<char> {
    "src/python/python-packed/python.exe"@
}

/// The models this stage knows.
pub open spec fn known_model(model: Seq<char>) -> bool {
    model == "gfmss"@ || model == "rife"@
}

/// The directory for the interpolated frames: `interpolated` beside the
/// frames directory.
pub open spec fn interpolated_dir(current_path: Seq<char>) -> Seq<char> {
    path_join(path_parent(current_path)->0, "interpolated"@)
}

/// The RIFE model version: the one set in the context, `4.26` where none is.
pub open spec fn rife_model_type(c: ContextView) -> Seq<char> {
    if c.vfi_model_type.len() == 0 {
        "4.26"@
    } else {
        c.vfi_model_type
    }
}

/// The arguments of a model script, the script first.
pub open spec fn model_args(c: ContextView, out: Seq<char>, scale_text: Seq<char>) -> Seq<Seq<char>> {
    if c.vfi_model == "gfmss"@ {
        seq![
            "src/models/vfi/gfmss/inference_video.py"@,
            "--frames="@ + c.current_path,
            "--model="@ + "src/models/vfi/gfmss/train_log"@,
            "--output="@ + out,
            "--multi="@ + int_text(c.multiply as int),
            "--scale="@ + scale_text,
            "--gpu=auto"@,
        ] + (if c.fp16 { seq!["--fp16"@] } else { Seq::empty() }) + (if c.union {
            seq!["--union"@]
        } else {
            Seq::empty()
        })
    } else {
        seq![
            "src/models/vfi/rife/inference_video.py"@,
            "--frames="@ + c.current_path,
            "--output="@ + out,
            "--type="@ + rife_model_type(c),
            "--multi="@ + int_text(c.multiply as int),
            "--scale="@ + scale_text,
            "--gpu=auto"@,
        ] + (if c.fp16 { seq!["--fp16"@] } else { Seq::empty() })
    }
}

/// The model run for a context: `None` for a model this stage does not
/// know; otherwise the interpreter runs the model's script on the current
/// frames, writing to the interpolated-frames directory.
pub open spec fn interpolation_run(c: ContextView, scale_text: Seq<char>) -> Option<(CommandView, Seq<char>)> {
    if known_model(c.vfi_model) {
        let out = interpolated_dir(c.current_path);
        Some((CommandView { program: python_exe(), current_dir: None, args: model_args(c, out, scale_text) }, out))
    } else {
        None
    }
}

/// A known model runs under the packed interpreter on the current frames and
/// writes into `interpolated` beside the frames directory: its arguments
/// name the frames, that directory, the multiplier and the scale. An
/// unknown model runs nothing.
pub proof fn model_run_reads_frames_and_writes_beside_them(c: ContextView, scale_text: Seq<char>)
    ensures
        !known_model(c.vfi_model) ==> interpolation_run(c, scale_text) is None,
        known_model(c.vfi_model) ==> (interpolation_run(c, scale_text) matches Some((cmd, out)) && {
            &&& out == path_join(path_parent(c.current_path)->0, "interpolated"@)
            &&& cmd.program == python_exe()
            &&& cmd.current_dir is None
            &&& cmd.args.contains("--frames="@ + c.current_path)
            &&& cmd.args.contains("--output="@ + out)
            &&& cmd.args.contains("--multi="@ + int_text(c.multiply as int))
            &&& cmd.args.contains("--scale="@ + scale_text)
        }),
{
    if known_model(c.vfi_model) {
        let out = interpolated_dir(c.current_path);
        let args = model_args(c, out, scale_text);
        assert(args[1] == "--frames="@ + c.current_path);
        if c.vfi_model == "gfmss"@ {
            assert(args[3] == "--output="@ + out);
            assert(args[4] == "--multi="@ + int_text(c.multiply as int));
            assert(args[5] == "--scale="@ + scale_text);
        } else {
            assert(args[2] == "--output="@ + out);
            assert(args[4] == "--multi="@ + int_text(c.multiply as int));
            assert(args[5] == "--scale="@ + scale_text);
        }
    }
}

/// Two texts that differ at a position both have are different.
proof fn differ_at(s: Seq<char>, t: Seq<char>, k: int)
    requires
        0 <= k < s.len(),
        k < t.len(),
        s[k] != t[k],
    ensures
        s != t,
{
}

/// Half precision and union mode reach the model that runs: for a known
/// model, the planned arguments hold `--fp16` exactly when the context asks
/// for half precision, and `--union` exactly when it asks for union mode
/// and the model is GFMSS, the one model that takes it.
pub proof fn precision_and_union_are_handed_on(c: ContextView, scale_text: Seq<char>)
    requires
        known_model(c.vfi_model),
    ensures
        interpolation_run(c, scale_text) matches Some((cmd, _)) && (cmd.args.contains("--fp16"@) <==> c.fp16) && (
        cmd.args.contains("--union"@) <==> (c.union && c.vfi_model == "gfmss"@)),
{
    reveal_strlit("--fp16");
    reveal_strlit("--union");
    reveal_strlit("src/models/vfi/gfmss/inference_video.py");
    reveal_strlit("src/models/vfi/rife/inference_video.py");
    reveal_strlit("--frames=");
    reveal_strlit("--model=");
    reveal_strlit("--output=");
    reveal_strlit("--type=");
    reveal_strlit("--multi=");
    reveal_strlit("--scale=");
    reveal_strlit("--gpu=auto");
    let out = interpolated_dir(c.current_path);
    let args = model_args(c, out, scale_text);
    let fp16 = "--fp16"@;
    let union_flag = "--union"@;
    assert forall|i: int| 0 <= i < 7 implies args[i] != fp16 && args[i] != union_flag by {
        let a = args[i];
        if i == 0 {
            differ_at(a, fp16, 0);
            differ_at(a, union_flag, 0);
        } else if i == 1 {
            assert(a == "--frames="@ + c.current_path);
            assert(a[3] == 'r' && a[2] == 'f');
            differ_at(a, fp16, 3);
            differ_at(a, union_flag, 2);
        } else {
            assert(a.len() > 2);
            differ_at(a, fp16, 2);
            differ_at(a, union_flag, 2);
        }
    }
    if c.vfi_model == "gfmss"@ {
        if c.fp16 {
            assert(args[7] == fp16);
            if c.union {
                assert(args[8] == union_flag);
                assert forall|i: int| 0 <= i < args.len() implies args[i] != union_flag || i == 8 by {
                    if i == 7 {
                        differ_at(args[i], union_flag, 2);
                    }
                }
            } else {
                assert(args.len() == 8);
                assert forall|i: int| 0 <= i < args.len() implies args[i] != union_flag by {
                    if i == 7 {
                        differ_at(args[i], union_flag, 2);
                    }
                }
            }
        } else {
            if c.union {
                assert(args[7] == union_flag);
                assert(args.len() == 8);
                assert forall|i: int| 0 <= i < args.len() implies args[i] != fp16 by {
                    if i == 7 {
                        differ_at(args[i], fp16, 2);
                    }
                }
            } else {
                assert(args.len() == 7);
            }
        }
    } else {
        if c.fp16 {
            assert(args[7] == fp16);
            assert(args.len() == 8);
            assert forall|i: int| 0 <= i < args.len() implies args[i] != union_flag by {
                if i == 7 {
                    differ_at(args[i], union_flag, 2);
                }
            }
        } else {
            assert(args.len() == 7);
        }
    }
}

/// The view of a planned run.
pub open spec fn run_view(r: Option<ToolRun>) -> Option<(CommandView, Seq<char>)> {
    match r {
        Some(t) => Some((t.command@, t.output_dir@)),
        None => None,
    }
}

impl Interpolate {
    /// The interpolation stage.
    pub fn new() -> (r: Self)
        ensures
            r == Interpolate,
    {
        Interpolate
    }

    /// The first half of the stage: records the new frame rate and plans the
    /// model run (`None` for an unknown model, which runs nothing).
    /// `new_fps` is the source frame rate times the multiplier and
    /// `scale_text` the decimal text of the scale, both worked out by the
    /// caller, since this library holds no floating-point arithmetic. A
    /// known model needs a frames path with a parent directory.
    pub fn plan(&self, context: &mut Context, new_fps: Fp32, scale_text: &str) -> (r: Option<ToolRun>)
        requires
            known_model(old(context)@.vfi_model) ==> path_parent(old(context)@.current_path) is Some,
        ensures
            final(context)@ == (ContextView { new_fps: new_fps, ..old(context)@ }),
            run_view(r) == interpolation_run(old(context)@, scale_text@),
    {
        context.new_fps = new_fps;
        let is_gfmss = text_eq(context.vfi_model.as_str(), "gfmss");
        let is_rife = text_eq(context.vfi_model.as_str(), "rife");
        if !is_gfmss && !is_rife {
            return None;
        }
        let processing_dir = match parent_of(context.current_path.as_str()) {
            Some(p) => p,
            None => {
                proof { assert(false); }
                return None;
            },
        };
        let out = join_paths(processing_dir.as_str(), "interpolated");
        let mut args: Vec<String> = Vec::new();
        if is_gfmss {
            push_text(&mut args, String::from_str("src/models/vfi/gfmss/inference_video.py"));
            push_text(&mut args, String::from_str("--frames=").concat(context.current_path.as_str()));
            push_text(&mut args, String::from_str("--model=").concat("src/models/vfi/gfmss/train_log"));
            push_text(&mut args, String::from_str("--output=").concat(out.as_str()));
            push_text(&mut args, String::from_str("--multi=").concat(i8_to_text(context.multiply).as_str()));
            push_text(&mut args, String::from_str("--scale=").concat(scale_text));
            push_text(&mut args, String::from_str("--gpu=auto"));
            let ghost base = texts(args@);
            if context.fp16 {
                push_text(&mut args, String::from_str("--fp16"));
            }
            let ghost with_fp16 = texts(args@);
            if context.union {
                push_text(&mut args, String::from_str("--union"));
            }
            proof {
                let c = old(context)@;
                assert(with_fp16 =~= base + (if c.fp16 { seq!["--fp16"@] } else { Seq::empty() }));
                assert(texts(args@) =~= model_args(c, out@, scale_text@));
            }
        } else {
            let model_type = if context.vfi_model_type.as_str().is_empty() {
                String::from_str("4.26")
            } else {
                context.vfi_model_type.clone()
            };
            push_text(&mut args, String::from_str("src/models/vfi/rife/inference_video.py"));
            push_text(&mut args, String::from_str("--frames=").concat(context.current_path.as_str()));
            push_text(&mut args, String::from_str("--output=").concat(out.as_str()));
            push_text(&mut args, String::from_str("--type=").concat(model_type.as_str()));
            push_text(&mut args, String::from_str("--multi=").concat(i8_to_text(context.multiply).as_str()));
            push_text(&mut args, String::from_str("--scale=").concat(scale_text));
            push_text(&mut args, String::from_str("--gpu=auto"));
            let ghost base = texts(args@);
            if context.fp16 {
                push_text(&mut args, String::from_str("--fp16"));
            }
            proof {
                let c = old(context)@;
                assert(texts(args@) =~= model_args(c, out@, scale_text@));
            }
        }
        let command = CommandLine { program: String::from_str("src/python/python-packed/python.exe"), current_dir: None, args };
        Some(ToolRun { command, output_dir: out })
    }

    /// Like `plan`, for any context: `None` where the model is known and the
    /// frames path has no parent directory, with the context left as it was.
    pub fn checked_plan(&self, context: &mut Context, new_fps: Fp32, scale_text: &str) -> (r: Option<Option<ToolRun>>)
        ensures
            match r {
                Some(run) => final(context)@ == (ContextView { new_fps: new_fps, ..old(context)@ })
                    && run_view(run) == interpolation_run(old(context)@, scale_text@),
                None => known_model(old(context)@.vfi_model) && path_parent(old(context)@.current_path) is None
                    && final(context)@ == old(context)@,
            },
    {
        let known = text_eq(context.vfi_model.as_str(), "gfmss") || text_eq(context.vfi_model.as_str(), "rife");
        if known && parent_of(context.current_path.as_str()).is_none() {
            return None;
        }
        Some(self.plan(context, new_fps, scale_text))
    }

    /// The second half of the stage, once the model run succeeded: the
    /// interpolated frames become the current frames.
    pub fn complete(&self, context: &mut Context, run: ToolRun)
        ensures
            final(context)@ == (ContextView { current_path: run.output_dir@, ..old(context)@ }),
    {
        context.current_path = run.output_dir;
    }
}

impl Default for Interpolate {
    fn default() -> (r: Self)
        ensures
            r == Interpolate,
    {
        Interpolate::new()
    }
}

} // verus!
