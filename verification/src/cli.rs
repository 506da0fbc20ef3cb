//! The command line: parsing it, writing it back, and turning it into a
//! configured pipeline.

use vstd::prelude::*;
use vstd::string::*;

use crate::ffmpeg::{extract_video_to_images_command, extraction_plan, extraction_view, Extraction};
use crate::fp::Fp32;
use crate::pipeline::context::{initial_context, push_text, texts, Context, ContextView};
use crate::pipeline::builder::enabled_stages;
use crate::pipeline::stage::Stage;
use crate::pipeline::{Builder, Pipeline};
use crate::text::{bool_literal, bool_text, bool_text_reads_back, bool_to_text, i8_text_reads_back, ends_with, has_suffix, i8_to_text, int_text, i8_literal, i8_parse_error_text, parse_bool, parse_i8, split_once_char, split_once_spec, text_eq};

verus! {

/// The options of a run, as given on the command line.
#[derive(Debug)]
pub struct ParsedArgs {
    pub input_file: String,
    pub output_file: String,
    pub processing_type: i8,
    pub codec: String,
    pub codec_args: Vec<String>,
    pub vfi_model: String,
    pub fps: Fp32,
    pub scale: Fp32,
    pub multi: i8,
    pub vfi_fp16: bool,
    pub union: bool,
}

/// The mathematical content of `ParsedArgs`.
pub struct ArgsView {
    pub input_file: Seq<char>,
    pub output_file: Seq<char>,
    pub processing_type: i8,
    pub codec: Seq<char>,
    pub codec_args: Seq<Seq<char>>,
    pub vfi_model: Seq<char>,
    pub fps: Fp32,
    pub scale: Fp32,
    pub multi: i8,
    pub vfi_fp16: bool,
    pub union: bool,
}

impl View for ParsedArgs {
    type V = ArgsView;

    open spec fn view(&self) -> ArgsView {
        ArgsView {
            input_file: self.input_file@,
            output_file: self.output_file@,
            processing_type: self.processing_type,
            codec: self.codec@,
            codec_args: texts(self.codec_args@),
            vfi_model: self.vfi_model@,
            fps: self.fps,
            scale: self.scale,
            multi: self.multi,
            vfi_fp16: self.vfi_fp16,
            union: self.union,
        }
    }
}

/// The options before any argument is read: no files, no model, type 0,
/// frame rate 0, scale 1, multiplier 2, no flags, codec `libx264`.
pub open spec fn default_args() -> ArgsView {
    ArgsView {
        input_file: Seq::empty(),
        output_file: Seq::empty(),
        processing_type: 0,
        codec: "libx264"@,
        codec_args: Seq::empty(),
        vfi_model: Seq::empty(),
        fps: Fp32::zero(),
        scale: Fp32::one(),
        multi: 2,
        vfi_fp16: false,
        union: false,
    }
}

/// The options after reading the pair `flag value`, or the message of the
/// error that the pair causes. `number` is the value of `value` read as a
/// floating-point number, where it reads as one.
pub open spec fn apply_option(a: ArgsView, flag: Seq<char>, value: Seq<char>, number: Option<Fp32>) -> Result<ArgsView, Seq<char>> {
    if flag == "-i"@ {
        Ok(ArgsView { input_file: value, ..a })
    } else if flag == "-o"@ {
        Ok(ArgsView { output_file: value, ..a })
    } else if flag == "-vmodel"@ {
        Ok(ArgsView { vfi_model: value, ..a })
    } else if flag == "-type"@ {
        match i8_literal(value) {
            Some(v) => Ok(ArgsView { processing_type: v, ..a }),
            None => Err(i8_parse_error_text(value)),
        }
    } else if flag == "-fps"@ {
        match number {
            Some(v) => Ok(ArgsView { fps: v, ..a }),
            None => Err("failed to parse fps argument"@),
        }
    } else if flag == "-scale"@ {
        match number {
            Some(v) => Ok(ArgsView { scale: v, ..a }),
            None => Err("failed to parse scale argument"@),
        }
    } else if flag == "-multi"@ {
        match i8_literal(value) {
            Some(v) => Ok(ArgsView { multi: v, ..a }),
            None => Err("Failed to parse multi argument"@),
        }
    } else if flag == "-fp16"@ {
        match bool_literal(value) {
            Some(v) => Ok(ArgsView { vfi_fp16: v, ..a }),
            None => Err("Failed to parse fp16 argument"@),
        }
    } else if flag == "-union"@ {
        match bool_literal(value) {
            Some(v) => Ok(ArgsView { union: v, ..a }),
            None => Err("Failed to parse union argument"@),
        }
    } else if flag == "-codec"@ {
        Ok(ArgsView { codec: value, ..a })
    } else if flag == "-codec-arg"@ {
        match split_once_spec(value, '=') {
            Some((key, val)) => Ok(ArgsView { codec_args: a.codec_args.push("-"@ + key).push(val), ..a }),
            None => Ok(ArgsView { codec_args: a.codec_args.push(value), ..a }),
        }
    } else {
        Err("invalid argument: "@ + flag)
    }
}

/// Each option's flag sets that option to the pair's value, whatever was
/// read before, and leaves every other option as it was: `-i`, `-o`,
/// `-vmodel` and `-codec` take the value as it is, `-fps` and `-scale` take
/// its reading as a number where it reads as one.
pub proof fn each_flag_sets_its_own_option(a: ArgsView, value: Seq<char>, number: Option<Fp32>)
    ensures
        apply_option(a, "-i"@, value, number) == Ok::<ArgsView, Seq<char>>(ArgsView { input_file: value, ..a }),
        apply_option(a, "-o"@, value, number) == Ok::<ArgsView, Seq<char>>(ArgsView { output_file: value, ..a }),
        apply_option(a, "-vmodel"@, value, number) == Ok::<ArgsView, Seq<char>>(ArgsView { vfi_model: value, ..a }),
        apply_option(a, "-codec"@, value, number) == Ok::<ArgsView, Seq<char>>(ArgsView { codec: value, ..a }),
        number matches Some(x) ==> apply_option(a, "-fps"@, value, number) == Ok::<ArgsView, Seq<char>>(
            ArgsView { fps: x, ..a },
        ),
        number matches Some(x) ==> apply_option(a, "-scale"@, value, number) == Ok::<ArgsView, Seq<char>>(
            ArgsView { scale: x, ..a },
        ),
        i8_literal(value) matches Some(v) ==> apply_option(a, "-type"@, value, number) == Ok::<ArgsView, Seq<char>>(
            ArgsView { processing_type: v, ..a },
        ),
        i8_literal(value) matches Some(v) ==> apply_option(a, "-multi"@, value, number) == Ok::<ArgsView, Seq<char>>(
            ArgsView { multi: v, ..a },
        ),
        bool_literal(value) matches Some(v) ==> apply_option(a, "-fp16"@, value, number) == Ok::<ArgsView, Seq<char>>(
            ArgsView { vfi_fp16: v, ..a },
        ),
        bool_literal(value) matches Some(v) ==> apply_option(a, "-union"@, value, number) == Ok::<ArgsView, Seq<char>>(
            ArgsView { union: v, ..a },
        ),
{
    flags_differ();
}

/// Whether a pair is accepted depends on the pair alone, not on what was read
/// before it.
pub proof fn acceptance_ignores_earlier_options(
    a: ArgsView,
    b: ArgsView,
    flag: Seq<char>,
    value: Seq<char>,
    number: Option<Fp32>,
)
    ensures
        apply_option(a, flag, value, number) is Ok <==> apply_option(b, flag, value, number) is Ok,
{
}

/// Two accepted pairs with different flags may be read in either order: the
/// options come out the same.
#[verifier::spinoff_prover]
#[verifier::rlimit(100)]
pub proof fn distinct_flags_commute(
    a: ArgsView,
    f1: Seq<char>,
    v1: Seq<char>,
    n1: Option<Fp32>,
    f2: Seq<char>,
    v2: Seq<char>,
    n2: Option<Fp32>,
)
    requires
        f1 != f2,
    ensures
        ({
            let first = apply_option(a, f1, v1, n1);
            first is Ok && apply_option(first->Ok_0, f2, v2, n2) is Ok
        }) ==> ({
            let swapped = apply_option(a, f2, v2, n2);
            &&& swapped is Ok
            &&& apply_option(swapped->Ok_0, f1, v1, n1) == apply_option(apply_option(a, f1, v1, n1)->Ok_0, f2, v2, n2)
        }),
{
    let r1 = apply_option(a, f1, v1, n1);
    if r1 is Ok && apply_option(r1->Ok_0, f2, v2, n2) is Ok {
        let b = r1->Ok_0;
        let c = apply_option(b, f2, v2, n2)->Ok_0;
        acceptance_ignores_earlier_options(a, b, f2, v2, n2);
        let b2 = apply_option(a, f2, v2, n2)->Ok_0;
        acceptance_ignores_earlier_options(a, b2, f1, v1, n1);
        let c2 = apply_option(b2, f1, v1, n1)->Ok_0;
        flags_differ();
        if f1 == "-codec-arg"@ {
            assert(c2.codec_args =~= c.codec_args);
            assert(c2 == c);
        } else if f2 == "-codec-arg"@ {
            assert(c2.codec_args =~= c.codec_args);
            assert(c2 == c);
        } else if f1 == "-i"@ || f1 == "-o"@ || f1 == "-vmodel"@ || f1 == "-codec"@ {
            assert(c2 == c);
        } else if f1 == "-type"@ || f1 == "-multi"@ {
            assert(c2 == c);
        } else if f1 == "-fps"@ || f1 == "-scale"@ {
            assert(c2 == c);
        } else {
            assert(c2 == c);
        }
        assert(apply_option(b2, f1, v1, n1) == Ok::<ArgsView, Seq<char>>(c));
    }
}

/// The options after reading the pairs of `args` from index `i` on.
pub open spec fn parse_pairs(a: ArgsView, args: Seq<Seq<char>>, reals: Seq<Option<Fp32>>, i: int) -> Result<ArgsView, Seq<char>>
    decreases args.len() - i,
{
    if i >= args.len() {
        Ok(a)
    } else if i + 1 >= args.len() {
        Err("Missing value for argument: "@ + args[i])
    } else {
        match apply_option(a, args[i], args[i + 1], reals[i + 1]) {
            Ok(b) => parse_pairs(b, args, reals, i + 2),
            Err(e) => Err(e),
        }
    }
}

/// The outcome of parsing a command line whose first element is the program
/// name: the pairs are read in order, the first failure is reported, and an
/// input file, an output file, a model and a positive frame rate are owed.
/// `reals[k]` is `args[k]` read as a floating-point number.
pub open spec fn parse_args_spec(args: Seq<Seq<char>>, reals: Seq<Option<Fp32>>) -> Result<ArgsView, Seq<char>> {
    if args.len() <= 1 {
        Err("No arguments provided."@)
    } else {
        match parse_pairs(default_args(), args, reals, 1) {
            Err(e) => Err(e),
            Ok(p) => if p.input_file.len() == 0 {
                Err("no input file provided."@)
            } else if p.output_file.len() == 0 {
                Err("no output folder provided."@)
            } else if p.vfi_model.len() == 0 {
                Err("no VFI model type provided."@)
            } else if p.fps.at_most_zero() {
                Err("no valid fps provided."@)
            } else {
                Ok(p)
            },
        }
    }
}

/// A command line is accepted only with an input file, an output file, a
/// model, and a frame rate that is greater than zero (a NaN frame rate is
/// not at most zero, so it passes, as the comparison `fps <= 0.0` lets it).
pub proof fn accepted_arguments_are_complete(args: Seq<Seq<char>>, reals: Seq<Option<Fp32>>)
    ensures
        parse_args_spec(args, reals) matches Ok(p) ==> {
            &&& p.input_file.len() > 0
            &&& p.output_file.len() > 0
            &&& p.vfi_model.len() > 0
            &&& !p.fps.at_most_zero()
        },
{
}

/// No flag position from `i` on (that is, `i`, `i + 2`, ...) holds `flag`.
pub open spec fn flag_absent(args: Seq<Seq<char>>, i: int, flag: Seq<char>) -> bool {
    forall|k: int| i <= k < args.len() && (k - i) % 2 == 0 ==> args[k] != flag
}

/// Reading the pairs from `i` on leaves every option whose flag they do not
/// name as it was.
pub proof fn unnamed_options_are_kept(a: ArgsView, args: Seq<Seq<char>>, reals: Seq<Option<Fp32>>, i: int)
    ensures
        parse_pairs(a, args, reals, i) matches Ok(p) ==> {
            &&& flag_absent(args, i, "-i"@) ==> p.input_file == a.input_file
            &&& flag_absent(args, i, "-o"@) ==> p.output_file == a.output_file
            &&& flag_absent(args, i, "-vmodel"@) ==> p.vfi_model == a.vfi_model
            &&& flag_absent(args, i, "-type"@) ==> p.processing_type == a.processing_type
            &&& flag_absent(args, i, "-fps"@) ==> p.fps == a.fps
            &&& flag_absent(args, i, "-scale"@) ==> p.scale == a.scale
            &&& flag_absent(args, i, "-multi"@) ==> p.multi == a.multi
            &&& flag_absent(args, i, "-fp16"@) ==> p.vfi_fp16 == a.vfi_fp16
            &&& flag_absent(args, i, "-union"@) ==> p.union == a.union
            &&& flag_absent(args, i, "-codec"@) ==> p.codec == a.codec
            &&& flag_absent(args, i, "-codec-arg"@) ==> p.codec_args == a.codec_args
        },
    decreases args.len() - i,
{
    if i < args.len() && i + 1 < args.len() {
        match apply_option(a, args[i], args[i + 1], reals[i + 1]) {
            Ok(b) => {
                unnamed_options_are_kept(b, args, reals, i + 2);
                assert forall|flag: Seq<char>| flag_absent(args, i, flag) implies flag_absent(args, i + 2, flag) by {
                    assert forall|k: int| i + 2 <= k < args.len() && (k - (i + 2)) % 2 == 0 implies args[k] != flag by {
                        assert((k - i) % 2 == 0);
                    }
                }
                assert(forall|flag: Seq<char>| flag_absent(args, i, flag) ==> args[i] != flag);
            },
            Err(_) => {},
        }
    }
}

/// Options that an accepted command line does not name keep their defaults:
/// scale 1, multiplier 2, no half precision, no union, type 0, codec
/// `libx264` without arguments.
pub proof fn unnamed_options_keep_defaults(args: Seq<Seq<char>>, reals: Seq<Option<Fp32>>)
    ensures
        parse_args_spec(args, reals) matches Ok(p) ==> {
            &&& flag_absent(args, 1, "-scale"@) ==> p.scale == Fp32::one()
            &&& flag_absent(args, 1, "-multi"@) ==> p.multi == 2
            &&& flag_absent(args, 1, "-fp16"@) ==> !p.vfi_fp16
            &&& flag_absent(args, 1, "-union"@) ==> !p.union
            &&& flag_absent(args, 1, "-type"@) ==> p.processing_type == 0
            &&& flag_absent(args, 1, "-codec"@) ==> p.codec == "libx264"@
            &&& flag_absent(args, 1, "-codec-arg"@) ==> p.codec_args == Seq::<Seq<char>>::empty()
        },
{
    unnamed_options_are_kept(default_args(), args, reals, 1);
}

impl ParsedArgs {
    /// The options before any argument is read.
    pub fn default_args() -> (r: ParsedArgs)
        ensures
            r@ == default_args(),
    {
        let r = ParsedArgs {
            input_file: String::new(),
            output_file: String::new(),
            vfi_model: String::new(),
            processing_type: 0,
            fps: Fp32::new_zero(),
            scale: Fp32::new_one(),
            multi: 2,
            vfi_fp16: false,
            union: false,
            codec: String::from_str("libx264"),
            codec_args: Vec::new(),
        };
        assert(texts(r.codec_args@) =~= Seq::<Seq<char>>::empty());
        r
    }
}

impl Default for ParsedArgs {
    fn default() -> (r: ParsedArgs)
        ensures
            r@ == default_args(),
    {
        ParsedArgs::default_args()
    }
}


fn apply_option_exec(a: &mut ParsedArgs, flag: &str, value: &str, number: Option<Fp32>) -> (r: Result<(), String>)
    ensures
        match r {
            Ok(_) => apply_option(old(a)@, flag@, value@, number) == Ok::<ArgsView, Seq<char>>(final(a)@),
            Err(e) => apply_option(old(a)@, flag@, value@, number) == Err::<ArgsView, Seq<char>>(e@),
        },
{
    if text_eq(flag, "-i") {
        a.input_file = String::from_str(value);
    } else if text_eq(flag, "-o") {
        a.output_file = String::from_str(value);
    } else if text_eq(flag, "-vmodel") {
        a.vfi_model = String::from_str(value);
    } else if text_eq(flag, "-type") {
        match parse_i8(value) {
            Ok(v) => a.processing_type = v,
            Err(e) => return Err(e),
        }
    } else if text_eq(flag, "-fps") {
        match number {
            Some(v) => a.fps = v,
            None => return Err(String::from_str("failed to parse fps argument")),
        }
    } else if text_eq(flag, "-scale") {
        match number {
            Some(v) => a.scale = v,
            None => return Err(String::from_str("failed to parse scale argument")),
        }
    } else if text_eq(flag, "-multi") {
        match parse_i8(value) {
            Ok(v) => a.multi = v,
            Err(_) => return Err(String::from_str("Failed to parse multi argument")),
        }
    } else if text_eq(flag, "-fp16") {
        match parse_bool(value) {
            Some(v) => a.vfi_fp16 = v,
            None => return Err(String::from_str("Failed to parse fp16 argument")),
        }
    } else if text_eq(flag, "-union") {
        match parse_bool(value) {
            Some(v) => a.union = v,
            None => return Err(String::from_str("Failed to parse union argument")),
        }
    } else if text_eq(flag, "-codec") {
        a.codec = String::from_str(value);
    } else if text_eq(flag, "-codec-arg") {
        match split_once_char(value, '=') {
            Some((key, val)) => {
                push_text(&mut a.codec_args, String::from_str("-").concat(key.as_str()));
                push_text(&mut a.codec_args, val);
            },
            None => {
                push_text(&mut a.codec_args, String::from_str(value));
            },
        }
    } else {
        return Err(String::from_str("invalid argument: ").concat(flag));
    }
    Ok(())
}

/// Parses a command line whose first element is the program name.
/// `reals[k]` is `args[k]` read as a floating-point number, where it reads
/// as one; the caller reads them, since this library holds no floating-point
/// arithmetic.
pub fn parse_args(args: &[String], reals: &[Option<Fp32>]) -> (r: Result<ParsedArgs, String>)
    requires
        reals@.len() == args@.len(),
    ensures
        match r {
            Ok(p) => parse_args_spec(texts(args@), reals@) == Ok::<ArgsView, Seq<char>>(p@),
            Err(e) => parse_args_spec(texts(args@), reals@) == Err::<ArgsView, Seq<char>>(e@),
        },
{
    let ghost all = texts(args@);
    if args.len() <= 1 {
        return Err(String::from_str("No arguments provided."));
    }
    let mut parsed = ParsedArgs::default_args();
    let mut i: usize = 1;
    while i < args.len()
        invariant
            1 <= i,
            args@.len() == reals@.len(),
            all == texts(args@),
            parse_pairs(default_args(), all, reals@, 1) == parse_pairs(parsed@, all, reals@, i as int),
        decreases args.len() - i,
    {
        if i + 1 >= args.len() {
            return Err(String::from_str("Missing value for argument: ").concat(args[i].as_str()));
        }
        match apply_option_exec(&mut parsed, args[i].as_str(), args[i + 1].as_str(), reals[i + 1]) {
            Ok(_) => {},
            Err(e) => return Err(e),
        }
        i += 2;
    }
    if parsed.input_file.as_str().is_empty() {
        return Err(String::from_str("no input file provided."));
    }
    if parsed.output_file.as_str().is_empty() {
        return Err(String::from_str("no output folder provided."));
    }
    if parsed.vfi_model.as_str().is_empty() {
        return Err(String::from_str("no VFI model type provided."));
    }
    if parsed.fps.is_at_most_zero() {
        return Err(String::from_str("no valid fps provided."));
    }
    Ok(parsed)
}


/// The `-codec-arg` pairs that write back a list of codec arguments.
pub open spec fn codec_arg_pairs(c: Seq<Seq<char>>) -> Seq<Seq<char>>
    decreases c.len(),
{
    if c.len() == 0 {
        Seq::empty()
    } else {
        codec_arg_pairs(c.drop_last()) + seq!["-codec-arg"@, c.last()]
    }
}

/// The command line that hands the options on to a script: every option as
/// a pair, the codec only where it is set, then each codec argument.
/// `fps_text` and `scale_text` are the decimal texts of the two
/// floating-point options.
pub open spec fn arg_list(a: ArgsView, fps_text: Seq<char>, scale_text: Seq<char>) -> Seq<Seq<char>> {
    seq![
        "-i"@, a.input_file,
        "-o"@, a.output_file,
        "-vmodel"@, a.vfi_model,
        "-type"@, int_text(a.processing_type as int),
        "-fps"@, fps_text,
        "-scale"@, scale_text,
        "-multi"@, int_text(a.multi as int),
        "-fp16"@, bool_text(a.vfi_fp16),
        "-union"@, bool_text(a.union),
    ] + (if a.codec.len() > 0 { seq!["-codec"@, a.codec] } else { Seq::empty() })
        + codec_arg_pairs(a.codec_args)
}

impl ParsedArgs {
    /// Writes the options back as a command line for a script. The texts of
    /// the frame rate and the scale are given by the caller.
    pub fn to_args(&self, fps_text: &str, scale_text: &str) -> (r: Vec<String>)
        ensures
            texts(r@) == arg_list(self@, fps_text@, scale_text@),
    {
        let mut v: Vec<String> = Vec::new();
        push_text(&mut v, String::from_str("-i"));
        push_text(&mut v, self.input_file.clone());
        push_text(&mut v, String::from_str("-o"));
        push_text(&mut v, self.output_file.clone());
        push_text(&mut v, String::from_str("-vmodel"));
        push_text(&mut v, self.vfi_model.clone());
        push_text(&mut v, String::from_str("-type"));
        push_text(&mut v, i8_to_text(self.processing_type));
        push_text(&mut v, String::from_str("-fps"));
        push_text(&mut v, String::from_str(fps_text));
        push_text(&mut v, String::from_str("-scale"));
        push_text(&mut v, String::from_str(scale_text));
        push_text(&mut v, String::from_str("-multi"));
        push_text(&mut v, i8_to_text(self.multi));
        push_text(&mut v, String::from_str("-fp16"));
        push_text(&mut v, bool_to_text(self.vfi_fp16));
        push_text(&mut v, String::from_str("-union"));
        push_text(&mut v, bool_to_text(self.union));
        let ghost head = texts(v@);
        if !self.codec.as_str().is_empty() {
            push_text(&mut v, String::from_str("-codec"));
            push_text(&mut v, self.codec.clone());
        }
        let ghost with_codec = texts(v@);
        let ghost all = texts(self.codec_args@);
        let mut k: usize = 0;
        while k < self.codec_args.len()
            invariant
                k <= self.codec_args@.len(),
                all == texts(self.codec_args@),
                texts(v@) == with_codec + codec_arg_pairs(all.subrange(0, k as int)),
            decreases self.codec_args@.len() - k,
        {
            push_text(&mut v, String::from_str("-codec-arg"));
            push_text(&mut v, self.codec_args[k].clone());
            proof {
                let pre = all.subrange(0, k as int);
                let post = all.subrange(0, k + 1);
                assert(post.drop_last() =~= pre);
                assert(with_codec + codec_arg_pairs(post) =~= with_codec + codec_arg_pairs(pre) + seq!["-codec-arg"@, all[k as int]]);
            }
            k += 1;
        }
        proof {
            assert(all.subrange(0, all.len() as int) =~= all);
            assert(head =~= seq![
                "-i"@, self@.input_file,
                "-o"@, self@.output_file,
                "-vmodel"@, self@.vfi_model,
                "-type"@, int_text(self@.processing_type as int),
                "-fps"@, fps_text@,
                "-scale"@, scale_text@,
                "-multi"@, int_text(self@.multi as int),
                "-fp16"@, bool_text(self@.vfi_fp16),
                "-union"@, bool_text(self@.union),
            ]);
        }
        assert(texts(v@) =~= arg_list(self@, fps_text@, scale_text@));
        v
    }
}

/// `s` is the `-codec-arg` flag.
pub open spec fn is_codec_arg_flag(s: Seq<char>) -> bool {
    s == "-codec-arg"@
}

/// The pairs that write back codec arguments: a `-codec-arg` flag before
/// each argument, in order.
pub proof fn codec_arg_pairs_shape(c: Seq<Seq<char>>)
    ensures
        codec_arg_pairs(c).len() == 2 * c.len(),
        forall|i: int|
            #![trigger codec_arg_pairs(c)[i]]
            0 <= i < 2 * c.len() && i % 2 == 0 ==> is_codec_arg_flag(codec_arg_pairs(c)[i]),
        forall|k: int| #![trigger c[k]] 0 <= k < c.len() ==> codec_arg_pairs(c)[2 * k + 1] == c[k],
    decreases c.len(),
{
    if c.len() > 0 {
        let d = c.drop_last();
        codec_arg_pairs_shape(d);
        let cd = codec_arg_pairs(d);
        let pair = seq!["-codec-arg"@, c.last()];
        assert(codec_arg_pairs(c) == cd + pair);
        assert forall|i: int|
            #![trigger codec_arg_pairs(c)[i]]
            0 <= i < 2 * c.len() && i % 2 == 0 implies is_codec_arg_flag(codec_arg_pairs(c)[i]) by {
            if i < cd.len() {
                assert((cd + pair)[i] == cd[i]);
            } else {
                assert((cd + pair)[i] == pair[0]);
            }
        }
        assert forall|k: int| #![trigger c[k]] 0 <= k < c.len() implies codec_arg_pairs(c)[2 * k + 1] == c[k] by {
            if k < d.len() {
                assert(c[k] == d[k]);
                assert((cd + pair)[2 * k + 1] == cd[2 * k + 1]);
            } else {
                assert((cd + pair)[2 * k + 1] == pair[1]);
            }
        }
    }
}

/// The flags differ from one another.
proof fn flags_differ()
    ensures
        "-o"@ != "-i"@,
        "-vmodel"@ != "-i"@ && "-vmodel"@ != "-o"@,
        "-type"@ != "-i"@ && "-type"@ != "-o"@ && "-type"@ != "-vmodel"@,
        "-fps"@ != "-i"@ && "-fps"@ != "-o"@ && "-fps"@ != "-vmodel"@ && "-fps"@ != "-type"@,
        "-scale"@ != "-i"@ && "-scale"@ != "-o"@ && "-scale"@ != "-vmodel"@ && "-scale"@ != "-type"@ && "-scale"@
            != "-fps"@,
        "-multi"@ != "-i"@ && "-multi"@ != "-o"@ && "-multi"@ != "-vmodel"@ && "-multi"@ != "-type"@ && "-multi"@
            != "-fps"@ && "-multi"@ != "-scale"@,
        "-fp16"@ != "-i"@ && "-fp16"@ != "-o"@ && "-fp16"@ != "-vmodel"@ && "-fp16"@ != "-type"@ && "-fp16"@
            != "-fps"@ && "-fp16"@ != "-scale"@ && "-fp16"@ != "-multi"@,
        "-union"@ != "-i"@ && "-union"@ != "-o"@ && "-union"@ != "-vmodel"@ && "-union"@ != "-type"@ && "-union"@
            != "-fps"@ && "-union"@ != "-scale"@ && "-union"@ != "-multi"@ && "-union"@ != "-fp16"@,
        "-codec"@ != "-i"@ && "-codec"@ != "-o"@ && "-codec"@ != "-vmodel"@ && "-codec"@ != "-type"@ && "-codec"@
            != "-fps"@ && "-codec"@ != "-scale"@ && "-codec"@ != "-multi"@ && "-codec"@ != "-fp16"@ && "-codec"@
            != "-union"@,
        "-codec-arg"@ != "-i"@ && "-codec-arg"@ != "-o"@ && "-codec-arg"@ != "-vmodel"@ && "-codec-arg"@ != "-type"@
            && "-codec-arg"@ != "-fps"@ && "-codec-arg"@ != "-scale"@ && "-codec-arg"@ != "-multi"@ && "-codec-arg"@
            != "-fp16"@ && "-codec-arg"@ != "-union"@ && "-codec-arg"@ != "-codec"@,
{
    reveal_strlit("-i");
    reveal_strlit("-o");
    reveal_strlit("-vmodel");
    reveal_strlit("-type");
    reveal_strlit("-fps");
    reveal_strlit("-scale");
    reveal_strlit("-multi");
    reveal_strlit("-fp16");
    reveal_strlit("-union");
    reveal_strlit("-codec");
    reveal_strlit("-codec-arg");
    assert("-i"@.len() == 2 && "-o"@.len() == 2 && "-vmodel"@.len() == 7 && "-type"@.len() == 5);
    assert("-fps"@.len() == 4 && "-scale"@.len() == 6 && "-multi"@.len() == 6 && "-fp16"@.len() == 5);
    assert("-union"@.len() == 6 && "-codec"@.len() == 6 && "-codec-arg"@.len() == 10);
    assert("-o"@[1] != "-i"@[1]);
    assert("-type"@[1] != "-fp16"@[1]);
    assert("-scale"@[1] != "-multi"@[1]);
    assert("-scale"@[1] != "-union"@[1]);
    assert("-scale"@[1] != "-codec"@[1]);
    assert("-multi"@[1] != "-union"@[1]);
    assert("-multi"@[1] != "-codec"@[1]);
    assert("-union"@[1] != "-codec"@[1]);
}

/// Reading codec-argument pairs from `base + 2 * j` on appends the remaining
/// arguments, none of which holds a `=`.
proof fn codec_arg_pairs_read_back(
    a: ArgsView,
    args: Seq<Seq<char>>,
    reals: Seq<Option<Fp32>>,
    base: int,
    c: Seq<Seq<char>>,
    j: int,
)
    requires
        0 <= j <= c.len(),
        0 <= base <= args.len(),
        args.subrange(base, args.len() as int) == codec_arg_pairs(c),
        forall|k: int| #![trigger c[k]] 0 <= k < c.len() ==> split_once_spec(c[k], '=') is None,
    ensures
        parse_pairs(ArgsView { codec_args: a.codec_args + c.take(j), ..a }, args, reals, base + 2 * j) == Ok::<
            ArgsView,
            Seq<char>,
        >(ArgsView { codec_args: a.codec_args + c, ..a }),
    decreases c.len() - j,
{
    codec_arg_pairs_shape(c);
    let aj = ArgsView { codec_args: a.codec_args + c.take(j), ..a };
    let tail = args.subrange(base, args.len() as int);
    if j == c.len() {
        assert(c.take(j) =~= c);
        assert(tail.len() == 2 * c.len());
    } else {
        flags_differ();
        let cj = c[j];
        assert(is_codec_arg_flag(codec_arg_pairs(c)[2 * j]) && tail[2 * j + 1] == cj);
        assert(args[base + 2 * j] == tail[2 * j]);
        assert(args[base + 2 * j + 1] == tail[2 * j + 1]);
        let next = ArgsView { codec_args: a.codec_args + c.take(j + 1), ..a };
        assert(aj.codec_args.push(cj) =~= next.codec_args);
        assert(apply_option(aj, args[base + 2 * j], args[base + 2 * j + 1], reals[base + 2 * j + 1]) == Ok::<
            ArgsView,
            Seq<char>,
        >(next));
        codec_arg_pairs_read_back(a, args, reals, base, c, j + 1);
    }
}

/// What `to_args` writes, after a program name, `parse_args` reads back:
/// provided the input file, output file, model and codec are set, the frame
/// rate is greater than zero, no codec argument holds a `=`, and the two
/// floating-point texts read back as the frame rate and the scale.
#[verifier::rlimit(60)]
pub proof fn written_arguments_read_back(
    prog: Seq<char>,
    p: ArgsView,
    fps_text: Seq<char>,
    scale_text: Seq<char>,
    reals: Seq<Option<Fp32>>,
)
    requires
        p.input_file.len() > 0,
        p.output_file.len() > 0,
        p.vfi_model.len() > 0,
        p.codec.len() > 0,
        !p.fps.at_most_zero(),
        forall|k: int| 0 <= k < p.codec_args.len() ==> split_once_spec(#[trigger] p.codec_args[k], '=') is None,
        reals.len() == 1 + arg_list(p, fps_text, scale_text).len(),
        reals[10] == Some(p.fps),
        reals[12] == Some(p.scale),
    ensures
        parse_args_spec(seq![prog] + arg_list(p, fps_text, scale_text), reals) == Ok::<ArgsView, Seq<char>>(p),
{
    let c = p.codec_args;
    let args = seq![prog] + arg_list(p, fps_text, scale_text);
    codec_arg_pairs_shape(c);
    flags_differ();
    i8_text_reads_back(p.processing_type);
    i8_text_reads_back(p.multi);
    bool_text_reads_back(p.vfi_fp16);
    bool_text_reads_back(p.union);
    let head = seq![
        prog,
        "-i"@, p.input_file,
        "-o"@, p.output_file,
        "-vmodel"@, p.vfi_model,
        "-type"@, int_text(p.processing_type as int),
        "-fps"@, fps_text,
        "-scale"@, scale_text,
        "-multi"@, int_text(p.multi as int),
        "-fp16"@, bool_text(p.vfi_fp16),
        "-union"@, bool_text(p.union),
        "-codec"@, p.codec,
    ];
    assert(args =~= head + codec_arg_pairs(c));
    assert(args.len() == 21 + 2 * c.len());
    assert(args.subrange(21, args.len() as int) =~= codec_arg_pairs(c));
    assert forall|k: int| #![trigger c[k]] 0 <= k < c.len() implies split_once_spec(c[k], '=') is None by {
        assert(split_once_spec(p.codec_args[k], '=') is None);
    }
    let s0 = default_args();
    let s1 = ArgsView { input_file: p.input_file, ..s0 };
    let s2 = ArgsView { output_file: p.output_file, ..s1 };
    let s3 = ArgsView { vfi_model: p.vfi_model, ..s2 };
    let s4 = ArgsView { processing_type: p.processing_type, ..s3 };
    let s5 = ArgsView { fps: p.fps, ..s4 };
    let s6 = ArgsView { scale: p.scale, ..s5 };
    let s7 = ArgsView { multi: p.multi, ..s6 };
    let s8 = ArgsView { vfi_fp16: p.vfi_fp16, ..s7 };
    let s9 = ArgsView { union: p.union, ..s8 };
    let s10 = ArgsView { codec: p.codec, ..s9 };
    assert(parse_pairs(s0, args, reals, 1) == parse_pairs(s1, args, reals, 3));
    assert(parse_pairs(s1, args, reals, 3) == parse_pairs(s2, args, reals, 5));
    assert(parse_pairs(s2, args, reals, 5) == parse_pairs(s3, args, reals, 7));
    assert(parse_pairs(s3, args, reals, 7) == parse_pairs(s4, args, reals, 9));
    assert(parse_pairs(s4, args, reals, 9) == parse_pairs(s5, args, reals, 11));
    assert(parse_pairs(s5, args, reals, 11) == parse_pairs(s6, args, reals, 13));
    assert(parse_pairs(s6, args, reals, 13) == parse_pairs(s7, args, reals, 15));
    assert(parse_pairs(s7, args, reals, 15) == parse_pairs(s8, args, reals, 17));
    assert(parse_pairs(s8, args, reals, 17) == parse_pairs(s9, args, reals, 19));
    assert(parse_pairs(s9, args, reals, 19) == parse_pairs(s10, args, reals, 21));
    assert(c.take(0) =~= Seq::<Seq<char>>::empty());
    assert(s10.codec_args + c.take(0) =~= s10.codec_args);
    codec_arg_pairs_read_back(s10, args, reals, 21, c, 0);
    assert(s10.codec_args + c =~= c);
    assert(ArgsView { codec_args: s10.codec_args + c, ..s10 } == p);
}

/// A path names a video where it ends in `.mp4`, `.mkv` or `.mov`.
pub open spec fn is_video_path(dir: Seq<char>) -> bool {
    ends_with(dir, ".mp4"@) || ends_with(dir, ".mkv"@) || ends_with(dir, ".mov"@)
}

/// `"video"` for a path that names a video file, `"images"` otherwise.
pub fn validate_media_type(dir: &str) -> (r: &'static str)
    ensures
        r@ == (if is_video_path(dir@) { "video"@ } else { "images"@ }),
{
    if has_suffix(dir, ".mp4") || has_suffix(dir, ".mkv") || has_suffix(dir, ".mov") {
        "video"
    } else {
        "images"
    }
}


/// The stages and the starting context of a run. Type 0 only encodes, at the
/// given frame rate; type 1 interpolates with the chosen model, scale, union
/// and precision, multiplying the given frame rate, then encodes. Any other
/// type configures nothing.
pub open spec fn run_setup(a: ArgsView) -> Option<(Seq<Stage>, ContextView)> {
    let base = initial_context(Seq::empty());
    if a.processing_type == 0 {
        Some(
            (
                enabled_stages(false, true),
                ContextView {
                    encoding: true,
                    codec: a.codec,
                    codec_args: a.codec_args,
                    new_fps: a.fps,
                    ..base
                },
            ),
        )
    } else if a.processing_type == 1 {
        Some(
            (
                enabled_stages(true, true),
                ContextView {
                    vfi_model: a.vfi_model,
                    scale: a.scale,
                    union: a.union,
                    fp16: a.vfi_fp16,
                    encoding: true,
                    codec: a.codec,
                    codec_args: a.codec_args,
                    original_fps: a.fps,
                    multiply: a.multi,
                    ..base
                },
            ),
        )
    } else {
        None
    }
}

/// A configured run carries the parsed options. Only processing types 0
/// and 1 configure a run; every run ends with the encoding stage and encodes
/// with the parsed codec and codec arguments, starting from no frames and no
/// output path. Type 0 only encodes, at the parsed frame rate; type 1 first
/// interpolates with the parsed model, scale, union mode, precision and
/// multiplier, from the parsed frame rate.
pub proof fn configured_run_carries_the_options(a: ArgsView)
    ensures
        run_setup(a) is Some <==> (a.processing_type == 0 || a.processing_type == 1),
        run_setup(a) matches Some((stages, c)) ==> {
            &&& c.codec == a.codec
            &&& c.codec_args == a.codec_args
            &&& c.encoding
            &&& stages.len() > 0 && stages.last() == Stage::Encode
            &&& c.current_path.len() == 0 && c.output_path.len() == 0
            &&& a.processing_type == 0 ==> stages == seq![Stage::Encode] && c.new_fps == a.fps
            &&& a.processing_type == 1 ==> {
                &&& stages == seq![Stage::Interpolate, Stage::Encode]
                &&& c.vfi_model == a.vfi_model
                &&& c.scale == a.scale
                &&& c.union == a.union
                &&& c.fp16 == a.vfi_fp16
                &&& c.multiply == a.multi
                &&& c.original_fps == a.fps
            }
        },
{
    assert(enabled_stages(false, true) =~= seq![Stage::Encode]);
    assert(enabled_stages(true, true) =~= seq![Stage::Interpolate, Stage::Encode]);
}

/// Configures the pipeline and the starting context for the parsed options;
/// `None` for an unknown processing type.
pub fn configure_run(parsed: ParsedArgs) -> (r: Option<(Pipeline, Context)>)
    ensures
        match r {
            Some((p, c)) => run_setup(parsed@) == Some((p.stages@, c@)),
            None => run_setup(parsed@) is None,
        },
{
    let ghost a = parsed@;
    let ParsedArgs { processing_type, codec, codec_args, vfi_model, fps, scale, multi, vfi_fp16, union, .. } = parsed;
    if processing_type == 0 {
        let (pipeline, context) = Builder::new()
            .with_encoding(true)
            .with_codec(codec.as_str())
            .with_codec_args(codec_args)
            .build();
        let context = context.with_new_fps(fps);
        Some((pipeline, context))
    } else if processing_type == 1 {
        let (pipeline, context) = Builder::new()
            .with_interpolation()
            .with_vfi_model(vfi_model.as_str())
            .with_scale(scale)
            .with_union(union)
            .with_fp16(vfi_fp16)
            .with_encoding(true)
            .with_codec(codec.as_str())
            .with_codec_args(codec_args)
            .build();
        let context = context.with_original_fps(fps).with_multiply(multi);
        Some((pipeline, context))
    } else {
        None
    }
}

/// Where the frames of the input come from.
pub enum FramesSource {
    /// The input is a directory of images; the context already points there.
    Images,
    /// The input is a video whose frames are to be extracted as planned
    /// (`None` where the path has no parent or no file name).
    Video(Option<Extraction>),
    /// The media type is neither.
    Unknown,
}

/// Points the context at the input's frames: for `"images"` the input itself
/// becomes the current path; for `"video"` the context is left as it is and
/// the extraction of the frames is planned; any other media type changes
/// nothing.
pub fn to_images_path(media_type: &str, context: &mut Context, input_file: &str) -> (r: FramesSource)
    ensures
        media_type@ == "video"@ ==> final(context)@ == old(context)@ && (r matches FramesSource::Video(e)
            && extraction_view(e) == extraction_plan(input_file@)),
        media_type@ != "video"@ && media_type@ == "images"@ ==> final(context)@ == (ContextView {
            current_path: input_file@,
            ..old(context)@
        }) && r is Images,
        media_type@ != "video"@ && media_type@ != "images"@ ==> final(context)@ == old(context)@ && r is Unknown,
{
    if text_eq(media_type, "video") {
        FramesSource::Video(extract_video_to_images_command(input_file))
    } else if text_eq(media_type, "images") {
        context.current_path = String::from_str(input_file);
        FramesSource::Images
    } else {
        FramesSource::Unknown
    }
}

/// Once the frames of a video are extracted as planned, they become the
/// current frames of the context.
pub fn complete_extraction(context: &mut Context, extraction: &Extraction)
    ensures
        final(context)@ == (ContextView { current_path: extraction.frames_dir@, ..old(context)@ }),
{
    context.current_path = extraction.frames_dir.clone();
}

} // verus!
