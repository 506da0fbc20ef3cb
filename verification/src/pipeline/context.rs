//! The state that the pipeline's stages read and update.

use vstd::prelude::*;
use vstd::string::*;

use crate::fp::Fp32;

verus! {

/// The text of each string in a vector.
pub open spec fn texts(v: Seq<String>) -> Seq<Seq<char>> {
    v.map_values(|s: String| s@)
}

/// Appends `s` to `v`.
pub(crate) fn push_text(v: &mut Vec<String>, s: String)
    ensures
        texts(final(v)@) == texts(old(v)@).push(s@),
{
    v.push(s);
    assert(texts(v@) =~= texts(old(v)@).push(s@));
}

/// The execution context of a pipeline: where the frames currently are, where
/// the result goes, and the parameters of interpolation and encoding.
#[derive(Debug)]
pub struct Context {
    pub current_path: String,
    pub output_path: String,
    pub original_fps: Fp32,
    pub new_fps: Fp32,
    pub multiply: i8,
    pub scale: Fp32,
    pub vfi_model: String,
    pub vfi_model_type: String,
    pub union: bool,
    pub fp16: bool,
    pub encoding: bool,
    pub codec: String,
    pub codec_args: Vec<String>,
}

/// The mathematical content of a `Context`.
pub struct ContextView {
    pub current_path: Seq<char>,
    pub output_path: Seq<char>,
    pub original_fps: Fp32,
    pub new_fps: Fp32,
    pub multiply: i8,
    pub scale: Fp32,
    pub vfi_model: Seq<char>,
    pub vfi_model_type: Seq<char>,
    pub union: bool,
    pub fp16: bool,
    pub encoding: bool,
    pub codec: Seq<char>,
    pub codec_args: Seq<Seq<char>>,
}

impl View for Context {
    type V = ContextView;

    open spec fn view(&self) -> ContextView {
        ContextView {
            current_path: self.current_path@,
            output_path: self.output_path@,
            original_fps: self.original_fps,
            new_fps: self.new_fps,
            multiply: self.multiply,
            scale: self.scale,
            vfi_model: self.vfi_model@,
            vfi_model_type: self.vfi_model_type@,
            union: self.union,
            fp16: self.fp16,
            encoding: self.encoding,
            codec: self.codec@,
            codec_args: texts(self.codec_args@),
        }
    }
}

/// A fresh context for frames at `current_path`: no output path, both frame
/// rates zero, multiplier one, scale one, no model, no flags, codec
/// `libx264` without arguments.
pub open spec fn initial_context(current_path: Seq<char>) -> ContextView {
    ContextView {
        current_path: current_path,
        output_path: Seq::empty(),
        original_fps: Fp32::zero(),
        new_fps: Fp32::zero(),
        multiply: 1,
        scale: Fp32::one(),
        vfi_model: Seq::empty(),
        vfi_model_type: Seq::empty(),
        union: false,
        fp16: false,
        encoding: false,
        codec: "libx264"@,
        codec_args: Seq::empty(),
    }
}

impl Context {
    /// A fresh context for the frames at `current_path`.
    pub fn new(current_path: &str) -> (r: Self)
        ensures
            r@ == initial_context(current_path@),
    {
        let r = Context {
            current_path: String::from_str(current_path),
            output_path: String::new(),
            original_fps: Fp32::new_zero(),
            new_fps: Fp32::new_zero(),
            multiply: 1,
            scale: Fp32::new_one(),
            vfi_model: String::new(),
            vfi_model_type: String::new(),
            union: false,
            fp16: false,
            encoding: false,
            codec: String::from_str("libx264"),
            codec_args: Vec::new(),
        };
        assert(texts(r.codec_args@) =~= Seq::<Seq<char>>::empty());
        r
    }

    /// Sets the path of the final output.
    pub fn with_output_path(self, output_p: String) -> (r: Self)
        ensures
            r@ == (ContextView { output_path: output_p@, ..self@ }),
    {
        let mut s = self;
        s.output_path = output_p;
        s
    }

    /// Sets the frame rate of the source.
    pub fn with_original_fps(self, fps: Fp32) -> (r: Self)
        ensures
            r@ == (ContextView { original_fps: fps, ..self@ }),
    {
        let mut s = self;
        s.original_fps = fps;
        s
    }

    /// Sets the interpolation model.
    pub fn with_vfi_model(self, vfi_model: &str) -> (r: Self)
        ensures
            r@ == (ContextView { vfi_model: vfi_model@, ..self@ }),
    {
        let mut s = self;
        s.vfi_model = String::from_str(vfi_model);
        s
    }

    /// Sets the frame rate of the result.
    pub fn with_new_fps(self, fps: Fp32) -> (r: Self)
        ensures
            r@ == (ContextView { new_fps: fps, ..self@ }),
    {
        let mut s = self;
        s.new_fps = fps;
        s
    }

    /// Sets the frame-rate multiplier of interpolation.
    pub fn with_multiply(self, factor: i8) -> (r: Self)
        ensures
            r@ == (ContextView { multiply: factor, ..self@ }),
    {
        let mut s = self;
        s.multiply = factor;
        s
    }

    /// Sets the scale of interpolation.
    pub fn with_scale(self, scale: Fp32) -> (r: Self)
        ensures
            r@ == (ContextView { scale: scale, ..self@ }),
    {
        let mut s = self;
        s.scale = scale;
        s
    }

    /// Sets the union mode of interpolation.
    pub fn with_union(self, union: bool) -> (r: Self)
        ensures
            r@ == (ContextView { union: union, ..self@ }),
    {
        let mut s = self;
        s.union = union;
        s
    }

    /// Sets half-precision interpolation.
    pub fn with_fp16(self, fp16: bool) -> (r: Self)
        ensures
            r@ == (ContextView { fp16: fp16, ..self@ }),
    {
        let mut s = self;
        s.fp16 = fp16;
        s
    }

    /// Sets whether the result is encoded.
    pub fn with_encoding(self, encoding: bool) -> (r: Self)
        ensures
            r@ == (ContextView { encoding: encoding, ..self@ }),
    {
        let mut s = self;
        s.encoding = encoding;
        s
    }

    /// Sets the video codec.
    pub fn with_codec(self, codec: &str) -> (r: Self)
        ensures
            r@ == (ContextView { codec: codec@, ..self@ }),
    {
        let mut s = self;
        s.codec = String::from_str(codec);
        s
    }

    /// Sets the extra codec arguments.
    pub fn with_codec_args(self, args: Vec<String>) -> (r: Self)
        ensures
            r@ == (ContextView { codec_args: texts(args@), ..self@ }),
    {
        let mut s = self;
        s.codec_args = args;
        s
    }
}

} // verus!
