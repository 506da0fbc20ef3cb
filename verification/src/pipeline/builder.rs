//! Configuration of a pipeline and of its starting context.

use vstd::prelude::*;
use vstd::string::*;

use super::context::{initial_context, texts, Context, ContextView};
use super::stage::Stage;
use super::Pipeline;
use crate::fp::Fp32;

verus! {

/// Collects which stages to run and the parameters of the context.
pub struct Builder {
    is_encoding: bool,
    is_interpolating: bool,
    context_builder: Context,
}

/// The mathematical content of a `Builder`.
pub struct BuilderView {
    pub encoding_stage: bool,
    pub interpolation_stage: bool,
    pub context: ContextView,
}

impl View for Builder {
    type V = BuilderView;

    closed spec fn view(&self) -> BuilderView {
        BuilderView {
            encoding_stage: self.is_encoding,
            interpolation_stage: self.is_interpolating,
            context: self.context_builder@,
        }
    }
}

/// The stages of a pipeline with the given stages enabled: interpolation
/// first, then encoding.
pub open spec fn enabled_stages(interpolation: bool, encoding: bool) -> Seq<Stage> {
    (if interpolation { seq![Stage::Interpolate] } else { Seq::empty() }) + (if encoding {
        seq![Stage::Encode]
    } else {
        Seq::empty()
    })
}

/// Whatever stages a builder enables, interpolation comes before encoding:
/// the pipeline holds one stage per enabled kind, an interpolation stage
/// never follows an encoding stage, and with both enabled the pipeline is
/// interpolation then encoding.
pub proof fn interpolation_runs_before_encoding(interpolation: bool, encoding: bool)
    ensures
        enabled_stages(interpolation, encoding).len() == (if interpolation { 1int } else { 0 }) + (if encoding {
            1int
        } else {
            0
        }),
        forall|i: int, j: int|
            0 <= i < j < enabled_stages(interpolation, encoding).len() ==> enabled_stages(interpolation, encoding)[i]
                == Stage::Interpolate && enabled_stages(interpolation, encoding)[j] == Stage::Encode,
        interpolation && encoding ==> enabled_stages(interpolation, encoding) == seq![
            Stage::Interpolate,
            Stage::Encode,
        ],
{
    assert(interpolation && encoding ==> enabled_stages(interpolation, encoding) =~= seq![
        Stage::Interpolate,
        Stage::Encode,
    ]);
}

impl Builder {
    /// No stage, and a fresh context with an empty path.
    pub fn new() -> (r: Self)
        ensures
            r@ == (BuilderView {
                encoding_stage: false,
                interpolation_stage: false,
                context: initial_context(Seq::empty()),
            }),
    {
        proof {
            reveal_strlit("");
            assert(""@ =~= Seq::<char>::empty());
        }
        let context_builder = Context::new("");
        Builder { is_encoding: false, is_interpolating: false, context_builder }
    }

    /// Adds the interpolation stage.
    pub fn with_interpolation(self) -> (r: Self)
        ensures
            r@ == (BuilderView { interpolation_stage: true, ..self@ }),
    {
        let mut s = self;
        s.is_interpolating = true;
        s
    }

    /// Sets the interpolation model of the context.
    pub fn with_vfi_model(self, vfi_model: &str) -> (r: Self)
        ensures
            r@ == (BuilderView {
                context: ContextView { vfi_model: vfi_model@, ..self@.context },
                ..self@
            }),
    {
        let Builder { is_encoding, is_interpolating, context_builder } = self;
        Builder { is_encoding, is_interpolating, context_builder: context_builder.with_vfi_model(vfi_model) }
    }

    /// Sets the interpolation scale of the context.
    pub fn with_scale(self, scale: Fp32) -> (r: Self)
        ensures
            r@ == (BuilderView { context: ContextView { scale: scale, ..self@.context }, ..self@ }),
    {
        let Builder { is_encoding, is_interpolating, context_builder } = self;
        Builder { is_encoding, is_interpolating, context_builder: context_builder.with_scale(scale) }
    }

    /// Sets the union mode of the context.
    pub fn with_union(self, union: bool) -> (r: Self)
        ensures
            r@ == (BuilderView { context: ContextView { union: union, ..self@.context }, ..self@ }),
    {
        let Builder { is_encoding, is_interpolating, context_builder } = self;
        Builder { is_encoding, is_interpolating, context_builder: context_builder.with_union(union) }
    }

    /// Sets half-precision interpolation in the context.
    pub fn with_fp16(self, fp16: bool) -> (r: Self)
        ensures
            r@ == (BuilderView { context: ContextView { fp16: fp16, ..self@.context }, ..self@ }),
    {
        let Builder { is_encoding, is_interpolating, context_builder } = self;
        Builder { is_encoding, is_interpolating, context_builder: context_builder.with_fp16(fp16) }
    }

    /// Enables or disables the encoding stage, and records the choice in the
    /// context.
    pub fn with_encoding(self, encode: bool) -> (r: Self)
        ensures
            r@ == (BuilderView {
                encoding_stage: encode,
                context: ContextView { encoding: encode, ..self@.context },
                ..self@
            }),
    {
        let Builder { is_encoding: _, is_interpolating, context_builder } = self;
        Builder { is_encoding: encode, is_interpolating, context_builder: context_builder.with_encoding(encode) }
    }

    /// Sets the video codec of the context.
    pub fn with_codec(self, codec: &str) -> (r: Self)
        ensures
            r@ == (BuilderView { context: ContextView { codec: codec@, ..self@.context }, ..self@ }),
    {
        let Builder { is_encoding, is_interpolating, context_builder } = self;
        Builder { is_encoding, is_interpolating, context_builder: context_builder.with_codec(codec) }
    }

    /// Sets the extra codec arguments of the context.
    pub fn with_codec_args(self, args: Vec<String>) -> (r: Self)
        ensures
            r@ == (BuilderView {
                context: ContextView { codec_args: texts(args@), ..self@.context },
                ..self@
            }),
    {
        let Builder { is_encoding, is_interpolating, context_builder } = self;
        Builder { is_encoding, is_interpolating, context_builder: context_builder.with_codec_args(args) }
    }

    /// The pipeline of the enabled stages, interpolation before encoding, and
    /// the configured context.
    pub fn build(self) -> (r: (Pipeline, Context))
        ensures
            r.0.stages@ == enabled_stages(self@.interpolation_stage, self@.encoding_stage),
            r.1@ == self@.context,
    {
        let mut stages: Vec<Stage> = Vec::new();
        if self.is_interpolating {
            stages.push(Stage::Interpolate);
        }
        if self.is_encoding {
            stages.push(Stage::Encode);
        }
        assert(stages@ =~= enabled_stages(self@.interpolation_stage, self@.encoding_stage));
        (Pipeline::new(stages), self.context_builder)
    }
}

impl Default for Builder {
    fn default() -> (r: Self)
        ensures
            r@ == (BuilderView {
                encoding_stage: false,
                interpolation_stage: false,
                context: initial_context(Seq::empty()),
            }),
    {
        Builder::new()
    }
}

} // verus!
