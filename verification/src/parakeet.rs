//! Parameters and state of the Parakeet speech engine.

use vstd::prelude::*;
use vstd::string::*;

verus! {

/// Timestamp granularity of Parakeet results.
#[derive(Debug, Clone, Copy, PartialEq, Eq, Structural)]
pub enum TimestampGranularity {
    Token,
    Word,
    Segment,
}

/// Weight precision of a Parakeet model.
#[derive(Debug, Clone, Copy, PartialEq, Eq, Structural)]
pub enum QuantizationType {
    FP32,
    Int8,
}

/// How a Parakeet model is loaded.
#[derive(Debug, Clone, Copy, PartialEq, Eq, Structural)]
pub struct ParakeetModelParams {
    pub quantization: QuantizationType,
}

impl ParakeetModelParams {
    /// Full-precision weights.
    pub fn fp32() -> (res: ParakeetModelParams)
        ensures
            res.quantization == QuantizationType::FP32,
    {
        ParakeetModelParams { quantization: QuantizationType::FP32 }
    }

    /// 8-bit quantized weights.
    pub fn int8() -> (res: ParakeetModelParams)
        ensures
            res.quantization == QuantizationType::Int8,
    {
        ParakeetModelParams { quantization: QuantizationType::Int8 }
    }

    /// Weights of the given precision.
    pub fn quantized(quantization: QuantizationType) -> (res: ParakeetModelParams)
        ensures
            res.quantization == quantization,
    {
        ParakeetModelParams { quantization }
    }

    /// Whether the model files to load are the quantized ones.
    pub fn loads_quantized(&self) -> (res: bool)
        ensures
            res == (self.quantization == QuantizationType::Int8),
    {
        match self.quantization {
            QuantizationType::FP32 => false,
            QuantizationType::Int8 => true,
        }
    }
}

impl Default for ParakeetModelParams {
    fn default() -> (res: ParakeetModelParams)
        ensures
            res.quantization == QuantizationType::FP32,
    {
        ParakeetModelParams { quantization: QuantizationType::FP32 }
    }
}

/// How a Parakeet transcription reports timestamps.
#[derive(Debug, Clone, Copy, PartialEq, Eq, Structural)]
pub struct ParakeetInferenceParams {
    pub timestamp_granularity: TimestampGranularity,
}

impl Default for ParakeetInferenceParams {
    fn default() -> (res: ParakeetInferenceParams)
        ensures
            res.timestamp_granularity == TimestampGranularity::Token,
    {
        ParakeetInferenceParams { timestamp_granularity: TimestampGranularity::Token }
    }
}

/// How a Whisper model is loaded (no options).
#[derive(Debug, Clone, Copy, PartialEq, Eq, Structural)]
pub struct WhisperModelParams {}

/// Which model, if any, a Parakeet engine has loaded.
pub struct ParakeetEngine {
    loaded_model_path: Option<String>,
}

impl View for ParakeetEngine {
    type V = Option<Seq<char>>;

    closed spec fn view(&self) -> Option<Seq<char>> {
        match &self.loaded_model_path {
            Some(p) => Some(p@),
            None => None,
        }
    }
}

impl ParakeetEngine {
    /// An engine with no model loaded.
    pub fn new() -> (res: ParakeetEngine)
        ensures
            res@ is None,
    {
        ParakeetEngine { loaded_model_path: None }
    }

    /// Record that the model at `model_path` is loaded.
    pub fn model_loaded(&mut self, model_path: &str)
        ensures
            final(self)@ == Some(model_path@),
    {
        self.loaded_model_path = Some(String::from_str(model_path));
    }

    /// Forget the loaded model.
    pub fn unload_model(&mut self)
        ensures
            final(self)@ is None,
    {
        self.loaded_model_path = None;
    }

    /// The refusal to transcribe without a loaded model, or `Ok` when one is
    /// loaded.
    pub fn check_loaded(&self) -> (res: Result<(), String>)
        ensures
            self@ is Some ==> res is Ok,
            self@ is None ==> (res matches Err(m) && m@ == "Model not loaded. Call load_model() first."@),
    {
        match &self.loaded_model_path {
            Some(_) => Ok(()),
            None => Err(String::from_str("Model not loaded. Call load_model() first.")),
        }
    }
}

} // verus!
