//! The single error type shared by every part of the system, one variant
//! per failure area, and the `VisionResult` alias.
//!
//! Each variant renders as `"<area> error: <detail>"`; `message` builds
//! that text.
use vstd::prelude::*;
use vstd::string::to_string_from_display_ensures;

verus! {

/// `std::io::Error`, carried by the `Io` variant.
#[verifier::external_type_specification]
#[verifier::external_body]
pub struct ExIoError(std::io::Error);

/// The single error type used across the whole system.
///
/// Each variant corresponds to one area's failure mode. Variants that wrap
/// a `String` carry a free-form detail; `Io` wraps the `std::io::Error`
/// that caused it and is produced from one by `From`.
#[derive(Debug)]
pub enum AarambhVisionError {
    /// Image VAE encode, decode or reparameterisation failure.
    Tokenizer(String),
    /// Prompt tokenization or normalisation failure.
    TextPrep(String),
    /// Dataset loading, preprocessing or auto-captioning failure.
    Data(String),
    /// Contrastive encoder or captioner forward failure.
    Understand(String),
    /// MMDiT block, AdaLN-Zero or 2D-RoPE failure.
    Nn(String),
    /// CPU SIMD kernel or fused patchify failure.
    Kernel(String),
    /// Loading or running the text encoder's checkpoint.
    TextEncoder(String),
    /// Full MMDiT assembly forward pass failure.
    Model(String),
    /// SafeTensors save or load failure.
    Weights(String),
    /// Training-loop failure (optimiser, checkpointing).
    Train(String),
    /// INT8 / INT4 quantisation or GGUF export failure.
    Quant(String),
    /// LoRA / QLoRA / DoRA adapter injection or training failure.
    Finetune(String),
    /// GRPO or DPO alignment loop failure.
    Align(String),
    /// Online self-learning or anti-forgetting failure.
    SelfLearn(String),
    /// Reference-image conditioning or inpainting failure.
    Edit(String),
    /// Structural / spatial conditioning failure.
    Structure(String),
    /// Reference-image prompting failure.
    RefPrompt(String),
    /// Super-resolution refinement failure.
    Upscale(String),
    /// Content filtering, watermarking or provenance failure.
    Safety(String),
    /// Evaluation harness or baseline comparison failure.
    Eval(String),
    /// Request parsing or validation failure.
    Control(String),
    /// Sampler (ODE solver), CFG or runtime failure.
    Inference(String),
    /// HTTP server startup or request-handling failure.
    Serve(String),
    /// A JSON / TOML / message-pack serialisation or deserialisation error.
    Serialisation(String),
    /// A filesystem read or write failed.
    Io(std::io::Error),
}

/// `Result` with the error pinned to [`AarambhVisionError`].
pub type VisionResult<T> = Result<T, AarambhVisionError>;

impl AarambhVisionError {
    /// The text that opens the variant's message, naming its area.
    pub open spec fn label(&self) -> Seq<char> {
        match self {
            AarambhVisionError::Tokenizer(_) => "Tokenizer error: "@,
            AarambhVisionError::TextPrep(_) => "Text prep error: "@,
            AarambhVisionError::Data(_) => "Data pipeline error: "@,
            AarambhVisionError::Understand(_) => "Understanding error: "@,
            AarambhVisionError::Nn(_) => "Neural network error: "@,
            AarambhVisionError::Kernel(_) => "Kernel error: "@,
            AarambhVisionError::TextEncoder(_) => "Text encoder error: "@,
            AarambhVisionError::Model(_) => "Model error: "@,
            AarambhVisionError::Weights(_) => "Weights error: "@,
            AarambhVisionError::Train(_) => "Training error: "@,
            AarambhVisionError::Quant(_) => "Quantisation error: "@,
            AarambhVisionError::Finetune(_) => "Fine-tuning error: "@,
            AarambhVisionError::Align(_) => "Alignment error: "@,
            AarambhVisionError::SelfLearn(_) => "Self-learning error: "@,
            AarambhVisionError::Edit(_) => "Editing error: "@,
            AarambhVisionError::Structure(_) => "Structural conditioning error: "@,
            AarambhVisionError::RefPrompt(_) => "Reference prompting error: "@,
            AarambhVisionError::Upscale(_) => "Upscaling error: "@,
            AarambhVisionError::Safety(_) => "Safety error: "@,
            AarambhVisionError::Eval(_) => "Evaluation error: "@,
            AarambhVisionError::Control(_) => "Control layer error: "@,
            AarambhVisionError::Inference(_) => "Inference error: "@,
            AarambhVisionError::Serve(_) => "Server error: "@,
            AarambhVisionError::Serialisation(_) => "Serialisation error: "@,
            AarambhVisionError::Io(_) => "IO error: "@,
        }
    }

    /// The free-form detail of a variant that carries a `String`; empty
    /// for `Io`, whose detail is the text of its `std::io::Error`.
    pub open spec fn detail(&self) -> Seq<char> {
        match self {
            AarambhVisionError::Tokenizer(s) => s@,
            AarambhVisionError::TextPrep(s) => s@,
            AarambhVisionError::Data(s) => s@,
            AarambhVisionError::Understand(s) => s@,
            AarambhVisionError::Nn(s) => s@,
            AarambhVisionError::Kernel(s) => s@,
            AarambhVisionError::TextEncoder(s) => s@,
            AarambhVisionError::Model(s) => s@,
            AarambhVisionError::Weights(s) => s@,
            AarambhVisionError::Train(s) => s@,
            AarambhVisionError::Quant(s) => s@,
            AarambhVisionError::Finetune(s) => s@,
            AarambhVisionError::Align(s) => s@,
            AarambhVisionError::SelfLearn(s) => s@,
            AarambhVisionError::Edit(s) => s@,
            AarambhVisionError::Structure(s) => s@,
            AarambhVisionError::RefPrompt(s) => s@,
            AarambhVisionError::Upscale(s) => s@,
            AarambhVisionError::Safety(s) => s@,
            AarambhVisionError::Eval(s) => s@,
            AarambhVisionError::Control(s) => s@,
            AarambhVisionError::Inference(s) => s@,
            AarambhVisionError::Serve(s) => s@,
            AarambhVisionError::Serialisation(s) => s@,
            AarambhVisionError::Io(_) => Seq::empty(),
        }
    }

    /// Whether `msg` is the rendering of this error: its label followed by
    /// its detail, where the detail of `Io` is the `Display` text of the
    /// wrapped `std::io::Error`.
    pub open spec fn renders_as(&self, msg: Seq<char>) -> bool {
        match self {
            AarambhVisionError::Io(e) => exists|t: String|
                to_string_from_display_ensures::<std::io::Error>(e, t) && msg == self.label() + t@,
            _ => msg == self.label() + self.detail(),
        }
    }

    /// The human-readable message: `"<area> error: <detail>"`.
    pub fn message(&self) -> (msg: String)
        ensures
            self.renders_as(msg@),
    {
        match self {
            AarambhVisionError::Tokenizer(s) => labelled("Tokenizer error: ", s.as_str()),
            AarambhVisionError::TextPrep(s) => labelled("Text prep error: ", s.as_str()),
            AarambhVisionError::Data(s) => labelled("Data pipeline error: ", s.as_str()),
            AarambhVisionError::Understand(s) => labelled("Understanding error: ", s.as_str()),
            AarambhVisionError::Nn(s) => labelled("Neural network error: ", s.as_str()),
            AarambhVisionError::Kernel(s) => labelled("Kernel error: ", s.as_str()),
            AarambhVisionError::TextEncoder(s) => labelled("Text encoder error: ", s.as_str()),
            AarambhVisionError::Model(s) => labelled("Model error: ", s.as_str()),
            AarambhVisionError::Weights(s) => labelled("Weights error: ", s.as_str()),
            AarambhVisionError::Train(s) => labelled("Training error: ", s.as_str()),
            AarambhVisionError::Quant(s) => labelled("Quantisation error: ", s.as_str()),
            AarambhVisionError::Finetune(s) => labelled("Fine-tuning error: ", s.as_str()),
            AarambhVisionError::Align(s) => labelled("Alignment error: ", s.as_str()),
            AarambhVisionError::SelfLearn(s) => labelled("Self-learning error: ", s.as_str()),
            AarambhVisionError::Edit(s) => labelled("Editing error: ", s.as_str()),
            AarambhVisionError::Structure(s) => labelled("Structural conditioning error: ", s.as_str()),
            AarambhVisionError::RefPrompt(s) => labelled("Reference prompting error: ", s.as_str()),
            AarambhVisionError::Upscale(s) => labelled("Upscaling error: ", s.as_str()),
            AarambhVisionError::Safety(s) => labelled("Safety error: ", s.as_str()),
            AarambhVisionError::Eval(s) => labelled("Evaluation error: ", s.as_str()),
            AarambhVisionError::Control(s) => labelled("Control layer error: ", s.as_str()),
            AarambhVisionError::Inference(s) => labelled("Inference error: ", s.as_str()),
            AarambhVisionError::Serve(s) => labelled("Server error: ", s.as_str()),
            AarambhVisionError::Serialisation(s) => labelled("Serialisation error: ", s.as_str()),
            AarambhVisionError::Io(e) => {
                let t = e.to_string();
                labelled("IO error: ", t.as_str())
            },
        }
    }
}

/// `label` followed by `detail`.
fn labelled(label: &str, detail: &str) -> (r: String)
    ensures
        r@ == label@ + detail@,
{
    let mut r = String::from_str(label);
    r.append(detail);
    r
}

impl From<std::io::Error> for AarambhVisionError {
    /// Wraps a `std::io::Error` in the `Io` variant.
    fn from(e: std::io::Error) -> (r: Self) {
        AarambhVisionError::Io(e)
    }
}

impl vstd::std_specs::convert::FromSpecImpl<std::io::Error> for AarambhVisionError {
    open spec fn obeys_from_spec() -> bool {
        true
    }

    open spec fn from_spec(v: std::io::Error) -> Self {
        AarambhVisionError::Io(v)
    }
}

/// Every message opens with the name of the failing area followed by
/// `" error: "`: the label is longer than that suffix and ends with it.
pub proof fn lemma_label_names_an_area(e: &AarambhVisionError)
    ensures
        e.label().len() > 8,
        e.label().skip(e.label().len() - 8) == " error: "@,
{
    reveal_strlit(" error: ");
    match e {
        AarambhVisionError::Tokenizer(_) => {
            reveal_strlit("Tokenizer error: ");
        },
        AarambhVisionError::TextPrep(_) => {
            reveal_strlit("Text prep error: ");
        },
        AarambhVisionError::Data(_) => {
            reveal_strlit("Data pipeline error: ");
        },
        AarambhVisionError::Understand(_) => {
            reveal_strlit("Understanding error: ");
        },
        AarambhVisionError::Nn(_) => {
            reveal_strlit("Neural network error: ");
        },
        AarambhVisionError::Kernel(_) => {
            reveal_strlit("Kernel error: ");
        },
        AarambhVisionError::TextEncoder(_) => {
            reveal_strlit("Text encoder error: ");
        },
        AarambhVisionError::Model(_) => {
            reveal_strlit("Model error: ");
        },
        AarambhVisionError::Weights(_) => {
            reveal_strlit("Weights error: ");
        },
        AarambhVisionError::Train(_) => {
            reveal_strlit("Training error: ");
        },
        AarambhVisionError::Quant(_) => {
            reveal_strlit("Quantisation error: ");
        },
        AarambhVisionError::Finetune(_) => {
            reveal_strlit("Fine-tuning error: ");
        },
        AarambhVisionError::Align(_) => {
            reveal_strlit("Alignment error: ");
        },
        AarambhVisionError::SelfLearn(_) => {
            reveal_strlit("Self-learning error: ");
        },
        AarambhVisionError::Edit(_) => {
            reveal_strlit("Editing error: ");
        },
        AarambhVisionError::Structure(_) => {
            reveal_strlit("Structural conditioning error: ");
        },
        AarambhVisionError::RefPrompt(_) => {
            reveal_strlit("Reference prompting error: ");
        },
        AarambhVisionError::Upscale(_) => {
            reveal_strlit("Upscaling error: ");
        },
        AarambhVisionError::Safety(_) => {
            reveal_strlit("Safety error: ");
        },
        AarambhVisionError::Eval(_) => {
            reveal_strlit("Evaluation error: ");
        },
        AarambhVisionError::Control(_) => {
            reveal_strlit("Control layer error: ");
        },
        AarambhVisionError::Inference(_) => {
            reveal_strlit("Inference error: ");
        },
        AarambhVisionError::Serve(_) => {
            reveal_strlit("Server error: ");
        },
        AarambhVisionError::Serialisation(_) => {
            reveal_strlit("Serialisation error: ");
        },
        AarambhVisionError::Io(_) => {
            reveal_strlit("IO error: ");
        },
    }
}

} // verus!
