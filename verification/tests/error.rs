use aarambh_vision::{AarambhVisionError, VisionResult};

#[test]
fn test_error_display() {
    let cases = [
        (
            AarambhVisionError::Tokenizer("bad latent".into()),
            "Tokenizer error: bad latent",
        ),
        (
            AarambhVisionError::Control("bad request".into()),
            "Control layer error: bad request",
        ),
        (
            AarambhVisionError::Io(std::io::Error::new(
                std::io::ErrorKind::NotFound,
                "missing",
            )),
            "IO error: missing",
        ),
    ];
    for (err, expected) in cases {
        assert_eq!(err.message(), expected);
    }
}

#[test]
fn test_io_error_converts_via_from() {
    let io_err = std::io::Error::new(std::io::ErrorKind::NotFound, "missing file");
    let err: AarambhVisionError = io_err.into();
    assert!(matches!(err, AarambhVisionError::Io(_)));
}

#[test]
fn test_result_alias() {
    fn fail() -> VisionResult<()> {
        Err(AarambhVisionError::Tokenizer("broken".into()))
    }
    assert!(fail().is_err());
}

#[test]
fn every_variant_renders_area_label_and_detail() {
    let d = || String::from("x");
    let cases = [
        (AarambhVisionError::Tokenizer(d()), "Tokenizer error: x"),
        (AarambhVisionError::TextPrep(d()), "Text prep error: x"),
        (AarambhVisionError::Data(d()), "Data pipeline error: x"),
        (AarambhVisionError::Understand(d()), "Understanding error: x"),
        (AarambhVisionError::Nn(d()), "Neural network error: x"),
        (AarambhVisionError::Kernel(d()), "Kernel error: x"),
        (AarambhVisionError::TextEncoder(d()), "Text encoder error: x"),
        (AarambhVisionError::Model(d()), "Model error: x"),
        (AarambhVisionError::Weights(d()), "Weights error: x"),
        (AarambhVisionError::Train(d()), "Training error: x"),
        (AarambhVisionError::Quant(d()), "Quantisation error: x"),
        (AarambhVisionError::Finetune(d()), "Fine-tuning error: x"),
        (AarambhVisionError::Align(d()), "Alignment error: x"),
        (AarambhVisionError::SelfLearn(d()), "Self-learning error: x"),
        (AarambhVisionError::Edit(d()), "Editing error: x"),
        (AarambhVisionError::Structure(d()), "Structural conditioning error: x"),
        (AarambhVisionError::RefPrompt(d()), "Reference prompting error: x"),
        (AarambhVisionError::Upscale(d()), "Upscaling error: x"),
        (AarambhVisionError::Safety(d()), "Safety error: x"),
        (AarambhVisionError::Eval(d()), "Evaluation error: x"),
        (AarambhVisionError::Control(d()), "Control layer error: x"),
        (AarambhVisionError::Inference(d()), "Inference error: x"),
        (AarambhVisionError::Serve(d()), "Server error: x"),
        (AarambhVisionError::Serialisation(d()), "Serialisation error: x"),
    ];
    for (err, expected) in cases {
        let msg = err.message();
        assert_eq!(msg, expected);
        assert!(msg.contains(" error: "));
    }
}

#[test]
fn empty_detail_leaves_only_the_label() {
    assert_eq!(AarambhVisionError::Model(String::new()).message(), "Model error: ");
}
