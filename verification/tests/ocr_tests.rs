use slide_extractor::error::ExtractionError;
use slide_extractor::ids::{Id, Slide};
use slide_extractor::ocr::{handle_extract_text, ExtractTextCommand, OcrResult, TesseractEngine};

#[test]
fn test_handle_extract_text_missing_file() {
    let command = ExtractTextCommand {
        slide_id: Id::<Slide>::new(),
        image_path: "/nonexistent/image.jpg".to_string(),
        languages: vec!["eng".to_string()],
        confidence_threshold: 6000,
    };
    let result = OcrResult {
        slide_id: command.slide_id,
        text: String::new(),
        confidence: 0,
        languages: command.languages.clone(),
    };
    let outcome = handle_extract_text(&command, false, result);
    assert!(outcome.is_err());
    if let Err(ExtractionError::FileSystemError(msg)) = outcome {
        assert!(msg.contains("not found"));
    } else {
        panic!("Expected FileSystemError");
    }
}

#[test]
fn test_handle_extract_text_flags_low_confidence() {
    let command = ExtractTextCommand {
        slide_id: Id::<Slide>::new(),
        image_path: "/slides/slide_0001.jpg".to_string(),
        languages: vec!["eng".to_string()],
        confidence_threshold: 6000,
    };
    let low = OcrResult {
        slide_id: command.slide_id,
        text: "blurry".to_string(),
        confidence: 4000,
        languages: command.languages.clone(),
    };
    let (success, warning) = handle_extract_text(&command, true, low).unwrap();
    assert_eq!(success.text, "blurry");
    let warning = warning.expect("low confidence must be flagged");
    assert_eq!(warning.confidence, 4000);
    assert_eq!(warning.threshold, 6000);

    let fine = OcrResult {
        slide_id: command.slide_id,
        text: "sharp".to_string(),
        confidence: 9000,
        languages: command.languages.clone(),
    };
    let (_, warning) = handle_extract_text(&command, true, fine).unwrap();
    assert!(warning.is_none());
}

#[test]
fn test_parse_tsv_success() {
    let tsv_data =
        "level	page_num	block_num	par_num	line_num	word_num	left	top	width	height	conf	text
1	1	0	0	0	0	0	0	1920	1080	-1
2	1	1	0	0	0	100	100	200	50	-1
3	1	1	1	0	0	100	100	200	50	-1
4	1	1	1	1	0	100	100	200	50	-1
5	1	1	1	1	1	100	100	100	50	90	Hello
5	1	1	1	1	2	210	100	90	50	80	World";

    let (text, confidence) = TesseractEngine::parse_tsv(tsv_data);
    assert_eq!(text, "Hello World");
    assert_eq!(confidence, 8500); // (90 + 80) / 2 percent, in ten-thousandths
}

#[test]
fn test_parse_tsv_empty() {
    let tsv_data =
        "level	page_num	block_num	par_num	line_num	word_num	left	top	width	height	conf	text";
    let (text, confidence) = TesseractEngine::parse_tsv(tsv_data);
    assert_eq!(text, "");
    assert_eq!(confidence, 0);
}

#[test]
fn test_parse_tsv_fractional_confidence() {
    let tsv_data = "header\n5	1	1	1	1	1	0	0	1	1	96.5	Word";
    let (text, confidence) = TesseractEngine::parse_tsv(tsv_data);
    assert_eq!(text, "Word");
    assert_eq!(confidence, 9650);
}
