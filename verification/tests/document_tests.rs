use slide_extractor::document::{
    handle_generate_document, GenerateDocumentCommand, SlideData,
};
use slide_extractor::error::ExtractionError;
use slide_extractor::ids::{Id, YouTubeVideo};

fn sample_command(slides: Vec<SlideData>) -> GenerateDocumentCommand {
    GenerateDocumentCommand {
        video_id: Id::<YouTubeVideo>::new(),
        title: "Test Video".to_string(),
        url: "https://youtube.com/watch?v=123".to_string(),
        duration: 60,
        slides,
        output_path: "/tmp/output.md".to_string(),
        include_timeline_diagram: true,
    }
}

#[test]
fn test_handle_generate_document_success() {
    let command = sample_command(vec![
        SlideData {
            slide_index: 1,
            timestamp: 5,
            image_path: "slide_0001.jpg".to_string(),
            text: "Hello World".to_string(),
        },
        SlideData {
            slide_index: 2,
            timestamp: 15,
            image_path: "slide_0002.jpg".to_string(),
            text: "Page 2 Content".to_string(),
        },
    ]);

    let (event, content) = handle_generate_document(command).unwrap();
    assert_eq!(event.slide_count, 2);
    assert_eq!(event.file_path, "/tmp/output.md");
    assert!(content.contains("# Test Video"));
    assert!(content.contains("graph LR"));
    assert!(content.contains("Hello World"));
    assert!(content.contains("![Slide 1](slide_0001.jpg)"));
    assert!(content.contains("- **Extracted Slides:** 2"));
}

#[test]
fn test_handle_generate_document_empty() {
    let result = handle_generate_document(sample_command(vec![]));
    assert!(matches!(result, Err(ExtractionError::InternalError(_))));
}

#[test]
fn test_document_marks_missing_text() {
    let command = sample_command(vec![SlideData {
        slide_index: 1,
        timestamp: 0,
        image_path: "/abs/path/slide_0001.jpg".to_string(),
        text: "   \n ".to_string(),
    }]);
    let (_, content) = handle_generate_document(command).unwrap();
    assert!(content.contains("*No text detected.*"));
    // The image is referred to by file name, not by absolute path.
    assert!(content.contains("![Slide 1](slide_0001.jpg)"));
    assert!(!content.contains("(/abs/path/slide_0001.jpg)"));
}

#[test]
fn test_document_without_timeline() {
    let mut command = sample_command(vec![SlideData {
        slide_index: 1,
        timestamp: 0,
        image_path: "s.jpg".to_string(),
        text: "text".to_string(),
    }]);
    command.include_timeline_diagram = false;
    let (_, content) = handle_generate_document(command).unwrap();
    assert!(!content.contains("graph LR"));
    assert!(content.contains("## Slides Detail"));
}
