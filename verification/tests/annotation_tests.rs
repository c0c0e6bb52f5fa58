use annotated_text::annotation::Annotation;
use annotated_text::annotation::AnnotationType;
use annotated_text::annotation::Content;
use std::rc::Rc;

#[test]
fn annotation_can_create_highlight_annotations() {
    let text = String::from("Destiny 2 is a video game on Microsoft Xbox.");
    let content = Rc::new(Content { text });

    let annotation1 = Annotation::new(29, 14, AnnotationType::Highlight, &content);
    let annotation2 = Annotation::new(0, 9, AnnotationType::Highlight, &content);

    assert_eq!(annotation1.text(), "Microsoft Xbox");
    assert_eq!(annotation2.text(), "Destiny 2");
    assert_eq!(annotation1.overlay, AnnotationType::Highlight);
}

#[test]
fn annotation_can_create_comment_annotations() {
    let text = String::from("Destiny 2 is a video game on Microsoft Xbox.");
    let content = Rc::new(Content { text });

    let md1 = AnnotationType::Comment(String::from("The best gaming system."));
    let md2 = AnnotationType::Comment(String::from("The best first-person shooter, to date."));

    let annotation1 = Annotation::new(29, 14, md1, &content);
    let annotation2 = Annotation::new(0, 9, md2, &content);

    assert_eq!(annotation1.text(), "Microsoft Xbox");
    assert_eq!(annotation2.text(), "Destiny 2");
    assert_eq!(
        annotation1.overlay,
        AnnotationType::Comment(String::from("The best gaming system."))
    );
    assert_eq!(
        annotation2.overlay,
        AnnotationType::Comment(String::from("The best first-person shooter, to date."))
    );
}
