use annotated_text::content::text::AnnotatedContent;
use annotated_text::content::text::Annotation;
use annotated_text::content::text::AnnotationType;
use annotated_text::content::text::Content;
use std::rc::Rc;

#[test]
fn text_can_create_highlight_annotations() {
    let text = String::from("Destiny 2 is a video game on Microsoft Xbox.");
    let content = Rc::new(Content { text });

    let annotation1 = Annotation::new(29, 14, AnnotationType::Highlight, &content);
    let annotation2 = Annotation::new(0, 9, AnnotationType::Highlight, &content);

    assert_eq!(annotation1.text(), "Microsoft Xbox");
    assert_eq!(annotation2.text(), "Destiny 2");
    assert_eq!(annotation1.overlay, AnnotationType::Highlight);
}

#[test]
fn text_can_create_comment_annotations() {
    let text = String::from("Destiny 2 is a video game on Microsoft Xbox.");
    let content = Rc::new(Content { text });

    let md1 = AnnotationType::Comment(String::from("The best gaming system."));
    let md2 = AnnotationType::Comment(String::from("The best first-person shooter, to date."));

    let annotation1 = Annotation::new(29, 14, md1, &content);
    let annotation2 = Annotation::new(0, 9, md2, &content);

    assert_eq!(annotation1.text(), "Microsoft Xbox");
    assert_eq!(annotation2.text(), "Destiny 2");
    assert_eq!(
        annotation1.overlay,
        AnnotationType::Comment(String::from("The best gaming system."))
    );
    assert_eq!(
        annotation2.overlay,
        AnnotationType::Comment(String::from("The best first-person shooter, to date."))
    );
}

#[test]
fn text_can_create_annotated_content() {
    let text = "Mary had a little lamb.".to_string();
    let ac = AnnotatedContent::new(text);

    assert_eq!(&ac.content.text, "Mary had a little lamb.");
}

#[test]
fn text_can_add_annotations() {
    let text = "Mary had a little lamb.".to_string();
    let mut ac = AnnotatedContent::new(text);
    let person = Annotation::new(0, 4, AnnotationType::Highlight, &ac.content);

    ac.add_annotation(person);

    assert_eq!(&ac.content.text, "Mary had a little lamb.");
    assert_eq!(ac.annotations.len(), 1usize);
}
