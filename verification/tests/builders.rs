use imgflip::CaptionBoxBuilder;
use imgflip::CaptionBoxesRequestBuilder;
use imgflip::CaptionFont;

#[test]
fn caption_box_defaults_to_text_only() {
    let b = CaptionBoxBuilder::new("hello").build();
    assert_eq!(b.text, "hello");
    assert!(b.x.is_none());
    assert!(b.y.is_none());
    assert!(b.width.is_none());
    assert!(b.height.is_none());
    assert!(b.color.is_none());
    assert!(b.outline_color.is_none());
}

#[test]
fn caption_box_builder_sets_every_field() {
    let b = CaptionBoxBuilder::new("top text")
        .dimension(10, 20, 300, 40)
        .color("#ffffff")
        .outline_color("#000000")
        .build();
    assert_eq!(b.text, "top text");
    assert_eq!(b.x, Some(10));
    assert_eq!(b.y, Some(20));
    assert_eq!(b.width, Some(300));
    assert_eq!(b.height, Some(40));
    assert_eq!(b.color.as_deref(), Some("#ffffff"));
    assert_eq!(b.outline_color.as_deref(), Some("#000000"));
}

#[test]
fn caption_box_builder_setter_overwrites() {
    let b = CaptionBoxBuilder::new("t").color("red").color("blue").build();
    assert_eq!(b.color.as_deref(), Some("blue"));
}

#[test]
fn request_builder_collects_fields_and_keeps_box_order() {
    let box1 = CaptionBoxBuilder::new("one").build();
    let box2 = CaptionBoxBuilder::new("two").build();
    let req = CaptionBoxesRequestBuilder::new("61580")
        .font(CaptionFont::Arial)
        .max_font_size(42)
        .caption_box(box1)
        .caption_box(box2)
        .build();
    assert_eq!(req.template_id, "61580");
    assert!(matches!(req.font, Some(CaptionFont::Arial)));
    assert_eq!(req.max_font_size, Some(42));
    assert_eq!(req.boxes.len(), 2);
    assert_eq!(req.boxes[0].text, "one");
    assert_eq!(req.boxes[1].text, "two");
}

#[test]
fn request_builder_defaults_are_absent() {
    let req = CaptionBoxesRequestBuilder::new("181913649").build();
    assert_eq!(req.template_id, "181913649");
    assert!(req.font.is_none());
    assert!(req.max_font_size.is_none());
    assert!(req.boxes.is_empty());
}
