//! Data model for caption requests: fonts, caption boxes and their builder.

use vstd::prelude::*;

verus! {

/// Font that the service may be asked to render captions in.
///
/// Absence of a font in a request means the service picks its default.
#[derive(Clone, Copy, Debug, PartialEq, Eq, Structural)]
pub enum CaptionFont {
    Impact,
    Arial,
}

/// One caption slot of a template: its text plus optional placement,
/// sizing and colors. Unset optional fields are left to the service.
#[derive(Clone, Debug)]
pub struct CaptionBox {
    pub text: String,
    pub x: Option<u32>,
    pub y: Option<u32>,
    pub width: Option<u32>,
    pub height: Option<u32>,
    pub color: Option<String>,
    pub outline_color: Option<String>,
}

/// Builder for [`CaptionBox`]: starts from the required text with every
/// optional field absent; each setter overwrites its field.
pub struct CaptionBoxBuilder {
    pub text: String,
    pub x: Option<u32>,
    pub y: Option<u32>,
    pub width: Option<u32>,
    pub height: Option<u32>,
    pub color: Option<String>,
    pub outline_color: Option<String>,
}

impl CaptionBoxBuilder {
    pub fn new(text: &str) -> (r: Self)
        ensures
            r.text@ == text@,
            r.x is None,
            r.y is None,
            r.width is None,
            r.height is None,
            r.color is None,
            r.outline_color is None,
    {
        CaptionBoxBuilder {
            text: text.to_owned(),
            x: None,
            y: None,
            width: None,
            height: None,
            color: None,
            outline_color: None,
        }
    }

    pub fn dimension(self, x: u32, y: u32, width: u32, height: u32) -> (r: Self)
        ensures
            r.text@ == self.text@,
            r.x == Some(x),
            r.y == Some(y),
            r.width == Some(width),
            r.height == Some(height),
            r.color == self.color,
            r.outline_color == self.outline_color,
    {
        CaptionBoxBuilder {
            text: self.text,
            x: Some(x),
            y: Some(y),
            width: Some(width),
            height: Some(height),
            color: self.color,
            outline_color: self.outline_color,
        }
    }

    pub fn color(self, color: &str) -> (r: Self)
        ensures
            r.text@ == self.text@,
            r.x == self.x,
            r.y == self.y,
            r.width == self.width,
            r.height == self.height,
            r.color matches Some(c) && c@ == color@,
            r.outline_color == self.outline_color,
    {
        CaptionBoxBuilder {
            text: self.text,
            x: self.x,
            y: self.y,
            width: self.width,
            height: self.height,
            color: Some(color.to_owned()),
            outline_color: self.outline_color,
        }
    }

    pub fn outline_color(self, outline_color: &str) -> (r: Self)
        ensures
            r.text@ == self.text@,
            r.x == self.x,
            r.y == self.y,
            r.width == self.width,
            r.height == self.height,
            r.color == self.color,
            r.outline_color matches Some(c) && c@ == outline_color@,
    {
        CaptionBoxBuilder {
            text: self.text,
            x: self.x,
            y: self.y,
            width: self.width,
            height: self.height,
            color: self.color,
            outline_color: Some(outline_color.to_owned()),
        }
    }

    pub fn build(self) -> (r: CaptionBox)
        ensures
            r.text@ == self.text@,
            r.x == self.x,
            r.y == self.y,
            r.width == self.width,
            r.height == self.height,
            r.color == self.color,
            r.outline_color == self.outline_color,
    {
        CaptionBox {
            text: self.text,
            x: self.x,
            y: self.y,
            width: self.width,
            height: self.height,
            color: self.color,
            outline_color: self.outline_color,
        }
    }
}

/// Request to caption a template with an ordered list of caption boxes.
/// The order of `boxes` is meaning: box `i` is the template's slot `i`,
/// and encoding preserves it.
#[derive(Debug)]
pub struct CaptionBoxesRequest {
    pub template_id: String,
    pub font: Option<CaptionFont>,
    pub max_font_size: Option<u32>,
    pub boxes: Vec<CaptionBox>,
}

/// Builder for [`CaptionBoxesRequest`]: starts from the required template
/// id; every optional field defaults to absent; setters overwrite; each
/// added box is appended after the earlier ones.
pub struct CaptionBoxesRequestBuilder {
    pub template_id: String,
    pub font: Option<CaptionFont>,
    pub max_font_size: Option<u32>,
    pub boxes: Vec<CaptionBox>,
}

impl CaptionBoxesRequestBuilder {
    pub fn new(template_id: &str) -> (r: Self)
        ensures
            r.template_id@ == template_id@,
            r.font is None,
            r.max_font_size is None,
            r.boxes@.len() == 0,
    {
        CaptionBoxesRequestBuilder {
            template_id: template_id.to_owned(),
            font: None,
            max_font_size: None,
            boxes: Vec::new(),
        }
    }

    pub fn font(self, font: CaptionFont) -> (r: Self)
        ensures
            r.template_id@ == self.template_id@,
            r.font == Some(font),
            r.max_font_size == self.max_font_size,
            r.boxes@ == self.boxes@,
    {
        CaptionBoxesRequestBuilder {
            template_id: self.template_id,
            font: Some(font),
            max_font_size: self.max_font_size,
            boxes: self.boxes,
        }
    }

    pub fn max_font_size(self, max_font_size: u32) -> (r: Self)
        ensures
            r.template_id@ == self.template_id@,
            r.font == self.font,
            r.max_font_size == Some(max_font_size),
            r.boxes@ == self.boxes@,
    {
        CaptionBoxesRequestBuilder {
            template_id: self.template_id,
            font: self.font,
            max_font_size: Some(max_font_size),
            boxes: self.boxes,
        }
    }

    pub fn caption_box(self, caption_box: CaptionBox) -> (r: Self)
        ensures
            r.template_id@ == self.template_id@,
            r.font == self.font,
            r.max_font_size == self.max_font_size,
            r.boxes@ == self.boxes@.push(caption_box),
    {
        let mut boxes = self.boxes;
        boxes.push(caption_box);
        CaptionBoxesRequestBuilder {
            template_id: self.template_id,
            font: self.font,
            max_font_size: self.max_font_size,
            boxes,
        }
    }

    pub fn build(self) -> (r: CaptionBoxesRequest)
        ensures
            r.template_id@ == self.template_id@,
            r.font == self.font,
            r.max_font_size == self.max_font_size,
            r.boxes@ == self.boxes@,
    {
        CaptionBoxesRequest {
            template_id: self.template_id,
            font: self.font,
            max_font_size: self.max_font_size,
            boxes: self.boxes,
        }
    }
}

/// The fixed request shape: exactly a top and a bottom caption.
#[derive(Debug)]
pub struct TopBottomCaptionRequest {
    pub template_id: String,
    pub text_top: String,
    pub text_bottom: String,
    pub font: Option<CaptionFont>,
    pub max_font_size: u32,
}

/// Either request shape the caption endpoint accepts.
#[derive(Debug)]
pub enum ImageCaptionRequest {
    TopBottomCaptionRequest(TopBottomCaptionRequest),
    CaptionBoxesRequest(CaptionBoxesRequest),
}

} // verus!
