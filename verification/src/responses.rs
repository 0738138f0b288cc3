//! Server-provided data: meme templates and captioned-image results.
//!
//! Values of these types are constructed only by decoding a response body;
//! every URL-typed field must parse as an absolute URL or decoding fails.

use vstd::prelude::*;

use crate::json::FromJson;
use crate::json::JsonValue;
use crate::json::spec_str_field;
use crate::json::spec_u32_field;
use crate::json::str_field;
use crate::json::u32_field;
use crate::json::lookup;
use crate::json::spec_lookup;

verus! {

/// Whether a string parses as an absolute URL.
pub uninterp spec fn url_parses(s: Seq<char>) -> bool;

/// Relies on url::Url::parse: success or failure of the parse depends on
/// the input string alone; the parser accepts absolute URLs only.
#[verifier::external_body]
fn is_absolute_url(s: &str) -> (r: bool)
    ensures
        r == url_parses(s@),
{
    url::Url::parse(s).is_ok()
}

/// Mathematical content of a [`MemeTemplate`].
pub ghost struct MemeTemplateView {
    pub id: Seq<char>,
    pub name: Seq<char>,
    pub url: Seq<char>,
    pub width: u32,
    pub height: u32,
    pub box_count: u32,
}

/// A blank meme template from the service's catalog: passive data, read
/// accessors only, immutable once decoded.
#[derive(Debug)]
pub struct MemeTemplate {
    id: String,
    name: String,
    url: String,
    width: u32,
    height: u32,
    box_count: u32,
}

impl View for MemeTemplate {
    type V = MemeTemplateView;

    closed spec fn view(&self) -> MemeTemplateView {
        MemeTemplateView {
            id: self.id@,
            name: self.name@,
            url: self.url@,
            width: self.width,
            height: self.height,
            box_count: self.box_count,
        }
    }
}

/// The decoding rule for one template object: `id`, `name` and `url` must
/// be strings, `url` a valid absolute URL, and the dimensions and box
/// count integers that fit in `u32`; other members are ignored.
pub open spec fn spec_template_from_json(v: JsonValue) -> Option<MemeTemplateView> {
    match v {
        JsonValue::Obj(fields) => match (
            spec_str_field(fields@, "id"@),
            spec_str_field(fields@, "name"@),
            spec_str_field(fields@, "url"@),
            spec_u32_field(fields@, "width"@),
            spec_u32_field(fields@, "height"@),
            spec_u32_field(fields@, "box_count"@),
        ) {
            (Some(id), Some(name), Some(url), Some(width), Some(height), Some(box_count)) => if url_parses(
                url,
            ) {
                Some(MemeTemplateView { id, name, url, width, height, box_count })
            } else {
                None
            },
            _ => None,
        },
        _ => None,
    }
}

impl MemeTemplate {
    /// The identifier of this template; it equals the `template_id`
    /// a caption request must carry.
    pub fn id(&self) -> (r: &str)
        ensures
            r@ == self@.id,
    {
        self.id.as_str()
    }

    /// The human-readable name of this template.
    pub fn name(&self) -> (r: &str)
        ensures
            r@ == self@.name,
    {
        self.name.as_str()
    }

    /// The absolute URL of the blank image for this template.
    pub fn url(&self) -> (r: &str)
        ensures
            r@ == self@.url,
    {
        self.url.as_str()
    }

    /// The width in pixels of the blank image.
    pub fn width(&self) -> (r: u32)
        ensures
            r == self@.width,
    {
        self.width
    }

    /// The height in pixels of the blank image.
    pub fn height(&self) -> (r: u32)
        ensures
            r == self@.height,
    {
        self.height
    }

    /// How many caption slots this template uses.
    pub fn box_count(&self) -> (r: u32)
        ensures
            r == self@.box_count,
    {
        self.box_count
    }
}

impl FromJson for MemeTemplate {
    open spec fn spec_from_json(v: JsonValue) -> Option<MemeTemplateView> {
        spec_template_from_json(v)
    }

    fn from_json(v: &JsonValue) -> (r: Option<MemeTemplate>) {
        match v {
            JsonValue::Obj(fields) => {
                let id = str_field(fields, "id");
                let name = str_field(fields, "name");
                let url = str_field(fields, "url");
                let width = u32_field(fields, "width");
                let height = u32_field(fields, "height");
                let box_count = u32_field(fields, "box_count");
                match (id, name, url, width, height, box_count) {
                    (
                        Some(id),
                        Some(name),
                        Some(url),
                        Some(width),
                        Some(height),
                        Some(box_count),
                    ) => if is_absolute_url(url.as_str()) {
                        Some(
                            MemeTemplate {
                                id: id.clone(),
                                name: name.clone(),
                                url: url.clone(),
                                width,
                                height,
                                box_count,
                            },
                        )
                    } else {
                        None
                    },
                    _ => None,
                }
            },
            _ => None,
        }
    }
}

/// Mathematical content of a [`CaptionImageResponse`].
pub ghost struct CaptionImageResponseView {
    pub url: Seq<char>,
    pub page_url: Seq<char>,
}

/// A successfully captioned template: the rendered image and a
/// human-viewable page for it, both absolute URLs.
#[derive(Debug)]
pub struct CaptionImageResponse {
    url: String,
    page_url: String,
}

impl View for CaptionImageResponse {
    type V = CaptionImageResponseView;

    closed spec fn view(&self) -> CaptionImageResponseView {
        CaptionImageResponseView { url: self.url@, page_url: self.page_url@ }
    }
}

/// The decoding rule for a captioned-image object: `url` and `page_url`
/// must be strings that parse as absolute URLs; other members are ignored.
pub open spec fn spec_caption_image_from_json(v: JsonValue) -> Option<CaptionImageResponseView> {
    match v {
        JsonValue::Obj(fields) => match (
            spec_str_field(fields@, "url"@),
            spec_str_field(fields@, "page_url"@),
        ) {
            (Some(url), Some(page_url)) => if url_parses(url) && url_parses(page_url) {
                Some(CaptionImageResponseView { url, page_url })
            } else {
                None
            },
            _ => None,
        },
        _ => None,
    }
}

impl CaptionImageResponse {
    /// The URL of the generated captioned image.
    pub fn url(&self) -> (r: &str)
        ensures
            r@ == self@.url,
    {
        self.url.as_str()
    }

    /// The URL of the page that shows the generated image.
    pub fn page_url(&self) -> (r: &str)
        ensures
            r@ == self@.page_url,
    {
        self.page_url.as_str()
    }
}

impl FromJson for CaptionImageResponse {
    open spec fn spec_from_json(v: JsonValue) -> Option<CaptionImageResponseView> {
        spec_caption_image_from_json(v)
    }

    fn from_json(v: &JsonValue) -> (r: Option<CaptionImageResponse>) {
        match v {
            JsonValue::Obj(fields) => {
                let url = str_field(fields, "url");
                let page_url = str_field(fields, "page_url");
                match (url, page_url) {
                    (Some(url), Some(page_url)) => if is_absolute_url(url.as_str())
                        && is_absolute_url(page_url.as_str()) {
                        Some(CaptionImageResponse { url: url.clone(), page_url: page_url.clone() })
                    } else {
                        None
                    },
                    _ => None,
                }
            },
            _ => None,
        }
    }
}

/// The decoding rule for a list of templates: every element must decode,
/// and the order of the list is kept.
pub open spec fn spec_templates_from_json(items: Seq<JsonValue>) -> Option<Seq<MemeTemplateView>>
    decreases items.len(),
{
    if items.len() == 0 {
        Some(Seq::empty())
    } else {
        match (spec_template_from_json(items[0]), spec_templates_from_json(items.drop_first())) {
            (Some(t), Some(rest)) => Some(seq![t] + rest),
            _ => None,
        }
    }
}

fn templates_from(items: &Vec<JsonValue>, i: usize) -> (r: Option<Vec<MemeTemplate>>)
    requires
        i <= items@.len(),
    ensures
        match spec_templates_from_json(items@.skip(i as int)) {
            Some(sv) => r matches Some(ts) && ts@.len() == sv.len() && (forall|j: int|
                0 <= j < sv.len() ==> #[trigger] ts@[j]@ == sv[j]),
            None => r is None,
        },
    decreases items@.len() - i,
{
    if i >= items.len() {
        proof {
            assert(items@.skip(i as int) =~= Seq::<JsonValue>::empty());
        }
        Some(Vec::new())
    } else {
        proof {
            assert(items@.skip(i as int)[0] == items@[i as int]);
            assert(items@.skip(i as int).drop_first() =~= items@.skip(i as int + 1));
        }
        match MemeTemplate::from_json(&items[i]) {
            None => None,
            Some(t) => match templates_from(items, i + 1) {
                None => None,
                Some(mut rest) => {
                    rest.insert(0, t);
                    Some(rest)
                },
            },
        }
    }
}

/// The payload of the template-list endpoint: the `memes` member holds the
/// catalog.
#[derive(Debug)]
pub struct MemeTemplatesData {
    pub memes: Vec<MemeTemplate>,
}

impl View for MemeTemplatesData {
    type V = Seq<MemeTemplateView>;

    open spec fn view(&self) -> Seq<MemeTemplateView> {
        Seq::new(self.memes@.len(), |i: int| self.memes@[i]@)
    }
}

/// The decoding rule for the template-list payload: an object whose
/// `memes` member is an array of template objects.
pub open spec fn spec_memes_data_from_json(v: JsonValue) -> Option<Seq<MemeTemplateView>> {
    match v {
        JsonValue::Obj(fields) => match spec_lookup(fields@, "memes"@) {
            Some(JsonValue::Arr(items)) => spec_templates_from_json(items@),
            _ => None,
        },
        _ => None,
    }
}

impl FromJson for MemeTemplatesData {
    open spec fn spec_from_json(v: JsonValue) -> Option<Seq<MemeTemplateView>> {
        spec_memes_data_from_json(v)
    }

    fn from_json(v: &JsonValue) -> (r: Option<MemeTemplatesData>) {
        match v {
            JsonValue::Obj(fields) => match lookup(fields, "memes") {
                Some(JsonValue::Arr(items)) => {
                    proof {
                        assert(items@.skip(0) =~= items@);
                    }
                    match templates_from(items, 0) {
                        Some(memes) => {
                            let d = MemeTemplatesData { memes };
                            proof {
                                if let Some(sv) = spec_templates_from_json(items@) {
                                    assert(d@ =~= sv);
                                }
                            }
                            Some(d)
                        },
                        None => None,
                    }
                },
                _ => None,
            },
            _ => None,
        }
    }
}

} // verus!
