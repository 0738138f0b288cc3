use imgflip::CaptionImageResponse;
use imgflip::Error;
use imgflip::JsonMember;
use imgflip::JsonValue;
use imgflip::MemeTemplate;
use imgflip::Response;
use imgflip::decode_caption_response;
use imgflip::decode_memes_response;
use imgflip::decode_response;
use imgflip::err_for_failure;
use imgflip::error_for_status;

fn member(key: &str, value: JsonValue) -> JsonMember {
    JsonMember {
        key: key.to_string(),
        value,
    }
}

fn caption_payload(url: &str, page_url: &str) -> JsonValue {
    JsonValue::Obj(vec![
        member("url", JsonValue::Str(url.to_string())),
        member("page_url", JsonValue::Str(page_url.to_string())),
    ])
}

fn template(id: &str, name: &str, url: &str, width: i64, height: i64, box_count: i64) -> JsonValue {
    JsonValue::Obj(vec![
        member("id", JsonValue::Str(id.to_string())),
        member("name", JsonValue::Str(name.to_string())),
        member("url", JsonValue::Str(url.to_string())),
        member("width", JsonValue::Num(width)),
        member("height", JsonValue::Num(height)),
        member("box_count", JsonValue::Num(box_count)),
    ])
}

#[test]
fn success_envelope_yields_payload_field_for_field() {
    let body = JsonValue::Obj(vec![
        member("success", JsonValue::Bool(true)),
        member(
            "data",
            caption_payload("https://i.imgflip.com/abc.jpg", "https://imgflip.com/i/abc"),
        ),
    ]);
    let r = decode_caption_response(&body).expect("success envelope decodes");
    assert_eq!(r.url(), "https://i.imgflip.com/abc.jpg");
    assert_eq!(r.page_url(), "https://imgflip.com/i/abc");
}

#[test]
fn failure_envelope_yields_api_error_with_exact_message() {
    let body = JsonValue::Obj(vec![
        member("success", JsonValue::Bool(false)),
        member("error_message", JsonValue::Str("X".to_string())),
    ]);
    match decode_caption_response(&body) {
        Err(Error::ApiError(m)) => assert_eq!(m, "X"),
        other => panic!("expected the API error, got {:?}", other),
    }
}

#[test]
fn missing_both_data_and_error_message_is_a_decode_error() {
    let body = JsonValue::Obj(vec![member("success", JsonValue::Bool(true))]);
    assert!(matches!(decode_caption_response(&body), Err(Error::Decode)));
    let empty = JsonValue::Obj(vec![]);
    assert!(matches!(decode_caption_response(&empty), Err(Error::Decode)));
    assert!(matches!(
        decode_memes_response(&JsonValue::Null),
        Err(Error::Decode)
    ));
}

#[test]
fn shape_not_the_flag_picks_the_variant() {
    // The flag says failure but the fields form the success shape.
    let lying_success = JsonValue::Obj(vec![
        member("success", JsonValue::Bool(false)),
        member(
            "data",
            caption_payload("https://i.imgflip.com/a.jpg", "https://imgflip.com/i/a"),
        ),
    ]);
    let r: Response<CaptionImageResponse> =
        decode_response(&lying_success).expect("shape matches the success variant");
    match r {
        Response::SuccessResponse { success, data } => {
            assert!(!success);
            assert_eq!(data.url(), "https://i.imgflip.com/a.jpg");
        }
        Response::FailureResponse { .. } => panic!("flag must not pick the variant"),
    }

    // The flag says success but only the failure shape is present.
    let lying_failure = JsonValue::Obj(vec![
        member("success", JsonValue::Bool(true)),
        member("error_message", JsonValue::Str("nope".to_string())),
    ]);
    let r: Response<CaptionImageResponse> =
        decode_response(&lying_failure).expect("shape matches the failure variant");
    match r {
        Response::FailureResponse {
            success,
            error_message,
        } => {
            assert!(success);
            assert_eq!(error_message, "nope");
        }
        Response::SuccessResponse { .. } => panic!("flag must not pick the variant"),
    }
}

#[test]
fn convert_maps_failure_to_api_error() {
    let resp: Response<CaptionImageResponse> = Response::FailureResponse {
        success: false,
        error_message: "bad template".to_string(),
    };
    match resp.convert() {
        Err(Error::ApiError(m)) => assert_eq!(m, "bad template"),
        _ => panic!("expected the API error"),
    }
}

#[test]
fn err_for_failure_matches_convert() {
    let resp: Response<CaptionImageResponse> = Response::FailureResponse {
        success: false,
        error_message: "no".to_string(),
    };
    assert!(matches!(err_for_failure(resp), Err(Error::ApiError(m)) if m == "no"));
}

#[test]
fn two_templates_decode_verbatim_in_order() {
    let body = JsonValue::Obj(vec![
        member("success", JsonValue::Bool(true)),
        member(
            "data",
            JsonValue::Obj(vec![member(
                "memes",
                JsonValue::Arr(vec![
                    template(
                        "112126428",
                        "Distracted Boyfriend",
                        "https://i.imgflip.com/1ur9b0.jpg",
                        1200,
                        800,
                        3,
                    ),
                    template(
                        "181913649",
                        "Drake Hotline Bling",
                        "https://i.imgflip.com/30b1gx.jpg",
                        1200,
                        1200,
                        2,
                    ),
                ]),
            )]),
        ),
    ]);
    let memes: Vec<MemeTemplate> = decode_memes_response(&body).expect("list decodes");
    assert_eq!(memes.len(), 2);
    assert_eq!(memes[0].id(), "112126428");
    assert_eq!(memes[0].name(), "Distracted Boyfriend");
    assert_eq!(memes[0].url(), "https://i.imgflip.com/1ur9b0.jpg");
    assert_eq!(memes[0].width(), 1200);
    assert_eq!(memes[0].height(), 800);
    assert_eq!(memes[0].box_count(), 3);
    assert_eq!(memes[1].id(), "181913649");
    assert_eq!(memes[1].box_count(), 2);
}

#[test]
fn malformed_url_fails_decoding() {
    let body = JsonValue::Obj(vec![
        member("success", JsonValue::Bool(true)),
        member(
            "data",
            caption_payload("not a url", "https://imgflip.com/i/a"),
        ),
    ]);
    assert!(matches!(decode_caption_response(&body), Err(Error::Decode)));
}

#[test]
fn out_of_range_dimensions_fail_decoding() {
    let body = |width: i64| {
        JsonValue::Obj(vec![
            member("success", JsonValue::Bool(true)),
            member(
                "data",
                JsonValue::Obj(vec![member(
                    "memes",
                    JsonValue::Arr(vec![template(
                        "1",
                        "n",
                        "https://i.imgflip.com/1.jpg",
                        width,
                        10,
                        1,
                    )]),
                )]),
            ),
        ])
    };
    assert!(decode_memes_response(&body(0)).is_ok());
    assert!(matches!(decode_memes_response(&body(-1)), Err(Error::Decode)));
    assert!(matches!(
        decode_memes_response(&body(4294967296)),
        Err(Error::Decode)
    ));
}

#[test]
fn non_integer_dimensions_fail_decoding() {
    let body = JsonValue::Obj(vec![
        member("success", JsonValue::Bool(true)),
        member(
            "data",
            JsonValue::Obj(vec![member(
                "memes",
                JsonValue::Arr(vec![JsonValue::Obj(vec![
                    member("id", JsonValue::Str("1".to_string())),
                    member("name", JsonValue::Str("n".to_string())),
                    member("url", JsonValue::Str("https://i.imgflip.com/1.jpg".to_string())),
                    member("width", JsonValue::OtherNum),
                    member("height", JsonValue::Num(10)),
                    member("box_count", JsonValue::Num(1)),
                ])]),
            )]),
        ),
    ]);
    assert!(matches!(decode_memes_response(&body), Err(Error::Decode)));
}

#[test]
fn first_member_wins_on_duplicate_keys() {
    let body = JsonValue::Obj(vec![
        member("success", JsonValue::Bool(true)),
        member("error_message", JsonValue::Str("first".to_string())),
        member("error_message", JsonValue::Str("second".to_string())),
    ]);
    match decode_caption_response(&body) {
        Err(Error::ApiError(m)) => assert_eq!(m, "first"),
        other => panic!("expected the API error, got {:?}", other),
    }
}

#[test]
fn missing_success_flag_is_a_decode_error() {
    let body = JsonValue::Obj(vec![member(
        "data",
        caption_payload("https://i.imgflip.com/a.jpg", "https://imgflip.com/i/a"),
    )]);
    assert!(matches!(decode_caption_response(&body), Err(Error::Decode)));
}

#[test]
fn http_500_is_a_transport_error_before_any_decoding() {
    match error_for_status(500) {
        Err(Error::Transport(m)) => assert_eq!(m, "non-success HTTP status"),
        _ => panic!("a 500 status must be a transport error"),
    }
    assert!(error_for_status(200).is_ok());
    assert!(error_for_status(299).is_ok());
    assert!(matches!(error_for_status(199), Err(Error::Transport(_))));
    assert!(matches!(error_for_status(301), Err(Error::Transport(_))));
    assert!(matches!(error_for_status(404), Err(Error::Transport(_))));
}

#[test]
fn kind_names_label_every_error() {
    assert_eq!(Error::Transport(String::new()).kind_name(), "transport error");
    assert_eq!(Error::Encoding(String::new()).kind_name(), "encoding error");
    assert_eq!(Error::Decode.kind_name(), "decode error");
    assert_eq!(Error::ApiError(String::new()).kind_name(), "API error");
}
