use wechat_pay::sdk::media::mime_for_filename;
use wechat_pay::{parse_response, WeChatPayApiError, WeChatPayError};

fn api_error(code: &str, message: &str) -> WeChatPayApiError {
    WeChatPayApiError {
        code: code.to_string(),
        message: Some(message.to_string()),
        detail: None,
    }
}

#[test]
fn status_200_with_a_parsed_body_yields_the_body() {
    let r = parse_response(200, Some("the-body".to_string()), None);
    assert_eq!(r.unwrap(), Some("the-body".to_string()));
}

#[test]
fn status_200_with_only_an_error_body_yields_the_api_error() {
    let r = parse_response::<String>(200, None, Some(api_error("PARAM_ERROR", "bad params")));
    match r {
        Err(WeChatPayError::WeChatApiError(e)) => {
            assert_eq!(e.code, "PARAM_ERROR");
            assert_eq!(e.message.as_deref(), Some("bad params"));
        }
        other => panic!("expected an api error, got {:?}", other),
    }
}

#[test]
fn status_200_with_nothing_parsable_is_unclassified() {
    let r = parse_response::<String>(200, None, None);
    assert!(matches!(r, Err(WeChatPayError::Unknown(_))));
}

#[test]
fn status_204_yields_no_body() {
    let r = parse_response::<String>(204, None, None);
    assert_eq!(r.unwrap(), None);
}

#[test]
fn status_202_is_accepted_and_pending() {
    let r = parse_response::<String>(202, None, None);
    assert!(matches!(r, Err(WeChatPayError::Accepted)));
}

#[test]
fn status_404_with_an_error_body_yields_the_parsed_code_and_message() {
    let r = parse_response::<String>(404, None, Some(api_error("ORDER_NOT_EXIST", "no order")));
    match r {
        Err(WeChatPayError::WeChatApiError(e)) => {
            assert_eq!(e.code, "ORDER_NOT_EXIST");
            assert_eq!(e.message.as_deref(), Some("no order"));
        }
        other => panic!("expected an api error, got {:?}", other),
    }
}

#[test]
fn error_statuses_without_a_parsable_body_are_unclassified() {
    let r = parse_response::<String>(500, None, None);
    assert!(matches!(r, Err(WeChatPayError::Unknown(_))));
}

#[test]
fn status_301_is_unclassified() {
    let r = parse_response::<String>(301, None, Some(api_error("IGNORED", "ignored")));
    assert!(matches!(r, Err(WeChatPayError::Unknown(_))));
}

#[test]
fn boundary_statuses_of_the_error_range() {
    assert!(matches!(
        parse_response::<String>(400, None, Some(api_error("A", "b"))),
        Err(WeChatPayError::WeChatApiError(_))
    ));
    assert!(matches!(
        parse_response::<String>(501, None, Some(api_error("A", "b"))),
        Err(WeChatPayError::WeChatApiError(_))
    ));
    assert!(matches!(
        parse_response::<String>(503, None, Some(api_error("A", "b"))),
        Err(WeChatPayError::WeChatApiError(_))
    ));
    assert!(matches!(
        parse_response::<String>(502, None, Some(api_error("A", "b"))),
        Err(WeChatPayError::Unknown(_))
    ));
}

#[test]
fn mime_is_chosen_by_file_extension() {
    assert_eq!(mime_for_filename("photo.jpg").unwrap(), "image/jpeg");
    assert_eq!(mime_for_filename("photo.jpeg").unwrap(), "image/jpeg");
    assert_eq!(mime_for_filename("scan.png").unwrap(), "image/png");
    assert_eq!(mime_for_filename("scan.bmp").unwrap(), "image/bmp");
    assert_eq!(mime_for_filename("archive.tar.png").unwrap(), "image/png");
}

#[test]
fn unsupported_extensions_are_rejected() {
    assert!(matches!(
        mime_for_filename("document.pdf"),
        Err(WeChatPayError::Unknown(_))
    ));
    assert!(matches!(
        mime_for_filename("noextension"),
        Err(WeChatPayError::Unknown(_))
    ));
    assert!(matches!(
        mime_for_filename("trailingdot."),
        Err(WeChatPayError::Unknown(_))
    ));
}
