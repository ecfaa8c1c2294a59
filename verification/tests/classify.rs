use wx_js_sdk::capability::ChooseImageResult;
use wx_js_sdk::capability::UploadImageResult;
use wx_js_sdk::envelope::WxResponse;
use wx_js_sdk::error::JSApiError;

fn choose_envelope(err_msg: &str, local_ids: Option<Vec<String>>) -> WxResponse<ChooseImageResult> {
    WxResponse {
        err_msg: err_msg.to_string(),
        value: local_ids.map(|ids| ChooseImageResult { local_ids: ids }),
    }
}

#[test]
fn into_result_ok_with_payload() {
    let resp = WxResponse {
        err_msg: "uploadImage:ok".to_string(),
        value: Some(UploadImageResult {
            server_id: "srv7".to_string(),
        }),
    };
    let v = resp.into_result().expect("success outcome with payload");
    assert_eq!(v.server_id, "srv7");
}

#[test]
fn into_result_ok_without_payload_is_malformed() {
    let resp: WxResponse<UploadImageResult> = WxResponse {
        err_msg: "uploadImage:ok".to_string(),
        value: None,
    };
    let e = resp.into_result().unwrap_err();
    assert_eq!(e, JSApiError::MalformedSuccess);
}

#[test]
fn into_result_fail_preserves_message_verbatim() {
    // Host reports: {errMsg:"uploadImage:fail system error"}.
    let resp: WxResponse<UploadImageResult> = WxResponse {
        err_msg: "uploadImage:fail system error".to_string(),
        value: None,
    };
    let e = resp.into_result().unwrap_err();
    assert_eq!(
        e,
        JSApiError::ApiError {
            message: "uploadImage:fail system error".to_string()
        }
    );
}

#[test]
fn into_result_treats_cancel_as_api_error() {
    // A capability without cancel semantics reports an unexpected
    // ":cancel" suffix as an API error carrying the raw string.
    let resp: WxResponse<UploadImageResult> = WxResponse {
        err_msg: "uploadImage:cancel".to_string(),
        value: None,
    };
    let e = resp.into_result().unwrap_err();
    assert_eq!(
        e,
        JSApiError::ApiError {
            message: "uploadImage:cancel".to_string()
        }
    );
}

#[test]
fn into_result_empty_outcome_is_api_error() {
    let resp: WxResponse<UploadImageResult> = WxResponse {
        err_msg: String::new(),
        value: None,
    };
    let e = resp.into_result().unwrap_err();
    assert_eq!(
        e,
        JSApiError::ApiError {
            message: String::new()
        }
    );
}

#[test]
fn into_result_bare_ok_suffix_succeeds() {
    // The whole outcome string may be nothing but the suffix itself.
    let resp = WxResponse {
        err_msg: ":ok".to_string(),
        value: Some(UploadImageResult {
            server_id: "s".to_string(),
        }),
    };
    assert!(resp.into_result().is_ok());
}

#[test]
fn into_result_ok_must_be_suffix_not_substring() {
    // ":ok" in the middle of the string is not a success tag.
    let resp: WxResponse<UploadImageResult> = WxResponse {
        err_msg: "x:ok:fail".to_string(),
        value: None,
    };
    let e = resp.into_result().unwrap_err();
    assert_eq!(
        e,
        JSApiError::ApiError {
            message: "x:ok:fail".to_string()
        }
    );
}

#[test]
fn into_result_suffix_is_case_sensitive() {
    let resp: WxResponse<UploadImageResult> = WxResponse {
        err_msg: "uploadImage:OK".to_string(),
        value: None,
    };
    assert!(resp.into_result().is_err());
}

#[test]
fn into_cancel_result_ok_with_payload() {
    // Host chooseImage returns {errMsg:"chooseImage:ok", localIds:["wx1"]}.
    let resp = choose_envelope("chooseImage:ok", Some(vec!["wx1".to_string()]));
    let v = resp
        .into_cancel_result()
        .expect("success outcome with payload")
        .expect("payload present");
    assert_eq!(v.local_ids, vec!["wx1".to_string()]);
}

#[test]
fn into_cancel_result_cancel_yields_none() {
    // Host chooseImage returns {errMsg:"chooseImage:cancel"}: a valid
    // business outcome, not an error.
    let resp = choose_envelope("chooseImage:cancel", None);
    let v = resp.into_cancel_result().expect("cancel is not an error");
    assert!(v.is_none());
}

#[test]
fn into_cancel_result_cancel_ignores_payload() {
    // ":cancel" wins regardless of payload presence.
    let resp = choose_envelope("chooseImage:cancel", Some(vec!["wx9".to_string()]));
    let v = resp.into_cancel_result().expect("cancel is not an error");
    assert!(v.is_none());
}

#[test]
fn into_cancel_result_ok_without_payload_is_malformed() {
    let resp = choose_envelope("chooseImage:ok", None);
    let e = resp.into_cancel_result().unwrap_err();
    assert_eq!(e, JSApiError::MalformedSuccess);
}

#[test]
fn into_cancel_result_other_suffix_is_api_error() {
    let resp = choose_envelope("chooseImage:fail no permission", None);
    let e = resp.into_cancel_result().unwrap_err();
    assert_eq!(
        e,
        JSApiError::ApiError {
            message: "chooseImage:fail no permission".to_string()
        }
    );
}
