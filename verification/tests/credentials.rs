use wx_js_sdk::credentials::build_config;
use wx_js_sdk::credentials::default_js_api_list;
use wx_js_sdk::credentials::default_open_tag_list;
use wx_js_sdk::credentials::sign_url_path;
use wx_js_sdk::credentials::SignUrlResponse;

#[test]
fn signing_result_is_carried_into_config() {
    // Signing endpoint answered {sign:"S", timestamp:1700000000,
    // noncestr:"N"} for the page URL: the configure payload must carry
    // signature "S", the timestamp, nonce "N" and the application id.
    let sign = SignUrlResponse {
        sign: "S".to_string(),
        timestamp: 1700000000,
        noncestr: "N".to_string(),
    };
    let c = build_config(
        false,
        "wx823ba6aecdee1404".to_string(),
        sign,
        default_js_api_list(),
        default_open_tag_list(),
    );
    assert_eq!(c.signature, "S");
    assert_eq!(c.timestamp, 1700000000);
    assert_eq!(c.nonce_str, "N");
    assert_eq!(c.app_id, "wx823ba6aecdee1404");
    assert!(!c.debug);
}

#[test]
fn config_keeps_capability_lists() {
    let sign = SignUrlResponse {
        sign: "sig".to_string(),
        timestamp: 1,
        noncestr: "n".to_string(),
    };
    let c = build_config(
        true,
        "app".to_string(),
        sign,
        vec!["chooseImage".to_string()],
        vec![],
    );
    assert!(c.debug);
    assert_eq!(c.js_api_list, vec!["chooseImage".to_string()]);
    assert!(c.open_tag_list.is_empty());
}

#[test]
fn signing_endpoint_path_is_fixed() {
    assert_eq!(sign_url_path(), "/api/wx/jsapi/sign-url");
}

#[test]
fn default_api_list_names_the_image_capabilities() {
    let l = default_js_api_list();
    assert_eq!(
        l,
        vec![
            "uploadImage".to_string(),
            "chooseImage".to_string(),
            "downloadImage".to_string()
        ]
    );
}

#[test]
fn default_open_tag_list_names_the_launch_tag() {
    assert_eq!(
        default_open_tag_list(),
        vec!["wx-open-launch-weapp".to_string()]
    );
}
