//! The signing round trip and the configuration payload built from it.
//!
//! The signing endpoint receives the canonical page URL and answers with a
//! signature over it; the handshake then sends the host a configuration
//! payload carrying that signature, the application identity, and the list
//! of capabilities the page intends to use. The payload is built once per
//! configuration cycle and handed to the host as a fire-and-forget side
//! effect; it is not retained.

use vstd::prelude::*;

verus! {

/// What the signing endpoint answers: a signature over the canonical page
/// URL, with the timestamp and nonce it was computed from. Transient; lives
/// for one signing round trip.
#[derive(Debug)]
pub struct SignUrlResponse {
    pub sign: String,
    pub timestamp: u32,
    pub noncestr: String,
}

/// The configuration payload of the handshake. At the wire boundary its
/// fields are spelled in the host's fixed camel-case form (`appId`,
/// `nonceStr`, `jsApiList`, `openTagList`).
#[derive(Debug)]
pub struct Config {
    pub debug: bool,
    pub app_id: String,
    pub timestamp: u32,
    pub nonce_str: String,
    pub signature: String,
    pub js_api_list: Vec<String>,
    pub open_tag_list: Vec<String>,
}

/// Build the configuration payload of one handshake: the signing result is
/// carried over field by field — `sign` as the signature, `noncestr` as the
/// nonce, the timestamp unchanged — under the given application identity
/// and capability lists.
pub fn build_config(
    debug: bool,
    app_id: String,
    sign: SignUrlResponse,
    js_api_list: Vec<String>,
    open_tag_list: Vec<String>,
) -> (c: Config)
    ensures
        c.debug == debug,
        c.app_id == app_id,
        c.timestamp == sign.timestamp,
        c.nonce_str == sign.noncestr,
        c.signature == sign.sign,
        c.js_api_list == js_api_list,
        c.open_tag_list == open_tag_list,
{
    Config {
        debug,
        app_id,
        timestamp: sign.timestamp,
        nonce_str: sign.noncestr,
        signature: sign.sign,
        js_api_list,
        open_tag_list,
    }
}

/// The fixed path of the signing endpoint: the canonical page URL is sent
/// there as the plain-text body of a POST.
pub fn sign_url_path() -> (r: &'static str)
    ensures
        r@ == "/api/wx/jsapi/sign-url"@,
{
    "/api/wx/jsapi/sign-url"
}

/// The capabilities this page intends to use, as sent in `jsApiList`.
pub fn default_js_api_list() -> (r: Vec<String>)
    ensures
        r@.len() == 3,
        r@[0]@ == "uploadImage"@,
        r@[1]@ == "chooseImage"@,
        r@[2]@ == "downloadImage"@,
{
    let mut v: Vec<String> = Vec::new();
    v.push("uploadImage".to_owned());
    v.push("chooseImage".to_owned());
    v.push("downloadImage".to_owned());
    v
}

/// The open tags this page intends to use, as sent in `openTagList`.
pub fn default_open_tag_list() -> (r: Vec<String>)
    ensures
        r@.len() == 1,
        r@[0]@ == "wx-open-launch-weapp"@,
{
    let mut v: Vec<String> = Vec::new();
    v.push("wx-open-launch-weapp".to_owned());
    v
}

} // verus!
