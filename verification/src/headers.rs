//! Header Policy: the fixed baseline of security headers, concatenated with
//! per-rule extra headers.
//!
//! The policy is a pure function: the certifying engine commits to header
//! bytes, so the same extra headers must always yield the same output.
use vstd::prelude::*;
use vstd::string::StringExecFns;

verus! {

/// The value sent for `cache-control` on assets that never change.
pub open spec fn spec_immutable_cache_control() -> Seq<char> {
    "public, max-age=31536000, immutable"@
}

/// The value sent for `cache-control` on assets that must be revalidated.
pub open spec fn spec_no_cache_cache_control() -> Seq<char> {
    "public, no-cache, no-store"@
}

/// The fixed baseline security header set, in the order it is emitted.
pub open spec fn baseline_headers() -> Seq<(Seq<char>, Seq<char>)> {
    seq![
        ("strict-transport-security"@, "max-age=31536000; includeSubDomains"@),
        ("x-frame-options"@, "DENY"@),
        ("x-content-type-options"@, "nosniff"@),
        ("content-security-policy"@, "default-src 'self';script-src 'self' 'unsafe-inline' 'unsafe-eval';connect-src 'self' http://localhost:* https://icp0.io https://*.icp0.io https://icp-api.io https://fastly.jsdelivr.net;img-src 'self' https://*.icp0.io data: blob:;style-src * 'unsafe-inline';style-src-elem * 'unsafe-inline';font-src *;object-src 'none';media-src 'self' data:;base-uri 'self';frame-ancestors 'none';form-action 'self';upgrade-insecure-requests"@),
        ("referrer-policy"@, "same-origin"@),
        ("permissions-policy"@, "accelerometer=(), ambient-light-sensor=(), autoplay=(), battery=(), camera=(self), cross-origin-isolated=(), display-capture=(), document-domain=(), encrypted-media=(), execution-while-not-rendered=(), execution-while-out-of-viewport=(), fullscreen=(), geolocation=(), gyroscope=(), keyboard-map=(), magnetometer=(), microphone=(), midi=(), navigation-override=(), payment=(), picture-in-picture=(), publickey-credentials-get=(), screen-wake-lock=(), sync-xhr=(), usb=(), web-share=(), xr-spatial-tracking=(), clipboard-read=(), clipboard-write=(self), gamepad=(), speaker-selection=(), conversion-measurement=(), focus-without-user-activation=(), hid=(), idle-detection=(), interest-cohort=(), serial=(), sync-script=(), trust-token-redemption=(), window-placement=(), vertical-scroll=()"@),
        ("x-xss-protection"@, "1; mode=block"@),
    ]
}

/// What the Header Policy returns: the baseline followed by the caller's
/// extra pairs, order kept, nothing merged or deduplicated.
pub open spec fn spec_asset_headers(extra: Seq<(Seq<char>, Seq<char>)>) -> Seq<
    (Seq<char>, Seq<char>),
> {
    baseline_headers() + extra
}

/// Returns the baseline security headers followed by `additional_headers`,
/// in that order.
pub fn get_asset_headers(additional_headers: Vec<(String, String)>) -> (r: Vec<(String, String)>)
    ensures
        r.deep_view() == spec_asset_headers(additional_headers.deep_view()),
{
    let mut extra = additional_headers;
    let ghost extra_view = extra.deep_view();
    let mut headers: Vec<(String, String)> = Vec::new();
    headers.push(
        (
            String::from_str("strict-transport-security"),
            String::from_str("max-age=31536000; includeSubDomains"),
        ),
    );
    headers.push((String::from_str("x-frame-options"), String::from_str("DENY")));
    headers.push((String::from_str("x-content-type-options"), String::from_str("nosniff")));
    headers.push(
        (
            String::from_str("content-security-policy"),
            String::from_str(
                "default-src 'self';script-src 'self' 'unsafe-inline' 'unsafe-eval';connect-src 'self' http://localhost:* https://icp0.io https://*.icp0.io https://icp-api.io https://fastly.jsdelivr.net;img-src 'self' https://*.icp0.io data: blob:;style-src * 'unsafe-inline';style-src-elem * 'unsafe-inline';font-src *;object-src 'none';media-src 'self' data:;base-uri 'self';frame-ancestors 'none';form-action 'self';upgrade-insecure-requests",
            ),
        ),
    );
    headers.push((String::from_str("referrer-policy"), String::from_str("same-origin")));
    headers.push(
        (
            String::from_str("permissions-policy"),
            String::from_str(
                "accelerometer=(), ambient-light-sensor=(), autoplay=(), battery=(), camera=(self), cross-origin-isolated=(), display-capture=(), document-domain=(), encrypted-media=(), execution-while-not-rendered=(), execution-while-out-of-viewport=(), fullscreen=(), geolocation=(), gyroscope=(), keyboard-map=(), magnetometer=(), microphone=(), midi=(), navigation-override=(), payment=(), picture-in-picture=(), publickey-credentials-get=(), screen-wake-lock=(), sync-xhr=(), usb=(), web-share=(), xr-spatial-tracking=(), clipboard-read=(), clipboard-write=(self), gamepad=(), speaker-selection=(), conversion-measurement=(), focus-without-user-activation=(), hid=(), idle-detection=(), interest-cohort=(), serial=(), sync-script=(), trust-token-redemption=(), window-placement=(), vertical-scroll=()",
            ),
        ),
    );
    headers.push((String::from_str("x-xss-protection"), String::from_str("1; mode=block")));
    let ghost base = headers.deep_view();
    proof {
        assert(base =~= baseline_headers());
    }
    headers.append(&mut extra);
    proof {
        assert(headers.deep_view() =~= spec_asset_headers(extra_view));
    }
    headers
}

/// The headers served for files under the well-known metadata prefix:
/// the baseline, then an uncacheable cache policy, then an open
/// cross-origin policy.
pub open spec fn spec_well_known_headers() -> Seq<(Seq<char>, Seq<char>)> {
    spec_asset_headers(
        seq![
            ("cache-control"@, spec_no_cache_cache_control()),
            ("access-control-allow-origin"@, "*"@),
        ],
    )
}

/// Returns the headers for assets under the well-known metadata prefix.
pub fn well_known_asset_headers() -> (r: Vec<(String, String)>)
    ensures
        r.deep_view() == spec_well_known_headers(),
{
    let mut extra: Vec<(String, String)> = Vec::new();
    extra.push(
        (String::from_str("cache-control"), String::from_str("public, no-cache, no-store")),
    );
    extra.push((String::from_str("access-control-allow-origin"), String::from_str("*")));
    let r = get_asset_headers(extra);
    proof {
        assert(r.deep_view() =~= spec_well_known_headers());
    }
    r
}

/// Header stability: the Header Policy is a pure function of its input, so
/// two calls on identical extra-header lists yield identical ordered output.
pub proof fn lemma_header_policy_stable(
    extra1: Seq<(Seq<char>, Seq<char>)>,
    extra2: Seq<(Seq<char>, Seq<char>)>,
)
    requires
        extra1 == extra2,
    ensures
        spec_asset_headers(extra1) == spec_asset_headers(extra2),
{
}

} // verus!
