//! The boundary to the external certifying/serving engine.
//!
//! Everything the engine computes is opaque to this library; each item here
//! declares one engine type or relies on one engine function, stating only
//! what the engine's own source and documentation show.
use vstd::prelude::*;
use crate::config::{
    EncodingKind,
    FallbackView,
    RuleView,
    spec_encoding_suffix,
    spec_matcher_literal,
};
use crate::tree::spec_paths_distinct;

verus! {

#[verifier::external_type_specification]
#[verifier::external_body]
pub struct ExAssetRouter<'content>(ic_asset_certification::AssetRouter<'content>);

#[verifier::external_type_specification]
#[verifier::external_body]
pub struct ExAsset<'content, 'path>(ic_asset_certification::Asset<'content, 'path>);

#[verifier::external_type_specification]
#[verifier::external_body]
pub struct ExAssetConfig(ic_asset_certification::AssetConfig);

#[verifier::external_type_specification]
#[verifier::external_body]
pub struct ExAssetFallbackConfig(ic_asset_certification::AssetFallbackConfig);

#[verifier::external_type_specification]
#[verifier::external_body]
pub struct ExAssetEncoding(ic_asset_certification::AssetEncoding);

#[verifier::external_type_specification]
#[verifier::external_body]
pub struct ExAssetCertificationError(ic_asset_certification::AssetCertificationError);

#[verifier::external_type_specification]
#[verifier::external_body]
pub struct ExHttpRequest<'a>(ic_http_certification::HttpRequest<'a>);

#[verifier::external_type_specification]
#[verifier::external_body]
pub struct ExHttpResponse<'a>(ic_http_certification::HttpResponse<'a>);

/// The path and content an engine asset was built from.
pub uninterp spec fn asset_model(a: ic_asset_certification::Asset<'static, 'static>) -> (
    Seq<char>,
    Seq<u8>,
);

/// The rule an engine configuration was built from.
pub uninterp spec fn config_model(c: ic_asset_certification::AssetConfig) -> RuleView;

/// The scope and status code an engine fallback entry was built from.
pub uninterp spec fn fallback_model(f: ic_asset_certification::AssetFallbackConfig) -> FallbackView;

/// The encoding kind an engine encoding value stands for.
pub uninterp spec fn encoding_model(e: ic_asset_certification::AssetEncoding) -> EncodingKind;

/// The asset list and rule list a freshly certified router was built from
/// and serves.
pub uninterp spec fn router_contents(r: ic_asset_certification::AssetRouter<'static>) -> (
    Seq<(Seq<char>, Seq<u8>)>,
    Seq<RuleView>,
);

/// The root hash a router currently commits to.
pub uninterp spec fn router_digest(r: ic_asset_certification::AssetRouter<'static>) -> Seq<u8>;

/// Relies on ic_asset_certification::Asset::new: the returned asset holds
/// exactly the given path and content (plus a URL derived from the path
/// alone).
#[verifier::external_body]
pub(crate) fn asset_new(path: String, content: Vec<u8>) -> (a: ic_asset_certification::Asset<
    'static,
    'static,
>)
    ensures
        asset_model(a) == (path@, content@),
{
    ic_asset_certification::Asset::new(path, content)
}

/// Relies on ic_asset_certification::AssetFallbackConfig being a plain
/// record of scope and optional status code, and on StatusCode::from_u16,
/// which accepts every code in 100..1000.
#[verifier::external_body]
pub(crate) fn fallback_new(scope: String, status_code: Option<u16>) -> (f:
    ic_asset_certification::AssetFallbackConfig)
    requires
        status_code matches Some(s) ==> 100 <= s < 1000,
    ensures
        fallback_model(f) == (FallbackView { scope: scope@, status_code }),
{
    ic_asset_certification::AssetFallbackConfig {
        scope,
        status_code: status_code.map(
            |s| ic_http_certification::StatusCode::from_u16(s).unwrap(),
        ),
    }
}

/// Relies on ic_asset_certification::AssetEncoding::default_config: it
/// returns the encoding itself and its default file extension, which is
/// empty for identity, ".br" for brotli and ".gz" for gzip.
#[verifier::external_body]
pub(crate) fn encoding_default(kind: &EncodingKind) -> (e: (
    ic_asset_certification::AssetEncoding,
    String,
))
    ensures
        encoding_model(e.0) == *kind,
        e.1@ == spec_encoding_suffix(*kind),
{
    match kind {
        EncodingKind::Identity => ic_asset_certification::AssetEncoding::Identity.default_config(),
        EncodingKind::Brotli => ic_asset_certification::AssetEncoding::Brotli.default_config(),
        EncodingKind::Gzip => ic_asset_certification::AssetEncoding::Gzip.default_config(),
    }
}

/// Relies on ic_asset_certification::AssetConfig::File being a plain record
/// of the given fields.
#[verifier::external_body]
pub(crate) fn config_file_new(
    path: String,
    content_type: Option<String>,
    headers: Vec<(String, String)>,
    fallback_for: Vec<ic_asset_certification::AssetFallbackConfig>,
    aliased_by: Vec<String>,
    encodings: Vec<(ic_asset_certification::AssetEncoding, String)>,
) -> (c: ic_asset_certification::AssetConfig)
    ensures
        config_model(c) == (RuleView::File {
            path: path@,
            content_type: match content_type {
                Some(t) => Some(t@),
                None => None,
            },
            headers: headers.deep_view(),
            fallback_for: fallback_for@.map_values(
                |f: ic_asset_certification::AssetFallbackConfig| fallback_model(f),
            ),
            aliased_by: aliased_by.deep_view(),
            encodings: encodings@.map_values(
                |e: (ic_asset_certification::AssetEncoding, String)| (encoding_model(e.0), e.1@),
            ),
        }),
{
    ic_asset_certification::AssetConfig::File {
        path,
        content_type,
        headers,
        fallback_for,
        aliased_by,
        encodings,
    }
}

/// Relies on ic_asset_certification::AssetConfig::Pattern being a plain
/// record of the given fields; the glob handed to the engine is written
/// "**/*S" for a suffix matcher S and "P*" for a prefix matcher P. The
/// matcher string must be free of the glob metacharacter: only then does
/// each glob come from at most one matcher, so that structurally equal
/// configurations never stand for two different rules.
#[verifier::external_body]
pub(crate) fn config_pattern_new(
    matcher: &crate::config::PatternMatcher,
    content_type: Option<String>,
    headers: Vec<(String, String)>,
    encodings: Vec<(ic_asset_certification::AssetEncoding, String)>,
) -> (c: ic_asset_certification::AssetConfig)
    requires
        spec_matcher_literal(matcher@),
    ensures
        config_model(c) == (RuleView::Pattern {
            matcher: matcher@,
            content_type: match content_type {
                Some(t) => Some(t@),
                None => None,
            },
            headers: headers.deep_view(),
            encodings: encodings@.map_values(
                |e: (ic_asset_certification::AssetEncoding, String)| (encoding_model(e.0), e.1@),
            ),
        }),
{
    let pattern = match matcher {
        crate::config::PatternMatcher::Suffix { suffix } => format!("**/*{}", suffix),
        crate::config::PatternMatcher::Prefix { prefix } => format!("{}*", prefix),
    };
    ic_asset_certification::AssetConfig::Pattern { pattern, content_type, headers, encodings }
}

/// Relies on ic_asset_certification::AssetRouter::new and
/// AssetRouter::certify_assets: certifying a fresh router builds its
/// certified responses from the given assets and configurations alone; on
/// failure the router is dropped and nothing is committed. The asset paths
/// must be distinct: the engine gathers the assets into a map keyed by
/// path, so of two assets under one path only one would be certified and
/// served. Nothing is said of the root hash value: the engine inserts the
/// responses into its red-black certification tree in the order of a
/// hash-map walk, and the tree's root hash depends on the resulting shape,
/// so equal inputs can commit to different digests.
#[verifier::external_body]
pub(crate) fn certify_into_router(
    assets: Vec<ic_asset_certification::Asset<'static, 'static>>,
    configs: Vec<ic_asset_certification::AssetConfig>,
) -> (r: Result<
    ic_asset_certification::AssetRouter<'static>,
    ic_asset_certification::AssetCertificationError,
>)
    requires
        spec_paths_distinct(
            assets@.map_values(|a: ic_asset_certification::Asset<'static, 'static>| asset_model(a)),
        ),
    ensures
        r matches Ok(router) ==> router_contents(router) == (
            assets@.map_values(|a: ic_asset_certification::Asset<'static, 'static>| asset_model(a)),
            configs@.map_values(|c: ic_asset_certification::AssetConfig| config_model(c)),
        ),
{
    let mut router = ic_asset_certification::AssetRouter::new();
    match router.certify_assets(assets, configs) {
        Ok(()) => Ok(router),
        Err(e) => Err(e),
    }
}

/// Relies on ic_asset_certification::AssetRouter::root_hash: it returns the
/// root hash of the router's certification tree.
#[verifier::external_body]
pub(crate) fn router_root_hash(router: &ic_asset_certification::AssetRouter<'static>) -> (h: Vec<
    u8,
>)
    ensures
        h@ == router_digest(*router),
{
    router.root_hash().to_vec()
}

/// What the serving engine answers for a router, a data certificate and a
/// request: serve_asset reads nothing but its arguments, so its outcome is
/// a function of them.
pub uninterp spec fn serve_model(
    router: ic_asset_certification::AssetRouter<'static>,
    data_certificate: Seq<u8>,
    request: ic_http_certification::HttpRequest<'static>,
) -> Result<
    ic_http_certification::HttpResponse<'static>,
    ic_asset_certification::AssetCertificationError,
>;

/// Relies on ic_asset_certification::AssetRouter::serve_asset: it answers
/// the request from the router's certified responses, attaching a proof
/// built from the given data certificate, or reports why it cannot.
#[verifier::external_body]
pub(crate) fn router_serve(
    router: &ic_asset_certification::AssetRouter<'static>,
    data_certificate: &Vec<u8>,
    request: &ic_http_certification::HttpRequest<'static>,
) -> (r: Result<
    ic_http_certification::HttpResponse<'static>,
    ic_asset_certification::AssetCertificationError,
>)
    ensures
        r == serve_model(*router, data_certificate@, *request),
{
    router.serve_asset(data_certificate.as_slice(), request)
}

/// Relies on the error description of
/// ic_asset_certification::AssetCertificationError.
#[verifier::external_body]
pub(crate) fn engine_error_text(e: &ic_asset_certification::AssetCertificationError) -> String {
    format!("{e}")
}

} // verus!
