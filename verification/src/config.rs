//! The Configuration Resolver: the fixed, ordered list of configuration
//! rules, and the first-match selection policy over it.
//!
//! Rule order is authoritative: the first rule in declaration order whose
//! matcher accepts an asset's path governs that asset, whether the rule is
//! an exact rule or a pattern rule.
use vstd::prelude::*;
use vstd::string::StringExecFns;
use crate::headers::{
    get_asset_headers,
    well_known_asset_headers,
    spec_asset_headers,
    spec_well_known_headers,
    spec_immutable_cache_control,
    spec_no_cache_cache_control,
};

verus! {

/// One compressible representation a rule allows.
#[derive(Clone, Copy, PartialEq, Eq, Structural, Debug)]
pub enum EncodingKind {
    Identity,
    Brotli,
    Gzip,
}

/// The file-name suffix under which a precompressed variant of an asset is
/// looked up for this encoding.
pub open spec fn spec_encoding_suffix(k: EncodingKind) -> Seq<char> {
    match k {
        EncodingKind::Identity => ""@,
        EncodingKind::Brotli => ".br"@,
        EncodingKind::Gzip => ".gz"@,
    }
}

/// How a pattern rule matches a path.
pub enum PatternMatcher {
    /// Matches every path that ends with `suffix` (a glob `**/*S`).
    Suffix { suffix: String },
    /// Matches every path that starts with `prefix` (a glob `P*`).
    Prefix { prefix: String },
}

/// The mathematical content of a pattern matcher.
#[verifier::ext_equal]
pub enum MatcherView {
    Suffix(Seq<char>),
    Prefix(Seq<char>),
}

impl PatternMatcher {
    pub open spec fn view(&self) -> MatcherView {
        match self {
            PatternMatcher::Suffix { suffix } => MatcherView::Suffix(suffix@),
            PatternMatcher::Prefix { prefix } => MatcherView::Prefix(prefix@),
        }
    }
}

/// An asset this rule serves as fallback for: a path-prefix scope and the
/// status code to answer with.
pub struct FallbackSpec {
    pub scope: String,
    pub status_code: Option<u16>,
}

/// The mathematical content of a fallback entry.
#[verifier::ext_equal]
pub struct FallbackView {
    pub scope: Seq<char>,
    pub status_code: Option<u16>,
}

impl FallbackSpec {
    pub open spec fn view(&self) -> FallbackView {
        FallbackView { scope: self.scope@, status_code: self.status_code }
    }
}

/// One configuration rule: either an exact rule for a single path, with
/// fallback and alias features, or a pattern rule for a family of paths.
pub enum ConfigRule {
    File {
        path: String,
        content_type: Option<String>,
        headers: Vec<(String, String)>,
        fallback_for: Vec<FallbackSpec>,
        aliased_by: Vec<String>,
        encodings: Vec<EncodingKind>,
    },
    Pattern {
        matcher: PatternMatcher,
        content_type: Option<String>,
        headers: Vec<(String, String)>,
        encodings: Vec<EncodingKind>,
    },
}

/// The mathematical content of a configuration rule.
#[verifier::ext_equal]
pub enum RuleView {
    File {
        path: Seq<char>,
        content_type: Option<Seq<char>>,
        headers: Seq<(Seq<char>, Seq<char>)>,
        fallback_for: Seq<FallbackView>,
        aliased_by: Seq<Seq<char>>,
        encodings: Seq<(EncodingKind, Seq<char>)>,
    },
    Pattern {
        matcher: MatcherView,
        content_type: Option<Seq<char>>,
        headers: Seq<(Seq<char>, Seq<char>)>,
        encodings: Seq<(EncodingKind, Seq<char>)>,
    },
}

/// An encoding kind paired with the suffix its precompressed files use.
pub open spec fn spec_encoding_view(k: EncodingKind) -> (EncodingKind, Seq<char>) {
    (k, spec_encoding_suffix(k))
}

impl ConfigRule {
    pub open spec fn view(&self) -> RuleView {
        match self {
            ConfigRule::File { path, content_type, headers, fallback_for, aliased_by, encodings } => RuleView::File {
                path: path@,
                content_type: match content_type {
                    Some(c) => Some(c@),
                    None => None,
                },
                headers: headers.deep_view(),
                fallback_for: fallback_for@.map_values(|f: FallbackSpec| f@),
                aliased_by: aliased_by.deep_view(),
                encodings: encodings@.map_values(|k: EncodingKind| spec_encoding_view(k)),
            },
            ConfigRule::Pattern { matcher, content_type, headers, encodings } => RuleView::Pattern {
                matcher: matcher@,
                content_type: match content_type {
                    Some(c) => Some(c@),
                    None => None,
                },
                headers: headers.deep_view(),
                encodings: encodings@.map_values(|k: EncodingKind| spec_encoding_view(k)),
            },
        }
    }
}

/// True when `s` ends with `suffix`.
pub open spec fn spec_ends_with(s: Seq<char>, suffix: Seq<char>) -> bool {
    s.len() >= suffix.len() && s.subrange(s.len() - suffix.len(), s.len() as int) == suffix
}

/// True when `s` starts with `prefix`.
pub open spec fn spec_starts_with(s: Seq<char>, prefix: Seq<char>) -> bool {
    s.len() >= prefix.len() && s.subrange(0, prefix.len() as int) == prefix
}

/// The matcher's string is literal: it holds no glob metacharacter, so it
/// stands for exactly one glob at the engine boundary.
pub open spec fn spec_matcher_literal(m: MatcherView) -> bool {
    match m {
        MatcherView::Suffix(suffix) => !suffix.contains('*'),
        MatcherView::Prefix(prefix) => !prefix.contains('*'),
    }
}

/// True when the matcher accepts the path.
pub open spec fn spec_matcher_matches(m: MatcherView, path: Seq<char>) -> bool {
    match m {
        MatcherView::Suffix(suffix) => spec_ends_with(path, suffix),
        MatcherView::Prefix(prefix) => spec_starts_with(path, prefix),
    }
}

/// True when the rule governs the path: an exact rule by path equality, a
/// pattern rule by its matcher.
pub open spec fn spec_rule_matches(r: RuleView, path: Seq<char>) -> bool {
    match r {
        RuleView::File { path: rule_path, .. } => rule_path == path,
        RuleView::Pattern { matcher, .. } => spec_matcher_matches(matcher, path),
    }
}

/// Relies on str::starts_with from std: true exactly when the given prefix
/// matches the start of the string.
#[verifier::external_body]
pub(crate) fn str_starts_with(s: &str, prefix: &str) -> (b: bool)
    ensures
        b == spec_starts_with(s@, prefix@),
{
    s.starts_with(prefix)
}

/// Relies on str::ends_with from std: true exactly when the given suffix
/// matches the end of the string.
#[verifier::external_body]
pub(crate) fn str_ends_with(s: &str, suffix: &str) -> (b: bool)
    ensures
        b == spec_ends_with(s@, suffix@),
{
    s.ends_with(suffix)
}

/// True exactly when `rule` governs `path`.
pub fn rule_matches(rule: &ConfigRule, path: &String) -> (b: bool)
    ensures
        b == spec_rule_matches(rule@, path@),
{
    match rule {
        ConfigRule::File { path: rule_path, .. } => *rule_path == *path,
        ConfigRule::Pattern { matcher, .. } => {
            match matcher {
                PatternMatcher::Suffix { suffix } => str_ends_with(path.as_str(), suffix.as_str()),
                PatternMatcher::Prefix { prefix } => str_starts_with(
                    path.as_str(),
                    prefix.as_str(),
                ),
            }
        },
    }
}

/// The index `i` is the rule selected for `path`: rule `i` matches and no
/// earlier rule does.
pub open spec fn spec_is_selected(rules: Seq<RuleView>, path: Seq<char>, i: int) -> bool {
    &&& 0 <= i < rules.len()
    &&& spec_rule_matches(rules[i], path)
    &&& forall|j: int| 0 <= j < i ==> !spec_rule_matches(#[trigger] rules[j], path)
}

/// Returns the first rule, in declaration order, that governs `path`, or
/// `None` when no rule does.
pub fn select_rule(rules: &Vec<ConfigRule>, path: &String) -> (r: Option<usize>)
    ensures
        match r {
            Some(i) => spec_is_selected(rules@.map_values(|c: ConfigRule| c@), path@, i as int),
            None => forall|j: int| 0 <= j < rules@.len() ==> !spec_rule_matches(
                (#[trigger] rules@[j])@,
                path@,
            ),
        },
{
    let mut i: usize = 0;
    while i < rules.len()
        invariant
            i <= rules.len(),
            forall|j: int| 0 <= j < i ==> !spec_rule_matches((#[trigger] rules@[j])@, path@),
        decreases rules.len() - i,
    {
        if rule_matches(&rules[i], path) {
            return Some(i);
        }
        i = i + 1;
    }
    None
}

/// Rule coverage: whenever some rule matches a path, exactly one rule is
/// selected by the first-match policy — one selected index exists, and any
/// two selected indices are equal.
pub proof fn lemma_rule_coverage(rules: Seq<RuleView>, path: Seq<char>)
    requires
        exists|j: int| 0 <= j < rules.len() && spec_rule_matches(#[trigger] rules[j], path),
    ensures
        exists|i: int| spec_is_selected(rules, path, i),
        forall|i1: int, i2: int|
            spec_is_selected(rules, path, i1) && spec_is_selected(rules, path, i2) ==> i1 == i2,
{
    let j = choose|j: int| 0 <= j < rules.len() && spec_rule_matches(#[trigger] rules[j], path);
    lemma_first_match_exists(rules, path, j);
    assert forall|i1: int, i2: int|
        spec_is_selected(rules, path, i1) && spec_is_selected(rules, path, i2) implies i1
        == i2 by {
        if i1 < i2 {
            assert(!spec_rule_matches(rules[i1], path));
        }
        if i2 < i1 {
            assert(!spec_rule_matches(rules[i2], path));
        }
    }
}

/// The session cookie header injected into the root document's rule: it
/// binds the response to the process's own address.
pub open spec fn spec_session_cookie(canister_id: Seq<char>) -> (Seq<char>, Seq<char>) {
    ("set-cookie"@, "canisterId="@ + canister_id)
}

/// A cacheable-forever pattern rule for one recognized file suffix. Every
/// such rule advertises brotli and gzip, in that preference order.
pub open spec fn spec_cached_suffix_rule(suffix: Seq<char>, content_type: Seq<char>) -> RuleView {
    RuleView::Pattern {
        matcher: MatcherView::Suffix(suffix),
        content_type: Some(content_type),
        headers: spec_asset_headers(seq![("cache-control"@, spec_immutable_cache_control())]),
        encodings: seq![
            spec_encoding_view(EncodingKind::Brotli),
            spec_encoding_view(EncodingKind::Gzip),
        ],
    }
}

/// The fixed, hand-curated rule list, in authoritative order: the root
/// document (uncacheable, fallback for the whole path space, aliased from
/// the root, carrying the session cookie), one cacheable pattern rule per
/// recognized static file suffix, the well-known metadata prefix, and the
/// exact identity-linkage file.
pub open spec fn spec_asset_configs(canister_id: Seq<char>) -> Seq<RuleView> {
    seq![
        RuleView::File {
            path: "index.html"@,
            content_type: Some("text/html"@),
            headers: spec_asset_headers(
                seq![
                    ("cache-control"@, spec_no_cache_cache_control()),
                    spec_session_cookie(canister_id),
                ],
            ),
            fallback_for: seq![FallbackView { scope: "/"@, status_code: Some(200u16) }],
            aliased_by: seq!["/"@],
            encodings: seq![
                spec_encoding_view(EncodingKind::Brotli),
                spec_encoding_view(EncodingKind::Gzip),
            ],
        },
        spec_cached_suffix_rule(".js"@, "text/javascript"@),
        spec_cached_suffix_rule(".css"@, "text/css"@),
        spec_cached_suffix_rule(".png"@, "image/png"@),
        spec_cached_suffix_rule(".svg"@, "image/svg+xml"@),
        spec_cached_suffix_rule(".txt"@, "text/plain"@),
        spec_cached_suffix_rule(".ico"@, "image/x-icon"@),
        spec_cached_suffix_rule(".otf"@, "application/x-font-opentype"@),
        RuleView::Pattern {
            matcher: MatcherView::Prefix("/.well-known/"@),
            content_type: None,
            headers: spec_well_known_headers(),
            encodings: Seq::empty(),
        },
        RuleView::File {
            path: "/.well-known/ii-alternative-origins"@,
            content_type: Some("application/json"@),
            headers: spec_well_known_headers(),
            fallback_for: Seq::empty(),
            aliased_by: Seq::empty(),
            encodings: Seq::empty(),
        },
    ]
}

fn cached_suffix_rule(suffix: &str, content_type: &str) -> (r: ConfigRule)
    ensures
        r@ == spec_cached_suffix_rule(suffix@, content_type@),
{
    let mut extra: Vec<(String, String)> = Vec::new();
    extra.push(
        (
            String::from_str("cache-control"),
            String::from_str("public, max-age=31536000, immutable"),
        ),
    );
    let headers = get_asset_headers(extra);
    let mut encodings: Vec<EncodingKind> = Vec::new();
    encodings.push(EncodingKind::Brotli);
    encodings.push(EncodingKind::Gzip);
    let r = ConfigRule::Pattern {
        matcher: PatternMatcher::Suffix { suffix: String::from_str(suffix) },
        content_type: Some(String::from_str(content_type)),
        headers,
        encodings,
    };
    proof {
        assert(r@ =~= spec_cached_suffix_rule(suffix@, content_type@));
    }
    r
}

/// Derives the whole configuration: the ordered rule list of
/// `spec_asset_configs`, with the session cookie built from the process's
/// own textual address.
pub fn resolve_asset_configs(canister_id: &String) -> (rules: Vec<ConfigRule>)
    ensures
        rules@.map_values(|c: ConfigRule| c@) == spec_asset_configs(canister_id@),
{
    let mut rules: Vec<ConfigRule> = Vec::new();
    let mut extra: Vec<(String, String)> = Vec::new();
    extra.push(
        (String::from_str("cache-control"), String::from_str("public, no-cache, no-store")),
    );
    extra.push(
        (
            String::from_str("set-cookie"),
            String::from_str("canisterId=").concat(canister_id.as_str()),
        ),
    );
    let headers = get_asset_headers(extra);
    let mut fallback_for: Vec<FallbackSpec> = Vec::new();
    fallback_for.push(FallbackSpec { scope: String::from_str("/"), status_code: Some(200) });
    let mut aliased_by: Vec<String> = Vec::new();
    aliased_by.push(String::from_str("/"));
    let mut encodings: Vec<EncodingKind> = Vec::new();
    encodings.push(EncodingKind::Brotli);
    encodings.push(EncodingKind::Gzip);
    let root_rule = ConfigRule::File {
        path: String::from_str("index.html"),
        content_type: Some(String::from_str("text/html")),
        headers,
        fallback_for,
        aliased_by,
        encodings,
    };
    proof {
        assert(root_rule@ =~= spec_asset_configs(canister_id@)[0]);
    }
    rules.push(root_rule);
    rules.push(cached_suffix_rule(".js", "text/javascript"));
    rules.push(cached_suffix_rule(".css", "text/css"));
    rules.push(cached_suffix_rule(".png", "image/png"));
    rules.push(cached_suffix_rule(".svg", "image/svg+xml"));
    rules.push(cached_suffix_rule(".txt", "text/plain"));
    rules.push(cached_suffix_rule(".ico", "image/x-icon"));
    rules.push(cached_suffix_rule(".otf", "application/x-font-opentype"));
    let wk_pattern = ConfigRule::Pattern {
        matcher: PatternMatcher::Prefix { prefix: String::from_str("/.well-known/") },
        content_type: None,
        headers: well_known_asset_headers(),
        encodings: Vec::new(),
    };
    proof {
        assert(wk_pattern@ =~= spec_asset_configs(canister_id@)[8]);
    }
    rules.push(wk_pattern);
    let wk_file = ConfigRule::File {
        path: String::from_str("/.well-known/ii-alternative-origins"),
        content_type: Some(String::from_str("application/json")),
        headers: well_known_asset_headers(),
        fallback_for: Vec::new(),
        aliased_by: Vec::new(),
        encodings: Vec::new(),
    };
    proof {
        assert(wk_file@ =~= spec_asset_configs(canister_id@)[9]);
    }
    rules.push(wk_file);
    proof {
        assert(rules@.map_values(|c: ConfigRule| c@) =~= spec_asset_configs(canister_id@));
    }
    rules
}

proof fn lemma_first_match_exists(rules: Seq<RuleView>, path: Seq<char>, j: int)
    requires
        0 <= j < rules.len(),
        spec_rule_matches(rules[j], path),
    ensures
        exists|i: int| spec_is_selected(rules, path, i),
    decreases j,
{
    if forall|k: int| 0 <= k < j ==> !spec_rule_matches(#[trigger] rules[k], path) {
        assert(spec_is_selected(rules, path, j));
    } else {
        let k = choose|k: int| 0 <= k < j && spec_rule_matches(#[trigger] rules[k], path);
        lemma_first_match_exists(rules, path, k);
    }
}

} // verus!
