//! The Certification Orchestrator and the Request Server.
//!
//! Certification collects the embedded tree, derives the configuration
//! rules, hands both to the certifying engine, and — only on success —
//! replaces the process state wholesale with the fresh router and its root
//! digest. Serving answers read requests against that committed state and
//! refuses to serve anything before the first successful certification.
use vstd::prelude::*;
use crate::AssetRecord;
use crate::config::{
    ConfigRule,
    FallbackSpec,
    EncodingKind,
    RuleView,
    FallbackView,
    spec_encoding_view,
    spec_asset_configs,
    spec_matcher_literal,
    resolve_asset_configs,
};
use crate::engine::{
    asset_model,
    config_model,
    fallback_model,
    encoding_model,
    router_contents,
    router_digest,
    asset_new,
    fallback_new,
    encoding_default,
    config_file_new,
    config_pattern_new,
    certify_into_router,
    router_root_hash,
    router_serve,
    serve_model,
    engine_error_text,
};
use crate::tree::{AssetDir, collected, collect_assets, clone_record, spec_paths_distinct};

verus! {

/// Certification failed: the engine rejected the asset or rule set. The
/// epoch keeps its previous state; nothing was committed.
#[derive(Debug)]
pub struct CertificationError {
    pub message: String,
}

/// A single read request failed.
#[derive(Debug)]
pub enum ServeError {
    /// The process has never completed a certification: serving now would
    /// hand out uncertified content, so the request is refused.
    NotCertified,
    /// The serving engine could not produce a response for this request.
    Engine { message: String },
}

/// The process-wide state: nothing before the first certification, then the
/// serving router of the current epoch together with the digest it commits
/// to.
pub enum ProcessState {
    Uninitialized,
    Certified { router: ic_asset_certification::AssetRouter<'static>, digest: Vec<u8> },
}

impl ProcessState {
    /// The state is internally consistent: a certified state holds exactly
    /// the digest its router commits to.
    pub open spec fn wf(&self) -> bool {
        match self {
            ProcessState::Uninitialized => true,
            ProcessState::Certified { router, digest } => router_digest(*router) == digest@,
        }
    }

    /// The digest committed for the current epoch.
    pub open spec fn digest_view(&self) -> Seq<u8>
        recommends
            self is Certified,
    {
        match self {
            ProcessState::Uninitialized => Seq::empty(),
            ProcessState::Certified { digest, .. } => digest@,
        }
    }

    /// The current epoch serves exactly these assets under exactly these
    /// rules.
    pub open spec fn certified_with(
        &self,
        assets: Seq<(Seq<char>, Seq<u8>)>,
        rules: Seq<RuleView>,
    ) -> bool {
        match self {
            ProcessState::Uninitialized => false,
            ProcessState::Certified { router, .. } => router_contents(*router) == (assets, rules),
        }
    }

    /// The committed digest of the current epoch, or nothing before the
    /// first successful certification.
    pub fn committed_digest(&self) -> (r: Option<&Vec<u8>>)
        ensures
            match r {
                Some(d) => *self is Certified && d@ == self.digest_view(),
                None => *self is Uninitialized,
            },
    {
        match self {
            ProcessState::Uninitialized => None,
            ProcessState::Certified { digest, .. } => Some(digest),
        }
    }
}

/// Clones a byte vector.
fn clone_bytes(v: &Vec<u8>) -> (c: Vec<u8>)
    ensures
        c@ == v@,
{
    let c = v.clone();
    proof {
        assert forall|k: int| 0 <= k < v@.len() implies c@[k] == v@[k] by {
            assert(cloned::<u8>(v@[k], c@[k]));
        }
        assert(c@ =~= v@);
    }
    c
}

fn clone_headers(h: &Vec<(String, String)>) -> (r: Vec<(String, String)>)
    ensures
        r.deep_view() == h.deep_view(),
{
    let mut r: Vec<(String, String)> = Vec::new();
    let mut i: usize = 0;
    while i < h.len()
        invariant
            i <= h.len(),
            r.len() == i,
            r.deep_view() == h.deep_view().take(i as int),
        decreases h.len() - i,
    {
        r.push((h[i].0.clone(), h[i].1.clone()));
        proof {
            assert(r.deep_view() =~~= h.deep_view().take(i + 1));
        }
        i = i + 1;
    }
    proof {
        assert(h.deep_view().take(h.deep_view().len() as int) =~= h.deep_view());
    }
    r
}

fn clone_strings(v: &Vec<String>) -> (r: Vec<String>)
    ensures
        r.deep_view() == v.deep_view(),
{
    let mut r: Vec<String> = Vec::new();
    let mut i: usize = 0;
    while i < v.len()
        invariant
            i <= v.len(),
            r.len() == i,
            r.deep_view() == v.deep_view().take(i as int),
        decreases v.len() - i,
    {
        r.push(v[i].clone());
        proof {
            assert(r.deep_view() =~~= v.deep_view().take(i + 1));
        }
        i = i + 1;
    }
    proof {
        assert(v.deep_view().take(v.deep_view().len() as int) =~= v.deep_view());
    }
    r
}

/// The rule can be handed to the engine as it stands: every fallback
/// status code is a valid HTTP status, and a pattern rule's matcher string
/// holds no glob metacharacter.
pub open spec fn spec_rule_convertible(r: RuleView) -> bool {
    match r {
        RuleView::File { fallback_for, .. } => forall|j: int|
            0 <= j < fallback_for.len() ==> match (#[trigger] fallback_for[j]).status_code {
                Some(s) => 100 <= s < 1000,
                None => true,
            },
        RuleView::Pattern { matcher, .. } => spec_matcher_literal(matcher),
    }
}

/// Every rule of the list can be handed to the engine.
pub open spec fn spec_rules_convertible(rules: Seq<RuleView>) -> bool {
    forall|i: int| 0 <= i < rules.len() ==> spec_rule_convertible(#[trigger] rules[i])
}

fn to_engine_fallbacks(v: &Vec<FallbackSpec>) -> (r: Vec<
    ic_asset_certification::AssetFallbackConfig,
>)
    requires
        forall|j: int| 0 <= j < v@.len() ==> match (#[trigger] v@[j]).status_code {
            Some(s) => 100 <= s < 1000,
            None => true,
        },
    ensures
        r@.map_values(|f: ic_asset_certification::AssetFallbackConfig| fallback_model(f))
            == v@.map_values(|f: FallbackSpec| f@),
{
    let mut r: Vec<ic_asset_certification::AssetFallbackConfig> = Vec::new();
    let mut i: usize = 0;
    while i < v.len()
        invariant
            i <= v.len(),
            forall|j: int| 0 <= j < v@.len() ==> match (#[trigger] v@[j]).status_code {
                Some(s) => 100 <= s < 1000,
                None => true,
            },
            r.len() == i,
            r@.map_values(|f: ic_asset_certification::AssetFallbackConfig| fallback_model(f))
                == v@.map_values(|f: FallbackSpec| f@).take(i as int),
        decreases v.len() - i,
    {
        let f = fallback_new(v[i].scope.clone(), v[i].status_code);
        r.push(f);
        proof {
            assert(r@.map_values(
                |f: ic_asset_certification::AssetFallbackConfig| fallback_model(f),
            ) =~~= v@.map_values(|f: FallbackSpec| f@).take(i + 1));
        }
        i = i + 1;
    }
    proof {
        let all = v@.map_values(|f: FallbackSpec| f@);
        assert(all.take(all.len() as int) =~= all);
    }
    r
}

fn to_engine_encodings(v: &Vec<EncodingKind>) -> (r: Vec<
    (ic_asset_certification::AssetEncoding, String),
>)
    ensures
        r@.map_values(
            |e: (ic_asset_certification::AssetEncoding, String)| (encoding_model(e.0), e.1@),
        ) == v@.map_values(|k: EncodingKind| spec_encoding_view(k)),
{
    let mut r: Vec<(ic_asset_certification::AssetEncoding, String)> = Vec::new();
    let mut i: usize = 0;
    while i < v.len()
        invariant
            i <= v.len(),
            r.len() == i,
            r@.map_values(
                |e: (ic_asset_certification::AssetEncoding, String)| (encoding_model(e.0), e.1@),
            ) == v@.map_values(|k: EncodingKind| spec_encoding_view(k)).take(i as int),
        decreases v.len() - i,
    {
        let e = encoding_default(&v[i]);
        r.push(e);
        proof {
            assert(r@.map_values(
                |e: (ic_asset_certification::AssetEncoding, String)| (encoding_model(e.0), e.1@),
            ) =~~= v@.map_values(|k: EncodingKind| spec_encoding_view(k)).take(i + 1));
        }
        i = i + 1;
    }
    proof {
        let all = v@.map_values(|k: EncodingKind| spec_encoding_view(k));
        assert(all.take(all.len() as int) =~= all);
    }
    r
}

fn to_engine_config(rule: &ConfigRule) -> (c: ic_asset_certification::AssetConfig)
    requires
        spec_rule_convertible(rule@),
    ensures
        config_model(c) == rule@,
{
    match rule {
        ConfigRule::File { path, content_type, headers, fallback_for, aliased_by, encodings } => {
            proof {
                let fb_views = fallback_for@.map_values(|f: FallbackSpec| f@);
                assert forall|j: int|
                    0 <= j < fallback_for@.len() implies match (
                #[trigger] fallback_for@[j]).status_code {
                    Some(s) => 100 <= s < 1000,
                    None => true,
                } by {
                    assert(fb_views[j] == fallback_for@[j]@);
                    assert(match fb_views[j].status_code {
                        Some(s) => 100 <= s < 1000,
                        None => true,
                    });
                }
            }
            let ct = match content_type {
                Some(t) => Some(t.clone()),
                None => None,
            };
            config_file_new(
                path.clone(),
                ct,
                clone_headers(headers),
                to_engine_fallbacks(fallback_for),
                clone_strings(aliased_by),
                to_engine_encodings(encodings),
            )
        },
        ConfigRule::Pattern { matcher, content_type, headers, encodings } => {
            proof {
                assert(spec_matcher_literal(matcher@));
            }
            let ct = match content_type {
                Some(t) => Some(t.clone()),
                None => None,
            };
            config_pattern_new(matcher, ct, clone_headers(headers), to_engine_encodings(encodings))
        },
    }
}

fn to_engine_configs(rules: &Vec<ConfigRule>) -> (v: Vec<ic_asset_certification::AssetConfig>)
    requires
        spec_rules_convertible(rules@.map_values(|c: ConfigRule| c@)),
    ensures
        v@.map_values(|c: ic_asset_certification::AssetConfig| config_model(c))
            == rules@.map_values(|c: ConfigRule| c@),
{
    let ghost all = rules@.map_values(|c: ConfigRule| c@);
    let mut v: Vec<ic_asset_certification::AssetConfig> = Vec::new();
    let mut i: usize = 0;
    while i < rules.len()
        invariant
            i <= rules.len(),
            spec_rules_convertible(rules@.map_values(|c: ConfigRule| c@)),
            all == rules@.map_values(|c: ConfigRule| c@),
            v.len() == i,
            v@.map_values(|c: ic_asset_certification::AssetConfig| config_model(c)) == all.take(
                i as int,
            ),
        decreases rules.len() - i,
    {
        proof {
            assert(all[i as int] == rules@[i as int]@);
            assert(spec_rule_convertible(all[i as int]));
        }
        let c = to_engine_config(&rules[i]);
        v.push(c);
        proof {
            assert(v@.map_values(|c: ic_asset_certification::AssetConfig| config_model(c))
                =~~= all.take(i + 1));
        }
        i = i + 1;
    }
    proof {
        assert(all.take(all.len() as int) =~= all);
    }
    v
}

fn to_engine_assets(records: &Vec<AssetRecord>) -> (v: Vec<
    ic_asset_certification::Asset<'static, 'static>,
>)
    ensures
        v@.map_values(|a: ic_asset_certification::Asset<'static, 'static>| asset_model(a))
            == records@.map_values(|r: AssetRecord| r@),
{
    let ghost all = records@.map_values(|r: AssetRecord| r@);
    let mut v: Vec<ic_asset_certification::Asset<'static, 'static>> = Vec::new();
    let mut i: usize = 0;
    while i < records.len()
        invariant
            i <= records.len(),
            all == records@.map_values(|r: AssetRecord| r@),
            v.len() == i,
            v@.map_values(|a: ic_asset_certification::Asset<'static, 'static>| asset_model(a))
                == all.take(i as int),
        decreases records.len() - i,
    {
        let rec = clone_record(&records[i]);
        let a = asset_new(rec.path, rec.bytes);
        v.push(a);
        proof {
            assert(v@.map_values(
                |a: ic_asset_certification::Asset<'static, 'static>| asset_model(a),
            ) =~~= all.take(i + 1));
        }
        i = i + 1;
    }
    proof {
        assert(all.take(all.len() as int) =~= all);
    }
    v
}

/// Collects the embedded tree, derives the rule list for the given process
/// address, and certifies both with the engine. On success the process
/// state is replaced wholesale by the fresh router and its root digest,
/// which is also returned so the host can publish it; on failure the state
/// is left exactly as it was — no partially committed epoch is ever
/// visible.
pub fn certify_all_assets(
    state: &mut ProcessState,
    assets_dir: &AssetDir,
    canister_id: &String,
) -> (r: Result<Vec<u8>, CertificationError>)
    requires
        spec_paths_distinct(collected(*assets_dir)),
    ensures
        r matches Ok(digest) ==> {
            &&& *final(state) is Certified
            &&& final(state).wf()
            &&& final(state).digest_view() == digest@
            &&& final(state).certified_with(
                collected(*assets_dir),
                spec_asset_configs(canister_id@),
            )
        },
        r is Err ==> *final(state) == *old(state),
{
    let rules = resolve_asset_configs(canister_id);
    proof {
        lemma_resolved_rules_convertible(canister_id@);
    }
    let configs = to_engine_configs(&rules);
    let mut records: Vec<AssetRecord> = Vec::new();
    collect_assets(assets_dir, &mut records);
    proof {
        assert(records@.map_values(|r: AssetRecord| r@) =~= collected(*assets_dir));
    }
    let assets = to_engine_assets(&records);
    proof {
        assert(spec_paths_distinct(
            assets@.map_values(|a: ic_asset_certification::Asset<'static, 'static>| asset_model(a)),
        ));
    }
    match certify_into_router(assets, configs) {
        Ok(router) => {
            let digest = router_root_hash(&router);
            let committed = clone_bytes(&digest);
            *state = ProcessState::Certified { router, digest: committed };
            Ok(digest)
        },
        Err(e) => {
            let message = engine_error_text(&e);
            Err(CertificationError { message })
        },
    }
}

/// Every rule the resolver produces can be handed to the engine: its
/// status codes are valid HTTP statuses and its matcher strings hold no
/// glob metacharacter.
proof fn lemma_resolved_rules_convertible(canister_id: Seq<char>)
    ensures
        spec_rules_convertible(spec_asset_configs(canister_id)),
{
    let rules = spec_asset_configs(canister_id);
    assert(spec_rule_convertible(rules[0])) by {
        let fb = seq![FallbackView { scope: "/"@, status_code: Some(200u16) }];
        assert forall|j: int| 0 <= j < fb.len() implies match (#[trigger] fb[j]).status_code {
            Some(s) => 100 <= s < 1000,
            None => true,
        } by {
            assert(fb[j] == fb[0]);
        }
    }
    assert(spec_rule_convertible(rules[1])) by {
        lemma_literal_suffixes();
    }
    assert(spec_rule_convertible(rules[2])) by {
        lemma_literal_suffixes();
    }
    assert(spec_rule_convertible(rules[3])) by {
        lemma_literal_suffixes();
    }
    assert(spec_rule_convertible(rules[4])) by {
        lemma_literal_suffixes();
    }
    assert(spec_rule_convertible(rules[5])) by {
        lemma_literal_suffixes();
    }
    assert(spec_rule_convertible(rules[6])) by {
        lemma_literal_suffixes();
    }
    assert(spec_rule_convertible(rules[7])) by {
        lemma_literal_suffixes();
    }
    assert(spec_rule_convertible(rules[8])) by {
        lemma_literal_suffixes();
    }
    assert(spec_rule_convertible(rules[9]));
    assert forall|i: int| 0 <= i < rules.len() implies spec_rule_convertible(
        #[trigger] rules[i],
    ) by {
        if i == 0 {
            assert(spec_rule_convertible(rules[0]));
        }
    }
}

/// None of the resolver's matcher strings holds the glob metacharacter.
proof fn lemma_literal_suffixes()
    ensures
        !".js"@.contains('*'),
        !".css"@.contains('*'),
        !".png"@.contains('*'),
        !".svg"@.contains('*'),
        !".txt"@.contains('*'),
        !".ico"@.contains('*'),
        !".otf"@.contains('*'),
        !"/.well-known/"@.contains('*'),
{
    reveal_strlit(".js");
    reveal_strlit(".css");
    reveal_strlit(".png");
    reveal_strlit(".svg");
    reveal_strlit(".txt");
    reveal_strlit(".ico");
    reveal_strlit(".otf");
    reveal_strlit("/.well-known/");
    assert forall|k: int| 0 <= k < ".js"@.len() implies ".js"@[k] != '*' by {}
    assert forall|k: int| 0 <= k < ".css"@.len() implies ".css"@[k] != '*' by {}
    assert forall|k: int| 0 <= k < ".png"@.len() implies ".png"@[k] != '*' by {}
    assert forall|k: int| 0 <= k < ".svg"@.len() implies ".svg"@[k] != '*' by {}
    assert forall|k: int| 0 <= k < ".txt"@.len() implies ".txt"@[k] != '*' by {}
    assert forall|k: int| 0 <= k < ".ico"@.len() implies ".ico"@[k] != '*' by {}
    assert forall|k: int| 0 <= k < ".otf"@.len() implies ".otf"@[k] != '*' by {}
    assert forall|k: int| 0 <= k < "/.well-known/"@.len() implies "/.well-known/"@[k] != '*' by {}
}

/// Answers one read-only request against the committed state. A request
/// that arrives while the process is uninitialized is refused: nothing
/// uncertified is ever served. In a certified epoch the answer is exactly
/// the serving engine's answer for the committed router, the host's data
/// certificate and the request — the engine negotiates path, fallback and
/// encoding and attaches the certification proof — and an engine refusal
/// is reported as an engine error.
pub fn serve_assets(
    state: &ProcessState,
    data_certificate: &Vec<u8>,
    request: &ic_http_certification::HttpRequest<'static>,
) -> (r: Result<ic_http_certification::HttpResponse<'static>, ServeError>)
    ensures
        *state is Uninitialized <==> (r matches Err(e) && e is NotCertified),
        r is Ok ==> *state is Certified,
        *state matches ProcessState::Certified { router, .. } ==> (match serve_model(
            router,
            data_certificate@,
            *request,
        ) {
            Ok(resp) => r matches Ok(rr) && rr == resp,
            Err(_) => r matches Err(e) && e is Engine,
        }),
{
    match state {
        ProcessState::Uninitialized => Err(ServeError::NotCertified),
        ProcessState::Certified { router, .. } => {
            match router_serve(router, data_certificate, request) {
                Ok(response) => Ok(response),
                Err(e) => {
                    let message = engine_error_text(&e);
                    Err(ServeError::Engine { message })
                },
            }
        },
    }
}

} // verus!
