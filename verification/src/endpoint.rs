//! Endpoint resolution: from the configured URLs to the base URL and path
//! style of each transport target.
//!
//! Resolution is a pure function of the configuration. Precedence, highest
//! first: an explicit edge URL with a non-root path passes through as-is; an
//! explicit edge URL without a path, or a region name, selects the flat edge
//! path family; with nothing configured the legacy dataset-scoped family is
//! used on the API URL — except that on the default cloud API URL, ingest and
//! query deliberately target a separate, hard-coded default edge URL.

use vstd::prelude::*;

use crate::error::{Error, Result};

verus! {

/// The well-known default cloud API URL.
pub open spec fn default_api_url() -> Seq<char> {
    "https://api.axiom.co"@
}

/// The hard-coded default edge URL used for ingest and query when nothing
/// else is configured and the API URL is the default cloud URL.
pub open spec fn default_edge_url() -> Seq<char> {
    "https://edge.axiom.co"@
}

/// Returns the default cloud API URL.
pub fn api_url_default() -> (r: &'static str)
    ensures
        r@ == default_api_url(),
{
    "https://api.axiom.co"
}

/// Returns the hard-coded default edge URL.
pub fn edge_url_default() -> (r: &'static str)
    ensures
        r@ == default_edge_url(),
{
    "https://edge.axiom.co"
}

/// How per-operation paths are built on a target.
#[derive(Debug, Clone)]
pub enum PathStyle {
    /// Dataset-scoped legacy paths on the given base URL.
    Legacy(String),
    /// Flat edge paths on the given base URL.
    Edge(String),
    /// No path is appended; the base URL is trusted to be the full target.
    AsIs(String),
}

/// The three path families, without their base URLs.
#[derive(Debug, Clone, Copy, PartialEq, Eq, Structural)]
pub enum StyleKind {
    /// Dataset-scoped legacy paths.
    LegacyKind,
    /// Flat edge paths.
    EdgeKind,
    /// Pass-through.
    AsIsKind,
}

impl PathStyle {
    /// The base URL of the style.
    pub open spec fn spec_base(self) -> Seq<char> {
        match self {
            PathStyle::Legacy(b) => b@,
            PathStyle::Edge(b) => b@,
            PathStyle::AsIs(b) => b@,
        }
    }

    /// Which of the three families the style is.
    pub open spec fn spec_kind(self) -> StyleKind {
        match self {
            PathStyle::Legacy(_) => StyleKind::LegacyKind,
            PathStyle::Edge(_) => StyleKind::EdgeKind,
            PathStyle::AsIs(_) => StyleKind::AsIsKind,
        }
    }
}

/// The first index at or after `i` where the scheme separator "://" starts,
/// if any.
pub open spec fn spec_find_scheme_sep(s: Seq<char>, i: int) -> Option<int>
    decreases s.len() - i,
{
    if i < 0 || i + 3 > s.len() {
        None
    } else if s[i] == ':' && s[i + 1] == '/' && s[i + 2] == '/' {
        Some(i)
    } else {
        spec_find_scheme_sep(s, i + 1)
    }
}

/// The first index at or after `i` where the query or fragment part starts,
/// or the length of the string.
pub open spec fn spec_stop_index(s: Seq<char>, i: int) -> int
    decreases s.len() - i,
{
    if i < 0 || i >= s.len() {
        s.len() as int
    } else if s[i] == '?' || s[i] == '#' {
        i
    } else {
        spec_stop_index(s, i + 1)
    }
}

/// The first index of '/' in `[i, q)`, if any.
pub open spec fn spec_find_slash(s: Seq<char>, i: int, q: int) -> Option<int>
    decreases q - i,
{
    if i < 0 || i >= q || i >= s.len() {
        None
    } else if s[i] == '/' {
        Some(i)
    } else {
        spec_find_slash(s, i + 1, q)
    }
}

/// True if the character is removed anywhere in a URL before parsing: the
/// URL parser drops ASCII tab, line feed and carriage return wherever they
/// stand.
pub open spec fn is_url_junk(c: char) -> bool {
    c == '\t' || c == '\n' || c == '\r'
}

/// The string with ASCII tab, line feed and carriage return removed
/// everywhere.
pub open spec fn spec_strip_tab_newlines(s: Seq<char>) -> Seq<char>
    decreases s.len(),
{
    if s.len() == 0 {
        Seq::empty()
    } else if is_url_junk(s.first()) {
        spec_strip_tab_newlines(s.drop_first())
    } else {
        seq![s.first()] + spec_strip_tab_newlines(s.drop_first())
    }
}

/// The string without its leading control characters and spaces, which the
/// URL parser trims from the start of its input.
pub open spec fn spec_trim_start_controls(s: Seq<char>) -> Seq<char>
    decreases s.len(),
{
    if s.len() > 0 && s.first() as int <= 32 {
        spec_trim_start_controls(s.drop_first())
    } else {
        s
    }
}

/// The string without its trailing control characters and spaces, which the
/// URL parser trims from the end of its input.
pub open spec fn spec_trim_end_controls(s: Seq<char>) -> Seq<char>
    decreases s.len(),
{
    if s.len() > 0 && s.last() as int <= 32 {
        spec_trim_end_controls(s.drop_last())
    } else {
        s
    }
}

/// The URL text as the URL parser sees it: control characters and spaces
/// trimmed from both ends, tab and newlines removed everywhere.
pub open spec fn spec_url_cleaned(s: Seq<char>) -> Seq<char> {
    spec_strip_tab_newlines(spec_trim_end_controls(spec_trim_start_controls(s)))
}

proof fn lemma_trim_start_at(s: Seq<char>, i: int)
    requires
        0 <= i <= s.len(),
        forall|j: int| 0 <= j < i ==> (#[trigger] s[j]) as int <= 32,
        i == s.len() || s[i] as int > 32,
    ensures
        spec_trim_start_controls(s) == s.subrange(i, s.len() as int),
    decreases i,
{
    if i == 0 {
        assert(s.subrange(0, s.len() as int) =~= s);
    } else {
        let t = s.drop_first();
        assert(forall|j: int| 0 <= j < i - 1 ==> (#[trigger] t[j]) as int <= 32);
        lemma_trim_start_at(t, i - 1);
        assert(t.subrange(i - 1, t.len() as int) =~= s.subrange(i, s.len() as int));
    }
}

proof fn lemma_trim_end_at(s: Seq<char>, k: int)
    requires
        0 <= k <= s.len(),
        forall|j: int| k <= j < s.len() ==> (#[trigger] s[j]) as int <= 32,
        k == 0 || s[k - 1] as int > 32,
    ensures
        spec_trim_end_controls(s) == s.subrange(0, k),
    decreases s.len() - k,
{
    if k == s.len() {
        assert(s.subrange(0, k) =~= s);
    } else {
        let t = s.drop_last();
        assert(s.last() as int <= 32);
        lemma_trim_end_at(t, k);
        assert(t.subrange(0, k) =~= s.subrange(0, k));
    }
}

proof fn lemma_strip_push(s: Seq<char>, x: char)
    ensures
        !is_url_junk(x) ==> spec_strip_tab_newlines(s.push(x)) =~= spec_strip_tab_newlines(s)
            + seq![x],
        is_url_junk(x) ==> spec_strip_tab_newlines(s.push(x)) =~= spec_strip_tab_newlines(s),
    decreases s.len(),
{
    let p = s.push(x);
    assert(p.len() == s.len() + 1);
    if s.len() == 0 {
        assert(p.first() == x);
        assert(p.drop_first() =~= Seq::<char>::empty());
        assert(spec_strip_tab_newlines(p.drop_first()) =~= Seq::<char>::empty());
        assert(spec_strip_tab_newlines(s) =~= Seq::<char>::empty());
        if is_url_junk(x) {
            assert(spec_strip_tab_newlines(p) == spec_strip_tab_newlines(p.drop_first()));
        } else {
            assert(spec_strip_tab_newlines(p) == seq![x] + spec_strip_tab_newlines(
                p.drop_first(),
            ));
            assert(seq![x] + Seq::<char>::empty() =~= seq![x]);
            assert(Seq::<char>::empty() + seq![x] =~= seq![x]);
        }
    } else {
        lemma_strip_push(s.drop_first(), x);
        assert(p.first() == s.first());
        assert(p.drop_first() =~= s.drop_first().push(x));
        if is_url_junk(s.first()) {
            assert(spec_strip_tab_newlines(p) == spec_strip_tab_newlines(p.drop_first()));
            assert(spec_strip_tab_newlines(s) == spec_strip_tab_newlines(s.drop_first()));
        } else {
            assert(spec_strip_tab_newlines(p) == seq![s.first()] + spec_strip_tab_newlines(
                p.drop_first(),
            ));
            assert(spec_strip_tab_newlines(s) == seq![s.first()] + spec_strip_tab_newlines(
                s.drop_first(),
            ));
            if !is_url_junk(x) {
                assert(seq![s.first()] + (spec_strip_tab_newlines(s.drop_first()) + seq![x])
                    =~= (seq![s.first()] + spec_strip_tab_newlines(s.drop_first())) + seq![x]);
            }
        }
    }
}

/// Reduces a URL string to the text the URL parser actually parses.
pub fn clean_url(s: &str) -> (r: String)
    ensures
        r@ == spec_url_cleaned(s@),
{
    let len = s.unicode_len();
    let mut lo: usize = 0;
    while lo < len && s.get_char(lo) as u32 <= 32
        invariant
            0 <= lo <= len == s@.len(),
            forall|j: int| 0 <= j < lo ==> (#[trigger] s@[j]) as int <= 32,
        decreases len - lo,
    {
        lo = lo + 1;
    }
    let mut hi: usize = len;
    while hi > lo && s.get_char(hi - 1) as u32 <= 32
        invariant
            lo <= hi <= len == s@.len(),
            forall|j: int| hi <= j < len ==> (#[trigger] s@[j]) as int <= 32,
        decreases hi,
    {
        hi = hi - 1;
    }
    proof {
        lemma_trim_start_at(s@, lo as int);
        let t = s@.subrange(lo as int, len as int);
        if hi == lo {
            lemma_trim_end_at(t, 0);
        } else {
            lemma_trim_end_at(t, hi - lo);
        }
        assert(t.subrange(0, hi - lo) =~= s@.subrange(lo as int, hi as int));
    }
    let core = s.substring_char(lo, hi);
    let core_len = hi - lo;
    let mut out = String::new();
    let mut i: usize = 0;
    proof {
        assert(core@.subrange(0, 0) =~= Seq::<char>::empty());
    }
    while i < core_len
        invariant
            0 <= i <= core_len == core@.len(),
            out@ == spec_strip_tab_newlines(core@.subrange(0, i as int)),
        decreases core_len - i,
    {
        let c = core.get_char(i);
        proof {
            assert(core@.subrange(0, i + 1) =~= core@.subrange(0, i as int).push(core@[i as int]));
            lemma_strip_push(core@.subrange(0, i as int), core@[i as int]);
        }
        if !(c == '\t' || c == '\n' || c == '\r') {
            let piece = core.substring_char(i, i + 1);
            proof {
                assert(piece@ =~= seq![core@[i as int]]);
            }
            out.append(piece);
        }
        i = i + 1;
    }
    proof {
        assert(core@.subrange(0, core_len as int) =~= core@);
    }
    out
}

/// True if the URL string has a path component beyond an empty or root path:
/// a '/' after the scheme and authority, followed by at least one character
/// before the query or fragment part. Callers hand it the text the URL
/// parser parses, as `clean_url` produces it.
pub open spec fn spec_has_nonroot_path(s: Seq<char>) -> bool {
    match spec_find_scheme_sep(s, 0) {
        None => false,
        Some(j) => {
            let q = spec_stop_index(s, j + 3);
            match spec_find_slash(s, j + 3, q) {
                None => false,
                Some(p) => q - p >= 2,
            }
        },
    }
}

fn find_scheme_sep(s: &str, i: usize) -> (r: Option<usize>)
    requires
        i <= s@.len(),
    ensures
        match r {
            Some(j) => spec_find_scheme_sep(s@, i as int) == Some(j as int) && j + 3 <= s@.len(),
            None => spec_find_scheme_sep(s@, i as int) is None,
        },
    decreases s@.len() - i,
{
    let len = s.unicode_len();
    if len < 3 || i > len - 3 {
        None
    } else if s.get_char(i) == ':' && s.get_char(i + 1) == '/' && s.get_char(i + 2) == '/' {
        Some(i)
    } else {
        find_scheme_sep(s, i + 1)
    }
}

fn stop_index(s: &str, i: usize) -> (r: usize)
    requires
        i <= s@.len(),
    ensures
        r == spec_stop_index(s@, i as int),
        i <= r <= s@.len(),
    decreases s@.len() - i,
{
    let len = s.unicode_len();
    if i >= len {
        len
    } else if s.get_char(i) == '?' || s.get_char(i) == '#' {
        i
    } else {
        stop_index(s, i + 1)
    }
}

fn find_slash(s: &str, i: usize, q: usize) -> (r: Option<usize>)
    requires
        q <= s@.len(),
    ensures
        match r {
            Some(p) => spec_find_slash(s@, i as int, q as int) == Some(p as int) && p < q,
            None => spec_find_slash(s@, i as int, q as int) is None,
        },
    decreases q - i,
{
    if i >= q {
        None
    } else if s.get_char(i) == '/' {
        Some(i)
    } else {
        find_slash(s, i + 1, q)
    }
}

/// Decides whether a URL string carries a path beyond an empty or root path.
pub fn has_nonroot_path(s: &str) -> (r: bool)
    ensures
        r == spec_has_nonroot_path(s@),
{
    let len = s.unicode_len();
    match find_scheme_sep(s, 0) {
        None => false,
        Some(j) => {
            assert(j + 3 <= len);
            let q = stop_index(s, j + 3);
            match find_slash(s, j + 3, q) {
                None => false,
                Some(p) => q - p >= 2,
            }
        },
    }
}

/// The string without its trailing '/' characters.
pub open spec fn spec_strip_trailing_slashes(s: Seq<char>) -> Seq<char>
    decreases s.len(),
{
    if s.len() > 0 && s.last() == '/' {
        spec_strip_trailing_slashes(s.drop_last())
    } else {
        s
    }
}

/// The base URL a region name resolves to: the scheme prefixed to the region
/// with trailing slashes trimmed.
pub open spec fn spec_region_base(region: Seq<char>) -> Seq<char> {
    "https://"@ + spec_strip_trailing_slashes(region)
}

fn strip_trailing_slashes(s: &str) -> (r: &str)
    ensures
        r@ == spec_strip_trailing_slashes(s@),
    decreases s@.len(),
{
    let len = s.unicode_len();
    if len > 0 && s.get_char(len - 1) == '/' {
        let t = s.substring_char(0, len - 1);
        proof {
            assert(t@ =~= s@.drop_last());
        }
        strip_trailing_slashes(t)
    } else {
        s
    }
}

/// Normalizes a region name into a base URL.
pub fn region_base(region: &str) -> (r: String)
    ensures
        r@ == spec_region_base(region@),
{
    proof {
        reveal_strlit("https://");
    }
    let mut base = "https://".to_owned();
    base.append(strip_trailing_slashes(region));
    base
}

/// Relies on `url::Url::parse` to decide whether a string is a valid URL.
pub uninterp spec fn url_ok(s: Seq<char>) -> bool;

/// Relies on `url::Url::parse`: returns whether the string parses as a URL.
#[verifier::external_body]
fn parse_url_ok(s: &str) -> (r: bool)
    ensures
        r == url_ok(s@),
{
    url::Url::parse(s).is_ok()
}

/// The API base URL the configuration resolves to.
pub open spec fn spec_api_base(api_url: Option<Seq<char>>) -> Seq<char> {
    match api_url {
        Some(u) => u,
        None => default_api_url(),
    }
}

/// Which path family the configuration resolves to.
pub open spec fn spec_style_kind(
    api: Seq<char>,
    edge_url: Option<Seq<char>>,
    region: Option<Seq<char>>,
) -> StyleKind {
    match edge_url {
        Some(e) => if spec_has_nonroot_path(spec_url_cleaned(e)) {
            StyleKind::AsIsKind
        } else {
            StyleKind::EdgeKind
        },
        None => match region {
            Some(_) => StyleKind::EdgeKind,
            None => if api == default_api_url() {
                StyleKind::EdgeKind
            } else {
                StyleKind::LegacyKind
            },
        },
    }
}

/// The base URL of the ingest/query target the configuration resolves to.
pub open spec fn spec_style_base(
    api: Seq<char>,
    edge_url: Option<Seq<char>>,
    region: Option<Seq<char>>,
) -> Seq<char> {
    match edge_url {
        Some(e) => e,
        None => match region {
            Some(r) => spec_region_base(r),
            None => if api == default_api_url() {
                default_edge_url()
            } else {
                api
            },
        },
    }
}

/// The result of endpoint resolution: the API base URL and the path style of
/// the ingest/query target.
pub struct Resolved {
    /// The base URL of the API target.
    pub api_base: String,
    /// The path style, holding the base URL of the ingest/query target.
    pub style: PathStyle,
}

/// Resolves the configuration into the API base URL and path style.
///
/// Pure and total: every combination of present and absent inputs maps to
/// exactly one style, per the precedence in the module description. The only
/// failure is a URL that does not parse.
pub fn resolve(
    api_url: Option<&str>,
    edge_url: Option<&str>,
    region: Option<&str>,
) -> (r: Result<Resolved>)
    ensures
        ({
            let api = spec_api_base(match api_url {
                Some(u) => Some(u@),
                None => None,
            });
            let edge = match edge_url {
                Some(e) => Some(e@),
                None => None,
            };
            let reg = match region {
                Some(g) => Some(g@),
                None => None,
            };
            match r {
                Ok(res) => {
                    &&& url_ok(api)
                    &&& url_ok(spec_style_base(api, edge, reg))
                    &&& res.api_base@ == api
                    &&& res.style.spec_kind() == spec_style_kind(api, edge, reg)
                    &&& res.style.spec_base() == spec_style_base(api, edge, reg)
                },
                Err(e) => {
                    &&& e matches Error::InvalidUrl
                    &&& !(url_ok(api) && url_ok(spec_style_base(api, edge, reg)))
                },
            }
        }),
{
    let api_base: String = match api_url {
        Some(u) => u.to_owned(),
        None => api_url_default().to_owned(),
    };
    if !parse_url_ok(api_base.as_str()) {
        return Err(Error::InvalidUrl);
    }
    let default_api: String = api_url_default().to_owned();
    let is_default_api = api_base.eq(&default_api);
    let style: PathStyle = match (edge_url, region) {
        (Some(e), _) => {
            let cleaned = clean_url(e);
            if has_nonroot_path(cleaned.as_str()) {
                PathStyle::AsIs(e.to_owned())
            } else {
                PathStyle::Edge(e.to_owned())
            }
        },
        (None, Some(g)) => PathStyle::Edge(region_base(g)),
        (None, None) => {
            if is_default_api {
                PathStyle::Edge(edge_url_default().to_owned())
            } else {
                PathStyle::Legacy(api_base.clone())
            }
        },
    };
    let base_ok = match &style {
        PathStyle::Legacy(b) => parse_url_ok(b.as_str()),
        PathStyle::Edge(b) => parse_url_ok(b.as_str()),
        PathStyle::AsIs(b) => parse_url_ok(b.as_str()),
    };
    if !base_ok {
        return Err(Error::InvalidUrl);
    }
    Ok(Resolved { api_base, style })
}

/// The precedence table of endpoint resolution: each row of the configuration
/// truth table maps to exactly one path family.
pub proof fn lemma_resolve_precedence(
    api: Seq<char>,
    edge_url: Option<Seq<char>>,
    region: Option<Seq<char>>,
)
    ensures
        edge_url is Some && spec_has_nonroot_path(spec_url_cleaned(edge_url->Some_0))
            ==> spec_style_kind(api, edge_url, region) == StyleKind::AsIsKind && spec_style_base(
            api,
            edge_url,
            region,
        ) == edge_url->Some_0,
        edge_url is Some && !spec_has_nonroot_path(spec_url_cleaned(edge_url->Some_0))
            ==> spec_style_kind(api, edge_url, region) == StyleKind::EdgeKind && spec_style_base(
            api,
            edge_url,
            region,
        ) == edge_url->Some_0,
        edge_url is None && region is Some ==> spec_style_kind(api, edge_url, region)
            == StyleKind::EdgeKind && spec_style_base(api, edge_url, region) == spec_region_base(
            region->Some_0,
        ),
        edge_url is None && region is None && api == default_api_url() ==> spec_style_kind(
            api,
            edge_url,
            region,
        ) == StyleKind::EdgeKind && spec_style_base(api, edge_url, region) == default_edge_url(),
        edge_url is None && region is None && api != default_api_url() ==> spec_style_kind(
            api,
            edge_url,
            region,
        ) == StyleKind::LegacyKind && spec_style_base(api, edge_url, region) == api,
{
}

impl PathStyle {
    /// Builds the ingest path for a dataset under this style.
    pub fn ingest_path(&self, dataset: &str) -> (r: String)
        ensures
            r@ == spec_ingest_path(*self, dataset@),
    {
        proof {
            reveal_strlit("/v1/datasets/");
            reveal_strlit("/ingest");
            reveal_strlit("/v1/ingest/");
            reveal_strlit("");
        }
        match self {
            PathStyle::Legacy(_) => {
                let mut p = "/v1/datasets/".to_owned();
                p.append(dataset);
                p.append("/ingest");
                p
            },
            PathStyle::Edge(_) => {
                let mut p = "/v1/ingest/".to_owned();
                p.append(dataset);
                p
            },
            PathStyle::AsIs(_) => String::new(),
        }
    }

    /// Builds the query path under this style.
    pub fn query_path(&self) -> (r: String)
        ensures
            r@ == spec_query_path(*self),
    {
        proof {
            reveal_strlit("/v1/datasets/_apl");
            reveal_strlit("/v1/query/_apl");
            reveal_strlit("");
        }
        match self {
            PathStyle::Legacy(_) => "/v1/datasets/_apl".to_owned(),
            PathStyle::Edge(_) => "/v1/query/_apl".to_owned(),
            PathStyle::AsIs(_) => String::new(),
        }
    }
}

/// The ingest path of a dataset under a style: dataset-scoped for the legacy
/// family, flat for the edge family, nothing for pass-through.
pub open spec fn spec_ingest_path(style: PathStyle, dataset: Seq<char>) -> Seq<char> {
    match style {
        PathStyle::Legacy(_) => "/v1/datasets/"@ + dataset + "/ingest"@,
        PathStyle::Edge(_) => "/v1/ingest/"@ + dataset,
        PathStyle::AsIs(_) => Seq::empty(),
    }
}

/// The query path under a style.
pub open spec fn spec_query_path(style: PathStyle) -> Seq<char> {
    match style {
        PathStyle::Legacy(_) => "/v1/datasets/_apl"@,
        PathStyle::Edge(_) => "/v1/query/_apl"@,
        PathStyle::AsIs(_) => Seq::empty(),
    }
}

} // verus!
