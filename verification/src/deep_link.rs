use vstd::prelude::*;
use vstd::string::*;

use crate::storage::LoginResponse;
use crate::text::{is_empty_text, same_text};

verus! {

/// A key and a value of a URL query, by their text.
pub type QueryPair = (Seq<char>, Seq<char>);

/// The query pairs of `v` by their text.
pub open spec fn pairs_view(v: Seq<(String, String)>) -> Seq<QueryPair> {
    v.map_values(|p: (String, String)| (p.0@, p.1@))
}

/// An optional piece of text by its text.
pub open spec fn text_view(o: Option<String>) -> Option<Seq<char>> {
    match o {
        Some(s) => Some(s@),
        None => None,
    }
}

/// The map that collecting `pairs` into a hash map gives: where a key comes
/// more than once, the last value stays.
pub open spec fn query_map(pairs: Seq<QueryPair>) -> Map<Seq<char>, Seq<char>>
    decreases pairs.len(),
{
    if pairs.len() == 0 {
        Map::empty()
    } else {
        query_map(pairs.drop_last()).insert(pairs.last().0, pairs.last().1)
    }
}

/// No key comes twice in `pairs`.
pub open spec fn unique_keys(pairs: Seq<QueryPair>) -> bool {
    forall|i: int, j: int| 0 <= i < pairs.len() && 0 <= j < pairs.len() && i != j
        ==> #[trigger] pairs[i].0 != #[trigger] pairs[j].0
}

/// The keys of a collected query are those of its pairs; with no key twice,
/// each key maps to the value beside it.
pub proof fn lemma_query_map_keys(pairs: Seq<QueryPair>)
    ensures
        forall|k: Seq<char>| #[trigger] query_map(pairs).contains_key(k)
            <==> exists|i: int| 0 <= i < pairs.len() && #[trigger] pairs[i].0 == k,
        unique_keys(pairs) ==> forall|i: int| 0 <= i < pairs.len()
            ==> #[trigger] query_map(pairs)[pairs[i].0] == pairs[i].1,
    decreases pairs.len(),
{
    if pairs.len() > 0 {
        let init = pairs.drop_last();
        let last = pairs.len() - 1;
        lemma_query_map_keys(init);
        assert(query_map(pairs) == query_map(init).insert(pairs[last].0, pairs[last].1));
        assert forall|k: Seq<char>| #[trigger] query_map(pairs).contains_key(k)
            <==> exists|i: int| 0 <= i < pairs.len() && #[trigger] pairs[i].0 == k by {
            if query_map(pairs).contains_key(k) {
                if k == pairs[last].0 {
                    assert(pairs[last].0 == k);
                } else {
                    assert(query_map(init).contains_key(k));
                    let i = choose|i: int| 0 <= i < init.len() && #[trigger] init[i].0 == k;
                    assert(init[i] == pairs[i]);
                    assert(pairs[i].0 == k);
                }
            }
            if exists|i: int| 0 <= i < pairs.len() && #[trigger] pairs[i].0 == k {
                let i = choose|i: int| 0 <= i < pairs.len() && #[trigger] pairs[i].0 == k;
                if i < last {
                    assert(init[i] == pairs[i]);
                    assert(init[i].0 == k);
                    assert(query_map(init).contains_key(k));
                }
            }
        }
        if unique_keys(pairs) {
            assert(unique_keys(init)) by {
                assert forall|i: int, j: int| 0 <= i < init.len() && 0 <= j < init.len() && i != j
                    implies #[trigger] init[i].0 != #[trigger] init[j].0 by {
                    assert(init[i] == pairs[i]);
                    assert(init[j] == pairs[j]);
                    assert(pairs[i].0 != pairs[j].0);
                }
            }
            assert forall|i: int| 0 <= i < pairs.len()
                implies #[trigger] query_map(pairs)[pairs[i].0] == pairs[i].1 by {
                if i < last {
                    assert(init[i] == pairs[i]);
                    assert(pairs[i].0 != pairs[last].0);
                    assert(query_map(init)[init[i].0] == init[i].1);
                }
            }
        }
    }
}

/// The text of the error that a callback without a token gives.
pub open spec fn missing_token_message() -> Seq<char> {
    "missing required query parameter: token"@
}

/// What a sign-in callback carries: the session token, the user id, and
/// whatever else its query held, by key.
#[derive(Debug, Clone)]
pub struct CallbackArgs {
    pub token: String,
    pub user_id: String,
    pub extra: Vec<(String, String)>,
}

/// `args` is what parsing a callback whose collected query is `q` gives.
pub open spec fn callback_args_match(q: Map<Seq<char>, Seq<char>>, args: CallbackArgs) -> bool {
    &&& args.token@ == q["token"@]
    &&& args.user_id@ == (if q.contains_key("user_id"@) { q["user_id"@] } else { Seq::<char>::empty() })
    &&& unique_keys(pairs_view(args.extra@))
    &&& query_map(pairs_view(args.extra@)) == q.remove("token"@).remove("user_id"@)
}

/// The collected query holds a token that is not empty.
pub open spec fn has_token(q: Map<Seq<char>, Seq<char>>) -> bool {
    q.contains_key("token"@) && q["token"@].len() > 0
}

/// Where `key` stands among `entries`, if it does.
fn find_key(entries: &Vec<(String, String)>, key: &str) -> (r: Option<usize>)
    ensures
        r matches Some(j) ==> j < entries@.len() && entries@[j as int].0@ == key@,
        r is None ==> forall|t: int| 0 <= t < entries@.len() ==> (#[trigger] entries@[t]).0@ != key@,
{
    let mut j: usize = 0;
    while j < entries.len()
        invariant
            j <= entries@.len(),
            forall|t: int| 0 <= t < j ==> (#[trigger] entries@[t]).0@ != key@,
        decreases entries@.len() - j,
    {
        if same_text(entries[j].0.as_str(), key) {
            return Some(j);
        }
        j = j + 1;
    }
    None
}

/// Sets `key` to `value` among pairs with distinct keys.
fn upsert(entries: &mut Vec<(String, String)>, key: String, value: String)
    requires
        unique_keys(pairs_view(old(entries)@)),
    ensures
        unique_keys(pairs_view(final(entries)@)),
        query_map(pairs_view(final(entries)@)) == query_map(pairs_view(old(entries)@)).insert(key@, value@),
{
    let ghost before = entries@;
    let ghost pb = pairs_view(before);
    proof {
        lemma_query_map_keys(pb);
    }
    match find_key(entries, key.as_str()) {
        Some(j) => {
            let ghost k = key@;
            let ghost v = value@;
            entries.set(j, (key, value));
            proof {
                let pv = pairs_view(entries@);
                assert(pv =~= pb.update(j as int, (k, v)));
                assert(unique_keys(pv)) by {
                    assert forall|a: int, b: int| 0 <= a < pv.len() && 0 <= b < pv.len() && a != b
                        implies #[trigger] pv[a].0 != #[trigger] pv[b].0 by {
                        assert(pb[a].0 != pb[b].0);
                    }
                }
                lemma_query_map_keys(pv);
                assert(pb[j as int].0 == k);
                assert(pv[j as int] == (k, v));
                assert forall|t: int| 0 <= t < pv.len() && t != j implies #[trigger] pv[t] == pb[t] by {}
                assert forall|x: Seq<char>| query_map(pv).contains_key(x)
                    <==> query_map(pb).insert(k, v).contains_key(x) by {
                    if query_map(pv).contains_key(x) {
                        let t = choose|t: int| 0 <= t < pv.len() && #[trigger] pv[t].0 == x;
                        if t != j {
                            assert(pv[t] == pb[t]);
                            assert(pb[t].0 == x);
                            assert(query_map(pb).contains_key(x));
                        }
                    }
                    if x == k {
                        assert(pv[j as int].0 == x);
                    }
                    if query_map(pb).contains_key(x) {
                        let t = choose|t: int| 0 <= t < pb.len() && #[trigger] pb[t].0 == x;
                        if t != j {
                            assert(pv[t] == pb[t]);
                        }
                        assert(pv[t].0 == x);
                    }
                }
                assert forall|x: Seq<char>| #[trigger] query_map(pv).contains_key(x)
                    implies query_map(pv)[x] == query_map(pb).insert(k, v)[x] by {
                    let t = choose|t: int| 0 <= t < pv.len() && #[trigger] pv[t].0 == x;
                    assert(query_map(pv)[pv[t].0] == pv[t].1);
                    if t != j {
                        assert(pv[t] == pb[t]);
                        assert(query_map(pb)[pb[t].0] == pb[t].1);
                        assert(x != k);
                    }
                }
                assert(query_map(pv) =~= query_map(pb).insert(k, v));
            }
        },
        None => {
            let ghost k = key@;
            let ghost v = value@;
            entries.push((key, value));
            proof {
                let pv = pairs_view(entries@);
                assert(pv =~= pb.push((k, v)));
                assert(pv.drop_last() =~= pb);
                assert(unique_keys(pv)) by {
                    assert forall|a: int, b: int| 0 <= a < pv.len() && 0 <= b < pv.len() && a != b
                        implies #[trigger] pv[a].0 != #[trigger] pv[b].0 by {
                        if a < pb.len() && b < pb.len() {
                            assert(pb[a].0 != pb[b].0);
                        } else if a < pb.len() {
                            assert(before[a].0@ != k);
                        } else {
                            assert(before[b].0@ != k);
                        }
                    }
                }
            }
        },
    }
}

/// Collects query pairs into pairs with distinct keys, the last value of a
/// key winning, as collecting into a hash map does.
fn collect_query(query: &Vec<(String, String)>) -> (r: Vec<(String, String)>)
    ensures
        unique_keys(pairs_view(r@)),
        query_map(pairs_view(r@)) == query_map(pairs_view(query@)),
{
    let mut entries: Vec<(String, String)> = Vec::new();
    let mut i: usize = 0;
    while i < query.len()
        invariant
            i <= query@.len(),
            unique_keys(pairs_view(entries@)),
            query_map(pairs_view(entries@)) == query_map(pairs_view(query@.take(i as int))),
        decreases query@.len() - i,
    {
        proof {
            assert(pairs_view(query@.take(i + 1)).drop_last() =~= pairs_view(query@.take(i as int)));
        }
        upsert(&mut entries, query[i].0.clone(), query[i].1.clone());
        i = i + 1;
    }
    assert(query@.take(query@.len() as int) =~= query@);
    entries
}

/// Collects the query pairs whose key is neither `a` nor `b`, as
/// `collect_query` does.
fn collect_query_except(query: &Vec<(String, String)>, a: &str, b: &str) -> (r: Vec<(String, String)>)
    ensures
        unique_keys(pairs_view(r@)),
        query_map(pairs_view(r@)) == query_map(pairs_view(query@)).remove(a@).remove(b@),
{
    let mut entries: Vec<(String, String)> = Vec::new();
    let mut i: usize = 0;
    while i < query.len()
        invariant
            i <= query@.len(),
            unique_keys(pairs_view(entries@)),
            query_map(pairs_view(entries@)) == query_map(pairs_view(query@.take(i as int))).remove(a@).remove(b@),
        decreases query@.len() - i,
    {
        let ghost prev = query_map(pairs_view(query@.take(i as int)));
        proof {
            assert(pairs_view(query@.take(i + 1)).drop_last() =~= pairs_view(query@.take(i as int)));
        }
        let key = query[i].0.clone();
        let value = query[i].1.clone();
        let ghost k = key@;
        let ghost v = value@;
        if !same_text(key.as_str(), a) && !same_text(key.as_str(), b) {
            upsert(&mut entries, key, value);
            assert(prev.insert(k, v).remove(a@).remove(b@) =~= prev.remove(a@).remove(b@).insert(k, v));
        } else {
            assert(prev.insert(k, v).remove(a@).remove(b@) =~= prev.remove(a@).remove(b@));
        }
        i = i + 1;
    }
    assert(query@.take(query@.len() as int) =~= query@);
    entries
}

/// The value of `key` among pairs with distinct keys.
fn lookup(entries: &Vec<(String, String)>, key: &str) -> (r: Option<String>)
    requires
        unique_keys(pairs_view(entries@)),
    ensures
        text_view(r) == (if query_map(pairs_view(entries@)).contains_key(key@) {
            Some(query_map(pairs_view(entries@))[key@])
        } else {
            None::<Seq<char>>
        }),
{
    let ghost pe = pairs_view(entries@);
    proof {
        lemma_query_map_keys(pe);
    }
    match find_key(entries, key) {
        Some(j) => {
            assert(pe[j as int].0 == key@);
            assert(query_map(pe)[pe[j as int].0] == pe[j as int].1);
            Some(entries[j].1.clone())
        },
        None => {
            assert forall|t: int| 0 <= t < pe.len() implies #[trigger] pe[t].0 != key@ by {
                assert(entries@[t].0@ != key@);
            }
            None
        },
    }
}

impl CallbackArgs {
    /// Reads the arguments of a sign-in callback from its query pairs: the
    /// token must be there and not be empty; the user id may be missing.
    pub fn parse(query: &Vec<(String, String)>) -> (r: Result<CallbackArgs, String>)
        ensures
            r is Ok <==> has_token(query_map(pairs_view(query@))),
            r matches Ok(args) ==> callback_args_match(query_map(pairs_view(query@)), args),
            r matches Err(message) ==> message@ == missing_token_message(),
    {
        let entries = collect_query(query);
        let token = match lookup(&entries, "token") {
            Some(t) => {
                if is_empty_text(t.as_str()) {
                    return Err(String::from_str("missing required query parameter: token"));
                }
                t
            },
            None => {
                return Err(String::from_str("missing required query parameter: token"));
            },
        };
        let user_id = match lookup(&entries, "user_id") {
            Some(u) => u,
            None => String::new(),
        };
        let extra = collect_query_except(query, "token", "user_id");
        Ok(CallbackArgs { token, user_id, extra })
    }

    /// The login to store for this callback: its user id and token, with an
    /// empty name and email.
    pub fn login_response(&self) -> (r: LoginResponse)
        ensures
            r.user_id@ == self.user_id@,
            r.token@ == self.token@,
            r.name@ == Seq::<char>::empty(),
            r.email@ == Seq::<char>::empty(),
    {
        LoginResponse {
            user_id: self.user_id.clone(),
            name: String::new(),
            email: String::new(),
            token: self.token.clone(),
        }
    }

    /// Whether the device is to be registered: only when the user id is known.
    pub fn should_register_device(&self) -> (r: bool)
        ensures
            r == (self.user_id@.len() > 0),
    {
        !is_empty_text(self.user_id.as_str())
    }
}

/// The parts of a URL that the callback handling reads.
#[derive(Debug, Clone)]
pub struct UrlParts {
    pub scheme: String,
    pub host: Option<String>,
    pub path: String,
    pub query: Vec<(String, String)>,
}

/// Whether `url::Url::parse` accepts `input`.
pub uninterp spec fn url_parses(input: Seq<char>) -> bool;

/// `scheme()` of the URL that `url::Url::parse` makes of `input`.
pub uninterp spec fn url_scheme(input: Seq<char>) -> Seq<char>;

/// `host_str()` of the URL that `url::Url::parse` makes of `input`.
pub uninterp spec fn url_host(input: Seq<char>) -> Option<Seq<char>>;

/// `path()` of the URL that `url::Url::parse` makes of `input`.
pub uninterp spec fn url_path(input: Seq<char>) -> Seq<char>;

/// `query_pairs()` of the URL that `url::Url::parse` makes of `input`: the
/// percent-decoded key and value of each pair, in order.
pub uninterp spec fn url_query_pairs(input: Seq<char>) -> Seq<QueryPair>;

/// Parses `input` with `url::Url::parse` and reads its scheme, host, path
/// and query pairs. Trusted: the result is there exactly when the parse
/// succeeds, and each part is what the named accessor gives for `input`.
#[verifier::external_body]
fn parse_url(input: &str) -> (r: Option<UrlParts>)
    ensures
        r is Some <==> url_parses(input@),
        r matches Some(p) ==> {
            &&& p.scheme@ == url_scheme(input@)
            &&& text_view(p.host) == url_host(input@)
            &&& p.path@ == url_path(input@)
            &&& pairs_view(p.query@) == url_query_pairs(input@)
        },
{
    match url::Url::parse(input) {
        Ok(u) => Some(UrlParts {
            scheme: u.scheme().to_string(),
            host: u.host_str().map(|h| h.to_string()),
            path: u.path().to_string(),
            query: u.query_pairs().map(|(k, v)| (k.to_string(), v.to_string())).collect(),
        }),
        Err(_) => None,
    }
}

/// What the desktop client does with a URL the system hands it.
#[derive(Debug, Clone)]
pub enum DeepLinkAction {
    /// Not an `opensync:` URL: ignore it.
    NotOpensync,
    /// An `opensync:` URL that is not the sign-in callback: log and ignore it.
    NotCallback,
    /// A callback whose arguments are wrong, with the reason.
    Invalid(String),
    /// A callback to store as the new session.
    Callback(CallbackArgs),
}

/// The URL names the sign-in callback, as host or as path.
pub open spec fn is_callback(host: Option<Seq<char>>, path: Seq<char>) -> bool {
    host == Some("callback"@) || path == "/callback"@
}

/// `action` is what a URL with these parts calls for.
pub open spec fn deep_link_matches(
    scheme: Seq<char>,
    host: Option<Seq<char>>,
    path: Seq<char>,
    pairs: Seq<QueryPair>,
    action: DeepLinkAction,
) -> bool {
    let q = query_map(pairs);
    if scheme != "opensync"@ {
        action is NotOpensync
    } else if !is_callback(host, path) {
        action is NotCallback
    } else if !has_token(q) {
        action matches DeepLinkAction::Invalid(m) && m@ == missing_token_message()
    } else {
        action matches DeepLinkAction::Callback(args) && callback_args_match(q, args)
    }
}

/// Decides what to do with a parsed URL.
pub fn classify_deep_link(url: &UrlParts) -> (r: DeepLinkAction)
    ensures
        deep_link_matches(url.scheme@, text_view(url.host), url.path@, pairs_view(url.query@), r),
{
    if !same_text(url.scheme.as_str(), "opensync") {
        return DeepLinkAction::NotOpensync;
    }
    let host_is_callback = match &url.host {
        Some(h) => same_text(h.as_str(), "callback"),
        None => false,
    };
    if !host_is_callback && !same_text(url.path.as_str(), "/callback") {
        return DeepLinkAction::NotCallback;
    }
    match CallbackArgs::parse(&url.query) {
        Ok(args) => DeepLinkAction::Callback(args),
        Err(message) => DeepLinkAction::Invalid(message),
    }
}

/// Parses a URL and decides what to do with it; `None` when it does not parse.
pub fn deep_link_action(url: &str) -> (r: Option<DeepLinkAction>)
    ensures
        r is Some <==> url_parses(url@),
        r matches Some(action) ==> deep_link_matches(
            url_scheme(url@),
            url_host(url@),
            url_path(url@),
            url_query_pairs(url@),
            action,
        ),
{
    match parse_url(url) {
        Some(parts) => Some(classify_deep_link(&parts)),
        None => None,
    }
}

/// Where a key comes twice in a query, the later value wins.
pub proof fn law_last_value_wins(pairs: Seq<QueryPair>, key: Seq<char>, value: Seq<char>)
    ensures
        query_map(pairs.push((key, value))).contains_key(key),
        query_map(pairs.push((key, value)))[key] == value,
{
    assert(pairs.push((key, value)).drop_last() =~= pairs);
}

/// The extra arguments of a callback never hold the token or the user id.
pub proof fn law_extra_excludes_token_and_user(q: Map<Seq<char>, Seq<char>>, args: CallbackArgs)
    requires
        callback_args_match(q, args),
    ensures
        !query_map(pairs_view(args.extra@)).contains_key("token"@),
        !query_map(pairs_view(args.extra@)).contains_key("user_id"@),
{
}

/// Every other argument of the callback is kept among the extra arguments.
pub proof fn law_extra_keeps_other_keys(q: Map<Seq<char>, Seq<char>>, args: CallbackArgs, key: Seq<char>)
    requires
        callback_args_match(q, args),
        q.contains_key(key),
        key != "token"@,
        key != "user_id"@,
    ensures
        query_map(pairs_view(args.extra@)).contains_key(key),
        query_map(pairs_view(args.extra@))[key] == q[key],
{
}

} // verus!
