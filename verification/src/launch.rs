//! Handling of `goober-player:` launch URIs: recognising them, reading their
//! query parameters, and building the command line of the game client.

use vstd::prelude::*;

verus! {

/// The prefix that marks a command-line argument as a launch URI.
pub open spec fn launch_uri_prefix() -> Seq<char> {
    "goober-player:///?"@
}

/// `p` is a prefix of `s`.
pub open spec fn starts_with(s: Seq<char>, p: Seq<char>) -> bool {
    p.len() <= s.len() && s.subrange(0, p.len() as int) == p
}

/// `p` is a prefix of `s` exactly when `s` is `p` followed by something.
pub proof fn lemma_starts_with_concat(s: Seq<char>, p: Seq<char>, t: Seq<char>)
    ensures
        starts_with(p + t, p),
        starts_with(s, p) ==> s == p + s.skip(p.len() as int),
        s.len() < p.len() ==> !starts_with(s, p),
{
    assert((p + t).subrange(0, p.len() as int) =~= p);
    if starts_with(s, p) {
        assert(s =~= p + s.skip(p.len() as int));
    }
}

/// Tells whether `prefix` is a prefix of `s`.
pub fn has_prefix(s: &str, prefix: &str) -> (res: bool)
    ensures
        res == starts_with(s@, prefix@),
{
    let n: usize = s.unicode_len();
    let m: usize = prefix.unicode_len();
    if m > n {
        return false;
    }
    let mut i: usize = 0;
    while i < m
        invariant
            m == prefix@.len(),
            n == s@.len(),
            m <= n,
            i <= m,
            forall|j: int| 0 <= j < i ==> s@[j] == prefix@[j],
        decreases m - i,
    {
        if s.get_char(i) != prefix.get_char(i) {
            assert(s@.subrange(0, m as int)[i as int] != prefix@[i as int]);
            return false;
        }
        i = i + 1;
    }
    assert(s@.subrange(0, m as int) =~= prefix@);
    true
}

/// The query pairs of a URI, keys and values as character strings.
pub open spec fn pair_views(pairs: Seq<(String, String)>) -> Seq<(Seq<char>, Seq<char>)> {
    pairs.map_values(|p: (String, String)| (p.0@, p.1@))
}

/// The `(key, value)` pairs of the query of `uri`, decoded as
/// `application/x-www-form-urlencoded`, as `url::Url::parse` followed by
/// `Url::query_pairs` yields them; `None` where `uri` is not a valid URL.
pub uninterp spec fn url_query_pairs(uri: Seq<char>) -> Option<Seq<(Seq<char>, Seq<char>)>>;

/// Calls `url::Url::parse` and, on success, `Url::query_pairs`, turning each
/// decoded pair into owned strings. Trusted: the outcome is the one named by
/// `url_query_pairs` for the text of `uri`, a function of that text alone.
#[verifier::external_body]
fn parse_query_pairs(uri: &str) -> (res: Option<Vec<(String, String)>>)
    ensures
        res is Some <==> url_query_pairs(uri@) is Some,
        res matches Some(v) ==> pair_views(v@) == url_query_pairs(uri@)->0,
{
    match url::Url::parse(uri) {
        Ok(u) => Some(u.query_pairs().map(|(k, v)| (k.into_owned(), v.into_owned())).collect()),
        Err(_) => None,
    }
}

/// The value of the first pair whose key is `key`, or the empty string.
pub open spec fn query_value(pairs: Seq<(Seq<char>, Seq<char>)>, key: Seq<char>) -> Seq<char>
    decreases pairs.len(),
{
    if pairs.len() == 0 {
        Seq::empty()
    } else if pairs[0].0 == key {
        pairs[0].1
    } else {
        query_value(pairs.drop_first(), key)
    }
}

/// Looks up a query parameter: the value of the first pair with key `key`,
/// or the empty string when there is none.
pub fn get_query_param(pairs: &Vec<(String, String)>, key: &str) -> (res: String)
    ensures
        res@ == query_value(pair_views(pairs@), key@),
{
    let key_s = String::from_str(key);
    let n: usize = pairs.len();
    let mut i: usize = 0;
    assert(pair_views(pairs@).skip(0) =~= pair_views(pairs@));
    while i < n
        invariant
            n == pairs@.len(),
            i <= n,
            key_s@ == key@,
            query_value(pair_views(pairs@), key@) == query_value(pair_views(pairs@).skip(i as int), key@),
        decreases n - i,
    {
        let ghost rest = pair_views(pairs@).skip(i as int);
        assert(rest[0] == (pairs@[i as int].0@, pairs@[i as int].1@));
        if pairs[i].0 == key_s {
            return pairs[i].1.clone();
        }
        assert(rest.drop_first() =~= pair_views(pairs@).skip(i + 1));
        i = i + 1;
    }
    String::new()
}


/// A query parameter reads as the value of its first occurrence, and as the
/// empty string when the key does not occur.
pub proof fn lemma_query_value_first_occurrence(pairs: Seq<(Seq<char>, Seq<char>)>, key: Seq<char>, i: int)
    requires
        0 <= i <= pairs.len(),
        forall|j: int| 0 <= j < i ==> (#[trigger] pairs[j]).0 != key,
        i < pairs.len() ==> pairs[i].0 == key,
    ensures
        query_value(pairs, key) == (if i < pairs.len() { pairs[i].1 } else { Seq::<char>::empty() }),
    decreases i,
{
    if i > 0 {
        assert(pairs[0].0 != key);
        let rest = pairs.drop_first();
        assert forall|j: int| 0 <= j < i - 1 implies (#[trigger] rest[j]).0 != key by {
            assert(rest[j] == pairs[j + 1]);
        }
        if i < pairs.len() {
            assert(rest[i - 1] == pairs[i]);
        }
        lemma_query_value_first_occurrence(rest, key, i - 1);
    }
}

/// Only launch URIs start the client: an argument without the
/// `goober-player:///?` prefix is passed over, and one that has it is either
/// launched or reported as invalid, depending only on whether it parses.
pub proof fn lemma_launch_requires_prefix(arg: Seq<char>)
    ensures
        !starts_with(arg, launch_uri_prefix()) ==> decide_launch(arg) is NotALaunchUri,
        starts_with(arg, launch_uri_prefix()) ==> (decide_launch(arg) is InvalidUri <==> url_query_pairs(arg) is None),
{
}

/// The join-script address for a place, a session ticket and a game.
pub open spec fn join_script_url_text(placeid: Seq<char>, token: Seq<char>, game: Seq<char>) -> Seq<char> {
    "http://www.goober.biz/game/newcl/join.ashx?placeid="@ + placeid + "&auth="@ + token + "&game="@
        + game
}

/// Builds the join-script address that the client is told to load.
pub fn join_script_url(placeid: &str, token: &str, game: &str) -> (res: String)
    ensures
        res@ == join_script_url_text(placeid@, token@, game@),
{
    let mut res = String::from_str("http://www.goober.biz/game/newcl/join.ashx?placeid=");
    res.append(placeid);
    res.append("&auth=");
    res.append(token);
    res.append("&game=");
    res.append(game);
    res
}

/// The client's command line (after the program path) for a launch.
pub open spec fn player_arguments_text(token: Seq<char>, join_url: Seq<char>) -> Seq<Seq<char>> {
    seq![
        "--authenticationUrl"@,
        "http://goober.biz/login/negotiate.ashx"@,
        "--authenticationTicket"@,
        token,
        "--joinScriptUrl"@,
        join_url,
        "--play"@,
    ]
}

/// Builds the client's command line for a session ticket and a join-script
/// address.
pub fn player_arguments(token: &str, join_url: &str) -> (res: Vec<String>)
    ensures
        res.deep_view() == player_arguments_text(token@, join_url@),
{
    let mut res: Vec<String> = Vec::new();
    res.push(String::from_str("--authenticationUrl"));
    res.push(String::from_str("http://goober.biz/login/negotiate.ashx"));
    res.push(String::from_str("--authenticationTicket"));
    res.push(String::from_str(token));
    res.push(String::from_str("--joinScriptUrl"));
    res.push(String::from_str(join_url));
    res.push(String::from_str("--play"));
    assert(res.deep_view() =~= player_arguments_text(token@, join_url@));
    res
}

/// The client command line for a launch URI whose query pairs are `pairs`:
/// the session ticket is the `auth` parameter, and the join script names the
/// `placeid`, `auth` and `game` parameters (each empty when absent).
pub open spec fn launch_arguments_for(pairs: Seq<(Seq<char>, Seq<char>)>) -> Seq<Seq<char>> {
    player_arguments_text(
        query_value(pairs, "auth"@),
        join_script_url_text(
            query_value(pairs, "placeid"@),
            query_value(pairs, "auth"@),
            query_value(pairs, "game"@),
        ),
    )
}


/// For query pairs whose first `auth` value is `t` (at index `i`, with no
/// earlier `auth` key), the client command line passes `t` whole: as the
/// argument after `--authenticationTicket`, and as the `auth` field of the
/// join-script address, between `&auth=` and `&game=`; likewise the
/// `placeid` and `game` fields are the first values of those keys.
pub proof fn lemma_launch_passes_ticket_whole(pairs: Seq<(Seq<char>, Seq<char>)>, i: int)
    requires
        0 <= i < pairs.len(),
        pairs[i].0 == "auth"@,
        forall|j: int| 0 <= j < i ==> (#[trigger] pairs[j]).0 != "auth"@,
    ensures
        launch_arguments_for(pairs).len() == 7,
        launch_arguments_for(pairs)[0] == "--authenticationUrl"@,
        launch_arguments_for(pairs)[1] == "http://goober.biz/login/negotiate.ashx"@,
        launch_arguments_for(pairs)[6] == "--play"@,
        launch_arguments_for(pairs)[2] == "--authenticationTicket"@,
        launch_arguments_for(pairs)[3] == pairs[i].1,
        launch_arguments_for(pairs)[4] == "--joinScriptUrl"@,
        launch_arguments_for(pairs)[5] == "http://www.goober.biz/game/newcl/join.ashx?placeid="@
            + query_value(pairs, "placeid"@) + "&auth="@ + pairs[i].1 + "&game="@ + query_value(pairs, "game"@),
{
    lemma_query_value_first_occurrence(pairs, "auth"@, i);
}

/// Builds the client command line from the query pairs of a launch URI.
pub fn launch_arguments(pairs: &Vec<(String, String)>) -> (res: Vec<String>)
    ensures
        res.deep_view() == launch_arguments_for(pair_views(pairs@)),
{
    let placeid = get_query_param(pairs, "placeid");
    let player_token = get_query_param(pairs, "auth");
    let game = get_query_param(pairs, "game");
    let join_url = join_script_url(placeid.as_str(), player_token.as_str(), game.as_str());
    player_arguments(player_token.as_str(), join_url.as_str())
}

/// What the launcher does with one command-line argument.
#[derive(Debug, Clone, PartialEq, Eq)]
pub enum LaunchDecision {
    /// The argument is not a launch URI; it is passed over.
    NotALaunchUri,
    /// The argument starts like a launch URI but does not parse as a URL.
    InvalidUri,
    /// Start the client with this command line.
    Launch(Vec<String>),
}

/// `LaunchDecision` with its strings as character sequences.
pub enum LaunchDecisionView {
    NotALaunchUri,
    InvalidUri,
    Launch(Seq<Seq<char>>),
}

impl View for LaunchDecision {
    type V = LaunchDecisionView;

    open spec fn view(&self) -> LaunchDecisionView {
        match self {
            LaunchDecision::NotALaunchUri => LaunchDecisionView::NotALaunchUri,
            LaunchDecision::InvalidUri => LaunchDecisionView::InvalidUri,
            LaunchDecision::Launch(args) => LaunchDecisionView::Launch(args.deep_view()),
        }
    }
}

/// The decision for argument `arg`.
pub open spec fn decide_launch(arg: Seq<char>) -> LaunchDecisionView {
    if !starts_with(arg, launch_uri_prefix()) {
        LaunchDecisionView::NotALaunchUri
    } else {
        match url_query_pairs(arg) {
            None => LaunchDecisionView::InvalidUri,
            Some(pairs) => LaunchDecisionView::Launch(launch_arguments_for(pairs)),
        }
    }
}

/// Decides what to do with one command-line argument: an argument that
/// starts with `goober-player:///?` is parsed as a URL and, when it parses,
/// yields the client's command line.
pub fn classify_argument(arg: &str) -> (res: LaunchDecision)
    ensures
        res@ == decide_launch(arg@),
{
    if !has_prefix(arg, "goober-player:///?") {
        return LaunchDecision::NotALaunchUri;
    }
    match parse_query_pairs(arg) {
        None => LaunchDecision::InvalidUri,
        Some(pairs) => LaunchDecision::Launch(launch_arguments(&pairs)),
    }
}

/// The two ways the launcher runs.
#[derive(Debug, Clone, Copy, PartialEq, Eq, Structural)]
pub enum RunMode {
    /// Arguments were given: launch the client for each launch URI.
    Play,
    /// No argument besides the program path: install and register.
    Install,
}

/// Chooses the mode from the number of command-line arguments, the program
/// path included.
pub fn select_mode(arg_count: usize) -> (res: RunMode)
    ensures
        res == (if arg_count > 1 { RunMode::Play } else { RunMode::Install }),
{
    if arg_count > 1 {
        RunMode::Play
    } else {
        RunMode::Install
    }
}

} // verus!
