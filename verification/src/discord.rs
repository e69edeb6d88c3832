//! Signing in with Discord: the URL that sends a user to Discord to authorize the app.
use vstd::prelude::*;

verus! {

/// The OAuth scopes that the app asks Discord for.
pub const SCOPES: [&'static str; 1] = ["identify"];

/// Where Discord is.
pub const DISCORD_URL: &'static str = "https://discord.com";

/// The app's credentials with Discord.
#[derive(Debug)]
pub struct DiscordClient {
    pub client_id: String,
    pub client_secret: String,
}

/// A Discord user, as Discord's API describes them.
#[derive(Clone, Debug)]
pub struct DiscordUser {
    pub id: String,
    pub username: String,
    pub avatar: String,
}

/// What `url::Url::parse_with_params` gives for `input` and the query pairs `params`,
/// serialized; `None` where it cannot parse `input` as an absolute URL.
pub uninterp spec fn url_with_params(input: Seq<char>, params: Seq<(Seq<char>, Seq<char>)>) -> Option<
    Seq<char>,
>;

/// The views of a list of string pairs.
pub open spec fn pair_views(params: Seq<(&str, &str)>) -> Seq<(Seq<char>, Seq<char>)> {
    params.map_values(|p: (&str, &str)| (p.0@, p.1@))
}

/// Calls `url::Url::parse_with_params` and serializes the URL it gives.
///
/// Trusted: the outcome is a function of the input and the pairs alone, and the crate
/// parses the address of Discord's authorization page (an absolute `https` URL with a
/// host and a path), so the call succeeds on it whatever the pairs.
#[verifier::external_body]
fn url_parse_with_params(input: &str, params: &Vec<(&str, &str)>) -> (r: Option<String>)
    ensures
        r is Some <==> url_with_params(input@, pair_views(params@)) is Some,
        r matches Some(s) ==> url_with_params(input@, pair_views(params@)) == Some(s@),
        input@ == authorize_endpoint() ==> r is Some,
{
    url::Url::parse_with_params(input, params.iter()).ok().map(|u: url::Url| u.to_string())
}

/// `parts` joined, with `sep` between each two of them.
pub open spec fn joined(parts: Seq<Seq<char>>, sep: Seq<char>) -> Seq<char>
    decreases parts.len(),
{
    if parts.len() == 0 {
        Seq::empty()
    } else if parts.len() == 1 {
        parts[0]
    } else {
        joined(parts.drop_last(), sep) + sep + parts.last()
    }
}

/// The scopes, separated by spaces.
pub open spec fn scope_list() -> Seq<char> {
    joined(SCOPES@.map_values(|s: &str| s@), " "@)
}

/// The query of an authorization URL: the client id, a request for a code, the URL that
/// Discord sends the user back to, the scopes, and the state where there is one.
pub open spec fn authorization_params(client_id: Seq<char>, callback_url: Seq<char>, state: Option<Seq<char>>) -> Seq<
    (Seq<char>, Seq<char>),
> {
    let base = seq![
        ("client_id"@, client_id),
        ("response_type"@, "code"@),
        ("redirect_uri"@, callback_url),
        ("scope"@, scope_list()),
    ];
    match state {
        Some(s) => base.push(("state"@, s)),
        None => base,
    }
}

/// The query of an authorization URL holds the client's whole id, unchanged, as its first
/// pair, then the request for a code, the callback URL unchanged, the `identify` scope,
/// and the state, unchanged, as a fifth and last pair exactly where one is given; the
/// client secret is none of them, as no pair is built from it.
pub proof fn lemma_authorization_query(client_id: Seq<char>, callback_url: Seq<char>, state: Option<Seq<char>>)
    ensures
        authorization_params(client_id, callback_url, state)[0] == ("client_id"@, client_id),
        authorization_params(client_id, callback_url, state)[1] == ("response_type"@, "code"@),
        authorization_params(client_id, callback_url, state)[2] == ("redirect_uri"@, callback_url),
        authorization_params(client_id, callback_url, state)[3] == ("scope"@, "identify"@),
        state is None ==> authorization_params(client_id, callback_url, state).len() == 4,
        state matches Some(s) ==> {
            &&& authorization_params(client_id, callback_url, state).len() == 5
            &&& authorization_params(client_id, callback_url, state)[4] == ("state"@, s)
        },
{
    lemma_scopes_are_identify();
}

/// The app asks for the `identify` scope alone.
pub proof fn lemma_scopes_are_identify()
    ensures
        scope_list() == "identify"@,
{
    let views = SCOPES@.map_values(|s: &str| s@);
    assert(views.len() == 1);
    assert(views[0] == "identify"@);
}

/// The view of an optional string slice.
pub open spec fn opt_str_view(s: Option<&str>) -> Option<Seq<char>> {
    match s {
        Some(s) => Some(s@),
        None => None,
    }
}

/// The page of Discord where a user authorizes an app.
pub open spec fn authorize_endpoint() -> Seq<char> {
    DISCORD_URL@ + "/oauth2/authorize"@
}

fn join_with_spaces(parts: &[&str]) -> (r: String)
    ensures
        r@ == joined(parts@.map_values(|s: &str| s@), " "@),
{
    let ghost views = parts@.map_values(|s: &str| s@);
    let mut r = String::new();
    let mut i: usize = 0;
    while i < parts.len()
        invariant
            i <= parts@.len(),
            views == parts@.map_values(|s: &str| s@),
            r@ == joined(views.take(i as int), " "@),
        decreases parts@.len() - i,
    {
        if i != 0 {
            r.append(" ");
        }
        r.append(parts[i]);
        assert(views.take(i + 1).drop_last() =~= views.take(i as int));
        i = i + 1;
    }
    assert(views.take(parts@.len() as int) =~= views);
    r
}

impl DiscordClient {
    /// The URL that sends a user to Discord to authorize the app, after which Discord sends
    /// them back to `callback_url` (with `state`, where given): Discord's authorization
    /// page with the client id, a request for a code, the callback URL, the scopes and the
    /// state as its query.
    pub fn get_authorization_url(&self, callback_url: &str, state: Option<&str>) -> (r: String)
        ensures
            url_with_params(
                authorize_endpoint(),
                authorization_params(self.client_id@, callback_url@, opt_str_view(state)),
            ) == Some(r@),
            state is None ==> url_with_params(
                "https://discord.com/oauth2/authorize"@,
                seq![
                    ("client_id"@, self.client_id@),
                    ("response_type"@, "code"@),
                    ("redirect_uri"@, callback_url@),
                    ("scope"@, "identify"@),
                ],
            ) == Some(r@),
            state matches Some(st) ==> url_with_params(
                "https://discord.com/oauth2/authorize"@,
                seq![
                    ("client_id"@, self.client_id@),
                    ("response_type"@, "code"@),
                    ("redirect_uri"@, callback_url@),
                    ("scope"@, "identify"@),
                    ("state"@, st@),
                ],
            ) == Some(r@),
    {
        let scopes = join_with_spaces(&SCOPES);
        let mut params: Vec<(&str, &str)> = Vec::new();
        params.push(("client_id", self.client_id.as_str()));
        params.push(("response_type", "code"));
        params.push(("redirect_uri", callback_url));
        params.push(("scope", scopes.as_str()));
        if let Some(state) = state {
            params.push(("state", state));
        }
        let mut endpoint = String::from_str(DISCORD_URL);
        endpoint.append("/oauth2/authorize");
        proof {
            let expected = authorization_params(self.client_id@, callback_url@, opt_str_view(state));
            assert(pair_views(params@) =~= expected);
        }
        proof {
            lemma_authorization_query(self.client_id@, callback_url@, opt_str_view(state));
            reveal_strlit("https://discord.com");
            reveal_strlit("/oauth2/authorize");
            reveal_strlit("https://discord.com/oauth2/authorize");
            assert(authorize_endpoint() =~= "https://discord.com/oauth2/authorize"@);
            let p = authorization_params(self.client_id@, callback_url@, opt_str_view(state));
            match state {
                Some(st) => {
                    assert(p =~= seq![
                        ("client_id"@, self.client_id@),
                        ("response_type"@, "code"@),
                        ("redirect_uri"@, callback_url@),
                        ("scope"@, "identify"@),
                        ("state"@, st@),
                    ]);
                },
                None => {
                    assert(p =~= seq![
                        ("client_id"@, self.client_id@),
                        ("response_type"@, "code"@),
                        ("redirect_uri"@, callback_url@),
                        ("scope"@, "identify"@),
                    ]);
                },
            }
        }
        match url_parse_with_params(endpoint.as_str(), &params) {
            Some(url) => url,
            None => vstd::pervasive::unreached(),
        }
    }
}

} // verus!
