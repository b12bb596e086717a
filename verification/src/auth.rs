//! OAuth2 credentials: the stored account map, the PKCE authorize URL, the
//! choice of token for a command, and the expiry rule.

use vstd::prelude::*;
use crate::cli::AuthType;
use crate::text::{
    chars_eq, chars_of, join_chars, join_spec, lemma_first_index_unique, lemma_split_join,
    owned, push_all, push_str, split_once_spec, split_spec, string_of,
};

verus! {

/// Scopes requested at login.
pub const SCOPES: &'static str = "tweet.read users.read bookmark.read offline.access";

/// The OAuth2 authorize endpoint.
pub const AUTHORIZE_URL: &'static str = "https://x.com/i/oauth2/authorize";

/// One stored OAuth2 account.
#[derive(Clone)]
pub struct OAuth2Account {
    pub access_token: String,
    pub refresh_token: Option<String>,
    pub expires_at_secs: Option<u64>,
}

/// Token endpoint response.
pub struct TokenResponse {
    pub access_token: String,
    pub refresh_token: Option<String>,
    pub expires_in: Option<u64>,
}

/// Stored OAuth2 accounts, keyed by username. Each username occurs once.
#[derive(Clone)]
pub struct StoredTokens {
    pub accounts: Vec<(String, OAuth2Account)>,
}

/// The usernames, in storage order.
pub open spec fn account_names(a: Seq<(String, OAuth2Account)>) -> Seq<Seq<char>> {
    a.map_values(|e: (String, OAuth2Account)| e.0@)
}

impl StoredTokens {
    /// No username occurs twice.
    pub open spec fn wf(&self) -> bool {
        account_names(self.accounts@).no_duplicates()
    }

    /// The accounts as a map from username.
    pub open spec fn account_map(&self) -> Map<Seq<char>, OAuth2Account> {
        Map::new(
            |u: Seq<char>| account_names(self.accounts@).contains(u),
            |u: Seq<char>|
                self.accounts@[account_names(self.accounts@).index_of(u)].1,
        )
    }

    /// An empty account map.
    pub fn new() -> (r: Self)
        ensures
            r.wf(),
            r.account_map() == Map::<Seq<char>, OAuth2Account>::empty(),
    {
        let r = StoredTokens { accounts: Vec::new() };
        assert(r.account_map() =~= Map::<Seq<char>, OAuth2Account>::empty());
        r
    }

    /// Stores `account` under `username`, replacing any account stored
    /// under that name.
    pub fn add_account(&mut self, username: String, account: OAuth2Account)
        requires
            old(self).wf(),
        ensures
            final(self).wf(),
            final(self).account_map() == old(self).account_map().insert(username@, account),
    {
        let ghost names = account_names(self.accounts@);
        let u = chars_of(username.as_str());
        let mut i: usize = 0;
        while i < self.accounts.len()
            invariant
                i <= self.accounts@.len(),
                names == account_names(self.accounts@),
                names.no_duplicates(),
                self.accounts@ == old(self).accounts@,
                u@ == username@,
                forall|j: int| 0 <= j < i ==> names[j] != username@,
            decreases self.accounts@.len() - i,
        {
            let c = chars_of(self.accounts[i].0.as_str());
            if chars_eq(c.as_slice(), u.as_slice()) {
                let ghost before = self.accounts@;
                self.accounts.set(i, (username, account));
                proof {
                    let after = self.accounts@;
                    assert(account_names(after) =~= names);
                    assert(names.index_of(username@) == i) by {
                        assert(names[i as int] == username@);
                        assert(names.contains(username@));
                        let k = names.index_of(username@);
                        assert(0 <= k < names.len() && names[k] == username@);
                        if k != i {
                            assert(names.no_duplicates());
                        }
                    }
                    assert(after == before.update(i as int, (username, account)));
                    let m1 = self.account_map();
                    let m0 = old(self).account_map().insert(username@, account);
                    assert forall|v: Seq<char>| m1.dom().contains(v) <==> m0.dom().contains(v) by {
                        if v == username@ {
                            assert(account_names(after)[i as int] == v);
                        }
                    }
                    assert(m1.dom() =~= m0.dom());
                    assert forall|v: Seq<char>| m1.dom().contains(v) implies m1[v] == m0[v] by {
                        let k = names.index_of(v);
                        assert(names[k] == v);
                        if v == username@ {
                            assert(k == i);
                        } else {
                            assert(k != i);
                            assert(after[k] == before[k]);
                        }
                    }
                    assert(m1 =~= m0);
                }
                return;
            }
            i = i + 1;
        }
        let ghost before = self.accounts@;
        self.accounts.push((username, account));
        proof {
            let after = self.accounts@;
            assert(account_names(after) =~= names.push(username@));
            assert(!names.contains(username@));
            let nn = account_names(after);
            assert(nn.index_of(username@) == names.len()) by {
                assert(nn[names.len() as int] == username@);
                let k = nn.index_of(username@);
                assert(0 <= k < nn.len() && nn[k] == username@);
            }
            let m1 = self.account_map();
            let m0 = old(self).account_map().insert(username@, account);
            assert forall|v: Seq<char>| m1.dom().contains(v) <==> m0.dom().contains(v) by {
                if v == username@ {
                    assert(nn[names.len() as int] == v);
                } else if names.contains(v) {
                    let k = names.index_of(v);
                    assert(nn[k] == v);
                } else if nn.contains(v) {
                    let k = nn.index_of(v);
                    assert(nn[k] == v);
                    assert(k < names.len());
                    assert(names[k] == v);
                }
            }
            assert(m1.dom() =~= m0.dom());
            assert forall|v: Seq<char>| m1.dom().contains(v) implies m1[v] == m0[v] by {
                if v == username@ {
                } else {
                    let k = names.index_of(v);
                    assert(names[k] == v);
                    assert(nn[k] == v);
                    let k2 = nn.index_of(v);
                    assert(nn[k2] == v);
                    assert(k2 < names.len());
                    assert(names[k2] == v);
                    assert(k2 == k);
                    assert(after[k] == before[k]);
                }
            }
            assert(m1 =~= m0);
        }
    }
}

impl StoredTokens {
    /// The account stored under `username`.
    pub fn get(&self, username: &str) -> (r: Option<&OAuth2Account>)
        requires
            self.wf(),
        ensures
            match r {
                Some(a) => self.account_map().dom().contains(username@) && self.account_map()[username@] == *a,
                None => !self.account_map().dom().contains(username@),
            },
    {
        let ghost names = account_names(self.accounts@);
        let u = chars_of(username);
        let mut i: usize = 0;
        while i < self.accounts.len()
            invariant
                i <= self.accounts@.len(),
                names == account_names(self.accounts@),
                names.no_duplicates(),
                u@ == username@,
                forall|j: int| 0 <= j < i ==> names[j] != username@,
            decreases self.accounts@.len() - i,
        {
            let c = chars_of(self.accounts[i].0.as_str());
            if chars_eq(c.as_slice(), u.as_slice()) {
                proof {
                    assert(names[i as int] == username@);
                    let k = names.index_of(username@);
                    assert(names[k] == username@);
                }
                return Some(&self.accounts[i].1);
            }
            i = i + 1;
        }
        proof {
            if names.contains(username@) {
                let k = names.index_of(username@);
                assert(names[k] == username@);
            }
        }
        None
    }

    /// The username of the first stored account, if any.
    pub fn first_username(&self) -> (r: Option<&String>)
        ensures
            match r {
                Some(u) => self.accounts@.len() > 0 && u@ == self.accounts@[0].0@,
                None => self.accounts@.len() == 0,
            },
    {
        if self.accounts.len() > 0 {
            Some(&self.accounts[0].0)
        } else {
            None
        }
    }

    /// The absolute expiry of a token valid for `expires_in_secs` from
    /// `now`; `None` without a lifetime or when the sum overflows.
    pub fn expires_at_from(now: u64, expires_in_secs: Option<u64>) -> (r: Option<u64>)
        ensures
            match expires_in_secs {
                None => r is None,
                Some(secs) => if now + secs <= u64::MAX {
                    r == Some((now + secs) as u64)
                } else {
                    r is None
                },
            },
    {
        match expires_in_secs {
            None => None,
            Some(secs) => now.checked_add(secs),
        }
    }

    /// The absolute expiry of a token valid for `expires_in_secs` from now.
    /// `None` without a lifetime, when the clock reads before the epoch, or
    /// when the sum overflows.
    pub fn expires_at(expires_in_secs: Option<u64>) -> (r: Option<u64>)
        ensures
            expires_in_secs is None ==> r is None,
            r matches Some(e) ==> expires_in_secs matches Some(secs) && e >= secs,
    {
        if expires_in_secs.is_none() {
            return None;
        }
        match unix_now_secs() {
            None => None,
            Some(now) => Self::expires_at_from(now, expires_in_secs),
        }
    }
}

/// Seconds since the UNIX epoch from `SystemTime::now()`; `None` when the
/// clock reads before the epoch. The clock decides, so nothing more is
/// claimed.
#[verifier::external_body]
fn unix_now_secs() -> (r: Option<u64>) {
    Some(std::time::SystemTime::now().duration_since(std::time::UNIX_EPOCH).ok()?.as_secs())
}

/// A token whose recorded expiry is known has expired once `now` reaches
/// it; one without a recorded expiry never does.
pub fn is_expired(expires_at: Option<u64>, now_secs: u64) -> (r: bool)
    ensures
        r == (match expires_at {
            Some(e) => now_secs >= e,
            None => false,
        }),
{
    match expires_at {
        Some(e) => now_secs >= e,
        None => false,
    }
}

/// The four OAuth 1.0a credentials of a configuration.
#[derive(Clone, Debug)]
pub struct OAuth1Config {
    pub consumer_key: Option<String>,
    pub consumer_secret: Option<String>,
    pub access_token: Option<String>,
    pub access_token_secret: Option<String>,
}

/// All four OAuth1 credentials are available.
pub fn has_oauth1_available(config: &OAuth1Config) -> (r: bool)
    ensures
        r == (config.consumer_key is Some && config.consumer_secret is Some
            && config.access_token is Some && config.access_token_secret is Some),
{
    config.consumer_key.is_some() && config.consumer_secret.is_some()
        && config.access_token.is_some() && config.access_token_secret.is_some()
}

/// The effective OAuth2 access token (with its refresh token): the
/// configured one, else the environment's, else the stored account of the
/// configured username (or of the first stored account when none is
/// configured).
pub fn resolve_oauth2_token(
    config_access: Option<&str>,
    config_refresh: Option<&str>,
    env_access: Option<&str>,
    env_refresh: Option<&str>,
    username: Option<&str>,
    stored: Option<&StoredTokens>,
) -> (r: Option<(String, Option<String>)>)
    requires
        stored matches Some(st) ==> st.wf(),
    ensures
        config_access matches Some(t) ==> (r matches Some((a, rf)) && a@ == t@ && match config_refresh {
            Some(x) => rf matches Some(y) && y@ == x@,
            None => rf is None,
        }),
        config_access is None ==> (env_access matches Some(t) ==> (r matches Some((a, rf)) && a@ == t@
            && match env_refresh {
            Some(x) => rf matches Some(y) && y@ == x@,
            None => rf is None,
        })),
        config_access is None && env_access is None ==> match stored {
            None => r is None,
            Some(st) => {
                let name: Option<Seq<char>> = match username {
                    Some(u) => Some(u@),
                    None => if st.accounts@.len() > 0 {
                        Some(st.accounts@[0].0@)
                    } else {
                        None
                    },
                };
                match name {
                    None => r is None,
                    Some(n) => if st.account_map().dom().contains(n) {
                        r matches Some((a, rf)) && a@ == st.account_map()[n].access_token@
                            && match st.account_map()[n].refresh_token {
                            Some(x) => rf matches Some(y) && y@ == x@,
                            None => rf is None,
                        }
                    } else {
                        r is None
                    },
                }
            },
        },
{
    if let Some(t) = config_access {
        let refresh = match config_refresh {
            Some(x) => Some(owned(x)),
            None => None,
        };
        return Some((owned(t), refresh));
    }
    if let Some(t) = env_access {
        let refresh = match env_refresh {
            Some(x) => Some(owned(x)),
            None => None,
        };
        return Some((owned(t), refresh));
    }
    let st = match stored {
        Some(st) => st,
        None => {
            return None;
        },
    };
    let name: &str = match username {
        Some(u) => u,
        None => match st.first_username() {
            Some(u) => u.as_str(),
            None => {
                return None;
            },
        },
    };
    match st.get(name) {
        None => None,
        Some(acc) => {
            let refresh = match &acc.refresh_token {
                Some(x) => Some(owned(x.as_str())),
                None => None,
            };
            Some((owned(acc.access_token.as_str()), refresh))
        },
    }
}

/// The token a request is sent with: a bearer token (OAuth2 user context
/// or app-only) or an OAuth 1.0a signature.
#[derive(Clone)]
pub enum CommandToken {
    Bearer { token: String, auth_type: AuthType },
    OAuth1,
}

fn accepts(accepted: &[AuthType], at: AuthType) -> (r: bool)
    ensures
        r == accepted@.contains(at),
{
    let mut i: usize = 0;
    while i < accepted.len()
        invariant
            i <= accepted@.len(),
            forall|j: int| 0 <= j < i ==> accepted@[j] != at,
        decreases accepted@.len() - i,
    {
        if accepted[i] == at {
            assert(accepted@[i as int] == at);
            return true;
        }
        i = i + 1;
    }
    false
}

/// The token chosen for a command, trying the accepted schemes in priority
/// order: OAuth2 user context when a usable access token was obtained, then
/// OAuth1 when its credentials are all present, then an app-only bearer
/// token; `None` when none applies (the command needs authentication).
pub fn choose_command_token(
    accepted: &[AuthType],
    oauth2_token: Option<String>,
    oauth1_available: bool,
    bearer_token: Option<String>,
) -> (r: Option<CommandToken>)
    ensures
        accepted@.contains(AuthType::OAuth2User) && oauth2_token is Some ==> (r matches Some(
            CommandToken::Bearer { token, auth_type },
        ) && token == oauth2_token->0 && auth_type == AuthType::OAuth2User),
        !(accepted@.contains(AuthType::OAuth2User) && oauth2_token is Some) && accepted@.contains(
            AuthType::OAuth1,
        ) && oauth1_available ==> r matches Some(CommandToken::OAuth1),
        !(accepted@.contains(AuthType::OAuth2User) && oauth2_token is Some) && !(accepted@.contains(
            AuthType::OAuth1,
        ) && oauth1_available) && accepted@.contains(AuthType::Bearer) && bearer_token is Some
            ==> (r matches Some(CommandToken::Bearer { token, auth_type }) && token
            == bearer_token->0 && auth_type == AuthType::Bearer),
        !(accepted@.contains(AuthType::OAuth2User) && oauth2_token is Some) && !(accepted@.contains(
            AuthType::OAuth1,
        ) && oauth1_available) && !(accepted@.contains(AuthType::Bearer) && bearer_token is Some)
            ==> r is None,
{
    if accepts(accepted, AuthType::OAuth2User) {
        if let Some(t) = oauth2_token {
            return Some(CommandToken::Bearer { token: t, auth_type: AuthType::OAuth2User });
        }
    }
    if accepts(accepted, AuthType::OAuth1) && oauth1_available {
        return Some(CommandToken::OAuth1);
    }
    if accepts(accepted, AuthType::Bearer) {
        if let Some(t) = bearer_token {
            return Some(CommandToken::Bearer { token: t, auth_type: AuthType::Bearer });
        }
    }
    None
}

// ----- authorize URL -----

/// An ASCII letter or digit.
pub open spec fn is_ascii_alnum(b: u8) -> bool {
    (48 <= b <= 57) || (65 <= b <= 90) || (97 <= b <= 122)
}

pub open spec fn upper_hex_digits() -> Seq<char> {
    seq!['0', '1', '2', '3', '4', '5', '6', '7', '8', '9', 'A', 'B', 'C', 'D', 'E', 'F']
}

/// One byte, percent-encoded against the non-alphanumeric set.
pub open spec fn pct_byte(b: u8) -> Seq<char> {
    if is_ascii_alnum(b) {
        seq![b as char]
    } else {
        seq!['%', upper_hex_digits()[(b / 16) as int], upper_hex_digits()[(b % 16) as int]]
    }
}

/// Percent-encoding of a byte string against the non-alphanumeric set.
pub open spec fn pct_encode(bs: Seq<u8>) -> Seq<char>
    decreases bs.len(),
{
    if bs.len() == 0 {
        Seq::empty()
    } else {
        pct_encode(bs.drop_last()) + pct_byte(bs.last())
    }
}

/// The URL-encoding of a string: its UTF-8 bytes, percent-encoded.
pub open spec fn url_encoded(s: Seq<char>) -> Seq<char> {
    pct_encode(vstd::utf8::encode_utf8(s))
}

/// `percent_encoding::percent_encode(s.as_bytes(), NON_ALPHANUMERIC)`,
/// rendered: each UTF-8 byte that is an ASCII letter or digit is kept, any
/// other byte becomes `%` and two uppercase hex digits.
#[verifier::external_body]
fn url_encode(s: &str) -> (r: String)
    ensures
        r@ == url_encoded(s@),
{
    percent_encoding::percent_encode(s.as_bytes(), percent_encoding::NON_ALPHANUMERIC).to_string()
}

/// The value of a hexadecimal digit (either case).
pub open spec fn hex_digit_value(c: char) -> int {
    if '0' <= c <= '9' {
        c as int - '0' as int
    } else if 'A' <= c <= 'F' {
        c as int - 'A' as int + 10
    } else {
        c as int - 'a' as int + 10
    }
}

/// Percent-decoding: `%` and two hexadecimal digits give that byte; any
/// other character gives its own code.
pub open spec fn pct_decode(s: Seq<char>) -> Seq<u8>
    decreases s.len(),
{
    if s.len() == 0 {
        Seq::empty()
    } else if s[0] == '%' && s.len() >= 3 {
        seq![(hex_digit_value(s[1]) * 16 + hex_digit_value(s[2])) as u8] + pct_decode(s.skip(3))
    } else {
        seq![s[0] as u8] + pct_decode(s.drop_first())
    }
}

proof fn lemma_upper_hex_digit(j: int)
    requires
        0 <= j < 16,
    ensures
        hex_digit_value(upper_hex_digits()[j]) == j,
        ('0' <= upper_hex_digits()[j] <= '9') || ('A' <= upper_hex_digits()[j] <= 'F'),
{
    if j == 0 {
        assert(upper_hex_digits()[0] == '0');
    } else if j == 1 {
        assert(upper_hex_digits()[1] == '1');
    } else if j == 2 {
        assert(upper_hex_digits()[2] == '2');
    } else if j == 3 {
        assert(upper_hex_digits()[3] == '3');
    } else if j == 4 {
        assert(upper_hex_digits()[4] == '4');
    } else if j == 5 {
        assert(upper_hex_digits()[5] == '5');
    } else if j == 6 {
        assert(upper_hex_digits()[6] == '6');
    } else if j == 7 {
        assert(upper_hex_digits()[7] == '7');
    } else if j == 8 {
        assert(upper_hex_digits()[8] == '8');
    } else if j == 9 {
        assert(upper_hex_digits()[9] == '9');
    } else if j == 10 {
        assert(upper_hex_digits()[10] == 'A');
    } else if j == 11 {
        assert(upper_hex_digits()[11] == 'B');
    } else if j == 12 {
        assert(upper_hex_digits()[12] == 'C');
    } else if j == 13 {
        assert(upper_hex_digits()[13] == 'D');
    } else if j == 14 {
        assert(upper_hex_digits()[14] == 'E');
    } else if j == 15 {
        assert(upper_hex_digits()[15] == 'F');
    }
}

/// The encoding of a byte string, read from the front.
proof fn lemma_pct_encode_front(bs: Seq<u8>)
    requires
        bs.len() > 0,
    ensures
        pct_encode(bs) == pct_byte(bs[0]) + pct_encode(bs.drop_first()),
    decreases bs.len(),
{
    if bs.len() == 1 {
        assert(bs.drop_last().len() == 0);
        assert(bs.drop_first().len() == 0);
        assert(pct_encode(bs.drop_first()) =~= Seq::<char>::empty());
        assert(pct_encode(bs.drop_last()) =~= Seq::<char>::empty());
        assert(bs.last() == bs[0]);
        assert(pct_encode(bs) == pct_encode(bs.drop_last()) + pct_byte(bs.last()));
        assert(pct_encode(bs) =~= pct_byte(bs[0]) + Seq::<char>::empty());
    } else {
        lemma_pct_encode_front(bs.drop_last());
        assert(bs.drop_last().drop_first() =~= bs.drop_first().drop_last());
        assert(bs.drop_first().last() == bs.last());
        assert(bs.drop_last()[0] == bs[0]);
        assert(pct_encode(bs) =~= pct_byte(bs[0]) + pct_encode(bs.drop_first()));
    }
}

/// One encoded byte decodes back to the byte, whatever follows it.
proof fn lemma_pct_byte_decodes(b: u8, rest: Seq<char>)
    ensures
        pct_decode(pct_byte(b) + rest) == seq![b] + pct_decode(rest),
{
    let x = pct_byte(b) + rest;
    if is_ascii_alnum(b) {
        assert(x[0] == b as char);
        assert(x.drop_first() =~= rest);
    } else {
        lemma_upper_hex_digit((b / 16) as int);
        lemma_upper_hex_digit((b % 16) as int);
        assert(x[0] == '%' && x[1] == upper_hex_digits()[(b / 16) as int]
            && x[2] == upper_hex_digits()[(b % 16) as int]);
        assert(x.skip(3) =~= rest);
    }
}

proof fn lemma_pct_decode_encoded(bs: Seq<u8>, rest: Seq<char>)
    ensures
        pct_decode(pct_encode(bs) + rest) == bs + pct_decode(rest),
    decreases bs.len(),
{
    if bs.len() == 0 {
        assert(pct_encode(bs) + rest =~= rest);
        assert(bs + pct_decode(rest) =~= pct_decode(rest));
    } else {
        lemma_pct_encode_front(bs);
        lemma_pct_decode_encoded(bs.drop_first(), rest);
        assert(pct_encode(bs) + rest =~= pct_byte(bs[0]) + (pct_encode(bs.drop_first()) + rest));
        lemma_pct_byte_decodes(bs[0], pct_encode(bs.drop_first()) + rest);
        assert(seq![bs[0]] + (bs.drop_first() + pct_decode(rest)) =~= bs + pct_decode(rest));
    }
}

/// Encoded text holds no `&` and no `=`: only ASCII letters, digits, `%`
/// and uppercase hexadecimal digits.
proof fn lemma_pct_encode_chars(bs: Seq<u8>)
    ensures
        !pct_encode(bs).contains('&'),
        !pct_encode(bs).contains('='),
    decreases bs.len(),
{
    if bs.len() > 0 {
        lemma_pct_encode_chars(bs.drop_last());
        let p = pct_encode(bs.drop_last());
        let t = pct_byte(bs.last());
        lemma_upper_hex_digit((bs.last() / 16) as int);
        lemma_upper_hex_digit((bs.last() % 16) as int);
        assert forall|k: int| 0 <= k < t.len() implies t[k] != '&' && t[k] != '=' by {}
        assert forall|k: int| 0 <= k < (p + t).len() implies (p + t)[k] != '&' && (p + t)[k] != '=' by {
            if k < p.len() {
                assert((p + t)[k] == p[k]);
            } else {
                assert((p + t)[k] == t[k - p.len()]);
            }
        }
    }
}

/// URL-encoding is undone by percent-decoding and UTF-8 decoding, and the
/// encoded text holds no `&` and no `=`, so it can stand in a query.
pub proof fn law_url_encoding_decodes(x: Seq<char>)
    ensures
        vstd::utf8::decode_utf8(pct_decode(url_encoded(x))) == x,
        !url_encoded(x).contains('&'),
        !url_encoded(x).contains('='),
{
    let bs = vstd::utf8::encode_utf8(x);
    lemma_pct_decode_encoded(bs, Seq::empty());
    assert(url_encoded(x) + Seq::<char>::empty() =~= url_encoded(x));
    assert(bs + pct_decode(Seq::<char>::empty()) =~= bs);
    vstd::utf8::encode_utf8_decode_utf8(x);
    lemma_pct_encode_chars(bs);
}

/// The parameters of the PKCE authorize request, in order.
pub open spec fn authorize_params(
    client_id: Seq<char>,
    redirect_uri: Seq<char>,
    code_challenge: Seq<char>,
    state: Seq<char>,
) -> Seq<(Seq<char>, Seq<char>)> {
    seq![
        ("response_type"@, "code"@),
        ("client_id"@, client_id),
        ("redirect_uri"@, redirect_uri),
        ("scope"@, SCOPES@),
        ("state"@, state),
        ("code_challenge"@, code_challenge),
        ("code_challenge_method"@, "S256"@),
    ]
}

/// `k=v` with both sides URL-encoded, joined by `&`.
pub open spec fn form_query(ps: Seq<(Seq<char>, Seq<char>)>) -> Seq<char> {
    join_spec(ps.map_values(|p: (Seq<char>, Seq<char>)| url_encoded(p.0) + "="@ + url_encoded(p.1)), "&"@)
}

/// `q` splits at `&` into one `k=v` item per pair, in order, and each side
/// percent-decodes and UTF-8-decodes back to the pair's text.
pub open spec fn query_decodes_to(q: Seq<char>, ps: Seq<(Seq<char>, Seq<char>)>) -> bool {
    &&& split_spec(q, '&').len() == ps.len()
    &&& forall|i: int|
        0 <= i < ps.len() ==> (split_once_spec(#[trigger] split_spec(q, '&')[i], '=') matches Some(
            kv,
        ) && vstd::utf8::decode_utf8(pct_decode(kv.0)) == ps[i].0 && vstd::utf8::decode_utf8(
            pct_decode(kv.1),
        ) == ps[i].1)
}

/// A form query decodes back to its pairs.
pub proof fn law_form_query_decodes(ps: Seq<(Seq<char>, Seq<char>)>)
    requires
        ps.len() >= 1,
    ensures
        query_decodes_to(form_query(ps), ps),
{
    let f = |p: (Seq<char>, Seq<char>)| url_encoded(p.0) + "="@ + url_encoded(p.1);
    let items = ps.map_values(f);
    reveal_strlit("&");
    reveal_strlit("=");
    assert("&"@ =~= seq!['&']);
    assert forall|i: int| 0 <= i < items.len() implies !(#[trigger] items[i]).contains('&') by {
        law_url_encoding_decodes(ps[i].0);
        law_url_encoding_decodes(ps[i].1);
        let ek = url_encoded(ps[i].0);
        let ev = url_encoded(ps[i].1);
        assert(items[i] == ek + "="@ + ev);
        if items[i].contains('&') {
            let k = choose|k: int| 0 <= k < items[i].len() && items[i][k] == '&';
            if k < ek.len() {
                assert(ek[k] == '&');
            } else if k > ek.len() {
                assert(ev[k - ek.len() - 1] == '&');
            }
        }
    }
    lemma_split_join(items, '&');
    assert(form_query(ps) == join_spec(items, seq!['&']));
    assert forall|i: int| 0 <= i < ps.len() implies (split_once_spec(
        #[trigger] split_spec(form_query(ps), '&')[i],
        '=',
    ) matches Some(kv) && vstd::utf8::decode_utf8(pct_decode(kv.0)) == ps[i].0
        && vstd::utf8::decode_utf8(pct_decode(kv.1)) == ps[i].1) by {
        law_url_encoding_decodes(ps[i].0);
        law_url_encoding_decodes(ps[i].1);
        let ek = url_encoded(ps[i].0);
        let ev = url_encoded(ps[i].1);
        let item = ek + "="@ + ev;
        assert(split_spec(form_query(ps), '&')[i] == item);
        assert forall|j: int| 0 <= j < ek.len() implies item[j] != '=' by {
            assert(item[j] == ek[j]);
            if ek[j] == '=' {
                assert(ek.contains('='));
            }
        }
        assert(item[ek.len() as int] == '=');
        lemma_first_index_unique(item, '=', ek.len() as int);
        assert(item.take(ek.len() as int) =~= ek);
        assert(item.skip(ek.len() + 1int) =~= ev);
    }
}

/// The query of the authorize URL decodes back to its seven pairs, in order:
/// `response_type=code`, the client id, the redirect URI, the scopes, the
/// state, the code challenge, and `code_challenge_method=S256`.
pub proof fn law_authorize_query_decodes_to_its_pairs(
    client_id: Seq<char>,
    redirect_uri: Seq<char>,
    code_challenge: Seq<char>,
    state: Seq<char>,
)
    ensures
        query_decodes_to(
            form_query(authorize_params(client_id, redirect_uri, code_challenge, state)),
            authorize_params(client_id, redirect_uri, code_challenge, state),
        ),
        authorize_params(client_id, redirect_uri, code_challenge, state).len() == 7,
{
    law_form_query_decodes(authorize_params(client_id, redirect_uri, code_challenge, state));
}

/// Builds the authorize URL for OAuth2 PKCE.
pub fn build_authorize_url(client_id: &str, redirect_uri: &str, code_challenge: &str, state: &str) -> (r:
    String)
    ensures
        r@ == AUTHORIZE_URL@ + "?"@ + form_query(
            authorize_params(client_id@, redirect_uri@, code_challenge@, state@),
        ),
{
    let mut params: Vec<(&str, &str)> = Vec::new();
    params.push(("response_type", "code"));
    params.push(("client_id", client_id));
    params.push(("redirect_uri", redirect_uri));
    params.push(("scope", SCOPES));
    params.push(("state", state));
    params.push(("code_challenge", code_challenge));
    params.push(("code_challenge_method", "S256"));
    let ghost pv = authorize_params(client_id@, redirect_uri@, code_challenge@, state@);
    assert(params@.map_values(|p: (&str, &str)| (p.0@, p.1@)) =~= pv);
    let mut items: Vec<Vec<char>> = Vec::new();
    let mut i: usize = 0;
    while i < params.len()
        invariant
            i <= params@.len(),
            pv == params@.map_values(|p: (&str, &str)| (p.0@, p.1@)),
            items@.len() == i,
            forall|t: int|
                0 <= t < i ==> #[trigger] items@[t]@ == url_encoded(pv[t].0) + "="@ + url_encoded(pv[t].1),
        decreases params@.len() - i,
    {
        let (k, v) = params[i];
        assert(k@ == pv[i as int].0 && v@ == pv[i as int].1);
        let mut item = url_encode(k);
        push_str(&mut item, "=");
        let ev = url_encode(v);
        push_str(&mut item, ev.as_str());
        items.push(chars_of(item.as_str()));
        i = i + 1;
    }
    assert(items@.map_values(|x: Vec<char>| x@) =~= pv.map_values(
        |p: (Seq<char>, Seq<char>)| url_encoded(p.0) + "="@ + url_encoded(p.1),
    ));
    let amp: [char; 1] = ['&'];
    assert(amp@ =~= "&"@) by {
        reveal_strlit("&");
    }
    let q = join_chars(&items, amp.as_slice());
    let mut r = owned(AUTHORIZE_URL);
    push_str(&mut r, "?");
    push_all(&mut r, q.as_slice());
    r
}

// ----- PKCE -----

/// Unpadded URL-safe base64 of a byte string.
pub uninterp spec fn base64url_nopad(b: Seq<u8>) -> Seq<char>;

/// `base64::engine::general_purpose::URL_SAFE_NO_PAD.encode(b)`, named by
/// [`base64url_nopad`].
#[verifier::external_body]
fn base64url_encode(b: &[u8]) -> (r: String)
    ensures
        r@ == base64url_nopad(b@),
{
    base64::Engine::encode(&base64::engine::general_purpose::URL_SAFE_NO_PAD, b)
}

/// Thirty-two bytes from `rand::thread_rng().fill_bytes`. They are random:
/// only their number is claimed.
#[verifier::external_body]
fn random_bytes_32() -> (r: Vec<u8>)
    ensures
        r@.len() == 32,
{
    let mut bytes = [0u8; 32];
    rand::RngCore::fill_bytes(&mut rand::thread_rng(), &mut bytes);
    bytes.to_vec()
}

/// A PKCE code verifier: thirty-two random bytes in unpadded URL-safe
/// base64.
pub fn make_code_verifier() -> (r: String)
    ensures
        exists|b: Seq<u8>| b.len() == 32 && r@ == base64url_nopad(b),
{
    let bytes = random_bytes_32();
    base64url_encode(bytes.as_slice())
}

/// The PKCE S256 code challenge: unpadded URL-safe base64 of the SHA-256
/// digest of the verifier's UTF-8 bytes.
pub fn make_code_challenge(verifier: &str) -> (r: String)
    ensures
        r@ == base64url_nopad(crate::db::entity::sha256_of(vstd::utf8::encode_utf8(verifier@))),
{
    let digest = crate::db::entity::sha256(verifier.as_bytes());
    base64url_encode(digest.as_slice())
}

/// Read after write: after `add_account(u, a)`, the account stored under
/// `u` is `a`, and every other username keeps its account.
pub proof fn law_add_account_then_get(
    before: StoredTokens,
    after: StoredTokens,
    username: Seq<char>,
    account: OAuth2Account,
)
    requires
        after.account_map() == before.account_map().insert(username, account),
    ensures
        after.account_map().dom().contains(username),
        after.account_map()[username] == account,
        forall|v: Seq<char>|
            v != username ==> (after.account_map().dom().contains(v) == before.account_map().dom().contains(v))
                && (before.account_map().dom().contains(v) ==> after.account_map()[v]
                == before.account_map()[v]),
{
}

} // verus!
