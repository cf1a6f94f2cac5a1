//! The exchange with the Subsonic server: the authentication token, the
//! `getStarred` request and the interpretation of its answer.
use md5::Digest;
use rand::RngExt;
use vstd::prelude::*;

use crate::models::{ApiConfig, Song, SubsonicResponse};
use crate::text::{is_ascii_alphanumeric, push_char};
use vstd::utf8::encode_utf8;

verus! {

#[verifier::external_type_specification]
#[verifier::external_body]
pub struct ExThreadRng(rand::rngs::ThreadRng);

/// `rand::rng`: the thread-local random generator.
#[verifier::external_body]
fn thread_rng() -> rand::rngs::ThreadRng {
    rand::rng()
}

/// `RngExt::sample` with `distr::Alphanumeric`: a random byte, which the
/// distribution draws from the ASCII letters and digits.
#[verifier::external_body]
fn sample_alphanumeric(rng: &mut rand::rngs::ThreadRng) -> (b: u8)
    ensures
        is_ascii_alphanumeric(b as char),
{
    rng.sample(rand::distr::Alphanumeric)
}

/// A valid salt: six ASCII letters or digits.
pub open spec fn is_salt(s: Seq<char>) -> bool {
    &&& s.len() == 6
    &&& forall|i: int| 0 <= i < s.len() ==> #[trigger] is_ascii_alphanumeric(s[i])
}

/// A fresh random salt of six ASCII letters and digits.
pub fn generate_salt() -> (salt: String)
    ensures
        is_salt(salt@),
{
    let mut rng = thread_rng();
    let mut salt = String::new();
    let mut i: usize = 0;
    while i < 6
        invariant
            i <= 6,
            salt@.len() == i,
            forall|j: int| 0 <= j < i ==> #[trigger] is_ascii_alphanumeric(salt@[j]),
        decreases 6 - i,
    {
        let b = sample_alphanumeric(&mut rng);
        push_char(&mut salt, b as char);
        i = i + 1;
    }
    salt
}

/// The MD5 digest of `data`.
pub uninterp spec fn md5(data: Seq<u8>) -> Seq<u8>;

/// `md5::Md5::digest`: the MD5 digest of `data`, 16 bytes long.
#[verifier::external_body]
fn md5_digest(data: &[u8]) -> (digest: Vec<u8>)
    ensures
        digest@ == md5(data@),
        digest@.len() == 16,
{
    md5::Md5::digest(data).to_vec()
}

/// The lowercase hexadecimal digit of `n`, which is below 16.
pub open spec fn hex_digit(n: u8) -> char {
    if n < 10 {
        (48 + n) as char
    } else {
        (87 + n) as char
    }
}

/// The lowercase hexadecimal text of `data`: two digits per byte, the high
/// half first.
pub open spec fn lower_hex(data: Seq<u8>) -> Seq<char>
    decreases data.len(),
{
    if data.len() == 0 {
        Seq::empty()
    } else {
        lower_hex(data.drop_last()) + seq![hex_digit(data.last() / 16), hex_digit(data.last() % 16)]
    }
}

/// `c` is a lowercase hexadecimal digit.
pub open spec fn is_lower_hex_digit(c: char) -> bool {
    ('0' <= c && c <= '9') || ('a' <= c && c <= 'f')
}

/// The hexadecimal text of `data` has two lowercase digits per byte.
pub proof fn lemma_lower_hex_shape(data: Seq<u8>)
    ensures
        lower_hex(data).len() == 2 * data.len(),
        forall|i: int| 0 <= i < lower_hex(data).len() ==> is_lower_hex_digit(#[trigger] lower_hex(data)[i]),
    decreases data.len(),
{
    if data.len() > 0 {
        lemma_lower_hex_shape(data.drop_last());
        let b = data.last();
        assert(is_lower_hex_digit(hex_digit(b / 16)));
        assert(is_lower_hex_digit(hex_digit(b % 16)));
    }
}

/// `hex::encode`: `data` as lowercase hexadecimal text.
#[verifier::external_body]
fn hex_encode(data: &[u8]) -> (text: String)
    ensures
        text@ == lower_hex(data@),
{
    hex::encode(data)
}

/// The token of Subsonic's salted authentication: the lowercase hex text of
/// the MD5 digest of the password's bytes followed by the salt's.
pub open spec fn auth_token(password: Seq<char>, salt: Seq<char>) -> Seq<char> {
    lower_hex(md5(encode_utf8(password) + encode_utf8(salt)))
}

/// The authentication token for `password` and `salt`.
pub fn generate_auth_token(password: &str, salt: &str) -> (token: String)
    ensures
        token@ == auth_token(password@, salt@),
        token@.len() == 32,
        forall|i: int| 0 <= i < token@.len() ==> is_lower_hex_digit(#[trigger] token@[i]),
{
    let mut data = password.as_bytes_vec();
    let mut rest = salt.as_bytes_vec();
    data.append(&mut rest);
    let digest = md5_digest(data.as_slice());
    proof {
        lemma_lower_hex_shape(digest@);
    }
    hex_encode(digest.as_slice())
}

/// `s` without its trailing `/` characters.
pub open spec fn trim_trailing_slashes(s: Seq<char>) -> Seq<char>
    decreases s.len(),
{
    if s.len() > 0 && s.last() == '/' {
        trim_trailing_slashes(s.drop_last())
    } else {
        s
    }
}

/// Removes the trailing `/` characters of `s`, as
/// `str::trim_end_matches('/')` does.
pub fn trim_end_slashes(s: &str) -> (res: String)
    ensures
        res@ == trim_trailing_slashes(s@),
{
    let n = s.unicode_len();
    let mut i: usize = n;
    assert(s@.subrange(0, n as int) =~= s@);
    while i > 0 && s.get_char(i - 1) == '/'
        invariant
            n == s@.len(),
            i <= n,
            trim_trailing_slashes(s@.subrange(0, i as int)) == trim_trailing_slashes(s@),
        decreases i,
    {
        assert(s@.subrange(0, i as int).drop_last() =~= s@.subrange(0, i - 1));
        i = i - 1;
    }
    s.substring_char(0, i).to_owned()
}

/// The endpoint that lists the starred items of the server at `url`.
pub open spec fn starred_url(url: Seq<char>) -> Seq<char> {
    trim_trailing_slashes(url) + "/rest/getStarred"@
}

/// Trailing slashes of the server's address do not change the endpoint.
pub proof fn lemma_trailing_slash_ignored(url: Seq<char>)
    ensures
        starred_url(url.push('/')) == starred_url(url),
        trim_trailing_slashes(trim_trailing_slashes(url)) == trim_trailing_slashes(url),
    decreases url.len(),
{
    assert(url.push('/').drop_last() =~= url);
    if url.len() > 0 && url.last() == '/' {
        lemma_trailing_slash_ignored(url.drop_last());
    }
}

/// The request for the starred songs: the endpoint and its query pairs.
pub struct StarredRequest {
    pub url: String,
    pub query: Vec<(String, String)>,
}

/// The views of query pairs.
pub open spec fn pair_views(q: Seq<(String, String)>) -> Seq<(Seq<char>, Seq<char>)> {
    q.map_values(|p: (String, String)| (p.0@, p.1@))
}

/// The query of the request: user, token, salt, protocol version `1.16.1`,
/// client name `navidrome-sync` and answer format `json`.
pub open spec fn starred_query(user: Seq<char>, token: Seq<char>, salt: Seq<char>) -> Seq<(Seq<char>, Seq<char>)> {
    seq![
        ("u"@, user),
        ("t"@, token),
        ("s"@, salt),
        ("v"@, "1.16.1"@),
        ("c"@, "navidrome-sync"@),
        ("f"@, "json"@),
    ]
}

/// `req` is the request for the starred songs of `config`'s user, salted
/// with `salt`.
pub open spec fn is_starred_request(config: ApiConfig, salt: Seq<char>, req: StarredRequest) -> bool {
    &&& req.url@ == starred_url(config.url@)
    &&& pair_views(req.query@) == starred_query(
        config.user@,
        auth_token(config.password@, salt),
        salt,
    )
}

/// A query pair from two string slices.
fn pair(key: &str, value: &str) -> (p: (String, String))
    ensures
        p.0@ == key@,
        p.1@ == value@,
{
    (key.to_owned(), value.to_owned())
}

/// The request for the starred songs of `config`'s user, salted with `salt`.
pub fn starred_request_with_salt(config: &ApiConfig, salt: &str) -> (req: StarredRequest)
    ensures
        is_starred_request(*config, salt@, req),
{
    let token = generate_auth_token(config.password.as_str(), salt);
    let mut url = trim_end_slashes(config.url.as_str());
    url.append("/rest/getStarred");
    let mut query: Vec<(String, String)> = Vec::new();
    query.push(pair("u", config.user.as_str()));
    query.push(pair("t", token.as_str()));
    query.push(pair("s", salt));
    query.push(pair("v", "1.16.1"));
    query.push(pair("c", "navidrome-sync"));
    query.push(pair("f", "json"));
    assert(pair_views(query@) =~= starred_query(config.user@, token@, salt@));
    StarredRequest { url, query }
}

/// The request for the starred songs of `config`'s user, salted with a
/// fresh random salt.
pub fn starred_request(config: &ApiConfig) -> (req: StarredRequest)
    ensures
        exists|salt: Seq<char>| is_salt(salt) && #[trigger] is_starred_request(*config, salt, req),
{
    let salt = generate_salt();
    starred_request_with_salt(config, salt.as_str())
}

/// Why the server's answer is refused.
pub enum ApiError {
    /// The answer's status is not `ok`; the status.
    Status(String),
}

impl ApiError {
    /// The message that reports the error.
    pub fn message(&self) -> (m: String)
        ensures
            self matches ApiError::Status(s) && m@ == "Subsonic API returned an error: "@ + s@,
    {
        match self {
            ApiError::Status(s) => {
                let mut m = "Subsonic API returned an error: ".to_owned();
                m.append(s.as_str());
                m
            },
        }
    }
}

/// The starred songs that an answer lists, none when it lists no starred
/// items or no songs.
pub open spec fn listed_songs(response: SubsonicResponse) -> Seq<Song> {
    match response.subsonic_response.starred {
        Some(starred) => match starred.song {
            Some(songs) => songs@,
            None => Seq::empty(),
        },
        None => Seq::empty(),
    }
}

/// `res` is the reading of `response`: its status when that is not `ok`,
/// else the songs it lists.
pub open spec fn starred_answer(response: SubsonicResponse, res: Result<Vec<Song>, ApiError>) -> bool {
    &&& response.subsonic_response.status@ != "ok"@ ==> (res matches Err(ApiError::Status(s))
        && s == response.subsonic_response.status)
    &&& response.subsonic_response.status@ == "ok"@ ==> (res matches Ok(songs) && songs@ == listed_songs(response))
}

/// An answer with status `ok` is accepted with every song it lists, in
/// order, however many there are, and with none when it lists none; any
/// other status is refused with that status.
pub proof fn lemma_ok_answer_keeps_every_song(response: SubsonicResponse, res: Result<Vec<Song>, ApiError>)
    requires
        starred_answer(response, res),
    ensures
        response.subsonic_response.status@ != "ok"@ ==> (res matches Err(ApiError::Status(s))
            && s@ == response.subsonic_response.status@),
        response.subsonic_response.status@ == "ok"@ ==> res is Ok,
        response.subsonic_response.status@ == "ok"@ ==> (response.subsonic_response.starred matches Some(st)
            ==> (st.song matches Some(v) ==> (res matches Ok(songs) && songs@.len() == v@.len()
                && forall|i: int| 0 <= i < v@.len() ==> #[trigger] songs@[i] == v@[i]))),
        response.subsonic_response.status@ == "ok"@ ==> (response.subsonic_response.starred matches Some(st)
            ==> (st.song is None ==> (res matches Ok(songs) && songs@.len() == 0))),
        response.subsonic_response.status@ == "ok"@ ==> (response.subsonic_response.starred is None
            ==> (res matches Ok(songs) && songs@.len() == 0)),
{
}

/// The starred songs of an answer of the `getStarred` endpoint; an answer
/// whose status is not `ok` is refused with its status.
pub fn starred_songs(response: SubsonicResponse) -> (res: Result<Vec<Song>, ApiError>)
    ensures
        starred_answer(response, res),
{
    let body = response.subsonic_response;
    if body.status != "ok".to_owned() {
        return Err(ApiError::Status(body.status));
    }
    match body.starred {
        Some(starred) => match starred.song {
            Some(songs) => Ok(songs),
            None => Ok(Vec::new()),
        },
        None => Ok(Vec::new()),
    }
}

} // verus!
