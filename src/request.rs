use vstd::prelude::*;
use vstd::string::*;
use reqwest::header::{HeaderValue, InvalidHeaderValue};
use crate::error::StarError;

verus! {

/// http's header value (re-exported by reqwest), carried through unopened.
#[verifier::external_type_specification]
#[verifier::external_body]
pub struct ExHeaderValue(HeaderValue);

/// http's error for text that cannot stand in a header value.
#[verifier::external_type_specification]
#[verifier::external_body]
pub struct ExInvalidHeaderValue(InvalidHeaderValue);

/// A character that may stand in an HTTP header value: a visible or
/// non-ASCII character, a space, or a tab. Control characters and DEL may not.
pub open spec fn header_char_ok(c: char) -> bool {
    (c as u32 >= 32 && c as u32 != 127) || c == '\t'
}

pub open spec fn is_header_text(s: Seq<char>) -> bool {
    forall|i: int| 0 <= i < s.len() ==> header_char_ok(#[trigger] s[i])
}

/// The header value that http's `HeaderValue::from_str` builds from a text.
pub uninterp spec fn header_value_of(s: Seq<char>) -> HeaderValue;

/// Relies on http's `HeaderValue::from_str` (re-exported by reqwest): it
/// accepts the text exactly when every byte is a tab or at least 32 and not
/// 127, which for UTF-8 text is the condition above on each character; what
/// it builds holds a copy of the text's bytes, marked not sensitive, and so
/// depends on the text alone.
pub assume_specification[ HeaderValue::from_str ](src: &str) -> (r: Result<HeaderValue, InvalidHeaderValue>)
    ensures
        r is Ok <==> is_header_text(src@),
        r matches Ok(v) ==> v == header_value_of(src@),
;

/// How many stargazer edges one request asks for.
pub fn page_size() -> (r: usize)
    ensures
        r == 100,
{
    100
}

/// The command line: whose repository to read, and where to write the table.
#[derive(Debug)]
pub struct Args {
    /// The organization or owner of the repository.
    pub owner: String,
    /// The repository.
    pub repository: String,
    /// The path to the output file.
    pub path: Option<String>,
}

/// The file written when no path is given: `<owner>-<repository>-stargazers.csv`.
pub open spec fn default_path(owner: Seq<char>, repository: Seq<char>) -> Seq<char> {
    owner + "-"@ + repository + "-stargazers.csv"@
}

impl Args {
    /// The output path: the one given, or the default one.
    pub fn output_path(&self) -> (r: String)
        ensures
            r@ == match self.path {
                Some(p) => p@,
                None => default_path(self.owner@, self.repository@),
            },
    {
        match &self.path {
            Some(p) => p.clone(),
            None => {
                let mut r = self.owner.clone();
                r.append("-");
                r.append(self.repository.as_str());
                r.append("-stargazers.csv");
                r
            },
        }
    }
}

pub open spec fn digit_char(d: nat) -> char {
    if d == 0 { '0' }
    else if d == 1 { '1' }
    else if d == 2 { '2' }
    else if d == 3 { '3' }
    else if d == 4 { '4' }
    else if d == 5 { '5' }
    else if d == 6 { '6' }
    else if d == 7 { '7' }
    else if d == 8 { '8' }
    else { '9' }
}

/// The decimal digits of `n`, most significant first, without leading zeros.
pub open spec fn decimal(n: nat) -> Seq<char>
    decreases n,
{
    if n < 10 {
        seq![digit_char(n)]
    } else {
        decimal(n / 10) + seq![digit_char(n % 10)]
    }
}

fn digit_text(d: usize) -> (r: &'static str)
    requires
        d < 10,
    ensures
        r@ == seq![digit_char(d as nat)],
{
    let r = if d == 0 { "0" }
    else if d == 1 { "1" }
    else if d == 2 { "2" }
    else if d == 3 { "3" }
    else if d == 4 { "4" }
    else if d == 5 { "5" }
    else if d == 6 { "6" }
    else if d == 7 { "7" }
    else if d == 8 { "8" }
    else { "9" };
    proof {
        reveal_strlit("0");
        reveal_strlit("1");
        reveal_strlit("2");
        reveal_strlit("3");
        reveal_strlit("4");
        reveal_strlit("5");
        reveal_strlit("6");
        reveal_strlit("7");
        reveal_strlit("8");
        reveal_strlit("9");
    }
    assert(r@ =~= seq![digit_char(d as nat)]);
    r
}

fn push_decimal(s: &mut String, n: usize)
    ensures
        final(s)@ == old(s)@ + decimal(n as nat),
    decreases n,
{
    if n >= 10 {
        push_decimal(s, n / 10);
    }
    s.append(digit_text(n % 10));
    assert(final(s)@ =~= old(s)@ + decimal(n as nat));
}

/// The `after` argument of the query: present exactly when a cursor is.
pub open spec fn after_clause(after: Option<String>) -> Seq<char> {
    match after {
        Some(c) => ", after: \""@ + c@ + "\""@,
        None => Seq::empty(),
    }
}

/// The GraphQL document that asks for up to `count` stargazer edges of a
/// repository, after a cursor if one is given: each edge's star time and
/// user fields, and the page info.
pub open spec fn query_text(owner: Seq<char>, repository: Seq<char>, count: nat, after: Option<String>) -> Seq<char> {
    "{ repository(owner: \""@ + owner + "\", name: \""@ + repository + "\") { stargazers(first: "@
        + decimal(count) + after_clause(after)
        + ") { edges { starredAt, node { name, email, login, location, followers { totalCount }, following { totalCount }, isHireable } } pageInfo { hasNextPage endCursor } } } }"@
}

/// Builds the query for one page of stargazers.
pub fn stargazers_query(owner: &str, repository: &str, count: usize, after: &Option<String>) -> (r: String)
    ensures
        r@ == query_text(owner@, repository@, count as nat, *after),
{
    let mut q = String::new();
    q.append("{ repository(owner: \"");
    q.append(owner);
    q.append("\", name: \"");
    q.append(repository);
    q.append("\") { stargazers(first: ");
    push_decimal(&mut q, count);
    match after {
        Some(c) => {
            q.append(", after: \"");
            q.append(c.as_str());
            q.append("\"");
        },
        None => {},
    }
    q.append(") { edges { starredAt, node { name, email, login, location, followers { totalCount }, following { totalCount }, isHireable } } pageInfo { hasNextPage endCursor } } } }");
    assert(q@ =~= query_text(owner@, repository@, count as nat, *after));
    q
}

/// The value of the authorization header: `Bearer <token>`.
pub fn bearer_text(token: &str) -> (r: String)
    ensures
        r@ == "Bearer "@ + token@,
{
    let mut r = String::new();
    r.append("Bearer ");
    r.append(token);
    r
}

/// The authorization header value for a token; a token that cannot stand in
/// a header is a configuration error.
pub fn authorization_value(token: &str) -> (r: Result<HeaderValue, StarError>)
    ensures
        r is Ok <==> is_header_text(token@),
        r matches Ok(v) ==> v == header_value_of("Bearer "@ + token@),
        r is Err ==> r matches Err(StarError::Config(_)),
{
    let text = bearer_text(token);
    proof {
        reveal_strlit("Bearer ");
        let full = "Bearer "@ + token@;
        if is_header_text(token@) {
            assert forall|i: int| 0 <= i < full.len() implies header_char_ok(#[trigger] full[i]) by {
                if i >= 7 {
                    assert(full[i] == token@[i - 7]);
                }
            }
        }
        if is_header_text(full) {
            assert forall|i: int| 0 <= i < token@.len() implies header_char_ok(#[trigger] token@[i]) by {
                assert(full[i + 7] == token@[i]);
            }
        }
    }
    match HeaderValue::from_str(text.as_str()) {
        Ok(v) => Ok(v),
        Err(_) => Err(StarError::Config(String::from_str("the token cannot stand in an authorization header"))),
    }
}

/// The user agent header value that names this tool.
pub fn user_agent_value() -> (r: HeaderValue)
    ensures
        r == header_value_of("star-tracker/v0"@),
{
    proof {
        reveal_strlit("star-tracker/v0");
    }
    let r = HeaderValue::from_str("star-tracker/v0");
    r.unwrap()
}

} // verus!
