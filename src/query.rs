//! Request URLs: an endpoint address with its query parameters.

use vstd::prelude::*;
use vstd::string::StringExecFns;

use crate::error::Error;

verus! {

#[verifier::external_type_specification]
#[verifier::external_body]
pub struct ExUrl(url::Url);

/// The text of each name and value of a parameter list.
pub open spec fn pairs_view(p: Seq<(&str, &str)>) -> Seq<(Seq<char>, Seq<char>)> {
    p.map_values(|x: (&str, &str)| (x.0@, x.1@))
}

/// The serialization of the absolute URL `base` with `params` appended to its
/// query, form-encoded; `None` when `base` is not an absolute URL.
pub uninterp spec fn url_with_params(base: Seq<char>, params: Seq<(Seq<char>, Seq<char>)>) -> Option<
    Seq<char>,
>;

/// The serialization of the absolute URL `input`; `None` when it is not one.
pub uninterp spec fn parsed_url(input: Seq<char>) -> Option<Seq<char>>;

/// Relies on `url::Url::parse_with_params`: it parses `base` and appends the
/// pairs to its query; the text depends on the arguments alone.
#[verifier::external_body]
fn encode_url(base: &str, params: &Vec<(&str, &str)>) -> (r: Result<String, url::ParseError>)
    ensures
        match r {
            Ok(u) => url_with_params(base@, pairs_view(params@)) == Some(u@),
            Err(_) => url_with_params(base@, pairs_view(params@)) is None,
        },
{
    url::Url::parse_with_params(base, params.iter()).map(String::from)
}

/// Relies on `url::Url::parse`: the serialization depends on the input alone.
#[verifier::external_body]
fn parse_absolute_url(input: &str) -> (r: Result<String, url::ParseError>)
    ensures
        match r {
            Ok(u) => parsed_url(input@) == Some(u@),
            Err(_) => parsed_url(input@) is None,
        },
{
    url::Url::parse(input).map(String::from)
}

pub open spec fn digit_char(d: nat) -> char {
    ((d % 10) + 48) as char
}

/// The decimal digits of `n`, most significant first.
pub open spec fn decimal_text(n: nat) -> Seq<char>
    decreases n,
{
    if n < 10 {
        seq![digit_char(n)]
    } else {
        decimal_text(n / 10) + seq![digit_char(n % 10)]
    }
}

fn digit_str(d: u16) -> (r: &'static str)
    requires
        d < 10,
    ensures
        r@ == seq![digit_char(d as nat)],
{
    proof {
        reveal_strlit("0");
        reveal_strlit("1");
        reveal_strlit("2");
        reveal_strlit("3");
        reveal_strlit("4");
        reveal_strlit("5");
        reveal_strlit("6");
        reveal_strlit("7");
        reveal_strlit("8");
        reveal_strlit("9");
    }
    let r = match d {
        0 => "0",
        1 => "1",
        2 => "2",
        3 => "3",
        4 => "4",
        5 => "5",
        6 => "6",
        7 => "7",
        8 => "8",
        _ => "9",
    };
    assert(r@ =~= seq![digit_char(d as nat)]);
    r
}

/// The decimal digits of `n`, without sign or leading zeros.
pub fn u16_text(n: u16) -> (r: String)
    ensures
        r@ == decimal_text(n as nat),
    decreases n,
{
    if n < 10 {
        String::from_str(digit_str(n))
    } else {
        let mut text = u16_text(n / 10);
        text.append(digit_str(n % 10));
        text
    }
}

/// Whether `r` is what building a URL from `base` and `params` gives.
pub open spec fn built_url(
    r: Result<String, Error>,
    base: Seq<char>,
    params: Seq<(Seq<char>, Seq<char>)>,
) -> bool {
    match url_with_params(base, params) {
        Some(u) => r matches Ok(s) && s@ == u,
        None => r matches Err(Error::Url(_)),
    }
}

/// The URL of a request to `base` with the query `params`.
pub fn request_url(base: &str, params: &Vec<(&str, &str)>) -> (r: Result<String, Error>)
    ensures
        built_url(r, base@, pairs_view(params@)),
{
    match encode_url(base, params) {
        Ok(u) => Ok(u),
        Err(e) => Err(Error::Url(e)),
    }
}

/// The parts joined with `,` between each two.
pub open spec fn joined(parts: Seq<Seq<char>>) -> Seq<char>
    decreases parts.len(),
{
    if parts.len() == 0 {
        Seq::empty()
    } else if parts.len() == 1 {
        parts[0]
    } else {
        joined(parts.drop_last()) + seq![','] + parts.last()
    }
}

pub open spec fn texts(parts: Seq<&str>) -> Seq<Seq<char>> {
    parts.map_values(|p: &str| p@)
}

/// The parts joined with `,` between each two.
pub fn join_commas(parts: &Vec<&str>) -> (r: String)
    ensures
        r@ == joined(texts(parts@)),
{
    let mut out = String::new();
    let mut i: usize = 0;
    while i < parts.len()
        invariant
            0 <= i <= parts@.len(),
            out@ == joined(texts(parts@.take(i as int))),
        decreases parts@.len() - i,
    {
        let ghost t = texts(parts@.take(i + 1));
        assert(t.drop_last() =~= texts(parts@.take(i as int)));
        assert(t.last() == parts@[i as int]@);
        proof {
            reveal_strlit(",");
        }
        assert(","@ =~= seq![',']);
        if i > 0 {
            out.append(",");
        } else {
            assert(texts(parts@.take(1)) =~= seq![parts@[0]@]);
        }
        out.append(parts[i]);
        i = i + 1;
    }
    assert(parts@.take(parts@.len() as int) =~= parts@);
    out
}

/// The text of each name and value of a form.
pub open spec fn form_view(p: Seq<(String, String)>) -> Seq<(Seq<char>, Seq<char>)> {
    p.map_values(|x: (String, String)| (x.0@, x.1@))
}

/// One form field.
pub fn form_field(name: &str, value: &str) -> (r: (String, String))
    ensures
        r.0@ == name@,
        r.1@ == value@,
{
    (String::from_str(name), String::from_str(value))
}

/// Whether `r` is the form that exchanges `code` for a token: the client's
/// credentials, the code, and the serialization of `redirect_uri`; or the
/// refusal of a `redirect_uri` that is not an absolute URL.
pub open spec fn code_exchange_result(
    r: Result<Vec<(String, String)>, Error>,
    client_id: Seq<char>,
    client_secret: Seq<char>,
    code: Seq<char>,
    redirect_uri: Seq<char>,
) -> bool {
    match parsed_url(redirect_uri) {
        Some(u) => r matches Ok(f) && form_view(f@) == seq![
            ("client_id"@, client_id),
            ("client_secret"@, client_secret),
            ("code"@, code),
            ("redirect_uri"@, u),
        ],
        None => r matches Err(Error::Url(_)),
    }
}

/// The form that exchanges `code` for a token.
pub fn code_exchange_form(client_id: &str, client_secret: &str, code: &str, redirect_uri: &str) -> (r:
    Result<Vec<(String, String)>, Error>)
    ensures
        code_exchange_result(r, client_id@, client_secret@, code@, redirect_uri@),
{
    let uri = match absolute_url(redirect_uri) {
        Ok(u) => u,
        Err(e) => return Err(e),
    };
    let mut form: Vec<(String, String)> = Vec::new();
    form.push(form_field("client_id", client_id));
    form.push(form_field("client_secret", client_secret));
    form.push(form_field("code", code));
    form.push(form_field("redirect_uri", uri.as_str()));
    assert(form_view(form@) =~= seq![
        ("client_id"@, client_id@),
        ("client_secret"@, client_secret@),
        ("code"@, code@),
        ("redirect_uri"@, uri@),
    ]);
    Ok(form)
}

/// Checks that `input` is an absolute URL, giving its serialization.
pub fn absolute_url(input: &str) -> (r: Result<String, Error>)
    ensures
        match parsed_url(input@) {
            Some(u) => r matches Ok(s) && s@ == u,
            None => r matches Err(Error::Url(_)),
        },
{
    match parse_absolute_url(input) {
        Ok(u) => Ok(u),
        Err(e) => Err(Error::Url(e)),
    }
}

} // verus!
