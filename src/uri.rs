use vstd::prelude::*;
use vstd::string::*;
use crate::error::{Error, ErrorKind};

verus! {

#[verifier::external_type_specification]
#[verifier::external_body]
pub struct ExUri(hyper::Uri);

/// The URI that a text parses to, if it parses.
pub uninterp spec fn uri_parse(s: Seq<char>) -> Option<hyper::Uri>;

/// A character that may stand in a host of `plain_http`.
pub open spec fn plain_host_char(c: char) -> bool {
    c != '/' && c != '?' && c != '#' && c != '[' && c != ']'
}

/// `s` is `http://`, then a non-empty host free of `/ ? # [ ]`, then `/`
/// and anything.
pub open spec fn plain_http(s: Seq<char>) -> bool {
    exists|k: int|
        7 < k < s.len() && #[trigger] s[k] == '/' && s.take(7) == seq!['h', 't', 't', 'p', ':', '/', '/']
            && forall|j: int| 7 <= j < k ==> plain_host_char(s[j])
}

/// Relies on `<hyper::Uri as FromStr>::from_str`: the outcome depends on
/// the text alone, and an absolute `http://host/...` whose host holds none
/// of `/ ? # [ ]` is accepted. A refusal is handed back as its description.
#[verifier::external_body]
fn parse_uri(s: &str) -> (r: Result<hyper::Uri, String>)
    ensures
        match r {
            Ok(u) => uri_parse(s@) == Some(u),
            Err(_) => uri_parse(s@) is None,
        },
        plain_http(s@) ==> r is Ok,
{
    match s.parse::<hyper::Uri>() {
        Ok(u) => Ok(u),
        Err(e) => Err(e.to_string()),
    }
}

/// The metadata API endpoint.
pub const API_ENDPOINT: &'static str = "http://lurkmore.to/api.php";

/// The text of the metadata query for `name`.
pub open spec fn metadata_url_of(name: Seq<char>) -> Seq<char> {
    API_ENDPOINT@ + "?action=query&titles="@ + name + "&prop=imageinfo&format=json&iiprop=timestamp|user|url"@
}

/// The metadata query for `name`: its image info (timestamp, user, url) as
/// JSON.
pub fn metadata_url(name: &str) -> (r: String)
    ensures
        r@ == metadata_url_of(name@),
{
    let mut r = String::from_str(API_ENDPOINT);
    r.append("?action=query&titles=");
    r.append(name);
    r.append("&prop=imageinfo&format=json&iiprop=timestamp|user|url");
    r
}

/// The request URI of the metadata query for `name`. Every name gives one:
/// the endpoint is a plain `http://host/` URL.
pub fn query_uri(name: &str) -> (r: Result<hyper::Uri, Error>)
    ensures
        match r {
            Ok(u) => uri_parse(metadata_url_of(name@)) == Some(u),
            Err(e) => uri_parse(metadata_url_of(name@)) is None && e.kind == ErrorKind::UrlBuild,
        },
        r is Ok,
{
    let url = metadata_url(name);
    proof {
        reveal_strlit("http://lurkmore.to/api.php");
        let s = url@;
        assert(s[18] == '/');
        assert(s.take(7) =~= seq!['h', 't', 't', 'p', ':', '/', '/']);
        assert(forall|j: int| 7 <= j < 18 ==> plain_host_char(s[j]));
        assert(plain_http(s));
    }
    match parse_uri(url.as_str()) {
        Ok(u) => Ok(u),
        Err(cause) => Err(Error::caused(ErrorKind::UrlBuild, "cannot parse api url", cause)),
    }
}

/// The request URI of an image URL, if it parses.
pub fn download_uri(url: &str) -> (r: Option<hyper::Uri>)
    ensures
        r == uri_parse(url@),
{
    match parse_uri(url) {
        Ok(u) => Some(u),
        Err(_) => None,
    }
}

/// The file an image is saved to: its title under the current directory,
/// taken as it is.
pub fn save_path(title: &str) -> (r: String)
    ensures
        r@ == seq!['.', '/'] + title@,
{
    proof {
        reveal_strlit("./");
    }
    let mut r = String::from_str("./");
    r.append(title);
    r
}

} // verus!
