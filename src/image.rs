use vstd::prelude::*;
use vstd::string::*;
use crate::error::{Error, ErrorKind, SchemaField};
use crate::json::{decode, field, field_of, first_value, item, item_of, json_decode, tree_of, JsonTree};

verus! {

/// A resolved image: its title and the URL its bytes are served from.
#[derive(Clone, Debug)]
pub struct Image {
    pub title: String,
    pub url: String,
}

/// `query.pages` of a metadata response.
pub open spec fn pages_of(t: JsonTree) -> Option<JsonTree> {
    match field_of(t, "query"@) {
        Some(q) => field_of(q, "pages"@),
        None => None,
    }
}

/// `imageinfo[0].url` of a page.
pub open spec fn url_of(page: JsonTree) -> Option<JsonTree> {
    match field_of(page, "imageinfo"@) {
        Some(info) => match item_of(info, 0) {
            Some(first) => field_of(first, "url"@),
            None => None,
        },
        None => None,
    }
}

/// The `(title, url)` that a page names, checking the url first.
pub open spec fn page_image(page: JsonTree) -> Result<(Seq<char>, Seq<char>), ErrorKind> {
    match url_of(page) {
        Some(JsonTree::Str(url)) => match field_of(page, "title"@) {
            Some(JsonTree::Str(title)) => Ok((title, url)),
            _ => Err(ErrorKind::Schema(SchemaField::Title)),
        },
        _ => Err(ErrorKind::Schema(SchemaField::Url)),
    }
}

/// The `(title, url)` that a metadata response resolves to: that of its
/// first page.
pub open spec fn image_of(t: JsonTree) -> Result<(Seq<char>, Seq<char>), ErrorKind> {
    match pages_of(t) {
        Some(JsonTree::Object(entries)) => {
            if entries.len() == 0 {
                Err(ErrorKind::NotFound)
            } else {
                page_image(entries[0].1)
            }
        },
        _ => Err(ErrorKind::Schema(SchemaField::Pages)),
    }
}

/// The message of a failure to read a decoded response.
pub open spec fn failure_message(kind: ErrorKind) -> Seq<char> {
    match kind {
        ErrorKind::Schema(SchemaField::Pages) => "/query/pages in response body is not an object"@,
        ErrorKind::Schema(SchemaField::Url) => "url field in imageinfo[0] is not a string"@,
        ErrorKind::Schema(SchemaField::Title) => "title field in page is not a string"@,
        ErrorKind::NotFound => "no image found"@,
        _ => Seq::empty(),
    }
}

/// What a decoded metadata response resolves to: the `(title, url)`, or the
/// kind and message chain of the failure.
pub open spec fn image_result(t: JsonTree) -> Result<(Seq<char>, Seq<char>), (ErrorKind, Seq<Seq<char>>)> {
    match image_of(t) {
        Ok(pair) => Ok(pair),
        Err(kind) => Err((kind, seq![failure_message(kind)])),
    }
}

/// What a metadata response body resolves to: the `(title, url)`, or the
/// kind and message chain of the failure.
pub open spec fn resolution(body: Seq<u8>) -> Result<(Seq<char>, Seq<char>), (ErrorKind, Seq<Seq<char>>)> {
    match json_decode(body) {
        Ok(t) => image_result(t),
        Err(d) => Err((ErrorKind::Decode, seq!["cannot decode response body"@, d])),
    }
}

/// `r` is the library's rendering of the outcome `s`.
pub open spec fn renders(r: Result<Image, Error>, s: Result<(Seq<char>, Seq<char>), (ErrorKind, Seq<Seq<char>>)>) -> bool {
    match s {
        Ok((title, url)) => r matches Ok(img) && img.title@ == title && img.url@ == url,
        Err((kind, messages)) => r matches Err(e) && e.kind == kind && e.messages() == messages,
    }
}

/// Reads the image that a decoded metadata response names: the title and
/// `imageinfo[0].url` of the first entry under `query.pages`.
pub fn extract_image(v: &serde_json::Value) -> (r: Result<Image, Error>)
    ensures
        renders(r, image_result(tree_of(*v))),
{
    let pages = match field(v, "query") {
        Some(q) => field(q, "pages"),
        None => None,
    };
    let map = match pages {
        Some(p) => p.as_object(),
        None => None,
    };
    let map = match map {
        Some(m) => m,
        None => {
            return Err(Error::new(
                ErrorKind::Schema(SchemaField::Pages),
                "/query/pages in response body is not an object",
            ));
        },
    };
    let page = match first_value(map) {
        Some(p) => p,
        None => {
            return Err(Error::new(ErrorKind::NotFound, "no image found"));
        },
    };
    let url_value = match field(page, "imageinfo") {
        Some(info) => match item(info, 0) {
            Some(first) => field(first, "url"),
            None => None,
        },
        None => None,
    };
    let url = match url_value {
        Some(u) => u.as_str(),
        None => None,
    };
    let url = match url {
        Some(u) => u,
        None => {
            return Err(Error::new(
                ErrorKind::Schema(SchemaField::Url),
                "url field in imageinfo[0] is not a string",
            ));
        },
    };
    let title = match field(page, "title") {
        Some(t) => t.as_str(),
        None => None,
    };
    let title = match title {
        Some(t) => t,
        None => {
            return Err(Error::new(
                ErrorKind::Schema(SchemaField::Title),
                "title field in page is not a string",
            ));
        },
    };
    Ok(Image { title: String::from_str(title), url: String::from_str(url) })
}

/// Decodes a metadata response body and reads the image it names.
pub fn resolve_body(body: &[u8]) -> (r: Result<Image, Error>)
    ensures
        renders(r, resolution(body@)),
{
    match decode(body) {
        Ok(v) => extract_image(&v),
        Err(cause) => Err(Error::caused(ErrorKind::Decode, "cannot decode response body", cause)),
    }
}

/// A response whose pages all carry a string `imageinfo[0].url` and a
/// string `title` resolves to exactly the title and url of its first page.
pub proof fn lemma_valid_pages_resolve(t: JsonTree, entries: Seq<(Seq<char>, JsonTree)>, titles: Seq<Seq<char>>, urls: Seq<Seq<char>>)
    requires
        pages_of(t) == Some(JsonTree::Object(entries)),
        entries.len() > 0,
        titles.len() == entries.len(),
        urls.len() == entries.len(),
        forall|i: int| 0 <= i < entries.len() ==> url_of(#[trigger] entries[i].1) == Some(JsonTree::Str(urls[i])),
        forall|i: int| 0 <= i < entries.len() ==> field_of(#[trigger] entries[i].1, "title"@) == Some(JsonTree::Str(titles[i])),
    ensures
        image_of(t) == Ok::<(Seq<char>, Seq<char>), ErrorKind>((titles[0], urls[0])),
{
    assert(url_of(entries[0].1) == Some(JsonTree::Str(urls[0])));
    assert(field_of(entries[0].1, "title"@) == Some(JsonTree::Str(titles[0])));
}

/// A response whose `query.pages` is an empty object resolves to
/// `NotFound`.
pub proof fn lemma_empty_pages_not_found(t: JsonTree)
    requires
        pages_of(t) == Some(JsonTree::Object(Seq::empty())),
    ensures
        image_of(t) == Err::<(Seq<char>, Seq<char>), ErrorKind>(ErrorKind::NotFound),
{
}

/// A response whose first page lacks a string `imageinfo[0].url` (no
/// `imageinfo`, an empty one, or a url of another type) fails with a schema
/// error naming the url; one whose url is a string but whose `title` is not
/// fails with a schema error naming the title; one whose `query.pages` is
/// not an object fails with a schema error naming the pages.
pub proof fn lemma_schema_errors(t: JsonTree)
    ensures
        match pages_of(t) {
            Some(JsonTree::Object(entries)) => entries.len() > 0 ==> {
                &&& !(url_of(entries[0].1) is Some && url_of(entries[0].1)->0 is Str)
                    ==> image_of(t) == Err::<(Seq<char>, Seq<char>), ErrorKind>(ErrorKind::Schema(SchemaField::Url))
                &&& (url_of(entries[0].1) is Some && url_of(entries[0].1)->0 is Str
                    && !(field_of(entries[0].1, "title"@) is Some && field_of(entries[0].1, "title"@)->0 is Str))
                    ==> image_of(t) == Err::<(Seq<char>, Seq<char>), ErrorKind>(ErrorKind::Schema(SchemaField::Title))
            },
            _ => image_of(t) == Err::<(Seq<char>, Seq<char>), ErrorKind>(ErrorKind::Schema(SchemaField::Pages)),
        },
{
}

} // verus!
