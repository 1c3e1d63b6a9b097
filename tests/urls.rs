use image_fetch::uri::{download_uri, metadata_url, query_uri, save_path, API_ENDPOINT};

#[test]
fn metadata_url_interpolates_name() {
    assert_eq!(
        metadata_url("A"),
        "http://lurkmore.to/api.php?action=query&titles=A&prop=imageinfo&format=json&iiprop=timestamp|user|url"
    );
    assert!(metadata_url("").starts_with(API_ENDPOINT));
}

#[test]
fn query_uri_parses_every_name() {
    for name in ["A", "Файл:World of Drugs.jpg", "", "a/b?c#d[e]"] {
        let uri = query_uri(name).unwrap();
        assert_eq!(uri.to_string(), metadata_url(name));
        assert_eq!(uri.host(), Some("lurkmore.to"));
    }
}

#[test]
fn download_uri_parses_or_refuses() {
    let uri = download_uri("http://x/a.jpg").unwrap();
    assert_eq!(uri.path(), "/a.jpg");
    assert_eq!(uri.host(), Some("x"));
    assert!(download_uri("").is_none());
    assert!(download_uri("http:///a.jpg").is_none());
}

#[test]
fn save_path_prefixes_title() {
    assert_eq!(save_path("A"), "./A");
    assert_eq!(save_path("Файл:Postervesch.jpg"), "./Файл:Postervesch.jpg");
    assert_eq!(save_path(""), "./");
}
