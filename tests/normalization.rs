use coelho::image::{choose_image, secure_url, upscale_url};
use coelho::normalize::{author_line_of, normalize_author};
use coelho::text::{contains, find_first, last_index_of, starts_with};

#[test]
fn author_first_last_is_inverted() {
    assert_eq!(normalize_author("William Gibson"), "Gibson, William");
}

#[test]
fn author_with_comma_is_unchanged() {
    assert_eq!(normalize_author("Gibson, William"), "Gibson, William");
}

#[test]
fn author_without_space_is_unchanged() {
    assert_eq!(normalize_author("Beyoncé"), "Beyoncé");
}

#[test]
fn author_middle_names_stay_with_given_names() {
    assert_eq!(normalize_author("Ursula Kroeber Le Guin"), "Guin, Ursula Kroeber Le");
}

#[test]
fn author_list_is_normalized_and_joined() {
    let names = vec!["William Gibson".to_string(), "Bruce Sterling".to_string()];
    assert_eq!(author_line_of(&names), "Gibson, William; Sterling, Bruce");
}

#[test]
fn author_list_single_name() {
    let names = vec!["Madonna".to_string()];
    assert_eq!(author_line_of(&names), "Madonna");
}

#[test]
fn author_list_empty_is_unknown() {
    let names: Vec<String> = vec![];
    assert_eq!(author_line_of(&names), "Unknown");
}

#[test]
fn secure_url_moves_http_to_https() {
    assert_eq!(secure_url("http://example.com/a.jpg"), "https://example.com/a.jpg");
    assert_eq!(secure_url("https://example.com/a.jpg"), "https://example.com/a.jpg");
    assert_eq!(secure_url("ftp://example.com/http"), "ftp://example.com/http");
}

#[test]
fn upscale_rewrites_token_on_image_host() {
    assert_eq!(
        upscale_url("http://books.google.com/books/content?id=x&zoom=1&edge=curl"),
        "http://books.google.com/books/content?id=x&zoom=0&edge=curl"
    );
}

#[test]
fn upscale_leaves_other_hosts_alone() {
    let u = "http://covers.example.org/b/id/1?zoom=1";
    assert_eq!(upscale_url(u), u);
    let thumb = Some(u.to_string());
    assert_eq!(
        choose_image(&None, &thumb),
        Some("https://covers.example.org/b/id/1?zoom=1".to_string())
    );
}

#[test]
fn upscale_leaves_longer_tokens_alone() {
    let u = "http://books.google.com/books/content?id=x&zoom=10";
    assert_eq!(upscale_url(u), u);
    let v = "http://books.google.com/books/content?id=x&xzoom=1&zoom=1";
    assert_eq!(upscale_url(v), "http://books.google.com/books/content?id=x&xzoom=1&zoom=0");
    let w = "http://books.google.com/books/content?zoom=1";
    assert_eq!(upscale_url(w), "http://books.google.com/books/content?zoom=0");
}

#[test]
fn upscale_without_token_is_unchanged() {
    let u = "https://books.google.com/books/content?id=x&zoom=2";
    assert_eq!(upscale_url(u), u);
}

#[test]
fn image_prefers_front_cover_preview() {
    let preview = Some("http://books.google.com/books?id=x&printsec=frontcover".to_string());
    let thumb = Some("http://books.google.com/books/content?id=x&zoom=1".to_string());
    assert_eq!(
        choose_image(&preview, &thumb),
        Some("https://books.google.com/books?id=x&printsec=frontcover&img=1".to_string())
    );
}

#[test]
fn image_falls_back_to_upscaled_thumbnail() {
    let preview = Some("http://books.google.com/books?id=x&hl=en".to_string());
    let thumb = Some("http://books.google.com/books/content?id=x&zoom=1".to_string());
    assert_eq!(
        choose_image(&preview, &thumb),
        Some("https://books.google.com/books/content?id=x&zoom=0".to_string())
    );
}

#[test]
fn image_absent_without_links() {
    assert_eq!(choose_image(&None, &None), None);
    let preview = Some("http://books.google.com/books?id=x".to_string());
    assert_eq!(choose_image(&preview, &None), None);
}

#[test]
fn text_helpers() {
    assert_eq!(find_first("abcabc", "ca"), Some(2));
    assert_eq!(find_first("abc", "d"), None);
    assert_eq!(find_first("abc", ""), Some(0));
    assert!(contains("frontcover", "cover"));
    assert!(starts_with("https://x", "https://"));
    assert!(!starts_with("http", "https"));
    assert_eq!(last_index_of("a b c", ' '), Some(3));
    assert_eq!(last_index_of("abc", ' '), None);
}
