use webp_batch::classify::is_image;

#[test]
fn recognized_extensions_are_eligible() {
    assert!(is_image("/in/a.jpg"));
    assert!(is_image("/in/a.jpeg"));
    assert!(is_image("/in/a.png"));
    assert!(is_image("/in/a.bmp"));
    assert!(is_image("/in/a.webp"));
}

#[test]
fn uppercase_image_extensions_are_eligible() {
    assert!(is_image("photo.PNG"));
    assert!(is_image("photo.Png"));
    assert!(is_image("photo.JPEG"));
    assert!(is_image("photo.WEBP"));
}

#[test]
fn non_image_extensions_are_excluded() {
    assert!(!is_image("photo.TXT"));
    assert!(!is_image("photo.txt"));
    assert!(!is_image("notes.md"));
    assert!(!is_image("movie.gif"));
}

#[test]
fn missing_or_odd_extensions_are_excluded() {
    assert!(!is_image("noext"));
    assert!(!is_image("/in/noext"));
    assert!(!is_image(".png"));
    assert!(!is_image("/in/.png"));
    assert!(!is_image("trailingdot."));
    assert!(!is_image("/in.png/noext"));
}
