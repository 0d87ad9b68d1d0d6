use blog::{validate_content, validate_title, BlogError};

#[test]
fn title_must_not_be_empty() {
    assert_eq!(validate_title(&Vec::new()), Err(BlogError::InvalidTitle));
}

#[test]
fn title_of_one_byte_is_accepted() {
    assert_eq!(validate_title(&vec![b'a']), Ok(()));
}

#[test]
fn title_of_fifty_bytes_is_accepted() {
    assert_eq!(validate_title(&vec![b'a'; 50]), Ok(()));
}

#[test]
fn title_of_fifty_one_bytes_is_rejected() {
    assert_eq!(validate_title(&vec![b'a'; 51]), Err(BlogError::InvalidTitle));
}

#[test]
fn content_must_not_be_empty() {
    assert_eq!(validate_content(&Vec::new()), Err(BlogError::InvalidContent));
}

#[test]
fn content_of_one_byte_is_accepted() {
    assert_eq!(validate_content(&vec![b'c']), Ok(()));
}

#[test]
fn content_of_thousand_bytes_is_accepted() {
    assert_eq!(validate_content(&vec![b'c'; 1000]), Ok(()));
}

#[test]
fn content_of_thousand_and_one_bytes_is_rejected() {
    assert_eq!(validate_content(&vec![b'c'; 1001]), Err(BlogError::InvalidContent));
}
