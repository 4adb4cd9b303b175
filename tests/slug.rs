use backend::slug::{generate_slug, slug_from_lowercase, slugify};

#[test]
fn test_generate_slug() {
    assert_eq!(generate_slug("Hello World"), "hello-world");
    assert_eq!(generate_slug("Rust is Awesome!"), "rust-is-awesome");
    assert_eq!(generate_slug("Multiple   Spaces"), "multiple-spaces");
    assert_eq!(generate_slug("Special@#$Characters"), "specialcharacters");
    assert_eq!(generate_slug("  Leading and Trailing  "), "leading-and-trailing");
}

#[test]
fn test_slugify() {
    assert_eq!(slugify("Hello World"), "hello-world");
    assert_eq!(slugify("Rust is Great!"), "rust-is-great");
    assert_eq!(slugify("Multiple   Spaces"), "multiple-spaces");
    assert_eq!(slugify("Special@#$Characters"), "specialcharacters");
}

#[test]
fn slug_edge_cases() {
    assert_eq!(slugify(""), "");
    assert_eq!(slugify("   "), "");
    assert_eq!(slugify("a-b"), "ab");
    assert_eq!(slugify("tab\tand\nnewline"), "tab-and-newline");
    assert_eq!(slugify("ÉCOLE Ünïcode"), "école-ünïcode");
}

#[test]
fn slug_of_lowercase_text_keeps_its_case() {
    assert_eq!(slug_from_lowercase("Already Lower"), "Already-Lower");
    assert_eq!(slug_from_lowercase("two  words!"), "two-words");
}
