use arto::viewer::{generate_diagram_id, generate_image_id, generate_math_id, id_of_digest, truncate_latex};

#[test]
fn test_generate_image_id_deterministic() {
    let id1 = generate_image_id("data:image/png;base64,abc123");
    let id2 = generate_image_id("data:image/png;base64,abc123");
    assert_eq!(id1, id2);
}

#[test]
fn test_generate_image_id_different_sources() {
    let id1 = generate_image_id("data:image/png;base64,abc123");
    let id2 = generate_image_id("https://example.com/photo.jpg");
    assert_ne!(id1, id2);
}

#[test]
fn test_generate_image_id_length() {
    let id = generate_image_id("https://example.com/image.png");
    assert_eq!(id.len(), 16);
}

#[test]
fn test_generate_math_id_deterministic() {
    let id1 = generate_math_id("E = mc^2");
    let id2 = generate_math_id("E = mc^2");
    assert_eq!(id1, id2);
}

#[test]
fn test_generate_math_id_different_sources() {
    let id1 = generate_math_id("E = mc^2");
    let id2 = generate_math_id("a^2 + b^2 = c^2");
    assert_ne!(id1, id2);
}

#[test]
fn test_generate_math_id_length() {
    let id = generate_math_id("\\int_0^\\infty e^{-x} dx");
    assert_eq!(id.len(), 16);
}

#[test]
fn content_ids_are_sha256_prefixes() {
    // SHA-256("abc") = ba7816bf8f01cfea...
    assert_eq!(generate_diagram_id("abc"), "ba7816bf8f01cfea");
    // SHA-256("") = e3b0c44298fc1c14...
    assert_eq!(generate_math_id(""), "e3b0c44298fc1c14");
}

#[test]
fn digest_prefix_is_lowercase_hex() {
    assert_eq!(id_of_digest(&[0x0a, 0x14, 0x1e, 0xff, 0, 1, 2, 3, 4]), "0a141eff00010203");
}

#[test]
fn test_truncate_latex_short() {
    assert_eq!(truncate_latex("E = mc^2", 50), "E = mc^2");
}

#[test]
fn test_truncate_latex_exact() {
    let source = "a".repeat(50);
    assert_eq!(truncate_latex(&source, 50), source);
}

#[test]
fn test_truncate_latex_long() {
    let source = "a".repeat(60);
    let result = truncate_latex(&source, 50);
    assert!(result.starts_with(&"a".repeat(50)));
    assert!(result.ends_with('…'));
}

#[test]
fn test_truncate_latex_multibyte() {
    let source = "あ".repeat(60);
    let result = truncate_latex(&source, 50);
    assert_eq!(result.chars().count(), 51); // 50 chars + '…'
    assert!(result.ends_with('…'));
}
