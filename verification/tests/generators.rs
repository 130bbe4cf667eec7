use actix_web_request_uuid::{CustomGenerator, FormattedUuid, IdGenerator, UuidFormat};
use uuid::{Uuid, Variant, Version};

const SAMPLE: u128 = 0xa1a2a3a4b1b2c1c2d1d2d3d4d5d6d7d8;

#[test]
fn the_renderings_are_those_of_the_uuid_crate() {
    for value in [0u128, 1, SAMPLE, u128::MAX, 0x0123456789abcdef0123456789abcdef, 1 << 127] {
        let id = Uuid::from_u128(value);
        assert_eq!(UuidFormat::Full.render(value), id.hyphenated().to_string());
        assert_eq!(UuidFormat::Simple.render(value), id.simple().to_string());
        assert_eq!(Uuid::parse_str(&UuidFormat::Full.render(value)).unwrap().as_u128(), value);
    }
}

#[test]
fn the_full_format_is_the_canonical_form() {
    assert_eq!(UuidFormat::Full.render(SAMPLE), "a1a2a3a4-b1b2-c1c2-d1d2-d3d4d5d6d7d8");
    assert_eq!(
        UuidFormat::Full.render(0),
        "00000000-0000-0000-0000-000000000000"
    );
    assert_eq!(
        UuidFormat::Full.render(u128::MAX),
        "ffffffff-ffff-ffff-ffff-ffffffffffff"
    );
    assert_eq!(
        UuidFormat::Full.render(0x0123456789abcdef0123456789abcdef),
        "01234567-89ab-cdef-0123-456789abcdef"
    );
}

#[test]
fn the_simple_format_has_the_digits_only() {
    assert_eq!(UuidFormat::Simple.render(SAMPLE), "a1a2a3a4b1b2c1c2d1d2d3d4d5d6d7d8");
    assert_eq!(
        UuidFormat::Simple.render(0x0123456789abcdef0123456789abcdef),
        "0123456789abcdef0123456789abcdef"
    );
}

#[test]
fn a_short_length_cuts_the_canonical_form() {
    assert_eq!(UuidFormat::Truncated(1).render(SAMPLE), "a");
    assert_eq!(UuidFormat::Truncated(8).render(SAMPLE), "a1a2a3a4");
    assert_eq!(UuidFormat::Truncated(9).render(SAMPLE), "a1a2a3a4-");
    assert_eq!(UuidFormat::Truncated(16).render(SAMPLE), "a1a2a3a4-b1b2-c1");
    assert_eq!(
        UuidFormat::Truncated(35).render(SAMPLE),
        "a1a2a3a4-b1b2-c1c2-d1d2-d3d4d5d6d7d"
    );
}

#[test]
fn a_long_length_leaves_the_canonical_form_whole() {
    for length in [36usize, 37, 100, usize::MAX] {
        assert_eq!(
            UuidFormat::Truncated(length).render(SAMPLE),
            "a1a2a3a4-b1b2-c1c2-d1d2-d3d4d5d6d7d8"
        );
    }
}

#[test]
fn a_length_of_zero_renders_nothing() {
    assert_eq!(UuidFormat::Truncated(0).render(SAMPLE), "");
}

#[test]
fn generated_identifiers_come_from_random_values() {
    for _ in 0..64 {
        let full = UuidFormat::Full.generate();
        let parsed = Uuid::parse_str(&full).unwrap();
        assert_eq!(parsed.get_version(), Some(Version::Random));
        assert_eq!(parsed.get_variant(), Variant::RFC4122);
        assert_eq!(full.len(), 36);
        assert_eq!(full, parsed.hyphenated().to_string());

        let simple = UuidFormat::Simple.generate();
        assert_eq!(simple.len(), 32);
        assert!(!simple.contains('-'));
        assert!(simple.chars().all(|c| matches!(c, '0'..='9' | 'a'..='f')));
        let parsed = Uuid::parse_str(&simple).unwrap();
        assert_eq!(parsed.get_version(), Some(Version::Random));

        let short = UuidFormat::Truncated(13).generate();
        assert_eq!(short.len(), 13);
        assert_eq!(short.chars().nth(8), Some('-'));
    }
}

#[test]
fn two_generated_identifiers_differ() {
    let first = UuidFormat::Truncated(36).generate();
    let second = UuidFormat::Truncated(36).generate();
    assert_ne!(first, second);
}

#[test]
fn a_formatter_gets_a_random_value_and_its_text_is_kept() {
    let generator =
        FormattedUuid::new(|value: u128| format!("req-{}", Uuid::from_u128(value).simple()));
    let id = generator.generate();
    assert!(id.starts_with("req-"));
    assert_eq!(id.len(), 36);
    let parsed = Uuid::parse_str(&id[4..]).unwrap();
    assert_eq!(parsed.get_version(), Some(Version::Random));

    assert_eq!(
        generator.format(0x67e5504410b1426f9247bb680e5fe0c8),
        "req-67e5504410b1426f9247bb680e5fe0c8"
    );
}

#[test]
fn a_custom_function_is_used_verbatim() {
    let generator = CustomGenerator::new(|| "custom-generated-id".to_string());
    assert_eq!(generator.generate(), "custom-generated-id");
    assert_eq!(generator.generate(), "custom-generated-id");

    let empty = CustomGenerator::new(String::new);
    assert_eq!(empty.generate(), "");
}
