use url_resource::jwt::{JwtDecoderError, JwtDecoderKind, TokioJwtDecoder};
use url_resource::onepassword::error::OnePasswordError;
use url_resource::onepassword::model::{FieldResource, ItemResource, VaultResource};

#[test]
fn field_resource_parses() {
    let field = FieldResource::parse("op://Vault1/Item2/password").unwrap();
    assert_eq!(field.vault(), "Vault1");
    assert_eq!(field.item(), "Item2");
    assert_eq!(field.field(), "password");
    assert_eq!(field.to_string(), "op://Vault1/Item2/password");
}

#[test]
fn field_resource_from_str() {
    let field: FieldResource = "op://a/b/c".parse().unwrap();
    assert_eq!(field.vault(), "a");
    assert_eq!(field.field(), "c");
}

#[test]
fn field_resource_rejects_malformed() {
    for text in [
        "",
        "op://",
        "op://a/b",
        "op://a/b/c/d",
        "op://a//c",
        "op://a/b/",
        "op://a-b/c/d",
        "op:/a/b/c",
        "xp://a/b/c",
        "op://a/b/c ",
        "op://a/b/ç",
    ] {
        assert!(
            matches!(FieldResource::parse(text), Err(OnePasswordError::ResourceParsingFailed)),
            "{text}"
        );
    }
}

#[test]
fn item_resource_parses_and_prints() {
    let item = ItemResource::parse("op://vault/item").unwrap();
    assert_eq!(item, ItemResource { vault: "vault".to_owned(), item: "item".to_owned() });
    assert_eq!(item.to_string(), "op://vault/item");
    assert!(ItemResource::parse("op://vault/item/field").is_err());
    assert!(ItemResource::parse("op://vault").is_err());
}

#[test]
fn vault_resource_parses_and_prints() {
    let vault: VaultResource = "op://Shared9".parse().unwrap();
    assert_eq!(vault.vault(), "Shared9");
    assert_eq!(vault.to_string(), "op://Shared9");
    assert!(VaultResource::parse("op://Shared/x").is_err());
    assert!(VaultResource::parse("op://").is_err());
}

#[test]
fn onepassword_error_messages() {
    assert_eq!(OnePasswordError::new_resource_parsing_failed().to_message(), "Resource parsing failed");
    assert_eq!(OnePasswordError::new_service_unavailable().to_message(), "Service unavailable");
    assert_eq!(OnePasswordError::new_unknown("x".to_owned()).to_message(), "Unknown: x");
}

#[test]
fn jwt_decoder_kind_and_errors() {
    assert_eq!(JwtDecoderKind::Tokio(TokioJwtDecoder {}).as_str(), "Tokio");
    assert!(matches!(JwtDecoderError::new_missing_key_id(), JwtDecoderError::MissingKeyId));
    assert!(matches!(
        JwtDecoderError::new_unsupported_jwk("k".to_owned(), "m".to_owned()),
        JwtDecoderError::UnsupportedJwk { .. }
    ));
}

#[test]
fn field_resource_from_segments() {
    let field = FieldResource::new("v1".to_owned(), "i2".to_owned(), "f3".to_owned()).unwrap();
    assert_eq!(field.to_string(), "op://v1/i2/f3");
    assert!(matches!(
        FieldResource::new("v/1".to_owned(), "i".to_owned(), "f".to_owned()),
        Err(OnePasswordError::ResourceParsingFailed)
    ));
    assert!(FieldResource::new(String::new(), "i".to_owned(), "f".to_owned()).is_err());
}
