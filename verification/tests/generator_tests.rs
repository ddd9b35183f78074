use wallet_scripts::convert::{Category, Error};
use wallet_scripts::generator::{Expanded, Generator, Variants};
use wallet_scripts::{
    GeneratorParseError, LockScript, LockScriptTemplate, PublicKey, SingleKeyTemplate,
    UnhardenedIndex,
};

fn compressed_key() -> PublicKey {
    let mut bytes = vec![0x03u8];
    bytes.extend_from_slice(&[0x42u8; 32]);
    PublicKey::from_bytes(bytes).unwrap()
}

fn key_hex() -> String {
    let mut s = String::from("03");
    for _ in 0..32 {
        s.push_str("42");
    }
    s
}

fn single_generator(variants: Variants) -> Generator<SingleKeyTemplate> {
    Generator {
        template: SingleKeyTemplate::new(compressed_key()).unwrap(),
        variants,
    }
}

fn variants(bare: bool, hashed: bool, nested: bool, segwit: bool, taproot: bool) -> Variants {
    Variants {
        bare,
        hashed,
        nested,
        segwit,
        taproot,
    }
}

/// A template deriving a fixed lock script for every category but nested.
fn script_template() -> LockScriptTemplate {
    LockScriptTemplate::new(
        LockScript(vec![0x51]),
        variants(true, true, false, true, true),
    )
}

#[test]
fn descriptors_deterministic() {
    let g = single_generator(variants(true, true, true, true, false));
    let index = UnhardenedIndex::new(7).unwrap();
    let first = g.descriptors(index).unwrap();
    let second = g.descriptors(index).unwrap();
    assert_eq!(first, second);
    let p1 = g.pubkey_scripts(index).unwrap();
    let p2 = g.pubkey_scripts(index).unwrap();
    assert_eq!(p1, p2);
}

#[test]
fn descriptors_key_set_matches_enabled_variants() {
    let g = single_generator(variants(false, true, false, true, true));
    let index = UnhardenedIndex::new(0).unwrap();
    let d = g.descriptors(index).unwrap();
    assert!(d.bare.is_none());
    assert!(d.hashed.is_some());
    assert!(d.nested.is_none());
    assert!(d.segwit.is_some());
    // Taproot never appears, even though it was requested.
    assert!(d.get(Category::Taproot).is_none());
    assert!(d.get(Category::Hashed).is_some());
}

#[test]
fn single_sig_three_variants_end_to_end() {
    let g = single_generator(variants(true, true, false, true, false));
    let index = UnhardenedIndex::new(0).unwrap();
    let d = g.descriptors(index).unwrap();
    let key = compressed_key();
    assert_eq!(d.bare, Some(Expanded::Pk(key.clone())));
    assert_eq!(d.hashed, Some(Expanded::Pkh(key.clone())));
    assert_eq!(d.segwit, Some(Expanded::Wpkh(key)));
    assert_eq!(d.nested, None);
    assert!(d.get(Category::Taproot).is_none());
}

#[test]
fn script_template_descriptors_wrap_lock_script() {
    let g = Generator {
        template: script_template(),
        variants: variants(true, true, false, true, false),
    };
    let index = UnhardenedIndex::new(1).unwrap();
    let d = g.descriptors(index).unwrap();
    match d.bare {
        Some(Expanded::Bare(ps)) => assert_eq!(ps.0, vec![0x51]),
        other => panic!("unexpected bare entry: {:?}", other),
    }
    match d.hashed {
        Some(Expanded::Sh(rs)) => assert_eq!(rs.0, vec![0x51]),
        other => panic!("unexpected hashed entry: {:?}", other),
    }
    match d.segwit {
        Some(Expanded::Wsh(ws)) => assert_eq!(ws.0, vec![0x51]),
        other => panic!("unexpected segwit entry: {:?}", other),
    }
}

#[test]
fn derivation_failure_aborts_whole_mapping() {
    let g = Generator {
        template: script_template(),
        variants: variants(true, false, true, true, false),
    };
    let index = UnhardenedIndex::new(1).unwrap();
    assert_eq!(g.descriptors(index), Err(Error::Derivation));
    assert_eq!(g.pubkey_scripts(index), Err(Error::Derivation));
}

#[test]
fn pubkey_scripts_match_direct_conversion() {
    let g = single_generator(variants(true, true, true, true, false));
    let index = UnhardenedIndex::new(3).unwrap();
    let d = g.descriptors(index).unwrap();
    let p = g.pubkey_scripts(index).unwrap();
    assert_eq!(p.bare.unwrap(), d.bare.unwrap().to_pubkey_script());
    assert_eq!(p.hashed.unwrap(), d.hashed.unwrap().to_pubkey_script());
    assert_eq!(p.nested.unwrap(), d.nested.unwrap().to_pubkey_script());
    assert_eq!(p.segwit.unwrap(), d.segwit.unwrap().to_pubkey_script());
}

#[test]
fn notation_renders_fixed_order_codes() {
    let g = single_generator(variants(false, true, false, true, false));
    let expected = format!("HS<{}>", key_hex());
    assert_eq!(g.to_string(), expected);
    let g = single_generator(variants(true, true, true, true, true));
    let expected = format!("BHNST<{}>", key_hex());
    assert_eq!(g.to_string(), expected);
}

#[test]
fn notation_roundtrip() {
    let g = single_generator(variants(false, true, false, true, false));
    let s = g.to_string();
    let parsed = Generator::<SingleKeyTemplate>::from_str(&s).unwrap();
    assert_eq!(parsed, g);
}

#[test]
fn notation_roundtrip_script_template() {
    let g = Generator {
        template: script_template(),
        variants: variants(true, false, false, false, false),
    };
    let s = g.to_string();
    assert_eq!(s, "B<BHST.51>");
    let parsed = Generator::<LockScriptTemplate>::from_str(&s).unwrap();
    assert_eq!(parsed, g);
}

#[test]
fn unbalanced_notation_fails_parsing() {
    assert_eq!(
        Generator::<SingleKeyTemplate>::from_str("HS<"),
        Err(GeneratorParseError)
    );
}

#[test]
fn malformed_notation_fails_parsing() {
    // No delimiters at all.
    assert_eq!(
        Generator::<SingleKeyTemplate>::from_str("HS"),
        Err(GeneratorParseError)
    );
    // Trailing characters after the closing delimiter.
    let s = format!("HS<{}>x", key_hex());
    assert_eq!(
        Generator::<SingleKeyTemplate>::from_str(&s),
        Err(GeneratorParseError)
    );
    // Unknown variant code.
    let s = format!("HX<{}>", key_hex());
    assert_eq!(
        Generator::<SingleKeyTemplate>::from_str(&s),
        Err(GeneratorParseError)
    );
    // Unparsable template segment.
    assert_eq!(
        Generator::<SingleKeyTemplate>::from_str("HS<zz>"),
        Err(GeneratorParseError)
    );
    assert_eq!(
        Generator::<SingleKeyTemplate>::from_str(""),
        Err(GeneratorParseError)
    );
}

#[test]
fn single_key_template_requires_compressed_key() {
    let mut bytes = vec![0x04u8];
    bytes.extend_from_slice(&[0x22u8; 64]);
    let key = PublicKey::from_bytes(bytes).unwrap();
    assert_eq!(
        SingleKeyTemplate::new(key),
        Err(Error::UncompressedKey)
    );
}

#[test]
fn unhardened_index_range() {
    assert!(UnhardenedIndex::new(0).is_some());
    assert!(UnhardenedIndex::new(0x7fff_ffff).is_some());
    assert!(UnhardenedIndex::new(0x8000_0000).is_none());
    assert_eq!(UnhardenedIndex::new(5).unwrap().value(), 5);
}
