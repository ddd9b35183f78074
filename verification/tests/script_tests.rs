use wallet_scripts::convert::{Category, Error, ToLockScript, ToPubkeyScript, ToScripts};
use wallet_scripts::encoding::extract_data_pushes;
use wallet_scripts::hex::{hex_decode, hex_encode};
use wallet_scripts::script_types::PubkeyScript;
use wallet_scripts::{
    LockScript, PublicKey, RedeemScript, ScriptSet, SigScript, Witness, WitnessProgram,
    WitnessScript, WitnessVersion, WitnessVersionError,
};

const HASH160_EMPTY: [u8; 20] = [
    0xb4, 0x72, 0xa2, 0x66, 0xd0, 0xbd, 0x89, 0xc1, 0x37, 0x06, 0xa4, 0x13, 0x2c, 0xcf, 0xb1,
    0x6f, 0x7c, 0x3b, 0x9f, 0xcb,
];

const SHA256_EMPTY: [u8; 32] = [
    0xe3, 0xb0, 0xc4, 0x42, 0x98, 0xfc, 0x1c, 0x14, 0x9a, 0xfb, 0xf4, 0xc8, 0x99, 0x6f, 0xb9,
    0x24, 0x27, 0xae, 0x41, 0xe4, 0x64, 0x9b, 0x93, 0x4c, 0xa4, 0x95, 0x99, 0x1b, 0x78, 0x52,
    0xb8, 0x55,
];

fn compressed_key() -> PublicKey {
    let mut bytes = vec![0x02u8];
    bytes.extend_from_slice(&[0x11u8; 32]);
    PublicKey::from_bytes(bytes).unwrap()
}

fn uncompressed_key() -> PublicKey {
    let mut bytes = vec![0x04u8];
    bytes.extend_from_slice(&[0x22u8; 64]);
    PublicKey::from_bytes(bytes).unwrap()
}

#[test]
fn witness_version_roundtrip_all_valid() {
    for n in 0u8..=16 {
        let v = WitnessVersion::try_from(n).unwrap();
        assert_eq!(v.to_u8(), n);
    }
}

#[test]
fn witness_version_rejects_out_of_range() {
    for n in 17u8..=255 {
        assert_eq!(
            WitnessVersion::try_from(n),
            Err(WitnessVersionError::IncorrectOpcode)
        );
    }
}

#[test]
fn hashed_pubkey_script_embeds_script_hash() {
    let lock = LockScript(vec![0x51]);
    let ps = lock.to_pubkey_script(Category::Hashed).unwrap();
    let rs = RedeemScript::from_lock_script(lock.clone());
    let h = rs.script_hash();
    let mut expected = vec![0xa9, 0x14];
    expected.extend_from_slice(&h);
    expected.push(0x87);
    assert_eq!(ps.0, expected);
    // The matching reveal pushes the lock script itself, whose hash is the
    // embedded one.
    let sig = lock.to_sig_script(Category::Hashed).unwrap();
    assert_eq!(sig.0, vec![0x01, 0x51]);
    let revealed = extract_data_pushes(&sig.0);
    assert_eq!(revealed, vec![vec![0x51]]);
}

#[test]
fn hashed_pubkey_script_known_vector() {
    let lock = LockScript(Vec::new());
    let ps = lock.to_pubkey_script(Category::Hashed).unwrap();
    let mut expected = vec![0xa9, 0x14];
    expected.extend_from_slice(&HASH160_EMPTY);
    expected.push(0x87);
    assert_eq!(ps.0, expected);
}

#[test]
fn segwit_pubkey_script_embeds_wscript_hash() {
    let lock = LockScript(Vec::new());
    let ps = lock.to_pubkey_script(Category::SegWit).unwrap();
    let mut expected = vec![0x00, 0x20];
    expected.extend_from_slice(&SHA256_EMPTY);
    assert_eq!(ps.0, expected);
    // The witness carries the lock script, the pre-image of the embedded
    // program hash.
    let w = lock.to_witness(Category::SegWit).unwrap().unwrap();
    assert_eq!(w.0, vec![Vec::<u8>::new()]);
    let ws = WitnessScript::from_lock_script(lock);
    assert_eq!(ws.script_hash(), SHA256_EMPTY.to_vec());
}

#[test]
fn bare_pubkey_script_is_lock_script() {
    let lock = LockScript(vec![0x51, 0x52]);
    let ps = lock.to_pubkey_script(Category::Bare).unwrap();
    assert_eq!(ps.0, vec![0x51, 0x52]);
    let sig = lock.to_sig_script(Category::Bare).unwrap();
    assert!(sig.0.is_empty());
    assert_eq!(lock.to_witness(Category::Bare).unwrap(), None);
}

#[test]
fn nested_pubkey_script_wraps_segwit_form() {
    let lock = LockScript(vec![0x51]);
    let segwit = lock.to_pubkey_script(Category::SegWit).unwrap();
    let wrapped = lock.to_pubkey_script(Category::Nested).unwrap();
    let rs = RedeemScript(segwit.0.clone());
    let mut expected = vec![0xa9, 0x14];
    expected.extend_from_slice(&rs.script_hash());
    expected.push(0x87);
    assert_eq!(wrapped.0, expected);
    // The reveal pushes the segwit redeem script.
    let sig = lock.to_sig_script(Category::Nested).unwrap();
    assert_eq!(extract_data_pushes(&sig.0), vec![segwit.0]);
}

#[test]
fn taproot_conversions_report_unsupported() {
    let lock = LockScript(vec![0x51]);
    assert_eq!(
        lock.to_pubkey_script(Category::Taproot),
        Err(Error::UnsupportedCategory)
    );
    assert_eq!(
        lock.to_sig_script(Category::Taproot),
        Err(Error::UnsupportedCategory)
    );
    assert_eq!(
        lock.to_witness(Category::Taproot),
        Err(Error::UnsupportedCategory)
    );
    assert_eq!(
        lock.to_scripts(Category::Taproot),
        Err(Error::UnsupportedCategory)
    );
    let key = compressed_key();
    assert_eq!(
        key.to_lock_script(Category::Taproot),
        Err(Error::UnsupportedCategory)
    );
}

#[test]
fn uncompressed_key_segwit_is_recoverable_error() {
    let key = uncompressed_key();
    assert_eq!(
        key.to_lock_script(Category::SegWit),
        Err(Error::UncompressedKey)
    );
    assert_eq!(
        key.to_lock_script(Category::Nested),
        Err(Error::UncompressedKey)
    );
    assert_eq!(
        key.to_scripts(Category::SegWit),
        Err(Error::UncompressedKey)
    );
    // The legacy forms still work.
    assert!(key.to_lock_script(Category::Bare).is_ok());
    assert!(key.to_lock_script(Category::Hashed).is_ok());
}

#[test]
fn key_to_scripts_segwit() {
    let key = compressed_key();
    let set = key.to_scripts(Category::SegWit).unwrap();
    assert!(set.sig_script.0.is_empty());
    let w = set.witness_script.unwrap();
    assert_eq!(w.0, vec![key.as_bytes().to_vec()]);
    assert_eq!(set.pubkey_script.0[0], 0x00);
    assert_eq!(set.pubkey_script.0[1], 0x14);
    assert_eq!(set.pubkey_script.0.len(), 22);
}

#[test]
fn key_p2pk_script_pushes_key() {
    let key = compressed_key();
    let lock = key.to_lock_script(Category::Bare).unwrap();
    let mut expected = vec![0x21];
    expected.extend_from_slice(key.as_bytes());
    expected.push(0xac);
    assert_eq!(lock.0, expected);
}

#[test]
fn public_key_rejects_malformed_bytes() {
    assert!(PublicKey::from_bytes(vec![0x02; 10]).is_none());
    assert!(PublicKey::from_bytes(Vec::new()).is_none());
    let mut wrong_prefix = vec![0x05u8];
    wrong_prefix.extend_from_slice(&[0u8; 32]);
    assert!(PublicKey::from_bytes(wrong_prefix).is_none());
}

#[test]
fn transmutate_roundtrip_restores_push_only_sig() {
    let sig_bytes = {
        let mut v = vec![0x02, 0xaa, 0xbb];
        v.push(0x00);
        v.push(0x21);
        v.extend_from_slice(&[0x33u8; 33]);
        v
    };
    let mut set = ScriptSet {
        pubkey_script: PubkeyScript(vec![0x51]),
        sig_script: SigScript(sig_bytes.clone()),
        witness_script: None,
    };
    assert!(set.transmutate(true));
    assert!(set.sig_script.0.is_empty());
    let w = set.witness_script.clone().unwrap();
    assert_eq!(w.0, vec![vec![0xaa, 0xbb], Vec::new(), vec![0x33u8; 33]]);
    assert!(set.transmutate(false));
    assert_eq!(set.sig_script.0, sig_bytes);
    assert!(set.witness_script.is_none());
    assert_eq!(set.pubkey_script.0, vec![0x51]);
}

#[test]
fn transmutate_drops_non_push_instructions() {
    let mut set = ScriptSet {
        pubkey_script: PubkeyScript(Vec::new()),
        sig_script: SigScript(vec![0x75, 0x02, 0xaa, 0xbb]),
        witness_script: None,
    };
    assert!(set.transmutate(true));
    assert_eq!(set.witness_script.unwrap().0, vec![vec![0xaa, 0xbb]]);
}

#[test]
fn transmutate_same_form_is_refused() {
    let mut legacy = ScriptSet {
        pubkey_script: PubkeyScript(Vec::new()),
        sig_script: SigScript(vec![0x02, 0xaa, 0xbb]),
        witness_script: None,
    };
    assert!(!legacy.transmutate(false));
    assert_eq!(legacy.sig_script.0, vec![0x02, 0xaa, 0xbb]);
}

#[test]
fn transmutate_never_touches_witness_in_p2sh() {
    let original = ScriptSet {
        pubkey_script: PubkeyScript(vec![0xa9]),
        sig_script: SigScript(vec![0x01, 0x51]),
        witness_script: Some(Witness(vec![vec![0xaa]])),
    };
    let mut set = original.clone();
    assert!(set.is_witness_sh());
    assert!(!set.transmutate(true));
    assert_eq!(set, original);
    assert!(!set.transmutate(false));
    assert_eq!(set, original);
}

#[test]
fn extraction_stops_at_malformed_push() {
    // Truncated direct push.
    assert_eq!(extract_data_pushes(&[0x05, 0x01]), Vec::<Vec<u8>>::new());
    // Non-minimal data-carrying push.
    assert_eq!(
        extract_data_pushes(&[0x4c, 0x01, 0xaa]),
        Vec::<Vec<u8>>::new()
    );
    // Single small numeric byte must use the numeric opcode.
    assert_eq!(extract_data_pushes(&[0x01, 0x05]), Vec::<Vec<u8>>::new());
    // Elements before the malformed push are kept.
    assert_eq!(
        extract_data_pushes(&[0x01, 0xaa, 0x4c, 0x01, 0xbb]),
        vec![vec![0xaa]]
    );
}

#[test]
fn address_formed_for_standard_scripts_only() {
    let lock = LockScript(vec![0x51]);
    let p2sh = lock.to_pubkey_script(Category::Hashed).unwrap();
    assert!(p2sh.address(bitcoin::Network::Bitcoin).is_some());
    let p2wsh = lock.to_pubkey_script(Category::SegWit).unwrap();
    assert!(p2wsh.address(bitcoin::Network::Bitcoin).is_some());
    let bare = lock.to_pubkey_script(Category::Bare).unwrap();
    assert!(bare.address(bitcoin::Network::Bitcoin).is_none());
    assert!(PubkeyScript(Vec::new())
        .address(bitcoin::Network::Testnet)
        .is_none());
}

#[test]
fn to_p2wsh_known_vector() {
    let ws = WitnessScript(Vec::new());
    let ps = ws.to_p2wsh();
    let mut expected = vec![0x00, 0x20];
    expected.extend_from_slice(&SHA256_EMPTY);
    assert_eq!(ps.0, expected);
}

#[test]
fn hex_rendering() {
    assert_eq!(LockScript(vec![0xde, 0xad, 0x01]).to_hex(), "dead01");
    assert_eq!(PubkeyScript(Vec::new()).to_hex(), "");
    assert_eq!(hex_encode(&[0x0f, 0xf0]), b"0ff0".to_vec());
    assert_eq!(hex_decode(b"0ff0"), Some(vec![0x0f, 0xf0]));
    assert_eq!(hex_decode(b"zz"), None);
    assert_eq!(hex_decode(b"abc"), None);
}

#[test]
fn witness_rendering_one_line_per_element() {
    let w = Witness(vec![vec![0xab], vec![0xcd, 0xef]]);
    assert_eq!(w.to_string(), "[\nab\ncdef\n]\n");
    assert_eq!(Witness(Vec::new()).to_string(), "[\n]\n");
}

#[test]
fn witness_program_rendering() {
    let p = WitnessProgram::new(vec![0xab, 0xcd]);
    assert_eq!(p.to_string(), "abcd\n");
}

#[test]
fn script_set_rendering() {
    let set = ScriptSet {
        pubkey_script: PubkeyScript(vec![0x51]),
        sig_script: SigScript(vec![0xaa]),
        witness_script: None,
    };
    assert_eq!(set.to_string(), "aa  51");
    let set = ScriptSet {
        pubkey_script: PubkeyScript(vec![0x51]),
        sig_script: SigScript(Vec::new()),
        witness_script: Some(Witness(vec![vec![0xab]])),
    };
    assert_eq!(set.to_string(), " [\nab\n]\n 51");
}
