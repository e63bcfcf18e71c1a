//! The standard-library script registry and its whitelist.

use txn_gate::transaction_scripts::StdlibScript;

#[test]
fn test_file_correspondence() {
    // Make sure that every compiled image in the registry is recognized by
    // StdlibScript::is (and vice versa: the whitelist lists exactly one
    // digest per script).
    let scripts = StdlibScript::all();
    for script in &scripts {
        let image = script.compiled_bytes().into_vec();
        assert!(
            StdlibScript::is(&image),
            "image {:?} missing from the StdlibScript registry",
            image
        );
    }
    let whitelist = StdlibScript::whitelist();
    assert_eq!(
        whitelist.len(),
        scripts.len(),
        "mismatch between the whitelist and the StdlibScript registry"
    );
}

#[test]
fn registry_names() {
    assert_eq!(
        StdlibScript::PeerToPeerWithMetadata.name(),
        "peer_to_peer_with_metadata"
    );
    assert_eq!(StdlibScript::Burn.name(), "burn");
    assert_eq!(
        StdlibScript::RotateAuthenticationKeyWithRecoveryAddress.name(),
        "rotate_authentication_key_with_recovery_address"
    );
    assert_eq!(
        StdlibScript::PublishSharedEd2551PublicKey.name(),
        "publish_shared_ed25519_public_key"
    );
}

#[test]
fn registry_lookup_by_content_hash() {
    let image = StdlibScript::PeerToPeerWithMetadata.compiled_bytes().into_vec();
    assert_eq!(
        StdlibScript::try_from(&image),
        Some(StdlibScript::PeerToPeerWithMetadata)
    );
    assert_eq!(StdlibScript::try_from(b"garbage"), None);
}

#[test]
fn registry_rejects_foreign_bytes() {
    // Bytes that are no registry image hash to no whitelisted digest.
    assert!(!StdlibScript::is(&[]));
    assert!(!StdlibScript::is(&[7u8]));
    assert!(!StdlibScript::is(b"not a script"));
}

#[test]
fn registry_hashes_are_digests() {
    // Each whitelist entry is a 32-byte digest, never the image itself.
    let scripts = StdlibScript::all();
    let whitelist = StdlibScript::whitelist();
    for (script, digest) in scripts.iter().zip(whitelist.iter()) {
        let image = script.compiled_bytes().into_vec();
        assert_eq!(digest.len(), 32);
        assert_ne!(digest, &image);
        assert_eq!(digest, &script.hash());
    }
}

#[test]
fn compiled_bytes_round_trip() {
    // into_vec hands back exactly the image bytes.
    let compiled = StdlibScript::PeerToPeerWithMetadata.compiled_bytes();
    let bytes = compiled.into_vec();
    assert_eq!(bytes, vec![4u8, 3, 1, 4, 4, 16]);
}
