use subatomic::api::{create_tag, get_tag_rpms, upload_rpm, CreateTag, RepoType};
use subatomic::config::{Config, ObjectStoreType};
use subatomic::db::Db;
use subatomic::keyring::{GpgKey, GpgKeyRef};
use subatomic::errors::RepoError;
use subatomic::keyring::{KeyAlgorithm, KeyParams};
use subatomic::package::{Rpm, RpmRef};
use subatomic::rpmfile::rpm_layout_ok;

fn anda_bytes() -> Vec<u8> {
    let pkg = rpm::PackageBuilder::new(
        "anda-srpm-macros",
        "0.2.6",
        "MIT",
        "noarch",
        "SRPM macros for Andaman",
    )
    .release("1.fc41")
    .requires(rpm::Dependency::script_pre("coreutils"))
    .provides(rpm::Dependency::eq("anda-macros", "0.2.6"))
    .build()
    .unwrap();
    let mut buf = Vec::new();
    pkg.write(&mut buf).unwrap();
    buf
}

#[test]
fn test_rpm_from_path() {
    let rpm = Rpm::from_bytes(&anda_bytes(), "foobar").unwrap();

    println!("{:#?}", rpm);
    assert_eq!(rpm.name, "anda-srpm-macros");
    assert_eq!(rpm.version, "0.2.6");
    assert_eq!(rpm.release, "1.fc41");
    assert_eq!(rpm.arch, "noarch");
}

#[test]
fn test_rpm_ref_from_rpm() {
    let rpm = Rpm::from_bytes(&anda_bytes(), "foobar").unwrap();
    let rpm_ref = RpmRef::from(&rpm);

    println!("{:#?}", rpm_ref);
    assert_eq!(rpm_ref.name, "anda-srpm-macros");
}

#[test]
fn test_new_gpg_key() {
    let key = GpgKey::new("test", None, "test").unwrap();
    println!("{:?}", key);

    let key_ref = GpgKeyRef::from(&key);

    println!("{:?}", key_ref);
}

#[test]
fn parsed_record_fields() {
    let rpm = Rpm::from_bytes(&anda_bytes(), "foo").unwrap();
    assert_eq!(rpm.tag, "foo");
    assert_eq!(rpm.epoch, 0);
    assert!(!rpm.available());
    assert_eq!(rpm.id.len(), 26);
    assert_eq!(
        rpm.object_key,
        format!(
            "rpm/{}/{}/{}/anda-srpm-macros-0:0.2.6-1.fc41.noarch.rpm",
            &rpm.id[0..1],
            &rpm.id[1..2],
            rpm.id
        )
    );
    let pre = rpm.requirements.iter().find(|d| d.name == "coreutils").unwrap();
    assert_eq!(pre.flag, Some("scriptpre".to_string()));
    let prov = rpm.provides.iter().find(|d| d.name == "anda-macros").unwrap();
    assert_eq!(prov.version, Some("0.2.6".to_string()));
    assert_eq!(prov.flag, None);
}

#[test]
fn ingest_and_list() {
    let cfg = Config {
        host: String::new(),
        surreal_db: String::new(),
        surreal_ns: String::new(),
        s3_config: None,
        object_store_type: ObjectStoreType::CacheOnly,
        delete_when_prune: false,
        cache_dir: "/tmp/subatomic".to_string(),
        repo_cache_dir: "/tmp/subatomic/repo".to_string(),
        object_cache_dir: "/tmp/subatomic/objects".to_string(),
        export_dir: "/tmp/subatomic/export".to_string(),
        listen_addr: String::new(),
    };
    let mut db = Db::new();
    create_tag(&mut db, &CreateTag { name: "foo".to_string(), repo_type: RepoType::Rpm }).unwrap();
    let name = "anda-srpm-macros-0:0.2.6-1.fc41.noarch.rpm".to_string();
    let ing = upload_rpm(&cfg, Some(name.clone()), Some(anda_bytes()), Some("foo".to_string())).unwrap();
    assert_eq!(ing.staging_path, format!("/tmp/subatomic/{name}"));
    ing.rpm.commit_to_db(&mut db, true).unwrap();
    let refs = get_tag_rpms(&db, "foo").unwrap();
    assert_eq!(refs.len(), 1);
    assert_eq!(refs[0].name, "anda-srpm-macros");
    let full = refs[0].get_full(&db).unwrap();
    assert_eq!(full.version, "0.2.6");
    assert_eq!(full.release, "1.fc41");
    assert_eq!(full.arch, "noarch");
    let parts: Vec<&str> = refs[0].object_key.split('/').collect();
    assert_eq!(parts.len(), 5);
    assert_eq!(parts[0], "rpm");
    assert_eq!(parts[3].len(), 26);
    assert_eq!(parts[4], name);
}

#[test]
fn sign_package_with_generated_key() {
    let mut db = Db::new();
    let key = GpgKey::new("k1", Some("release key".to_string()), "Test <test@example.com>").unwrap();
    key.save(&mut db);
    assert!(key.secret_key().is_ok());
    assert!(key.public_key().is_ok());
    assert!(key.public_key.contains("PGP PUBLIC KEY"));
    assert!(key.secret_key.contains("PGP PRIVATE KEY"));
    let rpm = Rpm::from_bytes(&anda_bytes(), "foo").unwrap();
    rpm.commit_to_db(&mut db, true).unwrap();
    let (signed_key, bytes) = rpm.sign(&anda_bytes(), &key.secret_key).unwrap();
    assert_eq!(
        signed_key,
        rpm.object_key.replacen(
            "/anda-srpm-macros",
            "/signed/anda-srpm-macros",
            1
        )
    );
    let pkg = rpm::Package::parse(&mut bytes.as_slice()).unwrap();
    let verifier = rpm::signature::pgp::Verifier::from_asc(&key.public_key).unwrap();
    assert!(pkg.verify_signature(verifier).is_ok());
    let updated = rpm.set_signed_object_key(&mut db, signed_key.clone()).unwrap();
    assert_eq!(updated.signed_object_key, Some(signed_key));
    assert!(updated.available());
}

#[test]
fn key_projection_hides_secret() {
    let mut db = Db::new();
    let r = subatomic::api::create_key(
        &mut db,
        &subatomic::api::CreateGpgKey {
            id: "k2".to_string(),
            user_id: "u".to_string(),
            description: None,
        },
    )
    .unwrap();
    assert_eq!(r.id, "k2");
    assert_eq!(subatomic::api::get_all_keys(&db).len(), 1);
    assert_eq!(GpgKey::get(&db, "k2").unwrap().user_id, "u");
}

/// A package whose signature header has one string entry pointing far past its
/// eight-byte store.
fn out_of_range_offset() -> Vec<u8> {
    let mut b = vec![0u8; 96];
    b[..4].copy_from_slice(&[0xed, 0xab, 0xee, 0xdb]);
    b.extend_from_slice(&[0x8e, 0xad, 0xe8, 0x01, 0, 0, 0, 0, 0, 0, 0, 1, 0, 0, 0, 8]);
    b.extend_from_slice(&[0, 0, 0x03, 0xe8, 0, 0, 0, 6, 0, 0, 0x10, 0, 0, 0, 0, 1]);
    b.extend_from_slice(b"abcdefg\0");
    b.extend_from_slice(&[0x8e, 0xad, 0xe8, 0x01, 0, 0, 0, 0, 0, 0, 0, 0, 0, 0, 0, 0]);
    b
}

#[test]
fn layout_check_accepts_real_packages() {
    assert!(rpm_layout_ok(&anda_bytes()));
    assert!(!rpm_layout_ok(&vec![0u8; 10]));
    assert!(!rpm_layout_ok(&out_of_range_offset()));
}

#[test]
fn out_of_range_offset_is_a_parse_error() {
    let bytes = out_of_range_offset();
    assert_eq!(Rpm::from_bytes(&bytes, "foo").err(), Some(RepoError::Parse));
    let rpm = Rpm::from_bytes(&anda_bytes(), "foo").unwrap();
    let key = GpgKey::new("k", None, "u").unwrap();
    assert_eq!(rpm.sign(&bytes, &key.secret_key).err(), Some(RepoError::Parse));
}

#[test]
fn signing_key_parameters() {
    let p = KeyParams::signing_key("Test <t@example.com>");
    assert_eq!(p.key_type, KeyAlgorithm::Ed25519);
    assert!(p.can_sign);
    assert!(!p.can_certify);
    assert_eq!(p.primary_user_id, "Test <t@example.com>");
    assert_eq!(p.passphrase, None);
}

#[test]
fn binary_range_past_the_store_is_rejected() {
    let mut b = vec![0u8; 96];
    b[..4].copy_from_slice(&[0xed, 0xab, 0xee, 0xdb]);
    b.extend_from_slice(&[0x8e, 0xad, 0xe8, 0x01, 0, 0, 0, 0, 0, 0, 0, 1, 0, 0, 0, 8]);
    b.extend_from_slice(&[0, 0, 0x03, 0xf0, 0, 0, 0, 7, 0, 0, 0, 4, 0, 0, 0, 8]);
    b.extend_from_slice(&[1, 2, 3, 4, 5, 6, 7, 8]);
    b.extend_from_slice(&[0x8e, 0xad, 0xe8, 0x01, 0, 0, 0, 0, 0, 0, 0, 0, 0, 0, 0, 0]);
    assert!(!rpm_layout_ok(&b));
    let rpm = Rpm::from_bytes(&anda_bytes(), "foo").unwrap();
    let key = GpgKey::new("k", None, "u").unwrap();
    assert_eq!(rpm.sign(&b, &key.secret_key).err(), Some(RepoError::Parse));
}

#[test]
fn upload_names_stay_inside_the_cache() {
    let cfg = Config {
        host: String::new(),
        surreal_db: String::new(),
        surreal_ns: String::new(),
        s3_config: None,
        object_store_type: ObjectStoreType::CacheOnly,
        delete_when_prune: false,
        cache_dir: "/tmp/subatomic".to_string(),
        repo_cache_dir: "/tmp/subatomic/repo".to_string(),
        object_cache_dir: "/tmp/subatomic/objects".to_string(),
        export_dir: "/tmp/subatomic/export".to_string(),
        listen_addr: String::new(),
    };
    for name in ["../x.rpm", "/etc/x.rpm", "a/b.rpm", "..", ".", ""] {
        let e = upload_rpm(&cfg, Some(name.to_string()), Some(anda_bytes()), Some("foo".to_string())).err();
        assert_eq!(e, Some(RepoError::BadRequest), "{name}");
    }
    let ok = upload_rpm(&cfg, Some("a..b.rpm".to_string()), Some(anda_bytes()), Some("foo".to_string()));
    assert_eq!(ok.unwrap().staging_path, "/tmp/subatomic/a..b.rpm");
}
