use subatomic::api::{
    assemble_tag, create_tag, delete_rpm, delete_tag, get_all_rpms, get_all_tags, get_rpm, get_tag, get_tag_rpms,
    mark_rpm_available, mark_rpm_unavailable, set_gpg_key, upload_rpm, CreateTag, RepoType,
    SetGpgKey,
};
use subatomic::assembly::{Assembly, AssemblyAction, AssemblyEvent};
use subatomic::config::{Config, ObjectStoreType};
use subatomic::db::Db;
use subatomic::errors::{RepoError, TagError};
use subatomic::keys::Nevra;
use subatomic::package::{Rpm, RpmRef};
use subatomic::tag::{Tag, TagCompose};

fn config() -> Config {
    Config {
        host: "localhost:8000".to_string(),
        surreal_db: "subatomic".to_string(),
        surreal_ns: "subatomic".to_string(),
        s3_config: None,
        object_store_type: ObjectStoreType::Local,
        delete_when_prune: false,
        cache_dir: "/tmp/subatomic".to_string(),
        repo_cache_dir: "/tmp/subatomic/repo".to_string(),
        object_cache_dir: "/tmp/subatomic/objects".to_string(),
        export_dir: "/tmp/subatomic/export".to_string(),
        listen_addr: "0.0.0.0:3000".to_string(),
    }
}

fn package(id: &str, name: &str, version: &str, arch: &str, tag: &str) -> Rpm {
    Rpm::with_identity(
        id.to_string(),
        0,
        Nevra {
            name: name.to_string(),
            epoch: 0,
            version: version.to_string(),
            release: "1.fc41".to_string(),
            arch: arch.to_string(),
        },
        vec![],
        vec![],
        tag,
    )
}

fn available(db: &Db, id: &str) -> bool {
    Rpm::get(db, id).unwrap().available()
}

const A: &str = "01ARZ3NDEKTSV4RRFFQ69G5FAA";
const B: &str = "01ARZ3NDEKTSV4RRFFQ69G5FAB";
const C: &str = "01ARZ3NDEKTSV4RRFFQ69G5FAC";

#[test]
fn latest_wins() {
    let mut db = Db::new();
    let first = package(A, "anda-srpm-macros", "0.2.5", "noarch", "foo");
    let second = package(B, "anda-srpm-macros", "0.2.6", "noarch", "foo");
    first.commit_to_db(&mut db, true).unwrap();
    assert!(available(&db, A));
    second.commit_to_db(&mut db, true).unwrap();
    assert!(available(&db, B));
    assert!(!available(&db, A));
}

#[test]
fn commit_without_latest_stays_unavailable() {
    let mut db = Db::new();
    package(A, "x", "1", "noarch", "foo").commit_to_db(&mut db, true).unwrap();
    package(B, "x", "2", "noarch", "foo").commit_to_db(&mut db, false).unwrap();
    assert!(available(&db, A));
    assert!(!available(&db, B));
}

#[test]
fn other_slots_are_untouched() {
    let mut db = Db::new();
    package(A, "x", "1", "noarch", "foo").commit_to_db(&mut db, true).unwrap();
    package(B, "x", "1", "x86_64", "foo").commit_to_db(&mut db, true).unwrap();
    package(C, "x", "1", "noarch", "bar").commit_to_db(&mut db, true).unwrap();
    assert!(available(&db, A) && available(&db, B) && available(&db, C));
}

#[test]
fn at_most_one_available_after_any_sequence() {
    let mut db = Db::new();
    package(A, "x", "1", "noarch", "foo").commit_to_db(&mut db, false).unwrap();
    package(B, "x", "2", "noarch", "foo").commit_to_db(&mut db, true).unwrap();
    package(C, "x", "3", "noarch", "foo").commit_to_db(&mut db, false).unwrap();
    mark_rpm_available(&mut db, A).unwrap();
    mark_rpm_available(&mut db, C).unwrap();
    mark_rpm_unavailable(&mut db, &config(), C).unwrap();
    mark_rpm_available(&mut db, B).unwrap();
    let n = Rpm::get_all(&db).iter().filter(|r| r.available()).count();
    assert_eq!(n, 1);
    assert!(available(&db, B));
}

#[test]
fn duplicate_commit_conflicts() {
    let mut db = Db::new();
    let p = package(A, "x", "1", "noarch", "foo");
    p.commit_to_db(&mut db, false).unwrap();
    assert_eq!(p.commit_to_db(&mut db, true), Err(RepoError::Conflict));
}

#[test]
fn marking_unknown_package_is_not_found() {
    let mut db = Db::new();
    assert_eq!(mark_rpm_available(&mut db, A), Err(RepoError::NotFound));
    assert_eq!(mark_rpm_unavailable(&mut db, &config(), A), Err(RepoError::NotFound));
    assert_eq!(RepoError::NotFound.status_code(), 404);
}

#[test]
fn create_tag_twice_conflicts() {
    let mut db = Db::new();
    let req = CreateTag { name: "foo".to_string(), repo_type: RepoType::Rpm };
    let t = create_tag(&mut db, &req).unwrap();
    assert_eq!(t.id, "foo");
    assert_eq!(t.name, "foo");
    let e = create_tag(&mut db, &req).unwrap_err();
    assert_eq!(e, RepoError::Tag(TagError::AlreadyExists));
    assert_eq!(e.status_code(), 409);
}

#[test]
fn delete_then_get_is_not_found() {
    let mut db = Db::new();
    let p = package(A, "x", "1", "noarch", "foo");
    let key = p.object_key.clone();
    p.commit_to_db(&mut db, true).unwrap();
    assert_eq!(delete_rpm(&mut db, A), Ok(key));
    let e = get_rpm(&db, A).unwrap_err();
    assert_eq!(e, RepoError::NotFound);
    assert_eq!(e.status_code(), 404);
    assert_eq!(delete_rpm(&mut db, A), Err(RepoError::NotFound));
}

#[test]
fn tag_lookup_and_key_attachment() {
    let mut db = Db::new();
    assert_eq!(get_tag(&db, "foo"), Err(RepoError::Tag(TagError::NotFound)));
    Tag::new("foo".to_string()).save(&mut db);
    let key = SetGpgKey { key_id: "k1".to_string() };
    let t = set_gpg_key(&mut db, "foo", &key).unwrap();
    assert_eq!(t.signing_key, Some("k1".to_string()));
    assert_eq!(get_tag(&db, "foo").unwrap().signing_key, Some("k1".to_string()));
    assert_eq!(delete_tag(&mut db, "foo"), Ok(()));
    assert_eq!(delete_tag(&mut db, "foo"), Err(RepoError::NotFound));
}

#[test]
fn tag_rpms_lists_available_references() {
    let mut db = Db::new();
    Tag::new("foo".to_string()).save(&mut db);
    package(A, "x", "1", "noarch", "foo").commit_to_db(&mut db, true).unwrap();
    package(B, "y", "1", "noarch", "foo").commit_to_db(&mut db, false).unwrap();
    package(C, "z", "1", "noarch", "bar").commit_to_db(&mut db, true).unwrap();
    let refs = get_tag_rpms(&db, "foo").unwrap();
    assert_eq!(refs.len(), 1);
    assert_eq!(refs[0].id, A);
    assert_eq!(refs[0].tag, Some("foo".to_string()));
    assert_eq!(get_tag_rpms(&db, "nope"), Err(RepoError::NotFound));
    assert_eq!(get_all_rpms(&db).len(), 3);
    assert_eq!(RpmRef::get(&db, B).unwrap().name, "y");
}

#[test]
fn assemble_plans_one_link_per_package() {
    let mut db = Db::new();
    let cfg = config();
    Tag::new("foo".to_string()).save(&mut db);
    package(A, "x", "1", "noarch", "foo").commit_to_db(&mut db, true).unwrap();
    package(B, "x", "2", "noarch", "foo").commit_to_db(&mut db, true).unwrap();
    let plan = assemble_tag(&mut db, &cfg, "foo").unwrap();
    assert_eq!(plan.links.len(), 1);
    assert_eq!(plan.links[0].link_name, format!("{B}-x-0:2-1.fc41.noarch.rpm"));
    assert_eq!(plan.compose.packages.len(), 1);
    assert_eq!(plan.compose.packages[0].id, B);
    assert_eq!(plan.compose.id.len(), 26);
    assert_eq!(
        plan.staging_dir,
        format!("/tmp/subatomic/repo/foo/foo_{}", plan.compose.id)
    );
    assert_eq!(plan.export_dir, "/tmp/subatomic/export/foo");
    assert_eq!(db.all_composes().len(), 1);
    assert_eq!(assemble_tag(&mut db, &cfg, "nope").unwrap_err(), RepoError::NotFound);
}

#[test]
fn assembly_runs_steps_in_order() {
    let mut db = Db::new();
    Tag::new("foo".to_string()).save(&mut db);
    package(A, "x", "1", "noarch", "foo").commit_to_db(&mut db, true).unwrap();
    package(B, "y", "1", "noarch", "foo").commit_to_db(&mut db, true).unwrap();
    let plan = assemble_tag(&mut db, &config(), "foo").unwrap();
    let (mut a, first) = Assembly::start(plan);
    assert_eq!(first, AssemblyAction::CreateStaging);
    assert_eq!(a.on_event(AssemblyEvent::StagingCreated), AssemblyAction::Link(0));
    assert_eq!(a.on_event(AssemblyEvent::Linked), AssemblyAction::Link(1));
    assert_eq!(a.on_event(AssemblyEvent::Linked), AssemblyAction::RunGenerator);
    assert_eq!(a.on_event(AssemblyEvent::GeneratorExited(true)), AssemblyAction::InstallExport);
    assert_eq!(a.on_event(AssemblyEvent::Installed), AssemblyAction::Succeed);
}

#[test]
fn assembly_failures() {
    let mut db = Db::new();
    Tag::new("foo".to_string()).save(&mut db);
    let plan = assemble_tag(&mut db, &config(), "foo").unwrap();
    assert!(plan.links.is_empty());
    let (mut a, _) = Assembly::start(plan.clone());
    assert_eq!(a.on_event(AssemblyEvent::StagingCreated), AssemblyAction::RunGenerator);
    let failed = a.on_event(AssemblyEvent::GeneratorExited(false));
    assert_eq!(failed, AssemblyAction::Fail(RepoError::GeneratorFailed));
    assert_eq!(RepoError::GeneratorFailed.status_code(), 500);
    let (mut b, _) = Assembly::start(plan.clone());
    assert_eq!(b.on_event(AssemblyEvent::StagingExists), AssemblyAction::Fail(RepoError::Conflict));
    let (mut c, _) = Assembly::start(plan);
    assert_eq!(c.on_event(AssemblyEvent::IoFailed), AssemblyAction::Fail(RepoError::Io));
}

#[test]
fn compose_ids_are_fresh_ulids() {
    let c = TagCompose::new("foo", vec![]);
    assert_eq!(c.id.len(), 26);
    assert!(c.id.chars().all(|ch| "0123456789ABCDEFGHJKMNPQRSTVWXYZ".contains(ch)));
    assert_ne!(c.id, TagCompose::new("foo", vec![]).id);
}

#[test]
fn upload_needs_every_field() {
    let cfg = config();
    let e = upload_rpm(&cfg, None, Some(vec![1]), Some("foo".to_string())).err();
    assert_eq!(e, Some(RepoError::BadRequest));
    let e = upload_rpm(&cfg, Some("a.rpm".to_string()), Some(vec![1, 2, 3]), Some("foo".to_string())).err();
    assert_eq!(e, Some(RepoError::Parse));
    assert_eq!(RepoError::Parse.status_code(), 400);
    assert_eq!(RepoError::BadRequest.status_code(), 400);
}

#[test]
fn config_validation_and_paths() {
    let mut cfg = config();
    assert_eq!(cfg.validate(), Ok(()));
    cfg.object_store_type = ObjectStoreType::S3;
    assert_eq!(cfg.validate(), Err(RepoError::BadRequest));
    assert_eq!(cfg.cache().cache_dir, "/tmp/subatomic");
    assert_eq!(subatomic::config::object_cache_dir(&cfg), "/tmp/subatomic/objects");
    assert_eq!(Tag::new("foo".to_string()).export_dir(&cfg), "/tmp/subatomic/export/foo");
    assert_eq!(subatomic::cache::Object::new("rpm/x").key, "rpm/x");
}

#[test]
fn prune_deletes_when_configured() {
    let mut db = Db::new();
    let p = package(A, "x", "1", "noarch", "foo");
    let key = p.object_key.clone();
    p.commit_to_db(&mut db, true).unwrap();
    package(B, "y", "1", "noarch", "foo").commit_to_db(&mut db, true).unwrap();
    assert_eq!(mark_rpm_unavailable(&mut db, &config(), B), Ok(None));
    assert!(!available(&db, B));
    let mut cfg = config();
    cfg.delete_when_prune = true;
    assert_eq!(mark_rpm_unavailable(&mut db, &cfg, A), Ok(Some(key)));
    assert_eq!(get_rpm(&db, A).unwrap_err(), RepoError::NotFound);
}

#[test]
fn every_error_has_its_status() {
    assert_eq!(RepoError::Db.status_code(), 500);
    assert_eq!(RepoError::Io.status_code(), 500);
    assert_eq!(RepoError::Backend.status_code(), 500);
    assert_eq!(RepoError::Parse.status_code(), 400);
    assert_eq!(RepoError::NotFound.status_code(), 404);
    assert_eq!(RepoError::Conflict.status_code(), 409);
    assert_eq!(RepoError::GeneratorFailed.status_code(), 500);
    assert_eq!(RepoError::BadRequest.status_code(), 400);
    assert_eq!(RepoError::MissingCacheEntry.status_code(), 500);
    assert_eq!(RepoError::Tag(TagError::NotFound).status_code(), 404);
    assert_eq!(RepoError::Tag(TagError::AlreadyExists).status_code(), 409);
    assert_eq!(RepoError::Tag(TagError::AlreadyExists).message(), "Tag already exists");
}

#[test]
fn planning_with_a_logged_compose_id_conflicts() {
    let mut db = Db::new();
    let cfg = config();
    let tag = Tag::new("foo".to_string());
    tag.save(&mut db);
    let id = "01ARZ3NDEKTSV4RRFFQ69G5FAZ".to_string();
    let plan = tag.plan_assembly(&mut db, &cfg, id.clone()).unwrap();
    assert_eq!(plan.compose.id, id);
    assert_eq!(plan.staging_dir, format!("/tmp/subatomic/repo/foo/foo_{id}"));
    assert_eq!(tag.plan_assembly(&mut db, &cfg, id).err(), Some(RepoError::Conflict));
    assert_eq!(db.all_composes().len(), 1);
}

#[test]
fn absolute_names_replace_the_root() {
    assert_eq!(subatomic::cache::join("/srv/export", "/etc/x"), "/etc/x");
    assert_eq!(Tag::new("/abs".to_string()).export_dir(&config()), "/abs");
}

#[test]
fn upload_of_out_of_bounds_header_is_a_parse_error() {
    let mut b = vec![0u8; 96];
    b[..4].copy_from_slice(&[0xed, 0xab, 0xee, 0xdb]);
    b.extend_from_slice(&[0x8e, 0xad, 0xe8, 0x01, 0, 0, 0, 0, 0x10, 0, 0, 0, 0, 0, 0, 8]);
    let e = upload_rpm(&config(), Some("x.rpm".to_string()), Some(b), Some("foo".to_string())).err();
    assert_eq!(e, Some(RepoError::Parse));
}

#[test]
fn well_formed_records() {
    let p = package(A, "x", "1", "noarch", "foo");
    assert!(p.is_well_formed());
    let mut bad_key = package(A, "x", "1", "noarch", "foo");
    bad_key.object_key = "rpm/elsewhere.rpm".to_string();
    assert!(!bad_key.is_well_formed());
    let mut bad_id = package(A, "x", "1", "noarch", "foo");
    bad_id.id = "not-a-ulid".to_string();
    assert!(!bad_id.is_well_formed());
    assert!(subatomic::ids::check_ulid(A));
    assert!(!subatomic::ids::check_ulid("01ARZ3NDEKTSV4RRFFQ69G5FAI"));
}

#[test]
fn tag_names_must_be_one_component() {
    let mut db = Db::new();
    for name in ["/abs", "../up", "a/b", "..", ""] {
        let req = CreateTag { name: name.to_string(), repo_type: RepoType::Rpm };
        assert_eq!(create_tag(&mut db, &req).err(), Some(RepoError::BadRequest), "{name}");
    }
    assert!(get_all_tags(&db).is_empty());
}
