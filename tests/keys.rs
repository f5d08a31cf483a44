use rpm::DependencyFlags as F;
use subatomic::cache::{join, Cache};
use subatomic::deps::{
    dependency_flag, PkgDependency, FIND_PROVIDES, FIND_REQUIRES, MISSINGOK, POSTUNTRANS,
    PREUNTRANS, SCRIPT_POST, SCRIPT_POSTUN, SCRIPT_PRE, SCRIPT_PREUN, SCRIPT_VERIFY, TRIGGERIN,
    TRIGGERPOSTUN, TRIGGERUN,
};
use subatomic::store::{StoreAction, StoreEvent, StoreOp, StoreTask};
use subatomic::errors::RepoError;
use subatomic::keys::{file_name, get_rpm_path, get_split_id_string, rpm_object_key, Nevra};

const ID: &str = "01ARZ3NDEKTSV4RRFFQ69G5FAV";

fn nevra() -> Nevra {
    Nevra {
        name: "anda-srpm-macros".to_string(),
        epoch: 0,
        version: "0.2.6".to_string(),
        release: "1.fc41".to_string(),
        arch: "noarch".to_string(),
    }
}

#[test]
fn split_id_uses_first_two_characters() {
    assert_eq!(get_split_id_string(ID), format!("0/1/{ID}"));
    assert_eq!(get_split_id_string("ab"), "a/b/ab");
}

#[test]
fn rpm_path_formats_nevra() {
    assert_eq!(
        get_rpm_path("anda-srpm-macros", 0, "0.2.6", "1.fc41", "noarch"),
        "anda-srpm-macros-0:0.2.6-1.fc41.noarch.rpm"
    );
    assert_eq!(get_rpm_path("foo", 12, "1.0", "3", "x86_64"), "foo-12:1.0-3.x86_64.rpm");
    assert_eq!(
        get_rpm_path("bar", 4294967295, "2", "1", "aarch64"),
        "bar-4294967295:2-1.aarch64.rpm"
    );
}

#[test]
fn object_and_signed_keys() {
    let (key, signed) = rpm_object_key(ID, &nevra());
    assert_eq!(key, format!("rpm/0/1/{ID}/anda-srpm-macros-0:0.2.6-1.fc41.noarch.rpm"));
    assert_eq!(
        signed,
        format!("rpm/0/1/{ID}/signed/anda-srpm-macros-0:0.2.6-1.fc41.noarch.rpm")
    );
}

#[test]
fn file_name_is_last_component() {
    assert_eq!(file_name("rpm/a/b/c.rpm"), "c.rpm");
    assert_eq!(file_name("plain"), "plain");
    assert_eq!(file_name("dir/"), "");
    assert_eq!(file_name(""), "");
}

#[test]
fn flag_masks_match_rpm_crate() {
    assert_eq!(SCRIPT_PRE, F::SCRIPT_PRE.bits());
    assert_eq!(SCRIPT_POST, F::SCRIPT_POST.bits());
    assert_eq!(SCRIPT_PREUN, F::SCRIPT_PREUN.bits());
    assert_eq!(SCRIPT_POSTUN, F::SCRIPT_POSTUN.bits());
    assert_eq!(SCRIPT_VERIFY, F::SCRIPT_VERIFY.bits());
    assert_eq!(FIND_REQUIRES, F::FIND_REQUIRES.bits());
    assert_eq!(FIND_PROVIDES, F::FIND_PROVIDES.bits());
    assert_eq!(TRIGGERIN, F::TRIGGERIN.bits());
    assert_eq!(TRIGGERUN, F::TRIGGERUN.bits());
    assert_eq!(TRIGGERPOSTUN, F::TRIGGERPOSTUN.bits());
    assert_eq!(MISSINGOK, F::MISSINGOK.bits());
    assert_eq!(PREUNTRANS, F::PREUNTRANS.bits());
    assert_eq!(POSTUNTRANS, F::POSTUNTRANS.bits());
}

#[test]
fn first_flag_in_canonical_order_wins() {
    assert_eq!(dependency_flag(0), None);
    assert_eq!(dependency_flag(rpm::DependencyFlags::GE.bits()), None);
    assert_eq!(dependency_flag(SCRIPT_PRE), Some("scriptpre".to_string()));
    assert_eq!(dependency_flag(SCRIPT_POST | SCRIPT_PRE), Some("scriptpre".to_string()));
    assert_eq!(dependency_flag(MISSINGOK | TRIGGERUN), Some("triggerun".to_string()));
    assert_eq!(dependency_flag(POSTUNTRANS | 0x8), Some("postuntrans".to_string()));
    assert_eq!(dependency_flag(FIND_PROVIDES | PREUNTRANS), Some("findprovides".to_string()));
    assert_eq!(dependency_flag(u32::MAX), Some("scriptpre".to_string()));
}

#[test]
fn dependency_version_absent_when_empty() {
    let d = PkgDependency::new("glibc".to_string(), SCRIPT_POSTUN, String::new());
    assert_eq!(d.name, "glibc");
    assert_eq!(d.version, None);
    assert_eq!(d.flag, Some("scriptpostun".to_string()));
    let e = PkgDependency::new("bash".to_string(), 0x8, "5.2".to_string());
    assert_eq!(e.version, Some("5.2".to_string()));
    assert_eq!(e.flag, None);
}

#[test]
fn cache_paths() {
    let c = Cache::new("/var/cache/sub".to_string());
    assert_eq!(c.entry_path("rpm/a/b/x.rpm"), "/var/cache/sub/rpm/a/b/x.rpm");
    assert_eq!(join("/srv/", "x"), "/srv/x");
    assert_eq!(
        c.prune_dirs("rpm/a/b/x.rpm"),
        vec![
            "/var/cache/sub/rpm/a/b".to_string(),
            "/var/cache/sub/rpm/a".to_string(),
            "/var/cache/sub/rpm".to_string()
        ]
    );
    assert!(c.prune_dirs("x.rpm").is_empty());
    assert_eq!(c.key_of("/var/cache/sub/rpm/a/x.rpm"), Some("rpm/a/x.rpm".to_string()));
    assert_eq!(c.key_of("/elsewhere/x.rpm"), None);
}

#[test]
fn cache_get_checks_the_filesystem() {
    let root = Cache::new("/".to_string());
    assert_eq!(root.get("tmp"), Some("/tmp".to_string()));
    let c = Cache::new("/nonexistent-cache-dir-for-tests".to_string());
    assert_eq!(c.get("rpm/x.rpm"), None);
}

#[test]
fn list_cached_keeps_files_under_the_cache() {
    let c = Cache::new("/var/cache/sub".to_string());
    let files = vec![
        "/var/cache/sub/rpm/a/b/x.rpm".to_string(),
        "/other/y.rpm".to_string(),
        "/var/cache/sub/z".to_string(),
    ];
    assert_eq!(c.list_cached(&files), vec!["rpm/a/b/x.rpm".to_string(), "z".to_string()]);
    assert!(c.list_cached(&vec![]).is_empty());
}

#[test]
fn store_put_uploads_then_installs() {
    let (mut t, a) = StoreTask::start(StoreOp::Put);
    assert_eq!(a, StoreAction::Upload);
    assert_eq!(t.on_event(StoreEvent::Done), StoreAction::Install);
    assert_eq!(t.on_event(StoreEvent::Done), StoreAction::Succeed);
}

#[test]
fn store_get_reads_through() {
    let (mut hit, a) = StoreTask::start(StoreOp::Get);
    assert_eq!(a, StoreAction::CheckCache);
    assert_eq!(hit.on_event(StoreEvent::Hit), StoreAction::Succeed);
    let (mut miss, _) = StoreTask::start(StoreOp::Get);
    assert_eq!(miss.on_event(StoreEvent::Miss), StoreAction::Fetch);
    assert_eq!(miss.on_event(StoreEvent::Done), StoreAction::Install);
    assert_eq!(miss.on_event(StoreEvent::Done), StoreAction::Succeed);
}

#[test]
fn store_refresh_evicts_then_fetches() {
    let (mut t, a) = StoreTask::start(StoreOp::Refresh);
    assert_eq!(a, StoreAction::Evict);
    assert_eq!(t.on_event(StoreEvent::Done), StoreAction::Fetch);
    assert_eq!(t.on_event(StoreEvent::Done), StoreAction::Install);
    assert_eq!(t.on_event(StoreEvent::Done), StoreAction::Succeed);
}

#[test]
fn store_put_bytes_needs_cache_entry() {
    let (mut t, _) = StoreTask::start(StoreOp::PutBytes);
    assert_eq!(t.on_event(StoreEvent::Done), StoreAction::CheckCache);
    assert_eq!(t.on_event(StoreEvent::Miss), StoreAction::Fail(RepoError::MissingCacheEntry));
}

#[test]
fn store_remove_keeps_cache_when_backend_fails() {
    let (mut t, a) = StoreTask::start(StoreOp::Remove);
    assert_eq!(a, StoreAction::Delete);
    assert_eq!(t.on_event(StoreEvent::Failed(RepoError::Backend)), StoreAction::Fail(RepoError::Backend));
    let (mut ok, _) = StoreTask::start(StoreOp::Remove);
    assert_eq!(ok.on_event(StoreEvent::Done), StoreAction::Evict);
    assert_eq!(ok.on_event(StoreEvent::Done), StoreAction::Succeed);
}
