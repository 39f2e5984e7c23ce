use alic::errors::CompressErrorType;
use alic::format::ImageType;
use alic::pipeline::{
    check_savings, plan_compression, reported_size, Commit, CommitEvent, CommitPhase, CommitStep,
    FileTime,
};
use alic::settings::{default_avif_quality, default_color, ProfileData, SettingsData, ThemeKind};

fn commit(source: &str, out: &str, keep: bool) -> Commit {
    Commit {
        source_path: source.to_string(),
        out_path: out.to_string(),
        out_size: 96,
        keep_timestamps: keep,
        modified: FileTime { secs: 5, nanos: 6 },
        created: FileTime { secs: 3, nanos: 4 },
        phase: CommitPhase::Begin,
    }
}

#[test]
fn savings_threshold_at_ninety_six_percent() {
    let e = check_savings(false, 100, 96).err().unwrap();
    assert_eq!(e.error_type, CompressErrorType::NotSmaller);
    assert!(check_savings(true, 100, 96).is_ok());
    assert!(check_savings(false, 100, 95).is_ok());
    assert!(check_savings(false, 1000, 951).is_err());
    assert!(check_savings(false, u64::MAX, u64::MAX).is_err());
}

#[test]
fn trash_comes_before_write_when_replacing() {
    let mut c = commit("a/b.png", "a/b.png", true);
    match c.next(CommitEvent::Start) {
        CommitStep::Trash(p) => assert_eq!(p, "a/b.png".to_string()),
        other => panic!("expected a trash step, got {:?}", other),
    }
    match c.next(CommitEvent::Trashed) {
        CommitStep::Write(p) => assert_eq!(p, "a/.b.png".to_string()),
        other => panic!("expected a write step, got {:?}", other),
    }
    match c.next(CommitEvent::Written) {
        CommitStep::Rename(from, to) => {
            assert_eq!(from, "a/.b.png".to_string());
            assert_eq!(to, "a/b.png".to_string());
        }
        other => panic!("expected a rename step, got {:?}", other),
    }
    match c.next(CommitEvent::Renamed) {
        CommitStep::SetTimes(p, m, cr) => {
            assert_eq!(p, "a/b.png".to_string());
            assert_eq!(m, FileTime { secs: 5, nanos: 6 });
            assert_eq!(cr, FileTime { secs: 3, nanos: 4 });
        }
        other => panic!("expected a timestamp step, got {:?}", other),
    }
    match c.next(CommitEvent::TimesSet) {
        CommitStep::Done(r) => {
            assert_eq!(r.path, "a/b.png".to_string());
            assert_eq!(r.out_path, "a/b.png".to_string());
            assert_eq!(r.out_size, 96);
            assert_eq!(r.result, "Success".to_string());
        }
        other => panic!("expected success, got {:?}", other),
    }
}

#[test]
fn failed_trash_writes_nothing() {
    let mut c = commit("a/b.png", "a/b.png", false);
    assert!(matches!(c.next(CommitEvent::Start), CommitStep::Trash(_)));
    match c.next(CommitEvent::TrashFailed("denied".to_string())) {
        CommitStep::Fail(e) => {
            assert_eq!(e.error_type, CompressErrorType::Unknown);
            assert_eq!(e.error, "denied".to_string());
        }
        other => panic!("expected failure, got {:?}", other),
    }
    assert_eq!(c.phase, CommitPhase::Finished);
    assert!(matches!(c.next(CommitEvent::Trashed), CommitStep::Fail(_)));
}

#[test]
fn distinct_output_is_written_directly() {
    let mut c = commit("a/b.png", "a/b.min.png", false);
    match c.next(CommitEvent::Start) {
        CommitStep::Write(p) => assert_eq!(p, "a/.b.min.png".to_string()),
        other => panic!("expected a write step, got {:?}", other),
    }
    assert!(matches!(c.next(CommitEvent::Written), CommitStep::Rename(..)));
    assert!(matches!(c.next(CommitEvent::Renamed), CommitStep::Done(_)));
    let mut c = commit("a/b.png", "a/b.min.png", false);
    c.next(CommitEvent::Start);
    match c.next(CommitEvent::WriteFailed("disk".to_string())) {
        CommitStep::Fail(e) => assert_eq!(e.error, "disk".to_string()),
        other => panic!("expected failure, got {:?}", other),
    }
    assert!(matches!(c.next(CommitEvent::Written), CommitStep::Fail(_)));
    let mut c = commit("a/b.png", "a/b.min.png", false);
    c.next(CommitEvent::Start);
    c.next(CommitEvent::Written);
    assert!(matches!(c.next(CommitEvent::RenameFailed("busy".to_string())), CommitStep::Fail(_)));
}

#[test]
fn plan_guards_overwrites() {
    let mut p = ProfileData::new();
    p.add_postfix = false;
    let e = plan_compression(&p, "x/y.png", ImageType::PNG).err().unwrap();
    assert_eq!(e.error_type, CompressErrorType::WontOverwrite);
    p.should_overwrite = true;
    let plan = plan_compression(&p, "x/y.png", ImageType::PNG).ok().unwrap();
    assert_eq!(plan.out_path, "x/y.png".to_string());
    assert!(!plan.converted);
    p.should_convert = true;
    p.convert_extension = ImageType::PNG;
    let plan = plan_compression(&p, "x/y.png", ImageType::PNG).ok().unwrap();
    assert!(!plan.converted);
}

#[test]
fn reported_size_saturates() {
    assert_eq!(reported_size(7), 7);
    assert_eq!(reported_size(usize::MAX), u32::MAX);
}

#[test]
fn default_settings() {
    let p = ProfileData::new();
    assert_eq!(p.name, "Default".to_string());
    assert_eq!(p.postfix, ".min".to_string());
    assert_eq!(p.background_fill, "#000".to_string());
    assert_eq!(p.convert_extension, ImageType::WEBP);
    assert!(p.active && p.add_postfix && p.enable_lossy && p.keep_metadata);
    assert_eq!((p.resize_width, p.resize_height, p.avif_quality), (1000, 1000, 80));
    let q = ProfileData::new_with_params(7, "Web".to_string());
    assert_eq!((q.id, q.name.as_str(), q.active), (7, "Web", false));
    let s = SettingsData::new();
    assert_eq!((s.version, s.threads, s.profiles.len()), (1, 0, 1));
    assert_eq!(s.theme, ThemeKind::System);
    assert_eq!(default_avif_quality(), 80);
    assert_eq!(default_color(), "#000".to_string());
}
