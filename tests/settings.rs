use alic::settings::{add_profile, decimal, delete_profile, reset_profile, ProfileData, SettingsData};

fn with_profiles() -> SettingsData {
    let mut s = SettingsData::new();
    let mut web = ProfileData::new_with_params(4, "Web".to_string());
    web.jpeg_quality = 20;
    web.should_resize = true;
    s.profiles.push(web);
    s.profiles.push(ProfileData::new_with_params(2, "Print".to_string()));
    s
}

#[test]
fn decimal_writes_numbers() {
    assert_eq!(decimal(0), "0".to_string());
    assert_eq!(decimal(7), "7".to_string());
    assert_eq!(decimal(1234), "1234".to_string());
    assert_eq!(decimal(u64::MAX), u64::MAX.to_string());
}

#[test]
fn reset_restores_defaults_but_keeps_name_and_id() {
    let mut s = with_profiles();
    reset_profile(&mut s, 4).unwrap();
    let p = &s.profiles[1];
    assert_eq!((p.id, p.name.as_str(), p.active), (4, "Web", false));
    assert_eq!(p.jpeg_quality, 80);
    assert!(!p.should_resize);
    assert_eq!(s.profiles.len(), 3);
    assert!(reset_profile(&mut s, 99).is_err());
}

#[test]
fn delete_keeps_the_default_profile() {
    let mut s = with_profiles();
    assert!(delete_profile(&mut s, 0).is_err());
    assert_eq!(s.profiles.len(), 3);
    delete_profile(&mut s, 4).unwrap();
    assert_eq!(s.profiles.iter().map(|p| p.id).collect::<Vec<_>>(), vec![0, 2]);
    delete_profile(&mut s, 42).unwrap();
    assert_eq!(s.profiles.len(), 2);
}

#[test]
fn add_takes_next_id_and_a_distinct_name() {
    let mut s = with_profiles();
    add_profile(&mut s, "Mobile".to_string()).unwrap();
    let p = s.profiles.last().unwrap();
    assert_eq!((p.id, p.name.as_str(), p.active), (5, "Mobile", false));
    add_profile(&mut s, "Web".to_string()).unwrap();
    let p = s.profiles.last().unwrap();
    assert_eq!((p.id, p.name.as_str()), (6, "Web (2)"));
    let mut full = SettingsData::new();
    full.profiles[0].id = u32::MAX;
    assert!(add_profile(&mut full, "x".to_string()).is_err());
    assert_eq!(full.profiles.len(), 1);
}
