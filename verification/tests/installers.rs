use transport::installers::classify_installers;
use transport::installers::is_known_platform;
use transport::installers::matches_platform;

fn classify(names: &[&str]) -> Vec<String> {
    classify_installers(&names.iter().map(|n| n.to_string()).collect()).available
}

#[test]
fn each_extension_maps_to_its_platform() {
    assert_eq!(classify(&["setup.exe"]), vec!["windows"]);
    assert_eq!(classify(&["setup.msi"]), vec!["windows"]);
    assert_eq!(classify(&["app.dmg"]), vec!["macos"]);
    assert_eq!(classify(&["app.apk"]), vec!["android"]);
}

#[test]
fn extensions_match_case_insensitively() {
    // Names that only match once lowercased.
    assert_eq!(classify(&["Setup.EXE"]), vec!["windows"]);
    assert_eq!(classify(&["App.Dmg"]), vec!["macos"]);
}

#[test]
fn each_platform_is_listed_once() {
    let available = classify(&["a.exe", "b.msi", "c.exe", "d.dmg", "e.dmg", "f.apk"]);
    assert_eq!(available, vec!["windows", "macos", "android"]);
}

#[test]
fn unrelated_files_yield_nothing() {
    assert!(classify(&["readme.txt", "exe", "apkfile", "archive.zip"]).is_empty());
}

#[test]
fn only_the_three_platforms_are_known() {
    assert!(is_known_platform(&"windows".to_string()));
    assert!(is_known_platform(&"macos".to_string()));
    assert!(is_known_platform(&"android".to_string()));
    assert!(!is_known_platform(&"linux".to_string()));
    assert!(!is_known_platform(&"".to_string()));
}

#[test]
fn platform_matching_is_by_extension() {
    let windows = "windows".to_string();
    let macos = "macos".to_string();
    let android = "android".to_string();
    assert!(matches_platform(&"Setup.EXE".to_string(), &windows));
    assert!(matches_platform(&"setup.msi".to_string(), &windows));
    assert!(!matches_platform(&"setup.msi".to_string(), &macos));
    assert!(matches_platform(&"App.dmg".to_string(), &macos));
    assert!(matches_platform(&"app.apk".to_string(), &android));
    assert!(!matches_platform(&"app.apk".to_string(), &"linux".to_string()));
}
