use openvst3::bundle::{
    first_file, platform_subdir, BundlePath, BundleSnapshot, FileEntry, HostArch, HostOs,
    Platform,
};
use openvst3::HostError;

fn synthetic_bundle(entries: Option<Vec<FileEntry>>) -> BundleSnapshot {
    BundleSnapshot {
        display: String::from("Synth.vst3"),
        is_dir: true,
        extension: Some(String::from("vst3")),
        platform_entries: entries,
    }
}

#[test]
fn resolve_returns_platform_binary() {
    let snap = synthetic_bundle(Some(vec![
        FileEntry { name: String::from("Synth.vst3/Contents/x86_64-linux/notes"), is_file: false },
        FileEntry {
            name: String::from("Synth.vst3/Contents/x86_64-linux/Synth.so"),
            is_file: true,
        },
    ]));
    let bin = BundlePath::resolve(&snap).unwrap();
    assert_eq!(bin, "Synth.vst3/Contents/x86_64-linux/Synth.so");
}

#[test]
fn resolve_missing_platform_subdir_fails() {
    let snap = synthetic_bundle(None);
    assert!(matches!(BundlePath::resolve(&snap), Err(HostError::BinaryNotFound)));
}

#[test]
fn resolve_empty_platform_subdir_fails() {
    let snap = synthetic_bundle(Some(Vec::new()));
    assert!(matches!(BundlePath::resolve(&snap), Err(HostError::BinaryNotFound)));
    let only_dirs = synthetic_bundle(Some(vec![FileEntry {
        name: String::from("Synth.vst3/Contents/x86_64-linux/extras"),
        is_file: false,
    }]));
    assert!(matches!(BundlePath::resolve(&only_dirs), Err(HostError::BinaryNotFound)));
}

#[test]
fn resolve_rejects_wrong_extension() {
    let mut snap = synthetic_bundle(Some(Vec::new()));
    snap.extension = Some(String::from("vst"));
    match BundlePath::resolve(&snap) {
        Err(HostError::InvalidBundle(shown)) => assert_eq!(shown, "Synth.vst3"),
        _ => panic!("expected an invalid-bundle error"),
    }
}

#[test]
fn resolve_rejects_non_directory() {
    let mut snap = synthetic_bundle(Some(Vec::new()));
    snap.is_dir = false;
    assert!(matches!(BundlePath::resolve(&snap), Err(HostError::InvalidBundle(_))));
}

#[test]
fn first_file_picks_earliest_regular_file() {
    let entries = vec![
        FileEntry { name: String::from("a"), is_file: false },
        FileEntry { name: String::from("b"), is_file: true },
        FileEntry { name: String::from("c"), is_file: true },
    ];
    assert_eq!(first_file(&entries).unwrap(), "b");
    assert!(first_file(&Vec::new()).is_none());
}

#[test]
fn platform_subdir_names() {
    let mac = Platform { os: HostOs::MacOs, arch: HostArch::Aarch64 };
    assert_eq!(platform_subdir(&mac), "MacOS");
    let linux64 = Platform { os: HostOs::Linux, arch: HostArch::X86_64 };
    assert_eq!(platform_subdir(&linux64), "x86_64-linux");
    let linux_arm = Platform { os: HostOs::Linux, arch: HostArch::Aarch64 };
    assert_eq!(platform_subdir(&linux_arm), "aarch64-linux");
    let linux_other = Platform { os: HostOs::Linux, arch: HostArch::Other };
    assert_eq!(platform_subdir(&linux_other), "unknown-linux");
    let win64 = Platform { os: HostOs::Windows, arch: HostArch::X86_64 };
    assert_eq!(platform_subdir(&win64), "x86_64-win");
    let win32 = Platform { os: HostOs::Windows, arch: HostArch::X86 };
    assert_eq!(platform_subdir(&win32), "x86-win");
}
