use birdcage::path_type::{ObjectType, PathType, RegistryView};
use birdcage::wide::WideString;
use windows::Win32::Security::Authorization::{
    SE_FILE_OBJECT, SE_REGISTRY_KEY, SE_REGISTRY_WOW64_32KEY, SE_REGISTRY_WOW64_64KEY,
};

fn wide(text: &str) -> WideString {
    WideString::from_text(text)
}

#[test]
fn prefixes_name_views_of_the_registry() {
    let views = [
        ("REGISTRY:MACHINE\\Software", Some(RegistryView::Native)),
        ("registry:machine", Some(RegistryView::Native)),
        ("ReGiStRy:", Some(RegistryView::Native)),
        ("registry+wow64_32key:x", Some(RegistryView::Wow64_32)),
        ("REGISTRY+WOW64_64KEY:x", Some(RegistryView::Wow64_64)),
        ("REGISTRY", None),
        ("REGISTRY+WOW64_32KEY", None),
        ("REGISTRY;x", None),
        ("C:\\REGISTRY:", None),
        ("", None),
    ];
    for (path, view) in views {
        assert_eq!(RegistryView::of_path(&wide(path)), view, "{}", path);
    }
}

#[test]
fn upper_case_follows_unicode() {
    // The dotless i, the long s and the ligature of s and t turn into ASCII letters.
    assert_eq!(RegistryView::of_path(&wide("reg\u{131}\u{17F}try:")), Some(RegistryView::Native));
    assert_eq!(RegistryView::of_path(&wide("regi\u{FB06}ry:")), Some(RegistryView::Native));
}

#[test]
fn uppercase_text_is_matched_as_it_is() {
    assert_eq!(RegistryView::of_uppercase("REGISTRY:A"), Some(RegistryView::Native));
    assert_eq!(RegistryView::of_uppercase("registry:a"), None);
    assert_eq!(RegistryView::of_uppercase("REGISTRY+WOW64_32KEY:"), Some(RegistryView::Wow64_32));
    assert_eq!(RegistryView::of_uppercase("REGISTRY+WOW64_64KEY:"), Some(RegistryView::Wow64_64));
}

#[test]
fn paths_that_are_not_unicode_are_files() {
    let mut units = wide("REGISTRY:").encode_wide().clone();
    units.push(0xD800);
    let path = WideString::from_wide(units);
    assert_eq!(RegistryView::of_path(&path), None);
    assert!(matches!(PathType::from_exception(&path, None), PathType::Filesystem(p) if p == path));
}

#[test]
fn files_go_by_their_canonical_path() {
    let link = wide("C:\\link");
    let target = wide("\\\\?\\C:\\target");
    let resolved = PathType::from_exception(&link, Some(target.clone()));
    assert_eq!(resolved.path(), target);
    assert_eq!(resolved.object_type(), ObjectType::FileObject);
    let unresolved = PathType::from_exception(&link, None);
    assert_eq!(unresolved.path(), link);
}

#[test]
fn registry_paths_stand_for_themselves() {
    for (path, object_type) in [
        ("Registry:MACHINE\\A", ObjectType::RegistryKey),
        ("Registry+Wow64_32Key:MACHINE\\A", ObjectType::RegistryWow64_32Key),
        ("Registry+Wow64_64Key:MACHINE\\A", ObjectType::RegistryWow64_64Key),
    ] {
        let path = wide(path);
        let path_type = PathType::from_exception(&path, Some(wide("C:\\elsewhere")));
        assert_eq!(path_type.path(), path);
        assert_eq!(path_type.object_type(), object_type);
    }
}

#[test]
fn key_names_come_without_the_prefix() {
    assert_eq!(RegistryView::Native.key_name(&wide("registry:MACHINE\\A")), wide("MACHINE\\A"));
    assert_eq!(
        RegistryView::Wow64_32.key_name(&wide("REGISTRY+WOW64_32KEY:USERS")),
        wide("USERS")
    );
    assert_eq!(
        RegistryView::Wow64_64.key_name(&wide("REGISTRY+WOW64_64KEY:USERS")),
        wide("USERS")
    );
    // As many units are dropped as the prefix has characters, even where the path has fewer.
    assert_eq!(RegistryView::Native.key_name(&wide("regi\u{FB06}ry:")), wide(""));
    assert_eq!(RegistryView::Native.key_name(&wide("regi\u{FB06}ry:AB")), wide("B"));
}

#[test]
fn object_types_have_the_numbers_of_the_system() {
    assert_eq!(ObjectType::FileObject.code(), 1);
    assert_eq!(ObjectType::FileObject.code(), SE_FILE_OBJECT.0);
    assert_eq!(ObjectType::RegistryKey.code(), SE_REGISTRY_KEY.0);
    assert_eq!(ObjectType::RegistryWow64_32Key.code(), SE_REGISTRY_WOW64_32KEY.0);
    assert_eq!(ObjectType::RegistryWow64_64Key.code(), SE_REGISTRY_WOW64_64KEY.0);
    assert_eq!(RegistryView::Native.object_type(), ObjectType::RegistryKey);
    assert_eq!(RegistryView::Wow64_32.object_type(), ObjectType::RegistryWow64_32Key);
    assert_eq!(RegistryView::Wow64_64.object_type(), ObjectType::RegistryWow64_64Key);
}

#[test]
fn access_depends_on_what_the_path_names() {
    let file = PathType::from_exception(&wide("C:\\a"), None);
    assert_eq!(file.access_mask(true, false, true), 0x12_01FF);
    assert_eq!(file.access_mask(true, false, false), 0x12_019F);
    let key = PathType::from_exception(&wide("REGISTRY:A"), None);
    assert_eq!(key.access_mask(true, false, true), 0x2_001F);
    assert_eq!(key.access_mask(false, true, false), 0x2_0019);
}
