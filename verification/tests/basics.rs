use dsh_desktop::host::Platform;
use dsh_desktop::npm::{npm_version_from, publish_time_from};
use dsh_desktop::paths::{
    extension, file_name, is_absolute, join_path, parent, same_path, temporary_path,
};
use dsh_desktop::schedule::{is_due, FAILED_RETRY_SECS};
use dsh_desktop::text::{behind_last, contains, count, join};
use dsh_desktop::trim::{decimal_text, lines, lower, replace, split_at_first, trim, word};
use dsh_desktop::version::{
    compare_version_texts, order_versions, supported_node_release, version_is_newer, VersionOrder,
    VersionParts,
};

const DAY: u64 = 24 * 60 * 60;

#[test]
fn a_check_is_due_after_its_times_and_stays_due() {
    assert!(is_due(None, None, 0, DAY));
    for now in [0, 1, FAILED_RETRY_SECS - 1] {
        assert!(!is_due(None, Some(0), now, DAY));
    }
    assert!(is_due(None, Some(0), FAILED_RETRY_SECS, DAY));
    assert!(!is_due(Some(0), None, DAY - 1, DAY));
    assert!(is_due(Some(0), None, DAY, DAY));
    assert!(is_due(Some(0), Some(0), u64::MAX, DAY));
    // A clock that was set back counts as no time passed.
    assert!(!is_due(Some(1_000_000), None, 5, DAY));
}

#[test]
fn paths_are_joined_and_taken_apart() {
    for (root, relative, platform, joined) in [
        ("/a", "b", Platform::Other, "/a/b"),
        ("/a/", "b/c", Platform::Other, "/a/b/c"),
        ("/a", "/b", Platform::Other, "/b"),
        ("", "b", Platform::Other, "b"),
        ("C:\\a", "b", Platform::Windows, "C:\\a\\b"),
        ("C:\\a", "\\b", Platform::Windows, "C:\\b"),
        ("C:\\a", "D:\\b", Platform::Windows, "D:\\b"),
        ("C:", "b", Platform::Windows, "C:b"),
    ] {
        assert_eq!(join_path(root, relative, platform), joined);
    }
    for path in [
        "/a/b", "/a/b/", "a", "/", "//", "", "..", "/a/..", "a/./", ".", "./", "./.", "./a", "/.",
        "a/.", "a//b", "/./a", "../..", "x/y.tar.gz", ".rc", "C:\\a", "C:",
    ] {
        let real = std::path::Path::new(path);
        let text = |part: Option<&std::path::Path>| {
            part.map(|part| part.to_string_lossy().into_owned())
        };
        assert_eq!(parent(path, Platform::Other), text(real.parent()), "{path}");
        assert_eq!(
            file_name(path, Platform::Other),
            real.file_name().map(|name| name.to_string_lossy().into_owned()),
            "{path}"
        );
        assert_eq!(
            extension(path, Platform::Other),
            real.extension().map(|name| name.to_string_lossy().into_owned()),
            "{path}"
        );
        assert_eq!(is_absolute(path, Platform::Other), real.is_absolute());
        for other in ["/a/b", "/a//b/.", "a", "./a", ".", "", "/"] {
            assert_eq!(
                same_path(path, other, Platform::Other),
                real == std::path::Path::new(other),
                "{path} {other}"
            );
        }
    }
    assert_eq!(temporary_path("/s/state.json"), "/s/state.json.tmp");
}

#[test]
fn windows_paths_begin_with_a_drive_a_share_or_a_device() {
    for path in [
        "C:/a",
        "c:\\",
        "\\\\server\\share",
        "//server/share",
        "\\\\server/share\\a",
        "\\\\.\\COM1",
        "\\\\?\\C:\\a",
        "\\\\?\\UNC\\server\\share",
    ] {
        assert!(is_absolute(path, Platform::Windows), "{path}");
    }
    for path in ["C:a", "C:", "\\\\foo", "\\\\foo\\", "\\a", "/a", "a", "", "1:\\a"] {
        assert!(!is_absolute(path, Platform::Windows), "{path}");
    }
    for (path, directory, name) in [
        ("C:\\a", Some("C:\\"), Some("a")),
        ("C:\\", None, None),
        ("C:", None, None),
        ("C:a", Some("C:"), Some("a")),
        ("C:.", Some("C:"), None),
        ("C:\\a\\b\\", Some("C:\\a"), Some("b")),
        ("C:/a/./b/.", Some("C:/a"), Some("b")),
        ("C:\\a\\..", Some("C:\\a"), None),
        ("\\\\server\\share", None, None),
        ("\\\\server\\share\\", None, None),
        ("\\\\server\\share\\a", Some("\\\\server\\share\\"), Some("a")),
        ("\\\\?\\C:\\a", Some("\\\\?\\C:\\"), Some("a")),
        ("\\\\?\\C:\\a\\b/c", Some("\\\\?\\C:\\a"), Some("b/c")),
        ("\\\\?\\C:\\a\\.", Some("\\\\?\\C:\\a"), None),
        ("\\a", Some("\\"), Some("a")),
        ("a", Some(""), Some("a")),
    ] {
        assert_eq!(parent(path, Platform::Windows).as_deref(), directory, "{path}");
        assert_eq!(file_name(path, Platform::Windows).as_deref(), name, "{path}");
    }
    for (root, relative, joined) in [
        ("C:\\x", "D:foo", "D:foo"),
        ("C:\\x", "//server/share/a", "//server/share/a"),
        ("\\\\server\\share\\x", "\\a", "\\\\server\\share\\a"),
        ("C:\\", "a", "C:\\a"),
        ("C:/x", "a/b", "C:/x\\a/b"),
        ("\\\\?\\C:\\x", "a/b", "\\\\?\\C:\\x\\a\\b"),
        ("\\\\?\\C:\\x", "..\\.\\b", "\\\\?\\C:\\b"),
        ("\\\\?\\C:\\x", "\\b", "\\\\?\\C:\\b"),
        ("\\\\?\\C:\\x", "", "\\\\?\\C:\\x\\"),
        ("\\\\?\\C:", "..", "\\\\?\\C:"),
        ("\\\\?\\C:", "a", "\\\\?\\C:\\a"),
    ] {
        assert_eq!(join_path(root, relative, Platform::Windows), joined);
    }
    for (left, right, equal) in [
        ("c:\\a\\b", "C:/a//b/.", true),
        ("C:\\a", "C:a", false),
        ("C:\\a", "C:\\A", false),
        ("\\\\server\\share", "//server/share/", true),
        ("\\\\?\\C:\\a", "\\\\?\\c:\\a", true),
        ("\\\\?\\C:\\a", "C:\\a", false),
        ("\\\\?\\UNC\\s\\t\\a", "\\\\?\\UNC/s\\t\\a", true),
        ("\\\\?\\x\\a", "//?/x/a", false),
        (".\\a", "a", false),
    ] {
        assert_eq!(same_path(left, right, Platform::Windows), equal, "{left} {right}");
    }
}

#[test]
fn texts_are_searched_and_cut_as_the_standard_library_does() {
    for text in ["", " ", "\u{3000}a b\t", "a\r\nb\n\nc", "=a", "k=v=w", "ÄB", "aaa", "x\r"] {
        assert_eq!(trim(text), text.trim());
        assert_eq!(word(text).as_deref(), text.split_whitespace().next());
        assert_eq!(lines(text), text.lines().collect::<Vec<_>>());
        assert_eq!(lower(text), text.to_ascii_lowercase());
        assert_eq!(replace(text, 'a', "''"), text.replace('a', "''"));
        assert_eq!(
            split_at_first(text, '='),
            text.split_once('=').map(|(a, b)| (a.to_string(), b.to_string()))
        );
        for needle in ["a", "aa", "=", "b\n"] {
            assert_eq!(contains(text, needle), text.contains(needle));
            assert_eq!(count(text, needle), text.matches(needle).count());
            assert_eq!(
                behind_last(text, needle).as_deref(),
                text.rsplit_once(needle).map(|(_, rest)| rest)
            );
        }
    }
    for number in [0, 7, 10, 1_700_000_000, u64::MAX] {
        assert_eq!(decimal_text(number), number.to_string());
    }
    assert_eq!(join(&vec!["a".to_string(), "b".to_string()], "、"), "a、b");
    assert_eq!(join(&Vec::new(), "、"), "");
}

fn parts(major: u64, minor: u64, patch: u64, pre: &str, build: &str) -> VersionParts {
    VersionParts {
        major,
        minor,
        patch,
        pre: pre.to_string(),
        build: build.to_string(),
    }
}

#[test]
fn versions_are_ordered_as_semver_orders_them() {
    let ordered = [
        parts(0, 9, 9, "", ""),
        parts(1, 0, 0, "alpha", ""),
        parts(1, 0, 0, "alpha.1", ""),
        parts(1, 0, 0, "alpha.beta", ""),
        parts(1, 0, 0, "rc.2", ""),
        parts(1, 0, 0, "rc.9", ""),
        parts(1, 0, 0, "rc.10", ""),
        parts(1, 0, 0, "", ""),
        parts(1, 0, 0, "", "0"),
        parts(1, 0, 0, "", "00"),
        parts(1, 0, 0, "", "1"),
        parts(1, 0, 0, "", "01"),
        parts(1, 0, 0, "", "2"),
        parts(1, 0, 0, "", "10"),
        parts(1, 0, 0, "", "build"),
        parts(1, 0, 0, "", "build.2"),
        parts(1, 0, 0, "", "build.10"),
        parts(1, 0, 1, "", ""),
    ];
    for (i, left) in ordered.iter().enumerate() {
        for (j, right) in ordered.iter().enumerate() {
            let order = order_versions(left, right);
            match order {
                VersionOrder::Older => assert!(i < j),
                VersionOrder::Same => assert_eq!(i, j),
                VersionOrder::Newer => assert!(i > j),
            }
        }
    }
    assert!(matches!(
        compare_version_texts("1.0.0-rc.10", "1.0.0-rc.2"),
        Ok(VersionOrder::Newer)
    ));
    assert!(!version_is_newer("1.0.0", "1.0.0"));
    assert!(!version_is_newer("one", "1.0.0"));
    assert!(supported_node_release(&parts(22, 19, 1, "rc.1", "")));
    assert!(!supported_node_release(&parts(22, 19, 0, "rc.1", "")));
}

#[test]
fn npm_answers_are_read_from_their_parts() {
    assert_eq!(
        npm_version_from(Some(" 1 ".to_string()), "ignored"),
        Ok(" 1 ".to_string())
    );
    assert_eq!(npm_version_from(None, " \"1.0.0\" \n"), Ok("1.0.0".to_string()));
    assert_eq!(
        npm_version_from(None, " \"\" "),
        Err("npm view 返回了空版本".to_string())
    );
    let times = || {
        Ok(Some(vec![
            ("a".to_string(), Some("2026T0Z".to_string())),
            ("b".to_string(), None),
            ("c".to_string(), Some("2026Z".to_string())),
        ]))
    };
    assert_eq!(publish_time_from(times(), "a"), Ok("2026T0Z".to_string()));
    for version in ["b", "c", "d"] {
        assert_eq!(
            publish_time_from(times(), version),
            Err(format!("npm view 没有返回 DSH {version} 的发布时间"))
        );
    }
    assert_eq!(
        publish_time_from(Err("eof".to_string()), "a"),
        Err("npm view 返回了无效的发布时间：eof".to_string())
    );
}
