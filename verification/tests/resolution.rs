use arduino_ls::asset_name;
use arduino_ls::find_asset;
use arduino_ls::installed_binary_path;
use arduino_ls::server_binary_name;
use arduino_ls::stale_dirs;
use arduino_ls::version_dir;
use arduino_ls::Arch;
use arduino_ls::DirEntry;
use arduino_ls::Event;
use arduino_ls::Os;
use arduino_ls::ReleaseAsset;
use arduino_ls::ReleaseInfo;
use arduino_ls::ResolveError;
use arduino_ls::Resolver;
use arduino_ls::Step;

fn s(text: &str) -> String {
    String::from(text)
}

fn entry(name: &str, is_dir: bool) -> DirEntry {
    DirEntry {
        name: s(name),
        is_dir,
    }
}

#[test]
fn asset_name_is_deterministic_for_every_pair() {
    let v = s("v1.2.0");
    let cases = [
        (Os::Mac, Arch::Aarch64, "arduino-language-server_v1.2.0_macOS_ARM64.tar.gz"),
        (Os::Mac, Arch::X86, "arduino-language-server_v1.2.0_macOS_32bit.tar.gz"),
        (Os::Mac, Arch::X8664, "arduino-language-server_v1.2.0_macOS_64bit.tar.gz"),
        (Os::Linux, Arch::Aarch64, "arduino-language-server_v1.2.0_Linux_ARM64.tar.gz"),
        (Os::Linux, Arch::X86, "arduino-language-server_v1.2.0_Linux_32bit.tar.gz"),
        (Os::Linux, Arch::X8664, "arduino-language-server_v1.2.0_Linux_64bit.tar.gz"),
        (Os::Windows, Arch::Aarch64, "arduino-language-server_v1.2.0_Windows_ARM64.tar.gz"),
        (Os::Windows, Arch::X86, "arduino-language-server_v1.2.0_Windows_32bit.tar.gz"),
        (Os::Windows, Arch::X8664, "arduino-language-server_v1.2.0_Windows_64bit.tar.gz"),
    ];
    for (os, arch, expected) in cases {
        assert_eq!(asset_name(&v, os, arch), expected);
        assert_eq!(asset_name(&v, os, arch), expected);
    }
}

#[test]
fn version_paths_follow_the_two_fixed_names() {
    let v = s("v1.2.0");
    assert_eq!(version_dir(&v), "arduino-language-server-v1.2.0");
    assert_eq!(server_binary_name(Os::Mac), "arduino-language-server");
    assert_eq!(server_binary_name(Os::Linux), "arduino-language-server");
    assert_eq!(server_binary_name(Os::Windows), "arduino-language-server.exe");
    assert_eq!(
        installed_binary_path(&v, Os::Linux),
        "arduino-language-server-v1.2.0/arduino-language-server"
    );
    assert_eq!(
        installed_binary_path(&v, Os::Windows),
        "arduino-language-server-v1.2.0/arduino-language-server.exe"
    );
}

#[test]
fn find_asset_takes_the_first_exact_match() {
    let assets = vec![
        ReleaseAsset {
            name: s("other.tar.gz"),
            download_url: s("https://example.invalid/other"),
        },
        ReleaseAsset {
            name: s("wanted.tar.gz"),
            download_url: s("https://example.invalid/first"),
        },
        ReleaseAsset {
            name: s("wanted.tar.gz"),
            download_url: s("https://example.invalid/second"),
        },
    ];
    assert_eq!(find_asset(&assets, &s("wanted.tar.gz")), Some(1));
    assert_eq!(find_asset(&assets, &s("missing.tar.gz")), None);
}

#[test]
fn override_path_returns_verbatim_and_ends_resolution() {
    let mut resolver = Resolver::new();
    let r = resolver.step(
        Step::AskOverride,
        Event::OverrideSetting {
            path: Some(s("/custom/arduino-language-server")),
        },
        Os::Linux,
        Arch::X8664,
    );
    assert_eq!(
        r,
        Step::Done {
            path: s("/custom/arduino-language-server")
        }
    );
    assert_eq!(resolver.cached_binary_path, None);
}

#[test]
fn path_lookup_hit_returns_that_path() {
    let mut resolver = Resolver::new();
    let r = resolver.step(
        Step::AskOverride,
        Event::OverrideSetting { path: None },
        Os::Linux,
        Arch::X8664,
    );
    assert_eq!(r, Step::AskWhich);
    let r = resolver.step(
        r,
        Event::WhichResult {
            path: Some(s("/usr/bin/arduino-language-server")),
        },
        Os::Linux,
        Arch::X8664,
    );
    assert_eq!(
        r,
        Step::Done {
            path: s("/usr/bin/arduino-language-server")
        }
    );
}

#[test]
fn missing_asset_fails_and_names_the_expected_asset() {
    let mut resolver = Resolver::new();
    let release = ReleaseInfo {
        version: s("v9.9.9"),
        assets: vec![ReleaseAsset {
            name: s("arduino-language-server_v9.9.9_Linux_64bit.tar.gz"),
            download_url: s("https://example.invalid/linux"),
        }],
    };
    let r = resolver.step(
        Step::AskRelease,
        Event::ReleaseResult { release: Ok(release) },
        Os::Windows,
        Arch::Aarch64,
    );
    match r {
        Step::Failed {
            error: ResolveError::NoAssetMatching { ref asset_name },
        } => {
            assert_eq!(asset_name, "arduino-language-server_v9.9.9_Windows_ARM64.tar.gz");
        }
        other => panic!("expected a missing-asset failure, got {:?}", other),
    }
    if let Step::Failed { error } = r {
        assert_eq!(
            error.message(),
            "no asset found matching \"arduino-language-server_v9.9.9_Windows_ARM64.tar.gz\""
        );
    }
}

#[test]
fn fresh_install_runs_download_cleanup_and_chmod() {
    let mut resolver = Resolver::new();
    let os = Os::Linux;
    let arch = Arch::X8664;

    let r = resolver.step(
        Step::AskOverride,
        Event::OverrideSetting { path: None },
        os,
        arch,
    );
    assert_eq!(r, Step::AskWhich);

    // No cache yet, so a PATH miss goes straight to the release feed.
    let r = resolver.step(r, Event::WhichResult { path: None }, os, arch);
    assert_eq!(r, Step::AskRelease);

    let release = ReleaseInfo {
        version: s("v1.2.0"),
        assets: vec![
            ReleaseAsset {
                name: s("arduino-language-server_v1.2.0_macOS_ARM64.tar.gz"),
                download_url: s("https://example.invalid/mac"),
            },
            ReleaseAsset {
                name: s("arduino-language-server_v1.2.0_Linux_64bit.tar.gz"),
                download_url: s("https://example.invalid/linux"),
            },
        ],
    };
    let r = resolver.step(r, Event::ReleaseResult { release: Ok(release) }, os, arch);
    let target = match r {
        Step::AskInstalledStat { ref target } => target.clone(),
        ref other => panic!("expected an installed-stat request, got {:?}", other),
    };
    assert_eq!(target.download_url, "https://example.invalid/linux");
    assert_eq!(target.version_dir, "arduino-language-server-v1.2.0");
    assert_eq!(
        target.binary_path,
        "arduino-language-server-v1.2.0/arduino-language-server"
    );

    // Not installed yet: download, then plan the cleanup pass.
    let r = resolver.step(r, Event::StatResult { is_file: false }, os, arch);
    assert_eq!(
        r,
        Step::AskDownload {
            target: target.clone()
        }
    );
    let r = resolver.step(r, Event::DownloadResult { outcome: Ok(()) }, os, arch);
    assert_eq!(
        r,
        Step::AskListDir {
            target: target.clone()
        }
    );

    let listing = vec![
        entry("arduino-language-server-v1.1.0", true),
        entry("arduino-language-server-v1.2.0", true),
        entry("notes.txt", false),
    ];
    let r = resolver.step(
        r,
        Event::ListDirResult {
            entries: Ok(listing),
        },
        os,
        arch,
    );
    assert_eq!(
        r,
        Step::AskRemoveDirs {
            stale: vec![s("arduino-language-server-v1.1.0")],
            target: target.clone()
        }
    );

    let r = resolver.step(r, Event::RemoveDone, os, arch);
    assert_eq!(
        r,
        Step::AskMakeExecutable {
            target: target.clone()
        }
    );

    let r = resolver.step(r, Event::MakeExecutableResult { outcome: Ok(()) }, os, arch);
    assert_eq!(
        r,
        Step::Done {
            path: s("arduino-language-server-v1.2.0/arduino-language-server")
        }
    );
    assert_eq!(
        resolver.cached_binary_path,
        Some(s("arduino-language-server-v1.2.0/arduino-language-server"))
    );

    // Resolving again right away: the remembered path is checked and
    // returned; no release query, download or cleanup pass occurs.
    let r = resolver.step(
        Step::AskOverride,
        Event::OverrideSetting { path: None },
        os,
        arch,
    );
    assert_eq!(r, Step::AskWhich);
    let r = resolver.step(r, Event::WhichResult { path: None }, os, arch);
    assert_eq!(
        r,
        Step::AskCacheStat {
            path: s("arduino-language-server-v1.2.0/arduino-language-server")
        }
    );
    let r = resolver.step(r, Event::StatResult { is_file: true }, os, arch);
    assert_eq!(
        r,
        Step::Done {
            path: s("arduino-language-server-v1.2.0/arduino-language-server")
        }
    );
}

#[test]
fn second_resolution_triggers_no_download_and_no_cleanup() {
    let mut resolver = Resolver::new();
    let os = Os::Linux;
    let arch = Arch::X8664;
    resolver.cached_binary_path =
        Some(s("arduino-language-server-v1.2.0/arduino-language-server"));

    let r = resolver.step(
        Step::AskOverride,
        Event::OverrideSetting { path: None },
        os,
        arch,
    );
    assert_eq!(r, Step::AskWhich);
    let r = resolver.step(r, Event::WhichResult { path: None }, os, arch);
    assert_eq!(
        r,
        Step::AskCacheStat {
            path: s("arduino-language-server-v1.2.0/arduino-language-server")
        }
    );
    let r = resolver.step(r, Event::StatResult { is_file: true }, os, arch);
    assert_eq!(
        r,
        Step::Done {
            path: s("arduino-language-server-v1.2.0/arduino-language-server")
        }
    );
    assert_eq!(
        resolver.cached_binary_path,
        Some(s("arduino-language-server-v1.2.0/arduino-language-server"))
    );
}

#[test]
fn stale_cached_path_falls_through_to_redownload() {
    let mut resolver = Resolver::new();
    resolver.cached_binary_path = Some(s("arduino-language-server-v1.0.0/gone"));

    let r = resolver.step(
        Step::AskOverride,
        Event::OverrideSetting { path: None },
        Os::Mac,
        Arch::Aarch64,
    );
    let r = resolver.step(r, Event::WhichResult { path: None }, Os::Mac, Arch::Aarch64);
    assert_eq!(
        r,
        Step::AskCacheStat {
            path: s("arduino-language-server-v1.0.0/gone")
        }
    );
    // The file behind the cached path is gone: treated as absent.
    let r = resolver.step(r, Event::StatResult { is_file: false }, Os::Mac, Arch::Aarch64);
    assert_eq!(r, Step::AskRelease);
}

#[test]
fn already_installed_version_skips_download_entirely() {
    let mut resolver = Resolver::new();
    let release = ReleaseInfo {
        version: s("v1.2.0"),
        assets: vec![ReleaseAsset {
            name: s("arduino-language-server_v1.2.0_Linux_64bit.tar.gz"),
            download_url: s("https://example.invalid/linux"),
        }],
    };
    let r = resolver.step(
        Step::AskRelease,
        Event::ReleaseResult { release: Ok(release) },
        Os::Linux,
        Arch::X8664,
    );
    let r = resolver.step(r, Event::StatResult { is_file: true }, Os::Linux, Arch::X8664);
    assert_eq!(
        r,
        Step::Done {
            path: s("arduino-language-server-v1.2.0/arduino-language-server")
        }
    );
    assert_eq!(
        resolver.cached_binary_path,
        Some(s("arduino-language-server-v1.2.0/arduino-language-server"))
    );
}

#[test]
fn feed_download_listing_and_chmod_failures_surface() {
    let mut resolver = Resolver::new();
    let os = Os::Linux;
    let arch = Arch::X8664;
    let target = arduino_ls::InstallTarget {
        download_url: s("https://example.invalid/linux"),
        version_dir: s("arduino-language-server-v1.2.0"),
        binary_path: s("arduino-language-server-v1.2.0/arduino-language-server"),
    };

    let r = resolver.step(
        Step::AskRelease,
        Event::ReleaseResult {
            release: Err(s("feed unreachable")),
        },
        os,
        arch,
    );
    assert_eq!(
        r,
        Step::Failed {
            error: ResolveError::ReleaseFetchFailed {
                cause: s("feed unreachable")
            }
        }
    );
    if let Step::Failed { error } = r {
        assert_eq!(error.message(), "feed unreachable");
    }

    let r = resolver.step(
        Step::AskDownload {
            target: target.clone(),
        },
        Event::DownloadResult {
            outcome: Err(s("connection reset")),
        },
        os,
        arch,
    );
    if let Step::Failed { error } = r {
        assert_eq!(error.message(), "failed to download file: connection reset");
    } else {
        panic!("expected a download failure");
    }

    let r = resolver.step(
        Step::AskListDir {
            target: target.clone(),
        },
        Event::ListDirResult {
            entries: Err(s("failed to list working directory permission denied")),
        },
        os,
        arch,
    );
    if let Step::Failed { error } = r {
        assert_eq!(
            error.message(),
            "failed to list working directory permission denied"
        );
    } else {
        panic!("expected a listing failure");
    }

    let r = resolver.step(
        Step::AskMakeExecutable { target },
        Event::MakeExecutableResult {
            outcome: Err(s("read-only file system")),
        },
        os,
        arch,
    );
    if let Step::Failed { error } = r {
        assert_eq!(error.message(), "read-only file system");
    } else {
        panic!("expected a chmod failure");
    }
    assert_eq!(resolver.cached_binary_path, None);
}

#[test]
fn cleanup_plan_spares_files_and_the_new_version() {
    let entries = vec![
        entry("arduino-language-server-v1.0.0", true),
        entry("arduino-language-server-v1.2.0", true),
        entry("sketches", true),
        entry("arduino-language-server-v1.1.0", true),
        entry("README.md", false),
    ];
    let keep = s("arduino-language-server-v1.2.0");
    assert_eq!(
        stale_dirs(&entries, &keep),
        vec![
            s("arduino-language-server-v1.0.0"),
            s("sketches"),
            s("arduino-language-server-v1.1.0"),
        ]
    );

    let nothing: Vec<DirEntry> = Vec::new();
    assert_eq!(stale_dirs(&nothing, &keep), Vec::<String>::new());
}
