use grain_lsp::machine::BinaryConfiguration;
use grain_lsp::machine::Effect;
use grain_lsp::machine::Event;
use grain_lsp::machine::ResolutionError;
use grain_lsp::machine::Resolver;
use grain_lsp::machine::Status;
use grain_lsp::machine::candidate;
use grain_lsp::machine::make_command;
use grain_lsp::machine::repo_id;
use grain_lsp::release::Release;
use grain_lsp::release::ReleaseAsset;
use grain_lsp::release::find_asset_index;
use grain_lsp::tag::bare_version;
use grain_lsp::tag::has_product_prefix;
use grain_lsp::tag::refetch_tag;
use grain_lsp::tokens::Arch;
use grain_lsp::tokens::Os;
use grain_lsp::tokens::arch_token;
use grain_lsp::tokens::derive_asset_name;
use grain_lsp::tokens::extension_token;
use grain_lsp::tokens::os_token;

fn asset(name: &str, url: &str) -> ReleaseAsset {
    ReleaseAsset { name: name.to_string(), download_url: url.to_string() }
}

fn release(version: &str, assets: Vec<ReleaseAsset>) -> Release {
    Release { version: version.to_string(), assets }
}

#[test]
fn arch_tokens_map_both_64_bit_architectures_to_x64() {
    assert_eq!(arch_token(Arch::Aarch64), "x64");
    assert_eq!(arch_token(Arch::X8664), "x64");
    assert_eq!(arch_token(Arch::X86), "x86");
}

#[test]
fn os_tokens() {
    assert_eq!(os_token(Os::Mac), "mac");
    assert_eq!(os_token(Os::Linux), "linux");
    assert_eq!(os_token(Os::Windows), "win");
}

#[test]
fn extension_is_exe_exactly_on_windows() {
    assert_eq!(extension_token(Os::Windows), ".exe");
    assert_eq!(extension_token(Os::Linux), "");
    assert_eq!(extension_token(Os::Mac), "");
}

#[test]
fn derived_asset_names() {
    assert_eq!(derive_asset_name(Os::Linux, Arch::X8664), "grain-linux-x64");
    assert_eq!(derive_asset_name(Os::Mac, Arch::Aarch64), "grain-mac-x64");
    assert_eq!(derive_asset_name(Os::Windows, Arch::X86), "grain-win-x86.exe");
    assert_eq!(derive_asset_name(Os::Windows, Arch::X8664), "grain-win-x64.exe");
    assert_eq!(derive_asset_name(Os::Mac, Arch::X86), "grain-mac-x86");
}

#[test]
fn product_prefix_detection() {
    assert!(has_product_prefix(&"grain-v0.6.3".to_string()));
    assert!(has_product_prefix(&"grain".to_string()));
    assert!(!has_product_prefix(&"preview-0.6.3".to_string()));
    assert!(!has_product_prefix(&"grai".to_string()));
}

#[test]
fn bare_version_takes_substring_after_last_hyphen() {
    assert_eq!(bare_version(&"preview-0.6.3".to_string()), "0.6.3");
    assert_eq!(bare_version(&"a-b-c".to_string()), "c");
    assert_eq!(bare_version(&"nodash".to_string()), "nodash");
    assert_eq!(bare_version(&"trailing-".to_string()), "");
}

#[test]
fn refetch_tag_reconstruction() {
    assert_eq!(refetch_tag(&"preview-0.6.3".to_string()), "grain-0.6.3");
    assert_eq!(refetch_tag(&"nodash".to_string()), "grain-nodash");
}

#[test]
fn find_asset_is_exact_not_fuzzy() {
    let assets = vec![
        asset("grain-linux-x64-musl", "u1"),
        asset("grain-linux-x64", "u2"),
        asset("grain-linux-x64", "u3"),
    ];
    assert_eq!(find_asset_index(&assets, &"grain-linux-x64".to_string()), Some(1));
    assert_eq!(find_asset_index(&assets, &"grain-linux".to_string()), None);
}

#[test]
fn candidate_order_tries_generic_name_first() {
    assert_eq!(candidate(0), "grain");
    assert_eq!(candidate(1), "grain-mac-x64");
    assert_eq!(candidate(2), "grain-linux-x64");
    assert_eq!(candidate(3), "grain-win-x64");
    assert_eq!(repo_id(), "grain-lang/grain");
}

#[test]
fn configured_path_wins() {
    let mut r = Resolver::new();
    match r.start() {
        Effect::GetSettings => {},
        _ => panic!("expected the settings lookup first"),
    }
    let cfg = BinaryConfiguration {
        path: Some("/opt/tool".to_string()),
        arguments: Some(vec!["--verbose".to_string()]),
    };
    let binary = match r.step(Event::Settings(Ok(Some(cfg)))) {
        Effect::Done(Ok(b)) => b,
        _ => panic!("expected immediate success"),
    };
    assert_eq!(binary.path, "/opt/tool");
    assert_eq!(binary.args, Some(vec!["--verbose".to_string()]));
    let cmd = make_command(binary);
    assert_eq!(cmd.command, "/opt/tool");
    assert_eq!(cmd.args, vec!["lsp".to_string(), "--verbose".to_string()]);
}

#[test]
fn workspace_path_hit_resolves_without_network() {
    let mut r = Resolver::new();
    r.start();
    match r.step(Event::Settings(Ok(None))) {
        Effect::Which(name) => assert_eq!(name, "grain"),
        _ => panic!("expected a search-path probe"),
    }
    let binary = match r.step(Event::WhichResult(Some("/usr/local/bin/grain".to_string()))) {
        Effect::Done(Ok(b)) => b,
        _ => panic!("expected success from the probe hit"),
    };
    assert_eq!(binary.path, "/usr/local/bin/grain");
    assert_eq!(binary.args, None);
    let cmd = make_command(binary);
    assert_eq!(cmd.command, "/usr/local/bin/grain");
    assert_eq!(cmd.args, vec!["lsp".to_string()]);
}

#[test]
fn settings_read_failure_degrades_to_probing() {
    let mut r = Resolver::new();
    r.start();
    match r.step(Event::Settings(Err("settings unreadable".to_string()))) {
        Effect::Which(name) => assert_eq!(name, "grain"),
        _ => panic!("a settings failure must degrade, not abort"),
    }
}

/// Walks a fresh resolution up to the point where the machine asks for
/// the latest release, answering every earlier probe with a miss.
fn to_release_lookup(r: &mut Resolver) {
    r.start();
    let mut eff = r.step(Event::Settings(Ok(None)));
    let expected = ["grain", "grain-mac-x64", "grain-linux-x64", "grain-win-x64"];
    let mut probed = 0;
    while let Effect::Which(name) = eff {
        assert_eq!(name, expected[probed]);
        probed += 1;
        eff = r.step(Event::WhichResult(None));
    }
    assert_eq!(probed, 4);
    match eff {
        Effect::SetStatus(Status::CheckingForUpdate) => {},
        _ => panic!("expected the checking-for-update status"),
    }
    match r.step(Event::StatusAcknowledged) {
        Effect::FetchLatestRelease(repo, opts) => {
            assert_eq!(repo, "grain-lang/grain");
            assert!(opts.require_assets);
            assert!(!opts.pre_release);
        },
        _ => panic!("expected the latest-release query"),
    }
}

#[test]
fn download_path_provisions_and_caches() {
    let mut r = Resolver::new();
    to_release_lookup(&mut r);
    let rel = release(
        "grain-v0.6.0",
        vec![asset("grain-linux-x64", "https://example.invalid/grain-linux-x64")],
    );
    match r.step(Event::ReleaseResult(Ok(rel))) {
        Effect::GetPlatform => {},
        _ => panic!("a prefixed tag needs no normalization"),
    }
    match r.step(Event::PlatformInfo(Os::Linux, Arch::X8664)) {
        Effect::StatFile(name) => assert_eq!(name, "grain-linux-x64"),
        _ => panic!("expected the on-disk check of the asset"),
    }
    match r.step(Event::StatResult(Ok(false))) {
        Effect::SetStatus(Status::Downloading) => {},
        _ => panic!("expected the downloading status"),
    }
    match r.step(Event::StatusAcknowledged) {
        Effect::Download(url, dest) => {
            assert_eq!(url, "https://example.invalid/grain-linux-x64");
            assert_eq!(dest, "grain-linux-x64");
        },
        _ => panic!("expected the download request"),
    }
    let binary = match r.step(Event::DownloadResult(Ok(()))) {
        Effect::Done(Ok(b)) => b,
        _ => panic!("expected success after the download"),
    };
    assert_eq!(binary.path, "grain-linux-x64");
    assert_eq!(binary.args, None);
    assert_eq!(r.cached_binary_path, Some("grain-linux-x64".to_string()));
}

#[test]
fn missing_asset_fails_with_the_attempted_name() {
    let mut r = Resolver::new();
    to_release_lookup(&mut r);
    let rel = release("grain-v0.6.0", vec![asset("grain-mac-x64", "u")]);
    r.step(Event::ReleaseResult(Ok(rel)));
    match r.step(Event::PlatformInfo(Os::Linux, Arch::X8664)) {
        Effect::Done(Err(ResolutionError::AssetNotFound(name))) => {
            assert_eq!(name, "grain-linux-x64");
        },
        _ => panic!("expected the missing-asset error"),
    }
    assert_eq!(r.cached_binary_path, None);
}

#[test]
fn release_lookup_failure_aborts_resolution() {
    let mut r = Resolver::new();
    to_release_lookup(&mut r);
    match r.step(Event::ReleaseResult(Err("network down".to_string()))) {
        Effect::Done(Err(ResolutionError::Lookup(m))) => assert_eq!(m, "network down"),
        _ => panic!("expected the lookup error"),
    }
}

#[test]
fn download_failure_aborts_resolution() {
    let mut r = Resolver::new();
    to_release_lookup(&mut r);
    r.step(Event::ReleaseResult(Ok(release("grain-v1", vec![asset("grain-mac-x64", "u")]))));
    r.step(Event::PlatformInfo(Os::Mac, Arch::Aarch64));
    r.step(Event::StatResult(Ok(false)));
    r.step(Event::StatusAcknowledged);
    match r.step(Event::DownloadResult(Err("connection reset".to_string()))) {
        Effect::Done(Err(ResolutionError::Download(m))) => assert_eq!(m, "connection reset"),
        _ => panic!("expected the download error"),
    }
    assert_eq!(r.cached_binary_path, None);
}

#[test]
fn unprefixed_tag_is_refetched_by_reconstructed_tag() {
    let mut r = Resolver::new();
    to_release_lookup(&mut r);
    let original = release("preview-0.6.3", vec![asset("grain-linux-x64", "u-original")]);
    match r.step(Event::ReleaseResult(Ok(original))) {
        Effect::FetchReleaseByTag(repo, tag) => {
            assert_eq!(repo, "grain-lang/grain");
            assert_eq!(tag, "grain-0.6.3");
        },
        _ => panic!("expected the normalized re-fetch"),
    }
    let normalized = release("grain-v0.6.3", vec![asset("grain-linux-x64", "u-normalized")]);
    match r.step(Event::ReleaseResult(Ok(normalized))) {
        Effect::GetPlatform => {},
        _ => panic!("expected the platform query"),
    }
    match r.step(Event::PlatformInfo(Os::Linux, Arch::X8664)) {
        Effect::StatFile(name) => assert_eq!(name, "grain-linux-x64"),
        _ => panic!("expected the on-disk check"),
    }
}

#[test]
fn refetch_failure_falls_back_to_original_release() {
    let mut r = Resolver::new();
    to_release_lookup(&mut r);
    let original = release("preview-0.6.3", vec![asset("grain-linux-x64", "u-original")]);
    match r.step(Event::ReleaseResult(Ok(original))) {
        Effect::FetchReleaseByTag(_, _) => {},
        _ => panic!("expected the normalized re-fetch"),
    }
    match r.step(Event::ReleaseResult(Err("no such tag".to_string()))) {
        Effect::GetPlatform => {},
        _ => panic!("a re-fetch failure must fall back, not abort"),
    }
    r.step(Event::PlatformInfo(Os::Linux, Arch::X8664));
    match r.step(Event::StatResult(Ok(false))) {
        Effect::SetStatus(Status::Downloading) => {},
        _ => panic!("expected the downloading status"),
    }
    match r.step(Event::StatusAcknowledged) {
        Effect::Download(url, _) => assert_eq!(url, "u-original"),
        _ => panic!("expected the download from the original release"),
    }
}

/// Runs one whole resolution against scripted workspace answers where the
/// asset file is already on disk, returning the outcome and the number of
/// download requests made.
fn resolve_with_asset_present(r: &mut Resolver) -> (grain_lsp::machine::ResolvedBinary, usize) {
    let mut downloads = 0;
    let mut eff = r.start();
    loop {
        let ev = match eff {
            Effect::GetSettings => Event::Settings(Ok(None)),
            Effect::Which(_) => Event::WhichResult(None),
            Effect::StatFile(_) => Event::StatResult(Ok(true)),
            Effect::SetStatus(_) => Event::StatusAcknowledged,
            Effect::FetchLatestRelease(_, _) => Event::ReleaseResult(Ok(release(
                "grain-v0.6.0",
                vec![asset("grain-mac-x64", "https://example.invalid/a")],
            ))),
            Effect::FetchReleaseByTag(_, _) => panic!("no normalization expected"),
            Effect::GetPlatform => Event::PlatformInfo(Os::Mac, Arch::X8664),
            Effect::Download(_, _) => {
                downloads += 1;
                Event::DownloadResult(Ok(()))
            },
            Effect::Done(outcome) => {
                return (outcome.expect("resolution should succeed"), downloads);
            },
        };
        eff = r.step(ev);
    }
}

#[test]
fn resolution_is_idempotent_with_asset_file_present() {
    let mut r = Resolver::new();
    let (first, downloads_first) = resolve_with_asset_present(&mut r);
    assert_eq!(downloads_first, 0);
    assert_eq!(first.path, "grain-mac-x64");
    assert_eq!(r.cached_binary_path, Some("grain-mac-x64".to_string()));
    let (second, downloads_second) = resolve_with_asset_present(&mut r);
    assert_eq!(downloads_second, 0);
    assert_eq!(second.path, first.path);
    assert_eq!(second.args, first.args);
    assert_eq!(r.cached_binary_path, Some("grain-mac-x64".to_string()));
}

#[test]
fn stale_cache_falls_through_to_provisioning() {
    let mut r = Resolver::new();
    r.cached_binary_path = Some("grain-linux-x64".to_string());
    r.start();
    r.step(Event::Settings(Ok(None)));
    let mut eff = Effect::GetSettings;
    for _ in 0..4 {
        eff = r.step(Event::WhichResult(None));
    }
    match eff {
        Effect::StatFile(p) => assert_eq!(p, "grain-linux-x64"),
        _ => panic!("expected the cache stat"),
    }
    match r.step(Event::StatResult(Err("permission denied".to_string()))) {
        Effect::SetStatus(Status::CheckingForUpdate) => {},
        _ => panic!("a stat error must count as a cache miss"),
    }
}

#[test]
fn cache_hit_resolves_with_configured_arguments() {
    let mut r = Resolver::new();
    r.cached_binary_path = Some("grain-win-x64.exe".to_string());
    r.start();
    let cfg = BinaryConfiguration {
        path: None,
        arguments: Some(vec!["--stdio".to_string()]),
    };
    r.step(Event::Settings(Ok(Some(cfg))));
    let mut eff = Effect::GetSettings;
    for _ in 0..4 {
        eff = r.step(Event::WhichResult(None));
    }
    match eff {
        Effect::StatFile(p) => assert_eq!(p, "grain-win-x64.exe"),
        _ => panic!("expected the cache stat"),
    }
    let binary = match r.step(Event::StatResult(Ok(true))) {
        Effect::Done(Ok(b)) => b,
        _ => panic!("expected success from the cache"),
    };
    assert_eq!(binary.path, "grain-win-x64.exe");
    assert_eq!(binary.args, Some(vec!["--stdio".to_string()]));
    let cmd = make_command(binary);
    assert_eq!(cmd.args, vec!["lsp".to_string(), "--stdio".to_string()]);
}

#[test]
fn windows_on_arm_provisions_the_x64_exe_asset() {
    let mut r = Resolver::new();
    to_release_lookup(&mut r);
    let rel = release(
        "grain-v0.6.0",
        vec![
            asset("grain-win-x86.exe", "u86"),
            asset("grain-win-x64.exe", "u64"),
        ],
    );
    r.step(Event::ReleaseResult(Ok(rel)));
    match r.step(Event::PlatformInfo(Os::Windows, Arch::Aarch64)) {
        Effect::StatFile(name) => assert_eq!(name, "grain-win-x64.exe"),
        _ => panic!("expected the on-disk check of the x64 Windows asset"),
    }
    r.step(Event::StatResult(Ok(false)));
    match r.step(Event::StatusAcknowledged) {
        Effect::Download(url, dest) => {
            assert_eq!(url, "u64");
            assert_eq!(dest, "grain-win-x64.exe");
        },
        _ => panic!("expected the download request"),
    }
}
