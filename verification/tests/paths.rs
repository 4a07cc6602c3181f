use codex_bridge::hostpath::path_join;
use codex_bridge::discord_presence::client as presence;
use codex_bridge::pets::client as pets;
use codex_bridge::winpath::powershell_launch;

#[test]
fn mount_paths_convert_to_windows_paths() {
    assert_eq!(
        presence::wsl_mount_to_windows_path("/mnt/c/Users/alice/app.exe"),
        Some("C:\\Users\\alice\\app.exe".to_string())
    );
}

#[test]
fn non_mount_paths_convert_to_wsl_localhost_launch_path() {
    assert_eq!(
        presence::wsl_localhost_launch_path("/home/alice/app.exe", "Ubuntu"),
        "//wsl.localhost/Ubuntu/home/alice/app.exe".to_string()
    );
}

#[test]
fn powershell_quotes_single_quotes() {
    assert_eq!(presence::pwsh_quote("Alice's Codex"), "'Alice''s Codex'");
}

#[test]
fn wsl_mount_to_windows_path_maps_drive_mounts() {
    assert_eq!(
        pets::wsl_mount_to_windows_path("/mnt/c/Users/vract/codex-pets.exe"),
        Some("C:\\Users\\vract\\codex-pets.exe".to_string())
    );
}

#[test]
fn wsl_localhost_path_maps_linux_paths() {
    assert_eq!(
        pets::wsl_localhost_launch_path("/home/vracto/rpc-codex/target/debug/helper.exe", "Ubuntu"),
        "\\\\wsl.localhost\\Ubuntu\\home\\vracto\\rpc-codex\\target\\debug\\helper.exe"
    );
}

#[test]
fn client_powershell_quotes_single_quotes() {
    assert_eq!(pets::pwsh_quote("a'b"), "'a''b'");
}

#[test]
fn mount_root_of_a_drive_maps_to_drive_root() {
    assert_eq!(pets::wsl_mount_to_windows_path("/mnt/d"), Some("D:\\".to_string()));
    assert_eq!(pets::wsl_mount_to_windows_path("/mnt/d/"), Some("D:\\".to_string()));
}

#[test]
fn non_drive_mounts_are_not_mapped() {
    assert_eq!(pets::wsl_mount_to_windows_path("/mnt/wsl/x"), None);
    assert_eq!(pets::wsl_mount_to_windows_path("/home/a"), None);
    assert_eq!(pets::wsl_mount_to_windows_path("/mnt/"), None);
}

#[test]
fn quoting_without_quotes_only_wraps() {
    assert_eq!(pets::pwsh_quote(""), "''");
    assert_eq!(pets::pwsh_quote("plain"), "'plain'");
    assert_eq!(pets::pwsh_quote("''"), "''''''");
}

#[test]
fn launch_path_prefers_the_mounted_drive() {
    let r = pets::linux_path_to_windows_launch_path("/mnt/c/x/y.exe", None);
    assert_eq!(r.ok(), Some("C:\\x\\y.exe".to_string()));
    let r = presence::linux_path_to_windows_launch_path("/home/u/y.exe", Some("Debian"));
    assert_eq!(r.ok(), Some("//wsl.localhost/Debian/home/u/y.exe".to_string()));
}

#[test]
fn launch_path_outside_mounts_needs_a_distro() {
    let r = pets::linux_path_to_windows_launch_path("/home/u/y.exe", None);
    let e = r.err().expect("error");
    assert!(matches!(e, pets::HelperLookupError::DistroNameUnset));
    assert_eq!(
        e.message(),
        "WSL_DISTRO_NAME is not set; cannot construct Windows path for helper"
    );
    let r = presence::linux_path_to_windows_launch_path("/home/u/y.exe", None);
    assert!(matches!(r, Err(presence::HelperLookupError::DistroNameUnset)));
}

#[test]
fn presence_helper_candidate_sits_in_the_windows_target() {
    let p = presence::helper_candidate(Some("/w/codex/target/debug/codex")).ok().expect("path");
    assert_eq!(
        p,
        "/w/codex/target/x86_64-pc-windows-msvc/debug/codex-discord-presence-windows.exe"
    );
}

#[test]
fn presence_helper_lookup_errors() {
    let e = presence::helper_candidate(None).err().expect("error");
    assert_eq!(
        e.message(),
        "Codex executable path is unavailable for Discord presence helper lookup"
    );
    let e = presence::helper_candidate(Some("/")).err().expect("error");
    assert!(matches!(e, presence::HelperLookupError::NoParentDirectory));
    assert_eq!(e.message(), "Codex executable path has no parent directory");
    let e = presence::helper_candidate(Some("codex")).err().expect("error");
    assert!(matches!(e, presence::HelperLookupError::NoProfileName));
    assert_eq!(e.message(), "failed to derive build profile from Codex executable path");
}

#[test]
fn presence_helper_path_must_exist() {
    let e = presence::resolve_helper_path("/w/t/h.exe", false, Some("Ubuntu")).err().expect("error");
    assert_eq!(e.message(), "Discord presence helper was not found at /w/t/h.exe");
    let p = presence::resolve_helper_path("/w/t/h.exe", true, Some("Ubuntu")).ok().expect("path");
    assert_eq!(p, "//wsl.localhost/Ubuntu/w/t/h.exe");
}

#[test]
fn presence_script_passes_the_configuration() {
    let config = presence::DiscordPresenceRuntimeConfig {
        application_id: "123".to_string(),
        large_image: Some("codex".to_string()),
        large_text: Some("Bob's".to_string()),
    };
    assert_eq!(
        presence::helper_script("C:\\h.exe", &config),
        "[Console]::InputEncoding = [System.Text.Encoding]::UTF8; & 'C:\\h.exe' --application-id '123' --large-image 'codex' --large-text 'Bob''s'"
    );
    let bare = presence::DiscordPresenceRuntimeConfig {
        application_id: "9".to_string(),
        large_image: None,
        large_text: None,
    };
    assert_eq!(
        presence::helper_script("h", &bare),
        "[Console]::InputEncoding = [System.Text.Encoding]::UTF8; & 'h' --application-id '9'"
    );
}

#[test]
fn pets_helper_candidates_cover_both_builds() {
    let c = pets::helper_candidates(Some("/w/codex/target/release/codex")).ok().expect("paths");
    assert_eq!(
        c.helper_path,
        "/w/codex/target/x86_64-pc-windows-msvc/release/codex-pets-windows.exe"
    );
    assert_eq!(c.electron_app_dir, "/w/codex/pets-windows/electron");
}

#[test]
fn pets_helper_lookup_errors() {
    let e = pets::helper_candidates(None).err().expect("error");
    assert_eq!(e.message(), "Codex executable path is unavailable for pets helper lookup");
    let e = pets::helper_candidates(Some("/release/codex")).err().expect("error");
    assert!(matches!(e, pets::HelperLookupError::NoWorkspaceDirectory));
    assert_eq!(e.message(), "failed to derive workspace directory from Codex executable path");
}

#[test]
fn pets_helper_not_found_names_both_places() {
    let c = pets::HelperCandidates {
        helper_path: "/a/h.exe".to_string(),
        electron_app_dir: "/a/electron".to_string(),
    };
    let e = pets::resolve_helper_locations(&c, false, false, Some("U")).err().expect("error");
    assert_eq!(e.message(), "pets helper was not found at /a/h.exe or /a/electron");
}

#[test]
fn pets_helper_locations_and_script() {
    let c = pets::HelperCandidates {
        helper_path: "/mnt/c/h.exe".to_string(),
        electron_app_dir: "/mnt/c/app".to_string(),
    };
    let loc = pets::resolve_helper_locations(&c, true, false, None).ok().expect("locations");
    assert_eq!(loc.legacy_helper, "C:\\h.exe");
    assert_eq!(loc.electron_app_dir, "C:\\app");
    assert_eq!(loc.electron_portable, "C:\\app\\dist\\codex-pets-windows.exe");
    assert_eq!(loc.electron_unpacked, "C:\\app\\dist\\win-unpacked\\codex-pets-windows.exe");
    assert_eq!(loc.electron_cmd, "C:\\app\\node_modules\\.bin\\electron.cmd");
    let script = pets::resolve_helper_script(&loc);
    let u = "'C:\\app\\dist\\win-unpacked\\codex-pets-windows.exe'";
    let p = "'C:\\app\\dist\\codex-pets-windows.exe'";
    let cmd = "'C:\\app\\node_modules\\.bin\\electron.cmd'";
    let expected = format!(
        "[Console]::InputEncoding = [System.Text.Encoding]::UTF8; if (Test-Path -LiteralPath {p}) {{ & {p} }} elseif (Test-Path -LiteralPath {u}) {{ & {u} }} elseif (Test-Path -LiteralPath {cmd}) {{ & {cmd} 'C:\\app' }} else {{ & 'C:\\h.exe' }}"
    );
    assert_eq!(script, expected);
}

#[test]
fn pets_locations_off_the_drives_need_a_distro() {
    let c = pets::HelperCandidates {
        helper_path: "/home/h.exe".to_string(),
        electron_app_dir: "/home/app".to_string(),
    };
    let r = pets::resolve_helper_locations(&c, false, true, None);
    assert!(matches!(r, Err(pets::HelperLookupError::DistroNameUnset)));
}

#[test]
fn wsl_is_detected_from_the_distro_or_the_kernel() {
    assert!(pets::is_wsl(true, None));
    assert!(pets::is_wsl(false, Some("5.15.90.1-Microsoft-standard-WSL2")));
    assert!(!pets::is_wsl(false, Some("6.1.0-generic")));
    assert!(!pets::is_wsl(false, None));
}

#[test]
fn helpers_launch_through_powershell() {
    let launch = powershell_launch("& 'x'".to_string());
    assert_eq!(launch.program, "powershell.exe");
    assert_eq!(launch.args, vec!["-NoProfile".to_string(), "-Command".to_string(), "& 'x'".to_string()]);
}

#[test]
fn windows_paths_become_powershell_literals() {
    assert_eq!(pets::windows_path_literal("C:\\Users\\o'neil\\h.exe"), "'C:\\Users\\o''neil\\h.exe'");
    assert_eq!(pets::windows_path_literal("\\\\wsl.localhost\\U\\x"), "'\\\\wsl.localhost\\U\\x'");
}

fn read_single_quoted_literal(literal: &str) -> Option<String> {
    let inner = literal.strip_prefix('\'')?.strip_suffix('\'')?;
    let mut out = String::new();
    let mut chars = inner.chars();
    while let Some(c) = chars.next() {
        if c == '\'' {
            if chars.next() != Some('\'') {
                return None;
            }
        }
        out.push(c);
    }
    Some(out)
}

#[test]
fn quoted_text_reads_back() {
    for value in ["", "plain", "a'b", "''", "'", "Alice's 'quoted' Codex", "C:\\x y\\z"] {
        assert_eq!(read_single_quoted_literal(&pets::pwsh_quote(value)), Some(value.to_string()));
    }
    assert_eq!(read_single_quoted_literal("'a'b'"), None);
}

#[test]
fn quoted_text_has_doubled_quotes_inside() {
    for value in ["", "a'b", "'''", "no quotes"] {
        let q = pets::pwsh_quote(value);
        assert!(q.starts_with('\'') && q.ends_with('\''));
        assert_eq!(q.len(), value.len() + 2 + value.matches('\'').count());
        assert_eq!(q[1..q.len() - 1].replace("''", "'"), value);
    }
}

#[test]
fn paths_join_as_on_unix() {
    for (base, part) in [("/a", "b"), ("/a/", "b"), ("", "b"), ("/a", "/b"), ("a", ""), ("/", "x/y")] {
        let expected = std::path::Path::new(base).join(part).to_string_lossy().into_owned();
        assert_eq!(path_join(base, part), expected);
    }
    assert_eq!(path_join("/w/target", "x86_64-pc-windows-msvc"), "/w/target/x86_64-pc-windows-msvc");
}
