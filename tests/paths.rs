use nebula_shell::platform::{executable_name, folder_opener, get_backend_url, suffixed_executable_name, BuildMode, HostOs};
use nebula_shell::resolve::{dev_backend_path, locate_backend, release_backend_path, release_suffixed_path, suffix_probe};

fn segs(parts: &[&str]) -> Vec<String> {
    parts.iter().map(|s| s.to_string()).collect()
}

#[test]
fn backend_url_is_fixed() {
    assert_eq!(get_backend_url(), "http://127.0.0.1:8080");
}

#[test]
fn executable_names_per_os() {
    assert_eq!(executable_name(HostOs::Windows), "nebula-backend.exe");
    assert_eq!(executable_name(HostOs::Linux), "nebula-backend");
    assert_eq!(executable_name(HostOs::MacOs), "nebula-backend");
    assert_eq!(suffixed_executable_name(HostOs::Windows), Some("nebula-backend-x86_64-pc-windows-msvc.exe"));
    assert_eq!(suffixed_executable_name(HostOs::Linux), Some("nebula-backend-x86_64-unknown-linux-gnu"));
    assert_eq!(suffixed_executable_name(HostOs::MacOs), None);
    assert_eq!(suffixed_executable_name(HostOs::Other), None);
}

#[test]
fn folder_openers_per_os() {
    assert_eq!(folder_opener(HostOs::Windows), Some("explorer"));
    assert_eq!(folder_opener(HostOs::MacOs), Some("open"));
    assert_eq!(folder_opener(HostOs::Linux), Some("xdg-open"));
    assert_eq!(folder_opener(HostOs::Other), None);
}

#[test]
fn dev_path_steps_out_of_launch_subdir() {
    let cwd = segs(&["/", "home", "dev", "nebula", "src-tauri"]);
    assert_eq!(
        dev_backend_path(&cwd, HostOs::Linux),
        segs(&["/", "home", "dev", "nebula", "backend", "bin", "nebula-backend"])
    );
}

#[test]
fn dev_path_from_project_root() {
    let cwd = segs(&["C:", "\\", "work", "nebula"]);
    assert_eq!(
        dev_backend_path(&cwd, HostOs::Windows),
        segs(&["C:", "\\", "work", "nebula", "backend", "bin", "nebula-backend.exe"])
    );
}

#[test]
fn dev_path_only_steps_out_of_last_segment() {
    let cwd = segs(&["/", "src-tauri", "app"]);
    assert_eq!(
        dev_backend_path(&cwd, HostOs::MacOs),
        segs(&["/", "src-tauri", "app", "backend", "bin", "nebula-backend"])
    );
}

#[test]
fn dev_path_from_empty_dir() {
    assert_eq!(dev_backend_path(&Vec::new(), HostOs::Linux), segs(&["backend", "bin", "nebula-backend"]));
}

#[test]
fn release_prefers_suffixed_binary() {
    let dir = segs(&["/", "opt", "nebula"]);
    assert_eq!(
        release_backend_path(&dir, HostOs::Linux, true),
        segs(&["/", "opt", "nebula", "nebula-backend-x86_64-unknown-linux-gnu"])
    );
    assert_eq!(
        release_backend_path(&dir, HostOs::Windows, true),
        segs(&["/", "opt", "nebula", "nebula-backend-x86_64-pc-windows-msvc.exe"])
    );
}

#[test]
fn release_falls_back_to_unsuffixed_binary() {
    let dir = segs(&["/", "opt", "nebula"]);
    assert_eq!(release_backend_path(&dir, HostOs::Linux, false), segs(&["/", "opt", "nebula", "nebula-backend"]));
    assert_eq!(release_backend_path(&dir, HostOs::Windows, false), segs(&["/", "opt", "nebula", "nebula-backend.exe"]));
}

#[test]
fn release_without_triple_uses_plain_name() {
    let dir = segs(&["/", "Applications", "Nebula.app", "Contents", "MacOS"]);
    assert_eq!(release_suffixed_path(&dir, HostOs::MacOs), None);
    assert_eq!(
        release_backend_path(&dir, HostOs::MacOs, true),
        segs(&["/", "Applications", "Nebula.app", "Contents", "MacOS", "nebula-backend"])
    );
}

#[test]
fn probe_only_in_release() {
    let dir = segs(&["/", "opt", "nebula"]);
    assert_eq!(suffix_probe(BuildMode::Development, &dir, HostOs::Linux), None);
    assert_eq!(
        suffix_probe(BuildMode::Release, &dir, HostOs::Linux),
        Some(segs(&["/", "opt", "nebula", "nebula-backend-x86_64-unknown-linux-gnu"]))
    );
    assert_eq!(suffix_probe(BuildMode::Release, &dir, HostOs::Other), None);
}

#[test]
fn locate_dispatches_on_mode() {
    let dir = segs(&["/", "w", "src-tauri"]);
    assert_eq!(
        locate_backend(BuildMode::Development, &dir, HostOs::Linux, true),
        segs(&["/", "w", "backend", "bin", "nebula-backend"])
    );
    assert_eq!(
        locate_backend(BuildMode::Release, &dir, HostOs::Linux, false),
        segs(&["/", "w", "src-tauri", "nebula-backend"])
    );
}
