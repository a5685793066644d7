//! Per-OS lookup table and fixed values of the backend contract.
use vstd::prelude::*;

verus! {

/// The host operating system, resolved once at startup.
#[derive(Clone, Copy, Debug, PartialEq, Eq, Structural)]
pub enum HostOs {
    Windows,
    MacOs,
    Linux,
    Other,
}

/// Whether the shell runs from a development checkout or a packaged release.
#[derive(Clone, Copy, Debug, PartialEq, Eq, Structural)]
pub enum BuildMode {
    Development,
    Release,
}

/// Address the backend is told to bind.
pub fn backend_addr() -> (r: &'static str)
    ensures
        r@ == "127.0.0.1:8080"@,
{
    "127.0.0.1:8080"
}

/// URL under which the front-end reaches the backend.
pub fn get_backend_url() -> (r: String)
    ensures
        r@ == "http://127.0.0.1:8080"@,
{
    "http://127.0.0.1:8080".to_owned()
}

pub open spec fn spec_executable_name(os: HostOs) -> Seq<char> {
    if os == HostOs::Windows {
        "nebula-backend.exe"@
    } else {
        "nebula-backend"@
    }
}

/// Packaged name of the backend, carrying the target triple, where the OS has one.
pub open spec fn spec_suffixed_executable_name(os: HostOs) -> Option<Seq<char>> {
    match os {
        HostOs::Windows => Some("nebula-backend-x86_64-pc-windows-msvc.exe"@),
        HostOs::Linux => Some("nebula-backend-x86_64-unknown-linux-gnu"@),
        _ => None,
    }
}

/// Program that opens a folder in the OS's file manager, where the OS has one.
pub open spec fn spec_folder_opener(os: HostOs) -> Option<Seq<char>> {
    match os {
        HostOs::Windows => Some("explorer"@),
        HostOs::MacOs => Some("open"@),
        HostOs::Linux => Some("xdg-open"@),
        HostOs::Other => None,
    }
}

/// File name of the backend executable built for `os`.
pub fn executable_name(os: HostOs) -> (r: &'static str)
    ensures
        r@ == spec_executable_name(os),
{
    if os == HostOs::Windows {
        "nebula-backend.exe"
    } else {
        "nebula-backend"
    }
}

/// File name of the backend as release packaging embeds it, with its target triple.
pub fn suffixed_executable_name(os: HostOs) -> (r: Option<&'static str>)
    ensures
        r is Some == spec_suffixed_executable_name(os) is Some,
        r is Some ==> r->0@ == spec_suffixed_executable_name(os)->0,
{
    match os {
        HostOs::Windows => Some("nebula-backend-x86_64-pc-windows-msvc.exe"),
        HostOs::Linux => Some("nebula-backend-x86_64-unknown-linux-gnu"),
        _ => None,
    }
}

/// The file-manager program that `open_folder` launches on `os`.
pub fn folder_opener(os: HostOs) -> (r: Option<&'static str>)
    ensures
        r is Some == spec_folder_opener(os) is Some,
        r is Some ==> r->0@ == spec_folder_opener(os)->0,
{
    match os {
        HostOs::Windows => Some("explorer"),
        HostOs::MacOs => Some("open"),
        HostOs::Linux => Some("xdg-open"),
        HostOs::Other => None,
    }
}

} // verus!
