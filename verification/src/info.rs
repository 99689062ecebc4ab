//! The two reports on the running process: what application this is, and
//! what platform it runs on.
//!
//! Both are read fresh from the host environment on every request. Nothing is
//! cached and nothing can fail: the values are fixed for the life of the
//! process.

use vstd::prelude::*;

verus! {

/// The name under which the application reports itself.
pub open spec fn app_name() -> Seq<char> {
    "FatturaAnalyzer v2"@
}

/// The constants of the running process, as the shell read them from its
/// build and its platform.
#[derive(Debug, PartialEq, Eq)]
pub struct HostEnvironment {
    /// The application's version, fixed at build time.
    pub version: String,
    /// The version of the windowing runtime that hosts the application.
    pub runtime_version: String,
    /// The operating system.
    pub os: String,
    /// The processor architecture.
    pub arch: String,
    /// The family of the operating system.
    pub family: String,
    /// The suffix of executable files on this platform.
    pub exe_suffix: String,
    /// The prefix of dynamic libraries on this platform.
    pub dll_prefix: String,
    /// The suffix of dynamic libraries on this platform.
    pub dll_suffix: String,
    /// Whether this is a development build.
    pub debug: bool,
}

/// The model of a [`HostEnvironment`].
pub struct HostEnvironmentView {
    pub version: Seq<char>,
    pub runtime_version: Seq<char>,
    pub os: Seq<char>,
    pub arch: Seq<char>,
    pub family: Seq<char>,
    pub exe_suffix: Seq<char>,
    pub dll_prefix: Seq<char>,
    pub dll_suffix: Seq<char>,
    pub debug: bool,
}

impl View for HostEnvironment {
    type V = HostEnvironmentView;

    open spec fn view(&self) -> HostEnvironmentView {
        HostEnvironmentView {
            version: self.version@,
            runtime_version: self.runtime_version@,
            os: self.os@,
            arch: self.arch@,
            family: self.family@,
            exe_suffix: self.exe_suffix@,
            dll_prefix: self.dll_prefix@,
            dll_suffix: self.dll_suffix@,
            debug: self.debug,
        }
    }
}

/// What application is running: its name, its version, the version of the
/// runtime that hosts it, the platform, and whether it is a development build.
#[derive(Debug, PartialEq, Eq)]
pub struct AppInfo {
    pub name: String,
    pub version: String,
    pub tauri_version: String,
    pub platform: String,
    pub arch: String,
    pub debug: bool,
}

/// The model of an [`AppInfo`].
pub struct AppInfoView {
    pub name: Seq<char>,
    pub version: Seq<char>,
    pub tauri_version: Seq<char>,
    pub platform: Seq<char>,
    pub arch: Seq<char>,
    pub debug: bool,
}

impl View for AppInfo {
    type V = AppInfoView;

    open spec fn view(&self) -> AppInfoView {
        AppInfoView {
            name: self.name@,
            version: self.version@,
            tauri_version: self.tauri_version@,
            platform: self.platform@,
            arch: self.arch@,
            debug: self.debug,
        }
    }
}

/// What platform the process runs on.
#[derive(Debug, PartialEq, Eq)]
pub struct SystemInfo {
    pub os: String,
    pub arch: String,
    pub family: String,
    pub exe_suffix: String,
    pub dll_prefix: String,
    pub dll_suffix: String,
}

/// The model of a [`SystemInfo`].
pub struct SystemInfoView {
    pub os: Seq<char>,
    pub arch: Seq<char>,
    pub family: Seq<char>,
    pub exe_suffix: Seq<char>,
    pub dll_prefix: Seq<char>,
    pub dll_suffix: Seq<char>,
}

impl View for SystemInfo {
    type V = SystemInfoView;

    open spec fn view(&self) -> SystemInfoView {
        SystemInfoView {
            os: self.os@,
            arch: self.arch@,
            family: self.family@,
            exe_suffix: self.exe_suffix@,
            dll_prefix: self.dll_prefix@,
            dll_suffix: self.dll_suffix@,
        }
    }
}

/// The application report of a host.
pub open spec fn app_info_of(host: HostEnvironmentView) -> AppInfoView {
    AppInfoView {
        name: app_name(),
        version: host.version,
        tauri_version: host.runtime_version,
        platform: host.os,
        arch: host.arch,
        debug: host.debug,
    }
}

/// The platform report of a host.
pub open spec fn system_info_of(host: HostEnvironmentView) -> SystemInfoView {
    SystemInfoView {
        os: host.os,
        arch: host.arch,
        family: host.family,
        exe_suffix: host.exe_suffix,
        dll_prefix: host.dll_prefix,
        dll_suffix: host.dll_suffix,
    }
}

/// What a request for the application report may answer on a host: success,
/// with the report of that host.
pub open spec fn app_info_reported(host: HostEnvironmentView, reply: Result<AppInfo, String>) -> bool {
    reply matches Ok(info) && info@ == app_info_of(host)
}

/// What a request for the platform report may answer on a host: success,
/// with the report of that host.
pub open spec fn system_info_reported(
    host: HostEnvironmentView,
    reply: Result<SystemInfo, String>,
) -> bool {
    reply matches Ok(info) && info@ == system_info_of(host)
}

/// Reports what application is running. Never fails.
pub fn get_app_info(host: &HostEnvironment) -> (reply: Result<AppInfo, String>)
    ensures
        app_info_reported(host@, reply),
{
    Ok(
        AppInfo {
            name: "FatturaAnalyzer v2".to_owned(),
            version: host.version.clone(),
            tauri_version: host.runtime_version.clone(),
            platform: host.os.clone(),
            arch: host.arch.clone(),
            debug: host.debug,
        },
    )
}

/// Reports what platform the process runs on. Never fails.
pub fn get_system_info(host: &HostEnvironment) -> (reply: Result<SystemInfo, String>)
    ensures
        system_info_reported(host@, reply),
{
    Ok(
        SystemInfo {
            os: host.os.clone(),
            arch: host.arch.clone(),
            family: host.family.clone(),
            exe_suffix: host.exe_suffix.clone(),
            dll_prefix: host.dll_prefix.clone(),
            dll_suffix: host.dll_suffix.clone(),
        },
    )
}

/// The application report is a function of the host alone: any two answers
/// to the request on one host are successes with identical records.
pub proof fn lemma_app_info_is_pure(
    host: HostEnvironmentView,
    first: Result<AppInfo, String>,
    second: Result<AppInfo, String>,
)
    requires
        app_info_reported(host, first),
        app_info_reported(host, second),
    ensures
        first matches Ok(a) && second matches Ok(b) && a@ == b@,
{
}

/// The platform report is a function of the host alone: any two answers to
/// the request on one host are successes with identical records.
pub proof fn lemma_system_info_is_pure(
    host: HostEnvironmentView,
    first: Result<SystemInfo, String>,
    second: Result<SystemInfo, String>,
)
    requires
        system_info_reported(host, first),
        system_info_reported(host, second),
    ensures
        first matches Ok(a) && second matches Ok(b) && a@ == b@,
{
}

} // verus!
