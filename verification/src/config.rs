//! Where the outside tools and the download folder are found. The
//! environment is read by the caller; what is made of it is decided here.

use vstd::prelude::*;
use crate::paths::{joined_path, path_join};
use crate::text::{blank, is_blank, str_eq};

verus! {

/// Where the transcoder is looked for unless the environment says otherwise.
pub const DEFAULT_FFMPEG_PATH: &'static str = "/opt/homebrew/bin/ffmpeg";

/// Where the probe is looked for unless the environment says otherwise.
pub const DEFAULT_FFPROBE_PATH: &'static str = "/opt/homebrew/bin/ffprobe";

/// Where the download agent is looked for unless the environment says
/// otherwise.
pub const DEFAULT_ARIA2C_PATH: &'static str = "/opt/homebrew/bin/aria2c";

/// Where the sync agent is looked for unless the environment says
/// otherwise.
pub const DEFAULT_BAIDU_PCS_PATH: &'static str = "/opt/homebrew/bin/BaiduPCS-Go";

/// The variable that names the transcoder.
pub const ENV_FFMPEG_PATH: &'static str = "REACTION_CUT_FFMPEG_PATH";

/// The variable that names the probe.
pub const ENV_FFPROBE_PATH: &'static str = "REACTION_CUT_FFPROBE_PATH";

/// The variable that names the download agent.
pub const ENV_ARIA2C_PATH: &'static str = "REACTION_CUT_ARIA2C_PATH";

/// The variable that names the sync agent.
pub const ENV_BAIDU_PCS_PATH: &'static str = "REACTION_CUT_BAIDU_PCS_PATH";

/// The variable that names the folder of the sync agent's configuration.
pub const ENV_BAIDU_PCS_CONFIG_DIR: &'static str = "BAIDUPCS_GO_CONFIG_DIR";

/// The platform that the process runs on.
#[derive(Clone, Copy, Debug, PartialEq, Eq, Structural)]
pub enum Platform {
    Windows,
    MacOs,
    Linux,
}

/// The path of a tool: what the environment names, unless that is missing
/// or blank; then `fallback`.
pub open spec fn bin_path(env_value: Option<Seq<char>>, fallback: Seq<char>) -> Seq<char> {
    match env_value {
        Some(v) => if is_blank(v) {
            fallback
        } else {
            v
        },
        None => fallback,
    }
}

/// The text of an optional text slice.
pub open spec fn opt_str(s: Option<&str>) -> Option<Seq<char>> {
    match s {
        Some(t) => Some(t@),
        None => None,
    }
}

/// Finds the path of a tool.
pub fn resolve_bin_path(env_value: Option<&str>, fallback: &str) -> (r: String)
    ensures
        r@ == bin_path(opt_str(env_value), fallback@),
{
    match env_value {
        Some(v) if !blank(v) => String::from_str(v),
        _ => String::from_str(fallback),
    }
}

/// The path of the transcoder, given what the environment names.
pub fn resolve_ffmpeg_path(env_value: Option<&str>) -> (r: String)
    ensures
        r@ == bin_path(opt_str(env_value), DEFAULT_FFMPEG_PATH@),
{
    resolve_bin_path(env_value, DEFAULT_FFMPEG_PATH)
}

/// The path of the probe, given what the environment names.
pub fn resolve_ffprobe_path(env_value: Option<&str>) -> (r: String)
    ensures
        r@ == bin_path(opt_str(env_value), DEFAULT_FFPROBE_PATH@),
{
    resolve_bin_path(env_value, DEFAULT_FFPROBE_PATH)
}

/// The path of the sync agent, given what the environment names.
pub fn resolve_baidu_pcs_path(env_value: Option<&str>) -> (r: String)
    ensures
        r@ == bin_path(opt_str(env_value), DEFAULT_BAIDU_PCS_PATH@),
{
    resolve_bin_path(env_value, DEFAULT_BAIDU_PCS_PATH)
}

/// The places in which a tool is looked for, in order: what the environment
/// names, the default path unless that is what the environment names, the
/// bare name, and on Windows the bare name with `.exe`.
pub open spec fn candidates(
    env_value: Option<Seq<char>>,
    default_path: Seq<char>,
    name: Seq<char>,
    windows: bool,
) -> Seq<Seq<char>> {
    let named: Seq<Seq<char>> = match env_value {
        Some(v) => if is_blank(v) {
            Seq::empty()
        } else {
            seq![v]
        },
        None => Seq::empty(),
    };
    let with_default = if named.len() == 1 && named[0] == default_path {
        named
    } else {
        named.push(default_path)
    };
    let with_name = with_default.push(name);
    if windows {
        with_name.push(name + ".exe"@)
    } else {
        with_name
    }
}

/// Lists the places in which a tool is looked for.
pub fn resolve_candidates(env_value: Option<&str>, default_path: &str, name: &str, windows: bool) -> (r:
    Vec<String>)
    ensures
        crate::upload_queue::texts_of(r@) == candidates(
            opt_str(env_value),
            default_path@,
            name@,
            windows,
        ),
{
    let mut list: Vec<String> = Vec::new();
    let mut has_default = false;
    if let Some(v) = env_value {
        if !blank(v) {
            has_default = str_eq(v, default_path);
            list.push(String::from_str(v));
        }
    }
    if !has_default {
        list.push(String::from_str(default_path));
    }
    list.push(String::from_str(name));
    if windows {
        let mut exe = String::from_str(name);
        exe.append(".exe");
        list.push(exe);
    }
    assert(crate::upload_queue::texts_of(list@) =~= candidates(
        opt_str(env_value),
        default_path@,
        name@,
        windows,
    ));
    list
}

/// The places in which the download agent is looked for.
pub fn resolve_aria2c_candidates(env_value: Option<&str>, windows: bool) -> (r: Vec<String>)
    ensures
        crate::upload_queue::texts_of(r@) == candidates(
            opt_str(env_value),
            DEFAULT_ARIA2C_PATH@,
            "aria2c"@,
            windows,
        ),
{
    resolve_candidates(env_value, DEFAULT_ARIA2C_PATH, "aria2c", windows)
}

/// The places in which the sync agent is looked for.
pub fn resolve_baidu_pcs_candidates(env_value: Option<&str>, windows: bool) -> (r: Vec<String>)
    ensures
        crate::upload_queue::texts_of(r@) == candidates(
            opt_str(env_value),
            DEFAULT_BAIDU_PCS_PATH@,
            "BaiduPCS-Go"@,
            windows,
        ),
{
    resolve_candidates(env_value, DEFAULT_BAIDU_PCS_PATH, "BaiduPCS-Go", windows)
}

/// The folder below which the download folder lies: the home folder, or
/// where none is known the root of the system drive on Windows and the
/// folder for temporary files elsewhere.
pub open spec fn base_folder(home: Option<Seq<char>>, windows: bool) -> Seq<char> {
    match home {
        Some(h) => h,
        None => if windows {
            "C:\\"@
        } else {
            "/tmp"@
        },
    }
}

/// Finds the folder below which the download folder lies.
pub fn download_base(home: Option<&str>, windows: bool) -> (r: String)
    ensures
        r@ == base_folder(opt_str(home), windows),
{
    match home {
        Some(h) => String::from_str(h),
        None => if windows {
            String::from_str("C:\\")
        } else {
            String::from_str("/tmp")
        },
    }
}

/// The download folder: `Downloads` below the base folder.
pub fn default_download_dir(home: Option<&str>, windows: bool) -> (r: String)
    ensures
        r@ == joined_path(base_folder(opt_str(home), windows), "Downloads"@),
{
    let base = download_base(home, windows);
    path_join(base.as_str(), "Downloads")
}

/// The folder for temporary files: `temp` below the download folder.
pub fn default_temp_dir(home: Option<&str>, windows: bool) -> (r: String)
    ensures
        r@ == joined_path(
            joined_path(base_folder(opt_str(home), windows), "Downloads"@),
            "temp"@,
        ),
{
    let downloads = default_download_dir(home, windows);
    path_join(downloads.as_str(), "temp")
}

/// The file name of a tool: on Windows with `.exe`.
pub fn bin_name(base: &str, windows: bool) -> (r: String)
    ensures
        r@ == if windows {
            base@ + ".exe"@
        } else {
            base@
        },
{
    let mut name = String::from_str(base);
    if windows {
        name.append(".exe");
    }
    name
}

/// The folder of the bundled tools for a platform.
pub fn platform_subdir(platform: Platform) -> (r: &'static str)
    ensures
        r@ == match platform {
            Platform::Windows => "windows"@,
            Platform::MacOs => "macos"@,
            Platform::Linux => "linux"@,
        },
{
    match platform {
        Platform::Windows => "windows",
        Platform::MacOs => "macos",
        Platform::Linux => "linux",
    }
}

/// Which of two candidate files is the bundled tool: the one in the
/// platform's folder where it exists, else the one in the common folder
/// where that exists.
pub fn resolve_bin_in_dirs(
    in_platform_dir: String,
    in_common_dir: String,
    platform_exists: bool,
    common_exists: bool,
) -> (r: Option<String>)
    ensures
        r == if platform_exists {
            Some(in_platform_dir)
        } else if common_exists {
            Some(in_common_dir)
        } else {
            None
        },
{
    if platform_exists {
        Some(in_platform_dir)
    } else if common_exists {
        Some(in_common_dir)
    } else {
        None
    }
}

} // verus!
