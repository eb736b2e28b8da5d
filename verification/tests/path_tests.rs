use vrsc_rpc::chain_config::ConfigFile;
use vrsc_rpc::coin_config::ConfigFile as CoinConfigFile;
use vrsc_rpc::text::ascii_uppercase;
use vrsc_rpc::error::Error;
use vrsc_rpc::identity::QualifiedName;
use vrsc_rpc::platform::OsKind;

fn segs(parts: &[&str]) -> Vec<String> {
    parts.iter().map(|s| s.to_string()).collect()
}

#[test]
fn komodo_folder_linux_family_under_home() {
    for os in [OsKind::Ubuntu, OsKind::Linux, OsKind::Debian, OsKind::OracleLinux] {
        let r = ConfigFile::komodo_installation_folder(
            os,
            Some("/home/u".to_string()),
            Some("/home/u/.local/share".to_string()),
        );
        assert_eq!(r, Ok(segs(&["/home/u", ".komodo"])));
    }
}

#[test]
fn komodo_folder_mac_windows_under_local_data() {
    for os in [OsKind::Macos, OsKind::Windows] {
        let r = ConfigFile::komodo_installation_folder(
            os,
            Some("/home/u".to_string()),
            Some("/data/local".to_string()),
        );
        assert_eq!(r, Ok(segs(&["/data/local", "Komodo"])));
    }
}

#[test]
fn komodo_folder_errors() {
    let r = ConfigFile::komodo_installation_folder(OsKind::Other, Some("h".to_string()), None);
    assert_eq!(r, Err(Error::UnsupportedPlatform));
    let r = ConfigFile::komodo_installation_folder(OsKind::Linux, None, None);
    assert_eq!(r, Err(Error::PathNotFound));
    let r = ConfigFile::komodo_installation_folder(OsKind::Macos, Some("h".to_string()), None);
    assert_eq!(r, Err(Error::PathNotFound));
}

#[test]
fn verustest_folder_per_platform() {
    let r = ConfigFile::verustest_installation_folder(OsKind::Debian, Some("/h".to_string()));
    assert_eq!(r, Ok(segs(&["/h", ".verustest", "pbaas"])));
    let r = ConfigFile::verustest_installation_folder(OsKind::Macos, Some("/h".to_string()));
    assert_eq!(
        r,
        Ok(segs(&[
            "/h",
            "Library",
            "Application Support",
            "VerusTest",
            "pbaas"
        ]))
    );
    // the test harness supports fewer platforms than the root install does
    let r = ConfigFile::verustest_installation_folder(OsKind::Windows, Some("/h".to_string()));
    assert_eq!(r, Err(Error::UnsupportedPlatform));
    let r =
        ConfigFile::verustest_installation_folder(OsKind::OracleLinux, Some("/h".to_string()));
    assert_eq!(r, Err(Error::UnsupportedPlatform));
    let r = ConfigFile::verustest_installation_folder(OsKind::Windows, None);
    assert_eq!(r, Err(Error::PathNotFound));
}

#[test]
fn vrsc_config_path_per_network() {
    let r = ConfigFile::vrsc_config_path(false, OsKind::Linux, Some("/h".to_string()), None);
    assert_eq!(r, Ok(segs(&["/h", ".komodo", "VRSC", "VRSC.conf"])));
    let r = ConfigFile::vrsc_config_path(true, OsKind::Linux, Some("/h".to_string()), None);
    assert_eq!(r, Ok(segs(&["/h", ".komodo", "vrsctest", "vrsctest.conf"])));
}

#[test]
fn pbaas_config_path_testnet_only() {
    let hex = "f315367528394674d8c8c6ef4b01e316";
    let r = ConfigFile::pbaas_config_path(true, hex, OsKind::Ubuntu, Some("/h".to_string()));
    assert_eq!(
        r,
        Ok(segs(&[
            "/h",
            ".verustest",
            "pbaas",
            hex,
            "f315367528394674d8c8c6ef4b01e316.conf"
        ]))
    );
    let r = ConfigFile::pbaas_config_path(false, hex, OsKind::Ubuntu, Some("/h".to_string()));
    assert_eq!(r, Err(Error::NotImplemented));
}

#[test]
fn end_to_end_linux_root_chain_resolution() {
    // a Linux-family host, a config file holding only the credentials:
    // the path is the dotfile convention and the canonical port fills in
    let path = ConfigFile::vrsc_config_path(
        false,
        OsKind::Linux,
        Some("/home/alice".to_string()),
        None,
    )
    .unwrap();
    assert_eq!(
        path,
        segs(&["/home/alice", ".komodo", "VRSC", "VRSC.conf"])
    );
    let config = ConfigFile::vrsc(false, "rpcuser=alice\nrpcpassword=secret\n").unwrap();
    assert_eq!(
        config,
        ConfigFile {
            rpcuser: "alice".to_string(),
            rpcpassword: "secret".to_string(),
            rpcport: 8232,
        }
    );
}

#[test]
fn coin_folder_per_platform() {
    let r = CoinConfigFile::coin_installation_folder(OsKind::Ubuntu, Some("/h".to_string()));
    assert_eq!(r, Ok(segs(&["/h", ".komodo"])));
    // the coin locator keeps the named directory under home, unlike the
    // chain locator's local-data convention
    let r = CoinConfigFile::coin_installation_folder(OsKind::Macos, Some("/h".to_string()));
    assert_eq!(r, Ok(segs(&["/h", "Komodo"])));
    let r = CoinConfigFile::coin_installation_folder(OsKind::Windows, Some("/h".to_string()));
    assert_eq!(r, Ok(segs(&["/h", "Komodo"])));
    // and it covers fewer Linux flavours
    let r = CoinConfigFile::coin_installation_folder(OsKind::Debian, Some("/h".to_string()));
    assert_eq!(r, Err(Error::UnsupportedPlatform));
    let r = CoinConfigFile::coin_installation_folder(OsKind::Linux, None);
    assert_eq!(r, Err(Error::PathNotFound));
}

#[test]
fn coin_config_path_by_ticker() {
    let r = CoinConfigFile::coin_config_path("KMD", OsKind::Linux, Some("/h".to_string()));
    assert_eq!(r, Ok(segs(&["/h", ".komodo", "komodo.conf"])));
    let r = CoinConfigFile::coin_config_path("doge", OsKind::Linux, Some("/h".to_string()));
    assert_eq!(r, Ok(segs(&["/h", ".komodo", "DOGE", "DOGE.conf"])));
    let r = CoinConfigFile::coin_config_path("Vrsc", OsKind::Windows, Some("/h".to_string()));
    assert_eq!(r, Ok(segs(&["/h", "Komodo", "VRSC", "VRSC.conf"])));
    let r = CoinConfigFile::coin_config_path("kmd", OsKind::Other, Some("/h".to_string()));
    assert_eq!(r, Err(Error::UnsupportedPlatform));
}

#[test]
fn ascii_uppercase_touches_letters_only() {
    assert_eq!(ascii_uppercase("kmd"), "KMD");
    assert_eq!(ascii_uppercase("MiXeD-09_case"), "MIXED-09_CASE");
    assert_eq!(ascii_uppercase(""), "");
    assert_eq!(ascii_uppercase("äöu"), "äöU");
}

#[test]
fn qualified_name_shape() {
    let q = QualifiedName {
        name: "alice".to_string(),
        parentid: None,
        namespace: Some("vrsc".to_string()),
    };
    assert_eq!(q.clone(), q);
    assert_eq!(q.name, "alice");
}
