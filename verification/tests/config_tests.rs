use vrsc_rpc::chain_config::Auth;
use vrsc_rpc::chain_config::ConfigFile;
use vrsc_rpc::chain_config::{self};
use vrsc_rpc::coin_config;
use vrsc_rpc::config::lookup_config;
use vrsc_rpc::error::Error;

#[test]
fn get_config() {
    let config_file = ConfigFile::vrsc(
        false,
        "rpcuser=1kj23k1l23\nrpcpassword=5jkhkjhl5\nrpcport=27777\n",
    )
    .unwrap();
    println!("{:#?}", &config_file);

    let auth = Auth::UserPass(
        "http://127.0.0.1:27777".to_string(),
        "1kj23k1l23".to_string(),
        "5jkhkjhl5".to_string(),
    );
    assert!(matches!(auth, Auth::UserPass(_, _, _)));

    assert!(matches!(Auth::ConfigFile, Auth::ConfigFile));
}

#[test]
fn split_at_first_equals_only() {
    // a line `a=b=c` yields key `a`, value `b=c`
    assert_eq!(lookup_config("a=b=c", "a"), Some("b=c".to_string()));
    assert_eq!(lookup_config("a=b=c", "b"), None);
}

#[test]
fn lines_without_equals_are_ignored() {
    let text = "# a comment line\n\nrpcuser=alice\njust some words\n";
    assert_eq!(lookup_config(text, "rpcuser"), Some("alice".to_string()));
    assert_eq!(lookup_config(text, "# a comment line"), None);
    assert_eq!(lookup_config(text, "just some words"), None);
    assert_eq!(lookup_config(text, ""), None);
}

#[test]
fn empty_value_and_empty_key() {
    assert_eq!(lookup_config("k=", "k"), Some("".to_string()));
    assert_eq!(lookup_config("=v", ""), Some("v".to_string()));
}

#[test]
fn duplicate_key_last_occurrence_wins() {
    let text = "k=first\nother=x\nk=second";
    assert_eq!(lookup_config(text, "k"), Some("second".to_string()));
    let config = ConfigFile::vrsc(
        false,
        "rpcuser=old\nrpcuser=new\nrpcpassword=pw\nrpcport=2000\n",
    )
    .unwrap();
    assert_eq!(config.rpcuser, "new");
}

#[test]
fn root_chain_default_port_when_absent() {
    let config = ConfigFile::vrsc(false, "rpcuser=alice\nrpcpassword=secret\n").unwrap();
    assert_eq!(
        config,
        ConfigFile {
            rpcuser: "alice".to_string(),
            rpcpassword: "secret".to_string(),
            rpcport: 8232,
        }
    );
}

#[test]
fn root_chain_explicit_port_wins_over_default() {
    let config =
        ConfigFile::vrsc(false, "rpcuser=alice\nrpcpassword=secret\nrpcport=1234\n").unwrap();
    assert_eq!(config.rpcport, 1234);
}

#[test]
fn root_chain_testnet_requires_port() {
    let r = ConfigFile::vrsc(true, "rpcuser=alice\nrpcpassword=secret\n");
    assert_eq!(r, Err(Error::InvalidConfigFile));
    let ok = ConfigFile::vrsc(true, "rpcuser=alice\nrpcpassword=secret\nrpcport=27777\n");
    assert_eq!(ok.unwrap().rpcport, 27777);
}

#[test]
fn sub_chain_missing_settings_rejected() {
    let hex = "f315367528394674d8c8c6ef4b01e316";
    let no_user = "rpcpassword=pw\nrpcport=1000\n";
    let no_pass = "rpcuser=u\nrpcport=1000\n";
    let no_port = "rpcuser=u\nrpcpassword=pw\n";
    assert_eq!(
        ConfigFile::pbaas(true, hex, no_user),
        Err(Error::InvalidConfigFile)
    );
    assert_eq!(
        ConfigFile::pbaas(true, hex, no_pass),
        Err(Error::InvalidConfigFile)
    );
    assert_eq!(
        ConfigFile::pbaas(true, hex, no_port),
        Err(Error::InvalidConfigFile)
    );
    let all = "rpcuser=u\nrpcpassword=pw\nrpcport=1000\n";
    assert_eq!(
        ConfigFile::pbaas(true, hex, all),
        Ok(ConfigFile {
            rpcuser: "u".to_string(),
            rpcpassword: "pw".to_string(),
            rpcport: 1000,
        })
    );
}

#[test]
fn sub_chain_mainnet_not_implemented() {
    let r = ConfigFile::pbaas(false, "abcd", "rpcuser=u\nrpcpassword=pw\nrpcport=1\n");
    assert_eq!(r, Err(Error::NotImplemented));
}

#[test]
fn sub_chain_named_like_root_gets_default() {
    // a sub-chain whose identifier makes its file name coincide with the
    // root chain's canonical one enjoys the same default-port fallback
    let r = ConfigFile::pbaas(true, "VRSC", "rpcuser=u\nrpcpassword=pw\n").unwrap();
    assert_eq!(r.rpcport, 8232);
}

#[test]
fn port_must_parse_as_u16() {
    let bad = "rpcuser=u\nrpcpassword=pw\nrpcport=notanumber\n";
    assert_eq!(ConfigFile::vrsc(false, bad), Err(Error::PortParse));
    let too_big = "rpcuser=u\nrpcpassword=pw\nrpcport=65536\n";
    assert_eq!(ConfigFile::vrsc(false, too_big), Err(Error::PortParse));
    let max = "rpcuser=u\nrpcpassword=pw\nrpcport=65535\n";
    assert_eq!(ConfigFile::vrsc(false, max).unwrap().rpcport, 65535);
}

#[test]
fn empty_text_is_invalid() {
    assert_eq!(ConfigFile::vrsc(false, ""), Err(Error::InvalidConfigFile));
    assert_eq!(
        chain_config::get_config("VRSC.conf", ""),
        Err(Error::InvalidConfigFile)
    );
}

#[test]
fn get_config_default_depends_on_file_name() {
    let text = "rpcuser=u\nrpcpassword=pw\n";
    assert_eq!(
        chain_config::get_config("VRSC.conf", text).unwrap().rpcport,
        8232
    );
    assert_eq!(
        chain_config::get_config("other.conf", text),
        Err(Error::InvalidConfigFile)
    );
}

#[test]
fn coin_config_kmd_default_port() {
    let c = coin_config::ConfigFile::new("KMD", "rpcuser=u\nrpcpassword=pw\n").unwrap();
    assert_eq!(c.rpcport, 7771);
    let c = coin_config::ConfigFile::new("KMD", "rpcuser=u\nrpcpassword=pw\nrpcport=7\n")
        .unwrap();
    assert_eq!(c.rpcport, 7);
    assert_eq!(
        coin_config::ConfigFile::new("DOGE", "rpcuser=u\nrpcpassword=pw\n"),
        Err(Error::InvalidConfigFile)
    );
    assert!(matches!(
        coin_config::Auth::UserPass("a".to_string(), "b".to_string(), "c".to_string()),
        coin_config::Auth::UserPass(_, _, _)
    ));
}
