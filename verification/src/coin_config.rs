//! Resolving a komodo-family coin daemon's connection settings by ticker.
//!
//! The coin's ticker picks the configuration file; the root coin's
//! canonical default port stands in for an absent `rpcport` entry, while
//! every other coin must set one explicitly.

use crate::config::resolve_config;
use crate::config::resolved_config;
use crate::error::Error;
use crate::platform::host_home_dir;
use crate::platform::host_os_kind;
use crate::platform::OsKind;
use crate::text::ascii_uppercase;
use crate::text::str_eq;
use crate::text::upper_text;
use vstd::prelude::*;
use vstd::string::*;

verus! {

/// Let the system find a local installation, or supply your own connection
/// details.
#[derive(Clone, Debug)]
pub enum Auth {
    UserPass(String, String, String),
    ConfigFile,
}

/// The connection settings resolved for a coin daemon.
#[derive(Debug, PartialEq, Eq)]
pub struct ConfigFile {
    pub rpcuser: String,
    pub rpcpassword: String,
    pub rpcport: u16,
}

/// Whether a coin's installation directory is the home dotfile directory on
/// this platform.  The coin locator covers fewer Linux flavours than the
/// chain locator does.
pub open spec fn coin_linux_family(os: OsKind) -> bool {
    os == OsKind::Ubuntu || os == OsKind::Linux
}

/// Whether a coin's installation directory is the named directory under the
/// home directory, the convention this locator uses on macOS and Windows.
pub open spec fn coin_mac_windows(os: OsKind) -> bool {
    os == OsKind::Macos || os == OsKind::Windows
}

/// A coin's base directory components: under the home directory, the
/// dotfile name on the Linux family and the capitalized name on macOS and
/// Windows.  A missing home directory is a not-found error before the
/// platform is even considered.
pub open spec fn coin_folder_spec(os: OsKind, home: Option<Seq<char>>) -> Result<
    Seq<Seq<char>>,
    Error,
> {
    match home {
        None => Err(Error::PathNotFound),
        Some(h) => if coin_linux_family(os) {
            Ok(seq![h, ".komodo"@])
        } else if coin_mac_windows(os) {
            Ok(seq![h, "Komodo"@])
        } else {
            Err(Error::UnsupportedPlatform)
        },
    }
}

/// A coin's config file components: the root coin reads `komodo.conf` in
/// the base directory itself, every other coin reads
/// `<TICKER>/<TICKER>.conf` with the ticker ASCII-uppercased.
pub open spec fn coin_path_spec(coin: Seq<char>, os: OsKind, home: Option<Seq<char>>) -> Result<
    Seq<Seq<char>>,
    Error,
> {
    match coin_folder_spec(os, home) {
        Err(e) => Err(e),
        Ok(p) => Ok(
            if coin == "KMD"@ {
                p + seq!["komodo.conf"@]
            } else {
                p + seq![upper_text(coin), upper_text(coin) + ".conf"@]
            },
        ),
    }
}

/// The default `rpcport` text a coin ticker enjoys: the komodo root coin
/// alone has one, since its installer does not always write `rpcport`.
pub open spec fn coin_default_port(coin: Seq<char>) -> Option<Seq<char>> {
    if coin == "KMD"@ {
        Some("7771"@)
    } else {
        None
    }
}

impl ConfigFile {
    /// The coin base directory for the given platform facts.
    pub fn coin_installation_folder(os: OsKind, home: Option<String>) -> (r: Result<
        Vec<String>,
        Error,
    >)
        ensures
            ({
                let s = coin_folder_spec(os, home.deep_view());
                match r {
                    Ok(p) => s matches Ok(t) && p.deep_view() == t,
                    Err(e) => s matches Err(t) && e == t,
                }
            }),
    {
        match home {
            None => Err(Error::PathNotFound),
            Some(h) => {
                if os == OsKind::Ubuntu || os == OsKind::Linux {
                    let mut p: Vec<String> = Vec::new();
                    p.push(h);
                    p.push(String::from_str(".komodo"));
                    proof {
                        assert(p.deep_view() =~= coin_folder_spec(os, home.deep_view())->Ok_0);
                    }
                    Ok(p)
                } else if os == OsKind::Macos || os == OsKind::Windows {
                    let mut p: Vec<String> = Vec::new();
                    p.push(h);
                    p.push(String::from_str("Komodo"));
                    proof {
                        assert(p.deep_view() =~= coin_folder_spec(os, home.deep_view())->Ok_0);
                    }
                    Ok(p)
                } else {
                    Err(Error::UnsupportedPlatform)
                }
            },
        }
    }

    /// A coin's config file components for the given platform facts.
    pub fn coin_config_path(coin: &str, os: OsKind, home: Option<String>) -> (r: Result<
        Vec<String>,
        Error,
    >)
        ensures
            ({
                let s = coin_path_spec(coin@, os, home.deep_view());
                match r {
                    Ok(p) => s matches Ok(t) && p.deep_view() == t,
                    Err(e) => s matches Err(t) && e == t,
                }
            }),
    {
        match Self::coin_installation_folder(os, home) {
            Err(e) => Err(e),
            Ok(mut p) => {
                if str_eq(coin, "KMD") {
                    p.push(String::from_str("komodo.conf"));
                } else {
                    let upper = ascii_uppercase(coin);
                    let file = upper.clone().concat(".conf");
                    p.push(upper);
                    p.push(file);
                }
                proof {
                    assert(p.deep_view() =~= coin_path_spec(coin@, os, home.deep_view())->Ok_0);
                }
                Ok(p)
            },
        }
    }

    /// A coin's config file components on the running system.  Whatever the
    /// platform probes report, a successful result ends in the coin's
    /// configuration file name, and a failure is one of the locator's two
    /// errors.
    pub fn locate_coin_config(coin: &str) -> (r: Result<Vec<String>, Error>)
        ensures
            r matches Ok(p) ==> ({
                let v = p.deep_view();
                if coin@ == "KMD"@ {
                    v.len() == 3 && v.last() == "komodo.conf"@
                } else {
                    v.len() == 4 && v[2] == upper_text(coin@) && v.last() == upper_text(coin@)
                        + ".conf"@
                }
            }),
            r matches Err(e) ==> e == Error::PathNotFound || e == Error::UnsupportedPlatform,
    {
        Self::coin_config_path(coin, host_os_kind(), host_home_dir())
    }

    /// Resolve a coin daemon's connection settings from its config file
    /// text.  An explicit `rpcport` entry always wins; the root coin's
    /// canonical default fills in only when its file has none.
    pub fn new(coin: &str, contents: &str) -> (r: Result<ConfigFile, Error>)
        ensures
            ({
                let s = resolved_config(contents@, coin_default_port(coin@));
                match r {
                    Ok(c) => s matches Ok(t) && c.rpcuser@ == t.0 && c.rpcpassword@ == t.1
                        && c.rpcport == t.2,
                    Err(e) => s matches Err(t) && e == t,
                }
            }),
    {
        let default_port: Option<&str> = if str_eq(coin, "KMD") {
            Some("7771")
        } else {
            None
        };
        match resolve_config(contents, default_port) {
            Ok(c) => Ok(ConfigFile { rpcuser: c.0, rpcpassword: c.1, rpcport: c.2 }),
            Err(e) => Err(e),
        }
    }
}

} // verus!
