//! Locating a chain's daemon installation and resolving its connection
//! settings.
//!
//! Paths are handled as sequences of components: the first component is the
//! base directory the platform reports (the user's home or local-data
//! directory) and the rest are the fixed per-chain directory and file names.
//! A caller joins the components into a real filesystem path, checks they
//! exist, and hands the file's text back to the resolution functions here.

use crate::config::chain_default_port;
use crate::config::resolve_config;
use crate::config::resolved_config;
use crate::error::Error;
use crate::platform::host_data_local_dir;
use crate::platform::host_home_dir;
use crate::platform::host_os_kind;
use crate::platform::OsKind;
use crate::text::str_eq;
use vstd::prelude::*;
use vstd::string::*;

verus! {

/// Let the system find a local installation, or supply your own connection
/// details.
#[derive(Clone, Debug)]
pub enum Auth {
    UserPass(String, String, String),
    ConfigFile,
}

/// The connection settings resolved for a daemon: the credentials and port
/// its RPC server was configured with.
#[derive(Debug, PartialEq, Eq)]
pub struct ConfigFile {
    pub rpcuser: String,
    pub rpcpassword: String,
    pub rpcport: u16,
}

/// Whether the komodo-family installation directory lives under the user's
/// home directory on this platform.
pub open spec fn komodo_linux_family(os: OsKind) -> bool {
    os == OsKind::Ubuntu || os == OsKind::Linux || os == OsKind::Debian || os
        == OsKind::OracleLinux
}

/// Whether the komodo-family installation directory lives under the
/// platform's local-data directory.
pub open spec fn komodo_data_family(os: OsKind) -> bool {
    os == OsKind::Macos || os == OsKind::Windows
}

/// Whether the test-harness installation directory is the home dotfile
/// directory on this platform.
pub open spec fn verustest_linux_family(os: OsKind) -> bool {
    os == OsKind::Ubuntu || os == OsKind::Linux || os == OsKind::Debian
}

/// The komodo-family base directory components for a platform: a dotfile
/// directory under the home directory on the Linux family, a named
/// directory under the local-data directory on macOS and Windows, and an
/// unsupported-platform error anywhere else.
pub open spec fn komodo_folder_spec(
    os: OsKind,
    home: Option<Seq<char>>,
    data_local: Option<Seq<char>>,
) -> Result<Seq<Seq<char>>, Error> {
    if komodo_linux_family(os) {
        match home {
            Some(h) => Ok(seq![h, ".komodo"@]),
            None => Err(Error::PathNotFound),
        }
    } else if komodo_data_family(os) {
        match data_local {
            Some(d) => Ok(seq![d, "Komodo"@]),
            None => Err(Error::PathNotFound),
        }
    } else {
        Err(Error::UnsupportedPlatform)
    }
}

/// The test-harness base directory components for a platform, always ending
/// in the fixed `pbaas` sub-directory.  A missing home directory is a
/// not-found error before the platform is even considered.
pub open spec fn verustest_folder_spec(os: OsKind, home: Option<Seq<char>>) -> Result<
    Seq<Seq<char>>,
    Error,
> {
    match home {
        None => Err(Error::PathNotFound),
        Some(h) => if verustest_linux_family(os) {
            Ok(seq![h, ".verustest"@, "pbaas"@])
        } else if os == OsKind::Macos {
            Ok(seq![h, "Library"@, "Application Support"@, "VerusTest"@, "pbaas"@])
        } else {
            Err(Error::UnsupportedPlatform)
        },
    }
}

/// The root chain's config file components: the komodo-family base followed
/// by the network's directory and `<chain-name>.conf` file.
pub open spec fn vrsc_path_spec(
    testnet: bool,
    os: OsKind,
    home: Option<Seq<char>>,
    data_local: Option<Seq<char>>,
) -> Result<Seq<Seq<char>>, Error> {
    match komodo_folder_spec(os, home, data_local) {
        Err(e) => Err(e),
        Ok(p) => Ok(
            p + if testnet {
                seq!["vrsctest"@, "vrsctest.conf"@]
            } else {
                seq!["VRSC"@, "VRSC.conf"@]
            },
        ),
    }
}

/// A sub-chain's config file components: the test-harness base followed by
/// the chain's hex-identifier directory and `<hex>.conf` file.  Only the
/// test network is supported.
pub open spec fn pbaas_path_spec(
    testnet: bool,
    currencyidhex: Seq<char>,
    os: OsKind,
    home: Option<Seq<char>>,
) -> Result<Seq<Seq<char>>, Error> {
    if !testnet {
        Err(Error::NotImplemented)
    } else {
        match verustest_folder_spec(os, home) {
            Err(e) => Err(e),
            Ok(p) => Ok(p + seq![currencyidhex, currencyidhex + ".conf"@]),
        }
    }
}

impl ConfigFile {
    /// The komodo-family base directory for the given platform facts.
    pub fn komodo_installation_folder(
        os: OsKind,
        home: Option<String>,
        data_local: Option<String>,
    ) -> (r: Result<Vec<String>, Error>)
        ensures
            ({
                let s = komodo_folder_spec(os, home.deep_view(), data_local.deep_view());
                match r {
                    Ok(p) => s matches Ok(t) && p.deep_view() == t,
                    Err(e) => s matches Err(t) && e == t,
                }
            }),
    {
        if os == OsKind::Ubuntu || os == OsKind::Linux || os == OsKind::Debian || os
            == OsKind::OracleLinux {
            match home {
                Some(h) => {
                    let mut p: Vec<String> = Vec::new();
                    p.push(h);
                    p.push(String::from_str(".komodo"));
                    proof {
                        assert(p.deep_view() =~= komodo_folder_spec(
                            os,
                            home.deep_view(),
                            data_local.deep_view(),
                        )->Ok_0);
                    }
                    Ok(p)
                },
                None => Err(Error::PathNotFound),
            }
        } else if os == OsKind::Macos || os == OsKind::Windows {
            match data_local {
                Some(d) => {
                    let mut p: Vec<String> = Vec::new();
                    p.push(d);
                    p.push(String::from_str("Komodo"));
                    proof {
                        assert(p.deep_view() =~= komodo_folder_spec(
                            os,
                            home.deep_view(),
                            data_local.deep_view(),
                        )->Ok_0);
                    }
                    Ok(p)
                },
                None => Err(Error::PathNotFound),
            }
        } else {
            Err(Error::UnsupportedPlatform)
        }
    }

    /// The test-harness base directory for the given platform facts.
    pub fn verustest_installation_folder(os: OsKind, home: Option<String>) -> (r: Result<
        Vec<String>,
        Error,
    >)
        ensures
            ({
                let s = verustest_folder_spec(os, home.deep_view());
                match r {
                    Ok(p) => s matches Ok(t) && p.deep_view() == t,
                    Err(e) => s matches Err(t) && e == t,
                }
            }),
    {
        match home {
            None => Err(Error::PathNotFound),
            Some(h) => {
                if os == OsKind::Ubuntu || os == OsKind::Linux || os == OsKind::Debian {
                    let mut p: Vec<String> = Vec::new();
                    p.push(h);
                    p.push(String::from_str(".verustest"));
                    p.push(String::from_str("pbaas"));
                    proof {
                        assert(p.deep_view() =~= verustest_folder_spec(
                            os,
                            home.deep_view(),
                        )->Ok_0);
                    }
                    Ok(p)
                } else if os == OsKind::Macos {
                    let mut p: Vec<String> = Vec::new();
                    p.push(h);
                    p.push(String::from_str("Library"));
                    p.push(String::from_str("Application Support"));
                    p.push(String::from_str("VerusTest"));
                    p.push(String::from_str("pbaas"));
                    proof {
                        assert(p.deep_view() =~= verustest_folder_spec(
                            os,
                            home.deep_view(),
                        )->Ok_0);
                    }
                    Ok(p)
                } else {
                    Err(Error::UnsupportedPlatform)
                }
            },
        }
    }

    /// The komodo-family base directory of the running system.  Whatever the
    /// platform probes report, a successful result has the base directory
    /// first and the fixed installation directory name second, and a
    /// failure is one of the locator's two errors.
    pub fn get_komodo_installation_folder() -> (r: Result<Vec<String>, Error>)
        ensures
            r matches Ok(p) ==> p.deep_view().len() == 2 && (p.deep_view()[1] == ".komodo"@
                || p.deep_view()[1] == "Komodo"@),
            r matches Err(e) ==> e == Error::PathNotFound || e == Error::UnsupportedPlatform,
    {
        Self::komodo_installation_folder(host_os_kind(), host_home_dir(), host_data_local_dir())
    }

    /// The test-harness base directory of the running system.  Whatever the
    /// platform probes report, a successful result ends in the fixed
    /// `pbaas` sub-directory, and a failure is one of the locator's two
    /// errors.
    pub fn get_verustest_installation_folder() -> (r: Result<Vec<String>, Error>)
        ensures
            r matches Ok(p) ==> p.deep_view().len() >= 3 && p.deep_view().last() == "pbaas"@,
            r matches Err(e) ==> e == Error::PathNotFound || e == Error::UnsupportedPlatform,
    {
        Self::verustest_installation_folder(host_os_kind(), host_home_dir())
    }

    /// The root chain's config file components for the given platform facts.
    pub fn vrsc_config_path(
        testnet: bool,
        os: OsKind,
        home: Option<String>,
        data_local: Option<String>,
    ) -> (r: Result<Vec<String>, Error>)
        ensures
            ({
                let s = vrsc_path_spec(testnet, os, home.deep_view(), data_local.deep_view());
                match r {
                    Ok(p) => s matches Ok(t) && p.deep_view() == t,
                    Err(e) => s matches Err(t) && e == t,
                }
            }),
    {
        match Self::komodo_installation_folder(os, home, data_local) {
            Err(e) => Err(e),
            Ok(mut p) => {
                if testnet {
                    p.push(String::from_str("vrsctest"));
                    p.push(String::from_str("vrsctest.conf"));
                } else {
                    p.push(String::from_str("VRSC"));
                    p.push(String::from_str("VRSC.conf"));
                }
                proof {
                    assert(p.deep_view() =~= vrsc_path_spec(
                        testnet,
                        os,
                        home.deep_view(),
                        data_local.deep_view(),
                    )->Ok_0);
                }
                Ok(p)
            },
        }
    }

    /// A sub-chain's config file components for the given platform facts.
    pub fn pbaas_config_path(
        testnet: bool,
        currencyidhex: &str,
        os: OsKind,
        home: Option<String>,
    ) -> (r: Result<Vec<String>, Error>)
        ensures
            ({
                let s = pbaas_path_spec(testnet, currencyidhex@, os, home.deep_view());
                match r {
                    Ok(p) => s matches Ok(t) && p.deep_view() == t,
                    Err(e) => s matches Err(t) && e == t,
                }
            }),
    {
        if !testnet {
            return Err(Error::NotImplemented);
        }
        match Self::verustest_installation_folder(os, home) {
            Err(e) => Err(e),
            Ok(mut p) => {
                p.push(String::from_str(currencyidhex));
                p.push(String::from_str(currencyidhex).concat(".conf"));
                proof {
                    assert(p.deep_view() =~= pbaas_path_spec(
                        testnet,
                        currencyidhex@,
                        os,
                        home.deep_view(),
                    )->Ok_0);
                }
                Ok(p)
            },
        }
    }

    /// The root chain's config file components on the running system.
    /// Whatever the platform probes report, a successful result ends in the
    /// network's directory and configuration file name.
    pub fn locate_vrsc_config(testnet: bool) -> (r: Result<Vec<String>, Error>)
        ensures
            r matches Ok(p) ==> ({
                let v = p.deep_view();
                &&& v.len() >= 4
                &&& v[v.len() - 2] == (if testnet {
                    "vrsctest"@
                } else {
                    "VRSC"@
                })
                &&& v.last() == (if testnet {
                    "vrsctest.conf"@
                } else {
                    "VRSC.conf"@
                })
            }),
            r matches Err(e) ==> e == Error::PathNotFound || e == Error::UnsupportedPlatform,
    {
        Self::vrsc_config_path(testnet, host_os_kind(), host_home_dir(), host_data_local_dir())
    }

    /// A sub-chain's config file components on the running system.
    /// Whatever the platform probes report, a successful result ends in the
    /// chain's hex-identifier directory and configuration file name.
    pub fn locate_pbaas_config(testnet: bool, currencyidhex: &str) -> (r: Result<
        Vec<String>,
        Error,
    >)
        ensures
            !testnet ==> r == Err::<Vec<String>, Error>(Error::NotImplemented),
            r matches Ok(p) ==> ({
                let v = p.deep_view();
                &&& v.len() >= 5
                &&& v[v.len() - 2] == currencyidhex@
                &&& v.last() == currencyidhex@ + ".conf"@
            }),
            r matches Err(e) ==> e == Error::PathNotFound || e == Error::UnsupportedPlatform
                || e == Error::NotImplemented,
    {
        Self::pbaas_config_path(testnet, currencyidhex, host_os_kind(), host_home_dir())
    }

    /// Resolve a sub-chain's connection settings from its config file text.
    /// Only the test network is supported; the default-port fallback applies
    /// exactly when the sub-chain's file name coincides with the root
    /// chain's canonical one.
    pub fn pbaas(testnet: bool, currencyidhex: &str, contents: &str) -> (r: Result<
        ConfigFile,
        Error,
    >)
        ensures
            !testnet ==> r == Err::<ConfigFile, Error>(Error::NotImplemented),
            testnet ==> ({
                let s = resolved_config(
                    contents@,
                    chain_default_port(currencyidhex@ + ".conf"@),
                );
                match r {
                    Ok(c) => s matches Ok(t) && c.rpcuser@ == t.0 && c.rpcpassword@ == t.1
                        && c.rpcport == t.2,
                    Err(e) => s matches Err(t) && e == t,
                }
            }),
    {
        if !testnet {
            return Err(Error::NotImplemented);
        }
        let name = String::from_str(currencyidhex).concat(".conf");
        get_config(name.as_str(), contents)
    }

    /// Resolve the root chain's connection settings from its config file
    /// text, for the main network or the test network.  On the main network
    /// the canonical default port stands in for an absent `rpcport` entry.
    pub fn vrsc(testnet: bool, contents: &str) -> (r: Result<ConfigFile, Error>)
        ensures
            ({
                let name = if testnet {
                    "vrsctest.conf"@
                } else {
                    "VRSC.conf"@
                };
                let s = resolved_config(contents@, chain_default_port(name));
                match r {
                    Ok(c) => s matches Ok(t) && c.rpcuser@ == t.0 && c.rpcpassword@ == t.1
                        && c.rpcport == t.2,
                    Err(e) => s matches Err(t) && e == t,
                }
            }),
    {
        if testnet {
            get_config("vrsctest.conf", contents)
        } else {
            get_config("VRSC.conf", contents)
        }
    }
}

/// Resolve connection settings from a config file's name and text.  The
/// canonical root chain file name alone enjoys the default-port fallback;
/// every other file requires an explicit `rpcport` entry.
pub fn get_config(file_name: &str, contents: &str) -> (r: Result<ConfigFile, Error>)
    ensures
        ({
            let s = resolved_config(contents@, chain_default_port(file_name@));
            match r {
                Ok(c) => s matches Ok(t) && c.rpcuser@ == t.0 && c.rpcpassword@ == t.1
                    && c.rpcport == t.2,
                Err(e) => s matches Err(t) && e == t,
            }
        }),
{
    let default_port: Option<&str> = if str_eq(file_name, "VRSC.conf") {
        Some("8232")
    } else {
        None
    };
    match resolve_config(contents, default_port) {
        Ok(c) => Ok(ConfigFile { rpcuser: c.0, rpcpassword: c.1, rpcport: c.2 }),
        Err(e) => Err(e),
    }
}

} // verus!
