//! The four values that a run is started with.

use vstd::prelude::*;

use crate::error::ErrorKind;

verus! {

/// Where to connect, as whom, and where the password is kept.
#[derive(Clone, Debug, PartialEq, Eq)]
pub struct Config {
    /// The VPN gateway.
    pub host: String,
    /// The group chosen at the client's first prompt.
    pub group: String,
    /// The user named at the client's second prompt.
    pub user: String,
    /// The 1Password reference of the item that holds the password.
    pub pass_path: String,
}

/// A [`Config`] as four texts.
pub struct ConfigView {
    pub host: Seq<char>,
    pub group: Seq<char>,
    pub user: Seq<char>,
    pub pass_path: Seq<char>,
}

impl View for Config {
    type V = ConfigView;

    open spec fn view(&self) -> ConfigView {
        ConfigView {
            host: self.host@,
            group: self.group@,
            user: self.user@,
            pass_path: self.pass_path@,
        }
    }
}

impl Config {
    /// Takes host, group, user and password reference from the process's
    /// argument vector, whose entry 0 is the program's name. The values
    /// are not inspected: any four texts are taken as they are, and
    /// entries beyond the fifth are ignored.
    pub fn build(args: &[String]) -> (result: Result<Config, ErrorKind>)
        ensures
            args@.len() < 5 <==> result is Err,
            result matches Err(e) ==> e == ErrorKind::InsufficientArguments,
            result matches Ok(config) ==> config@ == (ConfigView {
                host: args@[1]@,
                group: args@[2]@,
                user: args@[3]@,
                pass_path: args@[4]@,
            }),
    {
        if args.len() < 5 {
            return Err(ErrorKind::InsufficientArguments);
        }
        let host = args[1].clone();
        let group = args[2].clone();
        let user = args[3].clone();
        let pass_path = args[4].clone();
        Ok(Config { host, group, user, pass_path })
    }
}

} // verus!
