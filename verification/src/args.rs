//! Startup configuration: which side of the session this process plays,
//! and the address it listens on or dials.

use vstd::prelude::*;

verus! {

/// Which side of the session this process plays. The role is fixed at
/// startup and only selects how the one connection is obtained.
#[derive(Clone, Copy, Debug, PartialEq, Eq, Structural)]
pub enum Role {
    /// Bind the address and wait for one inbound connection.
    Listener,
    /// Dial the address and connect outward.
    Connector,
}

/// The configuration the command line produces: a role and a
/// `host:port` address string.
#[derive(Debug)]
pub struct Config {
    pub role: Role,
    pub addr: String,
}

/// Why a command line was rejected.
#[derive(Clone, Copy, Debug, PartialEq, Eq, Structural)]
pub enum ArgError {
    /// The invocation did not have exactly a role flag and an address.
    WrongCount,
    /// The role flag was neither `-l` nor `-c`.
    BadRole,
}

/// Parses the command line `<program> (-l|-c) <address:port>`.
///
/// Accepts exactly three arguments (the program name, a role flag and an
/// address): `-l` selects the listener role, `-c` the connector role, and
/// the address is taken verbatim. Anything else is rejected, and the
/// error says whether the count or the flag was wrong.
pub fn parse_args(args: &Vec<String>) -> (r: Result<Config, ArgError>)
    ensures
        r is Ok <==> args@.len() == 3 && (args@[1]@ == "-l"@ || args@[1]@ == "-c"@),
        r matches Ok(c) ==> {
            &&& c.addr@ == args@[2]@
            &&& (c.role is Listener <==> args@[1]@ == "-l"@)
            &&& (c.role is Connector <==> args@[1]@ == "-c"@)
        },
        r matches Err(e) ==> {
            &&& (e is WrongCount <==> args@.len() != 3)
            &&& (e is BadRole <==> args@.len() == 3 && args@[1]@ != "-l"@ && args@[1]@
                != "-c"@)
        },
{
    proof {
        reveal_strlit("-l");
        reveal_strlit("-c");
        assert("-l"@[1] != "-c"@[1]);
        assert("-l"@ != "-c"@);
    }
    if args.len() != 3 {
        return Err(ArgError::WrongCount);
    }
    let listen_flag: String = "-l".to_owned();
    let connect_flag: String = "-c".to_owned();
    let flag = &args[1];
    if *flag == listen_flag {
        Ok(Config { role: Role::Listener, addr: args[2].clone() })
    } else if *flag == connect_flag {
        Ok(Config { role: Role::Connector, addr: args[2].clone() })
    } else {
        Err(ArgError::BadRole)
    }
}

} // verus!
