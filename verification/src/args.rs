//! Command-line resolution: the `--ip` and `--port` flags, their defaults,
//! and the bind address the server listens on.

use vstd::prelude::*;
use vstd::string::StringExecFns;
use vstd::string::StrSliceExecFns;
use crate::decimal::all_dec_digits;
use crate::decimal::dec_str;
use crate::decimal::dec_val;
use crate::decimal::parse_port;
use crate::decimal::u16_to_decimal;

verus! {

/// The resolved configuration: where the server binds.
#[derive(Clone, Debug)]
pub struct Config {
    /// Address to bind to, as given on the command line or defaulted.
    pub ip: String,
    /// Port to bind to, as given on the command line or defaulted.
    pub port: u16,
}

/// Why the command line was rejected.
#[derive(Clone, Copy, Debug, PartialEq, Eq, Structural)]
pub enum ArgError {
    /// A token that is neither `--ip` nor `--port` where a flag was expected.
    UnknownArgument,
    /// `--ip` was the last token.
    MissingIpValue,
    /// `--port` was the last token.
    MissingPortValue,
    /// `--ip` was given twice.
    DuplicateIp,
    /// `--port` was given twice.
    DuplicatePort,
    /// The value after `--port` is not a decimal number in [0, 65535].
    InvalidPort,
}

/// The mathematical counterpart of `Config`.
pub ghost struct SpecConfig {
    /// Address to bind to.
    pub ip: Seq<char>,
    /// Port to bind to.
    pub port: u16,
}

/// Which flags have been seen so far while walking the command line.
pub ghost struct ArgState {
    /// The value given after `--ip`, if any yet.
    pub ip: Option<Seq<char>>,
    /// The value given after `--port`, if any yet.
    pub port: Option<u16>,
}

/// No flag seen yet.
pub open spec fn init_state() -> ArgState {
    ArgState { ip: None, port: None }
}

/// A string that `--port` accepts: a nonempty run of decimal digits
/// denoting at most 65535.
pub open spec fn valid_port_str(s: Seq<char>) -> bool {
    s.len() > 0 && all_dec_digits(s) && dec_val(s) <= 65535
}

/// Walk the remaining command-line tokens: flags in any order, each at most
/// once, each followed by its value.
pub open spec fn parse_from(args: Seq<Seq<char>>, st: ArgState) -> Result<ArgState, ArgError>
    decreases args.len(),
{
    if args.len() == 0 {
        Ok(st)
    } else if args[0] == "--ip"@ {
        if st.ip is Some {
            Err(ArgError::DuplicateIp)
        } else if args.len() == 1 {
            Err(ArgError::MissingIpValue)
        } else {
            parse_from(args.skip(2), ArgState { ip: Some(args[1]), port: st.port })
        }
    } else if args[0] == "--port"@ {
        if st.port is Some {
            Err(ArgError::DuplicatePort)
        } else if args.len() == 1 {
            Err(ArgError::MissingPortValue)
        } else if valid_port_str(args[1]) {
            parse_from(args.skip(2), ArgState { ip: st.ip, port: Some(dec_val(args[1]) as u16) })
        } else {
            Err(ArgError::InvalidPort)
        }
    } else {
        Err(ArgError::UnknownArgument)
    }
}

/// Fill in what the command line left unsaid: `0.0.0.0` and port 8443.
pub open spec fn resolve(st: ArgState) -> SpecConfig {
    SpecConfig {
        ip: match st.ip {
            Some(ip) => ip,
            None => "0.0.0.0"@,
        },
        port: match st.port {
            Some(p) => p,
            None => 8443,
        },
    }
}

/// What a whole command line resolves to.
pub open spec fn resolved_args(args: Seq<Seq<char>>) -> Result<SpecConfig, ArgError> {
    match parse_from(args, init_state()) {
        Ok(st) => Ok(resolve(st)),
        Err(e) => Err(e),
    }
}

/// Given no flags, the resolved configuration is `0.0.0.0` at port 8443.
pub proof fn lemma_no_flags_defaults()
    ensures
        resolved_args(Seq::<Seq<char>>::empty()) matches Ok(c) && c.ip == "0.0.0.0"@ && c.port
            == 8443,
{
}

/// Giving both flags resolves to exactly the given address and port: any
/// string is accepted as the address, and any digit string denoting at most
/// 65535 as the port.
pub proof fn lemma_flags_resolve(ip: Seq<char>, p: Seq<char>)
    requires
        valid_port_str(p),
    ensures
        resolved_args(seq!["--ip"@, ip, "--port"@, p]) matches Ok(c) && c.ip == ip && c.port
            == dec_val(p) as u16,
{
    reveal_strlit("--ip");
    reveal_strlit("--port");
    let args = seq!["--ip"@, ip, "--port"@, p];
    assert(args.skip(2) =~= seq!["--port"@, p]);
    assert(args.skip(2).skip(2) =~= Seq::<Seq<char>>::empty());
    assert("--port"@.len() == 6);
    assert("--ip"@.len() == 4);
    crate::decimal::lemma_dec_val_nonneg(p);
    let st1 = ArgState { ip: Some(ip), port: None };
    let st2 = ArgState { ip: Some(ip), port: Some(dec_val(p) as u16) };
    assert(parse_from(args, init_state()) == parse_from(seq!["--port"@, p], st1));
    assert(parse_from(seq!["--port"@, p], st1) == parse_from(Seq::<Seq<char>>::empty(), st2));
    assert(parse_from(Seq::<Seq<char>>::empty(), st2) == Ok::<ArgState, ArgError>(st2));
}

/// Character-for-character string equality.
pub fn str_eq(a: &str, b: &str) -> (r: bool)
    ensures
        r <==> a@ == b@,
{
    let alen = a.unicode_len();
    let blen = b.unicode_len();
    if alen != blen {
        return false;
    }
    let mut i: usize = 0;
    while i < alen
        invariant
            alen == a@.len(),
            alen == b@.len(),
            0 <= i <= alen,
            forall|j: int| 0 <= j < i ==> a@[j] == b@[j],
        decreases alen - i,
    {
        if a.get_char(i) != b.get_char(i) {
            return false;
        }
        i = i + 1;
    }
    proof {
        assert(a@ =~= b@);
    }
    true
}

/// The address the server binds: the IP, a colon, and the port in decimal.
pub open spec fn addr_spec(ip: Seq<char>, port: u16) -> Seq<char> {
    ip + seq![':'] + dec_str(port as nat)
}

/// Join an IP string and a port into the bind address.
pub fn bind_address(ip: &str, port: u16) -> (r: String)
    ensures
        r@ == addr_spec(ip@, port),
{
    let mut s: String = ip.to_owned();
    s.append(":");
    let p = u16_to_decimal(port);
    s.append(p.as_str());
    proof {
        reveal_strlit(":");
        assert(":"@ =~= seq![':']);
        assert(s@ =~= addr_spec(ip@, port));
    }
    s
}

impl Config {
    /// The address this configuration binds, `ip:port`.
    pub fn bind_address(&self) -> (r: String)
        ensures
            r@ == addr_spec(self.ip@, self.port),
    {
        bind_address(self.ip.as_str(), self.port)
    }
}

/// Resolve the command-line tokens (the arguments after the program name)
/// into a configuration, or say exactly why they are rejected.
pub fn parse_args(args: &Vec<String>) -> (r: Result<Config, ArgError>)
    ensures
        match r {
            Ok(c) => resolved_args(args.deep_view()) matches Ok(sc) && sc.ip == c.ip@ && sc.port
                == c.port,
            Err(e) => resolved_args(args.deep_view()) == Err::<SpecConfig, ArgError>(e),
        },
{
    let ghost all: Seq<Seq<char>> = args.deep_view();
    let mut ip: Option<String> = None;
    let mut port: Option<u16> = None;
    let mut i: usize = 0;
    proof {
        assert(all.skip(0) =~= all);
    }
    while i < args.len()
        invariant
            all == args.deep_view(),
            0 <= i <= args@.len(),
            parse_from(all, init_state()) == parse_from(
                all.skip(i as int),
                (ArgState { ip: ip.deep_view(), port: port }),
            ),
        decreases args@.len() - i,
    {
        proof {
            assert(all.skip(i as int)[0] == all[i as int]);
            assert(all[i as int] == args@[i as int]@);
        }
        let tok = &args[i];
        if str_eq(tok.as_str(), "--ip") {
            if ip.is_some() {
                return Err(ArgError::DuplicateIp);
            }
            if i + 1 >= args.len() {
                return Err(ArgError::MissingIpValue);
            }
            proof {
                assert(all.skip(i as int)[1] == all[i as int + 1]);
                assert(all[i as int + 1] == args@[i as int + 1]@);
                assert(all.skip(i as int).skip(2) =~= all.skip(i as int + 2));
            }
            ip = Some(args[i + 1].clone());
            i = i + 2;
        } else if str_eq(tok.as_str(), "--port") {
            if port.is_some() {
                return Err(ArgError::DuplicatePort);
            }
            if i + 1 >= args.len() {
                return Err(ArgError::MissingPortValue);
            }
            proof {
                assert(all.skip(i as int)[1] == all[i as int + 1]);
                assert(all[i as int + 1] == args@[i as int + 1]@);
                assert(all.skip(i as int).skip(2) =~= all.skip(i as int + 2));
            }
            match parse_port(args[i + 1].as_str()) {
                Some(p) => {
                    port = Some(p);
                    i = i + 2;
                },
                None => {
                    return Err(ArgError::InvalidPort);
                },
            }
        } else {
            return Err(ArgError::UnknownArgument);
        }
    }
    proof {
        assert(all.skip(i as int) =~= Seq::<Seq<char>>::empty());
    }
    let ip_final: String = match ip {
        Some(s) => s,
        None => "0.0.0.0".to_owned(),
    };
    let port_final: u16 = match port {
        Some(p) => p,
        None => 8443,
    };
    Ok(Config { ip: ip_final, port: port_final })
}

} // verus!

