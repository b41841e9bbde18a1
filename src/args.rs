//! The command line: `host <move>` or `join <address> <move>`.

use vstd::prelude::*;
use vstd::std_specs::iter::IteratorSpec;
use crate::moves::{PlayerChoice, choice_of_word, word_is};

verus! {

/// Which side of the connection a player takes.
#[derive(Clone, Copy, Debug, PartialEq, Eq, Structural)]
pub enum ConnectionMode {
    /// Listens for the one peer.
    Hosting,
    /// Connects to a peer that is listening.
    Joining,
}

/// What one run of the game was asked to do.
#[derive(Clone, Debug)]
pub struct Arguments {
    pub mode: ConnectionMode,
    /// The peer's address when joining; empty when hosting.
    pub ip: String,
    pub choice: PlayerChoice,
}

/// The text of each argument.
pub open spec fn words(args: Seq<String>) -> Seq<Seq<char>> {
    args.map_values(|s: String| s@)
}

/// What a command line asks for, if it is well formed. The first word is the
/// program's name and is not read; then come exactly `host <move>` or
/// `join <address> <move>`.
pub open spec fn parse_spec(args: Seq<Seq<char>>) -> Option<(ConnectionMode, Seq<char>, PlayerChoice)> {
    if args.len() == 3 && args[1] == seq!['h', 'o', 's', 't'] && choice_of_word(args[2]) is Some {
        Some((ConnectionMode::Hosting, Seq::empty(), choice_of_word(args[2])->0))
    } else if args.len() == 4 && args[1] == seq!['j', 'o', 'i', 'n'] && choice_of_word(args[3]) is Some {
        Some((ConnectionMode::Joining, args[2], choice_of_word(args[3])->0))
    } else {
        None
    }
}

impl Arguments {
    /// Reads the command line; any other number or sequence of words is an error.
    pub fn parse(args: &[String]) -> (r: Result<Arguments, ()>)
        ensures
            r is Ok <==> parse_spec(words(args@)) is Some,
            r matches Ok(a) ==> parse_spec(words(args@)) == Some((a.mode, a.ip@, a.choice)),
    {
        proof {
            reveal_strlit("host");
            reveal_strlit("join");
        }
        assert("host"@ =~= seq!['h', 'o', 's', 't']);
        assert("join"@ =~= seq!['j', 'o', 'i', 'n']);
        let ghost w = words(args@);
        if args.len() == 3 && word_is(args[1].as_str(), "host") {
            assert(w[1] == args@[1]@ && w[2] == args@[2]@);
            match PlayerChoice::from_word(args[2].as_str()) {
                Some(choice) => {
                    let ip = String::new();
                    assert(ip@ =~= Seq::<char>::empty());
                    Ok(Arguments { mode: ConnectionMode::Hosting, ip, choice })
                },
                None => Err(()),
            }
        } else if args.len() == 4 && word_is(args[1].as_str(), "join") {
            assert(w[1] == args@[1]@ && w[2] == args@[2]@ && w[3] == args@[3]@);
            match PlayerChoice::from_word(args[3].as_str()) {
                Some(choice) => {
                    let ip = args[2].clone();
                    Ok(Arguments { mode: ConnectionMode::Joining, ip, choice })
                },
                None => Err(()),
            }
        } else {
            Err(())
        }
    }
}

/// The port suffix added to an address that names none.
pub open spec fn port_suffix() -> Seq<char> {
    seq![':', '3', '3', '3', '4']
}

/// The endpoint a joining player connects to: the address as given when it
/// names a port (holds a `:`), else that address at the game port.
pub open spec fn join_target(addr: Seq<char>) -> Seq<char> {
    if addr.contains(':') {
        addr
    } else {
        addr + port_suffix()
    }
}

/// Whether the text holds a `:`.
fn names_port(addr: &str) -> (r: bool)
    ensures
        r == addr@.contains(':'),
{
    let mut it = addr.chars();
    let ghost mut n: int = 0;
    loop
        invariant
            0 <= n <= addr@.len(),
            it.remaining() == addr@.subrange(n, addr@.len() as int),
            it.obeys_prophetic_iter_laws(),
            forall|j: int| 0 <= j < n ==> addr@[j] != ':',
        decreases addr@.len() - n,
    {
        match it.next() {
            Some(c) => {
                if c == ':' {
                    assert(addr@[n] == ':');
                    return true;
                }
                proof {
                    n = n + 1;
                }
            },
            None => {
                return false;
            },
        }
    }
}

/// The endpoint a joining player connects to, for the address it was given.
pub fn join_game(addr: &str) -> (r: String)
    ensures
        r@ == join_target(addr@),
{
    let target = addr.to_owned();
    if names_port(addr) {
        target
    } else {
        proof {
            reveal_strlit(":3334");
        }
        assert(":3334"@ =~= port_suffix());
        target.concat(":3334")
    }
}

} // verus!
