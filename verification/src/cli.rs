//! Command-line decisions: which subcommand was asked for, and the values
//! of `--flag VALUE` options.

use vstd::prelude::*;

use crate::text::{first_index_of, lemma_first_index_of, str_eq};

verus! {

/// The text of each argument.
pub open spec fn arg_texts(args: Seq<String>) -> Seq<Seq<char>> {
    args.map_values(|a: String| a@)
}

/// The argument right after the first occurrence of `flag`, if there is one.
pub open spec fn flag_value(args: Seq<Seq<char>>, flag: Seq<char>) -> Option<Seq<char>> {
    let i = first_index_of(args, flag) as int;
    if i + 1 < args.len() {
        Some(args[i + 1])
    } else {
        None
    }
}

/// The value given for `flag`: the argument after its first occurrence.
/// `None` when the flag is absent or is the last argument.
pub fn find_flag(args: &[String], flag: &str) -> (r: Option<String>)
    ensures
        match r {
            Some(v) => flag_value(arg_texts(args@), flag@) == Some(v@),
            None => flag_value(arg_texts(args@), flag@) is None,
        },
{
    let ghost texts = arg_texts(args@);
    let n = args.len();
    let mut i: usize = 0;
    while i < n
        invariant
            n == args@.len(),
            texts == arg_texts(args@),
            i <= n,
            forall|j: int| 0 <= j < i ==> texts[j] != flag@,
        decreases n - i,
    {
        if str_eq(args[i].as_str(), flag) {
            proof {
                lemma_first_index_of(texts, flag@, i as int);
            }
            if i + 1 < n {
                return Some(args[i + 1].clone());
            } else {
                return None;
            }
        }
        i = i + 1;
    }
    proof {
        lemma_first_index_of(texts, flag@, i as int);
    }
    None
}

/// What the program was asked to do.
#[derive(Debug, Clone, Copy, PartialEq, Eq)]
pub enum Command {
    /// No (known) subcommand: print identity, version and role.
    Identity,
    /// `family-status`: which children are checked out.
    FamilyStatus,
    /// `family-sync`: which children the sync contract accepts.
    FamilySync,
    /// `serve`: answer the same questions over HTTP.
    Serve,
}

/// The subcommand named by the first argument.
pub open spec fn command_for(args: Seq<Seq<char>>) -> Command {
    if args.len() == 0 {
        Command::Identity
    } else if args[0] == "family-status"@ {
        Command::FamilyStatus
    } else if args[0] == "family-sync"@ {
        Command::FamilySync
    } else if args[0] == "serve"@ {
        Command::Serve
    } else {
        Command::Identity
    }
}

/// Picks the subcommand from the arguments (program name excluded).
pub fn parse_command(args: &[String]) -> (r: Command)
    ensures
        r == command_for(arg_texts(args@)),
{
    if args.len() == 0 {
        return Command::Identity;
    }
    let first = args[0].as_str();
    if str_eq(first, "family-status") {
        Command::FamilyStatus
    } else if str_eq(first, "family-sync") {
        Command::FamilySync
    } else if str_eq(first, "serve") {
        Command::Serve
    } else {
        Command::Identity
    }
}

/// The address `serve` listens on: `--addr` (default `127.0.0.1`), a
/// colon, and `--port` (default `8111`).
pub open spec fn serve_address_text(args: Seq<Seq<char>>) -> Seq<char> {
    let host = match flag_value(args, "--addr"@) {
        Some(h) => h,
        None => "127.0.0.1"@,
    };
    let port = match flag_value(args, "--port"@) {
        Some(p) => p,
        None => "8111"@,
    };
    host + ":"@ + port
}

/// The `host:port` address for the `serve` subcommand.
pub fn serve_address(args: &[String]) -> (r: String)
    ensures
        r@ == serve_address_text(arg_texts(args@)),
        flag_value(arg_texts(args@), "--addr"@) matches Some(h) ==> r@ == h + ":"@ + match flag_value(
            arg_texts(args@),
            "--port"@,
        ) {
            Some(p) => p,
            None => "8111"@,
        },
        flag_value(arg_texts(args@), "--port"@) matches Some(p) ==> r@ == match flag_value(
            arg_texts(args@),
            "--addr"@,
        ) {
            Some(h) => h,
            None => "127.0.0.1"@,
        } + ":"@ + p,
{
    let mut out = String::new();
    match find_flag(args, "--addr") {
        Some(h) => out.append(h.as_str()),
        None => out.append("127.0.0.1"),
    }
    out.append(":");
    match find_flag(args, "--port") {
        Some(p) => out.append(p.as_str()),
        None => out.append("8111"),
    }
    out
}

/// The serve address is the `--addr` value (or `127.0.0.1`), a colon, and
/// the `--port` value (or `8111`), each flag taken on its own: giving one
/// never changes what the other contributes.
pub proof fn law_serve_address_parts(args: Seq<Seq<char>>)
    ensures
        flag_value(args, "--addr"@) matches Some(h) ==> serve_address_text(args) == h + ":"@
            + match flag_value(args, "--port"@) {
            Some(p) => p,
            None => "8111"@,
        },
        flag_value(args, "--port"@) matches Some(p) ==> serve_address_text(args) == match flag_value(
            args,
            "--addr"@,
        ) {
            Some(h) => h,
            None => "127.0.0.1"@,
        } + ":"@ + p,
{
}

} // verus!
