//! The command runner: one invocation of the container-management executable.
//!
//! The runner's caller supplies a subcommand name and an ordered list of
//! argument tokens. The tokens are passed to the operating system as discrete
//! strings — they are never concatenated into a shell line, so a token that
//! contains shell metacharacters is still one opaque argument. The process's
//! captured standard output is interpreted as UTF-8 text with trailing
//! whitespace removed; a spawn failure, a non-zero exit status or non-text
//! output is a fatal error naming the failing subcommand.

use vstd::prelude::*;

verus! {

use vstd::string::{StrSliceExecFns, StringExecFns};
use vstd::utf8::{decode_utf8, valid_utf8};

/// Does `c` have the Unicode `White_Space` property? This is the set that
/// `str::trim_end` removes from the end of a string.
pub open spec fn is_white_space(c: char) -> bool {
    let u = c as u32;
    u == 0x9 || u == 0xA || u == 0xB || u == 0xC || u == 0xD || u == 0x20 || u == 0x85 || u == 0xA0
        || u == 0x1680 || (0x2000 <= u && u <= 0x200A) || u == 0x2028 || u == 0x2029 || u == 0x202F
        || u == 0x205F || u == 0x3000
}

/// The longest prefix of `s` left after removing every trailing white-space
/// character: what `str::trim_end` keeps.
pub open spec fn trim_end_spec(s: Seq<char>) -> Seq<char>
    decreases s.len(),
{
    if s.len() > 0 && is_white_space(s.last()) {
        trim_end_spec(s.drop_last())
    } else {
        s
    }
}

/// Does `c` have the Unicode `White_Space` property?
fn is_white_space_char(c: char) -> (r: bool)
    ensures
        r == is_white_space(c),
{
    let u: u32 = c as u32;
    u == 0x9 || u == 0xA || u == 0xB || u == 0xC || u == 0xD || u == 0x20 || u == 0x85 || u == 0xA0
        || u == 0x1680 || (0x2000 <= u && u <= 0x200A) || u == 0x2028 || u == 0x2029 || u == 0x202F
        || u == 0x205F || u == 0x3000
}

/// Remove every trailing white-space character from `text`.
pub fn trim_end_text(text: &str) -> (r: String)
    ensures
        r@ == trim_end_spec(text@),
{
    let n = text.unicode_len();
    let mut k: usize = n;
    proof {
        assert(text@.subrange(0, n as int) =~= text@);
    }
    loop
        invariant
            k <= n,
            n as nat == text@.len(),
            trim_end_spec(text@.subrange(0, k as int)) == trim_end_spec(text@),
        ensures
            k <= n,
            n as nat == text@.len(),
            trim_end_spec(text@.subrange(0, k as int)) == trim_end_spec(text@),
            k == 0 || !is_white_space(text@[k as int - 1]),
        decreases k,
    {
        if k == 0 {
            break;
        }
        let c = text.get_char(k - 1);
        if is_white_space_char(c) {
            proof {
                assert(text@.subrange(0, k as int).drop_last() =~= text@.subrange(0, k as int - 1));
            }
            k -= 1;
        } else {
            break;
        }
    }
    text.substring_char(0, k).to_owned()
}

/// A fatal error: one of these aborts the whole invocation chain, naming the
/// subcommand that failed. None of them is caught or retried by the runner.
pub enum FatalError {
    /// The external executable could not be spawned at all.
    Spawn {
        /// The subcommand that was being invoked.
        subcommand: String,
        /// The operating system's description of the spawn failure.
        message: String,
    },
    /// The process ran but exited with a non-zero status.
    ExitFailure {
        /// The subcommand that was being invoked.
        subcommand: String,
        /// The process's captured standard output, kept for the diagnostic.
        stdout: Vec<u8>,
    },
    /// The captured standard output was not valid UTF-8 text.
    NonTextOutput {
        /// The subcommand that was being invoked.
        subcommand: String,
    },
}

/// The decimal digits of `n`, most significant first.
pub open spec fn dec_rep(n: nat) -> Seq<char>
    decreases n,
{
    if n < 10 {
        seq![dec_digit(n)]
    } else {
        dec_rep(n / 10) + seq![dec_digit(n % 10)]
    }
}

/// The decimal digit character for `d` below ten.
pub open spec fn dec_digit(d: nat) -> char {
    if d == 0 {
        '0'
    } else if d == 1 {
        '1'
    } else if d == 2 {
        '2'
    } else if d == 3 {
        '3'
    } else if d == 4 {
        '4'
    } else if d == 5 {
        '5'
    } else if d == 6 {
        '6'
    } else if d == 7 {
        '7'
    } else if d == 8 {
        '8'
    } else {
        '9'
    }
}

/// The captured bytes rendered for a diagnostic: their decimal values,
/// comma-separated between brackets.
pub open spec fn bytes_listing(s: Seq<u8>) -> Seq<char> {
    "["@ + listing_inner(s) + "]"@
}

/// The comma-separated decimal values of `s`, without the brackets.
pub open spec fn listing_inner(s: Seq<u8>) -> Seq<char>
    decreases s.len(),
{
    if s.len() == 0 {
        Seq::empty()
    } else if s.len() == 1 {
        dec_rep(s[0] as nat)
    } else {
        listing_inner(s.drop_last()) + ", "@ + dec_rep(s.last() as nat)
    }
}

/// Append the decimal digit character for `d`.
fn push_digit(r: &mut String, d: u8)
    requires
        d < 10,
    ensures
        final(r)@ == old(r)@ + seq![dec_digit(d as nat)],
{
    let s: &str = match d {
        0 => "0",
        1 => "1",
        2 => "2",
        3 => "3",
        4 => "4",
        5 => "5",
        6 => "6",
        7 => "7",
        8 => "8",
        _ => "9",
    };
    proof {
        reveal_strlit("0");
        reveal_strlit("1");
        reveal_strlit("2");
        reveal_strlit("3");
        reveal_strlit("4");
        reveal_strlit("5");
        reveal_strlit("6");
        reveal_strlit("7");
        reveal_strlit("8");
        reveal_strlit("9");
        assert(s@ =~= seq![dec_digit(d as nat)]);
    }
    r.append(s);
}

/// Append the decimal rendering of `b`.
fn push_byte_dec(r: &mut String, b: u8)
    ensures
        final(r)@ == old(r)@ + dec_rep(b as nat),
{
    let ghost n: nat = b as nat;
    if b >= 100 {
        push_digit(r, b / 100);
        push_digit(r, (b / 10) % 10);
        push_digit(r, b % 10);
        proof {
            assert(dec_rep(n / 10) == dec_rep(n / 100) + seq![dec_digit((n / 10) % 10)]);
            assert(dec_rep(n) == dec_rep(n / 10) + seq![dec_digit(n % 10)]);
            assert(r@ =~= old(r)@ + dec_rep(n));
        }
    } else if b >= 10 {
        push_digit(r, b / 10);
        push_digit(r, b % 10);
        proof {
            assert(dec_rep(n) == dec_rep(n / 10) + seq![dec_digit(n % 10)]);
            assert(r@ =~= old(r)@ + dec_rep(n));
        }
    } else {
        push_digit(r, b);
    }
}

/// Append the bracketed decimal listing of `bytes`.
fn append_bytes_listing(r: &mut String, bytes: &Vec<u8>)
    ensures
        final(r)@ == old(r)@ + bytes_listing(bytes@),
{
    r.append("[");
    let mut i: usize = 0;
    while i < bytes.len()
        invariant
            i <= bytes@.len(),
            r@ == old(r)@ + "["@ + listing_inner(bytes@.subrange(0, i as int)),
        decreases bytes@.len() - i,
    {
        if i > 0 {
            r.append(", ");
        }
        push_byte_dec(r, bytes[i]);
        proof {
            let pre = bytes@.subrange(0, i as int);
            let post = bytes@.subrange(0, i as int + 1);
            assert(post.drop_last() =~= pre);
            assert(post.last() == bytes@[i as int]);
            if i == 0 {
                assert(listing_inner(post) == dec_rep(bytes@[0] as nat));
            }
            assert(r@ =~= old(r)@ + "["@ + listing_inner(post));
        }
        i += 1;
    }
    r.append("]");
    proof {
        assert(bytes@.subrange(0, bytes@.len() as int) =~= bytes@);
        assert(r@ =~= old(r)@ + bytes_listing(bytes@));
    }
}

impl FatalError {
    /// The diagnostic printed before the process aborts: it names the failing
    /// subcommand and the underlying cause. For an exit failure it includes
    /// the full captured output, rendered as its decimal byte values.
    pub fn describe(&self) -> (r: String)
        ensures
            match *self {
                FatalError::Spawn { subcommand, message } => r@ == "error invoking `docker "@
                    + subcommand@ + "`: "@ + message@,
                FatalError::ExitFailure { subcommand, stdout } => r@ == "`docker "@ + subcommand@
                    + "` exited with error status; captured stdout: "@ + bytes_listing(stdout@),
                FatalError::NonTextOutput { subcommand } => r@ == "`docker "@ + subcommand@
                    + "`: UTF-8 error decoding output"@,
            },
    {
        match self {
            FatalError::Spawn { subcommand, message } => {
                let mut r = String::from_str("error invoking `docker ");
                r.append(subcommand.as_str());
                r.append("`: ");
                r.append(message.as_str());
                r
            },
            FatalError::ExitFailure { subcommand, stdout } => {
                let mut r = String::from_str("`docker ");
                r.append(subcommand.as_str());
                r.append("` exited with error status; captured stdout: ");
                append_bytes_listing(&mut r, stdout);
                r
            },
            FatalError::NonTextOutput { subcommand } => {
                let mut r = String::from_str("`docker ");
                r.append(subcommand.as_str());
                r.append("`: UTF-8 error decoding output");
                r
            },
        }
    }
}

/// What the operating system reported for one spawned command: either the
/// spawn itself failed, or the process ran to an exit status with its standard
/// output captured. Standard error is never captured; it stays on the
/// operator's terminal.
pub enum ProcessReport {
    /// The executable could not be started (not found, permission denied).
    SpawnFailed {
        /// The operating system's description of the failure.
        message: String,
    },
    /// The process ran and exited.
    Exited {
        /// Did the process exit with status 0?
        success: bool,
        /// Everything the process wrote to standard output.
        stdout: Vec<u8>,
    },
}

/// Relies on `str::from_utf8`: it returns `Ok` exactly when the bytes are
/// valid UTF-8, and then the `&str` holds the characters those bytes encode.
#[verifier::external_body]
fn utf8_text(bytes: &Vec<u8>) -> (r: Option<String>)
    ensures
        r is Some <==> valid_utf8(bytes@),
        r matches Some(s) ==> s@ == decode_utf8(bytes@),
{
    match core::str::from_utf8(bytes.as_slice()) {
        Ok(s) => Some(s.to_owned()),
        Err(_) => None,
    }
}

/// One fully assembled command invocation: the program to spawn and the
/// ordered tokens handed to it. Each token is given to the operating system
/// as one discrete argument; no token is ever joined with another or handed
/// to a shell, so shell metacharacters inside a token carry no meaning.
pub struct Invocation {
    /// The executable to spawn, looked up on the operator's search path.
    pub program: String,
    /// The argument tokens, in order: the subcommand first, then the
    /// caller's tokens, each byte for byte as the caller gave it.
    pub tokens: Vec<String>,
}

/// Assemble the invocation for one run of `program`: the subcommand followed
/// by the caller's argument tokens, each kept as its own discrete token.
///
/// No shell injection: the clauses below pin every token of the result to one
/// input token, unchanged — in particular a token holding shell metacharacters
/// is passed through whole, never interpreted.
pub fn build_invocation(program: String, subcommand: String, args: Vec<String>) -> (r: Invocation)
    ensures
        r.program == program,
        r.tokens@.len() == args@.len() + 1,
        r.tokens@[0] == subcommand,
        forall|i: int| 0 <= i < args@.len() ==> r.tokens@[i + 1] == args@[i],
{
    let mut tokens: Vec<String> = Vec::new();
    tokens.push(subcommand);
    let mut k: usize = 0;
    while k < args.len()
        invariant
            k <= args@.len(),
            tokens@.len() == k + 1,
            tokens@[0] == subcommand,
            forall|i: int| 0 <= i < k ==> tokens@[i + 1] == args@[i],
        decreases args@.len() - k,
    {
        tokens.push(args[k].clone());
        k += 1;
    }
    Invocation { program, tokens }
}

/// Interpret what the operating system reported for one invocation of the
/// external executable, completing the command runner's contract: on a clean
/// exit the captured output becomes text with trailing whitespace trimmed;
/// every other report becomes the fatal error that names `subcommand`.
pub fn interpret_report(subcommand: String, report: ProcessReport) -> (r: Result<
    String,
    FatalError,
>)
    ensures
        match report {
            ProcessReport::SpawnFailed { message } => r == Err::<String, FatalError>(
                (FatalError::Spawn { subcommand, message }),
            ),
            ProcessReport::Exited { success, stdout } => {
                if !success {
                    r == Err::<String, FatalError>((FatalError::ExitFailure { subcommand, stdout }))
                } else if valid_utf8(stdout@) {
                    r matches Ok(text) && text@ == trim_end_spec(decode_utf8(stdout@))
                } else {
                    r == Err::<String, FatalError>((FatalError::NonTextOutput { subcommand }))
                }
            },
        },
{
    match report {
        ProcessReport::SpawnFailed { message } => Err(FatalError::Spawn { subcommand, message }),
        ProcessReport::Exited { success, stdout } => {
            if !success {
                Err(FatalError::ExitFailure { subcommand, stdout })
            } else {
                match utf8_text(&stdout) {
                    Some(text) => Ok(trim_end_text(text.as_str())),
                    None => Err(FatalError::NonTextOutput { subcommand }),
                }
            }
        },
    }
}

} // verus!
