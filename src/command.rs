//! Motion directives and their encoding into wire lines.
use vstd::prelude::*;
use vstd::string::{StrSliceExecFns, StringExecFns};

use crate::decimal::{int_text, push_int};

verus! {

/// A device-unit integer carried by a directive.
pub type Num = i32;

/// A motion directive for the machine's controller.
#[derive(Debug, Clone, Copy, PartialEq, Eq, Structural)]
#[allow(inconsistent_fields)]
pub enum Command {
    MoveTo { x: Option<Num>, y: Option<Num>, z: Option<Num>, f: Option<Num> },
    RotateTo { u: Option<Num>, v: Option<Num>, f: Option<Num> },
    /// Drives one calibration motor `m` to length `l`. Written in the move grammar with
    /// the keys `M` and `L`: `G0 M<m> L<l> ` without a feed, `G1 M<m> L<l> F<f>` with one.
    MoveMotorTo { m: Num, l: Num, f: Option<Num> },
    MoveToHome,
    NoOp,
    Pause { p: Option<Num>, s: Option<Num> },
    SetAbsolute,
    SetAttachPosition { n: Num, x: Num, y: Num, z: Num },
    SetPosition { x: Option<Num>, y: Option<Num>, z: Option<Num>, e: Option<Num> },
    SetRelative,
    Shutdown,
}

/// Why a directive has no wire line.
#[derive(Debug, Clone, Copy, PartialEq, Eq, Structural)]
pub enum CommandError {
    /// A construction parameter is out of range (an attach point other than 1, 2 or 3).
    ConfigurationError,
}

/// `<key><value> `: one parameter token followed by a separating space.
pub open spec fn token(key: Seq<char>, v: int) -> Seq<char> {
    key + int_text(v) + " "@
}

/// The token of an optional parameter, or nothing when it is absent.
pub open spec fn opt_token(key: Seq<char>, v: Option<Num>) -> Seq<char> {
    match v {
        Some(n) => token(key, n as int),
        None => Seq::empty(),
    }
}

/// A closing parameter: the token without the trailing space, or nothing when absent.
pub open spec fn opt_last(key: Seq<char>, v: Option<Num>) -> Seq<char> {
    match v {
        Some(n) => key + int_text(n as int),
        None => Seq::empty(),
    }
}

/// A move: the rapid code without a feed, the feed code followed by `F<feed>` with one.
pub open spec fn move_text(params: Seq<char>, f: Option<Num>) -> Seq<char> {
    match f {
        None => "G0 "@ + params,
        Some(v) => "G1 "@ + params + "F"@ + int_text(v as int),
    }
}

/// The code that selects attach point `n`.
pub open spec fn attach_code(n: int) -> Seq<char> {
    if n == 1 {
        "M131"@
    } else if n == 2 {
        "M132"@
    } else {
        "M133"@
    }
}

/// Whether a directive can be written as a wire line.
pub open spec fn encodable(c: Command) -> bool {
    match c {
        Command::SetAttachPosition { n, .. } => 1 <= n <= 3,
        _ => true,
    }
}

/// The wire line of a directive (meaningful where `encodable` holds).
pub open spec fn line_of(c: Command) -> Seq<char> {
    match c {
        Command::MoveTo { x, y, z, f } => move_text(
            opt_token("X"@, x) + opt_token("Y"@, y) + opt_token("Z"@, z),
            f,
        ),
        Command::RotateTo { u, v, f } => move_text(opt_token("U"@, u) + opt_token("V"@, v), f),
        Command::MoveMotorTo { m, l, f } => move_text(
            token("M"@, m as int) + token("L"@, l as int),
            f,
        ),
        Command::MoveToHome => "G28"@,
        Command::NoOp => Seq::empty(),
        Command::Pause { p, s } => "G4 "@ + opt_token("S"@, s) + opt_last("P"@, p),
        Command::SetAbsolute => "G90"@,
        Command::SetAttachPosition { n, x, y, z } => attach_code(n as int) + " "@ + token(
            "X"@,
            x as int,
        ) + token("Y"@, y as int) + token("Z"@, z as int),
        Command::SetPosition { x, y, z, e } => "G92 "@ + opt_token("X"@, x) + opt_token("Y"@, y)
            + opt_token("Z"@, z) + opt_last("E"@, e),
        Command::SetRelative => "G91"@,
        Command::Shutdown => "M00"@,
    }
}

/// What encoding a directive gives: its line, or the reason it has none.
pub open spec fn encoding(c: Command) -> Result<Seq<char>, CommandError> {
    if encodable(c) {
        Ok(line_of(c))
    } else {
        Err(CommandError::ConfigurationError)
    }
}

fn push_token(s: &mut String, key: &str, v: Num)
    ensures
        final(s)@ == old(s)@ + token(key@, v as int),
{
    s.append(key);
    push_int(s, v);
    s.append(" ");
    assert(final(s)@ =~= old(s)@ + token(key@, v as int));
}

fn push_opt_token(s: &mut String, key: &str, v: Option<Num>)
    ensures
        final(s)@ == old(s)@ + opt_token(key@, v),
{
    match v {
        Some(n) => push_token(s, key, n),
        None => {
            assert(final(s)@ =~= old(s)@ + opt_token(key@, v));
        },
    }
}

fn push_opt_last(s: &mut String, key: &str, v: Option<Num>)
    ensures
        final(s)@ == old(s)@ + opt_last(key@, v),
{
    match v {
        Some(n) => {
            s.append(key);
            push_int(s, n);
            assert(final(s)@ =~= old(s)@ + opt_last(key@, v));
        },
        None => {
            assert(final(s)@ =~= old(s)@ + opt_last(key@, v));
        },
    }
}

fn move_line(params: String, f: Option<Num>) -> (r: String)
    ensures
        r@ == move_text(params@, f),
{
    match f {
        None => {
            let mut s = String::from_str("G0 ");
            s.append(params.as_str());
            s
        },
        Some(v) => {
            let mut s = String::from_str("G1 ");
            s.append(params.as_str());
            s.append("F");
            push_int(&mut s, v);
            assert(s@ =~= move_text(params@, f));
            s
        },
    }
}

impl Command {
    /// Encodes the directive as a wire line, without the line terminator.
    ///
    /// An attach point other than 1, 2 or 3 is a configuration error: no line is produced.
    pub fn encode(&self) -> (r: Result<String, CommandError>)
        ensures
            r is Ok <==> encodable(*self),
            r matches Ok(s) ==> encoding(*self) == Ok::<Seq<char>, CommandError>(s@),
            r matches Err(e) ==> encoding(*self) == Err::<Seq<char>, CommandError>(e),
    {
        match *self {
            Command::MoveTo { x, y, z, f } => {
                let mut p = String::new();
                push_opt_token(&mut p, "X", x);
                push_opt_token(&mut p, "Y", y);
                push_opt_token(&mut p, "Z", z);
                proof {
                    assert(p@ =~= opt_token("X"@, x) + opt_token("Y"@, y) + opt_token("Z"@, z));
                }
                Ok(move_line(p, f))
            },
            Command::RotateTo { u, v, f } => {
                let mut p = String::new();
                push_opt_token(&mut p, "U", u);
                push_opt_token(&mut p, "V", v);
                proof {
                    assert(p@ =~= opt_token("U"@, u) + opt_token("V"@, v));
                }
                Ok(move_line(p, f))
            },
            Command::MoveMotorTo { m, l, f } => {
                let mut p = String::new();
                push_token(&mut p, "M", m);
                push_token(&mut p, "L", l);
                proof {
                    assert(p@ =~= token("M"@, m as int) + token("L"@, l as int));
                }
                Ok(move_line(p, f))
            },
            Command::MoveToHome => Ok(String::from_str("G28")),
            Command::NoOp => Ok(String::new()),
            Command::Pause { p, s } => {
                let mut r = String::from_str("G4 ");
                push_opt_token(&mut r, "S", s);
                push_opt_last(&mut r, "P", p);
                proof {
                    assert(r@ =~= "G4 "@ + opt_token("S"@, s) + opt_last("P"@, p));
                }
                Ok(r)
            },
            Command::SetAbsolute => Ok(String::from_str("G90")),
            Command::SetAttachPosition { n, x, y, z } => {
                let mut r = if n == 1 {
                    String::from_str("M131")
                } else if n == 2 {
                    String::from_str("M132")
                } else if n == 3 {
                    String::from_str("M133")
                } else {
                    return Err(CommandError::ConfigurationError);
                };
                r.append(" ");
                push_token(&mut r, "X", x);
                push_token(&mut r, "Y", y);
                push_token(&mut r, "Z", z);
                proof {
                    assert(r@ =~= attach_code(n as int) + " "@ + token("X"@, x as int) + token(
                        "Y"@,
                        y as int,
                    ) + token("Z"@, z as int));
                }
                Ok(r)
            },
            Command::SetPosition { x, y, z, e } => {
                let mut r = String::from_str("G92 ");
                push_opt_token(&mut r, "X", x);
                push_opt_token(&mut r, "Y", y);
                push_opt_token(&mut r, "Z", z);
                push_opt_last(&mut r, "E", e);
                proof {
                    assert(r@ =~= "G92 "@ + opt_token("X"@, x) + opt_token("Y"@, y) + opt_token(
                        "Z"@,
                        z,
                    ) + opt_last("E"@, e));
                }
                Ok(r)
            },
            Command::SetRelative => Ok(String::from_str("G91")),
            Command::Shutdown => Ok(String::from_str("M00")),
        }
    }
}

/// What the sink transmits for a directive: its line and a newline, or nothing for an
/// empty line.
pub open spec fn framed(c: Command) -> Option<Seq<char>> {
    if line_of(c).len() == 0 {
        None
    } else {
        Some(line_of(c) + "\n"@)
    }
}

impl Command {
    /// The text to transmit for this directive: the line with its terminator, or `None`
    /// when the line is empty (which is never sent). Fails as `encode` does.
    pub fn frame(&self) -> (r: Result<Option<String>, CommandError>)
        ensures
            r is Ok <==> encodable(*self),
            r matches Ok(None) ==> framed(*self) is None,
            r matches Ok(Some(s)) ==> framed(*self) == Some(s@),
            r matches Err(e) ==> e == CommandError::ConfigurationError,
    {
        match self.encode() {
            Ok(line) => {
                if line.as_str().unicode_len() == 0 {
                    Ok(None)
                } else {
                    let mut s = line;
                    s.append("\n");
                    Ok(Some(s))
                }
            },
            Err(e) => Err(e),
        }
    }
}

/// Encoding is a function of the directive alone: equal directives give equal lines
/// (or the same error).
pub proof fn encoding_is_deterministic(a: Command, b: Command)
    requires
        a == b,
    ensures
        encoding(a) == encoding(b),
{
}

/// Directives that can be written as wire lines.
pub trait GCode {
    /// Whether this value has a wire line.
    spec fn gcode_ok(&self) -> bool;

    /// The wire line of this value.
    spec fn gcode(&self) -> Seq<char>;

    /// Writes the wire line, without the line terminator.
    fn to_gcode(&self) -> (r: String)
        requires
            self.gcode_ok(),
        ensures
            r@ == self.gcode(),
    ;
}

impl GCode for Command {
    open spec fn gcode_ok(&self) -> bool {
        encodable(*self)
    }

    open spec fn gcode(&self) -> Seq<char> {
        line_of(*self)
    }

    fn to_gcode(&self) -> (r: String) {
        match self.encode() {
            Ok(s) => s,
            Err(_) => String::new(),
        }
    }
}

} // verus!
