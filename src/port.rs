use vstd::prelude::*;
use crate::error::StartupError;

verus! {

/// Relies on portpicker::pick_unused_port to probe the machine for a port
/// that is free on TCP and UDP. Its answer depends on the machine's state at
/// the moment of the call, so nothing is promised of it beyond its type.
pub assume_specification[ portpicker::pick_unused_port ]() -> Option<portpicker::Port>;

/// Whether `p` is a port number that a server can bind to and a client can
/// connect to (port 0 only asks the OS to choose).
pub open spec fn valid_port(p: u16) -> bool {
    1 <= p
}

/// What a probe for a free port amounts to: the port it found, when that
/// one is valid, and the fatal `NoPortAvailable` otherwise.
pub open spec fn pick_outcome(picked: Option<u16>) -> Result<u16, StartupError> {
    match picked {
        Some(p) => if valid_port(p) {
            Ok(p)
        } else {
            Err(StartupError::NoPortAvailable)
        },
        None => Err(StartupError::NoPortAvailable),
    }
}

/// Decides what a probe for a free port amounts to.
pub fn port_from_pick(picked: Option<u16>) -> (r: Result<u16, StartupError>)
    ensures
        r == pick_outcome(picked),
{
    match picked {
        Some(p) => {
            if p >= 1 {
                Ok(p)
            } else {
                Err(StartupError::NoPortAvailable)
            }
        },
        None => Err(StartupError::NoPortAvailable),
    }
}

/// Obtains an unused local port for the backend. Which port comes back, and
/// whether one does, depends on the machine; a port that does come back is
/// always a valid one.
pub fn allocate() -> (r: Result<u16, StartupError>)
    ensures
        r matches Ok(p) ==> valid_port(p),
        r matches Err(e) ==> e == StartupError::NoPortAvailable,
{
    let picked = portpicker::pick_unused_port();
    port_from_pick(picked)
}

/// The character of a decimal digit.
pub open spec fn digit_char(d: nat) -> char {
    if d == 0 {
        '0'
    } else if d == 1 {
        '1'
    } else if d == 2 {
        '2'
    } else if d == 3 {
        '3'
    } else if d == 4 {
        '4'
    } else if d == 5 {
        '5'
    } else if d == 6 {
        '6'
    } else if d == 7 {
        '7'
    } else if d == 8 {
        '8'
    } else {
        '9'
    }
}

/// The decimal notation of `n`, most significant digit first, without
/// leading zeros.
pub open spec fn decimal(n: nat) -> Seq<char>
    decreases n,
{
    if n < 10 {
        seq![digit_char(n)]
    } else {
        decimal(n / 10) + seq![digit_char(n % 10)]
    }
}

fn digit_str(d: u16) -> (r: &'static str)
    requires
        d < 10,
    ensures
        r@ == seq![digit_char(d as nat)],
{
    proof {
        reveal_strlit("0");
        reveal_strlit("1");
        reveal_strlit("2");
        reveal_strlit("3");
        reveal_strlit("4");
        reveal_strlit("5");
        reveal_strlit("6");
        reveal_strlit("7");
        reveal_strlit("8");
        reveal_strlit("9");
    }
    let r = if d == 0 {
        "0"
    } else if d == 1 {
        "1"
    } else if d == 2 {
        "2"
    } else if d == 3 {
        "3"
    } else if d == 4 {
        "4"
    } else if d == 5 {
        "5"
    } else if d == 6 {
        "6"
    } else if d == 7 {
        "7"
    } else if d == 8 {
        "8"
    } else {
        "9"
    };
    assert(r@ =~= seq![digit_char(d as nat)]);
    r
}

fn append_decimal(out: &mut String, n: u16)
    ensures
        final(out)@ == old(out)@ + decimal(n as nat),
    decreases n,
{
    if n >= 10 {
        append_decimal(out, n / 10);
    }
    out.append(digit_str(n % 10));
    assert(final(out)@ =~= old(out)@ + decimal(n as nat)) by {
        assert(decimal(n as nat) == if n < 10 {
            seq![digit_char(n as nat)]
        } else {
            decimal((n / 10) as nat) + seq![digit_char((n % 10) as nat)]
        });
    }
}

/// The decimal text of a port number, as the backend reads it on its
/// command line.
pub fn port_text(port: u16) -> (r: String)
    ensures
        r@ == decimal(port as nat),
{
    let mut out = String::new();
    append_decimal(&mut out, port);
    assert(out@ =~= decimal(port as nat));
    out
}

} // verus!
