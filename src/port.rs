use vstd::prelude::*;

verus! {

/// The largest port number a transport endpoint can carry.
pub const MAX_PORT: u16 = 65535;

/// The ASCII code of the digit `0`.
pub const DIGIT_ZERO: u8 = 48;

/// The ASCII code of the digit `9`.
pub const DIGIT_NINE: u8 = 57;

pub open spec fn is_digit(b: u8) -> bool {
    DIGIT_ZERO <= b <= DIGIT_NINE
}

pub open spec fn all_digits(s: Seq<u8>) -> bool {
    forall|i: int| 0 <= i < s.len() ==> is_digit(#[trigger] s[i])
}

/// The number that a string of decimal digits spells, most significant first.
pub open spec fn decimal_value(s: Seq<u8>) -> nat
    decreases s.len(),
{
    if s.len() == 0 {
        0
    } else {
        decimal_value(s.drop_last()) * 10 + (s.last() - DIGIT_ZERO) as nat
    }
}

/// Text that names a port: one or more decimal digits whose value fits a port.
pub open spec fn is_port_text(s: Seq<u8>) -> bool {
    s.len() > 0 && all_digits(s) && decimal_value(s) <= MAX_PORT
}

/// Why a port argument was not accepted.
#[derive(Clone, Copy, Debug, PartialEq, Eq, Structural)]
pub enum PortError {
    /// The text is empty or holds something other than a decimal digit.
    NotNumeric,
    /// The text is decimal digits whose value is larger than any port.
    OutOfRange,
}

/// Reads a port number written in decimal.
pub fn parse_port(text: &[u8]) -> (r: Result<u16, PortError>)
    ensures
        r matches Ok(p) <==> is_port_text(text@),
        r matches Ok(p) ==> p as nat == decimal_value(text@),
        r == Err::<u16, PortError>(PortError::NotNumeric) <==> (text@.len() == 0 || !all_digits(
            text@,
        )),
        r == Err::<u16, PortError>(PortError::OutOfRange) <==> (text@.len() > 0 && all_digits(text@)
            && decimal_value(text@) > MAX_PORT),
{
    if text.len() == 0 {
        return Err(PortError::NotNumeric);
    }
    let mut i: usize = 0;
    let mut value: u32 = 0;
    let mut too_large = false;
    while i < text.len()
        invariant
            0 <= i <= text@.len(),
            all_digits(text@.subrange(0, i as int)),
            !too_large ==> value as nat == decimal_value(text@.subrange(0, i as int)),
            !too_large ==> value <= MAX_PORT,
            too_large ==> decimal_value(text@.subrange(0, i as int)) > MAX_PORT,
        decreases text@.len() - i,
    {
        let b = text[i];
        if b < DIGIT_ZERO || b > DIGIT_NINE {
            assert(!is_digit(text@[i as int]));
            return Err(PortError::NotNumeric);
        }
        let ghost prefix = text@.subrange(0, i as int);
        let ghost next = text@.subrange(0, i + 1);
        assert(next.drop_last() =~= prefix);
        assert(next.last() == b);
        assert(all_digits(next)) by {
            assert forall|j: int| 0 <= j < next.len() implies is_digit(#[trigger] next[j]) by {
                if j < i {
                    assert(next[j] == prefix[j]);
                }
            }
        }
        if !too_large {
            let candidate: u32 = value * 10 + (b - DIGIT_ZERO) as u32;
            if candidate > MAX_PORT as u32 {
                too_large = true;
            } else {
                value = candidate;
            }
        } else {
            assert(decimal_value(next) >= decimal_value(prefix) * 10) by (nonlinear_arith)
                requires decimal_value(next) == decimal_value(prefix) * 10 + (b - DIGIT_ZERO) as nat;
        }
        i = i + 1;
    }
    assert(text@.subrange(0, i as int) =~= text@);
    if too_large {
        Err(PortError::OutOfRange)
    } else {
        Ok(value as u16)
    }
}

/// The port a server is asked to listen on: an absent argument means port 0,
/// which lets the system choose one.
pub fn port_argument(arg: Option<&[u8]>) -> (r: Result<u16, PortError>)
    ensures
        arg is None ==> r == Ok::<u16, PortError>(0),
        arg matches Some(t) ==> (r matches Ok(p) <==> is_port_text(t@)),
        arg matches Some(t) ==> (r matches Ok(p) ==> p as nat == decimal_value(t@)),
        arg matches Some(t) ==> (r == Err::<u16, PortError>(PortError::NotNumeric) <==> (t@.len()
            == 0 || !all_digits(t@))),
        arg matches Some(t) ==> (r == Err::<u16, PortError>(PortError::OutOfRange) <==> (t@.len()
            > 0 && all_digits(t@) && decimal_value(t@) > MAX_PORT)),
{
    match arg {
        None => Ok(0),
        Some(t) => parse_port(t),
    }
}

} // verus!
