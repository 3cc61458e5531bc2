use vstd::prelude::*;
use vstd::string::*;

verus! {

/// The phase of a sub-negotiation whose write failed.
#[derive(Debug, PartialEq, Eq, Clone, Copy, Structural)]
pub enum SubnegotiationType {
    Start,
    Data,
    End,
}

/// A protocol-level error. None of them ends the connection.
#[derive(Debug, PartialEq, Eq, Clone, Copy, Structural)]
pub enum Error {
    /// Inside a sub-negotiation, IAC was followed by a byte that is neither
    /// SE nor IAC.
    UnexpectedByte(u8),
    /// The event queue was empty where an event was due.
    InternalQueueErr,
    /// A negotiation request could not be honoured as made.
    NegotiationErr,
    /// A write failed while a sub-negotiation was being sent.
    SubnegotiationErr(SubnegotiationType),
}

/// The character of a decimal digit.
pub open spec fn digit_char(d: int) -> char {
    if d == 0 {
        '0'
    } else if d == 1 {
        '1'
    } else if d == 2 {
        '2'
    } else if d == 3 {
        '3'
    } else if d == 4 {
        '4'
    } else if d == 5 {
        '5'
    } else if d == 6 {
        '6'
    } else if d == 7 {
        '7'
    } else if d == 8 {
        '8'
    } else {
        '9'
    }
}

/// A natural number in decimal, without leading zeros.
pub open spec fn decimal(n: nat) -> Seq<char>
    decreases n,
{
    if n < 10 {
        seq![digit_char(n as int)]
    } else {
        decimal(n / 10).push(digit_char((n % 10) as int))
    }
}

/// The text of a decimal digit.
fn digit_str(d: u8) -> (s: &'static str)
    requires
        d < 10,
    ensures
        s@ == seq![digit_char(d as int)],
{
    proof {
        reveal_strlit("0");
        reveal_strlit("1");
        reveal_strlit("2");
        reveal_strlit("3");
        reveal_strlit("4");
        reveal_strlit("5");
        reveal_strlit("6");
        reveal_strlit("7");
        reveal_strlit("8");
        reveal_strlit("9");
    }
    if d == 0 {
        "0"
    } else if d == 1 {
        "1"
    } else if d == 2 {
        "2"
    } else if d == 3 {
        "3"
    } else if d == 4 {
        "4"
    } else if d == 5 {
        "5"
    } else if d == 6 {
        "6"
    } else if d == 7 {
        "7"
    } else if d == 8 {
        "8"
    } else {
        "9"
    }
}

/// Adds a byte in decimal to the end of a text.
fn append_decimal(text: &mut String, byte: u8)
    ensures
        final(text)@ == old(text)@ + decimal(byte as nat),
{
    let hundreds: u8 = byte / 100;
    let tens: u8 = (byte / 10) % 10;
    let ones: u8 = byte % 10;
    if hundreds > 0 {
        text.append(digit_str(hundreds));
    }
    if hundreds > 0 || tens > 0 {
        text.append(digit_str(tens));
    }
    text.append(digit_str(ones));
    proof {
        reveal_with_fuel(decimal, 3);
    }
}

impl Error {
    /// The text of the error.
    pub open spec fn spec_message(&self) -> Seq<char> {
        match *self {
            Error::UnexpectedByte(b) => "Unexpected byte after IAC inside SB: "@ + decimal(
                b as nat,
            ),
            Error::InternalQueueErr => "Internal Queue Error"@,
            Error::NegotiationErr => "Negotiation failed"@,
            Error::SubnegotiationErr(SubnegotiationType::Start) => "Subnegotiation failed (START)"@,
            Error::SubnegotiationErr(SubnegotiationType::Data) => "Subnegotiation failed (DATA)"@,
            Error::SubnegotiationErr(SubnegotiationType::End) => "Subnegotiation failed (END)"@,
        }
    }

    /// Describes the error in words.
    pub fn message(&self) -> (text: String)
        ensures
            text@ == self.spec_message(),
    {
        match *self {
            Error::UnexpectedByte(b) => {
                let mut text = String::from_str("Unexpected byte after IAC inside SB: ");
                append_decimal(&mut text, b);
                text
            },
            Error::InternalQueueErr => String::from_str("Internal Queue Error"),
            Error::NegotiationErr => String::from_str("Negotiation failed"),
            Error::SubnegotiationErr(SubnegotiationType::Start) => String::from_str(
                "Subnegotiation failed (START)",
            ),
            Error::SubnegotiationErr(SubnegotiationType::Data) => String::from_str(
                "Subnegotiation failed (DATA)",
            ),
            Error::SubnegotiationErr(SubnegotiationType::End) => String::from_str(
                "Subnegotiation failed (END)",
            ),
        }
    }
}

} // verus!
