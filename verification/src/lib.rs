//! A Telnet protocol codec: a resumable parser from bytes to events, a
//! formatter from data and commands to bytes, and the option negotiation
//! automaton of RFC 1143.

pub mod buffer;
pub mod byte;
pub mod connection;
pub mod content;
pub mod error;
pub mod event;
pub mod format;
pub mod negotiation;
pub mod option;
pub mod parse;
pub mod peers;
pub mod roundtrip;
pub mod stream;
pub mod telnet;
pub mod zcstream;
pub mod zlibstream;

pub use connection::TelnetConnection;
pub use error::{Error as TelnetError, SubnegotiationType};
pub use event::{EventView, TelnetEvent, TelnetEventQueue};
pub use negotiation::{Action, NegotiationSM, QInput, QState, Side, Transition};
pub use option::{TelnetOption, TelnetOptionConfig, TelnetOptionConfigs};
pub use parse::{Parser, ParserState};
pub use stream::{ReadFailure, Stream};
pub use telnet::Telnet;
pub use zcstream::ZCStream;
