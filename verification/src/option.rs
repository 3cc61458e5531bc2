use vstd::prelude::*;

verus! {

/// A negotiable Telnet option: one of the registered options, or any other
/// code carried as [`TelnetOption::UnknownOption`].
#[derive(Debug, PartialEq, Eq, Clone, Copy, Hash, Structural)]
pub enum TelnetOption {
    /// Binary transmission: bytes outside of commands are 8-bit data (RFC 856). Code 0.
    TransmitBinary,
    /// The enabled party echoes the data characters it receives (RFC 857). Code 1.
    Echo,
    /// Prepare to move the connection to another party (NIC 15391). Code 2.
    Reconnection,
    /// The sender need not transmit go-ahead signals (RFC 858). Code 3.
    SuppressGoAhead,
    /// Approximate message size negotiation (NIC 15393). Code 4.
    ApproxMessageSizeNeg,
    /// Lets a party ask for the peer's view of the option states (RFC 859). Code 5.
    Status,
    /// Synchronisation point in the data stream (RFC 860). Code 6.
    TimingMark,
    /// Remote controlled transmission and echoing (RFC 726). Code 7.
    RCTE,
    /// Output line width (RFC 731). Code 8.
    OutLineWidth,
    /// Output page size (RFC 731). Code 9.
    OutPageSize,
    /// Output carriage-return disposition (RFC 652). Code 10.
    NAOCRD,
    /// Output horizontal tab stops (RFC 653). Code 11.
    NAOHTS,
    /// Output horizontal tab disposition (RFC 654). Code 12.
    NAOHTD,
    /// Output form-feed disposition (RFC 655). Code 13.
    NAOFFD,
    /// Output vertical tab stops (RFC 656). Code 14.
    NAOVTS,
    /// Output vertical tab disposition (RFC 657). Code 15.
    NAOVTD,
    /// Output line-feed disposition (RFC 658). Code 16.
    NAOLFD,
    /// Extended ASCII (RFC 698). Code 17.
    XASCII,
    /// Forced logout (RFC 727). Code 18.
    Logout,
    /// Byte macros expanded by the receiver (RFC 735). Code 19.
    ByteMacro,
    /// Data entry terminal (RFC 732, RFC 1043). Code 20.
    DET,
    /// Switch to the SUPDUP protocol (RFC 736). Code 21.
    SUPDUP,
    /// SUPDUP output inside a Telnet session (RFC 749). Code 22.
    SUPDUPOutput,
    /// Send location (RFC 779). Code 23.
    SNDLOC,
    /// Terminal type (RFC 1091). Code 24.
    TTYPE,
    /// End of record (RFC 885). Code 25.
    EOR,
    /// TACACS user identification (RFC 927). Code 26.
    TUID,
    /// Output marking (RFC 933). Code 27.
    OUTMRK,
    /// Terminal location number (RFC 946). Code 28.
    TTYLOC,
    /// 3270 regime (RFC 1041). Code 29.
    OPT3270Regime,
    /// X.3 PAD (RFC 1053). Code 30.
    X3PAD,
    /// Negotiate about window size (RFC 1073). Code 31.
    NAWS,
    /// Terminal speed (RFC 1079). Code 32.
    TSPEED,
    /// Remote flow control (RFC 1372). Code 33.
    LFLOW,
    /// Line mode (RFC 1184). Code 34.
    Linemode,
    /// X display location (RFC 1096). Code 35.
    XDISPLOC,
    /// Environment variables (RFC 1408). Code 36.
    Environment,
    /// Authentication (RFC 2941). Code 37.
    Authentication,
    /// Encryption (RFC 2946). Code 38.
    Encryption,
    /// New environment variables (RFC 1572). Code 39.
    NewEnvironment,
    /// Mud server status protocol. Code 70.
    MSSP,
    /// Mud client compression protocol, version 1. Code 85.
    Compress,
    /// Mud client compression protocol, version 2. Code 86.
    Compress2,
    /// Zenith mud protocol. Code 93.
    ZMP,
    /// Extended options list (RFC 861). Code 255.
    EXOPL,
    /// An option code without a registered name.
    UnknownOption(u8),
}

/// Whether `byte` is the code of a named option.
pub open spec fn is_registered(byte: u8) -> bool {
    byte <= 39 || byte == 70 || byte == 85 || byte == 86 || byte == 93 || byte == 255
}

impl TelnetOption {
    /// The option that a code stands for: the named option where the code is
    /// registered, `UnknownOption` of the code where it is not.
    pub open spec fn spec_parse(byte: u8) -> TelnetOption {
        match byte {
            0u8 => TelnetOption::TransmitBinary,
            1u8 => TelnetOption::Echo,
            2u8 => TelnetOption::Reconnection,
            3u8 => TelnetOption::SuppressGoAhead,
            4u8 => TelnetOption::ApproxMessageSizeNeg,
            5u8 => TelnetOption::Status,
            6u8 => TelnetOption::TimingMark,
            7u8 => TelnetOption::RCTE,
            8u8 => TelnetOption::OutLineWidth,
            9u8 => TelnetOption::OutPageSize,
            10u8 => TelnetOption::NAOCRD,
            11u8 => TelnetOption::NAOHTS,
            12u8 => TelnetOption::NAOHTD,
            13u8 => TelnetOption::NAOFFD,
            14u8 => TelnetOption::NAOVTS,
            15u8 => TelnetOption::NAOVTD,
            16u8 => TelnetOption::NAOLFD,
            17u8 => TelnetOption::XASCII,
            18u8 => TelnetOption::Logout,
            19u8 => TelnetOption::ByteMacro,
            20u8 => TelnetOption::DET,
            21u8 => TelnetOption::SUPDUP,
            22u8 => TelnetOption::SUPDUPOutput,
            23u8 => TelnetOption::SNDLOC,
            24u8 => TelnetOption::TTYPE,
            25u8 => TelnetOption::EOR,
            26u8 => TelnetOption::TUID,
            27u8 => TelnetOption::OUTMRK,
            28u8 => TelnetOption::TTYLOC,
            29u8 => TelnetOption::OPT3270Regime,
            30u8 => TelnetOption::X3PAD,
            31u8 => TelnetOption::NAWS,
            32u8 => TelnetOption::TSPEED,
            33u8 => TelnetOption::LFLOW,
            34u8 => TelnetOption::Linemode,
            35u8 => TelnetOption::XDISPLOC,
            36u8 => TelnetOption::Environment,
            37u8 => TelnetOption::Authentication,
            38u8 => TelnetOption::Encryption,
            39u8 => TelnetOption::NewEnvironment,
            70u8 => TelnetOption::MSSP,
            85u8 => TelnetOption::Compress,
            86u8 => TelnetOption::Compress2,
            93u8 => TelnetOption::ZMP,
            255u8 => TelnetOption::EXOPL,
            _ => TelnetOption::UnknownOption(byte),
        }
    }

    /// The code of an option on the wire.
    pub open spec fn spec_as_byte(&self) -> u8 {
        match *self {
            TelnetOption::TransmitBinary => 0u8,
            TelnetOption::Echo => 1u8,
            TelnetOption::Reconnection => 2u8,
            TelnetOption::SuppressGoAhead => 3u8,
            TelnetOption::ApproxMessageSizeNeg => 4u8,
            TelnetOption::Status => 5u8,
            TelnetOption::TimingMark => 6u8,
            TelnetOption::RCTE => 7u8,
            TelnetOption::OutLineWidth => 8u8,
            TelnetOption::OutPageSize => 9u8,
            TelnetOption::NAOCRD => 10u8,
            TelnetOption::NAOHTS => 11u8,
            TelnetOption::NAOHTD => 12u8,
            TelnetOption::NAOFFD => 13u8,
            TelnetOption::NAOVTS => 14u8,
            TelnetOption::NAOVTD => 15u8,
            TelnetOption::NAOLFD => 16u8,
            TelnetOption::XASCII => 17u8,
            TelnetOption::Logout => 18u8,
            TelnetOption::ByteMacro => 19u8,
            TelnetOption::DET => 20u8,
            TelnetOption::SUPDUP => 21u8,
            TelnetOption::SUPDUPOutput => 22u8,
            TelnetOption::SNDLOC => 23u8,
            TelnetOption::TTYPE => 24u8,
            TelnetOption::EOR => 25u8,
            TelnetOption::TUID => 26u8,
            TelnetOption::OUTMRK => 27u8,
            TelnetOption::TTYLOC => 28u8,
            TelnetOption::OPT3270Regime => 29u8,
            TelnetOption::X3PAD => 30u8,
            TelnetOption::NAWS => 31u8,
            TelnetOption::TSPEED => 32u8,
            TelnetOption::LFLOW => 33u8,
            TelnetOption::Linemode => 34u8,
            TelnetOption::XDISPLOC => 35u8,
            TelnetOption::Environment => 36u8,
            TelnetOption::Authentication => 37u8,
            TelnetOption::Encryption => 38u8,
            TelnetOption::NewEnvironment => 39u8,
            TelnetOption::MSSP => 70u8,
            TelnetOption::Compress => 85u8,
            TelnetOption::Compress2 => 86u8,
            TelnetOption::ZMP => 93u8,
            TelnetOption::EXOPL => 255u8,
            TelnetOption::UnknownOption(byte) => byte,
        }
    }

    /// An option is canonical unless it is `UnknownOption` of a registered
    /// code: such a value shares its code with a named option.
    pub open spec fn is_canonical(&self) -> bool {
        match *self {
            TelnetOption::UnknownOption(byte) => !is_registered(byte),
            _ => true,
        }
    }

    /// Reads an option from its code.
    #[verifier::when_used_as_spec(spec_parse)]
    pub fn parse(byte: u8) -> (opt: TelnetOption)
        ensures
            opt == TelnetOption::spec_parse(byte),
            opt.spec_as_byte() == byte,
            opt.is_canonical(),
    {
        match byte {
            0 => TelnetOption::TransmitBinary,
            1 => TelnetOption::Echo,
            2 => TelnetOption::Reconnection,
            3 => TelnetOption::SuppressGoAhead,
            4 => TelnetOption::ApproxMessageSizeNeg,
            5 => TelnetOption::Status,
            6 => TelnetOption::TimingMark,
            7 => TelnetOption::RCTE,
            8 => TelnetOption::OutLineWidth,
            9 => TelnetOption::OutPageSize,
            10 => TelnetOption::NAOCRD,
            11 => TelnetOption::NAOHTS,
            12 => TelnetOption::NAOHTD,
            13 => TelnetOption::NAOFFD,
            14 => TelnetOption::NAOVTS,
            15 => TelnetOption::NAOVTD,
            16 => TelnetOption::NAOLFD,
            17 => TelnetOption::XASCII,
            18 => TelnetOption::Logout,
            19 => TelnetOption::ByteMacro,
            20 => TelnetOption::DET,
            21 => TelnetOption::SUPDUP,
            22 => TelnetOption::SUPDUPOutput,
            23 => TelnetOption::SNDLOC,
            24 => TelnetOption::TTYPE,
            25 => TelnetOption::EOR,
            26 => TelnetOption::TUID,
            27 => TelnetOption::OUTMRK,
            28 => TelnetOption::TTYLOC,
            29 => TelnetOption::OPT3270Regime,
            30 => TelnetOption::X3PAD,
            31 => TelnetOption::NAWS,
            32 => TelnetOption::TSPEED,
            33 => TelnetOption::LFLOW,
            34 => TelnetOption::Linemode,
            35 => TelnetOption::XDISPLOC,
            36 => TelnetOption::Environment,
            37 => TelnetOption::Authentication,
            38 => TelnetOption::Encryption,
            39 => TelnetOption::NewEnvironment,
            70 => TelnetOption::MSSP,
            85 => TelnetOption::Compress,
            86 => TelnetOption::Compress2,
            93 => TelnetOption::ZMP,
            255 => TelnetOption::EXOPL,
            byte => TelnetOption::UnknownOption(byte),
        }
    }

    /// The code of this option.
    #[verifier::when_used_as_spec(spec_as_byte)]
    pub fn as_byte(&self) -> (byte: u8)
        ensures
            byte == self.spec_as_byte(),
    {
        match *self {
            TelnetOption::TransmitBinary => 0,
            TelnetOption::Echo => 1,
            TelnetOption::Reconnection => 2,
            TelnetOption::SuppressGoAhead => 3,
            TelnetOption::ApproxMessageSizeNeg => 4,
            TelnetOption::Status => 5,
            TelnetOption::TimingMark => 6,
            TelnetOption::RCTE => 7,
            TelnetOption::OutLineWidth => 8,
            TelnetOption::OutPageSize => 9,
            TelnetOption::NAOCRD => 10,
            TelnetOption::NAOHTS => 11,
            TelnetOption::NAOHTD => 12,
            TelnetOption::NAOFFD => 13,
            TelnetOption::NAOVTS => 14,
            TelnetOption::NAOVTD => 15,
            TelnetOption::NAOLFD => 16,
            TelnetOption::XASCII => 17,
            TelnetOption::Logout => 18,
            TelnetOption::ByteMacro => 19,
            TelnetOption::DET => 20,
            TelnetOption::SUPDUP => 21,
            TelnetOption::SUPDUPOutput => 22,
            TelnetOption::SNDLOC => 23,
            TelnetOption::TTYPE => 24,
            TelnetOption::EOR => 25,
            TelnetOption::TUID => 26,
            TelnetOption::OUTMRK => 27,
            TelnetOption::TTYLOC => 28,
            TelnetOption::OPT3270Regime => 29,
            TelnetOption::X3PAD => 30,
            TelnetOption::NAWS => 31,
            TelnetOption::TSPEED => 32,
            TelnetOption::LFLOW => 33,
            TelnetOption::Linemode => 34,
            TelnetOption::XDISPLOC => 35,
            TelnetOption::Environment => 36,
            TelnetOption::Authentication => 37,
            TelnetOption::Encryption => 38,
            TelnetOption::NewEnvironment => 39,
            TelnetOption::MSSP => 70,
            TelnetOption::Compress => 85,
            TelnetOption::Compress2 => 86,
            TelnetOption::ZMP => 93,
            TelnetOption::EXOPL => 255,
            TelnetOption::UnknownOption(byte) => byte,
        }
    }
}

/// The policy for one option.
#[derive(Debug, PartialEq, Eq, Clone, Copy, Structural)]
pub struct TelnetOptionConfig {
    /// Whether we are ready to use the option when the peer asks for it.
    pub local_allowed: bool,
    /// Whether the peer may use the option when it offers to.
    pub remote_allowed: bool,
}

impl Default for TelnetOptionConfig {
    /// The policy that allows nothing.
    fn default() -> (config: TelnetOptionConfig)
        ensures
            !config.local_allowed,
            !config.remote_allowed,
    {
        TelnetOptionConfig { local_allowed: false, remote_allowed: false }
    }
}

/// The policy for every option. What was never set allows nothing.
pub struct TelnetOptionConfigs {
    configs: [TelnetOptionConfig; 256],
}

impl TelnetOptionConfigs {
    /// The policy for the option with the given code.
    pub closed spec fn config_of(&self, code: u8) -> TelnetOptionConfig {
        self.configs@[code as int]
    }

    /// Whether we are ready to use the option.
    pub open spec fn spec_is_us_allowed(&self, opt: &TelnetOption) -> bool {
        self.config_of(opt.spec_as_byte()).local_allowed
    }

    /// Whether the peer may use the option.
    pub open spec fn spec_is_him_allowed(&self, opt: &TelnetOption) -> bool {
        self.config_of(opt.spec_as_byte()).remote_allowed
    }

    /// A policy that allows nothing.
    pub fn new() -> (configs: TelnetOptionConfigs)
        ensures
            forall|code: u8|
                #[trigger] configs.config_of(code) == (TelnetOptionConfig {
                    local_allowed: false,
                    remote_allowed: false,
                }),
    {
        TelnetOptionConfigs {
            configs: [TelnetOptionConfig { local_allowed: false, remote_allowed: false }; 256],
        }
    }

    /// Sets the policy for one option and leaves the others as they are.
    pub fn set_config(&mut self, opt: TelnetOption, config: TelnetOptionConfig)
        ensures
            final(self).config_of(opt.spec_as_byte()) == config,
            forall|code: u8|
                code != opt.spec_as_byte() ==> #[trigger] final(self).config_of(code)
                    == old(self).config_of(code),
    {
        let code: u8 = opt.as_byte();
        self.configs[code as usize] = config;
    }

    /// The policy for one option.
    pub fn config(&self, opt: &TelnetOption) -> (config: TelnetOptionConfig)
        ensures
            config == self.config_of(opt.spec_as_byte()),
    {
        let code: u8 = opt.as_byte();
        self.configs[code as usize]
    }

    /// Whether we are ready to use the option when the peer asks for it.
    #[verifier::when_used_as_spec(spec_is_us_allowed)]
    pub fn is_us_allowed(&self, opt: &TelnetOption) -> (allowed: bool)
        ensures
            allowed == self.spec_is_us_allowed(opt),
    {
        self.config(opt).local_allowed
    }

    /// Whether the peer may use the option when it offers to.
    #[verifier::when_used_as_spec(spec_is_him_allowed)]
    pub fn is_him_allowed(&self, opt: &TelnetOption) -> (allowed: bool)
        ensures
            allowed == self.spec_is_him_allowed(opt),
    {
        self.config(opt).remote_allowed
    }
}

/// Every byte is the code of the option it is read as.
pub proof fn lemma_parse_then_as_byte(byte: u8)
    ensures
        TelnetOption::spec_parse(byte).spec_as_byte() == byte,
        TelnetOption::spec_parse(byte).is_canonical(),
{
}

/// A canonical option is read back from its own code.
pub proof fn lemma_as_byte_then_parse(opt: TelnetOption)
    requires
        opt.is_canonical(),
    ensures
        TelnetOption::spec_parse(opt.spec_as_byte()) == opt,
{
}

/// Two canonical options with the same code are the same option.
pub proof fn lemma_canonical_code_is_unique(a: TelnetOption, b: TelnetOption)
    requires
        a.is_canonical(),
        b.is_canonical(),
        a.spec_as_byte() == b.spec_as_byte(),
    ensures
        a == b,
{
    lemma_as_byte_then_parse(a);
    lemma_as_byte_then_parse(b);
}

} // verus!
