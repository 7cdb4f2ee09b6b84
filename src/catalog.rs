//! The PreLogin option catalog: option codes, the terminator byte and the
//! values this client offers for each option.
use vstd::prelude::*;

verus! {

/// Size in bytes of one option descriptor: code, 2-byte offset, 2-byte length.
pub const DESCRIPTOR_SIZE: u16 = 5;

/// Byte that ends the descriptor table.
pub const TERMINATOR: u8 = 0xff;

/// Marker values of the PreLogin body.
pub enum StaticValues {
    Terminator,
}

impl StaticValues {
    pub fn value(&self) -> (r: u8)
        ensures
            r == TERMINATOR,
    {
        match self {
            StaticValues::Terminator => 0xff,
        }
    }
}

/// The byte that ends the descriptor table; outside the range of option codes.
pub fn terminator_code() -> (r: u8)
    ensures
        r == TERMINATOR,
{
    StaticValues::Terminator.value()
}

/// Size in bytes of each descriptor that precedes the terminator.
pub fn descriptor_size() -> (r: u16)
    ensures
        r == DESCRIPTOR_SIZE,
{
    DESCRIPTOR_SIZE
}

/// The options a PreLogin message can carry.
#[derive(Clone, Copy, Debug, PartialEq, Eq, Structural)]
pub enum PreLoginOptionToken {
    Version,
    Encryption,
    InStopT,
    ThreadId,
    Mars,
    TraceId,
    FedAuthRequired,
    NonceOpt,
    Terminator,
}

impl PreLoginOptionToken {
    pub open spec fn code(self) -> u8 {
        match self {
            PreLoginOptionToken::Version => 0x00,
            PreLoginOptionToken::Encryption => 0x01,
            PreLoginOptionToken::InStopT => 0x02,
            PreLoginOptionToken::ThreadId => 0x03,
            PreLoginOptionToken::Mars => 0x04,
            PreLoginOptionToken::TraceId => 0x05,
            PreLoginOptionToken::FedAuthRequired => 0x06,
            PreLoginOptionToken::NonceOpt => 0x07,
            PreLoginOptionToken::Terminator => 0x08,
        }
    }

    /// The option's wire code.
    pub fn value(&self) -> (r: u8)
        ensures
            r == self.code(),
            r < TERMINATOR,
    {
        match self {
            PreLoginOptionToken::Version => 0x00,
            PreLoginOptionToken::Encryption => 0x01,
            PreLoginOptionToken::InStopT => 0x02,
            PreLoginOptionToken::ThreadId => 0x03,
            PreLoginOptionToken::Mars => 0x04,
            PreLoginOptionToken::TraceId => 0x05,
            PreLoginOptionToken::FedAuthRequired => 0x06,
            PreLoginOptionToken::NonceOpt => 0x07,
            PreLoginOptionToken::Terminator => 0x08,
        }
    }
}

/// Server versions this client can announce.
pub enum SqlVersion {
    SqlServer2022,
}

/// The six version bytes announced for SQL Server 2022.
pub open spec fn sql_server_2022_version() -> Seq<u8> {
    seq![0x10u8, 0x00u8, 0x7fu8, 0x10u8, 0x00u8, 0x00u8]
}

impl SqlVersion {
    pub fn value(&self) -> (r: [u8; 6])
        ensures
            r@ == sql_server_2022_version(),
    {
        let r: [u8; 6] = match self {
            SqlVersion::SqlServer2022 => [0x10, 0x00, 0x7f, 0x10, 0x00, 0x00],
        };
        assert(r@ =~= sql_server_2022_version());
        r
    }
}

pub enum EncryptionOptions {
    NoEncryption,
    EncryptionEnabled,
    EncryptionRequested,
    EncryptionEnabledRequested,
}

impl EncryptionOptions {
    pub fn value(&self) -> (r: u8)
        ensures
            r == match self {
                EncryptionOptions::NoEncryption => 0x00u8,
                EncryptionOptions::EncryptionEnabled => 0x01u8,
                EncryptionOptions::EncryptionRequested => 0x02u8,
                EncryptionOptions::EncryptionEnabledRequested => 0x03u8,
            },
    {
        match self {
            EncryptionOptions::NoEncryption => 0x00,
            EncryptionOptions::EncryptionEnabled => 0x01,
            EncryptionOptions::EncryptionRequested => 0x02,
            EncryptionOptions::EncryptionEnabledRequested => 0x03,
        }
    }
}

pub enum MarsOptions {
    NoMars,
    MarsRequested,
    MarsSupported,
    MarsRequestedSupportd,
}

impl MarsOptions {
    pub fn value(&self) -> (r: u8)
        ensures
            r == match self {
                MarsOptions::NoMars => 0x00u8,
                MarsOptions::MarsRequested => 0x01u8,
                MarsOptions::MarsSupported => 0x02u8,
                MarsOptions::MarsRequestedSupportd => 0x03u8,
            },
    {
        match self {
            MarsOptions::NoMars => 0x00,
            MarsOptions::MarsRequested => 0x01,
            MarsOptions::MarsSupported => 0x02,
            MarsOptions::MarsRequestedSupportd => 0x03,
        }
    }
}

pub enum FedAuthOptions {
    Yes,
    No,
}

impl FedAuthOptions {
    pub fn value(&self) -> (r: u8)
        ensures
            r == match self {
                FedAuthOptions::Yes => 0x01u8,
                FedAuthOptions::No => 0x00u8,
            },
    {
        match self {
            FedAuthOptions::Yes => 0x01,
            FedAuthOptions::No => 0x00,
        }
    }
}

} // verus!
