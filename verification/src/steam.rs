//! The 64-bit account identity and its builder.

use vstd::prelude::*;

verus! {

/// Which of an account's simultaneous sessions an identity names.
#[derive(Debug, Copy, Clone, PartialEq, Eq, Structural)]
pub enum SteamInstance {
    AllInstances,
    DesktopInstance,
    ConsoleInstance,
    WebInstance,
}

/// The network of accounts that an identity belongs to.
#[derive(Debug, Copy, Clone, PartialEq, Eq, Structural)]
pub enum SteamUniverse {
    Unspecified,
    Public,
    Beta,
    Internal,
    Dev,
    RC,
}

/// The kind of account that an identity names.
#[derive(Debug, Copy, Clone, PartialEq, Eq, Structural)]
pub enum SteamAccountType {
    Invalid,
    /// Single user account.
    Individual,
    /// Multiseat account, as in a cybercafe.
    Multiseat,
    /// Game server account.
    GameServer,
    /// Anonymous game server account.
    AnonGameServer,
    Pending,
    ContentServer,
    Clan,
    Chat,
    /// Stand-in for a local console account.
    ConsoleUser,
    AnonUser,
    /// The field holds at most 16 kinds.
    Max,
}

impl SteamInstance {
    /// The number that stands for this instance in a packed identity.
    pub open spec fn spec_value(self) -> u64 {
        match self {
            SteamInstance::AllInstances => 0,
            SteamInstance::DesktopInstance => 1,
            SteamInstance::ConsoleInstance => 2,
            SteamInstance::WebInstance => 4,
        }
    }

    /// The number that stands for this instance in a packed identity.
    #[verifier::when_used_as_spec(spec_value)]
    pub fn value(self) -> (v: u64)
        ensures
            v == self.spec_value(),
    {
        match self {
            SteamInstance::AllInstances => 0,
            SteamInstance::DesktopInstance => 1,
            SteamInstance::ConsoleInstance => 2,
            SteamInstance::WebInstance => 4,
        }
    }
}

impl SteamUniverse {
    /// The number that stands for this universe in a packed identity.
    pub open spec fn spec_value(self) -> u64 {
        match self {
            SteamUniverse::Unspecified => 0,
            SteamUniverse::Public => 1,
            SteamUniverse::Beta => 2,
            SteamUniverse::Internal => 3,
            SteamUniverse::Dev => 4,
            SteamUniverse::RC => 5,
        }
    }

    /// The number that stands for this universe in a packed identity.
    #[verifier::when_used_as_spec(spec_value)]
    pub fn value(self) -> (v: u64)
        ensures
            v == self.spec_value(),
    {
        match self {
            SteamUniverse::Unspecified => 0,
            SteamUniverse::Public => 1,
            SteamUniverse::Beta => 2,
            SteamUniverse::Internal => 3,
            SteamUniverse::Dev => 4,
            SteamUniverse::RC => 5,
        }
    }
}

impl SteamAccountType {
    /// The number that stands for this account type in a packed identity.
    pub open spec fn spec_value(self) -> u64 {
        match self {
            SteamAccountType::Invalid => 0,
            SteamAccountType::Individual => 1,
            SteamAccountType::Multiseat => 2,
            SteamAccountType::GameServer => 3,
            SteamAccountType::AnonGameServer => 4,
            SteamAccountType::Pending => 5,
            SteamAccountType::ContentServer => 6,
            SteamAccountType::Clan => 7,
            SteamAccountType::Chat => 8,
            SteamAccountType::ConsoleUser => 9,
            SteamAccountType::AnonUser => 10,
            SteamAccountType::Max => 16,
        }
    }

    /// The number that stands for this account type in a packed identity.
    #[verifier::when_used_as_spec(spec_value)]
    pub fn value(self) -> (v: u64)
        ensures
            v == self.spec_value(),
    {
        match self {
            SteamAccountType::Invalid => 0,
            SteamAccountType::Individual => 1,
            SteamAccountType::Multiseat => 2,
            SteamAccountType::GameServer => 3,
            SteamAccountType::AnonGameServer => 4,
            SteamAccountType::Pending => 5,
            SteamAccountType::ContentServer => 6,
            SteamAccountType::Clan => 7,
            SteamAccountType::Chat => 8,
            SteamAccountType::ConsoleUser => 9,
            SteamAccountType::AnonUser => 10,
            SteamAccountType::Max => 16,
        }
    }
}

/// An account identity: an account number with the universe, the instance
/// and the account type that qualify it.
#[derive(Debug, Copy, Clone, PartialEq, Eq, Structural)]
pub struct SteamId {
    pub universe: SteamUniverse,
    pub instance: SteamInstance,
    pub account_type: SteamAccountType,
    pub xuid: u32,
}

impl SteamId {
    /// The identity of account `xuid` in the public universe, on the desktop
    /// instance, as an individual account.
    pub open spec fn of_account(xuid: u32) -> SteamId {
        SteamId {
            universe: SteamUniverse::Public,
            instance: SteamInstance::DesktopInstance,
            account_type: SteamAccountType::Individual,
            xuid,
        }
    }

    /// The 64-bit form: the account number in bits 0 to 31, the instance from
    /// bit 32, the account type from bit 52 and the universe from bit 56.
    pub open spec fn packed(self) -> u64 {
        (self.xuid as u64) | (self.instance.spec_value() << 32) | (self.account_type.spec_value()
            << 52) | (self.universe.spec_value() << 56)
    }
}

/// Where each field lies in the packed form. The account number and the
/// instance can always be read back. The account type shares bit 56 with the
/// universe where its number does not fit in four bits, as that of `Max`
/// does not: nothing checks the widths.
pub proof fn lemma_packed_layout(id: SteamId)
    ensures
        id.packed() & 0xFFFF_FFFF == id.xuid,
        (id.packed() >> 32) & 0xF_FFFF == id.instance.spec_value(),
        (id.packed() >> 52) & 0xF == id.account_type.spec_value() % 16,
        id.packed() >> 56 == id.universe.spec_value() | (id.account_type.spec_value() / 16),
{
    let xuid = id.xuid as u64;
    let instance = id.instance.spec_value();
    let account_type = id.account_type.spec_value();
    let universe = id.universe.spec_value();
    assert({
        let packed = xuid | (instance << 32) | (account_type << 52) | (universe << 56);
        &&& packed & 0xFFFF_FFFF == xuid
        &&& (packed >> 32) & 0xF_FFFF == instance
        &&& (packed >> 52) & 0xF == account_type % 16
        &&& packed >> 56 == universe | (account_type / 16)
    }) by (bit_vector)
        requires
            xuid <= 0xFFFF_FFFF,
            instance <= 4,
            account_type <= 16,
            universe <= 5,
    ;
}

impl Default for SteamId {
    fn default() -> (id: SteamId)
        ensures
            id == SteamId::of_account(0),
    {
        SteamId {
            universe: SteamUniverse::Public,
            instance: SteamInstance::DesktopInstance,
            account_type: SteamAccountType::Individual,
            xuid: 0,
        }
    }
}

/// Builds a `SteamId` from an account number, field by field.
pub struct SteamIdBuilder {
    steam_id: SteamId,
}

impl View for SteamIdBuilder {
    type V = SteamId;

    /// The identity that `build` would return now.
    closed spec fn view(&self) -> SteamId {
        self.steam_id
    }
}

impl SteamIdBuilder {
    /// Starts from account `xuid` with every other field at its default.
    pub fn from_xuid(xuid: u32) -> (builder: Self)
        ensures
            builder@ == SteamId::of_account(xuid),
    {
        SteamIdBuilder { steam_id: SteamId { xuid, ..Default::default() } }
    }

    /// Replaces the universe and leaves the other fields as they are.
    pub fn with_universe(&mut self, universe: SteamUniverse) -> (builder: &mut Self)
        ensures
            builder@ == (SteamId { universe, ..old(self)@ }),
            *final(self) == *final(builder),
    {
        self.steam_id.universe = universe;
        self
    }

    /// Replaces the account type and leaves the other fields as they are.
    pub fn with_account_type(&mut self, account_type: SteamAccountType) -> (builder: &mut Self)
        ensures
            builder@ == (SteamId { account_type, ..old(self)@ }),
            *final(self) == *final(builder),
    {
        self.steam_id.account_type = account_type;
        self
    }

    /// Replaces the instance and leaves the other fields as they are.
    pub fn with_instance(&mut self, instance: SteamInstance) -> (builder: &mut Self)
        ensures
            builder@ == (SteamId { instance, ..old(self)@ }),
            *final(self) == *final(builder),
    {
        self.steam_id.instance = instance;
        self
    }

    /// The identity built so far.
    pub fn build(&self) -> (id: SteamId)
        ensures
            id == self@,
    {
        self.steam_id
    }
}

impl From<SteamId> for u64 {
    /// Turns the identity into its 64-bit form.
    fn from(steamid: SteamId) -> (packed: u64)
        ensures
            packed == steamid.packed(),
    {
        steamid.xuid as u64 | steamid.instance.value() << 32 | steamid.account_type.value() << 52
            | steamid.universe.value() << 56
    }
}

impl vstd::std_specs::convert::FromSpecImpl<SteamId> for u64 {
    open spec fn obeys_from_spec() -> bool {
        true
    }

    open spec fn from_spec(steamid: SteamId) -> u64 {
        steamid.packed()
    }
}

impl From<SteamIdBuilder> for SteamId {
    /// The identity built so far.
    fn from(builder: SteamIdBuilder) -> (id: SteamId)
        ensures
            id == builder@,
    {
        builder.steam_id
    }
}

impl vstd::std_specs::convert::FromSpecImpl<SteamIdBuilder> for SteamId {
    open spec fn obeys_from_spec() -> bool {
        true
    }

    open spec fn from_spec(builder: SteamIdBuilder) -> SteamId {
        builder@
    }
}

} // verus!
