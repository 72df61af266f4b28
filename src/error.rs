use vstd::prelude::*;

verus! {

/// The keys of the configuration document, all of them required.
#[derive(Clone, Copy, Debug, PartialEq, Eq, Structural)]
pub enum ConfigKey {
    BaseUrl,
    ApiKey,
    Mpan,
    Serial,
    PageSize,
    PeriodFrom,
    PeriodTo,
}

/// The name of a key as it stands in the configuration document.
pub open spec fn key_name(k: ConfigKey) -> Seq<char> {
    match k {
        ConfigKey::BaseUrl => "base_url"@,
        ConfigKey::ApiKey => "api_key"@,
        ConfigKey::Mpan => "mpan"@,
        ConfigKey::Serial => "serial"@,
        ConfigKey::PageSize => "page_size"@,
        ConfigKey::PeriodFrom => "period_from"@,
        ConfigKey::PeriodTo => "period_to"@,
    }
}

impl ConfigKey {
    pub fn name(&self) -> (r: &'static str)
        ensures
            r@ == key_name(*self),
    {
        match self {
            ConfigKey::BaseUrl => "base_url",
            ConfigKey::ApiKey => "api_key",
            ConfigKey::Mpan => "mpan",
            ConfigKey::Serial => "serial",
            ConfigKey::PageSize => "page_size",
            ConfigKey::PeriodFrom => "period_from",
            ConfigKey::PeriodTo => "period_to",
        }
    }
}

/// Why a configuration could not be loaded.
#[derive(Clone, Copy, Debug, PartialEq, Eq, Structural)]
pub enum ConfigError {
    /// The file could not be opened or read.
    Unreadable,
    /// The text is not a JSON document.
    Malformed,
    /// The key is absent or its value has the wrong type.
    Missing(ConfigKey),
}

/// Every way in which one archiving run can fail; each one ends the run.
#[derive(Debug)]
pub enum ArchiveError {
    Config(ConfigError),
    /// The request did not reach the server or no response came back.
    Transport,
    /// The server answered with a status outside the success class.
    Api { status: u16, body: String },
    /// The server answered with success, but the body is not a JSON document.
    Decode { body: String },
    /// The response lacks the requested field, or it could not be written back as text.
    Extraction,
    /// The records could not be read as a table under the inferred schema.
    Schema,
    /// The table could not be encoded or written out.
    Io,
}

} // verus!
