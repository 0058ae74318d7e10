//! What a run needs to be told before any provider is used.
//!
//! A provider is built from its settings or not at all: once [`plan`] has
//! answered `Ok`, every provider that the run will use holds its
//! credentials, and no request has been made yet.

use crate::dnslinkers::cloudflare::Cloudflare;
use crate::dnslinkers::DnsLinkers;
use crate::pinners::infura::Infura;
use crate::pinners::pinata::Pinata;
use crate::pinners::Pinners;
use vstd::prelude::*;

verus! {

/// A setting that the selected providers need and that was not given.
#[derive(Clone, Copy, Debug, PartialEq, Eq, Structural)]
pub enum ConfigError {
    /// Pinata was selected without an API key.
    MissingPinataApiKey,
    /// Pinata was selected without a secret.
    MissingPinataSecret,
    /// A DNS provider was selected without a record to set.
    MissingDnslinkRecord,
    /// Cloudflare was selected without an API token.
    MissingCloudflareToken,
    /// Cloudflare was selected without a zone.
    MissingCloudflareZone,
}

impl ConfigError {
    /// The command-line option that gives the missing setting.
    pub open spec fn spec_option(self) -> Seq<char> {
        match self {
            ConfigError::MissingPinataApiKey => "--pinata-api-key"@,
            ConfigError::MissingPinataSecret => "--pinata-secret"@,
            ConfigError::MissingDnslinkRecord => "--dnslink-record"@,
            ConfigError::MissingCloudflareToken => "--cf-api-token"@,
            ConfigError::MissingCloudflareZone => "--cf-zone"@,
        }
    }

    /// The command-line option that gives the missing setting.
    pub fn option(&self) -> (r: &'static str)
        ensures
            r@ == self.spec_option(),
    {
        match self {
            ConfigError::MissingPinataApiKey => "--pinata-api-key",
            ConfigError::MissingPinataSecret => "--pinata-secret",
            ConfigError::MissingDnslinkRecord => "--dnslink-record",
            ConfigError::MissingCloudflareToken => "--cf-api-token",
            ConfigError::MissingCloudflareZone => "--cf-zone",
        }
    }
}

/// The settings of a run, as they were given.
#[derive(Debug, PartialEq, Eq)]
pub struct Settings {
    /// The pinning service to use.
    pub pinner: Pinners,
    /// The DNS provider to publish with, if any.
    pub dns: Option<DnsLinkers>,
    /// The DNS record to set.
    pub dnslink_record: Option<String>,
    pub pinata_api_key: Option<String>,
    pub pinata_secret: Option<String>,
    pub cf_api_token: Option<String>,
    pub cf_zone: Option<String>,
}

/// The pinning service of a run, ready to use.
#[derive(Debug, PartialEq, Eq)]
pub enum Uploader {
    Infura(Infura),
    Pinata(Pinata),
}

/// The DNS provider of a run, ready to use, and the record to set.
#[derive(Debug, PartialEq, Eq)]
pub struct Publisher {
    pub linker: Cloudflare,
    pub record: String,
}

/// What a run does: pin with `uploader`, then publish with `publisher`
/// where there is one.
#[derive(Debug, PartialEq, Eq)]
pub struct Plan {
    pub uploader: Uploader,
    pub publisher: Option<Publisher>,
}

impl Settings {
    /// The first setting that the selected providers need and that is not
    /// given: the pinning service's credentials come first, then the
    /// record, then the DNS provider's credentials.
    pub open spec fn missing(self) -> Option<ConfigError> {
        if self.pinner == Pinners::Pinata && self.pinata_api_key is None {
            Some(ConfigError::MissingPinataApiKey)
        } else if self.pinner == Pinners::Pinata && self.pinata_secret is None {
            Some(ConfigError::MissingPinataSecret)
        } else if self.dns is None {
            None
        } else if self.dnslink_record is None {
            Some(ConfigError::MissingDnslinkRecord)
        } else if self.cf_api_token is None {
            Some(ConfigError::MissingCloudflareToken)
        } else if self.cf_zone is None {
            Some(ConfigError::MissingCloudflareZone)
        } else {
            None
        }
    }
}

impl Plan {
    /// Whether the plan is the one that `settings` ask for: the selected
    /// pinning service with the credentials given, and the selected DNS
    /// provider, if one is selected, with its credentials and the record.
    pub open spec fn follows(self, settings: Settings) -> bool {
        &&& match self.uploader {
            Uploader::Infura(_) => settings.pinner == Pinners::Infura,
            Uploader::Pinata(pinata) => {
                &&& settings.pinner == Pinners::Pinata
                &&& settings.pinata_api_key matches Some(key)
                &&& settings.pinata_secret matches Some(secret)
                &&& pinata.key() == key@
                &&& pinata.secret_key() == secret@
            },
        }
        &&& match self.publisher {
            None => settings.dns is None,
            Some(publisher) => {
                &&& settings.dns == Some(DnsLinkers::Cloudflare)
                &&& settings.dnslink_record matches Some(record)
                &&& settings.cf_api_token matches Some(token)
                &&& settings.cf_zone matches Some(zone)
                &&& publisher.record@ == record@
                &&& publisher.linker.token() == token@
                &&& publisher.linker.zone() == zone@
            },
        }
    }
}

/// Selects the providers of a run and builds them from `settings`, or
/// names the first setting that is missing.
pub fn plan(settings: Settings) -> (r: Result<Plan, ConfigError>)
    ensures
        match r {
            Ok(plan) => settings.missing() is None && plan.follows(settings),
            Err(error) => settings.missing() == Some(error),
        },
{
    let Settings { pinner, dns, dnslink_record, pinata_api_key, pinata_secret, cf_api_token, cf_zone } =
        settings;
    let uploader = match pinner {
        Pinners::Infura => Uploader::Infura(Infura {  }),
        Pinners::Pinata => match Pinata::new(pinata_api_key, pinata_secret) {
            Ok(pinata) => Uploader::Pinata(pinata),
            Err(error) => {
                return Err(error);
            },
        },
    };
    let publisher = match dns {
        None => None,
        Some(DnsLinkers::Cloudflare) => match dnslink_record {
            None => {
                return Err(ConfigError::MissingDnslinkRecord);
            },
            Some(record) => match Cloudflare::new(cf_api_token, cf_zone) {
                Ok(linker) => Some(Publisher { linker, record }),
                Err(error) => {
                    return Err(error);
                },
            },
        },
    };
    let plan = Plan { uploader, publisher };
    assert(plan.publisher matches Some(publisher) ==> settings.dns == Some(DnsLinkers::Cloudflare));
    Ok(plan)
}

} // verus!
