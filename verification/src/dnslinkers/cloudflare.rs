//! Upsert of a DNSLINK record in a Cloudflare zone.

use crate::config::ConfigError;
use crate::dnslinkers::{
    dnslink_name, dnslink_value, in_zone, link_name, link_value, record_in_zone, txt_of,
    txt_records, DnsLinker, DnsRecordView, LinkAction, LinkActionView, LinkError, LinkErrorView,
    LinkReply, LinkReplyView, LinkState, LinkStateView,
};
use vstd::prelude::*;

verus! {

/// Cloudflare, with the token to speak to it and the zone to write in.
#[derive(Debug, PartialEq, Eq)]
pub struct Cloudflare {
    api_token: String,
    dns_zone: String,
}

impl Cloudflare {
    /// The API token.
    pub closed spec fn token(&self) -> Seq<char> {
        self.api_token@
    }

    /// The name of the zone.
    pub closed spec fn zone(&self) -> Seq<char> {
        self.dns_zone@
    }

    /// The provider with its settings, or the first setting that is missing.
    pub fn new(api_token: Option<String>, dns_zone: Option<String>) -> (r: Result<
        Cloudflare,
        ConfigError,
    >)
        ensures
            match r {
                Ok(linker) => {
                    &&& api_token matches Some(token)
                    &&& dns_zone matches Some(zone)
                    &&& linker.token() == token@
                    &&& linker.zone() == zone@
                },
                Err(error) => if api_token is None {
                    error == ConfigError::MissingCloudflareToken
                } else {
                    dns_zone is None && error == ConfigError::MissingCloudflareZone
                },
            },
    {
        match api_token {
            None => Err(ConfigError::MissingCloudflareToken),
            Some(api_token) => match dns_zone {
                None => Err(ConfigError::MissingCloudflareZone),
                Some(dns_zone) => Ok(Cloudflare { api_token, dns_zone }),
            },
        }
    }

    /// The API token.
    pub fn api_token(&self) -> (r: &str)
        ensures
            r@ == self.token(),
    {
        self.api_token.as_str()
    }

    /// The name of the zone.
    pub fn dns_zone(&self) -> (r: &str)
        ensures
            r@ == self.zone(),
    {
        self.dns_zone.as_str()
    }
}

/// The end of an upsert with `error`.
pub open spec fn stop(error: LinkErrorView) -> (LinkStateView, LinkActionView) {
    (LinkStateView::Done, LinkActionView::Fail(error))
}

/// What follows the zones that the service lists under the zone's name.
pub open spec fn after_zones(
    zone: Seq<char>,
    name: Seq<char>,
    content: Seq<char>,
    ids: Seq<Seq<char>>,
) -> (LinkStateView, LinkActionView) {
    if ids.len() == 0 {
        stop(LinkErrorView::ZoneNotFound { zone })
    } else {
        (
            LinkStateView::Records { zone_id: ids[0], name, content },
            LinkActionView::ListRecords { zone_id: ids[0], name },
        )
    }
}

/// What follows the TXT records `txt` that hold the name already: none is
/// created beside, one is overwritten, more are left alone.
pub open spec fn after_records(
    zone_id: Seq<char>,
    name: Seq<char>,
    content: Seq<char>,
    txt: Seq<DnsRecordView>,
) -> (LinkStateView, LinkActionView) {
    if txt.len() == 0 {
        (LinkStateView::Write, LinkActionView::CreateTxt { zone_id, name, content })
    } else if txt.len() == 1 {
        (
            LinkStateView::Write,
            LinkActionView::UpdateTxt { zone_id, record_id: txt[0].id, name, content },
        )
    } else {
        stop(LinkErrorView::MultipleRecords { name })
    }
}

impl DnsLinker for Cloudflare {
    open spec fn start(&self, hash: Seq<char>, record: Seq<char>) -> (
        LinkStateView,
        LinkActionView,
    ) {
        if in_zone(record, self.zone()) {
            (
                LinkStateView::Zone { name: link_name(record), content: link_value(hash) },
                LinkActionView::FindZone { zone: self.zone() },
            )
        } else {
            stop(LinkErrorView::RecordNotInZone { record, zone: self.zone() })
        }
    }

    open spec fn step(&self, state: LinkStateView, reply: LinkReplyView) -> (
        LinkStateView,
        LinkActionView,
    ) {
        match (state, reply) {
            (LinkStateView::Done, _) => stop(LinkErrorView::OutOfTurn),
            (_, LinkReplyView::Failed(message)) => stop(LinkErrorView::Remote { message }),
            (LinkStateView::Zone { name, content }, LinkReplyView::Zones(ids)) => after_zones(
                self.zone(),
                name,
                content,
                ids,
            ),
            (
                LinkStateView::Records { zone_id, name, content },
                LinkReplyView::Records(records),
            ) => after_records(zone_id, name, content, txt_of(records)),
            (LinkStateView::Write, LinkReplyView::Written) => (
                LinkStateView::Done,
                LinkActionView::Succeed,
            ),
            _ => stop(LinkErrorView::OutOfTurn),
        }
    }

    fn link(&self, hash: &str, record: &str) -> (r: (LinkState, LinkAction)) {
        if !record_in_zone(record, self.dns_zone.as_str()) {
            let error = LinkError::RecordNotInZone {
                record: record.to_owned(),
                zone: self.dns_zone.clone(),
            };
            return (LinkState::Done, LinkAction::Fail(error));
        }
        let name = dnslink_name(record);
        let content = dnslink_value(hash);
        (LinkState::Zone { name, content }, LinkAction::FindZone { zone: self.dns_zone.clone() })
    }

    fn resume(&self, state: LinkState, reply: LinkReply) -> (r: (LinkState, LinkAction)) {
        match state {
            LinkState::Done => (LinkState::Done, LinkAction::Fail(LinkError::OutOfTurn)),
            LinkState::Zone { name, content } => match reply {
                LinkReply::Failed(message) => (
                    LinkState::Done,
                    LinkAction::Fail(LinkError::Remote { message }),
                ),
                LinkReply::Zones(ids) => {
                    if ids.len() == 0 {
                        let error = LinkError::ZoneNotFound { zone: self.dns_zone.clone() };
                        (LinkState::Done, LinkAction::Fail(error))
                    } else {
                        let zone_id = ids[0].clone();
                        let action = LinkAction::ListRecords {
                            zone_id: zone_id.clone(),
                            name: name.clone(),
                        };
                        (LinkState::Records { zone_id, name, content }, action)
                    }
                },
                _ => (LinkState::Done, LinkAction::Fail(LinkError::OutOfTurn)),
            },
            LinkState::Records { zone_id, name, content } => match reply {
                LinkReply::Failed(message) => (
                    LinkState::Done,
                    LinkAction::Fail(LinkError::Remote { message }),
                ),
                LinkReply::Records(records) => {
                    let txt = txt_records(&records);
                    if txt.len() == 0 {
                        (LinkState::Write, LinkAction::CreateTxt { zone_id, name, content })
                    } else if txt.len() == 1 {
                        let record_id = txt[0].id.clone();
                        (
                            LinkState::Write,
                            LinkAction::UpdateTxt { zone_id, record_id, name, content },
                        )
                    } else {
                        (
                            LinkState::Done,
                            LinkAction::Fail(LinkError::MultipleRecords { name }),
                        )
                    }
                },
                _ => (LinkState::Done, LinkAction::Fail(LinkError::OutOfTurn)),
            },
            LinkState::Write => match reply {
                LinkReply::Failed(message) => (
                    LinkState::Done,
                    LinkAction::Fail(LinkError::Remote { message }),
                ),
                LinkReply::Written => (LinkState::Done, LinkAction::Succeed),
                _ => (LinkState::Done, LinkAction::Fail(LinkError::OutOfTurn)),
            },
        }
    }
}

} // verus!
