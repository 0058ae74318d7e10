//! Publishing a content identifier under a DNS name, in DNSLINK form.
//!
//! A provider never talks to its service here. An upsert is a short
//! conversation: the provider hands out one [`LinkAction`] at a time, the
//! caller performs it and hands the service's [`LinkReply`] back, until the
//! action is [`LinkAction::Succeed`] or [`LinkAction::Fail`].

use crate::text::{ends_with, join, same_text, starts_with};
use vstd::prelude::*;

pub mod cloudflare;
pub mod laws;
pub mod service;

verus! {

/// The DNS providers that can publish a DNSLINK record.
#[derive(Clone, Copy, Debug, PartialEq, Eq, Structural)]
pub enum DnsLinkers {
    Cloudflare,
}

impl DnsLinkers {
    /// The name that selects each provider.
    pub open spec fn spec_name(self) -> Seq<char> {
        match self {
            DnsLinkers::Cloudflare => "cloudflare"@,
        }
    }

    /// The name that selects this provider.
    pub fn name(&self) -> (r: &'static str)
        ensures
            r@ == self.spec_name(),
    {
        match self {
            DnsLinkers::Cloudflare => "cloudflare",
        }
    }

    /// The provider that `name` selects, if it selects one.
    pub fn from_name(name: &str) -> (r: Option<DnsLinkers>)
        ensures
            match r {
                Some(linker) => linker.spec_name() == name@,
                None => forall|linker: DnsLinkers| linker.spec_name() != name@,
            },
    {
        if same_text(name, "cloudflare") {
            Some(DnsLinkers::Cloudflare)
        } else {
            None
        }
    }
}

/// Whether `record` lies in `zone`: the zone's name ends the record's name.
pub open spec fn in_zone(record: Seq<char>, zone: Seq<char>) -> bool {
    zone.is_suffix_of(record)
}

/// The name under which the link for `record` is stored: `record` itself
/// where it already starts with `_dnslink.`, else `record` behind that label.
pub open spec fn link_name(record: Seq<char>) -> Seq<char> {
    if "_dnslink."@.is_prefix_of(record) {
        record
    } else {
        "_dnslink."@ + record
    }
}

/// The TXT value that publishes the content identifier `hash`.
pub open spec fn link_value(hash: Seq<char>) -> Seq<char> {
    "dnslink=/ipfs/"@ + hash
}

/// Whether `record` lies in `zone`.
pub fn record_in_zone(record: &str, zone: &str) -> (r: bool)
    ensures
        r == in_zone(record@, zone@),
{
    ends_with(record, zone)
}

/// The name under which the link for `record` is stored.
pub fn dnslink_name(record: &str) -> (r: String)
    ensures
        r@ == link_name(record@),
{
    if starts_with(record, "_dnslink.") {
        record.to_owned()
    } else {
        join("_dnslink.", record)
    }
}

/// The TXT value that publishes the content identifier `hash`.
pub fn dnslink_value(hash: &str) -> (r: String)
    ensures
        r@ == link_value(hash@),
{
    join("dnslink=/ipfs/", hash)
}

/// The type of a DNS record.
#[derive(Clone, Copy, Debug, PartialEq, Eq, Structural)]
pub enum RecordKind {
    A,
    Aaaa,
    Cname,
    Ns,
    Mx,
    Txt,
    Srv,
}

/// What an upsert reads of a record that the service lists.
#[derive(Debug, PartialEq, Eq)]
pub struct DnsRecord {
    /// The service's identifier of the record.
    pub id: String,
    /// The record's type.
    pub kind: RecordKind,
}

/// A [`DnsRecord`] over texts.
pub struct DnsRecordView {
    pub id: Seq<char>,
    pub kind: RecordKind,
}

impl View for DnsRecord {
    type V = DnsRecordView;

    open spec fn view(&self) -> DnsRecordView {
        DnsRecordView { id: self.id@, kind: self.kind }
    }
}

/// Why an upsert stopped without success.
#[derive(Debug, PartialEq, Eq)]
pub enum LinkError {
    /// The record's name does not end with the zone's name.
    RecordNotInZone { record: String, zone: String },
    /// The service knows no zone of the configured name.
    ZoneNotFound { zone: String },
    /// More than one TXT record holds the name already.
    MultipleRecords { name: String },
    /// The service, or the way to it, failed a request.
    Remote { message: String },
    /// The reply does not answer the request that was pending.
    OutOfTurn,
}

/// A [`LinkError`] over texts.
pub enum LinkErrorView {
    RecordNotInZone { record: Seq<char>, zone: Seq<char> },
    ZoneNotFound { zone: Seq<char> },
    MultipleRecords { name: Seq<char> },
    Remote { message: Seq<char> },
    OutOfTurn,
}

impl View for LinkError {
    type V = LinkErrorView;

    open spec fn view(&self) -> LinkErrorView {
        match self {
            LinkError::RecordNotInZone { record, zone } => LinkErrorView::RecordNotInZone {
                record: record@,
                zone: zone@,
            },
            LinkError::ZoneNotFound { zone } => LinkErrorView::ZoneNotFound { zone: zone@ },
            LinkError::MultipleRecords { name } => LinkErrorView::MultipleRecords { name: name@ },
            LinkError::Remote { message } => LinkErrorView::Remote { message: message@ },
            LinkError::OutOfTurn => LinkErrorView::OutOfTurn,
        }
    }
}

impl LinkErrorView {
    /// The sentence that reports the error.
    pub open spec fn message(self) -> Seq<char> {
        match self {
            LinkErrorView::RecordNotInZone { record, zone } => "Record ("@ + record
                + ") does not belong in Zone("@ + zone + ")."@,
            LinkErrorView::ZoneNotFound { zone } => "Zone ("@ + zone + ") was not found."@,
            LinkErrorView::MultipleRecords { name } =>
                "Not updating dnslink, multiple existing records found for "@ + name,
            LinkErrorView::Remote { message } => message,
            LinkErrorView::OutOfTurn => "Reply does not answer the pending request."@,
        }
    }
}

impl LinkError {
    /// The sentence that reports the error.
    pub fn message(&self) -> (r: String)
        ensures
            r@ == self@.message(),
    {
        match self {
            LinkError::RecordNotInZone { record, zone } => {
                let head = join("Record (", record.as_str());
                let upto = head.concat(") does not belong in Zone(");
                upto.concat(zone.as_str()).concat(").")
            },
            LinkError::ZoneNotFound { zone } => {
                join("Zone (", zone.as_str()).concat(") was not found.")
            },
            LinkError::MultipleRecords { name } => {
                join("Not updating dnslink, multiple existing records found for ", name.as_str())
            },
            LinkError::Remote { message } => message.clone(),
            LinkError::OutOfTurn => "Reply does not answer the pending request.".to_owned(),
        }
    }
}

/// The request that the caller is to perform next, or the end of the upsert.
#[derive(Debug, PartialEq, Eq)]
pub enum LinkAction {
    /// List the zones named `zone`.
    FindZone { zone: String },
    /// List the records named `name` in the zone `zone_id`.
    ListRecords { zone_id: String, name: String },
    /// Create a TXT record `name` with `content` in the zone `zone_id`.
    CreateTxt { zone_id: String, name: String, content: String },
    /// Overwrite the record `record_id` with a TXT record `name` with `content`.
    UpdateTxt { zone_id: String, record_id: String, name: String, content: String },
    /// The record is published; no request is left.
    Succeed,
    /// The upsert is given up; no request is left.
    Fail(LinkError),
}

/// A [`LinkAction`] over texts.
pub enum LinkActionView {
    FindZone { zone: Seq<char> },
    ListRecords { zone_id: Seq<char>, name: Seq<char> },
    CreateTxt { zone_id: Seq<char>, name: Seq<char>, content: Seq<char> },
    UpdateTxt { zone_id: Seq<char>, record_id: Seq<char>, name: Seq<char>, content: Seq<char> },
    Succeed,
    Fail(LinkErrorView),
}

impl View for LinkAction {
    type V = LinkActionView;

    open spec fn view(&self) -> LinkActionView {
        match self {
            LinkAction::FindZone { zone } => LinkActionView::FindZone { zone: zone@ },
            LinkAction::ListRecords { zone_id, name } => LinkActionView::ListRecords {
                zone_id: zone_id@,
                name: name@,
            },
            LinkAction::CreateTxt { zone_id, name, content } => LinkActionView::CreateTxt {
                zone_id: zone_id@,
                name: name@,
                content: content@,
            },
            LinkAction::UpdateTxt { zone_id, record_id, name, content } => {
                LinkActionView::UpdateTxt {
                    zone_id: zone_id@,
                    record_id: record_id@,
                    name: name@,
                    content: content@,
                }
            },
            LinkAction::Succeed => LinkActionView::Succeed,
            LinkAction::Fail(error) => LinkActionView::Fail(error@),
        }
    }
}

impl LinkActionView {
    /// Whether the action is a request to the service.
    pub open spec fn is_request(self) -> bool {
        !(self is Succeed) && !(self is Fail)
    }

    /// Whether the action changes what the service stores.
    pub open spec fn is_write(self) -> bool {
        self is CreateTxt || self is UpdateTxt
    }
}

impl LinkAction {
    /// Whether the action is a request to the service.
    pub fn is_request(&self) -> (r: bool)
        ensures
            r == self@.is_request(),
    {
        match self {
            LinkAction::Succeed => false,
            LinkAction::Fail(_) => false,
            _ => true,
        }
    }
}

/// What the service answered to the request that was handed out last.
#[derive(Debug, PartialEq, Eq)]
pub enum LinkReply {
    /// The identifiers of the zones found, in the order listed.
    Zones(Vec<String>),
    /// The records found, in the order listed.
    Records(Vec<DnsRecord>),
    /// The create or update call succeeded.
    Written,
    /// The request failed, with the failure's text.
    Failed(String),
}

/// A [`LinkReply`] over texts.
pub enum LinkReplyView {
    Zones(Seq<Seq<char>>),
    Records(Seq<DnsRecordView>),
    Written,
    Failed(Seq<char>),
}

/// The texts of a sequence of strings.
pub open spec fn texts(strings: Seq<String>) -> Seq<Seq<char>> {
    strings.map_values(|s: String| s@)
}

/// The views of a sequence of records.
pub open spec fn record_views(records: Seq<DnsRecord>) -> Seq<DnsRecordView> {
    records.map_values(|r: DnsRecord| r@)
}

impl View for LinkReply {
    type V = LinkReplyView;

    open spec fn view(&self) -> LinkReplyView {
        match self {
            LinkReply::Zones(ids) => LinkReplyView::Zones(texts(ids@)),
            LinkReply::Records(records) => LinkReplyView::Records(record_views(records@)),
            LinkReply::Written => LinkReplyView::Written,
            LinkReply::Failed(message) => LinkReplyView::Failed(message@),
        }
    }
}

/// Where an upsert stands between two requests.
#[derive(Debug, PartialEq, Eq)]
pub enum LinkState {
    /// The zone is being looked up.
    Zone { name: String, content: String },
    /// The records at `name` are being listed.
    Records { zone_id: String, name: String, content: String },
    /// The record is being created or updated.
    Write,
    /// The upsert is over.
    Done,
}

/// A [`LinkState`] over texts.
pub enum LinkStateView {
    Zone { name: Seq<char>, content: Seq<char> },
    Records { zone_id: Seq<char>, name: Seq<char>, content: Seq<char> },
    Write,
    Done,
}

impl View for LinkState {
    type V = LinkStateView;

    open spec fn view(&self) -> LinkStateView {
        match self {
            LinkState::Zone { name, content } => LinkStateView::Zone {
                name: name@,
                content: content@,
            },
            LinkState::Records { zone_id, name, content } => LinkStateView::Records {
                zone_id: zone_id@,
                name: name@,
                content: content@,
            },
            LinkState::Write => LinkStateView::Write,
            LinkState::Done => LinkStateView::Done,
        }
    }
}

/// Whether a record is a TXT record.
pub open spec fn is_txt(record: DnsRecordView) -> bool {
    record.kind == RecordKind::Txt
}

/// The TXT records among `records`, in their order.
pub open spec fn txt_of(records: Seq<DnsRecordView>) -> Seq<DnsRecordView> {
    records.filter(|record: DnsRecordView| is_txt(record))
}

/// The TXT records among `records`, in their order.
pub fn txt_records(records: &Vec<DnsRecord>) -> (r: Vec<DnsRecord>)
    ensures
        record_views(r@) == txt_of(record_views(records@)),
{
    let mut found: Vec<DnsRecord> = Vec::new();
    let ghost all = record_views(records@);
    let ghost pred = |record: DnsRecordView| is_txt(record);
    proof {
        reveal(Seq::filter);
        assert(record_views(found@) =~= all.take(0).filter(pred));
    }
    for i in 0..records.len()
        invariant
            all == record_views(records@),
            pred == |record: DnsRecordView| is_txt(record),
            record_views(found@) == all.take(i as int).filter(pred),
    {
        let record = &records[i];
        proof {
            all.take(i as int).lemma_filter_push(all[i as int], pred);
            assert(all.take(i as int).push(all[i as int]) =~= all.take(i + 1));
        }
        match record.kind {
            RecordKind::Txt => {
                let ghost before = found@;
                found.push(DnsRecord { id: record.id.clone(), kind: record.kind });
                assert(record_views(found@) =~= record_views(before).push(all[i as int]));
            },
            _ => {},
        }
    }
    assert(all.take(records.len() as int) =~= all);
    found
}

/// A provider that can publish a DNSLINK record under a name in its zone.
pub trait DnsLinker {
    /// How an upsert of `hash` under `record` opens.
    spec fn start(&self, hash: Seq<char>, record: Seq<char>) -> (LinkStateView, LinkActionView);

    /// How an upsert in `state` goes on after `reply`.
    spec fn step(&self, state: LinkStateView, reply: LinkReplyView) -> (
        LinkStateView,
        LinkActionView,
    );

    /// Opens the upsert of `hash` under `record`: the first request to
    /// perform, or the reason why there is none.
    fn link(&self, hash: &str, record: &str) -> (r: (LinkState, LinkAction))
        ensures
            (r.0@, r.1@) == self.start(hash@, record@),
    ;

    /// Takes the reply to the request that was handed out last, and hands
    /// out the next one or the upsert's end.
    fn resume(&self, state: LinkState, reply: LinkReply) -> (r: (LinkState, LinkAction))
        ensures
            (r.0@, r.1@) == self.step(state@, reply@),
    ;
}

} // verus!
