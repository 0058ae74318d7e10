//! What holds of every upsert, stated over whole conversations.

use crate::dnslinkers::cloudflare::{after_records, Cloudflare};
use crate::dnslinkers::{
    in_zone, link_name, link_value, txt_of, DnsLinker, DnsRecordView, LinkActionView,
    LinkErrorView, LinkReplyView, LinkStateView,
};
use vstd::prelude::*;

verus! {

/// The actions that `linker` hands out from `state` on, one for each of
/// `replies`, until the upsert is over or the replies are used up.
pub open spec fn drive<L: DnsLinker>(
    linker: L,
    state: LinkStateView,
    replies: Seq<LinkReplyView>,
) -> Seq<LinkActionView>
    decreases replies.len(),
{
    if replies.len() == 0 || state is Done {
        Seq::empty()
    } else {
        let (next, action) = linker.step(state, replies[0]);
        seq![action] + drive(linker, next, replies.drop_first())
    }
}

/// All actions of an upsert of `hash` under `record` to which the service
/// answers with `replies`, in turn.
pub open spec fn session<L: DnsLinker>(
    linker: L,
    hash: Seq<char>,
    record: Seq<char>,
    replies: Seq<LinkReplyView>,
) -> Seq<LinkActionView> {
    let (state, action) = linker.start(hash, record);
    seq![action] + drive(linker, state, replies)
}

/// The stored name carries the label `_dnslink.` once: a name without it
/// gets it in front, a name with it stays as it is, and naming twice changes
/// nothing.
pub proof fn law_link_name_once(record: Seq<char>)
    ensures
        "_dnslink."@.is_prefix_of(record) ==> link_name(record) == record,
        !"_dnslink."@.is_prefix_of(record) ==> link_name(record) == "_dnslink."@ + record,
        "_dnslink."@.is_prefix_of(link_name(record)),
        link_name(link_name(record)) == link_name(record),
{
    let label = "_dnslink."@;
    if !label.is_prefix_of(record) {
        assert((label + record).subrange(0, label.len() as int) =~= label);
    }
}

/// A record outside the zone is refused before any request: whatever the
/// service would answer, the refusal is the upsert's only action.
pub proof fn law_outside_zone_asks_nothing(
    linker: Cloudflare,
    hash: Seq<char>,
    record: Seq<char>,
    replies: Seq<LinkReplyView>,
)
    requires
        !in_zone(record, linker.zone()),
    ensures
        session(linker, hash, record, replies) == seq![
            LinkActionView::Fail(
                LinkErrorView::RecordNotInZone { record, zone: linker.zone() },
            ),
        ],
{
    assert(drive(linker, LinkStateView::Done, replies) =~= Seq::empty());
}

/// With no TXT record at the name, the upsert creates one with the link's
/// value, and writes nothing else.
pub proof fn law_no_record_creates(
    linker: Cloudflare,
    hash: Seq<char>,
    record: Seq<char>,
    zones: Seq<Seq<char>>,
    records: Seq<DnsRecordView>,
)
    requires
        in_zone(record, linker.zone()),
        zones.len() > 0,
        txt_of(records).len() == 0,
    ensures
        session(
            linker,
            hash,
            record,
            seq![
                LinkReplyView::Zones(zones),
                LinkReplyView::Records(records),
                LinkReplyView::Written,
            ],
        ) == seq![
            LinkActionView::FindZone { zone: linker.zone() },
            LinkActionView::ListRecords { zone_id: zones[0], name: link_name(record) },
            LinkActionView::CreateTxt {
                zone_id: zones[0],
                name: link_name(record),
                content: link_value(hash),
            },
            LinkActionView::Succeed,
        ],
{
    let replies = seq![
        LinkReplyView::Zones(zones),
        LinkReplyView::Records(records),
        LinkReplyView::Written,
    ];
    lemma_drive_three(linker, linker.start(hash, record).0, replies);
}

/// With one TXT record at the name, the upsert overwrites that record with
/// the link's value, and creates none.
pub proof fn law_one_record_updates(
    linker: Cloudflare,
    hash: Seq<char>,
    record: Seq<char>,
    zones: Seq<Seq<char>>,
    records: Seq<DnsRecordView>,
)
    requires
        in_zone(record, linker.zone()),
        zones.len() > 0,
        txt_of(records).len() == 1,
    ensures
        session(
            linker,
            hash,
            record,
            seq![
                LinkReplyView::Zones(zones),
                LinkReplyView::Records(records),
                LinkReplyView::Written,
            ],
        ) == seq![
            LinkActionView::FindZone { zone: linker.zone() },
            LinkActionView::ListRecords { zone_id: zones[0], name: link_name(record) },
            LinkActionView::UpdateTxt {
                zone_id: zones[0],
                record_id: txt_of(records)[0].id,
                name: link_name(record),
                content: link_value(hash),
            },
            LinkActionView::Succeed,
        ],
{
    let replies = seq![
        LinkReplyView::Zones(zones),
        LinkReplyView::Records(records),
        LinkReplyView::Written,
    ];
    lemma_drive_three(linker, linker.start(hash, record).0, replies);
}

/// With two or more TXT records at the name, the upsert writes nothing: it
/// ends with the conflict, which names the record, whatever is answered
/// after the listing.
pub proof fn law_many_records_write_nothing(
    linker: Cloudflare,
    hash: Seq<char>,
    record: Seq<char>,
    zones: Seq<Seq<char>>,
    records: Seq<DnsRecordView>,
    later: Seq<LinkReplyView>,
)
    requires
        in_zone(record, linker.zone()),
        zones.len() > 0,
        txt_of(records).len() >= 2,
    ensures
        session(
            linker,
            hash,
            record,
            seq![LinkReplyView::Zones(zones), LinkReplyView::Records(records)] + later,
        ) == seq![
            LinkActionView::FindZone { zone: linker.zone() },
            LinkActionView::ListRecords { zone_id: zones[0], name: link_name(record) },
            LinkActionView::Fail(LinkErrorView::MultipleRecords { name: link_name(record) }),
        ],
{
    let replies = seq![LinkReplyView::Zones(zones), LinkReplyView::Records(records)] + later;
    let opened = linker.start(hash, record).0;
    let (listing, _) = linker.step(opened, replies[0]);
    let rest = replies.drop_first();
    assert(rest[0] == LinkReplyView::Records(records));
    assert(drive(linker, LinkStateView::Done, rest.drop_first()) =~= Seq::empty());
    assert(drive(linker, listing, rest) =~= seq![linker.step(listing, rest[0]).1]);
}

/// Whatever the service answers, an upsert writes only as its third action,
/// on the word of a listing that shows at most one TXT record, and what it
/// writes is the link for the record in the zone that was found first.
pub proof fn law_writes_follow_a_listing(
    linker: Cloudflare,
    hash: Seq<char>,
    record: Seq<char>,
    replies: Seq<LinkReplyView>,
    at: int,
)
    requires
        0 <= at < session(linker, hash, record, replies).len(),
        session(linker, hash, record, replies)[at].is_write(),
    ensures
        at == 2,
        in_zone(record, linker.zone()),
        replies.len() >= 2,
        ({
            &&& replies[0] matches LinkReplyView::Zones(zones)
            &&& replies[1] matches LinkReplyView::Records(records)
            &&& zones.len() > 0
            &&& txt_of(records).len() <= 1
            &&& session(linker, hash, record, replies)[at] == after_records(
                zones[0],
                link_name(record),
                link_value(hash),
                txt_of(records),
            ).1
        }),
{
    let (opened, first) = linker.start(hash, record);
    assert(!first.is_write());
    assert(drive(linker, LinkStateView::Done, replies) =~= Seq::empty());
    if in_zone(record, linker.zone()) && replies.len() > 0 {
        let (listing, second) = linker.step(opened, replies[0]);
        let rest = replies.drop_first();
        assert(!second.is_write());
        assert(drive(linker, LinkStateView::Done, rest) =~= Seq::empty());
        if !(listing is Done) && rest.len() > 0 {
            let (writing, third) = linker.step(listing, rest[0]);
            let last = rest.drop_first();
            assert(rest[0] == replies[1]);
            assert(drive(linker, LinkStateView::Done, last) =~= Seq::empty());
            if !(writing is Done) && last.len() > 0 {
                let (end, fourth) = linker.step(writing, last[0]);
                assert(end is Done && !fourth.is_write());
                assert(drive(linker, end, last.drop_first()) =~= Seq::empty());
                assert(drive(linker, writing, last) =~= seq![fourth]);
            } else {
                assert(drive(linker, writing, last) =~= Seq::empty());
            }
            assert(drive(linker, listing, rest).len() <= 2);
        } else {
            assert(drive(linker, listing, rest) =~= Seq::empty());
        }
    }
}

/// The actions to three replies, where none of the first two ends the upsert.
proof fn lemma_drive_three(linker: Cloudflare, state: LinkStateView, replies: Seq<LinkReplyView>)
    requires
        replies.len() == 3,
        !(state is Done),
        !(linker.step(state, replies[0]).0 is Done),
        !(linker.step(linker.step(state, replies[0]).0, replies[1]).0 is Done),
    ensures
        drive(linker, state, replies) == ({
            let (second, a) = linker.step(state, replies[0]);
            let (third, b) = linker.step(second, replies[1]);
            let (_, c) = linker.step(third, replies[2]);
            seq![a, b, c]
        }),
{
    let (second, a) = linker.step(state, replies[0]);
    let (third, b) = linker.step(second, replies[1]);
    let (last, c) = linker.step(third, replies[2]);
    let two = replies.drop_first();
    let one = two.drop_first();
    assert(drive(linker, last, one.drop_first()) =~= Seq::empty());
    assert(drive(linker, third, one) =~= seq![c]);
    assert(drive(linker, second, two) =~= seq![b, c]);
    assert(drive(linker, state, replies) =~= seq![a, b, c]);
}

} // verus!
