//! A model of the service's records, and what an upsert does to them.

use crate::dnslinkers::cloudflare::Cloudflare;
use crate::dnslinkers::laws::{law_no_record_creates, law_one_record_updates, session};
use crate::dnslinkers::{
    in_zone, is_txt, link_name, link_value, txt_of, DnsRecordView, LinkActionView, LinkReplyView,
    RecordKind,
};
use vstd::prelude::*;

verus! {

/// A record as the service stores it.
pub struct StoredRecord {
    /// The service's identifier of the record.
    pub id: Seq<char>,
    /// The name that the record is stored under.
    pub name: Seq<char>,
    /// The record's type.
    pub kind: RecordKind,
    /// The record's value.
    pub content: Seq<char>,
}

/// What a listing shows of a stored record.
pub open spec fn shown(record: StoredRecord) -> DnsRecordView {
    DnsRecordView { id: record.id, kind: record.kind }
}

/// The test that a stored record is named `name`.
pub open spec fn named(name: Seq<char>) -> spec_fn(StoredRecord) -> bool {
    |record: StoredRecord| record.name == name
}

/// The test that a stored record is a TXT record named `name`.
pub open spec fn txt_named(name: Seq<char>) -> spec_fn(StoredRecord) -> bool {
    |record: StoredRecord| record.name == name && record.kind == RecordKind::Txt
}

/// What the service lists of `stored` when asked for the records at `name`:
/// the records of every type that bear the name.
pub open spec fn listed(stored: Seq<StoredRecord>, name: Seq<char>) -> Seq<DnsRecordView> {
    stored.filter(named(name)).map_values(|record: StoredRecord| shown(record))
}

/// The TXT records that `stored` holds at `name`.
pub open spec fn links_at(stored: Seq<StoredRecord>, name: Seq<char>) -> Seq<StoredRecord> {
    stored.filter(txt_named(name))
}

/// No two stored records share an identifier.
pub open spec fn distinct_ids(stored: Seq<StoredRecord>) -> bool {
    forall|i: int, j: int| 0 <= i < j < stored.len() ==> stored[i].id != stored[j].id
}

/// `id` identifies none of the stored records.
pub open spec fn unused_id(stored: Seq<StoredRecord>, id: Seq<char>) -> bool {
    forall|i: int| 0 <= i < stored.len() ==> (#[trigger] stored[i]).id != id
}

/// The records after the service has carried out `action`. A record that
/// it creates is identified by `fresh`; an update replaces name, type and
/// content of the record that it names; no other action changes a record.
pub open spec fn carried_out(
    stored: Seq<StoredRecord>,
    action: LinkActionView,
    fresh: Seq<char>,
) -> Seq<StoredRecord> {
    match action {
        LinkActionView::CreateTxt { zone_id, name, content } => stored.push(
            StoredRecord { id: fresh, name, kind: RecordKind::Txt, content },
        ),
        LinkActionView::UpdateTxt { zone_id, record_id, name, content } => stored.map_values(
            |record: StoredRecord|
                if record.id == record_id {
                    StoredRecord { id: record_id, name, kind: RecordKind::Txt, content }
                } else {
                    record
                },
        ),
        _ => stored,
    }
}

/// The records after the service has carried out `actions`, in turn.
pub open spec fn carried_out_all(
    stored: Seq<StoredRecord>,
    actions: Seq<LinkActionView>,
    fresh: Seq<char>,
) -> Seq<StoredRecord>
    decreases actions.len(),
{
    if actions.len() == 0 {
        stored
    } else {
        carried_out_all(carried_out(stored, actions[0], fresh), actions.drop_first(), fresh)
    }
}

/// One upsert against a service that holds `stored` in the zone `zone_id`
/// and fails no request: the actions, and the records afterwards.
pub open spec fn upsert(
    linker: Cloudflare,
    hash: Seq<char>,
    record: Seq<char>,
    zone_id: Seq<char>,
    stored: Seq<StoredRecord>,
    fresh: Seq<char>,
) -> (Seq<LinkActionView>, Seq<StoredRecord>) {
    let replies = seq![
        LinkReplyView::Zones(seq![zone_id]),
        LinkReplyView::Records(listed(stored, link_name(record))),
        LinkReplyView::Written,
    ];
    let actions = session(linker, hash, record, replies);
    (actions, carried_out_all(stored, actions, fresh))
}

/// Running the upsert twice with one content identifier leaves one TXT
/// record at the name, with the link's value: the first run creates it, the
/// second overwrites it in place and changes nothing.
pub proof fn law_upsert_twice(
    linker: Cloudflare,
    hash: Seq<char>,
    record: Seq<char>,
    zone_id: Seq<char>,
    stored: Seq<StoredRecord>,
    first_id: Seq<char>,
    second_id: Seq<char>,
)
    requires
        in_zone(record, linker.zone()),
        unused_id(stored, first_id),
        links_at(stored, link_name(record)).len() == 0,
    ensures
        ({
            let name = link_name(record);
            let content = link_value(hash);
            let link = StoredRecord { id: first_id, name, kind: RecordKind::Txt, content };
            let (first, once) = upsert(linker, hash, record, zone_id, stored, first_id);
            let (second, twice) = upsert(linker, hash, record, zone_id, once, second_id);
            &&& first[2] == LinkActionView::CreateTxt { zone_id, name, content }
            &&& second[2] == LinkActionView::UpdateTxt { zone_id, record_id: first_id, name, content }
            &&& once == stored.push(link)
            &&& twice == once
            &&& links_at(twice, name) == seq![link]
        }),
{
    let name = link_name(record);
    let content = link_value(hash);
    let link = StoredRecord { id: first_id, name, kind: RecordKind::Txt, content };
    let zones = seq![zone_id];

    lemma_listed_txt(stored, name);
    law_no_record_creates(linker, hash, record, zones, listed(stored, name));
    let (first, once) = upsert(linker, hash, record, zone_id, stored, first_id);
    lemma_carried_out_write(stored, first, first_id);
    assert(once == stored.push(link));

    stored.lemma_filter_push(link, txt_named(name));
    assert(links_at(once, name) =~= seq![link]);
    lemma_listed_txt(once, name);
    law_one_record_updates(linker, hash, record, zones, listed(once, name));
    let (second, twice) = upsert(linker, hash, record, zone_id, once, second_id);
    lemma_carried_out_write(once, second, second_id);
    assert(twice =~= once);
}

/// An upsert that finds one TXT record at the name overwrites it in place:
/// afterwards the service holds as many records as before, the one TXT record
/// at the name keeps its identifier and has the link's value, and every other
/// record is as it was.
pub proof fn law_update_in_place(
    linker: Cloudflare,
    hash: Seq<char>,
    record: Seq<char>,
    zone_id: Seq<char>,
    stored: Seq<StoredRecord>,
    fresh: Seq<char>,
)
    requires
        in_zone(record, linker.zone()),
        distinct_ids(stored),
        links_at(stored, link_name(record)).len() == 1,
    ensures
        ({
            let name = link_name(record);
            let content = link_value(hash);
            let before = links_at(stored, name)[0];
            let link = StoredRecord { id: before.id, name, kind: RecordKind::Txt, content };
            let (actions, after) = upsert(linker, hash, record, zone_id, stored, fresh);
            &&& actions[2] == LinkActionView::UpdateTxt { zone_id, record_id: before.id, name, content }
            &&& after.len() == stored.len()
            &&& links_at(after, name) == seq![link]
            &&& forall|i: int|
                0 <= i < stored.len() ==> #[trigger] after[i] == if stored[i].id == before.id {
                    link
                } else {
                    stored[i]
                }
        }),
{
    let name = link_name(record);
    let content = link_value(hash);
    let before = links_at(stored, name)[0];
    let link = StoredRecord { id: before.id, name, kind: RecordKind::Txt, content };
    let replace = |record: StoredRecord|
        if record.id == before.id {
            StoredRecord { id: before.id, name, kind: RecordKind::Txt, content }
        } else {
            record
        };

    lemma_listed_txt(stored, name);
    law_one_record_updates(linker, hash, record, seq![zone_id], listed(stored, name));
    let (actions, after) = upsert(linker, hash, record, zone_id, stored, fresh);
    lemma_carried_out_write(stored, actions, fresh);
    assert(after == stored.map_values(replace));

    stored.lemma_filter_contains_rev(txt_named(name), before);
    let at = choose|i: int| 0 <= i < stored.len() && stored[i] == before;
    assert forall|i: int| 0 <= i < stored.len() implies txt_named(name)(replace(stored[i]))
        == txt_named(name)(stored[i]) by {
        if stored[i].id == before.id {
            assert(i == at);
        }
    }
    lemma_filter_map_commute(stored, replace, txt_named(name));
    assert(links_at(after, name) =~= seq![link]);
}

/// Where a change of records keeps a test's verdict on each of them, it is
/// all one whether the records are changed or tested first.
proof fn lemma_filter_map_commute(
    stored: Seq<StoredRecord>,
    change: spec_fn(StoredRecord) -> StoredRecord,
    test: spec_fn(StoredRecord) -> bool,
)
    requires
        forall|i: int| 0 <= i < stored.len() ==> test(change(stored[i])) == test(stored[i]),
    ensures
        stored.map_values(change).filter(test) == stored.filter(test).map_values(change),
    decreases stored.len(),
{
    if stored.len() == 0 {
        reveal(Seq::filter);
        assert(stored.map_values(change).filter(test) =~= stored.filter(test).map_values(change));
    } else {
        let front = stored.drop_last();
        let last = stored.last();
        assert forall|i: int| 0 <= i < front.len() implies test(change(front[i])) == test(
            front[i],
        ) by {
            assert(front[i] == stored[i]);
        }
        lemma_filter_map_commute(front, change, test);
        assert(stored =~= front.push(last));
        assert(stored.map_values(change) =~= front.map_values(change).push(change(last)));
        front.map_values(change).lemma_filter_push(change(last), test);
        front.lemma_filter_push(last, test);
        if test(last) {
            assert(front.filter(test).push(last).map_values(change) =~= front.filter(
                test,
            ).map_values(change).push(change(last)));
        }
    }
}

/// The TXT records of a listing at `name` are the TXT records stored at
/// `name`, as a listing shows them.
proof fn lemma_listed_txt(stored: Seq<StoredRecord>, name: Seq<char>)
    ensures
        txt_of(listed(stored, name)) == links_at(stored, name).map_values(
            |record: StoredRecord| shown(record),
        ),
    decreases stored.len(),
{
    let show = |record: StoredRecord| shown(record);
    let txt = |record: DnsRecordView| is_txt(record);
    if stored.len() == 0 {
        reveal(Seq::filter);
        assert(listed(stored, name) =~= Seq::empty());
        assert(links_at(stored, name).map_values(show) =~= Seq::empty());
    } else {
        let front = stored.drop_last();
        let last = stored.last();
        lemma_listed_txt(front, name);
        assert(stored =~= front.push(last));
        front.lemma_filter_push(last, named(name));
        front.lemma_filter_push(last, txt_named(name));
        if last.name == name {
            let listing = front.filter(named(name)).map_values(show);
            assert(listed(stored, name) =~= listing.push(shown(last)));
            listing.lemma_filter_push(shown(last), txt);
            if last.kind == RecordKind::Txt {
                assert(links_at(stored, name).map_values(show) =~= links_at(front, name).map_values(
                    show,
                ).push(shown(last)));
            }
        }
    }
}

/// Of the four actions of an upsert that writes, the service's records show
/// the third alone.
proof fn lemma_carried_out_write(
    stored: Seq<StoredRecord>,
    actions: Seq<LinkActionView>,
    fresh: Seq<char>,
)
    requires
        actions.len() == 4,
        actions[0] is FindZone,
        actions[1] is ListRecords,
        actions[3] is Succeed,
    ensures
        carried_out_all(stored, actions, fresh) == carried_out(stored, actions[2], fresh),
{
    let after = carried_out(stored, actions[2], fresh);
    let three = actions.drop_first();
    let two = three.drop_first();
    let one = two.drop_first();
    assert(carried_out_all(after, one.drop_first(), fresh) == after);
    assert(carried_out_all(after, one, fresh) == after);
    assert(carried_out_all(stored, two, fresh) == after);
    assert(carried_out_all(stored, three, fresh) == after);
}

} // verus!
