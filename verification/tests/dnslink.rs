use ipfs_dnslink::dnslinkers::cloudflare::Cloudflare;
use ipfs_dnslink::dnslinkers::{
    dnslink_name, dnslink_value, record_in_zone, txt_records, DnsLinker, DnsLinkers, DnsRecord,
    LinkAction, LinkError, LinkReply, LinkState, RecordKind,
};
use ipfs_dnslink::pinners::infura::{AddedEntry, Infura};
use ipfs_dnslink::pinners::Pinner;

fn cloudflare() -> Cloudflare {
    Cloudflare::new(Some("token".to_string()), Some("example.com".to_string())).unwrap()
}

fn record(id: &str, kind: RecordKind) -> DnsRecord {
    DnsRecord { id: id.to_string(), kind }
}

fn s(text: &str) -> String {
    text.to_string()
}

/// Runs an upsert against the replies given, in turn, and collects its actions.
fn converse(hash: &str, name: &str, replies: Vec<LinkReply>) -> Vec<LinkAction> {
    let linker = cloudflare();
    let (mut state, action) = linker.link(hash, name);
    let mut actions = vec![action];
    for reply in replies {
        if state == LinkState::Done {
            break;
        }
        let (next, action) = linker.resume(state, reply);
        state = next;
        actions.push(action);
    }
    actions
}

#[test]
fn site_is_pinned_and_linked() {
    let entries = vec![
        AddedEntry { name: s("index.html"), hash: s("Qm1") },
        AddedEntry { name: s("site"), hash: s("QmRoot") },
    ];
    let hash = Infura {}.pin_path("./site", Ok(entries)).unwrap();
    assert_eq!(hash, "QmRoot");

    let linker = cloudflare();
    let (state, action) = linker.link(&hash, "blog.example.com");
    assert_eq!(action, LinkAction::FindZone { zone: s("example.com") });
    assert_eq!(
        state,
        LinkState::Zone { name: s("_dnslink.blog.example.com"), content: s("dnslink=/ipfs/QmRoot") }
    );
    let (state, action) = linker.resume(state, LinkReply::Zones(vec![s("zone-1")]));
    assert_eq!(
        action,
        LinkAction::ListRecords { zone_id: s("zone-1"), name: s("_dnslink.blog.example.com") }
    );
    let (state, action) = linker.resume(state, LinkReply::Records(vec![]));
    assert_eq!(
        action,
        LinkAction::CreateTxt {
            zone_id: s("zone-1"),
            name: s("_dnslink.blog.example.com"),
            content: s("dnslink=/ipfs/QmRoot"),
        }
    );
    assert_eq!(state, LinkState::Write);
    let (state, action) = linker.resume(state, LinkReply::Written);
    assert_eq!(action, LinkAction::Succeed);
    assert_eq!(state, LinkState::Done);
}

#[test]
fn record_outside_the_zone_is_refused_without_a_request() {
    let replies = vec![LinkReply::Zones(vec![s("zone-1")]), LinkReply::Records(vec![])];
    let actions = converse("QmRoot", "blog.example.org", replies);
    assert_eq!(
        actions,
        vec![LinkAction::Fail(LinkError::RecordNotInZone {
            record: s("blog.example.org"),
            zone: s("example.com"),
        })]
    );
    assert!(!actions[0].is_request());
}

#[test]
fn zone_membership_is_a_suffix_match() {
    assert!(record_in_zone("blog.example.com", "example.com"));
    assert!(record_in_zone("example.com", "example.com"));
    assert!(record_in_zone("_dnslink.example.com", "example.com"));
    assert!(record_in_zone("notexample.com", "example.com"));
    assert!(record_in_zone("anything", ""));
    assert!(!record_in_zone("example.com", "blog.example.com"));
    assert!(!record_in_zone("example.com.", "example.com"));
    assert!(!record_in_zone("blog.example.org", "example.com"));
    assert!(!record_in_zone("", "example.com"));
}

#[test]
fn name_gets_the_label_once() {
    assert_eq!(dnslink_name("blog.example.com"), "_dnslink.blog.example.com");
    assert_eq!(dnslink_name("_dnslink.blog.example.com"), "_dnslink.blog.example.com");
    assert_eq!(dnslink_name(&dnslink_name("example.com")), "_dnslink.example.com");
    assert_eq!(dnslink_name("_dnslink"), "_dnslink._dnslink");
    assert_eq!(dnslink_name("x._dnslink.example.com"), "_dnslink.x._dnslink.example.com");
    assert_eq!(dnslink_name(""), "_dnslink.");
    assert_eq!(dnslink_name("_dnslink."), "_dnslink.");
}

#[test]
fn value_is_the_identifier_behind_the_scheme() {
    assert_eq!(dnslink_value("QmRoot"), "dnslink=/ipfs/QmRoot");
    assert_eq!(dnslink_value(""), "dnslink=/ipfs/");
    assert_eq!(
        dnslink_value("bafybeigdyrzt5sfp7udm7hu76uh7y26nf3efuylqabf3oclgtqy55fbzdi"),
        "dnslink=/ipfs/bafybeigdyrzt5sfp7udm7hu76uh7y26nf3efuylqabf3oclgtqy55fbzdi"
    );
}

#[test]
fn no_txt_record_means_one_create() {
    let listing = vec![record("a-1", RecordKind::A), record("c-1", RecordKind::Cname)];
    let replies = vec![
        LinkReply::Zones(vec![s("zone-1"), s("zone-2")]),
        LinkReply::Records(listing),
        LinkReply::Written,
    ];
    let actions = converse("QmA", "_dnslink.example.com", replies);
    assert_eq!(
        actions,
        vec![
            LinkAction::FindZone { zone: s("example.com") },
            LinkAction::ListRecords { zone_id: s("zone-1"), name: s("_dnslink.example.com") },
            LinkAction::CreateTxt {
                zone_id: s("zone-1"),
                name: s("_dnslink.example.com"),
                content: s("dnslink=/ipfs/QmA"),
            },
            LinkAction::Succeed,
        ]
    );
}

#[test]
fn one_txt_record_means_one_update_of_it() {
    let listing = vec![
        record("a-1", RecordKind::A),
        record("txt-7", RecordKind::Txt),
        record("mx-1", RecordKind::Mx),
    ];
    let replies = vec![
        LinkReply::Zones(vec![s("zone-1")]),
        LinkReply::Records(listing),
        LinkReply::Written,
    ];
    let actions = converse("QmB", "blog.example.com", replies);
    assert_eq!(
        actions,
        vec![
            LinkAction::FindZone { zone: s("example.com") },
            LinkAction::ListRecords { zone_id: s("zone-1"), name: s("_dnslink.blog.example.com") },
            LinkAction::UpdateTxt {
                zone_id: s("zone-1"),
                record_id: s("txt-7"),
                name: s("_dnslink.blog.example.com"),
                content: s("dnslink=/ipfs/QmB"),
            },
            LinkAction::Succeed,
        ]
    );
}

#[test]
fn several_txt_records_mean_no_write() {
    let listing = vec![
        record("txt-1", RecordKind::Txt),
        record("a-1", RecordKind::A),
        record("txt-2", RecordKind::Txt),
    ];
    let replies = vec![
        LinkReply::Zones(vec![s("zone-1")]),
        LinkReply::Records(listing),
        LinkReply::Written,
    ];
    let actions = converse("QmC", "blog.example.com", replies);
    assert_eq!(
        actions,
        vec![
            LinkAction::FindZone { zone: s("example.com") },
            LinkAction::ListRecords { zone_id: s("zone-1"), name: s("_dnslink.blog.example.com") },
            LinkAction::Fail(LinkError::MultipleRecords { name: s("_dnslink.blog.example.com") }),
        ]
    );
}

#[test]
fn upsert_twice_creates_then_updates() {
    let name = "_dnslink.blog.example.com";
    let mut stored: Vec<(String, RecordKind, String)> = vec![(s("a-1"), RecordKind::A, s("192.0.2.1"))];
    for run in 0..2 {
        let listing = stored.iter().map(|(id, kind, _)| record(id, *kind)).collect();
        let replies = vec![
            LinkReply::Zones(vec![s("zone-1")]),
            LinkReply::Records(listing),
            LinkReply::Written,
        ];
        let actions = converse("QmRoot", "blog.example.com", replies);
        assert_eq!(actions.len(), 4);
        match &actions[2] {
            LinkAction::CreateTxt { zone_id, name: at, content } => {
                assert_eq!(run, 0);
                assert_eq!((zone_id.as_str(), at.as_str()), ("zone-1", name));
                stored.push((s("txt-new"), RecordKind::Txt, content.clone()));
            }
            LinkAction::UpdateTxt { zone_id, record_id, name: at, content } => {
                assert_eq!(run, 1);
                assert_eq!((zone_id.as_str(), at.as_str()), ("zone-1", name));
                for (id, kind, value) in stored.iter_mut() {
                    if id == record_id {
                        *kind = RecordKind::Txt;
                        *value = content.clone();
                    }
                }
            }
            other => panic!("no write: {:?}", other),
        }
    }
    assert_eq!(
        stored,
        vec![
            (s("a-1"), RecordKind::A, s("192.0.2.1")),
            (s("txt-new"), RecordKind::Txt, s("dnslink=/ipfs/QmRoot")),
        ]
    );
}

#[test]
fn unknown_zone_ends_the_upsert() {
    let replies = vec![LinkReply::Zones(vec![]), LinkReply::Records(vec![])];
    let actions = converse("QmRoot", "blog.example.com", replies);
    assert_eq!(
        actions,
        vec![
            LinkAction::FindZone { zone: s("example.com") },
            LinkAction::Fail(LinkError::ZoneNotFound { zone: s("example.com") }),
        ]
    );
}

#[test]
fn failed_request_ends_the_upsert_at_each_stage() {
    let failed = || LinkReply::Failed(s("HTTP 403"));
    let fail = || LinkAction::Fail(LinkError::Remote { message: s("HTTP 403") });
    let zones = || LinkReply::Zones(vec![s("zone-1")]);
    let listing = || LinkReply::Records(vec![record("txt-1", RecordKind::Txt)]);

    let actions = converse("QmRoot", "blog.example.com", vec![failed(), listing()]);
    assert_eq!(actions.len(), 2);
    assert_eq!(actions[1], fail());

    let actions = converse("QmRoot", "blog.example.com", vec![zones(), failed(), LinkReply::Written]);
    assert_eq!(actions.len(), 3);
    assert_eq!(actions[2], fail());

    let actions = converse("QmRoot", "blog.example.com", vec![zones(), listing(), failed()]);
    assert_eq!(actions.len(), 4);
    assert!(matches!(actions[2], LinkAction::UpdateTxt { .. }));
    assert_eq!(actions[3], fail());
}

#[test]
fn reply_out_of_turn_ends_the_upsert() {
    let out_of_turn = || (LinkState::Done, LinkAction::Fail(LinkError::OutOfTurn));
    let linker = cloudflare();
    let waiting_for_zone = || LinkState::Zone { name: s("n"), content: s("v") };
    let waiting_for_records =
        || LinkState::Records { zone_id: s("z"), name: s("n"), content: s("v") };

    assert_eq!(linker.resume(waiting_for_zone(), LinkReply::Records(vec![])), out_of_turn());
    assert_eq!(linker.resume(waiting_for_zone(), LinkReply::Written), out_of_turn());
    assert_eq!(linker.resume(waiting_for_records(), LinkReply::Zones(vec![s("z")])), out_of_turn());
    assert_eq!(linker.resume(waiting_for_records(), LinkReply::Written), out_of_turn());
    assert_eq!(linker.resume(LinkState::Write, LinkReply::Zones(vec![])), out_of_turn());
    assert_eq!(linker.resume(LinkState::Write, LinkReply::Records(vec![])), out_of_turn());
    assert_eq!(linker.resume(LinkState::Done, LinkReply::Written), out_of_turn());
    assert_eq!(linker.resume(LinkState::Done, LinkReply::Failed(s("late"))), out_of_turn());
}

#[test]
fn txt_records_keeps_txt_in_order() {
    let listing = vec![
        record("1", RecordKind::Txt),
        record("2", RecordKind::A),
        record("3", RecordKind::Aaaa),
        record("4", RecordKind::Txt),
        record("5", RecordKind::Cname),
        record("6", RecordKind::Ns),
        record("7", RecordKind::Mx),
        record("8", RecordKind::Srv),
        record("9", RecordKind::Txt),
    ];
    assert_eq!(
        txt_records(&listing),
        vec![record("1", RecordKind::Txt), record("4", RecordKind::Txt), record("9", RecordKind::Txt)]
    );
    assert_eq!(txt_records(&Vec::new()), Vec::new());
}

#[test]
fn requests_and_ends_are_told_apart() {
    assert!(LinkAction::FindZone { zone: s("z") }.is_request());
    assert!(LinkAction::ListRecords { zone_id: s("z"), name: s("n") }.is_request());
    assert!(LinkAction::CreateTxt { zone_id: s("z"), name: s("n"), content: s("c") }.is_request());
    assert!(LinkAction::UpdateTxt {
        zone_id: s("z"),
        record_id: s("r"),
        name: s("n"),
        content: s("c")
    }
    .is_request());
    assert!(!LinkAction::Succeed.is_request());
    assert!(!LinkAction::Fail(LinkError::OutOfTurn).is_request());
}

#[test]
fn link_errors_say_what_happened() {
    let error = LinkError::RecordNotInZone { record: s("blog.example.org"), zone: s("example.com") };
    assert_eq!(error.message(), "Record (blog.example.org) does not belong in Zone(example.com).");
    let error = LinkError::MultipleRecords { name: s("_dnslink.blog.example.com") };
    assert_eq!(
        error.message(),
        "Not updating dnslink, multiple existing records found for _dnslink.blog.example.com"
    );
    let error = LinkError::ZoneNotFound { zone: s("example.com") };
    assert_eq!(error.message(), "Zone (example.com) was not found.");
    assert_eq!(LinkError::Remote { message: s("HTTP 403") }.message(), "HTTP 403");
    assert_eq!(LinkError::OutOfTurn.message(), "Reply does not answer the pending request.");
}

#[test]
fn cloudflare_keeps_its_settings() {
    let linker = cloudflare();
    assert_eq!(linker.api_token(), "token");
    assert_eq!(linker.dns_zone(), "example.com");
}

#[test]
fn dns_linkers_go_by_kebab_case_names() {
    assert_eq!(DnsLinkers::Cloudflare.name(), "cloudflare");
    assert_eq!(DnsLinkers::from_name("cloudflare"), Some(DnsLinkers::Cloudflare));
    assert_eq!(DnsLinkers::from_name("Cloudflare"), None);
    assert_eq!(DnsLinkers::from_name("infura"), None);
}
