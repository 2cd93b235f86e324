use cerena::client::host::{
    from_hex, join_parts, or_nothing, page, parse_chunk, player_name, resync, subscribe_request, to_hex, Body,
    Hosting, ReplicaMessage, ZoneId,
};
use cerena::scalar::{dec, one, zero};

fn zone(x: i32, z: i32) -> ZoneId {
    ZoneId { x, z }
}

fn host_of(zones: &[ZoneId]) -> Hosting {
    let mut h = Hosting::new("me".to_string(), zone(0, 0));
    for z in zones {
        h.host(*z, format!("in/{}/{}", z.x, z.z));
    }
    h
}

#[test]
fn the_wire_form_reads_back() {
    let bytes: Vec<u8> = (0..=255).collect();
    assert_eq!(from_hex(&to_hex(&bytes)), bytes);
    assert_eq!(to_hex(&[0, 171]), "00ab");
    assert_eq!(from_hex(" \n0AfF\u{3000}"), vec![10, 255]);
    assert_eq!(from_hex("0a0"), vec![10]);
    assert_eq!(from_hex(""), Vec::<u8>::new());
}

#[test]
fn chunks_are_taken_apart() {
    let chunk = "{\"from\":\"bob\",\"topic\":\"zone/1\",\"payload_hex\":\" 00ff \",\"more\":3}";
    assert_eq!(parse_chunk(chunk), Some(("bob".to_string(), "zone/1".to_string(), vec![0, 255])));
    assert_eq!(parse_chunk("{\"from\":\"bob\",\"topic\":\"t\"}"), None);
    assert_eq!(parse_chunk("{\"from\":1,\"topic\":\"t\",\"payload_hex\":\"00\"}"), None);
    assert_eq!(parse_chunk("[1,2]"), None);
    assert_eq!(parse_chunk("{"), None);
    assert_eq!(join_parts(Some("t".to_string()), None, Some("00".to_string())), None);
}

#[test]
fn subscriptions_are_json_lists() {
    assert_eq!(subscribe_request(&vec![]), "[]");
    assert_eq!(subscribe_request(&vec!["a".to_string(), "b\"c".to_string()]), "[\"a\",\"b\\\"c\"]");
    assert_eq!(subscribe_request(&vec!["\\\n\u{1}\u{1f}\u{7f}\u{e9}/".to_string()]), "[\"\\\\\\n\\u0001\\u001f\u{7f}\u{e9}/\"]");
    assert_eq!(
        subscribe_request(&vec!["\u{8}\t\u{c}\r".to_string(), String::new(), "z".to_string()]),
        "[\"\\b\\t\\f\\r\",\"\",\"z\"]"
    );
    assert_eq!(or_nothing(None), "[]");
}

#[test]
fn the_wire_form_reads_back_whatever_surrounds_it() {
    let bytes: Vec<u8> = vec![0x00, 0x0f, 0xa5, 0xff];
    let h = to_hex(&bytes);
    assert_eq!(h, "000fa5ff");
    assert_eq!(from_hex(&h), bytes);
    assert_eq!(from_hex(&h.to_uppercase()), bytes);
    assert_eq!(from_hex(&format!(" \t{}\u{2003}\n", h)), bytes);
    assert_eq!(from_hex(&format!("{}7", h)), bytes);
    assert_eq!(from_hex(&format!("{}zz11", h)), bytes);
    assert_eq!(from_hex("  "), Vec::<u8>::new());
}

#[test]
fn every_tab_is_its_own_player() {
    assert_eq!(player_name("node", 0x00ab_12ff), "node-00ab12ff");
    assert_ne!(player_name("node", 1), player_name("node", 2));
}

#[test]
fn inputs_go_to_hosted_zones_only() {
    let mut h = host_of(&[zone(0, 0)]);
    let to = h.route("bob".to_string(), "in/0/0", ReplicaMessage::Input(5u8));
    assert_eq!(to, Some((zone(0, 0), "bob".to_string(), 5)));
    assert_eq!(h.route("bob".to_string(), "in/9/9", ReplicaMessage::Input(5u8)), None);
}

#[test]
fn the_newest_snapshot_is_kept() {
    let mut h = host_of(&[zone(0, 0)]);
    let advert = |tick: u32, cid: &str| ReplicaMessage::<u8>::Snapshot { zone: zone(0, 0), tick, cid: cid.to_string() };
    h.route("a".to_string(), "x", advert(10, "ten"));
    h.route("a".to_string(), "x", advert(9, "nine"));
    assert_eq!(h.zones[0].latest_snapshot, Some((10, "ten".to_string())));
    h.route("a".to_string(), "x", advert(10, "again"));
    assert_eq!(h.zones[0].latest_snapshot, Some((10, "again".to_string())));
}

#[test]
fn a_round_has_one_vote_each() {
    let mut h = host_of(&[zone(0, 0)]);
    let vote = |hash: u8| ReplicaMessage::<u8>::Proof { zone: zone(0, 0), hash: [hash; 32] };
    h.route("bob".to_string(), "x", vote(1));
    h.route("bob".to_string(), "x", vote(2));
    h.route("amy".to_string(), "x", vote(3));
    h.route(
        "amy".to_string(),
        "x",
        ReplicaMessage::<u8>::Snapshot { zone: zone(0, 0), tick: 3, cid: "cid".to_string() },
    );
    assert!(!h.round_ends(33) && h.round_ends(64));
    assert!(h.tally(zone(0, 0), 33, [9; 32]).is_none());
    assert!(h.tally(zone(5, 5), 64, [9; 32]).is_none());
    let round = h.tally(zone(0, 0), 64, [9; 32]).unwrap();
    assert_eq!(
        round.votes,
        vec![
            ("amy".to_string(), [3; 32]),
            ("bob".to_string(), [2; 32]),
            ("me".to_string(), [9; 32]),
        ]
    );
    assert_eq!(resync(true, round), Some("cid".to_string()));
    let next = h.tally(zone(0, 0), 96, [8; 32]).unwrap();
    assert_eq!(next.votes.len(), 1);
    assert_eq!(resync(false, next), None);
}

#[test]
fn the_local_zone_streams_first() {
    let h = host_of(&[zone(1, 0), zone(0, 0), zone(-1, 2), zone(0, -1)]);
    assert_eq!(h.hosted_zone_count(), 4);
    assert_eq!(
        h.hosted_zones_local_first(),
        vec![zone(0, 0), zone(-1, 2), zone(0, -1), zone(1, 0)]
    );
    assert_eq!(
        h.hosted_zones_in_grid_order(),
        vec![zone(-1, 2), zone(0, -1), zone(0, 0), zone(1, 0)]
    );
    assert_eq!(h.unhosted(&vec![zone(3, 3), zone(0, 0), zone(4, 4)]), vec![zone(3, 3), zone(4, 4)]);
}

#[test]
fn hosting_again_starts_afresh() {
    let mut h = host_of(&[zone(0, 0), zone(1, 1)]);
    h.route("bob".to_string(), "x", ReplicaMessage::<u8>::Proof { zone: zone(0, 0), hash: [1; 32] });
    h.host(zone(0, 0), "other".to_string());
    assert_eq!(h.hosted(), vec![zone(0, 0), zone(1, 1)]);
    assert!(h.zones[0].proofs.entries.is_empty());
    assert_eq!((h.next_seq(), h.next_seq()), (1, 2));
}

#[test]
fn the_page_says_how_it_goes() {
    let body = |health: i32, alive: bool| Body { health, armor: 250, alive, coord: "1, 2".to_string() };
    let alone = page(9, 1, Some(body(42, true)));
    assert_eq!(alone.status, "hosting 9 zones · exploring");
    assert_eq!((alone.hp.as_str(), alone.peers.as_str()), ("42", ""));
    assert_eq!((alone.hp_frac, alone.ar_frac), (dec(42, 2), one()));
    let crowd = page(9, 3, Some(body(-4, true)));
    assert_eq!(crowd.status, "hosting 9 zones · 2 nearby");
    assert_eq!((crowd.hp.as_str(), crowd.peers.as_str()), ("0", "2 mage(s) near"));
    assert_eq!(crowd.hp_frac, zero());
    let fallen = page(9, 3, Some(body(0, false)));
    assert_eq!(fallen.status, "you have fallen");
    assert!(fallen.dead);
    let entering = page(9, 2, None);
    assert_eq!(entering.status, "entering Cerena…");
    assert_eq!((entering.hp.as_str(), entering.hp_frac, entering.ar_frac), ("—", one(), zero()));
    assert_eq!(entering.peers, "2 mage(s) near");
}
