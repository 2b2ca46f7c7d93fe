use std::sync::mpsc;

use split_check::driver::run_check_cycle;
use split_check::entry::{CfName, KeyEntry, CF_DEFAULT, CF_WRITE};
use split_check::keys::data_key;
use split_check::observer::{Host, Msg, ProbeError, SizeCheckObserver};
use split_check::region::{ObserverContext, Peer, Region, RegionEpoch};

/// A scanned entry for the `i`-th four-digit user key, whose stored value
/// equals its on-disk key bytes (so each entry weighs 10 bytes).
fn data_entry(i: u32, cf: CfName) -> KeyEntry {
    let key = data_key(format!("{:04}", i).as_bytes());
    let value_size = key.len() as u64;
    KeyEntry::new(key, 0, value_size, cf)
}

fn must_split_at(rx: &mpsc::Receiver<Msg>, exp_region: &Region, exp_split_key: &[u8]) {
    loop {
        match rx.try_recv() {
            Ok(Msg::RegionApproximateSize { region_id, .. }) => {
                assert_eq!(region_id, exp_region.id);
            }
            Ok(Msg::SplitRegion {
                region_id,
                region_epoch,
                split_key,
            }) => {
                assert_eq!(region_id, exp_region.id);
                assert_eq!(region_epoch, exp_region.region_epoch);
                assert_eq!(split_key, exp_split_key.to_vec());
                break;
            }
            others => panic!("expect split check result, but got {:?}", others),
        }
    }
}

#[test]
fn test_split_check() {
    let region = Region {
        id: 1,
        start_key: vec![],
        end_key: vec![],
        region_epoch: RegionEpoch {
            version: 2,
            conf_ver: 5,
        },
        peers: vec![Peer::default()],
    };

    let (tx, rx) = mpsc::sync_channel(100);
    let observer = SizeCheckObserver::new(100, 60, tx.clone());

    // Seven 10-byte entries: 70 bytes in the region, under the ceiling of
    // 100, so the estimate is published but no scan is warranted.
    let entries: Vec<KeyEntry> = (0..7).map(|i| data_entry(i, CF_DEFAULT)).collect();
    let r = run_check_cycle(&observer, &region, Ok(70), &entries, &tx);
    assert!(r.is_none());
    match rx.try_recv() {
        Ok(Msg::RegionApproximateSize { region_id, .. }) => {
            assert_eq!(region_id, region.id);
        }
        others => panic!("expect recv empty, but got {:?}", others),
    }
    assert!(rx.try_recv().is_err());

    // Four more entries: 110 bytes now. The scan stops past the ceiling and
    // the split key is the first key that pushed the accumulator past 60,
    // which is the seventh ("0006", 70 bytes in).
    let entries: Vec<KeyEntry> = (0..11).map(|i| data_entry(i, CF_DEFAULT)).collect();
    let r = run_check_cycle(&observer, &region, Ok(110), &entries, &tx);
    assert_eq!(r, Some(data_key(b"0006")));
    must_split_at(&rx, &region, b"0006");

    // Keys "0000".."0005" written to the write column family as well: the
    // merged scan sees each of those keys twice, so the accumulator passes
    // 60 at the first "0003" entry (70 bytes in).
    let mut entries: Vec<KeyEntry> = Vec::new();
    for i in 0..11 {
        entries.push(data_entry(i, CF_DEFAULT));
        if i < 6 {
            entries.push(data_entry(i, CF_WRITE));
        }
    }
    let r = run_check_cycle(&observer, &region, Ok(170), &entries, &tx);
    assert_eq!(r, Some(data_key(b"0003")));
    must_split_at(&rx, &region, b"0003");

    // It should be safe even when the result can't be sent back.
    drop(rx);
    let r = run_check_cycle(&observer, &region, Ok(170), &entries, &tx);
    assert_eq!(r, Some(data_key(b"0003")));
}

#[test]
fn test_probe_policy() {
    let (tx, rx) = mpsc::sync_channel(100);
    let observer = SizeCheckObserver::new(100, 60, tx);
    let region = Region::default();
    let mut ctx = ObserverContext::new(&region);
    let mut host = Host::new();

    // A failed probe registers a checker: the region might be large.
    observer.add_checker(&mut ctx, &mut host, Err(ProbeError));
    assert_eq!(host.len(), 1);

    // An estimate under the ceiling registers none.
    observer.add_checker(&mut ctx, &mut host, Ok(99));
    assert_eq!(host.len(), 1);

    // An estimate at the ceiling registers one.
    observer.add_checker(&mut ctx, &mut host, Ok(100));
    assert_eq!(host.len(), 2);

    // The estimate was published for the two successful probes only.
    let mut published: u32 = 0;
    while let Ok(msg) = rx.try_recv() {
        match msg {
            Msg::RegionApproximateSize { region_id, size } => {
                assert_eq!(region_id, 0);
                assert!(size == 99 || size == 100);
                published += 1;
            }
            others => panic!("expect approximate size only, but got {:?}", others),
        }
    }
    assert_eq!(published, 2);
}

#[test]
fn test_empty_scan_yields_no_split() {
    let (tx, rx) = mpsc::sync_channel(100);
    let observer = SizeCheckObserver::new(100, 60, tx.clone());
    let region = Region::default();

    // A failed probe forces a scan, but an empty region yields no split and
    // publishes no estimate.
    let entries: Vec<KeyEntry> = Vec::new();
    let r = run_check_cycle(&observer, &region, Err(ProbeError), &entries, &tx);
    assert!(r.is_none());
    assert!(rx.try_recv().is_err());
}
