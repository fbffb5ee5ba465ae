use rust_embedded_wgpu::kms::pick::{
    preferred_mode, CardScan, ConnectorInfo, ModeInfo, ScanAction,
};
use rust_embedded_wgpu::kms::DrmPick;

fn mode(width: u16, height: u16, vrefresh: u32, mode_type: u32) -> ModeInfo {
    ModeInfo { width, height, vrefresh, mode_type }
}

fn connector(connected: bool, modes: Vec<ModeInfo>) -> ConnectorInfo {
    ConnectorInfo { connected, modes }
}

#[test]
fn the_first_preferred_mode_is_used() {
    assert_eq!(preferred_mode(&[mode(1, 1, 60, 0), mode(2, 2, 60, 0x48), mode(3, 3, 60, 8)]), 1);
    assert_eq!(preferred_mode(&[mode(1, 1, 60, 8), mode(2, 2, 60, 8)]), 0);
}

#[test]
fn without_a_preferred_mode_the_first_is_used() {
    assert_eq!(preferred_mode(&[mode(1, 1, 60, 0x40), mode(2, 2, 60, 0x17)]), 0);
}

#[test]
fn the_preferred_bit_is_that_of_drm() {
    let bits = drm::control::ModeTypeFlags::PREFERRED.bits();
    assert_eq!(preferred_mode(&[mode(1, 1, 60, !bits), mode(2, 2, 60, bits)]), 1);
}

#[test]
fn a_pick_is_taken_from_the_mode() {
    let info = connector(true, vec![mode(640, 480, 75, 0), mode(1920, 1080, 60, 8)]);
    assert!(info.refresh_fits());
    assert_eq!(
        info.pick(42),
        Some(DrmPick { connector_id: 42, width: 1920, height: 1080, refresh_millihz: 60000 })
    );
    assert_eq!(connector(false, vec![mode(640, 480, 75, 0)]).pick(1), None);
    assert_eq!(connector(true, vec![]).pick(1), None);
}

#[test]
fn too_fast_a_refresh_rate_is_noticed() {
    assert!(connector(true, vec![mode(1, 1, 4_294_967, 0)]).refresh_fits());
    assert!(!connector(true, vec![mode(1, 1, 4_294_968, 0)]).refresh_fits());
    assert!(connector(true, vec![mode(1, 1, u32::MAX, 0), mode(1, 1, 60, 8)]).refresh_fits());
    assert!(connector(false, vec![mode(1, 1, u32::MAX, 0)]).refresh_fits());
}

#[test]
fn ten_cards_are_tried() {
    let mut scan = CardScan::open_card_and_pick();
    for card in 0..10 {
        assert_eq!(scan.action(), ScanAction::OpenCard { card });
        scan = scan.on_opened(false);
    }
    assert_eq!(scan.action(), ScanAction::Fail);
}

#[test]
fn the_first_display_is_found() {
    let mut scan = CardScan::open_card_and_pick();
    scan = scan.on_opened(true);
    assert_eq!(scan.action(), ScanAction::ListConnectors);
    scan = scan.on_connectors(None);
    assert_eq!(scan.action(), ScanAction::OpenCard { card: 1 });
    scan = scan.on_opened(true);
    scan = scan.on_connectors(Some(vec![]));
    assert_eq!(scan.action(), ScanAction::OpenCard { card: 2 });
    scan = scan.on_opened(true);
    scan = scan.on_connectors(Some(vec![7, 8, 9, 10]));
    assert_eq!(scan.action(), ScanAction::ProbeConnector { connector_id: 7, force: false });
    scan = scan.on_connector(None);
    assert_eq!(scan.action(), ScanAction::ProbeConnector { connector_id: 8, force: false });
    scan = scan.on_connector(Some(&connector(false, vec![mode(1, 1, 1, 0)])));
    assert_eq!(scan.action(), ScanAction::ProbeConnector { connector_id: 9, force: false });
    scan = scan.on_connector(Some(&connector(true, vec![mode(800, 600, 56, 0)])));
    assert_eq!(
        scan.action(),
        ScanAction::Done {
            pick: DrmPick { connector_id: 9, width: 800, height: 600, refresh_millihz: 56000 }
        }
    );
}

#[test]
fn a_card_without_a_display_is_left() {
    let mut scan = CardScan::open_card_and_pick();
    scan = scan.on_opened(true);
    scan = scan.on_connectors(Some(vec![7]));
    scan = scan.on_connector(Some(&connector(true, vec![])));
    assert_eq!(scan.action(), ScanAction::OpenCard { card: 1 });
}
