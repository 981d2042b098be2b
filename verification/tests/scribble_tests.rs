use xcode_build::scribble::{PadData, PadEntry, ScribbleData};

fn world() -> ScribbleData {
    ScribbleData {
        pads: vec![
            PadEntry { pad: 1, children: vec![10, 11, 12] },
            PadEntry { pad: 2, children: vec![20, 21, 22, 23] },
        ],
        complete_spawners: vec![11, 21, 23],
        partial_spawners: vec![12, 22],
    }
}

#[test]
fn pad_of_a_detector() {
    let w = world();
    assert_eq!(w.pad_entity_from_detector(10), Some(1));
    assert_eq!(w.pad_entity_from_detector(20), Some(2));
    assert_eq!(w.pad_entity_from_detector(99), None);
}

#[test]
fn pad_data_picks_first_spawners() {
    let w = world();
    assert_eq!(
        w.with_detector(10),
        Some(PadData { pad: 1, complete_spawner: 11, partial_spawner: 12, complete_spawners_found: 1, partial_spawners_found: 1 })
    );
    assert_eq!(
        w.with_detector(20),
        Some(PadData { pad: 2, complete_spawner: 21, partial_spawner: 22, complete_spawners_found: 2, partial_spawners_found: 1 })
    );
    assert_eq!(w.with_detector(99), None);
}

#[test]
fn pad_data_needs_both_spawners() {
    let w = ScribbleData {
        pads: vec![PadEntry { pad: 1, children: vec![10, 11] }],
        complete_spawners: vec![11],
        partial_spawners: vec![],
    };
    assert_eq!(w.with_detector(10), None);
    assert_eq!(w.pad_entity_from_detector(10), Some(1));
}
