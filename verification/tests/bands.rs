use drive_gauges::binary64::Binary64;
use drive_gauges::influx_db::StorageUsage;
use drive_gauges::layout::{arrange, band_constraints, band_percentage, gauges, Area, MARGIN};
use drive_gauges::tone::Tone;

fn row(hardware: &str, value: f64) -> StorageUsage {
    StorageUsage {
        time: String::from("2020-03-01T12:00:00Z"),
        hardware: String::from(hardware),
        value: Binary64::from_bits(value.to_bits()),
    }
}

fn screen() -> Area {
    Area { x: 0, y: 0, width: 80, height: 24 }
}

#[test]
fn share_is_the_floor_of_the_equal_split() {
    assert_eq!(band_percentage(1), 100);
    assert_eq!(band_percentage(2), 50);
    assert_eq!(band_percentage(3), 33);
    assert_eq!(band_percentage(7), 14);
    assert_eq!(band_percentage(100), 1);
    assert_eq!(band_percentage(101), 0);
    assert_eq!(band_percentage(usize::MAX), 0);
}

#[test]
fn share_of_no_band_is_zero() {
    assert_eq!(band_percentage(0), 0);
}

#[test]
fn no_reading_no_band() {
    assert_eq!(band_constraints(0), Vec::<u16>::new());
}

#[test]
fn three_bands_leave_one_percent() {
    assert_eq!(band_constraints(3), vec![33, 33, 33]);
}

#[test]
fn bands_never_exceed_the_space() {
    for n in 1usize..=250 {
        let heights = band_constraints(n);
        assert_eq!(heights.len(), n);
        let sum: u32 = heights.iter().map(|h| u32::from(*h)).sum();
        assert!(sum <= 100);
        assert!(heights.iter().all(|h| usize::from(*h) == 100 / n));
    }
}

#[test]
fn margin_is_two_cells() {
    assert_eq!(MARGIN, 2);
}

#[test]
fn area_must_fit_the_coordinates() {
    assert!(screen().can_hold(0));
    assert!(screen().can_hold(1));
    assert!(screen().can_hold(5));
    assert!(Area { x: 0, y: 0, width: 80, height: 655 }.can_hold(1));
    assert!(!Area { x: 0, y: 0, width: 80, height: 656 }.can_hold(1));
    assert!(Area { x: 0, y: 0, width: 80, height: 656 }.can_hold(0));
    assert!(Area { x: 0, y: 0, width: 80, height: 656 }.can_hold(2));
    assert!(!Area { x: 65000, y: 0, width: 600, height: 24 }.can_hold(1));
    assert!(!Area { x: 0, y: 65530, width: 80, height: 24 }.can_hold(0));
    assert!(Area { x: 0, y: 0, width: 80, height: 65535 }.can_hold(101));
}

#[test]
fn gauges_pair_readings_with_places() {
    let rows = vec![row("C:", 12.5), row("D:", 60.0), row("E:", 99.9)];
    let chunks = vec![
        Area { x: 2, y: 2, width: 76, height: 6 },
        Area { x: 2, y: 8, width: 76, height: 7 },
        Area { x: 2, y: 15, width: 76, height: 7 },
    ];
    let list = gauges(&rows, &chunks);
    assert_eq!(list.len(), 3);
    assert_eq!(list[0].area, chunks[0]);
    assert_eq!(list[0].title, "C:");
    assert_eq!(list[0].tone, Tone::Normal);
    assert_eq!(list[0].percent, 12);
    assert_eq!(list[1].area, chunks[1]);
    assert_eq!(list[1].title, "D:");
    assert_eq!(list[1].tone, Tone::Warning);
    assert_eq!(list[1].percent, 60);
    assert_eq!(list[2].area, chunks[2]);
    assert_eq!(list[2].title, "E:");
    assert_eq!(list[2].tone, Tone::Critical);
    assert_eq!(list[2].percent, 99);
}

#[test]
fn gauges_stop_where_places_or_readings_end() {
    let rows = vec![row("C:", 12.5), row("D:", 60.0)];
    let one = vec![Area { x: 0, y: 0, width: 10, height: 3 }];
    assert_eq!(gauges(&rows, &one).len(), 1);
    assert_eq!(gauges(&rows, &Vec::new()).len(), 0);
    let three = vec![one[0], one[0], one[0]];
    assert_eq!(gauges(&rows, &three).len(), 2);
    assert_eq!(gauges(&Vec::new(), &three).len(), 0);
}

#[test]
fn nothing_to_arrange_without_readings() {
    assert!(arrange(&Vec::new(), screen()).is_empty());
}

#[test]
fn one_band_for_each_reading() {
    let rows = vec![row("C:", 12.5), row("D:", 70.0), row("E:", 0.0), row("C:", 12.5)];
    let list = arrange(&rows, screen());
    assert_eq!(list.len(), 4);
    let titles: Vec<&str> = list.iter().map(|g| g.title.as_str()).collect();
    assert_eq!(titles, vec!["C:", "D:", "E:", "C:"]);
    let tones: Vec<Tone> = list.iter().map(|g| g.tone).collect();
    assert_eq!(tones, vec![Tone::Normal, Tone::Warning, Tone::Critical, Tone::Normal]);
    let percents: Vec<u16> = list.iter().map(|g| g.percent).collect();
    assert_eq!(percents, vec![12, 70, 0, 12]);
}

#[test]
fn bands_lie_on_the_screen() {
    let rows = vec![row("C:", 12.5), row("D:", 70.0), row("E:", 0.0)];
    let list = arrange(&rows, screen());
    assert_eq!(list.len(), 3);
    for gauge in &list {
        assert!(gauge.area.x + gauge.area.width <= 80);
        assert!(gauge.area.y + gauge.area.height <= 24);
    }
}

#[test]
fn a_screen_smaller_than_the_margin_still_gets_its_bands() {
    let rows = vec![row("C:", 12.5), row("D:", 70.0)];
    let list = arrange(&rows, Area { x: 0, y: 0, width: 3, height: 3 });
    assert_eq!(list.len(), 2);
}
