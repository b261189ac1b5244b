use progression::cmdln::bar::Bar;
use progression::cmdln::ratio_bar::RatioBar;
use progression::cmdln::{shorten_uuid, thousands_separator};

#[test]
fn thousands_grouping() {
    assert_eq!(thousands_separator(0), "0");
    assert_eq!(thousands_separator(7), "7");
    assert_eq!(thousands_separator(999), "999");
    assert_eq!(thousands_separator(1000), "1,000");
    assert_eq!(thousands_separator(1234567), "1,234,567");
    assert_eq!(thousands_separator(1001), "1,001");
    assert_eq!(
        thousands_separator(u64::MAX),
        "18,446,744,073,709,551,615"
    );
}

#[test]
fn shortened_identifier_shape() {
    let id = uuid::Uuid::new_v4();
    let short = shorten_uuid(id);
    assert_eq!(short.len(), 17);
    assert!(short.starts_with('['));
    assert!(short.ends_with(']'));
    assert!(short.contains("..."));
    let long = id.to_string();
    assert_eq!(&short[1..7], &long[0..6]);
    assert_eq!(&short[10..16], &long[30..36]);
}

#[test]
fn bar_renders_exactly() {
    let mut bar = Bar::new("[".to_string(), "]".to_string(), '#', ' ', 10);
    bar.progress(4, Some("xp".to_string()));
    bar.labels(Some("L".to_string()), Some("R".to_string()));
    let text = bar.render();
    assert_eq!(text, "L          R\n[####      ]\n     ^\n      xp");
}

#[test]
fn bar_without_labels() {
    let mut bar = Bar::new("[".to_string(), "]".to_string(), '#', ' ', 5);
    bar.progress(5, None);
    assert_eq!(bar.render(), "[#####]\n");
}

#[test]
fn ratio_bar_renders_exactly() {
    let mut bar = RatioBar::new("[".to_string(), "]".to_string(), '#', ' ', '|', 11);
    bar.progress(2, Some("ab".to_string()), 3, Some("c".to_string()));
    let text = bar.render();
    assert_eq!(text, "[   ##|###  ]\n   ^      ^\n    ab     c");
}

#[test]
fn ratio_bar_without_progress_labels() {
    let mut bar = RatioBar::new("[".to_string(), "]".to_string(), '#', ' ', '|', 5);
    bar.progress(1, None, 1, None);
    let text = bar.render();
    assert_eq!(text, "[ #|# ]\n    \n    ");
}
