use tpt_ignis::halo::{grid_to_text, reactor_view_tree};
use tpt_ignis::msgpack::MsgpackError;
use tpt_ignis::text::push_decimal;
use tpt_ignis::widgets::{
    bar_text, chart_tree, gauge_dashboard_tree, gauge_row, gauge_state, gauge_widget_tree, join_lines,
    to_html,
};

#[test]
fn bar_text_fills_prefix() {
    assert_eq!(bar_text(0, 10), "          ");
    assert_eq!(bar_text(10, 10), "██████████");
    assert_eq!(bar_text(5, 10), "█████     ");
    assert_eq!(bar_text(20, 3), "███");
}

#[test]
fn gauge_widget_tree_lines() {
    let t = gauge_widget_tree("Toroidal Field", "██", "5.000", false);
    assert_eq!(t.text_content(), "Toroidal Field\n██ 5.000  [OK]\n");
    let html = to_html(&t);
    assert!(html.contains("Toroidal Field"));
    assert!(html.contains("OK"));
    assert!(html.contains("█"));
    let alarm = gauge_widget_tree("B", "", "1.000", true);
    assert!(alarm.text_content().contains("[ALARM]"));
}

#[test]
fn gauge_dashboard_lists_rows() {
    let rows = vec![
        gauge_row("Toroidal B", "5.000", "83%", false, "█"),
        gauge_row("Plasma Current", "15.000", "75%", true, "█"),
    ];
    let t = gauge_dashboard_tree("Cryo & Magnets", rows);
    let html = to_html(&t);
    assert!(html.contains("DataGrid"));
    assert!(html.contains("<th>Gauge</th><th>Value</th><th>Fill</th><th>State</th><th>Bar</th>"));
    assert!(html.contains("Cryo &amp; Magnets"));
    assert!(html.contains("<td>ALARM</td>"));
    assert!(html.contains("class=\"gauge-dashboard\""));
}

#[test]
fn chart_tree_holds_body() {
    let t = chart_tree("Thomson ne", "t0 |█ +0.100\nt1 |██ -0.500");
    assert_eq!(t.text_content(), "Thomson ne\nt0 |█ +0.100\nt1 |██ -0.500\n");
}

#[test]
fn join_lines_has_no_trailing_break() {
    assert_eq!(join_lines(&vec!["a".to_string(), "b".to_string()]), "a\nb");
    assert_eq!(join_lines(&vec![]), "");
}

#[test]
fn grid_to_text_joins_rows() {
    let g = vec![vec!['#', ' '], vec!['.', '#']];
    assert_eq!(grid_to_text(&g), "# \n.#");
}

#[test]
fn reactor_view_has_sections() {
    let gauge = gauge_widget_tree("Toroidal Field (T)", "█", "5.300", false);
    let t = reactor_view_tree(4242, vec![gauge], "Equilibrium: R0=6.20m", "##", "# #");
    let html = to_html(&t);
    assert!(html.contains("Shot #4242"));
    assert!(html.contains("Toroidal Field"));
    assert!(html.contains("Poloidal cross-section"));
    assert!(html.contains("Toroidal projection"));
}

#[test]
fn state_badges() {
    assert_eq!(gauge_state(true), "ALARM");
    assert_eq!(gauge_state(false), "OK");
}

#[test]
fn decimal_formatting() {
    let mut s = String::from("x");
    push_decimal(&mut s, 0);
    push_decimal(&mut s, 1234567890123);
    assert_eq!(s, "x01234567890123");
}

#[test]
fn msgpack_error_messages() {
    assert_eq!(MsgpackError::Encode("x".into()).message(), "msgpack encode error: x");
    assert_eq!(MsgpackError::Decode("y".into()).message(), "msgpack decode error: y");
}
