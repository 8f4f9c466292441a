use tpt_ignis::ui::{query_state, render, to_html, NodeBuilder, UITree};

fn sample_tree() -> UITree<()> {
    UITree::container(|c: &mut NodeBuilder| {
        c.heading(1, "Title").ai_action("read_overview").class("hero");
        c.text("a < b & c > d").class("mono");
        c.data_grid(&["Gauge", "Value"], vec![vec!["B".to_string(), "5.300".to_string()]])
            .class("grid");
        c.container(|inner: &mut NodeBuilder| {
            inner.text("nested");
        });
    })
}

#[test]
fn text_content_is_depth_first() {
    let t = sample_tree();
    assert_eq!(
        t.text_content(),
        "Title\na < b & c > d\nGauge Value \nB 5.300 \nnested\n"
    );
}

#[test]
fn render_escapes_text_and_emits_attributes() {
    let mut t = sample_tree();
    t.assign_ids();
    let state = query_state(&t);
    let page = to_html(&render(&t, &state));
    assert_eq!(
        page,
        "<!doctype html><html><head><meta charset=\"utf-8\"></head><body>\
<h1 id=\"n0\">Title</h1>\
<pre id=\"n1\" class=\"mono\">a &lt; b &amp; c &gt; d</pre>\
<table id=\"n2\" class=\"grid\" data-node-type=\"DataGrid\"><thead><tr><th>Gauge</th><th>Value</th></tr></thead>\
<tbody><tr><td>B</td><td>5.300</td></tr></tbody></table>\
<div id=\"n3\"><pre id=\"n4\">nested</pre></div>\
</body></html>"
    );
}

#[test]
fn render_without_ids_has_no_id_attributes() {
    let t = sample_tree();
    let state = query_state(&t);
    let page = to_html(&render(&t, &state));
    assert!(!page.contains("id="));
    assert!(page.contains("<h1>Title</h1>"));
}

#[test]
fn assign_ids_keeps_text_content() {
    let t = sample_tree();
    let before = t.text_content();
    let mut stamped = t.duplicate();
    stamped.assign_ids();
    assert_eq!(stamped.text_content(), before);
}

#[test]
fn assign_ids_gives_unique_preorder_ids() {
    let mut t: UITree<()> = UITree::container(|c: &mut NodeBuilder| {
        for i in 0..12 {
            c.text(&format!("line {i}"));
        }
    });
    t.assign_ids();
    let page = to_html(&render(&t, &query_state(&t)));
    for i in 0..12 {
        let needle = format!("id=\"n{i}\"");
        assert_eq!(page.matches(&needle).count(), 1, "{needle}");
    }
    assert!(!page.contains("id=\"n12\""));
}

#[test]
fn with_splices_subtree_text() {
    let sub: UITree<()> = UITree::container(|c: &mut NodeBuilder| {
        c.heading(3, "Sub");
        c.text("body");
    });
    let t: UITree<()> = UITree::container(|c: &mut NodeBuilder| {
        c.text("top");
        c.with(sub);
    });
    assert_eq!(t.text_content(), "top\nSub\nbody\n");
    let page = to_html(&render(&t, &query_state(&t)));
    assert!(page.contains("<div><h3>Sub</h3><pre>body</pre></div>"));
}

#[test]
fn annotations_do_not_change_text() {
    let plain: UITree<()> = UITree::container(|c: &mut NodeBuilder| {
        c.heading(2, "Gauge");
    });
    let annotated: UITree<()> = UITree::container(|c: &mut NodeBuilder| {
        c.heading(2, "Gauge")
            .ai_action("read_gauge")
            .ai_param("metric", "Gauge")
            .ai_description("desc")
            .class("x");
    });
    assert_eq!(plain.text_content(), annotated.text_content());
}

#[test]
fn builder_from_new_matches_container() {
    let mut b = NodeBuilder::new();
    b.heading(2, "H");
    let t: UITree<()> = UITree::from_builder(b);
    assert_eq!(t.text_content(), "H\n");
}

#[test]
fn heading_level_is_rendered_in_decimal() {
    let t: UITree<()> = UITree::container(|c: &mut NodeBuilder| {
        c.heading(12, "deep");
    });
    let page = to_html(&render(&t, &query_state(&t)));
    assert!(page.contains("<h12>deep</h12>"));
}

#[test]
fn ai_annotations_do_not_change_html() {
    let plain: UITree<()> = UITree::container(|c: &mut NodeBuilder| {
        c.heading(2, "Gauge").class("x");
        c.text("v");
    });
    let annotated: UITree<()> = UITree::container(|c: &mut NodeBuilder| {
        c.heading(2, "Gauge")
            .ai_action("read_gauge")
            .ai_param("metric", "Gauge")
            .ai_description("desc")
            .class("x");
        c.text("v").ai_action("read");
    });
    let a = to_html(&render(&plain, &query_state(&plain)));
    let b = to_html(&render(&annotated, &query_state(&annotated)));
    assert_eq!(a, b);
}

#[test]
fn text_of_concatenation_is_concatenated_text() {
    let first: UITree<()> = UITree::container(|c: &mut NodeBuilder| {
        c.heading(1, "A");
        c.text("one");
    });
    let second: UITree<()> = UITree::container(|c: &mut NodeBuilder| {
        c.data_grid(&["k"], vec![vec!["v".to_string()]]);
    });
    let expected = format!("{}{}", first.text_content(), second.text_content());
    let both: UITree<()> = UITree::container(|c: &mut NodeBuilder| {
        c.heading(1, "A");
        c.text("one");
        c.data_grid(&["k"], vec![vec!["v".to_string()]]);
    });
    assert_eq!(both.text_content(), expected);
    assert_eq!(both.text_content(), "A\none\nk \nv \n");
}

#[test]
fn escaping_is_single_and_reversible() {
    let t: UITree<()> = UITree::container(|c: &mut NodeBuilder| {
        c.text("<a&b>");
        c.text("&amp;");
    });
    let page = to_html(&render(&t, &query_state(&t)));
    assert!(page.contains("<pre>&lt;a&amp;b&gt;</pre>"));
    assert!(page.contains("<pre>&amp;amp;</pre>"));
}
