use rusty_vinnie::ea_live_updates::break_markup_into_day_sections;

#[test]
fn one_section_per_day_heading_in_page_order() {
    let markup = "\
<h3>Path of Exile 2 Early Access Day 3</h3>
<strong>Servers</strong> - stable<br/>
<h3>Path of Exile 2 Early Access Day 2</h3>
<strong>Queues</strong> - shrinking<br/>
<h3>Path of Exile 2 Early Access Day 1</h3>
<strong>Launch</strong> - live<br/>
";
    let sections = break_markup_into_day_sections(markup);
    assert_eq!(sections.len(), 3);
    assert!(sections[0].starts_with("<h3>Path of Exile 2 Early Access Day 3</h3>"));
    assert!(sections[0].contains("stable"));
    assert!(!sections[0].contains("Queues"));
    assert!(sections[1].starts_with("<h3>Path of Exile 2 Early Access Day 2</h3>"));
    assert!(sections[2].contains("<h3>Path of Exile 2 Early Access Day 1</h3>"));
    assert!(sections[2].contains("live"));
}

#[test]
fn content_after_the_info_row_is_dropped() {
    let markup = "\
<h3>Path of Exile 2 Early Access Day 1</h3>
<strong>Launch</strong> - live<br/>
<tr class=\"newsPost newsPostInfo\">
<h3>Not a day section</h3>
";
    let sections = break_markup_into_day_sections(markup);
    assert_eq!(sections.len(), 1);
    assert!(!sections[0].contains("Not a day section"));
}

#[test]
fn markup_without_headings_has_no_sections() {
    assert!(break_markup_into_day_sections("<p>nothing here</p>").is_empty());
    assert!(break_markup_into_day_sections("").is_empty());
}
