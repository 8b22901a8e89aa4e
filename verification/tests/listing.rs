use vagrant_boxes::listing::{get_boxes, parse_line, LineError};
use vagrant_boxes::status::BoxStatus;
use vagrant_boxes::text::{is_whitespace, same_ignoring_case, same_text, scan, Boundary};
use vagrant_boxes::vagrant_box::{final_component_bounds, VagrantBox};

fn summary(boxes: &[VagrantBox]) -> Vec<(String, BoxStatus, String)> {
    boxes
        .iter()
        .map(|b| (b.name().to_string(), b.initial_status(), b.path().to_string()))
        .collect()
}

#[test]
fn single_default_box_with_carriage_returns() {
    let output = "Current machine states:\r\n\r\ndefault poweroff\r\n\r\n";
    let boxes = get_boxes("/vm", output).unwrap();
    assert_eq!(boxes.len(), 1);
    assert_eq!(boxes[0].name(), "default");
    assert_eq!(boxes[0].initial_status(), BoxStatus::PowerOff);
    assert_eq!(boxes[0].path(), "/vm");
    assert_eq!(boxes[0].smart_name(), "vm");
}

#[test]
fn boxes_come_in_file_order() {
    let output = "Current machine states:\n\nweb      running (virtualbox)\ndb       saved (virtualbox)\ncache    aborted (virtualbox)\nold      poweroff (virtualbox)\n\nThis environment represents multiple VMs.\nextra running\n";
    let boxes = get_boxes("/srv/fleet", output).unwrap();
    assert_eq!(
        summary(&boxes),
        vec![
            ("web".to_string(), BoxStatus::Running, "/srv/fleet".to_string()),
            ("db".to_string(), BoxStatus::Saved, "/srv/fleet".to_string()),
            ("cache".to_string(), BoxStatus::Aborted, "/srv/fleet".to_string()),
            ("old".to_string(), BoxStatus::PowerOff, "/srv/fleet".to_string()),
        ]
    );
}

#[test]
fn header_lines_are_never_read_as_boxes() {
    let boxes = get_boxes("/vm", "alpha running\nbeta saved\ngamma saved\n").unwrap();
    assert_eq!(summary(&boxes), vec![("gamma".to_string(), BoxStatus::Saved, "/vm".to_string())]);
}

#[test]
fn listing_without_trailing_blank_line() {
    let boxes = get_boxes("/vm", "h\n\none running").unwrap();
    assert_eq!(boxes.len(), 1);
    assert_eq!(boxes[0].name(), "one");
}

#[test]
fn short_or_empty_output_has_no_boxes() {
    assert_eq!(get_boxes("/vm", "").unwrap().len(), 0);
    assert_eq!(get_boxes("/vm", "only a header").unwrap().len(), 0);
    assert_eq!(get_boxes("/vm", "one\ntwo").unwrap().len(), 0);
    assert_eq!(get_boxes("/vm", "one\ntwo\n").unwrap().len(), 0);
    assert_eq!(get_boxes("/vm", "one\ntwo\n\nweb running\n").unwrap().len(), 0);
}

#[test]
fn carriage_return_line_ends_the_section() {
    let boxes = get_boxes("/vm", "h\n\nweb running\n\rdb saved\n").unwrap();
    assert_eq!(boxes.len(), 1);
    assert_eq!(boxes[0].name(), "web");
}

#[test]
fn unknown_status_fails_the_listing() {
    let output = "Current machine states:\n\nweb running\ndb hibernating\n\n";
    assert_eq!(get_boxes("/vm", output).unwrap_err(), LineError::UnknownStatus);
}

#[test]
fn unknown_status_after_the_section_is_not_read() {
    let output = "Current machine states:\n\nweb running\n\ndb hibernating\n";
    assert_eq!(get_boxes("/vm", output).unwrap().len(), 1);
}

#[test]
fn line_with_one_word_fails_the_listing() {
    let output = "Current machine states:\n\nweb\n\n";
    assert_eq!(get_boxes("/vm", output).unwrap_err(), LineError::MissingField);
    assert_eq!(get_boxes("/vm", "a\nb\n   \n").unwrap_err(), LineError::MissingField);
}

#[test]
fn parse_line_takes_the_first_two_words() {
    let (name, status) = parse_line("  web \t running (virtualbox)").unwrap();
    assert_eq!(name, "web");
    assert_eq!(status, BoxStatus::Running);
    assert_eq!(parse_line("web").unwrap_err(), LineError::MissingField);
    assert_eq!(parse_line("").unwrap_err(), LineError::MissingField);
    assert_eq!(parse_line("web running(virtualbox)").unwrap_err(), LineError::UnknownStatus);
}

#[test]
fn status_keywords_ignore_case() {
    assert_eq!(BoxStatus::from_keyword("poweroff"), Some(BoxStatus::PowerOff));
    assert_eq!(BoxStatus::from_keyword("PowerOff"), Some(BoxStatus::PowerOff));
    assert_eq!(BoxStatus::from_keyword("RUNNING"), Some(BoxStatus::Running));
    assert_eq!(BoxStatus::from_keyword("Saved"), Some(BoxStatus::Saved));
    assert_eq!(BoxStatus::from_keyword("aborted"), Some(BoxStatus::Aborted));
    assert_eq!(BoxStatus::from_keyword("power_off"), None);
    assert_eq!(BoxStatus::from_keyword("save"), None);
    assert_eq!(BoxStatus::from_keyword(""), None);
    assert_eq!(BoxStatus::from_keyword("s\u{212A}ved"), None);
}

#[test]
fn only_running_is_powered_on() {
    assert!(BoxStatus::Running.powered_on());
    assert!(!BoxStatus::PowerOff.powered_on());
    assert!(!BoxStatus::Saved.powered_on());
    assert!(!BoxStatus::Aborted.powered_on());
}

#[test]
fn power_subcommands() {
    assert_eq!(BoxStatus::Saved.power_up_subcommand(), "resume");
    assert_eq!(BoxStatus::PowerOff.power_up_subcommand(), "up");
    assert_eq!(BoxStatus::Aborted.power_up_subcommand(), "up");
    assert_eq!(BoxStatus::Saved.power_down_subcommand(false), "suspend");
    assert_eq!(BoxStatus::PowerOff.power_down_subcommand(false), "halt");
    assert_eq!(BoxStatus::Aborted.power_down_subcommand(false), "halt");
    assert_eq!(BoxStatus::Saved.power_down_subcommand(true), "suspend");
    assert_eq!(BoxStatus::PowerOff.power_down_subcommand(true), "suspend");
    assert_eq!(BoxStatus::Aborted.power_down_subcommand(true), "suspend");
}

#[test]
fn smart_name_of_a_named_box_is_its_name() {
    let b = VagrantBox::new("/srv/fleet", "web", BoxStatus::Running);
    assert!(b.is_nameable());
    assert_eq!(b.smart_name(), "web");
    let rootless = VagrantBox::new("/", "web", BoxStatus::Running);
    assert!(rootless.is_nameable());
    assert_eq!(rootless.smart_name(), "web");
}

#[test]
fn smart_name_of_a_default_box_is_the_directory() {
    let cases = [
        ("/vm", "vm"),
        ("/home/user/boxes/", "boxes"),
        ("relative/dir", "dir"),
        ("/a/b/.", "b"),
        ("/a//b//", "b"),
        ("./here", "here"),
        ("/a/...", "..."),
        ("/a/.hidden", ".hidden"),
    ];
    for (path, expected) in cases {
        let b = VagrantBox::new(path, "default", BoxStatus::PowerOff);
        assert!(b.is_nameable());
        assert_eq!(b.smart_name(), expected);
        assert_eq!(
            std::path::Path::new(path).file_name().and_then(|n| n.to_str()),
            Some(expected)
        );
    }
}

#[test]
fn default_box_without_a_final_segment_has_no_name() {
    for path in ["", "/", ".", "..", "/a/..", "./.", "//"] {
        let b = VagrantBox::new(path, "default", BoxStatus::PowerOff);
        assert!(!b.is_nameable());
        assert_eq!(final_component_bounds(path), None);
        assert_eq!(std::path::Path::new(path).file_name(), None);
    }
}

#[test]
fn final_component_bounds_count_characters() {
    assert_eq!(final_component_bounds("/vm"), Some((1, 3)));
    assert_eq!(final_component_bounds("/caf\u{e9}/b\u{fc}ro/"), Some((6, 10)));
}

#[test]
fn describe_joins_name_and_directory() {
    let b = VagrantBox::new("/srv/fleet", "default", BoxStatus::Saved);
    assert_eq!(b.describe(), "default @ /srv/fleet");
}

#[test]
fn scanning_stops_at_the_boundary() {
    assert_eq!(scan("ab\ncd", 0, Boundary::Newline), 2);
    assert_eq!(scan("ab\ncd", 3, Boundary::Newline), 5);
    assert_eq!(scan("  ab cd", 0, Boundary::Word), 2);
    assert_eq!(scan("  ab cd", 2, Boundary::Space), 4);
    assert_eq!(scan("a/b", 0, Boundary::Slash), 1);
    assert_eq!(scan("abc", 3, Boundary::Slash), 3);
}

#[test]
fn whitespace_is_what_std_calls_whitespace() {
    let mut code: u32 = 0;
    while code <= 0x3100 {
        if let Some(c) = char::from_u32(code) {
            assert_eq!(is_whitespace(c), c.is_whitespace());
        }
        code += 1;
    }
}

#[test]
fn text_comparisons() {
    assert!(same_text("default", "default"));
    assert!(!same_text("default", "Default"));
    assert!(!same_text("default", "defaults"));
    assert!(same_ignoring_case("SaVeD", "saved"));
    assert!(!same_ignoring_case("saved", "save"));
    assert!(!same_ignoring_case("@", "`"));
    assert!(!same_ignoring_case("[", "{"));
}

#[test]
fn boxes_of_one_directory_share_its_path() {
    let path = std::rc::Rc::new("/srv/fleet".to_string());
    let web = VagrantBox::in_directory(&path, "web".to_string(), BoxStatus::Running);
    let db = VagrantBox::in_directory(&path, "default".to_string(), BoxStatus::Saved);
    assert_eq!(std::rc::Rc::strong_count(&path), 3);
    assert_eq!(web.path(), "/srv/fleet");
    assert_eq!(db.path(), "/srv/fleet");
    assert_eq!(web.smart_name(), "web");
    assert_eq!(db.smart_name(), "fleet");
    assert_eq!(db.initial_status(), BoxStatus::Saved);
}
