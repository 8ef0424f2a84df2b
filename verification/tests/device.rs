use motion_pipeline::device::{first_step, next_step, select_device, SearchStep, ENUMERATION_BOUND};

fn named(name: &str) -> Option<String> {
    Some(name.to_string())
}

#[test]
fn the_search_starts_at_the_first_index() {
    assert_eq!(ENUMERATION_BOUND, 1000);
    assert_eq!(first_step(), SearchStep::Probe(0));
}

#[test]
fn a_device_of_the_wanted_name_ends_the_search() {
    let wanted = "USB Camera".to_string();
    assert_eq!(next_step(&wanted, 0, &named("USB Camera")), SearchStep::Found(0));
    assert_eq!(next_step(&wanted, 999, &named("USB Camera")), SearchStep::Found(999));
}

#[test]
fn another_device_or_none_sends_the_search_on() {
    let wanted = "USB Camera".to_string();
    assert_eq!(next_step(&wanted, 0, &named("Integrated Webcam")), SearchStep::Probe(1));
    assert_eq!(next_step(&wanted, 0, &named("USB Camera ")), SearchStep::Probe(1));
    assert_eq!(next_step(&wanted, 0, &named("usb camera")), SearchStep::Probe(1));
    assert_eq!(next_step(&wanted, 41, &None), SearchStep::Probe(42));
    assert_eq!(next_step(&wanted, 998, &None), SearchStep::Probe(999));
}

#[test]
fn the_search_gives_up_at_the_bound() {
    let wanted = "USB Camera".to_string();
    assert_eq!(next_step(&wanted, 999, &None), SearchStep::NotFound);
    assert_eq!(next_step(&wanted, 999, &named("Integrated Webcam")), SearchStep::NotFound);
    assert_eq!(next_step(&wanted, u32::MAX, &None), SearchStep::NotFound);
}

#[test]
fn the_first_match_wins() {
    let wanted = "USB Camera".to_string();
    let labels = vec![
        named("Integrated Webcam"),
        None,
        named("USB Camera"),
        named("USB Camera"),
    ];
    assert_eq!(select_device(&labels, &wanted), Some(2));
    assert_eq!(select_device(&labels, &"Integrated Webcam".to_string()), Some(0));
    assert_eq!(select_device(&labels, &"Capture Card".to_string()), None);
    assert_eq!(select_device(&Vec::new(), &wanted), None);
}

#[test]
fn a_device_beyond_the_bound_is_not_found() {
    let wanted = "USB Camera".to_string();
    let mut labels: Vec<Option<String>> = vec![None; 1001];
    labels[1000] = named("USB Camera");
    assert_eq!(select_device(&labels, &wanted), None);
    labels[999] = named("USB Camera");
    assert_eq!(select_device(&labels, &wanted), Some(999));
}
