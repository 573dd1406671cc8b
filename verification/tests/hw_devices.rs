use scrcpy_panel::hw_devices::device_paths;

fn names(list: &[&str]) -> Vec<String> {
    list.iter().map(|s| s.to_string()).collect()
}

#[test]
fn other_hardware_gets_the_default_alone() {
    let r = device_paths(false, names(&["/dev/dri/renderD128", "/dev/dri/card0"]));
    assert_eq!(r, vec![None]);
}

#[test]
fn vaapi_gets_every_render_node_in_name_order() {
    let r = device_paths(
        true,
        names(&["/dev/dri/renderD129", "/dev/dri/card0", "/dev/dri/by-path", "/dev/dri/renderD128"]),
    );
    assert_eq!(
        r,
        vec![
            None,
            Some("/dev/dri/renderD128".to_string()),
            Some("/dev/dri/renderD129".to_string()),
        ]
    );
}

#[test]
fn vaapi_without_render_nodes_keeps_the_default() {
    let r = device_paths(true, names(&["/dev/dri/card0", "/dev/dri/card1"]));
    assert_eq!(r, vec![None]);
    let r = device_paths(true, Vec::new());
    assert_eq!(r, vec![None]);
}

#[test]
fn a_shorter_name_comes_first() {
    let r = device_paths(true, names(&["/dev/dri/renderD1280", "/dev/dri/renderD128"]));
    assert_eq!(
        r,
        vec![
            None,
            Some("/dev/dri/renderD128".to_string()),
            Some("/dev/dri/renderD1280".to_string()),
        ]
    );
}
