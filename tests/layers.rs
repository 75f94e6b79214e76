use gpgpu::{contains_name, enabled_layers};

fn strings(v: &[&str]) -> Vec<String> {
    v.iter().map(|s| s.to_string()).collect()
}

#[test]
fn contains_name_matches_whole_names() {
    let list = strings(&["VK_LAYER_KHRONOS_validation", "VK_LAYER_MESA_overlay"]);
    assert!(contains_name(&list, &"VK_LAYER_MESA_overlay".to_string()));
    assert!(!contains_name(&list, &"VK_LAYER_MESA".to_string()));
    assert!(!contains_name(&vec![], &"x".to_string()));
}

#[test]
fn enabled_layers_keep_available_order() {
    let available = strings(&["a", "b", "c", "d"]);
    let requested = strings(&["d", "b", "z"]);
    assert_eq!(enabled_layers(&available, &requested), vec![1, 3]);
    assert_eq!(enabled_layers(&available, &vec![]), Vec::<usize>::new());
    assert_eq!(enabled_layers(&vec![], &requested), Vec::<usize>::new());
}
