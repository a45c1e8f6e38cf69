use opencap::config::{config_is_valid, get_config_path, Config};
use opencap::programs::{
    detect_image_programs, detect_linux_programs, detect_macos_programs,
    detect_windows_programs, ImageProgram,
};

fn prog(name: &str, path: &str) -> ImageProgram {
    ImageProgram { name: String::from(name), path: String::from(path) }
}

#[test]
fn default_config_enables_every_output() {
    let c = Config::default();
    assert!(c.copy_to_clipboard);
    assert!(c.auto_open);
    assert!(c.save_locally);
    assert!(c.save_path.is_none());
    assert_eq!(c.open_with_program, "default");
}

#[test]
fn config_needs_at_least_one_output() {
    let mut c = Config::default();
    assert!(config_is_valid(&c));
    c.copy_to_clipboard = false;
    c.auto_open = false;
    assert!(config_is_valid(&c));
    c.save_locally = false;
    assert!(!config_is_valid(&c));
    c.auto_open = true;
    assert!(config_is_valid(&c));
}

#[test]
fn config_file_lives_in_config_dir() {
    let p = get_config_path("/home/someone/.config/opencap");
    assert_eq!(p, "/home/someone/.config/opencap/config.json");
}

#[test]
fn system_default_heads_program_list() {
    let found = vec![prog("GIMP", "/usr/bin/gimp"), prog("Krita", "/usr/bin/krita")];
    let all = detect_image_programs(found);
    assert_eq!(all.len(), 3);
    assert_eq!(all[0].name, "System Default");
    assert_eq!(all[0].path, "default");
    assert_eq!(all[1].name, "GIMP");
    assert_eq!(all[2].name, "Krita");
}

#[test]
fn windows_detection_drops_duplicate_names() {
    let candidates = vec![
        prog("Paint", r"C:\Windows\System32\mspaint.exe"),
        prog("Photoshop", r"C:\Program Files\Adobe\Adobe Photoshop 2024\Photoshop.exe"),
        prog("Photoshop", r"C:\Program Files\Adobe\Adobe Photoshop 2023\Photoshop.exe"),
        prog("Krita", r"C:\Program Files\Krita (x64)\bin\krita.exe"),
    ];
    let present = vec![false, true, true, true];
    let found = detect_windows_programs(candidates, present);
    assert_eq!(found.len(), 2);
    assert_eq!(found[0].name, "Photoshop");
    assert_eq!(
        found[0].path,
        r"C:\Program Files\Adobe\Adobe Photoshop 2024\Photoshop.exe"
    );
    assert_eq!(found[1].name, "Krita");
}

#[test]
fn macos_detection_keeps_present_in_order() {
    let candidates = vec![
        prog("Preview", "/System/Applications/Preview.app"),
        prog("Photos", "/System/Applications/Photos.app"),
        prog("GIMP", "/Applications/GIMP-2.10.app"),
    ];
    let present = vec![true, false, true];
    let found = detect_macos_programs(candidates, present);
    assert_eq!(found.len(), 2);
    assert_eq!(found[0].name, "Preview");
    assert_eq!(found[1].name, "GIMP");
}

#[test]
fn linux_detection_skips_missing_and_empty_paths() {
    let names = vec![
        String::from("GIMP"),
        String::from("Krita"),
        String::from("feh"),
    ];
    let resolved = vec![Some(String::from("/usr/bin/gimp")), None, Some(String::new())];
    let found = detect_linux_programs(names, resolved);
    assert_eq!(found.len(), 1);
    assert_eq!(found[0].name, "GIMP");
    assert_eq!(found[0].path, "/usr/bin/gimp");
}
