use scan_orchestrator::scaner::{check_path_conflict, find_conflicts, validate_directory_conflicts};
use scan_orchestrator::settings::{
    broken_checked_types, build_common_config, default_excluded_directories,
    default_included_directories, get_platform_settings, hash_size_or_default,
    music_similarity_flags, parse_audio_check, parse_big_files_mode, parse_check_method,
    parse_hash_kind, parse_image_hash_alg, parse_resize_alg, parse_u8, AudioCheck, BigFilesMode,
    CheckMethod, HashKind, ImageHashAlg, ResizeAlg, ScanSettings,
};
use scan_orchestrator::utils::{convert_strs_to_path_bufs, split_str_with_comma};

fn strings(v: &[&str]) -> Vec<String> {
    v.iter().map(|s| s.to_string()).collect()
}

#[test]
fn string_keyed_options_parse_with_fallbacks() {
    assert_eq!(parse_hash_kind("CRC32"), HashKind::Crc32);
    assert_eq!(parse_hash_kind("XXH3"), HashKind::Xxh3);
    assert_eq!(parse_hash_kind("anything"), HashKind::Blake3);

    assert_eq!(parse_check_method("Size"), CheckMethod::Size);
    assert_eq!(parse_check_method("Name"), CheckMethod::Name);
    assert_eq!(parse_check_method("SizeAndName"), CheckMethod::SizeName);
    assert_eq!(parse_check_method("???"), CheckMethod::Hash);

    assert_eq!(parse_image_hash_alg("Gradient"), ImageHashAlg::Gradient);
    assert_eq!(parse_image_hash_alg("BlockHash"), ImageHashAlg::Blockhash);
    assert_eq!(parse_image_hash_alg("VertGradient"), ImageHashAlg::VertGradient);
    assert_eq!(parse_image_hash_alg("DoubleGradient"), ImageHashAlg::DoubleGradient);
    assert_eq!(parse_image_hash_alg("Median"), ImageHashAlg::Median);
    assert_eq!(parse_image_hash_alg(""), ImageHashAlg::Mean);

    assert_eq!(parse_resize_alg("Gaussian"), ResizeAlg::Gaussian);
    assert_eq!(parse_resize_alg("CatmullRom"), ResizeAlg::CatmullRom);
    assert_eq!(parse_resize_alg("Triangle"), ResizeAlg::Triangle);
    assert_eq!(parse_resize_alg("Nearest"), ResizeAlg::Nearest);
    assert_eq!(parse_resize_alg("smooth"), ResizeAlg::Lanczos3);

    assert_eq!(parse_big_files_mode("SmallestFiles"), BigFilesMode::SmallestFiles);
    assert_eq!(parse_big_files_mode("BiggestFiles"), BigFilesMode::BiggestFiles);
    assert_eq!(parse_big_files_mode(""), BigFilesMode::BiggestFiles);

    assert_eq!(parse_audio_check("Fingerprint"), AudioCheck::AudioContent);
    assert_eq!(parse_audio_check("Tags"), AudioCheck::AudioTags);
}

#[test]
fn music_flags_default_to_title_and_artist() {
    assert_eq!(music_similarity_flags(false, false, false, false, false, false), 3);
    assert_eq!(music_similarity_flags(true, false, true, false, false, false), 5);
    assert_eq!(music_similarity_flags(true, true, true, true, true, true), 63);
}

#[test]
fn broken_types_default_to_audio() {
    assert_eq!(broken_checked_types(false, false, false, false), 1);
    assert_eq!(broken_checked_types(false, true, false, true), 10);
    assert_eq!(broken_checked_types(true, true, true, true), 15);
}

#[test]
fn small_number_parsing() {
    assert_eq!(parse_u8("16"), Some(16));
    assert_eq!(parse_u8("0"), Some(0));
    assert_eq!(parse_u8("255"), Some(255));
    assert_eq!(parse_u8("256"), None);
    assert_eq!(parse_u8("9999"), None);
    assert_eq!(parse_u8(""), None);
    assert_eq!(parse_u8("12a"), None);
    assert_eq!(hash_size_or_default("32"), 32);
    assert_eq!(hash_size_or_default("not a number"), 16);
}

fn settings() -> ScanSettings {
    ScanSettings {
        included_directories: strings(&["/home/user/data"]),
        included_directories_referenced: strings(&[]),
        excluded_directories: strings(&["/home/user"]),
        excluded_items: "*/cache/*,*/tmp/*".to_string(),
        allowed_extensions: "jpg".to_string(),
        excluded_extensions: "bak".to_string(),
        minimum_file_size: 16,
        maximum_file_size: 1024,
        recursive_search: true,
        use_cache: true,
        save_also_as_json: false,
    }
}

#[test]
fn common_config_carries_everything_over() {
    let (config, warnings) = build_common_config(settings());
    assert_eq!(config.included_directories, strings(&["/home/user/data"]));
    assert!(config.use_reference);
    assert_eq!(config.reference_directories, strings(&[]));
    assert_eq!(config.excluded_directories, strings(&["/home/user"]));
    assert!(config.recursive_search);
    assert_eq!(config.minimal_file_size, 16_000);
    assert_eq!(config.maximal_file_size, 1_024_000);
    assert_eq!(config.allowed_extensions, "jpg");
    assert_eq!(config.excluded_extensions, "bak");
    assert_eq!(config.excluded_items, strings(&["*/cache/*", "*/tmp/*"]));
    assert!(config.use_cache);
    assert!(!config.save_also_as_json);
    assert_eq!(
        warnings,
        strings(&["Included '/home/user/data' and Excluded '/home/user'"])
    );
}

#[test]
fn reference_applies_only_when_counts_differ() {
    let mut s = settings();
    s.included_directories_referenced = strings(&["/home/user/data"]);
    let (config, _) = build_common_config(s);
    assert!(!config.use_reference);
    assert_eq!(config.reference_directories, strings(&[]));

    let mut s = settings();
    s.included_directories = strings(&["/a", "/b"]);
    s.included_directories_referenced = strings(&["/a"]);
    s.excluded_directories = strings(&[]);
    let (config, warnings) = build_common_config(s);
    assert!(config.use_reference);
    assert_eq!(config.reference_directories, strings(&["/a"]));
    assert!(warnings.is_empty());
}

#[test]
fn conflicts_are_component_wise() {
    let included = strings(&["/home/user/docs", "/data", "/home/username"]);
    let excluded = strings(&["/home/user"]);
    let conflicts = find_conflicts(&included, &excluded);
    // "/home/username" does not lie inside "/home/user": segments, not text
    assert_eq!(
        conflicts,
        vec![("/home/user/docs".to_string(), "/home/user".to_string())]
    );
    let warnings = validate_directory_conflicts(&included, &excluded);
    assert_eq!(
        warnings,
        strings(&["Included '/home/user/docs' and Excluded '/home/user'"])
    );
}

#[test]
fn path_conflict_checks_both_directions() {
    let included = strings(&["/home/user/docs"]);
    let excluded = strings(&["/home/user"]);
    let info = check_path_conflict("/home/user/pictures", "includedDirectories", &included, &excluded)
        .expect("adding an included path inside an excluded one must conflict");
    assert_eq!(info.included, "/home/user/pictures");
    assert_eq!(info.excluded, "/home/user");

    let info = check_path_conflict("/home/user", "excludedDirectories", &included, &excluded)
        .expect("adding an excluded path above an included one must conflict");
    assert_eq!(info.included, "/home/user/docs");
    assert_eq!(info.excluded, "/home/user");

    assert!(check_path_conflict("/anything", "otherField", &included, &excluded).is_none());
    assert!(check_path_conflict("/elsewhere", "includedDirectories", &included, &excluded).is_none());
}

#[test]
fn comma_splitting_keeps_empty_pieces() {
    assert_eq!(split_str_with_comma("a,b".to_string()), strings(&["a", "b"]));
    assert_eq!(split_str_with_comma("a,,b".to_string()), strings(&["a", "", "b"]));
    assert_eq!(split_str_with_comma("".to_string()), strings(&[""]));
    assert_eq!(split_str_with_comma("one".to_string()), strings(&["one"]));
}

#[test]
fn path_buf_conversion_keeps_every_path() {
    let paths = convert_strs_to_path_bufs(strings(&["/a/b", "c.txt"]));
    assert_eq!(paths.len(), 2);
    assert_eq!(paths[0], std::path::PathBuf::from("/a/b"));
    assert_eq!(paths[1], std::path::PathBuf::from("c.txt"));
}

#[test]
fn default_directories() {
    let home = Some("/home/me".to_string());
    let none: Option<String> = None;
    assert_eq!(
        default_included_directories(&home, &none, true),
        strings(&["/home/me"])
    );
    assert_eq!(
        default_included_directories(&none, &Some("/cwd".to_string()), true),
        strings(&["/cwd"])
    );
    assert_eq!(default_included_directories(&none, &none, true), strings(&["/"]));
    assert_eq!(default_included_directories(&none, &none, false), strings(&["C:\\"]));

    let engine_defaults = strings(&["/proc", "/sys"]);
    assert_eq!(
        default_excluded_directories(&none, false, &engine_defaults),
        engine_defaults
    );
    let on_mac = default_excluded_directories(&home, true, &engine_defaults);
    assert_eq!(on_mac.len(), 10);
    assert_eq!(on_mac[0], "/home/me/Downloads");
    assert_eq!(on_mac[7], "/home/me/Library/Reminders");
    assert_eq!(on_mac[8], "/proc");
    assert_eq!(on_mac[9], "/sys");
}

#[test]
fn platform_settings_assemble() {
    let home = Some("/home/me".to_string());
    let none: Option<String> = None;
    let defaults = strings(&["/proc"]);
    let settings = get_platform_settings(
        &home,
        &none,
        true,
        false,
        &defaults,
        "*/.git/*".to_string(),
        8,
        Some("/home/me/.cache".to_string()),
    );
    assert_eq!(settings.included_directories, strings(&["/home/me"]));
    assert_eq!(settings.excluded_directories, strings(&["/proc"]));
    assert_eq!(settings.excluded_items, "*/.git/*");
    assert_eq!(settings.available_thread_number, 8);
    assert_eq!(settings.cache_dir_path, "/home/me/.cache");

    let settings = get_platform_settings(&none, &none, true, false, &defaults, String::new(), 1, None);
    assert_eq!(settings.cache_dir_path, "");
}
