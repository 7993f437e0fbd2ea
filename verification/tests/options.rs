use hdc_rs::file::validate_path;
use hdc_rs::{FileTransferDirection, FileTransferOptions, InstallOptions, UninstallOptions};

#[test]
fn test_install_options() {
    let opts = InstallOptions::new().replace(true);
    assert_eq!(opts.to_flags(), "-r");

    let opts = InstallOptions::new().replace(true).shared(true);
    assert_eq!(opts.to_flags(), "-r -s");
}

#[test]
fn test_uninstall_options() {
    let opts = UninstallOptions::new().keep_data(true);
    assert_eq!(opts.to_flags(), "-k");

    let opts = UninstallOptions::new().keep_data(true).shared(true);
    assert_eq!(opts.to_flags(), "-k -s");
}

#[test]
fn test_file_options_flags() {
    let opts = FileTransferOptions::new()
        .hold_timestamp(true)
        .compress(true);
    assert_eq!(opts.to_flags(), "-a -z");

    let opts = FileTransferOptions::new().sync_mode(true).mode_sync(true);
    assert_eq!(opts.to_flags(), "-sync -m");
}

#[test]
fn test_validate_path() {
    assert!(validate_path("/data/local/tmp/test.txt"));
    assert!(validate_path("test.txt"));
    assert!(!validate_path(""));
    assert!(!validate_path("test\0file"));
}

#[test]
fn options_without_anything_set_have_no_flags() {
    assert_eq!(InstallOptions::new().to_flags(), "");
    assert_eq!(UninstallOptions::new().to_flags(), "");
    assert_eq!(FileTransferOptions::new().to_flags(), "");
    assert_eq!(InstallOptions::default().to_flags(), "");
    assert_eq!(UninstallOptions::default().to_flags(), "");
    assert_eq!(FileTransferOptions::default().to_flags(), "");
}

#[test]
fn single_flags() {
    assert_eq!(InstallOptions::new().shared(true).to_flags(), "-s");
    assert_eq!(UninstallOptions::new().shared(true).to_flags(), "-s");
    assert_eq!(FileTransferOptions::new().hold_timestamp(true).to_flags(), "-a");
    assert_eq!(FileTransferOptions::new().sync_mode(true).to_flags(), "-sync");
    assert_eq!(FileTransferOptions::new().compress(true).to_flags(), "-z");
    assert_eq!(FileTransferOptions::new().mode_sync(true).to_flags(), "-m");
    assert_eq!(FileTransferOptions::new().debug_dir(true).to_flags(), "-b");
}

#[test]
fn all_transfer_flags_come_in_their_order() {
    let opts = FileTransferOptions::new()
        .debug_dir(true)
        .mode_sync(true)
        .compress(true)
        .sync_mode(true)
        .hold_timestamp(true);
    assert_eq!(opts.to_flags(), "-a -sync -z -m -b");
}

#[test]
fn an_option_can_be_taken_back() {
    let opts = InstallOptions::new().replace(true).shared(true).replace(false);
    assert!(!opts.replace);
    assert!(opts.shared);
    assert_eq!(opts.to_flags(), "-s");
    let opts = UninstallOptions::new().keep_data(true).keep_data(false);
    assert!(!opts.keep_data);
    assert_eq!(opts.to_flags(), "");
    let opts = FileTransferOptions::new().compress(true).debug_dir(true).compress(false);
    assert_eq!(opts.to_flags(), "-b");
}

#[test]
fn path_with_a_nul_anywhere_is_invalid() {
    assert!(!validate_path("\0"));
    assert!(!validate_path("\0abc"));
    assert!(!validate_path("abc\0"));
    assert!(validate_path(" "));
    assert!(validate_path("路径/文件.txt"));
}

#[test]
fn transfer_directions_differ() {
    assert_ne!(FileTransferDirection::Send, FileTransferDirection::Recv);
    assert_eq!(FileTransferDirection::Send, FileTransferDirection::Send);
}
