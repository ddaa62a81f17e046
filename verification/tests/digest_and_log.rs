use goober_launcher::digest::calculate_file_sha256;
use goober_launcher::hex::digest_to_hex;
use goober_launcher::log::{format_log_line, log_line};

#[test]
fn hex_renders_two_lowercase_digits_per_byte() {
    assert_eq!(digest_to_hex(&[0x0a, 0x14, 0x1e]), "0a141e");
    assert_eq!(digest_to_hex(&[0x00, 0xff, 0xab, 0x9c]), "00ffab9c");
}

#[test]
fn hex_of_nothing_is_empty() {
    assert_eq!(digest_to_hex(&[]), "");
}

#[test]
fn hex_distinguishes_distinct_bytes() {
    assert_ne!(digest_to_hex(&[0x01, 0x23]), digest_to_hex(&[0x12, 0x03]));
    assert_ne!(digest_to_hex(&[0x10]), digest_to_hex(&[0x01]));
}

#[test]
fn sha256_of_empty_file() {
    assert_eq!(
        calculate_file_sha256(b""),
        "e3b0c44298fc1c149afbf4c8996fb92427ae41e4649b934ca495991b7852b855"
    );
}

#[test]
fn sha256_of_abc() {
    assert_eq!(
        calculate_file_sha256(b"abc"),
        "ba7816bf8f01cfea414140de5dae2223b00361a396177a9cb410ff61f20015ad"
    );
}

#[test]
fn sha256_fingerprint_is_64_lowercase_hex_digits() {
    let h = calculate_file_sha256(b"GooberPlayerBeta.exe contents");
    assert_eq!(h.chars().count(), 64);
    assert!(h.chars().all(|c| c.is_ascii_digit() || ('a'..='f').contains(&c)));
}

#[test]
fn equal_contents_give_equal_fingerprints() {
    assert_eq!(calculate_file_sha256(b"launcher"), calculate_file_sha256(b"launcher"));
    assert_ne!(calculate_file_sha256(b"launcher"), calculate_file_sha256(b"launcher2"));
}

#[test]
fn log_line_layout() {
    assert_eq!(format_log_line("2024-01-01 10:00:00", "main", "Tasks done!"), "[2024-01-01 10:00:00] [main] Tasks done!");
}

#[test]
fn info_log_line_is_labelled_main() {
    let line = log_line("T", "Launched client!", 0);
    assert!(line == "[T] [main] Launched client!" || line == "[T] [\u{1b}[32mmain\u{1b}[0m] Launched client!");
}

#[test]
fn error_log_line_is_labelled_error() {
    let line = log_line("T", "Please re-download the launcher from the site.", 1);
    assert!(
        line == "[T] [error] Please re-download the launcher from the site."
            || line == "[T] [\u{1b}[31merror\u{1b}[0m] Please re-download the launcher from the site."
    );
}

#[test]
fn labels_coloured_or_plain_as_colouring_is_set() {
    // Both settings in one test: the override is global to the process.
    colored::control::set_override(true);
    assert_eq!(log_line("T", "hi", 0), "[T] [\u{1b}[32mmain\u{1b}[0m] hi");
    assert_eq!(log_line("T", "oops", 1), "[T] [\u{1b}[31merror\u{1b}[0m] oops");
    colored::control::set_override(false);
    assert_eq!(log_line("T", "hi", 0), "[T] [main] hi");
    assert_eq!(log_line("T", "oops", 1), "[T] [error] oops");
    colored::control::unset_override();
}
