use rinex2bin::cli::{gzip_input, Cli, CliError, Meta};

fn options(output: Option<&str>, streaming: Option<&str>) -> Result<Cli, CliError> {
    Cli::new(
        "ESBC00DNK_R_20201770000_01D_30S_MO.crx.gz".to_string(),
        false,
        false,
        false,
        output.map(|s| s.to_string()),
        false,
        streaming.map(|s| s.to_string()),
        false,
    )
}

#[test]
fn output_and_stream_are_rejected() {
    let r = options(Some("foo.bin"), Some("/dev/fd3"));
    assert!(matches!(r, Err(CliError::OutputAndStream)));
}

#[test]
fn output_alone_is_accepted() {
    let cli = options(Some("foo.bin"), None).unwrap();
    assert_eq!(cli.custom_bin_name(), Some(&"foo.bin".to_string()));
    assert_eq!(cli.streaming(), None);
}

#[test]
fn stream_alone_is_accepted() {
    let cli = options(None, Some("/dev/fd3")).unwrap();
    assert_eq!(cli.streaming(), Some("/dev/fd3".to_string()));
    assert_eq!(cli.custom_bin_name(), None);
}

#[test]
fn getters_report_options() {
    let cli = Cli::new("in.rnx".to_string(), true, false, true, None, true, None, true).unwrap();
    assert_eq!(cli.input_path(), "in.rnx".to_string());
    assert!(cli.short_bin_name());
    assert!(cli.gzip_output());
    assert_eq!(cli.custom_prefix(), None);
}

#[test]
fn default_meta_is_big_endian_standard_forward() {
    let cli = options(None, None).unwrap();
    assert_eq!(
        cli.binex_meta(),
        Meta { reversed: false, enhanced_crc: false, big_endian: true }
    );
}

#[test]
fn flags_select_little_endian_enhanced_reversed() {
    let cli = Cli::new("in.rnx".to_string(), true, true, true, None, false, None, false).unwrap();
    assert_eq!(
        cli.binex_meta(),
        Meta { reversed: true, enhanced_crc: true, big_endian: false }
    );
}

#[test]
fn gz_suffix_marks_compressed_input() {
    assert!(gzip_input("ESBC00DNK_R_20201770000_01D_30S_MO.crx.gz"));
    assert!(gzip_input(".gz"));
    assert!(!gzip_input("gz"));
    assert!(!gzip_input("obs.rnx"));
    assert!(!gzip_input("obs.gz.rnx"));
    assert!(!gzip_input("obs.gzz"));
    assert!(!gzip_input(""));
}
