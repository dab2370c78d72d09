use sunzip::errors::Error;

#[test]
fn variant_names() {
    assert_eq!(Error::IOError("x".to_string()).variant(), "IOError");
    assert_eq!(Error::SevenzError("x".to_string()).variant(), "SevenzError");
    assert_eq!(Error::UnknownAlgorithm("x".to_string()).variant(), "UnknownAlgorithm");
}

#[test]
fn description_is_variant_then_message() {
    assert_eq!(Error::IOError("no such file".to_string()).describe(), "IOErrorno such file");
    assert_eq!(Error::SevenzError("bad header".to_string()).describe(), "SevenzErrorbad header");
    assert_eq!(
        Error::UnknownAlgorithm("unknown CRC64 algorithm Q".to_string()).describe(),
        "UnknownAlgorithmunknown CRC64 algorithm Q"
    );
    assert_eq!(Error::IOError(String::new()).describe(), "IOError");
}
