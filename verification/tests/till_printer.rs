use sahl::printer::{PrintError, PrinterTarget};

#[test]
fn an_unset_printer_is_a_valid_configuration() {
    // Plenty of small shops do not print at all.
    assert_eq!(PrinterTarget::parse(None), Ok(PrinterTarget::NoPrinter));
    assert_eq!(PrinterTarget::parse(Some("")), Ok(PrinterTarget::NoPrinter));
    assert_eq!(PrinterTarget::parse(Some("   ")), Ok(PrinterTarget::NoPrinter));
}

#[test]
fn a_network_printer_defaults_to_the_raw_escpos_port() {
    assert_eq!(
        PrinterTarget::parse(Some("tcp://192.168.1.50")),
        Ok(PrinterTarget::Network("192.168.1.50:9100".to_owned()))
    );
    assert_eq!(
        PrinterTarget::parse(Some("tcp://192.168.1.50:9101")),
        Ok(PrinterTarget::Network("192.168.1.50:9101".to_owned()))
    );
}

#[test]
fn a_file_target_is_parsed() {
    assert_eq!(
        PrinterTarget::parse(Some("file:///tmp/receipts.bin")),
        Ok(PrinterTarget::File("/tmp/receipts.bin".to_owned()))
    );
}

#[test]
fn a_malformed_target_is_an_error_not_a_silent_none() {
    // Someone who typed an address wants printing. Falling back to "no printer" is the failure
    // they would discover from a customer asking for a receipt.
    for bad in ["192.168.1.50", "http://printer", "tcp://", "file://"] {
        assert!(
            matches!(PrinterTarget::parse(Some(bad)), Err(PrintError::BadTarget { .. })),
            "accepted {bad}"
        );
    }
}

#[test]
fn a_refusal_says_what_was_wrong() {
    assert_eq!(
        PrinterTarget::parse(Some("tcp://")),
        Err(PrintError::BadTarget { target: "tcp://".to_owned(), reason: "no host".to_owned() })
    );
    assert_eq!(
        PrinterTarget::parse(Some(" file:// ")),
        Err(PrintError::BadTarget { target: "file://".to_owned(), reason: "no path".to_owned() })
    );
    assert_eq!(
        PrinterTarget::parse(Some("lpt1")),
        Err(PrintError::BadTarget {
            target: "lpt1".to_owned(),
            reason: "expected tcp://host[:port] or file:///path".to_owned()
        })
    );
}

#[test]
fn only_an_actual_printer_counts_as_configured() {
    assert!(!PrinterTarget::NoPrinter.is_configured());
    assert!(PrinterTarget::Network("h:9100".to_owned()).is_configured());
    assert!(PrinterTarget::File("/tmp/x".to_owned()).is_configured());
}

#[test]
fn a_printing_failure_reads_as_a_sentence() {
    assert_eq!(PrintError::NotConfigured.message(), "no printer is configured");
    assert_eq!(
        PrintError::BadTarget { target: "lpt1".to_owned(), reason: "no host".to_owned() }.message(),
        "lpt1 is not a printer address: no host"
    );
    assert_eq!(
        PrintError::Unreachable { address: "10.0.0.9:9100".to_owned(), reason: "refused".to_owned() }.message(),
        "could not reach the printer at 10.0.0.9:9100: refused"
    );
    assert_eq!(
        PrintError::WriteFailed("broken pipe".to_owned()).message(),
        "the printer accepted the connection but not the job: broken pipe"
    );
}
