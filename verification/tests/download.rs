use http::header::HeaderValue;
use tb_updater::download::{
    archive_url, content_length, length_from_text, Transfer, DOWNLOAD_COMPLETE,
};
use tb_updater::version::Version;

#[test]
fn archive_address_of_a_version() {
    let v = Version::new(1, 2, 3).unwrap();
    assert_eq!(
        archive_url(&v),
        "https://download-installer.cdn.mozilla.net/pub/thunderbird/releases/1.2.3/linux-x86_64/en-US/thunderbird-1.2.3.tar.bz2"
    );
    let w = Version::new(115, 10, 0).unwrap();
    assert_eq!(
        archive_url(&w),
        "https://download-installer.cdn.mozilla.net/pub/thunderbird/releases/115.10.0/linux-x86_64/en-US/thunderbird-115.10.0.tar.bz2"
    );
}

#[test]
fn content_length_of_a_numeral() {
    assert_eq!(content_length(Some(&HeaderValue::from_static("0"))), Some(0));
    assert_eq!(content_length(Some(&HeaderValue::from_static("1234"))), Some(1234));
    assert_eq!(
        content_length(Some(&HeaderValue::from_static("00042"))),
        Some(42)
    );
    assert_eq!(content_length(Some(&HeaderValue::from_static("+17"))), Some(17));
    assert_eq!(
        content_length(Some(&HeaderValue::from_static("18446744073709551615"))),
        Some(u64::MAX)
    );
}

#[test]
fn content_length_unknown() {
    assert_eq!(content_length(None), None);
    assert_eq!(content_length(Some(&HeaderValue::from_static(""))), None);
    assert_eq!(content_length(Some(&HeaderValue::from_static("-0"))), None);
    assert_eq!(content_length(Some(&HeaderValue::from_static("-5"))), None);
    assert_eq!(content_length(Some(&HeaderValue::from_static("12 "))), None);
    assert_eq!(content_length(Some(&HeaderValue::from_static(" 12"))), None);
    assert_eq!(content_length(Some(&HeaderValue::from_static("12\t"))), None);
    assert_eq!(content_length(Some(&HeaderValue::from_static("1e3"))), None);
    assert_eq!(content_length(Some(&HeaderValue::from_static("chunked"))), None);
    assert_eq!(content_length(Some(&HeaderValue::from_static("+"))), None);
    assert_eq!(
        content_length(Some(&HeaderValue::from_static("18446744073709551616"))),
        None
    );
}

#[test]
fn content_length_of_bytes_that_are_no_text() {
    let high = HeaderValue::from_bytes(b"12\xff").unwrap();
    assert_eq!(content_length(Some(&high)), None);
    let latin = HeaderValue::from_bytes(b"\xb2").unwrap();
    assert_eq!(content_length(Some(&latin)), None);
}

#[test]
fn content_length_agrees_with_the_header_read_as_u64() {
    let values = ["7", "007", "+7", "-7", "", "7 ", "abc", "99999999999999999999", "123456789"];
    for value in values.iter() {
        let header = HeaderValue::from_str(value).unwrap();
        let expected = header.to_str().ok().and_then(|t| t.parse::<u64>().ok());
        assert_eq!(content_length(Some(&header)), expected);
    }
}

#[test]
fn transfer_keeps_chunks_in_order() {
    let header = HeaderValue::from_static("10");
    let mut transfer = Transfer::begin(Some(&header));
    assert_eq!(transfer.total, Some(10));
    assert_eq!(transfer.received(), 0);
    assert_eq!(transfer.accept(b"abc"), 3);
    assert_eq!(transfer.received(), 3);
    assert_eq!(transfer.accept(b""), 0);
    assert_eq!(transfer.received(), 3);
    assert_eq!(transfer.accept(b"defghij"), 7);
    assert_eq!(transfer.received(), 10);
    assert_eq!(transfer.total, Some(10));
    assert_eq!(transfer.finish(), b"abcdefghij".to_vec());
}

#[test]
fn transfer_progress_never_goes_back() {
    let mut transfer = Transfer::begin(None);
    assert_eq!(transfer.total, None);
    let mut last = transfer.received();
    let mut sum = 0;
    for size in [0usize, 1, 5, 0, 1024, 3] {
        let chunk = vec![7u8; size];
        let step = transfer.accept(&chunk);
        assert_eq!(step, size as u64);
        sum += step;
        assert!(transfer.received() >= last);
        assert_eq!(transfer.received(), sum);
        last = transfer.received();
    }
    assert_eq!(transfer.finish().len(), 1033);
}

#[test]
fn transfer_without_a_usable_total() {
    let header = HeaderValue::from_static("many");
    let transfer = Transfer::begin(Some(&header));
    assert_eq!(transfer.total, None);
    assert!(transfer.finish().is_empty());
}

#[test]
fn completion_message() {
    assert_eq!(DOWNLOAD_COMPLETE, "Download complete.");
}

#[test]
fn length_from_text_reads_an_unsigned_numeral() {
    assert_eq!(length_from_text("0"), Some(0));
    assert_eq!(length_from_text("52100000"), Some(52_100_000));
    assert_eq!(length_from_text("+1"), Some(1));
    assert_eq!(length_from_text("18446744073709551615"), Some(u64::MAX));
    assert_eq!(length_from_text("18446744073709551616"), None);
    assert_eq!(length_from_text(""), None);
    assert_eq!(length_from_text("-0"), None);
    assert_eq!(length_from_text("12a"), None);
    assert_eq!(length_from_text(" 12"), None);
    assert_eq!(length_from_text("\u{664}\u{662}"), None);
}
