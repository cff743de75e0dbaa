use freelook::downloads::{
    download_candidate, download_name, download_notification_body, path_is_pdf_or_doc,
    sanitize_file_name, set_pending_download_name, take_pending_download_name,
    PendingDownloadName,
};
use freelook::navigation::UrlParts;
use freelook::text::decimal_string;

fn url(scheme: &str, path: &str) -> UrlParts {
    UrlParts { scheme: scheme.to_string(), host: None, path: path.to_string() }
}

#[test]
fn sanitize_replaces_forbidden_characters() {
    assert_eq!(sanitize_file_name("a/b\\c:d*e?f\"g<h>i|j"), "a_b_c_d_e_f_g_h_i_j");
    assert_eq!(sanitize_file_name("tab\there\u{7f}"), "tab_here_");
}

#[test]
fn sanitize_trims_space_and_dots() {
    assert_eq!(sanitize_file_name("  report.pdf  "), "report.pdf");
    assert_eq!(sanitize_file_name("..hidden.."), "hidden");
    assert_eq!(sanitize_file_name(" . .x"), ".x");
    assert_eq!(sanitize_file_name("\u{a0}name\u{3000}"), "name");
    assert_eq!(sanitize_file_name("   "), "");
    assert_eq!(sanitize_file_name(""), "");
}

#[test]
fn sanitize_cuts_to_180_characters() {
    let long: String = std::iter::repeat('é').take(200).collect();
    let out = sanitize_file_name(&long);
    assert_eq!(out.chars().count(), 180);
    assert!(out.chars().all(|c| c == 'é'));
}

#[test]
fn pending_name_is_taken_once() {
    let mut p = PendingDownloadName::new();
    assert_eq!(take_pending_download_name(&mut p), None);
    set_pending_download_name(&mut p, " Invoice:2024.pdf ".to_string());
    assert_eq!(take_pending_download_name(&mut p), Some("Invoice_2024.pdf".to_string()));
    assert_eq!(take_pending_download_name(&mut p), None);
}

#[test]
fn empty_suggestion_is_ignored() {
    let mut p = PendingDownloadName::new();
    set_pending_download_name(&mut p, "first.pdf".to_string());
    set_pending_download_name(&mut p, " ... ".to_string());
    assert_eq!(take_pending_download_name(&mut p), Some("first.pdf".to_string()));
}

#[test]
fn pdf_and_office_documents() {
    assert!(path_is_pdf_or_doc("/home/u/Downloads/File.PDF"));
    assert!(path_is_pdf_or_doc("notes.docx"));
    assert!(path_is_pdf_or_doc("sheet.XLSX"));
    assert!(path_is_pdf_or_doc("slides.odp"));
    assert!(!path_is_pdf_or_doc("image.png"));
    assert!(!path_is_pdf_or_doc(".pdf"));
    assert!(!path_is_pdf_or_doc("pdf"));
    assert!(!path_is_pdf_or_doc("/tmp/dir/"));
}

#[test]
fn candidates_number_the_stem() {
    assert_eq!(download_candidate("report.pdf", 0), Some("report.pdf".to_string()));
    assert_eq!(download_candidate("report.pdf", 1), Some("report (1).pdf".to_string()));
    assert_eq!(download_candidate("report.pdf", 12), Some("report (12).pdf".to_string()));
    assert_eq!(download_candidate("archive.tar.gz", 2), Some("archive.tar (2).gz".to_string()));
    assert_eq!(download_candidate("README", 3), Some("README (3)".to_string()));
    assert_eq!(download_candidate(".bashrc", 1), Some(".bashrc (1)".to_string()));
    assert_eq!(download_candidate("a.", 1), Some("a (1)".to_string()));
    assert_eq!(download_candidate("", 1), Some("download (1)".to_string()));
    assert_eq!(download_candidate("report.pdf", 999), Some("report (999).pdf".to_string()));
    assert_eq!(download_candidate("report.pdf", 1000), None);
}

#[test]
fn download_name_prefers_pending_then_destination() {
    let mut p = PendingDownloadName::new();
    set_pending_download_name(&mut p, "chosen.pdf".to_string());
    let u = url("https", "/files/remote.bin");
    assert_eq!(download_name(&mut p, &u, "/tmp/dest.txt", 5), "chosen.pdf");
    assert_eq!(download_name(&mut p, &u, "/tmp/dest.txt", 5), "dest.txt");
    assert_eq!(download_name(&mut p, &u, "", 5), "remote.bin");
}

#[test]
fn download_name_for_blob_uses_timestamp() {
    let mut p = PendingDownloadName::new();
    let u = url("blob", "https://outlook.live.com/abc");
    assert_eq!(download_name(&mut p, &u, "", 1700000000123), "freelook-attachment-1700000000123.pdf");
}

#[test]
fn download_name_falls_back_to_download() {
    let mut p = PendingDownloadName::new();
    assert_eq!(download_name(&mut p, &url("https", "/dir/"), "", 0), "download");
    assert_eq!(download_name(&mut p, &url("mailto", "a@b.c"), "", 0), "download");
}

#[test]
fn notification_body() {
    assert_eq!(
        download_notification_body(Some("/home/u/Downloads/report.pdf")),
        "Saved to Downloads/report.pdf"
    );
    assert_eq!(download_notification_body(None), "Saved to Downloads/download");
    assert_eq!(download_notification_body(Some("report.pdf")), "Saved to Downloads/report.pdf");
}

#[test]
fn decimal_notation() {
    assert_eq!(decimal_string(0), "0");
    assert_eq!(decimal_string(7), "7");
    assert_eq!(decimal_string(10), "10");
    assert_eq!(decimal_string(1234567890), "1234567890");
    assert_eq!(decimal_string(u128::MAX), u128::MAX.to_string());
}

#[test]
fn numbered_candidates_are_distinct() {
    let mut seen = std::collections::HashSet::new();
    for attempt in 1..1000 {
        let name = download_candidate("scan.final.pdf", attempt).expect("numbered candidate");
        assert!(seen.insert(name));
    }
    assert_eq!(seen.len(), 999);
}
