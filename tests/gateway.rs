use ftp_web::download::{content_disposition, download_reply, suggested_name, STATUS_FAILED, STATUS_OK};
use ftp_web::listing::{
    line_is_safe, on_listing_reply, parse_entries, parse_entry, resolve_listing, start_listing,
    ListingRequest, ListingStep, ResolvedListing,
};
use ftp_web::path::{normalize, parent_of};
use ftp_web::render::{breadcrumb, escape_html, get_html, render_listing};

const DIR_LINE: &str = "drwxr-xr-x 1 owner group         3452 Jun 11 10:15 device";
const FILE_LINE: &str = "-rw-r--r-- 1 owner group         3452 Jun 11 10:15 report.pdf";
const LINK_LINE: &str = "lrwxrwxrwx 1 owner group           10 Jun 11 10:15 link.txt -> file1.txt";

fn lines(ls: &[&str]) -> Vec<String> {
    ls.iter().map(|l| l.to_string()).collect()
}

fn resolve(requested: &str, path_reply: Option<Vec<String>>, root_reply: Option<Vec<String>>) -> Option<ResolvedListing> {
    let first = start_listing(requested);
    match on_listing_reply(first, path_reply) {
        ListingStep::Done(l) => Some(l),
        ListingStep::Issue(next) => match on_listing_reply(next, root_reply) {
            ListingStep::Done(l) => Some(l),
            _ => None,
        },
        ListingStep::Failed => None,
    }
}

#[test]
fn normalize_collapses_doubled_separators() {
    assert_eq!(normalize("/a//b/"), "/a/b/");
    assert_eq!(normalize("/a////b//"), "/a/b/");
    assert_eq!(normalize("docs//2024/"), "docs/2024/");
    assert_eq!(normalize(""), "");
    assert_eq!(normalize("plain/path"), "plain/path");
}

#[test]
fn normalize_twice_is_normalize_once() {
    for p in ["///x//y", "a/b", "//", "/a//b/"] {
        let once = normalize(p);
        assert_eq!(normalize(&once), once);
        assert!(!once.contains("//"));
    }
}

#[test]
fn parent_of_examples() {
    assert_eq!(parent_of("/a/b/"), "/a");
    assert_eq!(parent_of("/a"), "");
    assert_eq!(parent_of(""), "");
    assert_eq!(parent_of("docs/2024/"), "docs");
    assert_eq!(parent_of("docs"), "docs");
}

#[test]
fn parse_directory_file_and_link_lines() {
    let d = parse_entry(DIR_LINE).unwrap();
    assert_eq!(d.name, "device");
    assert!(d.is_dir);
    assert_eq!(d.last_modified, "Jun 11 10:15");
    assert_eq!(d.size, None);

    let f = parse_entry(FILE_LINE).unwrap();
    assert_eq!(f.name, "report.pdf");
    assert!(!f.is_dir);
    assert_eq!(f.size, Some(3452));

    let l = parse_entry(LINK_LINE).unwrap();
    assert_eq!(l.name, "link.txt");
    assert!(!l.is_dir);
    assert_eq!(l.size, Some(10));
}

#[test]
fn malformed_lines_are_not_parsed() {
    assert!(parse_entry("total 12").is_none());
    assert!(parse_entry("").is_none());
    assert!(parse_entry("drwxr-xr-x x owner group 1 Jun 11 10:15 bad").is_none());
    assert!(parse_entry("ééééééééééé 1 o g 1 Jun 11 10:15 n").is_none());
}

#[test]
fn unsafe_lines_are_recognised() {
    assert!(line_is_safe(DIR_LINE));
    assert!(line_is_safe("   drwxr-xr-x 1 o g 1 Jun 11 10:15 n"));
    assert!(!line_is_safe("short"));
    assert!(!line_is_safe("drwxr-xr- x"));
    assert!(!line_is_safe("drwxr-xré-x 1 o g 1 Jun 11 10:15 n"));
}

#[test]
fn entries_keep_order_and_drop_malformed_lines() {
    let raw = lines(&["total 3", FILE_LINE, "garbage", DIR_LINE, LINK_LINE]);
    let entries = parse_entries(&raw);
    let names: Vec<&str> = entries.iter().map(|e| e.name.as_str()).collect();
    assert_eq!(names, vec!["report.pdf", "device", "link.txt"]);
    assert!(parse_entries(&lines(&["x", "y"])).is_empty());
}

#[test]
fn listed_path_is_resolved_as_itself() {
    let l = resolve("docs//2024/", Some(lines(&[FILE_LINE])), None).unwrap();
    assert_eq!(l.canonical_path, "docs/2024/");
    assert_eq!(l.parent_path, "docs");
    assert_eq!(l.entries.len(), 1);
}

#[test]
fn unlistable_path_falls_back_to_root() {
    let first = start_listing("missing");
    match &first {
        ListingRequest::Path(p) => assert_eq!(p, "missing"),
        ListingRequest::Root => panic!("expected a path request"),
    }
    match on_listing_reply(first, None) {
        ListingStep::Issue(ListingRequest::Root) => {}
        _ => panic!("expected the default listing next"),
    }
    let l = resolve("missing", None, Some(lines(&[DIR_LINE, "bad", FILE_LINE]))).unwrap();
    assert_eq!(l.canonical_path, "");
    assert_eq!(l.parent_path, "");
    let names: Vec<&str> = l.entries.iter().map(|e| e.name.as_str()).collect();
    assert_eq!(names, vec!["device", "report.pdf"]);
}

#[test]
fn failed_root_listing_fails() {
    assert!(matches!(on_listing_reply(ListingRequest::Root, None), ListingStep::Failed));
    assert!(resolve("missing", None, None).is_none());
}

#[test]
fn rows_start_with_one_parent_row() {
    let l = resolve_listing("/a/b".to_string(), &lines(&[DIR_LINE, FILE_LINE]));
    let rows = render_listing(&l);
    assert_eq!(rows.len(), 3);
    assert!(rows[0].is_dir);
    assert_eq!(rows[0].label, "..");
    assert_eq!(rows[0].target, "/a");
    assert_eq!(rows[1].label, "device");
    assert_eq!(rows[1].target, "/a/b/device");
    assert!(rows[1].size.is_none());
    assert_eq!(rows[2].target, "/a/b/report.pdf");
    assert_eq!(rows[2].size.as_deref(), Some("3.5 KB"));
    assert_eq!(rows.iter().filter(|r| r.label == "..").count(), 1);
}

#[test]
fn small_sizes_are_written_in_bytes() {
    let l = resolve_listing("".to_string(), &lines(&[LINK_LINE]));
    let rows = render_listing(&l);
    assert_eq!(rows[1].size.as_deref(), Some("10 B"));
}

#[test]
fn breadcrumb_of_a_b() {
    let c = breadcrumb("/a/b");
    assert_eq!(c.len(), 3);
    assert_eq!(c[0].label, "/");
    assert_eq!(c[0].target, "");
    assert_eq!(c[1].label, "a");
    assert_eq!(c[1].target, "/a");
    assert_eq!(c[2].label, "b");
    assert_eq!(c[2].target, "/a/b");
}

#[test]
fn breadcrumb_of_root_and_trailing_separator() {
    assert_eq!(breadcrumb("").len(), 1);
    assert_eq!(breadcrumb("/").len(), 1);
    let c = breadcrumb("docs/2024/");
    assert_eq!(c.len(), 3);
    assert_eq!(c[2].target, "/docs/2024");
}

#[test]
fn escape_replaces_markup_characters() {
    assert_eq!(escape_html("a<b>&\"c'"), "a&lt;b&gt;&amp;&quot;c&#39;");
    assert_eq!(escape_html("plain"), "plain");
}

#[test]
fn page_of_a_listed_path() {
    let l = resolve("docs//2024/", Some(lines(&[FILE_LINE])), None).unwrap();
    let html = get_html(&l);
    assert!(html.contains("<title>Index of docs/2024/</title>"));
    let crumb = html.find("/<a href=\"/ftp/docs/2024\">2024</a>").unwrap();
    assert!(html.find("/<a href=\"/ftp/docs\">docs</a>").unwrap() < crumb);
    assert!(html.contains("<a href=\"/ftp/docs/\">..</a>"));
    assert!(html.contains("<a download href=\"/file/docs/2024//report.pdf\">report.pdf</a>"));
}

#[test]
fn page_of_the_root_fallback() {
    let l = resolve("missing", None, Some(lines(&[DIR_LINE]))).unwrap();
    let html = get_html(&l);
    assert!(html.contains("<title>Index of /</title>"));
    assert!(html.contains("<a href=\"/ftp//device/\">device</a>"));
}

#[test]
fn page_escapes_names() {
    let l = resolve_listing("".to_string(), &lines(&["-rw-r--r-- 1 o g 5 Jun 11 10:15 <b>&x"]));
    let html = get_html(&l);
    assert!(html.contains("&lt;b&gt;&amp;x"));
    assert!(!html.contains("<b>&x"));
}

#[test]
fn suggested_names() {
    assert_eq!(suggested_name("/docs/report.pdf"), "report.pdf");
    assert_eq!(suggested_name("docs/report.pdf"), "report.pdf");
    assert_eq!(suggested_name(""), "download");
    assert_eq!(suggested_name("docs/"), "download");
    assert_eq!(suggested_name("plain"), "plain");
}

#[test]
fn disposition_header() {
    assert_eq!(content_disposition("report.pdf"), "attachment; filename=\"report.pdf\"");
    assert_eq!(content_disposition("a\"b\\c"), "attachment; filename=\"a\\\"b\\\\c\"");
}

#[test]
fn download_of_a_file() {
    let bytes = vec![1u8, 2, 3, 255];
    let r = download_reply("docs/report.pdf", Ok(bytes.clone()));
    assert_eq!(r.status, STATUS_OK);
    assert_eq!(r.status, 200);
    assert_eq!(r.disposition.as_deref(), Some("attachment; filename=\"report.pdf\""));
    assert_eq!(r.body, bytes);
}

#[test]
fn failed_download_is_reported() {
    let r = download_reply("docs/missing", Err("550 not found".to_string()));
    assert_eq!(r.status, STATUS_FAILED);
    assert!(r.status >= 500);
    assert!(r.disposition.is_none());
    assert_eq!(r.body, b"550 not found".to_vec());
}
