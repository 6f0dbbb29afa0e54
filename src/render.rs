//! The navigable page: breadcrumb links, listing rows and the HTML around them.
use vstd::prelude::*;
use crate::listing::{entries_of, listing_model, EntryModel, ListingModel, ResolvedListing};
use crate::path::parent_path;
use crate::text::{chars_of, string_from};

verus! {

/// The markup-safe form of one character.
pub open spec fn escape_char(c: char) -> Seq<char> {
    if c == '&' {
        seq!['&', 'a', 'm', 'p', ';']
    } else if c == '<' {
        seq!['&', 'l', 't', ';']
    } else if c == '>' {
        seq!['&', 'g', 't', ';']
    } else if c == '"' {
        seq!['&', 'q', 'u', 'o', 't', ';']
    } else if c == '\'' {
        seq!['&', '#', '3', '9', ';']
    } else {
        seq![c]
    }
}

/// `s` with every markup-significant character replaced by its entity.
pub open spec fn escape_text(s: Seq<char>) -> Seq<char>
    decreases s.len(),
{
    if s.len() == 0 {
        Seq::empty()
    } else {
        escape_text(s.drop_last()) + escape_char(s.last())
    }
}

/// Escapes `s` for use as text or as an attribute value in HTML.
pub fn escape_html(s: &str) -> (r: String)
    ensures
        r@ == escape_text(s@),
{
    let v = chars_of(s);
    let mut out: Vec<char> = Vec::new();
    let mut i: usize = 0;
    while i < v.len()
        invariant
            i <= v.len(),
            v@ == s@,
            out@ == escape_text(v@.take(i as int)),
        decreases v.len() - i,
    {
        let c = v[i];
        let ghost before = out@;
        assert(v@.take(i + 1).drop_last() =~= v@.take(i as int));
        if c == '&' {
            out.push('&');
            out.push('a');
            out.push('m');
            out.push('p');
            out.push(';');
        } else if c == '<' {
            out.push('&');
            out.push('l');
            out.push('t');
            out.push(';');
        } else if c == '>' {
            out.push('&');
            out.push('g');
            out.push('t');
            out.push(';');
        } else if c == '"' {
            out.push('&');
            out.push('q');
            out.push('u');
            out.push('o');
            out.push('t');
            out.push(';');
        } else if c == '\'' {
            out.push('&');
            out.push('#');
            out.push('3');
            out.push('9');
            out.push(';');
        } else {
            out.push(c);
        }
        assert(out@ =~= before + escape_char(c));
        i = i + 1;
    }
    assert(v@.take(v.len() as int) =~= v@);
    string_from(&out)
}

/// Reading `s` from the left: the segments completed so far and the one in progress.
pub open spec fn segment_scan(s: Seq<char>) -> (Seq<Seq<char>>, Seq<char>)
    decreases s.len(),
{
    if s.len() == 0 {
        (Seq::empty(), Seq::empty())
    } else {
        let (done, cur) = segment_scan(s.drop_last());
        if s.last() == '/' {
            if cur.len() > 0 {
                (done.push(cur), Seq::empty())
            } else {
                (done, Seq::empty())
            }
        } else {
            (done, cur.push(s.last()))
        }
    }
}

/// The non-empty segments of a path, split on separators, in order.
pub open spec fn segments(s: Seq<char>) -> Seq<Seq<char>> {
    let (done, cur) = segment_scan(s);
    if cur.len() > 0 {
        done.push(cur)
    } else {
        done
    }
}

/// The path made of `segs`, each preceded by a separator.
pub open spec fn joined(segs: Seq<Seq<char>>) -> Seq<char>
    decreases segs.len(),
{
    if segs.len() == 0 {
        Seq::empty()
    } else {
        joined(segs.drop_last()) + seq!['/'] + segs.last()
    }
}

/// A breadcrumb link as the contracts see it.
pub struct CrumbModel {
    pub label: Seq<char>,
    pub target: Seq<char>,
}

/// One breadcrumb link: its label and the browse path it leads to.
pub struct Crumb {
    pub label: String,
    pub target: String,
}

impl View for Crumb {
    type V = CrumbModel;

    open spec fn view(&self) -> CrumbModel {
        CrumbModel { label: self.label@, target: self.target@ }
    }
}

/// The breadcrumb of a path: a link to the root (label `/`, target `""`),
/// then for each non-empty segment a link to the path up to that segment.
pub open spec fn crumbs(path: Seq<char>) -> Seq<CrumbModel> {
    let segs = segments(path);
    seq![CrumbModel { label: seq!['/'], target: Seq::empty() }] + Seq::new(
        segs.len(),
        |k: int| CrumbModel { label: segs[k], target: joined(segs.take(k + 1)) },
    )
}

fn path_segments(path: &str) -> (r: Vec<Vec<char>>)
    ensures
        r@.map_values(|x: Vec<char>| x@) == segments(path@),
{
    let v = chars_of(path);
    let mut done: Vec<Vec<char>> = Vec::new();
    let mut cur: Vec<char> = Vec::new();
    let mut i: usize = 0;
    while i < v.len()
        invariant
            i <= v.len(),
            v@ == path@,
            (done@.map_values(|x: Vec<char>| x@), cur@) == segment_scan(v@.take(i as int)),
        decreases v.len() - i,
    {
        let ghost before = done@;
        assert(v@.take(i + 1).drop_last() =~= v@.take(i as int));
        if v[i] == '/' {
            if cur.len() > 0 {
                done.push(cur);
                assert(done@.map_values(|x: Vec<char>| x@) =~= before.map_values(
                    |x: Vec<char>| x@,
                ).push(done@.last()@));
            }
            cur = Vec::new();
        } else {
            cur.push(v[i]);
        }
        i = i + 1;
    }
    assert(v@.take(v.len() as int) =~= v@);
    if cur.len() > 0 {
        let ghost before = done@;
        done.push(cur);
        assert(done@.map_values(|x: Vec<char>| x@) =~= before.map_values(|x: Vec<char>| x@).push(
            done@.last()@,
        ));
    }
    done
}

/// The breadcrumb links of `path`, from the root down to the path itself.
pub fn breadcrumb(path: &str) -> (r: Vec<Crumb>)
    ensures
        r@.map_values(|c: Crumb| c@) == crumbs(path@),
{
    let segs = path_segments(path);
    let ghost sv = segs@.map_values(|x: Vec<char>| x@);
    let mut out: Vec<Crumb> = Vec::new();
    let root_label = vec!['/'];
    let root_target: Vec<char> = Vec::new();
    assert(root_label@ =~= seq!['/']);
    out.push(Crumb { label: string_from(&root_label), target: string_from(&root_target) });
    assert(out@.map_values(|c: Crumb| c@) =~= crumbs(path@).take(1));
    let mut prefix: Vec<char> = Vec::new();
    let mut k: usize = 0;
    while k < segs.len()
        invariant
            k <= segs.len(),
            sv == segs@.map_values(|x: Vec<char>| x@),
            sv == segments(path@),
            prefix@ == joined(sv.take(k as int)),
            out@.map_values(|c: Crumb| c@) == crumbs(path@).take(k + 1),
        decreases segs.len() - k,
    {
        let ghost before = out@;
        prefix.push('/');
        let seg = &segs[k];
        let mut j: usize = 0;
        let ghost base = prefix@;
        while j < seg.len()
            invariant
                j <= seg.len(),
                prefix@ == base + seg@.take(j as int),
            decreases seg.len() - j,
        {
            prefix.push(seg[j]);
            j = j + 1;
            assert(base + seg@.take(j as int) =~= (base + seg@.take(j - 1)).push(seg@[j - 1]));
        }
        assert(seg@.take(seg.len() as int) =~= seg@);
        assert(sv.take(k + 1).drop_last() =~= sv.take(k as int));
        assert(sv[k as int] == seg@);
        assert(sv.take(k + 1).last() == seg@);
        assert(prefix@ =~= joined(sv.take(k as int)) + seq!['/'] + seg@);
        assert(joined(sv.take(k + 1)) == joined(sv.take(k as int)) + seq!['/'] + seg@);
        out.push(Crumb { label: string_from(seg), target: string_from(&prefix) });
        assert(out@.map_values(|c: Crumb| c@) =~= before.map_values(|c: Crumb| c@).push(
            out@.last()@,
        ));
        assert(out@.last()@ == crumbs(path@)[k + 1]);
        assert(out@.map_values(|c: Crumb| c@) =~= crumbs(path@).take(k + 2));
        k = k + 1;
    }
    assert(crumbs(path@).take(segs.len() + 1) =~= crumbs(path@));
    out
}

/// How `bytesize` writes a byte count for people to read.
pub uninterp spec fn size_text(bytes: nat) -> Seq<char>;

/// Relies on `Display` of `bytesize::ByteSize`: a byte count written with a
/// decimal unit; the text depends on the count alone.
#[verifier::external_body]
fn human_size(bytes: u64) -> (r: String)
    ensures
        r@ == size_text(bytes as nat),
{
    bytesize::ByteSize(bytes).to_string()
}

/// A listing row as the contracts see it.
pub struct RowModel {
    pub is_dir: bool,
    pub label: Seq<char>,
    pub target: Seq<char>,
    pub last_modified: Seq<char>,
    pub size: Option<Seq<char>>,
}

/// One row of a rendered listing: a directory leads to a further listing of
/// its target, a file to the download of its target; only files show a size.
pub struct ListingRow {
    pub is_dir: bool,
    pub label: String,
    pub target: String,
    pub last_modified: String,
    pub size: Option<String>,
}

impl View for ListingRow {
    type V = RowModel;

    open spec fn view(&self) -> RowModel {
        RowModel {
            is_dir: self.is_dir,
            label: self.label@,
            target: self.target@,
            last_modified: self.last_modified@,
            size: match self.size {
                Some(t) => Some(t@),
                None => None,
            },
        }
    }
}

/// The synthesised "up" row, leading to the parent of the listed path.
pub open spec fn parent_row(parent: Seq<char>) -> RowModel {
    RowModel {
        is_dir: true,
        label: seq!['.', '.'],
        target: parent,
        last_modified: Seq::empty(),
        size: None,
    }
}

/// The row of an entry of the directory `dir`.
pub open spec fn entry_row(dir: Seq<char>, e: EntryModel) -> RowModel {
    RowModel {
        is_dir: e.is_dir,
        label: e.name,
        target: dir + seq!['/'] + e.name,
        last_modified: e.last_modified,
        size: match e.size {
            Some(n) => Some(size_text(n)),
            None => None,
        },
    }
}

/// The rows of a listing: the parent row, then one row per entry in order.
pub open spec fn rows_of(l: ListingModel) -> Seq<RowModel> {
    seq![parent_row(l.parent_path)] + l.entries.map_values(
        |e: EntryModel| entry_row(l.canonical_path, e),
    )
}

/// A rendered listing has exactly one row more than it has entries: the
/// parent row comes first and leads to the parent of the listed path, and the
/// entries follow, each as its own row, in their order.
pub proof fn rows_law(path: Seq<char>, lines: Seq<Seq<char>>)
    ensures
        rows_of(listing_model(path, lines)).len() == entries_of(lines).len() + 1,
        rows_of(listing_model(path, lines))[0] == parent_row(parent_path(path)),
        rows_of(listing_model(path, lines))[0].target == parent_path(path),
        forall|k: int|
            0 <= k < entries_of(lines).len() ==> #[trigger] rows_of(listing_model(path, lines))[k
                + 1] == entry_row(path, entries_of(lines)[k]),
{
}

/// The rows of a resolved listing.
pub fn render_listing(listing: &ResolvedListing) -> (r: Vec<ListingRow>)
    ensures
        r@.map_values(|w: ListingRow| w@) == rows_of(listing@),
{
    let mut out: Vec<ListingRow> = Vec::new();
    let up = vec!['.', '.'];
    let none: Vec<char> = Vec::new();
    assert(up@ =~= seq!['.', '.']);
    out.push(
        ListingRow {
            is_dir: true,
            label: string_from(&up),
            target: listing.parent_path.clone(),
            last_modified: string_from(&none),
            size: None,
        },
    );
    let ghost l = listing@;
    assert(out@.map_values(|w: ListingRow| w@) =~= rows_of(l).take(1));
    let mut i: usize = 0;
    while i < listing.entries.len()
        invariant
            i <= listing.entries.len(),
            l == listing@,
            out@.map_values(|w: ListingRow| w@) == rows_of(l).take(i + 1),
        decreases listing.entries.len() - i,
    {
        let e = &listing.entries[i];
        let ghost before = out@;
        let mut target = listing.canonical_path.clone();
        proof {
            reveal_strlit("/");
        }
        assert("/"@ =~= seq!['/']);
        target.append("/");
        target.append(e.name.as_str());
        let size = match e.size {
            Some(n) => Some(human_size(n)),
            None => None,
        };
        out.push(
            ListingRow {
                is_dir: e.is_dir,
                label: e.name.clone(),
                target,
                last_modified: e.last_modified.clone(),
                size,
            },
        );
        assert(l.entries[i as int] == e@);
        assert(out@.last()@.label == e.name@);
        assert(out@.last()@.last_modified == e.last_modified@);
        assert(out@.last()@.size == rows_of(l)[i + 1].size);
        assert(out@.last()@.target == rows_of(l)[i + 1].target);
        assert(out@.last()@ == rows_of(l)[i + 1]);
        assert(out@.map_values(|w: ListingRow| w@) =~= before.map_values(|w: ListingRow| w@).push(
            out@.last()@,
        ));
        assert(out@.map_values(|w: ListingRow| w@) =~= rows_of(l).take(i + 2));
        i = i + 1;
    }
    assert(rows_of(l).take(listing.entries.len() + 1) =~= rows_of(l));
    out
}

/// The page's style sheet.
pub const HTML_STYLE: &'static str = r#"
    :root {
        --bg-color: #fff;
        --text-color: #222;
        --link-color: #0366d6;
        --link-visited-color: #f22526;
        --dir-icon-color: #79b8ff;
        --file-icon-color: #959da5;
    }
    body {background: var(--bg-color); color: var(--text-color);}
    a {text-decoration:none;color:var(--link-color);}
    a:visited {color: var(--link-visited-color);}
    a:hover {text-decoration:underline;}
    header a {padding: 0 6px;}
    footer {text-align:center;font-size:12px;}
    table {text-align:left;border-collapse: collapse;}
    tr {border-bottom: solid 1px #ccc;}
    tr:last-child {border-bottom: none;}
    th, td {padding: 5px;}
    th {text-align: center;}
    th:first-child,td:first-child {text-align: center;}
    svg[data-icon="dir"] {vertical-align: text-bottom; color: var(--dir-icon-color); fill: currentColor;}
    svg[data-icon="file"] {vertical-align: text-bottom; color: var(--file-icon-color); fill: currentColor;}
    svg[data-icon="home"] {width:18px;}
    @media (prefers-color-scheme: dark) {
        :root {
            --bg-color: #222;
            --text-color: #ddd;
            --link-color: #539bf5;
            --link-visited-color: #f25555;
            --dir-icon-color: #7da3d0;
            --file-icon-color: #545d68;
        }
    }"#;
/// The icon of a directory row.
pub const DIR_ICON: &'static str = r#"<svg aria-label="Directory" data-icon="dir" width="20" height="20" viewBox="0 0 512 512" version="1.1" role="img"><path fill="currentColor" d="M464 128H272l-64-64H48C21.49 64 0 85.49 0 112v288c0 26.51 21.49 48 48 48h416c26.51 0 48-21.49 48-48V176c0-26.51-21.49-48-48-48z"></path></svg>"#;
/// The icon of a file row.
pub const FILE_ICON: &'static str = r#"<svg aria-label="File" data-icon="file" width="20" height="20" viewBox="0 0 384 512" version="1.1" role="img"><path d="M369.9 97.9L286 14C277 5 264.8-.1 252.1-.1H48C21.5 0 0 21.5 0 48v416c0 26.5 21.5 48 48 48h288c26.5 0 48-21.5 48-48V131.9c0-12.7-5.1-25-14.1-34zM332.1 128H256V51.9l76.1 76.1zM48 464V48h160v104c0 13.3 10.7 24 24 24h104v288H48z"/></svg>"#;
/// The icon of the root link.
pub const HOME_ICON: &'static str = r#"<svg aria-hidden="true" data-icon="home" viewBox="0 0 576 512"><path fill="currentColor" d="M280.37 148.26L96 300.11V464a16 16 0 0 0 16 16l112.06-.29a16 16 0 0 0 15.92-16V368a16 16 0 0 1 16-16h64a16 16 0 0 1 16 16v95.64a16 16 0 0 0 16 16.05L464 480a16 16 0 0 0 16-16V300L295.67 148.26a12.19 12.19 0 0 0-15.3 0zM571.6 251.47L488 182.56V44.05a12 12 0 0 0-12-12h-56a12 12 0 0 0-12 12v72.61L318.47 43a48 48 0 0 0-61 0L4.34 251.47a12 12 0 0 0-1.6 16.9l25.5 31A12 12 0 0 0 45.15 301l235.22-193.74a12.19 12.19 0 0 1 15.3 0L530.9 301a12 12 0 0 0 16.9-1.6l25.5-31a12 12 0 0 0-1.7-16.93z"></path></svg>"#;

/// The page up to its title.
pub const PAGE_TOP: &'static str = "<html>\n  <head>\n    <meta name=\"viewport\" content=\"width=device-width\">\n    <meta charset='utf-8'>\n    <style>";

/// Between the style sheet and the title.
pub const PAGE_TITLE: &'static str = "</style>\n    <title>Index of ";

/// Between the title and the breadcrumb.
pub const PAGE_HEADER: &'static str = "</title>\n  </head>\n  <body>\n    <header>\n      <h3>Index of: ";

/// Between the breadcrumb and the rows.
pub const PAGE_TABLE: &'static str = "</h3>\n    </header>\n    <hr />\n    <table>\n      <tr>\n        <th></th>\n        <th>Name</th>\n        <th>Last modified</th>\n        <th>Size</th>\n      </tr>\n";

/// After the rows.
pub const PAGE_BOTTOM: &'static str = "    </table>\n    <hr />\n    <footer>ftp-web</footer>\n  </body>\n</html>\n";

/// The root link of the breadcrumb, up to its icon.
pub const ROOT_LINK_OPEN: &'static str = "<a href=\"/\">";

/// Closes a link.
pub const LINK_CLOSE: &'static str = "</a>";

/// A breadcrumb link below the root, up to its target.
pub const CRUMB_OPEN: &'static str = "/<a href=\"/ftp";

/// Between a link's target and its label.
pub const LINK_MIDDLE: &'static str = "\">";

/// A row, up to its icon.
pub const ROW_OPEN: &'static str = "<tr>\n  <td>";

/// Between the icon and the link of a directory row.
pub const DIR_LINK_OPEN: &'static str = "</td>\n  <td><a href=\"/ftp";

/// Between the icon and the link of a file row.
pub const FILE_LINK_OPEN: &'static str = "</td>\n  <td><a download href=\"/file";

/// Closes the link of a directory row and opens the time cell.
pub const DIR_LINK_CLOSE: &'static str = "/\">";

/// Between the label and the time.
pub const TIME_OPEN: &'static str = "</a></td>\n  <td>";

/// Between the time and the size of a row without a size.
pub const NO_SIZE: &'static str = "</td>\n  <td></td>\n</tr>\n";

/// Between the time and the size of a row with a size.
pub const SIZE_OPEN: &'static str = "</td>\n  <td style='text-align: right'>";

/// After the size.
pub const SIZE_CLOSE: &'static str = "</td>\n</tr>\n";

/// The title of a listed path: the root `""` is shown as `/`.
pub open spec fn title_of(path: Seq<char>) -> Seq<char> {
    if path.len() == 0 {
        seq!['/']
    } else {
        path
    }
}

/// The markup of one breadcrumb link; the root link shows the home icon.
pub open spec fn crumb_html(c: CrumbModel) -> Seq<char> {
    if c.target.len() == 0 {
        ROOT_LINK_OPEN@ + HOME_ICON@ + LINK_CLOSE@
    } else {
        CRUMB_OPEN@ + escape_text(c.target) + LINK_MIDDLE@ + escape_text(c.label) + LINK_CLOSE@
    }
}

/// The markup of breadcrumb links, one after another.
pub open spec fn crumbs_html(cs: Seq<CrumbModel>) -> Seq<char>
    decreases cs.len(),
{
    if cs.len() == 0 {
        Seq::empty()
    } else {
        crumbs_html(cs.drop_last()) + crumb_html(cs.last())
    }
}

/// The markup of one row: its icon, its link, its time and its size.
pub open spec fn row_html(r: RowModel) -> Seq<char> {
    ROW_OPEN@ + (if r.is_dir {
        DIR_ICON@ + DIR_LINK_OPEN@ + escape_text(seq!['/'] + r.target) + DIR_LINK_CLOSE@
    } else {
        FILE_ICON@ + FILE_LINK_OPEN@ + escape_text(seq!['/'] + r.target) + LINK_MIDDLE@
    }) + escape_text(r.label) + TIME_OPEN@ + escape_text(r.last_modified) + match r.size {
        Some(t) => SIZE_OPEN@ + escape_text(t) + SIZE_CLOSE@,
        None => NO_SIZE@,
    }
}

/// The markup of rows, one after another.
pub open spec fn rows_html(rs: Seq<RowModel>) -> Seq<char>
    decreases rs.len(),
{
    if rs.len() == 0 {
        Seq::empty()
    } else {
        rows_html(rs.drop_last()) + row_html(rs.last())
    }
}

/// The whole page of a listing.
pub open spec fn page_html(l: ListingModel) -> Seq<char> {
    PAGE_TOP@ + HTML_STYLE@ + PAGE_TITLE@ + escape_text(title_of(l.canonical_path)) + PAGE_HEADER@
        + crumbs_html(crumbs(l.canonical_path)) + PAGE_TABLE@ + rows_html(rows_of(l)) + PAGE_BOTTOM@
}

fn append_escaped(out: &mut String, s: &str)
    ensures
        final(out)@ == old(out)@ + escape_text(s@),
{
    let e = escape_html(s);
    out.append(e.as_str());
}

fn append_row(out: &mut String, row: &ListingRow)
    ensures
        final(out)@ == old(out)@ + row_html(row@),
{
    let ghost start = out@;
    let slash = vec!['/'];
    assert(slash@ =~= seq!['/']);
    let mut slash_target = string_from(&slash);
    slash_target.append(row.target.as_str());
    out.append(ROW_OPEN);
    if row.is_dir {
        out.append(DIR_ICON);
        out.append(DIR_LINK_OPEN);
        append_escaped(out, slash_target.as_str());
        out.append(DIR_LINK_CLOSE);
    } else {
        out.append(FILE_ICON);
        out.append(FILE_LINK_OPEN);
        append_escaped(out, slash_target.as_str());
        out.append(LINK_MIDDLE);
    }
    append_escaped(out, row.label.as_str());
    out.append(TIME_OPEN);
    append_escaped(out, row.last_modified.as_str());
    match &row.size {
        Some(t) => {
            out.append(SIZE_OPEN);
            append_escaped(out, t.as_str());
            out.append(SIZE_CLOSE);
        },
        None => {
            out.append(NO_SIZE);
        },
    }
    assert(out@ =~= start + row_html(row@));
}

/// Renders the page of a resolved listing: the title and breadcrumb of the
/// listed path, then the parent row and one row per entry, with every name,
/// path and time escaped.
pub fn get_html(listing: &ResolvedListing) -> (r: String)
    ensures
        r@ == page_html(listing@),
{
    let mut out = String::new();
    out.append(PAGE_TOP);
    out.append(HTML_STYLE);
    out.append(PAGE_TITLE);
    let slash = vec!['/'];
    assert(slash@ =~= seq!['/']);
    let title = if listing.canonical_path.as_str().is_empty() {
        string_from(&slash)
    } else {
        listing.canonical_path.clone()
    };
    append_escaped(&mut out, title.as_str());
    out.append(PAGE_HEADER);
    let crumbs_v = breadcrumb(listing.canonical_path.as_str());
    let ghost cs = crumbs_v@.map_values(|c: Crumb| c@);
    let ghost head = out@;
    let mut i: usize = 0;
    while i < crumbs_v.len()
        invariant
            i <= crumbs_v.len(),
            cs == crumbs_v@.map_values(|c: Crumb| c@),
            out@ == head + crumbs_html(cs.take(i as int)),
        decreases crumbs_v.len() - i,
    {
        let c = &crumbs_v[i];
        let ghost before = out@;
        if c.target.as_str().is_empty() {
            out.append(ROOT_LINK_OPEN);
            out.append(HOME_ICON);
            out.append(LINK_CLOSE);
        } else {
            out.append(CRUMB_OPEN);
            append_escaped(&mut out, c.target.as_str());
            out.append(LINK_MIDDLE);
            append_escaped(&mut out, c.label.as_str());
            out.append(LINK_CLOSE);
        }
        assert(cs.take(i + 1).drop_last() =~= cs.take(i as int));
        assert(cs[i as int] == c@);
        assert(out@ =~= before + crumb_html(c@));
        i = i + 1;
    }
    assert(cs.take(crumbs_v.len() as int) =~= cs);
    out.append(PAGE_TABLE);
    let rows = render_listing(listing);
    let ghost rs = rows@.map_values(|w: ListingRow| w@);
    let ghost mid = out@;
    let mut j: usize = 0;
    while j < rows.len()
        invariant
            j <= rows.len(),
            rs == rows@.map_values(|w: ListingRow| w@),
            out@ == mid + rows_html(rs.take(j as int)),
        decreases rows.len() - j,
    {
        let ghost before = out@;
        append_row(&mut out, &rows[j]);
        assert(rs.take(j + 1).drop_last() =~= rs.take(j as int));
        assert(rs[j as int] == rows@[j as int]@);
        assert(out@ =~= before + row_html(rows@[j as int]@));
        j = j + 1;
    }
    assert(rs.take(rows.len() as int) =~= rs);
    out.append(PAGE_BOTTOM);
    assert(out@ =~= page_html(listing@));
    out
}

} // verus!
