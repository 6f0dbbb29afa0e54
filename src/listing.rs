//! Turning raw listing lines into directory entries, and the fallback from a
//! path that cannot be listed to the server's default listing.
use vstd::prelude::*;
use crate::path::{collapse_seps, last_sep, normalize, parent_of, parent_path, trim_end_seps};
use crate::text::chars_of;

verus! {

/// What `fileinfo::parse` makes of a listing line: the permission string,
/// the name, the modification time and the size, or nothing.
pub uninterp spec fn parsed_line(line: Seq<char>) -> Option<(Seq<char>, Seq<char>, Seq<char>, nat)>;

/// The fields of a listing line as the parser hands them out.
pub struct ParsedLine {
    pub permissions: String,
    pub name: String,
    pub last_modified: String,
    pub size: usize,
}

/// Relies on `fileinfo::parse`: it reads one long-format listing line into its
/// fields or returns `None`, depending on the line alone. It slices the trimmed
/// line at byte ten, which `parse_is_safe` keeps on a character boundary.
#[verifier::external_body]
fn parse_listing_line(line: &str) -> (r: Option<ParsedLine>)
    requires
        parse_is_safe(line@),
    ensures
        match r {
            Some(p) => parsed_line(line@) == Some(
                (p.permissions@, p.name@, p.last_modified@, p.size as nat),
            ),
            None => parsed_line(line@) is None,
        },
{
    fileinfo::parse(line).map(
        |i|
            ParsedLine {
                permissions: i.permissions,
                name: i.name,
                last_modified: i.last_modified,
                size: i.size,
            },
    )
}

/// Unicode white space, as `char::is_whitespace` and `str::trim` see it.
pub open spec fn is_ws(c: char) -> bool {
    let u = c as u32;
    (0x9 <= u <= 0xd) || u == 0x20 || u == 0x85 || u == 0xa0 || u == 0x1680 || (0x2000 <= u
        <= 0x200a) || u == 0x2028 || u == 0x2029 || u == 0x202f || u == 0x205f || u == 0x3000
}

/// The index of the first character at or after `i` that is not white space.
pub open spec fn skip_ws(s: Seq<char>, i: int) -> int
    decreases s.len() - i,
{
    if 0 <= i < s.len() && is_ws(s[i]) {
        skip_ws(s, i + 1)
    } else {
        i
    }
}

/// The line, once trimmed, starts with ten ASCII characters, the tenth not
/// white space: trimming then keeps at least ten characters, and byte ten of
/// the trimmed line falls between characters.
pub open spec fn parse_is_safe(s: Seq<char>) -> bool {
    let a = skip_ws(s, 0);
    &&& 0 <= a
    &&& a + 10 <= s.len()
    &&& forall|k: int| a <= k < a + 10 ==> (#[trigger] s[k] as u32) < 128
    &&& !is_ws(s[a + 9])
}

fn is_space(c: char) -> (r: bool)
    ensures
        r == is_ws(c),
{
    let u = c as u32;
    (0x9 <= u && u <= 0xd) || u == 0x20 || u == 0x85 || u == 0xa0 || u == 0x1680 || (0x2000 <= u
        && u <= 0x200a) || u == 0x2028 || u == 0x2029 || u == 0x202f || u == 0x205f || u == 0x3000
}

/// Whether the parser can be handed this line.
pub fn line_is_safe(line: &str) -> (r: bool)
    ensures
        r == parse_is_safe(line@),
{
    let v = chars_of(line);
    let mut a: usize = 0;
    while a < v.len() && is_space(v[a])
        invariant
            a <= v.len(),
            v@ == line@,
            skip_ws(v@, 0) == skip_ws(v@, a as int),
        decreases v.len() - a,
    {
        a = a + 1;
    }
    assert(skip_ws(v@, 0) == a);
    if v.len() < 10 || a > v.len() - 10 {
        return false;
    }
    let mut k: usize = a;
    while k < a + 10
        invariant
            a <= k <= a + 10 <= v.len(),
            v@ == line@,
            skip_ws(v@, 0) == a,
            forall|j: int| a <= j < k ==> (#[trigger] v@[j] as u32) < 128,
        decreases a + 10 - k,
    {
        if v[k] as u32 >= 128 {
            return false;
        }
        k = k + 1;
    }
    !is_space(v[a + 9])
}

/// A directory entry as the contracts see it.
pub struct EntryModel {
    pub name: Seq<char>,
    pub is_dir: bool,
    pub last_modified: Seq<char>,
    pub size: Option<nat>,
}

/// One entry of a directory listing; only files carry a size.
pub struct DirectoryEntry {
    pub name: String,
    pub is_dir: bool,
    pub last_modified: String,
    pub size: Option<u64>,
}

impl View for DirectoryEntry {
    type V = EntryModel;

    open spec fn view(&self) -> EntryModel {
        EntryModel {
            name: self.name@,
            is_dir: self.is_dir,
            last_modified: self.last_modified@,
            size: match self.size {
                Some(n) => Some(n as nat),
                None => None,
            },
        }
    }
}

/// The entry that parsed fields describe: a directory when the permission
/// string starts with `d`.
pub open spec fn entry_of(p: (Seq<char>, Seq<char>, Seq<char>, nat)) -> EntryModel {
    let is_dir = p.0.len() > 0 && p.0[0] == 'd';
    EntryModel {
        name: p.1,
        is_dir,
        last_modified: p.2,
        size: if is_dir {
            None
        } else {
            Some(p.3)
        },
    }
}

/// The entry that a listing line gives, if it can be parsed.
pub open spec fn line_entry(line: Seq<char>) -> Option<EntryModel> {
    if parse_is_safe(line) {
        match parsed_line(line) {
            Some(p) => Some(entry_of(p)),
            None => None,
        }
    } else {
        None
    }
}

/// The entries of a listing, in the order of its lines, without the lines
/// that cannot be parsed.
pub open spec fn entries_of(lines: Seq<Seq<char>>) -> Seq<EntryModel>
    decreases lines.len(),
{
    if lines.len() == 0 {
        Seq::empty()
    } else {
        let rest = entries_of(lines.drop_last());
        match line_entry(lines.last()) {
            Some(e) => rest.push(e),
            None => rest,
        }
    }
}

/// The lines of a listing as character sequences.
pub open spec fn lines_view(lines: Seq<String>) -> Seq<Seq<char>> {
    lines.map_values(|l: String| l@)
}

/// Parses one listing line into an entry; a line that cannot be parsed gives `None`.
pub fn parse_entry(line: &str) -> (r: Option<DirectoryEntry>)
    ensures
        match r {
            Some(e) => line_entry(line@) == Some(e@),
            None => line_entry(line@) is None,
        },
{
    if !line_is_safe(line) {
        return None;
    }
    match parse_listing_line(line) {
        None => None,
        Some(p) => {
            let perms = chars_of(p.permissions.as_str());
            let is_dir = perms.len() > 0 && perms[0] == 'd';
            Some(DirectoryEntry {
                name: p.name,
                is_dir,
                last_modified: p.last_modified,
                size: if is_dir {
                    None
                } else {
                    Some(p.size as u64)
                },
            })
        },
    }
}

/// Parses every line of a listing, keeping the order of the lines and
/// dropping those that cannot be parsed.
pub fn parse_entries(lines: &Vec<String>) -> (r: Vec<DirectoryEntry>)
    ensures
        r@.map_values(|e: DirectoryEntry| e@) == entries_of(lines_view(lines@)),
{
    let mut out: Vec<DirectoryEntry> = Vec::new();
    let mut i: usize = 0;
    while i < lines.len()
        invariant
            i <= lines.len(),
            out@.map_values(|e: DirectoryEntry| e@) == entries_of(
                lines_view(lines@.take(i as int)),
            ),
        decreases lines.len() - i,
    {
        let ghost before = out@;
        assert(lines_view(lines@.take(i + 1)).drop_last() =~= lines_view(lines@.take(i as int)));
        assert(lines_view(lines@.take(i + 1)).last() == lines@[i as int]@);
        match parse_entry(lines[i].as_str()) {
            Some(e) => {
                out.push(e);
                assert(out@.map_values(|e: DirectoryEntry| e@) =~= before.map_values(
                    |e: DirectoryEntry| e@,
                ).push(out@.last()@));
            },
            None => {},
        }
        i = i + 1;
    }
    assert(lines@.take(lines.len() as int) =~= lines@);
    out
}

/// Splitting a listing anywhere and parsing the parts gives the entries of the
/// whole: entries keep the order of their lines, each line counts on its own,
/// and a line that cannot be parsed adds nothing.
pub proof fn entries_order_law(a: Seq<Seq<char>>, b: Seq<Seq<char>>)
    ensures
        entries_of(a + b) == entries_of(a) + entries_of(b),
    decreases b.len(),
{
    if b.len() == 0 {
        assert(a + b =~= a);
        assert(entries_of(a) + entries_of(b) =~= entries_of(a));
    } else {
        entries_order_law(a, b.drop_last());
        assert((a + b).drop_last() =~= a + b.drop_last());
        assert((a + b).last() == b.last());
        match line_entry(b.last()) {
            Some(e) => {
                assert(entries_of(a) + entries_of(b.drop_last()).push(e) =~= (entries_of(a)
                    + entries_of(b.drop_last())).push(e));
            },
            None => {},
        }
    }
}

/// The entries of a single line: its entry if it parses, none otherwise.
pub proof fn single_line_law(line: Seq<char>)
    ensures
        entries_of(seq![line]) == match line_entry(line) {
            Some(e) => seq![e],
            None => Seq::<EntryModel>::empty(),
        },
{
    let one = seq![line];
    assert(one.drop_last() =~= Seq::<Seq<char>>::empty());
    assert(one.last() == line);
    assert(entries_of(one.drop_last()) == Seq::<EntryModel>::empty());
    match line_entry(line) {
        Some(e) => {
            assert(Seq::<EntryModel>::empty().push(e) =~= seq![e]);
        },
        None => {},
    }
}

/// A resolved listing as the contracts see it.
pub struct ListingModel {
    pub canonical_path: Seq<char>,
    pub entries: Seq<EntryModel>,
    pub parent_path: Seq<char>,
}

/// The path that was listed, its entries in listing order, and its parent.
pub struct ResolvedListing {
    pub canonical_path: String,
    pub entries: Vec<DirectoryEntry>,
    pub parent_path: String,
}

impl View for ResolvedListing {
    type V = ListingModel;

    open spec fn view(&self) -> ListingModel {
        ListingModel {
            canonical_path: self.canonical_path@,
            entries: self.entries@.map_values(|e: DirectoryEntry| e@),
            parent_path: self.parent_path@,
        }
    }
}

/// The listing of `path` made from the raw lines the server returned for it.
pub open spec fn listing_model(path: Seq<char>, lines: Seq<Seq<char>>) -> ListingModel {
    ListingModel { canonical_path: path, entries: entries_of(lines), parent_path: parent_path(path) }
}

/// Builds the listing of `canonical_path` from the raw lines listed for it.
pub fn resolve_listing(canonical_path: String, lines: &Vec<String>) -> (r: ResolvedListing)
    ensures
        r@ == listing_model(canonical_path@, lines_view(lines@)),
{
    let entries = parse_entries(lines);
    let parent_path = parent_of(canonical_path.as_str());
    ResolvedListing { canonical_path, entries, parent_path }
}

/// A listing operation to issue on the connection.
pub enum ListingRequest {
    /// List this (normalised) path.
    Path(String),
    /// List the server's default directory, without a path.
    Root,
}

/// What to do once a listing operation has answered.
pub enum ListingStep {
    /// Issue this listing operation next.
    Issue(ListingRequest),
    /// The listing is resolved.
    Done(ResolvedListing),
    /// Even the default listing failed.
    Failed,
}

/// A listing request as the contracts see it: `None` stands for the default listing.
pub open spec fn request_model(q: ListingRequest) -> Option<Seq<char>> {
    match q {
        ListingRequest::Path(p) => Some(p@),
        ListingRequest::Root => None,
    }
}

/// A step as the contracts see it.
pub enum StepModel {
    Issue(Option<Seq<char>>),
    Done(ListingModel),
    Failed,
}

pub open spec fn step_model(s: ListingStep) -> StepModel {
    match s {
        ListingStep::Issue(q) => StepModel::Issue(request_model(q)),
        ListingStep::Done(l) => StepModel::Done(l@),
        ListingStep::Failed => StepModel::Failed,
    }
}

/// The decision after a listing operation for `request` answered with `reply`
/// (`None` where it failed): a listed path is resolved as itself; a path that
/// cannot be listed falls back to the default listing, which is resolved as
/// the root `""`; a failed default listing ends the attempt.
pub open spec fn next_step(request: Option<Seq<char>>, reply: Option<Seq<Seq<char>>>) -> StepModel {
    match (request, reply) {
        (Some(p), Some(lines)) => StepModel::Done(listing_model(p, lines)),
        (Some(_), None) => StepModel::Issue(None),
        (None, Some(lines)) => StepModel::Done(listing_model(Seq::empty(), lines)),
        (None, None) => StepModel::Failed,
    }
}

/// The first listing operation for a requested browse path: the path, normalised.
pub fn start_listing(requested: &str) -> (r: ListingRequest)
    ensures
        request_model(r) == Some(collapse_seps(requested@)),
{
    ListingRequest::Path(normalize(requested))
}

/// Decides what follows the answer `reply` to the listing operation `request`.
pub fn on_listing_reply(request: ListingRequest, reply: Option<Vec<String>>) -> (r: ListingStep)
    ensures
        step_model(r) == next_step(
            request_model(request),
            match reply {
                Some(lines) => Some(lines_view(lines@)),
                None => None,
            },
        ),
{
    match (request, reply) {
        (ListingRequest::Path(p), Some(lines)) => ListingStep::Done(resolve_listing(p, &lines)),
        (ListingRequest::Path(_), None) => ListingStep::Issue(ListingRequest::Root),
        (ListingRequest::Root, Some(lines)) => {
            let root = String::new();
            ListingStep::Done(resolve_listing(root, &lines))
        },
        (ListingRequest::Root, None) => ListingStep::Failed,
    }
}

/// A path that cannot be listed falls back to the default listing, and that
/// listing resolves to the root `""` with exactly the entries of the default
/// listing's lines, whatever path was asked for.
pub proof fn fallback_law(requested: Seq<char>, root_lines: Seq<Seq<char>>)
    ensures
        next_step(Some(requested), None) == StepModel::Issue(None),
        next_step(None, Some(root_lines)) == StepModel::Done(
            ListingModel {
                canonical_path: Seq::empty(),
                entries: entries_of(root_lines),
                parent_path: Seq::empty(),
            },
        ),
{
    let t = Seq::<char>::empty();
    assert(trim_end_seps(t) == t);
    assert(last_sep(t) == -1);
}

} // verus!
