use vstd::prelude::*;
use vstd::utf8::{decode_utf8, encode_utf8, valid_utf8};

verus! {

/// Whether a device's driver is currently bound.
#[derive(Debug, Clone, Copy, PartialEq, Eq, Structural)]
pub enum Status {
    /// The driver is bound.
    Online,
    /// No driver is bound.
    Offline,
}

impl Status {
    /// `Online` for `true`, `Offline` for `false`.
    pub fn from_bool(online: bool) -> (r: Status)
        ensures
            r == (if online { Status::Online } else { Status::Offline }),
    {
        if online {
            Status::Online
        } else {
            Status::Offline
        }
    }

    /// The word that names the status: "online" or "offline".
    pub fn as_str(&self) -> (r: &'static str)
        ensures
            r@ == status_word(*self),
    {
        match self {
            Status::Online => "online",
            Status::Offline => "offline",
        }
    }
}

/// A USB device, as found in the device registry.
#[derive(Debug, Clone, PartialEq, Eq)]
pub struct Device {
    /// The registry entry's base name (a port identifier such as `1-1.2`), as raw bytes.
    pub port: Vec<u8>,
    /// The product name, without surrounding white space.
    pub name: String,
    /// Whether the device's driver is bound.
    pub online: Status,
}

/// The UTF-8 bytes of a piece of text.
pub open spec fn text_bytes(s: Seq<char>) -> Seq<u8> {
    encode_utf8(s)
}

/// `needle` occurs in `hay` as a contiguous run starting at `i`.
pub open spec fn occurs_at(hay: Seq<u8>, needle: Seq<u8>, i: int) -> bool {
    0 <= i && i + needle.len() <= hay.len() && hay.subrange(i, i + needle.len()) == needle
}

/// `needle` occurs somewhere in `hay` as a contiguous run.
pub open spec fn contains_bytes(hay: Seq<u8>, needle: Seq<u8>) -> bool {
    exists|i: int| occurs_at(hay, needle, i)
}

/// Whether a device's port or name matches `search`: equals it in exact mode,
/// contains it otherwise. Text is compared byte for byte and case-sensitively.
pub open spec fn device_matches(d: Device, search: Seq<char>, exact: bool) -> bool {
    let s = text_bytes(search);
    let name = text_bytes(d.name@);
    if exact {
        d.port@ == s || name == s
    } else {
        contains_bytes(d.port@, s) || contains_bytes(name, s)
    }
}

/// Whether `needle` occurs in `hay` at position `i`.
fn bytes_occur_at(hay: &[u8], needle: &[u8], i: usize) -> (r: bool)
    requires
        i + needle@.len() <= hay@.len(),
    ensures
        r == occurs_at(hay@, needle@, i as int),
{
    let mut k: usize = 0;
    while k < needle.len()
        invariant
            k <= needle@.len(),
            i + needle@.len() <= hay@.len(),
            hay@.len() == hay.len(),
            forall|j: int| 0 <= j < k ==> hay@[i + j] == needle@[j],
        decreases needle@.len() - k,
    {
        if hay[i + k] != needle[k] {
            assert(hay@.subrange(i as int, i + needle@.len())[k as int] != needle@[k as int]);
            return false;
        }
        k = k + 1;
    }
    assert(hay@.subrange(i as int, i + needle@.len()) =~= needle@);
    true
}

/// Whether the two byte strings are equal.
fn bytes_equal(a: &[u8], b: &[u8]) -> (r: bool)
    ensures
        r == (a@ == b@),
{
    if a.len() != b.len() {
        return false;
    }
    let r = bytes_occur_at(a, b, 0);
    assert(a@.subrange(0, b@.len() as int) =~= a@);
    r
}

/// Whether `needle` occurs somewhere in `hay`.
fn bytes_contain(hay: &[u8], needle: &[u8]) -> (r: bool)
    ensures
        r == contains_bytes(hay@, needle@),
{
    if needle.len() > hay.len() {
        return false;
    }
    let last = hay.len() - needle.len();
    let mut i: usize = 0;
    loop
        invariant
            last == hay@.len() - needle@.len(),
            i <= last,
            forall|j: int| 0 <= j < i ==> !occurs_at(hay@, needle@, j),
        decreases last - i,
    {
        if bytes_occur_at(hay, needle, i) {
            return true;
        }
        if i == last {
            return false;
        }
        i = i + 1;
    }
}

impl Device {
    /// Checks whether the device's port or name matches the `search` string:
    /// equals it when `exact` is set, contains it otherwise.
    pub fn matches(&self, search: &str, exact: bool) -> (r: bool)
        ensures
            r == device_matches(*self, search@, exact),
    {
        let s = search.as_bytes();
        let name = self.name.as_str().as_bytes();
        if exact {
            bytes_equal(self.port.as_slice(), s) || bytes_equal(name, s)
        } else {
            bytes_contain(self.port.as_slice(), s) || bytes_contain(name, s)
        }
    }
}


/// The Unicode White_Space property of a character, as `char::is_whitespace` reports it.
pub uninterp spec fn white_space(c: char) -> bool;

/// `r` is a run of `s` such that every character of `s` before and after it is white space.
pub open spec fn strips_to(s: Seq<char>, r: Seq<char>) -> bool {
    exists|i: int, j: int|
        0 <= i <= j <= s.len() && r == #[trigger] s.subrange(i, j) && (forall|k: int|
                0 <= k < i ==> white_space(#[trigger] s[k])) && (forall|k: int|
                j <= k < s.len() ==> white_space(#[trigger] s[k]))
}

/// `r` is `s` without its leading and trailing white space.
pub open spec fn trims_to(s: Seq<char>, r: Seq<char>) -> bool {
    strips_to(s, r) && (r.len() > 0 ==> !white_space(r[0]) && !white_space(r.last()))
}

/// Relies on `str::trim`: it removes leading and trailing characters that have the
/// White_Space property, and keeps the rest.
#[verifier::external_body]
fn trim(s: &str) -> (r: String)
    ensures
        strips_to(s@, r@),
        r@.len() > 0 ==> !white_space(r@[0]) && !white_space(r@.last()),
{
    s.trim().to_string()
}

/// Failure to change a device's status.
#[derive(Debug, Clone, PartialEq, Eq)]
pub enum StatusError {
    /// Writing to the bind control file failed.
    On {
        /// The control file.
        path: String,
        /// What the operating system reported.
        reason: String,
    },
    /// Writing to the unbind control file failed.
    Off {
        /// The control file.
        path: String,
        /// What the operating system reported.
        reason: String,
    },
}

/// Failure to open the device registry.
#[derive(Debug, Clone, PartialEq, Eq)]
pub enum DirectoryOpenError {
    /// The registry directory could not be opened.
    OpenDir {
        /// The registry directory.
        path: String,
        /// What the operating system reported.
        reason: String,
    },
}

/// Failure while looking at one registry entry.
#[derive(Debug, Clone, PartialEq, Eq)]
pub enum DiscoveryError {
    /// The next entry of the registry could not be listed.
    FetchEntry {
        /// The registry directory.
        path: String,
        /// What the operating system reported.
        reason: String,
    },
    /// The entry's metadata could not be read (for a reason other than its absence).
    Metadata {
        /// The entry.
        path: String,
        /// What the operating system reported.
        reason: String,
    },
    /// The entry's product descriptor could not be read.
    ReadFile {
        /// The entry.
        path: String,
        /// What the operating system reported.
        reason: String,
    },
}

/// `prefix` followed by `path`, as a new string.
fn joined(prefix: &str, path: &String) -> (r: String)
    ensures
        r@ == prefix@ + path@,
{
    let mut r = String::from_str(prefix);
    r.append(path.as_str());
    r
}

impl StatusError {
    /// The message for the error, without its reason.
    pub fn message(&self) -> (r: String)
        ensures
            r@ == (match *self {
                StatusError::On { path, .. } => "Unable to write status ON to "@ + path@,
                StatusError::Off { path, .. } => "Unable to write status OFF to "@ + path@,
            }),
    {
        match self {
            StatusError::On { path, .. } => joined("Unable to write status ON to ", path),
            StatusError::Off { path, .. } => joined("Unable to write status OFF to ", path),
        }
    }

    /// What the operating system reported.
    pub fn reason(&self) -> (r: &String)
        ensures
            r == (match *self {
                StatusError::On { reason, .. } => reason,
                StatusError::Off { reason, .. } => reason,
            }),
    {
        match self {
            StatusError::On { reason, .. } => reason,
            StatusError::Off { reason, .. } => reason,
        }
    }
}

impl DirectoryOpenError {
    /// The message for the error, without its reason.
    pub fn message(&self) -> (r: String)
        ensures
            r@ == (match *self {
                DirectoryOpenError::OpenDir { path, .. } => "Unable to open "@ + path@,
            }),
    {
        match self {
            DirectoryOpenError::OpenDir { path, .. } => joined("Unable to open ", path),
        }
    }

    /// What the operating system reported.
    pub fn reason(&self) -> (r: &String)
        ensures
            r == (match *self {
                DirectoryOpenError::OpenDir { reason, .. } => reason,
            }),
    {
        match self {
            DirectoryOpenError::OpenDir { reason, .. } => reason,
        }
    }
}

impl DiscoveryError {
    /// The message for the error, without its reason.
    pub fn message(&self) -> (r: String)
        ensures
            r@ == (match *self {
                DiscoveryError::FetchEntry { path, .. } => "Unable to fetch an entry from "@
                    + path@,
                DiscoveryError::Metadata { path, .. } => "Unable to get metadata of "@ + path@,
                DiscoveryError::ReadFile { path, .. } => "Unable to read product file: "@
                    + path@,
            }),
    {
        match self {
            DiscoveryError::FetchEntry { path, .. } => joined(
                "Unable to fetch an entry from ",
                path,
            ),
            DiscoveryError::Metadata { path, .. } => joined("Unable to get metadata of ", path),
            DiscoveryError::ReadFile { path, .. } => joined("Unable to read product file: ", path),
        }
    }

    /// What the operating system reported.
    pub fn reason(&self) -> (r: &String)
        ensures
            r == (match *self {
                DiscoveryError::FetchEntry { reason, .. } => reason,
                DiscoveryError::Metadata { reason, .. } => reason,
                DiscoveryError::ReadFile { reason, .. } => reason,
            }),
    {
        match self {
            DiscoveryError::FetchEntry { reason, .. } => reason,
            DiscoveryError::Metadata { reason, .. } => reason,
            DiscoveryError::ReadFile { reason, .. } => reason,
        }
    }
}

/// What fetching a registry entry's metadata found.
#[derive(Debug, Clone, PartialEq, Eq)]
pub enum EntryKind {
    /// The entry vanished between listing and fetching its metadata.
    Vanished,
    /// The metadata could not be fetched, for the reason given.
    Unreadable(String),
    /// The entry is not a directory.
    NotDirectory,
    /// The entry is a directory.
    Directory,
}

/// What was observed of one registry entry.
#[derive(Debug, Clone)]
pub struct Entry {
    /// The entry's path, for messages.
    pub path: String,
    /// The entry's base name.
    pub port: Vec<u8>,
    /// What its metadata said.
    pub kind: EntryKind,
    /// Its product descriptor: `None` when there is no such file, else the outcome of
    /// reading it (the contents, or the reason it could not be read).
    pub product: Option<Result<String, String>>,
    /// Whether the driver-binding registry holds an entry named after `port`.
    pub bound: bool,
}

/// What discovery makes of one entry: `None` when the entry is skipped, an error, or a
/// device record.
pub open spec fn entry_result(e: Entry, r: Option<Result<Device, DiscoveryError>>) -> bool {
    match e.kind {
        EntryKind::Vanished => r is None,
        EntryKind::NotDirectory => r is None,
        EntryKind::Unreadable(reason) => r == Some(
            Err::<Device, DiscoveryError>(DiscoveryError::Metadata { path: e.path, reason }),
        ),
        EntryKind::Directory => match e.product {
            None => r is None,
            Some(Err(reason)) => r == Some(
                Err::<Device, DiscoveryError>(DiscoveryError::ReadFile { path: e.path, reason }),
            ),
            Some(Ok(text)) => match r {
                Some(Ok(d)) => d.port@ == e.port@ && trims_to(text@, d.name@) && d.online == (
                if e.bound {
                    Status::Online
                } else {
                    Status::Offline
                }),
                _ => false,
            },
        },
    }
}

/// Turns what was observed of one registry entry into a device record, an error, or
/// nothing (vanished entries, non-directories and directories without a product
/// descriptor are skipped).
pub fn device_from_entry(entry: Entry) -> (r: Option<Result<Device, DiscoveryError>>)
    ensures
        entry_result(entry, r),
{
    let ghost e = entry;
    let Entry { path, port, kind, product, bound } = entry;
    match kind {
        EntryKind::Vanished => None,
        EntryKind::NotDirectory => None,
        EntryKind::Unreadable(reason) => Some(Err(DiscoveryError::Metadata { path, reason })),
        EntryKind::Directory => match product {
            None => None,
            Some(Err(reason)) => Some(Err(DiscoveryError::ReadFile { path, reason })),
            Some(Ok(text)) => {
                let name = trim(text.as_str());
                Some(Ok(Device { port, name, online: Status::from_bool(bound) }))
            },
        },
    }
}

/// `rs` is what discovery makes of the entries `es`, in order: each entry gives
/// nothing, an error, or a device, as `entry_result` says.
pub open spec fn discovered(es: Seq<Entry>, rs: Seq<Result<Device, DiscoveryError>>) -> bool
    decreases es.len(),
{
    if es.len() == 0 {
        rs.len() == 0
    } else {
        ||| entry_result(es.last(), None) && discovered(es.drop_last(), rs)
        ||| rs.len() > 0 && entry_result(es.last(), Some(rs.last())) && discovered(
            es.drop_last(),
            rs.drop_last(),
        )
    }
}

/// Runs discovery over the observed registry entries, in order.
pub fn discover(entries: Vec<Entry>) -> (r: Vec<Result<Device, DiscoveryError>>)
    ensures
        discovered(entries@, r@),
{
    let ghost all = entries@;
    let n = entries.len();
    let mut rest = entries;
    let mut out: Vec<Result<Device, DiscoveryError>> = Vec::new();
    let mut i: usize = 0;
    while rest.len() > 0
        invariant
            i + rest@.len() == all.len(),
            all.len() == n,
            rest@ == all.subrange(i as int, all.len() as int),
            discovered(all.subrange(0, i as int), out@),
        decreases rest@.len(),
    {
        let entry = rest.remove(0);
        let ghost before = out@;
        assert(all.subrange(0, i + 1).drop_last() =~= all.subrange(0, i as int));
        match device_from_entry(entry) {
            Some(item) => {
                out.push(item);
                assert(out@.drop_last() =~= before);
            },
            None => {},
        }
        i = i + 1;
        assert(rest@ =~= all.subrange(i as int, all.len() as int));
    }
    assert(all.subrange(0, i as int) =~= all);
    out
}

/// Whatever discovery yields comes from an entry that yields it on its own: so an
/// entry that vanished, is no directory, or has no product descriptor gives nothing,
/// and each device's status is the one its entry's driver binding gives.
pub proof fn discovered_items_come_from_entries(
    es: Seq<Entry>,
    rs: Seq<Result<Device, DiscoveryError>>,
)
    requires
        discovered(es, rs),
    ensures
        forall|k: int|
            0 <= k < rs.len() ==> exists|j: int|
                0 <= j < es.len() && entry_result(es[j], Some(#[trigger] rs[k])),
    decreases es.len(),
{
    if es.len() > 0 {
        let front = es.drop_last();
        if entry_result(es.last(), None) && discovered(front, rs) {
            discovered_items_come_from_entries(front, rs);
            assert forall|k: int| 0 <= k < rs.len() implies exists|j: int|
                0 <= j < es.len() && entry_result(es[j], Some(#[trigger] rs[k])) by {
                let j = choose|j: int| 0 <= j < front.len() && entry_result(front[j], Some(rs[k]));
                assert(es[j] == front[j]);
            }
        } else {
            let prev = rs.drop_last();
            discovered_items_come_from_entries(front, prev);
            assert forall|k: int| 0 <= k < rs.len() implies exists|j: int|
                0 <= j < es.len() && entry_result(es[j], Some(#[trigger] rs[k])) by {
                if k == rs.len() - 1 {
                    assert(entry_result(es[es.len() - 1], Some(rs[k])));
                } else {
                    assert(rs[k] == prev[k]);
                    let j = choose|j: int| 0 <= j < front.len() && entry_result(front[j], Some(#[trigger] prev[k]));
                    assert(es[j] == front[j]);
                }
            }
        }
    }
}

/// The index of the first item that is an error or a device matching `search`, or the
/// length of `items` when there is none.
pub open spec fn first_hit(items: Seq<Result<Device, DiscoveryError>>, search: Seq<char>, exact: bool) -> int
    decreases items.len(),
{
    if items.len() == 0 {
        0
    } else if items[0] is Err || device_matches(items[0]->Ok_0, search, exact) {
        0
    } else {
        1 + first_hit(items.drop_first(), search, exact)
    }
}

/// `r` is what a search for `search` over `items` gives: the first matching device,
/// or the first error before it, or `None` when neither occurs.
pub open spec fn search_result(
    items: Seq<Result<Device, DiscoveryError>>,
    search: Seq<char>,
    exact: bool,
    r: Result<Option<Device>, DiscoveryError>,
) -> bool {
    let k = first_hit(items, search, exact);
    if k >= items.len() {
        r == Ok::<Option<Device>, DiscoveryError>(None)
    } else {
        match items[k] {
            Ok(d) => r == Ok::<Option<Device>, DiscoveryError>(Some(d)),
            Err(e) => r == Err::<Option<Device>, DiscoveryError>(e),
        }
    }
}

proof fn first_hit_in_range(items: Seq<Result<Device, DiscoveryError>>, search: Seq<char>, exact: bool)
    ensures
        0 <= first_hit(items, search, exact) <= items.len(),
    decreases items.len(),
{
    if items.len() > 0 {
        first_hit_in_range(items.drop_first(), search, exact);
    }
}

/// Finds the first device whose port or name matches `search`, stopping at the first
/// discovery error before it.
pub fn find_device(items: Vec<Result<Device, DiscoveryError>>, search: &str, exact: bool) -> (r:
    Result<Option<Device>, DiscoveryError>)
    ensures
        search_result(items@, search@, exact, r),
{
    let ghost all = items@;
    let mut rest = items;
    let ghost mut i: int = 0;
    while rest.len() > 0
        invariant
            all == items@,
            0 <= i <= all.len(),
            rest@ == all.subrange(i, all.len() as int),
            first_hit(all, search@, exact) == i + first_hit(rest@, search@, exact),
        decreases rest@.len(),
    {
        let ghost before = rest@;
        let item = rest.remove(0);
        assert(rest@ =~= before.drop_first());
        assert(rest@ =~= all.subrange(i + 1, all.len() as int));
        proof {
            first_hit_in_range(all, search@, exact);
        }
        match item {
            Err(e) => return Err(e),
            Ok(d) => {
                if d.matches(search, exact) {
                    return Ok(Some(d));
                }
            },
        }
        proof {
            i = i + 1;
        }
    }
    Ok(None)
}

/// What `String::from_utf8_lossy` makes of a byte string.
pub uninterp spec fn lossy_text(b: Seq<u8>) -> Seq<char>;

/// Relies on `String::from_utf8_lossy`: valid UTF-8 is decoded as it stands (invalid
/// sequences would become U+FFFD).
#[verifier::external_body]
fn text_of(b: &[u8]) -> (r: String)
    ensures
        r@ == lossy_text(b@),
        valid_utf8(b@) ==> r@ == decode_utf8(b@),
{
    String::from_utf8_lossy(b).into_owned()
}

/// `s` padded with spaces on the right to at least `width` characters.
pub open spec fn padded(s: Seq<char>, width: nat) -> Seq<char> {
    if s.len() >= width {
        s
    } else {
        s + Seq::new((width - s.len()) as nat, |i: int| ' ')
    }
}

/// The one-line description of a device: its port (padded to five characters), its
/// status in parentheses, and its name.
pub open spec fn description(d: Device) -> Seq<char> {
    padded(lossy_text(d.port@), 5) + " ("@ + status_word(d.online) + "): "@ + d.name@
}

/// The word for a status.
pub open spec fn status_word(s: Status) -> Seq<char> {
    match s {
        Status::Online => "online"@,
        Status::Offline => "offline"@,
    }
}

impl Device {
    /// Describes the device on one line, as in `1-1   (online): Example Mouse`.
    pub fn describe(&self) -> (r: String)
        ensures
            r@ == description(*self),
    {
        let mut r = text_of(self.port.as_slice());
        let ghost port = r@;
        let mut n = r.as_str().unicode_len();
        proof {
            reveal_strlit(" ");
        }
        while n < 5
            invariant
                n == r@.len(),
                n <= 5 || r@ == port,
                r@ =~= port + Seq::new((n - port.len()) as nat, |i: int| ' '),
                port.len() <= n,
            decreases 5 - n,
        {
            proof {
                reveal_strlit(" ");
            }
            r.append(" ");
            n = n + 1;
        }
        assert(r@ =~= padded(port, 5));
        r.append(" (");
        r.append(self.online.as_str());
        r.append("): ");
        r.append(self.name.as_str());
        r
    }

    /// Whether the device's name mentions "host", in any mix of cases.
    pub fn mentions_host(&self) -> (r: bool)
        ensures
            r == mentions_host(self.name@),
    {
        let bytes = self.name.as_str().as_bytes();
        assert(bytes@ == text_bytes(self.name@));
        bytes_mention_host(bytes)
    }
}

/// ASCII upper-case letters in lower case; every other byte as it is.
pub open spec fn ascii_lower(b: u8) -> u8 {
    if 65 <= b <= 90 {
        (b + 32) as u8
    } else {
        b
    }
}

/// The bytes at `i` spell "host" in any mix of cases.
pub open spec fn host_at(s: Seq<u8>, i: int) -> bool {
    &&& 0 <= i && i + 4 <= s.len()
    &&& ascii_lower(s[i]) == 104
    &&& ascii_lower(s[i + 1]) == 111
    &&& ascii_lower(s[i + 2]) == 115
    &&& ascii_lower(s[i + 3]) == 116
}

/// The text mentions "host", ignoring case.
pub open spec fn mentions_host(s: Seq<char>) -> bool {
    exists|i: int| host_at(text_bytes(s), i)
}

fn lower(b: u8) -> (r: u8)
    ensures
        r == ascii_lower(b),
{
    if 65 <= b && b <= 90 {
        b + 32
    } else {
        b
    }
}

/// Whether the bytes mention "host", ignoring ASCII case.
fn bytes_mention_host(s: &[u8]) -> (r: bool)
    ensures
        r == exists|i: int| host_at(s@, i),
{
    if s.len() < 4 {
        return false;
    }
    let mut i: usize = 0;
    while i <= s.len() - 4
        invariant
            s@.len() >= 4,
            s@.len() == s.len(),
            i <= s@.len() - 3,
            forall|j: int| 0 <= j < i ==> !host_at(s@, j),
        decreases s@.len() - i,
    {
        if lower(s[i]) == 104 && lower(s[i + 1]) == 111 && lower(s[i + 2]) == 115 && lower(
            s[i + 3],
        ) == 116 {
            assert(host_at(s@, i as int));
            return true;
        }
        i = i + 1;
    }
    false
}

} // verus!
