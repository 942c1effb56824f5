//! Looking for updates and installing them: versions, addresses, and what runs when.

use vstd::prelude::*;

use crate::lang::picked;
use crate::lang::t;
use crate::text::after_last;
use crate::text::decimal;
use crate::text::number;
use crate::text::occurs;
use crate::text::stands_at;
use crate::text::stands_last_at;
use crate::text::trim_leading;
use crate::text::trim_trailing;
use crate::text::without_leading;
use crate::text::without_trailing;

verus! {

/// No more than this is downloaded.
pub const MAX_DOWNLOAD_BYTES: u64 = 67_108_864;

/// The argument with which the new version starts after an update.
pub fn restart_arg() -> (r: &'static str)
    ensures
        r@ == "--nach-update"@,
{
    "--nach-update"
}

/// A semantic version.
#[derive(Clone, Debug)]
pub struct Version {
    pub major: u64,
    pub minor: u64,
    pub patch: u64,
    pub pre: String,
    pub build: String,
}

impl View for Version {
    type V = (u64, u64, u64, Seq<char>, Seq<char>);

    open spec fn view(&self) -> (u64, u64, u64, Seq<char>, Seq<char>) {
        (self.major, self.minor, self.patch, self.pre@, self.build@)
    }
}

/// Which of two comes first.
#[derive(Clone, Copy, Debug, PartialEq, Eq, Structural)]
pub enum Order {
    Earlier,
    Same,
    Later,
}

/// What a text says as a semantic version: three numbers, pre-release, build; `None` where it
/// says none.
pub uninterp spec fn parsed(text: Seq<char>) -> Option<(u64, u64, u64, Seq<char>, Seq<char>)>;

/// `semver::Version::parse`. The grammar is that of semantic versioning; only that the result
/// depends on nothing but the text is used.
#[verifier::external_body]
fn parse(text: &str) -> (r: Option<Version>)
    ensures
        (match r {
            Some(v) => parsed(text@) == Some(v@),
            None => parsed(text@) is None,
        }),
{
    semver::Version::parse(text).ok().map(
        |v| Version {
            major: v.major,
            minor: v.minor,
            patch: v.patch,
            pre: v.pre.as_str().to_string(),
            build: v.build.as_str().to_string(),
        },
    )
}

/// How two pre-releases compare; `None` where one of the texts is none.
pub uninterp spec fn pre_order(a: Seq<char>, b: Seq<char>) -> Option<Order>;

/// `semver::Prerelease::cmp`. A version without a pre-release is later than one with it. How
/// two pre-releases compare is decided part by part; of that only is used that it depends on
/// nothing but the two texts.
#[verifier::external_body]
fn compare_pre(a: &str, b: &str) -> (r: Option<Order>)
    ensures
        r == pre_order(a@, b@),
        a@.len() == 0 && b@.len() == 0 ==> r == Some(Order::Same),
        a@.len() == 0 && b@.len() > 0 && r is Some ==> r == Some(Order::Later),
        a@.len() > 0 && b@.len() == 0 && r is Some ==> r == Some(Order::Earlier),
{
    let (a, b) = (semver::Prerelease::new(a).ok()?, semver::Prerelease::new(b).ok()?);
    Some(match a.cmp(&b) {
        std::cmp::Ordering::Less => Order::Earlier,
        std::cmp::Ordering::Equal => Order::Same,
        std::cmp::Ordering::Greater => Order::Later,
    })
}

/// How two builds compare; `None` where one of the texts is none.
pub uninterp spec fn build_order(a: Seq<char>, b: Seq<char>) -> Option<Order>;

/// `semver::BuildMetadata::cmp`: decided part by part; only is used that it depends on nothing
/// but the two texts, and that no build is the same as no build.
#[verifier::external_body]
fn compare_build(a: &str, b: &str) -> (r: Option<Order>)
    ensures
        r == build_order(a@, b@),
        a@.len() == 0 && b@.len() == 0 ==> r == Some(Order::Same),
{
    let (a, b) = (semver::BuildMetadata::new(a).ok()?, semver::BuildMetadata::new(b).ok()?);
    Some(match a.cmp(&b) {
        std::cmp::Ordering::Less => Order::Earlier,
        std::cmp::Ordering::Equal => Order::Same,
        std::cmp::Ordering::Greater => Order::Later,
    })
}

/// `a` is later than `b`: by the three numbers, then by the pre-release, then by the build.
pub open spec fn later(a: (u64, u64, u64, Seq<char>, Seq<char>), b: (u64, u64, u64, Seq<char>, Seq<char>), pre: Option<Order>, build: Option<Order>) -> bool {
    if a.0 != b.0 {
        a.0 > b.0
    } else if a.1 != b.1 {
        a.1 > b.1
    } else if a.2 != b.2 {
        a.2 > b.2
    } else if pre == Some(Order::Later) {
        true
    } else if pre == Some(Order::Earlier) {
        false
    } else {
        build == Some(Order::Later)
    }
}

/// Whether `a` is later than `b`, with how their pre-releases and builds compare.
pub fn is_later(a: &Version, b: &Version, pre: Option<Order>, build: Option<Order>) -> (r: bool)
    ensures
        r == later(a@, b@, pre, build),
{
    if a.major != b.major {
        return a.major > b.major;
    }
    if a.minor != b.minor {
        return a.minor > b.minor;
    }
    if a.patch != b.patch {
        return a.patch > b.patch;
    }
    match pre {
        Some(Order::Later) => true,
        Some(Order::Earlier) => false,
        _ => match build {
            Some(Order::Later) => true,
            _ => false,
        },
    }
}

/// Whether `a` is newer than `b`.
pub fn is_newer(a: &Version, b: &Version) -> (r: bool)
    ensures
        r == later(a@, b@, pre_order(a@.3, b@.3), build_order(a@.4, b@.4)),
        a@.3.len() == 0 && b@.3.len() == 0 && a@.4.len() == 0 && b@.4.len() == 0 ==> r == (a.major > b.major || (a.major
            == b.major && (a.minor > b.minor || (a.minor == b.minor && a.patch > b.patch)))),
{
    let pre = compare_pre(a.pre.as_str(), b.pre.as_str());
    let build = compare_build(a.build.as_str(), b.build.as_str());
    is_later(a, b, pre, build)
}

/// How it compares the other way round.
pub open spec fn opposite(order: Option<Order>) -> Option<Order> {
    match order {
        Some(Order::Earlier) => Some(Order::Later),
        Some(Order::Later) => Some(Order::Earlier),
        _ => order,
    }
}

/// Being later is an order: no version is later than itself, of two versions at most one is later,
/// and where their numbers differ one of them is. Of three versions that differ in their numbers
/// only, one that is later than another is later than all that the other is later than.
pub proof fn law_later_is_an_order(
    a: (u64, u64, u64, Seq<char>, Seq<char>),
    b: (u64, u64, u64, Seq<char>, Seq<char>),
    c: (u64, u64, u64, Seq<char>, Seq<char>),
    pre: Option<Order>,
    build: Option<Order>,
)
    ensures
        !later(a, a, Some(Order::Same), Some(Order::Same)),
        later(a, b, pre, build) ==> !later(b, a, opposite(pre), opposite(build)),
        (a.0, a.1, a.2) != (b.0, b.1, b.2) ==> later(a, b, pre, build) || later(b, a, opposite(pre), opposite(build)),
        later(a, b, Some(Order::Same), Some(Order::Same)) && later(b, c, Some(Order::Same), Some(Order::Same)) ==> later(
            a,
            c,
            Some(Order::Same),
            Some(Order::Same),
        ),
{
}

/// The text of a version.
pub open spec fn version_text(v: (u64, u64, u64, Seq<char>, Seq<char>)) -> Seq<char> {
    decimal(v.0 as nat) + "."@ + decimal(v.1 as nat) + "."@ + decimal(v.2 as nat) + (if v.3.len() > 0 {
        "-"@ + v.3
    } else {
        Seq::empty()
    }) + (if v.4.len() > 0 {
        "+"@ + v.4
    } else {
        Seq::empty()
    })
}

impl Version {
    /// The text of the version.
    pub fn text(&self) -> (s: String)
        ensures
            s@ == version_text(self@),
    {
        let mut s = number(self.major);
        s.append(".");
        s.append(number(self.minor).as_str());
        s.append(".");
        s.append(number(self.patch).as_str());
        let ghost numbers = s@;
        assert(numbers =~= decimal(self.major as nat) + "."@ + decimal(self.minor as nat) + "."@ + decimal(
            self.patch as nat,
        ));
        if !is_empty(self.pre.as_str()) {
            s.append("-");
            s.append(self.pre.as_str());
        }
        if !is_empty(self.build.as_str()) {
            s.append("+");
            s.append(self.build.as_str());
        }
        assert(s@ =~= version_text(self@));
        s
    }

    pub fn copy(&self) -> (v: Version)
        ensures
            v@ == self@,
    {
        Version {
            major: self.major,
            minor: self.minor,
            patch: self.patch,
            pre: self.pre.as_str().to_string(),
            build: self.build.as_str().to_string(),
        }
    }
}

fn is_empty(text: &str) -> (r: bool)
    ensures
        r == (text@.len() == 0),
{
    let chars = crate::text::chars_of(text);
    chars.len() == 0
}

/// A release that can be had.
#[derive(Clone, Debug)]
pub struct Release {
    pub version: Version,
    pub page_url: String,
    pub setup_url: String,
}

impl Release {
    /// Installing works only under Windows; elsewhere there is only the link.
    pub fn installable(&self, windows: bool) -> (r: bool)
        ensures
            r == windows,
    {
        windows
    }

    pub fn copy(&self) -> (r: Release)
        ensures
            r.same(*self),
    {
        Release {
            version: self.version.copy(),
            page_url: self.page_url.as_str().to_string(),
            setup_url: self.setup_url.as_str().to_string(),
        }
    }

    /// The same release.
    pub open spec fn same(self, other: Release) -> bool {
        self.version@ == other.version@ && self.page_url@ == other.page_url@ && self.setup_url@ == other.setup_url@
    }

    /// What the file of the installer is called.
    pub fn setup_name(&self) -> (s: String)
        ensures
            s@ == "Laermampel-Setup-"@ + version_text(self.version@) + ".exe"@,
    {
        let mut s = String::new();
        s.append("Laermampel-Setup-");
        s.append(self.version.text().as_str());
        s.append(".exe");
        assert(s@ =~= "Laermampel-Setup-"@ + version_text(self.version@) + ".exe"@);
        s
    }
}

/// The page that leads to the newest release. The time goes along so that no page from a cache
/// comes back.
pub fn latest_url(stamp: u64) -> (s: String)
    ensures
        s@ == "https://github.com/LucyWolf/laermampel/releases/latest?t="@ + decimal(stamp as nat),
{
    let mut s = String::new();
    s.append("https://github.com/LucyWolf/laermampel/releases/latest?t=");
    s.append(number(stamp).as_str());
    assert(s@ =~= "https://github.com/LucyWolf/laermampel/releases/latest?t="@ + decimal(stamp as nat));
    s
}

/// Where the installer of a version lies.
pub open spec fn setup_address(tag: Seq<char>, version: Seq<char>) -> Seq<char> {
    "https://github.com/LucyWolf/laermampel/releases/download/"@ + tag + "/Laermampel-Setup-"@ + version + ".exe"@
}

/// `tag` is what the address of a release page says behind its last `/tag/`, without slashes at
/// the end.
pub open spec fn is_tag(page_url: Seq<char>, tag: Seq<char>) -> bool {
    exists|at: int| #[trigger]
        stands_last_at(page_url, "/tag/"@, at) && tag == without_trailing(
            page_url.subrange(at + "/tag/"@.len(), page_url.len() as int),
            '/',
        )
}

/// The tag in the address of a release page.
pub fn tag_of(page_url: &str) -> (r: Option<String>)
    ensures
        r is None <==> !occurs(page_url@, "/tag/"@),
        r matches Some(tag) ==> is_tag(page_url@, tag@),
{
    match after_last(page_url, "/tag/") {
        Some(rest) => Some(trim_trailing(rest.as_str(), '/')),
        None => None,
    }
}

/// There is one tag in an address only.
pub proof fn law_tag_is_unique(page_url: Seq<char>, a: Seq<char>, b: Seq<char>)
    requires
        is_tag(page_url, a),
        is_tag(page_url, b),
    ensures
        a == b,
{
    let i = choose|at: int| #[trigger]
        stands_last_at(page_url, "/tag/"@, at) && a == without_trailing(
            page_url.subrange(at + "/tag/"@.len(), page_url.len() as int),
            '/',
        );
    let j = choose|at: int| #[trigger]
        stands_last_at(page_url, "/tag/"@, at) && b == without_trailing(
            page_url.subrange(at + "/tag/"@.len(), page_url.len() as int),
            '/',
        );
    assert(i <= j && j <= i);
}

/// The release that a page with this tag stands for, with what the tag says as a version.
pub fn release_with(page_url: &str, tag: &str, version: Option<Version>, code: u8) -> (r: Result<Release, String>)
    ensures
        (match (version, r) {
            (Some(v), Ok(release)) => release.version == v && release.page_url@ == page_url@ && release.setup_url@
                == setup_address(tag@, version_text(v@)),
            (None, Err(e)) => e@ == picked(code, "Unbekanntes Versionsformat"@, "Unknown version format"@) + ": "@ + tag@,
            _ => false,
        }),
{
    match version {
        Some(v) => {
            let mut url = String::new();
            url.append("https://github.com/LucyWolf/laermampel/releases/download/");
            url.append(tag);
            url.append("/Laermampel-Setup-");
            url.append(v.text().as_str());
            url.append(".exe");
            assert(url@ =~= setup_address(tag@, version_text(v@)));
            Ok(Release { version: v, page_url: page_url.to_string(), setup_url: url })
        },
        None => {
            let mut e = String::new();
            e.append(t(code, "Unbekanntes Versionsformat", "Unknown version format"));
            e.append(": ");
            e.append(tag);
            assert(e@ =~= picked(code, "Unbekanntes Versionsformat"@, "Unknown version format"@) + ": "@ + tag@);
            Err(e)
        },
    }
}

/// The release that the newest release page stands for. Its address ends in the tag, and the
/// tag is the version with a `v` before it.
pub fn release_of(page_url: &str, code: u8) -> (r: Result<Release, String>)
    ensures
        !occurs(page_url@, "/tag/"@) ==> (r matches Err(e) && e@ == picked(
            code,
            "Noch kein Release gefunden"@,
            "No release found yet"@,
        )),
        occurs(page_url@, "/tag/"@) ==> exists|tag: Seq<char>| #[trigger]
            is_tag(page_url@, tag) && (match (parsed(without_leading(tag, 'v')), r) {
                (Some(v), Ok(release)) => release.version@ == v && release.page_url@ == page_url@ && release.setup_url@
                    == setup_address(tag, version_text(v)),
                (None, Err(e)) => e@ == picked(code, "Unbekanntes Versionsformat"@, "Unknown version format"@) + ": "@
                    + tag,
                _ => false,
            }),
{
    match tag_of(page_url) {
        Some(tag) => {
            let version = parse(trim_leading(tag.as_str(), 'v').as_str());
            assert(is_tag(page_url@, tag@));
            release_with(page_url, tag.as_str(), version, code)
        },
        None => Err(t(code, "Noch kein Release gefunden", "No release found yet").to_string()),
    }
}

/// The version that a text says.
pub fn version_of(text: &str) -> (r: Option<Version>)
    ensures
        (match r {
            Some(v) => parsed(text@) == Some(v@),
            None => parsed(text@) is None,
        }),
{
    parse(text)
}

/// What is said of a failed request: by its status where it has one, else by its own words.
pub open spec fn http_error(status: Option<u16>, words: Seq<char>, code: u8) -> Seq<char> {
    if status == Some(403u16) || status == Some(429u16) {
        picked(
            code,
            "GitHub lehnt gerade zu viele Anfragen ab, später nochmal versuchen"@,
            "GitHub is refusing requests right now, try again later"@,
        )
    } else if status == Some(404u16) {
        picked(code, "Datei bei GitHub nicht gefunden"@, "File not found on GitHub"@)
    } else {
        words
    }
}

/// What is said of a failed request.
pub fn describe_http_error(status: Option<u16>, words: &str, code: u8) -> (s: String)
    ensures
        s@ == http_error(status, words@, code),
{
    match status {
        Some(403) | Some(429) => t(
            code,
            "GitHub lehnt gerade zu viele Anfragen ab, später nochmal versuchen",
            "GitHub is refusing requests right now, try again later",
        ).to_string(),
        Some(404) => t(code, "Datei bei GitHub nicht gefunden", "File not found on GitHub").to_string(),
        _ => words.to_string(),
    }
}

/// A Windows program begins with these two bytes; an error page does not.
pub open spec fn is_program(bytes: Seq<u8>) -> bool {
    bytes.len() >= 2 && bytes[0] == 0x4d && bytes[1] == 0x5a
}

/// Whether what was downloaded can be an installer.
pub fn admit_setup(bytes: &Vec<u8>, code: u8) -> (r: Result<(), String>)
    ensures
        r is Ok <==> is_program(bytes@),
        r matches Err(e) ==> e@ == picked(
            code,
            "Heruntergeladene Datei ist kein gültiger Installer"@,
            "Downloaded file is not a valid installer"@,
        ),
{
    if bytes.len() >= 2 && bytes[0] == 0x4d && bytes[1] == 0x5a {
        Ok(())
    } else {
        Err(
            t(
                code,
                "Heruntergeladene Datei ist kein gültiger Installer",
                "Downloaded file is not a valid installer",
            ).to_string(),
        )
    }
}

/// Where the search for updates stands.
#[derive(Clone, Debug)]
pub enum Status {
    Idle,
    Checking,
    UpToDate,
    Available(Release),
    Installing(Release),
    /// The installer runs; this program is about to end.
    Installed(Release),
    Failed(String),
}

/// The search for updates. A job runs beside it and hands in what came of it.
pub struct Updater {
    pub status: Status,
}

impl Updater {
    pub fn new() -> (u: Updater)
        ensures
            u.status == Status::Idle,
    {
        Updater { status: Status::Idle }
    }

    pub fn status(&self) -> (r: &Status)
        ensures
            *r == self.status,
    {
        &self.status
    }

    /// A job is running.
    pub open spec fn busy(self) -> bool {
        self.status is Checking || self.status is Installing
    }

    pub fn is_busy(&self) -> (r: bool)
        ensures
            r == self.busy(),
    {
        match &self.status {
            Status::Checking | Status::Installing(_) => true,
            _ => false,
        }
    }

    /// A search is wanted. Says whether it starts: not while a job is running.
    pub fn check(&mut self) -> (start: bool)
        ensures
            start == !old(self).busy(),
            start ==> final(self).status == Status::Checking,
            !start ==> *final(self) == *old(self),
    {
        if self.is_busy() {
            return false;
        }
        self.status = Status::Checking;
        true
    }

    /// What came of a search: a newer release than `current` is on offer.
    pub fn checked(&mut self, found: Result<Release, String>, current: &Version, code: u8)
        ensures
            (match (found, final(self).status) {
                (Ok(release), Status::Available(offered)) => offered == release && later(
                    release.version@,
                    current@,
                    pre_order(release.version@.3, current@.3),
                    build_order(release.version@.4, current@.4),
                ),
                (Ok(release), Status::UpToDate) => !later(
                    release.version@,
                    current@,
                    pre_order(release.version@.3, current@.3),
                    build_order(release.version@.4, current@.4),
                ),
                (Err(e), Status::Failed(words)) => words@ == picked(
                    code,
                    "Update-Prüfung fehlgeschlagen"@,
                    "Update check failed"@,
                ) + ": "@ + e@,
                _ => false,
            }),
    {
        self.status = match found {
            Ok(release) => {
                if is_newer(&release.version, current) {
                    Status::Available(release)
                } else {
                    Status::UpToDate
                }
            },
            Err(e) => {
                let mut words = String::new();
                words.append(t(code, "Update-Prüfung fehlgeschlagen", "Update check failed"));
                words.append(": ");
                words.append(e.as_str());
                assert(words@ =~= picked(code, "Update-Prüfung fehlgeschlagen"@, "Update check failed"@) + ": "@ + e@);
                Status::Failed(words)
            },
        };
    }

    /// An installation is wanted. Says whether it starts: not while a job is running.
    pub fn install(&mut self, release: Release) -> (start: bool)
        ensures
            start == !old(self).busy(),
            start ==> final(self).status == Status::Installing(release),
            !start ==> *final(self) == *old(self),
    {
        if self.is_busy() {
            return false;
        }
        self.status = Status::Installing(release);
        true
    }

    /// What came of an installation.
    pub fn installed(&mut self, release: Release, outcome: Result<(), String>, code: u8)
        ensures
            (match (outcome, final(self).status) {
                (Ok(_), Status::Installed(done)) => done == release,
                (Err(e), Status::Failed(words)) => words@ == picked(code, "Update fehlgeschlagen"@, "Update failed"@)
                    + ": "@ + e@,
                _ => false,
            }),
    {
        self.status = match outcome {
            Ok(_) => Status::Installed(release),
            Err(e) => {
                let mut words = String::new();
                words.append(t(code, "Update fehlgeschlagen", "Update failed"));
                words.append(": ");
                words.append(e.as_str());
                assert(words@ =~= picked(code, "Update fehlgeschlagen"@, "Update failed"@) + ": "@ + e@);
                Status::Failed(words)
            },
        };
    }
}

/// The first of the three numbers that differs decides which version is newer; without any addition
/// equal numbers are not newer.
pub proof fn law_first_different_number_decides(a: &Version, b: &Version, r: bool)
    requires
        call_ensures(is_newer, (a, b), r),
    ensures
        a.major > b.major ==> r,
        a.major < b.major ==> !r,
        a.major == b.major && a.minor > b.minor ==> r,
        a.major == b.major && a.minor < b.minor ==> !r,
        a.major == b.major && a.minor == b.minor && a.patch > b.patch ==> r,
        a.major == b.major && a.minor == b.minor && a.patch < b.patch ==> !r,
        a.major == b.major && a.minor == b.minor && a.patch == b.patch && a.pre@.len() == 0 && b.pre@.len() == 0
            && a.build@.len() == 0 && b.build@.len() == 0 ==> !r,
{
}

/// A release is offered exactly where it is newer than what runs; that a search failed is said, and
/// nothing is offered then.
pub proof fn law_only_newer_releases_are_offered(
    u: &mut Updater,
    found: Result<Release, String>,
    current: &Version,
    code: u8,
    version: &Version,
    newer: bool,
)
    requires
        call_ensures(Updater::checked, (u, found, current, code), ()),
        call_ensures(is_newer, (version, current), newer),
        found matches Ok(release) ==> release.version@ == version@,
    ensures
        found is Err ==> final(u).status is Failed,
        found is Ok && newer ==> (final(u).status matches Status::Available(offered) && offered == found->Ok_0),
        found is Ok && !newer ==> final(u).status is UpToDate,
{
}

/// There is one job at a time: while one is running neither a search nor an installation starts, and
/// nothing changes; else it starts.
pub proof fn law_one_job_at_a_time(u: &mut Updater, search: bool, v: &mut Updater, release: Release, install: bool)
    requires
        call_ensures(Updater::check, (u,), search),
        call_ensures(Updater::install, (v, release), install),
    ensures
        old(u).status is Checking || old(u).status is Installing ==> !search && *final(u) == *old(u),
        !(old(u).status is Checking || old(u).status is Installing) ==> search && final(u).status is Checking,
        old(v).status is Checking || old(v).status is Installing ==> !install && *final(v) == *old(v),
        !(old(v).status is Checking || old(v).status is Installing) ==> install && final(v).status == Status::Installing(
            release,
        ),
{
}

/// What was downloaded is run only if it begins like a Windows program.
pub proof fn law_only_programs_are_run(bytes: &Vec<u8>, code: u8, r: Result<(), String>)
    requires
        call_ensures(admit_setup, (bytes, code), r),
    ensures
        bytes@.len() < 2 ==> r is Err,
        bytes@.len() >= 2 ==> (r is Ok <==> bytes@[0] == 77 && bytes@[1] == 90),
{
}

/// A failed installation is said, and one that went well ends in the new release.
pub proof fn law_what_comes_of_an_installation(u: &mut Updater, release: Release, outcome: Result<(), String>, code: u8)
    requires
        call_ensures(Updater::installed, (u, release, outcome, code), ()),
    ensures
        outcome is Ok <==> final(u).status == Status::Installed(release),
        outcome is Err <==> final(u).status is Failed,
{
}

/// The tag of a release is what stands behind `/tag/` in its address.
pub proof fn law_tag_stands_behind_tag(page_url: &str, before: Seq<char>, tag: Seq<char>, r: Option<String>)
    requires
        call_ensures(tag_of, (page_url,), r),
        page_url@ == before + "/tag/"@ + tag,
        tag.len() > 0,
        forall|i: int| 0 <= i < tag.len() ==> #[trigger] tag[i] != '/',
    ensures
        r matches Some(found) && found@ == tag,
{
    let mark = "/tag/"@;
    reveal_strlit("/tag/");
    let at = before.len() as int;
    let url = page_url@;
    assert(url.subrange(at, at + mark.len()) =~= mark);
    assert(stands_at(url, mark, at));
    assert(occurs(url, mark));
    let found = r->0@;
    let last = choose|n: int| #[trigger]
        stands_last_at(url, mark, n) && found == without_trailing(url.subrange(n + mark.len(), url.len() as int), '/');
    assert(at <= last);
    if last > at {
        assert(url.subrange(last, last + mark.len())[4] == mark[4]);
        assert(url[last + 4] == '/');
        assert(url.subrange(last, last + mark.len())[0] == mark[0]);
        assert(url[last] == '/');
        if last + 4 >= at + 5 {
            assert(url[last + 4] == tag[last + 4 - at - 5]);
            assert(false);
        }
    }
    assert(url.subrange(at + mark.len(), url.len() as int) =~= tag);
    assert(tag[tag.len() - 1] != '/');
}

/// The installer lies where its tag and its version say, and a page whose tag is no version is none.
pub proof fn law_where_the_installer_lies(
    page_url: &str,
    tag: &str,
    version: Option<Version>,
    code: u8,
    r: Result<Release, String>,
    text: String,
    v: Version,
)
    requires
        call_ensures(release_with, (page_url, tag, version, code), r),
        call_ensures(Version::text, (&v,), text),
        version matches Some(w) ==> w == v,
    ensures
        version is Some <==> r is Ok,
        r matches Ok(release) ==> release.version == v && release.page_url@ == page_url@ && release.setup_url@
            == "https://github.com/LucyWolf/laermampel/releases/download/"@ + tag@ + "/Laermampel-Setup-"@ + text@ + ".exe"@,
{
}

/// A version is written as its three numbers with dots between them, and what is added behind them.
pub proof fn law_version_is_written_in_order(v: &Version, s: String, major: String, minor: String, patch: String)
    requires
        call_ensures(Version::text, (v,), s),
        call_ensures(number, (v.major,), major),
        call_ensures(number, (v.minor,), minor),
        call_ensures(number, (v.patch,), patch),
    ensures
        (major@ + "."@ + minor@ + "."@ + patch@).is_prefix_of(s@),
        v.pre@.len() == 0 && v.build@.len() == 0 ==> s@ == major@ + "."@ + minor@ + "."@ + patch@,
        v.pre@.len() > 0 && v.build@.len() == 0 ==> s@ == major@ + "."@ + minor@ + "."@ + patch@ + "-"@ + v.pre@,
        v.pre@.len() == 0 && v.build@.len() > 0 ==> s@ == major@ + "."@ + minor@ + "."@ + patch@ + "+"@ + v.build@,
{
    let numbers = major@ + "."@ + minor@ + "."@ + patch@;
    assert(numbers =~= s@.subrange(0, numbers.len() as int));
    assert(v.pre@.len() == 0 && v.build@.len() == 0 ==> s@ =~= numbers);
    assert(v.pre@.len() > 0 && v.build@.len() == 0 ==> s@ =~= numbers + "-"@ + v.pre@);
    assert(v.pre@.len() == 0 && v.build@.len() > 0 ==> s@ =~= numbers + "+"@ + v.build@);
}

/// That there were too many requests and that a file is not there are said; any other failure in its
/// own words.
pub proof fn law_what_is_said_of_a_failed_request(status: Option<u16>, words: &str, code: u8, s: String)
    requires
        call_ensures(describe_http_error, (status, words, code), s),
    ensures
        status is None ==> s@ == words@,
        status matches Some(n) ==> (n != 403 && n != 404 && n != 429 ==> s@ == words@),
        status == Some(404u16) && code == 1 ==> s@ == "File not found on GitHub"@,
        (status == Some(403u16) || status == Some(429u16)) && code == 1 ==> s@
            == "GitHub is refusing requests right now, try again later"@,
{
}

/// No more than 64 MiB are downloaded.
pub proof fn law_download_is_limited()
    ensures
        MAX_DOWNLOAD_BYTES == 64 * 1024 * 1024,
{
}

/// A release page leads to the version that its tag says behind the `v`.
pub proof fn law_page_leads_to_its_version(
    page_url: &str,
    before: Seq<char>,
    text: &str,
    version: Option<Version>,
    code: u8,
    r: Result<Release, String>,
)
    requires
        call_ensures(release_of, (page_url, code), r),
        call_ensures(version_of, (text,), version),
        page_url@ == before + "/tag/"@ + ("v"@ + text@),
        text@.len() > 0,
        text@[0] != 'v',
        forall|i: int| 0 <= i < text@.len() ==> #[trigger] text@[i] != '/',
    ensures
        r is Ok <==> version is Some,
        r matches Ok(release) ==> release.version@ == version->0@ && release.page_url@ == page_url@,
{
    let mark = "/tag/"@;
    reveal_strlit("/tag/");
    reveal_strlit("v");
    let tag = "v"@ + text@;
    let url = page_url@;
    let at = before.len() as int;
    assert forall|i: int| 0 <= i < tag.len() implies #[trigger] tag[i] != '/' by {
        if i > 0 {
            assert(tag[i] == text@[i - 1]);
        }
    }
    assert(url.subrange(at, at + mark.len()) =~= mark);
    assert(stands_at(url, mark, at));
    assert forall|n: int| stands_at(url, mark, n) implies n <= at by {
        if n > at {
            assert(url.subrange(n, n + mark.len())[4] == mark[4]);
            assert(url.subrange(n, n + mark.len())[0] == mark[0]);
            assert(url[n + 4] == '/' && url[n] == '/');
            assert(url[n + 4] == tag[n + 4 - at - 5]);
        }
    }
    assert(stands_last_at(url, mark, at));
    assert(url.subrange(at + mark.len(), url.len() as int) =~= tag);
    assert(tag[tag.len() - 1] != '/');
    assert(without_trailing(tag, '/') == tag);
    assert(is_tag(url, tag));
    assert(tag.drop_first() =~= text@);
    assert(without_leading(tag, 'v') == without_leading(text@, 'v'));
    assert(without_leading(text@, 'v') == text@);
    assert(occurs(url, mark));
    assert(exists|t: Seq<char>| #[trigger]
        is_tag(url, t) && (match (parsed(without_leading(t, 'v')), r) {
            (Some(v), Ok(release)) => release.version@ == v && release.page_url@ == url && release.setup_url@
                == setup_address(t, version_text(v)),
            (None, Err(e)) => e@ == picked(code, "Unbekanntes Versionsformat"@, "Unknown version format"@) + ": "@ + t,
            _ => false,
        }));
    let t = choose|t: Seq<char>| #[trigger]
        is_tag(url, t) && (match (parsed(without_leading(t, 'v')), r) {
            (Some(v), Ok(release)) => release.version@ == v && release.page_url@ == url && release.setup_url@
                == setup_address(t, version_text(v)),
            (None, Err(e)) => e@ == picked(code, "Unbekanntes Versionsformat"@, "Unknown version format"@) + ": "@ + t,
            _ => false,
        });
    law_tag_is_unique(url, t, tag);
}

} // verus!
