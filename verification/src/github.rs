//! Releases of the application on GitHub: which asset of a release is the
//! build for this system, where it is fetched from, and how a download is
//! followed until it is whole.
pub mod self_updater;

use vstd::prelude::*;
use crate::text::{owned, push_str, push_decimal, decimal, replace, replace_all, has_prefix, has_suffix,
    starts_with, ends_with};

verus! {

/// A release as the GitHub API describes it.
pub struct GithubRelease {
    pub url: String,
    pub html_url: String,
    pub name: String,
    pub created_at: String,
    pub body: String,
    pub tag_name: String,
    pub assets: Vec<Asset>,
}

/// A file attached to a release.
pub struct Asset {
    pub name: String,
    pub url: String,
    pub browser_download_url: String,
    pub size: u64,
    pub created_at: String,
}

/// The releases of the repository, through the proxy.
pub const GIT_MASTER_TECH_REPO_BASE: &'static str = "https://git.master-tech.app/repos/shadowbrok3r/MastertechProject";

/// The address an asset is fetched from: the API host swapped for the proxy
/// in front of it.
pub open spec fn proxied(url: Seq<char>) -> Seq<char> {
    replace_all(url, "api.github.com"@, "git.master-tech.app"@)
}

/// The address an asset is fetched from, through the proxy.
pub fn proxied_github_asset_url(asset_api_url: &str) -> (s: String)
    ensures
        s@ == proxied(asset_api_url@),
{
    proof {
        reveal_strlit("api.github.com");
    }
    replace(asset_api_url, "api.github.com", "git.master-tech.app")
}

/// `c` in lower case when it is an ASCII letter.
pub open spec fn ascii_lower(c: char) -> char {
    if 'A' <= c && c <= 'Z' { ((c as u32) + 32) as char } else { c }
}

/// `s` with its ASCII letters in lower case, as `str::to_ascii_lowercase` gives it.
pub open spec fn ascii_lowercase(s: Seq<char>) -> Seq<char> {
    s.map_values(|c: char| ascii_lower(c))
}

/// `s` with its ASCII letters in lower case.
pub fn to_ascii_lowercase(s: &str) -> (r: String)
    ensures
        r@ == ascii_lowercase(s@),
{
    let v = crate::text::chars_of(s);
    let mut r = String::new();
    let mut i: usize = 0;
    while i < v.len()
        invariant
            v@ == s@,
            i <= v@.len(),
            r@ == ascii_lowercase(s@.subrange(0, i as int)),
        decreases v@.len() - i,
    {
        let c = v[i];
        let l = if 'A' <= c && c <= 'Z' {
            let code: u32 = c as u32 + 32;
            proof {
                assert(ascii_lower(c) == code as char);
            }
            crate::github::char_from_ascii(code)
        } else {
            c
        };
        crate::text::push_char(&mut r, l);
        i = i + 1;
        proof {
            assert(r@ =~= ascii_lowercase(s@.subrange(0, i as int)));
        }
    }
    proof {
        assert(s@.subrange(0, i as int) =~= s@);
    }
    r
}

/// The letter for an ASCII code of a lower-case letter.
fn char_from_ascii(code: u32) -> (c: char)
    requires
        97 <= code <= 122,
    ensures
        c == code as char,
{
    if code == 97 { 'a' } else if code == 98 { 'b' } else if code == 99 { 'c' } else if code == 100 { 'd' }
    else if code == 101 { 'e' } else if code == 102 { 'f' } else if code == 103 { 'g' } else if code == 104 { 'h' }
    else if code == 105 { 'i' } else if code == 106 { 'j' } else if code == 107 { 'k' } else if code == 108 { 'l' }
    else if code == 109 { 'm' } else if code == 110 { 'n' } else if code == 111 { 'o' } else if code == 112 { 'p' }
    else if code == 113 { 'q' } else if code == 114 { 'r' } else if code == 115 { 's' } else if code == 116 { 't' }
    else if code == 117 { 'u' } else if code == 118 { 'v' } else if code == 119 { 'w' } else if code == 120 { 'x' }
    else if code == 121 { 'y' } else { 'z' }
}

/// Whether an asset named `name` is the build for this system: its name, in
/// lower case, starts with the program's name, and ends in `.exe` exactly
/// when the system wants an executable of that kind.
pub open spec fn is_build_for(name: Seq<char>, bin_prefix: Seq<char>, want_exe: bool) -> bool {
    has_prefix(ascii_lowercase(name), bin_prefix) && (has_suffix(ascii_lowercase(name), ".exe"@) == want_exe)
}

/// Whether the asset named `name` is the build for this system.
pub fn matches_build(name: &str, bin_prefix: &str, want_exe: bool) -> (b: bool)
    ensures
        b == is_build_for(name@, bin_prefix@, want_exe),
{
    let lower = to_ascii_lowercase(name);
    starts_with(lower.as_str(), bin_prefix) && (ends_with(lower.as_str(), ".exe") == want_exe)
}

/// The first asset of `assets` that is the build for this system.
pub fn pick_asset(assets: &Vec<Asset>, bin_prefix: &str, want_exe: bool) -> (r: Option<usize>)
    ensures
        match r {
            Some(i) => i < assets@.len() && is_build_for(assets@[i as int].name@, bin_prefix@, want_exe)
                && forall|k: int| 0 <= k < i ==> !is_build_for(#[trigger] assets@[k].name@, bin_prefix@, want_exe),
            None => forall|k: int| 0 <= k < assets@.len() ==> !is_build_for(#[trigger] assets@[k].name@, bin_prefix@, want_exe),
        },
{
    let mut i: usize = 0;
    while i < assets.len()
        invariant
            i <= assets@.len(),
            forall|k: int| 0 <= k < i ==> !is_build_for(#[trigger] assets@[k].name@, bin_prefix@, want_exe),
        decreases assets@.len() - i,
    {
        if matches_build(assets[i].name.as_str(), bin_prefix, want_exe) {
            return Some(i);
        }
        i = i + 1;
    }
    None
}

/// The date column of the releases table, for a release whose creation
/// time is an RFC 3339 date-time.
pub fn format_date(date_str: &str) -> (s: String)
    requires
        crate::dates::us_date_of_rfc3339(date_str@) is Some,
    ensures
        s@ == crate::dates::us_date_of_rfc3339(date_str@).unwrap(),
{
    match crate::dates::rfc3339_as_us_date(date_str) {
        Some(d) => d,
        None => String::new(),
    }
}

/// The date column of the releases table, when the release's creation time
/// is an RFC 3339 date-time; nothing otherwise.
pub fn release_date(date_str: &str) -> (r: Option<String>)
    ensures
        match r { Some(d) => Some(d@), None => None } == crate::dates::us_date_of_rfc3339(date_str@),
{
    match crate::dates::rfc3339_as_us_date(date_str) {
        Some(_) => Some(format_date(date_str)),
        None => None,
    }
}

/// A download followed chunk by chunk.
pub struct DownloadProgress {
    /// Bytes received so far.
    pub downloaded: u64,
    /// Bytes announced; zero when unknown.
    pub total: u64,
}

impl DownloadProgress {
    /// A download of `total` announced bytes, none received yet.
    pub fn new(total: u64) -> (p: DownloadProgress)
        ensures
            p.downloaded == 0,
            p.total == total,
    {
        DownloadProgress { downloaded: 0, total }
    }

    /// A chunk of `len` bytes arrived; returns the progress to report, which
    /// is none when the download just reached its total (completion is
    /// reported once the file is checked).
    pub fn on_chunk(&mut self, len: u64) -> (report: Option<(u64, u64)>)
        requires
            old(self).downloaded + len <= u64::MAX,
        ensures
            final(self).downloaded == old(self).downloaded + len,
            final(self).total == old(self).total,
            report == if final(self).downloaded != final(self).total {
                Some((final(self).downloaded, final(self).total))
            } else {
                None
            },
    {
        self.downloaded = self.downloaded + len;
        if self.downloaded != self.total { Some((self.downloaded, self.total)) } else { None }
    }

    /// Whether the download got exactly the bytes it announced.
    pub fn is_complete(&self) -> (b: bool)
        ensures
            b == (self.downloaded == self.total),
    {
        self.downloaded == self.total
    }

    /// The end of an update download: the completion to report, with equal
    /// fields so that the receiver installs the update (an unknown total
    /// takes what arrived), or the error when fewer or more bytes arrived
    /// than announced.
    pub fn finish(&self) -> (r: Result<(u64, u64), String>)
        ensures
            match r {
                Ok(done) => (self.total == 0 || self.downloaded == self.total)
                    && done == (self.downloaded, if self.total > 0 { self.total } else { self.downloaded }),
                Err(e) => self.total > 0 && self.downloaded != self.total
                    && e@ == "update download incomplete: "@ + decimal(self.downloaded as nat) + "/"@
                        + decimal(self.total as nat) + " bytes"@,
            },
    {
        if self.total > 0 && self.downloaded != self.total {
            let mut e = owned("update download incomplete: ");
            push_decimal(&mut e, self.downloaded);
            push_str(&mut e, "/");
            push_decimal(&mut e, self.total);
            push_str(&mut e, " bytes");
            return Err(e);
        }
        Ok((self.downloaded, if self.total > 0 { self.total } else { self.downloaded }))
    }
}

/// Whether the issue form may be sent: it needs a title and a description.
pub fn can_submit_issue(title: &str, description: &str) -> (b: bool)
    ensures
        b == (title@.len() > 0 && description@.len() > 0),
{
    title.unicode_len() > 0 && description.unicode_len() > 0
}

/// The build picked for a system that wants an executable ends in `.exe`,
/// and the one picked for a system that does not never does; either way
/// its name, in lower case, starts with the program's name.
pub proof fn lemma_build_kind_matches_system(name: Seq<char>, bin_prefix: Seq<char>)
    ensures
        is_build_for(name, bin_prefix, true) ==> has_suffix(ascii_lowercase(name), ".exe"@),
        is_build_for(name, bin_prefix, false) ==> !has_suffix(ascii_lowercase(name), ".exe"@),
        is_build_for(name, bin_prefix, true) || is_build_for(name, bin_prefix, false)
            ==> has_prefix(ascii_lowercase(name), bin_prefix),
        !(is_build_for(name, bin_prefix, true) && is_build_for(name, bin_prefix, false)),
{
}

} // verus!
