//! Addons: libraries of Lua definitions that live in git repositories, and the
//! sources by which they are named.

use vstd::prelude::*;
use crate::error::Error;
use crate::text::{
    concat, has_prefix, is_trim_of, push_char, split_at_first, split_once_char, starts_with,
    strip_prefix, text_eq, to_string, trim,
};
use url::ParseError as UrlParseError;

verus! {

/// An addon: the repository `repo` of the user or organisation `host` on `domain`,
/// checked out at `version` (a branch or tag) and last seen at commit `hash`.
#[derive(Default, Debug, Clone, PartialEq)]
pub struct Addon {
    pub domain: String,
    pub host: String,
    pub repo: String,
    pub version: Option<String>,
    pub hash: Option<String>,
}

/// The characters of an optional string.
pub open spec fn opt_view(o: Option<String>) -> Option<Seq<char>> {
    match o {
        Some(s) => Some(s@),
        None => None,
    }
}

/// An addon with its texts as characters.
pub struct AddonView {
    pub domain: Seq<char>,
    pub host: Seq<char>,
    pub repo: Seq<char>,
    pub version: Option<Seq<char>>,
    pub hash: Option<Seq<char>>,
}

impl View for Addon {
    type V = AddonView;

    open spec fn view(&self) -> AddonView {
        AddonView {
            domain: self.domain@,
            host: self.host@,
            repo: self.repo@,
            version: opt_view(self.version),
            hash: opt_view(self.hash),
        }
    }
}

/// A copy of an optional string.
fn copy_opt(o: &Option<String>) -> (r: Option<String>)
    ensures
        opt_view(r) == opt_view(*o),
{
    match o {
        Some(s) => Some(s.clone()),
        None => None,
    }
}

/// The parts of a parsed URL that name an addon: its host, its path segments (absent
/// for a URL that cannot be a base) and its fragment.
pub struct UrlParts {
    pub host: Option<String>,
    pub segments: Option<Vec<String>>,
    pub fragment: Option<String>,
}

/// The parts of a parsed URL, as characters.
pub struct UrlPartsView {
    pub host: Option<Seq<char>>,
    pub segments: Option<Seq<Seq<char>>>,
    pub fragment: Option<Seq<char>>,
}

impl View for UrlParts {
    type V = UrlPartsView;

    open spec fn view(&self) -> UrlPartsView {
        UrlPartsView {
            host: opt_view(self.host),
            segments: match self.segments {
                Some(v) => Some(v@.map_values(|s: String| s@)),
                None => None,
            },
            fragment: opt_view(self.fragment),
        }
    }
}

/// The address `https://github.com/{host}/{repo}`, followed by `#{version}` when there
/// is a version.
pub open spec fn github_address(host: Seq<char>, repo: Seq<char>, version: Option<Seq<char>>) -> Seq<char> {
    "https://github.com/"@ + host + seq!['/'] + repo + match version {
        Some(v) => seq!['#'] + v,
        None => Seq::<char>::empty(),
    }
}

/// `c` is an ASCII letter or digit, `_` or `-`.
pub open spec fn is_name_char(c: char) -> bool {
    ||| ('A' <= c && c <= 'Z')
    ||| ('a' <= c && c <= 'z')
    ||| ('0' <= c && c <= '9')
    ||| c == '_'
    ||| c == '-'
}

/// `s` is a non-empty name of ASCII letters, digits, `_` and `-`.
pub open spec fn is_plain_name(s: Seq<char>) -> bool {
    s.len() > 0 && forall|i: int| 0 <= i < s.len() ==> is_name_char(#[trigger] s[i])
}

/// `v` is no version, or a non-empty one of ASCII letters, digits, `_`, `-` and `.`.
pub open spec fn is_plain_version(v: Option<Seq<char>>) -> bool {
    match v {
        Some(t) => t.len() > 0 && forall|i: int| 0 <= i < t.len() ==> is_name_char(#[trigger] t[i]) || t[i] == '.',
        None => true,
    }
}

/// Every github.com address begins with `http`.
pub proof fn lemma_address_starts_with_http(host: Seq<char>, repo: Seq<char>, version: Option<Seq<char>>)
    ensures
        has_prefix(github_address(host, repo, version), "http"@),
{
    reveal_strlit("http");
    reveal_strlit("https://github.com/");
    let g = github_address(host, repo, version);
    assert(g.subrange(0, 4) =~= "http"@);
}

/// `a` is an addon on github.com, with no commit recorded, whose owner, repository and
/// version are plain names, and whose address is shorter than 2^31 characters.
pub open spec fn is_plain_github_addon(a: AddonView) -> bool {
    &&& a.domain == "github.com"@
    &&& a.hash is None
    &&& is_plain_name(a.host)
    &&& is_plain_name(a.repo)
    &&& is_plain_version(a.version)
    &&& github_address(a.host, a.repo, a.version).len() < 0x8000_0000
}

/// What `url::Url::parse` makes of a text, read through `host_str`, `path_segments`
/// and `fragment`; `None` when the text is not an absolute URL.
pub uninterp spec fn url_components(input: Seq<char>) -> Option<
    (Option<Seq<char>>, Option<Seq<Seq<char>>>, Option<Seq<char>>),
>;

/// Parses `input` with `url::Url::parse` and reads the host (`host_str`), the path
/// segments (`path_segments`) and the fragment (`fragment`) of the result.
///
/// Stated: the call succeeds exactly when `url_components(input)` is some triple, and
/// then the parts are that triple. Which `ParseError` a failure carries is not stated.
///
/// Also stated, as the parser's source shows it: an address
/// `https://github.com/{owner}/{repo}` (optionally `#{version}`) whose owner and
/// repository are plain names and whose version is plain, shorter than 2^31 characters,
/// parses with host `github.com`, the path segments owner and repository, and the
/// version as fragment. The special scheme keeps `github.com` as it is; none of these
/// characters is percent-encoded in a path or a fragment; no segment is `.` or `..`;
/// and the length stays under the parser's 4 GB limit.
#[verifier::external_body]
fn parse_url(input: &str) -> (r: Result<UrlParts, UrlParseError>)
    ensures
        match r {
            Ok(p) => url_components(input@) == Some((p@.host, p@.segments, p@.fragment)),
            Err(_) => url_components(input@) is None,
        },
        match r {
            Ok(parts) => forall|h: Seq<char>, p: Seq<char>, v: Option<Seq<char>>|
                #[trigger] github_address(h, p, v) == input@ && is_plain_name(h) && is_plain_name(p)
                    && is_plain_version(v) && input@.len() < 0x8000_0000 ==> parts@.host == Some(
                    "github.com"@,
                ) && parts@.segments == Some(seq![h, p]) && parts@.fragment == v,
            Err(_) => forall|h: Seq<char>, p: Seq<char>, v: Option<Seq<char>>|
                #[trigger] github_address(h, p, v) == input@ ==> !(is_plain_name(h) && is_plain_name(p)
                    && is_plain_version(v) && input@.len() < 0x8000_0000),
        },
{
    url::Url::parse(input).map(
        |u| UrlParts {
            host: u.host_str().map(String::from),
            segments: u.path_segments().map(|s| s.map(String::from).collect()),
            fragment: u.fragment().map(String::from),
        },
    )
}

/// The addon a parsed URL names, or the message with which it is refused: the host is
/// the domain, the first two path segments are the owner and the repository, and the
/// fragment is the version.
pub open spec fn spec_from_url_parts(p: UrlPartsView) -> Result<AddonView, Seq<char>> {
    match p.host {
        None => Err("missing host to repository"@),
        Some(h) => match p.segments {
            None => Err("missing user/org and repostiory path segments"@),
            Some(segs) => if segs.len() == 0 {
                Err("missing user/org path segment"@)
            } else if segs.len() == 1 {
                Err("missing repository path segment"@)
            } else {
                Ok(
                    AddonView {
                        domain: h,
                        host: segs[0],
                        repo: segs[1],
                        version: p.fragment,
                        hash: None,
                    },
                )
            },
        },
    }
}

/// The URL that a `git+` source without a scheme stands for.
pub open spec fn spec_url_of_source(rest: Seq<char>) -> Seq<char> {
    if has_prefix(rest, "http"@) {
        rest
    } else {
        "https://"@ + rest
    }
}

/// The repository and version of a short LuaCATS source `repo#version`.
pub open spec fn spec_split_version(s: Seq<char>) -> (Seq<char>, Option<Seq<char>>) {
    match split_at_first(s, '#') {
        Some((repo, version)) => (repo, Some(version)),
        None => (s, None),
    }
}

/// The LuaCATS addon `repo`, at `version`.
pub open spec fn spec_luacats(repo: Seq<char>, version: Option<Seq<char>>, hash: Option<Seq<char>>) -> AddonView {
    AddonView { domain: "github.com"@, host: "LuaCATS"@, repo: repo, version: version, hash: hash }
}

/// `r` is the addon `v`, or a refusal carrying the message `m`.
pub open spec fn result_is(r: Result<Addon, Error>, expected: Result<AddonView, Seq<char>>) -> bool {
    match expected {
        Ok(v) => r matches Ok(a) && a@ == v,
        Err(m) => r matches Err(Error::InvalidAddon(x)) && x@ == m,
    }
}

impl Addon {
    /// The addon `repo` of the LuaCATS organisation on github.com.
    pub fn luacats(repo: &str, version: Option<String>, hash: Option<String>) -> (r: Addon)
        ensures
            r@ == spec_luacats(repo@, opt_view(version), opt_view(hash)),
    {
        Addon::new("github.com", "LuaCATS", repo, version, hash)
    }

    /// The addon `repo` of `host` on `domain`.
    pub fn new(domain: &str, host: &str, repo: &str, version: Option<String>, hash: Option<String>) -> (r: Addon)
        ensures
            r@ == (AddonView {
                domain: domain@,
                host: host@,
                repo: repo@,
                version: opt_view(version),
                hash: opt_view(hash),
            }),
    {
        Addon { domain: to_string(domain), host: to_string(host), repo: to_string(repo), version, hash }
    }

    /// Whether the addon belongs to the LuaCATS organisation.
    pub fn is_luacats(&self) -> (r: bool)
        ensures
            r == (self.host@ == "LuaCATS"@),
    {
        text_eq(self.host.as_str(), "LuaCATS")
    }

    /// Records as the addon's commit the output of `git rev-parse HEAD`, trimmed.
    pub fn record_hash(&mut self, output: &str)
        ensures
            final(self)@ == (AddonView { hash: Some(final(self)@.hash->0), ..old(self)@ }),
            is_trim_of(final(self)@.hash->0, output@),
    {
        self.hash = Some(to_string(trim(output)));
    }

    /// The address of the addon: `https://github.com/{host}/{repo}`, followed by
    /// `#{version}` when the addon has a version.
    pub open spec fn spec_address(&self) -> Seq<char> {
        github_address(self.host@, self.repo@, opt_view(self.version))
    }

    /// The address of the addon: `https://github.com/{host}/{repo}`, followed by
    /// `#{version}` when the addon has a version.
    pub fn to_string(&self) -> (r: String)
        ensures
            r@ == self.spec_address(),
    {
        let mut r = concat("https://github.com/", self.host.as_str());
        push_char(&mut r, '/');
        r.append(self.repo.as_str());
        match &self.version {
            Some(v) => {
                push_char(&mut r, '#');
                r.append(v.as_str());
                assert(r@ =~= "https://github.com/"@ + self.host@ + seq!['/'] + self.repo@ + (seq!['#'] + v@));
                assert(opt_view(self.version) == Some(v@));
            },
            None => {
                assert(r@ =~= "https://github.com/"@ + self.host@ + seq!['/'] + self.repo@ + Seq::<char>::empty());
            },
        }
        r
    }

    /// The addon that a parsed URL names.
    pub fn from_url_parts(parts: &UrlParts) -> (r: Result<Addon, Error>)
        ensures
            result_is(r, spec_from_url_parts(parts@)),
    {
        let host = match &parts.host {
            Some(h) => h,
            None => return Err(Error::InvalidAddon(to_string("missing host to repository"))),
        };
        let segments = match &parts.segments {
            Some(s) => s,
            None => return Err(
                Error::InvalidAddon(to_string("missing user/org and repostiory path segments")),
            ),
        };
        if segments.len() == 0 {
            return Err(Error::InvalidAddon(to_string("missing user/org path segment")));
        }
        if segments.len() == 1 {
            return Err(Error::InvalidAddon(to_string("missing repository path segment")));
        }
        let target = &segments[0];
        let repo = &segments[1];
        Ok(Addon::new(host.as_str(), target.as_str(), repo.as_str(), copy_opt(&parts.fragment), None))
    }

    /// Reads an addon from its source.
    ///
    /// `git+URL` names the repository at `URL` (`https://` is put in front when the URL
    /// does not begin with `http`), with the URL's fragment as its version. Any other
    /// text `repo` or `repo#version` names a LuaCATS addon.
    pub fn from_str(s: &str) -> (r: Result<Addon, Error>)
        ensures
            has_prefix(s@, "git+"@) ==> match url_components(
                spec_url_of_source(s@.subrange("git+"@.len() as int, s@.len() as int)),
            ) {
                None => r matches Err(Error::Url(_)),
                Some((host, segments, fragment)) => result_is(
                    r,
                    spec_from_url_parts(UrlPartsView { host, segments, fragment }),
                ),
            },
            !has_prefix(s@, "git+"@) ==> (r matches Ok(a) && a@ == spec_luacats(
                spec_split_version(s@).0,
                spec_split_version(s@).1,
                None,
            )),
            forall|a: AddonView|
                #[trigger] is_plain_github_addon(a) && s@ == "git+"@ + github_address(
                    a.host,
                    a.repo,
                    a.version,
                ) ==> (r matches Ok(x) && x@ == a),
    {
        proof {
            reveal_strlit("git+");
        }
        match strip_prefix(s, "git+") {
            Some(rest) => {
                if starts_with(rest, "http") {
                    let parsed = parse_url(rest);
                    let r = match parsed {
                        Ok(parts) => Addon::from_url_parts(&parts),
                        Err(e) => Err(Error::Url(e)),
                    };
                    proof {
                        assert forall|a: AddonView|
                            #[trigger] is_plain_github_addon(a) && s@ == "git+"@ + github_address(
                                a.host,
                                a.repo,
                                a.version,
                            ) implies (r matches Ok(x) && x@ == a) by {
                            let g = github_address(a.host, a.repo, a.version);
                            assert(rest@ =~= g);
                            assert(parsed matches Ok(parts) && parts@.segments == Some(
                                seq![a.host, a.repo],
                            ));
                        }
                    }
                    r
                } else {
                    let full = concat("https://", rest);
                    let parsed = parse_url(full.as_str());
                    proof {
                        assert forall|a: AddonView|
                            #[trigger] is_plain_github_addon(a) && s@ == "git+"@ + github_address(
                                a.host,
                                a.repo,
                                a.version,
                            ) implies false by {
                            let g = github_address(a.host, a.repo, a.version);
                            assert(rest@ =~= g);
                            lemma_address_starts_with_http(a.host, a.repo, a.version);
                        }
                    }
                    match parsed {
                        Ok(parts) => Addon::from_url_parts(&parts),
                        Err(e) => Err(Error::Url(e)),
                    }
                }
            },
            None => {
                proof {
                    assert forall|a: AddonView|
                        #[trigger] is_plain_github_addon(a) && s@ == "git+"@ + github_address(
                            a.host,
                            a.repo,
                            a.version,
                        ) implies false by {
                        let g = github_address(a.host, a.repo, a.version);
                        assert(s@.subrange(0, 4) =~= "git+"@);
                    }
                }
                match split_once_char(s, '#') {
                    Some((repo, digest)) => Ok(Addon::luacats(repo, Some(to_string(digest)), None)),
                    None => Ok(Addon::luacats(s, None, None)),
                }
            },
        }
    }
}

impl core::str::FromStr for Addon {
    type Err = Error;

    fn from_str(s: &str) -> (r: Result<Addon, Error>)
        ensures
            has_prefix(s@, "git+"@) ==> match url_components(
                spec_url_of_source(s@.subrange("git+"@.len() as int, s@.len() as int)),
            ) {
                None => r matches Err(Error::Url(_)),
                Some((host, segments, fragment)) => result_is(
                    r,
                    spec_from_url_parts(UrlPartsView { host, segments, fragment }),
                ),
            },
            !has_prefix(s@, "git+"@) ==> (r matches Ok(a) && a@ == spec_luacats(
                spec_split_version(s@).0,
                spec_split_version(s@).1,
                None,
            )),
            forall|a: AddonView|
                #[trigger] is_plain_github_addon(a) && s@ == "git+"@ + github_address(
                    a.host,
                    a.repo,
                    a.version,
                ) ==> (r matches Ok(x) && x@ == a),
    {
        Addon::from_str(s)
    }
}

/// Law: a LuaCATS source is split at its first `#` only: the repository is the text
/// before it and the version is the whole text after it (further `#`s included); a
/// source without `#` is all repository and has no version. So `from_str(r + "#" + v)`
/// gives repository `r` and version `v` whenever `r` holds no `#`.
pub proof fn law_short_source_version(s: Seq<char>, r: Seq<char>, v: Seq<char>)
    ensures
        forall|i: int|
            crate::text::is_first_index(s, '#', i) ==> #[trigger] spec_split_version(s) == (
            s.subrange(0, i),
            Some(s.subrange(i + 1, s.len() as int)),
        ),
        !s.contains('#') ==> spec_split_version(s) == (s, None::<Seq<char>>),
        !r.contains('#') ==> spec_split_version(r + seq!['#'] + v) == (r, Some(v)),
{
    assert forall|i: int| crate::text::is_first_index(s, '#', i) implies #[trigger] spec_split_version(s)
        == (s.subrange(0, i), Some(s.subrange(i + 1, s.len() as int))) by {
        assert(s.contains('#')) by {
            assert(s[i] == '#');
        }
        let j = choose|j: int| crate::text::is_first_index(s, '#', j);
        crate::text::lemma_first_index_unique(s, '#', i, j);
    }
    if !r.contains('#') {
        let t = r + seq!['#'] + v;
        let i = r.len() as int;
        assert(t[i] == '#');
        assert forall|k: int| 0 <= k < i implies t[k] != '#' by {
            assert(t[k] == r[k]);
        }
        assert(crate::text::is_first_index(t, '#', i));
        assert(t.contains('#'));
        let j = choose|j: int| crate::text::is_first_index(t, '#', j);
        crate::text::lemma_first_index_unique(t, '#', i, j);
        assert(t.subrange(0, i) =~= r);
        assert(t.subrange(i + 1, t.len() as int) =~= v);
    }
}

/// Law: the URL of a `git+` source is the source itself when it begins with `http`, and
/// otherwise the source behind `https://`, so that a bare `host/owner/repo` is fetched
/// over https; either way the URL begins with `http`.
pub proof fn law_git_source_url(rest: Seq<char>)
    ensures
        has_prefix(rest, "http"@) ==> spec_url_of_source(rest) == rest,
        !has_prefix(rest, "http"@) ==> spec_url_of_source(rest) == "https://"@ + rest,
        has_prefix(spec_url_of_source(rest), "http"@),
{
    reveal_strlit("http");
    reveal_strlit("https://");
    if !has_prefix(rest, "http"@) {
        let u = "https://"@ + rest;
        assert(u.subrange(0, 4) =~= "http"@);
    }
}

} // verus!
