//! Classifies a repository reference (SSH form, HTTP(S) URL, or bare
//! `org/project` shorthand) and extracts the `(host, organization, project)`
//! triple, exactly as `resolve_spec` describes.

use vstd::prelude::*;

use crate::text::{
    contains_char, default_host_seq, find_char, find_char_str, has_prefix, is_first_index,
    lemma_find_char_is, starts_with, str_eq,
};

verus! {

/// The `https://` scheme prefix.
pub open spec fn scheme_https() -> Seq<char> {
    seq!['h', 't', 't', 'p', 's', ':', '/', '/']
}

/// The `http://` scheme prefix.
pub open spec fn scheme_http() -> Seq<char> {
    seq!['h', 't', 't', 'p', ':', '/', '/']
}

/// The supported host followed by a path separator, as a reference prefix.
pub open spec fn host_slash_prefix() -> Seq<char> {
    default_host_seq() + seq!['/']
}

/// The `.git` suffix that is stripped from project names.
pub open spec fn git_suffix() -> Seq<char> {
    seq!['.', 'g', 'i', 't']
}

/// `s` with every trailing `.git` suffix removed.
pub open spec fn strip_git(s: Seq<char>) -> Seq<char>
    decreases s.len(),
{
    if s.len() >= 4 && crate::text::has_suffix(s, git_suffix()) {
        strip_git(s.subrange(0, s.len() - 4))
    } else {
        s
    }
}

/// Characters allowed in an organization segment of an HTTP(S) reference.
pub open spec fn is_org_char(c: char) -> bool {
    ||| 'a' as u32 <= c as u32 && c as u32 <= 'z' as u32
    ||| 'A' as u32 <= c as u32 && c as u32 <= 'Z' as u32
    ||| '0' as u32 <= c as u32 && c as u32 <= '9' as u32
    ||| c == '-'
}

/// Characters allowed in a project segment of an HTTP(S) reference.
pub open spec fn is_project_char(c: char) -> bool {
    is_org_char(c) || c == '_' || c == '.'
}

/// Every character of `s` may appear in an organization segment.
pub open spec fn org_chars_ok(s: Seq<char>) -> bool {
    forall|i: int| 0 <= i < s.len() ==> is_org_char(s[i])
}

/// Every character of `s` may appear in a project segment.
pub open spec fn project_chars_ok(s: Seq<char>) -> bool {
    forall|i: int| 0 <= i < s.len() ==> is_project_char(s[i])
}

/// The ways a reference can fail to resolve.
pub enum ParseErrKind {
    /// No classification branch matched the input at all.
    NotRecognized,
    /// The SSH branch found no `@` separator.
    NotSSH,
    /// The SSH branch found no `:` separator, or an empty host before it.
    CantParseColon,
    /// The SSH path did not split into exactly one organization and one
    /// non-empty project segment.
    CantFindProjectAndName,
    /// An HTTP(S) reference names a host outside the allow-list.
    UnsupportedHost,
    /// The organization and project segments of an HTTP(S) reference could
    /// not be matched.
    UnparseableURL,
    /// A bare shorthand reference with an empty segment on either side of
    /// its slash.
    InvalidShorthand,
}

/// A reference that contains `@` and (after it) `:` is split as
/// `user@host:org/project[.git]`; no third path segment is tolerated.
pub open spec fn ssh_spec(s: Seq<char>) -> Result<(Seq<char>, Seq<char>, Seq<char>), ParseErrKind> {
    if !contains_char(s, '@') {
        Err(ParseErrKind::NotSSH)
    } else {
        let rest = s.subrange(find_char(s, '@') + 1, s.len() as int);
        if !contains_char(rest, ':') {
            Err(ParseErrKind::CantParseColon)
        } else {
            let host = rest.subrange(0, find_char(rest, ':'));
            let path = rest.subrange(find_char(rest, ':') + 1, rest.len() as int);
            if host.len() == 0 {
                Err(ParseErrKind::CantParseColon)
            } else if !contains_char(path, '/') {
                Err(ParseErrKind::CantFindProjectAndName)
            } else {
                let org = path.subrange(0, find_char(path, '/'));
                let tail = path.subrange(find_char(path, '/') + 1, path.len() as int);
                if contains_char(tail, '/') {
                    Err(ParseErrKind::CantFindProjectAndName)
                } else if org.len() == 0 || strip_git(tail).len() == 0 {
                    Err(ParseErrKind::CantFindProjectAndName)
                } else {
                    Ok((host, org, strip_git(tail)))
                }
            }
        }
    }
}

/// The remainder of an HTTP(S) reference after an explicit scheme, when one
/// is present.
pub open spec fn strip_scheme(s: Seq<char>) -> Option<Seq<char>> {
    if has_prefix(s, scheme_https()) {
        Some(s.subrange(scheme_https().len() as int, s.len() as int))
    } else if has_prefix(s, scheme_http()) {
        Some(s.subrange(scheme_http().len() as int, s.len() as int))
    } else {
        None
    }
}

/// Extraction of `org/project` from the path part of an HTTP(S) reference:
/// one organization segment, one project segment, arbitrary further path
/// segments discarded, trailing `.git` stripped.
pub open spec fn org_project_spec(rest: Seq<char>) -> Result<(Seq<char>, Seq<char>), ParseErrKind> {
    if !contains_char(rest, '/') {
        Err(ParseErrKind::UnparseableURL)
    } else {
        let org = rest.subrange(0, find_char(rest, '/'));
        let after = rest.subrange(find_char(rest, '/') + 1, rest.len() as int);
        let projraw = if contains_char(after, '/') {
            after.subrange(0, find_char(after, '/'))
        } else {
            after
        };
        if org.len() == 0 || !org_chars_ok(org) || !project_chars_ok(projraw) || strip_git(
            projraw,
        ).len() == 0 {
            Err(ParseErrKind::UnparseableURL)
        } else {
            Ok((org, strip_git(projraw)))
        }
    }
}

/// An HTTP(S) reference: optional scheme, then the allowed host when the
/// scheme made one explicit, then `org/project` with arbitrary trailing
/// segments.
pub open spec fn http_spec(s: Seq<char>) -> Result<(Seq<char>, Seq<char>, Seq<char>), ParseErrKind> {
    match strip_scheme(s) {
        Some(t) => {
            // With a scheme, the first segment is a host and must be on the
            // allow-list.
            if !contains_char(t, '/') {
                if t == default_host_seq() {
                    Err(ParseErrKind::UnparseableURL)
                } else {
                    Err(ParseErrKind::UnsupportedHost)
                }
            } else {
                let host = t.subrange(0, find_char(t, '/'));
                let rest = t.subrange(find_char(t, '/') + 1, t.len() as int);
                if host != default_host_seq() {
                    Err(ParseErrKind::UnsupportedHost)
                } else {
                    match org_project_spec(rest) {
                        Ok((o, p)) => Ok((default_host_seq(), o, p)),
                        Err(k) => Err(k),
                    }
                }
            }
        },
        None => {
            // Without a scheme the host prefix is optional.
            let t = if has_prefix(s, host_slash_prefix()) {
                s.subrange(host_slash_prefix().len() as int, s.len() as int)
            } else {
                s
            };
            match org_project_spec(t) {
                Ok((o, p)) => Ok((default_host_seq(), o, p)),
                Err(k) => Err(k),
            }
        },
    }
}

/// `s` holds one slash and no second one.
pub open spec fn exactly_one_slash(s: Seq<char>) -> bool {
    &&& contains_char(s, '/')
    &&& forall|i: int, j: int|
        0 <= i < s.len() && 0 <= j < s.len() && s[i] == '/' && s[j] == '/' ==> i == j
}

/// A bare `org/project` shorthand: exactly one slash with a non-empty
/// segment on each side; the host defaults to the single supported one.
pub open spec fn shorthand_spec(s: Seq<char>) -> Result<
    (Seq<char>, Seq<char>, Seq<char>),
    ParseErrKind,
> {
    if !exactly_one_slash(s) {
        Err(ParseErrKind::InvalidShorthand)
    } else {
        let org = s.subrange(0, find_char(s, '/'));
        let raw = s.subrange(find_char(s, '/') + 1, s.len() as int);
        if org.len() == 0 || strip_git(raw).len() == 0 {
            Err(ParseErrKind::InvalidShorthand)
        } else {
            Ok((default_host_seq(), org, strip_git(raw)))
        }
    }
}

/// The full classification, first match wins: SSH when both `@` and `:`
/// occur, HTTP(S) on an explicit scheme or the known host prefix, bare
/// shorthand on exactly one slash, and `NotRecognized` otherwise.
pub open spec fn resolve_spec(s: Seq<char>) -> Result<
    (Seq<char>, Seq<char>, Seq<char>),
    ParseErrKind,
> {
    if contains_char(s, '@') && contains_char(s, ':') {
        ssh_spec(s)
    } else if strip_scheme(s) is Some || has_prefix(s, host_slash_prefix()) {
        http_spec(s)
    } else if exactly_one_slash(s) {
        shorthand_spec(s)
    } else {
        Err(ParseErrKind::NotRecognized)
    }
}

/// A failed resolution, carrying the offending input verbatim.
#[derive(Debug)]
pub enum ParseRepoError {
    NotRecognized(String),
    NotSSH(String),
    CantParseColon(String),
    CantFindProjectAndName(String),
    UnsupportedHost(String),
    UnparseableURL(String),
    InvalidShorthand(String),
}

impl ParseRepoError {
    /// Which taxonomy row this error belongs to.
    pub open spec fn kind(&self) -> ParseErrKind {
        match self {
            ParseRepoError::NotRecognized(_) => ParseErrKind::NotRecognized,
            ParseRepoError::NotSSH(_) => ParseErrKind::NotSSH,
            ParseRepoError::CantParseColon(_) => ParseErrKind::CantParseColon,
            ParseRepoError::CantFindProjectAndName(_) => ParseErrKind::CantFindProjectAndName,
            ParseRepoError::UnsupportedHost(_) => ParseErrKind::UnsupportedHost,
            ParseRepoError::UnparseableURL(_) => ParseErrKind::UnparseableURL,
            ParseRepoError::InvalidShorthand(_) => ParseErrKind::InvalidShorthand,
        }
    }

    /// The diagnostic line for this error, echoing the rejected input.
    pub open spec fn message_spec(&self) -> Seq<char> {
        match self {
            ParseRepoError::NotRecognized(s) => "Invalid repository URL: not recognized: "@ + s@,
            ParseRepoError::NotSSH(s) => "Invalid repository URL: not SSH: "@ + s@,
            ParseRepoError::CantParseColon(s) => "Invalid repository URL: cannot parse colon separator: "@
                + s@,
            ParseRepoError::CantFindProjectAndName(s) => "Invalid repository URL: cannot find project and name: "@
                + s@,
            ParseRepoError::UnsupportedHost(s) => "Invalid repository URL: unsupported host: "@
                + s@,
            ParseRepoError::UnparseableURL(s) => "Invalid repository URL: unparseable HTTP URL: "@
                + s@,
            ParseRepoError::InvalidShorthand(s) => "Invalid repository URL: invalid shorthand: "@
                + s@,
        }
    }

    /// Renders the diagnostic line for this error.
    pub fn message(&self) -> (r: String)
        ensures
            r@ == self.message_spec(),
    {
        match self {
            ParseRepoError::NotRecognized(s) => crate::text::concat_parts(
                "Invalid repository URL: not recognized: ",
                s.as_str(),
            ),
            ParseRepoError::NotSSH(s) => crate::text::concat_parts(
                "Invalid repository URL: not SSH: ",
                s.as_str(),
            ),
            ParseRepoError::CantParseColon(s) => crate::text::concat_parts(
                "Invalid repository URL: cannot parse colon separator: ",
                s.as_str(),
            ),
            ParseRepoError::CantFindProjectAndName(s) => crate::text::concat_parts(
                "Invalid repository URL: cannot find project and name: ",
                s.as_str(),
            ),
            ParseRepoError::UnsupportedHost(s) => crate::text::concat_parts(
                "Invalid repository URL: unsupported host: ",
                s.as_str(),
            ),
            ParseRepoError::UnparseableURL(s) => crate::text::concat_parts(
                "Invalid repository URL: unparseable HTTP URL: ",
                s.as_str(),
            ),
            ParseRepoError::InvalidShorthand(s) => crate::text::concat_parts(
                "Invalid repository URL: invalid shorthand: ",
                s.as_str(),
            ),
        }
    }

    /// The input the resolver rejected.
    pub open spec fn input(&self) -> Seq<char> {
        match self {
            ParseRepoError::NotRecognized(s) => s@,
            ParseRepoError::NotSSH(s) => s@,
            ParseRepoError::CantParseColon(s) => s@,
            ParseRepoError::CantFindProjectAndName(s) => s@,
            ParseRepoError::UnsupportedHost(s) => s@,
            ParseRepoError::UnparseableURL(s) => s@,
            ParseRepoError::InvalidShorthand(s) => s@,
        }
    }
}

/// Removes every trailing `.git` suffix.
pub fn strip_git_str<'a>(s: &'a str) -> (r: &'a str)
    ensures
        r@ == strip_git(s@),
    decreases s@.len(),
{
    let n = s.unicode_len();
    if n >= 4 && s.get_char(n - 4) == '.' && s.get_char(n - 3) == 'g' && s.get_char(n - 2) == 'i'
        && s.get_char(n - 1) == 't' {
        proof {
            assert(s@.subrange(n - 4, n as int) =~= git_suffix());
        }
        strip_git_str(s.substring_char(0, n - 4))
    } else {
        proof {
            if n >= 4 && crate::text::has_suffix(s@, git_suffix()) {
                let tail = s@.subrange(n - 4, n as int);
                assert(s@[n - 4] == tail[0] && s@[n - 3] == tail[1] && s@[n - 2] == tail[2]
                    && s@[n - 1] == tail[3]);
            }
        }
        s
    }
}

/// Does `s` hold the character `c`?
fn contains_char_str(s: &str, c: char) -> (r: bool)
    ensures
        r == contains_char(s@, c),
{
    match find_char_str(s, c) {
        Some(i) => {
            proof {
                assert(s@[i as int] == c);
            }
            true
        },
        None => false,
    }
}

/// Finds the only slash of `s`, or reports that there is no slash or more
/// than one.
fn find_single_slash(s: &str) -> (r: Option<usize>)
    ensures
        match r {
            Some(i) => exactly_one_slash(s@) && is_first_index(s@, '/', i as int),
            None => !exactly_one_slash(s@),
        },
{
    let n = s.unicode_len();
    match find_char_str(s, '/') {
        None => None,
        Some(i) => {
            let after = s.substring_char(i + 1, n);
            match find_char_str(after, '/') {
                None => {
                    proof {
                        assert forall|x: int, y: int|
                            0 <= x < s@.len() && 0 <= y < s@.len() && s@[x] == '/' && s@[y]
                                == '/' implies x == y by {
                            if x > i {
                                assert(after@[x - i - 1] == '/');
                            }
                            if y > i {
                                assert(after@[y - i - 1] == '/');
                            }
                        }
                    }
                    Some(i)
                },
                Some(j) => {
                    proof {
                        assert(s@[i + 1 + j] == '/');
                    }
                    None
                },
            }
        },
    }
}

/// Is `c` allowed in an organization segment?
fn is_org_char_exec(c: char) -> (r: bool)
    ensures
        r == is_org_char(c),
{
    let u = c as u32;
    ('a' as u32 <= u && u <= 'z' as u32) || ('A' as u32 <= u && u <= 'Z' as u32) || ('0' as u32
        <= u && u <= '9' as u32) || c == '-'
}

/// Is `c` allowed in a project segment?
fn is_project_char_exec(c: char) -> (r: bool)
    ensures
        r == is_project_char(c),
{
    is_org_char_exec(c) || c == '_' || c == '.'
}

/// Checks every character of an organization segment.
fn org_chars_ok_str(s: &str) -> (r: bool)
    ensures
        r == org_chars_ok(s@),
{
    let n = s.unicode_len();
    let mut i: usize = 0;
    while i < n
        invariant
            i <= n,
            n == s@.len(),
            forall|j: int| 0 <= j < i ==> is_org_char(s@[j]),
        decreases n - i,
    {
        if !is_org_char_exec(s.get_char(i)) {
            return false;
        }
        i = i + 1;
    }
    true
}

/// Checks every character of a project segment.
fn project_chars_ok_str(s: &str) -> (r: bool)
    ensures
        r == project_chars_ok(s@),
{
    let n = s.unicode_len();
    let mut i: usize = 0;
    while i < n
        invariant
            i <= n,
            n == s@.len(),
            forall|j: int| 0 <= j < i ==> is_project_char(s@[j]),
        decreases n - i,
    {
        if !is_project_char_exec(s.get_char(i)) {
            return false;
        }
        i = i + 1;
    }
    true
}

/// The executable result `r` agrees with the specification outcome
/// `spec_r` on the input `input`: same success or failure, the same triple
/// on success, and on failure the same error kind carrying the input
/// verbatim.
pub open spec fn matches_outcome(
    spec_r: Result<(Seq<char>, Seq<char>, Seq<char>), ParseErrKind>,
    r: Result<(String, String, String), ParseRepoError>,
    input: Seq<char>,
) -> bool {
    match r {
        Ok(t) => spec_r == Ok::<_, ParseErrKind>((t.0@, t.1@, t.2@)),
        Err(e) => {
            &&& spec_r == Err::<(Seq<char>, Seq<char>, Seq<char>), _>(e.kind())
            &&& e.input() == input
        },
    }
}

/// Stripping touches nothing without the suffix.
pub proof fn lemma_strip_git_noop(p: Seq<char>)
    requires
        !crate::text::has_suffix(p, git_suffix()),
    ensures
        strip_git(p) == p,
{
}

/// Appending `.git` never changes what stripping yields.
pub proof fn lemma_strip_git_once(p: Seq<char>)
    ensures
        strip_git(p + git_suffix()) == strip_git(p),
{
    let s = p + git_suffix();
    assert(s.subrange(s.len() - 4, s.len() as int) =~= git_suffix());
    assert(s.subrange(0, s.len() - 4) =~= p);
}

/// A stripped project name never ends in `.git` again.
pub proof fn lemma_strip_git_clean(s: Seq<char>)
    ensures
        !crate::text::has_suffix(strip_git(s), git_suffix()),
    decreases s.len(),
{
    if s.len() >= 4 && crate::text::has_suffix(s, git_suffix()) {
        lemma_strip_git_clean(s.subrange(0, s.len() - 4));
    }
}

/// The canonical SSH reference shape `user@host:org/raw`.
pub open spec fn ssh_input(user: Seq<char>, host: Seq<char>, org: Seq<char>, raw: Seq<char>) -> Seq<
    char,
> {
    user + seq!['@'] + host + seq![':'] + org + seq!['/'] + raw
}

/// Evaluates the resolver on any SSH-shaped reference: the outcome depends
/// only on whether both path segments are non-empty once `.git` is
/// stripped.
proof fn lemma_ssh_spec_eval(user: Seq<char>, host: Seq<char>, org: Seq<char>, raw: Seq<char>)
    requires
        !contains_char(user, '@'),
        !contains_char(host, ':'),
        host.len() > 0,
        !contains_char(org, '/'),
        !contains_char(raw, '/'),
    ensures
        resolve_spec(ssh_input(user, host, org, raw)) == (if org.len() > 0 && strip_git(
            raw,
        ).len() > 0 {
            Ok::<(Seq<char>, Seq<char>, Seq<char>), ParseErrKind>((host, org, strip_git(raw)))
        } else {
            Err::<(Seq<char>, Seq<char>, Seq<char>), ParseErrKind>(
                ParseErrKind::CantFindProjectAndName,
            )
        }),
{
    let s = ssh_input(user, host, org, raw);
    let path0 = org + (seq!['/'] + raw);
    let rest0 = host + (seq![':'] + path0);
    let s0 = user + (seq!['@'] + rest0);
    assert(s =~= s0);
    crate::text::lemma_first_index_concat(user, seq!['@'] + rest0, '@');
    crate::text::lemma_first_index_concat(host, seq![':'] + path0, ':');
    crate::text::lemma_first_index_concat(org, seq!['/'] + raw, '/');
    crate::text::lemma_contains_concat(seq!['@'], rest0, ':');
    crate::text::lemma_contains_concat(user, seq!['@'] + rest0, ':');
    assert(contains_char(s, '@'));
    assert(contains_char(s, ':'));
    let rest = s.subrange(find_char(s, '@') + 1, s.len() as int);
    assert(rest =~= rest0);
    let path = rest.subrange(find_char(rest, ':') + 1, rest.len() as int);
    assert(path =~= path0);
    assert(rest.subrange(0, find_char(rest, ':')) =~= host);
    assert(path.subrange(0, find_char(path, '/')) =~= org);
    assert(path.subrange(find_char(path, '/') + 1, path.len() as int) =~= raw);
}

/// Every well-formed SSH reference `user@host:org/project[.git]` resolves
/// to `(host, org, project)` with any trailing `.git` stripped from the
/// project.
pub proof fn lemma_ssh_reference_resolves(
    user: Seq<char>,
    host: Seq<char>,
    org: Seq<char>,
    raw: Seq<char>,
)
    requires
        !contains_char(user, '@'),
        !contains_char(host, ':'),
        host.len() > 0,
        !contains_char(org, '/'),
        org.len() > 0,
        !contains_char(raw, '/'),
        strip_git(raw).len() > 0,
    ensures
        resolve_spec(ssh_input(user, host, org, raw)) == Ok::<
            (Seq<char>, Seq<char>, Seq<char>),
            ParseErrKind,
        >((host, org, strip_git(raw))),
{
    lemma_ssh_spec_eval(user, host, org, raw);
}

/// An SSH reference whose organization or project segment is empty fails
/// with the cannot-find-project-and-name error.
pub proof fn lemma_ssh_empty_segment_fails(
    user: Seq<char>,
    host: Seq<char>,
    org: Seq<char>,
    raw: Seq<char>,
)
    requires
        !contains_char(user, '@'),
        !contains_char(host, ':'),
        host.len() > 0,
        !contains_char(org, '/'),
        !contains_char(raw, '/'),
        org.len() == 0 || strip_git(raw).len() == 0,
    ensures
        resolve_spec(ssh_input(user, host, org, raw)) == Err::<
            (Seq<char>, Seq<char>, Seq<char>),
            ParseErrKind,
        >(ParseErrKind::CantFindProjectAndName),
{
    lemma_ssh_spec_eval(user, host, org, raw);
}

/// Organization characters are a subset of project characters.
proof fn lemma_org_chars_project_ok(s: Seq<char>)
    requires
        org_chars_ok(s),
    ensures
        project_chars_ok(s),
{
    assert forall|i: int| 0 <= i < s.len() implies is_project_char(s[i]) by {
        assert(is_org_char(s[i]));
    }
}

/// Segment characters never collide with the reference separators.
proof fn lemma_project_chars_reserved(s: Seq<char>)
    requires
        project_chars_ok(s),
    ensures
        !contains_char(s, '@'),
        !contains_char(s, ':'),
        !contains_char(s, '/'),
{
    assert(!is_project_char('@'));
    assert(!is_project_char(':'));
    assert(!is_project_char('/'));
    if contains_char(s, '@') {
        let i = choose|i: int| 0 <= i < s.len() && s[i] == '@';
        assert(is_project_char(s[i]));
    }
    if contains_char(s, ':') {
        let i = choose|i: int| 0 <= i < s.len() && s[i] == ':';
        assert(is_project_char(s[i]));
    }
    if contains_char(s, '/') {
        let i = choose|i: int| 0 <= i < s.len() && s[i] == '/';
        assert(is_project_char(s[i]));
    }
}

/// The allowed host itself holds none of the separators.
proof fn lemma_default_host_chars()
    ensures
        !contains_char(default_host_seq(), '@'),
        !contains_char(default_host_seq(), ':'),
        !contains_char(default_host_seq(), '/'),
{
    let h = default_host_seq();
    assert forall|i: int| 0 <= i < h.len() implies h[i] != '@' && h[i] != ':' && h[i] != '/' by {
        assert(h.len() == 10);
    }
}

/// Evaluates `org/project[.git][tail]` extraction from the path part of an
/// HTTP(S) reference.
proof fn lemma_org_project_eval(org: Seq<char>, raw: Seq<char>, tail: Seq<char>)
    requires
        org.len() > 0,
        org_chars_ok(org),
        project_chars_ok(raw),
        strip_git(raw).len() > 0,
        tail.len() == 0 || tail[0] == '/',
    ensures
        org_project_spec(org + (seq!['/'] + (raw + tail))) == Ok::<
            (Seq<char>, Seq<char>),
            ParseErrKind,
        >((org, strip_git(raw))),
{
    let after0 = raw + tail;
    let rest0 = org + (seq!['/'] + after0);
    lemma_org_chars_project_ok(org);
    lemma_project_chars_reserved(org);
    lemma_project_chars_reserved(raw);
    crate::text::lemma_first_index_concat(org, seq!['/'] + after0, '/');
    assert(rest0.subrange(0, find_char(rest0, '/')) =~= org);
    assert(rest0.subrange(find_char(rest0, '/') + 1, rest0.len() as int) =~= after0);
    if tail.len() == 0 {
        assert(after0 =~= raw);
    } else {
        crate::text::lemma_first_index_concat(raw, tail, '/');
        assert(after0.subrange(0, find_char(after0, '/')) =~= raw);
    }
}

/// The canonical HTTP(S) reference shape
/// `[scheme]github.com/org/raw[tail]`.
pub open spec fn http_input(
    scheme: Seq<char>,
    org: Seq<char>,
    raw: Seq<char>,
    tail: Seq<char>,
) -> Seq<char> {
    scheme + default_host_seq() + seq!['/'] + org + seq!['/'] + raw + tail
}

/// Every HTTP(S) reference to the allowed host — with either scheme or
/// none — resolves to the same organization and project whatever trailing
/// path segments follow them, with any trailing `.git` stripped from the
/// project.
#[verifier::rlimit(50)]
pub proof fn lemma_http_reference_resolves(
    scheme: Seq<char>,
    org: Seq<char>,
    raw: Seq<char>,
    tail: Seq<char>,
)
    requires
        scheme == scheme_https() || scheme == scheme_http() || scheme == Seq::<char>::empty(),
        org.len() > 0,
        org_chars_ok(org),
        project_chars_ok(raw),
        strip_git(raw).len() > 0,
        tail.len() == 0 || tail[0] == '/',
        !contains_char(tail, '@'),
    ensures
        resolve_spec(http_input(scheme, org, raw, tail)) == Ok::<
            (Seq<char>, Seq<char>, Seq<char>),
            ParseErrKind,
        >((default_host_seq(), org, strip_git(raw))),
{
    let s = http_input(scheme, org, raw, tail);
    let dh = default_host_seq();
    let after0 = raw + tail;
    let rest0 = org + (seq!['/'] + after0);
    let t0 = dh + (seq!['/'] + rest0);
    let s0 = scheme + t0;
    assert(s =~= s0);
    lemma_org_chars_project_ok(org);
    lemma_project_chars_reserved(org);
    lemma_project_chars_reserved(raw);
    lemma_default_host_chars();
    assert(!contains_char(scheme, '@')) by {
        if contains_char(scheme, '@') {
            let i = choose|i: int| 0 <= i < scheme.len() && scheme[i] == '@';
        }
    }
    crate::text::lemma_contains_concat(raw, tail, '@');
    crate::text::lemma_contains_concat(seq!['/'], after0, '@');
    crate::text::lemma_contains_concat(org, seq!['/'] + after0, '@');
    crate::text::lemma_contains_concat(seq!['/'], rest0, '@');
    crate::text::lemma_contains_concat(dh, seq!['/'] + rest0, '@');
    crate::text::lemma_contains_concat(scheme, t0, '@');
    assert(!contains_char(s, '@'));
    crate::text::lemma_first_index_concat(dh, seq!['/'] + rest0, '/');
    if scheme == scheme_https() {
        assert(has_prefix(s, scheme_https())) by {
            assert(s.subrange(0, 8) =~= scheme_https());
        }
        let t = s.subrange(scheme_https().len() as int, s.len() as int);
        assert(t =~= t0);
        assert(t.subrange(0, find_char(t, '/')) =~= dh);
        assert(t.subrange(find_char(t, '/') + 1, t.len() as int) =~= rest0);
        lemma_org_project_eval(org, raw, tail);
    } else if scheme == scheme_http() {
        assert(!has_prefix(s, scheme_https())) by {
            if has_prefix(s, scheme_https()) {
                assert(s.subrange(0, 8)[4] == scheme_https()[4]);
                assert(s[4] == scheme_http()[4]);
            }
        }
        assert(has_prefix(s, scheme_http())) by {
            assert(s.subrange(0, 7) =~= scheme_http());
        }
        let t = s.subrange(scheme_http().len() as int, s.len() as int);
        assert(t =~= t0);
        assert(t.subrange(0, find_char(t, '/')) =~= dh);
        assert(t.subrange(find_char(t, '/') + 1, t.len() as int) =~= rest0);
        lemma_org_project_eval(org, raw, tail);
    } else {
        assert(!has_prefix(s, scheme_https())) by {
            if has_prefix(s, scheme_https()) {
                assert(s.subrange(0, 8)[0] == scheme_https()[0]);
                assert(s[0] == dh[0]);
            }
        }
        assert(!has_prefix(s, scheme_http())) by {
            if has_prefix(s, scheme_http()) {
                assert(s.subrange(0, 7)[0] == scheme_http()[0]);
                assert(s[0] == dh[0]);
            }
        }
        assert(has_prefix(s, host_slash_prefix())) by {
            assert(s.subrange(0, host_slash_prefix().len() as int) =~= host_slash_prefix());
        }
        let t = s.subrange(host_slash_prefix().len() as int, s.len() as int);
        assert(t =~= rest0);
        lemma_org_project_eval(org, raw, tail);
    }
}

/// Evaluates the resolver on any one-slash shorthand shape: the outcome
/// depends only on whether both segments are non-empty once `.git` is
/// stripped.
proof fn lemma_shorthand_spec_eval(org: Seq<char>, raw: Seq<char>)
    requires
        !contains_char(org, '/'),
        !contains_char(raw, '/'),
        !contains_char(org, '@') && !contains_char(raw, '@') || !contains_char(org, ':')
            && !contains_char(raw, ':'),
        org != default_host_seq(),
    ensures
        resolve_spec(org + seq!['/'] + raw) == (if org.len() > 0 && strip_git(raw).len() > 0 {
            Ok::<(Seq<char>, Seq<char>, Seq<char>), ParseErrKind>(
                (default_host_seq(), org, strip_git(raw)),
            )
        } else {
            Err::<(Seq<char>, Seq<char>, Seq<char>), ParseErrKind>(ParseErrKind::InvalidShorthand)
        }),
{
    let s = org + seq!['/'] + raw;
    let s0 = org + (seq!['/'] + raw);
    assert(s =~= s0);
    crate::text::lemma_first_index_concat(org, seq!['/'] + raw, '/');
    assert forall|i: int, j: int|
        0 <= i < s.len() && 0 <= j < s.len() && s[i] == '/' && s[j] == '/' implies i == j by {
        if i < org.len() {
            assert(org[i] == '/');
        }
        if i > org.len() {
            assert(raw[i - org.len() - 1] == '/');
        }
        if j < org.len() {
            assert(org[j] == '/');
        }
        if j > org.len() {
            assert(raw[j - org.len() - 1] == '/');
        }
    }
    assert(exactly_one_slash(s));
    crate::text::lemma_contains_concat(seq!['/'], raw, '@');
    crate::text::lemma_contains_concat(org, seq!['/'] + raw, '@');
    crate::text::lemma_contains_concat(seq!['/'], raw, ':');
    crate::text::lemma_contains_concat(org, seq!['/'] + raw, ':');
    assert(!(contains_char(s, '@') && contains_char(s, ':')));
    assert(!has_prefix(s, scheme_https())) by {
        if has_prefix(s, scheme_https()) {
            assert(s.subrange(0, 8)[6] == scheme_https()[6]);
            assert(s.subrange(0, 8)[7] == scheme_https()[7]);
            assert(s[6] == '/' && s[7] == '/');
        }
    }
    assert(!has_prefix(s, scheme_http())) by {
        if has_prefix(s, scheme_http()) {
            assert(s.subrange(0, 7)[5] == scheme_http()[5]);
            assert(s.subrange(0, 7)[6] == scheme_http()[6]);
            assert(s[5] == '/' && s[6] == '/');
        }
    }
    assert(!has_prefix(s, host_slash_prefix())) by {
        if has_prefix(s, host_slash_prefix()) {
            assert(s.subrange(0, 11)[10] == host_slash_prefix()[10]);
            assert(s[10] == '/');
            assert(org.len() == 10);
            assert forall|k: int| 0 <= k < 10 implies org[k] == default_host_seq()[k] by {
                assert(s.subrange(0, 11)[k] == host_slash_prefix()[k]);
                assert(s[k] == org[k]);
            }
            assert(org =~= default_host_seq());
        }
    }
    assert(s.subrange(0, find_char(s, '/')) =~= org);
    assert(s.subrange(find_char(s, '/') + 1, s.len() as int) =~= raw);
}

/// Every bare `org/project` shorthand — one slash, no scheme, no host
/// prefix, not an SSH form — resolves against the default host, with any
/// trailing `.git` stripped from the project.
pub proof fn lemma_shorthand_resolves(org: Seq<char>, raw: Seq<char>)
    requires
        org.len() > 0,
        strip_git(raw).len() > 0,
        !contains_char(org, '/'),
        !contains_char(raw, '/'),
        !contains_char(org, '@') && !contains_char(raw, '@') || !contains_char(org, ':')
            && !contains_char(raw, ':'),
        org != default_host_seq(),
    ensures
        resolve_spec(org + seq!['/'] + raw) == Ok::<(Seq<char>, Seq<char>, Seq<char>), ParseErrKind>(
            (default_host_seq(), org, strip_git(raw)),
        ),
{
    lemma_shorthand_spec_eval(org, raw);
}

/// A bare shorthand whose organization or project segment is empty is
/// rejected as an invalid shorthand.
pub proof fn lemma_shorthand_empty_segment_fails(org: Seq<char>, raw: Seq<char>)
    requires
        org.len() == 0 || strip_git(raw).len() == 0,
        !contains_char(org, '/'),
        !contains_char(raw, '/'),
        !contains_char(org, '@') && !contains_char(raw, '@') || !contains_char(org, ':')
            && !contains_char(raw, ':'),
        org != default_host_seq(),
    ensures
        resolve_spec(org + seq!['/'] + raw) == Err::<
            (Seq<char>, Seq<char>, Seq<char>),
            ParseErrKind,
        >(ParseErrKind::InvalidShorthand),
{
    lemma_shorthand_spec_eval(org, raw);
}

/// The empty reference is rejected outright, and by each classification
/// branch taken on its own.
pub proof fn lemma_empty_input_fails()
    ensures
        resolve_spec(Seq::<char>::empty()) == Err::<(Seq<char>, Seq<char>, Seq<char>), _>(
            ParseErrKind::NotRecognized,
        ),
        ssh_spec(Seq::<char>::empty()) == Err::<(Seq<char>, Seq<char>, Seq<char>), _>(
            ParseErrKind::NotSSH,
        ),
        http_spec(Seq::<char>::empty()) == Err::<(Seq<char>, Seq<char>, Seq<char>), _>(
            ParseErrKind::UnparseableURL,
        ),
        shorthand_spec(Seq::<char>::empty()) == Err::<(Seq<char>, Seq<char>, Seq<char>), _>(
            ParseErrKind::InvalidShorthand,
        ),
{
}

/// The host used for every non-SSH reference form.
pub fn default_host() -> (r: &'static str)
    ensures
        r@ == default_host_seq(),
{
    proof {
        reveal_strlit("github.com");
        assert("github.com"@ =~= default_host_seq());
    }
    "github.com"
}

/// Splits an SSH-style reference `user@host:org/project[.git]` into its
/// host, organization and project, with the `.git` suffix stripped, exactly
/// as `ssh_spec` describes.
pub fn parse_ssh_url(url: &str) -> (r: Result<(String, String, String), ParseRepoError>)
    ensures
        matches_outcome(ssh_spec(url@), r, url@),
{
    let n = url.unicode_len();
    let at = match find_char_str(url, '@') {
        Some(i) => i,
        None => {
            return Err(ParseRepoError::NotSSH(url.to_owned()));
        },
    };
    proof {
        lemma_find_char_is(url@, '@', at as int);
    }
    let rest = url.substring_char(at + 1, n);
    let rn = rest.unicode_len();
    let colon = match find_char_str(rest, ':') {
        Some(i) => i,
        None => {
            return Err(ParseRepoError::CantParseColon(url.to_owned()));
        },
    };
    proof {
        lemma_find_char_is(rest@, ':', colon as int);
    }
    let host = rest.substring_char(0, colon);
    let path = rest.substring_char(colon + 1, rn);
    if host.unicode_len() == 0 {
        return Err(ParseRepoError::CantParseColon(url.to_owned()));
    }
    let pn = path.unicode_len();
    let slash = match find_char_str(path, '/') {
        Some(i) => i,
        None => {
            return Err(ParseRepoError::CantFindProjectAndName(url.to_owned()));
        },
    };
    proof {
        lemma_find_char_is(path@, '/', slash as int);
    }
    let org = path.substring_char(0, slash);
    let tail = path.substring_char(slash + 1, pn);
    if contains_char_str(tail, '/') {
        return Err(ParseRepoError::CantFindProjectAndName(url.to_owned()));
    }
    let proj = strip_git_str(tail);
    if org.unicode_len() == 0 || proj.unicode_len() == 0 {
        return Err(ParseRepoError::CantFindProjectAndName(url.to_owned()));
    }
    Ok((host.to_owned(), org.to_owned(), proj.to_owned()))
}

/// Extracts `org/project` from the path part of an HTTP(S) reference; a
/// failure names the whole original input `url`.
fn parse_org_project(rest: &str, url: &str) -> (r: Result<(String, String), ParseRepoError>)
    ensures
        match r {
            Ok(t) => org_project_spec(rest@) == Ok::<_, ParseErrKind>((t.0@, t.1@)),
            Err(e) => {
                &&& org_project_spec(rest@) == Err::<(Seq<char>, Seq<char>), _>(e.kind())
                &&& e.input() == url@
            },
        },
{
    let n = rest.unicode_len();
    let slash = match find_char_str(rest, '/') {
        Some(i) => i,
        None => {
            return Err(ParseRepoError::UnparseableURL(url.to_owned()));
        },
    };
    proof {
        lemma_find_char_is(rest@, '/', slash as int);
    }
    let org = rest.substring_char(0, slash);
    let after = rest.substring_char(slash + 1, n);
    let projraw = match find_char_str(after, '/') {
        Some(j) => {
            proof {
                lemma_find_char_is(after@, '/', j as int);
            }
            after.substring_char(0, j)
        },
        None => after,
    };
    let proj = strip_git_str(projraw);
    if org.unicode_len() == 0 || !org_chars_ok_str(org) || !project_chars_ok_str(projraw)
        || proj.unicode_len() == 0 {
        return Err(ParseRepoError::UnparseableURL(url.to_owned()));
    }
    Ok((org.to_owned(), proj.to_owned()))
}

/// Resolves an HTTP(S) reference — optional scheme, allowed host, one
/// organization and one project segment, arbitrary trailing segments
/// discarded — exactly as `http_spec` describes.
pub fn parse_http_url(url: &str) -> (r: Result<(String, String, String), ParseRepoError>)
    ensures
        matches_outcome(http_spec(url@), r, url@),
{
    let n = url.unicode_len();
    let is_https = starts_with(url, "https://");
    let is_http = starts_with(url, "http://");
    proof {
        reveal_strlit("https://");
        reveal_strlit("http://");
        assert("https://"@ =~= scheme_https());
        assert("http://"@ =~= scheme_http());
    }
    if is_https || is_http {
        let t = if is_https {
            url.substring_char(8, n)
        } else {
            url.substring_char(7, n)
        };
        let tn = t.unicode_len();
        match find_char_str(t, '/') {
            None => {
                if str_eq(t, default_host()) {
                    Err(ParseRepoError::UnparseableURL(url.to_owned()))
                } else {
                    Err(ParseRepoError::UnsupportedHost(url.to_owned()))
                }
            },
            Some(h) => {
                proof {
                    lemma_find_char_is(t@, '/', h as int);
                }
                let host = t.substring_char(0, h);
                let rest = t.substring_char(h + 1, tn);
                if !str_eq(host, default_host()) {
                    Err(ParseRepoError::UnsupportedHost(url.to_owned()))
                } else {
                    match parse_org_project(rest, url) {
                        Ok(t) => Ok((default_host().to_owned(), t.0, t.1)),
                        Err(e) => Err(e),
                    }
                }
            },
        }
    } else {
        let hp = starts_with(url, "github.com/");
        proof {
            reveal_strlit("github.com/");
            assert("github.com/"@ =~= host_slash_prefix());
        }
        let t = if hp {
            url.substring_char(11, n)
        } else {
            url
        };
        match parse_org_project(t, url) {
            Ok(t) => Ok((default_host().to_owned(), t.0, t.1)),
            Err(e) => Err(e),
        }
    }
}

/// Resolves a bare `org/project` shorthand against the default host,
/// exactly as `shorthand_spec` describes.
fn parse_shorthand(url: &str) -> (r: Result<(String, String, String), ParseRepoError>)
    ensures
        matches_outcome(shorthand_spec(url@), r, url@),
{
    let n = url.unicode_len();
    match find_single_slash(url) {
        None => Err(ParseRepoError::InvalidShorthand(url.to_owned())),
        Some(i) => {
            proof {
                lemma_find_char_is(url@, '/', i as int);
            }
            let org = url.substring_char(0, i);
            let raw = url.substring_char(i + 1, n);
            let proj = strip_git_str(raw);
            if org.unicode_len() == 0 || proj.unicode_len() == 0 {
                Err(ParseRepoError::InvalidShorthand(url.to_owned()))
            } else {
                Ok((default_host().to_owned(), org.to_owned(), proj.to_owned()))
            }
        },
    }
}

/// Resolves a repository reference of any supported form into its
/// `(host, organization, project)` triple, classifying it exactly as
/// `resolve_spec` describes: SSH first, then HTTP(S), then bare shorthand.
pub fn repository(repo_url: String) -> (r: Result<(String, String, String), ParseRepoError>)
    ensures
        matches_outcome(resolve_spec(repo_url@), r, repo_url@),
{
    if contains_char_str(repo_url.as_str(), '@') && contains_char_str(repo_url.as_str(), ':') {
        return parse_ssh_url(repo_url.as_str());
    }
    let is_https = starts_with(repo_url.as_str(), "https://");
    let is_http = starts_with(repo_url.as_str(), "http://");
    let has_host = starts_with(repo_url.as_str(), "github.com/");
    proof {
        reveal_strlit("https://");
        reveal_strlit("http://");
        reveal_strlit("github.com/");
        assert("https://"@ =~= scheme_https());
        assert("http://"@ =~= scheme_http());
        assert("github.com/"@ =~= host_slash_prefix());
    }
    if is_https || is_http || has_host {
        return parse_http_url(repo_url.as_str());
    }
    match find_single_slash(repo_url.as_str()) {
        Some(_) => parse_shorthand(repo_url.as_str()),
        None => Err(ParseRepoError::NotRecognized(repo_url)),
    }
}

} // verus!
