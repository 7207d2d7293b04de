//! The library's own model of a resolved server URL: scheme, host, port and
//! the absolute path of the API root. Parsing a user-supplied address is
//! delegated to the `url` crate through a trusted wrapper that hands back
//! plain strings; everything built on top of the parts is verified.

use vstd::prelude::*;

use crate::text::{dec_chars, u64_to_dec};

verus! {

/// What the `url` crate's parser extracts from a server address: scheme,
/// host and path, as plain text. The result is a function of the input
/// text alone.
pub uninterp spec fn parsed_server_of(s: Seq<char>) -> Option<(Seq<char>, Seq<char>, Seq<char>)>;

/// Relies on `url::Url::parse` and the accessors `scheme`, `host_str` and
/// `path`: parsing is deterministic in the input text; `scheme` returns the
/// parsed scheme, `host_str` the host when there is one, `path` the path.
/// `None` when the text does not parse or the URL has no host.
#[verifier::external_body]
pub fn parse_server_address(s: &str) -> (r: Option<(String, String, String)>)
    ensures
        r is Some <==> parsed_server_of(s@) is Some,
        r matches Some(p) ==> parsed_server_of(s@) == Some((p.0@, p.1@, p.2@)),
{
    match url::Url::parse(s) {
        Ok(u) => match u.host_str() {
            Some(h) => Some((u.scheme().to_string(), h.to_string(), u.path().to_string())),
            None => None,
        },
        Err(_) => None,
    }
}

/// The position of the last `/` in `s`, or -1 when there is none.
pub open spec fn last_slash(s: Seq<char>) -> int
    decreases s.len(),
{
    if s.len() == 0 {
        -1
    } else if s.last() == '/' {
        s.len() - 1
    } else {
        last_slash(s.drop_last())
    }
}

/// The prefix of `s` up to and including its last `/`; empty when `s` has
/// no slash.
pub open spec fn dir_prefix(s: Seq<char>) -> Seq<char> {
    s.take(last_slash(s) + 1)
}

proof fn lemma_last_slash_bounds(s: Seq<char>)
    ensures
        -1 <= last_slash(s) < s.len(),
        last_slash(s) >= 0 ==> s[last_slash(s)] == '/',
        forall|j: int| last_slash(s) < j < s.len() ==> s[j] != '/',
    decreases s.len(),
{
    if s.len() > 0 && s.last() != '/' {
        lemma_last_slash_bounds(s.drop_last());
        assert forall|j: int| last_slash(s) < j < s.len() implies s[j] != '/' by {
            if j < s.len() - 1 {
                assert(s.drop_last()[j] == s[j]);
            }
        }
    }
}

/// The prefix of `path` up to and including its last `/`, as a string.
pub fn dir_prefix_of(path: &str) -> (r: String)
    requires
        path@.len() > 0,
        path@[0] == '/',
    ensures
        r@ == dir_prefix(path@),
        r@.len() > 0,
        r@[0] == '/',
        r@.last() == '/',
{
    let n = path.unicode_len();
    let mut j: usize = n;
    proof {
        lemma_last_slash_bounds(path@);
    }
    loop
        invariant
            0 < j <= n,
            n == path@.len(),
            path@[0] == '/',
            forall|k: int| j <= k < n ==> path@[k] != '/',
        decreases j,
    {
        let c = path.get_char(j - 1);
        if c == '/' {
            proof {
                lemma_last_slash_bounds(path@);
                let ls = last_slash(path@);
                assert(ls == j - 1) by {
                    if ls < j - 1 {
                        assert(path@[j - 1] != '/');
                    }
                    if ls > j - 1 {
                        assert(path@[ls] != '/');
                    }
                }
            }
            let r = path.substring_char(0, j).to_owned();
            assert(r@ =~= dir_prefix(path@));
            return r;
        }
        j = j - 1;
        assert(j > 0) by {
            if j == 0 {
                assert(path@[0] != '/');
            }
        }
    }
}

/// A resolved server root: every request URL is built from these parts.
pub struct ServerUrl {
    pub scheme: String,
    pub host: String,
    pub port: u16,
    /// Absolute path of the API root; starts and ends with `/`.
    pub root_path: String,
}

impl ServerUrl {
    /// Well-formedness: nonempty scheme and host, and an absolute API-root
    /// path that starts and ends with `/`.
    pub open spec fn wf(&self) -> bool {
        self.scheme@.len() > 0 && self.host@.len() > 0 && self.root_path@.len() > 0
            && self.root_path@[0] == '/' && self.root_path@.last() == '/'
    }

    /// The serialization of the server root:
    /// `scheme://host:port<root_path>`.
    pub open spec fn base_chars(&self) -> Seq<char> {
        self.scheme@ + "://"@ + self.host@ + ":"@ + dec_chars(self.port as nat) + self.root_path@
    }

    /// The serialization of the server root with the final path segment of
    /// the API root removed: `scheme://host:port<parent of root_path>`.
    pub open spec fn parent_base_chars(&self) -> Seq<char> {
        self.scheme@ + "://"@ + self.host@ + ":"@ + dec_chars(self.port as nat) + parent_dir(
            self.root_path@,
        )
    }

    /// Renders `scheme://host:port<root_path>`.
    pub fn base_string(&self) -> (r: String)
        ensures
            r@ == self.base_chars(),
    {
        let mut r = self.scheme.clone();
        r.append("://");
        r.append(self.host.as_str());
        r.append(":");
        let p = u64_to_dec(self.port as u64);
        r.append(p.as_str());
        r.append(self.root_path.as_str());
        r
    }

    /// Renders `scheme://host:port<parent of root_path>`.
    pub fn parent_base_string(&self) -> (r: String)
        requires
            self.wf(),
        ensures
            r@ == self.parent_base_chars(),
    {
        let mut r = self.scheme.clone();
        r.append("://");
        r.append(self.host.as_str());
        r.append(":");
        let p = u64_to_dec(self.port as u64);
        r.append(p.as_str());
        let parent = parent_dir_of(&self.root_path);
        r.append(parent.as_str());
        r
    }
}

/// For every server address that parses to a scheme, a host and the root
/// path `/`, and every port, the stored server root resolved from it
/// serializes as `scheme://host:port/emby/`.
pub proof fn lemma_server_url_resolution(u: ServerUrl, scheme: Seq<char>, host: Seq<char>, port: u16)
    requires
        u.scheme@ == scheme,
        u.host@ == host,
        u.port == port,
        u.root_path@ == dir_prefix(seq!['/']) + "emby/"@,
    ensures
        u.base_chars() == scheme + "://"@ + host + ":"@ + dec_chars(port as nat) + "/emby/"@,
{
    reveal_strlit("emby/");
    reveal_strlit("/emby/");
    assert(last_slash(seq!['/']) == 0);
    assert(dir_prefix(seq!['/']) =~= seq!['/']);
    assert(seq!['/'] + "emby/"@ =~= "/emby/"@);
}

/// The path with its last segment removed: the prefix of `s` without its
/// trailing slash, cut after the last remaining `/`. The root path `/` is
/// its own parent.
pub open spec fn parent_dir(s: Seq<char>) -> Seq<char> {
    if s =~= seq!['/'] {
        seq!['/']
    } else {
        dir_prefix(s.drop_last())
    }
}

/// Removes the last segment of an absolute path that ends with `/`.
pub fn parent_dir_of(path: &String) -> (r: String)
    requires
        path@.len() > 0,
        path@[0] == '/',
        path@.last() == '/',
    ensures
        r@ == parent_dir(path@),
{
    let n = path.as_str().unicode_len();
    if n == 1 {
        assert(path@ =~= seq!['/']);
        let r = String::from_str("/");
        proof {
            reveal_strlit("/");
        }
        assert(r@ =~= seq!['/']);
        return r;
    }
    assert(!(path@ =~= seq!['/']));
    let head = path.as_str().substring_char(0, n - 1);
    assert(head@ =~= path@.drop_last());
    assert(head@[0] == '/');
    dir_prefix_of(head)
}

} // verus!
