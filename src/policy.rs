//! Choice of the `Cache-Control` directive for a served path.

use vstd::prelude::*;

use crate::text::{has_prefix, starts_with, same_text};

verus! {

/// The class of caching that a path receives.
#[derive(Clone, Copy, Debug, PartialEq, Eq, Structural)]
pub enum CachePolicy {
    /// Fingerprinted files under `assets/`: one year, immutable.
    Immutable,
    /// The SPA entry document `index.html`: five minutes.
    EntryDocument,
    /// Stylesheets and scripts: one day.
    StyleOrScript,
    /// Images: thirty days.
    Image,
    /// Everything else: one hour.
    ShortTerm,
}

/// `assets/`, the namespace reserved for fingerprinted files.
pub open spec fn asset_prefix() -> Seq<char> {
    seq!['a', 's', 's', 'e', 't', 's', '/']
}

/// `index.html`, the SPA entry document.
pub open spec fn index_path() -> Seq<char> {
    seq!['i', 'n', 'd', 'e', 'x', '.', 'h', 't', 'm', 'l']
}

/// Position of the last `c` in `s`, or -1 when `s` holds none.
pub open spec fn last_index_of(s: Seq<char>, c: char) -> int
    decreases s.len(),
{
    if s.len() == 0 {
        -1
    } else if s.last() == c {
        s.len() - 1
    } else {
        last_index_of(s.drop_last(), c)
    }
}

/// The last `/`-separated component of `p`.
pub open spec fn file_name(p: Seq<char>) -> Seq<char> {
    p.subrange(last_index_of(p, '/') + 1, p.len() as int)
}

/// The file extension of `p`: what follows the last `.` of its file name,
/// if the name holds a `.` (so `.css` has the extension `css`).
pub open spec fn extension_of(p: Seq<char>) -> Option<Seq<char>> {
    let name = file_name(p);
    let i = last_index_of(name, '.');
    if i < 0 {
        None
    } else {
        Some(name.subrange(i + 1, name.len() as int))
    }
}

pub open spec fn is_style_or_script_ext(e: Seq<char>) -> bool {
    e == seq!['c', 's', 's'] || e == seq!['j', 's']
}

pub open spec fn is_image_ext(e: Seq<char>) -> bool {
    e == seq!['p', 'n', 'g'] || e == seq!['j', 'p', 'g'] || e == seq!['j', 'p', 'e', 'g']
        || e == seq!['g', 'i', 'f'] || e == seq!['s', 'v', 'g'] || e == seq!['i', 'c', 'o']
}

/// The caching class of a path, by the first rule that applies: the asset
/// namespace, the entry document, then the file extension.
pub open spec fn policy_of(p: Seq<char>) -> CachePolicy {
    if has_prefix(p, asset_prefix()) {
        CachePolicy::Immutable
    } else if p == index_path() {
        CachePolicy::EntryDocument
    } else {
        match extension_of(p) {
            Some(e) => if is_style_or_script_ext(e) {
                CachePolicy::StyleOrScript
            } else if is_image_ext(e) {
                CachePolicy::Image
            } else {
                CachePolicy::ShortTerm
            },
            None => CachePolicy::ShortTerm,
        }
    }
}

impl CachePolicy {
    /// The `Cache-Control` header value of this class.
    pub open spec fn directive_spec(self) -> Seq<char> {
        match self {
            CachePolicy::Immutable => "public, max-age=31536000, immutable"@,
            CachePolicy::EntryDocument => "public, max-age=300"@,
            CachePolicy::StyleOrScript => "public, max-age=86400"@,
            CachePolicy::Image => "public, max-age=2592000"@,
            CachePolicy::ShortTerm => "public, max-age=3600"@,
        }
    }

    /// The `Cache-Control` header value of this class.
    pub fn directive(&self) -> (r: &'static str)
        ensures
            r@ == self.directive_spec(),
    {
        match self {
            CachePolicy::Immutable => "public, max-age=31536000, immutable",
            CachePolicy::EntryDocument => "public, max-age=300",
            CachePolicy::StyleOrScript => "public, max-age=86400",
            CachePolicy::Image => "public, max-age=2592000",
            CachePolicy::ShortTerm => "public, max-age=3600",
        }
    }
}

proof fn lemma_last_index_bounds(s: Seq<char>, c: char)
    ensures
        -1 <= last_index_of(s, c) < s.len(),
        last_index_of(s, c) >= 0 ==> s[last_index_of(s, c)] == c,
    decreases s.len(),
{
    if s.len() > 0 && s.last() != c {
        lemma_last_index_bounds(s.drop_last(), c);
    }
}

/// Position of the last `c` in `s`, if any.
fn find_last(s: &str, c: char) -> (r: Option<usize>)
    ensures
        match r {
            Some(i) => i == last_index_of(s@, c),
            None => last_index_of(s@, c) == -1,
        },
{
    let n = s.unicode_len();
    let mut i: usize = n;
    assert(s@.subrange(0, n as int) =~= s@);
    while i > 0
        invariant
            n == s@.len(),
            i <= n,
            last_index_of(s@, c) == last_index_of(s@.subrange(0, i as int), c),
        decreases i,
    {
        let sub = Ghost(s@.subrange(0, i as int));
        assert(sub@.drop_last() =~= s@.subrange(0, i - 1));
        if s.get_char(i - 1) == c {
            return Some(i - 1);
        }
        i = i - 1;
    }
    None
}

/// The file extension of `path`, as `extension_of` defines it.
pub fn extension(path: &str) -> (r: Option<&str>)
    ensures
        match r {
            Some(e) => extension_of(path@) == Some(e@),
            None => extension_of(path@) is None,
        },
{
    let n = path.unicode_len();
    proof {
        lemma_last_index_bounds(path@, '/');
    }
    let start: usize = match find_last(path, '/') {
        Some(i) => i + 1,
        None => 0,
    };
    let name = path.substring_char(start, n);
    assert(name@ == file_name(path@));
    proof {
        lemma_last_index_bounds(name@, '.');
    }
    match find_last(name, '.') {
        Some(dot) => {
            let m = name.unicode_len();
            Some(name.substring_char(dot + 1, m))
        },
        None => None,
    }
}

/// The caching class of `path`.
pub fn cache_policy(path: &str) -> (r: CachePolicy)
    ensures
        r == policy_of(path@),
{
    proof {
        reveal_strlit("assets/");
        reveal_strlit("index.html");
        reveal_strlit("css");
        reveal_strlit("js");
        reveal_strlit("png");
        reveal_strlit("jpg");
        reveal_strlit("jpeg");
        reveal_strlit("gif");
        reveal_strlit("svg");
        reveal_strlit("ico");
    }
    if starts_with(path, "assets/") {
        assert("assets/"@ =~= asset_prefix());
        CachePolicy::Immutable
    } else if same_text(path, "index.html") {
        assert("index.html"@ =~= index_path());
        CachePolicy::EntryDocument
    } else {
        assert("assets/"@ =~= asset_prefix());
        assert("index.html"@ =~= index_path());
        match extension(path) {
            Some(e) => {
                assert("css"@ =~= seq!['c', 's', 's']);
                assert("js"@ =~= seq!['j', 's']);
                assert("png"@ =~= seq!['p', 'n', 'g']);
                assert("jpg"@ =~= seq!['j', 'p', 'g']);
                assert("jpeg"@ =~= seq!['j', 'p', 'e', 'g']);
                assert("gif"@ =~= seq!['g', 'i', 'f']);
                assert("svg"@ =~= seq!['s', 'v', 'g']);
                assert("ico"@ =~= seq!['i', 'c', 'o']);
                if same_text(e, "css") || same_text(e, "js") {
                    CachePolicy::StyleOrScript
                } else if same_text(e, "png") || same_text(e, "jpg") || same_text(e, "jpeg")
                    || same_text(e, "gif") || same_text(e, "svg") || same_text(e, "ico") {
                    CachePolicy::Image
                } else {
                    CachePolicy::ShortTerm
                }
            },
            None => CachePolicy::ShortTerm,
        }
    }
}

/// The `Cache-Control` header value for `path`.
pub fn cache_control_for(path: &str) -> (r: &'static str)
    ensures
        r@ == policy_of(path@).directive_spec(),
{
    cache_policy(path).directive()
}

} // verus!
