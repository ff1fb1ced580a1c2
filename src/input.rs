//! Reading settings that the user types in.

use vstd::prelude::*;
use crate::config::Config;

verus! {

/// `s` with every occurrence of `p` removed, scanning from the left.
pub open spec fn strip_all(s: Seq<char>, p: Seq<char>) -> Seq<char>
    decreases s.len(),
{
    if s.len() == 0 || p.len() == 0 {
        s
    } else if p.len() <= s.len() && s.subrange(0, p.len() as int) == p {
        strip_all(s.subrange(p.len() as int, s.len() as int), p)
    } else {
        seq![s[0]] + strip_all(s.subrange(1, s.len() as int), p)
    }
}

/// The position of the last `/` in `s`, or -1.
pub open spec fn last_slash(s: Seq<char>) -> int
    decreases s.len(),
{
    if s.len() == 0 {
        -1
    } else if s.last() == '/' {
        s.len() - 1
    } else {
        last_slash(s.drop_last())
    }
}

/// `s` without its leading slashes.
pub open spec fn trim_slashes(s: Seq<char>) -> Seq<char>
    decreases s.len(),
{
    if s.len() > 0 && s[0] == '/' {
        trim_slashes(s.subrange(1, s.len() as int))
    } else {
        s
    }
}

/// A repository address split into its host part and repository path, at
/// the last `/`, once the scheme is removed.
pub open spec fn split_spec(input: Seq<char>) -> Option<(Seq<char>, Seq<char>)> {
    let c = strip_all(input, "https://"@);
    let k = last_slash(c);
    if k < 0 {
        None
    } else {
        Some((c.subrange(0, k), trim_slashes(c.subrange(k, c.len() as int))))
    }
}

fn strip_scheme(s: &str) -> (r: String)
    ensures
        r@ == strip_all(s@, "https://"@),
{
    let p = "https://";
    proof { reveal_strlit("https://"); }
    let n = s.unicode_len();
    let m = p.unicode_len();
    let mut out = String::new();
    let mut i: usize = 0;
    assert(s@.subrange(0, n as int) =~= s@);
    while i < n
        invariant
            n == s@.len(),
            m == p@.len(),
            m == 8,
            p@ == "https://"@,
            i <= n,
            out@ + strip_all(s@.subrange(i as int, n as int), p@) == strip_all(s@, p@),
        decreases n - i,
    {
        let ghost rest = s@.subrange(i as int, n as int);
        if m <= n - i && String::from_str(s.substring_char(i, i + m)) == String::from_str(p) {
            assert(rest.subrange(0, m as int) =~= s@.subrange(i as int, i + m));
            assert(rest.subrange(m as int, rest.len() as int) =~= s@.subrange(i + m, n as int));
            i = i + m;
        } else {
            if m <= n - i {
                assert(rest.subrange(0, m as int) =~= s@.subrange(i as int, i + m));
            }
            let c = s.substring_char(i, i + 1);
            assert(rest.subrange(1, rest.len() as int) =~= s@.subrange(i + 1, n as int));
            assert(c@ =~= seq![rest[0]]);
            proof {
                assert(out@ + c@ + strip_all(s@.subrange(i + 1, n as int), p@) =~= out@ + strip_all(rest, p@));
            }
            out.append(c);
            i = i + 1;
        }
    }
    assert(s@.subrange(n as int, n as int) =~= Seq::<char>::empty());
    out
}

fn find_last_slash(s: &str) -> (r: Option<usize>)
    ensures
        r is None <==> last_slash(s@) < 0,
        r matches Some(k) ==> k as int == last_slash(s@) && k < s@.len(),
{
    let n = s.unicode_len();
    let mut j: usize = n;
    assert(s@.subrange(0, n as int) =~= s@);
    while j > 0
        invariant
            n == s@.len(),
            j <= n,
            last_slash(s@.subrange(0, j as int)) == last_slash(s@),
        decreases j,
    {
        let ghost prefix = s@.subrange(0, j as int);
        if s.get_char(j - 1) == '/' {
            return Some(j - 1);
        }
        assert(prefix.drop_last() =~= s@.subrange(0, j - 1));
        j = j - 1;
    }
    None
}

fn trim_leading_slashes(s: &str) -> (r: &str)
    ensures
        r@ == trim_slashes(s@),
{
    let n = s.unicode_len();
    let mut k: usize = 0;
    assert(s@.subrange(0, n as int) =~= s@);
    while k < n && s.get_char(k) == '/'
        invariant
            n == s@.len(),
            k <= n,
            trim_slashes(s@.subrange(k as int, n as int)) == trim_slashes(s@),
        decreases n - k,
    {
        let ghost t = s@.subrange(k as int, n as int);
        assert(t.subrange(1, t.len() as int) =~= s@.subrange(k + 1, n as int));
        k = k + 1;
    }
    s.substring_char(k, n)
}

/// Splits a typed repository address into the host part and the
/// repository path; `None` when it holds no `/` once the scheme is removed.
pub fn split_repo_url(input: &str) -> (r: Option<(String, String)>)
    ensures
        r is None <==> split_spec(input@) is None,
        r matches Some((h, p)) ==> split_spec(input@) == Some((h@, p@)),
{
    let c = strip_scheme(input);
    match find_last_slash(c.as_str()) {
        None => None,
        Some(k) => {
            let n = c.as_str().unicode_len();
            let host = String::from_str(c.as_str().substring_char(0, k));
            let tail = c.as_str().substring_char(k, n);
            let repo = String::from_str(trim_leading_slashes(tail));
            Some((host, repo))
        },
    }
}

impl Config {
    /// Adds `path` to the backup paths unless it is there already; says
    /// whether it was added.
    pub fn add_path(&mut self, path: String) -> (added: bool)
        ensures
            added == !(exists|i: int| 0 <= i < old(self).backup_paths@.len() && (#[trigger] old(self).backup_paths@[i])@ == path@),
            added ==> final(self).backup_paths@ == old(self).backup_paths@.push(path),
            !added ==> final(self).backup_paths@ == old(self).backup_paths@,
            final(self).gitea_url == old(self).gitea_url,
            final(self).gitea_repo == old(self).gitea_repo,
            final(self).gitea_username == old(self).gitea_username,
            final(self).gitea_password == old(self).gitea_password,
            final(self).backup_name == old(self).backup_name,
            final(self).backup_time == old(self).backup_time,
            final(self).backup_frequency == old(self).backup_frequency,
            final(self).last_backup == old(self).last_backup,
    {
        let mut i: usize = 0;
        while i < self.backup_paths.len()
            invariant
                self == old(self),
                i <= self.backup_paths@.len(),
                forall|j: int| 0 <= j < i ==> (#[trigger] self.backup_paths@[j])@ != path@,
            decreases self.backup_paths@.len() - i,
        {
            if self.backup_paths[i] == path {
                return false;
            }
            i = i + 1;
        }
        self.backup_paths.push(path);
        true
    }
}

} // verus!
