//! The command lists and texts of one backup run.

use vstd::prelude::*;
use crate::naming::{mib_spec, mib_text, remote_url, remote_url_spec, Endpoint, Target};
use crate::text::{dec, decimal};

verus! {

/// `cd dir && cmd`.
pub open spec fn in_dir(dir: Seq<char>, cmd: Seq<char>) -> Seq<char> {
    "cd "@ + dir + " && "@ + cmd
}

fn in_dir_text(dir: &str, cmd: &str) -> (r: String)
    ensures
        r@ == in_dir(dir@, cmd@),
{
    let mut s = String::from_str("cd ");
    s.append(dir);
    s.append(" && ");
    s.append(cmd);
    s
}

/// The commands that initialise the staging repository, in order.
pub open spec fn setup_spec(dir: Seq<char>, e: Endpoint) -> Seq<Seq<char>> {
    seq![
        in_dir(dir, "git init"@),
        in_dir(dir, "git config user.name \""@ + e.username@ + "\""@),
        in_dir(dir, "git config user.email \""@ + e.username@ + "@backup.local\""@),
        in_dir(dir, "git config http.postBuffer 524288000"@),
        in_dir(dir, "git config http.timeout 300"@),
        in_dir(dir, "git config core.compression 9"@),
        in_dir(dir, "git config push.default simple"@),
        in_dir(dir, "git config pull.rebase false"@),
        in_dir(dir, "git remote add origin "@ + remote_url_spec(e)),
    ]
}

/// The commands that initialise the staging repository `dir`.
pub fn setup_commands(dir: &str, e: &Endpoint) -> (r: Vec<String>)
    ensures
        r@.len() == 9,
        forall|k: int| 0 <= k < 9 ==> #[trigger] r@[k]@ == setup_spec(dir@, *e)[k],
{
    let mut v: Vec<String> = Vec::new();
    v.push(in_dir_text(dir, "git init"));
    let mut name = String::from_str("git config user.name \"");
    name.append(e.username.as_str());
    name.append("\"");
    v.push(in_dir_text(dir, name.as_str()));
    let mut mail = String::from_str("git config user.email \"");
    mail.append(e.username.as_str());
    mail.append("@backup.local\"");
    v.push(in_dir_text(dir, mail.as_str()));
    v.push(in_dir_text(dir, "git config http.postBuffer 524288000"));
    v.push(in_dir_text(dir, "git config http.timeout 300"));
    v.push(in_dir_text(dir, "git config core.compression 9"));
    v.push(in_dir_text(dir, "git config push.default simple"));
    v.push(in_dir_text(dir, "git config pull.rebase false"));
    let remote = String::from_str("git remote add origin ").concat(remote_url(e).as_str());
    v.push(in_dir_text(dir, remote.as_str()));
    v
}

/// The probe for a `main` branch on the remote.
pub open spec fn probe_spec(dir: Seq<char>) -> Seq<char> {
    in_dir(dir, "git ls-remote --heads origin main"@)
}

/// The probe for a `main` branch on the remote.
pub fn probe_command(dir: &str) -> (r: String)
    ensures
        r@ == probe_spec(dir@),
{
    in_dir_text(dir, "git ls-remote --heads origin main")
}

/// The branch used when the probe for `main` succeeded or not.
pub open spec fn branch_spec(main_found: bool) -> Seq<char> {
    if main_found { "main"@ } else { "master"@ }
}

/// The branch used when the probe for `main` succeeded or not.
pub fn branch_for(main_found: bool) -> (r: String)
    ensures
        r@ == branch_spec(main_found),
{
    if main_found {
        String::from_str("main")
    } else {
        String::from_str("master")
    }
}

/// The commands that bring the remote branch into the staging repository.
pub open spec fn sync_spec(dir: Seq<char>, b: Seq<char>) -> Seq<Seq<char>> {
    seq![
        in_dir(dir, "git fetch origin "@ + b + " || true"@),
        in_dir(dir, "(git checkout "@ + b + " || git checkout -b "@ + b + ")"@),
        in_dir(dir, "git pull origin "@ + b + " --no-edit || true"@),
    ]
}

/// The synchronisation command at position `k`.
pub fn sync_command(k: usize, dir: &str, b: &str) -> (r: String)
    requires
        k < 3,
    ensures
        r@ == sync_spec(dir@, b@)[k as int],
{
    let mut s = if k == 0 {
        String::from_str("git fetch origin ")
    } else if k == 1 {
        String::from_str("(git checkout ")
    } else {
        String::from_str("git pull origin ")
    };
    s.append(b);
    if k == 0 {
        s.append(" || true");
    } else if k == 1 {
        s.append(" || git checkout -b ");
        s.append(b);
        s.append(")");
    } else {
        s.append(" --no-edit || true");
    }
    in_dir_text(dir, s.as_str())
}

/// The commit message of a run.
pub open spec fn message_spec(folder: Seq<char>, count: nat, total: u64, stamp: Seq<char>) -> Seq<char> {
    "Backup "@ + folder + " - "@ + dec(count) + " archives ("@ + mib_spec(total) + " MB) - MSK "@ + stamp
}

/// The commands that publish the run, in order.
pub open spec fn publish_spec(dir: Seq<char>, b: Seq<char>, message: Seq<char>) -> Seq<Seq<char>> {
    seq![
        in_dir(dir, "git add ."@),
        in_dir(dir, "git commit -m '"@ + message + "'"@),
        in_dir(dir, "git pull origin "@ + b + " --no-edit"@),
        in_dir(dir, "git push origin "@ + b),
    ]
}

/// The publishing command at position `k`.
pub fn publish_command(k: usize, dir: &str, b: &str, folder: &str, count: u64, total: u64, stamp: &str) -> (r: String)
    requires
        k < 4,
    ensures
        r@ == publish_spec(dir@, b@, message_spec(folder@, count as nat, total, stamp@))[k as int],
{
    if k == 0 {
        in_dir_text(dir, "git add .")
    } else if k == 1 {
        let mut s = String::from_str("git commit -m 'Backup ");
        s.append(folder);
        s.append(" - ");
        s.append(decimal(count).as_str());
        s.append(" archives (");
        s.append(mib_text(total).as_str());
        s.append(" MB) - MSK ");
        s.append(stamp);
        s.append("'");
        proof {
            reveal_strlit("git commit -m 'Backup ");
            reveal_strlit("git commit -m '");
            reveal_strlit("Backup ");
            assert("git commit -m 'Backup "@ =~= "git commit -m '"@ + "Backup "@);
        }
        assert(s@ =~= "git commit -m '"@ + message_spec(folder@, count as nat, total, stamp@) + "'"@);
        in_dir_text(dir, s.as_str())
    } else if k == 2 {
        let mut s = String::from_str("git pull origin ");
        s.append(b);
        s.append(" --no-edit");
        in_dir_text(dir, s.as_str())
    } else {
        in_dir_text(dir, String::from_str("git push origin ").concat(b).as_str())
    }
}

/// The exclusion policy written into a fresh staging repository.
pub open spec fn ignore_spec() -> Seq<char> {
    "# Temporary files\n*.tmp\n*.temp\n*.log\n*.pid\n*.swp\n*.swo\n*~\n\n# System files\n.DS_Store\nThumbs.db\ndesktop.ini\n\n# Disk images\n*.iso\n*.img\n*.dmg\n*.vdi\n*.vmdk\n\n# Caches\n*.cache\ncache/\n.cache/\nnode_modules/\n.npm/\n.yarn/\n\n# Keys and certificates\n*.key\n*.pem\n*.p12\n*.pfx\nid_rsa\nid_ecdsa\nid_ed25519\n"@
}

/// The default exclusion policy.
pub fn ignore_policy() -> (r: String)
    ensures
        r@ == ignore_spec(),
{
    String::from_str(
        "# Temporary files\n*.tmp\n*.temp\n*.log\n*.pid\n*.swp\n*.swo\n*~\n\n# System files\n.DS_Store\nThumbs.db\ndesktop.ini\n\n# Disk images\n*.iso\n*.img\n*.dmg\n*.vdi\n*.vmdk\n\n# Caches\n*.cache\ncache/\n.cache/\nnode_modules/\n.npm/\n.yarn/\n\n# Keys and certificates\n*.key\n*.pem\n*.p12\n*.pfx\nid_rsa\nid_ecdsa\nid_ed25519\n",
    )
}

/// The contents of the exclusion policy file after writing `policy` only
/// where no file stands yet (`existing` is the present file, if any).
pub open spec fn after_policy_write(existing: Option<Seq<char>>, policy: Seq<char>) -> Seq<char> {
    match existing {
        Some(c) => c,
        None => policy,
    }
}

/// What to write as the exclusion policy: nothing where a file stands.
pub fn policy_to_write(exists: bool) -> (r: Option<String>)
    ensures
        exists ==> r is None,
        !exists ==> (r matches Some(p) && p@ == ignore_spec()),
{
    if exists {
        None
    } else {
        Some(ignore_policy())
    }
}

/// Writing the exclusion policy a second time, with nothing removed in
/// between, leaves what the first write left.
pub proof fn lemma_policy_write_idempotent(existing: Option<Seq<char>>, policy: Seq<char>)
    ensures
        after_policy_write(Some(after_policy_write(existing, policy)), policy) == after_policy_write(existing, policy),
{
}

/// One line of the manifest's archive list.
pub open spec fn archive_line(a: (String, Option<u64>)) -> Seq<char> {
    match a.1 {
        Some(n) => "  "@ + a.0@ + " ("@ + mib_spec(n) + " MB)\n"@,
        None => "  "@ + a.0@ + " (size unknown)\n"@,
    }
}

/// The manifest's archive list.
pub open spec fn archive_lines(a: Seq<(String, Option<u64>)>) -> Seq<char>
    decreases a.len(),
{
    if a.len() == 0 {
        Seq::empty()
    } else {
        archive_lines(a.drop_last()) + archive_line(a.last())
    }
}

/// The manifest's list of source paths.
pub open spec fn path_lines(t: Seq<Target>) -> Seq<char>
    decreases t.len(),
{
    if t.len() == 0 {
        Seq::empty()
    } else {
        path_lines(t.drop_last()) + "  "@ + t.last().path@ + "\n"@
    }
}

/// Renders the manifest's archive list.
pub fn archive_list(a: &Vec<(String, Option<u64>)>) -> (r: String)
    ensures
        r@ == archive_lines(a@),
{
    let mut s = String::new();
    let mut i: usize = 0;
    while i < a.len()
        invariant
            i <= a@.len(),
            s@ == archive_lines(a@.subrange(0, i as int)),
        decreases a@.len() - i,
    {
        assert(a@.subrange(0, i + 1).drop_last() =~= a@.subrange(0, i as int));
        s.append("  ");
        s.append(a[i].0.as_str());
        match a[i].1 {
            Some(n) => {
                s.append(" (");
                s.append(mib_text(n).as_str());
                s.append(" MB)\n");
            },
            None => s.append(" (size unknown)\n"),
        }
        i = i + 1;
    }
    assert(a@.subrange(0, a@.len() as int) =~= a@);
    s
}

/// Renders the manifest's list of source paths.
pub fn path_list(t: &Vec<Target>) -> (r: String)
    ensures
        r@ == path_lines(t@),
{
    let mut s = String::new();
    let mut i: usize = 0;
    while i < t.len()
        invariant
            i <= t@.len(),
            s@ == path_lines(t@.subrange(0, i as int)),
        decreases t@.len() - i,
    {
        assert(t@.subrange(0, i + 1).drop_last() =~= t@.subrange(0, i as int));
        s.append("  ");
        s.append(t[i].path.as_str());
        s.append("\n");
        i = i + 1;
    }
    assert(t@.subrange(0, t@.len() as int) =~= t@);
    s
}

} // verus!
