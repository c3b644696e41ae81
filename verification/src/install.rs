use vstd::prelude::*;

use crate::platform::Os;

verus! {

/// The directory a fetched version is extracted into:
/// `arduino-language-server-{version}`.
pub open spec fn spec_version_dir(version: Seq<char>) -> Seq<char> {
    "arduino-language-server-"@ + version
}

/// The executable's file name inside a version directory: a bare name on
/// Mac and Linux, an `.exe`-suffixed one on Windows.
pub open spec fn spec_server_binary_name(os: Os) -> Seq<char> {
    match os {
        Os::Mac | Os::Linux => "arduino-language-server"@,
        Os::Windows => "arduino-language-server.exe"@,
    }
}

/// The executable's path inside the version directory for this version and
/// operating system.
pub open spec fn spec_installed_binary_path(version: Seq<char>, os: Os) -> Seq<char> {
    spec_version_dir(version) + "/"@ + spec_server_binary_name(os)
}

pub fn version_dir(version: &String) -> (r: String)
    ensures
        r@ == spec_version_dir(version@),
{
    let mut r = String::from_str("arduino-language-server-");
    r.append(version.as_str());
    r
}

pub fn server_binary_name(os: Os) -> (r: &'static str)
    ensures
        r@ == spec_server_binary_name(os),
{
    match os {
        Os::Mac | Os::Linux => "arduino-language-server",
        Os::Windows => "arduino-language-server.exe",
    }
}

pub fn installed_binary_path(version: &String, os: Os) -> (r: String)
    ensures
        r@ == spec_installed_binary_path(version@, os),
{
    let mut r = version_dir(version);
    r.append("/");
    r.append(server_binary_name(os));
    r
}

/// One immediate child of the working directory, as the host lists it.
#[derive(Debug, PartialEq, Eq, Clone)]
pub struct DirEntry {
    pub name: String,
    pub is_dir: bool,
}

/// The names of the entries that a cleanup pass removes: every directory
/// whose name is not `keep`, in listing order. Files are left alone.
pub open spec fn spec_stale_dirs(entries: Seq<DirEntry>, keep: Seq<char>) -> Seq<Seq<char>>
    decreases entries.len(),
{
    if entries.len() == 0 {
        Seq::<Seq<char>>::empty()
    } else {
        spec_stale_dirs(entries.drop_last(), keep) + (if entries.last().is_dir
            && entries.last().name@ != keep {
            seq![entries.last().name@]
        } else {
            Seq::<Seq<char>>::empty()
        })
    }
}

/// Plan the cleanup pass after a fresh install: list the directories to
/// remove, namely every listed directory other than the version directory
/// that was just created.
pub fn stale_dirs(entries: &Vec<DirEntry>, keep: &String) -> (r: Vec<String>)
    ensures
        r.deep_view() == spec_stale_dirs(entries@, keep@),
{
    let mut r: Vec<String> = Vec::new();
    let mut i: usize = 0;
    proof {
        assert(entries@.take(0int) =~= Seq::<DirEntry>::empty());
    }
    while i < entries.len()
        invariant
            0 <= i <= entries@.len(),
            r.deep_view() == spec_stale_dirs(entries@.take(i as int), keep@),
        decreases entries@.len() - i,
    {
        let ghost pre = entries@.take(i as int);
        let e = &entries[i];
        if e.is_dir && !e.name.eq(keep) {
            r.push(e.name.clone());
        }
        proof {
            assert(entries@.take(i + 1int).drop_last() =~= pre);
            assert(entries@.take(i + 1int).last() == entries@[i as int]);
            if e.is_dir && e.name@ != keep@ {
                assert(r.deep_view() =~= spec_stale_dirs(pre, keep@) + seq![e.name@]);
            }
        }
        i += 1;
    }
    proof {
        assert(entries@.take(entries@.len() as int) =~= entries@);
    }
    r
}

/// What the cleanup plan holds, exactly: a name is planned for removal if
/// and only if some listed entry is a directory of that name other than the
/// one to keep; in particular the fresh version directory itself is never
/// planned for removal, so after the removals it is the only listed
/// directory left.
pub proof fn lemma_stale_dirs_exact(entries: Seq<DirEntry>, keep: Seq<char>, n: Seq<char>)
    ensures
        spec_stale_dirs(entries, keep).contains(n) <==> (n != keep && exists|i: int|
            0 <= i < entries.len() && entries[i].is_dir && entries[i].name@ == n),
    decreases entries.len(),
{
    if entries.len() == 0 {
    } else {
        let front = entries.drop_last();
        lemma_stale_dirs_exact(front, keep, n);
        let last = entries.last();
        let tail: Seq<Seq<char>> = if last.is_dir && last.name@ != keep {
            seq![last.name@]
        } else {
            Seq::<Seq<char>>::empty()
        };
        assert(spec_stale_dirs(entries, keep) == spec_stale_dirs(front, keep) + tail);
        if spec_stale_dirs(front, keep).contains(n) || tail.contains(n) {
            assert(spec_stale_dirs(entries, keep).contains(n)) by {
                if spec_stale_dirs(front, keep).contains(n) {
                    let i = choose|i: int|
                        0 <= i < spec_stale_dirs(front, keep).len() && spec_stale_dirs(
                            front,
                            keep,
                        )[i] == n;
                    assert(spec_stale_dirs(entries, keep)[i] == n);
                } else {
                    let i = choose|i: int| 0 <= i < tail.len() && tail[i] == n;
                    assert(spec_stale_dirs(entries, keep)[spec_stale_dirs(front, keep).len() + i]
                        == n);
                }
            }
        }
        if spec_stale_dirs(entries, keep).contains(n) {
            let i = choose|i: int|
                0 <= i < spec_stale_dirs(entries, keep).len() && spec_stale_dirs(entries, keep)[i]
                    == n;
            if i < spec_stale_dirs(front, keep).len() {
                assert(spec_stale_dirs(front, keep).contains(n));
            } else {
                assert(tail.contains(n));
            }
        }
        if n != keep && exists|i: int|
            0 <= i < entries.len() && entries[i].is_dir && entries[i].name@ == n {
            let i = choose|i: int|
                0 <= i < entries.len() && entries[i].is_dir && entries[i].name@ == n;
            if i < entries.len() - 1 {
                assert(front[i] == entries[i]);
            } else {
                assert(tail.contains(n)) by {
                    assert(tail[0] == n);
                }
            }
        }
    }
}

/// The cleanup pass never removes the version directory just installed:
/// its name is not in the plan.
pub proof fn lemma_cleanup_keeps_new_version(entries: Seq<DirEntry>, keep: Seq<char>)
    ensures
        !spec_stale_dirs(entries, keep).contains(keep),
{
    lemma_stale_dirs_exact(entries, keep, keep);
}

/// After the planned removals, the fresh version directory is the only
/// directory left: a listed directory that the plan spares can only be the
/// one to keep, and directories listed before the install under any other
/// name are all planned for removal.
pub proof fn lemma_one_version_dir_remains(entries: Seq<DirEntry>, keep: Seq<char>, i: int)
    requires
        0 <= i < entries.len(),
        entries[i].is_dir,
        !spec_stale_dirs(entries, keep).contains(entries[i].name@),
    ensures
        entries[i].name@ == keep,
{
    lemma_stale_dirs_exact(entries, keep, entries[i].name@);
}

} // verus!
