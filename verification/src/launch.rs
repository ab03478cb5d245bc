//! The decisions the TUI makes when it starts: whether a server is already
//! running, how to start one, and which directory depth to scan.

use vstd::prelude::*;

verus! {

/// The directory depth scanned when the command line names none.
pub const MAX_DEPTH: usize = 4;

/// Whether `needle` occurs in `hay` as a contiguous run.
pub open spec fn contains_seq(hay: Seq<char>, needle: Seq<char>) -> bool {
    exists|k: int|
        0 <= k && k + needle.len() <= hay.len() && #[trigger] hay.subrange(k, k + needle.len())
            == needle
}

/// The name of the server's executable.
pub open spec fn spec_server_binary() -> Seq<char> {
    seq!['t', 'e', 'r', 'm', 'u', 's', 'i', 'c', '-', 's', 'e', 'r', 'v', 'e', 'r']
}

/// The name of the server's executable.
pub fn server_binary() -> (res: &'static str)
    ensures
        res@ == spec_server_binary(),
{
    let s = "termusic-server";
    proof {
        reveal_strlit("termusic-server");
    }
    s
}

/// Whether the executable path of a process names the server.
pub open spec fn is_server_exe(exe: Seq<char>) -> bool {
    contains_seq(exe, spec_server_binary())
}

fn chars_of(s: &str) -> (res: Vec<char>)
    ensures
        res@ == s@,
{
    let n = s.unicode_len();
    let mut res: Vec<char> = Vec::new();
    let mut i: usize = 0;
    while i < n
        invariant
            n == s@.len(),
            i <= n,
            res@ == s@.subrange(0, i as int),
        decreases n - i,
    {
        let c = s.get_char(i);
        res.push(c);
        i += 1;
        assert(res@ == s@.subrange(0, i as int));
    }
    res
}

fn matches_at(hay: &Vec<char>, needle: &Vec<char>, k: usize) -> (res: bool)
    requires
        k + needle@.len() <= hay@.len(),
    ensures
        res == (hay@.subrange(k as int, k + needle@.len()) == needle@),
{
    let hay_len = hay.len();
    let mut j: usize = 0;
    while j < needle.len()
        invariant
            hay_len == hay@.len(),
            k + needle@.len() <= hay@.len(),
            j <= needle@.len(),
            forall|t: int| 0 <= t < j ==> hay@[k + t] == needle@[t],
        decreases needle.len() - j,
    {
        if hay[k + j] != needle[j] {
            assert(hay@.subrange(k as int, k + needle@.len())[j as int] != needle@[j as int]);
            return false;
        }
        j += 1;
    }
    assert(hay@.subrange(k as int, k + needle@.len()) =~= needle@);
    true
}

/// Whether `needle` occurs in `hay`, as `str::contains` answers it.
pub fn str_contains(hay: &str, needle: &str) -> (res: bool)
    ensures
        res == contains_seq(hay@, needle@),
{
    let h = chars_of(hay);
    let n = chars_of(needle);
    if n.len() > h.len() {
        return false;
    }
    let last = h.len() - n.len();
    let mut k: usize = 0;
    loop
        invariant
            h@ == hay@,
            n@ == needle@,
            last + n@.len() == h@.len(),
            k <= last,
            forall|t: int| 0 <= t < k ==> #[trigger] h@.subrange(t, t + n@.len()) != n@,
        ensures
            forall|t: int| 0 <= t <= last ==> #[trigger] h@.subrange(t, t + n@.len()) != n@,
        decreases last - k,
    {
        if matches_at(&h, &n, k) {
            return true;
        }
        if k == last {
            break;
        }
        k += 1;
    }
    assert forall|t: int| 0 <= t && t + needle@.len() <= hay@.len() implies #[trigger] hay@.subrange(
        t,
        t + needle@.len(),
    ) != needle@ by {
        assert(t <= last);
    }
    false
}

/// The pid of the first process, in the order given, whose executable path
/// names the server; `None` when no process does, and a new server is to
/// be started.
pub fn find_server_pid(processes: &Vec<(u32, String)>) -> (res: Option<u32>)
    ensures
        match res {
            None => forall|i: int|
                0 <= i < processes@.len() ==> !is_server_exe(#[trigger] processes@[i].1@),
            Some(pid) => exists|i: int|
                0 <= i < processes@.len() && processes@[i].0 == pid && is_server_exe(
                    processes@[i].1@,
                ) && forall|j: int|
                    0 <= j < i ==> !is_server_exe(#[trigger] processes@[j].1@),
        },
{
    let name = server_binary();
    let mut i: usize = 0;
    while i < processes.len()
        invariant
            name@ == spec_server_binary(),
            i <= processes@.len(),
            forall|j: int| 0 <= j < i ==> !is_server_exe(#[trigger] processes@[j].1@),
        decreases processes.len() - i,
    {
        if str_contains(processes[i].1.as_str(), name) {
            return Some(processes[i].0);
        }
        i += 1;
    }
    None
}

/// The arguments that a newly started server is given.
pub fn server_args(log_to_file: bool) -> (res: Vec<&'static str>)
    ensures
        log_to_file ==> res@.len() == 1 && res@[0]@ == "--log-to-file"@,
        !log_to_file ==> res@.len() == 0,
{
    let mut args: Vec<&'static str> = Vec::new();
    if log_to_file {
        args.push("--log-to-file");
    }
    args
}

/// The directory depth to scan: the one given on the command line, else `MAX_DEPTH`.
pub fn max_depth_or_default(max_depth: Option<usize>) -> (res: usize)
    ensures
        res == match max_depth {
            Some(d) => d,
            None => MAX_DEPTH,
        },
{
    match max_depth {
        Some(d) => d,
        None => MAX_DEPTH,
    }
}

} // verus!
