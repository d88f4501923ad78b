//! What is said to Cargo and what is read from its answers.
//!
//! The commands are given as argument lists for the `cargo` program; the
//! list of installed binaries is parsed from the text that
//! `cargo install --list` prints.

use vstd::prelude::*;

use crate::cargo::metadata::{binaries_view, InstalledBinary, InstalledBinaryView};
use crate::text::{concat3, str_list};

verus! {

/// The pieces of `s` between line feeds, as `str::split('\n')` gives
/// them: one more piece than there are line feeds.
pub open spec fn split_lines(s: Seq<char>) -> Seq<Seq<char>>
    decreases s.len(),
{
    if s.len() == 0 {
        seq![Seq::empty()]
    } else {
        let before = split_lines(s.drop_last());
        if s.last() == '\n' {
            before.push(Seq::empty())
        } else {
            before.update(before.len() - 1, before.last().push(s.last()))
        }
    }
}

/// The number of spaces in `line`.
pub open spec fn count_spaces(line: Seq<char>) -> nat
    decreases line.len(),
{
    if line.len() == 0 {
        0
    } else {
        count_spaces(line.drop_last()) + if line.last() == ' ' {
            1nat
        } else {
            0nat
        }
    }
}

/// The position of the first space in `line`, or its length where it has
/// none.
pub open spec fn first_space(line: Seq<char>) -> int
    decreases line.len(),
{
    if line.len() == 0 {
        0
    } else {
        let before = first_space(line.drop_last());
        if before < line.len() - 1 {
            before
        } else if line.last() == ' ' {
            line.len() - 1
        } else {
            line.len() as int
        }
    }
}

/// The binary that a line of the list names. Such a line reads
/// `name vVERSION:` — a name without a space, one space, the letter `v`,
/// the version, and one closing character. Every other line (the
/// indented lines that name the executables, among them) names none.
pub open spec fn parse_line(line: Seq<char>) -> Option<InstalledBinaryView> {
    let sp = first_space(line);
    if count_spaces(line) == 1 && 1 <= sp && sp + 3 <= line.len() && line[sp + 1] == 'v' {
        Some(
            InstalledBinaryView {
                name: line.take(sp),
                version: line.subrange(sp + 2, line.len() - 1),
            },
        )
    } else {
        None
    }
}

/// The binaries that the lines name, in order.
pub open spec fn parse_lines(lines: Seq<Seq<char>>) -> Seq<InstalledBinaryView>
    decreases lines.len(),
{
    if lines.len() == 0 {
        Seq::empty()
    } else {
        let before = parse_lines(lines.drop_last());
        match parse_line(lines.last()) {
            Some(b) => before.push(b),
            None => before,
        }
    }
}

/// The binaries that the text of `cargo install --list` names.
pub open spec fn installed_binaries(stdout: Seq<char>) -> Seq<InstalledBinaryView> {
    parse_lines(split_lines(stdout))
}

/// The characters of a string.
fn chars_of(s: &str) -> (r: Vec<char>)
    ensures
        r@ == s@,
{
    let mut out: Vec<char> = Vec::new();
    for c in it: s.chars()
        invariant
            it.seq() == s@,
            out@ == it.seq().take(it.index() as int),
    {
        out.push(c);
        proof {
            assert(out@ =~= it.seq().take(it.index() + 1));
        }
    }
    proof {
        assert(s@.take(s@.len() as int) =~= s@);
    }
    out
}

/// What is known of a line after a look at its characters.
struct LineScan {
    spaces: usize,
    first_space: usize,
}

/// Counts the spaces of the line `chars[start..end]` and finds the first.
fn scan_line(chars: &Vec<char>, start: usize, end: usize) -> (r: LineScan)
    requires
        start <= end <= chars.len(),
    ensures
        r.spaces == count_spaces(chars@.subrange(start as int, end as int)),
        r.first_space == first_space(chars@.subrange(start as int, end as int)),
{
    let ghost line = chars@.subrange(start as int, end as int);
    let mut spaces: usize = 0;
    let mut first: usize = 0;
    let mut i: usize = start;
    proof {
        assert(line.take(0).len() == 0);
    }
    while i < end
        invariant
            start <= i <= end <= chars.len(),
            line == chars@.subrange(start as int, end as int),
            spaces == count_spaces(line.take(i - start)),
            spaces <= i - start,
            first == first_space(line.take(i - start)),
            first <= i - start,
        decreases end - i,
    {
        proof {
            let cur = line.take(i - start + 1);
            assert(cur.drop_last() =~= line.take(i - start));
            assert(cur.last() == chars@[i as int]);
        }
        if chars[i] == ' ' {
            if first == i - start {
                first = i - start;
            }
            spaces += 1;
        } else if first == i - start {
            first = i - start + 1;
        }
        i += 1;
    }
    proof {
        assert(line.take(end - start) =~= line);
    }
    LineScan { spaces, first_space: first }
}

/// The binary that the line `chars[start..end]` of `text` names.
fn parse_line_at(text: &str, chars: &Vec<char>, start: usize, end: usize) -> (r: Option<
    InstalledBinary,
>)
    requires
        chars@ == text@,
        start <= end <= chars.len(),
    ensures
        match r {
            Some(b) => parse_line(chars@.subrange(start as int, end as int)) == Some(b@),
            None => parse_line(chars@.subrange(start as int, end as int)).is_none(),
        },
{
    let ghost line = chars@.subrange(start as int, end as int);
    let scan = scan_line(chars, start, end);
    let sp: usize = scan.first_space;
    if scan.spaces == 1 && 1 <= sp && end - start >= 3 && sp <= end - start - 3 && chars[start
        + sp + 1] == 'v' {
        let name = text.substring_char(start, start + sp).to_owned();
        let version = text.substring_char(start + sp + 2, end - 1).to_owned();
        proof {
            assert(name@ =~= line.take(sp as int));
            assert(version@ =~= line.subrange(sp + 2, line.len() - 1));
        }
        Some(InstalledBinary { name, version })
    } else {
        None
    }
}

/// The binaries that `cargo install --list` reports, read from what it
/// printed: one for each line of the form `name vVERSION:`.
pub fn get_installed_binaries(stdout: &str) -> (r: Vec<InstalledBinary>)
    ensures
        binaries_view(r@) == installed_binaries(stdout@),
{
    let chars = chars_of(stdout);
    let ghost s = chars@;
    let mut packages: Vec<InstalledBinary> = Vec::new();
    let ghost mut done: Seq<Seq<char>> = Seq::empty();
    let mut start: usize = 0;
    let mut i: usize = 0;
    proof {
        assert(s.take(0) =~= Seq::<char>::empty());
        assert(s.subrange(0, 0) =~= Seq::<char>::empty());
        assert(done.push(s.subrange(0, 0)) =~= split_lines(s.take(0)));
        assert(binaries_view(packages@) =~= parse_lines(done));
    }
    while i < chars.len()
        invariant
            start <= i <= chars.len(),
            s == chars@,
            s == stdout@,
            split_lines(s.take(i as int)) == done.push(s.subrange(start as int, i as int)),
            binaries_view(packages@) == parse_lines(done),
        decreases chars.len() - i,
    {
        proof {
            assert(s.take(i + 1).drop_last() =~= s.take(i as int));
            assert(s.take(i + 1).last() == s[i as int]);
        }
        if chars[i] == '\n' {
            let ghost line = s.subrange(start as int, i as int);
            let ghost so_far = binaries_view(packages@);
            match parse_line_at(stdout, &chars, start, i) {
                Some(b) => {
                    packages.push(b);
                    proof {
                        assert(binaries_view(packages@) =~= so_far.push(b@));
                    }
                },
                None => {},
            }
            proof {
                assert(done.push(line).drop_last() =~= done);
                assert(done.push(line).last() == line);
                done = done.push(line);
                assert(s.subrange(i + 1, i + 1) =~= Seq::<char>::empty());
            }
            start = i + 1;
        } else {
            proof {
                let partial = s.subrange(start as int, i as int);
                assert(partial.push(s[i as int]) =~= s.subrange(start as int, i + 1));
                assert(done.push(partial).update(done.len() as int, partial.push(s[i as int]))
                    =~= done.push(s.subrange(start as int, i + 1)));
            }
        }
        i += 1;
    }
    let ghost last_line = s.subrange(start as int, i as int);
    let ghost so_far = binaries_view(packages@);
    match parse_line_at(stdout, &chars, start, i) {
        Some(b) => {
            packages.push(b);
            proof {
                assert(binaries_view(packages@) =~= so_far.push(b@));
            }
        },
        None => {},
    }
    proof {
        assert(s.take(i as int) =~= s);
        assert(done.push(last_line).drop_last() =~= done);
        assert(done.push(last_line).last() == last_line);
    }
    packages
}

/// The name of a crate with the version asked for: `name@version`, or the
/// bare name where no version is named.
pub open spec fn spec_crate_spec(crate_name: Seq<char>, version: Option<Seq<char>>) -> Seq<char> {
    match version {
        Some(v) => crate_name + "@"@ + v,
        None => crate_name,
    }
}

/// The name of a crate with the version asked for.
fn crate_spec(crate_name: String, version: Option<String>) -> (r: String)
    ensures
        r@ == spec_crate_spec(
            crate_name@,
            match version {
                Some(v) => Some(v@),
                None => None,
            },
        ),
{
    match version {
        Some(v) => concat3(crate_name.as_str(), "@", v.as_str()),
        None => crate_name,
    }
}

/// The arguments with which `cargo` reports the metadata of a manifest.
pub fn get_metadata(manifest_path: &str) -> (r: Vec<String>)
    ensures
        str_list(r@) == seq![
            "metadata"@,
            "--no-deps"@,
            "--format-version"@,
            "1"@,
            "--manifest-path"@,
            manifest_path@,
        ],
{
    let mut args: Vec<String> = Vec::new();
    args.push(String::from_str("metadata"));
    args.push(String::from_str("--no-deps"));
    args.push(String::from_str("--format-version"));
    args.push(String::from_str("1"));
    args.push(String::from_str("--manifest-path"));
    args.push(String::from_str(manifest_path));
    proof {
        assert(str_list(args@) =~= seq![
            "metadata"@,
            "--no-deps"@,
            "--format-version"@,
            "1"@,
            "--manifest-path"@,
            manifest_path@,
        ]);
    }
    args
}

/// The arguments with which `cargo` lists the installed binaries.
pub fn list_installed() -> (r: Vec<String>)
    ensures
        str_list(r@) == seq!["install"@, "--list"@],
{
    let mut args: Vec<String> = Vec::new();
    args.push(String::from_str("install"));
    args.push(String::from_str("--list"));
    proof {
        assert(str_list(args@) =~= seq!["install"@, "--list"@]);
    }
    args
}

/// The arguments with which `cargo` adds a crate to the project.
pub fn add(crate_name: String, version: Option<String>) -> (r: Vec<String>)
    ensures
        str_list(r@) == seq![
            "add"@,
            spec_crate_spec(
                crate_name@,
                match version {
                    Some(v) => Some(v@),
                    None => None,
                },
            ),
        ],
{
    let mut args: Vec<String> = Vec::new();
    args.push(String::from_str("add"));
    args.push(crate_spec(crate_name, version));
    proof {
        assert(str_list(args@) =~= seq![
            "add"@,
            spec_crate_spec(
                crate_name@,
                match version {
                    Some(v) => Some(v@),
                    None => None,
                },
            ),
        ]);
    }
    args
}

/// The arguments with which `cargo` removes a crate from the project.
pub fn remove(crate_name: String) -> (r: Vec<String>)
    ensures
        str_list(r@) == seq!["remove"@, crate_name@],
{
    let mut args: Vec<String> = Vec::new();
    args.push(String::from_str("remove"));
    args.push(crate_name);
    proof {
        assert(str_list(args@) =~= seq!["remove"@, crate_name@]);
    }
    args
}

/// The arguments with which `cargo` installs a binary, with the versions
/// of its lock file.
pub fn install(crate_name: String, version: Option<String>) -> (r: Vec<String>)
    ensures
        str_list(r@) == seq![
            "install"@,
            "--locked"@,
            spec_crate_spec(
                crate_name@,
                match version {
                    Some(v) => Some(v@),
                    None => None,
                },
            ),
        ],
{
    let mut args: Vec<String> = Vec::new();
    args.push(String::from_str("install"));
    args.push(String::from_str("--locked"));
    args.push(crate_spec(crate_name, version));
    proof {
        assert(str_list(args@) =~= seq![
            "install"@,
            "--locked"@,
            spec_crate_spec(
                crate_name@,
                match version {
                    Some(v) => Some(v@),
                    None => None,
                },
            ),
        ]);
    }
    args
}

/// The arguments with which `cargo` uninstalls a binary.
pub fn uninstall(crate_name: String) -> (r: Vec<String>)
    ensures
        str_list(r@) == seq!["uninstall"@, crate_name@],
{
    let mut args: Vec<String> = Vec::new();
    args.push(String::from_str("uninstall"));
    args.push(crate_name);
    proof {
        assert(str_list(args@) =~= seq!["uninstall"@, crate_name@]);
    }
    args
}

} // verus!
