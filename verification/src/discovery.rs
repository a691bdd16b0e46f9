//! Where discovery looks for workspace and project files, and in what order.

use vstd::prelude::*;

use crate::paths;
use crate::text::{chars_of, eq_ignore_ascii_case, eq_ignore_ascii_case_spec, str_eq, string_of};

verus! {

/// How nested files are searched for: by walking the tree natively, or with `rg` at the given path.
#[derive(Clone, Debug)]
pub enum DiscoveryBackend {
    Native,
    Ripgrep(String),
}

/// The extension of workspace files.
pub const WORKSPACE_EXTENSION: &'static str = "cdkws";

/// The extension of project files.
pub const PROJECT_EXTENSION: &'static str = "cdkproj";

/// A path is a candidate when it is a file (`is_file`) whose extension is `extension`,
/// ignoring ASCII case.
pub open spec fn has_extension(path: Seq<char>, is_file: bool, extension: Seq<char>) -> bool {
    is_file && match paths::path_extension(path) {
        Some(e) => eq_ignore_ascii_case_spec(e, extension),
        None => false,
    }
}

/// Whether `path`, a file when `is_file` says so, has the extension `extension`.
pub fn is_extension(path: &String, is_file: bool, extension: &str) -> (r: bool)
    ensures
        r == has_extension(path@, is_file, extension@),
{
    if !is_file {
        return false;
    }
    match paths::extension(path) {
        Some(e) => eq_ignore_ascii_case(e.as_str(), extension),
        None => false,
    }
}

/// Directories that the native walk does not enter.
pub open spec fn is_skipped_dir(name: Seq<char>) -> bool {
    name == ".git"@ || name == "node_modules"@ || name == "target"@ || name == "dist"@ || name == "out"@
}

/// Whether the native walk enters an entry at `depth` named `name`: the root always,
/// anything else unless it is one of the skipped directories.
pub fn include_entry(depth: usize, name: &str) -> (r: bool)
    ensures
        r == (depth == 0 || !is_skipped_dir(name@)),
{
    if depth == 0 {
        return true;
    }
    !(str_eq(name, ".git") || str_eq(name, "node_modules") || str_eq(name, "target") || str_eq(name, "dist")
        || str_eq(name, "out"))
}

/// Which kind of file discovery is looking for.
#[derive(Clone, Copy, Debug, PartialEq, Eq, Structural)]
pub enum DiscoveryPhase {
    Workspaces,
    Projects,
}

/// Where discovery stands.
#[derive(Clone, Copy, Debug, PartialEq, Eq, Structural)]
pub enum DiscoveryState {
    /// Nothing is known yet.
    Start,
    /// The files directly in the root are being listed.
    Listing(DiscoveryPhase),
    /// The tree below the root is being searched.
    Searching(DiscoveryPhase),
    /// The files found are being read.
    Reading(DiscoveryPhase),
    /// Discovery is over.
    Done,
}

/// What the caller reports back.
#[derive(Clone, Debug)]
pub enum DiscoveryEvent {
    /// Nothing yet: discovery begins.
    Begin,
    /// The files that the listing or the search found.
    Found(Vec<String>),
    /// How many files were read.
    Read(usize),
}

/// What the caller is to do next.
#[derive(Clone, Debug)]
pub enum DiscoveryAction {
    /// List the files directly in the root with this phase's extension.
    ListRoot(DiscoveryPhase),
    /// Search the tree below the root for files with this phase's extension.
    SearchTree(DiscoveryPhase),
    /// Read these files as this phase's kind of file.
    Read(DiscoveryPhase, Vec<String>),
    /// Report what was read.
    Finish,
}

/// The extension of a phase's files.
pub fn phase_extension(phase: DiscoveryPhase) -> (r: &'static str)
    ensures
        r@ == match phase {
            DiscoveryPhase::Workspaces => WORKSPACE_EXTENSION@,
            DiscoveryPhase::Projects => PROJECT_EXTENSION@,
        },
{
    match phase {
        DiscoveryPhase::Workspaces => WORKSPACE_EXTENSION,
        DiscoveryPhase::Projects => PROJECT_EXTENSION,
    }
}

/// The transition of discovery: files directly in the root take precedence over files
/// deeper in the tree, and projects are looked for only when no workspace was read.
pub open spec fn discovery_next_spec(state: DiscoveryState, event: DiscoveryEvent) -> (DiscoveryState, DiscoveryAction) {
    match (state, event) {
        (DiscoveryState::Start, DiscoveryEvent::Begin) => (
            DiscoveryState::Listing(DiscoveryPhase::Workspaces),
            DiscoveryAction::ListRoot(DiscoveryPhase::Workspaces),
        ),
        (DiscoveryState::Listing(phase), DiscoveryEvent::Found(files)) => if files.len() == 0 {
            (DiscoveryState::Searching(phase), DiscoveryAction::SearchTree(phase))
        } else {
            (DiscoveryState::Reading(phase), DiscoveryAction::Read(phase, files))
        },
        (DiscoveryState::Searching(phase), DiscoveryEvent::Found(files)) => (
            DiscoveryState::Reading(phase),
            DiscoveryAction::Read(phase, files),
        ),
        (DiscoveryState::Reading(DiscoveryPhase::Workspaces), DiscoveryEvent::Read(count)) => if count == 0 {
            (DiscoveryState::Listing(DiscoveryPhase::Projects), DiscoveryAction::ListRoot(DiscoveryPhase::Projects))
        } else {
            (DiscoveryState::Done, DiscoveryAction::Finish)
        },
        _ => (DiscoveryState::Done, DiscoveryAction::Finish),
    }
}

/// The next state and action of discovery after `event`.
pub fn discovery_next(state: DiscoveryState, event: DiscoveryEvent) -> (r: (DiscoveryState, DiscoveryAction))
    ensures
        r == discovery_next_spec(state, event),
{
    match (state, event) {
        (DiscoveryState::Start, DiscoveryEvent::Begin) => (
            DiscoveryState::Listing(DiscoveryPhase::Workspaces),
            DiscoveryAction::ListRoot(DiscoveryPhase::Workspaces),
        ),
        (DiscoveryState::Listing(phase), DiscoveryEvent::Found(files)) => if files.len() == 0 {
            (DiscoveryState::Searching(phase), DiscoveryAction::SearchTree(phase))
        } else {
            (DiscoveryState::Reading(phase), DiscoveryAction::Read(phase, files))
        },
        (DiscoveryState::Searching(phase), DiscoveryEvent::Found(files)) => (
            DiscoveryState::Reading(phase),
            DiscoveryAction::Read(phase, files),
        ),
        (DiscoveryState::Reading(DiscoveryPhase::Workspaces), DiscoveryEvent::Read(count)) => if count == 0 {
            (DiscoveryState::Listing(DiscoveryPhase::Projects), DiscoveryAction::ListRoot(DiscoveryPhase::Projects))
        } else {
            (DiscoveryState::Done, DiscoveryAction::Finish)
        },
        _ => (DiscoveryState::Done, DiscoveryAction::Finish),
    }
}


/// Files directly in the root take precedence: the tree is searched only when the root
/// itself holds no file of the kind looked for.
pub proof fn law_root_files_take_precedence(phase: DiscoveryPhase, files: Vec<String>)
    ensures
        files.len() > 0 ==> discovery_next_spec(DiscoveryState::Listing(phase), DiscoveryEvent::Found(files))
            == (DiscoveryState::Reading(phase), DiscoveryAction::Read(phase, files)),
        files.len() == 0 ==> discovery_next_spec(DiscoveryState::Listing(phase), DiscoveryEvent::Found(files))
            == (DiscoveryState::Searching(phase), DiscoveryAction::SearchTree(phase)),
{
}

/// What a tree search finds is read, whatever it found: discovery never ends on the
/// search's result without reading it.
pub proof fn law_tree_search_results_are_read(phase: DiscoveryPhase, files: Vec<String>)
    ensures
        discovery_next_spec(DiscoveryState::Searching(phase), DiscoveryEvent::Found(files))
            == (DiscoveryState::Reading(phase), DiscoveryAction::Read(phase, files)),
{
}

/// When the root holds no workspace file, the workspaces that the tree search finds below
/// it are read: a run begins by listing the root, searches the tree on an empty listing,
/// and reads every file the search found.
pub proof fn law_nested_workspaces_are_read(empty: Vec<String>, files: Vec<String>)
    requires
        empty.len() == 0,
    ensures
        ({
            let (s1, a1) = discovery_next_spec(DiscoveryState::Start, DiscoveryEvent::Begin);
            let (s2, a2) = discovery_next_spec(s1, DiscoveryEvent::Found(empty));
            let (s3, a3) = discovery_next_spec(s2, DiscoveryEvent::Found(files));
            &&& a1 == DiscoveryAction::ListRoot(DiscoveryPhase::Workspaces)
            &&& a2 == DiscoveryAction::SearchTree(DiscoveryPhase::Workspaces)
            &&& a3 == DiscoveryAction::Read(DiscoveryPhase::Workspaces, files)
            &&& s3 == DiscoveryState::Reading(DiscoveryPhase::Workspaces)
        }),
{
}

/// Standalone projects are looked for only when no workspace was read, and discovery ends
/// once projects have been read.
pub proof fn law_projects_only_without_workspaces(count: usize)
    ensures
        count == 0 ==> discovery_next_spec(DiscoveryState::Reading(DiscoveryPhase::Workspaces), DiscoveryEvent::Read(count)).1
            == DiscoveryAction::ListRoot(DiscoveryPhase::Projects),
        count > 0 ==> discovery_next_spec(DiscoveryState::Reading(DiscoveryPhase::Workspaces), DiscoveryEvent::Read(count)).1
            == DiscoveryAction::Finish,
        discovery_next_spec(DiscoveryState::Reading(DiscoveryPhase::Projects), DiscoveryEvent::Read(count)).1
            == DiscoveryAction::Finish,
{
}


/// The characters with the Unicode `White_Space` property.
pub open spec fn white_space(c: char) -> bool {
    let u = c as u32;
    (0x9 <= u && u <= 0xD) || u == 0x20 || u == 0x85 || u == 0xA0 || u == 0x1680 || (0x2000 <= u && u <= 0x200A)
        || u == 0x2028 || u == 0x2029 || u == 0x202F || u == 0x205F || u == 0x3000
}

/// Whether the character has the Unicode `White_Space` property, as `char::is_whitespace`
/// decides.
fn is_whitespace(c: char) -> (r: bool)
    ensures
        r == white_space(c),
{
    let u = c as u32;
    (0x9 <= u && u <= 0xD) || u == 0x20 || u == 0x85 || u == 0xA0 || u == 0x1680 || (0x2000 <= u && u <= 0x200A)
        || u == 0x2028 || u == 0x2029 || u == 0x202F || u == 0x205F || u == 0x3000
}

/// The pieces of `s` between newline characters; there is always at least one.
pub open spec fn newline_pieces(s: Seq<char>) -> Seq<Seq<char>>
    decreases s.len(),
{
    if s.len() == 0 {
        seq![Seq::empty()]
    } else {
        let p = newline_pieces(s.drop_last());
        if s.last() == '\n' {
            p.push(Seq::empty())
        } else {
            p.update(p.len() - 1, p.last().push(s.last()))
        }
    }
}

/// A line ended by `\r\n` loses its carriage return.
pub open spec fn strip_cr(line: Seq<char>) -> Seq<char> {
    if line.len() > 0 && line.last() == '\r' {
        line.drop_last()
    } else {
        line
    }
}

/// The lines of a text as `str::lines` yields them: split at `\n` or `\r\n`, with the last
/// line ending optional.
pub open spec fn text_lines(s: Seq<char>) -> Seq<Seq<char>> {
    let p = newline_pieces(s);
    p.drop_last().map_values(|l: Seq<char>| strip_cr(l)) + if p.last().len() > 0 {
        seq![p.last()]
    } else {
        Seq::empty()
    }
}

/// A line names a file when it holds something other than white space.
pub open spec fn has_content(line: Seq<char>) -> bool {
    exists|i: int| 0 <= i < line.len() && !white_space(#[trigger] line[i])
}

/// The files that the lines name, each taken relative to `root`.
pub open spec fn listed_files(root: Seq<char>, lines: Seq<Seq<char>>) -> Seq<Seq<char>>
    decreases lines.len(),
{
    if lines.len() == 0 {
        Seq::empty()
    } else {
        listed_files(root, lines.drop_last()) + if has_content(lines.last()) {
            seq![paths::path_join(root, lines.last())]
        } else {
            Seq::empty()
        }
    }
}

fn line_has_content(line: &Vec<char>) -> (r: bool)
    ensures
        r == has_content(line@),
{
    let mut i: usize = 0;
    while i < line.len()
        invariant
            i <= line.len(),
            forall|j: int| 0 <= j < i ==> white_space(#[trigger] line@[j]),
        decreases line.len() - i,
    {
        if !is_whitespace(line[i]) {
            return true;
        }
        i = i + 1;
    }
    false
}

fn add_listed(out: &mut Vec<String>, root: &String, line: &Vec<char>)
    ensures
        final(out).deep_view() == old(out).deep_view() + if has_content(line@) {
            seq![paths::path_join(root@, line@)]
        } else {
            Seq::empty()
        },
{
    if line_has_content(line) {
        let text = string_of(line);
        let ghost before = out.deep_view();
        out.push(paths::join(root, text.as_str()));
        assert(out.deep_view() =~= before.push(paths::path_join(root@, line@)));
    } else {
        assert(out.deep_view() =~= old(out).deep_view() + Seq::<Seq<char>>::empty());
    }
}

proof fn lemma_listed_push(root: Seq<char>, lines: Seq<Seq<char>>, line: Seq<char>)
    ensures
        listed_files(root, lines.push(line)) == listed_files(root, lines) + if has_content(line) {
            seq![paths::path_join(root, line)]
        } else {
            Seq::empty()
        },
{
    assert(lines.push(line).drop_last() =~= lines);
}

/// Whether a run of `rg --files` succeeded: it exits with success when it lists files, and
/// with code 1 when there is nothing to list, which is no failure either.
pub fn ripgrep_succeeded(success: bool, code: Option<i32>) -> (r: bool)
    ensures
        r == (success || code == Some(1i32)),
{
    success || code == Some(1i32)
}

/// The files that `rg --files` lists in its output `listing`, run in the directory `root`:
/// each line with content, taken relative to `root`.
pub fn ripgrep_files(root: &String, listing: &str) -> (r: Vec<String>)
    ensures
        r.deep_view() == listed_files(root@, text_lines(listing@)),
{
    let chars = chars_of(listing);
    let ghost s = listing@;
    let mut out: Vec<String> = Vec::new();
    let mut current: Vec<char> = Vec::new();
    let ghost mut done: Seq<Seq<char>> = Seq::empty();
    let mut i: usize = 0;
    assert(s.take(0) =~= Seq::<char>::empty());
    assert(out.deep_view() =~= Seq::<Seq<char>>::empty());
    while i < chars.len()
        invariant
            chars@ == s,
            i <= chars.len(),
            newline_pieces(s.take(i as int)) == done.push(current@),
            out.deep_view() == listed_files(root@, done.map_values(|l: Seq<char>| strip_cr(l))),
        decreases chars.len() - i,
    {
        let c = chars[i];
        assert(s.take(i + 1).drop_last() =~= s.take(i as int));
        if c == '\n' {
            let mut line = current;
            let n = line.len();
            if n > 0 && line[n - 1] == '\r' {
                line.pop();
                assert(line@ =~= strip_cr(done.push(current@).last()));
            }
            assert(line@ == strip_cr(done.push(current@).last()));
            add_listed(&mut out, root, &line);
            proof {
                lemma_listed_push(root@, done.map_values(|l: Seq<char>| strip_cr(l)), line@);
                assert(done.push(current@).map_values(|l: Seq<char>| strip_cr(l)) =~= done.map_values(
                    |l: Seq<char>| strip_cr(l),
                ).push(line@));
                done = done.push(current@);
            }
            current = Vec::new();
            assert(newline_pieces(s.take(i + 1)) =~= done.push(current@));
        } else {
            current.push(c);
            assert(newline_pieces(s.take(i + 1)) =~= done.push(current@));
        }
        i = i + 1;
    }
    assert(s.take(chars.len() as int) =~= s);
    let ghost p = newline_pieces(s);
    assert(p.drop_last() =~= done);
    assert(p.last() == current@);
    if current.len() > 0 {
        add_listed(&mut out, root, &current);
        proof {
            lemma_listed_push(root@, done.map_values(|l: Seq<char>| strip_cr(l)), current@);
            assert(text_lines(s) =~= done.map_values(|l: Seq<char>| strip_cr(l)).push(current@));
        }
    } else {
        assert(text_lines(s) =~= done.map_values(|l: Seq<char>| strip_cr(l)));
    }
    out
}


/// The paths with every run of equal paths (equal as paths) kept as its first member.
pub open spec fn dedup_paths_spec(s: Seq<Seq<char>>) -> Seq<Seq<char>>
    decreases s.len(),
{
    if s.len() == 0 {
        s
    } else {
        let d = dedup_paths_spec(s.drop_last());
        if d.len() > 0 && paths::path_eq(s.last(), d.last()) {
            d
        } else {
            d.push(s.last())
        }
    }
}

proof fn lemma_dedup_neighbours(s: Seq<Seq<char>>)
    ensures
        forall|i: int| 1 <= i < dedup_paths_spec(s).len() ==> !paths::path_eq(
            #[trigger] dedup_paths_spec(s)[i],
            dedup_paths_spec(s)[i - 1],
        ),
    decreases s.len(),
{
    if s.len() > 0 {
        let d = dedup_paths_spec(s.drop_last());
        lemma_dedup_neighbours(s.drop_last());
        let r = dedup_paths_spec(s);
        assert forall|i: int| 1 <= i < r.len() implies !paths::path_eq(#[trigger] r[i], r[i - 1]) by {
            if i < d.len() {
                assert(r[i] == d[i] && r[i - 1] == d[i - 1]);
                assert(!paths::path_eq(d[i], d[i - 1]));
            }
        }
    }
}

proof fn lemma_dedup_members(s: Seq<Seq<char>>)
    ensures
        forall|i: int| 0 <= i < dedup_paths_spec(s).len() ==> s.contains(#[trigger] dedup_paths_spec(s)[i]),
    decreases s.len(),
{
    if s.len() > 0 {
        let t = s.drop_last();
        let d = dedup_paths_spec(t);
        let r = dedup_paths_spec(s);
        lemma_dedup_members(t);
        assert forall|i: int| 0 <= i < r.len() implies s.contains(#[trigger] r[i]) by {
            if i < d.len() {
                assert(r[i] == d[i]);
                assert(t.contains(d[i]));
                let k = choose|k: int| 0 <= k < t.len() && t[k] == d[i];
                assert(s[k] == d[i]);
            } else {
                assert(r[i] == s[s.len() - 1]);
            }
        }
    }
}

/// Dropping paths keeps the rest in the order they had: from paths in ascending order,
/// the kept ones are in ascending order too.
proof fn lemma_dedup_ascending(s: Seq<Seq<char>>)
    requires
        forall|i: int, j: int| 0 <= i < j < s.len() ==> paths::path_le(#[trigger] s[i], #[trigger] s[j]),
    ensures
        forall|i: int, j: int|
            0 <= i < j < dedup_paths_spec(s).len() ==> paths::path_le(
                #[trigger] dedup_paths_spec(s)[i],
                #[trigger] dedup_paths_spec(s)[j],
            ),
    decreases s.len(),
{
    if s.len() > 0 {
        let t = s.drop_last();
        let d = dedup_paths_spec(t);
        let r = dedup_paths_spec(s);
        assert forall|i: int, j: int| 0 <= i < j < t.len() implies paths::path_le(#[trigger] t[i], #[trigger] t[j]) by {
            assert(t[i] == s[i] && t[j] == s[j]);
        }
        lemma_dedup_ascending(t);
        lemma_dedup_members(t);
        assert forall|i: int, j: int| 0 <= i < j < r.len() implies paths::path_le(#[trigger] r[i], #[trigger] r[j]) by {
            if j < d.len() {
                assert(r[i] == d[i] && r[j] == d[j]);
            } else {
                assert(r[i] == d[i]);
                assert(r[j] == s[s.len() - 1]);
                assert(t.contains(d[i]));
                let k = choose|k: int| 0 <= k < t.len() && t[k] == d[i];
                assert(s[k] == d[i]);
                assert(paths::path_le(s[k], s[s.len() - 1]));
            }
        }
    }
}

/// `Vec::dedup` on paths: a path equal to the last one kept is dropped. No two neighbours
/// of the result are equal paths.
pub fn dedup_paths(paths: Vec<String>) -> (r: Vec<String>)
    ensures
        r.deep_view() == dedup_paths_spec(paths.deep_view()),
        forall|i: int| 1 <= i < r.len() ==> !paths::path_eq(#[trigger] r.deep_view()[i], r.deep_view()[i - 1]),
{
    let ghost s = paths.deep_view();
    let mut out: Vec<String> = Vec::new();
    let mut i: usize = 0;
    assert(s.take(0) =~= Seq::<Seq<char>>::empty());
    assert(out.deep_view() =~= Seq::<Seq<char>>::empty());
    while i < paths.len()
        invariant
            s == paths.deep_view(),
            i <= paths.len(),
            out.deep_view() == dedup_paths_spec(s.take(i as int)),
        decreases paths.len() - i,
    {
        assert(s.take(i + 1).drop_last() =~= s.take(i as int));
        assert(s.take(i + 1).last() == paths[i as int]@);
        let n = out.len();
        let keep = if n == 0 {
            true
        } else {
            !paths::same_path(&paths[i], &out[n - 1])
        };
        if keep {
            let ghost before = out.deep_view();
            out.push(paths[i].clone());
            assert(out.deep_view() =~= before.push(paths[i as int]@));
        }
        i = i + 1;
    }
    assert(s.take(paths.len() as int) =~= s);
    proof {
        lemma_dedup_neighbours(s);
    }
    out
}

/// The files found in the root, in ascending order of paths.
pub fn sorted_paths(paths: Vec<String>) -> (r: Vec<String>)
    ensures
        r.deep_view() == paths::path_sorted(paths.deep_view()),
        r.deep_view().to_multiset() == paths.deep_view().to_multiset(),
        forall|i: int, j: int| 0 <= i < j < r.len() ==> paths::path_le(#[trigger] r.deep_view()[i], #[trigger] r.deep_view()[j]),
{
    paths::sort_paths(paths)
}

/// The files found in the tree, in ascending order of paths, with each run of equal paths
/// kept once.
pub fn sorted_unique_paths(paths: Vec<String>) -> (r: Vec<String>)
    ensures
        r.deep_view() == dedup_paths_spec(paths::path_sorted(paths.deep_view())),
        forall|i: int| 1 <= i < r.len() ==> !paths::path_eq(#[trigger] r.deep_view()[i], r.deep_view()[i - 1]),
        forall|i: int, j: int| 0 <= i < j < r.len() ==> paths::path_le(#[trigger] r.deep_view()[i], #[trigger] r.deep_view()[j]),
        forall|i: int| 0 <= i < r.len() ==> paths.deep_view().contains(#[trigger] r.deep_view()[i]),
{
    let sorted = paths::sort_paths(paths);
    proof {
        lemma_dedup_ascending(sorted.deep_view());
        lemma_dedup_members(sorted.deep_view());
        assert forall|i: int| 0 <= i < dedup_paths_spec(sorted.deep_view()).len() implies paths.deep_view().contains(
            #[trigger] dedup_paths_spec(sorted.deep_view())[i],
        ) by {
            let x = dedup_paths_spec(sorted.deep_view())[i];
            assert(sorted.deep_view().contains(x));
            vstd::seq_lib::to_multiset_contains(sorted.deep_view(), x);
            vstd::seq_lib::to_multiset_contains(paths.deep_view(), x);
        }
    }
    dedup_paths(sorted)
}

} // verus!
