use vstd::prelude::*;
use vstd::string::StrSliceExecFns;
use vstd::string::StringExecFns;

use crate::error::ToolchainError;
use crate::text::{
    chars_eq, chars_of, join_path, join_spec, lemma_pieces_bounds, parent_path, parent_spec, pieces,
    ranges_view, split_pieces,
};

verus! {

/// A toolchain registered with the toolchain manager under `name`.
#[derive(Clone, Debug)]
pub struct RustupToolchain {
    pub name: String,
    pub path: String,
}

/// An entry of the toolchain manager: a name and the directory it points at.
pub type Entry = (Seq<char>, Seq<char>);

/// The entries of `listing` read from the given line ranges: the first word
/// of each non-blank line is the name, its last word the path.
pub open spec fn entries_of(listing: Seq<char>, lines: Seq<(int, int)>) -> Seq<Entry>
    decreases lines.len(),
{
    if lines.len() == 0 {
        Seq::empty()
    } else {
        let line = listing.subrange(lines[0].0, lines[0].1);
        let words = pieces(line, false);
        let rest = entries_of(listing, lines.drop_first());
        if words.len() > 0 {
            seq![
                (
                    line.subrange(words[0].0, words[0].1),
                    line.subrange(words.last().0, words.last().1),
                ),
            ] + rest
        } else {
            rest
        }
    }
}

/// The entries that the manager's verbose listing shows, in order.
pub open spec fn listing_entries(listing: Seq<char>) -> Seq<Entry> {
    entries_of(listing, pieces(listing, true))
}

/// The path of the first entry named `name`.
pub open spec fn find_entry(entries: Seq<Entry>, name: Seq<char>) -> Option<Seq<char>>
    decreases entries.len(),
{
    if entries.len() == 0 {
        None
    } else if entries[0].0 == name {
        Some(entries[0].1)
    } else {
        find_entry(entries.drop_first(), name)
    }
}

/// How many entries are named `name`.
pub open spec fn count_named(entries: Seq<Entry>, name: Seq<char>) -> nat
    decreases entries.len(),
{
    if entries.len() == 0 {
        0
    } else {
        (if entries[0].0 == name { 1nat } else { 0nat }) + count_named(entries.drop_first(), name)
    }
}

/// The entries that remain once every entry named `name` is removed.
pub open spec fn without_named(entries: Seq<Entry>, name: Seq<char>) -> Seq<Entry>
    decreases entries.len(),
{
    if entries.len() == 0 {
        Seq::empty()
    } else if entries[0].0 == name {
        without_named(entries.drop_first(), name)
    } else {
        seq![entries[0]] + without_named(entries.drop_first(), name)
    }
}

/// A command for the toolchain manager.
#[derive(Clone, Debug)]
pub enum RegistryCommand {
    /// Remove every toolchain named `name`.
    Remove { name: String },
    /// Register `dir` under `name`.
    Link { name: String, dir: String },
}

/// A command for the toolchain manager, as plain values.
pub enum CommandView {
    Remove { name: Seq<char> },
    Link { name: Seq<char>, dir: Seq<char> },
}

impl RegistryCommand {
    pub open spec fn view(&self) -> CommandView {
        match self {
            RegistryCommand::Remove { name } => CommandView::Remove { name: name@ },
            RegistryCommand::Link { name, dir } => CommandView::Link { name: name@, dir: dir@ },
        }
    }
}

pub open spec fn commands_view(cmds: Seq<RegistryCommand>) -> Seq<CommandView> {
    cmds.map_values(|c: RegistryCommand| c.view())
}

/// The manager's entries after one command. Linking a name adds an entry
/// even where one of that name exists already.
pub open spec fn apply_command(entries: Seq<Entry>, cmd: CommandView) -> Seq<Entry> {
    match cmd {
        CommandView::Remove { name } => without_named(entries, name),
        CommandView::Link { name, dir } => entries.push((name, dir)),
    }
}

/// The manager's entries after a sequence of commands.
pub open spec fn apply_commands(entries: Seq<Entry>, cmds: Seq<CommandView>) -> Seq<Entry>
    decreases cmds.len(),
{
    if cmds.len() == 0 {
        entries
    } else {
        apply_commands(apply_command(entries, cmds[0]), cmds.drop_first())
    }
}

/// The commands that register `dir` under `name`: an entry of that name
/// that is already there is removed first.
pub open spec fn link_plan(name: Seq<char>, dir: Seq<char>, present: bool) -> Seq<CommandView> {
    if present {
        seq![CommandView::Remove { name }, CommandView::Link { name, dir }]
    } else {
        seq![CommandView::Link { name, dir }]
    }
}

/// Where a toolchain directory must hold its compiler.
pub open spec fn rustc_path_spec(dir: Seq<char>) -> Seq<char> {
    join_spec(dir, "bin/rustc"@)
}

/// The sysroot directory of the given word size beside a toolchain path.
pub open spec fn sysroot_name(is64bit: bool) -> Seq<char> {
    if is64bit {
        "sysroot64"@
    } else {
        "sysroot32"@
    }
}

/// The path of the compiler inside a toolchain directory.
pub fn rustc_path(dir: &str) -> (r: String)
    ensures
        r@ == rustc_path_spec(dir@),
{
    proof {
        reveal_strlit("bin/rustc");
    }
    join_path(dir, "bin/rustc")
}

/// The commands that link `dir` under `name`, given whether the compiler was
/// found in `dir` and whether the manager already lists `name`.
pub fn link_commands(name: &str, dir: &str, rustc_found: bool, present: bool) -> (r: Result<
    Vec<RegistryCommand>,
    ToolchainError,
>)
    ensures
        rustc_found ==> (r matches Ok(cmds) && commands_view(cmds@) == link_plan(name@, dir@, present)),
        !rustc_found ==> (r matches Err(ToolchainError::Validation { path }) && path@
            == rustc_path_spec(dir@)),
{
    if !rustc_found {
        return Err(ToolchainError::Validation { path: rustc_path(dir) });
    }
    let mut cmds: Vec<RegistryCommand> = Vec::new();
    if present {
        cmds.push(RegistryCommand::Remove { name: String::from_str(name) });
    }
    cmds.push(RegistryCommand::Link { name: String::from_str(name), dir: String::from_str(dir) });
    assert(commands_view(cmds@) =~= link_plan(name@, dir@, present));
    Ok(cmds)
}

impl RustupToolchain {
    /// The toolchain named `name` in the manager's verbose `listing`: the
    /// first line whose first word is `name` gives, as its last word, the path.
    /// Words are separated by spaces, tabs and carriage returns.
    pub fn find_by_name(listing: &str, name: &str) -> (r: Option<RustupToolchain>)
        ensures
            match r {
                Some(t) => t.name@ == name@ && find_entry(listing_entries(listing@), name@) == Some(
                    t.path@,
                ),
                None => find_entry(listing_entries(listing@), name@) is None,
            },
    {
        let v = chars_of(listing);
        let nm = chars_of(name);
        let lines = split_pieces(&v, 0, v.len(), true);
        let ghost l = listing@;
        let ghost ls = ranges_view(lines@);
        proof {
            assert(v@.subrange(0, v@.len() as int) =~= l);
            lemma_pieces_bounds(l, true);
            assert(ls.subrange(0, ls.len() as int) =~= ls);
        }
        let mut i: usize = 0;
        while i < lines.len()
            invariant
                v@ == l,
                nm@ == name@,
                l == listing@,
                ls == ranges_view(lines@),
                ls == pieces(l, true),
                i <= lines@.len(),
                forall|k: int| 0 <= k < ls.len() ==> 0 <= #[trigger] ls[k].0 < ls[k].1 <= l.len(),
                find_entry(listing_entries(l), name@) == find_entry(
                    entries_of(l, ls.subrange(i as int, ls.len() as int)),
                    name@,
                ),
            decreases lines@.len() - i,
        {
            let (a, b) = lines[i];
            assert(ls[i as int] == (a as int, b as int));
            let ghost rest = ls.subrange(i as int, ls.len() as int);
            assert(rest[0] == ls[i as int]);
            assert(rest.drop_first() =~= ls.subrange(i + 1, ls.len() as int));
            let ghost line = l.subrange(a as int, b as int);
            let words = split_pieces(&v, a, b, false);
            let ghost ws = ranges_view(words@);
            proof {
                lemma_pieces_bounds(line, false);
            }
            if words.len() > 0 {
                let (wa, wb) = words[0];
                assert(ws[0] == (wa as int, wb as int));
                assert(v@.subrange(a + wa, a + wb) =~= line.subrange(wa as int, wb as int));
                if chars_eq(&v, a + wa, a + wb, &nm) {
                    let (la, lb) = words[words.len() - 1];
                    assert(ws.last() == (la as int, lb as int));
                    let p = listing.substring_char(a + la, a + lb);
                    assert(p@ =~= line.subrange(la as int, lb as int));
                    return Some(RustupToolchain { name: String::from_str(name), path: String::from_str(p) });
                }
                proof {
                    let e = (line.subrange(ws[0].0, ws[0].1), line.subrange(ws.last().0, ws.last().1));
                    let x = entries_of(l, rest.drop_first());
                    assert(entries_of(l, rest) == seq![e] + x);
                    assert((seq![e] + x).drop_first() =~= x);
                }
            }
            i = i + 1;
        }
        None
    }

    /// Where the sysroot directory of the given word size belongs: beside the
    /// toolchain directory, as the toolchain's archive lays it out; `None`
    /// where the toolchain path has no parent.
    pub fn sysroot_path(&self, is64bit: bool) -> (r: Option<String>)
        ensures
            match parent_spec(self.path@) {
                Some(p) => r matches Some(d) && d@ == join_spec(p, sysroot_name(is64bit)),
                None => r is None,
            },
    {
        proof {
            reveal_strlit("sysroot64");
            reveal_strlit("sysroot32");
        }
        let name = if is64bit { "sysroot64" } else { "sysroot32" };
        match parent_path(self.path.as_str()) {
            Some(p) => Some(join_path(p.as_str(), name)),
            None => None,
        }
    }

    /// The sysroot directory of the given word size, given whether the
    /// directory at `sysroot_path` exists: `None` where the toolchain path has
    /// no parent or that directory is missing.
    pub fn sysroot_dir(&self, is64bit: bool, is_dir: bool) -> (r: Option<String>)
        ensures
            match parent_spec(self.path@) {
                Some(p) => if is_dir {
                    r matches Some(d) && d@ == join_spec(p, sysroot_name(is64bit))
                } else {
                    r is None
                },
                None => r is None,
            },
    {
        if !is_dir {
            return None;
        }
        self.sysroot_path(is64bit)
    }
}

proof fn lemma_count_find(entries: Seq<Entry>, name: Seq<char>)
    ensures
        (count_named(entries, name) == 0) == (find_entry(entries, name) is None),
    decreases entries.len(),
{
    if entries.len() > 0 {
        lemma_count_find(entries.drop_first(), name);
    }
}

proof fn lemma_without_named(entries: Seq<Entry>, name: Seq<char>)
    ensures
        count_named(without_named(entries, name), name) == 0,
    decreases entries.len(),
{
    if entries.len() > 0 {
        lemma_without_named(entries.drop_first(), name);
        let rest = without_named(entries.drop_first(), name);
        if entries[0].0 != name {
            assert((seq![entries[0]] + rest).drop_first() =~= rest);
        }
    }
}

proof fn lemma_push(entries: Seq<Entry>, e: Entry, name: Seq<char>)
    ensures
        count_named(entries.push(e), name) == count_named(entries, name) + (if e.0 == name {
            1nat
        } else {
            0nat
        }),
        find_entry(entries.push(e), name) == (if find_entry(entries, name) is Some {
            find_entry(entries, name)
        } else if e.0 == name {
            Some(e.1)
        } else {
            None
        }),
    decreases entries.len(),
{
    if entries.len() > 0 {
        assert(entries.push(e).drop_first() =~= entries.drop_first().push(e));
        lemma_push(entries.drop_first(), e, name);
    } else {
        assert(entries.push(e).drop_first() =~= entries);
    }
}

/// Linking `dir` under `name` leaves exactly one entry of that name, and
/// looking the name up then finds `dir`, whatever the manager held before.
pub proof fn lemma_link_registers(entries: Seq<Entry>, name: Seq<char>, dir: Seq<char>)
    ensures
        ({
            let after = apply_commands(
                entries,
                link_plan(name, dir, find_entry(entries, name) is Some),
            );
            find_entry(after, name) == Some(dir) && count_named(after, name) == 1
        }),
{
    let present = find_entry(entries, name) is Some;
    let plan = link_plan(name, dir, present);
    let cleared = if present { without_named(entries, name) } else { entries };
    lemma_count_find(entries, name);
    lemma_without_named(entries, name);
    lemma_count_find(cleared, name);
    lemma_push(cleared, (name, dir), name);
    if present {
        let tail = plan.drop_first();
        assert(tail.drop_first() =~= Seq::<CommandView>::empty());
        assert(apply_command(entries, plan[0]) == cleared);
        assert(apply_commands(entries, plan) == apply_commands(cleared, tail));
        assert(apply_command(cleared, tail[0]) == cleared.push((name, dir)));
        assert(apply_commands(cleared, tail) == apply_commands(
            cleared.push((name, dir)),
            tail.drop_first(),
        ));
        assert(apply_commands(cleared.push((name, dir)), tail.drop_first()) == cleared.push(
            (name, dir),
        ));
    } else {
        assert(plan.drop_first() =~= Seq::<CommandView>::empty());
        assert(apply_command(entries, plan[0]) == entries.push((name, dir)));
        assert(apply_commands(entries, plan) == apply_commands(
            entries.push((name, dir)),
            plan.drop_first(),
        ));
        assert(apply_commands(entries.push((name, dir)), plan.drop_first()) == entries.push(
            (name, dir),
        ));
    }
}

} // verus!
