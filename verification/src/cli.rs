//! The server's command line: which map it serves and which one-shot
//! command it runs instead of serving.
use vstd::prelude::*;
use vstd::string::*;
use vstd::std_specs::iter::IteratorSpec;
use crate::text::push_char;

verus! {

/// The map served when none is named.
pub open spec fn default_map() -> Seq<char> {
    "test_island"@
}

/// The option that names the map.
pub open spec fn map_option() -> Seq<char> {
    "--map="@
}

/// `s` without every leading repetition of `p` (`str::trim_start_matches`).
pub open spec fn trim_prefixes(s: Seq<char>, p: Seq<char>) -> Seq<char>
    decreases s.len(),
{
    if p.len() > 0 && p.len() <= s.len() && s.subrange(0, p.len() as int) == p {
        trim_prefixes(s.subrange(p.len() as int, s.len() as int), p)
    } else {
        s
    }
}

/// Whether `s` starts with `p`.
pub open spec fn starts_with(s: Seq<char>, p: Seq<char>) -> bool {
    p.len() <= s.len() && s.subrange(0, p.len() as int) == p
}

/// The map named on the command line: the first argument that starts with
/// `--map=`, without its leading `--map=`s; `test_island` when none does.
pub open spec fn chosen_map(args: Seq<Seq<char>>) -> Seq<char> {
    if exists|i: int| 0 <= i < args.len() && starts_with(#[trigger] args[i], map_option()) {
        let i = choose|i: int|
            0 <= i < args.len() && starts_with(#[trigger] args[i], map_option()) && forall|j: int|
                0 <= j < i ==> !starts_with(#[trigger] args[j], map_option());
        trim_prefixes(args[i], map_option())
    } else {
        default_map()
    }
}

/// A one-shot command of the server, run in place of serving.
#[derive(Clone, Copy, PartialEq, Eq, Structural, Debug)]
pub enum CliCommand {
    /// `--clear`: empty the map's world data.
    Clear,
    /// `--save-png`: render the map to images.
    SavePng,
    /// `--generate-world`: generate the map's world.
    GenerateWorld,
    /// `--generate-globals`: generate the map's global data.
    GenerateGlobals,
    /// `--regen-territory`: rebuild the territory contours.
    RegenTerritory,
}

/// Whether the exact argument `flag` is among the arguments.
pub open spec fn has_arg(args: Seq<Seq<char>>, flag: Seq<char>) -> bool {
    exists|i: int| 0 <= i < args.len() && #[trigger] args[i] == flag
}

/// The command the arguments ask for: the first of `--clear`, `--save-png`,
/// `--generate-world`, `--generate-globals` and `--regen-territory`, in that
/// order, that is among them.
pub open spec fn chosen_command(args: Seq<Seq<char>>) -> Option<CliCommand> {
    if has_arg(args, "--clear"@) {
        Some(CliCommand::Clear)
    } else if has_arg(args, "--save-png"@) {
        Some(CliCommand::SavePng)
    } else if has_arg(args, "--generate-world"@) {
        Some(CliCommand::GenerateWorld)
    } else if has_arg(args, "--generate-globals"@) {
        Some(CliCommand::GenerateGlobals)
    } else if has_arg(args, "--regen-territory"@) {
        Some(CliCommand::RegenTerritory)
    } else {
        None
    }
}

/// The texts of the arguments.
pub open spec fn arg_texts(args: Seq<String>) -> Seq<Seq<char>> {
    args.map_values(|a: String| a@)
}

fn chars_of(s: &str) -> (r: Vec<char>)
    ensures
        r@ == s@,
{
    let mut r: Vec<char> = Vec::new();
    for c in it: s.chars()
        invariant
            it.seq() == s@,
            r@ == s@.subrange(0, it.index() as int),
    {
        r.push(c);
        assert(r@ =~= s@.subrange(0, it.index() + 1));
    }
    assert(s@.subrange(0, s@.len() as int) =~= s@);
    r
}

fn has_prefix_at(s: &Vec<char>, at: usize, p: &Vec<char>) -> (b: bool)
    requires
        at <= s@.len(),
    ensures
        b == starts_with(s@.subrange(at as int, s@.len() as int), p@),
{
    if p.len() > s.len() - at {
        return false;
    }
    let n = s.len();
    let mut k: usize = 0;
    while k < p.len()
        invariant
            n == s@.len(),
            at + p@.len() <= s@.len(),
            k <= p@.len(),
            forall|j: int| 0 <= j < k ==> s@[at + j] == p@[j],
        decreases p@.len() - k,
    {
        if s[at + k] != p[k] {
            assert(s@.subrange(at as int, s@.len() as int).subrange(0, p@.len() as int)[k as int]
                != p@[k as int]);
            return false;
        }
        k = k + 1;
    }
    assert(s@.subrange(at as int, s@.len() as int).subrange(0, p@.len() as int) =~= p@);
    true
}

/// The map to serve, from the command-line arguments.
pub fn map_name(args: &Vec<String>) -> (r: String)
    ensures
        r@ == chosen_map(arg_texts(args@)),
{
    proof {
        reveal_strlit("--map=");
        reveal_strlit("test_island");
    }
    let ghost a = arg_texts(args@);
    let p = chars_of("--map=");
    let mut i: usize = 0;
    while i < args.len()
        invariant
            i <= args@.len(),
            a == arg_texts(args@),
            p@ == map_option(),
            p@.len() == 6,
            forall|j: int| 0 <= j < i ==> !starts_with(#[trigger] a[j], map_option()),
        decreases args@.len() - i,
    {
        let s = chars_of(args[i].as_str());
        assert(s@.subrange(0, s@.len() as int) =~= s@);
        if has_prefix_at(&s, 0, &p) {
            assert(a[i as int] == s@);
            let mut at: usize = 0;
            while p.len() <= s.len() - at && has_prefix_at(&s, at, &p)
                invariant
                    at <= s@.len(),
                    p@ == map_option(),
                    p@.len() == 6,
                    trim_prefixes(s@, p@) == trim_prefixes(s@.subrange(at as int, s@.len() as int), p@),
                decreases s@.len() - at,
            {
                proof {
                    let t = s@.subrange(at as int, s@.len() as int);
                    assert(t.subrange(p@.len() as int, t.len() as int) =~= s@.subrange(
                        at + p@.len(),
                        s@.len() as int,
                    ));
                }
                at = at + p.len();
            }
            let mut r = String::new();
            let mut k: usize = at;
            while k < s.len()
                invariant
                    at <= k <= s@.len(),
                    r@ == s@.subrange(at as int, k as int),
                decreases s@.len() - k,
            {
                push_char(&mut r, s[k]);
                assert(r@ =~= s@.subrange(at as int, k + 1));
                k = k + 1;
            }
            proof {
                let t = s@.subrange(at as int, s@.len() as int);
                assert(trim_prefixes(t, p@) == t);
                assert(starts_with(a[i as int], map_option()));
                let c = choose|c: int|
                    0 <= c < a.len() && starts_with(#[trigger] a[c], map_option()) && forall|j: int|
                        0 <= j < c ==> !starts_with(#[trigger] a[j], map_option());
                if c < i {
                } else if c > i {
                    assert(!starts_with(a[i as int], map_option()));
                }
            }
            return r;
        }
        assert(!starts_with(a[i as int], map_option()));
        i = i + 1;
    }
    String::from_str("test_island")
}

fn contains_arg(args: &Vec<String>, flag: &str) -> (b: bool)
    ensures
        b == has_arg(arg_texts(args@), flag@),
{
    let f = String::from_str(flag);
    let mut i: usize = 0;
    while i < args.len()
        invariant
            i <= args@.len(),
            f@ == flag@,
            forall|j: int| 0 <= j < i ==> (#[trigger] args@[j])@ != flag@,
        decreases args@.len() - i,
    {
        if args[i] == f {
            assert(arg_texts(args@)[i as int] == flag@);
            return true;
        }
        i = i + 1;
    }
    proof {
        assert forall|j: int| 0 <= j < args@.len() implies #[trigger] arg_texts(args@)[j] != flag@ by {
            assert(arg_texts(args@)[j] == args@[j]@);
        }
    }
    false
}

/// The one-shot command that the arguments ask for, if any.
pub fn command(args: &Vec<String>) -> (r: Option<CliCommand>)
    ensures
        r == chosen_command(arg_texts(args@)),
{
    if contains_arg(args, "--clear") {
        Some(CliCommand::Clear)
    } else if contains_arg(args, "--save-png") {
        Some(CliCommand::SavePng)
    } else if contains_arg(args, "--generate-world") {
        Some(CliCommand::GenerateWorld)
    } else if contains_arg(args, "--generate-globals") {
        Some(CliCommand::GenerateGlobals)
    } else if contains_arg(args, "--regen-territory") {
        Some(CliCommand::RegenTerritory)
    } else {
        None
    }
}

} // verus!
