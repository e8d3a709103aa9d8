//! What holds of every path, and of the files that are found by their paths.

use vstd::prelude::*;
use crate::attach::laws::decimal_is_read_back;
use crate::audit::rotated;
use crate::cli::runs::{state_path, state_root};
use crate::cli::settings::backup_file;
use crate::paths::{
    ancestors, bare, components, file_name, global_file, is_absolute, is_under, joined, last_dot,
    name_start, parent, parent_is_shorter, project_file, reattached, stem, with_name,
    with_name_of,
};
use crate::text::{decimal, rest};

verus! {

/// Whether a text is the plain name of a file.
pub open spec fn plain_name(n: Seq<char>) -> bool {
    n.len() > 0 && !n.contains('/') && n != "."@ && n != ".."@
}

proof fn bare_again(s: Seq<char>)
    ensures
        bare(bare(s)) == bare(s),
    decreases s.len(),
{
    if s.len() > 1 && (s.last() == '/' || (s.last() == '.' && s[s.len() - 2] == '/')) {
        bare_again(s.drop_last());
    }
}

proof fn starts_behind(a: Seq<char>, n: Seq<char>)
    requires
        !n.contains('/'),
        a.len() == 0 || a.last() == '/',
    ensures
        name_start(a + n) == a.len(),
    decreases n.len(),
{
    let s = a + n;
    if n.len() > 0 {
        assert(n[n.len() - 1] == s.last());
        assert(n.last() != '/');
        assert(s.drop_last() =~= a + n.drop_last());
        assert(!n.drop_last().contains('/')) by {
            if n.drop_last().contains('/') {
                let i = choose|i: int| 0 <= i < n.len() - 1 && n.drop_last()[i] == '/';
                assert(n[i] == '/');
            }
        }
        starts_behind(a, n.drop_last());
    } else {
        assert(s =~= a);
    }
}

/// A file below a directory has the name that it was given, and lies in the directory.
pub proof fn joined_file_is_in_its_directory(base: Seq<char>, n: Seq<char>)
    requires
        plain_name(n),
    ensures
        file_name(joined(base, n)) == Some(n),
        parent(joined(base, n)) == Some(bare(base)),
{
    reveal_strlit("/");
    reveal_strlit(".");
    assert(!crate::text::has_prefix(n, "/"@)) by {
        if crate::text::has_prefix(n, "/"@) {
            assert(n.subrange(0, 1)[0] == n[0]);
            assert(n[0] == '/');
        }
    }
    let a = if base.len() == 0 {
        Seq::empty()
    } else if base.last() == '/' {
        base
    } else {
        base + "/"@
    };
    let s = joined(base, n);
    assert(s =~= a + n);
    assert(n[n.len() - 1] != '/');
    assert(s.last() == n[n.len() - 1]);
    assert(bare(s) == s) by {
        if s.len() > 1 && s.last() == '.' && s[s.len() - 2] == '/' {
            if n.len() > 1 {
                assert(s[s.len() - 2] == n[n.len() - 2]);
            } else {
                assert(n =~= "."@);
            }
        }
    }
    starts_behind(a, n);
    assert(rest(s, a.len() as int) =~= n);
    assert(s.subrange(0, a.len() as int) =~= a);
    if base.len() > 0 && base.last() != '/' {
        assert(a.drop_last() =~= base);
    }
    if s == "/"@ {
        assert(s.last() == '/');
    }
}

/// Naming a path anew leaves it in its directory, and gives it the name.
pub proof fn renamed_file_stays_in_its_directory(s: Seq<char>, n: Seq<char>)
    requires
        plain_name(n),
    ensures
        file_name(with_name(s, n)) == Some(n),
        file_name(s) is Some ==> parent(with_name(s, n)) == parent(s),
{
    reveal_strlit("/");
    let b = bare(s);
    joined_file_is_in_its_directory(s, n);
    if file_name(s) is Some {
        let dir = bare(b.subrange(0, name_start(b)));
        joined_file_is_in_its_directory(dir, n);
        bare_again(b.subrange(0, name_start(b)));
        if b == "/"@ {
            assert(b.last() == '/');
            assert(rest(b, 1).len() == 0);
        }
    }
}

/// The directories that a path lies in: the path itself, and then of each the one that it lies
/// in, until there is none.
pub proof fn ancestors_lead_up(s: Seq<char>, i: int)
    ensures
        ancestors(s).len() > 0,
        ancestors(s)[0] == s,
        0 <= i < ancestors(s).len() - 1 ==> parent(ancestors(s)[i]) == Some(ancestors(s)[i + 1]),
        parent(ancestors(s).last()) is None,
    decreases s.len(),
{
    if let Some(p) = parent(s) {
        parent_is_shorter(s);
        ancestors_lead_up(p, i - 1);
        let up = ancestors(p);
        let all = ancestors(s);
        assert(all == seq![s] + up);
        assert(all.last() == up.last());
        if 0 < i < all.len() - 1 {
            assert(all[i] == up[i - 1] && all[i + 1] == up[i]);
        }
        if i == 0 {
            assert(all[1] == up[0]);
        }
    }
}

/// A file of the home directory's own part, or of a project's, has the name that was asked for,
/// and all of them lie together.
pub proof fn own_files_lie_together(home: Seq<char>, n: Seq<char>, m: Seq<char>)
    requires
        plain_name(n),
        plain_name(m),
    ensures
        file_name(global_file(home, n)) == Some(n),
        file_name(project_file(home, n)) == Some(n),
        parent(global_file(home, n)) == parent(global_file(home, m)),
        parent(project_file(home, n)) == parent(project_file(home, m)),
        file_name(parent(global_file(home, n))->0) == Some("printrevolt"@),
        file_name(parent(project_file(home, n))->0) == Some("printrevolt"@),
        file_name(parent(parent(project_file(home, n))->0)->0) == Some(".codex"@),
        parent(parent(global_file(home, n))->0) == Some(bare(home)),
        parent(parent(parent(project_file(home, n))->0)->0) == Some(bare(home)),
{
    reveal_strlit("printrevolt");
    reveal_strlit(".codex");
    reveal_strlit(".");
    reveal_strlit("..");
    assert(plain_name("printrevolt"@)) by {
        assert(forall|i: int| 0 <= i < "printrevolt"@.len() ==> "printrevolt"@[i] != '/');
        assert("printrevolt"@.len() == 11);
    }
    assert(plain_name(".codex"@)) by {
        assert(forall|i: int| 0 <= i < ".codex"@.len() ==> ".codex"@[i] != '/');
        assert(".codex"@.len() == 6);
    }
    let dir = joined(home, "printrevolt"@);
    let repo = joined(home, ".codex"@);
    let own = joined(repo, "printrevolt"@);
    joined_file_is_in_its_directory(home, "printrevolt"@);
    joined_file_is_in_its_directory(dir, n);
    joined_file_is_in_its_directory(dir, m);
    joined_file_is_in_its_directory(home, ".codex"@);
    joined_file_is_in_its_directory(repo, "printrevolt"@);
    joined_file_is_in_its_directory(own, n);
    joined_file_is_in_its_directory(own, m);
    bare_of_joined(home, "printrevolt"@);
    bare_of_joined(home, ".codex"@);
    bare_of_joined(repo, "printrevolt"@);
}

proof fn bare_of_joined(base: Seq<char>, n: Seq<char>)
    requires
        plain_name(n),
    ensures
        bare(joined(base, n)) == joined(base, n),
{
    reveal_strlit("/");
    reveal_strlit(".");
    let s = joined(base, n);
    assert(!crate::text::has_prefix(n, "/"@)) by {
        if crate::text::has_prefix(n, "/"@) {
            assert(n.subrange(0, 1)[0] == n[0]);
            assert(n[0] == '/');
        }
    }
    assert(s.last() == n[n.len() - 1]);
    assert(n[n.len() - 1] != '/');
    if s.len() > 1 && s.last() == '.' && s[s.len() - 2] == '/' {
        if n.len() > 1 {
            assert(s[s.len() - 2] == n[n.len() - 2]);
        } else {
            assert(n =~= "."@);
        }
    }
}

/// Older logs lie beside the current one, and no two of them have the same path.
pub proof fn logs_are_told_apart(base: Seq<char>, i: nat, j: nat)
    requires
        i < j,
        file_name(base) is Some,
        plain_name(file_name(base)->0),
    ensures
        rotated(base, i) != rotated(base, j),
        parent(rotated(base, j)) == parent(base),
{
    reveal_strlit(".");
    reveal_strlit("..");
    let name = file_name(base)->0;
    let a = name + "."@ + decimal(i);
    let b = name + "."@ + decimal(j);
    numbered_name(name, i);
    numbered_name(name, j);
    renamed_file_stays_in_its_directory(base, b);
    assert(b != name) by {
        assert(b.len() > name.len());
    }
    if i > 0 {
        renamed_file_stays_in_its_directory(base, a);
        decimal_is_read_back(i, j);
        decimal_is_read_back(j, j);
        let k = (name.len() + 1) as int;
        assert(a.subrange(k, a.len() as int) =~= decimal(i));
        assert(b.subrange(k, b.len() as int) =~= decimal(j));
    }
}

proof fn numbered_name(name: Seq<char>, n: nat)
    requires
        plain_name(name),
    ensures
        plain_name(name + "."@ + decimal(n)),
{
    reveal_strlit(".");
    reveal_strlit("..");
    crate::attach::laws::digits_are_digits(n);
    let s = name + "."@ + decimal(n);
    let d = decimal(n);
    assert(s.last() == d[d.len() - 1]);
    if s == "."@ || s == ".."@ {
        assert(s.last() == '.');
    }
    if s.contains('/') {
        let i = choose|i: int| 0 <= i < s.len() && s[i] == '/';
        if i < name.len() {
            assert(name[i] == '/');
        } else if i == name.len() {
            assert(s[i] == '.');
        } else {
            assert(s[i] == d[i - name.len() - 1]);
        }
    }
}

/// A name with an ending, without the ending.
pub proof fn ending_is_taken_off(name: Seq<char>, ending: Seq<char>)
    requires
        name.len() > 0,
        !ending.contains('.'),
    ensures
        stem(name.push('.') + ending) == name,
    decreases ending.len(),
{
    let s = name.push('.') + ending;
    dot_is_found(name, ending);
    assert(s.subrange(0, name.len() as int) =~= name);
}

proof fn dot_is_found(name: Seq<char>, ending: Seq<char>)
    requires
        name.len() > 0,
        !ending.contains('.'),
    ensures
        last_dot(name.push('.') + ending) == Some(name.len() as int),
    decreases ending.len(),
{
    let s = name.push('.') + ending;
    if ending.len() > 0 {
        assert(s.last() == ending[ending.len() - 1]);
        assert(s.drop_last() =~= name.push('.') + ending.drop_last());
        assert(!ending.drop_last().contains('.')) by {
            if ending.drop_last().contains('.') {
                let i = choose|i: int| 0 <= i < ending.len() - 1 && ending.drop_last()[i] == '.';
                assert(ending[i] == '.');
            }
        }
        dot_is_found(name, ending.drop_last());
    } else {
        assert(s =~= name.push('.'));
        assert(s.last() == '.');
    }
}

/// Every path lies under itself, and what lies under a path that lies under another lies under
/// that.
pub proof fn lying_under_carries_over(a: Seq<char>, b: Seq<char>, c: Seq<char>)
    ensures
        is_under(a, a),
        is_under(a, b) && is_under(b, c) ==> is_under(a, c),
        is_under(a, b) ==> is_absolute(a) == is_absolute(b) && components(b).len() <= components(
            a,
        ).len() && forall|k: int|
            0 <= k < components(b).len() ==> #[trigger] components(b)[k] == components(a)[k],
{
    let x = components(a);
    let y = components(b);
    let z = components(c);
    assert(x.subrange(0, x.len() as int) =~= x);
    if is_under(a, b) {
        assert forall|k: int| 0 <= k < y.len() implies #[trigger] y[k] == x[k] by {
            assert(x.subrange(0, y.len() as int)[k] == x[k]);
        }
        if is_under(b, c) {
            assert forall|k: int| 0 <= k < z.len() implies #[trigger] z[k] == y[k] by {
                assert(y.subrange(0, z.len() as int)[k] == y[k]);
            }
            assert(x.subrange(0, z.len() as int) =~= z);
        }
    }
}

/// The state of every run has a file of its own, in one directory; and a backup is a file of its
/// own for every moment.
pub proof fn runs_and_backups_have_their_own_files(
    home: Seq<char>,
    run: Seq<char>,
    other: Seq<char>,
    kind: Seq<char>,
    target: Seq<char>,
    now: u64,
    later: u64,
)
    requires
        !run.contains('/'),
        !other.contains('/'),
        run != other,
        now != later,
        file_name(target) is Some ==> !(file_name(target)->0).contains('/'),
    ensures
        file_name(state_path(home, run)) == Some(run + ".json"@),
        state_path(home, run) != state_path(home, other),
        parent(state_path(home, run)) == parent(state_path(home, other)),
        backup_file(home, kind, target, now) is Some <==> file_name(target) is Some,
        file_name(target) is Some ==> backup_file(home, kind, target, now) != backup_file(
            home,
            kind,
            target,
            later,
        ),
{
    json_name(run);
    json_name(other);
    joined_file_is_in_its_directory(state_root(home), run + ".json"@);
    joined_file_is_in_its_directory(state_root(home), other + ".json"@);
    let a = run + ".json"@;
    let b = other + ".json"@;
    if a == b {
        assert(run.len() == other.len());
        assert(a.subrange(0, run.len() as int) =~= run);
        assert(b.subrange(0, other.len() as int) =~= other);
    }
    if let Some(name) = file_name(target) {
        let x = decimal(now as nat) + "-"@ + name;
        let y = decimal(later as nat) + "-"@ + name;
        dated_name(now as nat, name);
        dated_name(later as nat, name);
        let dir = crate::paths::joined3(home, "printrevolt"@, "backups"@, kind);
        joined_file_is_in_its_directory(dir, x);
        joined_file_is_in_its_directory(dir, y);
        if x == y {
            let n = decimal(now as nat);
            let m = decimal(later as nat);
            assert(n.len() == m.len());
            assert(x.subrange(0, n.len() as int) =~= n);
            assert(y.subrange(0, m.len() as int) =~= m);
            decimal_is_read_back(now as nat, u64::MAX as nat);
            decimal_is_read_back(later as nat, u64::MAX as nat);
        }
    }
}

proof fn json_name(run: Seq<char>)
    requires
        !run.contains('/'),
    ensures
        plain_name(run + ".json"@),
{
    reveal_strlit(".json");
    reveal_strlit(".");
    reveal_strlit("..");
    let s = run + ".json"@;
    assert(s.last() == 'n');
    if s.contains('/') {
        let i = choose|i: int| 0 <= i < s.len() && s[i] == '/';
        if i < run.len() {
            assert(run[i] == '/');
        } else {
            assert(s[i] == ".json"@[i - run.len()]);
        }
    }
}

proof fn dated_name(n: nat, name: Seq<char>)
    requires
        !name.contains('/'),
    ensures
        plain_name(decimal(n) + "-"@ + name),
{
    reveal_strlit("-");
    reveal_strlit(".");
    reveal_strlit("..");
    crate::attach::laws::digits_are_digits(n);
    let d = decimal(n);
    let s = d + "-"@ + name;
    assert(s[0] == d[0]);
    if s.contains('/') {
        let i = choose|i: int| 0 <= i < s.len() && s[i] == '/';
        if i < d.len() {
            assert(s[i] == d[i]);
        } else if i == d.len() {
            assert(s[i] == '-');
        } else {
            assert(name[i - d.len() - 1] == '/');
        }
    }
}

/// A path that is put below another form of one of its ancestors ends as the path does: with its
/// own name below what its directory becomes.
pub proof fn reattached_path_ends_as_before(base: Seq<char>, path: Seq<char>, n: int)
    requires
        0 <= n < ancestors(path).len(),
        parent(path) is Some,
    ensures
        reattached(base, ancestors(path), 0) == base,
        file_name(path) matches Some(name) ==> reattached(base, ancestors(path), n + 1) == joined(
            reattached(base, ancestors(parent(path)->0), n),
            name,
        ),
{
    let up = ancestors(parent(path)->0);
    let all = ancestors(path);
    assert(all == seq![path] + up);
    reattached_shift(base, path, up, n);
}

proof fn reattached_shift(base: Seq<char>, path: Seq<char>, up: Seq<Seq<char>>, n: int)
    requires
        0 <= n <= up.len(),
    ensures
        reattached(base, seq![path] + up, n + 1) == with_name_of(reattached(base, up, n), path),
    decreases n,
{
    let all = seq![path] + up;
    if n > 0 {
        assert(all[n] == up[n - 1]);
        reattached_shift(with_name_of(base, up[n - 1]), path, up, n - 1);
    } else {
        assert(all[0] == path);
        reveal_with_fuel(reattached, 2);
    }
}

} // verus!
